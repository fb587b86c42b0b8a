//! Register-access layer: the named bit-fields of a peripheral register,
//! exposed as read / write / modify operations over plain register words.
//!
//! A bit-field is an unshifted mask plus a shift, exactly as the device
//! manual draws it. "Modify" is a read-modify-write of only the named bits,
//! leaving all others untouched; `lemma_modify_only_named_bits` proves that of
//! the stated result.

use vstd::prelude::*;
use tock_registers::fields::Field;
use tock_registers::fields::FieldValue;

verus! {

/// Read the bit-field `(mask, shift)` out of a register word.
///
/// Relies on `tock_registers::fields::Field::read`: the register value is
/// masked by the shifted field mask and shifted down.
#[verifier::external_body]
pub fn reg_field_read(reg: u32, mask: u32, shift: u32) -> (r: u32)
    requires
        shift < 32,
    ensures
        r == (reg & (mask << shift)) >> shift,
{
    Field::<u32, ()>::new(mask, shift as usize).read(reg)
}

/// Read-modify-write the bit-field `(mask, shift)` of a register word to
/// `value`, leaving all bits outside the field as they were.
///
/// Relies on `tock_registers::fields::FieldValue::modify`: the constructor
/// stores the shifted mask and the masked, shifted value, and `modify` clears
/// the field's bits and ors the stored value in.
#[verifier::external_body]
pub fn reg_field_modify(reg: u32, mask: u32, shift: u32, value: u32) -> (r: u32)
    requires
        shift < 32,
    ensures
        r == (reg & !(mask << shift)) | ((value & mask) << shift),
{
    FieldValue::<u32, ()>::new(mask, shift as usize, value).modify(reg)
}

/// The register word that holds `value` in the bit-field `(mask, shift)` and
/// zero in every other bit — what writing that single field value to a
/// register leaves there.
///
/// Relies on `tock_registers::fields::FieldValue::new` and the crate's
/// `From<FieldValue<u32, _>> for u32`: the carried value is the masked field
/// value shifted into place.
#[verifier::external_body]
pub fn reg_field_value(mask: u32, shift: u32, value: u32) -> (r: u32)
    requires
        shift < 32,
    ensures
        r == (value & mask) << shift,
{
    u32::from(FieldValue::<u32, ()>::new(mask, shift as usize, value))
}

/// A read-modify-write of a named bit-field touches only that field's bits:
/// every bit outside the shifted mask keeps its old value, and when the field
/// does not spill past the register's top, its bits read back as the masked
/// new value.
pub proof fn lemma_modify_only_named_bits(reg: u32, mask: u32, shift: u32, value: u32, i: u32)
    requires
        shift < 32,
        i < 32,
    ensures
        (mask << shift) & (1u32 << i) == 0 ==> ((reg & !(mask << shift)) | ((value & mask)
            << shift)) & (1u32 << i) == reg & (1u32 << i),
        (mask << shift) >> shift == mask ==> (((reg & !(mask << shift)) | ((value & mask)
            << shift)) >> shift) & mask == value & mask,
{
    assert((shift < 32 && i < 32 && (mask << shift) & (1u32 << i) == 0) ==> ((reg & !(mask
        << shift)) | ((value & mask) << shift)) & (1u32 << i) == reg & (1u32 << i))
        by (bit_vector);
    assert((shift < 32 && (mask << shift) >> shift == mask) ==> (((reg & !(mask << shift)) | ((
    value & mask) << shift)) >> shift) & mask == value & mask) by (bit_vector);
}

} // verus!
