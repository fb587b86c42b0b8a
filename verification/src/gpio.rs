//! GPIO driver for a BCM-style controller, over the register-access layer.
//!
//! `GPIOInner` is the register file of the peripheral as the device manual
//! lays it out, with the bit-exact field operations the driver performs;
//! every operation states precisely which register bits it changes. The
//! modeled level register folds in the device's behaviour: a write to the set
//! or clear register drives the matching output level. `GPIO` wraps the
//! inner state in the resource lock, so all access is serialized.

use vstd::prelude::*;
use vstd::string::StringExecFns;
use crate::registers::reg_field_modify;
use crate::registers::reg_field_value;
use crate::registers::reg_field_read;
use crate::synchronization::NullLock;
use crate::driver::DeviceDriver;
use crate::driver::DriverError;

verus! {

/// Physical base address of the GPIO controller's register block.
pub const GPIO_START: usize = 0xFE20_0000;

/// The GPIO register file: one word per register the driver touches.
pub struct GPIOInner {
    /// GPFSEL1: function select for pins 10 through 19, three bits per pin.
    pub gpfsel1: u32,
    /// GPFSEL4: function select for pins 40 through 49, three bits per pin.
    pub gpfsel4: u32,
    /// GPSET1: output-set register for pins 32 through 57, one bit per pin.
    pub gpset1: u32,
    /// GPCLR1: output-clear register for pins 32 through 57, one bit per pin.
    pub gpclr1: u32,
    /// GPIO_PUP_PDN_CNTRL_REG0: pull-up/-down control for pins 0 through 15,
    /// two bits per pin.
    pub gpio_pup_pdn_cntrl_reg0: u32,
    /// GPLEV1 as the device would show it: the output levels of pins 32
    /// through 57, driven by the writes to the set and clear registers.
    pub gplev1: u32,
}

/// All registers at their reset value.
pub open spec fn gpio_reset(r: GPIOInner) -> bool {
    &&& r.gpfsel1 == 0
    &&& r.gpfsel4 == 0
    &&& r.gpset1 == 0
    &&& r.gpclr1 == 0
    &&& r.gpio_pup_pdn_cntrl_reg0 == 0
    &&& r.gplev1 == 0
}

impl GPIOInner {
    /// Create an instance with every register at its reset value. The caller
    /// certifies that the register file stands for the device at the correct
    /// physical base address.
    pub fn new() -> (r: Self)
        ensures
            gpio_reset(r),
    {
        GPIOInner {
            gpfsel1: 0,
            gpfsel4: 0,
            gpset1: 0,
            gpclr1: 0,
            gpio_pup_pdn_cntrl_reg0: 0,
            gplev1: 0,
        }
    }

    /// Select the Output function for pin 42: read-modify-write the three
    /// FSEL42 bits of GPFSEL4 to 0b001, leaving every other bit untouched.
    pub fn pin_42_config_output(&mut self)
        ensures
            final(self).gpfsel4 == (old(self).gpfsel4 & !(0b111u32 << 6)) | (0b001u32 << 6),
            final(self).gpfsel1 == old(self).gpfsel1,
            final(self).gpset1 == old(self).gpset1,
            final(self).gpclr1 == old(self).gpclr1,
            final(self).gpio_pup_pdn_cntrl_reg0 == old(self).gpio_pup_pdn_cntrl_reg0,
            final(self).gplev1 == old(self).gplev1,
    {
        self.gpfsel4 = reg_field_modify(self.gpfsel4, 0b111, 6, 0b001);
        proof {
            assert(((0b001u32 & 0b111u32) << 6) == (0b001u32 << 6)) by (bit_vector);
        }
    }

    /// Drive pin 42 high: write its bit to the output-set register, which on
    /// the device raises the pin's output level.
    pub fn pin_42_set(&mut self)
        ensures
            final(self).gpset1 == 1u32 << 10,
            final(self).gplev1 == old(self).gplev1 | (1u32 << 10),
            final(self).gpfsel1 == old(self).gpfsel1,
            final(self).gpfsel4 == old(self).gpfsel4,
            final(self).gpclr1 == old(self).gpclr1,
            final(self).gpio_pup_pdn_cntrl_reg0 == old(self).gpio_pup_pdn_cntrl_reg0,
    {
        self.gpset1 = reg_field_value(0b1, 10, 0b1);
        proof {
            assert(((0b1u32 & 0b1u32) << 10) == (1u32 << 10)) by (bit_vector);
        }
        self.gplev1 = self.gplev1 | (1u32 << 10u32);
    }

    /// Drive pin 42 low: write its bit to the output-clear register, which on
    /// the device drops the pin's output level.
    pub fn pin_42_clr(&mut self)
        ensures
            final(self).gpclr1 == 1u32 << 10,
            final(self).gplev1 == old(self).gplev1 & !(1u32 << 10),
            final(self).gpfsel1 == old(self).gpfsel1,
            final(self).gpfsel4 == old(self).gpfsel4,
            final(self).gpset1 == old(self).gpset1,
            final(self).gpio_pup_pdn_cntrl_reg0 == old(self).gpio_pup_pdn_cntrl_reg0,
    {
        self.gpclr1 = reg_field_value(0b1, 10, 0b1);
        proof {
            assert(((0b1u32 & 0b1u32) << 10) == (1u32 << 10)) by (bit_vector);
        }
        self.gplev1 = self.gplev1 & !(1u32 << 10u32);
    }

    /// Whether pin 42's output level reads back high.
    pub fn pin_42_level(&self) -> (r: bool)
        ensures
            r == (self.gplev1 & (1u32 << 10) != 0),
    {
        let lev = reg_field_read(self.gplev1, 0b1, 10);
        proof {
            let g = self.gplev1;
            assert(((g & (0b1u32 << 10)) >> 10 == 1) == (g & (1u32 << 10) != 0)) by (bit_vector);
            assert((g & (0b1u32 << 10)) >> 10 == 1 || (g & (0b1u32 << 10)) >> 10 == 0)
                by (bit_vector);
        }
        lev == 1
    }

    /// Set both pins 14 and 15 to pull-up: write the whole pull-up/-down
    /// control register with the two PullUp field values, every other bit
    /// zero.
    pub fn disable_pud_14_15_bcm2711(&mut self)
        ensures
            final(self).gpio_pup_pdn_cntrl_reg0 == (0b01u32 << 30) | (0b01u32 << 28),
            final(self).gpfsel1 == old(self).gpfsel1,
            final(self).gpfsel4 == old(self).gpfsel4,
            final(self).gpset1 == old(self).gpset1,
            final(self).gpclr1 == old(self).gpclr1,
            final(self).gplev1 == old(self).gplev1,
    {
        let hi = reg_field_value(0b11, 30, 0b01);
        let lo = reg_field_value(0b11, 28, 0b01);
        proof {
            assert((((0b01u32 & 0b11u32) << 30) | ((0b01u32 & 0b11u32) << 28)) == ((0b01u32 << 30)
                | (0b01u32 << 28))) by (bit_vector);
        }
        self.gpio_pup_pdn_cntrl_reg0 = hi | lo;
    }

    /// Map the PL011 UART onto pins 14 (TX) and 15 (RX): read-modify-write
    /// both pins' function-select fields in GPFSEL1 to AltFunc0 (0b100),
    /// leaving the other pins' fields untouched, then program the pull
    /// resistors.
    pub fn map_pl011_uart(&mut self)
        ensures
            final(self).gpfsel1 == (old(self).gpfsel1 & !(0b111u32 << 15) & !(0b111u32 << 12)) | (
            0b100u32 << 15) | (0b100u32 << 12),
            final(self).gpio_pup_pdn_cntrl_reg0 == (0b01u32 << 30) | (0b01u32 << 28),
            final(self).gpfsel4 == old(self).gpfsel4,
            final(self).gpset1 == old(self).gpset1,
            final(self).gpclr1 == old(self).gpclr1,
            final(self).gplev1 == old(self).gplev1,
    {
        let ghost g = self.gpfsel1;
        self.gpfsel1 = reg_field_modify(self.gpfsel1, 0b111, 15, 0b100);
        self.gpfsel1 = reg_field_modify(self.gpfsel1, 0b111, 12, 0b100);
        proof {
            assert(((((g & !(0b111u32 << 15)) | ((0b100u32 & 0b111u32) << 15)) & !(0b111u32 << 12))
                | ((0b100u32 & 0b111u32) << 12)) == ((g & !(0b111u32 << 15) & !(0b111u32 << 12)) | (
            0b100u32 << 15) | (0b100u32 << 12))) by (bit_vector);
        }
        self.disable_pud_14_15_bcm2711();
    }
}

/// The GPIO peripheral: its register file behind the resource lock, plus the
/// driver's bring-up state.
pub struct GPIO {
    inner: NullLock<GPIOInner>,
    init_done: bool,
}

impl GPIO {
    /// No exclusive access in progress: the lock can be taken.
    pub closed spec fn wf(self) -> bool {
        !self.inner.is_held()
    }

    /// The guarded register file.
    pub closed spec fn regs(self) -> GPIOInner {
        self.inner.contents()
    }

    /// Whether the driver has been brought up.
    pub closed spec fn init_done_spec(self) -> bool {
        self.init_done
    }

    /// Create an instance guarding a register file at its reset value. The
    /// caller certifies the correct physical base address.
    pub fn new() -> (r: Self)
        ensures
            r.wf(),
            gpio_reset(r.regs()),
            !r.init_done_spec(),
    {
        GPIO { inner: NullLock::new(GPIOInner::new()), init_done: false }
    }

    /// Concurrency-safe version of `GPIOInner::pin_42_config_output`.
    pub fn pin_42_config_output(&mut self)
        requires
            old(self).wf(),
        ensures
            final(self).wf(),
            final(self).init_done_spec() == old(self).init_done_spec(),
            final(self).regs().gpfsel4 == (old(self).regs().gpfsel4 & !(0b111u32 << 6)) | (0b001u32
                << 6),
            final(self).regs().gpfsel1 == old(self).regs().gpfsel1,
            final(self).regs().gpset1 == old(self).regs().gpset1,
            final(self).regs().gpclr1 == old(self).regs().gpclr1,
            final(self).regs().gpio_pup_pdn_cntrl_reg0 == old(self).regs().gpio_pup_pdn_cntrl_reg0,
            final(self).regs().gplev1 == old(self).regs().gplev1,
    {
        let mut inner = self.inner.acquire();
        inner.pin_42_config_output();
        self.inner.release(inner);
    }

    /// Concurrency-safe version of `GPIOInner::pin_42_set`.
    pub fn pin_42_set(&mut self)
        requires
            old(self).wf(),
        ensures
            final(self).wf(),
            final(self).init_done_spec() == old(self).init_done_spec(),
            final(self).regs().gpset1 == 1u32 << 10,
            final(self).regs().gplev1 == old(self).regs().gplev1 | (1u32 << 10),
            final(self).regs().gpfsel1 == old(self).regs().gpfsel1,
            final(self).regs().gpfsel4 == old(self).regs().gpfsel4,
            final(self).regs().gpclr1 == old(self).regs().gpclr1,
            final(self).regs().gpio_pup_pdn_cntrl_reg0 == old(self).regs().gpio_pup_pdn_cntrl_reg0,
    {
        let mut inner = self.inner.acquire();
        inner.pin_42_set();
        self.inner.release(inner);
    }

    /// Concurrency-safe version of `GPIOInner::pin_42_clr`.
    pub fn pin_42_clr(&mut self)
        requires
            old(self).wf(),
        ensures
            final(self).wf(),
            final(self).init_done_spec() == old(self).init_done_spec(),
            final(self).regs().gpclr1 == 1u32 << 10,
            final(self).regs().gplev1 == old(self).regs().gplev1 & !(1u32 << 10),
            final(self).regs().gpfsel1 == old(self).regs().gpfsel1,
            final(self).regs().gpfsel4 == old(self).regs().gpfsel4,
            final(self).regs().gpset1 == old(self).regs().gpset1,
            final(self).regs().gpio_pup_pdn_cntrl_reg0 == old(self).regs().gpio_pup_pdn_cntrl_reg0,
    {
        let mut inner = self.inner.acquire();
        inner.pin_42_clr();
        self.inner.release(inner);
    }

    /// Concurrency-safe read of pin 42's output level.
    pub fn pin_42_level(&mut self) -> (r: bool)
        requires
            old(self).wf(),
        ensures
            *final(self) == *old(self),
            r == (old(self).regs().gplev1 & (1u32 << 10) != 0),
    {
        let inner = self.inner.acquire();
        let r = inner.pin_42_level();
        self.inner.release(inner);
        proof {
            NullLock::<GPIOInner>::lemma_released_locks_equal(self.inner, old(self).inner);
        }
        r
    }

    /// Concurrency-safe version of `GPIOInner::map_pl011_uart`.
    pub fn map_pl011_uart(&mut self)
        requires
            old(self).wf(),
        ensures
            final(self).wf(),
            final(self).init_done_spec() == old(self).init_done_spec(),
            final(self).regs().gpfsel1 == (old(self).regs().gpfsel1 & !(0b111u32 << 15) & !(
            0b111u32 << 12)) | (0b100u32 << 15) | (0b100u32 << 12),
            final(self).regs().gpio_pup_pdn_cntrl_reg0 == (0b01u32 << 30) | (0b01u32 << 28),
            final(self).regs().gpfsel4 == old(self).regs().gpfsel4,
            final(self).regs().gpset1 == old(self).regs().gpset1,
            final(self).regs().gpclr1 == old(self).regs().gpclr1,
            final(self).regs().gplev1 == old(self).regs().gplev1,
    {
        let mut inner = self.inner.acquire();
        inner.map_pl011_uart();
        self.inner.release(inner);
    }
}

impl DeviceDriver for GPIO {
    open spec fn compat_name(&self) -> Seq<char> {
        "BCM GPIO"@
    }

    closed spec fn init_succeeds(&self) -> bool {
        true
    }

    closed spec fn initialized(&self) -> bool {
        self.init_done
    }

    fn compatible(&self) -> (r: String) {
        String::from_str("BCM GPIO")
    }

    fn init(&mut self) -> (r: Result<(), DriverError>) {
        self.init_done = true;
        Ok(())
    }
}

} // verus!
