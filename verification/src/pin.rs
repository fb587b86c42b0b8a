//! Pin capability model: typed tokens for physical pins in specific
//! electrical modes.
//!
//! A `Pin<I, M>` is a capability value that exists only while pin `I` is
//! known, by the type system, to be in mode `M`. A mode transition consumes
//! the old token, reprograms the pin's function-select field, and produces a
//! token typed at the new mode; only transitions in the pin's legal-mode set
//! are expressible. Level-setting operations exist solely on tokens in
//! `PushPullOutput` mode — an input-mode token exposes none — so a pin cannot
//! be driven in an invalid mode by construction.

use vstd::prelude::*;
use core::marker::PhantomData;
use crate::uart::OutputCapability;

verus! {

/// An electrical mode a pin can be in, as a type, carrying the value of the
/// pin's three-bit function-select field that selects it.
pub trait PinMode: Sized {
    /// The function-select value that selects this mode.
    spec fn fsel_spec() -> u32;

    /// The function-select value, as a machine integer.
    fn fsel_value() -> (r: u32)
        ensures
            r == Self::fsel_spec(),
    ;
}

/// Input (high-impedance) mode: the hardware reset default.
pub struct Input;

/// Push-pull output mode: the only mode whose tokens expose level setting.
pub struct PushPullOutput;

/// Alternate function 0: the pin is handed to a dedicated on-chip peripheral.
pub struct AltFunc0;

impl PinMode for Input {
    open spec fn fsel_spec() -> u32 {
        0b000
    }

    fn fsel_value() -> (r: u32) {
        0b000
    }
}

impl PinMode for PushPullOutput {
    open spec fn fsel_spec() -> u32 {
        0b001
    }

    fn fsel_value() -> (r: u32) {
        0b001
    }
}

impl PinMode for AltFunc0 {
    open spec fn fsel_spec() -> u32 {
        0b100
    }

    fn fsel_value() -> (r: u32) {
        0b100
    }
}

/// A physical pin: its number, its hardware-reset-default mode, and its
/// closed, enumerable set of legal electrical modes — fixed per physical pin,
/// not runtime data.
pub trait PinId: Sized {
    /// The mode the pin wakes up in at reset.
    type Reset: PinMode;

    /// The pin's number on the device.
    spec fn number_spec() -> u32;

    /// Whether a function-select value is in this pin's legal-mode set.
    spec fn legal_fsel(v: u32) -> bool;

    /// The pin's number, as a machine integer.
    fn number() -> (r: u32)
        ensures
            r == Self::number_spec(),
    ;

    /// The reset-default mode is itself legal.
    proof fn reset_legal()
        ensures
            Self::legal_fsel(<Self::Reset as PinMode>::fsel_spec()),
    ;
}

/// Pin 0: general purpose, Input or PushPullOutput.
pub struct Gpio0;

/// Pin 14: general purpose, or the PL011 UART's TX line under AltFunc0.
pub struct Gpio14;

/// Pin 42: the board's activity LED, Input or PushPullOutput.
pub struct Gpio42;

impl PinId for Gpio0 {
    type Reset = Input;

    open spec fn number_spec() -> u32 {
        0
    }

    open spec fn legal_fsel(v: u32) -> bool {
        v == 0b000 || v == 0b001
    }

    fn number() -> (r: u32) {
        0
    }

    proof fn reset_legal() {
    }
}

impl PinId for Gpio14 {
    type Reset = Input;

    open spec fn number_spec() -> u32 {
        14
    }

    open spec fn legal_fsel(v: u32) -> bool {
        v == 0b000 || v == 0b001 || v == 0b100
    }

    fn number() -> (r: u32) {
        14
    }

    proof fn reset_legal() {
    }
}

impl PinId for Gpio42 {
    type Reset = Input;

    open spec fn number_spec() -> u32 {
        42
    }

    open spec fn legal_fsel(v: u32) -> bool {
        v == 0b000 || v == 0b001
    }

    fn number() -> (r: u32) {
        42
    }

    proof fn reset_legal() {
    }
}

/// A capability token: physical pin `I`, known by this token's type to be in
/// mode `M`. It carries the function-select value programmed for the pin and
/// the simulated electrical state of the line.
pub struct Pin<I: PinId, M: PinMode> {
    id: PhantomData<I>,
    mode: PhantomData<M>,
    fsel: u32,
    line_level: bool,
    driven: Ghost<Seq<bool>>,
    held: Ghost<nat>,
}

impl<I: PinId, M: PinMode> Pin<I, M> {
    /// The token is coherent: the programmed function-select value is the one
    /// the token's mode type stands for, and it is legal for this pin.
    pub closed spec fn wf(self) -> bool {
        self.fsel == M::fsel_spec() && I::legal_fsel(self.fsel)
    }

    /// The function-select value programmed for this pin.
    pub closed spec fn fsel_programmed(self) -> u32 {
        self.fsel
    }

    /// The simulated electrical level of the line.
    pub closed spec fn level(self) -> bool {
        self.line_level
    }

    /// The levels this pin has been driven to while in output mode.
    pub closed spec fn driven_view(self) -> Seq<bool> {
        self.driven@
    }

    /// The total nanoseconds this pin's holder has busy-waited.
    pub closed spec fn held_nanos(self) -> nat {
        self.held@
    }

    /// Consume this token, reprogram the pin's function-select field to the
    /// target mode's value, and yield a token typed at the target mode. Only
    /// modes in the pin's legal set can be requested.
    pub fn into_mode<M2: PinMode>(self) -> (r: Pin<I, M2>)
        requires
            I::legal_fsel(M2::fsel_spec()),
        ensures
            r.wf(),
            r.fsel_programmed() == M2::fsel_spec(),
            r.level() == self.level(),
            r.driven_view() == self.driven_view(),
            r.held_nanos() == self.held_nanos(),
    {
        Pin {
            id: PhantomData,
            mode: PhantomData,
            fsel: M2::fsel_value(),
            line_level: self.line_level,
            driven: self.driven,
            held: self.held,
        }
    }
}

impl<I: PinId> Pin<I, <I as PinId>::Reset> {
    /// Acquire the pin's token in its hardware-reset-default mode, with the
    /// line at the low level. A correct program constructs at most one token
    /// per pin identity — two would model two owners of the same physical
    /// pin; that discipline is the caller's.
    pub fn new() -> (r: Self)
        ensures
            r.wf(),
            r.fsel_programmed() == <<I as PinId>::Reset as PinMode>::fsel_spec(),
            r.level() == false,
            r.driven_view() == Seq::<bool>::empty(),
            r.held_nanos() == 0,
    {
        proof {
            I::reset_legal();
        }
        Pin {
            id: PhantomData,
            mode: PhantomData,
            fsel: <<I as PinId>::Reset as PinMode>::fsel_value(),
            line_level: false,
            driven: Ghost(Seq::empty()),
            held: Ghost(0nat),
        }
    }
}

impl<I: PinId> Pin<I, PushPullOutput> {
    /// On an output-mode token the output-capability views are the token's
    /// own: the levels driven, the time held, and the line level coincide.
    pub proof fn lemma_capability_views(p: Pin<I, PushPullOutput>)
        ensures
            p.emitted() == p.driven_view(),
            p.waited_nanos() == p.held_nanos(),
            p.line() == p.level(),
    {
    }

    /// The level the pin's line is currently driven to, read back.
    pub fn read_level(&self) -> (r: bool)
        ensures
            r == self.level(),
    {
        self.line_level
    }
}

impl<I: PinId> OutputCapability for Pin<I, PushPullOutput> {
    closed spec fn emitted(&self) -> Seq<bool> {
        self.driven@
    }

    closed spec fn waited_nanos(&self) -> nat {
        self.held@
    }

    closed spec fn line(&self) -> bool {
        self.line_level
    }

    fn set_high(&mut self) {
        self.line_level = true;
        self.driven = Ghost(self.driven@.push(true));
    }

    fn set_low(&mut self) {
        self.line_level = false;
        self.driven = Ghost(self.driven@.push(false));
    }

    fn set_state(&mut self, high: bool) {
        self.line_level = high;
        self.driven = Ghost(self.driven@.push(high));
    }

    fn hold(&mut self, nanos: u64) {
        self.held = Ghost(self.held@ + nanos as nat);
    }
}

} // verus!
