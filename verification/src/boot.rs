//! Bootstrap sequencer: the reset-to-runtime bring-up, as a strictly ordered
//! state machine over an explicitly modeled machine.
//!
//! The stages run in one fixed order with no backward transitions: gate the
//! core, establish the stack, clear the uninitialized-data region, calibrate
//! the time base, hand off to the runtime. The machine state the stages act
//! on — the memory, the region boundaries the build step provides, the core
//! identifier, and the counter frequency — is passed in as plain values, so
//! each stage's effect is stated and checked exactly.

use vstd::prelude::*;

verus! {

/// A memory region the build/link step hands in: byte addresses
/// `start .. end` within the modeled memory.
#[derive(Copy, Clone, PartialEq, Eq, Structural)]
pub struct MemoryRegionDescriptor {
    /// First byte of the region.
    pub start: usize,
    /// One past the last byte of the region.
    pub end: usize,
}

impl MemoryRegionDescriptor {
    /// The region lies within a memory of the given size.
    pub open spec fn wf_for(self, mem: Seq<u8>) -> bool {
        self.start <= self.end <= mem.len()
    }
}

/// The strictly ordered stages of the bootstrap sequencer. A parked core
/// stays parked; every other stage has exactly one successor.
#[derive(Copy, Clone, PartialEq, Eq, Structural, Debug)]
pub enum BootStage {
    CoreGate,
    StackInit,
    MemoryClear,
    TimerCalibrate,
    RuntimeHandoff,
    Parked,
}

/// What bootstrap did with the core.
#[derive(Copy, Clone, PartialEq, Eq, Structural, Debug)]
pub enum BootOutcome {
    /// A secondary core: parked in a low-power wait, never to proceed.
    Parked,
    /// The primary core: control was handed to driver initialization.
    HandedOff,
}

/// The core identifier carried in the low two affinity bits of the
/// multiprocessor affinity register value.
pub fn get_cpu_id(mpidr: u64) -> (r: u64)
    ensures
        r == mpidr & 0b11,
{
    mpidr & 0b11
}

/// The write-once cell holding the hardware timer's counting frequency,
/// written by bootstrap's calibration stage and read-only thereafter.
pub struct TimerFrequency {
    value: Option<u32>,
}

impl TimerFrequency {
    /// Whether the frequency has been written.
    pub closed spec fn is_set(self) -> bool {
        self.value is Some
    }

    /// The stored frequency.
    pub closed spec fn frequency(self) -> u32
        recommends
            self.is_set(),
    {
        self.value->Some_0
    }

    /// An unwritten cell.
    pub fn new() -> (r: Self)
        ensures
            !r.is_set(),
    {
        TimerFrequency { value: None }
    }

    /// Write the frequency, exactly once.
    pub fn set(&mut self, freq: u32)
        requires
            !old(self).is_set(),
        ensures
            final(self).is_set(),
            final(self).frequency() == freq,
    {
        self.value = Some(freq);
    }

    /// Whether calibration has written the frequency yet.
    pub fn is_calibrated(&self) -> (r: bool)
        ensures
            r == self.is_set(),
    {
        self.value.is_some()
    }

    /// Read the frequency; legal only after calibration has written it.
    pub fn get(&self) -> (r: u32)
        requires
            self.is_set(),
        ensures
            r == self.frequency(),
    {
        match &self.value {
            Option::Some(f) => *f,
            Option::None => vstd::pervasive::unreached(),
        }
    }
}

/// Zero every byte of the uninitialized-data region within the modeled
/// memory, leaving every byte outside it untouched. All statically declared
/// mutable state thereby starts at a known, zero value.
pub fn zero_bss(mem: &mut Vec<u8>, region: MemoryRegionDescriptor)
    requires
        region.wf_for(old(mem)@),
    ensures
        final(mem)@.len() == old(mem)@.len(),
        forall|i: int| region.start <= i < region.end ==> final(mem)@[i] == 0,
        forall|i: int|
            0 <= i < old(mem)@.len() && !(region.start <= i < region.end) ==> final(mem)@[i]
                == old(mem)@[i],
{
    let mut i: usize = region.start;
    while i < region.end
        invariant
            region.start <= i <= region.end,
            region.end <= mem@.len(),
            mem@.len() == old(mem)@.len(),
            forall|j: int| region.start <= j < i ==> mem@[j] == 0,
            forall|j: int|
                0 <= j < old(mem)@.len() && !(region.start <= j < i) ==> mem@[j] == old(mem)@[j],
        decreases region.end - i,
    {
        mem.set(i, 0);
        i = i + 1;
    }
}

/// Read the hardware counter frequency — handed in by the caller, who alone
/// can reach the counter register — into the process-wide write-once cell.
/// Duration-to-tick conversion depends on it, so this must run before any
/// duration-based wait.
pub fn setup_timer(counter_freq: u32, cell: &mut TimerFrequency)
    requires
        !old(cell).is_set(),
    ensures
        final(cell).is_set(),
        final(cell).frequency() == counter_freq,
{
    cell.set(counter_freq);
}

/// The bootstrap sequencer itself: runs each stage exactly once, in order.
/// Every transition demands the stage before it, so no stage can be skipped,
/// repeated, or reordered.
pub struct BootSequencer {
    stage: BootStage,
    stack_pointer: Option<usize>,
}

impl BootSequencer {
    /// The stage the sequencer is in.
    pub closed spec fn stage_spec(self) -> BootStage {
        self.stage
    }

    /// The established stack pointer, once StackInit has run.
    pub closed spec fn stack_pointer_spec(self) -> Option<usize> {
        self.stack_pointer
    }

    /// A sequencer at reset: at the core gate, no stack established.
    pub fn new() -> (r: Self)
        ensures
            r.stage_spec() == BootStage::CoreGate,
            r.stack_pointer_spec() is None,
    {
        BootSequencer { stage: BootStage::CoreGate, stack_pointer: None }
    }

    /// CoreGate: read the core identifier; the designated primary core (id 0)
    /// proceeds, every other core is parked permanently — no wake-up path
    /// exists.
    pub fn gate(&mut self, mpidr: u64) -> (proceed: bool)
        requires
            old(self).stage_spec() == BootStage::CoreGate,
        ensures
            proceed <==> mpidr & 0b11 == 0,
            proceed ==> final(self).stage_spec() == BootStage::StackInit,
            !proceed ==> final(self).stage_spec() == BootStage::Parked,
            final(self).stack_pointer_spec() == old(self).stack_pointer_spec(),
    {
        let id = get_cpu_id(mpidr);
        if id == 0 {
            self.stage = BootStage::StackInit;
            true
        } else {
            self.stage = BootStage::Parked;
            false
        }
    }

    /// StackInit: establish the call stack pointer from the linker-provided
    /// end-of-stack-region address, before any procedure call that needs a
    /// stack is legal.
    pub fn init_stack(&mut self, stack_top: usize)
        requires
            old(self).stage_spec() == BootStage::StackInit,
        ensures
            final(self).stage_spec() == BootStage::MemoryClear,
            final(self).stack_pointer_spec() == Some(stack_top),
    {
        self.stack_pointer = Some(stack_top);
        self.stage = BootStage::MemoryClear;
    }

    /// MemoryClear: zero the uninitialized-data region, before any component
    /// reads it.
    pub fn clear_memory(&mut self, mem: &mut Vec<u8>, region: MemoryRegionDescriptor)
        requires
            old(self).stage_spec() == BootStage::MemoryClear,
            region.wf_for(old(mem)@),
        ensures
            final(self).stage_spec() == BootStage::TimerCalibrate,
            final(self).stack_pointer_spec() == old(self).stack_pointer_spec(),
            final(mem)@.len() == old(mem)@.len(),
            forall|i: int| region.start <= i < region.end ==> final(mem)@[i] == 0,
            forall|i: int|
                0 <= i < old(mem)@.len() && !(region.start <= i < region.end) ==> final(mem)@[i]
                    == old(mem)@[i],
    {
        zero_bss(mem, region);
        self.stage = BootStage::TimerCalibrate;
    }

    /// TimerCalibrate: store the hardware counter frequency into the
    /// write-once cell, before any duration-based wait is attempted.
    pub fn calibrate(&mut self, counter_freq: u32, cell: &mut TimerFrequency)
        requires
            old(self).stage_spec() == BootStage::TimerCalibrate,
            !old(cell).is_set(),
        ensures
            final(self).stage_spec() == BootStage::RuntimeHandoff,
            final(self).stack_pointer_spec() == old(self).stack_pointer_spec(),
            final(cell).is_set(),
            final(cell).frequency() == counter_freq,
    {
        setup_timer(counter_freq, cell);
        self.stage = BootStage::RuntimeHandoff;
    }

    /// RuntimeHandoff: consume the sequencer and transfer control, exactly
    /// once, toward driver initialization. Consuming the sequencer is what
    /// makes the handoff one-way: no stage can run after it.
    pub fn handoff(self) -> (r: BootOutcome)
        requires
            self.stage_spec() == BootStage::RuntimeHandoff,
        ensures
            r == BootOutcome::HandedOff,
    {
        BootOutcome::HandedOff
    }
}

/// The whole reset-to-runtime sequence over the modeled machine: gate the
/// core, establish the stack, clear the uninitialized-data region, calibrate
/// the time base, hand off. A core whose identifier is not the primary's
/// parks first and touches neither the memory nor the timer cell.
pub fn start_rust(
    mpidr: u64,
    stack_top: usize,
    bss: MemoryRegionDescriptor,
    mem: &mut Vec<u8>,
    counter_freq: u32,
    timer: &mut TimerFrequency,
) -> (r: BootOutcome)
    requires
        bss.wf_for(old(mem)@),
        !old(timer).is_set(),
    ensures
        r == BootOutcome::HandedOff <==> mpidr & 0b11 == 0,
        mpidr & 0b11 != 0 ==> r == BootOutcome::Parked && final(mem)@ == old(mem)@ && *final(timer)
            == *old(timer),
        mpidr & 0b11 == 0 ==> {
            &&& final(mem)@.len() == old(mem)@.len()
            &&& forall|i: int| bss.start <= i < bss.end ==> final(mem)@[i] == 0
            &&& forall|i: int|
                0 <= i < old(mem)@.len() && !(bss.start <= i < bss.end) ==> final(mem)@[i] == old(
                    mem,
                )@[i]
            &&& final(timer).is_set()
            &&& final(timer).frequency() == counter_freq
        },
{
    let mut sequencer = BootSequencer::new();
    let proceed = sequencer.gate(mpidr);
    if !proceed {
        return BootOutcome::Parked;
    }
    sequencer.init_stack(stack_top);
    sequencer.clear_memory(mem, bss);
    sequencer.calibrate(counter_freq, timer);
    sequencer.handoff()
}

} // verus!
