use bitbang_kernel::boot::BootOutcome;
use bitbang_kernel::boot::BootSequencer;
use bitbang_kernel::boot::MemoryRegionDescriptor;
use bitbang_kernel::boot::TimerFrequency;
use bitbang_kernel::boot::get_cpu_id;
use bitbang_kernel::boot::setup_timer;
use bitbang_kernel::boot::start_rust;
use bitbang_kernel::boot::zero_bss;

#[test]
fn cpu_id_is_low_two_bits() {
    assert_eq!(get_cpu_id(0), 0);
    assert_eq!(get_cpu_id(0b01), 1);
    assert_eq!(get_cpu_id(0b10), 2);
    assert_eq!(get_cpu_id(0b1101), 1);
    assert_eq!(get_cpu_id(0xFFFF_FFFF_FFFF_FFFC), 0);
}

#[test]
fn memory_clear_zeroes_exactly_the_region() {
    let mut mem: Vec<u8> = vec![0xAB; 16];
    let region = MemoryRegionDescriptor { start: 4, end: 12 };
    zero_bss(&mut mem, region);
    assert_eq!(mem.len(), 16);
    for (i, b) in mem.iter().enumerate() {
        if (4..12).contains(&i) {
            assert_eq!(*b, 0);
        } else {
            assert_eq!(*b, 0xAB);
        }
    }
}

#[test]
fn memory_clear_of_empty_region() {
    let mut mem: Vec<u8> = vec![7, 7, 7];
    let region = MemoryRegionDescriptor { start: 1, end: 1 };
    zero_bss(&mut mem, region);
    assert_eq!(mem, vec![7, 7, 7]);
}

#[test]
fn timer_cell_is_write_once() {
    let mut cell = TimerFrequency::new();
    assert!(!cell.is_calibrated());
    setup_timer(54_000_000, &mut cell);
    assert!(cell.is_calibrated());
    assert_eq!(cell.get(), 54_000_000);
}

#[test]
fn primary_core_boots_to_handoff() {
    let mut mem: Vec<u8> = vec![0x55; 8];
    let mut timer = TimerFrequency::new();
    let bss = MemoryRegionDescriptor { start: 2, end: 6 };
    let outcome = start_rust(0, 0x8_0000, bss, &mut mem, 54_000_000, &mut timer);
    assert_eq!(outcome, BootOutcome::HandedOff);
    assert_eq!(mem, vec![0x55, 0x55, 0, 0, 0, 0, 0x55, 0x55]);
    assert!(timer.is_calibrated());
    assert_eq!(timer.get(), 54_000_000);
}

#[test]
fn secondary_core_parks_and_touches_nothing() {
    // A core with a non-zero identifier is parked immediately and leaves
    // the memory and the timer cell untouched.
    for mpidr in [1u64, 2, 3, 0b111] {
        let mut mem: Vec<u8> = vec![0x55; 8];
        let mut timer = TimerFrequency::new();
        let bss = MemoryRegionDescriptor { start: 2, end: 6 };
        let outcome = start_rust(mpidr, 0x8_0000, bss, &mut mem, 54_000_000, &mut timer);
        assert_eq!(outcome, BootOutcome::Parked);
        assert_eq!(mem, vec![0x55; 8]);
        assert!(!timer.is_calibrated());
    }
}

#[test]
fn sequencer_runs_stages_in_order() {
    let mut sequencer = BootSequencer::new();
    assert!(sequencer.gate(0));
    sequencer.init_stack(0x8_0000);
    let mut mem: Vec<u8> = vec![1, 2, 3, 4];
    sequencer.clear_memory(&mut mem, MemoryRegionDescriptor { start: 0, end: 4 });
    assert_eq!(mem, vec![0, 0, 0, 0]);
    let mut timer = TimerFrequency::new();
    sequencer.calibrate(54_000_000, &mut timer);
    assert_eq!(timer.get(), 54_000_000);
    assert_eq!(sequencer.handoff(), BootOutcome::HandedOff);
}

#[test]
fn sequencer_gate_parks_secondary_core() {
    let mut sequencer = BootSequencer::new();
    assert!(!sequencer.gate(2));
}
