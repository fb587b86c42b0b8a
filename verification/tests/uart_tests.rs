use bitbang_kernel::uart::OutputCapability;
use bitbang_kernel::uart::ParityMode;
use bitbang_kernel::uart::SimulatedSink;
use bitbang_kernel::uart::SoftUartTransmitter;
use bitbang_kernel::uart::StopBitsOption;
use bitbang_kernel::uart::UartError;

fn transmit(word: u8, parity: ParityMode, stop: StopBitsOption) -> Vec<bool> {
    let sink = SimulatedSink::new();
    let mut uart = SoftUartTransmitter::new(sink, 19200, stop, parity).unwrap();
    uart.write(word).unwrap();
    uart.release().levels
}

#[test]
fn lsb_first_frame_shape() {
    // 0b1011_0001, no parity, one stop bit: start low, data LSB first, stop
    // high.
    let levels = transmit(0b1011_0001, ParityMode::NoParity, StopBitsOption::One);
    let expected = vec![
        false, // start
        true, false, false, false, true, true, false, true, // data, LSB first
        true, // stop
    ];
    assert_eq!(levels, expected);
}

#[test]
fn even_parity_balances_ones() {
    // 0b0000_0111 has three set bits: Even parity adds a 1 so the total is
    // even.
    let levels = transmit(0b0000_0111, ParityMode::Even, StopBitsOption::One);
    assert_eq!(levels.len(), 1 + 8 + 1 + 1);
    assert_eq!(levels[9], true);
    let ones: usize = levels[1..10].iter().filter(|b| **b).count();
    assert_eq!(ones % 2, 0);
}

#[test]
fn odd_parity_complements() {
    // Same byte under Odd parity: the parity bit is the complement, and the
    // data-plus-parity set-bit count is odd.
    let levels = transmit(0b0000_0111, ParityMode::Odd, StopBitsOption::One);
    assert_eq!(levels[9], false);
    let ones: usize = levels[1..10].iter().filter(|b| **b).count();
    assert_eq!(ones % 2, 1);
}

#[test]
fn even_parity_of_even_byte() {
    // 0b0000_0011 has two set bits: Even parity adds a 0, Odd adds a 1.
    let even = transmit(0b0000_0011, ParityMode::Even, StopBitsOption::Zero);
    assert_eq!(even[9], false);
    let odd = transmit(0b0000_0011, ParityMode::Odd, StopBitsOption::Zero);
    assert_eq!(odd[9], true);
}

#[test]
fn no_parity_emits_no_parity_bit() {
    let levels = transmit(0b1111_1111, ParityMode::NoParity, StopBitsOption::Zero);
    assert_eq!(levels.len(), 1 + 8);
}

#[test]
fn stop_bit_counts() {
    // Exactly n stop-bit periods, all high, follow the data and parity
    // portion.
    let zero = transmit(0x5A, ParityMode::Even, StopBitsOption::Zero);
    assert_eq!(zero.len(), 1 + 8 + 1);
    let one = transmit(0x5A, ParityMode::Even, StopBitsOption::One);
    assert_eq!(one.len(), 1 + 8 + 1 + 1);
    assert!(one[10]);
    let two = transmit(0x5A, ParityMode::Even, StopBitsOption::Two);
    assert_eq!(two.len(), 1 + 8 + 1 + 2);
    assert!(two[10] && two[11]);
}

#[test]
fn frame_length_is_total_bit_periods() {
    // Each level is held one bit period, so the frame duration is the level
    // count times the period: 1 + 8 + parity bits + stop bits of them.
    let levels = transmit(0x00, ParityMode::Odd, StopBitsOption::Two);
    assert_eq!(levels.len(), 1 + 8 + 1 + 2);
    let levels = transmit(0xFF, ParityMode::NoParity, StopBitsOption::One);
    assert_eq!(levels.len(), 1 + 8 + 0 + 1);
}

#[test]
fn zero_baud_rate_rejected() {
    let sink = SimulatedSink::new();
    let r = SoftUartTransmitter::new(sink, 0, StopBitsOption::One, ParityMode::NoParity);
    assert!(matches!(r, Err(UartError::ZeroBaudRate)));
}

#[test]
fn positive_baud_rate_accepted() {
    let sink = SimulatedSink::new();
    let uart = SoftUartTransmitter::new(sink, 115200, StopBitsOption::One, ParityMode::Even)
        .unwrap();
    assert_eq!(uart.get_baud_rate(), 115200);
}

#[test]
fn flush_is_a_no_op() {
    let sink = SimulatedSink::new();
    let mut uart = SoftUartTransmitter::new(sink, 9600, StopBitsOption::One, ParityMode::NoParity)
        .unwrap();
    uart.write(0x41).unwrap();
    let before = uart.release().levels.clone();
    let sink2 = SimulatedSink::new();
    let mut uart2 = SoftUartTransmitter::new(sink2, 9600, StopBitsOption::One, ParityMode::NoParity)
        .unwrap();
    uart2.write(0x41).unwrap();
    assert!(uart2.flush().is_ok());
    assert_eq!(uart2.release().levels, before);
}

#[test]
fn consecutive_writes_append_frames() {
    let sink = SimulatedSink::new();
    let mut uart = SoftUartTransmitter::new(sink, 19200, StopBitsOption::One, ParityMode::NoParity)
        .unwrap();
    uart.write(0x00).unwrap();
    uart.write(0xFF).unwrap();
    let levels = uart.release().levels;
    assert_eq!(levels.len(), 20);
    // First frame: all-zero data; second: all-one data.
    assert_eq!(levels[1..9].iter().filter(|b| **b).count(), 0);
    assert_eq!(levels[11..19].iter().filter(|b| **b).count(), 8);
}

#[test]
fn sink_tracks_line_level() {
    let mut sink = SimulatedSink::new();
    assert!(!sink.line_level);
    sink.set_high();
    assert!(sink.line_level);
    sink.set_low();
    assert!(!sink.line_level);
    sink.set_state(true);
    assert!(sink.line_level);
    assert_eq!(sink.levels, vec![true, false, true]);
}
