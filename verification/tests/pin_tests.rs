use bitbang_kernel::pin::Gpio0;
use bitbang_kernel::pin::Gpio42;
use bitbang_kernel::pin::Input;
use bitbang_kernel::pin::Pin;
use bitbang_kernel::pin::PushPullOutput;
use bitbang_kernel::uart::OutputCapability;
use bitbang_kernel::uart::ParityMode;
use bitbang_kernel::uart::SoftUartTransmitter;
use bitbang_kernel::uart::StopBitsOption;

#[test]
fn input_to_output_then_high_reads_high() {
    // An Input-mode token exposes no level-setting operation; transitioning
    // to Output and setting high must succeed and read back high.
    let pin: Pin<Gpio42, Input> = Pin::new();
    let mut pin: Pin<Gpio42, PushPullOutput> = pin.into_mode();
    pin.set_high();
    assert!(pin.read_level());
    pin.set_low();
    assert!(!pin.read_level());
    pin.set_state(true);
    assert!(pin.read_level());
}

#[test]
fn fresh_pin_line_is_low() {
    let pin: Pin<Gpio0, Input> = Pin::new();
    let pin: Pin<Gpio0, PushPullOutput> = pin.into_mode();
    assert!(!pin.read_level());
}

#[test]
fn transmitter_over_a_pin_token() {
    // The transmitter is polymorphic over its output capability: bound to a
    // real pin token, a frame with one stop bit leaves the line high.
    let pin: Pin<Gpio0, Input> = Pin::new();
    let pin: Pin<Gpio0, PushPullOutput> = pin.into_mode();
    let mut uart =
        SoftUartTransmitter::new(pin, 19200, StopBitsOption::One, ParityMode::NoParity).unwrap();
    uart.write(0b0000_0000).unwrap();
    let pin = uart.release();
    assert!(pin.read_level());
}

#[test]
fn transmitter_without_stop_bits_leaves_last_data_level() {
    let pin: Pin<Gpio0, Input> = Pin::new();
    let pin: Pin<Gpio0, PushPullOutput> = pin.into_mode();
    let mut uart =
        SoftUartTransmitter::new(pin, 19200, StopBitsOption::Zero, ParityMode::NoParity).unwrap();
    uart.write(0b0000_0000).unwrap();
    let pin = uart.release();
    assert!(!pin.read_level());
}
