use bitbang_kernel::driver::DeviceDriver;
use bitbang_kernel::gpio::GPIO;
use bitbang_kernel::gpio::GPIOInner;
use bitbang_kernel::gpio::GPIO_START;

#[test]
fn reset_register_file_is_zero() {
    let inner = GPIOInner::new();
    assert_eq!(inner.gpfsel1, 0);
    assert_eq!(inner.gpfsel4, 0);
    assert_eq!(inner.gpset1, 0);
    assert_eq!(inner.gpclr1, 0);
    assert_eq!(inner.gpio_pup_pdn_cntrl_reg0, 0);
    assert_eq!(inner.gplev1, 0);
}

#[test]
fn config_output_sets_fsel42_field() {
    let mut inner = GPIOInner::new();
    inner.pin_42_config_output();
    assert_eq!(inner.gpfsel4, 0b001 << 6);
}

#[test]
fn config_output_leaves_other_bits() {
    // Read-modify-write of the named field only: from an all-ones register,
    // every bit outside FSEL42 keeps its value.
    let mut inner = GPIOInner {
        gpfsel1: 0,
        gpfsel4: 0xFFFF_FFFF,
        gpset1: 0,
        gpclr1: 0,
        gpio_pup_pdn_cntrl_reg0: 0,
        gplev1: 0,
    };
    inner.pin_42_config_output();
    assert_eq!(inner.gpfsel4, (0xFFFF_FFFFu32 & !(0b111 << 6)) | (0b001 << 6));
}

#[test]
fn set_and_clear_drive_the_level() {
    let mut inner = GPIOInner::new();
    inner.pin_42_config_output();
    assert!(!inner.pin_42_level());
    inner.pin_42_set();
    assert_eq!(inner.gpset1, 1 << 10);
    assert!(inner.pin_42_level());
    inner.pin_42_clr();
    assert_eq!(inner.gpclr1, 1 << 10);
    assert!(!inner.pin_42_level());
}

#[test]
fn pull_up_register_value() {
    let mut inner = GPIOInner::new();
    inner.disable_pud_14_15_bcm2711();
    assert_eq!(inner.gpio_pup_pdn_cntrl_reg0, (0b01 << 30) | (0b01 << 28));
}

#[test]
fn map_pl011_programs_both_fsel_fields() {
    let mut inner = GPIOInner::new();
    inner.map_pl011_uart();
    assert_eq!(inner.gpfsel1, (0b100 << 15) | (0b100 << 12));
    assert_eq!(inner.gpio_pup_pdn_cntrl_reg0, (0b01 << 30) | (0b01 << 28));
}

#[test]
fn map_pl011_leaves_other_pins_fields() {
    let mut inner = GPIOInner {
        gpfsel1: 0xFFFF_FFFF,
        gpfsel4: 0,
        gpset1: 0,
        gpclr1: 0,
        gpio_pup_pdn_cntrl_reg0: 0,
        gplev1: 0,
    };
    inner.map_pl011_uart();
    let expected =
        (0xFFFF_FFFFu32 & !(0b111 << 15) & !(0b111 << 12)) | (0b100 << 15) | (0b100 << 12);
    assert_eq!(inner.gpfsel1, expected);
}

#[test]
fn locked_gpio_mirrors_inner_operations() {
    let mut gpio = GPIO::new();
    gpio.pin_42_config_output();
    assert!(!gpio.pin_42_level());
    gpio.pin_42_set();
    assert!(gpio.pin_42_level());
    gpio.pin_42_clr();
    assert!(!gpio.pin_42_level());
    gpio.map_pl011_uart();
}

#[test]
fn gpio_compatibility_name() {
    let gpio = GPIO::new();
    assert_eq!(gpio.compatible(), "BCM GPIO");
}

#[test]
fn gpio_driver_init_succeeds() {
    let mut gpio = GPIO::new();
    assert!(gpio.init().is_ok());
}

#[test]
fn gpio_base_address() {
    assert_eq!(GPIO_START, 0xFE20_0000);
}
