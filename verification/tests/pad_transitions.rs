use bouffalo_hal::glb::v1;
use bouffalo_hal::glb::v2;
use bouffalo_hal::glb::Drive;
use bouffalo_hal::gpio::Pads;
use bouffalo_hal::pad_v1::Padv1;

#[test]
fn packed_transition_keeps_even_sibling_bits() {
    let mut glb = v1::RegisterBlock::new();
    // Pin 8 shares register 4 with pin 9; saturate the register first.
    glb.gpio_config[4] = v1::GpioConfig(0xFFFF_FFFF);
    let pad: Padv1<8, bouffalo_hal::gpio::Disabled> = Padv1::__from_glb();
    let _out = pad.into_floating_output(&mut glb);
    // The sibling pin's half (pin 9, bits 16..=31) is bit-for-bit
    // unchanged.
    assert_eq!(glb.gpio_config[4].0 & 0xFFFF_0000, 0xFFFF_0000);
    // The own half got function-select 11, input disabled, pull cleared;
    // schmitt and drive bits were kept.
    assert_eq!(glb.gpio_config[4].0 & 0xFFFF, 0xFBCE);
    // The pin's output driver was enabled.
    assert_eq!(glb.gpio_output_enable, 1 << 8);
    // No other configuration register moved.
    assert_eq!(glb.gpio_config[3].0, 0);
    assert_eq!(glb.gpio_config[5].0, 0);
}

#[test]
fn packed_transition_keeps_odd_sibling_bits() {
    let mut glb = v1::RegisterBlock::new();
    glb.gpio_config[4] = v1::GpioConfig(0xFFFF_FFFF);
    let pad: Padv1<9, bouffalo_hal::gpio::Disabled> = Padv1::__from_glb();
    let _out = pad.into_floating_output(&mut glb);
    // The sibling pin's half (pin 8, bits 0..=15) is bit-for-bit
    // unchanged.
    assert_eq!(glb.gpio_config[4].0 & 0xFFFF, 0xFFFF);
    assert_eq!(glb.gpio_config[4].0 & 0xFFFF_0000, 0xFBCE_0000);
    assert_eq!(glb.gpio_output_enable, 1 << 9);
}

#[test]
fn packed_input_transition_and_level() {
    let mut glb = v1::RegisterBlock::new();
    glb.gpio_output_enable = 0xFFFF_FFFF;
    let pad: Padv1<4, bouffalo_hal::gpio::Disabled> = Padv1::__from_glb();
    let mut input = pad.into_pull_up_input(&mut glb);
    // Function-select 11, input enabled, pull up.
    assert_eq!(glb.gpio_config[2].0 & 0xFFFF, 0x0B11);
    // The output driver of pin 4 alone was disabled.
    assert_eq!(glb.gpio_output_enable, 0xFFFF_FFFF & !(1 << 4));
    // Level reads follow the input value register.
    assert!(!input.is_high(&glb));
    glb.gpio_input_value = 1 << 4;
    assert!(input.is_high(&glb));
    assert!(!input.is_low(&glb));
}

#[test]
fn packed_interrupt_controls() {
    let mut glb = v1::RegisterBlock::new();
    let pad: Padv1<6, bouffalo_hal::gpio::Disabled> = Padv1::__from_glb();
    let mut input = pad.into_floating_input(&mut glb);

    input.mask_interrupt(&mut glb);
    assert_eq!(glb.gpio_interrupt_mask, 1 << 6);
    input.unmask_interrupt(&mut glb);
    assert_eq!(glb.gpio_interrupt_mask, 0);

    input.set_interrupt_mode(&mut glb, v1::InterruptMode::AsyncRisingEdge);
    assert_eq!(glb.gpio_interrupt_mode[3].0, 5);
    assert_eq!(input.interrupt_mode(&glb), v1::InterruptMode::AsyncRisingEdge);

    glb.set_interrupt_pending(6);
    assert!(input.has_interrupt(&glb));
    input.clear_interrupt(&mut glb);
    assert!(!input.has_interrupt(&glb));
}

#[test]
fn packed_output_level_and_drive() {
    let mut glb = v1::RegisterBlock::new();
    let pad: Padv1<10, bouffalo_hal::gpio::Disabled> = Padv1::__from_glb();
    let mut out = pad.into_pull_down_output(&mut glb);

    out.set_high(&mut glb);
    assert_eq!(glb.gpio_output_value, 1 << 10);
    out.set_low(&mut glb);
    assert_eq!(glb.gpio_output_value, 0);

    out.set_drive(&mut glb, Drive::Drive2);
    assert_eq!(out.drive(&glb), Drive::Drive2);
    assert_eq!(glb.gpio_config[5].0 & 0xC, 0x8);
}

#[test]
fn per_pin_output_transition_value() {
    let mut glb = v2::RegisterBlock::new();
    let pads = Pads::new();
    let _out = pads.io3.into_pull_up_output(&mut glb);
    // Function-select 11, set/clear mode, output enabled, pull up.
    assert_eq!(glb.gpio_config[3].0, 0x4000_0B50);
    assert_eq!(glb.gpio_config[2].0, 0);
    assert_eq!(glb.gpio_config[4].0, 0);
}

#[test]
fn per_pin_input_transition_value() {
    let mut glb = v2::RegisterBlock::new();
    let pads = Pads::new();
    let _input = pads.io7.into_floating_input(&mut glb);
    // Function-select 11, set/clear mode, input enabled, no pull.
    assert_eq!(glb.gpio_config[7].0, 0x4000_0B01);
}

#[test]
fn per_pin_output_level_strobes() {
    let mut glb = v2::RegisterBlock::new();
    let pads = Pads::new();
    let mut out = pads.io5.into_pull_up_output(&mut glb);
    out.set_high(&mut glb);
    assert_eq!(glb.gpio_output[0], 1 << 5);
    out.set_low(&mut glb);
    assert_eq!(glb.gpio_output[0], 0);
}

#[test]
fn per_pin_interrupt_controls() {
    let mut glb = v2::RegisterBlock::new();
    let pads = Pads::new();
    let mut input = pads.io9.into_pull_up_input(&mut glb);

    input.set_interrupt_mode(&mut glb, v2::InterruptMode::SyncHighLevel);
    assert_eq!(input.interrupt_mode(&glb), v2::InterruptMode::SyncHighLevel);

    glb.set_interrupt_pending(9);
    assert!(input.has_interrupt(&glb));
    input.clear_interrupt(&mut glb);
    assert!(!input.has_interrupt(&glb));
    // The interrupt mode survived the strobe write.
    assert_eq!(input.interrupt_mode(&glb), v2::InterruptMode::SyncHighLevel);

    input.mask_interrupt(&mut glb);
    assert_eq!(glb.gpio_config[9].0 & 0x40_0000, 0x40_0000);
    input.unmask_interrupt(&mut glb);
    assert_eq!(glb.gpio_config[9].0 & 0x40_0000, 0);
}

#[test]
fn per_pin_spi_and_i2c_transitions() {
    let mut glb = v2::RegisterBlock::new();
    let pads = Pads::new();
    let _spi = pads.io10.into_spi::<1>(&mut glb);
    // Input enabled, schmitt on, pull up, function-select 18.
    assert_eq!(glb.gpio_config[10].0, 0x1213);
    assert_eq!(glb.gpio_config[10].function_code(), 18);
    let _i2c = pads.io11.into_i2c::<0>(&mut glb);
    // Input and output enabled, schmitt on, pull up, function-select 5.
    assert_eq!(glb.gpio_config[11].0, 0x0553);
    let _pwm = pads.io12.into_floating_pwm::<0>(&mut glb);
    // Output enabled, schmitt on, no pull, function-select 16.
    assert_eq!(glb.gpio_config[12].0, 0x1042);
}
