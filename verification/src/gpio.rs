//! General Purpose Input/Output.
//!
//! A [`Pad`] value is the capability to use one physical pin. The pin
//! index is the const parameter `N`; the current role is the type
//! parameter `M`. Role changes are one-way, consuming transformations:
//! they take the pad by value and return a pad of the new role, so after a
//! transition the old role can no longer be used, and at most one live
//! value stands for a given pin in a given role.
//!
//! Every transition issues exactly one configuration-register write, whose
//! effect on the register file is stated bit-for-bit in the contract.

use vstd::prelude::*;

use core::marker::PhantomData;

use crate::glb::v2;
use crate::glb::{Drive, Pull};

verus! {

/// Alternate type state.
pub trait Alternate {
    /// Function-select value for this alternate type state.
    spec fn spec_function() -> v2::Function;

    /// Function-select value for this alternate type state.
    fn function() -> (r: v2::Function)
        ensures
            r == Self::spec_function(),
    ;
}

/// Input mode (type state).
pub struct Input<MODE> {
    _mode: PhantomData<MODE>,
}

/// Output mode (type state).
pub struct Output<MODE> {
    _mode: PhantomData<MODE>,
}

/// Disabled (type state).
pub struct Disabled;

/// Pulled down (type state).
pub struct PullDown;

/// Pulled up (type state).
pub struct PullUp;

/// Floating (type state).
pub struct Floating;

impl<MODE> Alternate for Input<MODE> {
    open spec fn spec_function() -> v2::Function {
        v2::Function::Gpio
    }

    fn function() -> (r: v2::Function) {
        v2::Function::Gpio
    }
}

impl<MODE> Alternate for Output<MODE> {
    open spec fn spec_function() -> v2::Function {
        v2::Function::Gpio
    }

    fn function() -> (r: v2::Function) {
        v2::Function::Gpio
    }
}

impl Alternate for Disabled {
    open spec fn spec_function() -> v2::Function {
        v2::Function::Gpio
    }

    fn function() -> (r: v2::Function) {
        v2::Function::Gpio
    }
}

/// Serial Peripheral Interface mode (type state).
pub struct Spi<const F: usize>;

impl Alternate for Spi<0> {
    open spec fn spec_function() -> v2::Function {
        v2::Function::Spi0
    }

    fn function() -> (r: v2::Function) {
        v2::Function::Spi0
    }
}

impl Alternate for Spi<1> {
    open spec fn spec_function() -> v2::Function {
        v2::Function::Spi1
    }

    fn function() -> (r: v2::Function) {
        v2::Function::Spi1
    }
}

/// UART alternate (type state).
pub struct Uart;

impl Alternate for Uart {
    open spec fn spec_function() -> v2::Function {
        v2::Function::Uart
    }

    fn function() -> (r: v2::Function) {
        v2::Function::Uart
    }
}

/// Multi-media cluster UART alternate (type state).
pub struct MmUart;

impl Alternate for MmUart {
    open spec fn spec_function() -> v2::Function {
        v2::Function::MmUart
    }

    fn function() -> (r: v2::Function) {
        v2::Function::MmUart
    }
}

/// Pulse Width Modulation signal mode (type state).
pub struct Pwm<const F: usize>;

impl Alternate for Pwm<0> {
    open spec fn spec_function() -> v2::Function {
        v2::Function::Pwm0
    }

    fn function() -> (r: v2::Function) {
        v2::Function::Pwm0
    }
}

impl Alternate for Pwm<1> {
    open spec fn spec_function() -> v2::Function {
        v2::Function::Pwm1
    }

    fn function() -> (r: v2::Function) {
        v2::Function::Pwm1
    }
}

/// Inter-Integrated Circuit mode (type state).
pub struct I2c<const F: usize>;

impl Alternate for I2c<0> {
    open spec fn spec_function() -> v2::Function {
        v2::Function::I2c0
    }

    fn function() -> (r: v2::Function) {
        v2::Function::I2c0
    }
}

impl Alternate for I2c<1> {
    open spec fn spec_function() -> v2::Function {
        v2::Function::I2c1
    }

    fn function() -> (r: v2::Function) {
        v2::Function::I2c1
    }
}

impl Alternate for I2c<2> {
    open spec fn spec_function() -> v2::Function {
        v2::Function::I2c2
    }

    fn function() -> (r: v2::Function) {
        v2::Function::I2c2
    }
}

impl Alternate for I2c<3> {
    open spec fn spec_function() -> v2::Function {
        v2::Function::I2c3
    }

    fn function() -> (r: v2::Function) {
        v2::Function::I2c3
    }
}

/// Individual GPIO pin.
///
/// This structure represents code ownership of one general-purpose
/// input/output pin: values for a given `N` are never duplicated, and the
/// role-transition methods consume the old value, so a pin configured
/// for one role cannot be used through a stale value of an earlier role.
pub struct Pad<const N: usize, M: Alternate> {
    _mode: PhantomData<M>,
}

/// The configuration word a role transition writes for a plain digital
/// output pad: function select `Gpio`, set/clear output mode, input
/// disabled, output enabled, pull state as given; the drive and schmitt
/// fields of the old word are kept.
pub open spec fn output_pad_config(old_cfg: u32, pull: u32) -> u32 {
    (((((((old_cfg & !0x1f00u32) | (11u32 << 8)) & 0x3fff_ffffu32) | (1u32 << 30)) & !0x1u32)
        | 0x40u32) & !0x30u32) | (pull << 4)
}

/// The configuration word a role transition writes for a plain digital
/// input pad: function select `Gpio`, set/clear output mode, input
/// enabled, output disabled, pull state as given; the drive and schmitt
/// fields of the old word are kept.
pub open spec fn input_pad_config(old_cfg: u32, pull: u32) -> u32 {
    (((((((old_cfg & !0x1f00u32) | (11u32 << 8)) & 0x3fff_ffffu32) | (1u32 << 30)) | 0x1u32)
        & !0x40u32) & !0x30u32) | (pull << 4)
}

/// The configuration word a role transition writes for an
/// alternate-function pad, built from the reset value: schmitt trigger
/// enabled, weakest drive, and the given enables, pull state and
/// function-select code.
pub open spec fn af_pad_config(input_en: bool, output_en: bool, pull: u32, func: u32) -> u32 {
    (if input_en {
        0x1u32
    } else {
        0u32
    }) | (if output_en {
        0x40u32
    } else {
        0u32
    }) | 0x2u32 | (pull << 4) | (func << 8)
}

impl<const N: usize, M: Alternate> Pad<N, M> {
    /// Forge the capability for pin `N`.
    ///
    /// Only the crate itself creates pad values: users receive them all at
    /// once through [`Pads::new`].
    pub(crate) fn conjure() -> Pad<N, M> {
        Pad { _mode: PhantomData }
    }

    /// Configures the pin to operate as a pull up output pin.
    pub fn into_pull_up_output(self, glb: &mut v2::RegisterBlock) -> (r: Pad<N, Output<PullUp>>)
        requires
            N < v2::GPIO_CONFIG_COUNT,
            old(glb).wf(),
        ensures
            final(glb).wf(),
            final(glb).gpio_config@[N as int].0 == v2::RegisterBlock::spec_config_after_write(
                old(glb).gpio_config@[N as int].0,
                output_pad_config(old(glb).gpio_config@[N as int].0, Pull::Up.spec_code()),
            ),
            forall|i: int|
                0 <= i < v2::GPIO_CONFIG_COUNT && i != N
                    ==> final(glb).gpio_config@[i] == old(glb).gpio_config@[i],
            final(glb).gpio_input == old(glb).gpio_input,
            final(glb).gpio_output == old(glb).gpio_output,
            final(glb).uart_mux_group == old(glb).uart_mux_group,
    {
        let config = glb.gpio_config[N]
            .set_function(v2::Function::Gpio)
            .set_mode(v2::Mode::SetClear)
            .disable_input()
            .enable_output()
            .set_pull(Pull::Up);
        glb.write_gpio_config(N, config);
        Pad { _mode: PhantomData }
    }

    /// Configures the pin to operate as a pull down output pin.
    pub fn into_pull_down_output(self, glb: &mut v2::RegisterBlock) -> (r: Pad<
        N,
        Output<PullDown>,
    >)
        requires
            N < v2::GPIO_CONFIG_COUNT,
            old(glb).wf(),
        ensures
            final(glb).wf(),
            final(glb).gpio_config@[N as int].0 == v2::RegisterBlock::spec_config_after_write(
                old(glb).gpio_config@[N as int].0,
                output_pad_config(old(glb).gpio_config@[N as int].0, Pull::Down.spec_code()),
            ),
            forall|i: int|
                0 <= i < v2::GPIO_CONFIG_COUNT && i != N
                    ==> final(glb).gpio_config@[i] == old(glb).gpio_config@[i],
            final(glb).gpio_input == old(glb).gpio_input,
            final(glb).gpio_output == old(glb).gpio_output,
            final(glb).uart_mux_group == old(glb).uart_mux_group,
    {
        let config = glb.gpio_config[N]
            .set_function(v2::Function::Gpio)
            .set_mode(v2::Mode::SetClear)
            .disable_input()
            .enable_output()
            .set_pull(Pull::Down);
        glb.write_gpio_config(N, config);
        Pad { _mode: PhantomData }
    }

    /// Configures the pin to operate as a floating output pin.
    pub fn into_floating_output(self, glb: &mut v2::RegisterBlock) -> (r: Pad<
        N,
        Output<Floating>,
    >)
        requires
            N < v2::GPIO_CONFIG_COUNT,
            old(glb).wf(),
        ensures
            final(glb).wf(),
            final(glb).gpio_config@[N as int].0 == v2::RegisterBlock::spec_config_after_write(
                old(glb).gpio_config@[N as int].0,
                output_pad_config(old(glb).gpio_config@[N as int].0, Pull::Floating.spec_code()),
            ),
            forall|i: int|
                0 <= i < v2::GPIO_CONFIG_COUNT && i != N
                    ==> final(glb).gpio_config@[i] == old(glb).gpio_config@[i],
            final(glb).gpio_input == old(glb).gpio_input,
            final(glb).gpio_output == old(glb).gpio_output,
            final(glb).uart_mux_group == old(glb).uart_mux_group,
    {
        let config = glb.gpio_config[N]
            .set_function(v2::Function::Gpio)
            .set_mode(v2::Mode::SetClear)
            .disable_input()
            .enable_output()
            .set_pull(Pull::Floating);
        glb.write_gpio_config(N, config);
        Pad { _mode: PhantomData }
    }

    /// Configures the pin to operate as a pull up input pin.
    pub fn into_pull_up_input(self, glb: &mut v2::RegisterBlock) -> (r: Pad<N, Input<PullUp>>)
        requires
            N < v2::GPIO_CONFIG_COUNT,
            old(glb).wf(),
        ensures
            final(glb).wf(),
            final(glb).gpio_config@[N as int].0 == v2::RegisterBlock::spec_config_after_write(
                old(glb).gpio_config@[N as int].0,
                input_pad_config(old(glb).gpio_config@[N as int].0, Pull::Up.spec_code()),
            ),
            forall|i: int|
                0 <= i < v2::GPIO_CONFIG_COUNT && i != N
                    ==> final(glb).gpio_config@[i] == old(glb).gpio_config@[i],
            final(glb).gpio_input == old(glb).gpio_input,
            final(glb).gpio_output == old(glb).gpio_output,
            final(glb).uart_mux_group == old(glb).uart_mux_group,
    {
        let config = glb.gpio_config[N]
            .set_function(v2::Function::Gpio)
            .set_mode(v2::Mode::SetClear)
            .enable_input()
            .disable_output()
            .set_pull(Pull::Up);
        glb.write_gpio_config(N, config);
        Pad { _mode: PhantomData }
    }

    /// Configures the pin to operate as a pull down input pin.
    pub fn into_pull_down_input(self, glb: &mut v2::RegisterBlock) -> (r: Pad<N, Input<PullDown>>)
        requires
            N < v2::GPIO_CONFIG_COUNT,
            old(glb).wf(),
        ensures
            final(glb).wf(),
            final(glb).gpio_config@[N as int].0 == v2::RegisterBlock::spec_config_after_write(
                old(glb).gpio_config@[N as int].0,
                input_pad_config(old(glb).gpio_config@[N as int].0, Pull::Down.spec_code()),
            ),
            forall|i: int|
                0 <= i < v2::GPIO_CONFIG_COUNT && i != N
                    ==> final(glb).gpio_config@[i] == old(glb).gpio_config@[i],
            final(glb).gpio_input == old(glb).gpio_input,
            final(glb).gpio_output == old(glb).gpio_output,
            final(glb).uart_mux_group == old(glb).uart_mux_group,
    {
        let config = glb.gpio_config[N]
            .set_function(v2::Function::Gpio)
            .set_mode(v2::Mode::SetClear)
            .enable_input()
            .disable_output()
            .set_pull(Pull::Down);
        glb.write_gpio_config(N, config);
        Pad { _mode: PhantomData }
    }

    /// Configures the pin to operate as a floating input pin.
    pub fn into_floating_input(self, glb: &mut v2::RegisterBlock) -> (r: Pad<N, Input<Floating>>)
        requires
            N < v2::GPIO_CONFIG_COUNT,
            old(glb).wf(),
        ensures
            final(glb).wf(),
            final(glb).gpio_config@[N as int].0 == v2::RegisterBlock::spec_config_after_write(
                old(glb).gpio_config@[N as int].0,
                input_pad_config(old(glb).gpio_config@[N as int].0, Pull::Floating.spec_code()),
            ),
            forall|i: int|
                0 <= i < v2::GPIO_CONFIG_COUNT && i != N
                    ==> final(glb).gpio_config@[i] == old(glb).gpio_config@[i],
            final(glb).gpio_input == old(glb).gpio_input,
            final(glb).gpio_output == old(glb).gpio_output,
            final(glb).uart_mux_group == old(glb).uart_mux_group,
    {
        let config = glb.gpio_config[N]
            .set_function(v2::Function::Gpio)
            .set_mode(v2::Mode::SetClear)
            .enable_input()
            .disable_output()
            .set_pull(Pull::Floating);
        glb.write_gpio_config(N, config);
        Pad { _mode: PhantomData }
    }

    /// Configures the pin to operate as UART signal.
    pub fn into_uart(self, glb: &mut v2::RegisterBlock) -> (r: Pad<N, Uart>)
        requires
            N < v2::GPIO_CONFIG_COUNT,
            old(glb).wf(),
        ensures
            final(glb).wf(),
            final(glb).gpio_config@[N as int].0 == v2::RegisterBlock::spec_config_after_write(
                old(glb).gpio_config@[N as int].0,
                af_pad_config(true, true, Pull::Up.spec_code(), v2::Function::Uart.spec_code()),
            ),
            forall|i: int|
                0 <= i < v2::GPIO_CONFIG_COUNT && i != N
                    ==> final(glb).gpio_config@[i] == old(glb).gpio_config@[i],
            final(glb).gpio_input == old(glb).gpio_input,
            final(glb).gpio_output == old(glb).gpio_output,
            final(glb).uart_mux_group == old(glb).uart_mux_group,
    {
        let config = v2::GpioConfig::reset_value()
            .enable_input()
            .enable_output()
            .enable_schmitt()
            .set_drive(Drive::Drive0)
            .set_pull(Pull::Up)
            .set_function(v2::Function::Uart);
        proof {
            assert((((((((((0u32 | 0x1) | 0x40) | 0x2) & !0xcu32) | (0u32 << 2)) & !0x30u32) | (
            1u32 << 4)) & !0x1f00u32) | (7u32 << 8)) == af_pad_config(true, true, 1, 7))
                by (bit_vector);
        }
        glb.write_gpio_config(N, config);
        Pad { _mode: PhantomData }
    }

    /// Configures the pin to operate as multi-media cluster UART signal.
    pub fn into_mm_uart(self, glb: &mut v2::RegisterBlock) -> (r: Pad<N, MmUart>)
        requires
            N < v2::GPIO_CONFIG_COUNT,
            old(glb).wf(),
        ensures
            final(glb).wf(),
            final(glb).gpio_config@[N as int].0 == v2::RegisterBlock::spec_config_after_write(
                old(glb).gpio_config@[N as int].0,
                af_pad_config(true, true, Pull::Up.spec_code(), v2::Function::MmUart.spec_code()),
            ),
            forall|i: int|
                0 <= i < v2::GPIO_CONFIG_COUNT && i != N
                    ==> final(glb).gpio_config@[i] == old(glb).gpio_config@[i],
            final(glb).gpio_input == old(glb).gpio_input,
            final(glb).gpio_output == old(glb).gpio_output,
            final(glb).uart_mux_group == old(glb).uart_mux_group,
    {
        let config = v2::GpioConfig::reset_value()
            .enable_input()
            .enable_output()
            .enable_schmitt()
            .set_drive(Drive::Drive0)
            .set_pull(Pull::Up)
            .set_function(v2::Function::MmUart);
        proof {
            assert((((((((((0u32 | 0x1) | 0x40) | 0x2) & !0xcu32) | (0u32 << 2)) & !0x30u32) | (
            1u32 << 4)) & !0x1f00u32) | (21u32 << 8)) == af_pad_config(true, true, 1, 21))
                by (bit_vector);
        }
        glb.write_gpio_config(N, config);
        Pad { _mode: PhantomData }
    }

    /// Configures the pin to operate as a SPI pin.
    pub fn into_spi<const I: usize>(self, glb: &mut v2::RegisterBlock) -> (r: Pad<N, Spi<I>>) where
        Spi<I>: Alternate
        requires
            N < v2::GPIO_CONFIG_COUNT,
            old(glb).wf(),
        ensures
            final(glb).wf(),
            final(glb).gpio_config@[N as int].0 == v2::RegisterBlock::spec_config_after_write(
                old(glb).gpio_config@[N as int].0,
                af_pad_config(
                    true,
                    false,
                    Pull::Up.spec_code(),
                    <Spi<I> as Alternate>::spec_function().spec_code(),
                ),
            ),
            forall|i: int|
                0 <= i < v2::GPIO_CONFIG_COUNT && i != N
                    ==> final(glb).gpio_config@[i] == old(glb).gpio_config@[i],
            final(glb).gpio_input == old(glb).gpio_input,
            final(glb).gpio_output == old(glb).gpio_output,
            final(glb).uart_mux_group == old(glb).uart_mux_group,
    {
        let config = v2::GpioConfig::reset_value()
            .enable_input()
            .disable_output()
            .enable_schmitt()
            .set_pull(Pull::Up)
            .set_drive(Drive::Drive0)
            .set_function(<Spi<I> as Alternate>::function());
        proof {
            let c = <Spi<I> as Alternate>::spec_function().spec_code();
            assert((((((((((0u32 | 0x1) & !0x40u32) | 0x2) & !0x30u32) | (1u32 << 4)) & !0xcu32)
                | (0u32 << 2)) & !0x1f00u32) | (c << 8)) == af_pad_config(true, false, 1, c))
                by (bit_vector)
                requires
                    c <= 23,
            ;
        }
        glb.write_gpio_config(N, config);
        Pad { _mode: PhantomData }
    }

    /// Configures the pin to operate as an Inter-Integrated Circuit signal
    /// pin.
    pub fn into_i2c<const I: usize>(self, glb: &mut v2::RegisterBlock) -> (r: Pad<N, I2c<I>>) where
        I2c<I>: Alternate
        requires
            N < v2::GPIO_CONFIG_COUNT,
            old(glb).wf(),
        ensures
            final(glb).wf(),
            final(glb).gpio_config@[N as int].0 == v2::RegisterBlock::spec_config_after_write(
                old(glb).gpio_config@[N as int].0,
                af_pad_config(
                    true,
                    true,
                    Pull::Up.spec_code(),
                    <I2c<I> as Alternate>::spec_function().spec_code(),
                ),
            ),
            forall|i: int|
                0 <= i < v2::GPIO_CONFIG_COUNT && i != N
                    ==> final(glb).gpio_config@[i] == old(glb).gpio_config@[i],
            final(glb).gpio_input == old(glb).gpio_input,
            final(glb).gpio_output == old(glb).gpio_output,
            final(glb).uart_mux_group == old(glb).uart_mux_group,
    {
        let config = v2::GpioConfig::reset_value()
            .enable_input()
            .enable_output()
            .enable_schmitt()
            .set_drive(Drive::Drive0)
            .set_pull(Pull::Up)
            .set_function(<I2c<I> as Alternate>::function());
        proof {
            let c = <I2c<I> as Alternate>::spec_function().spec_code();
            assert((((((((((0u32 | 0x1) | 0x40) | 0x2) & !0xcu32) | (0u32 << 2)) & !0x30u32) | (
            1u32 << 4)) & !0x1f00u32) | (c << 8)) == af_pad_config(true, true, 1, c))
                by (bit_vector)
                requires
                    c <= 23,
            ;
        }
        glb.write_gpio_config(N, config);
        Pad { _mode: PhantomData }
    }

    /// Configures the pin to operate as a pull up Pulse Width Modulation
    /// signal pin.
    pub fn into_pull_up_pwm<const I: usize>(self, glb: &mut v2::RegisterBlock) -> (r: Pad<
        N,
        Pwm<I>,
    >) where Pwm<I>: Alternate
        requires
            N < v2::GPIO_CONFIG_COUNT,
            old(glb).wf(),
        ensures
            final(glb).wf(),
            final(glb).gpio_config@[N as int].0 == v2::RegisterBlock::spec_config_after_write(
                old(glb).gpio_config@[N as int].0,
                af_pad_config(
                    false,
                    true,
                    Pull::Up.spec_code(),
                    <Pwm<I> as Alternate>::spec_function().spec_code(),
                ),
            ),
            forall|i: int|
                0 <= i < v2::GPIO_CONFIG_COUNT && i != N
                    ==> final(glb).gpio_config@[i] == old(glb).gpio_config@[i],
            final(glb).gpio_input == old(glb).gpio_input,
            final(glb).gpio_output == old(glb).gpio_output,
            final(glb).uart_mux_group == old(glb).uart_mux_group,
    {
        let config = v2::GpioConfig::reset_value()
            .disable_input()
            .enable_output()
            .enable_schmitt()
            .set_drive(Drive::Drive0)
            .set_pull(Pull::Up)
            .set_function(<Pwm<I> as Alternate>::function());
        proof {
            let c = <Pwm<I> as Alternate>::spec_function().spec_code();
            assert((((((((((0u32 & !0x1u32) | 0x40) | 0x2) & !0xcu32) | (0u32 << 2)) & !0x30u32)
                | (1u32 << 4)) & !0x1f00u32) | (c << 8)) == af_pad_config(false, true, 1, c))
                by (bit_vector)
                requires
                    c <= 23,
            ;
        }
        glb.write_gpio_config(N, config);
        Pad { _mode: PhantomData }
    }

    /// Configures the pin to operate as a pull down Pulse Width Modulation
    /// signal pin.
    pub fn into_pull_down_pwm<const I: usize>(self, glb: &mut v2::RegisterBlock) -> (r: Pad<
        N,
        Pwm<I>,
    >) where Pwm<I>: Alternate
        requires
            N < v2::GPIO_CONFIG_COUNT,
            old(glb).wf(),
        ensures
            final(glb).wf(),
            final(glb).gpio_config@[N as int].0 == v2::RegisterBlock::spec_config_after_write(
                old(glb).gpio_config@[N as int].0,
                af_pad_config(
                    false,
                    true,
                    Pull::Down.spec_code(),
                    <Pwm<I> as Alternate>::spec_function().spec_code(),
                ),
            ),
            forall|i: int|
                0 <= i < v2::GPIO_CONFIG_COUNT && i != N
                    ==> final(glb).gpio_config@[i] == old(glb).gpio_config@[i],
            final(glb).gpio_input == old(glb).gpio_input,
            final(glb).gpio_output == old(glb).gpio_output,
            final(glb).uart_mux_group == old(glb).uart_mux_group,
    {
        let config = v2::GpioConfig::reset_value()
            .disable_input()
            .enable_output()
            .enable_schmitt()
            .set_drive(Drive::Drive0)
            .set_pull(Pull::Down)
            .set_function(<Pwm<I> as Alternate>::function());
        proof {
            let c = <Pwm<I> as Alternate>::spec_function().spec_code();
            assert((((((((((0u32 & !0x1u32) | 0x40) | 0x2) & !0xcu32) | (0u32 << 2)) & !0x30u32)
                | (2u32 << 4)) & !0x1f00u32) | (c << 8)) == af_pad_config(false, true, 2, c))
                by (bit_vector)
                requires
                    c <= 23,
            ;
        }
        glb.write_gpio_config(N, config);
        Pad { _mode: PhantomData }
    }

    /// Configures the pin to operate as floating Pulse Width Modulation
    /// signal pin.
    pub fn into_floating_pwm<const I: usize>(self, glb: &mut v2::RegisterBlock) -> (r: Pad<
        N,
        Pwm<I>,
    >) where Pwm<I>: Alternate
        requires
            N < v2::GPIO_CONFIG_COUNT,
            old(glb).wf(),
        ensures
            final(glb).wf(),
            final(glb).gpio_config@[N as int].0 == v2::RegisterBlock::spec_config_after_write(
                old(glb).gpio_config@[N as int].0,
                af_pad_config(
                    false,
                    true,
                    Pull::Floating.spec_code(),
                    <Pwm<I> as Alternate>::spec_function().spec_code(),
                ),
            ),
            forall|i: int|
                0 <= i < v2::GPIO_CONFIG_COUNT && i != N
                    ==> final(glb).gpio_config@[i] == old(glb).gpio_config@[i],
            final(glb).gpio_input == old(glb).gpio_input,
            final(glb).gpio_output == old(glb).gpio_output,
            final(glb).uart_mux_group == old(glb).uart_mux_group,
    {
        let config = v2::GpioConfig::reset_value()
            .disable_input()
            .enable_output()
            .enable_schmitt()
            .set_drive(Drive::Drive0)
            .set_pull(Pull::Floating)
            .set_function(<Pwm<I> as Alternate>::function());
        proof {
            let c = <Pwm<I> as Alternate>::spec_function().spec_code();
            assert((((((((((0u32 & !0x1u32) | 0x40) | 0x2) & !0xcu32) | (0u32 << 2)) & !0x30u32)
                | (0u32 << 4)) & !0x1f00u32) | (c << 8)) == af_pad_config(false, true, 0, c))
                by (bit_vector)
                requires
                    c <= 23,
            ;
        }
        glb.write_gpio_config(N, config);
        Pad { _mode: PhantomData }
    }
}

impl<const N: usize, M> Pad<N, Input<M>> {
    /// Check if the input level is high.
    ///
    /// Reading the level cannot fail; the current line state is returned
    /// directly.
    pub fn is_high(&self, glb: &v2::RegisterBlock) -> (r: bool)
        requires
            N < v2::GPIO_CONFIG_COUNT,
            glb.wf(),
        ensures
            r == (glb.gpio_input@[N as int / 32] & (1u32 << ((N % 32) as u32)) != 0),
    {
        glb.gpio_input[N / 32] & (1u32 << ((N % 32) as u32)) != 0
    }

    /// Check if the input level is low.
    ///
    /// Reading the level cannot fail; the current line state is returned
    /// directly.
    pub fn is_low(&self, glb: &v2::RegisterBlock) -> (r: bool)
        requires
            N < v2::GPIO_CONFIG_COUNT,
            glb.wf(),
        ensures
            r == (glb.gpio_input@[N as int / 32] & (1u32 << ((N % 32) as u32)) == 0),
    {
        glb.gpio_input[N / 32] & (1u32 << ((N % 32) as u32)) == 0
    }

    /// Enable schmitt trigger.
    pub fn enable_schmitt(&mut self, glb: &mut v2::RegisterBlock)
        requires
            N < v2::GPIO_CONFIG_COUNT,
            old(glb).wf(),
        ensures
            final(glb).wf(),
            final(glb).gpio_config@[N as int].0 == v2::RegisterBlock::spec_config_after_write(
                old(glb).gpio_config@[N as int].0,
                old(glb).gpio_config@[N as int].0 | 0x2u32,
            ),
            forall|i: int|
                0 <= i < v2::GPIO_CONFIG_COUNT && i != N
                    ==> final(glb).gpio_config@[i] == old(glb).gpio_config@[i],
            final(glb).gpio_input == old(glb).gpio_input,
            final(glb).gpio_output == old(glb).gpio_output,
            final(glb).uart_mux_group == old(glb).uart_mux_group,
    {
        let config = glb.gpio_config[N].enable_schmitt();
        glb.write_gpio_config(N, config);
    }

    /// Disable schmitt trigger.
    pub fn disable_schmitt(&mut self, glb: &mut v2::RegisterBlock)
        requires
            N < v2::GPIO_CONFIG_COUNT,
            old(glb).wf(),
        ensures
            final(glb).wf(),
            final(glb).gpio_config@[N as int].0 == v2::RegisterBlock::spec_config_after_write(
                old(glb).gpio_config@[N as int].0,
                old(glb).gpio_config@[N as int].0 & !0x2u32,
            ),
            forall|i: int|
                0 <= i < v2::GPIO_CONFIG_COUNT && i != N
                    ==> final(glb).gpio_config@[i] == old(glb).gpio_config@[i],
            final(glb).gpio_input == old(glb).gpio_input,
            final(glb).gpio_output == old(glb).gpio_output,
            final(glb).uart_mux_group == old(glb).uart_mux_group,
    {
        let config = glb.gpio_config[N].disable_schmitt();
        glb.write_gpio_config(N, config);
    }

    /// Clear interrupt flag.
    ///
    /// After the write, the pending interrupt bit of pin `N` is clear.
    pub fn clear_interrupt(&mut self, glb: &mut v2::RegisterBlock)
        requires
            N < v2::GPIO_CONFIG_COUNT,
            old(glb).wf(),
        ensures
            final(glb).wf(),
            final(glb).gpio_config@[N as int].0 == v2::RegisterBlock::spec_config_after_write(
                old(glb).gpio_config@[N as int].0,
                old(glb).gpio_config@[N as int].0 | v2::INTERRUPT_CLEAR_BIT,
            ),
            final(glb).gpio_config@[N as int].0 & v2::INTERRUPT_PENDING_BIT == 0,
            forall|i: int|
                0 <= i < v2::GPIO_CONFIG_COUNT && i != N
                    ==> final(glb).gpio_config@[i] == old(glb).gpio_config@[i],
            final(glb).gpio_input == old(glb).gpio_input,
            final(glb).gpio_output == old(glb).gpio_output,
            final(glb).uart_mux_group == old(glb).uart_mux_group,
    {
        let config = glb.gpio_config[N].clear_interrupt();
        proof {
            let o = old(glb).gpio_config@[N as int].0;
            assert((o | 0x10_0000u32) & 0x10_0000u32 != 0 && ((o | 0x10_0000u32) & !(0x10_0000u32
                | 0x20_0000u32)) & 0x20_0000u32 == 0) by (bit_vector);
        }
        glb.write_gpio_config(N, config);
    }

    /// Check if interrupt flag is set.
    pub fn has_interrupt(&self, glb: &v2::RegisterBlock) -> (r: bool)
        requires
            N < v2::GPIO_CONFIG_COUNT,
            glb.wf(),
        ensures
            r == (glb.gpio_config@[N as int].0 & v2::INTERRUPT_PENDING_BIT != 0),
    {
        glb.gpio_config[N].has_interrupt()
    }

    /// Mask interrupt.
    pub fn mask_interrupt(&mut self, glb: &mut v2::RegisterBlock)
        requires
            N < v2::GPIO_CONFIG_COUNT,
            old(glb).wf(),
        ensures
            final(glb).wf(),
            final(glb).gpio_config@[N as int].0 == v2::RegisterBlock::spec_config_after_write(
                old(glb).gpio_config@[N as int].0,
                old(glb).gpio_config@[N as int].0 | 0x40_0000u32,
            ),
            forall|i: int|
                0 <= i < v2::GPIO_CONFIG_COUNT && i != N
                    ==> final(glb).gpio_config@[i] == old(glb).gpio_config@[i],
            final(glb).gpio_input == old(glb).gpio_input,
            final(glb).gpio_output == old(glb).gpio_output,
            final(glb).uart_mux_group == old(glb).uart_mux_group,
    {
        let config = glb.gpio_config[N].mask_interrupt();
        glb.write_gpio_config(N, config);
    }

    /// Unmask interrupt.
    pub fn unmask_interrupt(&mut self, glb: &mut v2::RegisterBlock)
        requires
            N < v2::GPIO_CONFIG_COUNT,
            old(glb).wf(),
        ensures
            final(glb).wf(),
            final(glb).gpio_config@[N as int].0 == v2::RegisterBlock::spec_config_after_write(
                old(glb).gpio_config@[N as int].0,
                old(glb).gpio_config@[N as int].0 & !0x40_0000u32,
            ),
            forall|i: int|
                0 <= i < v2::GPIO_CONFIG_COUNT && i != N
                    ==> final(glb).gpio_config@[i] == old(glb).gpio_config@[i],
            final(glb).gpio_input == old(glb).gpio_input,
            final(glb).gpio_output == old(glb).gpio_output,
            final(glb).uart_mux_group == old(glb).uart_mux_group,
    {
        let config = glb.gpio_config[N].unmask_interrupt();
        glb.write_gpio_config(N, config);
    }

    /// Get interrupt mode.
    pub fn interrupt_mode(&self, glb: &v2::RegisterBlock) -> (r: v2::InterruptMode)
        requires
            N < v2::GPIO_CONFIG_COUNT,
            glb.wf(),
        ensures
            r == v2::InterruptMode::spec_from_code((glb.gpio_config@[N as int].0 >> 16) & 0xfu32),
    {
        glb.gpio_config[N].interrupt_mode()
    }

    /// Set interrupt mode.
    pub fn set_interrupt_mode(&mut self, glb: &mut v2::RegisterBlock, val: v2::InterruptMode)
        requires
            N < v2::GPIO_CONFIG_COUNT,
            old(glb).wf(),
        ensures
            final(glb).wf(),
            final(glb).gpio_config@[N as int].0 == v2::RegisterBlock::spec_config_after_write(
                old(glb).gpio_config@[N as int].0,
                (old(glb).gpio_config@[N as int].0 & !0xf_0000u32) | (val.spec_code() << 16),
            ),
            forall|i: int|
                0 <= i < v2::GPIO_CONFIG_COUNT && i != N
                    ==> final(glb).gpio_config@[i] == old(glb).gpio_config@[i],
            final(glb).gpio_input == old(glb).gpio_input,
            final(glb).gpio_output == old(glb).gpio_output,
            final(glb).uart_mux_group == old(glb).uart_mux_group,
    {
        let config = glb.gpio_config[N].set_interrupt_mode(val);
        glb.write_gpio_config(N, config);
    }
}

impl<const N: usize, M> Pad<N, Output<M>> {
    /// Set the output level low.
    ///
    /// The write is issued through the clear strobe and cannot fail.
    pub fn set_low(&mut self, glb: &mut v2::RegisterBlock)
        requires
            N < v2::GPIO_CONFIG_COUNT,
            old(glb).wf(),
        ensures
            final(glb).wf(),
            final(glb).gpio_output@[N as int / 32] == old(glb).gpio_output@[N as int / 32] & !(
            1u32 << ((N % 32) as u32)),
            forall|k: int|
                0 <= k < v2::GPIO_WORD_COUNT && k != N as int / 32
                    ==> final(glb).gpio_output@[k] == old(glb).gpio_output@[k],
            final(glb).gpio_config == old(glb).gpio_config,
            final(glb).gpio_input == old(glb).gpio_input,
            final(glb).uart_mux_group == old(glb).uart_mux_group,
    {
        glb.write_gpio_clear(N / 32, 1u32 << ((N % 32) as u32));
    }

    /// Set the output level high.
    ///
    /// The write is issued through the set strobe and cannot fail.
    pub fn set_high(&mut self, glb: &mut v2::RegisterBlock)
        requires
            N < v2::GPIO_CONFIG_COUNT,
            old(glb).wf(),
        ensures
            final(glb).wf(),
            final(glb).gpio_output@[N as int / 32] == old(glb).gpio_output@[N as int / 32] | (1u32
                << ((N % 32) as u32)),
            forall|k: int|
                0 <= k < v2::GPIO_WORD_COUNT && k != N as int / 32
                    ==> final(glb).gpio_output@[k] == old(glb).gpio_output@[k],
            final(glb).gpio_config == old(glb).gpio_config,
            final(glb).gpio_input == old(glb).gpio_input,
            final(glb).uart_mux_group == old(glb).uart_mux_group,
    {
        glb.write_gpio_set(N / 32, 1u32 << ((N % 32) as u32));
    }

    /// Get drive strength of this pin.
    pub fn drive(&self, glb: &v2::RegisterBlock) -> (r: Drive)
        requires
            N < v2::GPIO_CONFIG_COUNT,
            glb.wf(),
        ensures
            r == Drive::spec_from_code((glb.gpio_config@[N as int].0 >> 2) & 0x3u32),
    {
        glb.gpio_config[N].drive()
    }

    /// Set drive strength of this pin.
    pub fn set_drive(&mut self, glb: &mut v2::RegisterBlock, val: Drive)
        requires
            N < v2::GPIO_CONFIG_COUNT,
            old(glb).wf(),
        ensures
            final(glb).wf(),
            final(glb).gpio_config@[N as int].0 == v2::RegisterBlock::spec_config_after_write(
                old(glb).gpio_config@[N as int].0,
                (old(glb).gpio_config@[N as int].0 & !0xcu32) | (val.spec_code() << 2),
            ),
            forall|i: int|
                0 <= i < v2::GPIO_CONFIG_COUNT && i != N
                    ==> final(glb).gpio_config@[i] == old(glb).gpio_config@[i],
            final(glb).gpio_input == old(glb).gpio_input,
            final(glb).gpio_output == old(glb).gpio_output,
            final(glb).uart_mux_group == old(glb).uart_mux_group,
    {
        let config = glb.gpio_config[N].set_drive(val);
        glb.write_gpio_config(N, config);
    }
}

/// Available GPIO pins.
///
/// One value of this structure stands for the whole pin bank; it is meant
/// to be created once at system start and split into its fields.
pub struct Pads {
    /// GPIO I/O 0.
    pub io0: Pad<0, Disabled>,
    /// GPIO I/O 1.
    pub io1: Pad<1, Disabled>,
    /// GPIO I/O 2.
    pub io2: Pad<2, Disabled>,
    /// GPIO I/O 3.
    pub io3: Pad<3, Disabled>,
    /// GPIO I/O 4.
    pub io4: Pad<4, Disabled>,
    /// GPIO I/O 5.
    pub io5: Pad<5, Disabled>,
    /// GPIO I/O 6.
    pub io6: Pad<6, Disabled>,
    /// GPIO I/O 7.
    pub io7: Pad<7, Disabled>,
    /// GPIO I/O 8.
    pub io8: Pad<8, Disabled>,
    /// GPIO I/O 9.
    pub io9: Pad<9, Disabled>,
    /// GPIO I/O 10.
    pub io10: Pad<10, Disabled>,
    /// GPIO I/O 11.
    pub io11: Pad<11, Disabled>,
    /// GPIO I/O 12.
    pub io12: Pad<12, Disabled>,
    /// GPIO I/O 13.
    pub io13: Pad<13, Disabled>,
    /// GPIO I/O 14.
    pub io14: Pad<14, Disabled>,
    /// GPIO I/O 15.
    pub io15: Pad<15, Disabled>,
    /// GPIO I/O 16.
    pub io16: Pad<16, Disabled>,
    /// GPIO I/O 17.
    pub io17: Pad<17, Disabled>,
    /// GPIO I/O 18.
    pub io18: Pad<18, Disabled>,
    /// GPIO I/O 19.
    pub io19: Pad<19, Disabled>,
    /// GPIO I/O 20.
    pub io20: Pad<20, Disabled>,
    /// GPIO I/O 21.
    pub io21: Pad<21, Disabled>,
    /// GPIO I/O 22.
    pub io22: Pad<22, Disabled>,
    /// GPIO I/O 23.
    pub io23: Pad<23, Disabled>,
    /// GPIO I/O 24.
    pub io24: Pad<24, Disabled>,
    /// GPIO I/O 25.
    pub io25: Pad<25, Disabled>,
    /// GPIO I/O 26.
    pub io26: Pad<26, Disabled>,
    /// GPIO I/O 27.
    pub io27: Pad<27, Disabled>,
    /// GPIO I/O 28.
    pub io28: Pad<28, Disabled>,
}

impl Pads {
    /// Take ownership of every pin at once.
    ///
    /// Call this once at system start: each pin capability must stay
    /// unique, and the role-transition operations keep it so from then on.
    pub fn new() -> Pads {
        Pads {
            io0: Pad::conjure(),
            io1: Pad::conjure(),
            io2: Pad::conjure(),
            io3: Pad::conjure(),
            io4: Pad::conjure(),
            io5: Pad::conjure(),
            io6: Pad::conjure(),
            io7: Pad::conjure(),
            io8: Pad::conjure(),
            io9: Pad::conjure(),
            io10: Pad::conjure(),
            io11: Pad::conjure(),
            io12: Pad::conjure(),
            io13: Pad::conjure(),
            io14: Pad::conjure(),
            io15: Pad::conjure(),
            io16: Pad::conjure(),
            io17: Pad::conjure(),
            io18: Pad::conjure(),
            io19: Pad::conjure(),
            io20: Pad::conjure(),
            io21: Pad::conjure(),
            io22: Pad::conjure(),
            io23: Pad::conjure(),
            io24: Pad::conjure(),
            io25: Pad::conjure(),
            io26: Pad::conjure(),
            io27: Pad::conjure(),
            io28: Pad::conjure(),
        }
    }
}

} // verus!
