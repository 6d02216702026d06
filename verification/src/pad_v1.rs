//! Raw GPIO pad of the first hardware generation.
//!
//! On this generation one configuration register holds two pins, so every
//! role transition is a read-modify-write of a shared register. The
//! critical property, stated in each contract, is that such a write
//! changes only the sixteen-bit half owned by this pin and leaves the
//! sibling pin's half bit-for-bit unchanged.

use vstd::prelude::*;

use core::marker::PhantomData;

use crate::glb::v1;
use crate::glb::v1::sibling_half;
use crate::glb::{Drive, Pull};
use crate::gpio::{Disabled, Floating, Input, Output, PullDown, PullUp, Uart};

verus! {

/// The configuration word a role transition writes into the even half of
/// a packed register: function select and pull as given, input enabled or
/// disabled as given; the schmitt and drive fields are kept.
pub open spec fn v1_pad_config_even(old_cfg: u32, func: u32, input_en: bool, pull: u32) -> u32 {
    let with_func = (old_cfg & !0x0f00u32) | (func << 8);
    let with_input = if input_en {
        with_func | 0x1u32
    } else {
        with_func & !0x1u32
    };
    (with_input & !0x30u32) | (pull << 4)
}

/// The configuration word a role transition writes into the odd half of a
/// packed register: function select and pull as given, input enabled or
/// disabled as given; the schmitt and drive fields are kept.
pub open spec fn v1_pad_config_odd(old_cfg: u32, func: u32, input_en: bool, pull: u32) -> u32 {
    let with_func = (old_cfg & !0x0f00_0000u32) | (func << 24);
    let with_input = if input_en {
        with_func | 0x1_0000u32
    } else {
        with_func & !0x1_0000u32
    };
    (with_input & !0x30_0000u32) | (pull << 20)
}

/// Raw GPIO pad of the packed two-pins-per-register hardware generation.
///
/// The pin index is the const parameter `N`; the current role is the type
/// parameter `M`. Role transitions consume the pad and return a pad of
/// the new role.
pub struct Padv1<const N: usize, M> {
    _mode: PhantomData<M>,
}

impl<const N: usize, M> Padv1<N, Input<M>> {
    /// Enable schmitt trigger.
    pub fn enable_schmitt(&mut self, glb: &mut v1::RegisterBlock)
        requires
            N < 32,
            old(glb).wf(),
        ensures
            final(glb).wf(),
            N % 2 == 0 ==> final(glb).gpio_config@[N as int / 2].0 == old(glb).gpio_config@[N
                as int / 2].0 | 0x2u32,
            N % 2 == 1 ==> final(glb).gpio_config@[N as int / 2].0 == old(glb).gpio_config@[N
                as int / 2].0 | 0x2_0000u32,
            sibling_half(final(glb).gpio_config@[N as int / 2].0, N % 2) == sibling_half(
                old(glb).gpio_config@[N as int / 2].0,
                N % 2,
            ),
            forall|i: int|
                0 <= i < v1::GPIO_CONFIG_GROUPS && i != N as int / 2
                    ==> final(glb).gpio_config@[i] == old(glb).gpio_config@[i],
            final(glb).gpio_interrupt_mode == old(glb).gpio_interrupt_mode,
            final(glb).gpio_input_value == old(glb).gpio_input_value,
            final(glb).gpio_output_value == old(glb).gpio_output_value,
            final(glb).gpio_output_enable == old(glb).gpio_output_enable,
            final(glb).gpio_interrupt_mask == old(glb).gpio_interrupt_mask,
            final(glb).gpio_interrupt_state == old(glb).gpio_interrupt_state,
    {
        let config = glb.gpio_config[N / 2].enable_schmitt(N % 2);
        glb.gpio_config[N / 2] = config;
    }

    /// Disable schmitt trigger.
    pub fn disable_schmitt(&mut self, glb: &mut v1::RegisterBlock)
        requires
            N < 32,
            old(glb).wf(),
        ensures
            final(glb).wf(),
            N % 2 == 0 ==> final(glb).gpio_config@[N as int / 2].0 == old(glb).gpio_config@[N
                as int / 2].0 & !0x2u32,
            N % 2 == 1 ==> final(glb).gpio_config@[N as int / 2].0 == old(glb).gpio_config@[N
                as int / 2].0 & !0x2_0000u32,
            sibling_half(final(glb).gpio_config@[N as int / 2].0, N % 2) == sibling_half(
                old(glb).gpio_config@[N as int / 2].0,
                N % 2,
            ),
            forall|i: int|
                0 <= i < v1::GPIO_CONFIG_GROUPS && i != N as int / 2
                    ==> final(glb).gpio_config@[i] == old(glb).gpio_config@[i],
            final(glb).gpio_interrupt_mode == old(glb).gpio_interrupt_mode,
            final(glb).gpio_input_value == old(glb).gpio_input_value,
            final(glb).gpio_output_value == old(glb).gpio_output_value,
            final(glb).gpio_output_enable == old(glb).gpio_output_enable,
            final(glb).gpio_interrupt_mask == old(glb).gpio_interrupt_mask,
            final(glb).gpio_interrupt_state == old(glb).gpio_interrupt_state,
    {
        let config = glb.gpio_config[N / 2].disable_schmitt(N % 2);
        glb.gpio_config[N / 2] = config;
    }

    /// Clear interrupt flag.
    ///
    /// After the strobe write, the pending interrupt bit of pin `N` is
    /// clear and every other pin's pending bit is untouched.
    pub fn clear_interrupt(&mut self, glb: &mut v1::RegisterBlock)
        requires
            N < 32,
            old(glb).wf(),
        ensures
            final(glb).wf(),
            final(glb).gpio_interrupt_state == old(glb).gpio_interrupt_state & !(1u32 << N),
            final(glb).gpio_config == old(glb).gpio_config,
            final(glb).gpio_interrupt_mode == old(glb).gpio_interrupt_mode,
            final(glb).gpio_input_value == old(glb).gpio_input_value,
            final(glb).gpio_output_value == old(glb).gpio_output_value,
            final(glb).gpio_output_enable == old(glb).gpio_output_enable,
            final(glb).gpio_interrupt_mask == old(glb).gpio_interrupt_mask,
    {
        glb.write_interrupt_clear(1u32 << N);
    }

    /// Check if interrupt flag is set.
    pub fn has_interrupt(&self, glb: &v1::RegisterBlock) -> (r: bool)
        requires
            N < 32,
        ensures
            r == (glb.gpio_interrupt_state & (1u32 << N) != 0),
    {
        glb.gpio_interrupt_state & (1u32 << N) != 0
    }

    /// Mask interrupt.
    pub fn mask_interrupt(&mut self, glb: &mut v1::RegisterBlock)
        requires
            N < 32,
            old(glb).wf(),
        ensures
            final(glb).wf(),
            final(glb).gpio_interrupt_mask == old(glb).gpio_interrupt_mask | (1u32 << N),
            final(glb).gpio_config == old(glb).gpio_config,
            final(glb).gpio_interrupt_mode == old(glb).gpio_interrupt_mode,
            final(glb).gpio_input_value == old(glb).gpio_input_value,
            final(glb).gpio_output_value == old(glb).gpio_output_value,
            final(glb).gpio_output_enable == old(glb).gpio_output_enable,
            final(glb).gpio_interrupt_state == old(glb).gpio_interrupt_state,
    {
        let config = glb.gpio_interrupt_mask | (1u32 << N);
        glb.gpio_interrupt_mask = config;
    }

    /// Unmask interrupt.
    pub fn unmask_interrupt(&mut self, glb: &mut v1::RegisterBlock)
        requires
            N < 32,
            old(glb).wf(),
        ensures
            final(glb).wf(),
            final(glb).gpio_interrupt_mask == old(glb).gpio_interrupt_mask & !(1u32 << N),
            final(glb).gpio_config == old(glb).gpio_config,
            final(glb).gpio_interrupt_mode == old(glb).gpio_interrupt_mode,
            final(glb).gpio_input_value == old(glb).gpio_input_value,
            final(glb).gpio_output_value == old(glb).gpio_output_value,
            final(glb).gpio_output_enable == old(glb).gpio_output_enable,
            final(glb).gpio_interrupt_state == old(glb).gpio_interrupt_state,
    {
        let config = glb.gpio_interrupt_mask & !(1u32 << N);
        glb.gpio_interrupt_mask = config;
    }

    /// Get interrupt mode.
    pub fn interrupt_mode(&self, glb: &v1::RegisterBlock) -> (r: v1::InterruptMode)
        requires
            N < 32,
            glb.wf(),
        ensures
            N % 2 == 0 ==> r == v1::InterruptMode::spec_from_code(
                glb.gpio_interrupt_mode@[N as int / 2].0 & 0xfu32,
            ),
            N % 2 == 1 ==> r == v1::InterruptMode::spec_from_code(
                (glb.gpio_interrupt_mode@[N as int / 2].0 >> 16) & 0xfu32,
            ),
    {
        glb.gpio_interrupt_mode[N / 2].interrupt_mode(N % 2)
    }

    /// Set interrupt mode.
    pub fn set_interrupt_mode(&mut self, glb: &mut v1::RegisterBlock, val: v1::InterruptMode)
        requires
            N < 32,
            old(glb).wf(),
        ensures
            final(glb).wf(),
            N % 2 == 0 ==> final(glb).gpio_interrupt_mode@[N as int / 2].0 == (old(
                glb,
            ).gpio_interrupt_mode@[N as int / 2].0 & !0xfu32) | val.spec_code(),
            N % 2 == 1 ==> final(glb).gpio_interrupt_mode@[N as int / 2].0 == (old(
                glb,
            ).gpio_interrupt_mode@[N as int / 2].0 & !0xf_0000u32) | (val.spec_code() << 16),
            sibling_half(final(glb).gpio_interrupt_mode@[N as int / 2].0, N % 2) == sibling_half(
                old(glb).gpio_interrupt_mode@[N as int / 2].0,
                N % 2,
            ),
            forall|i: int|
                0 <= i < v1::GPIO_CONFIG_GROUPS && i != N as int / 2
                    ==> final(glb).gpio_interrupt_mode@[i] == old(glb).gpio_interrupt_mode@[i],
            final(glb).gpio_config == old(glb).gpio_config,
            final(glb).gpio_input_value == old(glb).gpio_input_value,
            final(glb).gpio_output_value == old(glb).gpio_output_value,
            final(glb).gpio_output_enable == old(glb).gpio_output_enable,
            final(glb).gpio_interrupt_mask == old(glb).gpio_interrupt_mask,
            final(glb).gpio_interrupt_state == old(glb).gpio_interrupt_state,
    {
        let config = glb.gpio_interrupt_mode[N / 2].set_interrupt_mode(N % 2, val);
        glb.gpio_interrupt_mode[N / 2] = config;
    }

    /// Check if the input level is high.
    ///
    /// Reading the level cannot fail; the current line state is returned
    /// directly.
    pub fn is_high(&mut self, glb: &v1::RegisterBlock) -> (r: bool)
        requires
            N < 32,
        ensures
            r == (glb.gpio_input_value & (1u32 << N) != 0),
    {
        glb.gpio_input_value & (1u32 << N) != 0
    }

    /// Check if the input level is low.
    ///
    /// Reading the level cannot fail; the current line state is returned
    /// directly.
    pub fn is_low(&mut self, glb: &v1::RegisterBlock) -> (r: bool)
        requires
            N < 32,
        ensures
            r == (glb.gpio_input_value & (1u32 << N) == 0),
    {
        glb.gpio_input_value & (1u32 << N) == 0
    }
}

impl<const N: usize, M> Padv1<N, Output<M>> {
    /// Get drive strength of this pin.
    pub fn drive(&self, glb: &v1::RegisterBlock) -> (r: Drive)
        requires
            N < 32,
            glb.wf(),
        ensures
            N % 2 == 0 ==> r == Drive::spec_from_code((glb.gpio_config@[N as int / 2].0 >> 2)
                & 0x3u32),
            N % 2 == 1 ==> r == Drive::spec_from_code((glb.gpio_config@[N as int / 2].0 >> 18)
                & 0x3u32),
    {
        glb.gpio_config[N / 2].drive(N % 2)
    }

    /// Set drive strength of this pin.
    pub fn set_drive(&mut self, glb: &mut v1::RegisterBlock, val: Drive)
        requires
            N < 32,
            old(glb).wf(),
        ensures
            final(glb).wf(),
            N % 2 == 0 ==> final(glb).gpio_config@[N as int / 2].0 == (old(glb).gpio_config@[N
                as int / 2].0 & !0xcu32) | (val.spec_code() << 2),
            N % 2 == 1 ==> final(glb).gpio_config@[N as int / 2].0 == (old(glb).gpio_config@[N
                as int / 2].0 & !0xc_0000u32) | (val.spec_code() << 18),
            sibling_half(final(glb).gpio_config@[N as int / 2].0, N % 2) == sibling_half(
                old(glb).gpio_config@[N as int / 2].0,
                N % 2,
            ),
            forall|i: int|
                0 <= i < v1::GPIO_CONFIG_GROUPS && i != N as int / 2
                    ==> final(glb).gpio_config@[i] == old(glb).gpio_config@[i],
            final(glb).gpio_interrupt_mode == old(glb).gpio_interrupt_mode,
            final(glb).gpio_input_value == old(glb).gpio_input_value,
            final(glb).gpio_output_value == old(glb).gpio_output_value,
            final(glb).gpio_output_enable == old(glb).gpio_output_enable,
            final(glb).gpio_interrupt_mask == old(glb).gpio_interrupt_mask,
            final(glb).gpio_interrupt_state == old(glb).gpio_interrupt_state,
    {
        let config = glb.gpio_config[N / 2].set_drive(N % 2, val);
        glb.gpio_config[N / 2] = config;
    }

    /// Set the output level low.
    ///
    /// The register write cannot fail and touches only pin `N`'s bit.
    pub fn set_low(&mut self, glb: &mut v1::RegisterBlock)
        requires
            N < 32,
            old(glb).wf(),
        ensures
            final(glb).wf(),
            final(glb).gpio_output_value == old(glb).gpio_output_value & !(1u32 << N),
            final(glb).gpio_config == old(glb).gpio_config,
            final(glb).gpio_interrupt_mode == old(glb).gpio_interrupt_mode,
            final(glb).gpio_input_value == old(glb).gpio_input_value,
            final(glb).gpio_output_enable == old(glb).gpio_output_enable,
            final(glb).gpio_interrupt_mask == old(glb).gpio_interrupt_mask,
            final(glb).gpio_interrupt_state == old(glb).gpio_interrupt_state,
    {
        let val = glb.gpio_output_value;
        glb.gpio_output_value = val & !(1u32 << N);
    }

    /// Set the output level high.
    ///
    /// The register write cannot fail and touches only pin `N`'s bit.
    pub fn set_high(&mut self, glb: &mut v1::RegisterBlock)
        requires
            N < 32,
            old(glb).wf(),
        ensures
            final(glb).wf(),
            final(glb).gpio_output_value == old(glb).gpio_output_value | (1u32 << N),
            final(glb).gpio_config == old(glb).gpio_config,
            final(glb).gpio_interrupt_mode == old(glb).gpio_interrupt_mode,
            final(glb).gpio_input_value == old(glb).gpio_input_value,
            final(glb).gpio_output_enable == old(glb).gpio_output_enable,
            final(glb).gpio_interrupt_mask == old(glb).gpio_interrupt_mask,
            final(glb).gpio_interrupt_state == old(glb).gpio_interrupt_state,
    {
        let val = glb.gpio_output_value;
        glb.gpio_output_value = val | (1u32 << N);
    }
}

impl<const N: usize, M> Padv1<N, M> {
    /// Configures the pin to operate as a pull up output pin.
    pub fn into_pull_up_output(self, glb: &mut v1::RegisterBlock) -> (r: Padv1<N, Output<PullUp>>)
        requires
            N < 32,
            old(glb).wf(),
        ensures
            final(glb).wf(),
            N % 2 == 0 ==> final(glb).gpio_config@[N as int / 2].0 == v1_pad_config_even(
                old(glb).gpio_config@[N as int / 2].0,
                v1::Function::Gpio.spec_code(),
                false,
                Pull::Up.spec_code(),
            ),
            N % 2 == 1 ==> final(glb).gpio_config@[N as int / 2].0 == v1_pad_config_odd(
                old(glb).gpio_config@[N as int / 2].0,
                v1::Function::Gpio.spec_code(),
                false,
                Pull::Up.spec_code(),
            ),
            sibling_half(final(glb).gpio_config@[N as int / 2].0, N % 2) == sibling_half(
                old(glb).gpio_config@[N as int / 2].0,
                N % 2,
            ),
            forall|i: int|
                0 <= i < v1::GPIO_CONFIG_GROUPS && i != N as int / 2
                    ==> final(glb).gpio_config@[i] == old(glb).gpio_config@[i],
            final(glb).gpio_output_enable == old(glb).gpio_output_enable | (1u32 << N),
            final(glb).gpio_interrupt_mode == old(glb).gpio_interrupt_mode,
            final(glb).gpio_input_value == old(glb).gpio_input_value,
            final(glb).gpio_output_value == old(glb).gpio_output_value,
            final(glb).gpio_interrupt_mask == old(glb).gpio_interrupt_mask,
            final(glb).gpio_interrupt_state == old(glb).gpio_interrupt_state,
    {
        let config = glb.gpio_config[N / 2]
            .set_function(N % 2, v1::Function::Gpio)
            .disable_input(N % 2)
            .set_pull(N % 2, Pull::Up);
        glb.gpio_config[N / 2] = config;
        let val = glb.gpio_output_enable;
        glb.gpio_output_enable = val | (1u32 << N);
        Padv1 { _mode: PhantomData }
    }

    /// Configures the pin to operate as a pull down output pin.
    pub fn into_pull_down_output(self, glb: &mut v1::RegisterBlock) -> (r: Padv1<
        N,
        Output<PullDown>,
    >)
        requires
            N < 32,
            old(glb).wf(),
        ensures
            final(glb).wf(),
            N % 2 == 0 ==> final(glb).gpio_config@[N as int / 2].0 == v1_pad_config_even(
                old(glb).gpio_config@[N as int / 2].0,
                v1::Function::Gpio.spec_code(),
                false,
                Pull::Down.spec_code(),
            ),
            N % 2 == 1 ==> final(glb).gpio_config@[N as int / 2].0 == v1_pad_config_odd(
                old(glb).gpio_config@[N as int / 2].0,
                v1::Function::Gpio.spec_code(),
                false,
                Pull::Down.spec_code(),
            ),
            sibling_half(final(glb).gpio_config@[N as int / 2].0, N % 2) == sibling_half(
                old(glb).gpio_config@[N as int / 2].0,
                N % 2,
            ),
            forall|i: int|
                0 <= i < v1::GPIO_CONFIG_GROUPS && i != N as int / 2
                    ==> final(glb).gpio_config@[i] == old(glb).gpio_config@[i],
            final(glb).gpio_output_enable == old(glb).gpio_output_enable | (1u32 << N),
            final(glb).gpio_interrupt_mode == old(glb).gpio_interrupt_mode,
            final(glb).gpio_input_value == old(glb).gpio_input_value,
            final(glb).gpio_output_value == old(glb).gpio_output_value,
            final(glb).gpio_interrupt_mask == old(glb).gpio_interrupt_mask,
            final(glb).gpio_interrupt_state == old(glb).gpio_interrupt_state,
    {
        let config = glb.gpio_config[N / 2]
            .set_function(N % 2, v1::Function::Gpio)
            .disable_input(N % 2)
            .set_pull(N % 2, Pull::Down);
        glb.gpio_config[N / 2] = config;
        let val = glb.gpio_output_enable;
        glb.gpio_output_enable = val | (1u32 << N);
        Padv1 { _mode: PhantomData }
    }

    /// Configures the pin to operate as a floating output pin.
    pub fn into_floating_output(self, glb: &mut v1::RegisterBlock) -> (r: Padv1<
        N,
        Output<Floating>,
    >)
        requires
            N < 32,
            old(glb).wf(),
        ensures
            final(glb).wf(),
            N % 2 == 0 ==> final(glb).gpio_config@[N as int / 2].0 == v1_pad_config_even(
                old(glb).gpio_config@[N as int / 2].0,
                v1::Function::Gpio.spec_code(),
                false,
                Pull::Floating.spec_code(),
            ),
            N % 2 == 1 ==> final(glb).gpio_config@[N as int / 2].0 == v1_pad_config_odd(
                old(glb).gpio_config@[N as int / 2].0,
                v1::Function::Gpio.spec_code(),
                false,
                Pull::Floating.spec_code(),
            ),
            sibling_half(final(glb).gpio_config@[N as int / 2].0, N % 2) == sibling_half(
                old(glb).gpio_config@[N as int / 2].0,
                N % 2,
            ),
            forall|i: int|
                0 <= i < v1::GPIO_CONFIG_GROUPS && i != N as int / 2
                    ==> final(glb).gpio_config@[i] == old(glb).gpio_config@[i],
            final(glb).gpio_output_enable == old(glb).gpio_output_enable | (1u32 << N),
            final(glb).gpio_interrupt_mode == old(glb).gpio_interrupt_mode,
            final(glb).gpio_input_value == old(glb).gpio_input_value,
            final(glb).gpio_output_value == old(glb).gpio_output_value,
            final(glb).gpio_interrupt_mask == old(glb).gpio_interrupt_mask,
            final(glb).gpio_interrupt_state == old(glb).gpio_interrupt_state,
    {
        let config = glb.gpio_config[N / 2]
            .set_function(N % 2, v1::Function::Gpio)
            .disable_input(N % 2)
            .set_pull(N % 2, Pull::Floating);
        glb.gpio_config[N / 2] = config;
        let val = glb.gpio_output_enable;
        glb.gpio_output_enable = val | (1u32 << N);
        Padv1 { _mode: PhantomData }
    }

    /// Configures the pin to operate as a pull up input pin.
    pub fn into_pull_up_input(self, glb: &mut v1::RegisterBlock) -> (r: Padv1<N, Input<PullUp>>)
        requires
            N < 32,
            old(glb).wf(),
        ensures
            final(glb).wf(),
            N % 2 == 0 ==> final(glb).gpio_config@[N as int / 2].0 == v1_pad_config_even(
                old(glb).gpio_config@[N as int / 2].0,
                v1::Function::Gpio.spec_code(),
                true,
                Pull::Up.spec_code(),
            ),
            N % 2 == 1 ==> final(glb).gpio_config@[N as int / 2].0 == v1_pad_config_odd(
                old(glb).gpio_config@[N as int / 2].0,
                v1::Function::Gpio.spec_code(),
                true,
                Pull::Up.spec_code(),
            ),
            sibling_half(final(glb).gpio_config@[N as int / 2].0, N % 2) == sibling_half(
                old(glb).gpio_config@[N as int / 2].0,
                N % 2,
            ),
            forall|i: int|
                0 <= i < v1::GPIO_CONFIG_GROUPS && i != N as int / 2
                    ==> final(glb).gpio_config@[i] == old(glb).gpio_config@[i],
            final(glb).gpio_output_enable == old(glb).gpio_output_enable & !(1u32 << N),
            final(glb).gpio_interrupt_mode == old(glb).gpio_interrupt_mode,
            final(glb).gpio_input_value == old(glb).gpio_input_value,
            final(glb).gpio_output_value == old(glb).gpio_output_value,
            final(glb).gpio_interrupt_mask == old(glb).gpio_interrupt_mask,
            final(glb).gpio_interrupt_state == old(glb).gpio_interrupt_state,
    {
        let config = glb.gpio_config[N / 2]
            .set_function(N % 2, v1::Function::Gpio)
            .enable_input(N % 2)
            .set_pull(N % 2, Pull::Up);
        glb.gpio_config[N / 2] = config;
        let val = glb.gpio_output_enable;
        glb.gpio_output_enable = val & !(1u32 << N);
        Padv1 { _mode: PhantomData }
    }

    /// Configures the pin to operate as a pull down input pin.
    pub fn into_pull_down_input(self, glb: &mut v1::RegisterBlock) -> (r: Padv1<
        N,
        Input<PullDown>,
    >)
        requires
            N < 32,
            old(glb).wf(),
        ensures
            final(glb).wf(),
            N % 2 == 0 ==> final(glb).gpio_config@[N as int / 2].0 == v1_pad_config_even(
                old(glb).gpio_config@[N as int / 2].0,
                v1::Function::Gpio.spec_code(),
                true,
                Pull::Down.spec_code(),
            ),
            N % 2 == 1 ==> final(glb).gpio_config@[N as int / 2].0 == v1_pad_config_odd(
                old(glb).gpio_config@[N as int / 2].0,
                v1::Function::Gpio.spec_code(),
                true,
                Pull::Down.spec_code(),
            ),
            sibling_half(final(glb).gpio_config@[N as int / 2].0, N % 2) == sibling_half(
                old(glb).gpio_config@[N as int / 2].0,
                N % 2,
            ),
            forall|i: int|
                0 <= i < v1::GPIO_CONFIG_GROUPS && i != N as int / 2
                    ==> final(glb).gpio_config@[i] == old(glb).gpio_config@[i],
            final(glb).gpio_output_enable == old(glb).gpio_output_enable & !(1u32 << N),
            final(glb).gpio_interrupt_mode == old(glb).gpio_interrupt_mode,
            final(glb).gpio_input_value == old(glb).gpio_input_value,
            final(glb).gpio_output_value == old(glb).gpio_output_value,
            final(glb).gpio_interrupt_mask == old(glb).gpio_interrupt_mask,
            final(glb).gpio_interrupt_state == old(glb).gpio_interrupt_state,
    {
        let config = glb.gpio_config[N / 2]
            .set_function(N % 2, v1::Function::Gpio)
            .enable_input(N % 2)
            .set_pull(N % 2, Pull::Down);
        glb.gpio_config[N / 2] = config;
        let val = glb.gpio_output_enable;
        glb.gpio_output_enable = val & !(1u32 << N);
        Padv1 { _mode: PhantomData }
    }

    /// Configures the pin to operate as a floating input pin.
    pub fn into_floating_input(self, glb: &mut v1::RegisterBlock) -> (r: Padv1<
        N,
        Input<Floating>,
    >)
        requires
            N < 32,
            old(glb).wf(),
        ensures
            final(glb).wf(),
            N % 2 == 0 ==> final(glb).gpio_config@[N as int / 2].0 == v1_pad_config_even(
                old(glb).gpio_config@[N as int / 2].0,
                v1::Function::Gpio.spec_code(),
                true,
                Pull::Floating.spec_code(),
            ),
            N % 2 == 1 ==> final(glb).gpio_config@[N as int / 2].0 == v1_pad_config_odd(
                old(glb).gpio_config@[N as int / 2].0,
                v1::Function::Gpio.spec_code(),
                true,
                Pull::Floating.spec_code(),
            ),
            sibling_half(final(glb).gpio_config@[N as int / 2].0, N % 2) == sibling_half(
                old(glb).gpio_config@[N as int / 2].0,
                N % 2,
            ),
            forall|i: int|
                0 <= i < v1::GPIO_CONFIG_GROUPS && i != N as int / 2
                    ==> final(glb).gpio_config@[i] == old(glb).gpio_config@[i],
            final(glb).gpio_output_enable == old(glb).gpio_output_enable & !(1u32 << N),
            final(glb).gpio_interrupt_mode == old(glb).gpio_interrupt_mode,
            final(glb).gpio_input_value == old(glb).gpio_input_value,
            final(glb).gpio_output_value == old(glb).gpio_output_value,
            final(glb).gpio_interrupt_mask == old(glb).gpio_interrupt_mask,
            final(glb).gpio_interrupt_state == old(glb).gpio_interrupt_state,
    {
        let config = glb.gpio_config[N / 2]
            .set_function(N % 2, v1::Function::Gpio)
            .enable_input(N % 2)
            .set_pull(N % 2, Pull::Floating);
        glb.gpio_config[N / 2] = config;
        let val = glb.gpio_output_enable;
        glb.gpio_output_enable = val & !(1u32 << N);
        Padv1 { _mode: PhantomData }
    }

    /// Configures the pin to operate as UART signal.
    pub fn into_uart(self, glb: &mut v1::RegisterBlock) -> (r: Padv1<N, Uart>)
        requires
            N < 32,
            old(glb).wf(),
        ensures
            final(glb).wf(),
            N % 2 == 0 ==> final(glb).gpio_config@[N as int / 2].0 == v1_pad_config_even(
                old(glb).gpio_config@[N as int / 2].0,
                v1::Function::Uart.spec_code(),
                true,
                Pull::Floating.spec_code(),
            ),
            N % 2 == 1 ==> final(glb).gpio_config@[N as int / 2].0 == v1_pad_config_odd(
                old(glb).gpio_config@[N as int / 2].0,
                v1::Function::Uart.spec_code(),
                true,
                Pull::Floating.spec_code(),
            ),
            sibling_half(final(glb).gpio_config@[N as int / 2].0, N % 2) == sibling_half(
                old(glb).gpio_config@[N as int / 2].0,
                N % 2,
            ),
            forall|i: int|
                0 <= i < v1::GPIO_CONFIG_GROUPS && i != N as int / 2
                    ==> final(glb).gpio_config@[i] == old(glb).gpio_config@[i],
            final(glb).gpio_interrupt_mode == old(glb).gpio_interrupt_mode,
            final(glb).gpio_input_value == old(glb).gpio_input_value,
            final(glb).gpio_output_value == old(glb).gpio_output_value,
            final(glb).gpio_output_enable == old(glb).gpio_output_enable,
            final(glb).gpio_interrupt_mask == old(glb).gpio_interrupt_mask,
            final(glb).gpio_interrupt_state == old(glb).gpio_interrupt_state,
    {
        let config = glb.gpio_config[N / 2]
            .set_function(N % 2, v1::Function::Uart)
            .enable_input(N % 2)
            .set_pull(N % 2, Pull::Floating);
        glb.gpio_config[N / 2] = config;
        Padv1 { _mode: PhantomData }
    }
}

impl<const N: usize> Padv1<N, Disabled> {
    /// Take ownership of the capability for pin `N`.
    ///
    /// Pad values must stay unique: call this once per pin at system
    /// start.
    pub fn __from_glb() -> Padv1<N, Disabled> {
        Padv1 { _mode: PhantomData }
    }
}

} // verus!
