//! Pad configuration registers of the second hardware generation.
//!
//! Every pin has a dedicated 32-bit configuration register, so a
//! read-modify-write for one pin can never disturb another pin. Bit 0
//! enables input, bit 1 the schmitt trigger, bits 2..=3 hold the drive
//! strength, bits 4..=5 the pull state, bit 6 enables output, bits 8..=12
//! the function-select code, bits 16..=19 the interrupt trigger mode, bit
//! 20 is the write-one-to-clear interrupt strobe, bit 21 the pending
//! interrupt state set by hardware, bit 22 the interrupt mask, bit 24 the
//! output level and bits 30..=31 the output mode.

use vstd::prelude::*;

use crate::glb::{Drive, Pull};

verus! {

/// Mask of the interrupt-pending bit in a pin configuration register.
pub const INTERRUPT_PENDING_BIT: u32 = 0x20_0000;

/// Mask of the interrupt-clear strobe bit in a pin configuration register.
pub const INTERRUPT_CLEAR_BIT: u32 = 0x10_0000;

/// Pin function selected through the function-select field.
#[derive(Clone, Copy, Debug, PartialEq, Eq, Structural)]
pub enum Function {
    /// Serial Peripheral Interface 0 function.
    Spi0,
    /// Inter-Integrated Circuit 0 function.
    I2c0,
    /// Inter-Integrated Circuit 1 function.
    I2c1,
    /// Universal Asynchronous Receiver/Transmitter function.
    Uart,
    /// Software-controlled digital input/output function.
    Gpio,
    /// Pulse Width Modulation 0 function.
    Pwm0,
    /// Pulse Width Modulation 1 function.
    Pwm1,
    /// Serial Peripheral Interface 1 function.
    Spi1,
    /// Multi-media cluster Universal Asynchronous Receiver/Transmitter
    /// function.
    MmUart,
    /// Inter-Integrated Circuit 2 function.
    I2c2,
    /// Inter-Integrated Circuit 3 function.
    I2c3,
}

impl Function {
    /// Function-select code of this function.
    pub open spec fn spec_code(self) -> u32 {
        match self {
            Function::Spi0 => 1,
            Function::I2c0 => 5,
            Function::I2c1 => 6,
            Function::Uart => 7,
            Function::Gpio => 11,
            Function::Pwm0 => 16,
            Function::Pwm1 => 17,
            Function::Spi1 => 18,
            Function::MmUart => 21,
            Function::I2c2 => 22,
            Function::I2c3 => 23,
        }
    }

    /// Function-select code of this function.
    pub fn code(self) -> (r: u32)
        ensures
            r == self.spec_code(),
            r <= 23,
    {
        match self {
            Function::Spi0 => 1,
            Function::I2c0 => 5,
            Function::I2c1 => 6,
            Function::Uart => 7,
            Function::Gpio => 11,
            Function::Pwm0 => 16,
            Function::Pwm1 => 17,
            Function::Spi1 => 18,
            Function::MmUart => 21,
            Function::I2c2 => 22,
            Function::I2c3 => 23,
        }
    }
}

/// Output mode of a pin.
#[derive(Clone, Copy, Debug, PartialEq, Eq, Structural)]
pub enum Mode {
    /// The output level follows the output bit directly.
    Normal,
    /// The output level is driven through set and clear strobe registers.
    SetClear,
    /// The output is driven by a peripheral or DMA engine.
    Programmable,
    /// Buffered set and clear operation.
    BufferedSetClear,
}

impl Mode {
    /// Field encoding of this output mode.
    pub open spec fn spec_code(self) -> u32 {
        match self {
            Mode::Normal => 0,
            Mode::SetClear => 1,
            Mode::Programmable => 2,
            Mode::BufferedSetClear => 3,
        }
    }

    /// Field encoding of this output mode.
    pub fn code(self) -> (r: u32)
        ensures
            r == self.spec_code(),
            r <= 3,
    {
        match self {
            Mode::Normal => 0,
            Mode::SetClear => 1,
            Mode::Programmable => 2,
            Mode::BufferedSetClear => 3,
        }
    }
}

/// Interrupt trigger mode of one pin.
#[derive(Clone, Copy, Debug, PartialEq, Eq, Structural)]
pub enum InterruptMode {
    /// Trigger on falling edge, synchronised to the bus clock.
    SyncFallingEdge,
    /// Trigger on rising edge, synchronised to the bus clock.
    SyncRisingEdge,
    /// Trigger while the level is low, synchronised to the bus clock.
    SyncLowLevel,
    /// Trigger while the level is high, synchronised to the bus clock.
    SyncHighLevel,
    /// Trigger on falling edge, asynchronously.
    AsyncFallingEdge,
    /// Trigger on rising edge, asynchronously.
    AsyncRisingEdge,
    /// Trigger while the level is low, asynchronously.
    AsyncLowLevel,
    /// Trigger while the level is high, asynchronously.
    AsyncHighLevel,
}

impl InterruptMode {
    /// Field encoding of this interrupt mode.
    pub open spec fn spec_code(self) -> u32 {
        match self {
            InterruptMode::SyncFallingEdge => 0,
            InterruptMode::SyncRisingEdge => 1,
            InterruptMode::SyncLowLevel => 2,
            InterruptMode::SyncHighLevel => 3,
            InterruptMode::AsyncFallingEdge => 4,
            InterruptMode::AsyncRisingEdge => 5,
            InterruptMode::AsyncLowLevel => 6,
            InterruptMode::AsyncHighLevel => 7,
        }
    }

    /// Interrupt mode denoted by a field value.
    pub open spec fn spec_from_code(code: u32) -> InterruptMode {
        if code == 0 {
            InterruptMode::SyncFallingEdge
        } else if code == 1 {
            InterruptMode::SyncRisingEdge
        } else if code == 2 {
            InterruptMode::SyncLowLevel
        } else if code == 3 {
            InterruptMode::SyncHighLevel
        } else if code == 4 {
            InterruptMode::AsyncFallingEdge
        } else if code == 5 {
            InterruptMode::AsyncRisingEdge
        } else if code == 6 {
            InterruptMode::AsyncLowLevel
        } else {
            InterruptMode::AsyncHighLevel
        }
    }

    /// Field encoding of this interrupt mode.
    pub fn code(self) -> (r: u32)
        ensures
            r == self.spec_code(),
            r <= 7,
    {
        match self {
            InterruptMode::SyncFallingEdge => 0,
            InterruptMode::SyncRisingEdge => 1,
            InterruptMode::SyncLowLevel => 2,
            InterruptMode::SyncHighLevel => 3,
            InterruptMode::AsyncFallingEdge => 4,
            InterruptMode::AsyncRisingEdge => 5,
            InterruptMode::AsyncLowLevel => 6,
            InterruptMode::AsyncHighLevel => 7,
        }
    }

    /// Interrupt mode denoted by a field value.
    pub fn from_code(code: u32) -> (r: InterruptMode)
        ensures
            r == Self::spec_from_code(code),
    {
        if code == 0 {
            InterruptMode::SyncFallingEdge
        } else if code == 1 {
            InterruptMode::SyncRisingEdge
        } else if code == 2 {
            InterruptMode::SyncLowLevel
        } else if code == 3 {
            InterruptMode::SyncHighLevel
        } else if code == 4 {
            InterruptMode::AsyncFallingEdge
        } else if code == 5 {
            InterruptMode::AsyncRisingEdge
        } else if code == 6 {
            InterruptMode::AsyncLowLevel
        } else {
            InterruptMode::AsyncHighLevel
        }
    }
}

/// Configuration register of one pin.
#[derive(Clone, Copy, Debug, PartialEq, Eq, Structural)]
pub struct GpioConfig(pub u32);

impl GpioConfig {
    /// The reset value of a pin configuration register: everything
    /// disabled, all fields zero.
    pub fn reset_value() -> (r: Self)
        ensures
            r.0 == 0,
    {
        GpioConfig(0)
    }

    /// Enable input.
    pub fn enable_input(self) -> (r: Self)
        ensures
            r.0 == self.0 | 0x1u32,
    {
        GpioConfig(self.0 | 0x1u32)
    }
    /// Disable input.
    pub fn disable_input(self) -> (r: Self)
        ensures
            r.0 == self.0 & !0x1u32,
    {
        GpioConfig(self.0 & !0x1u32)
    }
    /// Check if input is enabled.
    pub fn is_input_enabled(self) -> (r: bool)
        ensures
            r == (self.0 & 0x1u32 != 0),
    {
        self.0 & 0x1u32 != 0
    }
    /// Enable the schmitt trigger.
    pub fn enable_schmitt(self) -> (r: Self)
        ensures
            r.0 == self.0 | 0x2u32,
    {
        GpioConfig(self.0 | 0x2u32)
    }
    /// Disable the schmitt trigger.
    pub fn disable_schmitt(self) -> (r: Self)
        ensures
            r.0 == self.0 & !0x2u32,
    {
        GpioConfig(self.0 & !0x2u32)
    }
    /// Check if the schmitt trigger is enabled.
    pub fn is_schmitt_enabled(self) -> (r: bool)
        ensures
            r == (self.0 & 0x2u32 != 0),
    {
        self.0 & 0x2u32 != 0
    }
    /// Set the drive strength.
    pub fn set_drive(self, val: Drive) -> (r: Self)
        ensures
            r.0 == (self.0 & !0xcu32) | (val.spec_code() << 2),
    {
        GpioConfig((self.0 & !0xcu32) | (val.code() << 2))
    }
    /// Get the drive strength.
    pub fn drive(self) -> (r: Drive)
        ensures
            r == Drive::spec_from_code((self.0 >> 2) & 0x3u32),
    {
        Drive::from_code((self.0 >> 2) & 0x3u32)
    }
    /// Set the pull state.
    pub fn set_pull(self, val: Pull) -> (r: Self)
        ensures
            r.0 == (self.0 & !0x30u32) | (val.spec_code() << 4),
    {
        GpioConfig((self.0 & !0x30u32) | (val.code() << 4))
    }
    /// Enable output.
    pub fn enable_output(self) -> (r: Self)
        ensures
            r.0 == self.0 | 0x40u32,
    {
        GpioConfig(self.0 | 0x40u32)
    }
    /// Disable output.
    pub fn disable_output(self) -> (r: Self)
        ensures
            r.0 == self.0 & !0x40u32,
    {
        GpioConfig(self.0 & !0x40u32)
    }
    /// Check if output is enabled.
    pub fn is_output_enabled(self) -> (r: bool)
        ensures
            r == (self.0 & 0x40u32 != 0),
    {
        self.0 & 0x40u32 != 0
    }
    /// Set the function-select code.
    pub fn set_function(self, val: Function) -> (r: Self)
        ensures
            r.0 == (self.0 & !0x1f00u32) | (val.spec_code() << 8),
    {
        GpioConfig((self.0 & !0x1f00u32) | (val.code() << 8))
    }
    /// Get the function-select code.
    pub fn function_code(self) -> (r: u32)
        ensures
            r == (self.0 >> 8) & 0x1fu32,
    {
        (self.0 >> 8) & 0x1fu32
    }
    /// Set the output mode.
    pub fn set_mode(self, val: Mode) -> (r: Self)
        ensures
            r.0 == (self.0 & 0x3fff_ffffu32) | (val.spec_code() << 30),
    {
        GpioConfig((self.0 & 0x3fff_ffffu32) | (val.code() << 30))
    }
    /// Set the interrupt trigger mode.
    pub fn set_interrupt_mode(self, val: InterruptMode) -> (r: Self)
        ensures
            r.0 == (self.0 & !0xf_0000u32) | (val.spec_code() << 16),
    {
        GpioConfig((self.0 & !0xf_0000u32) | (val.code() << 16))
    }
    /// Get the interrupt trigger mode.
    pub fn interrupt_mode(self) -> (r: InterruptMode)
        ensures
            r == InterruptMode::spec_from_code((self.0 >> 16) & 0xfu32),
    {
        InterruptMode::from_code((self.0 >> 16) & 0xfu32)
    }
    /// Check if the pending interrupt bit is set.
    pub fn has_interrupt(self) -> (r: bool)
        ensures
            r == (self.0 & INTERRUPT_PENDING_BIT != 0),
    {
        self.0 & INTERRUPT_PENDING_BIT != 0
    }
    /// Raise the interrupt-clear strobe.
    ///
    /// Writing the returned value back clears the pending interrupt bit;
    /// see [`RegisterBlock::write_gpio_config`].
    pub fn clear_interrupt(self) -> (r: Self)
        ensures
            r.0 == self.0 | INTERRUPT_CLEAR_BIT,
    {
        GpioConfig(self.0 | INTERRUPT_CLEAR_BIT)
    }
    /// Mask the interrupt.
    pub fn mask_interrupt(self) -> (r: Self)
        ensures
            r.0 == self.0 | 0x40_0000u32,
    {
        GpioConfig(self.0 | 0x40_0000u32)
    }
    /// Unmask the interrupt.
    pub fn unmask_interrupt(self) -> (r: Self)
        ensures
            r.0 == self.0 & !0x40_0000u32,
    {
        GpioConfig(self.0 & !0x40_0000u32)
    }
}

/// Internal UART signal routed by the signal multiplexer.
#[derive(Clone, Copy, Debug, PartialEq, Eq, Structural)]
pub enum UartSignal {
    /// Request-to-Send of UART peripheral 0.
    Rts0,
    /// Clear-to-Send of UART peripheral 0.
    Cts0,
    /// Transmit of UART peripheral 0.
    Txd0,
    /// Receive of UART peripheral 0.
    Rxd0,
    /// Request-to-Send of UART peripheral 1.
    Rts1,
    /// Clear-to-Send of UART peripheral 1.
    Cts1,
    /// Transmit of UART peripheral 1.
    Txd1,
    /// Receive of UART peripheral 1.
    Rxd1,
    /// Request-to-Send of UART peripheral 2.
    Rts2,
    /// Clear-to-Send of UART peripheral 2.
    Cts2,
    /// Transmit of UART peripheral 2.
    Txd2,
    /// Receive of UART peripheral 2.
    Rxd2,
}

impl UartSignal {
    /// Field encoding of this signal.
    pub open spec fn spec_code(self) -> u32 {
        match self {
            UartSignal::Rts0 => 0,
            UartSignal::Cts0 => 1,
            UartSignal::Txd0 => 2,
            UartSignal::Rxd0 => 3,
            UartSignal::Rts1 => 4,
            UartSignal::Cts1 => 5,
            UartSignal::Txd1 => 6,
            UartSignal::Rxd1 => 7,
            UartSignal::Rts2 => 8,
            UartSignal::Cts2 => 9,
            UartSignal::Txd2 => 10,
            UartSignal::Rxd2 => 11,
        }
    }

    /// Field encoding of this signal.
    pub fn code(self) -> (r: u32)
        ensures
            r == self.spec_code(),
            r <= 11,
    {
        match self {
            UartSignal::Rts0 => 0,
            UartSignal::Cts0 => 1,
            UartSignal::Txd0 => 2,
            UartSignal::Rxd0 => 3,
            UartSignal::Rts1 => 4,
            UartSignal::Cts1 => 5,
            UartSignal::Txd1 => 6,
            UartSignal::Rxd1 => 7,
            UartSignal::Rts2 => 8,
            UartSignal::Cts2 => 9,
            UartSignal::Txd2 => 10,
            UartSignal::Rxd2 => 11,
        }
    }
}

/// UART signal multiplexer group register: eight signal slots of four bits
/// each.
#[derive(Clone, Copy, Debug, PartialEq, Eq, Structural)]
pub struct UartMuxGroup(pub u32);

impl UartMuxGroup {
    /// Route the given slot to the given UART signal, leaving the other
    /// slots untouched.
    pub fn set_signal(self, slot: usize, sig: UartSignal) -> (r: Self)
        requires
            slot < 8,
        ensures
            r.0 == (self.0 & !(0xfu32 << ((4 * slot) as u32))) | (sig.spec_code() << ((4
                * slot) as u32)),
    {
        let sh: u32 = (4 * slot) as u32;
        UartMuxGroup((self.0 & !(0xfu32 << sh)) | (sig.code() << sh))
    }

    /// Signal code routed to the given slot.
    pub fn signal_code(self, slot: usize) -> (r: u32)
        requires
            slot < 8,
        ensures
            r == (self.0 >> ((4 * slot) as u32)) & 0xfu32,
    {
        (self.0 >> ((4 * slot) as u32)) & 0xfu32
    }
}

/// Number of pins with a dedicated configuration register.
pub const GPIO_CONFIG_COUNT: usize = 46;

/// Number of 32-bit words holding the input and output levels.
pub const GPIO_WORD_COUNT: usize = 2;

/// Number of UART signal multiplexer group registers.
pub const UART_MUX_GROUP_COUNT: usize = 2;

/// Registers of the second-generation pad controller, modelled as plain
/// values.
pub struct RegisterBlock {
    /// Pin configuration, one register per pin.
    pub gpio_config: Vec<GpioConfig>,
    /// Current input level of every pin, one bit each, 32 pins per word.
    pub gpio_input: Vec<u32>,
    /// Output level driven on every pin, one bit each, 32 pins per word.
    pub gpio_output: Vec<u32>,
    /// UART signal multiplexer groups, eight signals per register.
    pub uart_mux_group: Vec<UartMuxGroup>,
}

impl RegisterBlock {
    /// The register file is well-formed: it has one configuration register
    /// per pin, and full input, output and multiplexer arrays.
    pub open spec fn wf(self) -> bool {
        &&& self.gpio_config@.len() == GPIO_CONFIG_COUNT
        &&& self.gpio_input@.len() == GPIO_WORD_COUNT
        &&& self.gpio_output@.len() == GPIO_WORD_COUNT
        &&& self.uart_mux_group@.len() == UART_MUX_GROUP_COUNT
    }

    /// A register block with every register at its reset value.
    pub fn new() -> (r: RegisterBlock)
        ensures
            r.wf(),
            forall|i: int| 0 <= i < GPIO_CONFIG_COUNT ==> (#[trigger] r.gpio_config@[i]).0 == 0,
            forall|i: int| 0 <= i < GPIO_WORD_COUNT ==> #[trigger] r.gpio_input@[i] == 0,
            forall|i: int| 0 <= i < GPIO_WORD_COUNT ==> #[trigger] r.gpio_output@[i] == 0,
            forall|i: int|
                0 <= i < UART_MUX_GROUP_COUNT ==> (#[trigger] r.uart_mux_group@[i]).0 == 0,
    {
        let mut config: Vec<GpioConfig> = Vec::new();
        let mut i: usize = 0;
        while i < GPIO_CONFIG_COUNT
            invariant
                i <= GPIO_CONFIG_COUNT,
                config@.len() == i,
                forall|j: int| 0 <= j < i ==> (#[trigger] config@[j]).0 == 0,
            decreases GPIO_CONFIG_COUNT - i,
        {
            config.push(GpioConfig(0));
            i = i + 1;
        }
        let mut input: Vec<u32> = Vec::new();
        let mut output: Vec<u32> = Vec::new();
        let mut mux: Vec<UartMuxGroup> = Vec::new();
        let mut j: usize = 0;
        while j < GPIO_WORD_COUNT
            invariant
                j <= GPIO_WORD_COUNT,
                input@.len() == j,
                output@.len() == j,
                mux@.len() == j,
                forall|k: int| 0 <= k < j ==> #[trigger] input@[k] == 0,
                forall|k: int| 0 <= k < j ==> #[trigger] output@[k] == 0,
                forall|k: int| 0 <= k < j ==> (#[trigger] mux@[k]).0 == 0,
            decreases GPIO_WORD_COUNT - j,
        {
            input.push(0);
            output.push(0);
            mux.push(UartMuxGroup(0));
            j = j + 1;
        }
        RegisterBlock { gpio_config: config, gpio_input: input, gpio_output: output, uart_mux_group: mux }
    }

    /// The value the configuration register of pin `n` holds after `val`
    /// is written to it.
    ///
    /// The pending bit survives the write unless the clear strobe is set;
    /// neither the strobe nor a software-written pending bit is stored.
    pub open spec fn spec_config_after_write(old_cfg: u32, val: u32) -> u32 {
        if val & INTERRUPT_CLEAR_BIT != 0 {
            val & !(INTERRUPT_CLEAR_BIT | INTERRUPT_PENDING_BIT)
        } else {
            (val & !(INTERRUPT_CLEAR_BIT | INTERRUPT_PENDING_BIT)) | (old_cfg
                & INTERRUPT_PENDING_BIT)
        }
    }

    /// Write the configuration register of pin `n`.
    ///
    /// On hardware, the pending interrupt bit is read-only and the clear
    /// bit is a write-one-to-clear strobe: writing a value with the strobe
    /// set clears the pending bit, and neither bit is stored as written.
    pub fn write_gpio_config(&mut self, n: usize, val: GpioConfig)
        requires
            old(self).wf(),
            n < GPIO_CONFIG_COUNT,
        ensures
            final(self).wf(),
            final(self).gpio_config@.len() == old(self).gpio_config@.len(),
            final(self).gpio_config@[n as int].0 == Self::spec_config_after_write(
                old(self).gpio_config@[n as int].0,
                val.0,
            ),
            forall|i: int|
                0 <= i < old(self).gpio_config@.len() && i != n
                    ==> final(self).gpio_config@[i] == old(self).gpio_config@[i],
            final(self).gpio_input == old(self).gpio_input,
            final(self).gpio_output == old(self).gpio_output,
            final(self).uart_mux_group == old(self).uart_mux_group,
    {
        let old_cfg = self.gpio_config[n].0;
        let stored: u32 = if val.0 & INTERRUPT_CLEAR_BIT != 0 {
            val.0 & !(INTERRUPT_CLEAR_BIT | INTERRUPT_PENDING_BIT)
        } else {
            (val.0 & !(INTERRUPT_CLEAR_BIT | INTERRUPT_PENDING_BIT)) | (old_cfg
                & INTERRUPT_PENDING_BIT)
        };
        self.gpio_config[n] = GpioConfig(stored);
    }

    /// Record a hardware interrupt trigger for pin `n`.
    ///
    /// This stands for the level or edge detector of the pin firing; only
    /// the hardware, never software, sets the pending bit.
    pub fn set_interrupt_pending(&mut self, n: usize)
        requires
            old(self).wf(),
            n < GPIO_CONFIG_COUNT,
        ensures
            final(self).wf(),
            final(self).gpio_config@.len() == old(self).gpio_config@.len(),
            final(self).gpio_config@[n as int].0 == old(self).gpio_config@[n as int].0
                | INTERRUPT_PENDING_BIT,
            forall|i: int|
                0 <= i < old(self).gpio_config@.len() && i != n
                    ==> final(self).gpio_config@[i] == old(self).gpio_config@[i],
            final(self).gpio_input == old(self).gpio_input,
            final(self).gpio_output == old(self).gpio_output,
            final(self).uart_mux_group == old(self).uart_mux_group,
    {
        let cfg = self.gpio_config[n].0;
        self.gpio_config[n] = GpioConfig(cfg | INTERRUPT_PENDING_BIT);
    }

    /// Write the output-set strobe word `i`: every one-bit drives the
    /// matching pin's output level high.
    pub fn write_gpio_set(&mut self, i: usize, bits: u32)
        requires
            old(self).wf(),
            i < GPIO_WORD_COUNT,
        ensures
            final(self).wf(),
            final(self).gpio_output@.len() == old(self).gpio_output@.len(),
            final(self).gpio_output@[i as int] == old(self).gpio_output@[i as int] | bits,
            forall|k: int|
                0 <= k < old(self).gpio_output@.len() && k != i
                    ==> final(self).gpio_output@[k] == old(self).gpio_output@[k],
            final(self).gpio_config == old(self).gpio_config,
            final(self).gpio_input == old(self).gpio_input,
            final(self).uart_mux_group == old(self).uart_mux_group,
    {
        let w = self.gpio_output[i];
        self.gpio_output[i] = w | bits;
    }

    /// Write the output-clear strobe word `i`: every one-bit drives the
    /// matching pin's output level low.
    pub fn write_gpio_clear(&mut self, i: usize, bits: u32)
        requires
            old(self).wf(),
            i < GPIO_WORD_COUNT,
        ensures
            final(self).wf(),
            final(self).gpio_output@.len() == old(self).gpio_output@.len(),
            final(self).gpio_output@[i as int] == old(self).gpio_output@[i as int] & !bits,
            forall|k: int|
                0 <= k < old(self).gpio_output@.len() && k != i
                    ==> final(self).gpio_output@[k] == old(self).gpio_output@[k],
            final(self).gpio_config == old(self).gpio_config,
            final(self).gpio_input == old(self).gpio_input,
            final(self).uart_mux_group == old(self).uart_mux_group,
    {
        let w = self.gpio_output[i];
        self.gpio_output[i] = w & !bits;
    }
}

} // verus!
