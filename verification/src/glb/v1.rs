//! Pad configuration registers of the first hardware generation.
//!
//! One 32-bit configuration register holds the settings of two adjacent
//! pins, sixteen bits each: the even pin in bits 0..=15, the odd pin in
//! bits 16..=31. Within each sixteen-bit half, bit 0 enables input, bit 1
//! the schmitt trigger, bits 2..=3 hold the drive strength, bits 4..=5 the
//! pull state and bits 8..=11 the function-select code. Every
//! read-modify-write of one pin's sub-field must leave the sibling pin's
//! half bit-for-bit unchanged; the contracts below state that directly.

use vstd::prelude::*;

use crate::glb::{Drive, Pull};

verus! {

/// The sixteen-bit half of a packed value that belongs to the other slot.
pub open spec fn sibling_half(v: u32, slot: usize) -> u32 {
    if slot % 2 == 0 {
        v >> 16
    } else {
        v & 0xffffu32
    }
}

/// Pin function selected through the packed function-select field.
#[derive(Clone, Copy, Debug, PartialEq, Eq, Structural)]
pub enum Function {
    /// Secure Digital host function.
    Sdio,
    /// Flash controller function.
    Flash,
    /// Serial Peripheral Interface function.
    Spi,
    /// Inter-Integrated Circuit function.
    I2c,
    /// Universal Asynchronous Receiver/Transmitter function.
    Uart,
    /// Pulse Width Modulation function.
    Pwm,
    /// Analog function.
    Analog,
    /// Software-controlled digital input/output function.
    Gpio,
    /// Debug port function.
    Jtag,
}

impl Function {
    /// Function-select code of this function.
    pub open spec fn spec_code(self) -> u32 {
        match self {
            Function::Sdio => 1,
            Function::Flash => 2,
            Function::Spi => 4,
            Function::I2c => 6,
            Function::Uart => 7,
            Function::Pwm => 8,
            Function::Analog => 10,
            Function::Gpio => 11,
            Function::Jtag => 14,
        }
    }

    /// Function-select code of this function.
    pub fn code(self) -> (r: u32)
        ensures
            r == self.spec_code(),
            r <= 14,
    {
        match self {
            Function::Sdio => 1,
            Function::Flash => 2,
            Function::Spi => 4,
            Function::I2c => 6,
            Function::Uart => 7,
            Function::Pwm => 8,
            Function::Analog => 10,
            Function::Gpio => 11,
            Function::Jtag => 14,
        }
    }
}

/// Interrupt trigger mode of one pin.
#[derive(Clone, Copy, Debug, PartialEq, Eq, Structural)]
pub enum InterruptMode {
    /// Trigger on falling edge, synchronised to the bus clock.
    SyncFallingEdge,
    /// Trigger on rising edge, synchronised to the bus clock.
    SyncRisingEdge,
    /// Trigger while the level is low, synchronised to the bus clock.
    SyncLowLevel,
    /// Trigger while the level is high, synchronised to the bus clock.
    SyncHighLevel,
    /// Trigger on falling edge, asynchronously.
    AsyncFallingEdge,
    /// Trigger on rising edge, asynchronously.
    AsyncRisingEdge,
    /// Trigger while the level is low, asynchronously.
    AsyncLowLevel,
    /// Trigger while the level is high, asynchronously.
    AsyncHighLevel,
}

impl InterruptMode {
    /// Field encoding of this interrupt mode.
    pub open spec fn spec_code(self) -> u32 {
        match self {
            InterruptMode::SyncFallingEdge => 0,
            InterruptMode::SyncRisingEdge => 1,
            InterruptMode::SyncLowLevel => 2,
            InterruptMode::SyncHighLevel => 3,
            InterruptMode::AsyncFallingEdge => 4,
            InterruptMode::AsyncRisingEdge => 5,
            InterruptMode::AsyncLowLevel => 6,
            InterruptMode::AsyncHighLevel => 7,
        }
    }

    /// Interrupt mode denoted by a field value.
    pub open spec fn spec_from_code(code: u32) -> InterruptMode {
        if code == 0 {
            InterruptMode::SyncFallingEdge
        } else if code == 1 {
            InterruptMode::SyncRisingEdge
        } else if code == 2 {
            InterruptMode::SyncLowLevel
        } else if code == 3 {
            InterruptMode::SyncHighLevel
        } else if code == 4 {
            InterruptMode::AsyncFallingEdge
        } else if code == 5 {
            InterruptMode::AsyncRisingEdge
        } else if code == 6 {
            InterruptMode::AsyncLowLevel
        } else {
            InterruptMode::AsyncHighLevel
        }
    }

    /// Field encoding of this interrupt mode.
    pub fn code(self) -> (r: u32)
        ensures
            r == self.spec_code(),
            r <= 7,
    {
        match self {
            InterruptMode::SyncFallingEdge => 0,
            InterruptMode::SyncRisingEdge => 1,
            InterruptMode::SyncLowLevel => 2,
            InterruptMode::SyncHighLevel => 3,
            InterruptMode::AsyncFallingEdge => 4,
            InterruptMode::AsyncRisingEdge => 5,
            InterruptMode::AsyncLowLevel => 6,
            InterruptMode::AsyncHighLevel => 7,
        }
    }

    /// Interrupt mode denoted by a field value.
    pub fn from_code(code: u32) -> (r: InterruptMode)
        ensures
            r == Self::spec_from_code(code),
    {
        if code == 0 {
            InterruptMode::SyncFallingEdge
        } else if code == 1 {
            InterruptMode::SyncRisingEdge
        } else if code == 2 {
            InterruptMode::SyncLowLevel
        } else if code == 3 {
            InterruptMode::SyncHighLevel
        } else if code == 4 {
            InterruptMode::AsyncFallingEdge
        } else if code == 5 {
            InterruptMode::AsyncRisingEdge
        } else if code == 6 {
            InterruptMode::AsyncLowLevel
        } else {
            InterruptMode::AsyncHighLevel
        }
    }
}

/// Packed configuration register holding two pins, sixteen bits each.
#[derive(Clone, Copy, Debug, PartialEq, Eq, Structural)]
pub struct GpioConfig(pub u32);

impl GpioConfig {
    /// Set the function-select field of the given slot, leaving the sibling
    /// pin's half untouched.
    pub fn set_function(self, slot: usize, f: Function) -> (r: Self)
        ensures
            slot % 2 == 0 ==> r.0 == (self.0 & !0x0f00u32) | (f.spec_code() << 8),
            slot % 2 == 1 ==> r.0 == (self.0 & !0x0f00_0000u32) | (f.spec_code() << 24),
            sibling_half(r.0, slot) == sibling_half(self.0, slot),
    {
        let code = f.code();
        if slot % 2 == 0 {
            let r = (self.0 & !0x0f00u32) | (code << 8);
            proof {
                let v = self.0;
                assert(sibling_half((v & !0x0f00u32) | (code << 8), slot) == sibling_half(v, slot)) by (bit_vector)
                    requires
                        slot % 2 == 0 && code <= 14,
                ;
            }
            GpioConfig(r)
        } else {
            let r = (self.0 & !0x0f00_0000u32) | (code << 24);
            proof {
                let v = self.0;
                assert(sibling_half((v & !0x0f00_0000u32) | (code << 24), slot)
                    == sibling_half(v, slot)) by (bit_vector)
                    requires
                        slot % 2 == 1 && code <= 14,
                ;
            }
            GpioConfig(r)
        }
    }

    /// Enable input for the given slot, leaving the sibling pin's half
    /// untouched.
    pub fn enable_input(self, slot: usize) -> (r: Self)
        ensures
            slot % 2 == 0 ==> r.0 == self.0 | 0x1u32,
            slot % 2 == 1 ==> r.0 == self.0 | 0x1_0000u32,
            sibling_half(r.0, slot) == sibling_half(self.0, slot),
    {
        if slot % 2 == 0 {
            proof {
                let v = self.0;
                assert(sibling_half(v | 0x1u32, slot) == sibling_half(v, slot))
                    by (bit_vector)
                    requires
                        slot % 2 == 0,
                ;
            }
            GpioConfig(self.0 | 0x1u32)
        } else {
            proof {
                let v = self.0;
                assert(sibling_half(v | 0x1_0000u32, slot) == sibling_half(v, slot))
                    by (bit_vector)
                    requires
                        slot % 2 == 1,
                ;
            }
            GpioConfig(self.0 | 0x1_0000u32)
        }
    }

    /// Disable input for the given slot, leaving the sibling pin's half
    /// untouched.
    pub fn disable_input(self, slot: usize) -> (r: Self)
        ensures
            slot % 2 == 0 ==> r.0 == self.0 & !0x1u32,
            slot % 2 == 1 ==> r.0 == self.0 & !0x1_0000u32,
            sibling_half(r.0, slot) == sibling_half(self.0, slot),
    {
        if slot % 2 == 0 {
            proof {
                let v = self.0;
                assert(sibling_half(v & !0x1u32, slot) == sibling_half(v, slot))
                    by (bit_vector)
                    requires
                        slot % 2 == 0,
                ;
            }
            GpioConfig(self.0 & !0x1u32)
        } else {
            proof {
                let v = self.0;
                assert(sibling_half(v & !0x1_0000u32, slot) == sibling_half(v, slot))
                    by (bit_vector)
                    requires
                        slot % 2 == 1,
                ;
            }
            GpioConfig(self.0 & !0x1_0000u32)
        }
    }

    /// Set the pull state of the given slot, leaving the sibling pin's half
    /// untouched.
    pub fn set_pull(self, slot: usize, pull: Pull) -> (r: Self)
        ensures
            slot % 2 == 0 ==> r.0 == (self.0 & !0x30u32) | (pull.spec_code() << 4),
            slot % 2 == 1 ==> r.0 == (self.0 & !0x30_0000u32) | (pull.spec_code() << 20),
            sibling_half(r.0, slot) == sibling_half(self.0, slot),
    {
        let code = pull.code();
        if slot % 2 == 0 {
            let r = (self.0 & !0x30u32) | (code << 4);
            proof {
                let v = self.0;
                assert(sibling_half((v & !0x30u32) | (code << 4), slot) == sibling_half(v, slot)) by (bit_vector)
                    requires
                        slot % 2 == 0 && code <= 2,
                ;
            }
            GpioConfig(r)
        } else {
            let r = (self.0 & !0x30_0000u32) | (code << 20);
            proof {
                let v = self.0;
                assert(sibling_half((v & !0x30_0000u32) | (code << 20), slot) == sibling_half(v, slot)) by (bit_vector)
                    requires
                        slot % 2 == 1 && code <= 2,
                ;
            }
            GpioConfig(r)
        }
    }

    /// Enable the schmitt trigger for the given slot, leaving the sibling
    /// pin's half untouched.
    pub fn enable_schmitt(self, slot: usize) -> (r: Self)
        ensures
            slot % 2 == 0 ==> r.0 == self.0 | 0x2u32,
            slot % 2 == 1 ==> r.0 == self.0 | 0x2_0000u32,
            sibling_half(r.0, slot) == sibling_half(self.0, slot),
    {
        if slot % 2 == 0 {
            proof {
                let v = self.0;
                assert(sibling_half(v | 0x2u32, slot) == sibling_half(v, slot))
                    by (bit_vector)
                    requires
                        slot % 2 == 0,
                ;
            }
            GpioConfig(self.0 | 0x2u32)
        } else {
            proof {
                let v = self.0;
                assert(sibling_half(v | 0x2_0000u32, slot) == sibling_half(v, slot))
                    by (bit_vector)
                    requires
                        slot % 2 == 1,
                ;
            }
            GpioConfig(self.0 | 0x2_0000u32)
        }
    }

    /// Disable the schmitt trigger for the given slot, leaving the sibling
    /// pin's half untouched.
    pub fn disable_schmitt(self, slot: usize) -> (r: Self)
        ensures
            slot % 2 == 0 ==> r.0 == self.0 & !0x2u32,
            slot % 2 == 1 ==> r.0 == self.0 & !0x2_0000u32,
            sibling_half(r.0, slot) == sibling_half(self.0, slot),
    {
        if slot % 2 == 0 {
            proof {
                let v = self.0;
                assert(sibling_half(v & !0x2u32, slot) == sibling_half(v, slot))
                    by (bit_vector)
                    requires
                        slot % 2 == 0,
                ;
            }
            GpioConfig(self.0 & !0x2u32)
        } else {
            proof {
                let v = self.0;
                assert(sibling_half(v & !0x2_0000u32, slot) == sibling_half(v, slot))
                    by (bit_vector)
                    requires
                        slot % 2 == 1,
                ;
            }
            GpioConfig(self.0 & !0x2_0000u32)
        }
    }

    /// Get the drive strength of the given slot.
    pub fn drive(self, slot: usize) -> (r: Drive)
        ensures
            slot % 2 == 0 ==> r == Drive::spec_from_code((self.0 >> 2) & 0x3u32),
            slot % 2 == 1 ==> r == Drive::spec_from_code((self.0 >> 18) & 0x3u32),
    {
        if slot % 2 == 0 {
            Drive::from_code((self.0 >> 2) & 0x3u32)
        } else {
            Drive::from_code((self.0 >> 18) & 0x3u32)
        }
    }

    /// Set the drive strength of the given slot, leaving the sibling pin's
    /// half untouched.
    pub fn set_drive(self, slot: usize, val: Drive) -> (r: Self)
        ensures
            slot % 2 == 0 ==> r.0 == (self.0 & !0xcu32) | (val.spec_code() << 2),
            slot % 2 == 1 ==> r.0 == (self.0 & !0xc_0000u32) | (val.spec_code() << 18),
            sibling_half(r.0, slot) == sibling_half(self.0, slot),
    {
        let code = val.code();
        if slot % 2 == 0 {
            let r = (self.0 & !0xcu32) | (code << 2);
            proof {
                let v = self.0;
                assert(sibling_half((v & !0xcu32) | (code << 2), slot) == sibling_half(v, slot)) by (bit_vector)
                    requires
                        slot % 2 == 0 && code <= 3,
                ;
            }
            GpioConfig(r)
        } else {
            let r = (self.0 & !0xc_0000u32) | (code << 18);
            proof {
                let v = self.0;
                assert(sibling_half((v & !0xc_0000u32) | (code << 18), slot) == sibling_half(v, slot)) by (bit_vector)
                    requires
                        slot % 2 == 1 && code <= 3,
                ;
            }
            GpioConfig(r)
        }
    }
}

/// Packed interrupt-mode register holding two pins, sixteen bits each.
///
/// Within each half, bits 0..=3 hold the interrupt trigger mode.
#[derive(Clone, Copy, Debug, PartialEq, Eq, Structural)]
pub struct InterruptModeGroup(pub u32);

impl InterruptModeGroup {
    /// Get the interrupt mode of the given slot.
    pub fn interrupt_mode(self, slot: usize) -> (r: InterruptMode)
        ensures
            slot % 2 == 0 ==> r == InterruptMode::spec_from_code(self.0 & 0xfu32),
            slot % 2 == 1 ==> r == InterruptMode::spec_from_code((self.0 >> 16) & 0xfu32),
    {
        if slot % 2 == 0 {
            InterruptMode::from_code(self.0 & 0xfu32)
        } else {
            InterruptMode::from_code((self.0 >> 16) & 0xfu32)
        }
    }

    /// Set the interrupt mode of the given slot, leaving the sibling pin's
    /// half untouched.
    pub fn set_interrupt_mode(self, slot: usize, val: InterruptMode) -> (r: Self)
        ensures
            slot % 2 == 0 ==> r.0 == (self.0 & !0xfu32) | val.spec_code(),
            slot % 2 == 1 ==> r.0 == (self.0 & !0xf_0000u32) | (val.spec_code() << 16),
            sibling_half(r.0, slot) == sibling_half(self.0, slot),
    {
        let code = val.code();
        if slot % 2 == 0 {
            let r = (self.0 & !0xfu32) | code;
            proof {
                let v = self.0;
                assert(sibling_half((v & !0xfu32) | code, slot) == sibling_half(v, slot))
                    by (bit_vector)
                    requires
                        slot % 2 == 0 && code <= 7,
                ;
            }
            InterruptModeGroup(r)
        } else {
            let r = (self.0 & !0xf_0000u32) | (code << 16);
            proof {
                let v = self.0;
                assert(sibling_half((v & !0xf_0000u32) | (code << 16), slot) == sibling_half(v, slot)) by (bit_vector)
                    requires
                        slot % 2 == 1 && code <= 7,
                ;
            }
            InterruptModeGroup(r)
        }
    }
}

/// Number of packed configuration registers; each holds two pins.
pub const GPIO_CONFIG_GROUPS: usize = 16;

/// Registers of the first-generation pad controller, modelled as plain
/// values.
pub struct RegisterBlock {
    /// Packed pin configuration, two pins per register.
    pub gpio_config: Vec<GpioConfig>,
    /// Packed interrupt trigger mode, two pins per register.
    pub gpio_interrupt_mode: Vec<InterruptModeGroup>,
    /// Current input level of every pin, one bit each.
    pub gpio_input_value: u32,
    /// Output level driven on every pin, one bit each.
    pub gpio_output_value: u32,
    /// Output driver enable of every pin, one bit each.
    pub gpio_output_enable: u32,
    /// Interrupt mask of every pin, one bit each.
    pub gpio_interrupt_mask: u32,
    /// Pending interrupt state of every pin, one bit each. Set by the
    /// hardware trigger; cleared through [`RegisterBlock::write_interrupt_clear`].
    pub gpio_interrupt_state: u32,
}

impl RegisterBlock {
    /// The register file is well-formed: it has one packed register for
    /// every pair of pins.
    pub open spec fn wf(self) -> bool {
        &&& self.gpio_config@.len() == GPIO_CONFIG_GROUPS
        &&& self.gpio_interrupt_mode@.len() == GPIO_CONFIG_GROUPS
    }

    /// A register block with every register at its reset value.
    pub fn new() -> (r: RegisterBlock)
        ensures
            r.wf(),
            forall|i: int|
                0 <= i < GPIO_CONFIG_GROUPS ==> (#[trigger] r.gpio_config@[i]).0 == 0,
            forall|i: int|
                0 <= i < GPIO_CONFIG_GROUPS ==> (#[trigger] r.gpio_interrupt_mode@[i]).0 == 0,
            r.gpio_input_value == 0,
            r.gpio_output_value == 0,
            r.gpio_output_enable == 0,
            r.gpio_interrupt_mask == 0,
            r.gpio_interrupt_state == 0,
    {
        let mut config: Vec<GpioConfig> = Vec::new();
        let mut modes: Vec<InterruptModeGroup> = Vec::new();
        let mut i: usize = 0;
        while i < GPIO_CONFIG_GROUPS
            invariant
                i <= GPIO_CONFIG_GROUPS,
                config@.len() == i,
                modes@.len() == i,
                forall|j: int| 0 <= j < i ==> (#[trigger] config@[j]).0 == 0,
                forall|j: int| 0 <= j < i ==> (#[trigger] modes@[j]).0 == 0,
            decreases GPIO_CONFIG_GROUPS - i,
        {
            config.push(GpioConfig(0));
            modes.push(InterruptModeGroup(0));
            i = i + 1;
        }
        RegisterBlock {
            gpio_config: config,
            gpio_interrupt_mode: modes,
            gpio_input_value: 0,
            gpio_output_value: 0,
            gpio_output_enable: 0,
            gpio_interrupt_mask: 0,
            gpio_interrupt_state: 0,
        }
    }

    /// Write the interrupt-clear strobe register.
    ///
    /// On hardware, writing a one in some bit position clears the pending
    /// interrupt state of that pin; the strobe itself is not stored.
    pub fn write_interrupt_clear(&mut self, bits: u32)
        ensures
            final(self).gpio_interrupt_state == old(self).gpio_interrupt_state & !bits,
            final(self).gpio_config == old(self).gpio_config,
            final(self).gpio_interrupt_mode == old(self).gpio_interrupt_mode,
            final(self).gpio_input_value == old(self).gpio_input_value,
            final(self).gpio_output_value == old(self).gpio_output_value,
            final(self).gpio_output_enable == old(self).gpio_output_enable,
            final(self).gpio_interrupt_mask == old(self).gpio_interrupt_mask,
    {
        self.gpio_interrupt_state = self.gpio_interrupt_state & !bits;
    }

    /// Record a hardware interrupt trigger for the given pin.
    ///
    /// This stands for the level or edge detector of the pin firing; only
    /// the hardware, never software, sets the pending bit.
    pub fn set_interrupt_pending(&mut self, n: usize)
        requires
            n < 32,
        ensures
            final(self).gpio_interrupt_state == old(self).gpio_interrupt_state | (1u32 << n),
            final(self).gpio_config == old(self).gpio_config,
            final(self).gpio_interrupt_mode == old(self).gpio_interrupt_mode,
            final(self).gpio_input_value == old(self).gpio_input_value,
            final(self).gpio_output_value == old(self).gpio_output_value,
            final(self).gpio_output_enable == old(self).gpio_output_enable,
            final(self).gpio_interrupt_mask == old(self).gpio_interrupt_mask,
    {
        self.gpio_interrupt_state = self.gpio_interrupt_state | (1u32 << n);
    }
}

} // verus!
