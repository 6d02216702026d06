//! Universal Asynchronous Receiver/Transmitter.
//!
//! The first half of this module models the UART register block as plain
//! values with typed accessors whose contracts state the exact bit layout.
//! The second half is the pad composition layer: it validates that a group
//! of pads and signal multiplexers forms one of the signal-set shapes the
//! hardware supports, derives the four capability flags, and splits the
//! peripheral into transmit and receive halves.

use vstd::prelude::*;

use core::marker::PhantomData;

use crate::glb::v2;
use crate::glb::v2::UartSignal;
use crate::clocks::Clocks;
use crate::gpio::{MmUart, Pad, Uart};

verus! {

/// Registers of the UART peripheral, modelled as plain values.
///
/// On hardware the block sits at a fixed base address; the byte offset of
/// each register within the block is given by the `*_OFFSET` constants.
#[derive(Clone, Copy, Debug, PartialEq, Eq, Structural)]
pub struct RegisterBlock {
    /// Transmit configuration.
    pub transmit_config: TransmitConfig,
    /// Receive configuration.
    pub receive_config: ReceiveConfig,
    /// Bit-period in clocks.
    pub bit_period: BitPeriod,
    /// Data format configuration.
    pub data_config: DataConfig,
    /// Interrupt state register.
    pub interrupt_state: InterruptState,
    /// Interrupt mask register.
    pub interrupt_mask: InterruptMask,
    /// Clear interrupt register.
    pub interrupt_clear: InterruptClear,
    /// Interrupt enable register.
    pub interrupt_enable: InterruptEnable,
    /// Bus state.
    pub bus_state: BusState,
    /// First-in first-out queue configuration 0.
    pub fifo_config_0: FifoConfig0,
    /// First-in first-out queue configuration 1.
    pub fifo_config_1: FifoConfig1,
}

impl RegisterBlock {
    /// A register block with every register at its reset value.
    pub fn new() -> (r: RegisterBlock)
        ensures
            r.transmit_config.0 == 0x0000_8f00,
            r.receive_config.0 == 0x0000_0700,
            r.bit_period.0 == 0x00ff_00ff,
            r.data_config.0 == 0,
            r.interrupt_state.0 == 0,
            r.interrupt_mask.0 == 0,
            r.interrupt_clear.0 == 0,
            r.interrupt_enable.0 == 0,
            r.bus_state.0 == 0,
            r.fifo_config_0.0 == 0,
            r.fifo_config_1.0 == 0,
    {
        RegisterBlock {
            transmit_config: TransmitConfig(0x0000_8f00),
            receive_config: ReceiveConfig(0x0000_0700),
            bit_period: BitPeriod(0x00ff_00ff),
            data_config: DataConfig(0),
            interrupt_state: InterruptState(0),
            interrupt_mask: InterruptMask(0),
            interrupt_clear: InterruptClear(0),
            interrupt_enable: InterruptEnable(0),
            bus_state: BusState(0),
            fifo_config_0: FifoConfig0(0),
            fifo_config_1: FifoConfig1(0),
        }
    }
}

/// Byte offset of the `transmit_config` register in the UART block.
pub const TRANSMIT_CONFIG_OFFSET: usize = 0x0;
/// Byte offset of the `receive_config` register in the UART block.
pub const RECEIVE_CONFIG_OFFSET: usize = 0x4;
/// Byte offset of the `bit_period` register in the UART block.
pub const BIT_PERIOD_OFFSET: usize = 0x08;
/// Byte offset of the `data_config` register in the UART block.
pub const DATA_CONFIG_OFFSET: usize = 0x0c;
/// Byte offset of the `interrupt_state` register in the UART block.
pub const INTERRUPT_STATE_OFFSET: usize = 0x20;
/// Byte offset of the `interrupt_mask` register in the UART block.
pub const INTERRUPT_MASK_OFFSET: usize = 0x24;
/// Byte offset of the `interrupt_clear` register in the UART block.
pub const INTERRUPT_CLEAR_OFFSET: usize = 0x28;
/// Byte offset of the `interrupt_enable` register in the UART block.
pub const INTERRUPT_ENABLE_OFFSET: usize = 0x2c;
/// Byte offset of the `bus_state` register in the UART block.
pub const BUS_STATE_OFFSET: usize = 0x30;
/// Byte offset of the `fifo_config_0` register in the UART block.
pub const FIFO_CONFIG_0_OFFSET: usize = 0x80;
/// Byte offset of the `fifo_config_1` register in the UART block.
pub const FIFO_CONFIG_1_OFFSET: usize = 0x84;
/// Byte offset of the `fifo_write` register in the UART block.
pub const FIFO_WRITE_OFFSET: usize = 0x88;
/// Byte offset of the `fifo_read` register in the UART block.
pub const FIFO_READ_OFFSET: usize = 0x8c;

/// Transmit configuration register.
///
/// Bit 0 enables transmit, bit 1 the Clear-to-Send signal, bit 2 free-run
/// mode, bit 3 LIN transmit, bit 4 parity, bit 5 odd parity, bit 6 IR
/// transmit, bit 7 IR inversion; bits 8..=10 hold the word length, bits
/// 11..=12 the stop bits, bits 13..=15 the LIN break length and bits
/// 16..=31 the transfer length.
#[derive(Clone, Copy, Debug, PartialEq, Eq, Structural)]
pub struct TransmitConfig(pub u32);

impl TransmitConfig {
    /// Enable transmit.
    pub fn enable_txd(self) -> (r: Self)
        ensures
            r.0 == self.0 | 0x1u32,
    {
        TransmitConfig(self.0 | 0x1u32)
    }
    /// Disable transmit.
    pub fn disable_txd(self) -> (r: Self)
        ensures
            r.0 == self.0 & !0x1u32,
    {
        TransmitConfig(self.0 & !0x1u32)
    }
    /// Check if transmit is enabled.
    pub fn is_txd_enabled(self) -> (r: bool)
        ensures
            r == (self.0 & 0x1u32 != 0),
    {
        self.0 & 0x1u32 != 0
    }
    /// Enable Clear-to-Send signal.
    pub fn enable_cts(self) -> (r: Self)
        ensures
            r.0 == self.0 | 0x2u32,
    {
        TransmitConfig(self.0 | 0x2u32)
    }
    /// Disable Clear-to-Send signal.
    pub fn disable_cts(self) -> (r: Self)
        ensures
            r.0 == self.0 & !0x2u32,
    {
        TransmitConfig(self.0 & !0x2u32)
    }
    /// Check if Clear-to-Send signal is enabled.
    pub fn is_cts_enabled(self) -> (r: bool)
        ensures
            r == (self.0 & 0x2u32 != 0),
    {
        self.0 & 0x2u32 != 0
    }
    /// Enable free-run mode.
    pub fn enable_freerun(self) -> (r: Self)
        ensures
            r.0 == self.0 | 0x4u32,
    {
        TransmitConfig(self.0 | 0x4u32)
    }
    /// Disable free-run mode.
    pub fn disable_freerun(self) -> (r: Self)
        ensures
            r.0 == self.0 & !0x4u32,
    {
        TransmitConfig(self.0 & !0x4u32)
    }
    /// Check if free-run mode is enabled.
    pub fn is_freerun_enabled(self) -> (r: bool)
        ensures
            r == (self.0 & 0x4u32 != 0),
    {
        self.0 & 0x4u32 != 0
    }
    /// Enable LIN protocol transmission.
    pub fn enable_lin_transmit(self) -> (r: Self)
        ensures
            r.0 == self.0 | 0x8u32,
    {
        TransmitConfig(self.0 | 0x8u32)
    }
    /// Disable LIN protocol transmission.
    pub fn disable_lin_transmit(self) -> (r: Self)
        ensures
            r.0 == self.0 & !0x8u32,
    {
        TransmitConfig(self.0 & !0x8u32)
    }
    /// Check if LIN protocol transmission is enabled.
    pub fn is_lin_transmit_enabled(self) -> (r: bool)
        ensures
            r == (self.0 & 0x8u32 != 0),
    {
        self.0 & 0x8u32 != 0
    }
    /// Set parity check mode.
    pub fn set_parity(self, parity: Parity) -> (r: Self)
        ensures
            parity is Even ==> r.0 == (self.0 | 0x10u32) & !0x20u32,
            parity is Odd ==> r.0 == (self.0 | 0x10u32) | 0x20u32,
            parity is NoParity ==> r.0 == self.0 & !0x10u32,
    {
        match parity {
            Parity::Even => TransmitConfig((self.0 | 0x10u32) & !0x20u32),
            Parity::Odd => TransmitConfig((self.0 | 0x10u32) | 0x20u32),
            Parity::NoParity => TransmitConfig(self.0 & !0x10u32),
        }
    }
    /// Get parity check mode.
    pub fn parity(self) -> (r: Parity)
        ensures
            r == (if self.0 & 0x10u32 == 0 {
                Parity::NoParity
            } else if self.0 & 0x20u32 == 0 {
                Parity::Even
            } else {
                Parity::Odd
            }),
    {
        if self.0 & 0x10u32 == 0 {
            Parity::NoParity
        } else if self.0 & 0x20u32 == 0 {
            Parity::Even
        } else {
            Parity::Odd
        }
    }
    /// Enable IR transmission.
    pub fn enable_ir_transmit(self) -> (r: Self)
        ensures
            r.0 == self.0 | 0x40u32,
    {
        TransmitConfig(self.0 | 0x40u32)
    }
    /// Disable IR transmission.
    pub fn disable_ir_transmit(self) -> (r: Self)
        ensures
            r.0 == self.0 & !0x40u32,
    {
        TransmitConfig(self.0 & !0x40u32)
    }
    /// Check if IR transmission is enabled.
    pub fn is_ir_transmit_enabled(self) -> (r: bool)
        ensures
            r == (self.0 & 0x40u32 != 0),
    {
        self.0 & 0x40u32 != 0
    }
    /// Invert transmit signal output in IR mode.
    pub fn enable_ir_inverse(self) -> (r: Self)
        ensures
            r.0 == self.0 | 0x80u32,
    {
        TransmitConfig(self.0 | 0x80u32)
    }
    /// Don't invert transmit signal output in IR mode.
    pub fn disable_ir_inverse(self) -> (r: Self)
        ensures
            r.0 == self.0 & !0x80u32,
    {
        TransmitConfig(self.0 & !0x80u32)
    }
    /// Check if transmit signal output in IR mode is inverted.
    pub fn is_ir_inverse_enabled(self) -> (r: bool)
        ensures
            r == (self.0 & 0x80u32 != 0),
    {
        self.0 & 0x80u32 != 0
    }
    /// Set word length.
    pub fn set_word_length(self, val: WordLength) -> (r: Self)
        ensures
            r.0 == (self.0 & !0x700u32) | (val.spec_code() << 8),
    {
        TransmitConfig((self.0 & !0x700u32) | (val.code() << 8))
    }
    /// Get word length.
    pub fn word_length(self) -> (r: WordLength)
        ensures
            r == WordLength::spec_from_code((self.0 >> 8) & 0x7u32),
    {
        WordLength::from_code((self.0 >> 8) & 0x7u32)
    }
    /// Set stop-bit configuration.
    pub fn set_stop_bits(self, val: StopBits) -> (r: Self)
        ensures
            r.0 == (self.0 & !0x1800u32) | (val.spec_code() << 11),
    {
        TransmitConfig((self.0 & !0x1800u32) | (val.code() << 11))
    }
    /// Get stop-bit configuration.
    pub fn stop_bits(self) -> (r: StopBits)
        ensures
            r == StopBits::spec_from_code((self.0 >> 11) & 0x3u32),
    {
        StopBits::from_code((self.0 >> 11) & 0x3u32)
    }
    /// Set synchronize interval under LIN mode.
    ///
    /// # Parameters
    ///
    /// * `bits` - Interval in bits, the value should be 0 ~ 7.
    pub fn set_lin_break_bits(self, bits: u8) -> (r: Self)
        ensures
            r.0 == (self.0 & !0xe000u32) | ((bits as u32) << 13),
    {
        TransmitConfig((self.0 & !0xe000u32) | ((bits as u32) << 13))
    }
    /// Get synchronize interval under LIN mode.
    ///
    /// Return value is 0 ~ 7, represent in bits.
    pub fn lin_break_bits(self) -> (r: u8)
        ensures
            r == ((self.0 & 0xe000u32) >> 13) as u8,
    {
        ((self.0 & 0xe000u32) >> 13) as u8
    }
    /// Trigger interrupt when specified length of data is sent.
    ///
    /// NOTE: This bit is not valid when it is running under free-run mode.
    pub fn set_transfer_length(self, length: u16) -> (r: Self)
        ensures
            r.0 == (self.0 & 0xffffu32) | ((length as u32) << 16),
    {
        TransmitConfig((self.0 & 0xffffu32) | ((length as u32) << 16))
    }
    /// Get the length of data that triggers the interrupt.
    pub fn transfer_length(self) -> (r: u16)
        ensures
            r == (self.0 >> 16) as u16,
    {
        (self.0 >> 16) as u16
    }
}

impl Default for TransmitConfig {
    /// The reset value of the transmit configuration register.
    fn default() -> (r: Self)
        ensures
            r.0 == 0x0000_8f00,
    {
        TransmitConfig(0x0000_8f00)
    }
}

/// Receive configuration register.
///
/// Bit 0 enables receive, bit 1 auto baud rate detection, bit 3 LIN
/// receive, bit 4 parity, bit 5 odd parity, bit 6 IR receive, bit 7 IR
/// inversion; bits 8..=10 hold the word length, bit 11 the de-glitch
/// enable, bits 12..=15 the de-glitch cycle count and bits 16..=31 the
/// transfer length.
#[derive(Clone, Copy, Debug, PartialEq, Eq, Structural)]
pub struct ReceiveConfig(pub u32);

impl ReceiveConfig {
    /// Enable receive.
    pub fn enable_rxd(self) -> (r: Self)
        ensures
            r.0 == self.0 | 0x1u32,
    {
        ReceiveConfig(self.0 | 0x1u32)
    }
    /// Disable receive.
    pub fn disable_rxd(self) -> (r: Self)
        ensures
            r.0 == self.0 & !0x1u32,
    {
        ReceiveConfig(self.0 & !0x1u32)
    }
    /// Check if receive is enabled.
    pub fn is_rxd_enabled(self) -> (r: bool)
        ensures
            r == (self.0 & 0x1u32 != 0),
    {
        self.0 & 0x1u32 != 0
    }
    /// Enable auto baud rate detection.
    pub fn enable_auto_baudrate(self) -> (r: Self)
        ensures
            r.0 == self.0 | 0x2u32,
    {
        ReceiveConfig(self.0 | 0x2u32)
    }
    /// Disable auto baud rate detection.
    pub fn disable_auto_baudrate(self) -> (r: Self)
        ensures
            r.0 == self.0 & !0x2u32,
    {
        ReceiveConfig(self.0 & !0x2u32)
    }
    /// Check if auto baud rate detection is enabled.
    pub fn is_auto_baudrate_enabled(self) -> (r: bool)
        ensures
            r == (self.0 & 0x2u32 != 0),
    {
        self.0 & 0x2u32 != 0
    }
    /// Enable LIN protocol receive.
    pub fn enable_lin_receive(self) -> (r: Self)
        ensures
            r.0 == self.0 | 0x8u32,
    {
        ReceiveConfig(self.0 | 0x8u32)
    }
    /// Disable LIN protocol receive.
    pub fn disable_lin_receive(self) -> (r: Self)
        ensures
            r.0 == self.0 & !0x8u32,
    {
        ReceiveConfig(self.0 & !0x8u32)
    }
    /// Check if LIN protocol receive is enabled.
    pub fn is_lin_receive_enabled(self) -> (r: bool)
        ensures
            r == (self.0 & 0x8u32 != 0),
    {
        self.0 & 0x8u32 != 0
    }
    /// Set parity check mode.
    pub fn set_parity(self, parity: Parity) -> (r: Self)
        ensures
            parity is Even ==> r.0 == (self.0 | 0x10u32) & !0x20u32,
            parity is Odd ==> r.0 == (self.0 | 0x10u32) | 0x20u32,
            parity is NoParity ==> r.0 == self.0 & !0x10u32,
    {
        match parity {
            Parity::Even => ReceiveConfig((self.0 | 0x10u32) & !0x20u32),
            Parity::Odd => ReceiveConfig((self.0 | 0x10u32) | 0x20u32),
            Parity::NoParity => ReceiveConfig(self.0 & !0x10u32),
        }
    }
    /// Get parity check mode.
    pub fn parity(self) -> (r: Parity)
        ensures
            r == (if self.0 & 0x10u32 == 0 {
                Parity::NoParity
            } else if self.0 & 0x20u32 == 0 {
                Parity::Even
            } else {
                Parity::Odd
            }),
    {
        if self.0 & 0x10u32 == 0 {
            Parity::NoParity
        } else if self.0 & 0x20u32 == 0 {
            Parity::Even
        } else {
            Parity::Odd
        }
    }
    /// Enable IR receive.
    pub fn enable_ir_receive(self) -> (r: Self)
        ensures
            r.0 == self.0 | 0x40u32,
    {
        ReceiveConfig(self.0 | 0x40u32)
    }
    /// Disable IR receive.
    pub fn disable_ir_receive(self) -> (r: Self)
        ensures
            r.0 == self.0 & !0x40u32,
    {
        ReceiveConfig(self.0 & !0x40u32)
    }
    /// Check if IR receive is enabled.
    pub fn is_ir_receive_enabled(self) -> (r: bool)
        ensures
            r == (self.0 & 0x40u32 != 0),
    {
        self.0 & 0x40u32 != 0
    }
    /// Invert receive signal output in IR mode.
    pub fn enable_ir_inverse(self) -> (r: Self)
        ensures
            r.0 == self.0 | 0x80u32,
    {
        ReceiveConfig(self.0 | 0x80u32)
    }
    /// Don't invert receive signal output in IR mode.
    pub fn disable_ir_inverse(self) -> (r: Self)
        ensures
            r.0 == self.0 & !0x80u32,
    {
        ReceiveConfig(self.0 & !0x80u32)
    }
    /// Check if receive signal output in IR mode is inverted.
    pub fn is_ir_inverse_enabled(self) -> (r: bool)
        ensures
            r == (self.0 & 0x80u32 != 0),
    {
        self.0 & 0x80u32 != 0
    }
    /// Set word length.
    pub fn set_word_length(self, val: WordLength) -> (r: Self)
        ensures
            r.0 == (self.0 & !0x700u32) | (val.spec_code() << 8),
    {
        ReceiveConfig((self.0 & !0x700u32) | (val.code() << 8))
    }
    /// Get word length.
    pub fn word_length(self) -> (r: WordLength)
        ensures
            r == WordLength::spec_from_code((self.0 >> 8) & 0x7u32),
    {
        WordLength::from_code((self.0 >> 8) & 0x7u32)
    }
    /// Enable de-glitch function.
    pub fn enable_deglitch(self) -> (r: Self)
        ensures
            r.0 == self.0 | 0x800u32,
    {
        ReceiveConfig(self.0 | 0x800u32)
    }
    /// Disable de-glitch function.
    pub fn disable_deglitch(self) -> (r: Self)
        ensures
            r.0 == self.0 & !0x800u32,
    {
        ReceiveConfig(self.0 & !0x800u32)
    }
    /// Check if de-glitch function is enabled.
    pub fn is_deglitch_enabled(self) -> (r: bool)
        ensures
            r == (self.0 & 0x800u32 != 0),
    {
        self.0 & 0x800u32 != 0
    }
    /// Set de-glitch function cycle count.
    pub fn set_deglitch_cycles(self, val: u8) -> (r: Self)
        ensures
            r.0 == (self.0 & !0xf000u32) | ((val as u32) << 12),
    {
        ReceiveConfig((self.0 & !0xf000u32) | ((val as u32) << 12))
    }
    /// Get de-glitch function cycle count.
    pub fn deglitch_cycles(self) -> (r: u8)
        ensures
            r == ((self.0 & 0xf000u32) >> 12) as u8,
    {
        ((self.0 & 0xf000u32) >> 12) as u8
    }
    /// Set the length of data that triggers the interrupt.
    pub fn set_transfer_length(self, length: u16) -> (r: Self)
        ensures
            r.0 == (self.0 & 0xffffu32) | ((length as u32) << 16),
    {
        ReceiveConfig((self.0 & 0xffffu32) | ((length as u32) << 16))
    }
    /// Get the length of data that triggers the interrupt.
    pub fn transfer_length(self) -> (r: u16)
        ensures
            r == (self.0 >> 16) as u16,
    {
        (self.0 >> 16) as u16
    }
}

impl Default for ReceiveConfig {
    /// The reset value of the receive configuration register.
    fn default() -> (r: Self)
        ensures
            r.0 == 0x0000_0700,
    {
        ReceiveConfig(0x0000_0700)
    }
}

/// Bit period configuration register.
///
/// Bits 0..=15 hold the transmit interval, bits 16..=31 the receive
/// interval, both counted in source clocks.
#[derive(Clone, Copy, Debug, PartialEq, Eq, Structural)]
pub struct BitPeriod(pub u32);

impl BitPeriod {
    /// Set transmit time interval.
    pub fn set_transmit_time_interval(self, val: u16) -> (r: Self)
        ensures
            r.0 == (self.0 & !0xffffu32) | (val as u32),
    {
        BitPeriod((self.0 & !0xffffu32) | (val as u32))
    }
    /// Get transmit time interval.
    pub fn transmit_time_interval(self) -> (r: u16)
        ensures
            r == (self.0 & 0xffffu32) as u16,
    {
        (self.0 & 0xffffu32) as u16
    }
    /// Set receive time interval.
    pub fn set_receive_time_interval(self, val: u16) -> (r: Self)
        ensures
            r.0 == (self.0 & 0xffffu32) | ((val as u32) << 16),
    {
        BitPeriod((self.0 & 0xffffu32) | ((val as u32) << 16))
    }
    /// Get receive time interval.
    pub fn receive_time_interval(self) -> (r: u16)
        ensures
            r == (self.0 >> 16) as u16,
    {
        (self.0 >> 16) as u16
    }
}

impl Default for BitPeriod {
    /// The reset value of the bit period register.
    fn default() -> (r: Self)
        ensures
            r.0 == 0x00ff_00ff,
    {
        BitPeriod(0x00ff_00ff)
    }
}

/// Data configuration register.
///
/// Bit 0 selects the bit order on the wire.
#[derive(Clone, Copy, Debug, PartialEq, Eq, Structural)]
pub struct DataConfig(pub u32);

impl DataConfig {
    /// Set the bit order in each data word.
    pub fn set_bit_order(self, val: BitOrder) -> (r: Self)
        ensures
            val is LsbFirst ==> r.0 == self.0 & !0x1u32,
            val is MsbFirst ==> r.0 == self.0 | 0x1u32,
    {
        match val {
            BitOrder::LsbFirst => DataConfig(self.0 & !0x1u32),
            BitOrder::MsbFirst => DataConfig(self.0 | 0x1u32),
        }
    }
    /// Get the bit order in each data word.
    pub fn bit_order(self) -> (r: BitOrder)
        ensures
            r == (if self.0 & 0x1u32 == 0 {
                BitOrder::LsbFirst
            } else {
                BitOrder::MsbFirst
            }),
    {
        if self.0 & 0x1u32 == 0 {
            BitOrder::LsbFirst
        } else {
            BitOrder::MsbFirst
        }
    }
}

impl Default for DataConfig {
    /// The reset value of the data configuration register is all-zero.
    fn default() -> (r: Self)
        ensures
            r.0 == 0,
    {
        DataConfig(0)
    }
}

/// Interrupt event.
#[derive(Clone, Copy, Debug, PartialEq, Eq, Structural)]
pub enum Interrupt {
    /// Transmit transfer end.
    TransmitEnd,
    /// Receive transfer end.
    ReceiveEnd,
    /// Transmit queue ready.
    TransmitFifoReady,
    /// Receive queue ready.
    ReceiveFifoReady,
    /// Receive timed out.
    ReceiveTimeout,
    /// Receive parity check failed.
    ReceiveParityError,
    /// Transmit queue overflow or underflow.
    TransmitFifoError,
    /// Receive queue overflow or underflow.
    ReceiveFifoError,
    /// Receive LIN synchronisation failed.
    ReceiveSyncError,
    /// Receive byte count reached.
    ReceiveByteCountReached,
    /// Auto baud rate detected by start bit.
    ReceiveAutoBaudrateByStartBit,
    /// Auto baud rate detected by 0x55 pattern.
    ReceiveAutoBaudrateByFiveFive,
}

impl Interrupt {
    /// Bit position of this interrupt source.
    pub open spec fn spec_code(self) -> u32 {
        match self {
            Interrupt::TransmitEnd => 0,
            Interrupt::ReceiveEnd => 1,
            Interrupt::TransmitFifoReady => 2,
            Interrupt::ReceiveFifoReady => 3,
            Interrupt::ReceiveTimeout => 4,
            Interrupt::ReceiveParityError => 5,
            Interrupt::TransmitFifoError => 6,
            Interrupt::ReceiveFifoError => 7,
            Interrupt::ReceiveSyncError => 8,
            Interrupt::ReceiveByteCountReached => 9,
            Interrupt::ReceiveAutoBaudrateByStartBit => 10,
            Interrupt::ReceiveAutoBaudrateByFiveFive => 11,
        }
    }

    /// Bit position of this interrupt source.
    pub fn code(self) -> (r: u32)
        ensures
            r == self.spec_code(),
            r <= 11,
    {
        match self {
            Interrupt::TransmitEnd => 0,
            Interrupt::ReceiveEnd => 1,
            Interrupt::TransmitFifoReady => 2,
            Interrupt::ReceiveFifoReady => 3,
            Interrupt::ReceiveTimeout => 4,
            Interrupt::ReceiveParityError => 5,
            Interrupt::TransmitFifoError => 6,
            Interrupt::ReceiveFifoError => 7,
            Interrupt::ReceiveSyncError => 8,
            Interrupt::ReceiveByteCountReached => 9,
            Interrupt::ReceiveAutoBaudrateByStartBit => 10,
            Interrupt::ReceiveAutoBaudrateByFiveFive => 11,
        }
    }
}

/// Interrupt state register.
#[derive(Clone, Copy, Debug, PartialEq, Eq, Structural)]
pub struct InterruptState(pub u32);

impl InterruptState {
    /// Check if there is an interrupt flag.
    pub fn has_interrupt(self, val: Interrupt) -> (r: bool)
        ensures
            r == (self.0 & (1u32 << val.spec_code()) != 0),
    {
        (self.0 & (1u32 << val.code())) != 0
    }
}

impl Default for InterruptState {
    /// The reset value of the interrupt state register is all-zero.
    fn default() -> (r: Self)
        ensures
            r.0 == 0,
    {
        InterruptState(0)
    }
}

/// Interrupt mask register.
#[derive(Clone, Copy, Debug, PartialEq, Eq, Structural)]
pub struct InterruptMask(pub u32);

impl InterruptMask {
    /// Set interrupt mask.
    pub fn mask_interrupt(self, val: Interrupt) -> (r: Self)
        ensures
            r.0 == self.0 | (1u32 << val.spec_code()),
    {
        InterruptMask(self.0 | (1u32 << val.code()))
    }
    /// Clear interrupt mask.
    pub fn unmask_interrupt(self, val: Interrupt) -> (r: Self)
        ensures
            r.0 == self.0 & !(1u32 << val.spec_code()),
    {
        InterruptMask(self.0 & !(1u32 << val.code()))
    }
    /// Check if interrupt is masked.
    pub fn is_interrupt_masked(self, val: Interrupt) -> (r: bool)
        ensures
            r == (self.0 & (1u32 << val.spec_code()) != 0),
    {
        (self.0 & (1u32 << val.code())) != 0
    }
}

impl Default for InterruptMask {
    /// The reset value of the interrupt mask register is all-zero.
    fn default() -> (r: Self)
        ensures
            r.0 == 0,
    {
        InterruptMask(0)
    }
}

/// Interrupt clear register.
#[derive(Clone, Copy, Debug, PartialEq, Eq, Structural)]
pub struct InterruptClear(pub u32);

impl InterruptClear {
    /// Clear interrupt.
    pub fn clear_interrupt(self, val: Interrupt) -> (r: Self)
        ensures
            r.0 == self.0 | (1u32 << val.spec_code()),
    {
        InterruptClear(self.0 | (1u32 << val.code()))
    }
}

impl Default for InterruptClear {
    /// The reset value of the interrupt clear register is all-zero.
    fn default() -> (r: Self)
        ensures
            r.0 == 0,
    {
        InterruptClear(0)
    }
}

/// Interrupt enable register.
#[derive(Clone, Copy, Debug, PartialEq, Eq, Structural)]
pub struct InterruptEnable(pub u32);

impl InterruptEnable {
    /// Enable interrupt.
    pub fn enable_interrupt(self, val: Interrupt) -> (r: Self)
        ensures
            r.0 == self.0 | (1u32 << val.spec_code()),
    {
        InterruptEnable(self.0 | (1u32 << val.code()))
    }
    /// Disable interrupt.
    pub fn disable_interrupt(self, val: Interrupt) -> (r: Self)
        ensures
            r.0 == self.0 & !(1u32 << val.spec_code()),
    {
        InterruptEnable(self.0 & !(1u32 << val.code()))
    }
    /// Check if interrupt is enabled.
    pub fn is_interrupt_enabled(self, val: Interrupt) -> (r: bool)
        ensures
            r == (self.0 & (1u32 << val.spec_code()) != 0),
    {
        (self.0 & (1u32 << val.code())) != 0
    }
}

impl Default for InterruptEnable {
    /// The reset value of the interrupt enable register is all-zero.
    fn default() -> (r: Self)
        ensures
            r.0 == 0,
    {
        InterruptEnable(0)
    }
}

/// Bus state register.
#[derive(Clone, Copy, Debug, PartialEq, Eq, Structural)]
pub struct BusState(pub u32);

impl BusState {
    /// Get if UART transmit bus is busy.
    pub fn transmit_busy(self) -> (r: bool)
        ensures
            r == (self.0 & 0x1u32 != 0),
    {
        self.0 & 0x1u32 != 0
    }
    /// Get if UART receive bus is busy.
    pub fn receive_busy(self) -> (r: bool)
        ensures
            r == (self.0 & 0x2u32 != 0),
    {
        self.0 & 0x2u32 != 0
    }
}

impl Default for BusState {
    /// The reset value of the bus state register is all-zero.
    fn default() -> (r: Self)
        ensures
            r.0 == 0,
    {
        BusState(0)
    }
}

/// First-in first-out queue configuration 0.
#[derive(Clone, Copy, Debug, PartialEq, Eq, Structural)]
pub struct FifoConfig0(pub u32);

impl FifoConfig0 {
    /// Enable transmit DMA.
    pub fn enable_transmit_dma(self) -> (r: Self)
        ensures
            r.0 == self.0 | 0x1u32,
    {
        FifoConfig0(self.0 | 0x1u32)
    }
    /// Disable transmit DMA.
    pub fn disable_transmit_dma(self) -> (r: Self)
        ensures
            r.0 == self.0 & !0x1u32,
    {
        FifoConfig0(self.0 & !0x1u32)
    }
    /// Check if transmit DMA is enabled.
    pub fn is_transmit_dma_enabled(self) -> (r: bool)
        ensures
            r == (self.0 & 0x1u32 != 0),
    {
        self.0 & 0x1u32 != 0
    }
    /// Enable receive DMA.
    pub fn enable_receive_dma(self) -> (r: Self)
        ensures
            r.0 == self.0 | 0x2u32,
    {
        FifoConfig0(self.0 | 0x2u32)
    }
    /// Disable receive DMA.
    pub fn disable_receive_dma(self) -> (r: Self)
        ensures
            r.0 == self.0 & !0x2u32,
    {
        FifoConfig0(self.0 & !0x2u32)
    }
    /// Check if receive DMA is enabled.
    pub fn is_receive_dma_enabled(self) -> (r: bool)
        ensures
            r == (self.0 & 0x2u32 != 0),
    {
        self.0 & 0x2u32 != 0
    }
    /// Clear transmit FIFO.
    pub fn clear_transmit_fifo(self) -> (r: Self)
        ensures
            r.0 == self.0 | 0x4u32,
    {
        FifoConfig0(self.0 | 0x4u32)
    }
    /// Clear receive FIFO.
    pub fn clear_receive_fifo(self) -> (r: Self)
        ensures
            r.0 == self.0 | 0x8u32,
    {
        FifoConfig0(self.0 | 0x8u32)
    }
    /// Check if transmit FIFO is overflow.
    pub fn transmit_fifo_overflow(self) -> (r: bool)
        ensures
            r == (self.0 & 0x10u32 != 0),
    {
        self.0 & 0x10u32 != 0
    }
    /// Check if transmit FIFO is underflow.
    pub fn transmit_fifo_underflow(self) -> (r: bool)
        ensures
            r == (self.0 & 0x20u32 != 0),
    {
        self.0 & 0x20u32 != 0
    }
    /// Check if receive FIFO is overflow.
    pub fn receive_fifo_overflow(self) -> (r: bool)
        ensures
            r == (self.0 & 0x40u32 != 0),
    {
        self.0 & 0x40u32 != 0
    }
    /// Check if receive FIFO is underflow.
    pub fn receive_fifo_underflow(self) -> (r: bool)
        ensures
            r == (self.0 & 0x80u32 != 0),
    {
        self.0 & 0x80u32 != 0
    }
}

impl Default for FifoConfig0 {
    /// The reset value of the queue configuration register 0 is all-zero.
    fn default() -> (r: Self)
        ensures
            r.0 == 0,
    {
        FifoConfig0(0)
    }
}

/// First-in first-out queue configuration 1.
#[derive(Clone, Copy, Debug, PartialEq, Eq, Structural)]
pub struct FifoConfig1(pub u32);

impl FifoConfig1 {
    /// Get number of empty spaces remained in transmit FIFO queue.
    pub fn transmit_available_bytes(self) -> (r: u8)
        ensures
            r == (self.0 & 0x3fu32) as u8,
    {
        (self.0 & 0x3fu32) as u8
    }
    /// Get number of available bytes received in receive FIFO queue.
    pub fn receive_available_bytes(self) -> (r: u8)
        ensures
            r == ((self.0 & 0x3f00u32) >> 8) as u8,
    {
        ((self.0 & 0x3f00u32) >> 8) as u8
    }
    /// Set transmit FIFO threshold.
    pub fn set_transmit_threshold(self, val: u8) -> (r: Self)
        ensures
            r.0 == (self.0 & !0x1f0000u32) | ((val as u32) << 16),
    {
        FifoConfig1((self.0 & !0x1f0000u32) | ((val as u32) << 16))
    }
    /// Get transmit FIFO threshold.
    pub fn transmit_threshold(self) -> (r: u8)
        ensures
            r == ((self.0 & 0x1f0000u32) >> 16) as u8,
    {
        ((self.0 & 0x1f0000u32) >> 16) as u8
    }
    /// Set receive FIFO threshold.
    pub fn set_receive_threshold(self, val: u8) -> (r: Self)
        ensures
            r.0 == (self.0 & !0x1f000000u32) | ((val as u32) << 24),
    {
        FifoConfig1((self.0 & !0x1f000000u32) | ((val as u32) << 24))
    }
    /// Get receive FIFO threshold.
    pub fn receive_threshold(self) -> (r: u8)
        ensures
            r == ((self.0 & 0x1f000000u32) >> 24) as u8,
    {
        ((self.0 & 0x1f000000u32) >> 24) as u8
    }
}

impl Default for FifoConfig1 {
    /// The reset value of the queue configuration register 1 is all-zero.
    fn default() -> (r: Self)
        ensures
            r.0 == 0,
    {
        FifoConfig1(0)
    }
}

/// Order of the bits transmitted and received on the wire.
#[derive(Debug, Clone, Copy, PartialEq, Eq, Structural)]
pub enum BitOrder {
    /// Each byte is sent out LSB-first.
    LsbFirst,
    /// Each byte is sent out MSB-first.
    MsbFirst,
}

/// Parity check.
#[derive(Clone, Copy, Debug, PartialEq, Eq, Structural)]
pub enum Parity {
    /// No parity check.
    NoParity,
    /// Even parity bit.
    Even,
    /// Odd parity bit.
    Odd,
}

/// Stop bits.
#[derive(Clone, Copy, Debug, PartialEq, Eq, Structural)]
pub enum StopBits {
    /// 0.5 stop bits.
    ZeroPointFive,
    /// 1 stop bit.
    One,
    /// 1.5 stop bits.
    OnePointFive,
    /// 2 stop bits.
    Two,
}

impl StopBits {
    /// Field encoding of this stop-bit configuration.
    pub open spec fn spec_code(self) -> u32 {
        match self {
            StopBits::ZeroPointFive => 0,
            StopBits::One => 1,
            StopBits::OnePointFive => 2,
            StopBits::Two => 3,
        }
    }

    /// Stop-bit configuration denoted by a two-bit field value.
    pub open spec fn spec_from_code(code: u32) -> StopBits {
        if code == 0 {
            StopBits::ZeroPointFive
        } else if code == 1 {
            StopBits::One
        } else if code == 2 {
            StopBits::OnePointFive
        } else {
            StopBits::Two
        }
    }

    /// Field encoding of this stop-bit configuration.
    pub fn code(self) -> (r: u32)
        ensures
            r == self.spec_code(),
    {
        match self {
            StopBits::ZeroPointFive => 0,
            StopBits::One => 1,
            StopBits::OnePointFive => 2,
            StopBits::Two => 3,
        }
    }

    /// Stop-bit configuration denoted by a two-bit field value.
    pub fn from_code(code: u32) -> (r: StopBits)
        ensures
            r == Self::spec_from_code(code),
    {
        if code == 0 {
            StopBits::ZeroPointFive
        } else if code == 1 {
            StopBits::One
        } else if code == 2 {
            StopBits::OnePointFive
        } else {
            StopBits::Two
        }
    }
}

/// Word length.
#[derive(Clone, Copy, Debug, PartialEq, Eq, Structural)]
pub enum WordLength {
    /// Five bits per word.
    Five,
    /// Six bits per word.
    Six,
    /// Seven bits per word.
    Seven,
    /// Eight bits per word.
    Eight,
}

impl WordLength {
    /// Field encoding of this word length.
    pub open spec fn spec_code(self) -> u32 {
        match self {
            WordLength::Five => 4,
            WordLength::Six => 5,
            WordLength::Seven => 6,
            WordLength::Eight => 7,
        }
    }

    /// Word length denoted by a three-bit field value.
    ///
    /// Field values below four are never written by `set_word_length`; they
    /// are mapped to the widest word.
    pub open spec fn spec_from_code(code: u32) -> WordLength {
        if code == 4 {
            WordLength::Five
        } else if code == 5 {
            WordLength::Six
        } else if code == 6 {
            WordLength::Seven
        } else {
            WordLength::Eight
        }
    }

    /// Field encoding of this word length.
    pub fn code(self) -> (r: u32)
        ensures
            r == self.spec_code(),
    {
        match self {
            WordLength::Five => 4,
            WordLength::Six => 5,
            WordLength::Seven => 6,
            WordLength::Eight => 7,
        }
    }

    /// Word length denoted by a three-bit field value.
    pub fn from_code(code: u32) -> (r: WordLength)
        ensures
            r == Self::spec_from_code(code),
    {
        if code == 4 {
            WordLength::Five
        } else if code == 5 {
            WordLength::Six
        } else if code == 6 {
            WordLength::Seven
        } else {
            WordLength::Eight
        }
    }
}

/// Serial error.
#[derive(Clone, Copy, Debug, PartialEq, Eq, Structural)]
#[non_exhaustive]
pub enum Error {
    /// Framing error.
    Framing,
    /// Noise error.
    Noise,
    /// RX buffer overrun.
    Overrun,
    /// Parity check error.
    Parity,
}

/// Multiplex to Request-to-Send (type state).
pub struct MuxRts<const I: usize>;

/// Multiplex to Clear-to-Send (type state).
pub struct MuxCts<const I: usize>;

/// Multiplex to Transmit (type state).
pub struct MuxTxd<const I: usize>;

/// Multiplex to Receive (type state).
pub struct MuxRxd<const I: usize>;

impl<const I: usize> MuxRts<I> {
    /// The Request-to-Send signal of UART peripheral `I`.
    pub open spec fn spec_signal() -> UartSignal {
        if I == 0 {
            UartSignal::Rts0
        } else if I == 1 {
            UartSignal::Rts1
        } else {
            UartSignal::Rts2
        }
    }

    /// The Request-to-Send signal of UART peripheral `I`.
    pub fn signal() -> (r: UartSignal)
        requires
            I <= 2,
        ensures
            r == Self::spec_signal(),
    {
        if I == 0 {
            UartSignal::Rts0
        } else if I == 1 {
            UartSignal::Rts1
        } else {
            UartSignal::Rts2
        }
    }
}

impl<const I: usize> MuxCts<I> {
    /// The Clear-to-Send signal of UART peripheral `I`.
    pub open spec fn spec_signal() -> UartSignal {
        if I == 0 {
            UartSignal::Cts0
        } else if I == 1 {
            UartSignal::Cts1
        } else {
            UartSignal::Cts2
        }
    }

    /// The Clear-to-Send signal of UART peripheral `I`.
    pub fn signal() -> (r: UartSignal)
        requires
            I <= 2,
        ensures
            r == Self::spec_signal(),
    {
        if I == 0 {
            UartSignal::Cts0
        } else if I == 1 {
            UartSignal::Cts1
        } else {
            UartSignal::Cts2
        }
    }
}

impl<const I: usize> MuxTxd<I> {
    /// The Transmit signal of UART peripheral `I`.
    pub open spec fn spec_signal() -> UartSignal {
        if I == 0 {
            UartSignal::Txd0
        } else if I == 1 {
            UartSignal::Txd1
        } else {
            UartSignal::Txd2
        }
    }

    /// The Transmit signal of UART peripheral `I`.
    pub fn signal() -> (r: UartSignal)
        requires
            I <= 2,
        ensures
            r == Self::spec_signal(),
    {
        if I == 0 {
            UartSignal::Txd0
        } else if I == 1 {
            UartSignal::Txd1
        } else {
            UartSignal::Txd2
        }
    }
}

impl<const I: usize> MuxRxd<I> {
    /// The Receive signal of UART peripheral `I`.
    pub open spec fn spec_signal() -> UartSignal {
        if I == 0 {
            UartSignal::Rxd0
        } else if I == 1 {
            UartSignal::Rxd1
        } else {
            UartSignal::Rxd2
        }
    }

    /// The Receive signal of UART peripheral `I`.
    pub fn signal() -> (r: UartSignal)
        requires
            I <= 2,
        ensures
            r == Self::spec_signal(),
    {
        if I == 0 {
            UartSignal::Rxd0
        } else if I == 1 {
            UartSignal::Rxd1
        } else {
            UartSignal::Rxd2
        }
    }
}

/// Global peripheral UART signal multiplexer.
///
/// This structure only owns the multiplexer for signal number `N`; the
/// role parameter `M` records which UART signal is currently routed.
pub struct UartMux<const N: usize, M> {
    _mode: PhantomData<M>,
}

impl<const N: usize, M> UartMux<N, M> {
    /// Forge the capability for signal multiplexer `N`.
    pub(crate) fn conjure() -> UartMux<N, M> {
        UartMux { _mode: PhantomData }
    }

    /// Configure the internal UART signal to Request-to-Send (RTS).
    pub fn into_request_to_send<const U: usize>(self, glb: &mut v2::RegisterBlock) -> (r: UartMux<
        N,
        MuxRts<U>,
    >)
        requires
            N < 12,
            U <= 2,
            old(glb).wf(),
        ensures
            final(glb).wf(),
            final(glb).uart_mux_group@[N as int / 8].0 == (old(glb).uart_mux_group@[N as int / 8].0
                & !(0xfu32 << ((4 * (N % 8)) as u32))) | (MuxRts::<U>::spec_signal().spec_code()
                << ((4 * (N % 8)) as u32)),
            forall|i: int|
                0 <= i < v2::UART_MUX_GROUP_COUNT && i != N as int / 8
                    ==> final(glb).uart_mux_group@[i] == old(glb).uart_mux_group@[i],
            final(glb).gpio_config == old(glb).gpio_config,
            final(glb).gpio_input == old(glb).gpio_input,
            final(glb).gpio_output == old(glb).gpio_output,
    {
        let config = glb.uart_mux_group[N / 8].set_signal(N % 8, MuxRts::<U>::signal());
        glb.uart_mux_group[N / 8] = config;
        UartMux { _mode: PhantomData }
    }

    /// Configure the internal UART signal to Transmit (TXD).
    pub fn into_transmit<const U: usize>(self, glb: &mut v2::RegisterBlock) -> (r: UartMux<
        N,
        MuxTxd<U>,
    >)
        requires
            N < 12,
            U <= 2,
            old(glb).wf(),
        ensures
            final(glb).wf(),
            final(glb).uart_mux_group@[N as int / 8].0 == (old(glb).uart_mux_group@[N as int / 8].0
                & !(0xfu32 << ((4 * (N % 8)) as u32))) | (MuxTxd::<U>::spec_signal().spec_code()
                << ((4 * (N % 8)) as u32)),
            forall|i: int|
                0 <= i < v2::UART_MUX_GROUP_COUNT && i != N as int / 8
                    ==> final(glb).uart_mux_group@[i] == old(glb).uart_mux_group@[i],
            final(glb).gpio_config == old(glb).gpio_config,
            final(glb).gpio_input == old(glb).gpio_input,
            final(glb).gpio_output == old(glb).gpio_output,
    {
        let config = glb.uart_mux_group[N / 8].set_signal(N % 8, MuxTxd::<U>::signal());
        glb.uart_mux_group[N / 8] = config;
        UartMux { _mode: PhantomData }
    }

    /// Configure the internal UART signal to Receive (RXD).
    pub fn into_receive<const U: usize>(self, glb: &mut v2::RegisterBlock) -> (r: UartMux<
        N,
        MuxRxd<U>,
    >)
        requires
            N < 12,
            U <= 2,
            old(glb).wf(),
        ensures
            final(glb).wf(),
            final(glb).uart_mux_group@[N as int / 8].0 == (old(glb).uart_mux_group@[N as int / 8].0
                & !(0xfu32 << ((4 * (N % 8)) as u32))) | (MuxRxd::<U>::spec_signal().spec_code()
                << ((4 * (N % 8)) as u32)),
            forall|i: int|
                0 <= i < v2::UART_MUX_GROUP_COUNT && i != N as int / 8
                    ==> final(glb).uart_mux_group@[i] == old(glb).uart_mux_group@[i],
            final(glb).gpio_config == old(glb).gpio_config,
            final(glb).gpio_input == old(glb).gpio_input,
            final(glb).gpio_output == old(glb).gpio_output,
    {
        let config = glb.uart_mux_group[N / 8].set_signal(N % 8, MuxRxd::<U>::signal());
        glb.uart_mux_group[N / 8] = config;
        UartMux { _mode: PhantomData }
    }

    /// Configure the internal UART signal to Clear-to-Send (CTS).
    pub fn into_clear_to_send<const U: usize>(self, glb: &mut v2::RegisterBlock) -> (r: UartMux<
        N,
        MuxCts<U>,
    >)
        requires
            N < 12,
            U <= 2,
            old(glb).wf(),
        ensures
            final(glb).wf(),
            final(glb).uart_mux_group@[N as int / 8].0 == (old(glb).uart_mux_group@[N as int / 8].0
                & !(0xfu32 << ((4 * (N % 8)) as u32))) | (MuxCts::<U>::spec_signal().spec_code()
                << ((4 * (N % 8)) as u32)),
            forall|i: int|
                0 <= i < v2::UART_MUX_GROUP_COUNT && i != N as int / 8
                    ==> final(glb).uart_mux_group@[i] == old(glb).uart_mux_group@[i],
            final(glb).gpio_config == old(glb).gpio_config,
            final(glb).gpio_input == old(glb).gpio_input,
            final(glb).gpio_output == old(glb).gpio_output,
    {
        let config = glb.uart_mux_group[N / 8].set_signal(N % 8, MuxCts::<U>::signal());
        glb.uart_mux_group[N / 8] = config;
        UartMux { _mode: PhantomData }
    }
}

/// Available UART signal multiplexers.
pub struct UartMuxes {
    /// Multiplexer of UART signal 0.
    pub sig0: UartMux<0, MuxRts<0>>,
    /// Multiplexer of UART signal 1.
    pub sig1: UartMux<1, MuxRts<0>>,
    /// Multiplexer of UART signal 2.
    pub sig2: UartMux<2, MuxRts<0>>,
    /// Multiplexer of UART signal 3.
    pub sig3: UartMux<3, MuxRts<0>>,
    /// Multiplexer of UART signal 4.
    pub sig4: UartMux<4, MuxRts<0>>,
    /// Multiplexer of UART signal 5.
    pub sig5: UartMux<5, MuxRts<0>>,
    /// Multiplexer of UART signal 6.
    pub sig6: UartMux<6, MuxRts<0>>,
    /// Multiplexer of UART signal 7.
    pub sig7: UartMux<7, MuxRts<0>>,
    /// Multiplexer of UART signal 8.
    pub sig8: UartMux<8, MuxRts<0>>,
    /// Multiplexer of UART signal 9.
    pub sig9: UartMux<9, MuxRts<0>>,
    /// Multiplexer of UART signal 10.
    pub sig10: UartMux<10, MuxRts<0>>,
    /// Multiplexer of UART signal 11.
    pub sig11: UartMux<11, MuxRts<0>>,
}

impl UartMuxes {
    /// Take ownership of every signal multiplexer at once.
    ///
    /// Call this once at system start: each multiplexer capability must
    /// stay unique.
    pub fn new() -> UartMuxes {
        UartMuxes {
            sig0: UartMux::conjure(),
            sig1: UartMux::conjure(),
            sig2: UartMux::conjure(),
            sig3: UartMux::conjure(),
            sig4: UartMux::conjure(),
            sig5: UartMux::conjure(),
            sig6: UartMux::conjure(),
            sig7: UartMux::conjure(),
            sig8: UartMux::conjure(),
            sig9: UartMux::conjure(),
            sig10: UartMux::conjure(),
            sig11: UartMux::conjure(),
        }
    }
}

/// Check if target gpio `Pad` is internally connected to UART signal
/// index `I`.
pub trait HasUartSignal<const I: usize> {

}

impl HasUartSignal<0> for Pad<0, Uart> {

}

impl HasUartSignal<1> for Pad<1, Uart> {

}

impl HasUartSignal<2> for Pad<2, Uart> {

}

impl HasUartSignal<3> for Pad<3, Uart> {

}

impl HasUartSignal<4> for Pad<4, Uart> {

}

impl HasUartSignal<5> for Pad<5, Uart> {

}

impl HasUartSignal<6> for Pad<6, Uart> {

}

impl HasUartSignal<7> for Pad<7, Uart> {

}

impl HasUartSignal<8> for Pad<8, Uart> {

}

impl HasUartSignal<9> for Pad<9, Uart> {

}

impl HasUartSignal<10> for Pad<10, Uart> {

}

impl HasUartSignal<11> for Pad<11, Uart> {

}

impl HasUartSignal<0> for Pad<12, Uart> {

}

impl HasUartSignal<1> for Pad<13, Uart> {

}

impl HasUartSignal<2> for Pad<14, Uart> {

}

impl HasUartSignal<3> for Pad<15, Uart> {

}

impl HasUartSignal<4> for Pad<16, Uart> {

}

impl HasUartSignal<5> for Pad<17, Uart> {

}

impl HasUartSignal<6> for Pad<18, Uart> {

}

impl HasUartSignal<7> for Pad<19, Uart> {

}

impl HasUartSignal<8> for Pad<20, Uart> {

}

impl HasUartSignal<9> for Pad<21, Uart> {

}

impl HasUartSignal<10> for Pad<22, Uart> {

}

impl HasUartSignal<11> for Pad<23, Uart> {

}

impl HasUartSignal<0> for Pad<24, Uart> {

}

impl HasUartSignal<1> for Pad<25, Uart> {

}

impl HasUartSignal<2> for Pad<26, Uart> {

}

impl HasUartSignal<3> for Pad<27, Uart> {

}

impl HasUartSignal<4> for Pad<28, Uart> {

}

impl HasUartSignal<5> for Pad<29, Uart> {

}

impl HasUartSignal<6> for Pad<30, Uart> {

}

impl HasUartSignal<7> for Pad<31, Uart> {

}

impl HasUartSignal<8> for Pad<32, Uart> {

}

impl HasUartSignal<9> for Pad<33, Uart> {

}

impl HasUartSignal<10> for Pad<34, Uart> {

}

impl HasUartSignal<11> for Pad<35, Uart> {

}

impl HasUartSignal<0> for Pad<36, Uart> {

}

impl HasUartSignal<1> for Pad<37, Uart> {

}

impl HasUartSignal<2> for Pad<38, Uart> {

}

impl HasUartSignal<3> for Pad<39, Uart> {

}

impl HasUartSignal<4> for Pad<40, Uart> {

}

impl HasUartSignal<5> for Pad<41, Uart> {

}

impl HasUartSignal<6> for Pad<42, Uart> {

}

impl HasUartSignal<7> for Pad<43, Uart> {

}

impl HasUartSignal<8> for Pad<44, Uart> {

}

impl HasUartSignal<9> for Pad<45, Uart> {

}

/// Check if an internal multi-media UART signal is connected to target
/// gpio `Pad`.
pub trait HasMmUartSignal {

}

impl<const N: usize> HasMmUartSignal for Pad<N, MmUart> {

}

/// Valid UART pads.
///
/// Only the pin and signal-multiplexer shapes that hardware wiring
/// supports implement this trait; an unsupported combination does not
/// compile. The four derived capability flags say which signals the
/// composition provides, and `split` partitions the pads disjointly into
/// a transmit-capable and a receive-capable half around the shared
/// register block.
pub trait Pads<const U: usize>: Sized {
    /// Transmit half produced by `split`.
    type Tx;

    /// Receive half produced by `split`.
    type Rx;

    /// Whether this pin configuration includes the Request-to-Send
    /// feature.
    spec fn spec_rts() -> bool;

    /// Whether this pin configuration includes the Clear-to-Send feature.
    spec fn spec_cts() -> bool;

    /// Whether this pin configuration includes the Transmit feature.
    spec fn spec_txd() -> bool;

    /// Whether this pin configuration includes the Receive feature.
    spec fn spec_rxd() -> bool;

    /// Whether this pin configuration includes the Request-to-Send
    /// feature.
    fn rts() -> (r: bool)
        ensures
            r == Self::spec_rts(),
    ;

    /// Whether this pin configuration includes the Clear-to-Send feature.
    fn cts() -> (r: bool)
        ensures
            r == Self::spec_cts(),
    ;

    /// Whether this pin configuration includes the Transmit feature.
    fn txd() -> (r: bool)
        ensures
            r == Self::spec_txd(),
    ;

    /// Whether this pin configuration includes the Receive feature.
    fn rxd() -> (r: bool)
        ensures
            r == Self::spec_rxd(),
    ;

    /// The halves that `split` returns, as a function of the composition
    /// and the shared register block.
    spec fn spec_split(self, uart: RegisterBlock) -> (Self::Tx, Self::Rx);

    /// Split the composition into its transmit and receive halves around
    /// the given register block: the pads move disjointly into the two
    /// halves, no pad appears in both, and both halves carry the given
    /// register block.
    fn split(self, uart: RegisterBlock) -> (r: (Self::Tx, Self::Rx))
        ensures
            r == self.spec_split(uart),
    ;
}

/// Transmit half from a split serial structure: it owns the
/// transmit-capable pads and issues only transmit-direction register
/// operations.
pub struct TransmitHalf<PADS> {
    pub uart: RegisterBlock,
    pub _pads: PADS,
}

impl<PADS> TransmitHalf<PADS> {
    /// The transmit configuration register of this half.
    pub fn transmit_config(&self) -> (r: TransmitConfig)
        ensures
            r == self.uart.transmit_config,
    {
        self.uart.transmit_config
    }
}

/// Receive half from a split serial structure: it owns the
/// receive-capable pads and issues only receive-direction register
/// operations.
pub struct ReceiveHalf<PADS> {
    pub uart: RegisterBlock,
    pub _pads: PADS,
}

impl<PADS> ReceiveHalf<PADS> {
    /// The receive configuration register of this half.
    pub fn receive_config(&self) -> (r: ReceiveConfig)
        ensures
            r == self.uart.receive_config,
    {
        self.uart.receive_config
    }
}

impl<
    const I: usize,
    const U: usize,
    const N: usize,
> Pads<U> for (Pad<N, Uart>, UartMux<I, MuxTxd<U>>) where Pad<N, Uart>: HasUartSignal<I> {
    type Tx = TransmitHalf<(Pad<N, Uart>, UartMux<I, MuxTxd<U>>)>;

    type Rx = ReceiveHalf<()>;

    open spec fn spec_rts() -> bool {
        false
    }

    open spec fn spec_cts() -> bool {
        false
    }

    open spec fn spec_txd() -> bool {
        true
    }

    open spec fn spec_rxd() -> bool {
        false
    }

    fn rts() -> (r: bool) {
        false
    }

    fn cts() -> (r: bool) {
        false
    }

    fn txd() -> (r: bool) {
        true
    }

    fn rxd() -> (r: bool) {
        false
    }

    open spec fn spec_split(self, uart: RegisterBlock) -> (Self::Tx, Self::Rx) {
        (TransmitHalf { uart, _pads: self }, ReceiveHalf { uart, _pads: () })
    }

    fn split(self, uart: RegisterBlock) -> (r: (Self::Tx, Self::Rx)) {
        (TransmitHalf { uart, _pads: self }, ReceiveHalf { uart, _pads: () })
    }
}

impl<
    const I1: usize,
    const I2: usize,
    const U: usize,
    const N1: usize,
    const N2: usize,
> Pads<U> for (
    (Pad<N1, Uart>, UartMux<I1, MuxTxd<U>>),
    (Pad<N2, Uart>, UartMux<I2, MuxRxd<U>>),
) where Pad<N1, Uart>: HasUartSignal<I1>, Pad<N2, Uart>: HasUartSignal<I2> {
    type Tx = TransmitHalf<(Pad<N1, Uart>, UartMux<I1, MuxTxd<U>>)>;

    type Rx = ReceiveHalf<(Pad<N2, Uart>, UartMux<I2, MuxRxd<U>>)>;

    open spec fn spec_rts() -> bool {
        false
    }

    open spec fn spec_cts() -> bool {
        false
    }

    open spec fn spec_txd() -> bool {
        true
    }

    open spec fn spec_rxd() -> bool {
        true
    }

    fn rts() -> (r: bool) {
        false
    }

    fn cts() -> (r: bool) {
        false
    }

    fn txd() -> (r: bool) {
        true
    }

    fn rxd() -> (r: bool) {
        true
    }

    open spec fn spec_split(self, uart: RegisterBlock) -> (Self::Tx, Self::Rx) {
        (TransmitHalf { uart, _pads: self.0 }, ReceiveHalf { uart, _pads: self.1 })
    }

    fn split(self, uart: RegisterBlock) -> (r: (Self::Tx, Self::Rx)) {
        let (tx_pads, rx_pads) = self;
        (TransmitHalf { uart, _pads: tx_pads }, ReceiveHalf { uart, _pads: rx_pads })
    }
}

impl<
    const I1: usize,
    const I2: usize,
    const U: usize,
    const N1: usize,
    const N2: usize,
> Pads<U> for (
    (Pad<N1, Uart>, UartMux<I1, MuxTxd<U>>),
    (Pad<N2, Uart>, UartMux<I2, MuxCts<U>>),
) where Pad<N1, Uart>: HasUartSignal<I1>, Pad<N2, Uart>: HasUartSignal<I2> {
    type Tx = TransmitHalf<
        ((Pad<N1, Uart>, UartMux<I1, MuxTxd<U>>), (Pad<N2, Uart>, UartMux<I2, MuxCts<U>>)),
    >;

    type Rx = ();

    open spec fn spec_rts() -> bool {
        false
    }

    open spec fn spec_cts() -> bool {
        true
    }

    open spec fn spec_txd() -> bool {
        true
    }

    open spec fn spec_rxd() -> bool {
        false
    }

    fn rts() -> (r: bool) {
        false
    }

    fn cts() -> (r: bool) {
        true
    }

    fn txd() -> (r: bool) {
        true
    }

    fn rxd() -> (r: bool) {
        false
    }

    open spec fn spec_split(self, uart: RegisterBlock) -> (Self::Tx, Self::Rx) {
        (TransmitHalf { uart, _pads: self }, ())
    }

    fn split(self, uart: RegisterBlock) -> (r: (Self::Tx, Self::Rx)) {
        (TransmitHalf { uart, _pads: self }, ())
    }
}

impl<
    const I1: usize,
    const I2: usize,
    const I3: usize,
    const I4: usize,
    const U: usize,
    const N1: usize,
    const N2: usize,
    const N3: usize,
    const N4: usize,
> Pads<U> for (
    (Pad<N1, Uart>, UartMux<I1, MuxTxd<U>>),
    (Pad<N2, Uart>, UartMux<I2, MuxRxd<U>>),
    (Pad<N3, Uart>, UartMux<I3, MuxRts<U>>),
    (Pad<N4, Uart>, UartMux<I4, MuxCts<U>>),
) where
    Pad<N1, Uart>: HasUartSignal<I1>,
    Pad<N2, Uart>: HasUartSignal<I2>,
    Pad<N3, Uart>: HasUartSignal<I3>,
    Pad<N4, Uart>: HasUartSignal<I4>,
 {
    type Tx = TransmitHalf<
        ((Pad<N1, Uart>, UartMux<I1, MuxTxd<U>>), (Pad<N4, Uart>, UartMux<I4, MuxCts<U>>)),
    >;

    type Rx = ReceiveHalf<
        ((Pad<N2, Uart>, UartMux<I2, MuxRxd<U>>), (Pad<N3, Uart>, UartMux<I3, MuxRts<U>>)),
    >;

    open spec fn spec_rts() -> bool {
        true
    }

    open spec fn spec_cts() -> bool {
        true
    }

    open spec fn spec_txd() -> bool {
        true
    }

    open spec fn spec_rxd() -> bool {
        true
    }

    fn rts() -> (r: bool) {
        true
    }

    fn cts() -> (r: bool) {
        true
    }

    fn txd() -> (r: bool) {
        true
    }

    fn rxd() -> (r: bool) {
        true
    }

    open spec fn spec_split(self, uart: RegisterBlock) -> (Self::Tx, Self::Rx) {
        (TransmitHalf { uart, _pads: (self.0, self.3) }, ReceiveHalf {
            uart,
            _pads: (self.1, self.2),
        })
    }

    fn split(self, uart: RegisterBlock) -> (r: (Self::Tx, Self::Rx)) {
        let (txd, rxd, rts, cts) = self;
        (TransmitHalf { uart, _pads: (txd, cts) }, ReceiveHalf { uart, _pads: (rxd, rts) })
    }
}

impl<const U: usize, const N: usize> Pads<U> for Pad<N, MmUart> where
    Pad<N, MmUart>: HasMmUartSignal,
 {
    type Tx = ();

    type Rx = ();

    open spec fn spec_rts() -> bool {
        N % 4 == 2
    }

    open spec fn spec_cts() -> bool {
        N % 4 == 3
    }

    open spec fn spec_txd() -> bool {
        N % 4 == 0
    }

    open spec fn spec_rxd() -> bool {
        N % 4 == 1
    }

    fn rts() -> (r: bool) {
        N % 4 == 2
    }

    fn cts() -> (r: bool) {
        N % 4 == 3
    }

    fn txd() -> (r: bool) {
        N % 4 == 0
    }

    fn rxd() -> (r: bool) {
        N % 4 == 1
    }

    open spec fn spec_split(self, uart: RegisterBlock) -> (Self::Tx, Self::Rx) {
        ((), ())
    }

    fn split(self, uart: RegisterBlock) -> (r: (Self::Tx, Self::Rx)) {
        let _ = uart;
        ((), ())
    }
}

impl<const U: usize, const N1: usize, const N2: usize> Pads<U> for (
    Pad<N1, MmUart>,
    Pad<N2, MmUart>,
) where Pad<N1, MmUart>: HasMmUartSignal, Pad<N2, MmUart>: HasMmUartSignal {
    type Tx = ();

    type Rx = ();

    open spec fn spec_rts() -> bool {
        N1 % 4 == 2 || N2 % 4 == 2
    }

    open spec fn spec_cts() -> bool {
        N1 % 4 == 3 || N2 % 4 == 3
    }

    open spec fn spec_txd() -> bool {
        N1 % 4 == 0 || N2 % 4 == 0
    }

    open spec fn spec_rxd() -> bool {
        N1 % 4 == 1 || N2 % 4 == 1
    }

    fn rts() -> (r: bool) {
        N1 % 4 == 2 || N2 % 4 == 2
    }

    fn cts() -> (r: bool) {
        N1 % 4 == 3 || N2 % 4 == 3
    }

    fn txd() -> (r: bool) {
        N1 % 4 == 0 || N2 % 4 == 0
    }

    fn rxd() -> (r: bool) {
        N1 % 4 == 1 || N2 % 4 == 1
    }

    open spec fn spec_split(self, uart: RegisterBlock) -> (Self::Tx, Self::Rx) {
        ((), ())
    }

    fn split(self, uart: RegisterBlock) -> (r: (Self::Tx, Self::Rx)) {
        let _ = uart;
        ((), ())
    }
}

impl<const U: usize, const N1: usize, const N2: usize, const N3: usize> Pads<U> for (
    Pad<N1, MmUart>,
    Pad<N2, MmUart>,
    Pad<N3, MmUart>,
) where
    Pad<N1, MmUart>: HasMmUartSignal,
    Pad<N2, MmUart>: HasMmUartSignal,
    Pad<N3, MmUart>: HasMmUartSignal,
 {
    type Tx = ();

    type Rx = ();

    open spec fn spec_rts() -> bool {
        N1 % 4 == 2 || N2 % 4 == 2 || N3 % 4 == 2
    }

    open spec fn spec_cts() -> bool {
        N1 % 4 == 3 || N2 % 4 == 3 || N3 % 4 == 3
    }

    open spec fn spec_txd() -> bool {
        N1 % 4 == 0 || N2 % 4 == 0 || N3 % 4 == 0
    }

    open spec fn spec_rxd() -> bool {
        N1 % 4 == 1 || N2 % 4 == 1 || N3 % 4 == 1
    }

    fn rts() -> (r: bool) {
        N1 % 4 == 2 || N2 % 4 == 2 || N3 % 4 == 2
    }

    fn cts() -> (r: bool) {
        N1 % 4 == 3 || N2 % 4 == 3 || N3 % 4 == 3
    }

    fn txd() -> (r: bool) {
        N1 % 4 == 0 || N2 % 4 == 0 || N3 % 4 == 0
    }

    fn rxd() -> (r: bool) {
        N1 % 4 == 1 || N2 % 4 == 1 || N3 % 4 == 1
    }

    open spec fn spec_split(self, uart: RegisterBlock) -> (Self::Tx, Self::Rx) {
        ((), ())
    }

    fn split(self, uart: RegisterBlock) -> (r: (Self::Tx, Self::Rx)) {
        let _ = uart;
        ((), ())
    }
}

impl<
    const U: usize,
    const N1: usize,
    const N2: usize,
    const N3: usize,
    const N4: usize,
> Pads<U> for (Pad<N1, MmUart>, Pad<N2, MmUart>, Pad<N3, MmUart>, Pad<N4, MmUart>) where
    Pad<N1, MmUart>: HasMmUartSignal,
    Pad<N2, MmUart>: HasMmUartSignal,
    Pad<N3, MmUart>: HasMmUartSignal,
    Pad<N4, MmUart>: HasMmUartSignal,
 {
    type Tx = ();

    type Rx = ();

    open spec fn spec_rts() -> bool {
        N1 % 4 == 2 || N2 % 4 == 2 || N3 % 4 == 2 || N4 % 4 == 2
    }

    open spec fn spec_cts() -> bool {
        N1 % 4 == 3 || N2 % 4 == 3 || N3 % 4 == 3 || N4 % 4 == 3
    }

    open spec fn spec_txd() -> bool {
        N1 % 4 == 0 || N2 % 4 == 0 || N3 % 4 == 0 || N4 % 4 == 0
    }

    open spec fn spec_rxd() -> bool {
        N1 % 4 == 1 || N2 % 4 == 1 || N3 % 4 == 1 || N4 % 4 == 1
    }

    fn rts() -> (r: bool) {
        N1 % 4 == 2 || N2 % 4 == 2 || N3 % 4 == 2 || N4 % 4 == 2
    }

    fn cts() -> (r: bool) {
        N1 % 4 == 3 || N2 % 4 == 3 || N3 % 4 == 3 || N4 % 4 == 3
    }

    fn txd() -> (r: bool) {
        N1 % 4 == 0 || N2 % 4 == 0 || N3 % 4 == 0 || N4 % 4 == 0
    }

    fn rxd() -> (r: bool) {
        N1 % 4 == 1 || N2 % 4 == 1 || N3 % 4 == 1 || N4 % 4 == 1
    }

    open spec fn spec_split(self, uart: RegisterBlock) -> (Self::Tx, Self::Rx) {
        ((), ())
    }

    fn split(self, uart: RegisterBlock) -> (r: (Self::Tx, Self::Rx)) {
        let _ = uart;
        ((), ())
    }
}

/// A composition of a single transmit pad yields the capability tuple
/// (RTS, CTS, TXD, RXD) = (false, false, true, false).
pub proof fn txd_only_capabilities<const I: usize, const U: usize, const N: usize>() where
    Pad<N, Uart>: HasUartSignal<I>,

    ensures
        !<(Pad<N, Uart>, UartMux<I, MuxTxd<U>>) as Pads<U>>::spec_rts(),
        !<(Pad<N, Uart>, UartMux<I, MuxTxd<U>>) as Pads<U>>::spec_cts(),
        <(Pad<N, Uart>, UartMux<I, MuxTxd<U>>) as Pads<U>>::spec_txd(),
        !<(Pad<N, Uart>, UartMux<I, MuxTxd<U>>) as Pads<U>>::spec_rxd(),
{
}

/// A composition of a transmit pad and a receive pad yields the
/// capability tuple (RTS, CTS, TXD, RXD) = (false, false, true, true).
pub proof fn txd_rxd_capabilities<
    const I1: usize,
    const I2: usize,
    const U: usize,
    const N1: usize,
    const N2: usize,
>() where Pad<N1, Uart>: HasUartSignal<I1>, Pad<N2, Uart>: HasUartSignal<I2>
    ensures
        !<((Pad<N1, Uart>, UartMux<I1, MuxTxd<U>>), (Pad<N2, Uart>, UartMux<I2, MuxRxd<U>>)) as Pads<
            U,
        >>::spec_rts(),
        !<((Pad<N1, Uart>, UartMux<I1, MuxTxd<U>>), (Pad<N2, Uart>, UartMux<I2, MuxRxd<U>>)) as Pads<
            U,
        >>::spec_cts(),
        <((Pad<N1, Uart>, UartMux<I1, MuxTxd<U>>), (Pad<N2, Uart>, UartMux<I2, MuxRxd<U>>)) as Pads<
            U,
        >>::spec_txd(),
        <((Pad<N1, Uart>, UartMux<I1, MuxTxd<U>>), (Pad<N2, Uart>, UartMux<I2, MuxRxd<U>>)) as Pads<
            U,
        >>::spec_rxd(),
{
}

/// A composition of a transmit pad and a flow-control pad yields the
/// capability tuple (RTS, CTS, TXD, RXD) = (false, true, true, false).
pub proof fn txd_cts_capabilities<
    const I1: usize,
    const I2: usize,
    const U: usize,
    const N1: usize,
    const N2: usize,
>() where Pad<N1, Uart>: HasUartSignal<I1>, Pad<N2, Uart>: HasUartSignal<I2>
    ensures
        !<((Pad<N1, Uart>, UartMux<I1, MuxTxd<U>>), (Pad<N2, Uart>, UartMux<I2, MuxCts<U>>)) as Pads<
            U,
        >>::spec_rts(),
        <((Pad<N1, Uart>, UartMux<I1, MuxTxd<U>>), (Pad<N2, Uart>, UartMux<I2, MuxCts<U>>)) as Pads<
            U,
        >>::spec_cts(),
        <((Pad<N1, Uart>, UartMux<I1, MuxTxd<U>>), (Pad<N2, Uart>, UartMux<I2, MuxCts<U>>)) as Pads<
            U,
        >>::spec_txd(),
        !<((Pad<N1, Uart>, UartMux<I1, MuxTxd<U>>), (Pad<N2, Uart>, UartMux<I2, MuxCts<U>>)) as Pads<
            U,
        >>::spec_rxd(),
{
}

/// A full four-signal composition yields the capability tuple
/// (RTS, CTS, TXD, RXD) = (true, true, true, true).
pub proof fn full_quad_capabilities<
    const I1: usize,
    const I2: usize,
    const I3: usize,
    const I4: usize,
    const U: usize,
    const N1: usize,
    const N2: usize,
    const N3: usize,
    const N4: usize,
>() where
    Pad<N1, Uart>: HasUartSignal<I1>,
    Pad<N2, Uart>: HasUartSignal<I2>,
    Pad<N3, Uart>: HasUartSignal<I3>,
    Pad<N4, Uart>: HasUartSignal<I4>,

    ensures
        <(
            (Pad<N1, Uart>, UartMux<I1, MuxTxd<U>>),
            (Pad<N2, Uart>, UartMux<I2, MuxRxd<U>>),
            (Pad<N3, Uart>, UartMux<I3, MuxRts<U>>),
            (Pad<N4, Uart>, UartMux<I4, MuxCts<U>>),
        ) as Pads<U>>::spec_rts(),
        <(
            (Pad<N1, Uart>, UartMux<I1, MuxTxd<U>>),
            (Pad<N2, Uart>, UartMux<I2, MuxRxd<U>>),
            (Pad<N3, Uart>, UartMux<I3, MuxRts<U>>),
            (Pad<N4, Uart>, UartMux<I4, MuxCts<U>>),
        ) as Pads<U>>::spec_cts(),
        <(
            (Pad<N1, Uart>, UartMux<I1, MuxTxd<U>>),
            (Pad<N2, Uart>, UartMux<I2, MuxRxd<U>>),
            (Pad<N3, Uart>, UartMux<I3, MuxRts<U>>),
            (Pad<N4, Uart>, UartMux<I4, MuxCts<U>>),
        ) as Pads<U>>::spec_txd(),
        <(
            (Pad<N1, Uart>, UartMux<I1, MuxTxd<U>>),
            (Pad<N2, Uart>, UartMux<I2, MuxRxd<U>>),
            (Pad<N3, Uart>, UartMux<I3, MuxRts<U>>),
            (Pad<N4, Uart>, UartMux<I4, MuxCts<U>>),
        ) as Pads<U>>::spec_rxd(),
{
}

/// A fixed-role multi-media pad derives its single capability from its
/// pin index modulo four: index 0 transmits, 1 receives, 2 requests to
/// send, 3 clears to send.
pub proof fn mm_uart_capabilities<const U: usize, const N: usize>() where
    Pad<N, MmUart>: HasMmUartSignal,

    ensures
        <Pad<N, MmUart> as Pads<U>>::spec_rts() == (N % 4 == 2),
        <Pad<N, MmUart> as Pads<U>>::spec_cts() == (N % 4 == 3),
        <Pad<N, MmUart> as Pads<U>>::spec_txd() == (N % 4 == 0),
        <Pad<N, MmUart> as Pads<U>>::spec_rxd() == (N % 4 == 1),
{
}

/// What the parity-setting operation does to a configuration word:
/// enable bit 4 and encode odd parity in bit 5, or clear bit 4 for no
/// check.
pub open spec fn spec_with_parity(v: u32, parity: Parity) -> u32 {
    match parity {
        Parity::Even => (v | 0x10u32) & !0x20u32,
        Parity::Odd => (v | 0x10u32) | 0x20u32,
        Parity::NoParity => v & !0x10u32,
    }
}

/// The transmit configuration word that [`Serial::freerun`] writes: the
/// reset value with free-run mode, the requested parity, stop bits and
/// word length, and the transmit and Clear-to-Send enables exactly when
/// the pad composition provides those signals.
pub open spec fn spec_freerun_transmit_config(
    config: Config,
    txd: bool,
    cts: bool,
) -> u32 {
    let base = ((((spec_with_parity(0x0000_8f00u32 | 0x4u32, config.parity) & !0x1800u32) | (
    config.stop_bits.spec_code() << 11)) & !0x700u32)) | (config.word_length.spec_code() << 8);
    let with_txd = if txd {
        base | 0x1u32
    } else {
        base
    };
    if cts {
        with_txd | 0x2u32
    } else {
        with_txd
    }
}

/// The receive configuration word that [`Serial::freerun`] writes: the
/// reset value with the requested parity and word length, and the
/// receive enable exactly when the pad composition provides it.
pub open spec fn spec_freerun_receive_config(config: Config, rxd: bool) -> u32 {
    let base = (spec_with_parity(0x0000_0700u32, config.parity) & !0x700u32) | (
    config.word_length.spec_code() << 8);
    if rxd {
        base | 0x1u32
    } else {
        base
    }
}

/// Managed serial peripheral.
pub struct Serial<PADS> {
    pub(crate) uart: RegisterBlock,
    pub(crate) pads: PADS,
}

impl<PADS> Serial<PADS> {
    /// The register block managed by this serial instance.
    pub closed spec fn spec_uart(self) -> RegisterBlock {
        self.uart
    }

    /// The pads owned by this serial instance.
    pub closed spec fn spec_pads(self) -> PADS {
        self.pads
    }

    /// Creates a polling serial instance, without interrupt or DMA
    /// configurations.
    ///
    /// The transmit and receive bit periods are the UART source clock
    /// divided by the requested baud rates; a baud rate whose period does
    /// not fit the sixteen-bit period field is impossible and excluded by
    /// the precondition. Direction enables follow the capabilities of the
    /// pad composition.
    pub fn freerun<const I: usize>(
        uart: RegisterBlock,
        config: Config,
        pads: PADS,
        clocks: &Clocks,
    ) -> (r: Serial<PADS>) where PADS: Pads<I>
        requires
            config.transmit_baudrate > 0,
            config.receive_baudrate > 0,
            1 <= clocks.uart_clock_hz / config.transmit_baudrate <= 65535,
            1 <= clocks.uart_clock_hz / config.receive_baudrate <= 65535,
        ensures
            r.spec_pads() == pads,
            r.spec_uart().bit_period.0 == ((((0x00ff_00ffu32 & !0xffffu32) | (
            clocks.uart_clock_hz / config.transmit_baudrate)) & 0xffffu32) | ((clocks.uart_clock_hz
                / config.receive_baudrate) << 16)),
            r.spec_uart().data_config.0 == (if config.bit_order is LsbFirst {
                0u32
            } else {
                1u32
            }),
            r.spec_uart().transmit_config.0 == spec_freerun_transmit_config(
                config,
                PADS::spec_txd(),
                PADS::spec_cts(),
            ),
            r.spec_uart().receive_config.0 == spec_freerun_receive_config(
                config,
                PADS::spec_rxd(),
            ),
            r.spec_uart().interrupt_state == uart.interrupt_state,
            r.spec_uart().interrupt_mask == uart.interrupt_mask,
            r.spec_uart().interrupt_clear == uart.interrupt_clear,
            r.spec_uart().interrupt_enable == uart.interrupt_enable,
            r.spec_uart().bus_state == uart.bus_state,
            r.spec_uart().fifo_config_0 == uart.fifo_config_0,
            r.spec_uart().fifo_config_1 == uart.fifo_config_1,
    {
        let mut uart = uart;

        // Calculate transmit and receive intervals.
        let uart_clock = clocks.uart_clock();
        let transmit_interval = uart_clock / config.transmit_baudrate;
        let receive_interval = uart_clock / config.receive_baudrate;
        let val = BitPeriod::default()
            .set_transmit_time_interval(transmit_interval as u16)
            .set_receive_time_interval(receive_interval as u16);
        uart.bit_period = val;

        // Write the bit-order.
        let val = DataConfig::default().set_bit_order(config.bit_order);
        proof {
            assert(0u32 & !0x1u32 == 0u32 && 0u32 | 0x1u32 == 1u32) by (bit_vector);
        }
        uart.data_config = val;

        // Configure the transmit feature.
        let mut val = TransmitConfig::default()
            .enable_freerun()
            .set_parity(config.parity)
            .set_stop_bits(config.stop_bits)
            .set_word_length(config.word_length);
        if PADS::txd() {
            val = val.enable_txd();
        }
        if PADS::cts() {
            val = val.enable_cts();
        }
        uart.transmit_config = val;

        // Configure the receive feature.
        let mut val = ReceiveConfig::default().set_parity(config.parity).set_word_length(
            config.word_length,
        );
        if PADS::rxd() {
            val = val.enable_rxd();
        }
        uart.receive_config = val;

        Serial { uart, pads }
    }

    /// Release serial instance and return its peripheral and pads.
    pub fn free(self) -> (r: (RegisterBlock, PADS))
        ensures
            r.0 == self.spec_uart(),
            r.1 == self.spec_pads(),
    {
        (self.uart, self.pads)
    }

    /// Split serial instance into transmit and receive halves.
    ///
    /// The serial's own pads are partitioned disjointly between the
    /// halves around its own register block; each half carries that
    /// shared register block and issues only its own direction's
    /// operations.
    pub fn split<const I: usize>(self) -> (r: (PADS::Tx, PADS::Rx)) where PADS: Pads<I>
        ensures
            r == self.spec_pads().spec_split(self.spec_uart()),
    {
        self.pads.split(self.uart)
    }
}

/// Serial configuration.
#[derive(Clone, Copy, Debug, PartialEq, Eq, Structural)]
pub struct Config {
    /// Baud rate, in bits per second, on the transmit half.
    pub transmit_baudrate: u32,
    /// Baud rate, in bits per second, on the receive half.
    pub receive_baudrate: u32,
    /// Data bit order.
    pub bit_order: BitOrder,
    /// Parity settings.
    pub parity: Parity,
    /// Serial stop bits.
    pub stop_bits: StopBits,
    /// Data word length.
    pub word_length: WordLength,
}

impl Config {
    /// Set the same baud rate for both the transmit and receive halves.
    pub fn set_baudrate(self, baudrate: u32) -> (r: Self)
        ensures
            r.transmit_baudrate == baudrate,
            r.receive_baudrate == baudrate,
            r.bit_order == self.bit_order,
            r.parity == self.parity,
            r.stop_bits == self.stop_bits,
            r.word_length == self.word_length,
    {
        Config { transmit_baudrate: baudrate, receive_baudrate: baudrate, ..self }
    }
}

impl Default for Config {
    /// Serial configuration defaults to 115200 baud, 8-bit word, no
    /// parity check, 1 stop bit, LSB first.
    fn default() -> (r: Self)
        ensures
            r.transmit_baudrate == 115200,
            r.receive_baudrate == 115200,
            r.bit_order is LsbFirst,
            r.parity is NoParity,
            r.stop_bits is One,
            r.word_length is Eight,
    {
        Config {
            transmit_baudrate: 115200,
            receive_baudrate: 115200,
            bit_order: BitOrder::LsbFirst,
            parity: Parity::NoParity,
            stop_bits: StopBits::One,
            word_length: WordLength::Eight,
        }
    }
}

} // verus!
