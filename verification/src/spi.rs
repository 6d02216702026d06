//! Serial Peripheral Interface register values.
//!
//! Each register of the SPI block is modelled as a plain 32-bit value with
//! typed accessors; every accessor's contract states the exact bit layout.

use vstd::prelude::*;

verus! {

/// Registers of the SPI peripheral, modelled as plain values.
///
/// On hardware the block sits at a fixed base address; the byte offset of
/// each register within the block is given by the `*_OFFSET` constants.
#[derive(Clone, Copy, Debug, PartialEq, Eq, Structural)]
pub struct RegisterBlock {
    /// Peripheral configuration register.
    pub config: Config,
    /// Interrupt configuration and state register.
    pub interrupt_config: InterruptConfig,
    /// Bus busy state indication register.
    pub bus_busy: BusBusy,
    /// Duration of data phases and conditions in source clock.
    pub period_signal: PeriodSignal,
    /// Duration of interval between frames in source clock.
    pub period_interval: PeriodInterval,
    /// Receive ignore feature configuration register.
    pub receive_ignore: ReceiveIgnore,
    /// Slave mode time-out interrupt trigger configuration.
    pub slave_timeout: SlaveTimeout,
    /// First-in first-out queue configuration register 0.
    pub fifo_config_0: FifoConfig0,
    /// First-in first-out queue configuration register 1.
    pub fifo_config_1: FifoConfig1,
}

/// Byte offset of the `config` register in the SPI block.
pub const CONFIG_OFFSET: usize = 0x0;
/// Byte offset of the `interrupt_config` register in the SPI block.
pub const INTERRUPT_CONFIG_OFFSET: usize = 0x4;
/// Byte offset of the `bus_busy` register in the SPI block.
pub const BUS_BUSY_OFFSET: usize = 0x08;
/// Byte offset of the `period_signal` register in the SPI block.
pub const PERIOD_SIGNAL_OFFSET: usize = 0x10;
/// Byte offset of the `period_interval` register in the SPI block.
pub const PERIOD_INTERVAL_OFFSET: usize = 0x14;
/// Byte offset of the `receive_ignore` register in the SPI block.
pub const RECEIVE_IGNORE_OFFSET: usize = 0x18;
/// Byte offset of the `slave_timeout` register in the SPI block.
pub const SLAVE_TIMEOUT_OFFSET: usize = 0x1c;
/// Byte offset of the `fifo_config_0` register in the SPI block.
pub const FIFO_CONFIG_0_OFFSET: usize = 0x80;
/// Byte offset of the `fifo_config_1` register in the SPI block.
pub const FIFO_CONFIG_1_OFFSET: usize = 0x84;
/// Byte offset of the `fifo_write` register in the SPI block.
pub const FIFO_WRITE_OFFSET: usize = 0x88;
/// Byte offset of the `fifo_read` register in the SPI block.
pub const FIFO_READ_OFFSET: usize = 0x8c;

/// Peripheral configuration register.
#[derive(Clone, Copy, Debug, PartialEq, Eq, Hash, Structural)]
pub struct Config(pub u32);

impl Config {
    /// Enable master mode.
    pub fn enable_master(self) -> (r: Self)
        ensures
            r.0 == self.0 | 0x1u32,
    {
        Config(self.0 | 0x1u32)
    }
    /// Disable master mode.
    pub fn disable_master(self) -> (r: Self)
        ensures
            r.0 == self.0 & !0x1u32,
    {
        Config(self.0 & !0x1u32)
    }
    /// Check if master mode is enabled.
    pub fn is_master_enabled(self) -> (r: bool)
        ensures
            r == (self.0 & 0x1u32 != 0),
    {
        self.0 & 0x1u32 != 0
    }
    /// Enable slave mode.
    pub fn enable_slave(self) -> (r: Self)
        ensures
            r.0 == self.0 | 0x2u32,
    {
        Config(self.0 | 0x2u32)
    }
    /// Disable slave mode.
    pub fn disable_slave(self) -> (r: Self)
        ensures
            r.0 == self.0 & !0x2u32,
    {
        Config(self.0 & !0x2u32)
    }
    /// Check if slave mode is enabled.
    pub fn is_slave_enabled(self) -> (r: bool)
        ensures
            r == (self.0 & 0x2u32 != 0),
    {
        self.0 & 0x2u32 != 0
    }
    /// Set data frame size.
    pub fn set_frame_size(self, val: FrameSize) -> (r: Self)
        ensures
            r.0 == (self.0 & !0xcu32) | (val.spec_code() << 2),
    {
        Config((self.0 & !0xcu32) | (val.code() << 2))
    }
    /// Get data frame size.
    pub fn frame_size(self) -> (r: FrameSize)
        ensures
            r == FrameSize::spec_from_code((self.0 & 0xcu32) >> 2),
    {
        FrameSize::from_code((self.0 & 0xcu32) >> 2)
    }
    /// Set clock polarity.
    pub fn set_clock_polarity(self, val: Polarity) -> (r: Self)
        ensures
            val is IdleLow ==> r.0 == self.0 & !0x10u32,
            val is IdleHigh ==> r.0 == self.0 | 0x10u32,
    {
        match val {
            Polarity::IdleLow => Config(self.0 & !0x10u32),
            Polarity::IdleHigh => Config(self.0 | 0x10u32),
        }
    }
    /// Get clock polarity.
    pub fn clock_polarity(self) -> (r: Polarity)
        ensures
            r == (if self.0 & 0x10u32 != 0 {
                Polarity::IdleHigh
            } else {
                Polarity::IdleLow
            }),
    {
        if self.0 & 0x10u32 != 0 {
            Polarity::IdleHigh
        } else {
            Polarity::IdleLow
        }
    }
    /// Set clock phase.
    pub fn set_clock_phase(self, val: Phase) -> (r: Self)
        ensures
            val is CaptureOnSecondTransition ==> r.0 == self.0 & !0x20u32,
            val is CaptureOnFirstTransition ==> r.0 == self.0 | 0x20u32,
    {
        match val {
            Phase::CaptureOnSecondTransition => Config(self.0 & !0x20u32),
            Phase::CaptureOnFirstTransition => Config(self.0 | 0x20u32),
        }
    }
    /// Get clock phase.
    pub fn clock_phase(self) -> (r: Phase)
        ensures
            r == (if self.0 & 0x20u32 != 0 {
                Phase::CaptureOnFirstTransition
            } else {
                Phase::CaptureOnSecondTransition
            }),
    {
        if self.0 & 0x20u32 != 0 {
            Phase::CaptureOnFirstTransition
        } else {
            Phase::CaptureOnSecondTransition
        }
    }
    /// Enable bit inverse.
    pub fn enable_bit_inverse(self) -> (r: Self)
        ensures
            r.0 == self.0 | 0x40u32,
    {
        Config(self.0 | 0x40u32)
    }
    /// Disable bit inverse.
    pub fn disable_bit_inverse(self) -> (r: Self)
        ensures
            r.0 == self.0 & !0x40u32,
    {
        Config(self.0 & !0x40u32)
    }
    /// Check if bit inverse is enabled.
    pub fn is_bit_inverse_enabled(self) -> (r: bool)
        ensures
            r == (self.0 & 0x40u32 != 0),
    {
        self.0 & 0x40u32 != 0
    }
    /// Enable byte inverse.
    pub fn enable_byte_inverse(self) -> (r: Self)
        ensures
            r.0 == self.0 | 0x80u32,
    {
        Config(self.0 | 0x80u32)
    }
    /// Disable byte inverse.
    pub fn disable_byte_inverse(self) -> (r: Self)
        ensures
            r.0 == self.0 & !0x80u32,
    {
        Config(self.0 & !0x80u32)
    }
    /// Check if byte inverse is enabled.
    pub fn is_byte_inverse_enabled(self) -> (r: bool)
        ensures
            r == (self.0 & 0x80u32 != 0),
    {
        self.0 & 0x80u32 != 0
    }
    /// Enable receive ignore feature.
    pub fn enable_receive_ignore(self) -> (r: Self)
        ensures
            r.0 == self.0 | 0x100u32,
    {
        Config(self.0 | 0x100u32)
    }
    /// Disable receive ignore feature.
    pub fn disable_receive_ignore(self) -> (r: Self)
        ensures
            r.0 == self.0 & !0x100u32,
    {
        Config(self.0 & !0x100u32)
    }
    /// Check if receive ignore feature is enabled.
    pub fn is_receive_ignore_enabled(self) -> (r: bool)
        ensures
            r == (self.0 & 0x100u32 != 0),
    {
        self.0 & 0x100u32 != 0
    }
    /// Enable master continuous mode.
    pub fn enable_master_continuous(self) -> (r: Self)
        ensures
            r.0 == self.0 | 0x200u32,
    {
        Config(self.0 | 0x200u32)
    }
    /// Disable master continuous mode.
    pub fn disable_master_continuous(self) -> (r: Self)
        ensures
            r.0 == self.0 & !0x200u32,
    {
        Config(self.0 & !0x200u32)
    }
    /// Check if master continuous mode is enabled.
    pub fn is_master_continuous_enabled(self) -> (r: bool)
        ensures
            r == (self.0 & 0x200u32 != 0),
    {
        self.0 & 0x200u32 != 0
    }
    /// Enable slave three-pin mode.
    pub fn enable_slave_three_pin(self) -> (r: Self)
        ensures
            r.0 == self.0 | 0x400u32,
    {
        Config(self.0 | 0x400u32)
    }
    /// Disable slave three-pin mode.
    pub fn disable_slave_three_pin(self) -> (r: Self)
        ensures
            r.0 == self.0 & !0x400u32,
    {
        Config(self.0 & !0x400u32)
    }
    /// Check if slave three-pin mode is enabled.
    pub fn is_slave_three_pin_enabled(self) -> (r: bool)
        ensures
            r == (self.0 & 0x400u32 != 0),
    {
        self.0 & 0x400u32 != 0
    }
    /// Enable deglitch.
    pub fn enable_deglitch(self) -> (r: Self)
        ensures
            r.0 == self.0 | 0x800u32,
    {
        Config(self.0 | 0x800u32)
    }
    /// Disable deglitch.
    pub fn disable_deglitch(self) -> (r: Self)
        ensures
            r.0 == self.0 & !0x800u32,
    {
        Config(self.0 & !0x800u32)
    }
    /// Check if deglitch is enabled.
    pub fn is_deglitch_enabled(self) -> (r: bool)
        ensures
            r == (self.0 & 0x800u32 != 0),
    {
        self.0 & 0x800u32 != 0
    }
    /// Set deglitch cycle count.
    pub fn set_deglitch_cycle(self, val: u8) -> (r: Self)
        ensures
            r.0 == (self.0 & !0xf000u32) | ((val as u32) << 12),
    {
        Config((self.0 & !0xf000u32) | ((val as u32) << 12))
    }
    /// Get deglitch cycle count.
    pub fn deglitch_cycle(self) -> (r: u8)
        ensures
            r == ((self.0 & 0xf000u32) >> 12) as u8,
    {
        ((self.0 & 0xf000u32) >> 12) as u8
    }
}

impl Default for Config {
    /// The reset value of the configuration register is all-zero.
    fn default() -> (r: Self)
        ensures
            r.0 == 0,
    {
        Config(0)
    }
}

/// Data frame size in bits.
#[derive(Clone, Copy, Debug, PartialEq, Eq, Hash, Structural)]
pub enum FrameSize {
    /// 1 byte (8 bits) per frame.
    Eight,
    /// 2 bytes (16 bits) per frame.
    Sixteen,
    /// 3 bytes (24 bits) per frame.
    TwentyFour,
    /// 4 bytes (32 bits) per frame.
    ThirtyTwo,
}

impl FrameSize {
    /// Field encoding of this frame size.
    pub open spec fn spec_code(self) -> u32 {
        match self {
            FrameSize::Eight => 0,
            FrameSize::Sixteen => 1,
            FrameSize::TwentyFour => 2,
            FrameSize::ThirtyTwo => 3,
        }
    }

    /// Frame size denoted by a two-bit field value.
    pub open spec fn spec_from_code(code: u32) -> FrameSize {
        if code == 0 {
            FrameSize::Eight
        } else if code == 1 {
            FrameSize::Sixteen
        } else if code == 2 {
            FrameSize::TwentyFour
        } else {
            FrameSize::ThirtyTwo
        }
    }

    /// Field encoding of this frame size.
    pub fn code(self) -> (r: u32)
        ensures
            r == self.spec_code(),
    {
        match self {
            FrameSize::Eight => 0,
            FrameSize::Sixteen => 1,
            FrameSize::TwentyFour => 2,
            FrameSize::ThirtyTwo => 3,
        }
    }

    /// Frame size denoted by a two-bit field value.
    pub fn from_code(code: u32) -> (r: FrameSize)
        ensures
            r == Self::spec_from_code(code),
    {
        if code == 0 {
            FrameSize::Eight
        } else if code == 1 {
            FrameSize::Sixteen
        } else if code == 2 {
            FrameSize::TwentyFour
        } else {
            FrameSize::ThirtyTwo
        }
    }
}

/// Clock polarity settings.
#[derive(Clone, Copy, Debug, PartialEq, Eq, Hash, Structural)]
pub enum Polarity {
    /// Clock signal low when idle.
    IdleLow,
    /// Clock signal high when idle.
    IdleHigh,
}

/// Clock phase settings.
#[derive(Clone, Copy, Debug, PartialEq, Eq, Hash, Structural)]
pub enum Phase {
    /// Data in "captured" on the second clock transition.
    CaptureOnSecondTransition,
    /// Data in "captured" on the first clock transition.
    CaptureOnFirstTransition,
}

/// Bus busy state indication register.
#[derive(Clone, Copy, Debug, PartialEq, Eq, Hash, Structural)]
pub struct BusBusy(pub u32);

impl BusBusy {
    /// Check if the bus is busy.
    pub fn is_bus_busy(&self) -> (r: bool)
        ensures
            r == (self.0 & 0x1u32 != 0),
    {
        self.0 & 0x1u32 != 0
    }
}

/// Interrupt configuration and state register.
///
/// Bits 0..=5 hold the interrupt state, bits 8..=13 the mask, bits 16..=21
/// the write-to-clear strobes and bits 24..=29 the enables, one bit per
/// interrupt source in the order of [`Interrupt`].
#[derive(Clone, Copy, Debug, PartialEq, Eq, Hash, Structural)]
pub struct InterruptConfig(pub u32);

impl InterruptConfig {
    /// Check if interrupt flag is set.
    pub fn has_interrupt(self, val: Interrupt) -> (r: bool)
        ensures
            r == (self.0 & (1u32 << val.spec_code()) != 0),
    {
        (self.0 & (1u32 << val.code())) != 0
    }
    /// Set interrupt mask.
    pub fn mask_interrupt(self, val: Interrupt) -> (r: Self)
        ensures
            r.0 == self.0 | (1u32 << (val.spec_code() + 8)),
    {
        InterruptConfig(self.0 | (1u32 << (val.code() + 8)))
    }
    /// Clear interrupt mask.
    pub fn unmask_interrupt(self, val: Interrupt) -> (r: Self)
        ensures
            r.0 == self.0 & !(1u32 << (val.spec_code() + 8)),
    {
        InterruptConfig(self.0 & !(1u32 << (val.code() + 8)))
    }
    /// Check if interrupt is masked.
    pub fn is_interrupted(self, val: Interrupt) -> (r: bool)
        ensures
            r == (self.0 & (1u32 << (val.spec_code() + 8)) != 0),
    {
        (self.0 & (1u32 << (val.code() + 8))) != 0
    }
    /// Clear interrupt flag.
    ///
    /// Note that `TransmitFifoReady`, `ReceiveFifoReady` and `FifoError`
    /// interrupts are auto-cleared when certain queue flags in other
    /// registers are cleared. This function cannot clear those three
    /// interrupts.
    pub fn clear_interrupt(self, val: Interrupt) -> (r: Self)
        ensures
            r.0 == self.0 | (1u32 << (val.spec_code() + 16)),
    {
        InterruptConfig(self.0 | (1u32 << (val.code() + 16)))
    }
    /// Enable interrupt.
    pub fn enable_interrupt(self, val: Interrupt) -> (r: Self)
        ensures
            r.0 == self.0 | (1u32 << (val.spec_code() + 24)),
    {
        InterruptConfig(self.0 | (1u32 << (val.code() + 24)))
    }
    /// Disable interrupt.
    pub fn disable_interrupt(self, val: Interrupt) -> (r: Self)
        ensures
            r.0 == self.0 & !(1u32 << (val.spec_code() + 24)),
    {
        InterruptConfig(self.0 & !(1u32 << (val.code() + 24)))
    }
    /// Check if interrupt is enabled.
    pub fn is_interrupt_enabled(self, val: Interrupt) -> (r: bool)
        ensures
            r == (self.0 & (1u32 << (val.spec_code() + 24)) != 0),
    {
        (self.0 & (1u32 << (val.code() + 24))) != 0
    }
}

/// Interrupt event.
#[derive(Clone, Copy, Debug, PartialEq, Eq, Hash, Structural)]
pub enum Interrupt {
    /// Transfer end interrupt.
    ///
    /// On master mode, this is triggered when the final frame is transferred.
    /// On slave mode, triggered when Chip Select (CS) signal is deasserted.
    TransferEnd,
    /// Transmit first-in first-out queue ready interrupt.
    ///
    /// This interrupt flag is auto cleared when data is popped.
    TransmitFifoReady,
    /// Receive first-in first-out queue ready interrupt.
    ///
    /// This interrupt flag is auto cleared when data is pushed.
    ReceiveFifoReady,
    /// Slave mode transfer timeout interrupt.
    ///
    /// Triggered when bus is idle for given time, see `SlaveTimeout` structure.
    SlaveTimeout,
    /// Slave mode transfer underrun error.
    ///
    /// Triggered when transmit queue is not ready during transfer in slave mode.
    SlaveUnderrun,
    /// Transmit or receive first-in first-out queue error interrupt.
    ///
    /// Auto cleared when queue overflow or underflow error flag is cleared.
    FifoError,
}

impl Interrupt {
    /// Bit position of this interrupt source within each eight-bit group.
    pub open spec fn spec_code(self) -> u32 {
        match self {
            Interrupt::TransferEnd => 0,
            Interrupt::TransmitFifoReady => 1,
            Interrupt::ReceiveFifoReady => 2,
            Interrupt::SlaveTimeout => 3,
            Interrupt::SlaveUnderrun => 4,
            Interrupt::FifoError => 5,
        }
    }

    /// Bit position of this interrupt source within each eight-bit group.
    pub fn code(self) -> (r: u32)
        ensures
            r == self.spec_code(),
            r <= 5,
    {
        match self {
            Interrupt::TransferEnd => 0,
            Interrupt::TransmitFifoReady => 1,
            Interrupt::ReceiveFifoReady => 2,
            Interrupt::SlaveTimeout => 3,
            Interrupt::SlaveUnderrun => 4,
            Interrupt::FifoError => 5,
        }
    }
}

/// Duration of data phases and conditions in source clock.
#[derive(Clone, Copy, Debug, PartialEq, Eq, Hash, Structural)]
pub struct PeriodSignal(pub u32);

impl PeriodSignal {
    /// Set start condition clock length.
    pub fn set_start_condition(self, val: u8) -> (r: Self)
        ensures
            r.0 == (self.0 & !0xffu32) | (val as u32),
    {
        PeriodSignal((self.0 & !0xffu32) | (val as u32))
    }
    /// Get start condition clock length.
    pub fn start_condition(self) -> (r: u8)
        ensures
            r == (self.0 & 0xffu32) as u8,
    {
        (self.0 & 0xffu32) as u8
    }
    /// Set stop condition clock length.
    pub fn set_stop_condition(self, val: u8) -> (r: Self)
        ensures
            r.0 == (self.0 & !0xff00u32) | ((val as u32) << 8),
    {
        PeriodSignal((self.0 & !0xff00u32) | ((val as u32) << 8))
    }
    /// Get stop condition clock length.
    pub fn stop_condition(self) -> (r: u8)
        ensures
            r == ((self.0 & 0xff00u32) >> 8) as u8,
    {
        ((self.0 & 0xff00u32) >> 8) as u8
    }
    /// Set data phase 0 clock length.
    pub fn set_data_phase_0(self, val: u8) -> (r: Self)
        ensures
            r.0 == (self.0 & !0xff0000u32) | ((val as u32) << 16),
    {
        PeriodSignal((self.0 & !0xff0000u32) | ((val as u32) << 16))
    }
    /// Get data phase 0 clock length.
    pub fn data_phase_0(self) -> (r: u8)
        ensures
            r == ((self.0 & 0xff0000u32) >> 16) as u8,
    {
        ((self.0 & 0xff0000u32) >> 16) as u8
    }
    /// Set data phase 1 clock length.
    pub fn set_data_phase_1(self, val: u8) -> (r: Self)
        ensures
            r.0 == (self.0 & !0xff000000u32) | ((val as u32) << 24),
    {
        PeriodSignal((self.0 & !0xff000000u32) | ((val as u32) << 24))
    }
    /// Get data phase 1 clock length.
    pub fn data_phase_1(self) -> (r: u8)
        ensures
            r == ((self.0 & 0xff000000u32) >> 24) as u8,
    {
        ((self.0 & 0xff000000u32) >> 24) as u8
    }
}

impl Default for PeriodSignal {
    /// The reset value of the period signal register is all-zero.
    fn default() -> (r: Self)
        ensures
            r.0 == 0,
    {
        PeriodSignal(0)
    }
}

/// Duration of interval between frames in source clock.
#[derive(Clone, Copy, Debug, PartialEq, Eq, Hash, Structural)]
pub struct PeriodInterval(pub u32);

impl PeriodInterval {
    /// Set frame interval.
    pub fn set_frame_interval(self, val: u8) -> (r: Self)
        ensures
            r.0 == (self.0 & !0xffu32) | (val as u32),
    {
        PeriodInterval((self.0 & !0xffu32) | (val as u32))
    }
    /// Get frame interval.
    pub fn frame_interval(self) -> (r: u8)
        ensures
            r == (self.0 & 0xffu32) as u8,
    {
        (self.0 & 0xffu32) as u8
    }
}

impl Default for PeriodInterval {
    /// The reset value of the period interval register is all-zero.
    fn default() -> (r: Self)
        ensures
            r.0 == 0,
    {
        PeriodInterval(0)
    }
}

/// Receive ignore feature configuration register.
#[derive(Clone, Copy, Debug, PartialEq, Eq, Hash, Structural)]
pub struct ReceiveIgnore(pub u32);

impl ReceiveIgnore {
    /// Set stop point for ignore function.
    pub fn set_stop_point(self, val: u8) -> (r: Self)
        ensures
            r.0 == (self.0 & !0x1fu32) | ((val as u32) & 0x1fu32),
    {
        ReceiveIgnore((self.0 & !0x1fu32) | ((val as u32) & 0x1fu32))
    }
    /// Get stop point for ignore function.
    pub fn stop_point(self) -> (r: u8)
        ensures
            r == (self.0 & 0x1fu32) as u8,
    {
        (self.0 & 0x1fu32) as u8
    }
    /// Set start point for ignore function.
    pub fn set_start_point(self, val: u8) -> (r: Self)
        ensures
            r.0 == (self.0 & !0x1f0000u32) | (((val as u32) << 16) & 0x1f0000u32),
    {
        ReceiveIgnore((self.0 & !0x1f0000u32) | (((val as u32) << 16) & 0x1f0000u32))
    }
    /// Get start point for ignore function.
    pub fn start_point(self) -> (r: u8)
        ensures
            r == ((self.0 & 0x1f0000u32) >> 16) as u8,
    {
        ((self.0 & 0x1f0000u32) >> 16) as u8
    }
}

/// Slave mode time-out interrupt trigger configuration.
#[derive(Clone, Copy, Debug, PartialEq, Eq, Hash, Structural)]
pub struct SlaveTimeout(pub u32);

impl SlaveTimeout {
    /// Set timeout threshold.
    pub fn set_threshold(self, val: u16) -> (r: Self)
        ensures
            r.0 == (self.0 & !0xfffu32) | ((val as u32) & 0xfffu32),
    {
        SlaveTimeout((self.0 & !0xfffu32) | ((val as u32) & 0xfffu32))
    }
    /// Get timeout threshold.
    pub fn threshold(self) -> (r: u16)
        ensures
            r == (self.0 & 0xfffu32) as u16,
    {
        (self.0 & 0xfffu32) as u16
    }
}

/// First-in first-out queue configuration register 0.
#[derive(Clone, Copy, Debug, PartialEq, Eq, Structural)]
pub struct FifoConfig0(pub u32);

impl FifoConfig0 {
    /// Enable DMA transmit feature.
    pub fn enable_dma_transmit(self) -> (r: Self)
        ensures
            r.0 == self.0 | 0x1u32,
    {
        FifoConfig0(self.0 | 0x1u32)
    }
    /// Disable DMA transmit feature.
    pub fn disable_dma_transmit(self) -> (r: Self)
        ensures
            r.0 == self.0 & !0x1u32,
    {
        FifoConfig0(self.0 & !0x1u32)
    }
    /// Check if DMA transmit feature is enabled.
    pub fn is_dma_transmit_enabled(self) -> (r: bool)
        ensures
            r == (self.0 & 0x1u32 != 0),
    {
        self.0 & 0x1u32 != 0
    }
    /// Enable DMA receive feature.
    pub fn enable_dma_receive(self) -> (r: Self)
        ensures
            r.0 == self.0 | 0x2u32,
    {
        FifoConfig0(self.0 | 0x2u32)
    }
    /// Disable DMA receive feature.
    pub fn disable_dma_receive(self) -> (r: Self)
        ensures
            r.0 == self.0 & !0x2u32,
    {
        FifoConfig0(self.0 & !0x2u32)
    }
    /// Check if DMA receive feature is enabled.
    pub fn is_dma_receive_enabled(self) -> (r: bool)
        ensures
            r == (self.0 & 0x2u32 != 0),
    {
        self.0 & 0x2u32 != 0
    }
    /// Clear transmit first-in first-out queue.
    pub fn clear_transmit_fifo(self) -> (r: Self)
        ensures
            r.0 == self.0 | 0x4u32,
    {
        FifoConfig0(self.0 | 0x4u32)
    }
    /// Clear receive first-in first-out queue.
    pub fn clear_receive_fifo(self) -> (r: Self)
        ensures
            r.0 == self.0 | 0x8u32,
    {
        FifoConfig0(self.0 | 0x8u32)
    }
    /// Check if transmit first-in first-out queue has overflowed.
    pub fn is_transmit_overflow(self) -> (r: bool)
        ensures
            r == (self.0 & 0x10u32 != 0),
    {
        self.0 & 0x10u32 != 0
    }
    /// Check if transmit first-in first-out queue has underflowed.
    pub fn is_transmit_underflow(self) -> (r: bool)
        ensures
            r == (self.0 & 0x20u32 != 0),
    {
        self.0 & 0x20u32 != 0
    }
    /// Check if receive first-in first-out queue has overflowed.
    pub fn is_receive_overflow(self) -> (r: bool)
        ensures
            r == (self.0 & 0x40u32 != 0),
    {
        self.0 & 0x40u32 != 0
    }
    /// Check if receive first-in first-out queue has underflowed.
    pub fn is_receive_underflow(self) -> (r: bool)
        ensures
            r == (self.0 & 0x80u32 != 0),
    {
        self.0 & 0x80u32 != 0
    }
}

impl Default for FifoConfig0 {
    /// The reset value of the queue configuration register 0 is all-zero.
    fn default() -> (r: Self)
        ensures
            r.0 == 0,
    {
        FifoConfig0(0)
    }
}

/// First-in first-out queue configuration register 1.
#[derive(Clone, Copy, Debug, PartialEq, Eq, Hash, Structural)]
pub struct FifoConfig1(pub u32);

impl FifoConfig1 {
    /// Get number of empty spaces remained in transmit FIFO queue.
    pub fn transmit_available_bytes(self) -> (r: u8)
        ensures
            r == (self.0 & 0x3fu32) as u8,
    {
        (self.0 & 0x3fu32) as u8
    }
    /// Get number of available bytes received in receive FIFO queue.
    pub fn receive_available_bytes(self) -> (r: u8)
        ensures
            r == ((self.0 & 0x3f00u32) >> 8) as u8,
    {
        ((self.0 & 0x3f00u32) >> 8) as u8
    }
    /// Set transmit FIFO threshold.
    pub fn set_transmit_threshold(self, val: u8) -> (r: Self)
        ensures
            r.0 == (self.0 & !0x1f0000u32) | (((val as u32) << 16) & 0x1f0000u32),
    {
        FifoConfig1((self.0 & !0x1f0000u32) | (((val as u32) << 16) & 0x1f0000u32))
    }
    /// Get transmit FIFO threshold.
    pub fn transmit_threshold(self) -> (r: u8)
        ensures
            r == ((self.0 & 0x1f0000u32) >> 16) as u8,
    {
        ((self.0 & 0x1f0000u32) >> 16) as u8
    }
    /// Set receive FIFO threshold.
    pub fn set_receive_threshold(self, val: u8) -> (r: Self)
        ensures
            r.0 == (self.0 & !0x1f000000u32) | (((val as u32) << 24) & 0x1f000000u32),
    {
        FifoConfig1((self.0 & !0x1f000000u32) | (((val as u32) << 24) & 0x1f000000u32))
    }
    /// Get receive FIFO threshold.
    pub fn receive_threshold(self) -> (r: u8)
        ensures
            r == ((self.0 & 0x1f000000u32) >> 24) as u8,
    {
        ((self.0 & 0x1f000000u32) >> 24) as u8
    }
}

impl Default for FifoConfig1 {
    /// The reset value of the queue configuration register 1 is all-zero.
    fn default() -> (r: Self)
        ensures
            r.0 == 0,
    {
        FifoConfig1(0)
    }
}

} // verus!
