//! Direct Memory Access peripheral addresses.

use vstd::prelude::*;

verus! {

/// DMA peripheral data register address definition.
///
/// Each variant names the data register of one peripheral that a DMA
/// channel can serve; [`DmaAddr::address`] gives the bus address.
#[derive(Clone, Copy, Debug, PartialEq, Eq, Hash, Structural)]
pub enum DmaAddr {
    /// Transmit data register of UART 0.
    Uart0Tx,
    /// Receive data register of UART 0.
    Uart0Rx,
    /// Transmit data register of UART 1.
    Uart1Tx,
    /// Receive data register of UART 1.
    Uart1Rx,
    /// Transmit data register of UART 2.
    Uart2Tx,
    /// Receive data register of UART 2.
    Uart2Rx,
    /// Transmit data register of UART 3.
    Uart3Tx,
    /// Receive data register of UART 3.
    Uart3Rx,
    /// Transmit data register of I2C 0.
    I2c0Tx,
    /// Receive data register of I2C 0.
    I2c0Rx,
    /// Transmit data register of I2C 1.
    I2c1Tx,
    /// Receive data register of I2C 1.
    I2c1Rx,
    /// Transmit data register of I2C 2.
    I2c2Tx,
    /// Receive data register of I2C 2.
    I2c2Rx,
    /// Transmit data register of I2C 3.
    I2c3Tx,
    /// Receive data register of I2C 3.
    I2c3Rx,
    /// Transmit data register of SPI 0.
    Spi0Tx,
    /// Receive data register of SPI 0.
    Spi0Rx,
    /// Transmit data register of SPI 1.
    Spi1Tx,
    /// Receive data register of SPI 1.
    Spi1Rx,
    /// Transmit data register of the I2S controller.
    I2sTx,
    /// Receive data register of the I2S controller.
    I2sRx,
    /// Receive data register of the analog-to-digital converter.
    AdcRx,
    /// Transmit data register of the digital-to-analog converter.
    DacTx,
    /// Transmit data register of the infrared transmitter.
    IrTx,
    /// Transmit data register of the wake-on output.
    WoTx,
}

impl DmaAddr {
    /// Bus address of this data register.
    pub open spec fn spec_address(self) -> u32 {
        match self {
            DmaAddr::Uart0Tx => 0x2000A088,
            DmaAddr::Uart0Rx => 0x2000A08C,
            DmaAddr::Uart1Tx => 0x2000A188,
            DmaAddr::Uart1Rx => 0x2000A18C,
            DmaAddr::Uart2Tx => 0x2000AA88,
            DmaAddr::Uart2Rx => 0x2000AA8C,
            DmaAddr::Uart3Tx => 0x30002088,
            DmaAddr::Uart3Rx => 0x3000208C,
            DmaAddr::I2c0Tx => 0x2000A388,
            DmaAddr::I2c0Rx => 0x2000A38C,
            DmaAddr::I2c1Tx => 0x2000A988,
            DmaAddr::I2c1Rx => 0x2000A98C,
            DmaAddr::I2c2Tx => 0x30003088,
            DmaAddr::I2c2Rx => 0x3000308C,
            DmaAddr::I2c3Tx => 0x30004088,
            DmaAddr::I2c3Rx => 0x3000408C,
            DmaAddr::Spi0Tx => 0x2000A288,
            DmaAddr::Spi0Rx => 0x2000A28C,
            DmaAddr::Spi1Tx => 0x30008088,
            DmaAddr::Spi1Rx => 0x3000808C,
            DmaAddr::I2sTx => 0x2000AB88,
            DmaAddr::I2sRx => 0x2000AB8C,
            DmaAddr::AdcRx => 0x20002004,
            DmaAddr::DacTx => 0x20002048,
            DmaAddr::IrTx => 0x2000A688,
            DmaAddr::WoTx => 0x20000B04,
        }
    }

    /// Bus address of this data register.
    pub fn address(self) -> (r: u32)
        ensures
            r == self.spec_address(),
    {
        match self {
            DmaAddr::Uart0Tx => 0x2000A088,
            DmaAddr::Uart0Rx => 0x2000A08C,
            DmaAddr::Uart1Tx => 0x2000A188,
            DmaAddr::Uart1Rx => 0x2000A18C,
            DmaAddr::Uart2Tx => 0x2000AA88,
            DmaAddr::Uart2Rx => 0x2000AA8C,
            DmaAddr::Uart3Tx => 0x30002088,
            DmaAddr::Uart3Rx => 0x3000208C,
            DmaAddr::I2c0Tx => 0x2000A388,
            DmaAddr::I2c0Rx => 0x2000A38C,
            DmaAddr::I2c1Tx => 0x2000A988,
            DmaAddr::I2c1Rx => 0x2000A98C,
            DmaAddr::I2c2Tx => 0x30003088,
            DmaAddr::I2c2Rx => 0x3000308C,
            DmaAddr::I2c3Tx => 0x30004088,
            DmaAddr::I2c3Rx => 0x3000408C,
            DmaAddr::Spi0Tx => 0x2000A288,
            DmaAddr::Spi0Rx => 0x2000A28C,
            DmaAddr::Spi1Tx => 0x30008088,
            DmaAddr::Spi1Rx => 0x3000808C,
            DmaAddr::I2sTx => 0x2000AB88,
            DmaAddr::I2sRx => 0x2000AB8C,
            DmaAddr::AdcRx => 0x20002004,
            DmaAddr::DacTx => 0x20002048,
            DmaAddr::IrTx => 0x2000A688,
            DmaAddr::WoTx => 0x20000B04,
        }
    }
}

} // verus!
