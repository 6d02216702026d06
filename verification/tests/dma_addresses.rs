use bouffalo_hal::dma::DmaAddr;

#[test]
fn dma_peripheral_addresses() {
    assert_eq!(DmaAddr::Uart0Tx.address(), 0x2000A000 + 0x88);
    assert_eq!(DmaAddr::Uart0Rx.address(), 0x2000A000 + 0x8C);
    assert_eq!(DmaAddr::Uart3Tx.address(), 0x30002000 + 0x88);
    assert_eq!(DmaAddr::I2c0Tx.address(), 0x2000A300 + 0x88);
    assert_eq!(DmaAddr::I2c3Rx.address(), 0x30004000 + 0x8C);
    assert_eq!(DmaAddr::Spi0Tx.address(), 0x2000A200 + 0x88);
    assert_eq!(DmaAddr::Spi1Rx.address(), 0x30008000 + 0x8C);
    assert_eq!(DmaAddr::I2sTx.address(), 0x2000AB00 + 0x88);
    assert_eq!(DmaAddr::AdcRx.address(), 0x20002000 + 0x04);
    assert_eq!(DmaAddr::DacTx.address(), 0x20002000 + 0x48);
    assert_eq!(DmaAddr::IrTx.address(), 0x2000A600 + 0x88);
    assert_eq!(DmaAddr::WoTx.address(), 0x20000000 + 0xB04);
}
