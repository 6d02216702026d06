use bouffalo_hal::clocks::Clocks;
use bouffalo_hal::glb::v2::RegisterBlock;
use bouffalo_hal::gpio::{MmUart, Pad, Pads as GpioPads, Uart};
use bouffalo_hal::uart::{
    Config, MuxCts, MuxRts, MuxRxd, MuxTxd, Pads, Serial, UartMux, UartMuxes,
};

type TxdOnly = (Pad<0, Uart>, UartMux<0, MuxTxd<0>>);

type TxdRxd = ((Pad<14, Uart>, UartMux<2, MuxTxd<0>>), (Pad<15, Uart>, UartMux<3, MuxRxd<0>>));

type TxdCts = ((Pad<14, Uart>, UartMux<2, MuxTxd<0>>), (Pad<15, Uart>, UartMux<3, MuxCts<0>>));

type FullQuad = (
    (Pad<0, Uart>, UartMux<0, MuxTxd<0>>),
    (Pad<1, Uart>, UartMux<1, MuxRxd<0>>),
    (Pad<2, Uart>, UartMux<2, MuxRts<0>>),
    (Pad<3, Uart>, UartMux<3, MuxCts<0>>),
);

#[test]
fn txd_only_capability_tuple() {
    assert_eq!(<TxdOnly as Pads<0>>::rts(), false);
    assert_eq!(<TxdOnly as Pads<0>>::cts(), false);
    assert_eq!(<TxdOnly as Pads<0>>::txd(), true);
    assert_eq!(<TxdOnly as Pads<0>>::rxd(), false);
}

#[test]
fn txd_rxd_capability_tuple() {
    assert_eq!(<TxdRxd as Pads<0>>::rts(), false);
    assert_eq!(<TxdRxd as Pads<0>>::cts(), false);
    assert_eq!(<TxdRxd as Pads<0>>::txd(), true);
    assert_eq!(<TxdRxd as Pads<0>>::rxd(), true);
}

#[test]
fn txd_cts_capability_tuple() {
    assert_eq!(<TxdCts as Pads<0>>::rts(), false);
    assert_eq!(<TxdCts as Pads<0>>::cts(), true);
    assert_eq!(<TxdCts as Pads<0>>::txd(), true);
    assert_eq!(<TxdCts as Pads<0>>::rxd(), false);
}

#[test]
fn full_quad_capability_tuple() {
    assert_eq!(<FullQuad as Pads<0>>::rts(), true);
    assert_eq!(<FullQuad as Pads<0>>::cts(), true);
    assert_eq!(<FullQuad as Pads<0>>::txd(), true);
    assert_eq!(<FullQuad as Pads<0>>::rxd(), true);
}

#[test]
fn mm_uart_capability_from_index() {
    assert_eq!(<Pad<20, MmUart> as Pads<0>>::txd(), true);
    assert_eq!(<Pad<20, MmUart> as Pads<0>>::rxd(), false);
    assert_eq!(<Pad<21, MmUart> as Pads<0>>::rxd(), true);
    assert_eq!(<Pad<22, MmUart> as Pads<0>>::rts(), true);
    assert_eq!(<Pad<23, MmUart> as Pads<0>>::cts(), true);
    assert_eq!(<(Pad<20, MmUart>, Pad<21, MmUart>) as Pads<0>>::txd(), true);
    assert_eq!(<(Pad<20, MmUart>, Pad<21, MmUart>) as Pads<0>>::rxd(), true);
    assert_eq!(<(Pad<20, MmUart>, Pad<21, MmUart>) as Pads<0>>::rts(), false);
    assert_eq!(<(Pad<20, MmUart>, Pad<21, MmUart>) as Pads<0>>::cts(), false);
}

#[test]
fn uart_pad_configuration_value() {
    let mut glb = RegisterBlock::new();
    let pads = GpioPads::new();
    let _tx = pads.io14.into_uart(&mut glb);
    // Input and output enabled, schmitt on, pull up, function-select 7.
    assert_eq!(glb.gpio_config[14].0, 0x0753);
    // Every other pin is untouched.
    assert_eq!(glb.gpio_config[13].0, 0);
    assert_eq!(glb.gpio_config[15].0, 0);
}

#[test]
fn uart_mux_routes_signal() {
    let mut glb = RegisterBlock::new();
    let muxes = UartMuxes::new();
    let _sig2 = muxes.sig2.into_transmit::<0>(&mut glb);
    // Signal 2 sits in group 0, bits 8..=11; transmit of UART 0 is code 2.
    assert_eq!(glb.uart_mux_group[0].0, 0x200);
    assert_eq!(glb.uart_mux_group[0].signal_code(2), 2);
    let _sig3 = muxes.sig3.into_receive::<1>(&mut glb);
    // Receive of UART 1 is code 7, in bits 12..=15.
    assert_eq!(glb.uart_mux_group[0].0, 0x7200);
}

#[test]
fn end_to_end_two_pin_uart() {
    let mut glb = RegisterBlock::new();
    let pads = GpioPads::new();
    let muxes = UartMuxes::new();

    // Configure pin 14 as transmit and pin 15 as receive.
    let tx_pad = pads.io14.into_uart(&mut glb);
    let rx_pad = pads.io15.into_uart(&mut glb);
    let tx_sig = muxes.sig2.into_transmit::<0>(&mut glb);
    let rx_sig = muxes.sig3.into_receive::<0>(&mut glb);
    let uart_pads = ((tx_pad, tx_sig), (rx_pad, rx_sig));

    // The derived capability tuple is (false, false, true, true).
    assert_eq!(<TxdRxd as Pads<0>>::rts(), false);
    assert_eq!(<TxdRxd as Pads<0>>::cts(), false);
    assert_eq!(<TxdRxd as Pads<0>>::txd(), true);
    assert_eq!(<TxdRxd as Pads<0>>::rxd(), true);

    let clocks = Clocks { uart_clock_hz: 80_000_000 };
    let config = Config::default();
    let uart = bouffalo_hal::uart::RegisterBlock::new();
    let serial = Serial::freerun::<0>(uart, config, uart_pads, &clocks);

    // Each half exposes only its own direction's registers. That the
    // transmit half has no receive operations (and the other way round)
    // is a compile-time property of the half types.
    let (tx_half, rx_half) = serial.split::<0>();
    assert!(tx_half.transmit_config().is_txd_enabled());
    assert!(!tx_half.transmit_config().is_cts_enabled());
    assert!(tx_half.transmit_config().is_freerun_enabled());
    assert!(rx_half.receive_config().is_rxd_enabled());
}

#[test]
fn freerun_configures_bit_period() {
    let mut glb = RegisterBlock::new();
    let pads = GpioPads::new();
    let muxes = UartMuxes::new();
    let tx_pad = pads.io0.into_uart(&mut glb);
    let tx_sig = muxes.sig0.into_transmit::<0>(&mut glb);

    let clocks = Clocks { uart_clock_hz: 80_000_000 };
    let config = Config::default();
    let uart = bouffalo_hal::uart::RegisterBlock::new();
    let serial = Serial::freerun::<0>(uart, config, (tx_pad, tx_sig), &clocks);
    let (uart, _pads) = serial.free();

    // 80 MHz divided by 115200 baud gives an interval of 694 clocks.
    assert_eq!(uart.bit_period.transmit_time_interval(), 694);
    assert_eq!(uart.bit_period.receive_time_interval(), 694);
    // Transmit is enabled, Clear-to-Send is not; receive stays disabled.
    assert!(uart.transmit_config.is_txd_enabled());
    assert!(!uart.transmit_config.is_cts_enabled());
    assert!(uart.transmit_config.is_freerun_enabled());
    assert!(!uart.receive_config.is_rxd_enabled());
}
