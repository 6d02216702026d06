use bouffalo_hal::uart::{BitPeriod, Parity, ReceiveConfig, StopBits, TransmitConfig, WordLength};
use bouffalo_hal::uart::{
    BIT_PERIOD_OFFSET, BUS_STATE_OFFSET, DATA_CONFIG_OFFSET, FIFO_CONFIG_0_OFFSET,
    FIFO_CONFIG_1_OFFSET, FIFO_READ_OFFSET, FIFO_WRITE_OFFSET, INTERRUPT_CLEAR_OFFSET,
    INTERRUPT_ENABLE_OFFSET, INTERRUPT_MASK_OFFSET, INTERRUPT_STATE_OFFSET,
    RECEIVE_CONFIG_OFFSET, TRANSMIT_CONFIG_OFFSET,
};

#[test]
fn uart_struct_register_block_offset() {
    assert_eq!(TRANSMIT_CONFIG_OFFSET, 0x0);
    assert_eq!(RECEIVE_CONFIG_OFFSET, 0x4);
    assert_eq!(BIT_PERIOD_OFFSET, 0x08);
    assert_eq!(DATA_CONFIG_OFFSET, 0x0c);
    assert_eq!(INTERRUPT_STATE_OFFSET, 0x20);
    assert_eq!(INTERRUPT_MASK_OFFSET, 0x24);
    assert_eq!(INTERRUPT_CLEAR_OFFSET, 0x28);
    assert_eq!(INTERRUPT_ENABLE_OFFSET, 0x2c);
    assert_eq!(BUS_STATE_OFFSET, 0x30);
    assert_eq!(FIFO_CONFIG_0_OFFSET, 0x80);
    assert_eq!(FIFO_CONFIG_1_OFFSET, 0x84);
    assert_eq!(FIFO_WRITE_OFFSET, 0x88);
    assert_eq!(FIFO_READ_OFFSET, 0x8c);
}

#[test]
fn struct_transmit_config_functions() {
    let mut val: TransmitConfig = TransmitConfig(0x0);

    val = val.enable_txd();
    assert_eq!(val.0, 0x00000001);
    assert!(val.is_txd_enabled());
    val = val.disable_txd();
    assert_eq!(val.0, 0x00000000);
    assert!(!val.is_txd_enabled());

    val = val.enable_cts();
    assert_eq!(val.0, 0x00000002);
    assert!(val.is_cts_enabled());
    val = val.disable_cts();
    assert_eq!(val.0, 0x00000000);
    assert!(!val.is_cts_enabled());

    val = val.enable_freerun();
    assert_eq!(val.0, 0x00000004);
    assert!(val.is_freerun_enabled());
    val = val.disable_freerun();
    assert_eq!(val.0, 0x00000000);
    assert!(!val.is_freerun_enabled());

    val = val.enable_lin_transmit();
    assert_eq!(val.0, 0x00000008);
    assert!(val.is_lin_transmit_enabled());
    val = val.disable_lin_transmit();
    assert_eq!(val.0, 0x00000000);
    assert!(!val.is_lin_transmit_enabled());

    val = val.set_parity(Parity::Even);
    assert_eq!(val.0, 0x00000010);
    assert_eq!(val.parity(), Parity::Even);
    val = val.set_parity(Parity::Odd);
    assert_eq!(val.0, 0x00000030);
    assert_eq!(val.parity(), Parity::Odd);
    val = val.set_parity(Parity::NoParity);
    assert_eq!(val.0 & 0x00000010, 0x00000000);
    assert_eq!(val.parity(), Parity::NoParity);

    val = TransmitConfig(0x0);

    val = val.enable_ir_transmit();
    assert_eq!(val.0, 0x00000040);
    assert!(val.is_ir_transmit_enabled());
    val = val.disable_ir_transmit();
    assert_eq!(val.0, 0x00000000);
    assert!(!val.is_ir_transmit_enabled());

    val = val.enable_ir_inverse();
    assert_eq!(val.0, 0x00000080);
    assert!(val.is_ir_inverse_enabled());
    val = val.disable_ir_inverse();
    assert_eq!(val.0, 0x00000000);
    assert!(!val.is_ir_inverse_enabled());

    val = val.set_word_length(WordLength::Five);
    assert_eq!(val.0, 0x00000400);
    assert_eq!(val.word_length(), WordLength::Five);
    val = val.set_word_length(WordLength::Six);
    assert_eq!(val.0, 0x00000500);
    assert_eq!(val.word_length(), WordLength::Six);
    val = val.set_word_length(WordLength::Seven);
    assert_eq!(val.0, 0x00000600);
    assert_eq!(val.word_length(), WordLength::Seven);
    val = val.set_word_length(WordLength::Eight);
    assert_eq!(val.0, 0x00000700);
    assert_eq!(val.word_length(), WordLength::Eight);

    val = TransmitConfig(0x0);

    val = val.set_stop_bits(StopBits::Two);
    assert_eq!(val.0, 0x00001800);
    assert_eq!(val.stop_bits(), StopBits::Two);
    val = val.set_stop_bits(StopBits::OnePointFive);
    assert_eq!(val.0, 0x00001000);
    assert_eq!(val.stop_bits(), StopBits::OnePointFive);
    val = val.set_stop_bits(StopBits::One);
    assert_eq!(val.0, 0x00000800);
    assert_eq!(val.stop_bits(), StopBits::One);
    val = val.set_stop_bits(StopBits::ZeroPointFive);
    assert_eq!(val.0, 0x00000000);
    assert_eq!(val.stop_bits(), StopBits::ZeroPointFive);

    for num in 0..=7 {
        val = val.set_lin_break_bits(num);
        assert_eq!(val.0, (num as u32) << 13);
        assert_eq!(val.lin_break_bits(), num);
    }

    val = TransmitConfig(0x0);

    for length in [0x0000, 0x1234, 0xabcd, 0xffff] {
        val = val.set_transfer_length(length);
        assert_eq!(val.0, (length as u32) << 16);
        assert_eq!(val.transfer_length(), length);
    }

    let default = TransmitConfig::default();
    assert_eq!(default.transfer_length(), 0);
    assert_eq!(default.lin_break_bits(), 4);
    assert_eq!(default.stop_bits(), StopBits::One);
    assert_eq!(default.word_length(), WordLength::Eight);
    assert!(!default.is_ir_inverse_enabled());
    assert!(!default.is_ir_transmit_enabled());
    assert_eq!(default.parity(), Parity::NoParity);
    assert!(!default.is_lin_transmit_enabled());
    assert!(!default.is_freerun_enabled());
    assert!(!default.is_cts_enabled());
    assert!(!default.is_txd_enabled());
}

#[test]
fn struct_bit_period_functions() {
    let mut val: BitPeriod = BitPeriod(0x0);

    for trans in [0x0000, 0x1037, 0xabcd, 0xffff] {
        val = val.set_transmit_time_interval(trans);
        assert_eq!(val.0, trans as u32);
        assert_eq!(val.transmit_time_interval(), trans);
    }

    val = BitPeriod(0x0);

    for recv in [0x0000, 0x1037, 0xabcd, 0xffff] {
        val = val.set_receive_time_interval(recv);
        assert_eq!(val.0, (recv as u32) << 16);
        assert_eq!(val.receive_time_interval(), recv);
    }
}

#[test]
fn struct_receive_config_functions() {
    let mut val: ReceiveConfig = ReceiveConfig(0x0);

    val = val.enable_rxd();
    assert_eq!(val.0, 0x00000001);
    assert!(val.is_rxd_enabled());
    val = val.disable_rxd();
    assert_eq!(val.0, 0x00000000);
    assert!(!val.is_rxd_enabled());

    val = val.enable_auto_baudrate();
    assert_eq!(val.0, 0x00000002);
    assert!(val.is_auto_baudrate_enabled());
    val = val.disable_auto_baudrate();
    assert_eq!(val.0, 0x00000000);
    assert!(!val.is_auto_baudrate_enabled());

    val = val.enable_lin_receive();
    assert_eq!(val.0, 0x00000008);
    assert!(val.is_lin_receive_enabled());
    val = val.disable_lin_receive();
    assert_eq!(val.0, 0x00000000);
    assert!(!val.is_lin_receive_enabled());

    val = val.set_parity(Parity::Even);
    assert_eq!(val.0, 0x00000010);
    assert_eq!(val.parity(), Parity::Even);
    val = val.set_parity(Parity::Odd);
    assert_eq!(val.0, 0x00000030);
    assert_eq!(val.parity(), Parity::Odd);
    val = val.set_parity(Parity::NoParity);
    assert_eq!(val.0 & 0x00000010, 0x00000000);
    assert_eq!(val.parity(), Parity::NoParity);

    val = ReceiveConfig(0x0);

    val = val.enable_ir_receive();
    assert_eq!(val.0, 0x00000040);
    assert!(val.is_ir_receive_enabled());
    val = val.disable_ir_receive();
    assert_eq!(val.0, 0x00000000);
    assert!(!val.is_ir_receive_enabled());

    val = val.enable_ir_inverse();
    assert_eq!(val.0, 0x00000080);
    assert!(val.is_ir_inverse_enabled());
    val = val.disable_ir_inverse();
    assert_eq!(val.0, 0x00000000);
    assert!(!val.is_ir_inverse_enabled());

    val = val.set_word_length(WordLength::Five);
    assert_eq!(val.0, 0x00000400);
    assert_eq!(val.word_length(), WordLength::Five);
    val = val.set_word_length(WordLength::Six);
    assert_eq!(val.0, 0x00000500);
    assert_eq!(val.word_length(), WordLength::Six);
    val = val.set_word_length(WordLength::Seven);
    assert_eq!(val.0, 0x00000600);
    assert_eq!(val.word_length(), WordLength::Seven);
    val = val.set_word_length(WordLength::Eight);
    assert_eq!(val.0, 0x00000700);
    assert_eq!(val.word_length(), WordLength::Eight);

    val = ReceiveConfig(0x0);

    val = val.enable_deglitch();
    assert_eq!(val.0, 0x00000800);
    assert!(val.is_deglitch_enabled());
    val = val.disable_deglitch();
    assert_eq!(val.0, 0x00000000);
    assert!(!val.is_deglitch_enabled());

    for num in 0..=7 {
        val = val.set_deglitch_cycles(num);
        assert_eq!(val.0, (num as u32) << 12);
        assert_eq!(val.deglitch_cycles(), num);
    }

    val = ReceiveConfig(0x0);

    for length in [0x0000, 0x1234, 0xabcd, 0xffff] {
        val = val.set_transfer_length(length);
        assert_eq!(val.0, (length as u32) << 16);
        assert_eq!(val.transfer_length(), length);
    }
}
