use bouffalo_hal::soc::{bl616, bl702, bl808};

#[test]
fn image_header_struct_lengths() {
    assert_eq!(bl616::PLL_CONFIG_SIZE, 0x14);
    assert_eq!(bl616::BOOTHEADER_SIZE, 0x100);
    assert_eq!(bl702::PLL_CONFIG_SIZE, 0x10);
    assert_eq!(bl702::BOOTHEADER_SIZE, 0xB0);
    assert_eq!(bl702::BASIC_CONFIG_SIZE, 0x30);
}

#[test]
fn image_header_struct_hal_bootheader_offset() {
    assert_eq!(bl616::BOOTHEADER_MAGIC_OFFSET, 0x00);
    assert_eq!(bl616::BOOTHEADER_REVISION_OFFSET, 0x04);
    assert_eq!(bl616::BOOTHEADER_FLASH_CFG_OFFSET, 0x08);
    assert_eq!(bl616::BOOTHEADER_CLK_CFG_OFFSET, 0x64);
    assert_eq!(bl616::BOOTHEADER_BASIC_CFG_OFFSET, 0x78);
    assert_eq!(bl616::BOOTHEADER_CPU_CFG_OFFSET, 0xa8);
    assert_eq!(bl616::BOOTHEADER_BOOT2_PT_TABLE_0_OFFSET, 0xb8);
    assert_eq!(bl616::BOOTHEADER_BOOT2_PT_TABLE_1_OFFSET, 0xbc);
    assert_eq!(bl616::BOOTHEADER_FLASH_CFG_TABLE_ADDR_OFFSET, 0xc0);
    assert_eq!(bl616::BOOTHEADER_FLASH_CFG_TABLE_LEN_OFFSET, 0xc4);
    assert_eq!(bl616::BOOTHEADER_PATCH_ON_READ_OFFSET, 0xc8);
    assert_eq!(bl616::BOOTHEADER_PATCH_ON_JUMP_OFFSET, 0xe0);
    assert_eq!(bl616::BOOTHEADER_CRC32_OFFSET, 0xfc);
    assert_eq!(bl702::BOOTHEADER_MAGIC_OFFSET, 0x00);
    assert_eq!(bl702::BOOTHEADER_REVISION_OFFSET, 0x04);
    assert_eq!(bl702::BOOTHEADER_FLASH_CFG_OFFSET, 0x08);
    assert_eq!(bl702::BOOTHEADER_CLK_CFG_OFFSET, 0x64);
    assert_eq!(bl702::BOOTHEADER_BASIC_CFG_OFFSET, 0x74);
    assert_eq!(bl702::BOOTHEADER_CRC32_OFFSET, 0xac);
}

#[test]
fn image_header_struct_hal_sys_clk_config_offset() {
    assert_eq!(bl616::SYS_CLK_XTAL_TYPE_OFFSET, 0x00);
    assert_eq!(bl616::SYS_CLK_MCU_CLK_OFFSET, 0x01);
    assert_eq!(bl616::SYS_CLK_MCU_CLK_DIV_OFFSET, 0x02);
    assert_eq!(bl616::SYS_CLK_MCU_BCLK_DIV_OFFSET, 0x03);
    assert_eq!(bl616::SYS_CLK_MCU_PBCLK_DIV_OFFSET, 0x04);
    assert_eq!(bl616::SYS_CLK_EMI_CLK_OFFSET, 0x05);
    assert_eq!(bl616::SYS_CLK_EMI_CLK_DIV_OFFSET, 0x06);
    assert_eq!(bl616::SYS_CLK_FLASH_CLK_TYPE_OFFSET, 0x07);
    assert_eq!(bl616::SYS_CLK_FLASH_CLK_DIV_OFFSET, 0x08);
    assert_eq!(bl616::SYS_CLK_WIFIPLL_PU_OFFSET, 0x09);
    assert_eq!(bl616::SYS_CLK_AUPLL_PU_OFFSET, 0x0a);
    assert_eq!(bl616::SYS_CLK_RSVD0_OFFSET, 0x0b);
    assert_eq!(bl702::SYS_CLK_XTAL_TYPE_OFFSET, 0x00);
    assert_eq!(bl702::SYS_CLK_PLL_CLK_OFFSET, 0x01);
    assert_eq!(bl702::SYS_CLK_HCLK_DIV_OFFSET, 0x02);
    assert_eq!(bl702::SYS_CLK_BCLK_DIV_OFFSET, 0x03);
    assert_eq!(bl702::SYS_CLK_FLASH_CLK_TYPE_OFFSET, 0x04);
    assert_eq!(bl702::SYS_CLK_FLASH_CLK_DIV_OFFSET, 0x05);
    assert_eq!(bl702::SYS_CLK_RESERVED_OFFSET, 0x06);
}

#[test]
fn image_header_struct_hal_pll_config_offset() {
    assert_eq!(bl616::PLL_CONFIG_MAGIC_OFFSET, 0x00);
    assert_eq!(bl616::PLL_CONFIG_CFG_OFFSET, 0x04);
    assert_eq!(bl616::PLL_CONFIG_CRC32_OFFSET, 0x10);
    assert_eq!(bl702::PLL_CONFIG_MAGIC_OFFSET, 0x00);
    assert_eq!(bl702::PLL_CONFIG_CFG_OFFSET, 0x04);
    assert_eq!(bl702::PLL_CONFIG_CRC32_OFFSET, 0x0c);
}

#[test]
fn image_header_magic_crc32_hal_pll_config() {
    let bl616_sys_clk_config = bl616::HalSysClkConfig {
        xtal_type: 7,
        mcu_clk: 5,
        mcu_clk_div: 0,
        mcu_bclk_div: 0,
        mcu_pbclk_div: 3,
        emi_clk: 2,
        emi_clk_div: 1,
        flash_clk_type: 1,
        flash_clk_div: 0,
        wifipll_pu: 1,
        aupll_pu: 1,
        rsvd0: 0,
    };
    let bl616_config = bl616::HalPllConfig::new(bl616_sys_clk_config);
    assert_eq!(bl616_config.magic, 0x47464350);
    assert_eq!(bl616_config.crc32, 0x89EF340B);

    let bl702_sys_clk_config = bl702::HalSysClkConfig {
        xtal_type: 0x1,
        pll_clk: 0x4,
        hclk_div: 0,
        bclk_div: 0x1,
        flash_clk_type: 0x1,
        flash_clk_div: 0,
        _reserved: [0, 0],
    };
    let bl702_config = bl702::HalPllConfig::new(bl702_sys_clk_config);
    assert_eq!(bl702_config.magic, 0x47464350);
    assert_eq!(bl702_config.crc32, 0xD81BB531);
}

#[test]
fn firmware_header_struct_lengths() {
    assert_eq!(bl808::PLL_CONFIG_SIZE, 28);
    assert_eq!(bl808::BOOTHEADER_SIZE, 352);
}

#[test]
fn firmware_header_struct_hal_bootheader_offset() {
    assert_eq!(bl808::BOOTHEADER_MAGIC_OFFSET, 0x00);
    assert_eq!(bl808::BOOTHEADER_REVISION_OFFSET, 0x04);
    assert_eq!(bl808::BOOTHEADER_FLASH_CFG_OFFSET, 0x08);
    assert_eq!(bl808::BOOTHEADER_CLK_CFG_OFFSET, 0x64);
    assert_eq!(bl808::BOOTHEADER_BASIC_CFG_OFFSET, 0x80);
    assert_eq!(bl808::BOOTHEADER_CPU_CFG_OFFSET, 0xb0);
    assert_eq!(bl808::BOOTHEADER_BOOT2_PT_TABLE_0_OFFSET, 0xf8);
    assert_eq!(bl808::BOOTHEADER_BOOT2_PT_TABLE_1_OFFSET, 0xfc);
    assert_eq!(bl808::BOOTHEADER_FLASH_CFG_TABLE_ADDR_OFFSET, 0x100);
    assert_eq!(bl808::BOOTHEADER_FLASH_CFG_TABLE_LEN_OFFSET, 0x104);
    assert_eq!(bl808::BOOTHEADER_PATCH_ON_READ_OFFSET, 0x108);
    assert_eq!(bl808::BOOTHEADER_PATCH_ON_JUMP_OFFSET, 0x128);
    assert_eq!(bl808::BOOTHEADER_CRC32_OFFSET, 0x15c);
}

#[test]
fn firmware_header_struct_hal_sys_clk_config_offset() {
    assert_eq!(bl808::SYS_CLK_XTAL_TYPE_OFFSET, 0x00);
    assert_eq!(bl808::SYS_CLK_MCU_CLK_OFFSET, 0x01);
    assert_eq!(bl808::SYS_CLK_MCU_CLK_DIV_OFFSET, 0x02);
    assert_eq!(bl808::SYS_CLK_MCU_BCLK_DIV_OFFSET, 0x03);
    assert_eq!(bl808::SYS_CLK_MCU_PBCLK_DIV_OFFSET, 0x04);
    assert_eq!(bl808::SYS_CLK_LP_DIV_OFFSET, 0x05);
    assert_eq!(bl808::SYS_CLK_DSP_CLK_OFFSET, 0x06);
    assert_eq!(bl808::SYS_CLK_DSP_CLK_DIV_OFFSET, 0x07);
    assert_eq!(bl808::SYS_CLK_DSP_BCLK_DIV_OFFSET, 0x08);
    assert_eq!(bl808::SYS_CLK_DSP_PBCLK_OFFSET, 0x9);
    assert_eq!(bl808::SYS_CLK_DSP_PBCLK_DIV_OFFSET, 0x0a);
    assert_eq!(bl808::SYS_CLK_EMI_CLK_OFFSET, 0x0b);
    assert_eq!(bl808::SYS_CLK_EMI_CLK_DIV_OFFSET, 0x0c);
    assert_eq!(bl808::SYS_CLK_FLASH_CLK_TYPE_OFFSET, 0x0d);
    assert_eq!(bl808::SYS_CLK_FLASH_CLK_DIV_OFFSET, 0x0e);
    assert_eq!(bl808::SYS_CLK_WIFIPLL_PU_OFFSET, 0x0f);
    assert_eq!(bl808::SYS_CLK_AUPLL_PU_OFFSET, 0x10);
    assert_eq!(bl808::SYS_CLK_CPUPLL_PU_OFFSET, 0x11);
    assert_eq!(bl808::SYS_CLK_MIPIPLL_PU_OFFSET, 0x12);
    assert_eq!(bl808::SYS_CLK_UHSPLL_PU_OFFSET, 0x13);
}

#[test]
fn firmware_header_struct_hal_pll_config_offset() {
    assert_eq!(bl808::PLL_CONFIG_MAGIC_OFFSET, 0x00);
    assert_eq!(bl808::PLL_CONFIG_CFG_OFFSET, 0x04);
    assert_eq!(bl808::PLL_CONFIG_CRC32_OFFSET, 0x18);
}

#[test]
fn struct_hal_cpu_cfg_offset() {
    assert_eq!(bl808::CPU_CFG_CONFIG_ENABLE_OFFSET, 0x00);
    assert_eq!(bl808::CPU_CFG_HALT_CPU_OFFSET, 0x01);
    assert_eq!(bl808::CPU_CFG_CACHE_FLAGS_OFFSET, 0x02);
    assert_eq!(bl808::CPU_CFG_CACHE_RANGE_H_OFFSET, 0x04);
    assert_eq!(bl808::CPU_CFG_CACHE_RANGE_L_OFFSET, 0x08);
    assert_eq!(bl808::CPU_CFG_IMAGE_ADDRESS_OFFSET_OFFSET, 0x0c);
    assert_eq!(bl808::CPU_CFG_BOOT_ENTRY_OFFSET, 0x10);
    assert_eq!(bl808::CPU_CFG_MSP_VAL_OFFSET, 0x14);
}

#[test]
fn firmware_header_magic_crc32_hal_pll_config() {
    let test_sys_clk_config = bl808::HalSysClkConfig {
        xtal_type: 7,
        mcu_clk: 4,
        mcu_clk_div: 0,
        mcu_bclk_div: 0,
        mcu_pbclk_div: 3,
        lp_div: 1,
        dsp_clk: 3,
        dsp_clk_div: 0,
        dsp_bclk_div: 1,
        dsp_pbclk: 2,
        dsp_pbclk_div: 0,
        emi_clk: 2,
        emi_clk_div: 1,
        flash_clk_type: 1,
        flash_clk_div: 0,
        wifipll_pu: 1,
        aupll_pu: 1,
        cpupll_pu: 1,
        mipipll_pu: 1,
        uhspll_pu: 1,
    };
    let test_config = bl808::HalPllConfig::new(test_sys_clk_config);
    assert_eq!(test_config.magic, 0x47464350);
    assert_eq!(test_config.crc32, 0x864b890a);
}

#[test]
fn disabled_cpu_configuration() {
    let cfg = bl808::HalCpuCfg::disabled();
    assert_eq!(cfg.config_enable, 0);
    assert_eq!(cfg.halt_cpu, 0);
    assert_eq!(cfg.boot_entry, 0x58000000);
    assert_eq!(cfg.msp_val, 0);
}
