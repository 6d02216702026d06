//! ROM bootloading header of the BL616 chip family.

use vstd::prelude::*;

use crate::soc::{crc32_iso_hdlc, crc32_iso_hdlc_checksum, HalBasicConfig, HalFlashConfig,
    HalPatchCfg};

verus! {

/// Full ROM bootloading header.
pub struct HalBootheader {
    /// Magic number of the header.
    pub magic: u32,
    /// Header revision.
    pub revision: u32,
    /// Flash controller parameters.
    pub flash_cfg: HalFlashConfig,
    /// Clock configuration.
    pub clk_cfg: HalPllConfig,
    /// Basic image configuration.
    pub basic_cfg: HalBasicConfig,
    /// Processor core configuration.
    pub cpu_cfg: HalCpuCfg,
    /// Address of partition table 0.
    pub boot2_pt_table_0: u32,
    /// Address of partition table 1.
    pub boot2_pt_table_1: u32,
    /// Address of flashcfg table list.
    pub flash_cfg_table_addr: u32,
    /// Flashcfg table list length.
    pub flash_cfg_table_len: u32,
    /// Patches applied when reading flash.
    pub patch_on_read: [HalPatchCfg; 3],
    /// Patches applied on the jump and run stage.
    pub patch_on_jump: [HalPatchCfg; 3],
    /// Reserved words.
    pub _reserved: [u32; 1],
    /// Checksum over the rest of the header.
    pub crc32: u32,
}

/// Size, in bytes, of [`HalBootheader`] in the ROM image.
pub const BOOTHEADER_SIZE: usize = 0x100;

/// Byte offset of the `magic` field in the header.
pub const BOOTHEADER_MAGIC_OFFSET: usize = 0x00;
/// Byte offset of the `revision` field in the header.
pub const BOOTHEADER_REVISION_OFFSET: usize = 0x04;
/// Byte offset of the `flash_cfg` field in the header.
pub const BOOTHEADER_FLASH_CFG_OFFSET: usize = 0x08;
/// Byte offset of the `clk_cfg` field in the header.
pub const BOOTHEADER_CLK_CFG_OFFSET: usize = 0x64;
/// Byte offset of the `basic_cfg` field in the header.
pub const BOOTHEADER_BASIC_CFG_OFFSET: usize = 0x78;
/// Byte offset of the `cpu_cfg` field in the header.
pub const BOOTHEADER_CPU_CFG_OFFSET: usize = 0xa8;
/// Byte offset of the `boot2_pt_table_0` field in the header.
pub const BOOTHEADER_BOOT2_PT_TABLE_0_OFFSET: usize = 0xb8;
/// Byte offset of the `boot2_pt_table_1` field in the header.
pub const BOOTHEADER_BOOT2_PT_TABLE_1_OFFSET: usize = 0xbc;
/// Byte offset of the `flash_cfg_table_addr` field in the header.
pub const BOOTHEADER_FLASH_CFG_TABLE_ADDR_OFFSET: usize = 0xc0;
/// Byte offset of the `flash_cfg_table_len` field in the header.
pub const BOOTHEADER_FLASH_CFG_TABLE_LEN_OFFSET: usize = 0xc4;
/// Byte offset of the `patch_on_read` field in the header.
pub const BOOTHEADER_PATCH_ON_READ_OFFSET: usize = 0xc8;
/// Byte offset of the `patch_on_jump` field in the header.
pub const BOOTHEADER_PATCH_ON_JUMP_OFFSET: usize = 0xe0;
/// Byte offset of the `crc32` field in the header.
pub const BOOTHEADER_CRC32_OFFSET: usize = 0xfc;

/// Hardware system clock configuration.
#[derive(Clone, Copy, Debug, PartialEq, Eq, Structural)]
pub struct HalSysClkConfig {
    /// Crystal oscillator type.
    pub xtal_type: u8,
    /// Processor clock source.
    pub mcu_clk: u8,
    /// Processor clock divider.
    pub mcu_clk_div: u8,
    /// Processor bus clock divider.
    pub mcu_bclk_div: u8,
    /// Processor peripheral bus clock divider.
    pub mcu_pbclk_div: u8,
    /// External memory interface clock source.
    pub emi_clk: u8,
    /// External memory interface clock divider.
    pub emi_clk_div: u8,
    /// Flash clock source.
    pub flash_clk_type: u8,
    /// Flash clock divider.
    pub flash_clk_div: u8,
    /// Wi-Fi phase-locked loop power-up.
    pub wifipll_pu: u8,
    /// Audio phase-locked loop power-up.
    pub aupll_pu: u8,
    /// Reserved byte.
    pub rsvd0: u8,
}

/// Size, in bytes, of [`HalSysClkConfig`] in the ROM image.
pub const SYS_CLK_CONFIG_SIZE: usize = 12;

/// Byte offset of the `xtal_type` field in the clock configuration.
pub const SYS_CLK_XTAL_TYPE_OFFSET: usize = 0x00;
/// Byte offset of the `mcu_clk` field in the clock configuration.
pub const SYS_CLK_MCU_CLK_OFFSET: usize = 0x01;
/// Byte offset of the `mcu_clk_div` field in the clock configuration.
pub const SYS_CLK_MCU_CLK_DIV_OFFSET: usize = 0x02;
/// Byte offset of the `mcu_bclk_div` field in the clock configuration.
pub const SYS_CLK_MCU_BCLK_DIV_OFFSET: usize = 0x03;
/// Byte offset of the `mcu_pbclk_div` field in the clock configuration.
pub const SYS_CLK_MCU_PBCLK_DIV_OFFSET: usize = 0x04;
/// Byte offset of the `emi_clk` field in the clock configuration.
pub const SYS_CLK_EMI_CLK_OFFSET: usize = 0x05;
/// Byte offset of the `emi_clk_div` field in the clock configuration.
pub const SYS_CLK_EMI_CLK_DIV_OFFSET: usize = 0x06;
/// Byte offset of the `flash_clk_type` field in the clock configuration.
pub const SYS_CLK_FLASH_CLK_TYPE_OFFSET: usize = 0x07;
/// Byte offset of the `flash_clk_div` field in the clock configuration.
pub const SYS_CLK_FLASH_CLK_DIV_OFFSET: usize = 0x08;
/// Byte offset of the `wifipll_pu` field in the clock configuration.
pub const SYS_CLK_WIFIPLL_PU_OFFSET: usize = 0x09;
/// Byte offset of the `aupll_pu` field in the clock configuration.
pub const SYS_CLK_AUPLL_PU_OFFSET: usize = 0x0a;
/// Byte offset of the `rsvd0` field in the clock configuration.
pub const SYS_CLK_RSVD0_OFFSET: usize = 0x0b;

impl HalSysClkConfig {
    /// The bytes of this configuration in ROM image order.
    pub open spec fn spec_bytes(self) -> Seq<u8> {
        seq![
            self.xtal_type,
            self.mcu_clk,
            self.mcu_clk_div,
            self.mcu_bclk_div,
            self.mcu_pbclk_div,
            self.emi_clk,
            self.emi_clk_div,
            self.flash_clk_type,
            self.flash_clk_div,
            self.wifipll_pu,
            self.aupll_pu,
            self.rsvd0,
        ]
    }

    /// Checksum over the bytes of this configuration.
    pub fn crc32(&self) -> (r: u32)
        ensures
            r == crc32_iso_hdlc(self.spec_bytes()),
    {
        let mut buf: Vec<u8> = Vec::new();

        buf.push(self.xtal_type);
        buf.push(self.mcu_clk);
        buf.push(self.mcu_clk_div);
        buf.push(self.mcu_bclk_div);

        buf.push(self.mcu_pbclk_div);
        buf.push(self.emi_clk);
        buf.push(self.emi_clk_div);
        buf.push(self.flash_clk_type);
        buf.push(self.flash_clk_div);
        buf.push(self.wifipll_pu);

        buf.push(self.aupll_pu);
        buf.push(self.rsvd0);

        proof {
            assert(buf@ =~= self.spec_bytes());
        }
        crc32_iso_hdlc_checksum(&buf)
    }
}

/// Clock configuration in ROM header.
#[derive(Clone, Copy, Debug, PartialEq, Eq, Structural)]
pub struct HalPllConfig {
    /// Magic number of the clock configuration.
    pub magic: u32,
    /// The clock configuration itself.
    pub cfg: HalSysClkConfig,
    /// Checksum over the bytes of `cfg`.
    pub crc32: u32,
}

/// Size, in bytes, of [`HalPllConfig`] in the ROM image.
pub const PLL_CONFIG_SIZE: usize = 0x14;

/// Byte offset of the `magic` field in the clock configuration block.
pub const PLL_CONFIG_MAGIC_OFFSET: usize = 0x00;
/// Byte offset of the `cfg` field in the clock configuration block.
pub const PLL_CONFIG_CFG_OFFSET: usize = 0x04;
/// Byte offset of the `crc32` field in the clock configuration block.
pub const PLL_CONFIG_CRC32_OFFSET: usize = 0x10;

impl HalPllConfig {
    /// Create this structure with the magic number and checksum filled
    /// in.
    pub fn new(cfg: HalSysClkConfig) -> (r: Self)
        ensures
            r.magic == 0x47464350,
            r.cfg == cfg,
            r.crc32 == crc32_iso_hdlc(cfg.spec_bytes()),
    {
        let crc32 = cfg.crc32();
        HalPllConfig { magic: 0x47464350, cfg, crc32 }
    }
}

/// Processor core configuration in ROM header.
#[derive(Clone, Copy, Debug, PartialEq, Eq, Structural)]
pub struct HalCpuCfg {
    /// Config this cpu.
    pub config_enable: u8,
    /// Halt this cpu.
    pub halt_cpu: u8,
    /// Cache setting.
    pub cache_flags: u8,
    /// Reserved byte.
    pub _rsvd: u8,
    /// Image address on flash.
    pub image_address_offset: u32,
    /// Reserved word.
    pub _rsvd1: u32,
    /// Msp value.
    pub msp_val: u32,
}

} // verus!
