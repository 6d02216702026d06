//! ROM bootloading header of the BL702 chip family.

use vstd::prelude::*;

use crate::soc::{crc32_iso_hdlc, crc32_iso_hdlc_checksum, HalFlashConfig};

verus! {

/// Full ROM bootloading header.
pub struct HalBootheader {
    /// Magic number of the header.
    pub magic: u32,
    /// Header revision.
    pub revision: u32,
    /// Flash controller parameters.
    pub flash_cfg: HalFlashConfig,
    /// Clock configuration.
    pub clk_cfg: HalPllConfig,
    /// Basic image configuration.
    pub basic_cfg: HalBasicConfig,
    /// Reserved words.
    pub _reserved: [u32; 2],
    /// Checksum over the rest of the header.
    pub crc32: u32,
}

/// Size, in bytes, of [`HalBootheader`] in the ROM image.
pub const BOOTHEADER_SIZE: usize = 0xb0;

/// Byte offset of the `magic` field in the header.
pub const BOOTHEADER_MAGIC_OFFSET: usize = 0x00;
/// Byte offset of the `revision` field in the header.
pub const BOOTHEADER_REVISION_OFFSET: usize = 0x04;
/// Byte offset of the `flash_cfg` field in the header.
pub const BOOTHEADER_FLASH_CFG_OFFSET: usize = 0x08;
/// Byte offset of the `clk_cfg` field in the header.
pub const BOOTHEADER_CLK_CFG_OFFSET: usize = 0x64;
/// Byte offset of the `basic_cfg` field in the header.
pub const BOOTHEADER_BASIC_CFG_OFFSET: usize = 0x74;
/// Byte offset of the `crc32` field in the header.
pub const BOOTHEADER_CRC32_OFFSET: usize = 0xac;

/// Hardware system clock configuration.
#[derive(Clone, Copy, Debug)]
pub struct HalSysClkConfig {
    /// Crystal oscillator type.
    pub xtal_type: u8,
    /// Phase-locked loop output selection.
    pub pll_clk: u8,
    /// Processor clock divider.
    pub hclk_div: u8,
    /// Bus clock divider.
    pub bclk_div: u8,
    /// Flash clock source.
    pub flash_clk_type: u8,
    /// Flash clock divider.
    pub flash_clk_div: u8,
    /// Reserved bytes.
    pub _reserved: [u8; 2],
}

/// Size, in bytes, of [`HalSysClkConfig`] in the ROM image.
pub const SYS_CLK_CONFIG_SIZE: usize = 8;

/// Byte offset of the `xtal_type` field in the clock configuration.
pub const SYS_CLK_XTAL_TYPE_OFFSET: usize = 0x00;
/// Byte offset of the `pll_clk` field in the clock configuration.
pub const SYS_CLK_PLL_CLK_OFFSET: usize = 0x01;
/// Byte offset of the `hclk_div` field in the clock configuration.
pub const SYS_CLK_HCLK_DIV_OFFSET: usize = 0x02;
/// Byte offset of the `bclk_div` field in the clock configuration.
pub const SYS_CLK_BCLK_DIV_OFFSET: usize = 0x03;
/// Byte offset of the `flash_clk_type` field in the clock configuration.
pub const SYS_CLK_FLASH_CLK_TYPE_OFFSET: usize = 0x04;
/// Byte offset of the `flash_clk_div` field in the clock configuration.
pub const SYS_CLK_FLASH_CLK_DIV_OFFSET: usize = 0x05;
/// Byte offset of the `_reserved` field in the clock configuration.
pub const SYS_CLK_RESERVED_OFFSET: usize = 0x06;

impl HalSysClkConfig {
    /// The bytes of this configuration in ROM image order.
    pub open spec fn spec_bytes(self) -> Seq<u8> {
        seq![
            self.xtal_type,
            self.pll_clk,
            self.hclk_div,
            self.bclk_div,
            self.flash_clk_type,
            self.flash_clk_div,
            self._reserved@[0],
            self._reserved@[1],
        ]
    }

    /// Checksum over the bytes of this configuration.
    pub fn crc32(&self) -> (r: u32)
        ensures
            r == crc32_iso_hdlc(self.spec_bytes()),
    {
        let mut buf: Vec<u8> = Vec::new();

        buf.push(self.xtal_type);
        buf.push(self.pll_clk);
        buf.push(self.hclk_div);
        buf.push(self.bclk_div);

        buf.push(self.flash_clk_type);
        buf.push(self.flash_clk_div);
        buf.push(self._reserved[0]);
        buf.push(self._reserved[1]);

        proof {
            assert(buf@ =~= self.spec_bytes());
        }
        crc32_iso_hdlc_checksum(&buf)
    }
}

/// Clock configuration in ROM header.
#[derive(Clone, Copy, Debug)]
pub struct HalPllConfig {
    /// Magic number of the clock configuration.
    pub magic: u32,
    /// The clock configuration itself.
    pub cfg: HalSysClkConfig,
    /// Checksum over the bytes of `cfg`.
    pub crc32: u32,
}

/// Size, in bytes, of [`HalPllConfig`] in the ROM image.
pub const PLL_CONFIG_SIZE: usize = 0x10;

/// Byte offset of the `magic` field in the clock configuration block.
pub const PLL_CONFIG_MAGIC_OFFSET: usize = 0x00;
/// Byte offset of the `cfg` field in the clock configuration block.
pub const PLL_CONFIG_CFG_OFFSET: usize = 0x04;
/// Byte offset of the `crc32` field in the clock configuration block.
pub const PLL_CONFIG_CRC32_OFFSET: usize = 0x0c;

impl HalPllConfig {
    /// Create this structure with the magic number and checksum filled
    /// in.
    pub fn new(cfg: HalSysClkConfig) -> (r: Self)
        ensures
            r.magic == 0x47464350,
            r.cfg == cfg,
            r.crc32 == crc32_iso_hdlc(cfg.spec_bytes()),
    {
        let crc32 = cfg.crc32();
        HalPllConfig { magic: 0x47464350, cfg, crc32 }
    }
}

/// Basic image configuration of the ROM header.
#[derive(Clone, Copy, Debug)]
pub struct HalBasicConfig {
    /// Flags: 2 bits each for sign, encrypt and key slot, then single
    /// bits for segment info, cache enable, boot-ROM load and AES region
    /// lock, 4 bits for cache way disable, single bits for CRC and hash
    /// ignore and for halting the second processor.
    pub flag: u32,
    /// Image length or segment count.
    pub img_len_cnt: u32,
    /// Entry point of the image.
    pub boot_entry: u32,
    /// Ram address or flash offset of the image.
    pub img_start: u32,
    /// Hash of the image.
    pub hash: [u32; 8],
}

/// Size, in bytes, of [`HalBasicConfig`] in the ROM image.
pub const BASIC_CONFIG_SIZE: usize = 0x30;

} // verus!
