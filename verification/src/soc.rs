//! Boot ROM image headers of the supported chips.
//!
//! Each chip family lays its ROM bootloading header out differently; the
//! per-chip modules give the header structures, their documented byte
//! layout as offset constants, and the checksummed clock configuration.

pub mod bl616;
pub mod bl702;
pub mod bl808;

use vstd::prelude::*;

verus! {

/// The CRC-32/ISO-HDLC checksum of a byte sequence.
pub uninterp spec fn crc32_iso_hdlc(data: Seq<u8>) -> u32;

/// Relies on `crc::Crc::<u32>::new(&crc::CRC_32_ISO_HDLC).checksum`: the
/// CRC-32/ISO-HDLC checksum of the bytes, a function of the bytes alone.
#[verifier::external_body]
pub(crate) fn crc32_iso_hdlc_checksum(data: &Vec<u8>) -> (r: u32)
    ensures
        r == crc32_iso_hdlc(data@),
{
    crc::Crc::<u32>::new(&crc::CRC_32_ISO_HDLC).checksum(data.as_slice())
}

/// Flash controller parameter block of the ROM header, carried as an
/// opaque 92-byte region.
pub struct HalFlashConfig {
    /// Raw bytes of the parameter block.
    pub bytes: [u8; 92],
}

/// One code patch applied by the boot ROM.
#[derive(Clone, Copy, Debug, PartialEq, Eq, Structural)]
pub struct HalPatchCfg {
    /// Address to patch.
    pub addr: u32,
    /// Value to write there.
    pub value: u32,
}

/// Basic image configuration of the ROM header.
#[derive(Clone, Copy, Debug)]
pub struct HalBasicConfig {
    /// Flags: 2 bits each for sign, encrypt and key slot, then single
    /// bits for segment info, cache enable, boot-ROM load and AES region
    /// lock, 4 bits for cache way disable, single bits for CRC and hash
    /// ignore and for halting the second processor.
    pub flag: u32,
    /// Image length or segment count.
    pub img_len_cnt: u32,
    /// Entry point of the image.
    pub boot_entry: u32,
    /// Ram address or flash offset of the image.
    pub img_start: u32,
    /// Hash of the image.
    pub hash: [u32; 8],
}

} // verus!
