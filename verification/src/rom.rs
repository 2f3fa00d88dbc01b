//! Cartridge header model: the classification enums, the parsed header,
//! and its integrity check against the canonical logo bytes.
//!
//! Parsing works on an in-memory ROM image; reading the image from wherever
//! it lives is the surrounding program's business.

use vstd::prelude::*;

use crate::regfile::pair;

verus! {

/// Console type byte at offset 0x143.
#[derive(Clone, Copy, PartialEq, Eq, Structural, Debug)]
pub enum ConType {
    Color,
    NColor,
}

/// Console indicator byte at offset 0x146.
#[allow(non_camel_case_types)]
#[derive(Clone, Copy, PartialEq, Eq, Structural, Debug)]
pub enum GBSGB_Indicator {
    GB,
    SGB,
}

/// Cartridge hardware byte at offset 0x147.
#[allow(non_camel_case_types)]
#[derive(Clone, Copy, PartialEq, Eq, Structural, Debug)]
pub enum ROMType {
    ROM_Only,
    ROM_MBC1,
    ROM_MBC1_RAM,
    ROM_MBC1_RAM_BATT,
    ROM_MBC2,
    ROM_MBC2_BATTERY,
    ROM_RAM,
    ROM_RAM_BATTERY,
    ROM_MMM01,
    ROM_MMM01_SRAM,
    ROM_MMM01_SRAM_BATT,
    ROM_MBC3_TIMER_BATT,
    ROM_MBC3_TIMER_RAM_BATT,
    ROM_MBC3,
    ROM_MBC3_RAM,
    ROM_MBC3_RAM_BATT,
    ROM_MBC5,
    ROM_MBC5_RAM,
    ROM_MBC5_RAM_BATT,
    ROM_MBC5_RUMBLE,
    ROM_MBC5_RUMBLE_SRAM,
    ROM_MBC5_RUMBLE_SRAM_BATT,
    Pocket_Camera,
    Bandai_TAMA5,
    Hudson_HuC_3,
    Hudson_HuC_1,
}

/// ROM size byte at offset 0x148.
#[derive(Clone, Copy, PartialEq, Eq, Structural, Debug)]
pub enum ROMSize {
    Sz256Kbit,
    Sz512Kbit,
    Sz1Mbit,
    Sz2Mbit,
    Sz4Mbit,
    Sz8Mbit,
    Sz16Mbit,
    Sz9Mbit,
    Sz10Mbit,
    Sz12Mbit,
}

/// RAM size byte at offset 0x149.
#[derive(Clone, Copy, PartialEq, Eq, Structural, Debug)]
pub enum RAMSize {
    NoRam,
    Sz16kBit,
    Sz64kBit,
    Sz256kBit,
    Sz1MBit,
}

/// Destination byte at offset 0x14A.
#[derive(Clone, Copy, PartialEq, Eq, Structural, Debug)]
pub enum DestinationCode {
    Japanese,
    NonJapanese,
}

/// Licensee byte at offset 0x14B, with the extended code at 0x144/0x145
/// when the byte asks for a recheck.
#[derive(Clone, Copy, PartialEq, Eq, Structural, Debug)]
pub enum LicenseCode {
    Recheck,
    Accolade,
    Konami,
}

// ---------------------------------------------------------------------------
// Byte-to-field decodings
// ---------------------------------------------------------------------------

pub open spec fn con_type_of(b: u8) -> Option<ConType> {
    if b == 0x80 {
        Some(ConType::Color)
    } else {
        None
    }
}

pub open spec fn rom_type_of(b: u8) -> Option<ROMType> {
    if b == 0x00 {
        Some(ROMType::ROM_Only)
    } else if b == 0x01 {
        Some(ROMType::ROM_MBC1)
    } else if b == 0x02 {
        Some(ROMType::ROM_MBC1_RAM)
    } else if b == 0x03 {
        Some(ROMType::ROM_MBC1_RAM_BATT)
    } else if b == 0x05 {
        Some(ROMType::ROM_MBC2)
    } else if b == 0x06 {
        Some(ROMType::ROM_MBC2_BATTERY)
    } else if b == 0x08 {
        Some(ROMType::ROM_RAM)
    } else if b == 0x09 {
        Some(ROMType::ROM_RAM_BATTERY)
    } else if b == 0x0B {
        Some(ROMType::ROM_MMM01)
    } else if b == 0x0C {
        Some(ROMType::ROM_MMM01_SRAM)
    } else if b == 0x0D {
        Some(ROMType::ROM_MMM01_SRAM_BATT)
    } else if b == 0x0F {
        Some(ROMType::ROM_MBC3_TIMER_BATT)
    } else if b == 0x10 {
        Some(ROMType::ROM_MBC3_TIMER_RAM_BATT)
    } else if b == 0x11 {
        Some(ROMType::ROM_MBC3)
    } else if b == 0x12 {
        Some(ROMType::ROM_MBC3_RAM)
    } else if b == 0x13 {
        Some(ROMType::ROM_MBC3_RAM_BATT)
    } else if b == 0x19 {
        Some(ROMType::ROM_MBC5)
    } else if b == 0x1A {
        Some(ROMType::ROM_MBC5_RAM)
    } else if b == 0x1B {
        Some(ROMType::ROM_MBC5_RAM_BATT)
    } else if b == 0x1C {
        Some(ROMType::ROM_MBC5_RUMBLE)
    } else if b == 0x1D {
        Some(ROMType::ROM_MBC5_RUMBLE_SRAM)
    } else if b == 0x1E {
        Some(ROMType::ROM_MBC5_RUMBLE_SRAM_BATT)
    } else if b == 0x1F {
        Some(ROMType::Pocket_Camera)
    } else if b == 0xFD {
        Some(ROMType::Bandai_TAMA5)
    } else if b == 0xFE {
        Some(ROMType::Hudson_HuC_3)
    } else if b == 0xFF {
        Some(ROMType::Hudson_HuC_1)
    } else {
        None
    }
}

pub open spec fn rom_size_of(b: u8) -> Option<ROMSize> {
    if b == 0x00 {
        Some(ROMSize::Sz256Kbit)
    } else if b == 0x01 {
        Some(ROMSize::Sz512Kbit)
    } else if b == 0x02 {
        Some(ROMSize::Sz1Mbit)
    } else if b == 0x03 {
        Some(ROMSize::Sz2Mbit)
    } else if b == 0x04 {
        Some(ROMSize::Sz4Mbit)
    } else if b == 0x05 {
        Some(ROMSize::Sz8Mbit)
    } else if b == 0x06 {
        Some(ROMSize::Sz16Mbit)
    } else if b == 0x52 {
        Some(ROMSize::Sz9Mbit)
    } else if b == 0x53 {
        Some(ROMSize::Sz10Mbit)
    } else if b == 0x54 {
        Some(ROMSize::Sz12Mbit)
    } else {
        None
    }
}

pub open spec fn ram_size_of(b: u8) -> Option<RAMSize> {
    if b == 0x00 {
        Some(RAMSize::NoRam)
    } else if b == 0x01 {
        Some(RAMSize::Sz16kBit)
    } else if b == 0x02 {
        Some(RAMSize::Sz64kBit)
    } else if b == 0x03 {
        Some(RAMSize::Sz256kBit)
    } else if b == 0x04 {
        Some(RAMSize::Sz1MBit)
    } else {
        None
    }
}

pub open spec fn dest_code_of(b: u8) -> Option<DestinationCode> {
    if b == 0x00 {
        Some(DestinationCode::Japanese)
    } else if b == 0x01 {
        Some(DestinationCode::NonJapanese)
    } else {
        None
    }
}

/// The licensee decoding: 0x33 defers to the extended little-endian code
/// at 0x144/0x145; the old single-byte codes stand for themselves.
pub open spec fn lcode_of(b: u8, ext_lo: u8, ext_hi: u8) -> Option<LicenseCode> {
    if b == 0x33 {
        if pair(ext_hi, ext_lo) == 0x79 {
            Some(LicenseCode::Accolade)
        } else if pair(ext_hi, ext_lo) == 0xA4 {
            Some(LicenseCode::Konami)
        } else {
            None
        }
    } else if b == 0x79 {
        Some(LicenseCode::Accolade)
    } else if b == 0xA4 {
        Some(LicenseCode::Konami)
    } else {
        None
    }
}

// ---------------------------------------------------------------------------
// Header
// ---------------------------------------------------------------------------

/// The parsed cartridge header.
#[derive(Debug)]
pub struct Header {
    /// The logo bytes the image carried at 0x104-0x133.
    pub nintendo: Vec<u8>,
    /// The raw title bytes at 0x134-0x141.
    pub title: Vec<u8>,
    pub con_type: Option<ConType>,
    pub rom_type: Option<ROMType>,
    pub rom_size: Option<ROMSize>,
    pub ram_size: Option<RAMSize>,
    pub dest_code: Option<DestinationCode>,
    pub lcode: Option<LicenseCode>,
    pub mask_rom_vers_number: u8,
    pub compl_check: u8,
    /// The two checksum bytes at 0x14E/0x14F.
    pub checksum: (u8, u8),
}

impl Header {
    /// The logo bytes the header carries, as copied from the image.
    pub open spec fn spec_nintendo(&self) -> Seq<u8> {
        self.nintendo@
    }

    /// The canonical logo bytes every valid header must carry.
    pub fn get_nintendo_texels(&self) -> (r: Vec<u8>)
        ensures
            r@ == nintendo_logo(),
    {
        canonical_logo()
    }

    /// Checks the header's logo bytes against the canonical ones: `Ok`
    /// exactly when they agree byte for byte.
    pub fn validate(&self) -> (r: Result<(), &'static str>)
        ensures
            match r {
                Ok(()) => self.spec_nintendo() == nintendo_logo(),
                Err(m) => self.spec_nintendo() != nintendo_logo() && m@ == "Invalid ROM header"@,
            },
    {
        let texels = self.get_nintendo_texels();
        if self.nintendo.len() != 48 {
            proof {
                assert(nintendo_logo().len() == 48);
            }
            return Err("Invalid ROM header");
        }
        for i in 0..48
            invariant
                self.nintendo@.len() == 48,
                texels@ == nintendo_logo(),
                forall|j: int| 0 <= j < i ==> self.nintendo@[j] == nintendo_logo()[j],
        {
            if self.nintendo[i] != texels[i] {
                return Err("Invalid ROM header");
            }
        }
        proof {
            assert(self.spec_nintendo() =~= nintendo_logo());
        }
        Ok(())
    }
}

/// The canonical logo bitmap: 48 bytes at 0x104-0x133 of every valid image.
pub open spec fn nintendo_logo() -> Seq<u8> {
    seq![
        0xCEu8, 0xED, 0x66, 0x66, 0xCC, 0x0D, 0x00, 0x0B, 0x03, 0x73, 0x00, 0x83, 0x00, 0x0C, 0x00,
        0x0D, 0x00, 0x08, 0x11, 0x1F, 0x88, 0x89, 0x00, 0x0E, 0xDC, 0xCC, 0x6E, 0xE6, 0xDD, 0xDD,
        0xD9, 0x99, 0xBB, 0xBB, 0x67, 0x63, 0x6E, 0x0E, 0xEC, 0xCC, 0xDD, 0xDC, 0x99, 0x9F, 0xBB,
        0xB9, 0x33, 0x3E,
    ]
}

/// Builds the canonical logo bytes.
fn canonical_logo() -> (r: Vec<u8>)
    ensures
        r@ == nintendo_logo(),
{
    let mut v: Vec<u8> = Vec::new();
    v.push(0xCE);
    v.push(0xED);
    v.push(0x66);
    v.push(0x66);
    v.push(0xCC);
    v.push(0x0D);
    v.push(0x00);
    v.push(0x0B);
    v.push(0x03);
    v.push(0x73);
    v.push(0x00);
    v.push(0x83);
    v.push(0x00);
    v.push(0x0C);
    v.push(0x00);
    v.push(0x0D);
    v.push(0x00);
    v.push(0x08);
    v.push(0x11);
    v.push(0x1F);
    v.push(0x88);
    v.push(0x89);
    v.push(0x00);
    v.push(0x0E);
    v.push(0xDC);
    v.push(0xCC);
    v.push(0x6E);
    v.push(0xE6);
    v.push(0xDD);
    v.push(0xDD);
    v.push(0xD9);
    v.push(0x99);
    v.push(0xBB);
    v.push(0xBB);
    v.push(0x67);
    v.push(0x63);
    v.push(0x6E);
    v.push(0x0E);
    v.push(0xEC);
    v.push(0xCC);
    v.push(0xDD);
    v.push(0xDC);
    v.push(0x99);
    v.push(0x9F);
    v.push(0xBB);
    v.push(0xB9);
    v.push(0x33);
    v.push(0x3E);
    v
}

// ---------------------------------------------------------------------------
// Cartridge
// ---------------------------------------------------------------------------

/// A loaded cartridge: for this core, its parsed header.
#[derive(Debug)]
pub struct Cartridge {
    pub header: Header,
}

impl Cartridge {
    /// Parses the header fields out of an in-memory ROM image.  An image
    /// shorter than the 0x150-byte header region is rejected; every field
    /// of an accepted header is pinned to its defining bytes.
    pub fn from_bytes(data: &Vec<u8>) -> (r: Result<Cartridge, &'static str>)
        ensures
            match r {
                Ok(c) => {
                    &&& data@.len() >= 0x150
                    &&& c.header.spec_nintendo() == data@.subrange(0x104, 0x134)
                    &&& c.header.title@ == data@.subrange(0x134, 0x142)
                    &&& c.header.con_type == con_type_of(data@[0x143])
                    &&& c.header.rom_type == rom_type_of(data@[0x147])
                    &&& c.header.rom_size == rom_size_of(data@[0x148])
                    &&& c.header.ram_size == ram_size_of(data@[0x149])
                    &&& c.header.dest_code == dest_code_of(data@[0x14A])
                    &&& c.header.lcode == lcode_of(data@[0x14B], data@[0x144], data@[0x145])
                    &&& c.header.mask_rom_vers_number == data@[0x14C]
                    &&& c.header.compl_check == data@[0x14D]
                    &&& c.header.checksum == (data@[0x14E], data@[0x14F])
                },
                Err(m) => data@.len() < 0x150 && m@ == "ROM image too short"@,
            },
    {
        if data.len() < 0x150 {
            return Err("ROM image too short");
        }
        let nintendo = copy_range(data, 0x104, 0x134);
        let title = copy_range(data, 0x134, 0x142);
        let con_type = if data[0x143] == 0x80 {
            Some(ConType::Color)
        } else {
            None
        };
        let rom_type = match data[0x147] {
            0x00 => Some(ROMType::ROM_Only),
            0x01 => Some(ROMType::ROM_MBC1),
            0x02 => Some(ROMType::ROM_MBC1_RAM),
            0x03 => Some(ROMType::ROM_MBC1_RAM_BATT),
            0x05 => Some(ROMType::ROM_MBC2),
            0x06 => Some(ROMType::ROM_MBC2_BATTERY),
            0x08 => Some(ROMType::ROM_RAM),
            0x09 => Some(ROMType::ROM_RAM_BATTERY),
            0x0B => Some(ROMType::ROM_MMM01),
            0x0C => Some(ROMType::ROM_MMM01_SRAM),
            0x0D => Some(ROMType::ROM_MMM01_SRAM_BATT),
            0x0F => Some(ROMType::ROM_MBC3_TIMER_BATT),
            0x10 => Some(ROMType::ROM_MBC3_TIMER_RAM_BATT),
            0x11 => Some(ROMType::ROM_MBC3),
            0x12 => Some(ROMType::ROM_MBC3_RAM),
            0x13 => Some(ROMType::ROM_MBC3_RAM_BATT),
            0x19 => Some(ROMType::ROM_MBC5),
            0x1A => Some(ROMType::ROM_MBC5_RAM),
            0x1B => Some(ROMType::ROM_MBC5_RAM_BATT),
            0x1C => Some(ROMType::ROM_MBC5_RUMBLE),
            0x1D => Some(ROMType::ROM_MBC5_RUMBLE_SRAM),
            0x1E => Some(ROMType::ROM_MBC5_RUMBLE_SRAM_BATT),
            0x1F => Some(ROMType::Pocket_Camera),
            0xFD => Some(ROMType::Bandai_TAMA5),
            0xFE => Some(ROMType::Hudson_HuC_3),
            0xFF => Some(ROMType::Hudson_HuC_1),
            _ => None,
        };
        let rom_size = match data[0x148] {
            0x00 => Some(ROMSize::Sz256Kbit),
            0x01 => Some(ROMSize::Sz512Kbit),
            0x02 => Some(ROMSize::Sz1Mbit),
            0x03 => Some(ROMSize::Sz2Mbit),
            0x04 => Some(ROMSize::Sz4Mbit),
            0x05 => Some(ROMSize::Sz8Mbit),
            0x06 => Some(ROMSize::Sz16Mbit),
            0x52 => Some(ROMSize::Sz9Mbit),
            0x53 => Some(ROMSize::Sz10Mbit),
            0x54 => Some(ROMSize::Sz12Mbit),
            _ => None,
        };
        let ram_size = match data[0x149] {
            0x00 => Some(RAMSize::NoRam),
            0x01 => Some(RAMSize::Sz16kBit),
            0x02 => Some(RAMSize::Sz64kBit),
            0x03 => Some(RAMSize::Sz256kBit),
            0x04 => Some(RAMSize::Sz1MBit),
            _ => None,
        };
        let dest_code = match data[0x14A] {
            0x00 => Some(DestinationCode::Japanese),
            0x01 => Some(DestinationCode::NonJapanese),
            _ => None,
        };
        let lcode = match data[0x14B] {
            0x33 => {
                let ext = (data[0x145] as u16) * 0x100 + data[0x144] as u16;
                match ext {
                    0x79 => Some(LicenseCode::Accolade),
                    0xA4 => Some(LicenseCode::Konami),
                    _ => None,
                }
            },
            0x79 => Some(LicenseCode::Accolade),
            0xA4 => Some(LicenseCode::Konami),
            _ => None,
        };
        Ok(
            Cartridge {
                header: Header {
                    nintendo,
                    title,
                    con_type,
                    rom_type,
                    rom_size,
                    ram_size,
                    dest_code,
                    lcode,
                    mask_rom_vers_number: data[0x14C],
                    compl_check: data[0x14D],
                    checksum: (data[0x14E], data[0x14F]),
                },
            },
        )
    }
}

/// The bytes of `data` from `from` (inclusive) to `to` (exclusive), as a
/// fresh vector.
fn copy_range(data: &Vec<u8>, from: usize, to: usize) -> (r: Vec<u8>)
    requires
        from <= to <= data@.len(),
    ensures
        r@ == data@.subrange(from as int, to as int),
{
    let mut v: Vec<u8> = Vec::new();
    let mut i: usize = from;
    while i < to
        invariant
            from <= i <= to <= data@.len(),
            v@ == data@.subrange(from as int, i as int),
        decreases to - i,
    {
        v.push(data[i]);
        proof {
            assert(data@.subrange(from as int, i + 1 as int) =~= data@.subrange(
                from as int,
                i as int,
            ).push(data@[i as int]));
        }
        i = i + 1;
    }
    v
}

} // verus!
