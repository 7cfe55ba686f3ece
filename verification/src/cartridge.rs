//! The cartridge seen as an opaque byte-addressable bus module (ROM-only
//! access pattern: reads return the ROM byte, writes are dropped), plus the
//! ROM header fields and the header checksum rule.
use vstd::prelude::*;

use crate::alu::sub8;

verus! {

/// The parsed ROM header, living at offsets 0x100 through 0x14F of the ROM.
#[derive(Debug)]
pub struct RomHeader {
    pub entry: Vec<u8>,
    pub logo: Vec<u8>,
    pub title: Vec<u8>,
    pub new_licensee_code: Vec<u8>,
    pub sgb_flag: u8,
    pub cart_type: u8,
    pub rom_size: u8,
    pub ram_size: u8,
    pub dest_code: u8,
    pub old_licensee_code: u8,
    pub version: u8,
    pub checksum: u8,
    pub global_checksum: u16,
}

/// Relies on String::from_utf8_lossy: on ASCII input the result has one
/// character per byte, each the byte itself.
#[verifier::external_body]
pub(crate) fn bytes_text(b: &Vec<u8>) -> (s: String)
    ensures
        (forall|i: int| 0 <= i < b@.len() ==> b@[i] < 0x80) ==> s@.len() == b@.len() && (forall|
            i: int,
        |
            0 <= i < b@.len() ==> s@[i] == b@[i] as char),
{
    String::from_utf8_lossy(b).to_string()
}

impl RomHeader {
    /// The title bytes as text; ASCII titles come back byte for byte.
    pub fn title_str(&self) -> (s: String)
        ensures
            (forall|i: int| 0 <= i < self.title@.len() ==> self.title@[i] < 0x80) ==> s@.len()
                == self.title@.len() && (forall|i: int|
                0 <= i < self.title@.len() ==> s@[i] == self.title@[i] as char),
    {
        bytes_text(&self.title)
    }
}

/// The running header checksum over ROM bytes 0x134 up to (excluding) `j`:
/// each byte and an extra one are subtracted, modulo 256.
pub open spec fn checksum_upto(rom: Seq<u8>, j: int) -> u8
    decreases j,
{
    if j <= 0x134 {
        0u8
    } else {
        sub8(sub8(checksum_upto(rom, j - 1), rom[j - 1]), 1)
    }
}

/// The header checksum of a ROM: the fold over bytes 0x134 through 0x14C.
pub open spec fn header_checksum(rom: Seq<u8>) -> u8 {
    checksum_upto(rom, 0x14D)
}

/// What a bus read of the cartridge returns: the ROM byte, or an open-bus
/// 0xFF beyond the ROM's end.
pub open spec fn cart_read_spec(rom: Seq<u8>, address: u16) -> u8 {
    if address < rom.len() {
        rom[address as int]
    } else {
        0xFFu8
    }
}

pub struct Cartridge {
    pub data: Vec<u8>,
}

impl Cartridge {
    pub fn from(data: Vec<u8>) -> (r: Cartridge)
        ensures
            r.data == data,
    {
        Cartridge { data }
    }

    /// ROM-only read: the byte at the address, 0xFF past the end.
    pub fn read(&self, address: u16) -> (r: u8)
        ensures
            r == cart_read_spec(self.data@, address),
    {
        if (address as usize) < self.data.len() {
            self.data[address as usize]
        } else {
            0xFF
        }
    }

    /// ROM-only write: dropped.
    pub fn write(&mut self, address: u16, value: u8)
        ensures
            *final(self) == *old(self),
    {
    }

    /// Whether the checksum byte at 0x14D matches the checksum of the header
    /// bytes 0x134 through 0x14C.
    pub fn is_checksum_match(&self) -> (r: bool)
        requires
            self.data@.len() >= 0x14E,
        ensures
            r == (header_checksum(self.data@) == self.data@[0x14D]),
    {
        let mut x: u8 = 0;
        let mut i: usize = 0x134;
        while i < 0x14D
            invariant
                0x134 <= i <= 0x14D,
                self.data@.len() >= 0x14E,
                x == checksum_upto(self.data@, i as int),
            decreases 0x14D - i,
        {
            x = x.wrapping_sub(self.data[i]).wrapping_sub(1);
            i = i + 1;
        }
        x == self.data[0x14D]
    }

    /// Parse the header fields out of the ROM image.
    pub fn as_header(&self) -> (h: RomHeader)
        requires
            self.data@.len() >= 0x150,
        ensures
            h.entry@ == self.data@.subrange(0x100, 0x104),
            h.logo@ == self.data@.subrange(0x104, 0x134),
            h.title@ == self.data@.subrange(0x134, 0x144),
            h.new_licensee_code@ == self.data@.subrange(0x144, 0x146),
            h.sgb_flag == self.data@[0x146],
            h.cart_type == self.data@[0x147],
            h.rom_size == self.data@[0x148],
            h.ram_size == self.data@[0x149],
            h.dest_code == self.data@[0x14A],
            h.old_licensee_code == self.data@[0x14B],
            h.version == self.data@[0x14C],
            h.checksum == self.data@[0x14D],
            h.global_checksum == crate::bits::concat16(self.data@[0x14E], self.data@[0x14F]),
    {
        RomHeader {
            entry: self.copy_range(0x100, 0x104),
            logo: self.copy_range(0x104, 0x134),
            title: self.copy_range(0x134, 0x144),
            new_licensee_code: self.copy_range(0x144, 0x146),
            sgb_flag: self.data[0x146],
            cart_type: self.data[0x147],
            rom_size: self.data[0x148],
            ram_size: self.data[0x149],
            dest_code: self.data[0x14A],
            old_licensee_code: self.data[0x14B],
            version: self.data[0x14C],
            checksum: self.data[0x14D],
            global_checksum: crate::bits::make16(self.data[0x14E], self.data[0x14F]),
        }
    }

    fn copy_range(&self, from: usize, to: usize) -> (r: Vec<u8>)
        requires
            from <= to <= self.data@.len(),
        ensures
            r@ == self.data@.subrange(from as int, to as int),
    {
        let mut r: Vec<u8> = Vec::new();
        let mut i: usize = from;
        while i < to
            invariant
                from <= i <= to <= self.data@.len(),
                r@ == self.data@.subrange(from as int, i as int),
            decreases to - i,
        {
            r.push(self.data[i]);
            proof {
                assert(r@ =~= self.data@.subrange(from as int, i + 1));
            }
            i = i + 1;
        }
        r
    }
}

/// The running checksum never reads past byte 0x14C, so the checksum byte's
/// own slot does not influence it.
proof fn lemma_checksum_ignores_checksum_byte(rom: Seq<u8>, x: u8, j: int)
    requires
        0x14E <= rom.len(),
        j <= 0x14D,
    ensures
        checksum_upto(rom.update(0x14D, x), j) == checksum_upto(rom, j),
    decreases j,
{
    if j > 0x134 {
        lemma_checksum_ignores_checksum_byte(rom, x, j - 1);
    }
}

/// The header checksum round trip: stamping any ROM's byte at 0x14D with the
/// checksum computed over its header bytes yields a ROM that validates.
pub proof fn lemma_checksum_roundtrip(rom: Seq<u8>)
    requires
        rom.len() >= 0x14E,
    ensures
        header_checksum(rom.update(0x14D, header_checksum(rom))) == rom.update(
            0x14D,
            header_checksum(rom),
        )[0x14D],
{
    lemma_checksum_ignores_checksum_byte(rom, header_checksum(rom), 0x14D);
}

} // verus!
