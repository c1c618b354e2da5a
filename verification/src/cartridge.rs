//! The cartridge: program ROM, character ROM or RAM, and the nametable
//! mirroring mode, read from an iNES image.

use vstd::prelude::*;
use crate::bits::zeroed;

verus! {

/// How the two physical nametables are laid out over the four logical ones.
#[derive(Clone, Copy, Debug, PartialEq, Eq, Structural)]
pub enum Mirroring {
    Horizontal,
    Vertical,
    FourScreen,
}

/// Why an image was not accepted as a cartridge.
#[derive(Clone, Copy, Debug, PartialEq, Eq, Structural)]
pub enum LoadError {
    /// The image is shorter than its header, trainer, PRG and CHR sizes say.
    Truncated,
    /// The first four bytes are not `N`, `E`, `S`, `0x1A`.
    BadMagic,
    /// The image asks for a mapper other than 0 (NROM).
    UnsupportedMapper,
}

pub struct Cartridge {
    pub prg_rom: Vec<u8>,
    pub chr_rom: Vec<u8>,
    pub mapper: u8,
    pub mirroring: Mirroring,
    /// The character bank is RAM: the image supplied no CHR-ROM.
    pub chr_ram: bool,
}

/// The mathematical content of a cartridge.
pub ghost struct CartridgeView {
    pub prg: Seq<u8>,
    pub chr: Seq<u8>,
    pub mapper: u8,
    pub mirroring: Mirroring,
    pub chr_ram: bool,
}

pub const HEADER_LEN: usize = 16;
pub const TRAINER_LEN: usize = 512;
pub const PRG_UNIT: usize = 16384;
pub const CHR_UNIT: usize = 8192;

/// The image starts with the iNES magic.
pub open spec fn has_magic(image: Seq<u8>) -> bool {
    image.len() >= 4 && image[0] == 0x4E && image[1] == 0x45 && image[2] == 0x53 && image[3]
        == 0x1A
}

/// The mapper number: low nibble from the high half of byte 6, high nibble
/// from the high half of byte 7.
pub open spec fn image_mapper(image: Seq<u8>) -> int {
    (image[7] / 16) * 16 + image[6] / 16
}

/// The number of trainer bytes between the header and the program ROM.
pub open spec fn image_trainer_len(image: Seq<u8>) -> int {
    if (image[6] / 4) % 2 == 1 {
        512
    } else {
        0
    }
}

pub open spec fn image_prg_start(image: Seq<u8>) -> int {
    16 + image_trainer_len(image)
}

pub open spec fn image_prg_len(image: Seq<u8>) -> int {
    image[4] * 16384
}

pub open spec fn image_chr_len(image: Seq<u8>) -> int {
    image[5] * 8192
}

pub open spec fn image_mirroring(image: Seq<u8>) -> Mirroring {
    if image[6] % 2 == 1 {
        Mirroring::Vertical
    } else {
        Mirroring::Horizontal
    }
}

/// What an iNES image holds: the cartridge, or the reason it is refused.
pub open spec fn parse_image(image: Seq<u8>) -> Result<CartridgeView, LoadError> {
    if image.len() < 16 {
        Err(LoadError::Truncated)
    } else if !has_magic(image) {
        Err(LoadError::BadMagic)
    } else if image_mapper(image) != 0 {
        Err(LoadError::UnsupportedMapper)
    } else if image.len() < image_prg_start(image) + image_prg_len(image) + image_chr_len(image) {
        Err(LoadError::Truncated)
    } else {
        let prg_start = image_prg_start(image);
        let chr_start = prg_start + image_prg_len(image);
        let chr_len = image_chr_len(image);
        Ok(
            CartridgeView {
                prg: image.subrange(prg_start, chr_start),
                chr: if chr_len > 0 {
                    image.subrange(chr_start, chr_start + chr_len)
                } else {
                    Seq::new(8192, |i: int| 0u8)
                },
                mapper: 0,
                mirroring: image_mirroring(image),
                chr_ram: chr_len == 0,
            },
        )
    }
}

impl CartridgeView {
    /// The program byte at an offset from `$8000`: the ROM is indexed modulo
    /// its length, so a 16 KiB ROM appears twice. An empty ROM reads as 0.
    pub open spec fn read_prg(self, address: u16) -> u8 {
        if self.prg.len() == 0 {
            0
        } else {
            self.prg[address as int % self.prg.len() as int]
        }
    }

    /// The character byte at a pattern-table address. An empty bank reads as 0.
    pub open spec fn read_chr(self, address: u16) -> u8 {
        if self.chr.len() == 0 {
            0
        } else {
            self.chr[address as int % self.chr.len() as int]
        }
    }

    /// The cartridge after a write to the character bank: taken only by RAM.
    pub open spec fn write_chr(self, address: u16, data: u8) -> CartridgeView {
        if self.chr_ram && self.chr.len() > 0 {
            CartridgeView {
                chr: self.chr.update(address as int % self.chr.len() as int, data),
                ..self
            }
        } else {
            self
        }
    }
}

/// The bytes of `data` from `start` up to `start + len`.
fn copy_range(data: &[u8], start: usize, len: usize) -> (v: Vec<u8>)
    requires
        start + len <= data@.len(),
    ensures
        v@ == data@.subrange(start as int, start + len),
{
    let total: usize = data.len();
    let mut v: Vec<u8> = Vec::new();
    let mut i: usize = 0;
    while i < len
        invariant
            i <= len,
            total == data@.len(),
            start + len <= data@.len(),
            v@ == data@.subrange(start as int, start + i),
        decreases len - i,
    {
        v.push(data[start + i]);
        i += 1;
        assert(v@ =~= data@.subrange(start as int, start + i));
    }
    v
}

impl Cartridge {
    pub open spec fn view(&self) -> CartridgeView {
        CartridgeView {
            prg: self.prg_rom@,
            chr: self.chr_rom@,
            mapper: self.mapper,
            mirroring: self.mirroring,
            chr_ram: self.chr_ram,
        }
    }

    /// Reads a cartridge from an iNES image.
    pub fn new(image: &[u8]) -> (r: Result<Cartridge, LoadError>)
        ensures
            match parse_image(image@) {
                Ok(v) => r is Ok && r->Ok_0@ == v,
                Err(e) => r == Err::<Cartridge, LoadError>(e),
            },
    {
        if image.len() < HEADER_LEN {
            return Err(LoadError::Truncated);
        }
        if !(image[0] == 0x4E && image[1] == 0x45 && image[2] == 0x53 && image[3] == 0x1A) {
            return Err(LoadError::BadMagic);
        }
        let flags6: u8 = image[6];
        let flags7: u8 = image[7];
        let mapper: u8 = (flags7 / 16) * 16 + flags6 / 16;
        if mapper != 0 {
            return Err(LoadError::UnsupportedMapper);
        }
        let trainer: usize = if (flags6 / 4) % 2 == 1 {
            TRAINER_LEN
        } else {
            0
        };
        let prg_start: usize = HEADER_LEN + trainer;
        let prg_len: usize = (image[4] as usize) * PRG_UNIT;
        let chr_len: usize = (image[5] as usize) * CHR_UNIT;
        if image.len() < prg_start + prg_len + chr_len {
            return Err(LoadError::Truncated);
        }
        let mirroring = if flags6 % 2 == 1 {
            Mirroring::Vertical
        } else {
            Mirroring::Horizontal
        };
        let prg_rom = copy_range(image, prg_start, prg_len);
        let chr_rom = if chr_len > 0 {
            copy_range(image, prg_start + prg_len, chr_len)
        } else {
            zeroed(CHR_UNIT)
        };
        Ok(Cartridge { prg_rom, chr_rom, mapper: 0, mirroring, chr_ram: chr_len == 0 })
    }

    /// Reads the program ROM at an offset from `$8000`.
    pub fn read_prg(&self, address: u16) -> (data: u8)
        ensures
            data == self@.read_prg(address),
    {
        let n: usize = self.prg_rom.len();
        if n == 0 {
            0
        } else {
            self.prg_rom[(address as usize) % n]
        }
    }

    /// Program ROM takes no writes.
    pub fn write_prg(&mut self, address: u16, data: u8)
        ensures
            *final(self) == *old(self),
    {
    }

    /// Reads the character bank.
    pub fn read_chr(&self, address: u16) -> (data: u8)
        ensures
            data == self@.read_chr(address),
    {
        let n: usize = self.chr_rom.len();
        if n == 0 {
            0
        } else {
            self.chr_rom[(address as usize) % n]
        }
    }

    /// Writes the character bank, if it is RAM.
    pub fn write_chr(&mut self, address: u16, data: u8)
        ensures
            final(self)@ == old(self)@.write_chr(address, data),
    {
        let n: usize = self.chr_rom.len();
        if self.chr_ram && n > 0 {
            self.chr_rom[(address as usize) % n] = data;
        }
        assert(self@ =~= old(self)@.write_chr(address, data));
    }

    /// The empty cartridge that stands in a console's slot before an image is
    /// loaded: every read gives 0 and every write is dropped.
    pub fn dummy() -> (c: Cartridge)
        ensures
            c@ == (CartridgeView {
                prg: Seq::empty(),
                chr: Seq::empty(),
                mapper: 0,
                mirroring: Mirroring::Horizontal,
                chr_ram: false,
            }),
    {
        Cartridge {
            prg_rom: Vec::new(),
            chr_rom: Vec::new(),
            mapper: 0,
            mirroring: Mirroring::Horizontal,
            chr_ram: false,
        }
    }
}


/// A program ROM of 16 KiB appears twice in the 32 KiB that the CPU sees;
/// one of 32 KiB is read as it lies.
pub proof fn lemma_program_mirrors(c: CartridgeView, address: u16)
    requires
        address < 0x4000,
    ensures
        c.prg.len() == 16384 ==> c.read_prg(address) == c.prg[address as int] && c.read_prg(
            (address + 0x4000) as u16,
        ) == c.prg[address as int],
        c.prg.len() == 32768 ==> c.read_prg(address) == c.prg[address as int] && c.read_prg(
            (address + 0x4000) as u16,
        ) == c.prg[address + 0x4000],
{
}

} // verus!
