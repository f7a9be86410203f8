//! Cartridge mappers: the bank-switching hardware of a cartridge.
//!
//! A mapper is polymorphic over the capability set `{read, write}`; the
//! sole implementation so far is the fixed-bank mapper `Mmc1`, which
//! serves the last loaded 16 KiB PRG-ROM bank read-only at
//! `0xC000..=0xFFFF` and has no bank-switch registers yet.

use vstd::prelude::*;

verus! {

/// Size of one PRG-ROM bank in bytes (16 KiB).
pub const ROM_PAGE_SIZE: usize = 16384;

/// The capability a cartridge mapper offers to the bus.
///
/// `read` returns the mapped byte when the address falls in a range the
/// mapper serves, `None` otherwise; `write` returns whether the mapper
/// accepted and applied the write. Either call may update mapper-internal
/// state (bank registers on real hardware react to any access), so both
/// are specified by a view of the state after the call.
pub trait Mapper: View + Sized {
    /// The mapper's view after a read at `address`, and the byte returned.
    spec fn read_view(self, address: u16) -> (Self::V, Option<u8>);

    /// The mapper's view after a write of `data` at `address`, and
    /// whether the mapper claimed the write.
    spec fn write_view(self, address: u16, data: u8) -> (Self::V, bool);

    fn read(&mut self, address: u16) -> (r: Option<u8>)
        ensures
            (final(self)@, r) == old(self).read_view(address),
    ;

    fn write(&mut self, address: u16, data: u8) -> (claimed: bool)
        ensures
            (final(self)@, claimed) == old(self).write_view(address, data),
    ;
}

/// The byte a fixed-bank mapper with PRG-ROM contents `prg` serves at
/// `address`: within `0xC000..=0xFFFF` the corresponding byte of the last
/// 16 KiB bank, provided at least one full bank is present; elsewhere
/// nothing.
pub open spec fn rom_read(prg: Seq<u8>, address: u16) -> Option<u8> {
    if 0xC000 <= address && prg.len() >= ROM_PAGE_SIZE {
        Some(prg[prg.len() - ROM_PAGE_SIZE + (address - 0xC000)])
    } else {
        None
    }
}

/// The fixed-bank mapper: a sequence of 16 KiB PRG-ROM banks, of which
/// only the last is ever visible. Read-only: every write is rejected.
pub struct Mmc1 {
    prg_rom: Vec<u8>,
}

impl View for Mmc1 {
    type V = Seq<u8>;

    closed spec fn view(&self) -> Seq<u8> {
        self.prg_rom@
    }
}

impl Mmc1 {
    /// A fixed-bank mapper over whole 16 KiB banks, supplied in file
    /// order as one contiguous byte block.
    pub fn new(prg_rom: Vec<u8>) -> (r: Mmc1)
        requires
            prg_rom@.len() % (ROM_PAGE_SIZE as nat) == 0,
        ensures
            r@ == prg_rom@,
    {
        Mmc1 { prg_rom }
    }
}

impl Mapper for Mmc1 {
    open spec fn read_view(self, address: u16) -> (Seq<u8>, Option<u8>) {
        (self@, rom_read(self@, address))
    }

    open spec fn write_view(self, address: u16, data: u8) -> (Seq<u8>, bool) {
        (self@, false)
    }

    fn read(&mut self, address: u16) -> (r: Option<u8>) {
        if 0xC000 <= address && self.prg_rom.len() >= ROM_PAGE_SIZE {
            let idx = self.prg_rom.len() - ROM_PAGE_SIZE + (address - 0xC000) as usize;
            Some(self.prg_rom[idx])
        } else {
            None
        }
    }

    fn write(&mut self, address: u16, data: u8) -> (claimed: bool) {
        false
    }
}

/// The closed set of mapper variants, selected once at load time from the
/// cartridge header's mapper number.
pub enum MapperEnum {
    Mmc1(Mmc1),
}

impl View for MapperEnum {
    type V = Seq<u8>;

    open spec fn view(&self) -> Seq<u8> {
        match self {
            MapperEnum::Mmc1(m) => m@,
        }
    }
}

impl MapperEnum {
    /// The view after a read at `address`, and the byte returned.
    pub open spec fn read_view(self, address: u16) -> (Seq<u8>, Option<u8>) {
        match self {
            MapperEnum::Mmc1(m) => m.read_view(address),
        }
    }

    /// The view after a write at `address`, and whether it was claimed.
    pub open spec fn write_view(self, address: u16, data: u8) -> (Seq<u8>, bool) {
        match self {
            MapperEnum::Mmc1(m) => m.write_view(address, data),
        }
    }

    pub fn read(&mut self, address: u16) -> (r: Option<u8>)
        ensures
            (final(self)@, r) == old(self).read_view(address),
    {
        match self {
            MapperEnum::Mmc1(m) => m.read(address),
        }
    }

    pub fn write(&mut self, address: u16, data: u8) -> (claimed: bool)
        ensures
            (final(self)@, claimed) == old(self).write_view(address, data),
    {
        match self {
            MapperEnum::Mmc1(m) => m.write(address, data),
        }
    }
}

/// The fixed-bank ROM window contract: for every address in
/// `0xC000..=0xFFFF` a write is rejected and the mapper's state is
/// unchanged, and a read returns the corresponding byte of the
/// last-loaded 16 KiB bank.
pub proof fn lemma_rom_window(prg: Seq<u8>, address: u16, data: u8)
    requires
        0xC000 <= address,
        prg.len() % (ROM_PAGE_SIZE as nat) == 0,
        prg.len() > 0,
    ensures
        rom_read(prg, address) == Some(prg[prg.len() - ROM_PAGE_SIZE + (address - 0xC000)]),
        forall|m: Mmc1| m@ == prg ==> #[trigger] m.write_view(address, data) == (prg, false),
{
    assert(prg.len() >= ROM_PAGE_SIZE) by {
        if prg.len() < ROM_PAGE_SIZE {
            assert(prg.len() % (ROM_PAGE_SIZE as nat) == prg.len());
        }
    }
}

} // verus!
