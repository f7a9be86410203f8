//! The CPU memory bus and the devices attached to it.
//!
//! The bus arbitrates every CPU-issued read or write across the cartridge
//! and the internal work RAM, supplies the open-bus fallback value when no
//! device claims an address, and records every completed access — dummy
//! reads included — in an observable trace, since mapper and diagnostic
//! behaviour depend on the order and count of accesses, not only on the
//! final register state.

use vstd::prelude::*;
use vstd::array::ArrayAdditionalExecFns;

use crate::mapper::{MapperEnum, ROM_PAGE_SIZE, rom_read};

verus! {

/// Size of the internal work RAM in bytes (2 KiB).
pub const RAM_SIZE: usize = 2048;

/// The capability every device on the CPU bus offers.
///
/// `read` returns the device's byte when it claims the address, `None`
/// otherwise; `write` returns whether the device claimed and applied the
/// write. Either call may update device state, so both are specified by a
/// view of the state after the call.
pub trait CpuBusMember: View + Sized {
    /// The device's view after a read at `address`, and the byte returned.
    spec fn read_view(self, address: u16) -> (Self::V, Option<u8>);

    /// The device's view after a write of `data` at `address`, and
    /// whether the device claimed the write.
    spec fn write_view(self, address: u16, data: u8) -> (Self::V, bool);

    fn read(&mut self, address: u16) -> (r: Option<u8>)
        ensures
            (final(self)@, r) == old(self).read_view(address),
    ;

    fn write(&mut self, address: u16, data: u8) -> (claimed: bool)
        ensures
            (final(self)@, claimed) == old(self).write_view(address, data),
    ;
}

/// The cartridge: owns a mapper and forwards every bus access to it.
pub struct Cart {
    mapper: MapperEnum,
}

impl View for Cart {
    type V = Seq<u8>;

    closed spec fn view(&self) -> Seq<u8> {
        self.mapper@
    }
}

impl Cart {
    pub fn new(mapper: MapperEnum) -> (r: Cart)
        ensures
            r@ == mapper@,
    {
        Cart { mapper }
    }
}

impl CpuBusMember for Cart {
    closed spec fn read_view(self, address: u16) -> (Seq<u8>, Option<u8>) {
        self.mapper.read_view(address)
    }

    closed spec fn write_view(self, address: u16, data: u8) -> (Seq<u8>, bool) {
        self.mapper.write_view(address, data)
    }

    fn read(&mut self, address: u16) -> (r: Option<u8>) {
        self.mapper.read(address)
    }

    fn write(&mut self, address: u16, data: u8) -> (claimed: bool) {
        self.mapper.write(address, data)
    }
}

/// The byte the work RAM serves at `address`: it claims exactly
/// `0x0000..=0x1FFF` and mirrors its 2 KiB physically every 2 KiB within
/// that window (address modulo 2048 indexes physical storage).
pub open spec fn ram_read_view(ram: Seq<u8>, address: u16) -> Option<u8> {
    if address <= 0x1FFF {
        Some(ram[address as int % (RAM_SIZE as int)])
    } else {
        None
    }
}

/// The work RAM contents after a write of `data` at `address`: unchanged
/// outside `0x0000..=0x1FFF`, updated at address modulo 2048 inside.
pub open spec fn ram_write_view(ram: Seq<u8>, address: u16, data: u8) -> Seq<u8> {
    if address <= 0x1FFF {
        ram.update(address as int % (RAM_SIZE as int), data)
    } else {
        ram
    }
}

/// The internal work RAM: a fixed-size 2 KiB byte block, owned
/// exclusively, zero-filled at power-on.
pub struct Ram {
    storage: [u8; RAM_SIZE],
}

impl View for Ram {
    type V = Seq<u8>;

    closed spec fn view(&self) -> Seq<u8> {
        self.storage@
    }
}

impl Ram {
    /// A zero-filled work RAM.
    pub fn new() -> (r: Ram)
        ensures
            r@.len() == RAM_SIZE,
            forall|i: int| 0 <= i < RAM_SIZE ==> r@[i] == 0u8,
    {
        Ram { storage: vstd::array::array_fill_for_copy_types::<u8, RAM_SIZE>(0u8) }
    }
}

impl CpuBusMember for Ram {
    open spec fn read_view(self, address: u16) -> (Seq<u8>, Option<u8>) {
        (self@, ram_read_view(self@, address))
    }

    open spec fn write_view(self, address: u16, data: u8) -> (Seq<u8>, bool) {
        (ram_write_view(self@, address, data), address <= 0x1FFF)
    }

    fn read(&mut self, address: u16) -> (r: Option<u8>) {
        if address > 0x1FFF {
            return None;
        }
        Some(self.storage[(address as usize) % RAM_SIZE])
    }

    fn write(&mut self, address: u16, data: u8) -> (claimed: bool) {
        if address > 0x1FFF {
            return false;
        }
        self.storage.set((address as usize) % RAM_SIZE, data);
        true
    }
}

/// One completed bus access: its direction, its address, the byte that
/// was electrically on the bus, and whether any device claimed it.
#[derive(Clone, Copy, Debug, PartialEq, Eq, Structural)]
pub struct BusAccess {
    pub write: bool,
    pub address: u16,
    pub value: u8,
    pub claimed: bool,
}

/// The mathematical model of the bus: the open-bus latch, the cartridge's
/// PRG-ROM contents, the work RAM contents, and the trace of every access
/// made so far.
#[verifier::ext_equal]
pub struct BusView {
    pub latch: u8,
    pub prg_rom: Seq<u8>,
    pub ram: Seq<u8>,
    pub trace: Seq<BusAccess>,
}

/// Whether some device claims a read at `address`: the cartridge serves
/// `0xC000..=0xFFFF` when it holds at least one full bank, the work RAM
/// serves `0x0000..=0x1FFF`.
pub open spec fn bus_claims_read(b: BusView, address: u16) -> bool {
    rom_read(b.prg_rom, address) is Some || address <= 0x1FFF
}

/// The byte a read at `address` produces: the cartridge is queried first,
/// then the work RAM, and when neither claims the address the latched
/// open-bus value is returned.
pub open spec fn bus_read_value(b: BusView, address: u16) -> u8 {
    match rom_read(b.prg_rom, address) {
        Some(d) => d,
        None => match ram_read_view(b.ram, address) {
            Some(d) => d,
            None => b.latch,
        },
    }
}

/// The bus after a read at `address`, and the byte returned: whatever
/// byte is produced is stored into the latch, and the access is appended
/// to the trace.
pub open spec fn bus_read_spec(b: BusView, address: u16) -> (BusView, u8) {
    let value = bus_read_value(b, address);
    let access = BusAccess { write: false, address, value, claimed: bus_claims_read(b, address) };
    (BusView { latch: value, trace: b.trace.push(access), ..b }, value)
}

/// The bus after a write of `data` at `address`: the latch takes the
/// written byte regardless of outcome (write intent is on the bus), the
/// write is offered to the cartridge and then to the work RAM — the
/// fixed-bank mapper rejects every write, the RAM claims
/// `0x0000..=0x1FFF` — and the access is appended to the trace.
pub open spec fn bus_write_spec(b: BusView, address: u16, data: u8) -> BusView {
    let claimed = address <= 0x1FFF;
    let access = BusAccess { write: true, address, value: data, claimed };
    BusView {
        latch: data,
        ram: ram_write_view(b.ram, address, data),
        trace: b.trace.push(access),
        ..b
    }
}

/// The CPU memory bus: owns the cartridge and the work RAM, arbitrates
/// every CPU access across them, and latches the last exchanged byte for
/// open-bus fallback.
pub struct CpuMemoryBus {
    pub last_exchanged_value: u8,
    pub cart: Cart,
    pub ram: Ram,
    pub trace: Vec<BusAccess>,
}

impl View for CpuMemoryBus {
    type V = BusView;

    open spec fn view(&self) -> BusView {
        BusView {
            latch: self.last_exchanged_value,
            prg_rom: self.cart@,
            ram: self.ram@,
            trace: self.trace@,
        }
    }
}

impl CpuMemoryBus {
    pub fn new(cart: Cart, ram: Ram) -> (r: CpuMemoryBus)
        ensures
            r@ == (BusView { latch: 0u8, prg_rom: cart@, ram: ram@, trace: Seq::<
                BusAccess,
            >::empty() }),
    {
        let r = CpuMemoryBus { last_exchanged_value: 0, cart, ram, trace: Vec::new() };
        proof {
            assert(r@ =~= BusView {
                latch: 0u8,
                prg_rom: r.cart@,
                ram: r.ram@,
                trace: Seq::<BusAccess>::empty(),
            });
        }
        r
    }

    /// Read one byte: the cartridge is queried first, then the work RAM,
    /// short-circuiting on the first device that returns a value; when
    /// neither claims the address the latched value is returned. The byte
    /// produced is latched and the access is recorded.
    pub fn read(&mut self, address: u16) -> (r: u8)
        ensures
            (final(self)@, r) == bus_read_spec(old(self)@, address),
    {
        let from_cart = self.cart.read(address);
        let (data, claimed) = match from_cart {
            Some(d) => (d, true),
            None => match self.ram.read(address) {
                Some(d) => (d, true),
                None => (self.last_exchanged_value, false),
            },
        };
        self.last_exchanged_value = data;
        self.trace.push(BusAccess { write: false, address, value: data, claimed });
        data
    }

    /// Write one byte: the latch takes it immediately, then the write is
    /// offered to the cartridge and to the work RAM in that fixed order,
    /// and the access is recorded with whether either claimed it.
    pub fn write(&mut self, address: u16, data: u8)
        ensures
            final(self)@ == bus_write_spec(old(self)@, address, data),
    {
        self.last_exchanged_value = data;
        let cart_claimed = self.cart.write(address, data);
        let ram_claimed = self.ram.write(address, data);
        let claimed = cart_claimed || ram_claimed;
        self.trace.push(BusAccess { write: true, address, value: data, claimed });
    }
}

/// Work-RAM round trip over the bus: writing byte `v` anywhere in
/// `0x0000..=0x1FFF` and then reading at any address of that window that
/// mirrors the same physical cell — the written address itself, or the
/// written address plus any multiple of 2048 — returns `v`.
pub proof fn lemma_workram_round_trip(b: BusView, a1: u16, a2: u16, v: u8)
    requires
        b.ram.len() == RAM_SIZE,
        a1 <= 0x1FFF,
        a2 <= 0x1FFF,
        a1 as int % (RAM_SIZE as int) == a2 as int % (RAM_SIZE as int),
    ensures
        bus_read_spec(bus_write_spec(b, a1, v), a2).1 == v,
{
}

/// Work-RAM mirroring: two addresses of `0x0000..=0x1FFF` that agree
/// modulo 2048 read the same byte.
pub proof fn lemma_workram_mirroring(b: BusView, a1: u16, a2: u16)
    requires
        a1 <= 0x1FFF,
        a2 <= 0x1FFF,
        a1 as int % (RAM_SIZE as int) == a2 as int % (RAM_SIZE as int),
    ensures
        bus_read_spec(b, a1).1 == bus_read_spec(b, a2).1,
{
}

/// The ROM window over the bus: for every address in `0xC000..=0xFFFF`, a
/// write is always rejected — no device claims it and neither the RAM nor
/// the PRG ROM changes — and a read returns the corresponding byte of the
/// last-loaded 16 KiB bank.
pub proof fn lemma_rom_window_on_bus(b: BusView, address: u16, data: u8)
    requires
        0xC000 <= address,
        b.prg_rom.len() >= ROM_PAGE_SIZE,
    ensures
        bus_write_spec(b, address, data).ram == b.ram,
        bus_write_spec(b, address, data).prg_rom == b.prg_rom,
        bus_write_spec(b, address, data).trace.last().claimed == false,
        bus_read_spec(b, address).1 == b.prg_rom[b.prg_rom.len() - ROM_PAGE_SIZE + (address
            - 0xC000)],
{
}

/// Open-bus read: at an address no device claims, the bus returns the
/// latched value and the latch, the RAM and the ROM are unchanged; only
/// the trace grows, by one unclaimed read.
pub proof fn lemma_open_bus_read(b: BusView, address: u16)
    requires
        !bus_claims_read(b, address),
    ensures
        bus_read_spec(b, address).1 == b.latch,
        bus_read_spec(b, address).0.latch == b.latch,
        bus_read_spec(b, address).0.ram == b.ram,
        bus_read_spec(b, address).0.prg_rom == b.prg_rom,
        bus_read_spec(b, address).0.trace.last().claimed == false,
{
}

/// Open-bus write: at an address no device claims, the attempted value is
/// latched anyway, no device state changes, and the trace records an
/// unclaimed write. Subsequent open-bus reads return that latched value
/// until a claimed access changes it.
pub proof fn lemma_open_bus_write(b: BusView, address: u16, data: u8)
    requires
        address > 0x1FFF,
    ensures
        bus_write_spec(b, address, data).latch == data,
        bus_write_spec(b, address, data).ram == b.ram,
        bus_write_spec(b, address, data).prg_rom == b.prg_rom,
        bus_write_spec(b, address, data).trace.last().claimed == false,
{
}

/// An open-bus write followed by an open-bus read at any unclaimed
/// address returns the written value: the latch carries it.
pub proof fn lemma_open_bus_write_then_read(b: BusView, a1: u16, data: u8, a2: u16)
    requires
        a1 > 0x1FFF,
        !bus_claims_read(b, a2),
    ensures
        bus_read_spec(bus_write_spec(b, a1, data), a2).1 == data,
{
}

} // verus!
