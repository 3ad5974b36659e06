//! The memory bus: the capability through which the CPU reaches memory.

use crate::cartridge::{zeroed, Cartridge, CartridgeView};
use vstd::prelude::*;

verus! {

/// The size of the address space.
pub const ADDRESS_SPACE: usize = 0x10000;

/// The regions of the address space.
#[derive(Clone, Copy, Debug, PartialEq, Eq, Structural)]
pub enum Region {
    /// 0x0000 to 0x3FFF: ROM bank 0, on the cartridge.
    RomBank0,
    /// 0x4000 to 0x7FFF: the ROM bank selected, on the cartridge.
    RomBankN,
    /// 0x8000 to 0x9FFF: video memory.
    VideoRam,
    /// 0xA000 to 0xBFFF: RAM or clock registers, on the cartridge.
    CartridgeRam,
    /// 0xC000 to 0xDFFF: work RAM.
    WorkRam,
    /// 0xE000 to 0xFDFF: the echo of work RAM.
    EchoRam,
    /// 0xFE00 to 0xFE9F and 0xFF00 to 0xFF7F: devices.
    Io,
    /// 0xFEA0 to 0xFEFF: nothing.
    Unmapped,
    /// 0xFF80 to 0xFFFE: high RAM.
    HighRam,
    /// 0xFFFF: the interrupt enable register.
    InterruptEnable,
}

/// The bus of the console: the cartridge, if one is inserted, and a memory
/// for every address that is not the cartridge's. It is kept apart from the
/// CPU, so that the CPU can be stepped on it.
#[derive(Debug, PartialEq, Eq)]
pub struct BusMut {
    /// One byte for each address. It stands for the memory and the devices
    /// that are not on the cartridge.
    pub memory: Vec<u8>,
    pub cartridge: Option<Cartridge>,
}

/// The model of a `BusMut`.
pub ghost struct BusView {
    pub memory: Seq<u8>,
    pub cartridge: Option<CartridgeView>,
}

/// The region that `address` lies in.
pub open spec fn region_of(address: u16) -> Region {
    if address < 0x4000 {
        Region::RomBank0
    } else if address < 0x8000 {
        Region::RomBankN
    } else if address < 0xA000 {
        Region::VideoRam
    } else if address < 0xC000 {
        Region::CartridgeRam
    } else if address < 0xE000 {
        Region::WorkRam
    } else if address < 0xFE00 {
        Region::EchoRam
    } else if address < 0xFEA0 {
        Region::Io
    } else if address < 0xFF00 {
        Region::Unmapped
    } else if address < 0xFF80 {
        Region::Io
    } else if address < 0xFFFF {
        Region::HighRam
    } else {
        Region::InterruptEnable
    }
}

/// Whether `region` is on the cartridge.
pub open spec fn on_cartridge(region: Region) -> bool {
    region == Region::RomBank0 || region == Region::RomBankN || region == Region::CartridgeRam
}

/// The region that `address` lies in.
pub fn region(address: u16) -> (region: Region)
    ensures
        region == region_of(address),
{
    if address < 0x4000 {
        Region::RomBank0
    } else if address < 0x8000 {
        Region::RomBankN
    } else if address < 0xA000 {
        Region::VideoRam
    } else if address < 0xC000 {
        Region::CartridgeRam
    } else if address < 0xE000 {
        Region::WorkRam
    } else if address < 0xFE00 {
        Region::EchoRam
    } else if address < 0xFEA0 {
        Region::Io
    } else if address < 0xFF00 {
        Region::Unmapped
    } else if address < 0xFF80 {
        Region::Io
    } else if address < 0xFFFF {
        Region::HighRam
    } else {
        Region::InterruptEnable
    }
}

/// The 16-bit word made of a low and a high byte.
pub open spec fn word(low: u8, high: u8) -> u16 {
    (low as int + 256 * (high as int)) as u16
}

/// The low byte of a word.
pub open spec fn low_byte(value: u16) -> u8 {
    (value % 256) as u8
}

/// The high byte of a word.
pub open spec fn high_byte(value: u16) -> u8 {
    (value / 256) as u8
}

/// The address after `address`; the address space wraps around.
pub open spec fn next_address(address: u16) -> u16 {
    if address == 0xFFFF {
        0
    } else {
        (address + 1) as u16
    }
}

/// The address before `address`; the address space wraps around.
pub open spec fn previous_address(address: u16) -> u16 {
    if address == 0 {
        0xFFFF
    } else {
        (address - 1) as u16
    }
}

/// The two byte writes that store a word: low byte first, at `address`, then
/// the high byte at the address after it.
pub open spec fn word_writes(address: u16, value: u16) -> Seq<(u16, u8)> {
    seq![(address, low_byte(value)), (next_address(address), high_byte(value))]
}

/// Whether `after` is the bus `before` once `writes` have been made in order.
pub open spec fn applied<B: Bus>(before: B, writes: Seq<(u16, u8)>, after: B) -> bool
    decreases writes.len(),
{
    if writes.len() == 0 {
        after == before
    } else {
        exists|mid: B|
            #[trigger] before.poked(writes[0].0, writes[0].1, mid) && mid.inv() && applied(
                mid,
                writes.drop_first(),
                after,
            )
    }
}

/// Facts about shifts and masks on bytes and words, in terms of arithmetic.
pub proof fn lemma_word_bits(low: u8, high: u8, value: u16)
    ensures
        ((high as u16) << 8) | (low as u16) == word(low, high),
        (value & 0x00FF) as u8 == low_byte(value),
        (value >> 8) as u8 == high_byte(value),
        word(low_byte(value), high_byte(value)) == value,
        low_byte(word(low, high)) == low,
        high_byte(word(low, high)) == high,
{
    assert(((high as u16) << 8) | (low as u16) == (low as u16) + 256 * (high as u16))
        by (bit_vector);
    assert((value & 0x00FF) as u8 == (value % 256) as u8 && (value >> 8) as u8 == (value / 256) as u8)
        by (bit_vector);
}

/// A memory bus: byte reads and writes by 16-bit address.
///
/// A bus is described by three things: what holds of it while it is in use,
/// the byte each address reads as, and what a write turns it into. Reading
/// changes nothing.
pub trait Bus: Sized {
    /// What holds of the bus while it is in use. Writes keep it.
    spec fn inv(&self) -> bool;

    /// The byte that `address` reads as.
    spec fn peek(&self, address: u16) -> u8;

    /// Whether `after` is this bus once `value` has been written to `address`.
    spec fn poked(&self, address: u16, value: u8, after: Self) -> bool;

    /// Reads the byte at `address`.
    fn read8(&mut self, address: u16) -> (value: u8)
        requires
            old(self).inv(),
        ensures
            value == old(self).peek(address),
            *final(self) == *old(self),
    ;

    /// Writes `value` to `address`.
    fn write8(&mut self, address: u16, value: u8)
        requires
            old(self).inv(),
        ensures
            final(self).inv(),
            old(self).poked(address, value, *final(self)),
    ;

    /// Reads a word as two byte reads, the low byte first. Each byte is
    /// routed by its own address.
    fn read16(&mut self, address: u16) -> (value: u16)
        requires
            old(self).inv(),
        ensures
            value == word(old(self).peek(address), old(self).peek(next_address(address))),
            *final(self) == *old(self),
    {
        let low = self.read8(address) as u16;
        let high = self.read8(address.wrapping_add(1)) as u16;
        proof {
            lemma_word_bits(low as u8, high as u8, 0);
        }
        (high << 8) | low
    }

    /// Writes a word as two byte writes, the low byte first. Each byte is
    /// routed by its own address; nothing ties the two together.
    fn write16(&mut self, address: u16, value: u16)
        requires
            old(self).inv(),
        ensures
            final(self).inv(),
            exists|mid: Self|
                #[trigger] old(self).poked(address, low_byte(value), mid) && mid.inv() && mid.poked(
                    next_address(address),
                    high_byte(value),
                    *final(self),
                ),
    {
        proof {
            lemma_word_bits(0, 0, value);
        }
        self.write8(address, (value & 0x00FF) as u8);
        let ghost mid = *self;
        self.write8(address.wrapping_add(1), (value >> 8) as u8);
        assert(old(self).poked(address, low_byte(value), mid));
    }
}

/// The bytes that the addresses of a bus read as.
pub open spec fn reads<B: Bus>(bus: B) -> spec_fn(u16) -> u8 {
    |address: u16| bus.peek(address)
}

/// Where nothing is written, the bus stays as it is.
pub proof fn lemma_applied_none<B: Bus>(bus: B)
    ensures
        applied(bus, Seq::<(u16, u8)>::empty(), bus),
{
}

/// One write, made on a bus in use.
pub proof fn lemma_applied_one<B: Bus>(before: B, after: B, write: (u16, u8))
    requires
        before.poked(write.0, write.1, after),
        after.inv(),
    ensures
        applied(before, seq![write], after),
{
    let writes = seq![write];
    assert(applied(after, writes.drop_first(), after));
    assert(before.poked(writes[0].0, writes[0].1, after));
}

/// Two writes, made one after the other.
pub proof fn lemma_applied_two<B: Bus>(
    before: B,
    mid: B,
    after: B,
    first: (u16, u8),
    second: (u16, u8),
)
    requires
        before.poked(first.0, first.1, mid),
        mid.inv(),
        mid.poked(second.0, second.1, after),
        after.inv(),
    ensures
        applied(before, seq![first, second], after),
{
    let writes = seq![first, second];
    assert(writes.drop_first() =~= seq![second]);
    lemma_applied_one(mid, after, second);
}

/// A word written through `write16` is its two byte writes, made in order.
pub proof fn lemma_applied_word<B: Bus>(before: B, after: B, address: u16, value: u16)
    requires
        exists|mid: B|
            #[trigger] before.poked(address, low_byte(value), mid) && mid.inv() && mid.poked(
                next_address(address),
                high_byte(value),
                after,
            ),
        after.inv(),
    ensures
        applied(before, word_writes(address, value), after),
{
    let mid = choose|mid: B|
        #[trigger] before.poked(address, low_byte(value), mid) && mid.inv() && mid.poked(
            next_address(address),
            high_byte(value),
            after,
        );
    lemma_applied_two(
        before,
        mid,
        after,
        (address, low_byte(value)),
        (next_address(address), high_byte(value)),
    );
}

impl BusView {
    /// The memory has a byte for each address, and the cartridge, if there
    /// is one, is well formed.
    pub open spec fn wf(self) -> bool {
        &&& self.memory.len() == ADDRESS_SPACE
        &&& self.cartridge matches Some(cartridge) ==> cartridge.wf()
    }

    /// Whether `address` is routed to the cartridge: it lies in a region of
    /// the cartridge, and a cartridge is inserted.
    pub open spec fn routed_to_cartridge(self, address: u16) -> bool {
        on_cartridge(region_of(address)) && self.cartridge.is_some()
    }

    /// The byte that `address` reads as: what the cartridge shows, 0xFF
    /// where nothing is mapped, and the byte of the memory anywhere else.
    pub open spec fn peek(self, address: u16) -> u8 {
        if self.routed_to_cartridge(address) {
            self.cartridge->0.get_item(address)
        } else if region_of(address) == Region::Unmapped {
            0xFF
        } else {
            self.memory[address as int]
        }
    }

    /// This bus once `value` has been written to `address`: the write goes
    /// to the cartridge, nowhere where nothing is mapped, and into the
    /// memory anywhere else.
    pub open spec fn written(self, address: u16, value: u8) -> BusView {
        if self.routed_to_cartridge(address) {
            BusView { cartridge: Some(self.cartridge->0.set_item(address, value)), ..self }
        } else if region_of(address) == Region::Unmapped {
            self
        } else {
            BusView { memory: self.memory.update(address as int, value), ..self }
        }
    }

    /// This bus once `writes` have been made in order.
    pub open spec fn written_all(self, writes: Seq<(u16, u8)>) -> BusView
        decreases writes.len(),
    {
        if writes.len() == 0 {
            self
        } else {
            self.written(writes[0].0, writes[0].1).written_all(writes.drop_first())
        }
    }

    /// The bytes that the addresses read as.
    pub open spec fn reads(self) -> spec_fn(u16) -> u8 {
        |address: u16| self.peek(address)
    }
}

impl View for BusMut {
    type V = BusView;

    open spec fn view(&self) -> BusView {
        BusView {
            memory: self.memory@,
            cartridge: match self.cartridge {
                Some(cartridge) => Some(cartridge@),
                None => None,
            },
        }
    }
}

impl BusMut {
    /// A bus without a cartridge, every byte of its memory zero.
    pub fn new() -> (bus: BusMut)
        ensures
            bus@ == (BusView { memory: Seq::new(ADDRESS_SPACE as nat, |i: int| 0u8), cartridge: None }),
            bus.inv(),
    {
        BusMut { memory: zeroed(ADDRESS_SPACE), cartridge: None }
    }

    /// Whether the bus can be used: its memory has a byte for each address,
    /// and its cartridge, if there is one, is well formed.
    pub fn is_valid(&self) -> (valid: bool)
        ensures
            valid == self.inv(),
    {
        self.memory.len() == ADDRESS_SPACE && match &self.cartridge {
            Some(cartridge) => cartridge.is_valid(),
            None => true,
        }
    }

    /// Inserts a cartridge, in place of the one that was there.
    pub fn insert_cartridge(&mut self, cartridge: Cartridge)
        requires
            old(self).inv(),
            cartridge.wf(),
        ensures
            final(self)@ == (BusView { cartridge: Some(cartridge@), ..old(self)@ }),
            final(self).inv(),
    {
        self.cartridge = Some(cartridge);
    }
}

impl Bus for BusMut {
    open spec fn inv(&self) -> bool {
        self@.wf()
    }

    open spec fn peek(&self, address: u16) -> u8 {
        self@.peek(address)
    }

    open spec fn poked(&self, address: u16, value: u8, after: Self) -> bool {
        after@ == self@.written(address, value)
    }

    fn read8(&mut self, address: u16) -> (value: u8) {
        match region(address) {
            Region::RomBank0 | Region::RomBankN | Region::CartridgeRam => {
                match &mut self.cartridge {
                    Some(cartridge) => cartridge.get_item(address),
                    None => self.memory[address as usize],
                }
            },
            Region::Unmapped => 0xFF,
            _ => self.memory[address as usize],
        }
    }

    fn write8(&mut self, address: u16, value: u8) {
        match region(address) {
            Region::RomBank0 | Region::RomBankN | Region::CartridgeRam => {
                match &mut self.cartridge {
                    Some(cartridge) => {
                        cartridge.set_item(address, value);
                    },
                    None => {
                        self.memory[address as usize] = value;
                    },
                }
            },
            Region::Unmapped => {},
            _ => {
                self.memory[address as usize] = value;
            },
        }
    }
}

/// On a `BusMut`, the bus after some writes is the bus that the writes make
/// of its model.
pub proof fn lemma_applied_view(before: BusMut, writes: Seq<(u16, u8)>, after: BusMut)
    requires
        applied(before, writes, after),
    ensures
        after@ == before@.written_all(writes),
    decreases writes.len(),
{
    if writes.len() > 0 {
        let mid = choose|mid: BusMut|
            #[trigger] before.poked(writes[0].0, writes[0].1, mid) && mid.inv() && applied(
                mid,
                writes.drop_first(),
                after,
            );
        lemma_applied_view(mid, writes.drop_first(), after);
    }
}

} // verus!
