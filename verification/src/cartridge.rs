//! The cartridge: its ROM and RAM banks, the header at the start of the ROM,
//! and the tables that tell what a cartridge of a given type carries.

pub mod base_mbc;
pub mod mbc_extended;
pub mod rtc;

use crate::cartridge::base_mbc::{recognized, BaseMBCView, ROMOnly};
use crate::cartridge::mbc_extended::{MBC1View, MBC5View, MBC1, MBC2, MBC3, MBC5};
use vstd::prelude::*;

verus! {

/// The size of a ROM bank.
pub const ROM_BANK_SIZE: usize = 0x4000;

/// The size of a RAM bank.
pub const RAM_BANK_SIZE: usize = 0x2000;

/// Where the title starts in the header.
pub const HEADER_TITLE: usize = 0x0134;

/// The byte whose top bit marks the header layout with the shorter title.
pub const HEADER_CGB_FLAG: usize = 0x0143;

/// The byte with the cartridge type.
pub const HEADER_CART_TYPE: usize = 0x0147;

/// The byte with the RAM size code.
pub const HEADER_RAM_SIZE: usize = 0x0149;

/// The byte with the header checksum. The checksum covers the bytes from the
/// title up to this one.
pub const HEADER_CHECKSUM: usize = 0x014D;

/// Why a ROM image is not loaded.
#[derive(Clone, Copy, Debug, PartialEq, Eq, Structural)]
pub enum CartridgeError {
    /// The image is empty, or its size is not a multiple of the bank size.
    InvalidROMFile,
    /// The header checksum does not match.
    InvalidCartridge,
    /// The cartridge type is not in the table.
    UnsupportedCartridgeType,
}

/// The kinds of bank controller.
#[derive(Clone, Copy, Debug, PartialEq, Eq, Structural)]
pub enum MBCKind {
    ROMOnly,
    MBC1,
    MBC2,
    MBC3,
    MBC5,
}

/// What a cartridge of one type carries: the kind of its bank controller,
/// and whether it has RAM, a battery and a clock.
#[derive(Clone, Copy, Debug, PartialEq, Eq, Structural)]
pub struct MBC {
    /// The cartridge type, as the header gives it.
    pub type_id: u8,
    pub kind: MBCKind,
    pub sram: bool,
    pub battery: bool,
    pub rtc: bool,
}

/// The bank controller of a cartridge, with everything that the cartridge
/// holds.
#[derive(Debug, PartialEq, Eq)]
pub enum Controller {
    ROMOnly(ROMOnly),
    MBC1(MBC1),
    MBC2(MBC2),
    MBC3(MBC3),
    MBC5(MBC5),
}

/// A cartridge. Its ROM and RAM are its own: they are reached through
/// `get_item` and `set_item` alone.
#[derive(Debug, PartialEq, Eq)]
pub struct Cartridge {
    pub controller: Controller,
}

/// The model of a cartridge: the model of its controller.
pub ghost enum CartridgeView {
    ROMOnly(BaseMBCView),
    MBC1(MBC1View),
    MBC2(BaseMBCView),
    MBC3(BaseMBCView),
    MBC5(MBC5View),
}

/// The ROM of a cartridge: banks of 16 KiB, one after the other.
#[derive(Debug, PartialEq, Eq)]
pub struct ROM {
    pub data: Vec<u8>,
}

/// The RAM of a cartridge: banks of 8 KiB, one after the other.
#[derive(Debug, PartialEq, Eq)]
pub struct RAM {
    pub data: Vec<u8>,
}

/// Whether `rom` is a whole number of banks, and at least one.
pub open spec fn rom_valid(rom: Seq<u8>) -> bool {
    rom.len() > 0 && rom.len() % 0x4000 == 0
}

/// Whether `ram` is a whole number of banks.
pub open spec fn ram_valid(ram: Seq<u8>) -> bool {
    ram.len() % 0x2000 == 0
}

/// The number of banks in `rom`.
pub open spec fn rom_bank_count(rom: Seq<u8>) -> int {
    rom.len() as int / 0x4000
}

/// The number of banks in `ram`.
pub open spec fn ram_bank_count(ram: Seq<u8>) -> int {
    ram.len() as int / 0x2000
}

/// The sum of the bytes of `bytes`.
pub open spec fn byte_sum(bytes: Seq<u8>) -> int
    decreases bytes.len(),
{
    if bytes.len() == 0 {
        0
    } else {
        byte_sum(bytes.drop_last()) + bytes.last()
    }
}

/// The checksum of the header of `rom`: each byte from the title up to the
/// checksum byte is subtracted from a running value, and one more with it;
/// the value starts at zero and wraps at eight bits.
pub open spec fn header_checksum(rom: Seq<u8>) -> u8 {
    let covered = rom.subrange(HEADER_TITLE as int, HEADER_CHECKSUM as int);
    ((-(byte_sum(covered) + covered.len())) % 256) as u8
}

/// Whether the header of `rom` holds the checksum of `rom`.
pub open spec fn checksum_valid(rom: Seq<u8>) -> bool {
    header_checksum(rom) == rom[HEADER_CHECKSUM as int]
}

/// Whether the header of `rom` has the layout with the shorter title.
pub open spec fn header_cgb(rom: Seq<u8>) -> bool {
    rom[HEADER_CGB_FLAG as int] >= 0x80
}

/// The title in the header of `rom`: the bytes from 0x134 up to 0x143, or up
/// to 0x142 in the layout with the shorter title.
pub open spec fn header_title(rom: Seq<u8>, cgb_mode: bool) -> Seq<u8> {
    rom.subrange(
        HEADER_TITLE as int,
        if cgb_mode {
            0x0142
        } else {
            0x0143
        },
    )
}

/// The table of cartridge types.
pub open spec fn cartridge_table(type_id: u8) -> Option<MBC> {
    match type_id {
        0x00 => Some(MBC { type_id, kind: MBCKind::ROMOnly, sram: false, battery: false, rtc: false }),
        0x01 => Some(MBC { type_id, kind: MBCKind::MBC1, sram: false, battery: false, rtc: false }),
        0x02 => Some(MBC { type_id, kind: MBCKind::MBC1, sram: true, battery: false, rtc: false }),
        0x03 => Some(MBC { type_id, kind: MBCKind::MBC1, sram: true, battery: true, rtc: false }),
        0x05 => Some(MBC { type_id, kind: MBCKind::MBC2, sram: false, battery: false, rtc: false }),
        0x06 => Some(MBC { type_id, kind: MBCKind::MBC2, sram: false, battery: true, rtc: false }),
        0x08 => Some(MBC { type_id, kind: MBCKind::ROMOnly, sram: true, battery: false, rtc: false }),
        0x09 => Some(MBC { type_id, kind: MBCKind::ROMOnly, sram: true, battery: true, rtc: false }),
        0x0F => Some(MBC { type_id, kind: MBCKind::MBC3, sram: false, battery: true, rtc: true }),
        0x10 => Some(MBC { type_id, kind: MBCKind::MBC3, sram: true, battery: true, rtc: true }),
        0x11 => Some(MBC { type_id, kind: MBCKind::MBC3, sram: false, battery: false, rtc: false }),
        0x12 => Some(MBC { type_id, kind: MBCKind::MBC3, sram: true, battery: false, rtc: false }),
        0x13 => Some(MBC { type_id, kind: MBCKind::MBC3, sram: true, battery: true, rtc: false }),
        0x19 => Some(MBC { type_id, kind: MBCKind::MBC5, sram: false, battery: false, rtc: false }),
        0x1A => Some(MBC { type_id, kind: MBCKind::MBC5, sram: true, battery: false, rtc: false }),
        0x1B => Some(MBC { type_id, kind: MBCKind::MBC5, sram: true, battery: true, rtc: false }),
        0x1C => Some(MBC { type_id, kind: MBCKind::MBC5, sram: false, battery: false, rtc: false }),
        0x1D => Some(MBC { type_id, kind: MBCKind::MBC5, sram: true, battery: false, rtc: false }),
        0x1E => Some(MBC { type_id, kind: MBCKind::MBC5, sram: true, battery: true, rtc: false }),
        _ => None,
    }
}

/// The table of RAM sizes: the number of RAM banks for a RAM size code. A
/// code that is not in the table stands for no RAM.
pub open spec fn external_ram_table(code: u8) -> u8 {
    match code {
        0x00 => 1,
        0x01 => 1,
        0x02 => 1,
        0x03 => 4,
        0x04 => 16,
        0x05 => 8,
        _ => 0,
    }
}

/// The number of RAM banks for a RAM size code.
pub fn external_ram_count(code: u8) -> (count: u8)
    ensures
        count == external_ram_table(code),
{
    match code {
        0x00 => 1,
        0x01 => 1,
        0x02 => 1,
        0x03 => 4,
        0x04 => 16,
        0x05 => 8,
        _ => 0,
    }
}

/// So many bytes, each zero.
pub fn zeroed(len: usize) -> (bytes: Vec<u8>)
    ensures
        bytes@ == Seq::new(len as nat, |i: int| 0u8),
{
    let mut bytes: Vec<u8> = Vec::new();
    let mut i: usize = 0;
    while i < len
        invariant
            i <= len,
            bytes@ == Seq::new(i as nat, |i: int| 0u8),
        decreases len - i,
    {
        bytes.push(0);
        i += 1;
    }
    bytes
}

impl MBC {
    /// Looks a cartridge type up in the table of cartridge types.
    pub fn lookup(type_id: u8) -> (mbc: Option<MBC>)
        ensures
            mbc == cartridge_table(type_id),
    {
        let (kind, sram, battery, rtc) = match type_id {
            0x00 => (MBCKind::ROMOnly, false, false, false),
            0x01 => (MBCKind::MBC1, false, false, false),
            0x02 => (MBCKind::MBC1, true, false, false),
            0x03 => (MBCKind::MBC1, true, true, false),
            0x05 => (MBCKind::MBC2, false, false, false),
            0x06 => (MBCKind::MBC2, false, true, false),
            0x08 => (MBCKind::ROMOnly, true, false, false),
            0x09 => (MBCKind::ROMOnly, true, true, false),
            0x0F => (MBCKind::MBC3, false, true, true),
            0x10 => (MBCKind::MBC3, true, true, true),
            0x11 => (MBCKind::MBC3, false, false, false),
            0x12 => (MBCKind::MBC3, true, false, false),
            0x13 => (MBCKind::MBC3, true, true, false),
            0x19 => (MBCKind::MBC5, false, false, false),
            0x1A => (MBCKind::MBC5, true, false, false),
            0x1B => (MBCKind::MBC5, true, true, false),
            0x1C => (MBCKind::MBC5, false, false, false),
            0x1D => (MBCKind::MBC5, true, false, false),
            0x1E => (MBCKind::MBC5, true, true, false),
            _ => {
                return None;
            },
        };
        Some(MBC { type_id, kind, sram, battery, rtc })
    }
}

impl View for ROM {
    type V = Seq<u8>;

    open spec fn view(&self) -> Seq<u8> {
        self.data@
    }
}

impl View for RAM {
    type V = Seq<u8>;

    open spec fn view(&self) -> Seq<u8> {
        self.data@
    }
}

impl ROM {
    /// The ROM is a whole number of banks, and at least one.
    pub open spec fn wf(&self) -> bool {
        rom_valid(self@)
    }

    /// Whether the ROM is well formed.
    pub fn is_valid(&self) -> (valid: bool)
        ensures
            valid == self.wf(),
    {
        self.data.len() > 0 && self.data.len() % ROM_BANK_SIZE == 0
    }

    /// The number of banks.
    pub fn bank_count(&self) -> (count: usize)
        requires
            self.wf(),
        ensures
            count == rom_bank_count(self@),
            count > 0,
    {
        self.data.len() / ROM_BANK_SIZE
    }

    /// The byte at `offset` in bank `bank`.
    pub fn read(&self, bank: usize, offset: usize) -> (value: u8)
        requires
            self.wf(),
            bank < rom_bank_count(self@),
            offset < ROM_BANK_SIZE,
        ensures
            value == self@[bank * 0x4000 + offset],
    {
        assert(bank * ROM_BANK_SIZE + offset < self.data.len());
        self.data[bank * ROM_BANK_SIZE + offset]
    }
}

impl RAM {
    /// The RAM is a whole number of banks.
    pub open spec fn wf(&self) -> bool {
        ram_valid(self@)
    }

    /// Whether the RAM is well formed.
    pub fn is_valid(&self) -> (valid: bool)
        ensures
            valid == self.wf(),
    {
        self.data.len() % RAM_BANK_SIZE == 0
    }

    /// RAM of `bank_count` banks, every byte zero.
    pub fn new(bank_count: u8) -> (ram: RAM)
        ensures
            ram.wf(),
            ram@ == zeroed_ram(bank_count),
            ram_bank_count(ram@) == bank_count,
    {
        RAM { data: zeroed((bank_count as usize) * RAM_BANK_SIZE) }
    }

    /// The number of banks.
    pub fn bank_count(&self) -> (count: usize)
        requires
            self.wf(),
        ensures
            count == ram_bank_count(self@),
    {
        self.data.len() / RAM_BANK_SIZE
    }

    /// The byte at `offset` in bank `bank`.
    pub fn read(&self, bank: usize, offset: usize) -> (value: u8)
        requires
            self.wf(),
            bank < ram_bank_count(self@),
            offset < RAM_BANK_SIZE,
        ensures
            value == self@[bank * 0x2000 + offset],
    {
        assert(bank * RAM_BANK_SIZE + offset < self.data.len());
        self.data[bank * RAM_BANK_SIZE + offset]
    }

    /// Stores `value` at `offset` in bank `bank`.
    pub fn write(&mut self, bank: usize, offset: usize, value: u8)
        requires
            old(self).wf(),
            bank < ram_bank_count(old(self)@),
            offset < RAM_BANK_SIZE,
        ensures
            final(self).wf(),
            final(self)@ == old(self)@.update(bank * 0x2000 + offset, value),
    {
        assert(bank * RAM_BANK_SIZE + offset < self.data.len());
        self.data[bank * RAM_BANK_SIZE + offset] = value;
    }

    /// The contents of the RAM, byte for byte: what is kept when the
    /// emulation ends.
    pub fn save(&self) -> (bytes: Vec<u8>)
        ensures
            bytes@ == self@,
    {
        let mut bytes: Vec<u8> = Vec::new();
        let mut i: usize = 0;
        while i < self.data.len()
            invariant
                i <= self.data@.len(),
                bytes@ == self.data@.subrange(0, i as int),
            decreases self.data@.len() - i,
        {
            bytes.push(self.data[i]);
            i += 1;
        }
        bytes
    }

    /// Takes contents that were saved: `bytes` has to be exactly as long as
    /// the RAM. Returns whether it is; if not, the RAM is left as it was.
    pub fn load(&mut self, bytes: &Vec<u8>) -> (loaded: bool)
        ensures
            loaded == (bytes@.len() == old(self)@.len()),
            final(self)@ == if loaded {
                bytes@
            } else {
                old(self)@
            },
    {
        if bytes.len() != self.data.len() {
            return false;
        }
        let mut i: usize = 0;
        while i < bytes.len()
            invariant
                i <= bytes@.len(),
                bytes@.len() == self.data@.len(),
                self.data@.subrange(0, i as int) == bytes@.subrange(0, i as int),
            decreases bytes@.len() - i,
        {
            self.data[i] = bytes[i];
            i += 1;
        }
        assert(bytes@.subrange(0, i as int) =~= bytes@);
        true
    }
}

/// Checks the size of a ROM image: it has to hold a whole number of banks,
/// and at least one.
pub fn load_rom(rom_data: Vec<u8>) -> (result: Result<ROM, CartridgeError>)
    ensures
        rom_valid(rom_data@) ==> (result matches Ok(rom) && rom@ == rom_data@ && rom.wf()),
        !rom_valid(rom_data@) ==> result == Err::<ROM, CartridgeError>(
            CartridgeError::InvalidROMFile,
        ),
{
    if rom_data.len() == 0 || rom_data.len() % ROM_BANK_SIZE != 0 {
        return Err(CartridgeError::InvalidROMFile);
    }
    Ok(ROM { data: rom_data })
}

/// Adding a byte at the end adds it to the sum.
pub proof fn lemma_byte_sum_push(bytes: Seq<u8>, byte: u8)
    ensures
        byte_sum(bytes.push(byte)) == byte_sum(bytes) + byte,
{
    assert(bytes.push(byte).drop_last() =~= bytes);
}

/// Checks the header checksum of a ROM image.
pub fn validate_cartridge(rom_banks: &Vec<u8>) -> (valid: bool)
    requires
        rom_banks@.len() > HEADER_CHECKSUM,
    ensures
        valid == checksum_valid(rom_banks@),
{
    let mut x: u8 = 0;
    let mut i: usize = HEADER_TITLE;
    while i < HEADER_CHECKSUM
        invariant
            HEADER_TITLE <= i <= HEADER_CHECKSUM,
            rom_banks@.len() > HEADER_CHECKSUM,
            x as int == (-(byte_sum(rom_banks@.subrange(HEADER_TITLE as int, i as int)) + (i
                - HEADER_TITLE))) % 256,
        decreases HEADER_CHECKSUM - i,
    {
        proof {
            let before = rom_banks@.subrange(HEADER_TITLE as int, i as int);
            assert(rom_banks@.subrange(HEADER_TITLE as int, i + 1) =~= before.push(
                rom_banks@[i as int],
            ));
            lemma_byte_sum_push(before, rom_banks@[i as int]);
        }
        x = x.wrapping_sub(rom_banks[i]).wrapping_sub(1);
        i += 1;
    }
    rom_banks[HEADER_CHECKSUM] == x
}

/// Changing one byte changes the sum by the difference.
pub proof fn lemma_byte_sum_update(bytes: Seq<u8>, index: int, byte: u8)
    requires
        0 <= index < bytes.len(),
    ensures
        byte_sum(bytes.update(index, byte)) == byte_sum(bytes) - bytes[index] + byte,
    decreases bytes.len(),
{
    let updated = bytes.update(index, byte);
    if index == bytes.len() - 1 {
        assert(updated.drop_last() =~= bytes.drop_last());
    } else {
        assert(updated.drop_last() =~= bytes.drop_last().update(index, byte));
        lemma_byte_sum_update(bytes.drop_last(), index, byte);
    }
}

/// RAM of `bank_count` banks, every byte zero.
pub open spec fn zeroed_ram(bank_count: u8) -> Seq<u8> {
    Seq::new((bank_count as nat) * 0x2000, |i: int| 0u8)
}

/// What loading the ROM image `rom` at the wall-clock time `now` gives: the
/// cartridge, or the reason why there is none.
///
/// The size of the image is checked first, then the header checksum, then
/// the cartridge type. The cartridge gets the bank controller of its type,
/// and RAM of the size that the header states, every byte zero.
pub open spec fn load_outcome(rom: Seq<u8>, now: u64) -> Result<CartridgeView, CartridgeError> {
    if !rom_valid(rom) {
        Err(CartridgeError::InvalidROMFile)
    } else if !checksum_valid(rom) {
        Err(CartridgeError::InvalidCartridge)
    } else {
        match cartridge_table(rom[HEADER_CART_TYPE as int]) {
            None => Err(CartridgeError::UnsupportedCartridgeType),
            Some(mbc) => Ok(
                CartridgeView::initial(
                    rom,
                    zeroed_ram(external_ram_table(rom[HEADER_RAM_SIZE as int])),
                    mbc,
                    now,
                ),
            ),
        }
    }
}

impl CartridgeView {
    /// What all controllers share.
    pub open spec fn base(self) -> BaseMBCView {
        match self {
            CartridgeView::ROMOnly(view) => view,
            CartridgeView::MBC1(view) => view.base_mbc,
            CartridgeView::MBC2(view) => view,
            CartridgeView::MBC3(view) => view,
            CartridgeView::MBC5(view) => view.base_mbc,
        }
    }

    /// This cartridge with `base` as what all controllers share.
    pub open spec fn with_base(self, base: BaseMBCView) -> CartridgeView {
        match self {
            CartridgeView::ROMOnly(_) => CartridgeView::ROMOnly(base),
            CartridgeView::MBC1(view) => CartridgeView::MBC1(MBC1View { base_mbc: base, ..view }),
            CartridgeView::MBC2(_) => CartridgeView::MBC2(base),
            CartridgeView::MBC3(_) => CartridgeView::MBC3(base),
            CartridgeView::MBC5(view) => CartridgeView::MBC5(MBC5View { base_mbc: base, ..view }),
        }
    }

    /// The controller is well formed.
    pub open spec fn wf(self) -> bool {
        match self {
            CartridgeView::MBC1(view) => view.wf(),
            CartridgeView::MBC5(view) => view.wf(),
            _ => self.base().wf(),
        }
    }

    /// The cartridge made of the ROM `rom`, the RAM `ram` and a controller
    /// of the kind that `mbc` names, with a clock that starts at `now`.
    pub open spec fn initial(rom: Seq<u8>, ram: Seq<u8>, mbc: MBC, now: u64) -> CartridgeView {
        let base = BaseMBCView::initial(rom, ram, mbc.type_id, mbc.sram, mbc.battery, mbc.rtc, now);
        match mbc.kind {
            MBCKind::ROMOnly => CartridgeView::ROMOnly(base),
            MBCKind::MBC1 => CartridgeView::MBC1(MBC1View::initial(base)),
            MBCKind::MBC2 => CartridgeView::MBC2(base),
            MBCKind::MBC3 => CartridgeView::MBC3(base),
            MBCKind::MBC5 => CartridgeView::MBC5(MBC5View::initial(base)),
        }
    }

    /// This cartridge once `value` has been written to `address`: what its
    /// controller makes of the write.
    pub open spec fn set_item(self, address: u16, value: u8) -> CartridgeView {
        match self {
            CartridgeView::ROMOnly(view) => CartridgeView::ROMOnly(
                ROMOnly::set_item_spec(view, address, value),
            ),
            CartridgeView::MBC1(view) => CartridgeView::MBC1(view.set_item(address, value)),
            CartridgeView::MBC2(view) => CartridgeView::MBC2(
                MBC2::set_item_spec(view, address, value),
            ),
            CartridgeView::MBC3(view) => CartridgeView::MBC3(
                MBC3::set_item_spec(view, address, value),
            ),
            CartridgeView::MBC5(view) => CartridgeView::MBC5(view.set_item(address, value)),
        }
    }

    /// What `address` reads as: what the controller shows there.
    pub open spec fn get_item(self, address: u16) -> u8 {
        match self {
            CartridgeView::ROMOnly(view) => ROMOnly::get_item_spec(view, address),
            CartridgeView::MBC1(view) => view.get_item(address),
            CartridgeView::MBC2(view) => MBC2::get_item_spec(view, address),
            CartridgeView::MBC3(view) => MBC3::get_item_spec(view, address),
            CartridgeView::MBC5(view) => view.get_item(address),
        }
    }

    /// This cartridge once `address` has been read: a read outside every
    /// window is recorded, any other read changes nothing.
    pub open spec fn after_get(self, address: u16) -> CartridgeView {
        self.with_base(self.base().after_get(address))
    }

    /// The ROM is read-only: no write and no read changes it, nor the title,
    /// the header layout or the cartridge type. The RAM stays as long as it
    /// is, and no read changes it.
    pub proof fn law_rom_is_read_only(self, address: u16, value: u8)
        requires
            self.wf(),
        ensures
            self.set_item(address, value).base().rom_banks == self.base().rom_banks,
            self.set_item(address, value).base().game_title == self.base().game_title,
            self.set_item(address, value).base().cgb_mode == self.base().cgb_mode,
            self.set_item(address, value).base().cart_type == self.base().cart_type,
            self.set_item(address, value).base().ram_banks.len() == self.base().ram_banks.len(),
            self.after_get(address).base().rom_banks == self.base().rom_banks,
            self.after_get(address).base().ram_banks == self.base().ram_banks,
    {
    }

    /// A ROM image of a valid size, with a valid header checksum and a
    /// cartridge type that is in the table, is loaded.
    pub proof fn law_valid_image_loads(rom: Seq<u8>, now: u64)
        requires
            rom_valid(rom),
            checksum_valid(rom),
            cartridge_table(rom[HEADER_CART_TYPE as int]).is_some(),
        ensures
            load_outcome(rom, now).is_ok(),
    {
    }

    /// Where one byte that the header checksum covers, or the checksum byte
    /// itself, is changed in a ROM image with a valid checksum, the image is
    /// refused as an invalid cartridge.
    pub proof fn law_mutated_header_refused(rom: Seq<u8>, index: int, byte: u8, now: u64)
        requires
            rom_valid(rom),
            checksum_valid(rom),
            HEADER_TITLE <= index <= HEADER_CHECKSUM,
            byte != rom[index],
        ensures
            load_outcome(rom.update(index, byte), now) == Err::<CartridgeView, CartridgeError>(
                CartridgeError::InvalidCartridge,
            ),
    {
        let mutated = rom.update(index, byte);
        let covered = rom.subrange(HEADER_TITLE as int, HEADER_CHECKSUM as int);
        if index < HEADER_CHECKSUM {
            assert(mutated.subrange(HEADER_TITLE as int, HEADER_CHECKSUM as int) =~= covered.update(
                index - HEADER_TITLE,
                byte,
            ));
            lemma_byte_sum_update(covered, index - HEADER_TITLE, byte);
        } else {
            assert(mutated.subrange(HEADER_TITLE as int, HEADER_CHECKSUM as int) =~= covered);
        }
    }

    /// RAM contents and a clock that are saved and loaded again are those
    /// that were saved: the cartridge is the same, bit for bit.
    pub proof fn law_save_load(self)
        requires
            self.wf(),
        ensures
            self.with_base(
                self.base().with_ram(self.base().ram_banks).with_rtc_record(
                    self.base().rtc.record(),
                ),
            ) == self,
    {
        self.base().law_save_load();
    }
}

impl View for Cartridge {
    type V = CartridgeView;

    open spec fn view(&self) -> CartridgeView {
        match self.controller {
            Controller::ROMOnly(mbc) => CartridgeView::ROMOnly(mbc@),
            Controller::MBC1(mbc) => CartridgeView::MBC1(mbc@),
            Controller::MBC2(mbc) => CartridgeView::MBC2(mbc@),
            Controller::MBC3(mbc) => CartridgeView::MBC3(mbc@),
            Controller::MBC5(mbc) => CartridgeView::MBC5(mbc@),
        }
    }
}

impl Cartridge {
    /// The model is well formed.
    pub open spec fn wf(&self) -> bool {
        self@.wf()
    }

    /// Whether the cartridge is well formed.
    pub fn is_valid(&self) -> (valid: bool)
        ensures
            valid == self.wf(),
    {
        match &self.controller {
            Controller::ROMOnly(mbc) => mbc.is_valid(),
            Controller::MBC1(mbc) => mbc.is_valid(),
            Controller::MBC2(mbc) => mbc.is_valid(),
            Controller::MBC3(mbc) => mbc.is_valid(),
            Controller::MBC5(mbc) => mbc.is_valid(),
        }
    }

    /// Makes a cartridge of a ROM, a RAM and the controller that `mbc`
    /// names. Its clock starts at the wall-clock time `now`.
    pub fn new(rom: ROM, ram: RAM, mbc: MBC, now: u64) -> (cartridge: Cartridge)
        requires
            rom.wf(),
            ram.wf(),
        ensures
            cartridge@ == CartridgeView::initial(rom@, ram@, mbc, now),
            cartridge.wf(),
    {
        let controller = match mbc.kind {
            MBCKind::ROMOnly => Controller::ROMOnly(
                ROMOnly::new(rom, ram, mbc.type_id, mbc.sram, mbc.battery, mbc.rtc, now),
            ),
            MBCKind::MBC1 => Controller::MBC1(
                MBC1::new(rom, ram, mbc.type_id, mbc.sram, mbc.battery, mbc.rtc, now),
            ),
            MBCKind::MBC2 => Controller::MBC2(
                MBC2::new(rom, ram, mbc.type_id, mbc.sram, mbc.battery, mbc.rtc, now),
            ),
            MBCKind::MBC3 => Controller::MBC3(
                MBC3::new(rom, ram, mbc.type_id, mbc.sram, mbc.battery, mbc.rtc, now),
            ),
            MBCKind::MBC5 => Controller::MBC5(
                MBC5::new(rom, ram, mbc.type_id, mbc.sram, mbc.battery, mbc.rtc, now),
            ),
        };
        Cartridge { controller }
    }

    /// Loads a ROM image: checks its size and its header checksum, looks up
    /// the cartridge type and the RAM size, and makes the cartridge, with a
    /// clock that starts at the wall-clock time `now`.
    pub fn load_cartridge(rom_data: Vec<u8>, now: u64) -> (result: Result<
        Cartridge,
        CartridgeError,
    >)
        ensures
            match load_outcome(rom_data@, now) {
                Ok(view) => result matches Ok(cartridge) && cartridge@ == view && cartridge.wf(),
                Err(error) => result matches Err(e) && e == error,
            },
    {
        let rom = match load_rom(rom_data) {
            Ok(rom) => rom,
            Err(error) => {
                return Err(error);
            },
        };
        if !validate_cartridge(&rom.data) {
            return Err(CartridgeError::InvalidCartridge);
        }
        let mbc = match MBC::lookup(rom.data[HEADER_CART_TYPE]) {
            Some(mbc) => mbc,
            None => {
                return Err(CartridgeError::UnsupportedCartridgeType);
            },
        };
        let ram = RAM::new(external_ram_count(rom.data[HEADER_RAM_SIZE]));
        Ok(Cartridge::new(rom, ram, mbc, now))
    }

    /// Writes `value` to `address`.
    pub fn set_item(&mut self, address: u16, value: u8)
        requires
            old(self).wf(),
        ensures
            final(self)@ == old(self)@.set_item(address, value),
            final(self).wf(),
    {
        match &mut self.controller {
            Controller::ROMOnly(mbc) => mbc.set_item(address, value),
            Controller::MBC1(mbc) => mbc.set_item(address, value),
            Controller::MBC2(mbc) => mbc.set_item(address, value),
            Controller::MBC3(mbc) => mbc.set_item(address, value),
            Controller::MBC5(mbc) => mbc.set_item(address, value),
        }
    }

    /// Reads `address`. A read outside every window gives 0xFF and is
    /// recorded; any other read leaves the cartridge as it is.
    pub fn get_item(&mut self, address: u16) -> (value: u8)
        requires
            old(self).wf(),
        ensures
            value == old(self)@.get_item(address),
            final(self)@ == old(self)@.after_get(address),
            recognized(address) ==> *final(self) == *old(self),
            final(self).wf(),
    {
        match &mut self.controller {
            Controller::ROMOnly(mbc) => mbc.get_item(address),
            Controller::MBC1(mbc) => mbc.get_item(address),
            Controller::MBC2(mbc) => mbc.get_item(address),
            Controller::MBC3(mbc) => mbc.get_item(address),
            Controller::MBC5(mbc) => mbc.get_item(address),
        }
    }

    /// Hands the clock of the cartridge the wall-clock time.
    pub fn set_time(&mut self, now: u64)
        requires
            old(self).wf(),
        ensures
            final(self)@ == old(self)@.with_base(
                BaseMBCView { rtc: old(self)@.base().rtc.at_time(now), ..old(self)@.base() },
            ),
            final(self).wf(),
    {
        match &mut self.controller {
            Controller::ROMOnly(mbc) => mbc.mbc.set_time(now),
            Controller::MBC1(mbc) => mbc.base_mbc.set_time(now),
            Controller::MBC2(mbc) => mbc.base_mbc.set_time(now),
            Controller::MBC3(mbc) => mbc.base_mbc.set_time(now),
            Controller::MBC5(mbc) => mbc.base_mbc.set_time(now),
        }
    }

    /// The contents of the RAM, to be kept: exactly its bytes.
    pub fn save_ram(&self) -> (bytes: Vec<u8>)
        ensures
            bytes@ == self@.base().ram_banks,
    {
        match &self.controller {
            Controller::ROMOnly(mbc) => mbc.mbc.save_ram(),
            Controller::MBC1(mbc) => mbc.base_mbc.save_ram(),
            Controller::MBC2(mbc) => mbc.base_mbc.save_ram(),
            Controller::MBC3(mbc) => mbc.base_mbc.save_ram(),
            Controller::MBC5(mbc) => mbc.base_mbc.save_ram(),
        }
    }

    /// Takes RAM contents that were kept. Returns whether they are as long
    /// as the RAM; if not, nothing changes.
    pub fn load_ram(&mut self, bytes: &Vec<u8>) -> (loaded: bool)
        requires
            old(self).wf(),
        ensures
            loaded == (bytes@.len() == old(self)@.base().ram_banks.len()),
            final(self)@ == old(self)@.with_base(old(self)@.base().with_ram(bytes@)),
            final(self).wf(),
    {
        match &mut self.controller {
            Controller::ROMOnly(mbc) => mbc.mbc.load_ram(bytes),
            Controller::MBC1(mbc) => mbc.base_mbc.load_ram(bytes),
            Controller::MBC2(mbc) => mbc.base_mbc.load_ram(bytes),
            Controller::MBC3(mbc) => mbc.base_mbc.load_ram(bytes),
            Controller::MBC5(mbc) => mbc.base_mbc.load_ram(bytes),
        }
    }

    /// The record of the clock, to be kept.
    pub fn save_rtc(&self) -> (record: Vec<u8>)
        ensures
            record@ == self@.base().rtc.record(),
    {
        match &self.controller {
            Controller::ROMOnly(mbc) => mbc.mbc.save_rtc(),
            Controller::MBC1(mbc) => mbc.base_mbc.save_rtc(),
            Controller::MBC2(mbc) => mbc.base_mbc.save_rtc(),
            Controller::MBC3(mbc) => mbc.base_mbc.save_rtc(),
            Controller::MBC5(mbc) => mbc.base_mbc.save_rtc(),
        }
    }

    /// Takes a record of the clock that was kept. Returns whether it holds a
    /// clock; if not, nothing changes.
    pub fn load_rtc(&mut self, record: &Vec<u8>) -> (loaded: bool)
        requires
            old(self).wf(),
        ensures
            loaded == rtc::RTC::parse_record(record@, old(self)@.base().rtc.now).is_some(),
            final(self)@ == old(self)@.with_base(old(self)@.base().with_rtc_record(record@)),
            final(self).wf(),
    {
        match &mut self.controller {
            Controller::ROMOnly(mbc) => mbc.mbc.load_rtc(record),
            Controller::MBC1(mbc) => mbc.base_mbc.load_rtc(record),
            Controller::MBC2(mbc) => mbc.base_mbc.load_rtc(record),
            Controller::MBC3(mbc) => mbc.base_mbc.load_rtc(record),
            Controller::MBC5(mbc) => mbc.base_mbc.load_rtc(record),
        }
    }
}

} // verus!
