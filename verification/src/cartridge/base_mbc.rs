//! What all bank controllers share: the banks, the clock, and the registers
//! that select a bank and enable the RAM.

use crate::cartridge::rtc::RTC;
use crate::cartridge::{
    header_cgb, header_title, ram_bank_count, ram_valid, rom_bank_count, rom_valid, HEADER_CGB_FLAG,
    HEADER_TITLE, RAM, RAM_BANK_SIZE, ROM, ROM_BANK_SIZE,
};
use vstd::prelude::*;

verus! {

/// The state that all bank controllers share.
#[derive(Debug, PartialEq, Eq)]
pub struct BaseMBC {
    /// The title, as the header of the ROM holds it.
    pub game_title: Vec<u8>,
    pub rom_banks: ROM,
    pub ram_banks: RAM,
    /// The cartridge type, as the header gives it.
    pub cart_type: u8,
    /// Whether the cartridge type comes with RAM.
    pub sram: bool,
    /// Whether the cartridge type comes with a battery.
    pub battery_enabled: bool,
    /// Whether the cartridge type comes with a clock.
    pub rtc_enabled: bool,
    pub rtc: RTC,
    /// The banking mode.
    pub memory_model: u8,
    /// Whether the RAM window is open.
    pub ram_bank_enabled: bool,
    /// Whether the RAM banks have been allocated.
    pub ram_bank_initialized: bool,
    /// The RAM bank, or clock register, that the RAM window shows.
    pub ram_bank_selected: u16,
    /// The ROM bank that the window at 0x4000 shows.
    pub rom_bank_selected: u16,
    /// Whether the header has the layout with the shorter title.
    pub cgb_mode: bool,
    /// The address of the last access that was outside every window.
    pub last_invalid_address: Option<u16>,
}

/// The cartridge without a bank controller: nothing is switched, and
/// nothing can be written.
#[derive(Debug, PartialEq, Eq)]
pub struct ROMOnly {
    pub mbc: BaseMBC,
}

/// The model of a `BaseMBC`: the banks and the title as sequences of bytes,
/// everything else as it is.
pub ghost struct BaseMBCView {
    pub game_title: Seq<u8>,
    pub rom_banks: Seq<u8>,
    pub ram_banks: Seq<u8>,
    pub cart_type: u8,
    pub sram: bool,
    pub battery_enabled: bool,
    pub rtc_enabled: bool,
    pub rtc: RTC,
    pub memory_model: u8,
    pub ram_bank_enabled: bool,
    pub ram_bank_initialized: bool,
    pub ram_bank_selected: u16,
    pub rom_bank_selected: u16,
    pub cgb_mode: bool,
    pub last_invalid_address: Option<u16>,
}

/// Whether `address` is in the window of the bank controller's registers
/// and of the ROM: everything below 0x8000.
pub open spec fn in_rom_window(address: u16) -> bool {
    address < 0x8000
}

/// Whether `address` is in the window of the cartridge RAM: from 0xA000 up
/// to 0xC000.
pub open spec fn in_ram_window(address: u16) -> bool {
    0xA000 <= address < 0xC000
}

/// Whether `address` is in a window of the cartridge.
pub open spec fn recognized(address: u16) -> bool {
    in_rom_window(address) || in_ram_window(address)
}

/// A bank number that has been written to a register which cannot hold
/// zero: zero becomes one.
pub open spec fn never_zero(value: u8) -> u8 {
    if value == 0 {
        1
    } else {
        value
    }
}

impl BaseMBCView {
    /// The state of a controller that has just been made for the banks
    /// `rom` and `ram`: the window at 0x4000 shows bank 1, or bank 0 where
    /// there is no other, the RAM window is closed, the clock starts at
    /// `now`.
    pub open spec fn initial(
        rom: Seq<u8>,
        ram: Seq<u8>,
        cart_type: u8,
        sram: bool,
        battery_enabled: bool,
        rtc_enabled: bool,
        now: u64,
    ) -> BaseMBCView {
        BaseMBCView {
            game_title: header_title(rom, header_cgb(rom)),
            rom_banks: rom,
            ram_banks: ram,
            cart_type,
            sram,
            battery_enabled,
            rtc_enabled,
            rtc: RTC::started(now),
            memory_model: 0,
            ram_bank_enabled: false,
            ram_bank_initialized: true,
            ram_bank_selected: 0,
            rom_bank_selected: if rom_bank_count(rom) > 1 {
                1
            } else {
                0
            },
            cgb_mode: header_cgb(rom),
            last_invalid_address: None,
        }
    }

    /// The number of ROM banks.
    pub open spec fn rom_count(self) -> int {
        rom_bank_count(self.rom_banks)
    }

    /// The number of RAM banks.
    pub open spec fn ram_count(self) -> int {
        ram_bank_count(self.ram_banks)
    }

    /// The banks are whole and allocated, the ROM bank selected exists, the
    /// title and the header layout are those of the ROM, and the clock is
    /// well formed. Nothing is read or written before the RAM banks are
    /// allocated.
    pub open spec fn wf(self) -> bool {
        &&& rom_valid(self.rom_banks)
        &&& ram_valid(self.ram_banks)
        &&& self.ram_bank_initialized
        &&& self.rom_bank_selected < self.rom_count()
        &&& self.cgb_mode == header_cgb(self.rom_banks)
        &&& self.game_title == header_title(self.rom_banks, self.cgb_mode)
        &&& self.rtc.wf()
    }

    /// What an address below 0x8000 reads as: bank 0 below 0x4000, the bank
    /// selected from there on.
    pub open spec fn read_rom(self, address: u16) -> u8 {
        if address < 0x4000 {
            self.rom_banks[address as int]
        } else {
            self.rom_banks[self.rom_bank_selected * 0x4000 + (address - 0x4000)]
        }
    }

    /// Whether the RAM window shows a RAM bank: it is open, and the bank
    /// selected exists.
    pub open spec fn ram_visible(self) -> bool {
        self.ram_bank_enabled && self.ram_bank_selected < self.ram_count()
    }

    /// Where in the RAM an address of the RAM window lies.
    pub open spec fn ram_index(self, address: u16) -> int {
        self.ram_bank_selected * 0x2000 + (address - 0xA000)
    }

    /// What an address of the RAM window reads as: the byte of the bank
    /// selected, or 0xFF if the window shows no bank.
    pub open spec fn read_ram(self, address: u16) -> u8 {
        if self.ram_visible() {
            self.ram_banks[self.ram_index(address)]
        } else {
            0xFF
        }
    }

    /// This state once `value` has been written to an address of the RAM
    /// window: the byte is stored in the bank selected, or nowhere if the
    /// window shows no bank.
    pub open spec fn write_ram(self, address: u16, value: u8) -> BaseMBCView {
        if self.ram_visible() {
            BaseMBCView { ram_banks: self.ram_banks.update(self.ram_index(address), value), ..self }
        } else {
            self
        }
    }

    /// This state once an access outside every window has been recorded.
    pub open spec fn invalid_access(self, address: u16) -> BaseMBCView {
        BaseMBCView { last_invalid_address: Some(address), ..self }
    }

    /// What `address` reads as: ROM, RAM, or 0xFF outside every window.
    pub open spec fn get_item(self, address: u16) -> u8 {
        if in_rom_window(address) {
            self.read_rom(address)
        } else if in_ram_window(address) {
            self.read_ram(address)
        } else {
            0xFF
        }
    }

    /// This state once `address` has been read: a read outside every window
    /// is recorded, any other read changes nothing.
    pub open spec fn after_get(self, address: u16) -> BaseMBCView {
        if recognized(address) {
            self
        } else {
            self.invalid_access(address)
        }
    }

    /// This state with the RAM contents `bytes`, if they are as long as the
    /// RAM; else this state.
    pub open spec fn with_ram(self, bytes: Seq<u8>) -> BaseMBCView {
        if bytes.len() == self.ram_banks.len() {
            BaseMBCView { ram_banks: bytes, ..self }
        } else {
            self
        }
    }

    /// This state with the clock that `record` holds, if it holds one; else
    /// this state. The wall-clock time stays.
    pub open spec fn with_rtc_record(self, record: Seq<u8>) -> BaseMBCView {
        match RTC::parse_record(record, self.rtc.now) {
            Some(rtc) => BaseMBCView { rtc, ..self },
            None => self,
        }
    }

    /// A read changes nothing but the record of invalid accesses.
    pub proof fn law_reads_change_nothing(self, address: u16)
        ensures
            self.after_get(address) == (BaseMBCView {
                last_invalid_address: self.after_get(address).last_invalid_address,
                ..self
            }),
            recognized(address) ==> self.after_get(address) == self,
    {
    }

    /// RAM contents that are saved and loaded again are the contents that
    /// were saved, and so is a clock: the state is the same, bit for bit.
    pub proof fn law_save_load(self)
        requires
            self.wf(),
        ensures
            self.with_ram(self.ram_banks) == self,
            self.with_rtc_record(self.rtc.record()) == self,
            self.with_ram(self.ram_banks).with_rtc_record(self.rtc.record()) == self,
    {
        self.rtc.law_save_load();
    }
}

impl View for BaseMBC {
    type V = BaseMBCView;

    open spec fn view(&self) -> BaseMBCView {
        BaseMBCView {
            game_title: self.game_title@,
            rom_banks: self.rom_banks@,
            ram_banks: self.ram_banks@,
            cart_type: self.cart_type,
            sram: self.sram,
            battery_enabled: self.battery_enabled,
            rtc_enabled: self.rtc_enabled,
            rtc: self.rtc,
            memory_model: self.memory_model,
            ram_bank_enabled: self.ram_bank_enabled,
            ram_bank_initialized: self.ram_bank_initialized,
            ram_bank_selected: self.ram_bank_selected,
            rom_bank_selected: self.rom_bank_selected,
            cgb_mode: self.cgb_mode,
            last_invalid_address: self.last_invalid_address,
        }
    }
}

impl BaseMBC {
    /// The model is well formed.
    pub open spec fn wf(&self) -> bool {
        self@.wf()
    }

    /// The state of a controller for the banks `rom_banks` and `ram_banks`,
    /// with a clock that starts at the wall-clock time `now`.
    pub fn new(
        rom_banks: ROM,
        ram_banks: RAM,
        cart_type: u8,
        sram: bool,
        battery_enabled: bool,
        rtc_enabled: bool,
        now: u64,
    ) -> (mbc: BaseMBC)
        requires
            rom_banks.wf(),
            ram_banks.wf(),
        ensures
            mbc@ == BaseMBCView::initial(
                rom_banks@,
                ram_banks@,
                cart_type,
                sram,
                battery_enabled,
                rtc_enabled,
                now,
            ),
            mbc.wf(),
    {
        let cgb_mode = rom_banks.data[HEADER_CGB_FLAG] >= 0x80;
        let game_title = BaseMBC::get_game_title(&rom_banks, cgb_mode);
        let rom_bank_selected: u16 = if rom_banks.bank_count() > 1 {
            1
        } else {
            0
        };
        BaseMBC {
            game_title,
            rom_banks,
            ram_banks,
            cart_type,
            sram,
            battery_enabled,
            rtc_enabled,
            rtc: RTC::new(now),
            memory_model: 0,
            ram_bank_enabled: false,
            ram_bank_initialized: true,
            ram_bank_selected: 0,
            rom_bank_selected,
            cgb_mode,
            last_invalid_address: None,
        }
    }

    /// Whether the state is well formed.
    #[verifier::loop_isolation(false)]
    pub fn is_valid(&self) -> (valid: bool)
        ensures
            valid == self.wf(),
    {
        let rom_len = self.rom_banks.data.len();
        if rom_len == 0 || rom_len % ROM_BANK_SIZE != 0 {
            return false;
        }
        if self.ram_banks.data.len() % RAM_BANK_SIZE != 0 || !self.ram_bank_initialized {
            return false;
        }
        if self.rom_bank_selected as usize >= rom_len / ROM_BANK_SIZE {
            return false;
        }
        if self.cgb_mode != (self.rom_banks.data[HEADER_CGB_FLAG] >= 0x80) {
            return false;
        }
        let title = BaseMBC::get_game_title(&self.rom_banks, self.cgb_mode);
        if title.len() != self.game_title.len() {
            return false;
        }
        let mut i: usize = 0;
        while i < title.len()
            invariant
                i <= title@.len(),
                title@.len() == self.game_title@.len(),
                title@.subrange(0, i as int) == self.game_title@.subrange(0, i as int),
            decreases title@.len() - i,
        {
            if title[i] != self.game_title[i] {
                return false;
            }
            i += 1;
        }
        assert(title@.subrange(0, i as int) =~= title@);
        assert(self.game_title@.subrange(0, i as int) =~= self.game_title@);
        self.rtc.is_valid()
    }

    /// The title in the header of `rom_banks`.
    pub fn get_game_title(rom_banks: &ROM, cgb_mode: bool) -> (title: Vec<u8>)
        requires
            rom_banks.wf(),
        ensures
            title@ == header_title(rom_banks@, cgb_mode),
    {
        let end: usize = if cgb_mode {
            0x0142
        } else {
            0x0143
        };
        let mut title: Vec<u8> = Vec::new();
        let mut x: usize = HEADER_TITLE;
        while x < end
            invariant
                HEADER_TITLE <= x <= end,
                end <= 0x0143,
                rom_banks.wf(),
                title@ == rom_banks@.subrange(HEADER_TITLE as int, x as int),
            decreases end - x,
        {
            title.push(rom_banks.data[x]);
            x += 1;
        }
        title
    }

    /// The number of ROM banks.
    pub fn external_rom_count(&self) -> (count: usize)
        requires
            self.wf(),
        ensures
            count == self@.rom_count(),
            count > 0,
    {
        self.rom_banks.bank_count()
    }

    /// The number of RAM banks.
    pub fn external_ram_count(&self) -> (count: usize)
        requires
            self.wf(),
        ensures
            count == self@.ram_count(),
    {
        self.ram_banks.bank_count()
    }

    /// Reads an address below 0x8000.
    pub fn read_rom(&self, address: u16) -> (value: u8)
        requires
            self.wf(),
            in_rom_window(address),
        ensures
            value == self@.read_rom(address),
    {
        if address < 0x4000 {
            self.rom_banks.read(0, address as usize)
        } else {
            self.rom_banks.read(self.rom_bank_selected as usize, (address - 0x4000) as usize)
        }
    }

    /// Reads an address of the RAM window.
    pub fn read_ram(&self, address: u16) -> (value: u8)
        requires
            self.wf(),
            in_ram_window(address),
        ensures
            value == self@.read_ram(address),
    {
        if self.ram_bank_enabled && (self.ram_bank_selected as usize)
            < self.ram_banks.bank_count() {
            self.ram_banks.read(self.ram_bank_selected as usize, (address - 0xA000) as usize)
        } else {
            0xFF
        }
    }

    /// Writes to an address of the RAM window.
    pub fn write_ram(&mut self, address: u16, value: u8)
        requires
            old(self).wf(),
            in_ram_window(address),
        ensures
            final(self)@ == old(self)@.write_ram(address, value),
            final(self).wf(),
    {
        if self.ram_bank_enabled && (self.ram_bank_selected as usize)
            < self.ram_banks.bank_count() {
            self.ram_banks.write(
                self.ram_bank_selected as usize,
                (address - 0xA000) as usize,
                value,
            );
        }
    }

    /// Records an access outside every window.
    pub fn record_invalid(&mut self, address: u16)
        ensures
            final(self)@ == old(self)@.invalid_access(address),
    {
        self.last_invalid_address = Some(address);
    }

    /// Reads `address`. A read outside every window gives 0xFF and is
    /// recorded; any other read leaves the controller as it is.
    pub fn get_item(&mut self, address: u16) -> (value: u8)
        requires
            old(self).wf(),
        ensures
            value == old(self)@.get_item(address),
            final(self)@ == old(self)@.after_get(address),
            recognized(address) ==> *final(self) == *old(self),
            final(self).wf(),
    {
        if address < 0x8000 {
            self.read_rom(address)
        } else if 0xA000 <= address && address < 0xC000 {
            self.read_ram(address)
        } else {
            self.record_invalid(address);
            0xFF
        }
    }

    /// The contents of the RAM, to be kept.
    pub fn save_ram(&self) -> (bytes: Vec<u8>)
        ensures
            bytes@ == self@.ram_banks,
    {
        self.ram_banks.save()
    }

    /// Takes RAM contents that were kept. Returns whether they are as long
    /// as the RAM; if not, nothing changes.
    pub fn load_ram(&mut self, bytes: &Vec<u8>) -> (loaded: bool)
        requires
            old(self).wf(),
        ensures
            loaded == (bytes@.len() == old(self)@.ram_banks.len()),
            final(self)@ == old(self)@.with_ram(bytes@),
            final(self).wf(),
    {
        self.ram_banks.load(bytes)
    }

    /// The record of the clock, to be kept.
    pub fn save_rtc(&self) -> (record: Vec<u8>)
        ensures
            record@ == self@.rtc.record(),
    {
        self.rtc.save_state()
    }

    /// Takes a record of the clock that was kept. Returns whether it holds a
    /// clock; if not, nothing changes.
    pub fn load_rtc(&mut self, record: &Vec<u8>) -> (loaded: bool)
        requires
            old(self).wf(),
        ensures
            loaded == RTC::parse_record(record@, old(self)@.rtc.now).is_some(),
            final(self)@ == old(self)@.with_rtc_record(record@),
            final(self).wf(),
    {
        match RTC::load_state(record, self.rtc.now) {
            Some(rtc) => {
                self.rtc = rtc;
                true
            },
            None => false,
        }
    }

    /// Hands the clock the wall-clock time.
    pub fn set_time(&mut self, now: u64)
        requires
            old(self).wf(),
        ensures
            final(self)@ == (BaseMBCView { rtc: old(self)@.rtc.at_time(now), ..old(self)@ }),
            final(self).wf(),
    {
        self.rtc.set_time(now);
    }
}

impl View for ROMOnly {
    type V = BaseMBCView;

    open spec fn view(&self) -> BaseMBCView {
        self.mbc@
    }
}

impl ROMOnly {
    /// The model is well formed.
    pub open spec fn wf(&self) -> bool {
        self@.wf()
    }

    /// The state once `value` has been written to `address`: a write in a
    /// window changes nothing, a write outside every window is recorded and
    /// changes nothing else.
    pub open spec fn set_item_spec(view: BaseMBCView, address: u16, value: u8) -> BaseMBCView {
        if recognized(address) {
            view
        } else {
            view.invalid_access(address)
        }
    }

    /// What `address` reads as: bank 0 below 0x4000, bank 1 from there up to
    /// 0x8000, and 0xFF anywhere else, as there is no RAM to show.
    pub open spec fn get_item_spec(view: BaseMBCView, address: u16) -> u8 {
        if in_rom_window(address) {
            view.read_rom(address)
        } else {
            0xFF
        }
    }

    /// Whether the cartridge is well formed.
    pub fn is_valid(&self) -> (valid: bool)
        ensures
            valid == self.wf(),
    {
        self.mbc.is_valid()
    }

    /// A cartridge without a bank controller, for the banks `rom_banks` and
    /// `ram_banks`.
    pub fn new(
        rom_banks: ROM,
        ram_banks: RAM,
        cart_type: u8,
        sram: bool,
        battery_enabled: bool,
        rtc_enabled: bool,
        now: u64,
    ) -> (mbc: ROMOnly)
        requires
            rom_banks.wf(),
            ram_banks.wf(),
        ensures
            mbc@ == BaseMBCView::initial(
                rom_banks@,
                ram_banks@,
                cart_type,
                sram,
                battery_enabled,
                rtc_enabled,
                now,
            ),
            mbc.wf(),
    {
        ROMOnly {
            mbc: BaseMBC::new(
                rom_banks,
                ram_banks,
                cart_type,
                sram,
                battery_enabled,
                rtc_enabled,
                now,
            ),
        }
    }

    /// Writes `value` to `address`.
    pub fn set_item(&mut self, address: u16, value: u8)
        requires
            old(self).wf(),
        ensures
            final(self)@ == ROMOnly::set_item_spec(old(self)@, address, value),
            final(self).wf(),
    {
        if !(address < 0x8000 || (0xA000 <= address && address < 0xC000)) {
            self.mbc.record_invalid(address);
        }
    }

    /// Reads `address`. A read outside every window gives 0xFF and is
    /// recorded; any other read leaves the cartridge as it is.
    pub fn get_item(&mut self, address: u16) -> (value: u8)
        requires
            old(self).wf(),
        ensures
            value == ROMOnly::get_item_spec(old(self)@, address),
            final(self)@ == old(self)@.after_get(address),
            recognized(address) ==> *final(self) == *old(self),
            final(self).wf(),
    {
        if address < 0x8000 {
            self.mbc.read_rom(address)
        } else {
            if !(0xA000 <= address && address < 0xC000) {
                self.mbc.record_invalid(address);
            }
            0xFF
        }
    }
}

} // verus!
