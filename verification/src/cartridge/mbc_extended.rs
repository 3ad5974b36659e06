//! The bank controllers that switch banks: MBC1, MBC2, MBC3 and MBC5.
//!
//! Each takes writes below 0x8000 as writes to its registers, and shows ROM
//! below 0x8000 and RAM from 0xA000 up to 0xC000. A bank number that is too
//! large for the cartridge is reduced modulo the number of banks.

use crate::bits::{lemma_byte_masks, lemma_word_fields};
use crate::cartridge::base_mbc::{
    in_ram_window, in_rom_window, never_zero, recognized, BaseMBC, BaseMBCView,
};
use crate::cartridge::rtc::RTC;
use crate::cartridge::{RAM, ROM};
use vstd::arithmetic::div_mod::lemma_mod_decreases;
use vstd::prelude::*;

verus! {

/// The size of the RAM that an MBC2 has built in: 512 half bytes.
pub const MBC2_RAM_SIZE: usize = 512;

/// The controller with a 5-bit and a 2-bit bank register and two banking
/// modes.
#[derive(Debug, PartialEq, Eq)]
pub struct MBC1 {
    pub base_mbc: BaseMBC,
    /// The low register: five bits, never zero.
    pub bank_select_register1: u8,
    /// The high register: two bits.
    pub bank_select_register2: u8,
}

/// The controller with RAM of 512 half bytes built in.
#[derive(Debug, PartialEq, Eq)]
pub struct MBC2 {
    pub base_mbc: BaseMBC,
}

/// The controller that can carry a clock.
#[derive(Debug, PartialEq, Eq)]
pub struct MBC3 {
    pub base_mbc: BaseMBC,
}

/// The controller with a 9-bit ROM bank number, held in two registers.
#[derive(Debug, PartialEq, Eq)]
pub struct MBC5 {
    pub base_mbc: BaseMBC,
    /// The low register: the low eight bits of the ROM bank number.
    pub rom_bank_low: u8,
    /// The high register: bit 8 of the ROM bank number.
    pub rom_bank_high: u8,
}

/// The model of an `MBC1`.
pub ghost struct MBC1View {
    pub base_mbc: BaseMBCView,
    pub bank_select_register1: u8,
    pub bank_select_register2: u8,
}

/// The model of an `MBC5`.
pub ghost struct MBC5View {
    pub base_mbc: BaseMBCView,
    pub rom_bank_low: u8,
    pub rom_bank_high: u8,
}

/// The bank that the number `bank` selects where there are `count` banks:
/// `bank` modulo `count`, and bank 0 where there is none.
pub open spec fn reduced(bank: int, count: int) -> u16 {
    if count > 0 {
        (bank % count) as u16
    } else {
        0
    }
}

/// The bank that `bank` selects among `count` banks.
pub fn reduce(bank: u16, count: usize) -> (selected: u16)
    ensures
        selected == reduced(bank as int, count as int),
        count > 0 ==> selected < count,
{
    if count > 0 {
        (bank as usize % count) as u16
    } else {
        0
    }
}

impl MBC1View {
    /// The ROM bank that the registers select, in either banking mode: the
    /// high register above the five bits of the low one, reduced to the
    /// banks there are.
    pub open spec fn rom_bank(self) -> u16 {
        reduced(
            self.bank_select_register2 * 32 + self.bank_select_register1,
            self.base_mbc.rom_count(),
        )
    }

    /// The RAM bank that the registers select: the high register in the
    /// mode for large RAM, reduced to the banks there are; else bank 0.
    pub open spec fn ram_bank(self) -> u16 {
        if self.base_mbc.memory_model == 1 {
            reduced(self.bank_select_register2 as int, self.base_mbc.ram_count())
        } else {
            0
        }
    }

    /// This state with the banks selected that the registers select.
    pub open spec fn refreshed(self) -> MBC1View {
        MBC1View {
            base_mbc: BaseMBCView {
                rom_bank_selected: self.rom_bank(),
                ram_bank_selected: self.ram_bank(),
                ..self.base_mbc
            },
            ..self
        }
    }

    /// The registers are in range, and the banks selected are those that
    /// the registers select.
    pub open spec fn wf(self) -> bool {
        &&& self.base_mbc.wf()
        &&& 1 <= self.bank_select_register1 <= 0x1F
        &&& self.bank_select_register2 <= 0x03
        &&& self.base_mbc.memory_model <= 1
        &&& self.base_mbc.rom_bank_selected == self.rom_bank()
        &&& self.base_mbc.ram_bank_selected == self.ram_bank()
    }

    /// The state of an MBC1 that has just been made: the low register holds
    /// 1, the high register 0.
    pub open spec fn initial(base_mbc: BaseMBCView) -> MBC1View {
        MBC1View { base_mbc, bank_select_register1: 1, bank_select_register2: 0 }.refreshed()
    }

    /// This state once `value` has been written to `address`.
    ///
    /// Below 0x2000 the write opens the RAM window if the low nibble of the
    /// value is 0xA, and closes it otherwise. From 0x2000 it sets the low
    /// register, where 0 becomes 1; from 0x4000 the high register; from
    /// 0x6000 the banking mode. In the RAM window it stores the value.
    /// Anywhere else it is recorded and changes nothing.
    pub open spec fn set_item(self, address: u16, value: u8) -> MBC1View {
        if address < 0x2000 {
            MBC1View {
                base_mbc: BaseMBCView { ram_bank_enabled: value % 16 == 0x0A, ..self.base_mbc },
                ..self
            }
        } else if address < 0x4000 {
            MBC1View { bank_select_register1: never_zero(value % 32), ..self }.refreshed()
        } else if address < 0x6000 {
            MBC1View { bank_select_register2: value % 4, ..self }.refreshed()
        } else if address < 0x8000 {
            MBC1View {
                base_mbc: BaseMBCView { memory_model: value % 2, ..self.base_mbc },
                ..self
            }.refreshed()
        } else if in_ram_window(address) {
            MBC1View { base_mbc: self.base_mbc.write_ram(address, value), ..self }
        } else {
            MBC1View { base_mbc: self.base_mbc.invalid_access(address), ..self }
        }
    }

    /// What `address` reads as.
    pub open spec fn get_item(self, address: u16) -> u8 {
        self.base_mbc.get_item(address)
    }

    /// This state once `address` has been read.
    pub open spec fn after_get(self, address: u16) -> MBC1View {
        MBC1View { base_mbc: self.base_mbc.after_get(address), ..self }
    }

    /// A write of 0 to the low register is a write of 1: the states are the
    /// same, and so is everything read from them.
    pub proof fn law_zero_selects_one(self, address: u16)
        requires
            0x2000 <= address < 0x4000,
        ensures
            self.set_item(address, 0) == self.set_item(address, 1),
            forall|read: u16|
                self.set_item(address, 0).get_item(read) == self.set_item(address, 1).get_item(
                    read,
                ),
    {
    }
}

impl View for MBC1 {
    type V = MBC1View;

    open spec fn view(&self) -> MBC1View {
        MBC1View {
            base_mbc: self.base_mbc@,
            bank_select_register1: self.bank_select_register1,
            bank_select_register2: self.bank_select_register2,
        }
    }
}

impl MBC1 {
    /// The model is well formed.
    pub open spec fn wf(&self) -> bool {
        self@.wf()
    }

    /// Whether the controller is well formed.
    pub fn is_valid(&self) -> (valid: bool)
        ensures
            valid == self.wf(),
    {
        if !self.base_mbc.is_valid() {
            return false;
        }
        if self.bank_select_register1 == 0 || self.bank_select_register1 > 0x1F
            || self.bank_select_register2 > 0x03 || self.base_mbc.memory_model > 1 {
            return false;
        }
        proof {
            lemma_word_fields(
                self.bank_select_register1 as u16,
                self.bank_select_register2 as u16,
                0,
            );
        }
        let bank = ((self.bank_select_register2 as u16) << 5) | (self.bank_select_register1 as u16);
        let rom_bank = reduce(bank, self.base_mbc.external_rom_count());
        let ram_bank = if self.base_mbc.memory_model == 1 {
            reduce(self.bank_select_register2 as u16, self.base_mbc.external_ram_count())
        } else {
            0
        };
        self.base_mbc.rom_bank_selected == rom_bank && self.base_mbc.ram_bank_selected == ram_bank
    }

    /// An MBC1 for the banks `rom_banks` and `ram_banks`.
    pub fn new(
        rom_banks: ROM,
        ram_banks: RAM,
        cart_type: u8,
        sram: bool,
        battery_enabled: bool,
        rtc_enabled: bool,
        now: u64,
    ) -> (mbc: MBC1)
        requires
            rom_banks.wf(),
            ram_banks.wf(),
        ensures
            mbc@ == MBC1View::initial(
                BaseMBCView::initial(
                    rom_banks@,
                    ram_banks@,
                    cart_type,
                    sram,
                    battery_enabled,
                    rtc_enabled,
                    now,
                ),
            ),
            mbc.wf(),
    {
        let mut mbc = MBC1 {
            base_mbc: BaseMBC::new(
                rom_banks,
                ram_banks,
                cart_type,
                sram,
                battery_enabled,
                rtc_enabled,
                now,
            ),
            bank_select_register1: 1,
            bank_select_register2: 0,
        };
        mbc.refresh();
        mbc
    }

    /// Selects the banks that the registers select.
    fn refresh(&mut self)
        requires
            old(self).base_mbc.wf(),
            old(self).bank_select_register1 < 32,
        ensures
            final(self)@ == old(self)@.refreshed(),
            final(self).base_mbc.wf(),
    {
        proof {
            lemma_word_fields(
                self.bank_select_register1 as u16,
                self.bank_select_register2 as u16,
                0,
            );
        }
        let rom_count = self.base_mbc.external_rom_count();
        let ram_count = self.base_mbc.external_ram_count();
        let bank = ((self.bank_select_register2 as u16) << 5) | (self.bank_select_register1 as u16);
        self.base_mbc.rom_bank_selected = reduce(bank, rom_count);
        self.base_mbc.ram_bank_selected = if self.base_mbc.memory_model == 1 {
            reduce(self.bank_select_register2 as u16, ram_count)
        } else {
            0
        };
    }

    /// Writes `value` to `address`.
    pub fn set_item(&mut self, address: u16, value: u8)
        requires
            old(self).wf(),
        ensures
            final(self)@ == old(self)@.set_item(address, value),
            final(self).wf(),
    {
        proof {
            lemma_byte_masks(value);
        }
        if address < 0x2000 {
            self.base_mbc.ram_bank_enabled = (value & 0x0F) == 0x0A;
        } else if address < 0x4000 {
            let mut bank = value & 0x1F;
            if bank == 0 {
                bank = 1;
            }
            self.bank_select_register1 = bank;
            self.refresh();
        } else if address < 0x6000 {
            self.bank_select_register2 = value & 0x03;
            self.refresh();
        } else if address < 0x8000 {
            self.base_mbc.memory_model = value & 0x01;
            self.refresh();
        } else if 0xA000 <= address && address < 0xC000 {
            self.base_mbc.write_ram(address, value);
        } else {
            self.base_mbc.record_invalid(address);
        }
    }

    /// Reads `address`. A read outside every window gives 0xFF and is
    /// recorded; any other read leaves the controller as it is.
    pub fn get_item(&mut self, address: u16) -> (value: u8)
        requires
            old(self).wf(),
        ensures
            value == old(self)@.get_item(address),
            final(self)@ == old(self)@.after_get(address),
            recognized(address) ==> *final(self) == *old(self),
            final(self).wf(),
    {
        self.base_mbc.get_item(address)
    }
}

impl View for MBC2 {
    type V = BaseMBCView;

    open spec fn view(&self) -> BaseMBCView {
        self.base_mbc@
    }
}

impl MBC2 {
    /// The model is well formed.
    pub open spec fn wf(&self) -> bool {
        self@.wf()
    }

    /// Whether the RAM window shows the built-in RAM: it is open, and the
    /// RAM is there.
    pub open spec fn ram_visible(view: BaseMBCView) -> bool {
        view.ram_bank_enabled && view.ram_banks.len() >= MBC2_RAM_SIZE
    }

    /// The state once `value` has been written to `address`.
    ///
    /// Below 0x4000 the lowest bit of the high byte of the address (bit 8)
    /// tells what the write does: where it is clear, the write opens the
    /// RAM window if the low nibble of the value is 0xA, and closes it
    /// otherwise; where it is set, the low nibble selects the ROM bank, 0
    /// standing for 1. From 0x4000 there is no register. In the RAM window
    /// the write stores the low nibble of the value, in one of 512 places,
    /// with ones above it. Outside every window it is recorded and changes
    /// nothing.
    pub open spec fn set_item_spec(view: BaseMBCView, address: u16, value: u8) -> BaseMBCView {
        if address < 0x4000 {
            if (address / 0x0100) % 2 == 0 {
                BaseMBCView { ram_bank_enabled: value % 16 == 0x0A, ..view }
            } else {
                BaseMBCView {
                    rom_bank_selected: reduced(never_zero(value % 16) as int, view.rom_count()),
                    ..view
                }
            }
        } else if address < 0x8000 {
            view
        } else if in_ram_window(address) {
            if MBC2::ram_visible(view) {
                BaseMBCView {
                    ram_banks: view.ram_banks.update(
                        address as int % 512,
                        (0xF0 + value % 16) as u8,
                    ),
                    ..view
                }
            } else {
                view
            }
        } else {
            view.invalid_access(address)
        }
    }

    /// What `address` reads as. In the RAM window the upper nibble of every
    /// byte reads as ones.
    pub open spec fn get_item_spec(view: BaseMBCView, address: u16) -> u8 {
        if in_rom_window(address) {
            view.read_rom(address)
        } else if in_ram_window(address) {
            if MBC2::ram_visible(view) {
                (0xF0 + view.ram_banks[address as int % 512] % 16) as u8
            } else {
                0xFF
            }
        } else {
            0xFF
        }
    }

    /// Whether the controller is well formed.
    pub fn is_valid(&self) -> (valid: bool)
        ensures
            valid == self.wf(),
    {
        self.base_mbc.is_valid()
    }

    /// An MBC2 for the banks `rom_banks` and `ram_banks`.
    pub fn new(
        rom_banks: ROM,
        ram_banks: RAM,
        cart_type: u8,
        sram: bool,
        battery_enabled: bool,
        rtc_enabled: bool,
        now: u64,
    ) -> (mbc: MBC2)
        requires
            rom_banks.wf(),
            ram_banks.wf(),
        ensures
            mbc@ == BaseMBCView::initial(
                rom_banks@,
                ram_banks@,
                cart_type,
                sram,
                battery_enabled,
                rtc_enabled,
                now,
            ),
            mbc.wf(),
    {
        MBC2 {
            base_mbc: BaseMBC::new(
                rom_banks,
                ram_banks,
                cart_type,
                sram,
                battery_enabled,
                rtc_enabled,
                now,
            ),
        }
    }

    /// Writes `value` to `address`.
    pub fn set_item(&mut self, address: u16, value: u8)
        requires
            old(self).wf(),
        ensures
            final(self)@ == MBC2::set_item_spec(old(self)@, address, value),
            final(self).wf(),
    {
        proof {
            lemma_byte_masks(value);
        }
        proof {
            lemma_word_fields(0, 0, address);
        }
        if address < 0x4000 {
            let mut value = value & 0x0F;
            if (address & 0x0100) == 0 {
                self.base_mbc.ram_bank_enabled = value == 0x0A;
            } else {
                if value == 0 {
                    value = 1;
                }
                self.base_mbc.rom_bank_selected = reduce(
                    value as u16,
                    self.base_mbc.external_rom_count(),
                );
            }
        } else if address < 0x8000 {
        } else if 0xA000 <= address && address < 0xC000 {
            if self.base_mbc.ram_bank_enabled && self.base_mbc.ram_banks.data.len()
                >= MBC2_RAM_SIZE {
                self.base_mbc.ram_banks.data[(address % 512) as usize] = value | 0xF0;
            }
        } else {
            self.base_mbc.record_invalid(address);
        }
    }

    /// Reads `address`. A read outside every window gives 0xFF and is
    /// recorded; any other read leaves the controller as it is.
    pub fn get_item(&mut self, address: u16) -> (value: u8)
        requires
            old(self).wf(),
        ensures
            value == MBC2::get_item_spec(old(self)@, address),
            final(self)@ == old(self)@.after_get(address),
            recognized(address) ==> *final(self) == *old(self),
            final(self).wf(),
    {
        if address < 0x8000 {
            self.base_mbc.read_rom(address)
        } else if 0xA000 <= address && address < 0xC000 {
            if self.base_mbc.ram_bank_enabled && self.base_mbc.ram_banks.data.len()
                >= MBC2_RAM_SIZE {
                let stored = self.base_mbc.ram_banks.data[(address % 512) as usize];
                proof {
                    lemma_byte_masks(stored);
                }
                stored | 0xF0
            } else {
                0xFF
            }
        } else {
            self.base_mbc.record_invalid(address);
            0xFF
        }
    }
}

impl View for MBC3 {
    type V = BaseMBCView;

    open spec fn view(&self) -> BaseMBCView {
        self.base_mbc@
    }
}

impl MBC3 {
    /// The model is well formed.
    pub open spec fn wf(&self) -> bool {
        self@.wf()
    }

    /// Whether a register of the clock is selected in place of a RAM bank.
    pub open spec fn clock_selected(view: BaseMBCView) -> bool {
        0x08 <= view.ram_bank_selected <= 0x0C
    }

    /// The state once `value` has been written to `address`.
    ///
    /// Below 0x2000 the write opens the RAM window if the low nibble of the
    /// value is 0xA, and closes it otherwise. From 0x2000 the low seven bits
    /// select the ROM bank, 0 standing for 1. From 0x4000 a value from 0x08
    /// to 0x0C selects that register of the clock, any other value a RAM
    /// bank. From 0x6000 the value is a latch command for the clock, if
    /// there is one: 0x01 straight after 0x00 latches the live game time.
    /// In the RAM window, if it is open, the write goes to the register of
    /// the clock that is selected, if there is a clock, or is stored in the
    /// RAM bank that is selected. Outside every window it is recorded and
    /// changes nothing.
    pub open spec fn set_item_spec(view: BaseMBCView, address: u16, value: u8) -> BaseMBCView {
        if address < 0x2000 {
            BaseMBCView { ram_bank_enabled: value % 16 == 0x0A, ..view }
        } else if address < 0x4000 {
            BaseMBCView {
                rom_bank_selected: reduced(never_zero(value % 128) as int, view.rom_count()),
                ..view
            }
        } else if address < 0x6000 {
            BaseMBCView {
                ram_bank_selected: if 0x08 <= value <= 0x0C {
                    value as u16
                } else {
                    reduced(value as int, view.ram_count())
                },
                ..view
            }
        } else if address < 0x8000 {
            if view.rtc_enabled {
                BaseMBCView { rtc: view.rtc.write_command_spec(value), ..view }
            } else {
                view
            }
        } else if in_ram_window(address) {
            if !view.ram_bank_enabled {
                view
            } else if MBC3::clock_selected(view) {
                if view.rtc_enabled {
                    BaseMBCView {
                        rtc: view.rtc.set_register_spec(view.ram_bank_selected as u8, value),
                        ..view
                    }
                } else {
                    view
                }
            } else {
                view.write_ram(address, value)
            }
        } else {
            view.invalid_access(address)
        }
    }

    /// What `address` reads as. In the RAM window, if it is open, that is
    /// the register of the clock that is selected, if there is a clock, or
    /// the byte of the RAM bank that is selected; it is 0xFF where there is
    /// neither.
    pub open spec fn get_item_spec(view: BaseMBCView, address: u16) -> u8 {
        if in_rom_window(address) {
            view.read_rom(address)
        } else if in_ram_window(address) {
            if !view.ram_bank_enabled {
                0xFF
            } else if MBC3::clock_selected(view) {
                if view.rtc_enabled {
                    view.rtc.get_register_spec(view.ram_bank_selected as u8)
                } else {
                    0xFF
                }
            } else {
                view.read_ram(address)
            }
        } else {
            0xFF
        }
    }

    /// A write of 0x01 from 0x6000 latches only straight after a write of
    /// 0x00 there. While the latch of the clock is not armed (on a new
    /// cartridge, and after any latch command but 0x00) such a write
    /// changes nothing but that: the latched counters, the banks selected,
    /// the RAM and the ROM all stay. Straight after 0x00 it latches, where
    /// there is a clock.
    pub proof fn law_latch_needs_zero_then_one(view: BaseMBCView, address: u16, command: u8)
        requires
            0x6000 <= address < 0x8000,
        ensures
            !view.rtc.latch_enabled ==> MBC3::set_item_spec(view, address, 0x01) == view,
            command != 0x00 ==> ({
                let before = MBC3::set_item_spec(view, address, command);
                MBC3::set_item_spec(before, address, 0x01) == before
            }),
            view.rtc_enabled ==> MBC3::set_item_spec(
                MBC3::set_item_spec(view, address, 0x00),
                address,
                0x01,
            ) == (BaseMBCView {
                rtc: RTC { latch_enabled: false, ..view.rtc.latched() },
                ..view
            }),
    {
    }

    /// Whether the controller is well formed.
    pub fn is_valid(&self) -> (valid: bool)
        ensures
            valid == self.wf(),
    {
        self.base_mbc.is_valid()
    }

    /// An MBC3 for the banks `rom_banks` and `ram_banks`, with a clock that
    /// starts at the wall-clock time `now`.
    pub fn new(
        rom_banks: ROM,
        ram_banks: RAM,
        cart_type: u8,
        sram: bool,
        battery_enabled: bool,
        rtc_enabled: bool,
        now: u64,
    ) -> (mbc: MBC3)
        requires
            rom_banks.wf(),
            ram_banks.wf(),
        ensures
            mbc@ == BaseMBCView::initial(
                rom_banks@,
                ram_banks@,
                cart_type,
                sram,
                battery_enabled,
                rtc_enabled,
                now,
            ),
            mbc.wf(),
    {
        MBC3 {
            base_mbc: BaseMBC::new(
                rom_banks,
                ram_banks,
                cart_type,
                sram,
                battery_enabled,
                rtc_enabled,
                now,
            ),
        }
    }

    /// Writes `value` to `address`.
    pub fn set_item(&mut self, address: u16, value: u8)
        requires
            old(self).wf(),
        ensures
            final(self)@ == MBC3::set_item_spec(old(self)@, address, value),
            final(self).wf(),
    {
        proof {
            lemma_byte_masks(value);
        }
        if address < 0x2000 {
            self.base_mbc.ram_bank_enabled = (value & 0x0F) == 0x0A;
        } else if address < 0x4000 {
            let mut bank = value & 0x7F;
            if bank == 0 {
                bank = 1;
            }
            self.base_mbc.rom_bank_selected = reduce(
                bank as u16,
                self.base_mbc.external_rom_count(),
            );
        } else if address < 0x6000 {
            if 0x08 <= value && value <= 0x0C {
                self.base_mbc.ram_bank_selected = value as u16;
            } else {
                self.base_mbc.ram_bank_selected = reduce(
                    value as u16,
                    self.base_mbc.external_ram_count(),
                );
            }
        } else if address < 0x8000 {
            if self.base_mbc.rtc_enabled {
                self.base_mbc.rtc.write_command(value);
            }
        } else if 0xA000 <= address && address < 0xC000 {
            if self.base_mbc.ram_bank_enabled {
                if 0x08 <= self.base_mbc.ram_bank_selected && self.base_mbc.ram_bank_selected
                    <= 0x0C {
                    if self.base_mbc.rtc_enabled {
                        let register = self.base_mbc.ram_bank_selected as u8;
                        self.base_mbc.rtc.set_register(register, value);
                    }
                } else {
                    self.base_mbc.write_ram(address, value);
                }
            }
        } else {
            self.base_mbc.record_invalid(address);
        }
    }

    /// Reads `address`. A read outside every window gives 0xFF and is
    /// recorded; any other read leaves the controller as it is.
    pub fn get_item(&mut self, address: u16) -> (value: u8)
        requires
            old(self).wf(),
        ensures
            value == MBC3::get_item_spec(old(self)@, address),
            final(self)@ == old(self)@.after_get(address),
            recognized(address) ==> *final(self) == *old(self),
            final(self).wf(),
    {
        if 0xA000 <= address && address < 0xC000 && self.base_mbc.ram_bank_enabled && 0x08
            <= self.base_mbc.ram_bank_selected && self.base_mbc.ram_bank_selected <= 0x0C {
            if self.base_mbc.rtc_enabled {
                self.base_mbc.rtc.get_register(self.base_mbc.ram_bank_selected as u8)
            } else {
                0xFF
            }
        } else {
            self.base_mbc.get_item(address)
        }
    }
}

impl MBC5View {
    /// The ROM bank that the registers select: the 9-bit number made of the
    /// high register above the low one, reduced to the banks there are.
    pub open spec fn rom_bank(self) -> u16 {
        reduced(self.rom_bank_high * 256 + self.rom_bank_low, self.base_mbc.rom_count())
    }

    /// This state with the ROM bank selected that the registers select.
    pub open spec fn refreshed(self) -> MBC5View {
        MBC5View {
            base_mbc: BaseMBCView { rom_bank_selected: self.rom_bank(), ..self.base_mbc },
            ..self
        }
    }

    /// The high register holds one bit, and the ROM bank selected is the
    /// one that the registers select.
    pub open spec fn wf(self) -> bool {
        &&& self.base_mbc.wf()
        &&& self.rom_bank_high <= 1
        &&& self.base_mbc.rom_bank_selected == self.rom_bank()
    }

    /// The state of an MBC5 that has just been made: the low register holds
    /// 1, the high register 0.
    pub open spec fn initial(base_mbc: BaseMBCView) -> MBC5View {
        MBC5View { base_mbc, rom_bank_low: 1, rom_bank_high: 0 }.refreshed()
    }

    /// This state once `value` has been written to `address`.
    ///
    /// Below 0x2000 the write opens the RAM window if the value is 0x0A,
    /// and closes it otherwise. From 0x2000 the value goes to the low
    /// register; from 0x3000 its lowest bit goes to the high register. From
    /// 0x4000 the low nibble selects the RAM bank. From 0x6000 there is no
    /// register. In the RAM window the write stores the value. Outside
    /// every window it is recorded and changes nothing.
    pub open spec fn set_item(self, address: u16, value: u8) -> MBC5View {
        if address < 0x2000 {
            MBC5View {
                base_mbc: BaseMBCView { ram_bank_enabled: value == 0x0A, ..self.base_mbc },
                ..self
            }
        } else if address < 0x3000 {
            MBC5View { rom_bank_low: value, ..self }.refreshed()
        } else if address < 0x4000 {
            MBC5View { rom_bank_high: value % 2, ..self }.refreshed()
        } else if address < 0x6000 {
            MBC5View {
                base_mbc: BaseMBCView {
                    ram_bank_selected: reduced(value as int % 16, self.base_mbc.ram_count()),
                    ..self.base_mbc
                },
                ..self
            }
        } else if address < 0x8000 {
            self
        } else if in_ram_window(address) {
            MBC5View { base_mbc: self.base_mbc.write_ram(address, value), ..self }
        } else {
            MBC5View { base_mbc: self.base_mbc.invalid_access(address), ..self }
        }
    }

    /// What `address` reads as.
    pub open spec fn get_item(self, address: u16) -> u8 {
        self.base_mbc.get_item(address)
    }

    /// This state once `address` has been read.
    pub open spec fn after_get(self, address: u16) -> MBC5View {
        MBC5View { base_mbc: self.base_mbc.after_get(address), ..self }
    }

    /// The ROM bank selected is the 9-bit number of the two registers modulo
    /// the number of banks, in whichever order the registers were written:
    /// `low` written to the low register and `high` to the high one select
    /// the same bank either way.
    pub proof fn law_bank_is_number_of_registers(
        self,
        low_address: u16,
        high_address: u16,
        low: u8,
        high: u8,
    )
        requires
            self.base_mbc.wf(),
            0x2000 <= low_address < 0x3000,
            0x3000 <= high_address < 0x4000,
        ensures
            ({
                let low_first = self.set_item(low_address, low).set_item(high_address, high);
                let high_first = self.set_item(high_address, high).set_item(low_address, low);
                &&& low_first == high_first
                &&& low_first.rom_bank_low == low
                &&& low_first.rom_bank_high == high % 2
                &&& low_first.base_mbc.rom_bank_selected == reduced(
                    (high % 2) * 256 + low,
                    self.base_mbc.rom_count(),
                )
                &&& low_first.base_mbc.rom_bank_selected == ((high % 2) * 256 + low)
                    % self.base_mbc.rom_count()
            }),
    {
        let number = ((high % 2) * 256 + low) as nat;
        lemma_mod_decreases(number, self.base_mbc.rom_count() as nat);
    }

    /// With 512 ROM banks, 0xFF written to the low register and 1 to the
    /// high one select bank 0x1FF, the last: the window at 0x4000 then shows
    /// the last 16 KiB of the ROM, up to its last byte at 0x7FFF.
    pub proof fn law_last_bank(self, low: u16, high: u16, read: u16)
        requires
            self.base_mbc.wf(),
            self.base_mbc.rom_count() == 512,
            0x2000 <= low < 0x3000,
            0x3000 <= high < 0x4000,
            0x4000 <= read < 0x8000,
        ensures
            ({
                let selected = self.set_item(low, 0xFF).set_item(high, 0x01);
                &&& selected.base_mbc.rom_bank_selected == 0x01FF
                &&& selected.get_item(read) == self.base_mbc.rom_banks[0x01FF * 0x4000 + (read
                    - 0x4000)]
                &&& selected.get_item(0x7FFF) == self.base_mbc.rom_banks.last()
            }),
    {
    }
}

impl View for MBC5 {
    type V = MBC5View;

    open spec fn view(&self) -> MBC5View {
        MBC5View {
            base_mbc: self.base_mbc@,
            rom_bank_low: self.rom_bank_low,
            rom_bank_high: self.rom_bank_high,
        }
    }
}

impl MBC5 {
    /// The model is well formed.
    pub open spec fn wf(&self) -> bool {
        self@.wf()
    }

    /// Whether the controller is well formed.
    pub fn is_valid(&self) -> (valid: bool)
        ensures
            valid == self.wf(),
    {
        if !self.base_mbc.is_valid() || self.rom_bank_high > 1 {
            return false;
        }
        proof {
            lemma_word_fields(self.rom_bank_low as u16, self.rom_bank_high as u16, 0);
        }
        let bank = ((self.rom_bank_high as u16) << 8) | (self.rom_bank_low as u16);
        self.base_mbc.rom_bank_selected == reduce(bank, self.base_mbc.external_rom_count())
    }

    /// An MBC5 for the banks `rom_banks` and `ram_banks`.
    pub fn new(
        rom_banks: ROM,
        ram_banks: RAM,
        cart_type: u8,
        sram: bool,
        battery_enabled: bool,
        rtc_enabled: bool,
        now: u64,
    ) -> (mbc: MBC5)
        requires
            rom_banks.wf(),
            ram_banks.wf(),
        ensures
            mbc@ == MBC5View::initial(
                BaseMBCView::initial(
                    rom_banks@,
                    ram_banks@,
                    cart_type,
                    sram,
                    battery_enabled,
                    rtc_enabled,
                    now,
                ),
            ),
            mbc.wf(),
    {
        let mut mbc = MBC5 {
            base_mbc: BaseMBC::new(
                rom_banks,
                ram_banks,
                cart_type,
                sram,
                battery_enabled,
                rtc_enabled,
                now,
            ),
            rom_bank_low: 1,
            rom_bank_high: 0,
        };
        mbc.refresh();
        mbc
    }

    /// Selects the ROM bank that the registers select.
    fn refresh(&mut self)
        requires
            old(self).base_mbc.wf(),
        ensures
            final(self)@ == old(self)@.refreshed(),
            final(self).base_mbc.wf(),
    {
        proof {
            lemma_word_fields(self.rom_bank_low as u16, self.rom_bank_high as u16, 0);
        }
        let bank = ((self.rom_bank_high as u16) << 8) | (self.rom_bank_low as u16);
        self.base_mbc.rom_bank_selected = reduce(bank, self.base_mbc.external_rom_count());
    }

    /// Writes `value` to `address`.
    pub fn set_item(&mut self, address: u16, value: u8)
        requires
            old(self).wf(),
        ensures
            final(self)@ == old(self)@.set_item(address, value),
            final(self).wf(),
    {
        proof {
            lemma_byte_masks(value);
        }
        if address < 0x2000 {
            self.base_mbc.ram_bank_enabled = value == 0x0A;
        } else if address < 0x3000 {
            self.rom_bank_low = value;
            self.refresh();
        } else if address < 0x4000 {
            self.rom_bank_high = value & 0x01;
            self.refresh();
        } else if address < 0x6000 {
            self.base_mbc.ram_bank_selected = reduce(
                (value & 0x0F) as u16,
                self.base_mbc.external_ram_count(),
            );
        } else if address < 0x8000 {
        } else if 0xA000 <= address && address < 0xC000 {
            self.base_mbc.write_ram(address, value);
        } else {
            self.base_mbc.record_invalid(address);
        }
    }

    /// Reads `address`. A read outside every window gives 0xFF and is
    /// recorded; any other read leaves the controller as it is.
    pub fn get_item(&mut self, address: u16) -> (value: u8)
        requires
            old(self).wf(),
        ensures
            value == old(self)@.get_item(address),
            final(self)@ == old(self)@.after_get(address),
            recognized(address) ==> *final(self) == *old(self),
            final(self).wf(),
    {
        self.base_mbc.get_item(address)
    }
}

} // verus!
