use gb_core::cartridge::base_mbc::{BaseMBC, ROMOnly};
use gb_core::cartridge::mbc_extended::{reduce, MBC1, MBC2, MBC3, MBC5};
use gb_core::cartridge::{
    external_ram_count, load_rom, validate_cartridge, zeroed, Cartridge, CartridgeError, Controller,
    MBCKind, MBC, RAM, ROM,
};

/// A ROM image in which the byte at `offset` of bank `bank` is
/// `bank * 16 + offset`, cut to eight bits.
fn rom_image(banks: usize) -> Vec<u8> {
    let mut data = vec![0u8; banks * 0x4000];
    for bank in 0..banks {
        for offset in 0..0x4000 {
            data[bank * 0x4000 + offset] = (bank as u8).wrapping_mul(16).wrapping_add(offset as u8);
        }
    }
    data
}

fn rom_byte(bank: usize, offset: usize) -> u8 {
    (bank as u8).wrapping_mul(16).wrapping_add(offset as u8)
}

fn checksum(data: &[u8]) -> u8 {
    let mut x: u8 = 0;
    for i in 0x134..0x14D {
        x = x.wrapping_sub(data[i]).wrapping_sub(1);
    }
    x
}

/// A ROM image with a valid header.
fn image_with_header(banks: usize, cart_type: u8, ram_code: u8) -> Vec<u8> {
    let mut data = rom_image(banks);
    for (i, byte) in b"VERIFIED GAME".iter().enumerate() {
        data[0x134 + i] = *byte;
    }
    data[0x141] = 0;
    data[0x142] = 0;
    data[0x143] = 0;
    data[0x147] = cart_type;
    data[0x149] = ram_code;
    data[0x14D] = checksum(&data);
    data
}

fn base(cartridge: &Cartridge) -> &BaseMBC {
    match &cartridge.controller {
        Controller::ROMOnly(mbc) => &mbc.mbc,
        Controller::MBC1(mbc) => &mbc.base_mbc,
        Controller::MBC2(mbc) => &mbc.base_mbc,
        Controller::MBC3(mbc) => &mbc.base_mbc,
        Controller::MBC5(mbc) => &mbc.base_mbc,
    }
}

#[test]
fn checksum_of_an_empty_header() {
    // 25 bytes of zero: 25 times one is taken off
    let mut data = vec![0u8; 0x4000];
    assert!(!validate_cartridge(&data));
    data[0x14D] = 0xE7;
    assert!(validate_cartridge(&data));
}

#[test]
fn checksum_covers_0x134_up_to_0x14d() {
    let mut data = vec![0u8; 0x4000];
    data[0x134] = 0x01;
    data[0x14C] = 0x02;
    data[0x14D] = 0xE4;
    assert!(validate_cartridge(&data));
    data[0x133] = 0x55;
    data[0x14E] = 0x55;
    assert!(validate_cartridge(&data));
}

#[test]
fn rom_size_is_checked() {
    assert_eq!(load_rom(Vec::new()), Err(CartridgeError::InvalidROMFile));
    assert_eq!(load_rom(vec![0u8; 0x3FFF]), Err(CartridgeError::InvalidROMFile));
    assert_eq!(load_rom(vec![0u8; 0x4001]), Err(CartridgeError::InvalidROMFile));
    let rom = load_rom(rom_image(2)).unwrap();
    assert_eq!(rom.data, rom_image(2));
    assert_eq!(rom.bank_count(), 2);
    assert_eq!(rom.read(1, 3), 0x13);
}

#[test]
fn load_refuses_a_wrong_size() {
    assert_eq!(Cartridge::load_cartridge(Vec::new(), 0), Err(CartridgeError::InvalidROMFile));
    let mut data = image_with_header(2, 0x00, 0x00);
    data.push(0);
    assert_eq!(Cartridge::load_cartridge(data, 0), Err(CartridgeError::InvalidROMFile));
}

#[test]
fn load_refuses_a_wrong_checksum() {
    let mut data = image_with_header(2, 0x00, 0x00);
    data[0x14D] = data[0x14D].wrapping_add(1);
    assert_eq!(Cartridge::load_cartridge(data, 0), Err(CartridgeError::InvalidCartridge));
}

#[test]
fn load_refuses_every_mutated_header_byte() {
    let data = image_with_header(2, 0x01, 0x02);
    assert!(Cartridge::load_cartridge(image_with_header(2, 0x01, 0x02), 0).is_ok());
    for index in 0x134..=0x14D {
        for delta in [1u8, 0x80, 0xFF] {
            let mut mutated = image_with_header(2, 0x01, 0x02);
            mutated[index] = data[index].wrapping_add(delta);
            assert_eq!(
                Cartridge::load_cartridge(mutated, 0),
                Err(CartridgeError::InvalidCartridge)
            );
        }
    }
}

#[test]
fn load_refuses_an_unknown_cartridge_type() {
    for cart_type in [0x04u8, 0x07, 0x0A, 0x0E, 0x14, 0x18, 0x1F, 0x20, 0xFC, 0xFF] {
        let data = image_with_header(2, cart_type, 0x00);
        assert_eq!(
            Cartridge::load_cartridge(data, 0),
            Err(CartridgeError::UnsupportedCartridgeType)
        );
    }
}

#[test]
fn size_is_checked_before_checksum_before_type() {
    let mut data = image_with_header(2, 0xFF, 0x00);
    data[0x14D] = data[0x14D].wrapping_add(1);
    assert_eq!(Cartridge::load_cartridge(data, 0), Err(CartridgeError::InvalidCartridge));
    let mut data = image_with_header(2, 0xFF, 0x00);
    data[0x14D] = data[0x14D].wrapping_add(1);
    data.pop();
    assert_eq!(Cartridge::load_cartridge(data, 0), Err(CartridgeError::InvalidROMFile));
}

#[test]
fn cartridge_table() {
    let table = [
        (0x00u8, MBCKind::ROMOnly, false, false, false),
        (0x01, MBCKind::MBC1, false, false, false),
        (0x02, MBCKind::MBC1, true, false, false),
        (0x03, MBCKind::MBC1, true, true, false),
        (0x05, MBCKind::MBC2, false, false, false),
        (0x06, MBCKind::MBC2, false, true, false),
        (0x08, MBCKind::ROMOnly, true, false, false),
        (0x09, MBCKind::ROMOnly, true, true, false),
        (0x0F, MBCKind::MBC3, false, true, true),
        (0x10, MBCKind::MBC3, true, true, true),
        (0x11, MBCKind::MBC3, false, false, false),
        (0x12, MBCKind::MBC3, true, false, false),
        (0x13, MBCKind::MBC3, true, true, false),
        (0x19, MBCKind::MBC5, false, false, false),
        (0x1A, MBCKind::MBC5, true, false, false),
        (0x1B, MBCKind::MBC5, true, true, false),
        (0x1C, MBCKind::MBC5, false, false, false),
        (0x1D, MBCKind::MBC5, true, false, false),
        (0x1E, MBCKind::MBC5, true, true, false),
    ];
    let mut known = 0;
    for type_id in 0..=255u8 {
        match table.iter().find(|entry| entry.0 == type_id) {
            Some(&(_, kind, sram, battery, rtc)) => {
                assert_eq!(MBC::lookup(type_id), Some(MBC { type_id, kind, sram, battery, rtc }));
                known += 1;
            }
            None => assert_eq!(MBC::lookup(type_id), None),
        }
    }
    assert_eq!(known, 19);
}

#[test]
fn ram_size_table() {
    assert_eq!(external_ram_count(0x00), 1);
    assert_eq!(external_ram_count(0x01), 1);
    assert_eq!(external_ram_count(0x02), 1);
    assert_eq!(external_ram_count(0x03), 4);
    assert_eq!(external_ram_count(0x04), 16);
    assert_eq!(external_ram_count(0x05), 8);
    for code in 6..=255u8 {
        assert_eq!(external_ram_count(code), 0);
    }
}

#[test]
fn load_makes_the_controller_of_the_type() {
    let cartridge = Cartridge::load_cartridge(image_with_header(2, 0x00, 0x00), 5).unwrap();
    assert!(matches!(cartridge.controller, Controller::ROMOnly(_)));
    let cartridge = Cartridge::load_cartridge(image_with_header(4, 0x03, 0x03), 5).unwrap();
    assert!(matches!(cartridge.controller, Controller::MBC1(_)));
    assert_eq!(base(&cartridge).ram_banks.data, vec![0u8; 4 * 0x2000]);
    assert_eq!(base(&cartridge).cart_type, 0x03);
    assert!(base(&cartridge).sram);
    assert!(base(&cartridge).battery_enabled);
    assert!(!base(&cartridge).rtc_enabled);
    assert!(base(&cartridge).ram_bank_initialized);
    assert!(!base(&cartridge).ram_bank_enabled);
    assert_eq!(base(&cartridge).rom_bank_selected, 1);
    assert_eq!(base(&cartridge).ram_bank_selected, 0);
    assert_eq!(base(&cartridge).last_invalid_address, None);
    assert_eq!(base(&cartridge).rtc.time_zero, 5);
    assert_eq!(base(&cartridge).rtc.now, 5);
    let cartridge = Cartridge::load_cartridge(image_with_header(2, 0x06, 0x00), 5).unwrap();
    assert!(matches!(cartridge.controller, Controller::MBC2(_)));
    let cartridge = Cartridge::load_cartridge(image_with_header(2, 0x10, 0x04), 5).unwrap();
    assert!(matches!(cartridge.controller, Controller::MBC3(_)));
    assert!(base(&cartridge).rtc_enabled);
    assert_eq!(base(&cartridge).ram_banks.data.len(), 16 * 0x2000);
    let cartridge = Cartridge::load_cartridge(image_with_header(2, 0x1B, 0x09), 5).unwrap();
    assert!(matches!(cartridge.controller, Controller::MBC5(_)));
    assert_eq!(base(&cartridge).ram_banks.data.len(), 0);
}

#[test]
fn title_is_read_from_the_header() {
    let cartridge = Cartridge::load_cartridge(image_with_header(2, 0x00, 0x00), 0).unwrap();
    assert!(!base(&cartridge).cgb_mode);
    assert_eq!(base(&cartridge).game_title, b"VERIFIED GAME\0\0".to_vec());
    assert_eq!(base(&cartridge).game_title.len(), 15);

    let mut data = image_with_header(2, 0x00, 0x00);
    data[0x143] = 0x80;
    data[0x14D] = checksum(&data);
    let cartridge = Cartridge::load_cartridge(data, 0).unwrap();
    assert!(base(&cartridge).cgb_mode);
    assert_eq!(base(&cartridge).game_title, b"VERIFIED GAME\0".to_vec());

    let rom = ROM { data: image_with_header(1, 0x00, 0x00) };
    assert_eq!(BaseMBC::get_game_title(&rom, true).len(), 14);
    assert_eq!(BaseMBC::get_game_title(&rom, false).len(), 15);
}

#[test]
fn zeroed_bytes() {
    assert_eq!(zeroed(0), Vec::<u8>::new());
    assert_eq!(zeroed(3), vec![0u8, 0, 0]);
    assert_eq!(RAM::new(0).data.len(), 0);
    assert_eq!(RAM::new(2).data, vec![0u8; 0x4000]);
    assert_eq!(RAM::new(2).bank_count(), 2);
}

#[test]
fn reduce_takes_the_bank_modulo_the_count() {
    assert_eq!(reduce(0x1FF, 512), 0x1FF);
    assert_eq!(reduce(0x1FF, 4), 3);
    assert_eq!(reduce(5, 3), 2);
    assert_eq!(reduce(5, 1), 0);
    assert_eq!(reduce(5, 0), 0);
}

#[test]
fn rom_only_cartridge() {
    let mut cartridge = Cartridge::load_cartridge(image_with_header(2, 0x00, 0x00), 0).unwrap();
    let before = Cartridge::load_cartridge(image_with_header(2, 0x00, 0x00), 0).unwrap();
    assert_eq!(cartridge.get_item(0x0000), rom_byte(0, 0));
    assert_eq!(cartridge.get_item(0x3FFF), rom_byte(0, 0x3FFF));
    assert_eq!(cartridge.get_item(0x4000), rom_byte(1, 0));
    assert_eq!(cartridge.get_item(0x7FFF), rom_byte(1, 0x3FFF));
    // no RAM: writes do nothing, reads give 0xFF
    cartridge.set_item(0xA000, 0x12);
    assert_eq!(cartridge.get_item(0xA000), 0xFF);
    cartridge.set_item(0x0000, 0x0A);
    cartridge.set_item(0xA000, 0x12);
    cartridge.set_item(0xBFFF, 0x12);
    assert_eq!(cartridge.get_item(0xA000), 0xFF);
    assert_eq!(cartridge.get_item(0xBFFF), 0xFF);
    // nothing is switched
    cartridge.set_item(0x2000, 0x00);
    cartridge.set_item(0x2100, 0x03);
    cartridge.set_item(0x4000, 0x01);
    cartridge.set_item(0x6000, 0x01);
    assert_eq!(cartridge.get_item(0x4000), rom_byte(1, 0));
    assert_eq!(cartridge, before);
}

#[test]
fn rom_only_with_a_single_bank() {
    let mut mbc = ROMOnly::new(ROM { data: rom_image(1) }, RAM::new(0), 0, false, false, false, 0);
    assert_eq!(mbc.mbc.rom_bank_selected, 0);
    assert_eq!(mbc.get_item(0x4001), rom_byte(0, 1));
}

#[test]
fn accesses_outside_every_window_are_recorded() {
    let mut cartridge = Cartridge::load_cartridge(image_with_header(2, 0x01, 0x02), 0).unwrap();
    assert_eq!(cartridge.get_item(0x8000), 0xFF);
    assert_eq!(base(&cartridge).last_invalid_address, Some(0x8000));
    assert_eq!(cartridge.get_item(0xC000), 0xFF);
    assert_eq!(base(&cartridge).last_invalid_address, Some(0xC000));
    cartridge.set_item(0x9FFF, 0x55);
    assert_eq!(base(&cartridge).last_invalid_address, Some(0x9FFF));
    cartridge.set_item(0xFFFF, 0x55);
    assert_eq!(base(&cartridge).last_invalid_address, Some(0xFFFF));
    // nothing else has changed
    let mut fresh = Cartridge::load_cartridge(image_with_header(2, 0x01, 0x02), 0).unwrap();
    fresh.set_item(0xFFFF, 0x00);
    assert_eq!(cartridge, fresh);
    // accesses in a window leave the record alone
    cartridge.get_item(0x0000);
    cartridge.get_item(0xA000);
    cartridge.set_item(0xBFFF, 1);
    assert_eq!(base(&cartridge).last_invalid_address, Some(0xFFFF));

    for kind in [0x00u8, 0x05, 0x0F, 0x19] {
        let mut cartridge = Cartridge::load_cartridge(image_with_header(2, kind, 0x02), 0).unwrap();
        assert_eq!(base(&cartridge).last_invalid_address, None);
        assert_eq!(cartridge.get_item(0x7FFF), rom_byte(1, 0x3FFF));
        assert_eq!(base(&cartridge).last_invalid_address, None);
        assert_eq!(cartridge.get_item(0xE000), 0xFF);
        assert_eq!(base(&cartridge).last_invalid_address, Some(0xE000));
        cartridge.set_item(0x8123, 1);
        assert_eq!(base(&cartridge).last_invalid_address, Some(0x8123));
    }
}

#[test]
fn mbc1_bank_zero_selects_bank_one() {
    let mut zero = MBC1::new(ROM { data: rom_image(4) }, RAM::new(1), 1, false, false, false, 0);
    let mut one = MBC1::new(ROM { data: rom_image(4) }, RAM::new(1), 1, false, false, false, 0);
    zero.set_item(0x2000, 0x00);
    one.set_item(0x2000, 0x01);
    assert_eq!(zero.bank_select_register1, 1);
    assert_eq!(zero.base_mbc.rom_bank_selected, 1);
    assert_eq!(zero, one);
    for address in [0x4000u16, 0x4001, 0x5555, 0x7FFF] {
        assert_eq!(zero.get_item(address), rom_byte(1, address as usize - 0x4000));
        assert_eq!(zero.get_item(address), one.get_item(address));
    }
    // 0x20 has no low bits: it selects bank 1 as well
    zero.set_item(0x3FFF, 0x20);
    assert_eq!(zero.bank_select_register1, 1);
}

#[test]
fn mbc1_selects_rom_banks() {
    let mut mbc = MBC1::new(ROM { data: rom_image(128) }, RAM::new(4), 3, true, true, false, 0);
    assert_eq!(mbc.bank_select_register1, 1);
    assert_eq!(mbc.bank_select_register2, 0);
    assert_eq!(mbc.get_item(0x4000), rom_byte(1, 0));
    mbc.set_item(0x2000, 0xE5); // the low five bits count
    assert_eq!(mbc.bank_select_register1, 0x05);
    assert_eq!(mbc.get_item(0x4002), rom_byte(5, 2));
    mbc.set_item(0x4000, 0xFE); // the low two bits count
    assert_eq!(mbc.bank_select_register2, 0x02);
    assert_eq!(mbc.base_mbc.rom_bank_selected, 0x45);
    assert_eq!(mbc.get_item(0x4002), rom_byte(0x45, 2));
    mbc.set_item(0x4000, 0x03);
    assert_eq!(mbc.base_mbc.rom_bank_selected, 0x65);
    // bank 0 stays below 0x4000
    assert_eq!(mbc.get_item(0x0002), rom_byte(0, 2));
}

#[test]
fn mbc1_reduces_the_bank_modulo_the_count() {
    let mut mbc = MBC1::new(ROM { data: rom_image(4) }, RAM::new(1), 1, false, false, false, 0);
    mbc.set_item(0x2000, 0x07);
    assert_eq!(mbc.base_mbc.rom_bank_selected, 3);
    assert_eq!(mbc.get_item(0x4000), rom_byte(3, 0));
    mbc.set_item(0x2000, 0x04);
    assert_eq!(mbc.base_mbc.rom_bank_selected, 0);
    assert_eq!(mbc.get_item(0x4000), rom_byte(0, 0));
    mbc.set_item(0x4000, 0x01);
    mbc.set_item(0x2000, 0x02);
    assert_eq!(mbc.base_mbc.rom_bank_selected, 0x22 % 4);

    let mut mbc = MBC1::new(ROM { data: rom_image(3) }, RAM::new(1), 1, false, false, false, 0);
    mbc.set_item(0x2000, 0x1F);
    assert_eq!(mbc.base_mbc.rom_bank_selected, 31 % 3);
    assert_eq!(mbc.get_item(0x4000), rom_byte(1, 0));
}

#[test]
fn mbc1_ram_enable_takes_the_low_nibble() {
    let mut mbc = MBC1::new(ROM { data: rom_image(2) }, RAM::new(1), 2, true, false, false, 0);
    mbc.set_item(0xA000, 0x11);
    assert_eq!(mbc.get_item(0xA000), 0xFF);
    assert_eq!(mbc.base_mbc.ram_banks.data[0], 0);
    mbc.set_item(0x0000, 0x0A);
    assert!(mbc.base_mbc.ram_bank_enabled);
    mbc.set_item(0xA000, 0x11);
    mbc.set_item(0xBFFF, 0x22);
    assert_eq!(mbc.get_item(0xA000), 0x11);
    assert_eq!(mbc.get_item(0xBFFF), 0x22);
    assert_eq!(mbc.base_mbc.ram_banks.data[0x1FFF], 0x22);
    mbc.set_item(0x1FFF, 0xFA);
    assert!(mbc.base_mbc.ram_bank_enabled);
    mbc.set_item(0x1FFF, 0x0B);
    assert!(!mbc.base_mbc.ram_bank_enabled);
    assert_eq!(mbc.get_item(0xA000), 0xFF);
    mbc.set_item(0x1FFF, 0xA0);
    assert!(!mbc.base_mbc.ram_bank_enabled);
}

#[test]
fn mbc1_banking_mode_selects_the_ram_bank() {
    let mut mbc = MBC1::new(ROM { data: rom_image(64) }, RAM::new(4), 3, true, true, false, 0);
    mbc.set_item(0x0000, 0x0A);
    mbc.set_item(0x4000, 0x02);
    // mode 0: RAM bank 0
    assert_eq!(mbc.base_mbc.ram_bank_selected, 0);
    mbc.set_item(0xA010, 0x33);
    assert_eq!(mbc.base_mbc.ram_banks.data[0x0010], 0x33);
    // mode 1: the high register selects the RAM bank
    mbc.set_item(0x6000, 0xFF);
    assert_eq!(mbc.base_mbc.memory_model, 1);
    assert_eq!(mbc.base_mbc.ram_bank_selected, 2);
    assert_eq!(mbc.get_item(0xA010), 0x00);
    mbc.set_item(0xA010, 0x44);
    assert_eq!(mbc.base_mbc.ram_banks.data[2 * 0x2000 + 0x0010], 0x44);
    assert_eq!(mbc.get_item(0xA010), 0x44);
    // the ROM bank is made of both registers in either mode
    assert_eq!(mbc.base_mbc.rom_bank_selected, 0x41 % 64);
    mbc.set_item(0x6000, 0x02);
    assert_eq!(mbc.base_mbc.memory_model, 0);
    assert_eq!(mbc.get_item(0xA010), 0x33);
    assert_eq!(mbc.base_mbc.rom_bank_selected, 0x41 % 64);
}

#[test]
fn mbc1_ram_bank_is_reduced() {
    let mut mbc = MBC1::new(ROM { data: rom_image(2) }, RAM::new(1), 3, true, true, false, 0);
    mbc.set_item(0x0000, 0x0A);
    mbc.set_item(0x6000, 0x01);
    mbc.set_item(0x4000, 0x03);
    assert_eq!(mbc.base_mbc.ram_bank_selected, 0);
    mbc.set_item(0xA000, 0x66);
    assert_eq!(mbc.base_mbc.ram_banks.data[0], 0x66);
}

#[test]
fn mbc1_without_ram() {
    let mut mbc = MBC1::new(ROM { data: rom_image(2) }, RAM::new(0), 1, false, false, false, 0);
    mbc.set_item(0x0000, 0x0A);
    mbc.set_item(0x6000, 0x01);
    mbc.set_item(0x4000, 0x03);
    mbc.set_item(0xA000, 0x66);
    assert_eq!(mbc.get_item(0xA000), 0xFF);
    assert_eq!(mbc.base_mbc.ram_banks.data.len(), 0);
}

#[test]
fn mbc2_enable_and_bank_go_by_bit_8_of_the_address() {
    let mut mbc = MBC2::new(ROM { data: rom_image(16) }, RAM::new(1), 5, false, false, false, 0);
    assert_eq!(mbc.get_item(0x4000), rom_byte(1, 0));
    mbc.set_item(0x0000, 0x0A);
    assert!(mbc.base_mbc.ram_bank_enabled);
    assert_eq!(mbc.base_mbc.rom_bank_selected, 1);
    mbc.set_item(0x0100, 0x07);
    assert!(mbc.base_mbc.ram_bank_enabled);
    assert_eq!(mbc.base_mbc.rom_bank_selected, 7);
    assert_eq!(mbc.get_item(0x4000), rom_byte(7, 0));
    mbc.set_item(0x3FFF, 0xF0); // bit 8 set, low nibble 0: bank 1
    assert_eq!(mbc.base_mbc.rom_bank_selected, 1);
    mbc.set_item(0x2100, 0x1F);
    assert_eq!(mbc.base_mbc.rom_bank_selected, 15);
    mbc.set_item(0x3EFF, 0x0B); // bit 8 clear: the RAM is closed
    assert!(!mbc.base_mbc.ram_bank_enabled);
    assert_eq!(mbc.base_mbc.rom_bank_selected, 15);
    mbc.set_item(0x3EFF, 0xFA);
    assert!(mbc.base_mbc.ram_bank_enabled);
    // from 0x4000 on there is no register
    mbc.set_item(0x4000, 0x03);
    mbc.set_item(0x6100, 0x03);
    assert_eq!(mbc.base_mbc.rom_bank_selected, 15);
    assert_eq!(mbc.base_mbc.last_invalid_address, None);
}

#[test]
fn mbc2_reduces_the_bank() {
    let mut mbc = MBC2::new(ROM { data: rom_image(4) }, RAM::new(1), 5, false, false, false, 0);
    mbc.set_item(0x2100, 0x0E);
    assert_eq!(mbc.base_mbc.rom_bank_selected, 2);
    assert_eq!(mbc.get_item(0x7FFF), rom_byte(2, 0x3FFF));
}

#[test]
fn mbc2_ram_holds_half_bytes() {
    let mut mbc = MBC2::new(ROM { data: rom_image(2) }, RAM::new(1), 6, false, true, false, 0);
    mbc.set_item(0xA000, 0x05);
    assert_eq!(mbc.get_item(0xA000), 0xFF);
    assert_eq!(mbc.base_mbc.ram_banks.data[0], 0x00);
    mbc.set_item(0x0000, 0x0A);
    assert_eq!(mbc.get_item(0xA000), 0xF0);
    mbc.set_item(0xA000, 0x05);
    assert_eq!(mbc.get_item(0xA000), 0xF5);
    assert_eq!(mbc.base_mbc.ram_banks.data[0], 0xF5);
    mbc.set_item(0xA1FF, 0x3C);
    assert_eq!(mbc.get_item(0xA1FF), 0xFC);
    // the 512 places repeat through the window
    assert_eq!(mbc.get_item(0xA200), 0xF5);
    assert_eq!(mbc.get_item(0xBFFF), 0xFC);
    mbc.set_item(0xBE01, 0x09);
    assert_eq!(mbc.get_item(0xA001), 0xF9);
    assert_eq!(mbc.base_mbc.ram_banks.data[1], 0xF9);
    assert_eq!(mbc.base_mbc.ram_banks.data[0x200], 0x00);
}

#[test]
fn mbc2_without_ram() {
    let mut mbc = MBC2::new(ROM { data: rom_image(2) }, RAM::new(0), 5, false, false, false, 0);
    mbc.set_item(0x0000, 0x0A);
    mbc.set_item(0xA000, 0x05);
    assert_eq!(mbc.get_item(0xA000), 0xFF);
}

#[test]
fn mbc3_write_lands_in_the_seconds_register() {
    let mut mbc = MBC3::new(ROM { data: rom_image(4) }, RAM::new(4), 0x10, true, true, true, 1000);
    mbc.set_item(0x0000, 0x0A);
    mbc.set_item(0x4000, 0x08);
    assert_eq!(mbc.base_mbc.ram_bank_selected, 0x08);
    mbc.set_item(0xA000, 0x12);
    assert_eq!(mbc.base_mbc.ram_banks.data, vec![0u8; 4 * 0x2000]);
    assert_eq!(mbc.base_mbc.rtc.offset, 0x12);
    // the register shows the value once the clock is latched
    assert_eq!(mbc.get_item(0xA000), 0x00);
    mbc.set_item(0x6000, 0x00);
    mbc.set_item(0x6000, 0x01);
    assert_eq!(mbc.get_item(0xA000), 0x12);
    assert_eq!(mbc.get_item(0xBFFF), 0x12);
}

#[test]
fn mbc3_selects_clock_registers_and_ram_banks() {
    let mut mbc = MBC3::new(ROM { data: rom_image(4) }, RAM::new(4), 0x10, true, true, true, 0);
    mbc.set_item(0x0000, 0x0A);
    for register in 0x08..=0x0Cu8 {
        mbc.set_item(0x4000, register);
        assert_eq!(mbc.base_mbc.ram_bank_selected, register as u16);
    }
    mbc.set_item(0x5FFF, 0x0D);
    assert_eq!(mbc.base_mbc.ram_bank_selected, 0x0D % 4);
    mbc.set_item(0x4000, 0x07);
    assert_eq!(mbc.base_mbc.ram_bank_selected, 3);
    mbc.set_item(0xA005, 0x99);
    assert_eq!(mbc.base_mbc.ram_banks.data[3 * 0x2000 + 5], 0x99);
    assert_eq!(mbc.get_item(0xA005), 0x99);
    mbc.set_item(0x4000, 0x02);
    assert_eq!(mbc.get_item(0xA005), 0x00);
}

#[test]
fn mbc3_reads_the_clock_through_the_ram_window() {
    let mut mbc = MBC3::new(ROM { data: rom_image(4) }, RAM::new(1), 0x10, true, true, true, 0);
    mbc.set_item(0x0000, 0x0A);
    // one day, two hours, three minutes and four seconds later
    mbc.base_mbc.set_time(86_400 + 2 * 3600 + 3 * 60 + 4);
    mbc.set_item(0x6000, 0x00);
    mbc.set_item(0x7FFF, 0x01);
    let expected = [4u8, 3, 2, 1, 0];
    for (i, register) in (0x08..=0x0Cu8).enumerate() {
        mbc.set_item(0x4000, register);
        assert_eq!(mbc.get_item(0xA000), expected[i]);
    }
    // the window has to be open
    mbc.set_item(0x0000, 0x00);
    mbc.set_item(0x4000, 0x08);
    assert_eq!(mbc.get_item(0xA000), 0xFF);
    mbc.set_item(0xA000, 0x30);
    assert_eq!(mbc.base_mbc.rtc.offset, 86_400 + 2 * 3600 + 3 * 60 + 4);
}

#[test]
fn mbc3_latches_on_zero_then_one_only() {
    let mut mbc = MBC3::new(ROM { data: rom_image(4) }, RAM::new(4), 0x10, true, true, true, 0);
    mbc.set_item(0x0000, 0x0A);
    mbc.set_item(0x2000, 0x03);
    mbc.set_item(0x4000, 0x02);
    mbc.set_item(0xA000, 0x5A);
    mbc.set_item(0x4000, 0x08);
    mbc.base_mbc.set_time(100);
    let mut untouched = MBC3::new(ROM { data: rom_image(4) }, RAM::new(4), 0x10, true, true, true, 0);
    untouched.set_item(0x0000, 0x0A);
    untouched.set_item(0x2000, 0x03);
    untouched.set_item(0x4000, 0x02);
    untouched.set_item(0xA000, 0x5A);
    untouched.set_item(0x4000, 0x08);
    untouched.base_mbc.set_time(100);

    // a lone 0x01 takes no snapshot and changes nothing
    mbc.set_item(0x6000, 0x01);
    assert_eq!(mbc.get_item(0xA000), 0);
    assert_eq!(mbc, untouched);
    // nor does 0x01 after 0x00 and another command
    mbc.set_item(0x6000, 0x00);
    mbc.set_item(0x6000, 0x05);
    mbc.set_item(0x7FFF, 0x01);
    assert_eq!(mbc.get_item(0xA000), 0);
    assert_eq!(mbc, untouched);
    // 0x00 then 0x01 does
    mbc.set_item(0x6000, 0x00);
    mbc.set_item(0x7FFF, 0x01);
    assert_eq!(mbc.get_item(0xA000), 40);
    mbc.set_item(0x4000, 0x09);
    assert_eq!(mbc.get_item(0xA000), 1);
    assert_eq!(mbc.base_mbc.rom_bank_selected, 3);
    assert_eq!(mbc.base_mbc.ram_banks.data[2 * 0x2000], 0x5A);
    // the snapshot stays until the next such pair
    mbc.base_mbc.set_time(500);
    mbc.set_item(0x6000, 0x01);
    assert_eq!(mbc.get_item(0xA000), 1);
    mbc.set_item(0x4000, 0x08);
    assert_eq!(mbc.get_item(0xA000), 40);
}

#[test]
fn mbc3_without_a_clock() {
    let mut mbc = MBC3::new(ROM { data: rom_image(4) }, RAM::new(1), 0x13, true, true, false, 0);
    let rtc = mbc.base_mbc.rtc;
    mbc.set_item(0x0000, 0x0A);
    mbc.set_item(0x6000, 0x00);
    mbc.set_item(0x6000, 0x01);
    mbc.set_item(0x4000, 0x08);
    mbc.set_item(0xA000, 0x12);
    assert_eq!(mbc.get_item(0xA000), 0xFF);
    assert_eq!(mbc.base_mbc.rtc, rtc);
    assert_eq!(mbc.base_mbc.ram_banks.data, vec![0u8; 0x2000]);
    mbc.set_item(0x4000, 0x00);
    mbc.set_item(0xA000, 0x12);
    assert_eq!(mbc.get_item(0xA000), 0x12);
}

#[test]
fn mbc3_selects_rom_banks_with_seven_bits() {
    let mut mbc = MBC3::new(ROM { data: rom_image(128) }, RAM::new(1), 0x11, false, false, false, 0);
    mbc.set_item(0x2000, 0x00);
    assert_eq!(mbc.base_mbc.rom_bank_selected, 1);
    mbc.set_item(0x2000, 0x80);
    assert_eq!(mbc.base_mbc.rom_bank_selected, 1);
    mbc.set_item(0x3FFF, 0xFF);
    assert_eq!(mbc.base_mbc.rom_bank_selected, 0x7F);
    assert_eq!(mbc.get_item(0x4003), rom_byte(0x7F, 3));
    let mut mbc = MBC3::new(ROM { data: rom_image(8) }, RAM::new(1), 0x11, false, false, false, 0);
    mbc.set_item(0x2000, 0x2B);
    assert_eq!(mbc.base_mbc.rom_bank_selected, 3);
    // 0x0A in the low nibble opens the RAM, anything else closes it
    mbc.set_item(0x0000, 0x3A);
    assert!(mbc.base_mbc.ram_bank_enabled);
    mbc.set_item(0x0000, 0x01);
    assert!(!mbc.base_mbc.ram_bank_enabled);
}

#[test]
fn mbc5_selects_the_last_of_512_banks() {
    let mut data = rom_image(512);
    let last = data.len() - 1;
    data[0x3FFF] = 0x11;
    data[last] = 0xEE;
    data[0x1FF * 0x4000] = 0xAB;
    data[0] = 0x54;
    let mut mbc = MBC5::new(ROM { data }, RAM::new(0), 0x19, false, false, false, 0);
    mbc.set_item(0x2000, 0xFF);
    assert_eq!(mbc.base_mbc.rom_bank_selected, 0x0FF);
    mbc.set_item(0x3000, 0x01);
    assert_eq!(mbc.base_mbc.rom_bank_selected, 0x1FF);
    assert_eq!(mbc.get_item(0x4000), 0xAB);
    assert_eq!(mbc.get_item(0x7FFF), 0xEE);
    // bank 0 can be selected, and holds other bytes
    mbc.set_item(0x3000, 0x00);
    mbc.set_item(0x2FFF, 0x00);
    assert_eq!(mbc.base_mbc.rom_bank_selected, 0x000);
    assert_eq!(mbc.get_item(0x4000), 0x54);
    assert_eq!(mbc.get_item(0x7FFF), 0x11);
    // the high register keeps the low byte, and takes one bit
    mbc.set_item(0x2000, 0x34);
    mbc.set_item(0x3FFF, 0xFF);
    assert_eq!(mbc.base_mbc.rom_bank_selected, 0x134);
    mbc.set_item(0x2000, 0x56);
    assert_eq!(mbc.base_mbc.rom_bank_selected, 0x156);
    mbc.set_item(0x3000, 0xFE);
    assert_eq!(mbc.base_mbc.rom_bank_selected, 0x056);
}

#[test]
fn mbc5_keeps_both_registers() {
    // with three banks the bank is the 9-bit number modulo 3, whatever was
    // selected before
    let mut mbc = MBC5::new(ROM { data: rom_image(3) }, RAM::new(0), 0x19, false, false, false, 0);
    assert_eq!((mbc.rom_bank_low, mbc.rom_bank_high), (1, 0));
    assert_eq!(mbc.base_mbc.rom_bank_selected, 1);
    mbc.set_item(0x3000, 0x01);
    assert_eq!((mbc.rom_bank_low, mbc.rom_bank_high), (1, 1));
    assert_eq!(mbc.base_mbc.rom_bank_selected, 0x101 % 3);
    mbc.set_item(0x2000, 0x00);
    assert_eq!((mbc.rom_bank_low, mbc.rom_bank_high), (0, 1));
    assert_eq!(mbc.base_mbc.rom_bank_selected, 1); // 0x100 modulo 3
    assert_eq!(mbc.get_item(0x4000), rom_byte(1, 0));
    mbc.set_item(0x2000, 0xFF);
    assert_eq!(mbc.base_mbc.rom_bank_selected, 0x1FF % 3);
    mbc.set_item(0x3000, 0xFE);
    assert_eq!((mbc.rom_bank_low, mbc.rom_bank_high), (0xFF, 0));
    assert_eq!(mbc.base_mbc.rom_bank_selected, 0);
    assert!(mbc.is_valid());
    // the order of the two writes does not matter
    let mut other = MBC5::new(ROM { data: rom_image(3) }, RAM::new(0), 0x19, false, false, false, 0);
    other.set_item(0x2000, 0xFF);
    other.set_item(0x3000, 0x00);
    assert_eq!(mbc, other);
    mbc.rom_bank_high = 2;
    assert!(!mbc.is_valid());
    mbc.rom_bank_high = 1;
    assert!(!mbc.is_valid());
    mbc.base_mbc.rom_bank_selected = 0x1FF % 3;
    assert!(mbc.is_valid());
}

#[test]
fn mbc5_reduces_the_bank() {
    let mut mbc = MBC5::new(ROM { data: rom_image(4) }, RAM::new(2), 0x1A, true, false, false, 0);
    mbc.set_item(0x2000, 0x07);
    assert_eq!(mbc.base_mbc.rom_bank_selected, 3);
    assert_eq!(mbc.get_item(0x4000), rom_byte(3, 0));
    mbc.set_item(0x4000, 0xF3);
    assert_eq!(mbc.base_mbc.ram_bank_selected, 1);
}

#[test]
fn mbc5_ram_enable_takes_the_whole_byte() {
    let mut mbc = MBC5::new(ROM { data: rom_image(2) }, RAM::new(16), 0x1B, true, true, false, 0);
    mbc.set_item(0x0000, 0xFA);
    assert!(!mbc.base_mbc.ram_bank_enabled);
    mbc.set_item(0xA000, 0x01);
    assert_eq!(mbc.get_item(0xA000), 0xFF);
    mbc.set_item(0x1FFF, 0x0A);
    assert!(mbc.base_mbc.ram_bank_enabled);
    mbc.set_item(0x4000, 0x0F);
    assert_eq!(mbc.base_mbc.ram_bank_selected, 15);
    mbc.set_item(0xBFFF, 0x77);
    assert_eq!(mbc.base_mbc.ram_banks.data[16 * 0x2000 - 1], 0x77);
    assert_eq!(mbc.get_item(0xBFFF), 0x77);
    // bank 8 is a RAM bank here, whether or not a clock is said to be there
    mbc.set_item(0x4000, 0x08);
    mbc.set_item(0xA000, 0x21);
    assert_eq!(mbc.base_mbc.ram_banks.data[8 * 0x2000], 0x21);
    // nothing is written from 0x6000
    mbc.set_item(0x6000, 0x01);
    assert_eq!(mbc.base_mbc.memory_model, 0);
    assert_eq!(mbc.base_mbc.last_invalid_address, None);
}

#[test]
fn ram_is_saved_and_loaded() {
    let mut cartridge = Cartridge::load_cartridge(image_with_header(4, 0x03, 0x03), 0).unwrap();
    cartridge.set_item(0x0000, 0x0A);
    cartridge.set_item(0x6000, 0x01);
    cartridge.set_item(0x4000, 0x02);
    cartridge.set_item(0xA123, 0x5A);
    let saved = cartridge.save_ram();
    assert_eq!(saved.len(), 4 * 0x2000);
    assert_eq!(saved[2 * 0x2000 + 0x123], 0x5A);
    assert_eq!(saved, base(&cartridge).ram_banks.data);

    // loading what was saved changes nothing
    let record = cartridge.save_rtc();
    let mut same = Cartridge::load_cartridge(image_with_header(4, 0x03, 0x03), 0).unwrap();
    same.set_item(0x0000, 0x0A);
    same.set_item(0x6000, 0x01);
    same.set_item(0x4000, 0x02);
    same.set_item(0xA123, 0x5A);
    assert!(cartridge.load_ram(&saved));
    assert!(cartridge.load_rtc(&record));
    assert_eq!(cartridge, same);

    // a new cartridge takes the state over
    let mut fresh = Cartridge::load_cartridge(image_with_header(4, 0x03, 0x03), 0).unwrap();
    assert!(fresh.load_ram(&saved));
    assert!(fresh.load_rtc(&record));
    assert_eq!(base(&fresh).ram_banks, base(&cartridge).ram_banks);
    assert_eq!(base(&fresh).rtc, base(&cartridge).rtc);
    fresh.set_item(0x0000, 0x0A);
    fresh.set_item(0x6000, 0x01);
    fresh.set_item(0x4000, 0x02);
    assert_eq!(fresh.get_item(0xA123), 0x5A);
    assert_eq!(fresh, cartridge);
}

#[test]
fn ram_of_another_size_is_refused() {
    let mut cartridge = Cartridge::load_cartridge(image_with_header(4, 0x03, 0x02), 0).unwrap();
    let before = Cartridge::load_cartridge(image_with_header(4, 0x03, 0x02), 0).unwrap();
    assert!(!cartridge.load_ram(&vec![1u8; 0x2000 - 1]));
    assert!(!cartridge.load_ram(&vec![1u8; 0x2000 + 1]));
    assert!(!cartridge.load_ram(&Vec::new()));
    assert_eq!(cartridge, before);
    assert!(cartridge.load_ram(&vec![1u8; 0x2000]));
    assert_eq!(base(&cartridge).ram_banks.data, vec![1u8; 0x2000]);
    let mut ram = RAM::new(1);
    assert!(!ram.load(&vec![1u8; 3]));
    assert_eq!(ram.save(), vec![0u8; 0x2000]);
    ram.write(0, 0x1FFF, 7);
    assert_eq!(ram.read(0, 0x1FFF), 7);
    assert_eq!(ram.save()[0x1FFF], 7);
}

#[test]
fn clock_of_a_cartridge_is_saved_and_loaded() {
    let mut cartridge = Cartridge::load_cartridge(image_with_header(4, 0x10, 0x03), 100).unwrap();
    cartridge.set_time(100 + 3 * 86_400 + 7);
    cartridge.set_item(0x6000, 0x00);
    cartridge.set_item(0x6000, 0x01);
    let record = cartridge.save_rtc();
    assert_eq!(record.len(), 25);
    let mut fresh = Cartridge::load_cartridge(image_with_header(4, 0x10, 0x03), 0).unwrap();
    fresh.set_time(100 + 3 * 86_400 + 7);
    assert!(fresh.load_rtc(&record));
    assert_eq!(fresh, cartridge);
    assert!(!fresh.load_rtc(&record[..24].to_vec()));
    assert!(!fresh.load_rtc(&Vec::new()));
    assert_eq!(fresh, cartridge);
    fresh.set_item(0x0000, 0x0A);
    fresh.set_item(0x4000, 0x0B);
    assert_eq!(fresh.get_item(0xA000), 3);
}

#[test]
fn cartridge_takes_the_time() {
    for cart_type in [0x00u8, 0x01, 0x05, 0x10, 0x19] {
        let mut cartridge =
            Cartridge::load_cartridge(image_with_header(2, cart_type, 0x02), 10).unwrap();
        cartridge.set_time(77);
        assert_eq!(base(&cartridge).rtc.now, 77);
        assert_eq!(base(&cartridge).rtc.time_zero, 10);
    }
}

#[test]
fn base_reads_rom_and_ram() {
    let mut mbc = BaseMBC::new(ROM { data: rom_image(2) }, RAM::new(2), 0, true, false, false, 0);
    assert_eq!(mbc.external_rom_count(), 2);
    assert_eq!(mbc.external_ram_count(), 2);
    assert_eq!(mbc.read_rom(0x0010), rom_byte(0, 0x10));
    assert_eq!(mbc.read_rom(0x4010), rom_byte(1, 0x10));
    assert_eq!(mbc.read_ram(0xA000), 0xFF);
    mbc.write_ram(0xA000, 1);
    assert_eq!(mbc.ram_banks.data[0], 0);
    mbc.ram_bank_enabled = true;
    mbc.ram_bank_selected = 1;
    mbc.write_ram(0xA001, 9);
    assert_eq!(mbc.read_ram(0xA001), 9);
    assert_eq!(mbc.get_item(0xA001), 9);
    assert_eq!(mbc.ram_banks.data[0x2001], 9);
    mbc.ram_bank_selected = 2;
    mbc.write_ram(0xA001, 9);
    assert_eq!(mbc.read_ram(0xA001), 0xFF);
    mbc.record_invalid(0x9000);
    assert_eq!(mbc.last_invalid_address, Some(0x9000));
    assert_eq!(mbc.save_ram().len(), 0x4000);
}

#[test]
fn validity_is_checked() {
    let mut cartridge = Cartridge::load_cartridge(image_with_header(4, 0x03, 0x03), 0).unwrap();
    assert!(cartridge.is_valid());
    for (address, value) in [(0x0000u16, 0x0Au8), (0x2000, 0x1F), (0x4000, 0x03), (0x6000, 0x01), (0xA000, 0x55), (0xD000, 0x01)] {
        cartridge.set_item(address, value);
        assert!(cartridge.is_valid());
    }
    match &mut cartridge.controller {
        Controller::MBC1(mbc) => {
            mbc.bank_select_register1 = 0;
            assert!(!mbc.is_valid());
            mbc.bank_select_register1 = 0x1F;
            assert!(mbc.is_valid());
            mbc.base_mbc.rom_bank_selected = 1;
            assert!(!mbc.is_valid());
            mbc.base_mbc.rom_bank_selected = 0x7F % 4;
            assert!(mbc.is_valid());
            mbc.base_mbc.ram_bank_selected = 0;
            assert!(!mbc.is_valid());
            mbc.base_mbc.ram_bank_selected = 3;
            mbc.base_mbc.memory_model = 2;
            assert!(!mbc.is_valid());
            mbc.base_mbc.memory_model = 1;
            mbc.bank_select_register2 = 4;
            assert!(!mbc.is_valid());
        }
        _ => panic!("an MBC1 was loaded"),
    }

    let mut mbc = BaseMBC::new(ROM { data: image_with_header(2, 0, 0) }, RAM::new(1), 0, false, false, false, 0);
    assert!(mbc.is_valid());
    mbc.game_title[0] = b'X';
    assert!(!mbc.is_valid());
    mbc.game_title[0] = b'V';
    assert!(mbc.is_valid());
    mbc.game_title.pop();
    assert!(!mbc.is_valid());
    mbc.game_title.push(0);
    mbc.cgb_mode = true;
    assert!(!mbc.is_valid());
    mbc.cgb_mode = false;
    mbc.rom_bank_selected = 2;
    assert!(!mbc.is_valid());
    mbc.rom_bank_selected = 0;
    mbc.ram_bank_initialized = false;
    assert!(!mbc.is_valid());
    mbc.ram_bank_initialized = true;
    mbc.ram_banks.data.push(0);
    assert!(!mbc.is_valid());
    mbc.ram_banks.data.pop();
    mbc.rtc.sec_latch = 60;
    assert!(!mbc.is_valid());
    mbc.rtc.sec_latch = 59;
    mbc.rom_banks.data.pop();
    assert!(!mbc.is_valid());
    assert!(!ROM { data: Vec::new() }.is_valid());
    assert!(ROM { data: vec![0; 0x8000] }.is_valid());
    assert!(RAM { data: Vec::new() }.is_valid());
    assert!(!RAM { data: vec![0; 0x1000] }.is_valid());
}
