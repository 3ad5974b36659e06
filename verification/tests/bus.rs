use gb_core::bus::{region, Bus, BusMut, Region};
use gb_core::cartridge::{Cartridge, MBC, RAM, ROM};
use gb_core::motherboard::Motherboard;

fn rom_image(banks: usize) -> Vec<u8> {
    let mut data = vec![0u8; banks * 0x4000];
    for bank in 0..banks {
        for offset in 0..0x4000 {
            data[bank * 0x4000 + offset] = (bank as u8).wrapping_mul(16).wrapping_add(offset as u8);
        }
    }
    data
}

#[test]
fn regions_of_the_address_space() {
    let table = [
        (0x0000u16, 0x3FFFu16, Region::RomBank0),
        (0x4000, 0x7FFF, Region::RomBankN),
        (0x8000, 0x9FFF, Region::VideoRam),
        (0xA000, 0xBFFF, Region::CartridgeRam),
        (0xC000, 0xDFFF, Region::WorkRam),
        (0xE000, 0xFDFF, Region::EchoRam),
        (0xFE00, 0xFE9F, Region::Io),
        (0xFEA0, 0xFEFF, Region::Unmapped),
        (0xFF00, 0xFF7F, Region::Io),
        (0xFF80, 0xFFFE, Region::HighRam),
        (0xFFFF, 0xFFFF, Region::InterruptEnable),
    ];
    for (first, last, expected) in table {
        for address in first..=last {
            assert_eq!(region(address), expected);
        }
    }
}

#[test]
fn a_new_bus_reads_zero() {
    let mut bus = BusMut::new();
    assert_eq!(bus.memory.len(), 0x10000);
    assert!(bus.cartridge.is_none());
    assert_eq!(bus.read8(0x0000), 0);
    assert_eq!(bus.read8(0xC000), 0);
    assert_eq!(bus.read8(0xFFFF), 0);
}

#[test]
fn bytes_are_stored_where_they_are_written() {
    let mut bus = BusMut::new();
    for address in [0x0000u16, 0x4000, 0x8000, 0xA000, 0xC000, 0xE000, 0xFE00, 0xFF00, 0xFF80, 0xFFFF] {
        bus.write8(address, 0x5A);
        assert_eq!(bus.read8(address), 0x5A);
        assert_eq!(bus.memory[address as usize], 0x5A);
    }
}

#[test]
fn nothing_is_mapped_between_fea0_and_feff() {
    let mut bus = BusMut::new();
    for address in 0xFEA0..=0xFEFFu16 {
        bus.write8(address, 0x12);
        assert_eq!(bus.read8(address), 0xFF);
        assert_eq!(bus.memory[address as usize], 0x00);
    }
}

#[test]
fn words_are_two_bytes_low_byte_first() {
    let mut bus = BusMut::new();
    bus.write16(0xC000, 0x1234);
    assert_eq!(bus.read8(0xC000), 0x34);
    assert_eq!(bus.read8(0xC001), 0x12);
    assert_eq!(bus.read16(0xC000), 0x1234);
    bus.write8(0xC002, 0xCD);
    bus.write8(0xC003, 0xAB);
    assert_eq!(bus.read16(0xC002), 0xABCD);
}

#[test]
fn words_wrap_around_the_address_space() {
    let mut bus = BusMut::new();
    bus.write16(0xFFFF, 0xBEEF);
    assert_eq!(bus.memory[0xFFFF], 0xEF);
    assert_eq!(bus.memory[0x0000], 0xBE);
    assert_eq!(bus.read16(0xFFFF), 0xBEEF);
}

#[test]
fn each_byte_of_a_word_is_routed_by_its_own_address() {
    let mut bus = BusMut::new();
    // the low byte is not mapped, the high byte is
    bus.write16(0xFEFF, 0x1234);
    assert_eq!(bus.memory[0xFEFF], 0x00);
    assert_eq!(bus.memory[0xFF00], 0x12);
    assert_eq!(bus.read16(0xFEFF), 0x12FF);
}

#[test]
fn the_cartridge_owns_its_windows() {
    let mbc = MBC::lookup(0x01).unwrap();
    let cartridge = Cartridge::new(ROM { data: rom_image(4) }, RAM::new(1), mbc, 0);
    let mut bus = BusMut::new();
    bus.memory[0x0005] = 0xEE;
    bus.insert_cartridge(cartridge);
    assert_eq!(bus.read8(0x0005), 0x05);
    assert_eq!(bus.read8(0x4005), 0x15);
    bus.write8(0x2000, 0x03);
    assert_eq!(bus.read8(0x4005), 0x35);
    assert_eq!(bus.memory[0x2000], 0x00);
    // the RAM window is closed
    bus.write8(0xA000, 0x77);
    assert_eq!(bus.read8(0xA000), 0xFF);
    bus.write8(0x0000, 0x0A);
    bus.write8(0xA000, 0x77);
    assert_eq!(bus.read8(0xA000), 0x77);
    assert_eq!(bus.memory[0xA000], 0x00);
    // everything else stays with the memory
    bus.write8(0xC000, 0x42);
    assert_eq!(bus.memory[0xC000], 0x42);
    bus.write8(0x8000, 0x43);
    assert_eq!(bus.memory[0x8000], 0x43);
    // reads through the bus never count as invalid accesses
    match &bus.cartridge.as_ref().unwrap().controller {
        gb_core::cartridge::Controller::MBC1(mbc) => {
            assert_eq!(mbc.base_mbc.last_invalid_address, None)
        }
        _ => panic!("an MBC1 was inserted"),
    }
}

#[test]
fn the_motherboard_is_a_bus() {
    let mut board = Motherboard::new();
    board.write8(0xC000, 0x99);
    assert_eq!(board.read8(0xC000), 0x99);
    assert_eq!(board.bus.memory[0xC000], 0x99);
    board.write16(0xC010, 0xABCD);
    assert_eq!(board.read16(0xC010), 0xABCD);
    assert_eq!(board.cpu, gb_core::cpu::CPU::new());
}
