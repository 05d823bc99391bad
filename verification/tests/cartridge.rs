use gameboy::cartridge::{read_header, Controller, Mbc, Mbc0, Mbc1, MbcEmpty};
use gameboy::{Cartridge, Fault, MMU};

/// An image of `banks` banks of 16 KiB whose header names `controller`, and
/// in which every byte of a bank but the header holds the number of the bank.
fn image(controller: u8, banks: usize) -> Vec<u8> {
    let mut data = vec![0u8; banks * 0x4000];
    for (index, byte) in data.iter_mut().enumerate() {
        *byte = (index / 0x4000) as u8;
    }
    data[0x147] = controller;
    data
}

#[test]
fn header_zero_selects_the_plain_controller() {
    let cartridge = Cartridge::new(Some(image(0x00, 2))).unwrap();
    assert!(matches!(cartridge.mbc, Controller::Plain(_)));
}

#[test]
fn headers_one_to_three_select_the_banked_controller() {
    for controller in 1..=3u8 {
        let cartridge = Cartridge::new(Some(image(controller, 4))).unwrap();
        assert!(matches!(cartridge.mbc, Controller::Banked(_)));
    }
}

#[test]
fn no_image_leaves_the_slot_empty() {
    let cartridge = Cartridge::new(None).unwrap();
    assert!(matches!(cartridge.mbc, Controller::Empty(_)));
}

#[test]
fn an_unknown_controller_is_refused_at_load_time() {
    for controller in [0x04u8, 0x05, 0x13, 0xFF] {
        let refused = Cartridge::new(Some(image(controller, 2)));
        assert!(matches!(
            refused,
            Err(Fault::UnsupportedCartridge { controller: c }) if c == controller
        ));
        let refused = MMU::new(Some(image(controller, 2)), None);
        assert!(matches!(
            refused,
            Err(Fault::UnsupportedCartridge { controller: c }) if c == controller
        ));
    }
}

#[test]
fn an_image_too_short_for_a_header_is_refused() {
    let refused = Cartridge::new(Some(vec![0u8; 0x100]));
    assert!(matches!(refused, Err(Fault::UnsupportedCartridge { controller: 0xFF })));
}

#[test]
fn the_plain_cartridge_reads_its_image_whatever_is_written() {
    let mut data = image(0x00, 2);
    data[0x4000] = 0xAB;
    data[0x7FFF] = 0xCD;
    let mut mmu = MMU::new(Some(data), None).unwrap();
    assert_eq!(mmu.rb(0x4000), Ok(0xAB));
    for value in 0..=255u8 {
        mmu.wb(0x2000, value).unwrap();
        assert_eq!(mmu.rb(0x4000), Ok(0xAB));
    }
    mmu.wb(0x4000, 0x00).unwrap();
    assert_eq!(mmu.rb(0x4000), Ok(0xAB));
    assert_eq!(mmu.rb(0x7FFF), Ok(0xCD));
    assert_eq!(mmu.rb(0x0147), Ok(0x00));
}

#[test]
fn the_empty_slot_reads_ff_and_ignores_writes() {
    let mut slot = MbcEmpty::new();
    slot.wb(0x2000, 0x05);
    assert_eq!(slot.rb(0x0000), 0xFF);
    assert_eq!(slot.rb(0x4000), 0xFF);
    let mut mmu = MMU::new(None, None).unwrap();
    mmu.wb(0x2000, 3).unwrap();
    assert_eq!(mmu.rb(0x0100), Ok(0xFF));
    assert_eq!(mmu.rb(0x7FFF), Ok(0xFF));
}

#[test]
fn reads_beyond_the_image_return_ff() {
    let plain = Mbc0::new(vec![1, 2, 3]);
    assert_eq!(plain.rb(0x0002), 3);
    assert_eq!(plain.rb(0x0003), 0xFF);
    assert_eq!(plain.rb(0x7FFF), 0xFF);
    let mut banked = Mbc1::new(image(0x01, 2));
    banked.wb(0x2000, 0x03);
    assert_eq!(banked.rb(0x4000), 0xFF);
}

#[test]
fn the_banked_cartridge_starts_with_bank_one() {
    let banked = Mbc1::new(image(0x01, 4));
    assert_eq!(banked.rom_bank_number, 1);
    assert_eq!(banked.rb(0x0000), 0);
    assert_eq!(banked.rb(0x3FFF), 0);
    assert_eq!(banked.rb(0x4000), 1);
    assert_eq!(banked.rb(0x7FFF), 1);
}

#[test]
fn the_selected_bank_is_read_at_4000() {
    let mut banked = Mbc1::new(image(0x01, 32));
    for bank in 1..32u8 {
        banked.wb(0x2000, bank);
        assert_eq!(banked.rom_bank_number, bank);
        assert_eq!(banked.rb(0x4000), bank);
        assert_eq!(banked.rb(0x7FFF), bank);
        assert_eq!(banked.rb(0x0000), 0);
    }
    banked.wb(0x3FFF, 0x05);
    assert_eq!(banked.rb(0x4123), 5);
}

#[test]
fn only_five_bits_select_the_bank() {
    let mut banked = Mbc1::new(image(0x01, 32));
    banked.wb(0x2000, 0xE7);
    assert_eq!(banked.rom_bank_number, 0x07);
    assert_eq!(banked.rb(0x4000), 7);
}

#[test]
fn selecting_bank_zero_selects_bank_one() {
    let mut banked = Mbc1::new(image(0x01, 4));
    banked.wb(0x2000, 0x02);
    assert_eq!(banked.rb(0x4000), 2);
    banked.wb(0x2000, 0x00);
    assert_eq!(banked.rom_bank_number, 1);
    assert_eq!(banked.rb(0x4000), 1);
    banked.wb(0x2000, 0x20);
    assert_eq!(banked.rom_bank_number, 1);
}

#[test]
fn the_banked_cartridge_has_ram_at_a000() {
    let mut banked = Mbc1::new(image(0x01, 2));
    banked.wb(0xA000, 0x12);
    banked.wb(0xBFFF, 0x34);
    assert_eq!(banked.rb(0xA000), 0x12);
    assert_eq!(banked.rb(0xBFFF), 0x34);
    assert_eq!(banked.ram[0], 0x12);
    assert_eq!(banked.ram[0x1FFF], 0x34);
}

#[test]
fn other_writes_to_the_banked_cartridge_change_nothing() {
    let mut banked = Mbc1::new(image(0x01, 4));
    banked.wb(0x2000, 0x02);
    banked.wb(0x0000, 0x0A);
    banked.wb(0x1FFF, 0x0A);
    banked.wb(0x4000, 0x03);
    banked.wb(0x7FFF, 0x03);
    assert_eq!(banked.rom_bank_number, 2);
    assert_eq!(banked.rb(0x4000), 2);
    assert_eq!(banked.ram[0], 0);
}

#[test]
fn the_bus_writes_the_bank_select_through_to_the_cartridge() {
    let mut mmu = MMU::new(Some(image(0x01, 8)), None).unwrap();
    assert_eq!(mmu.rb(0x4000), Ok(1));
    mmu.wb(0x2100, 0x06).unwrap();
    assert_eq!(mmu.rb(0x4000), Ok(6));
    assert_eq!(mmu.rb(0x0000), Ok(0));
    mmu.wb(0xA010, 0x77).unwrap();
    assert!(matches!(&mmu.cartridge.mbc, Controller::Banked(banked) if banked.ram[0x10] == 0x77));
}

#[test]
fn the_header_names_title_controller_and_size() {
    let mut image = vec![0u8; 0x8000];
    image[0x134..0x134 + 6].copy_from_slice(b"TETRIS");
    image[0x147] = 0x01;
    image[0x148] = 0x02;
    let header = read_header(&image).unwrap();
    assert_eq!(&header.title[..6], b"TETRIS");
    assert_eq!(header.title.len(), 15);
    assert_eq!(header.controller, 0x01);
    assert_eq!(header.rom_size, 128);
    assert_eq!(header.bank_count, 8);
}

#[test]
fn an_image_without_header_has_none() {
    assert!(read_header(&vec![0u8; 0x148]).is_none());
    let mut image = vec![0u8; 0x149];
    assert!(read_header(&image).is_some());
    image[0x148] = 32;
    assert!(read_header(&image).is_none());
    image[0x148] = 0;
    let header = read_header(&image).unwrap();
    assert_eq!((header.rom_size, header.bank_count), (32, 2));
}
