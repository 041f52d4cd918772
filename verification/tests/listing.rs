use c8dis::listing::{disassemble, BASE_ADDR, MAX_ROM_BYTES};

#[test]
fn four_byte_rom_end_to_end() {
    let rom: Vec<u8> = vec![0x00, 0xE0, 0x1A, 0xBC];
    let lines = disassemble(&rom);
    assert_eq!(lines.len(), 2);
    assert_eq!(lines[0], "0200:\t00 E0\tCLS");
    assert_eq!(lines[1], "0202:\t1A BC\tJP 0ABC");
}

#[test]
fn empty_rom_yields_no_lines() {
    let rom: Vec<u8> = Vec::new();
    assert_eq!(disassemble(&rom).len(), 0);
}

#[test]
fn lone_byte_yields_no_lines() {
    let rom: Vec<u8> = vec![0x00];
    assert_eq!(disassemble(&rom).len(), 0);
}

#[test]
fn odd_trailing_byte_yields_no_extra_line() {
    let even: Vec<u8> = vec![0x00, 0xE0, 0x1A, 0xBC];
    let odd: Vec<u8> = vec![0x00, 0xE0, 0x1A, 0xBC, 0x7F];
    let even_lines = disassemble(&even);
    let odd_lines = disassemble(&odd);
    assert_eq!(odd_lines.len(), even_lines.len());
    assert_eq!(odd_lines, even_lines);
}

#[test]
fn rom_of_exactly_the_capacity_is_fully_decoded() {
    let rom: Vec<u8> = vec![0x00; MAX_ROM_BYTES];
    let lines = disassemble(&rom);
    assert_eq!(lines.len(), MAX_ROM_BYTES / 2);
    assert_eq!(lines[0], "0200:\t00 00\t#INVALID");
    assert_eq!(lines[lines.len() - 1], "11FE:\t00 00\t#INVALID");
}

#[test]
fn rom_one_byte_over_the_capacity_is_cut_without_error() {
    let mut rom: Vec<u8> = vec![0x00; MAX_ROM_BYTES];
    rom.push(0xE0);
    let lines = disassemble(&rom);
    assert_eq!(lines.len(), MAX_ROM_BYTES / 2);
    let capped = disassemble(&rom[..MAX_ROM_BYTES].to_vec());
    assert_eq!(lines, capped);
}

#[test]
fn addresses_start_at_the_load_origin() {
    assert_eq!(BASE_ADDR, 0x200);
    let rom: Vec<u8> = vec![0x6A, 0x05, 0x8A, 0xB4, 0x00, 0xEE];
    let lines = disassemble(&rom);
    assert_eq!(lines.len(), 3);
    assert_eq!(lines[0], "0200:\t6A 05\tLD VA, 05");
    assert_eq!(lines[1], "0202:\t8A B4\tADD VA, VB");
    assert_eq!(lines[2], "0204:\t00 EE\tRET");
}
