use nes_core::cart::Cart;
use nes_core::mappers::mapper000::{new, Mapper000};
use nes_core::mappers::MapperParams;

fn create_test_mapper() -> Mapper000 {
    new(MapperParams::simple(vec![0u8; 0x4000], vec![0u8; 0x4000]))
}

#[test]
fn test_can_create_mapper_0() {
    new(MapperParams::simple(vec![0u8; 0x1000], vec![]));
}

#[test]
fn test_prg_ram_read_write() {
    let mut params = MapperParams::simple(vec![0u8; 0x4000], vec![0u8; 0x4000]);
    params.prg_ram_size = 0x1000;
    let mut nrom = new(params);
    nrom.prg_ram_write(0x6111, 15);
    assert_eq!(nrom.prg_ram_read(0x6111), 15);

    nrom.prg_ram_write(0x6112, 16);
    assert_eq!(nrom.prg_ram_read(0x7112), 16);
}

#[test]
fn test_prg_rom_read() {
    let prg_rom: Vec<_> = (0..0x4000).map(|val| (val % 0xFF) as u8).collect();
    let mapper = new(MapperParams::simple(prg_rom, vec![0u8; 0x4000]));

    assert_eq!(
        mapper.prg_rom_read(0x8111).read(0x8111),
        mapper.prg_rom_read(0xC111).read(0xC111)
    );
}

#[test]
fn test_prg_rom_mirroring() {
    let mut prg_rom: Vec<_> = vec![0u8; 0x4000];
    prg_rom[0x2612] = 0x15;
    let mapper = new(MapperParams::simple(prg_rom, vec![0u8; 0x1000]));
    assert_eq!(mapper.prg_rom_read(0xA612).read(0xA612), 0x15);
}

#[test]
fn test_prg_rom_write() {
    let mut mapper = create_test_mapper();

    mapper.prg_rom_write(0x8612, 15).write(0x8612, 15);
    assert_eq!(mapper.prg_rom_read(0x8612).read(0x8612), 0);
}

#[test]
fn test_chr_rom_read() {
    let chr_rom: Vec<_> = (0..0x2000).map(|val| (val % 0xFF) as u8).collect();
    let mapper = new(MapperParams::simple(vec![0u8; 0x4000], chr_rom));

    assert_eq!(mapper.chr_read(0x8111), mapper.chr_read(0xC111));
}

#[test]
fn test_chr_rom_write() {
    let mut mapper = create_test_mapper();

    mapper.chr_write(0x1612, 15);
    assert_eq!(mapper.chr_read(0x1612), 0);
}

#[test]
fn chr_rom_read_returns_the_byte_of_the_rom() {
    let chr_rom: Vec<_> = (0..0x2000).map(|val| (val % 0xFF) as u8).collect();
    let mapper = new(MapperParams::simple(vec![0u8; 0x4000], chr_rom));
    assert_eq!(mapper.chr_read(0x0111), (0x0111 % 0xFF) as u8);
    assert_eq!(mapper.chr_read(0x2111), (0x0111 % 0xFF) as u8);
}

#[test]
fn chr_ram_takes_writes_where_there_is_no_rom() {
    let mut mapper = new(MapperParams::simple(vec![0u8; 0x4000], vec![]));
    assert_eq!(mapper.chr_read(0x1612), 0);
    mapper.chr_write(0x1612, 15);
    assert_eq!(mapper.chr_read(0x1612), 15);
    assert_eq!(mapper.chr_read(0x1613), 0);
}

#[test]
fn pages_take_the_banks_in_turn() {
    let prg_rom: Vec<u8> = (0..0x2000).map(|val| (val / 0x1000 + 1) as u8).collect();
    let mapper = new(MapperParams::simple(prg_rom, vec![]));
    assert_eq!(mapper.prg_rom_read(0x8000).read(0x8000), 1);
    assert_eq!(mapper.prg_rom_read(0x9000).read(0x9000), 2);
    assert_eq!(mapper.prg_rom_read(0xA000).read(0xA000), 1);
    assert_eq!(mapper.prg_rom_read(0xFFFF).read(0xFFFF), 2);
}

#[test]
fn simple_params_put_both_screens_on_the_first_nametable() {
    let mapper = new(MapperParams::simple(vec![0u8; 0x1000], vec![]));
    assert_eq!(*mapper.get_mirroring_table(), [0u16, 0, 0, 0]);
}
