//! Mapper 0: fixed banks, and pattern memory that is ROM, or 8 KiB of RAM
//! where the cartridge brings no ROM for it.

use vstd::prelude::*;
use crate::cart::{spec_mapping_table, standard_mapping_tables, Cart};
use crate::mappers::bank::{MappingTable, RomBank, BANK_SIZE};
use crate::mappers::MapperParams;

verus! {

/// The size of the pattern RAM.
pub const CHR_RAM_SIZE: usize = 0x2000;

/// A cartridge without bank switching.
pub struct Mapper000 {
    prg_rom: MappingTable,
    chr_rom: Vec<u8>,
    chr_ram: Vec<u8>,
    prg_ram: Vec<u8>,
    mode: [u16; 4],
}

impl Mapper000 {
    /// The table of the program ROM.
    pub closed spec fn prg_rom(&self) -> &MappingTable {
        &self.prg_rom
    }

    /// The pattern ROM; empty where the cartridge has pattern RAM.
    pub closed spec fn chr_rom(&self) -> Seq<u8> {
        self.chr_rom@
    }

    /// The pattern RAM; empty where the cartridge has pattern ROM.
    pub closed spec fn chr_ram(&self) -> Seq<u8> {
        self.chr_ram@
    }

    /// The program RAM.
    pub closed spec fn prg_ram(&self) -> Seq<u8> {
        self.prg_ram@
    }

    /// The nametable bases.
    pub closed spec fn mode(&self) -> Seq<u16> {
        self.mode@
    }

    pub open spec fn wf(&self) -> bool {
        &&& self.prg_rom().wf()
        &&& self.prg_rom().mappings().len() == 8
        &&& (self.chr_rom().len() == 0 <==> self.chr_ram().len() == CHR_RAM_SIZE)
        &&& (self.chr_rom().len() != 0 <==> self.chr_ram().len() == 0)
        &&& self.mode().len() == 4
    }

    /// The byte of program RAM that the address `idx` names.
    pub open spec fn spec_prg_ram_index(&self, idx: u16) -> int {
        ((idx - 0x6000) % (self.prg_ram().len() as int)) as int
    }

    /// The program ROM window shows the byte of the bank that the page of
    /// `idx` is mapped to.
    pub fn prg_rom_read(&self, idx: u16) -> (bank: &RomBank)
        requires
            self.wf(),
        ensures
            bank.wf(),
            bank.spec_read(idx) == self.prg_rom().spec_read(idx),
    {
        self.prg_rom.get_bank(idx)
    }

    /// The bank that a write to `idx` goes to.
    pub fn prg_rom_write(&mut self, idx: u16, val: u8) -> (bank: &mut RomBank)
        requires
            old(self).wf(),
        ensures
            bank.wf(),
            *bank == old(self).prg_rom().banks()[old(self).prg_rom().mappings()[
                MappingTable::spec_page(idx)] as int],
            final(self).prg_rom().banks() == old(self).prg_rom().banks().update(
                old(self).prg_rom().mappings()[MappingTable::spec_page(idx)] as int,
                *final(bank),
            ),
            final(self).prg_rom().mappings() == old(self).prg_rom().mappings(),
            final(self).prg_ram() == old(self).prg_ram(),
            final(self).chr_rom() == old(self).chr_rom(),
            final(self).chr_ram() == old(self).chr_ram(),
            final(self).mode() == old(self).mode(),
    {
        self.prg_rom.get_bank_mut(idx)
    }

    pub fn prg_ram_read(&self, idx: u16) -> (val: u8)
        requires
            self.prg_ram().len() > 0,
            idx >= 0x6000,
        ensures
            val == self.prg_ram()[self.spec_prg_ram_index(idx)],
    {
        self.prg_ram[(idx - 0x6000) as usize % self.prg_ram.len()]
    }

    pub fn prg_ram_write(&mut self, idx: u16, val: u8)
        requires
            old(self).prg_ram().len() > 0,
            idx >= 0x6000,
        ensures
            final(self).prg_ram() == old(self).prg_ram().update(
                old(self).spec_prg_ram_index(idx),
                val,
            ),
            final(self).prg_rom() == old(self).prg_rom(),
            final(self).chr_rom() == old(self).chr_rom(),
            final(self).chr_ram() == old(self).chr_ram(),
            final(self).mode() == old(self).mode(),
    {
        let i: usize = (idx - 0x6000) as usize % self.prg_ram.len();
        self.prg_ram[i] = val;
    }
}

impl Cart for Mapper000 {
    open spec fn chr(&self, addr: u16) -> u8 {
        if self.chr_rom().len() == 0 {
            if self.chr_ram().len() == 0 {
                0
            } else {
                self.chr_ram()[addr as int % self.chr_ram().len() as int]
            }
        } else {
            self.chr_rom()[addr as int % self.chr_rom().len() as int]
        }
    }

    open spec fn mirroring(&self) -> Seq<u16> {
        self.mode()
    }

    /// Pattern RAM takes the byte; pattern ROM stays as it is.
    open spec fn chr_written(&self, addr: u16, val: u8, after: &Self) -> bool {
        &&& after.prg_rom() == self.prg_rom()
        &&& after.prg_ram() == self.prg_ram()
        &&& after.chr_rom() == self.chr_rom()
        &&& after.mode() == self.mode()
        &&& after.chr_ram() == if self.chr_rom().len() == 0 && self.chr_ram().len() > 0 {
            self.chr_ram().update(addr as int % self.chr_ram().len() as int, val)
        } else {
            self.chr_ram()
        }
    }

    fn chr_read(&self, addr: u16) -> (val: u8) {
        if self.chr_rom.len() == 0 {
            if self.chr_ram.len() == 0 {
                return 0;
            }
            self.chr_ram[addr as usize % self.chr_ram.len()]
        } else {
            self.chr_rom[addr as usize % self.chr_rom.len()]
        }
    }

    fn chr_write(&mut self, addr: u16, val: u8) {
        if self.chr_rom.len() == 0 && self.chr_ram.len() > 0 {
            let len = self.chr_ram.len();
            self.chr_ram[addr as usize % len] = val;
        }
    }

    fn get_mirroring_table(&self) -> (table: &[u16; 4]) {
        &self.mode
    }
}

/// Builds the cartridge: the eight pages of the program window take the
/// banks of the program ROM in turn, over and over.
pub fn new(params: MapperParams) -> (mapper: Mapper000)
    requires
        params.prg_rom.len() >= BANK_SIZE,
    ensures
        mapper.wf(),
        mapper.chr_rom() == params.chr_rom@,
        mapper.chr_ram() == Seq::new(
            if params.chr_rom@.len() == 0 {
                CHR_RAM_SIZE as nat
            } else {
                0nat
            },
            |i: int| 0u8,
        ),
        mapper.prg_ram() == Seq::new(params.prg_ram_size as nat, |i: int| 0u8),
        mapper.mirroring() == spec_mapping_table(params.mirroring_mode),
        mapper.prg_rom().banks().len() == params.prg_rom.len() / BANK_SIZE,
        forall|b: int, i: int|
            0 <= b < mapper.prg_rom().banks().len() && 0 <= i < BANK_SIZE
                ==> mapper.prg_rom().banks()[b]@[i] == params.prg_rom[b * BANK_SIZE + i],
        forall|page: int|
            0 <= page < 8 ==> mapper.prg_rom().mappings()[page] == page % (
            mapper.prg_rom().banks().len() as int),
{
    let chr_ram: Vec<u8> = if params.chr_rom.len() == 0 {
        vec![0u8; CHR_RAM_SIZE]
    } else {
        Vec::new()
    };
    let mut prg_rom_table = MappingTable::new(params.prg_rom, 8);
    let bank_count = prg_rom_table.bank_count();
    let mut page: usize = 0;
    while page < 8
        invariant
            page <= 8,
            prg_rom_table.wf(),
            bank_count == prg_rom_table.banks().len(),
            bank_count >= 1,
            prg_rom_table.mappings().len() == 8,
            prg_rom_table.banks().len() == params.prg_rom.len() / BANK_SIZE,
            forall|b: int, i: int|
                0 <= b < prg_rom_table.banks().len() && 0 <= i < BANK_SIZE
                    ==> prg_rom_table.banks()[b]@[i] == params.prg_rom[b * BANK_SIZE + i],
            forall|p: int|
                0 <= p < page ==> prg_rom_table.mappings()[p] == p % (bank_count as int),
        decreases 8 - page,
    {
        prg_rom_table.map_page(page, page % bank_count);
        page = page + 1;
    }
    let prg_ram: Vec<u8> = vec![0u8; params.prg_ram_size];
    let mapper = Mapper000 {
        prg_rom: prg_rom_table,
        chr_rom: params.chr_rom,
        chr_ram,
        prg_ram,
        mode: standard_mapping_tables(params.mirroring_mode),
    };
    assert(mapper.chr_ram() =~= Seq::new(
        if params.chr_rom@.len() == 0 {
            CHR_RAM_SIZE as nat
        } else {
            0nat
        },
        |i: int| 0u8,
    ));
    assert(mapper.prg_ram() =~= Seq::new(params.prg_ram_size as nat, |i: int| 0u8));
    mapper
}

} // verus!
