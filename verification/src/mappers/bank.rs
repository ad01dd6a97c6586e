//! Program ROM in banks of 4 KiB, and the table that maps the pages of the
//! CPU's window onto them.

use vstd::prelude::*;

verus! {

/// The size of a bank and of a page.
pub const BANK_SIZE: usize = 0x1000;

pub proof fn lemma_bank_offset(idx: u16)
    by (bit_vector)
    ensures
        idx & 0x0FFF < 0x1000,
        (idx & 0x7FFF) >> 12u16 < 8,
{
}

/// One bank of ROM.
pub struct RomBank {
    data: Vec<u8>,
}

impl RomBank {
    pub closed spec fn view(&self) -> Seq<u8> {
        self.data@
    }

    pub open spec fn wf(&self) -> bool {
        self@.len() == BANK_SIZE
    }

    /// The byte of the bank that the address `idx` names.
    pub open spec fn spec_read(&self, idx: u16) -> u8 {
        self@[(idx & 0x0FFF) as int]
    }

    #[verifier::when_used_as_spec(spec_read)]
    pub fn read(&self, idx: u16) -> (val: u8)
        requires
            self.wf(),
        ensures
            val == self.spec_read(idx),
    {
        proof {
            lemma_bank_offset(idx);
        }
        self.data[(idx & 0x0FFF) as usize]
    }

    /// ROM takes no writes.
    pub fn write(&mut self, idx: u16, val: u8)
        ensures
            *final(self) == *old(self),
    {
    }
}

/// The banks of a ROM and, for each page of the window, its bank.
pub struct MappingTable {
    banks: Vec<RomBank>,
    mappings: Vec<usize>,
}

impl MappingTable {
    /// The banks.
    pub closed spec fn banks(&self) -> Seq<RomBank> {
        self.banks@
    }

    /// For each page, the number of its bank.
    pub closed spec fn mappings(&self) -> Seq<usize> {
        self.mappings@
    }

    pub open spec fn wf(&self) -> bool {
        &&& forall|b: int| 0 <= b < self.banks().len() ==> (#[trigger] self.banks()[b]).wf()
        &&& forall|p: int|
            0 <= p < self.mappings().len() ==> (#[trigger] self.mappings()[p])
                < self.banks().len()
    }

    /// The page of the window that the address `idx` lies in.
    pub open spec fn spec_page(idx: u16) -> int {
        ((idx & 0x7FFF) >> 12u16) as int
    }

    /// The byte that the address `idx` names.
    pub open spec fn spec_read(&self, idx: u16) -> u8 {
        self.banks()[self.mappings()[Self::spec_page(idx)] as int].spec_read(idx)
    }

    /// A table of `page_count` pages over the banks of `rom`, all mapped to
    /// the first bank. Bytes after the last whole bank are dropped.
    pub fn new(rom: Vec<u8>, page_count: usize) -> (table: MappingTable)
        requires
            rom.len() >= BANK_SIZE,
        ensures
            table.wf(),
            table.banks().len() == rom.len() / BANK_SIZE,
            forall|b: int, i: int|
                0 <= b < table.banks().len() && 0 <= i < BANK_SIZE ==> table.banks()[b]@[i]
                    == rom[b * BANK_SIZE + i],
            table.mappings() == Seq::new(page_count as nat, |p: int| 0usize),
    {
        let bank_count: usize = rom.len() / BANK_SIZE;
        let mut banks: Vec<RomBank> = Vec::new();
        let mut b: usize = 0;
        while b < bank_count
            invariant
                bank_count == rom.len() / BANK_SIZE,
                b <= bank_count,
                banks.len() == b,
                forall|k: int| 0 <= k < b ==> (#[trigger] banks[k])@.len() == BANK_SIZE,
                forall|k: int, i: int|
                    0 <= k < b && 0 <= i < BANK_SIZE ==> (#[trigger] banks[k]@[i]) == rom[k
                        * BANK_SIZE + i],
            decreases bank_count - b,
        {
            let mut data: Vec<u8> = Vec::new();
            let mut i: usize = 0;
            while i < BANK_SIZE
                invariant
                    bank_count == rom.len() / BANK_SIZE,
                    b < bank_count,
                    i <= BANK_SIZE,
                    data.len() == i,
                    forall|j: int| 0 <= j < i ==> data[j] == rom[b * BANK_SIZE + j],
                decreases BANK_SIZE - i,
            {
                data.push(rom[b * BANK_SIZE + i]);
                i = i + 1;
            }
            banks.push(RomBank { data });
            b = b + 1;
        }
        let mappings: Vec<usize> = vec![0usize; page_count];
        let table = MappingTable { banks, mappings };
        assert(table.mappings() =~= Seq::new(page_count as nat, |p: int| 0usize));
        table
    }

    pub fn bank_count(&self) -> (n: usize)
        ensures
            n == self.banks().len(),
    {
        self.banks.len()
    }

    pub fn page_count(&self) -> (n: usize)
        ensures
            n == self.mappings().len(),
    {
        self.mappings.len()
    }

    /// Maps page `page` to bank `bank`.
    pub fn map_page(&mut self, page: usize, bank: usize)
        requires
            old(self).wf(),
            page < old(self).mappings().len(),
            bank < old(self).banks().len(),
        ensures
            final(self).wf(),
            final(self).banks() == old(self).banks(),
            final(self).mappings() == old(self).mappings().update(page as int, bank),
    {
        self.mappings[page] = bank;
    }

    /// The bank that the address `idx` lies in.
    pub fn get_bank(&self, idx: u16) -> (bank: &RomBank)
        requires
            self.wf(),
            self.mappings().len() == 8,
        ensures
            bank.wf(),
            *bank == self.banks()[self.mappings()[Self::spec_page(idx)] as int],
            bank.spec_read(idx) == self.spec_read(idx),
    {
        proof {
            lemma_bank_offset(idx);
        }
        let page: usize = ((idx & 0x7FFF) >> 12u16) as usize;
        let number: usize = self.mappings[page];
        assert(self.mappings()[page as int] < self.banks().len());
        assert(self.banks()[number as int].wf());
        &self.banks[number]
    }

    /// The bank that the address `idx` lies in, to write to.
    pub fn get_bank_mut(&mut self, idx: u16) -> (bank: &mut RomBank)
        requires
            old(self).wf(),
            old(self).mappings().len() == 8,
        ensures
            bank.wf(),
            *bank == old(self).banks()[old(self).mappings()[Self::spec_page(idx)] as int],
            final(self).banks() == old(self).banks().update(
                old(self).mappings()[Self::spec_page(idx)] as int,
                *final(bank),
            ),
            final(self).mappings() == old(self).mappings(),
    {
        proof {
            lemma_bank_offset(idx);
        }
        let page: usize = ((idx & 0x7FFF) >> 12u16) as usize;
        let number: usize = self.mappings[page];
        assert(self.mappings()[page as int] < self.banks().len());
        assert(self.banks()[number as int].wf());
        &mut self.banks[number]
    }
}

} // verus!
