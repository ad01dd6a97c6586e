//! The registers of the PPU and the sprite memory.

use vstd::prelude::*;

verus! {

proof fn lemma_nametable_select(bits: u8)
    by (bit_vector)
    ensures
        bits & 0x03 <= 3,
{
}

pub proof fn lemma_address_bytes(target: u16, val: u8)
    by (bit_vector)
    ensures
        ((target & 0x00FF) | ((val as u16) << 8u16)) >> 8u16 == val as u16,
        ((target & 0x00FF) | ((val as u16) << 8u16)) & 0x00FF == target & 0x00FF,
        ((target & 0xFF00) | (val as u16)) & 0x00FF == val as u16,
        ((target & 0xFF00) | (val as u16)) >> 8u16 == target >> 8u16,
        target >> 8u16 <= 0xFF,
        target & 0x00FF <= 0xFF,
{
}

/// Which half of a two-byte register the next write fills.
#[derive(Clone, Copy, Debug, PartialEq, Eq, Structural)]
pub enum AddrByte {
    High,
    Low,
}

/// The size of the sprites.
#[derive(Clone, Copy, Debug, PartialEq, Eq, Structural)]
pub enum SpriteSize {
    Normal,
    Tall,
}

/// Whether the PPU drives its colour pins or reads them.
#[derive(Clone, Copy, Debug, PartialEq, Eq, Structural)]
pub enum MasterSlave {
    Master,
    Slave,
}

/// The control register.
#[derive(Clone, Copy, Debug, PartialEq, Eq, Structural)]
pub struct PPUCtrl {
    pub bits: u8,
}

impl PPUCtrl {
    pub open spec fn spec_nametable_addr(&self) -> u16 {
        (0x2000 + (self.bits & 0x03) * 0x0400) as u16
    }

    pub open spec fn spec_vram_addr_step(&self) -> u16 {
        if self.bits & 0x04 != 0 {
            32
        } else {
            1
        }
    }

    pub open spec fn spec_background_table(&self) -> u16 {
        if self.bits & 0x10 != 0 {
            0x1000
        } else {
            0x0000
        }
    }

    pub open spec fn spec_generate_vblank_nmi(&self) -> bool {
        self.bits & 0x80 != 0
    }

    pub fn empty() -> (c: PPUCtrl)
        ensures
            c == (PPUCtrl { bits: 0 }),
    {
        PPUCtrl { bits: 0 }
    }

    pub fn new(bits: u8) -> (c: PPUCtrl)
        ensures
            c == (PPUCtrl { bits }),
    {
        PPUCtrl { bits }
    }

    /// The address of the nametable that bits 0 and 1 select.
    #[verifier::when_used_as_spec(spec_nametable_addr)]
    pub fn nametable_addr(&self) -> (addr: u16)
        ensures
            addr == self.spec_nametable_addr(),
            addr == 0x2000 || addr == 0x2400 || addr == 0x2800 || addr == 0x2C00,
    {
        proof {
            lemma_nametable_select(self.bits);
        }
        0x2000 + (self.bits & 0x03) as u16 * 0x0400
    }

    /// By how much an access to the data register moves the address: 32 if
    /// bit 2 is set, else 1.
    #[verifier::when_used_as_spec(spec_vram_addr_step)]
    pub fn vram_addr_step(&self) -> (step: u16)
        ensures
            step == self.spec_vram_addr_step(),
    {
        if self.bits & 0x04 != 0 {
            32
        } else {
            1
        }
    }

    /// The pattern table of the sprites.
    pub fn sprite_table(&self) -> (table: u16)
        ensures
            table == if self.bits & 0x08 != 0 {
                0x1000u16
            } else {
                0x0000u16
            },
    {
        if self.bits & 0x08 != 0 {
            0x1000
        } else {
            0x0000
        }
    }

    /// The pattern table of the background.
    #[verifier::when_used_as_spec(spec_background_table)]
    pub fn background_table(&self) -> (table: u16)
        ensures
            table == self.spec_background_table(),
            table == 0x0000 || table == 0x1000,
    {
        if self.bits & 0x10 != 0 {
            0x1000
        } else {
            0x0000
        }
    }

    pub fn sprite_size(&self) -> (size: SpriteSize)
        ensures
            size == if self.bits & 0x20 != 0 {
                SpriteSize::Tall
            } else {
                SpriteSize::Normal
            },
    {
        if self.bits & 0x20 != 0 {
            SpriteSize::Tall
        } else {
            SpriteSize::Normal
        }
    }

    pub fn master_slave(&self) -> (select: MasterSlave)
        ensures
            select == if self.bits & 0x40 != 0 {
                MasterSlave::Master
            } else {
                MasterSlave::Slave
            },
    {
        if self.bits & 0x40 != 0 {
            MasterSlave::Master
        } else {
            MasterSlave::Slave
        }
    }

    /// True if the start of the vertical blank raises an NMI.
    #[verifier::when_used_as_spec(spec_generate_vblank_nmi)]
    pub fn generate_vblank_nmi(&self) -> (nmi: bool)
        ensures
            nmi == self.spec_generate_vblank_nmi(),
    {
        self.bits & 0x80 != 0
    }
}

/// Greyscale.
pub const GREY: u8 = 0x01;

/// Show the background in the leftmost eight pixels.
pub const S_BCK_L: u8 = 0x02;

/// Show sprites in the leftmost eight pixels.
pub const S_SPR_L: u8 = 0x04;

/// Show the background.
pub const S_BCK: u8 = 0x08;

/// Show sprites.
pub const S_SPR: u8 = 0x10;

/// Emphasize red.
pub const EM_R: u8 = 0x20;

/// Emphasize green.
pub const EM_G: u8 = 0x40;

/// Emphasize blue.
pub const EM_B: u8 = 0x80;

/// The mask register.
#[derive(Clone, Copy, Debug, PartialEq, Eq, Structural)]
pub struct PPUMask {
    pub bits: u8,
}

impl PPUMask {
    pub open spec fn spec_contains(&self, flags: u8) -> bool {
        self.bits & flags == flags
    }

    pub fn empty() -> (m: PPUMask)
        ensures
            m == (PPUMask { bits: 0 }),
    {
        PPUMask { bits: 0 }
    }

    /// Every bit of the register has a meaning, so none is dropped.
    pub fn from_bits_truncate(val: u8) -> (m: PPUMask)
        ensures
            m == (PPUMask { bits: val }),
    {
        PPUMask { bits: val }
    }

    pub fn bits(&self) -> (b: u8)
        ensures
            b == self.bits,
    {
        self.bits
    }

    /// True if every bit of `flags` is set.
    #[verifier::when_used_as_spec(spec_contains)]
    pub fn contains(&self, flags: u8) -> (r: bool)
        ensures
            r == self.spec_contains(flags),
    {
        self.bits & flags == flags
    }
}

/// In the vertical blank.
pub const VBLANK: u8 = 0x80;

/// Sprite 0 was hit.
pub const SPRITE_0: u8 = 0x40;

/// More than eight sprites on a scanline.
pub const SPRITE_OVERFLOW: u8 = 0x20;

/// The status register. Only its upper three bits exist.
#[derive(Clone, Copy, Debug, PartialEq, Eq, Structural)]
pub struct PPUStat {
    pub bits: u8,
}

impl PPUStat {
    pub open spec fn spec_from_bits_truncate(val: u8) -> PPUStat {
        PPUStat { bits: val & 0xE0 }
    }

    pub open spec fn spec_contains(&self, flags: u8) -> bool {
        self.bits & flags == flags
    }

    pub open spec fn spec_insert(self, flags: u8) -> PPUStat {
        PPUStat { bits: self.bits | (flags & 0xE0) }
    }

    pub open spec fn spec_remove(self, flags: u8) -> PPUStat {
        PPUStat { bits: self.bits & !flags }
    }

    pub fn empty() -> (s: PPUStat)
        ensures
            s == (PPUStat { bits: 0 }),
    {
        PPUStat { bits: 0 }
    }

    /// The register with the bits of `val` that it has.
    #[verifier::when_used_as_spec(spec_from_bits_truncate)]
    pub fn from_bits_truncate(val: u8) -> (s: PPUStat)
        ensures
            s == PPUStat::spec_from_bits_truncate(val),
    {
        PPUStat { bits: val & 0xE0 }
    }

    pub fn bits(&self) -> (b: u8)
        ensures
            b == self.bits,
    {
        self.bits
    }

    /// True if every bit of `flags` is set.
    #[verifier::when_used_as_spec(spec_contains)]
    pub fn contains(&self, flags: u8) -> (r: bool)
        ensures
            r == self.spec_contains(flags),
    {
        self.bits & flags == flags
    }

    pub fn insert(&mut self, flags: u8)
        ensures
            *final(self) == old(self).spec_insert(flags),
    {
        self.bits = self.bits | (flags & 0xE0);
    }

    pub fn remove(&mut self, flags: u8)
        ensures
            *final(self) == old(self).spec_remove(flags),
    {
        self.bits = self.bits & !flags;
    }
}

/// Fills one half of the two-byte register `target` with `val`: the high
/// byte if `latch` is `High`, else the low byte. The latch then points to
/// the other half.
pub fn write_addr_byte(latch: &mut AddrByte, target: &mut u16, val: u8)
    ensures
        *final(target) == spec_addr_byte(*old(latch), *old(target), val),
        *final(latch) == spec_toggle(*old(latch)),
{
    match *latch {
        AddrByte::High => {
            *target = (*target & 0x00FF) | ((val as u16) << 8u16);
            *latch = AddrByte::Low;
        },
        AddrByte::Low => {
            *target = (*target & 0xFF00) | (val as u16);
            *latch = AddrByte::High;
        },
    }
}

/// A two-byte register after `val` went into the half that `latch` names.
pub open spec fn spec_addr_byte(latch: AddrByte, target: u16, val: u8) -> u16 {
    match latch {
        AddrByte::High => (target & 0x00FF) | ((val as u16) << 8u16),
        AddrByte::Low => (target & 0xFF00) | (val as u16),
    }
}

/// The other half.
pub open spec fn spec_toggle(latch: AddrByte) -> AddrByte {
    match latch {
        AddrByte::High => AddrByte::Low,
        AddrByte::Low => AddrByte::High,
    }
}

/// The register file of the PPU.
#[derive(Clone, Copy, Debug, PartialEq, Eq, Structural)]
pub struct PPUReg {
    pub ppuctrl: PPUCtrl,
    pub ppumask: PPUMask,
    pub ppustat: PPUStat,
    pub oamaddr: u8,
    pub ppuscroll: u16,
    pub ppuaddr: u16,
    /// The last byte written to any register of the PPU. Reads of the
    /// write-only registers return it.
    pub dyn_latch: u8,
    /// The latch that the scroll and the address register share.
    pub address_latch: AddrByte,
}

impl PPUReg {
    pub open spec fn initial() -> PPUReg {
        PPUReg {
            ppuctrl: PPUCtrl { bits: 0 },
            ppumask: PPUMask { bits: 0 },
            ppustat: PPUStat { bits: 0 },
            oamaddr: 0,
            ppuscroll: 0,
            ppuaddr: 0,
            dyn_latch: 0,
            address_latch: AddrByte::High,
        }
    }

    pub open spec fn spec_scroll_x(&self) -> u8 {
        (self.ppuscroll >> 8u16) as u8
    }

    pub open spec fn spec_scroll_y(&self) -> u8 {
        (self.ppuscroll & 0x00FF) as u8
    }

    /// The address that an access to the data register uses on the bus of
    /// the PPU, which has fourteen lines.
    pub open spec fn spec_bus_addr(&self) -> u16 {
        self.ppuaddr & 0x3FFF
    }

    /// The address register after an access to the data register.
    pub open spec fn spec_incr_ppuaddr(self) -> PPUReg {
        PPUReg {
            ppuaddr: ((self.ppuaddr + self.ppuctrl.spec_vram_addr_step()) % 0x1_0000) as u16,
            ..self
        }
    }

    /// The registers after a write of `val` to register `idx % 8`.
    pub open spec fn spec_after_write(self, idx: u16, val: u8) -> PPUReg {
        let latched = PPUReg { dyn_latch: val, ..self };
        if idx % 8 == 0 {
            PPUReg { ppuctrl: PPUCtrl { bits: val }, ..latched }
        } else if idx % 8 == 1 {
            PPUReg { ppumask: PPUMask { bits: val }, ..latched }
        } else if idx % 8 == 2 {
            latched
        } else if idx % 8 == 3 {
            PPUReg { oamaddr: val, ..latched }
        } else if idx % 8 == 4 {
            PPUReg { oamaddr: ((self.oamaddr + 1) % 256) as u8, ..latched }
        } else if idx % 8 == 5 {
            PPUReg {
                ppuscroll: spec_addr_byte(self.address_latch, self.ppuscroll, val),
                address_latch: spec_toggle(self.address_latch),
                ..latched
            }
        } else if idx % 8 == 6 {
            PPUReg {
                ppuaddr: spec_addr_byte(self.address_latch, self.ppuaddr, val),
                address_latch: spec_toggle(self.address_latch),
                ..latched
            }
        } else {
            latched.spec_incr_ppuaddr()
        }
    }

    /// The registers after a read of register `idx % 8`.
    pub open spec fn spec_after_read(self, idx: u16) -> PPUReg {
        if idx % 8 == 2 {
            PPUReg {
                address_latch: AddrByte::High,
                ppustat: self.ppustat.spec_remove(VBLANK),
                ..self
            }
        } else if idx % 8 == 4 {
            PPUReg { oamaddr: ((self.oamaddr + 1) % 256) as u8, ..self }
        } else if idx % 8 == 7 {
            self.spec_incr_ppuaddr()
        } else {
            self
        }
    }

    /// The byte that a read of the status register returns: the upper three
    /// bits of the register and the lower five of the latch.
    pub open spec fn spec_status_byte(&self) -> u8 {
        (self.ppustat.bits & 0xE0) | (self.dyn_latch & 0x1F)
    }

    /// The horizontal scroll: the high byte of the scroll register.
    #[verifier::when_used_as_spec(spec_scroll_x)]
    pub fn scroll_x(&self) -> (x: u8)
        ensures
            x == self.spec_scroll_x(),
    {
        proof {
            lemma_address_bytes(self.ppuscroll, 0);
        }
        (self.ppuscroll >> 8u16) as u8
    }

    /// The vertical scroll: the low byte of the scroll register.
    #[verifier::when_used_as_spec(spec_scroll_y)]
    pub fn scroll_y(&self) -> (y: u8)
        ensures
            y == self.spec_scroll_y(),
    {
        proof {
            lemma_address_bytes(self.ppuscroll, 0);
        }
        (self.ppuscroll & 0x00FF) as u8
    }
}

/// Flip the sprite vertically.
pub const FLIP_VERT: u8 = 0x80;

/// Flip the sprite horizontally.
pub const FLIP_HORZ: u8 = 0x40;

/// Draw the sprite behind the background.
pub const BEHIND: u8 = 0x20;

/// The high bit of the sprite's palette.
pub const PALETTE1: u8 = 0x02;

/// The low bit of the sprite's palette.
pub const PALETTE2: u8 = 0x01;

/// The attribute byte of a sprite. Bits 2 to 4 do not exist.
#[derive(Clone, Copy, Debug, PartialEq, Eq, Structural)]
pub struct OAMAttr {
    pub bits: u8,
}

impl OAMAttr {
    pub open spec fn spec_from_bits_truncate(val: u8) -> OAMAttr {
        OAMAttr { bits: val & 0xE3 }
    }

    pub open spec fn spec_contains(&self, flags: u8) -> bool {
        self.bits & flags == flags
    }

    /// The attributes with the bits of `val` that exist.
    #[verifier::when_used_as_spec(spec_from_bits_truncate)]
    pub fn from_bits_truncate(val: u8) -> (a: OAMAttr)
        ensures
            a == OAMAttr::spec_from_bits_truncate(val),
    {
        OAMAttr { bits: val & 0xE3 }
    }

    pub fn bits(&self) -> (b: u8)
        ensures
            b == self.bits,
    {
        self.bits
    }

    /// True if every bit of `flags` is set.
    #[verifier::when_used_as_spec(spec_contains)]
    pub fn contains(&self, flags: u8) -> (r: bool)
        ensures
            r == self.spec_contains(flags),
    {
        self.bits & flags == flags
    }
}

/// One sprite in the object attribute memory.
#[derive(Clone, Copy, Debug, PartialEq, Eq, Structural)]
pub struct OAMEntry {
    pub y: u8,
    pub tile: u8,
    pub attr: OAMAttr,
    pub x: u8,
}

impl OAMEntry {
    pub open spec fn spec_new(y: u8, tile: u8, attr: u8, x: u8) -> OAMEntry {
        OAMEntry { y, tile, attr: OAMAttr::spec_from_bits_truncate(attr), x }
    }

    /// Byte `idx % 4` of the entry.
    pub open spec fn spec_read(&self, idx: u16) -> u8 {
        if idx % 4 == 0 {
            self.y
        } else if idx % 4 == 1 {
            self.tile
        } else if idx % 4 == 2 {
            self.attr.bits
        } else {
            self.x
        }
    }

    /// The entry after a write of `val` to its byte `idx % 4`.
    pub open spec fn spec_write(self, idx: u16, val: u8) -> OAMEntry {
        if idx % 4 == 0 {
            OAMEntry { y: val, ..self }
        } else if idx % 4 == 1 {
            OAMEntry { tile: val, ..self }
        } else if idx % 4 == 2 {
            OAMEntry { attr: OAMAttr::spec_from_bits_truncate(val), ..self }
        } else {
            OAMEntry { x: val, ..self }
        }
    }

    pub fn zero() -> (e: OAMEntry)
        ensures
            e == OAMEntry::spec_new(0, 0, 0, 0),
    {
        OAMEntry::new(0, 0, 0, 0)
    }

    #[verifier::when_used_as_spec(spec_new)]
    pub fn new(y: u8, tile: u8, attr: u8, x: u8) -> (e: OAMEntry)
        ensures
            e == OAMEntry::spec_new(y, tile, attr, x),
    {
        OAMEntry { y, tile, attr: OAMAttr::from_bits_truncate(attr), x }
    }

    /// Byte `idx % 4` of the entry: y, tile, attributes, x.
    #[verifier::when_used_as_spec(spec_read)]
    pub fn read(&self, idx: u16) -> (val: u8)
        ensures
            val == self.spec_read(idx),
    {
        match idx % 4 {
            0 => self.y,
            1 => self.tile,
            2 => self.attr.bits(),
            _ => self.x,
        }
    }

    /// Writes byte `idx % 4` of the entry.
    pub fn write(&mut self, idx: u16, val: u8)
        ensures
            *final(self) == old(self).spec_write(idx, val),
    {
        match idx % 4 {
            0 => self.y = val,
            1 => self.tile = val,
            2 => self.attr = OAMAttr::from_bits_truncate(val),
            _ => self.x = val,
        }
    }
}

} // verus!
