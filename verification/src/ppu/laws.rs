//! What holds of the PPU whatever it is asked to do.

use vstd::prelude::*;
use crate::cart::{spec_mapping_table, Cart, ScreenMode};
use crate::ppu::ppu_memory::{spec_translate, PPUMemory};
use crate::ppu::registers::{lemma_address_bytes, AddrByte, PPUReg, VBLANK};
use crate::ppu::state::PpuView;
use crate::ppu::{Color, StepResult};

verus! {

/// The registers after the reads of `reads`, one after the other.
pub open spec fn after_reads(reg: PPUReg, reads: Seq<u16>) -> PPUReg
    decreases reads.len(),
{
    if reads.len() == 0 {
        reg
    } else {
        after_reads(reg, reads.drop_last()).spec_after_read(reads.last())
    }
}

/// True if register `idx % 8` is write-only: control, mask, sprite address,
/// scroll, address.
pub open spec fn write_only(idx: u16) -> bool {
    idx % 8 == 0 || idx % 8 == 1 || idx % 8 == 3 || idx % 8 == 5 || idx % 8 == 6
}

/// Reads leave the latch of the last written byte alone.
pub proof fn lemma_reads_keep_latch(reg: PPUReg, reads: Seq<u16>)
    ensures
        after_reads(reg, reads).dyn_latch == reg.dyn_latch,
    decreases reads.len(),
{
    if reads.len() > 0 {
        lemma_reads_keep_latch(reg, reads.drop_last());
    }
}

/// After a write of `val` to any register, and any reads since, a read of
/// a write-only register returns `val`, and a read of the status register
/// returns the low five bits of `val` in its low five bits.
pub proof fn lemma_write_then_read<C: Cart>(
    before: PpuView<C>,
    written: PpuView<C>,
    write_idx: u16,
    val: u8,
    reads: Seq<u16>,
    read_idx: u16,
)
    requires
        before.spec_written(write_idx, val, written),
    ensures
        write_only(read_idx) ==> (PpuView {
            reg: after_reads(written.reg, reads),
            ..written
        }).spec_read_value(read_idx) == val,
        read_idx % 8 == 2 ==> (PpuView {
            reg: after_reads(written.reg, reads),
            ..written
        }).spec_read_value(read_idx) & 0x1F == val & 0x1F,
{
    lemma_reads_keep_latch(written.reg, reads);
    let stat = after_reads(written.reg, reads).ppustat.bits;
    assert(((stat & 0xE0) | (val & 0x1F)) & 0x1F == val & 0x1F) by (bit_vector);
}

/// A read of the status register takes the vertical blank flag down and
/// points the address latch to the high byte.
pub proof fn lemma_status_read_resets(reg: PPUReg, idx: u16)
    requires
        idx % 8 == 2,
    ensures
        !reg.spec_after_read(idx).ppustat.spec_contains(VBLANK),
        reg.spec_after_read(idx).address_latch == AddrByte::High,
        reg.spec_after_read(idx).spec_status_byte() & 0x80 == 0,
{
    let stat = reg.ppustat.bits;
    let latch = reg.dyn_latch;
    assert((stat & !0x80u8) & 0x80u8 != 0x80u8 && (((stat & !0x80u8) & 0xE0) | (latch & 0x1F))
        & 0x80 == 0) by (bit_vector);
}

/// True if register `idx % 8` is the scroll or the address register.
pub open spec fn two_byte(idx: u16) -> bool {
    idx % 8 == 5 || idx % 8 == 6
}

/// The two-byte register `idx % 8`.
pub open spec fn two_byte_value(reg: PPUReg, idx: u16) -> u16 {
    if idx % 8 == 5 {
        reg.ppuscroll
    } else {
        reg.ppuaddr
    }
}

/// The scroll and the address register share one latch. With the latch on
/// the high byte, a write to either fills its high byte, and the write
/// after it, to the same or to the other, fills the low byte of the
/// register it goes to; the latch is then on the high byte again.
pub proof fn lemma_two_writes_alternate(reg: PPUReg, first: u16, a: u8, second: u16, b: u8)
    requires
        reg.address_latch == AddrByte::High,
        two_byte(first),
        two_byte(second),
    ensures
        reg.spec_after_write(first, a).address_latch == AddrByte::Low,
        two_byte_value(reg.spec_after_write(first, a), first) >> 8u16 == a,
        two_byte_value(reg.spec_after_write(first, a), first) & 0x00FF == two_byte_value(
            reg,
            first,
        ) & 0x00FF,
        reg.spec_after_write(first, a).spec_after_write(second, b).address_latch
            == AddrByte::High,
        two_byte_value(reg.spec_after_write(first, a).spec_after_write(second, b), second)
            & 0x00FF == b,
        first % 8 == second % 8 ==> two_byte_value(
            reg.spec_after_write(first, a).spec_after_write(second, b),
            second,
        ) >> 8u16 == a,
{
    let once = reg.spec_after_write(first, a);
    lemma_address_bytes(two_byte_value(reg, first), a);
    lemma_address_bytes(two_byte_value(once, second), b);
}

/// An access to the data register moves the address register on by 1, or
/// by 32 if bit 2 of the control register is set, around the end of its
/// sixteen bits.
pub proof fn lemma_data_access_steps(reg: PPUReg, idx: u16, val: u8)
    requires
        idx % 8 == 7,
    ensures
        reg.spec_after_read(idx).ppuaddr as int == (reg.ppuaddr + (if reg.ppuctrl.bits & 0x04
            != 0 {
            32int
        } else {
            1int
        })) % 0x1_0000,
        reg.spec_after_write(idx, val).ppuaddr == reg.spec_after_read(idx).ppuaddr,
{
}

/// True if `mirror` and `target` are two addresses of one palette entry.
pub open spec fn palette_pair(mirror: u16, target: u16) -> bool {
    ||| (mirror == 0x3F10 && target == 0x3F00)
    ||| (mirror == 0x3F14 && target == 0x3F04)
    ||| (mirror == 0x3F18 && target == 0x3F08)
    ||| (mirror == 0x3F1C && target == 0x3F0C)
}

/// A byte written to one address of a palette pair is read from the other,
/// in its low six bits.
pub proof fn lemma_palette_mirrors<C: Cart>(
    mem: PPUMemory<C>,
    after_mirror: PPUMemory<C>,
    after_target: PPUMemory<C>,
    mirror: u16,
    target: u16,
    val: u8,
)
    requires
        palette_pair(mirror, target),
        mem.spec_written(mirror, val, &after_mirror),
        mem.spec_written(target, val, &after_target),
    ensures
        after_mirror.spec_read(target) == val & 0x3F,
        after_mirror.spec_read(mirror) == val & 0x3F,
        after_target.spec_read(mirror) == val & 0x3F,
        after_target.spec_read(target) == val & 0x3F,
{
    assert(0x3F10u16 & 0x001F == 0x10 && 0x3F14u16 & 0x001F == 0x14 && 0x3F18u16 & 0x001F == 0x18
        && 0x3F1Cu16 & 0x001F == 0x1C && 0x3F00u16 & 0x001F == 0x00 && 0x3F04u16 & 0x001F == 0x04
        && 0x3F08u16 & 0x001F == 0x08 && 0x3F0Cu16 & 0x001F == 0x0C) by (bit_vector);
    Color::lemma_from_bits(val);
    assert(mem.palette@.len() == 0x20);
}

/// The address of byte `offset` of the logical nametable `table`.
pub open spec fn nametable_byte(table: u16, offset: u16) -> u16 {
    (0x2000 + 0x0400 * table + offset) as u16
}

/// The place of a nametable byte in video memory: the base of its
/// nametable plus its offset, within the video memory.
pub proof fn lemma_translate_nametable(bases: Seq<u16>, table: u16, offset: u16)
    requires
        table < 4,
        offset < 0x0400,
    ensures
        spec_translate(bases, nametable_byte(table, offset)) == (bases[table as int] + offset)
            % 0x1000,
        0x2000 <= nametable_byte(table, offset) < 0x3000,
{
    let addr = nametable_byte(table, offset);
    assert(addr & 0x0FFF == (addr - 0x2000) as u16) by (bit_vector)
        requires
            0x2000 <= addr < 0x3000,
    ;
}

/// Two nametables with one base are one: a byte written to either is read
/// at the same offset of the other.
pub proof fn lemma_shared_base_mirrors<C: Cart>(
    mem: PPUMemory<C>,
    after: PPUMemory<C>,
    t1: u16,
    t2: u16,
    offset: u16,
    val: u8,
)
    requires
        mem.cart.mirroring().len() == 4,
        t1 < 4,
        t2 < 4,
        mem.cart.mirroring()[t1 as int] == mem.cart.mirroring()[t2 as int],
        offset < 0x0400,
        mem.spec_written(nametable_byte(t1, offset), val, &after),
    ensures
        after.spec_read(nametable_byte(t2, offset)) == val,
{
    lemma_translate_nametable(mem.cart.mirroring(), t1, offset);
    lemma_translate_nametable(mem.cart.mirroring(), t2, offset);
}

/// Two nametables that lie a kilobyte or more apart in video memory are
/// two: a byte written to one leaves the other as it was.
pub proof fn lemma_separate_bases_do_not_mirror<C: Cart>(
    mem: PPUMemory<C>,
    after: PPUMemory<C>,
    t1: u16,
    t2: u16,
    offset: u16,
    val: u8,
)
    requires
        mem.cart.mirroring().len() == 4,
        t1 < 4,
        t2 < 4,
        (mem.cart.mirroring()[t1 as int] + offset) % 0x1000 != (mem.cart.mirroring()[t2 as int]
            + offset) % 0x1000,
        offset < 0x0400,
        mem.spec_written(nametable_byte(t1, offset), val, &after),
    ensures
        after.spec_read(nametable_byte(t2, offset)) == mem.spec_read(nametable_byte(t2, offset)),
{
    lemma_translate_nametable(mem.cart.mirroring(), t1, offset);
    lemma_translate_nametable(mem.cart.mirroring(), t2, offset);
    assert(mem.vram@.len() == 0x1000);
}

/// What the screen modes are: the two single screens put every nametable
/// on one kilobyte, four screens give each its own, horizontal mirroring
/// pairs the nametables side by side and vertical mirroring those one
/// above the other.
pub proof fn lemma_screen_modes()
    ensures
        one_screen(spec_mapping_table(ScreenMode::OneScreenLow)),
        one_screen(spec_mapping_table(ScreenMode::OneScreenHigh)),
        four_screens(spec_mapping_table(ScreenMode::FourScreen)),
        spec_mapping_table(ScreenMode::Horizontal)[0] == spec_mapping_table(
            ScreenMode::Horizontal,
        )[1],
        spec_mapping_table(ScreenMode::Horizontal)[2] == spec_mapping_table(
            ScreenMode::Horizontal,
        )[3],
        spec_mapping_table(ScreenMode::Horizontal)[0] != spec_mapping_table(
            ScreenMode::Horizontal,
        )[2],
        spec_mapping_table(ScreenMode::Vertical)[0] == spec_mapping_table(ScreenMode::Vertical)[2],
        spec_mapping_table(ScreenMode::Vertical)[1] == spec_mapping_table(ScreenMode::Vertical)[3],
        spec_mapping_table(ScreenMode::Vertical)[0] != spec_mapping_table(ScreenMode::Vertical)[1],
{
}

/// True if `bases` puts all four nametables on one kilobyte.
pub open spec fn one_screen(bases: Seq<u16>) -> bool {
    &&& bases.len() == 4
    &&& bases[1] == bases[0]
    &&& bases[2] == bases[0]
    &&& bases[3] == bases[0]
}

/// Where all four nametables have one base, as with a single screen, a
/// byte written to one nametable is read at the same offset of every
/// nametable.
pub proof fn lemma_one_screen_mirrors<C: Cart>(
    mem: PPUMemory<C>,
    after: PPUMemory<C>,
    t1: u16,
    t2: u16,
    offset: u16,
    val: u8,
)
    requires
        one_screen(mem.cart.mirroring()),
        t1 < 4,
        t2 < 4,
        offset < 0x0400,
        mem.spec_written(nametable_byte(t1, offset), val, &after),
    ensures
        after.spec_read(nametable_byte(t2, offset)) == val,
{
    lemma_translate_nametable(mem.cart.mirroring(), t1, offset);
    lemma_translate_nametable(mem.cart.mirroring(), t2, offset);
}

/// True if `bases` gives each nametable a kilobyte of its own.
pub open spec fn four_screens(bases: Seq<u16>) -> bool {
    bases =~= seq![0x000u16, 0x400u16, 0x800u16, 0xC00u16]
}

/// With four screens, a byte written to one nametable is read at the same
/// offset of that nametable and of no other: the others keep what they
/// held.
pub proof fn lemma_four_screens_apart<C: Cart>(
    mem: PPUMemory<C>,
    after: PPUMemory<C>,
    t1: u16,
    t2: u16,
    offset: u16,
    val: u8,
)
    requires
        four_screens(mem.cart.mirroring()),
        t1 < 4,
        t2 < 4,
        offset < 0x0400,
        mem.spec_written(nametable_byte(t1, offset), val, &after),
    ensures
        t1 == t2 ==> after.spec_read(nametable_byte(t2, offset)) == val,
        t1 != t2 ==> after.spec_read(nametable_byte(t2, offset)) == mem.spec_read(
            nametable_byte(t2, offset),
        ),
        t1 != t2 ==> spec_translate(mem.cart.mirroring(), nametable_byte(t1, offset))
            != spec_translate(mem.cart.mirroring(), nametable_byte(t2, offset)),
{
    lemma_translate_nametable(mem.cart.mirroring(), t1, offset);
    lemma_translate_nametable(mem.cart.mirroring(), t2, offset);
    assert(mem.vram@.len() == 0x1000);
}

/// Running by dots ends at the target, or where the PPU was if it was
/// further on.
pub proof fn lemma_run_dots_reaches<C: Cart>(s: PpuView<C>, target: int)
    ensures
        s.spec_run_dots(target).global_cyc == if s.global_cyc >= target {
            s.global_cyc
        } else {
            target
        },
    decreases target - s.global_cyc,
{
    if s.global_cyc < target {
        lemma_run_dots_reaches(s.spec_dot(), target);
    }
}

/// Running to a cycle that the PPU has reached before does nothing: after
/// `run_to(a)`, a `run_to(b)` with `b <= a` changes nothing and reports no
/// NMI.
pub proof fn lemma_run_to_idempotent<C: Cart>(s: PpuView<C>, a: int, b: int)
    requires
        b <= a,
    ensures
        s.spec_run_to(a).spec_run_to(b) == s.spec_run_to(a),
        s.spec_run_to(a).run_result(b) == StepResult::Continue,
{
    lemma_run_dots_reaches(s, 3 * a);
}

} // verus!
