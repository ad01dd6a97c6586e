//! What holds of the APU whatever it is asked to do.

use vstd::prelude::*;
use crate::apu::buffer::{lemma_clocks_needed_bounds, lemma_end_frame_wf};
use crate::apu::sequencer::Jitter;
use crate::apu::state::ApuView;
use crate::cpu::{IrqInterrupt, MAX_CYCLE};

verus! {

/// Playing a stretch of the current frame keeps the APU's channels and
/// buffer in order.
pub proof fn lemma_play_wf(s: ApuView, from_cyc: int, to_cyc: int)
    requires
        s.channels_wf(),
        0 <= s.last_frame_cyc <= from_cyc <= to_cyc,
        to_cyc - s.last_frame_cyc <= s.buffer.deltas.len(),
        from_cyc - s.last_frame_cyc < s.buffer.deltas.len(),
    ensures
        s.spec_play(from_cyc, to_cyc).channels_wf(),
        s.buffer.same_but_deltas(s.spec_play(from_cyc, to_cyc).buffer),
{
    let from = (from_cyc - s.last_frame_cyc) as u32;
    let to = (to_cyc - s.last_frame_cyc) as u32;
    s.pulse1.lemma_play_wf(s.buffer, from, to);
    let (pulse1, buffer1) = s.pulse1.spec_play(s.buffer, from, to);
    s.pulse2.lemma_play_wf(buffer1, from, to);
}

/// A step of the frame sequencer keeps the channels in order and schedules
/// the step after it.
pub proof fn lemma_tick_wf(s: ApuView)
    requires
        s.channels_wf(),
        0 <= s.tick <= 3 + s.frame.spec_mode(),
    ensures
        s.spec_tick().channels_wf(),
        s.spec_tick().buffer == s.buffer,
        s.spec_tick().global_cyc == s.global_cyc,
        s.spec_tick().frame == s.frame,
        s.spec_tick().jitter == s.jitter,
        s.spec_tick().last_frame_cyc == s.last_frame_cyc,
        s.spec_tick().next_transfer_cyc == s.next_transfer_cyc,
        s.global_cyc < s.spec_tick().next_tick_cyc <= s.global_cyc + 7459,
        0 <= s.spec_tick().tick <= 3 + s.frame.spec_mode(),
        s.spec_tick().irq_requested == (s.irq_requested || s.tick_raises_irq()),
{
    s.pulse1.lemma_ticks_wf();
    s.pulse2.lemma_ticks_wf();
    s.pulse1.spec_envelope_tick().lemma_ticks_wf();
    s.pulse2.spec_envelope_tick().lemma_ticks_wf();
}

/// One stride of an APU in order leaves it in order, further on and not
/// beyond the cycle asked for.
pub proof fn lemma_step_wf(s: ApuView, cpu_cycle: int)
    requires
        s.wf(),
        s.global_cyc < cpu_cycle <= MAX_CYCLE,
    ensures
        s.spec_step(cpu_cycle).wf(),
        s.global_cyc < s.spec_step(cpu_cycle).global_cyc <= cpu_cycle,
        s.spec_step(cpu_cycle).irq_requested ==> s.irq_requested || s.step_irq(cpu_cycle)
            == IrqInterrupt::IRQ,
{
    let next = s.next_step(cpu_cycle);
    lemma_play_wf(s, s.global_cyc, next);
    let advanced = s.spec_advance(next);
    assert(advanced.reaches(s, next));
    let settled = advanced.spec_settle();
    assert(settled.channels_wf());
    assert(settled.buffer == advanced.buffer);
    assert(settled.jitter == Jitter::Settled);
    if settled.tick_due() {
        lemma_tick_wf(settled);
    }
    let ticked = settled.spec_tick_if_due();
    if ticked.transfer_due() {
        lemma_end_frame_wf(ticked.buffer, ticked.global_cyc - ticked.last_frame_cyc);
        lemma_clocks_needed_bounds(ticked.spec_transfer().buffer);
    }
}

/// Running an APU in order leaves it in order and at the cycle asked for,
/// or where it was if it was further on.
pub proof fn lemma_run_to_reaches(s: ApuView, cpu_cycle: int)
    requires
        s.wf(),
        cpu_cycle <= MAX_CYCLE,
    ensures
        s.spec_run_to(cpu_cycle).wf(),
        s.spec_run_to(cpu_cycle).global_cyc == if s.global_cyc >= cpu_cycle {
            s.global_cyc
        } else {
            cpu_cycle
        },
    decreases cpu_cycle - s.global_cyc,
{
    if s.global_cyc < cpu_cycle {
        lemma_step_wf(s, cpu_cycle);
        lemma_run_to_reaches(s.spec_step(cpu_cycle), cpu_cycle);
    }
}

/// Running to a cycle that the APU has reached before does nothing: after
/// `run_to(a)`, a `run_to(b)` with `b <= a` changes nothing and raises no
/// interrupt.
pub proof fn lemma_run_to_idempotent(s: ApuView, a: int, b: int)
    requires
        s.wf(),
        b <= a <= MAX_CYCLE,
    ensures
        s.spec_run_to(a).spec_run_to(b) == s.spec_run_to(a),
        s.spec_run_to(a).run_irq(b) == IrqInterrupt::NoIrq,
{
    lemma_run_to_reaches(s, a);
}

/// The interrupt flag comes up only where the run returns `IRQ`.
pub proof fn lemma_quiet_run_keeps_flag_down(s: ApuView, cpu_cycle: int)
    requires
        s.wf(),
        cpu_cycle <= MAX_CYCLE,
        !s.irq_requested,
        s.run_irq(cpu_cycle) == IrqInterrupt::NoIrq,
    ensures
        !s.spec_run_to(cpu_cycle).irq_requested,
    decreases cpu_cycle - s.global_cyc,
{
    if s.global_cyc < cpu_cycle {
        lemma_step_wf(s, cpu_cycle);
        lemma_quiet_run_keeps_flag_down(s.spec_step(cpu_cycle), cpu_cycle);
    }
}

/// Bit 6 of the status byte is the interrupt flag.
pub proof fn lemma_status_bit6(s: ApuView)
    ensures
        s.status() & 0x40 == (if s.irq_requested {
            0x40u8
        } else {
            0u8
        }),
{
    let a = s.pulse1.length.spec_active();
    let b = s.pulse2.length.spec_active();
    let c = s.triangle.length.spec_active();
    let d = s.noise.length.spec_active();
    assert((a | (b << 1u8) | (c << 2u8) | (d << 3u8) | 0x40u8) & 0x40 == 0x40 && (a | (b << 1u8)
        | (c << 2u8) | (d << 3u8) | 0u8) & 0x40 == 0) by (bit_vector)
        requires
            a <= 1,
            b <= 1,
            c <= 1,
            d <= 1,
    ;
}

/// The last step of a four-step round raises the interrupt flag unless the
/// frame register suppresses it, and the flag then shows in the status byte.
pub proof fn lemma_frame_irq(s: ApuView)
    requires
        s.frame.spec_mode() == 0,
        !s.frame.spec_suppresses_irq(),
        s.tick == 3,
    ensures
        s.tick_raises_irq(),
        s.spec_tick().irq_requested,
        s.spec_tick().status() & 0x40 == 0x40,
{
    lemma_status_bit6(s.spec_tick());
}

/// A read of the status register that finds the interrupt flag up returns
/// bit 6 set and takes the flag down: a second read at the same cycle
/// returns bit 6 clear, unless the frame sequencer raised a new interrupt
/// at the very cycle of the read.
pub proof fn lemma_status_read_acknowledges(s: ApuView, cycle: int)
    requires
        s.wf(),
        0 <= cycle <= MAX_CYCLE,
        s.spec_run_to(ApuView::cycle_before(cycle)).irq_requested,
        s.spec_run_to(ApuView::cycle_before(cycle)).spec_acknowledge().run_irq(cycle)
            == IrqInterrupt::NoIrq,
    ensures
        s.spec_run_to(ApuView::cycle_before(cycle)).status() & 0x40 == 0x40,
        s.spec_read_status(cycle).spec_run_to(ApuView::cycle_before(cycle)).status() & 0x40 == 0,
        s.spec_read_status(cycle).spec_read_status(cycle).status() & 0x40 == 0,
{
    let before = ApuView::cycle_before(cycle);
    lemma_run_to_reaches(s, before);
    let first = s.spec_run_to(before);
    lemma_status_bit6(first);
    let cleared = first.spec_acknowledge();
    lemma_run_to_reaches(cleared, cycle);
    lemma_quiet_run_keeps_flag_down(cleared, cycle);
    let after = s.spec_read_status(cycle);
    assert(after == cleared.spec_run_to(cycle));
    assert(after.spec_run_to(before) == after);
    lemma_status_bit6(after);
    assert(after.spec_acknowledge().spec_run_to(cycle) == after.spec_acknowledge());
    lemma_status_bit6(after.spec_read_status(cycle));
}

} // verus!
