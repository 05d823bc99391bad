//! The timer: the divider and the programmable counter.

use vstd::prelude::*;
use vstd::arithmetic::div_mod::lemma_fundamental_div_mod_converse;
use crate::bits::lemma_mask_arith;
use crate::mmu::MMU;

verus! {

/// The clock of the CPU in cycles per second.
pub const CPU_FREQ: u32 = 4194304;

/// The number of cycles between two increments of the divider.
pub const DIVIDER_TICKSIZE: u16 = 16384;

/// The longest of the four periods of the programmable counter.
pub const LONGEST_TICKSIZE: u32 = 262144;

/// The request bit of the timer interrupt.
pub const REQUEST_TIMER: u8 = 0x04;

/// The timer: the cycles that have gone by since the last tick of the
/// divider, and since the last tick of the programmable counter.
pub struct Timer {
    pub divider_lapsed: u16,
    pub counter_lapsed: u32,
}

/// The number of cycles between two ticks of the programmable counter, for
/// each of the four settings of the clock select: the clock of the CPU
/// divided by 1024, 16, 64 and 256.
pub open spec fn ticksize(clock: u8) -> int {
    if clock % 4 == 0 {
        4096
    } else if clock % 4 == 1 {
        262144
    } else if clock % 4 == 2 {
        65536
    } else {
        16384
    }
}

/// The machine after `ticks` ticks of the programmable counter.
pub open spec fn counted(m: MMU, ticks: nat) -> MMU
    decreases ticks,
{
    if ticks == 0 {
        m
    } else {
        counted(m, (ticks - 1) as nat).after_counter_tick()
    }
}

/// The machine after `ticks` ticks of the divider.
pub open spec fn divided(m: MMU, ticks: int) -> MMU {
    m.with_divider(((m.timer.divider + ticks) % 256) as u8)
}

impl Timer {
    /// Whether the timer is one that `new` and `step` give: less than a tick
    /// of the divider has lapsed, and less than the longest tick of the
    /// counter.
    pub open spec fn wf(self) -> bool {
        self.divider_lapsed < DIVIDER_TICKSIZE && self.counter_lapsed < LONGEST_TICKSIZE
    }

    /// Timer and machine after a step of `cycles` cycles. The divider ticks
    /// for every 16384 cycles that have lapsed; the counter, while it is
    /// started, for every tick size of cycles that have lapsed.
    pub open spec fn stepped(self, m: MMU, cycles: u8) -> (Timer, MMU) {
        let divider_lapsed = self.divider_lapsed + cycles;
        let with_divider = divided(m, divider_lapsed / (DIVIDER_TICKSIZE as int));
        let counter_lapsed = self.counter_lapsed + cycles;
        let size = ticksize(m.timer.clock);
        if m.timer.started {
            (
                Timer {
                    divider_lapsed: (divider_lapsed % (DIVIDER_TICKSIZE as int)) as u16,
                    counter_lapsed: (counter_lapsed % size) as u32,
                },
                counted(with_divider, (counter_lapsed / size) as nat),
            )
        } else {
            (
                Timer {
                    divider_lapsed: (divider_lapsed % (DIVIDER_TICKSIZE as int)) as u16,
                    ..self
                },
                with_divider,
            )
        }
    }

    /// Whether the timer is well-formed.
    pub fn is_wf(&self) -> (fine: bool)
        ensures
            fine == self.wf(),
    {
        self.divider_lapsed < DIVIDER_TICKSIZE && self.counter_lapsed < LONGEST_TICKSIZE
    }

    pub fn new() -> (timer: Self)
        ensures
            timer == (Timer { divider_lapsed: 0, counter_lapsed: 0 }),
            timer.wf(),
    {
        Self { divider_lapsed: 0, counter_lapsed: 0 }
    }

    /// The number of cycles between two ticks of the programmable counter.
    fn ticksize_of(clock: u8) -> (size: u32)
        ensures
            size == ticksize(clock),
    {
        proof {
            lemma_mask_arith(clock);
        }
        match clock & 0x03 {
            0 => CPU_FREQ / 1024,
            1 => CPU_FREQ / 16,
            2 => CPU_FREQ / 64,
            _ => CPU_FREQ / 256,
        }
    }

    /// Advance the timer by the cycles that the CPU has just spent.
    pub fn step(&mut self, mmu: &mut MMU, cycles: u8)
        requires
            old(self).wf(),
        ensures
            (*final(self), *final(mmu)) == old(self).stepped(*old(mmu), cycles),
            final(self).wf(),
            final(mmu).ppu == old(mmu).ppu,
    {
        let ghost start = *mmu;
        // Divider.
        let mut divider_lapsed: u16 = self.divider_lapsed + cycles as u16;
        if divider_lapsed >= DIVIDER_TICKSIZE {
            mmu.tick_divider();
            divider_lapsed = divider_lapsed - DIVIDER_TICKSIZE;
        }
        proof {
            let lapsed = self.divider_lapsed + cycles;
            let ticks: int = if lapsed >= DIVIDER_TICKSIZE { 1 } else { 0 };
            lemma_fundamental_div_mod_converse(
                lapsed as int,
                DIVIDER_TICKSIZE as int,
                ticks,
                divider_lapsed as int,
            );
            assert(*mmu == divided(start, ticks));
        }
        let ghost with_divider = *mmu;
        // Counter.
        let mut counter_lapsed: u32 = self.counter_lapsed;
        if mmu.timer.started {
            let timer_ticksize = Self::ticksize_of(mmu.timer.clock);
            counter_lapsed = counter_lapsed + cycles as u32;
            let ghost lapsed = counter_lapsed as int;
            let ghost mut ticks: nat = 0;
            while counter_lapsed >= timer_ticksize
                invariant
                    timer_ticksize == ticksize(start.timer.clock),
                    timer_ticksize > 0,
                    lapsed == ticks * timer_ticksize + counter_lapsed,
                    *mmu == counted(with_divider, ticks),
                    mmu.ppu == start.ppu,
                decreases counter_lapsed,
            {
                mmu.tick_counter();
                counter_lapsed = counter_lapsed - timer_ticksize;
                proof {
                    assert((ticks + 1) * timer_ticksize == ticks * timer_ticksize + timer_ticksize)
                        by (nonlinear_arith);
                    ticks = ticks + 1;
                }
            }
            proof {
                lemma_fundamental_div_mod_converse(
                    lapsed,
                    timer_ticksize as int,
                    ticks as int,
                    counter_lapsed as int,
                );
            }
        }
        self.divider_lapsed = divider_lapsed;
        self.counter_lapsed = counter_lapsed;
    }
}

/// Ticks of the counter add up: some ticks and then some more are as many
/// ticks as both together.
pub proof fn lemma_counted_adds(m: MMU, first: nat, second: nat)
    ensures
        counted(counted(m, first), second) == counted(m, first + second),
    decreases second,
{
    if second > 0 {
        lemma_counted_adds(m, first, (second - 1) as nat);
        assert(first + second - 1 == first + (second - 1) as nat);
    }
}

/// Ticks of the counter leave the clock select, the start bit and the modulo
/// as they are.
pub proof fn lemma_counted_keeps_settings(m: MMU, ticks: nat)
    ensures
        counted(m, ticks).timer.clock == m.timer.clock,
        counted(m, ticks).timer.started == m.timer.started,
        counted(m, ticks).timer.modulo == m.timer.modulo,
        counted(m, ticks).timer.divider == m.timer.divider,
    decreases ticks,
{
    if ticks > 0 {
        lemma_counted_keeps_settings(m, (ticks - 1) as nat);
    }
}

/// The sum of the cycles of a sequence of steps.
pub open spec fn total(chunks: Seq<u8>) -> int
    decreases chunks.len(),
{
    if chunks.len() == 0 {
        0
    } else {
        chunks[0] + total(chunks.drop_first())
    }
}

/// Timer and machine after a sequence of steps of the timer, one for each
/// number of cycles in `chunks`.
pub open spec fn ran(timer: Timer, m: MMU, chunks: Seq<u8>) -> (Timer, MMU)
    decreases chunks.len(),
{
    if chunks.len() == 0 {
        (timer, m)
    } else {
        ran(timer.stepped(m, chunks[0]).0, timer.stepped(m, chunks[0]).1, chunks.drop_first())
    }
}

/// While the counter is started, steps of the timer tick the counter once
/// for every tick size of cycles that have lapsed, however the cycles are
/// spread over the steps.
pub proof fn law_steps_count_lapsed_cycles(timer: Timer, m: MMU, chunks: Seq<u8>)
    requires
        m.timer.started,
        timer.counter_lapsed < ticksize(m.timer.clock),
    ensures
        total(chunks) >= 0,
        ran(timer, m, chunks).0.counter_lapsed == (timer.counter_lapsed + total(chunks))
            % ticksize(m.timer.clock),
        ran(timer, m, chunks).1.timer.counter == counted(
            m,
            ((timer.counter_lapsed + total(chunks)) / ticksize(m.timer.clock)) as nat,
        ).timer.counter,
        ran(timer, m, chunks).1.interrupts.intf == counted(
            m,
            ((timer.counter_lapsed + total(chunks)) / ticksize(m.timer.clock)) as nat,
        ).interrupts.intf,
        ran(timer, m, chunks).1.timer.started,
        ran(timer, m, chunks).1.timer.clock == m.timer.clock,
        ran(timer, m, chunks).1.timer.modulo == m.timer.modulo,
    decreases chunks.len(),
{
    let size = ticksize(m.timer.clock);
    if chunks.len() > 0 {
        let first = chunks[0] as int;
        let rest = total(chunks.drop_first());
        let next = timer.stepped(m, chunks[0]);
        let lapsed = timer.counter_lapsed + first;
        let with_divider = divided(m, (timer.divider_lapsed + first) / (DIVIDER_TICKSIZE as int));
        lemma_counted_keeps_settings(with_divider, (lapsed / size) as nat);
        law_steps_count_lapsed_cycles(next.0, next.1, chunks.drop_first());
        let later = ((lapsed % size + rest) / size) as nat;
        lemma_counted_adds(with_divider, (lapsed / size) as nat, later);
        assert(lapsed / size + (lapsed % size + rest) / size == (lapsed + rest) / size && (lapsed
            % size + rest) % size == (lapsed + rest) % size && lapsed / size >= 0 && (lapsed % size
            + rest) / size >= 0) by (nonlinear_arith)
            requires
                size > 0,
                lapsed >= 0,
                rest >= 0,
        ;
        lemma_divider_beside_counter(m, (timer.divider_lapsed + first) / (DIVIDER_TICKSIZE as int), ((lapsed + rest) / size) as nat);
    }
}

/// The divider and the counter do not touch each other: ticks of the
/// counter give the same counter and the same requests, whatever the
/// divider holds.
pub proof fn lemma_divider_beside_counter(m: MMU, divider_ticks: int, ticks: nat)
    ensures
        counted(divided(m, divider_ticks), ticks).timer.counter == counted(m, ticks).timer.counter,
        counted(divided(m, divider_ticks), ticks).interrupts.intf == counted(
            m,
            ticks,
        ).interrupts.intf,
        counted(divided(m, divider_ticks), ticks).timer.modulo == counted(m, ticks).timer.modulo,
    decreases ticks,
{
    if ticks > 0 {
        lemma_divider_beside_counter(m, divider_ticks, (ticks - 1) as nat);
    }
}

/// With the counter started and at 0xFF, steps of exactly one tick size of
/// cycles in all reload the counter from the modulo and request the timer
/// interrupt; steps of fewer cycles leave the counter and the requests as
/// they are.
pub proof fn law_timer_overflow(timer: Timer, m: MMU, chunks: Seq<u8>)
    requires
        m.timer.started,
        m.timer.counter == 0xFF,
        timer.counter_lapsed == 0,
        total(chunks) <= ticksize(m.timer.clock),
    ensures
        total(chunks) == ticksize(m.timer.clock) ==> ran(timer, m, chunks).1.timer.counter
            == m.timer.modulo && ran(timer, m, chunks).1.interrupts.intf == m.interrupts.intf
            | REQUEST_TIMER,
        total(chunks) < ticksize(m.timer.clock) ==> ran(timer, m, chunks).1.timer.counter == 0xFF
            && ran(timer, m, chunks).1.interrupts.intf == m.interrupts.intf,
{
    law_steps_count_lapsed_cycles(timer, m, chunks);
    let size = ticksize(m.timer.clock);
    let sum = total(chunks);
    if sum == size {
        assert(sum / size == 1) by (nonlinear_arith)
            requires
                sum == size,
                size > 0,
        ;
        assert(counted(m, 1) == counted(m, 0).after_counter_tick());
    } else {
        assert(sum / size == 0) by (nonlinear_arith)
            requires
                0 <= sum < size,
        ;
    }
}

} // verus!
