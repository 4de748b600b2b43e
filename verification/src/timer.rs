//! Timer unit: a 16-bit counter incremented every T-cycle. DIV is its high
//! byte; TIMA is bumped on each falling edge of a TAC-selected counter bit and
//! reloads from TMA with an interrupt on overflow.

use vstd::prelude::*;

verus! {

/// Timer state: the free-running counter and the last TAC byte seen, kept for
/// the enable falling-edge rule.
pub struct Timer {
    pub internal_counter: u16,
    pub last_tac: u8,
}

/// What one `update` call asks the bus to do: a new DIV value if the high
/// byte changed, a new TIMA value if any edge bumped it, and whether the
/// timer interrupt must be requested.
pub struct TimerUpdate {
    pub new_div: Option<u8>,
    pub new_tima: Option<u8>,
    pub timer_interrupt: bool,
}

/// The timer's memory-mapped register addresses.
#[derive(Clone, Copy, PartialEq, Eq, Structural, Debug)]
pub enum TimerAddr {
    TIMA,
    TMA,
    TAC,
}

impl TimerAddr {
    /// The I/O address of this register.
    pub open spec fn spec_addr(self) -> u16 {
        match self {
            TimerAddr::TIMA => 0xFF05,
            TimerAddr::TMA => 0xFF06,
            TimerAddr::TAC => 0xFF07,
        }
    }

    pub fn addr(self) -> (r: u16)
        ensures
            r == self.spec_addr(),
    {
        match self {
            TimerAddr::TIMA => 0xFF05,
            TimerAddr::TMA => 0xFF06,
            TimerAddr::TAC => 0xFF07,
        }
    }
}

/// The counter bit whose falling edge clocks TIMA, selected by TAC bits 1..0.
pub open spec fn sel_bit(tac: u8) -> u16 {
    if tac & 0x03 == 0 {
        9
    } else if tac & 0x03 == 1 {
        3
    } else if tac & 0x03 == 2 {
        5
    } else {
        7
    }
}

/// Whether TAC bit 2 enables TIMA clocking.
pub open spec fn tac_enabled(tac: u8) -> bool {
    tac & 0x04 != 0
}

/// The running state of one `update` call: counter, the current TIMA value,
/// whether TIMA was changed at all, whether an overflow requested the
/// interrupt, and the DIV value to publish if the high byte changed.
pub struct TimerRun {
    pub counter: u16,
    pub tima: u8,
    pub tima_changed: bool,
    pub irq: bool,
    pub new_div: Option<u8>,
}

/// One TIMA bump: increment, or reload from TMA with an interrupt when TIMA
/// was 0xFF.
pub open spec fn tima_bumped(s: TimerRun, tma: u8) -> TimerRun {
    if s.tima == 0xFF {
        TimerRun { tima: tma, tima_changed: true, irq: true, ..s }
    } else {
        TimerRun { tima: (s.tima + 1) as u8, tima_changed: true, ..s }
    }
}

/// One T-cycle of the timer: the counter increments; DIV is published when the
/// high byte changes; TIMA is bumped on a strict falling edge of the selected
/// bit while TAC enables it.
pub open spec fn timer_cycle(s: TimerRun, tac: u8, tma: u8) -> TimerRun {
    let c2 = s.counter.wrapping_add(1);
    let s1 = TimerRun {
        counter: c2,
        new_div: if c2 >> 8 != s.counter >> 8 {
            Some((c2 >> 8) as u8)
        } else {
            s.new_div
        },
        ..s
    };
    if tac_enabled(tac) && (s.counter >> sel_bit(tac)) & 1 == 1 && (c2 >> sel_bit(tac)) & 1 == 0 {
        tima_bumped(s1, tma)
    } else {
        s1
    }
}

/// `n` T-cycles of the timer.
pub open spec fn timer_run(s: TimerRun, tac: u8, tma: u8, n: nat) -> TimerRun
    decreases n,
{
    if n == 0 {
        s
    } else {
        timer_run(timer_cycle(s, tac, tma), tac, tma, (n - 1) as nat)
    }
}

/// The obscure edge on reconfiguration: if TAC's enable bit goes 1 to 0 while
/// the newly selected counter bit is 1, TIMA is bumped once before the cycles
/// run.
pub open spec fn timer_pre_edge(s: TimerRun, last_tac: u8, tac: u8, tma: u8) -> TimerRun {
    if tac_enabled(last_tac) && !tac_enabled(tac) && (s.counter >> sel_bit(tac)) & 1 == 1 {
        tima_bumped(s, tma)
    } else {
        s
    }
}

/// The full effect of `Timer::update`: the reconfiguration edge, then one
/// `timer_cycle` per elapsed T-cycle.
pub open spec fn timer_update_spec(
    counter: u16,
    last_tac: u8,
    cycles: u8,
    tac: u8,
    tima: u8,
    tma: u8,
) -> TimerRun {
    let s0 = TimerRun { counter, tima, tima_changed: false, irq: false, new_div: None };
    timer_run(timer_pre_edge(s0, last_tac, tac, tma), tac, tma, cycles as nat)
}

impl Timer {
    /// Counter at zero, TAC remembered as zero.
    pub fn new() -> (r: Timer)
        ensures
            r.internal_counter == 0,
            r.last_tac == 0,
    {
        Timer { internal_counter: 0, last_tac: 0 }
    }

    /// Advances the counter by `cycles` T-cycles and reports the register
    /// updates the bus must apply, exactly as `timer_update_spec` describes:
    /// `new_div` carries the final DIV when the high byte changed, `new_tima`
    /// the final TIMA when any edge bumped it, and `timer_interrupt` is set
    /// when TIMA overflowed.
    pub fn update(&mut self, cycles: u8, tac: u8, tima: u8, tma: u8) -> (result: TimerUpdate)
        ensures
            ({
                let run = timer_update_spec(
                    old(self).internal_counter,
                    old(self).last_tac,
                    cycles,
                    tac,
                    tima,
                    tma,
                );
                final(self).internal_counter == run.counter && final(self).last_tac == tac
                    && result.new_div == run.new_div && result.timer_interrupt == run.irq
                    && result.new_tima == (if run.tima_changed {
                    Some(run.tima)
                } else {
                    None::<u8>
                })
            }),
    {
        let ghost run_total = timer_update_spec(
            self.internal_counter,
            self.last_tac,
            cycles,
            tac,
            tima,
            tma,
        );
        let mut result = TimerUpdate { new_div: None, new_tima: None, timer_interrupt: false };

        let timer_enabled = tac & 0x04 != 0;
        let old_timer_enabled = self.last_tac & 0x04 != 0;
        let bit_position: u16 = if tac & 0x03 == 0 {
            9
        } else if tac & 0x03 == 1 {
            3
        } else if tac & 0x03 == 2 {
            5
        } else {
            7
        };
        proof {
            assert(bit_position == sel_bit(tac));
            assert(bit_position < 16);
            assert(timer_enabled == tac_enabled(tac));
            assert(old_timer_enabled == tac_enabled(self.last_tac));
        }

        if old_timer_enabled && !timer_enabled && (self.internal_counter >> bit_position) & 1 == 1 {
            if tima == 0xFF {
                result.new_tima = Some(tma);
                result.timer_interrupt = true;
            } else {
                result.new_tima = Some(tima + 1);
            }
        }

        let ghost s0 = TimerRun {
            counter: self.internal_counter,
            tima: tima,
            tima_changed: false,
            irq: false,
            new_div: None,
        };
        let ghost s_pre = timer_pre_edge(s0, self.last_tac, tac, tma);

        let mut i: u8 = 0;
        while i < cycles
            invariant
                i <= cycles,
                bit_position == sel_bit(tac),
                bit_position < 16,
                timer_enabled == tac_enabled(tac),
                timer_run(
                    TimerRun {
                        counter: self.internal_counter,
                        tima: (if result.new_tima is Some {
                            result.new_tima->0
                        } else {
                            tima
                        }),
                        tima_changed: result.new_tima is Some,
                        irq: result.timer_interrupt,
                        new_div: result.new_div,
                    },
                    tac,
                    tma,
                    (cycles - i) as nat,
                ) == timer_run(s_pre, tac, tma, cycles as nat),
                self.last_tac == old(self).last_tac,
            decreases cycles - i,
        {
            let ghost cur = TimerRun {
                counter: self.internal_counter,
                tima: (if result.new_tima is Some {
                    result.new_tima->0
                } else {
                    tima
                }),
                tima_changed: result.new_tima is Some,
                irq: result.timer_interrupt,
                new_div: result.new_div,
            };

            let old_counter = self.internal_counter;
            self.internal_counter = self.internal_counter.wrapping_add(1);
            let new_counter = self.internal_counter;
            proof {
                assert(new_counter >> 8 < 256 && new_counter >> bit_position & 1 == (
                new_counter >> bit_position) & 1) by (bit_vector);
            }

            if (self.internal_counter >> 8) != (old_counter >> 8) {
                result.new_div = Some((self.internal_counter >> 8) as u8);
            }

            if timer_enabled {
                let old_bit = (old_counter >> bit_position) & 0x01;
                let new_bit = (self.internal_counter >> bit_position) & 0x01;
                if old_bit == 1 && new_bit == 0 {
                    let current_tima = match result.new_tima {
                        Some(t) => t,
                        None => tima,
                    };
                    if current_tima == 0xFF {
                        result.new_tima = Some(tma);
                        result.timer_interrupt = true;
                    } else {
                        result.new_tima = Some(current_tima + 1);
                    }
                }
            }

            proof {
                let next = TimerRun {
                    counter: self.internal_counter,
                    tima: (if result.new_tima is Some {
                        result.new_tima->0
                    } else {
                        tima
                    }),
                    tima_changed: result.new_tima is Some,
                    irq: result.timer_interrupt,
                    new_div: result.new_div,
                };
                assert(next == timer_cycle(cur, tac, tma));
            }
            i = i + 1;
        }

        self.last_tac = tac;
        result
    }

    /// A store to DIV: the whole internal counter is cleared.
    pub fn reset_divider(&mut self)
        ensures
            final(self).internal_counter == 0,
            final(self).last_tac == old(self).last_tac,
    {
        self.internal_counter = 0;
    }
}

} // verus!
