use vstd::prelude::*;
use vstd::arithmetic::div_mod::{lemma_div_is_ordered, lemma_mod_pos_bound};

verus! {

/// What the timer holds, as plain values.
pub struct TimerState {
    pub div: u16,
    pub tima: u8,
    pub tma: u8,
    pub tac: u8,
    pub irq: bool,
}

/// Whether TAC enables the counter (bit 2).
pub open spec fn timer_enabled(tac: u8) -> bool {
    (tac / 4) % 2 == 1
}

/// The period, in clocks, of the DIV bit that clocks TIMA, chosen by the
/// two low bits of TAC.
pub open spec fn tima_period(tac: u8) -> int {
    let sel = tac % 4;
    if sel == 0 {
        1024
    } else if sel == 1 {
        16
    } else if sel == 2 {
        64
    } else {
        256
    }
}

/// Rising edges of the selected DIV bit while the divider goes from `div`
/// up by `ticks` clocks.
pub open spec fn tima_edges(div: u16, ticks: int, period: int) -> int {
    (div + ticks) / period - (div as int) / period
}

/// TIMA after `edges` increments: each increment from 0xff reloads TMA.
pub open spec fn tima_after(tima: u8, tma: u8, edges: int) -> u8 {
    if tima + edges <= 0xff {
        (tima + edges) as u8
    } else {
        (tma + (edges - (0x100 - tima)) % (0x100 - tma)) as u8
    }
}

/// Whether `edges` increments from `tima` pass through an overflow.
pub open spec fn tima_overflows(tima: u8, edges: int) -> bool {
    tima + edges > 0xff
}

impl TimerState {
    pub open spec fn read(self, address: u16) -> u8 {
        if address == 0xff04 {
            (self.div / 256) as u8
        } else if address == 0xff05 {
            self.tima
        } else if address == 0xff06 {
            self.tma
        } else {
            self.tac
        }
    }

    pub open spec fn write(self, address: u16, value: u8) -> TimerState {
        if address == 0xff04 {
            TimerState { div: 0, ..self }
        } else if address == 0xff05 {
            TimerState { tima: value, ..self }
        } else if address == 0xff06 {
            TimerState { tma: value, ..self }
        } else {
            TimerState { tac: value, ..self }
        }
    }

    /// The timer after `ticks` clocks.
    pub open spec fn step(self, ticks: int) -> TimerState {
        let div = ((self.div + ticks) % 0x10000) as u16;
        if timer_enabled(self.tac) {
            let edges = tima_edges(self.div, ticks, tima_period(self.tac));
            TimerState {
                div,
                tima: tima_after(self.tima, self.tma, edges),
                irq: self.irq || tima_overflows(self.tima, edges),
                ..self
            }
        } else {
            TimerState { div, ..self }
        }
    }
}

/// The DIV/TIMA timer.
pub struct Timer {
    div: u16,
    tima: u8,
    tma: u8,
    tac: u8,
    irq: bool,
}

impl View for Timer {
    type V = TimerState;

    closed spec fn view(&self) -> TimerState {
        TimerState { div: self.div, tima: self.tima, tma: self.tma, tac: self.tac, irq: self.irq }
    }
}

/// Whether `address` is one of the timer's registers.
pub open spec fn is_timer_address(address: u16) -> bool {
    0xff04 <= address <= 0xff07
}

impl Timer {
    pub fn new() -> (r: Timer)
        ensures
            r@ == (TimerState { div: 0, tima: 0, tma: 0, tac: 0, irq: false }),
    {
        Timer { div: 0, tima: 0, tma: 0, tac: 0, irq: false }
    }

    pub fn write_byte(&mut self, address: u16, val: u8)
        requires
            is_timer_address(address),
        ensures
            final(self)@ == old(self)@.write(address, val),
    {
        if address == 0xff04 {
            // a write of any value restarts the whole 16-bit divider
            self.div = 0;
        } else if address == 0xff05 {
            self.tima = val;
        } else if address == 0xff06 {
            self.tma = val;
        } else {
            self.tac = val;
        }
    }

    pub fn read_byte(&self, address: u16) -> (r: u8)
        requires
            is_timer_address(address),
        ensures
            r == self@.read(address),
    {
        if address == 0xff04 {
            // only the upper byte of the divider is visible
            (self.div / 256) as u8
        } else if address == 0xff05 {
            self.tima
        } else if address == 0xff06 {
            self.tma
        } else {
            self.tac
        }
    }

    /// Whether the counter has overflowed since the request was last taken.
    pub fn irq_pending(&self) -> (r: bool)
        ensures
            r == self@.irq,
    {
        self.irq
    }

    /// Takes the pending overflow request.
    pub fn clear_irq(&mut self)
        ensures
            final(self)@ == (TimerState { irq: false, ..old(self)@ }),
    {
        self.irq = false;
    }

    fn period(&self) -> (r: u64)
        ensures
            r == tima_period(self.tac),
    {
        let sel: u8 = self.tac % 4;
        if sel == 0 {
            1024
        } else if sel == 1 {
            16
        } else if sel == 2 {
            64
        } else {
            256
        }
    }

    pub fn step(&mut self, tick: usize)
        ensures
            final(self)@ == old(self)@.step(tick as int),
    {
        let previous: u16 = self.div;
        self.div = ((previous as u128 + tick as u128) % 0x10000) as u16;
        if self.tac % 8 >= 4 {
            let period: u128 = self.period() as u128;
            let before: u128 = previous as u128 / period;
            let after: u128 = (previous as u128 + tick as u128) / period;
            proof {
                lemma_div_is_ordered(previous as int, previous + tick, period as int);
            }
            let edges: u128 = after - before;
            if self.tima as u128 + edges <= 0xff {
                self.tima = (self.tima as u128 + edges) as u8;
            } else {
                let span: u128 = 0x100 - self.tma as u128;
                let rest: u128 = edges - (0x100 - self.tima as u128);
                proof {
                    lemma_mod_pos_bound(rest as int, span as int);
                }
                // every overflow reloads TMA, so past the first one TIMA
                // cycles through TMA..=0xff
                self.tima = (self.tma as u128 + rest % span) as u8;
                self.irq = true;
            }
        }
    }
}

} // verus!
