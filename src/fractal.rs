//! The Williams Fractal detector: a five-slot ring of highs, lows and bar
//! directions, and the rule that classifies the bar two steps back.
use vstd::prelude::*;
use crate::bar::{closed_up, Close, High, Low, Open};
use crate::price::Price;

verus! {

/// Number of slots in the ring: the width of a fractal window.
pub const WINDOW: usize = 5;

/// Which five-bar pattern the detector looks for.
#[derive(Debug, Clone, Copy, PartialEq, Eq, Structural)]
pub enum FractalRule {
    /// The middle bar's low (high) is strictly below (above) the four others.
    Relaxed,
    /// Lows (highs) run strictly down then up (up then down) around the middle
    /// bar, with three falling bars then two rising ones (or the mirror).
    Strict,
}

/// What one step reports about the bar two steps back.
#[derive(Debug, Clone, Copy, PartialEq, Eq, Structural)]
pub enum WilliamsFractalType {
    /// A local high, carrying that bar's high.
    Bearish(Price),
    /// A local low, carrying that bar's low.
    Bullish(Price),
    Neither,
}

/// The slot that holds the bar `k` steps before `cursor` on the ring.
pub open spec fn slot_back(cursor: int, k: int) -> int {
    if cursor >= k {
        cursor - k
    } else {
        WINDOW as int - (k - cursor)
    }
}

/// Relaxed rule, on a window of lows ordered oldest first: the middle low is
/// strictly below the four others.
pub open spec fn relaxed_bullish(lows: Seq<Price>) -> bool {
    &&& lows[2].lt(lows[0])
    &&& lows[2].lt(lows[1])
    &&& lows[2].lt(lows[3])
    &&& lows[2].lt(lows[4])
}

/// Relaxed rule: the middle high is strictly above the four others.
pub open spec fn relaxed_bearish(highs: Seq<Price>) -> bool {
    &&& highs[2].gt(highs[0])
    &&& highs[2].gt(highs[1])
    &&& highs[2].gt(highs[3])
    &&& highs[2].gt(highs[4])
}

/// Lows strictly fall into the middle bar and strictly rise out of it.
pub open spec fn low_run(lows: Seq<Price>) -> bool {
    &&& lows[1].lt(lows[0])
    &&& lows[2].lt(lows[1])
    &&& lows[3].gt(lows[2])
    &&& lows[4].gt(lows[3])
}

/// Highs strictly rise into the middle bar and strictly fall out of it.
pub open spec fn high_run(highs: Seq<Price>) -> bool {
    &&& highs[1].gt(highs[0])
    &&& highs[2].gt(highs[1])
    &&& highs[3].lt(highs[2])
    &&& highs[4].lt(highs[3])
}

/// Three bars that did not close up, then two that did.
pub open spec fn falling_then_rising(up: Seq<bool>) -> bool {
    !up[0] && !up[1] && !up[2] && up[3] && up[4]
}

/// Three bars that closed up, then two that did not.
pub open spec fn rising_then_falling(up: Seq<bool>) -> bool {
    up[0] && up[1] && up[2] && !up[3] && !up[4]
}

pub open spec fn strict_bullish(lows: Seq<Price>, up: Seq<bool>) -> bool {
    low_run(lows) && falling_then_rising(up)
}

pub open spec fn strict_bearish(highs: Seq<Price>, up: Seq<bool>) -> bool {
    high_run(highs) && rising_then_falling(up)
}

pub open spec fn is_bullish(rule: FractalRule, lows: Seq<Price>, up: Seq<bool>) -> bool {
    match rule {
        FractalRule::Relaxed => relaxed_bullish(lows),
        FractalRule::Strict => strict_bullish(lows, up),
    }
}

pub open spec fn is_bearish(rule: FractalRule, highs: Seq<Price>, up: Seq<bool>) -> bool {
    match rule {
        FractalRule::Relaxed => relaxed_bearish(highs),
        FractalRule::Strict => strict_bearish(highs, up),
    }
}

/// The classification of a five-bar window (oldest first) of highs, lows and
/// directions: bullish is checked before bearish.
pub open spec fn classify(
    rule: FractalRule,
    highs: Seq<Price>,
    lows: Seq<Price>,
    up: Seq<bool>,
) -> WilliamsFractalType {
    if is_bullish(rule, lows, up) {
        WilliamsFractalType::Bullish(lows[2])
    } else if is_bearish(rule, highs, up) {
        WilliamsFractalType::Bearish(highs[2])
    } else {
        WilliamsFractalType::Neither
    }
}

/// The detector's state in mathematical terms.
pub struct FractalView {
    pub highs: Seq<Price>,
    pub lows: Seq<Price>,
    /// Whether the bar in each slot closed above its open.
    pub up: Seq<bool>,
    /// The slot that receives the next bar; it holds the oldest one.
    pub cursor: int,
    pub rule: FractalRule,
}

impl FractalView {
    pub open spec fn wf(self) -> bool {
        &&& self.highs.len() == WINDOW
        &&& self.lows.len() == WINDOW
        &&& self.up.len() == WINDOW
        &&& 0 <= self.cursor < WINDOW
    }

    /// The state after one bar: its values written at the cursor, which then
    /// moves on by one round the ring.
    pub open spec fn step(self, high: Price, low: Price, up: bool) -> FractalView {
        FractalView {
            highs: self.highs.update(self.cursor, high),
            lows: self.lows.update(self.cursor, low),
            up: self.up.update(self.cursor, up),
            cursor: (self.cursor + 1) % WINDOW as int,
            rule: self.rule,
        }
    }

    /// The slot of the `i`-th oldest bar held, for `i` in `0..5`.
    pub open spec fn slot(self, i: int) -> int {
        (self.cursor + i) % WINDOW as int
    }

    pub open spec fn window_highs(self) -> Seq<Price> {
        Seq::new(WINDOW as nat, |i: int| self.highs[self.slot(i)])
    }

    pub open spec fn window_lows(self) -> Seq<Price> {
        Seq::new(WINDOW as nat, |i: int| self.lows[self.slot(i)])
    }

    pub open spec fn window_up(self) -> Seq<bool> {
        Seq::new(WINDOW as nat, |i: int| self.up[self.slot(i)])
    }

    /// The classification of the five bars now held.
    pub open spec fn signal(self) -> WilliamsFractalType {
        classify(self.rule, self.window_highs(), self.window_lows(), self.window_up())
    }
}

/// The value that fills a slot no bar has reached yet: positive zero.
pub open spec fn unfilled() -> Price {
    Price { bits: 0 }
}

/// Five copies of `x`.
pub open spec fn filled<A>(x: A) -> Seq<A> {
    Seq::new(WINDOW as nat, |_i: int| x)
}

/// The slot `k` steps back from `cursor`, by the two-branch ring subtraction.
fn back(cursor: usize, k: usize) -> (r: usize)
    requires
        cursor < WINDOW,
        1 <= k <= 4,
    ensures
        r as int == slot_back(cursor as int, k as int),
        r < WINDOW,
{
    if cursor >= k {
        cursor - k
    } else {
        WINDOW - (k - cursor)
    }
}

/// After the cursor moves on from `cursor`, the `i`-th oldest slot is the one
/// `4 - i` steps back from `cursor`.
pub proof fn lemma_window_slots(cursor: int, i: int)
    requires
        0 <= cursor < WINDOW,
        0 <= i < WINDOW,
    ensures
        ((cursor + 1) % WINDOW as int + i) % WINDOW as int == if i == 4 {
            cursor
        } else {
            slot_back(cursor, 4 - i)
        },
{
}

/// A Williams Fractal detector over a stream of bars.
///
/// Each step writes the new bar at time t and reports whether the bar at t-2
/// is a bullish fractal (local low), a bearish one (local high), or neither.
#[derive(Debug, Clone)]
pub struct WilliamsFractal {
    highs: [Price; 5],
    lows: [Price; 5],
    /// Whether each bar closed above its open, computed once when written.
    up: [bool; 5],
    /// The slot that receives the next bar (time t).
    cursor: usize,
    rule: FractalRule,
}

impl View for WilliamsFractal {
    type V = FractalView;

    closed spec fn view(&self) -> FractalView {
        FractalView {
            highs: self.highs@,
            lows: self.lows@,
            up: self.up@,
            cursor: self.cursor as int,
            rule: self.rule,
        }
    }
}

impl WilliamsFractal {
    /// A detector for the relaxed rule, seeded with the last four highs and
    /// lows, oldest first. Its first step already classifies a real window.
    pub fn new(past_highs: [Price; 4], past_lows: [Price; 4]) -> (r: WilliamsFractal)
        ensures
            r@.wf(),
            r@.rule == FractalRule::Relaxed,
            r@.cursor == 4,
            r@.highs == past_highs@.push(unfilled()),
            r@.lows == past_lows@.push(unfilled()),
            r@.up == filled(false),
    {
        let r = WilliamsFractal {
            highs: [past_highs[0], past_highs[1], past_highs[2], past_highs[3], Price::from_bits(0)],
            lows: [past_lows[0], past_lows[1], past_lows[2], past_lows[3], Price::from_bits(0)],
            up: [false; 5],
            cursor: 4,
            rule: FractalRule::Relaxed,
        };
        assert(r@.highs =~= past_highs@.push(unfilled()));
        assert(r@.lows =~= past_lows@.push(unfilled()));
        assert(r@.up =~= filled(false));
        r
    }

    /// A detector for the strict rule, seeded with the last four bars' highs,
    /// lows, opens and closes, oldest first.
    pub fn new_strict(
        past_highs: [Price; 4],
        past_lows: [Price; 4],
        past_opens: [Price; 4],
        past_closes: [Price; 4],
    ) -> (r: WilliamsFractal)
        ensures
            r@.wf(),
            r@.rule == FractalRule::Strict,
            r@.cursor == 4,
            r@.highs == past_highs@.push(unfilled()),
            r@.lows == past_lows@.push(unfilled()),
            forall|i: int| 0 <= i < 4 ==> r@.up[i] == closed_up(past_opens[i], past_closes[i]),
            !r@.up[4],
    {
        let mut up = [false; 5];
        let mut i: usize = 0;
        while i < 4
            invariant
                i <= 4,
                forall|j: int| 0 <= j < i ==> up@[j] == closed_up(past_opens[j], past_closes[j]),
                !up@[4],
            decreases 4 - i,
        {
            up[i] = past_closes[i].greater_than(&past_opens[i]);
            i = i + 1;
        }
        let r = WilliamsFractal {
            highs: [past_highs[0], past_highs[1], past_highs[2], past_highs[3], Price::from_bits(0)],
            lows: [past_lows[0], past_lows[1], past_lows[2], past_lows[3], Price::from_bits(0)],
            up,
            cursor: 4,
            rule: FractalRule::Strict,
        };
        assert(r@.highs =~= past_highs@.push(unfilled()));
        assert(r@.lows =~= past_lows@.push(unfilled()));
        r
    }

    /// A detector for the relaxed rule with the last known high and low in
    /// every slot. The next four steps report on seeded slots.
    pub fn initial(high: Price, low: Price) -> (r: WilliamsFractal)
        ensures
            r@.wf(),
            r@.rule == FractalRule::Relaxed,
            r@.cursor == 0,
            r@.highs == filled(high),
            r@.lows == filled(low),
            r@.up == filled(false),
    {
        let r = WilliamsFractal {
            highs: [high; 5],
            lows: [low; 5],
            up: [false; 5],
            cursor: 0,
            rule: FractalRule::Relaxed,
        };
        assert(r@.highs =~= filled(high));
        assert(r@.lows =~= filled(low));
        assert(r@.up =~= filled(false));
        r
    }

    /// A detector for the strict rule with one known bar in every slot.
    pub fn initial_strict(high: Price, low: Price, open: Price, close: Price) -> (r: WilliamsFractal)
        ensures
            r@.wf(),
            r@.rule == FractalRule::Strict,
            r@.cursor == 0,
            r@.highs == filled(high),
            r@.lows == filled(low),
            r@.up == filled(closed_up(open, close)),
    {
        let up = close.greater_than(&open);
        let r = WilliamsFractal {
            highs: [high; 5],
            lows: [low; 5],
            up: [up; 5],
            cursor: 0,
            rule: FractalRule::Strict,
        };
        assert(r@.highs =~= filled(high));
        assert(r@.lows =~= filled(low));
        assert(r@.up =~= filled(up));
        r
    }

    /// `new`, reading the four past bars (oldest first) through their accessors.
    pub fn from_data<T: High + Low>(past: [&T; 4]) -> (r: WilliamsFractal)
        ensures
            r@.wf(),
            r@.rule == FractalRule::Relaxed,
            r@.cursor == 4,
            forall|i: int| 0 <= i < 4 ==> r@.highs[i] == past[i].spec_high(),
            forall|i: int| 0 <= i < 4 ==> r@.lows[i] == past[i].spec_low(),
            r@.highs[4] == unfilled(),
            r@.lows[4] == unfilled(),
            r@.up == filled(false),
    {
        let mut highs = [Price::from_bits(0); 5];
        let mut lows = [Price::from_bits(0); 5];
        let mut i: usize = 0;
        while i < 4
            invariant
                i <= 4,
                forall|j: int| 0 <= j < i ==> highs@[j] == past[j].spec_high(),
                forall|j: int| 0 <= j < i ==> lows@[j] == past[j].spec_low(),
                highs@[4] == unfilled(),
                lows@[4] == unfilled(),
            decreases 4 - i,
        {
            let p = past[i];
            highs[i] = p.high();
            lows[i] = p.low();
            i = i + 1;
        }
        let r = WilliamsFractal { highs, lows, up: [false; 5], cursor: 4, rule: FractalRule::Relaxed };
        assert(r@.up =~= filled(false));
        r
    }

    /// `new_strict`, reading the four past bars (oldest first) through their
    /// accessors.
    pub fn from_data_strict<T: High + Low + Open + Close>(past: [&T; 4]) -> (r: WilliamsFractal)
        ensures
            r@.wf(),
            r@.rule == FractalRule::Strict,
            r@.cursor == 4,
            forall|i: int| 0 <= i < 4 ==> r@.highs[i] == past[i].spec_high(),
            forall|i: int| 0 <= i < 4 ==> r@.lows[i] == past[i].spec_low(),
            forall|i: int|
                0 <= i < 4 ==> r@.up[i] == closed_up(past[i].spec_open(), past[i].spec_close()),
            r@.highs[4] == unfilled(),
            r@.lows[4] == unfilled(),
            !r@.up[4],
    {
        let mut highs = [Price::from_bits(0); 5];
        let mut lows = [Price::from_bits(0); 5];
        let mut up = [false; 5];
        let mut i: usize = 0;
        while i < 4
            invariant
                i <= 4,
                forall|j: int| 0 <= j < i ==> highs@[j] == past[j].spec_high(),
                forall|j: int| 0 <= j < i ==> lows@[j] == past[j].spec_low(),
                forall|j: int|
                    0 <= j < i ==> up@[j] == closed_up(past[j].spec_open(), past[j].spec_close()),
                highs@[4] == unfilled(),
                lows@[4] == unfilled(),
                !up@[4],
            decreases 4 - i,
        {
            let p = past[i];
            highs[i] = p.high();
            lows[i] = p.low();
            up[i] = p.close().greater_than(&p.open());
            i = i + 1;
        }
        WilliamsFractal { highs, lows, up, cursor: 4, rule: FractalRule::Strict }
    }

    /// `initial`, reading the known bar through its accessors.
    pub fn from_initial<T: High + Low>(initial: &T) -> (r: WilliamsFractal)
        ensures
            r@.wf(),
            r@.rule == FractalRule::Relaxed,
            r@.cursor == 0,
            r@.highs == filled(initial.spec_high()),
            r@.lows == filled(initial.spec_low()),
            r@.up == filled(false),
    {
        WilliamsFractal::initial(initial.high(), initial.low())
    }

    /// `initial_strict`, reading the known bar through its accessors.
    pub fn from_initial_strict<T: High + Low + Open + Close>(initial: &T) -> (r: WilliamsFractal)
        ensures
            r@.wf(),
            r@.rule == FractalRule::Strict,
            r@.cursor == 0,
            r@.highs == filled(initial.spec_high()),
            r@.lows == filled(initial.spec_low()),
            r@.up == filled(closed_up(initial.spec_open(), initial.spec_close())),
    {
        WilliamsFractal::initial_strict(initial.high(), initial.low(), initial.open(), initial.close())
    }

    /// Rebuilds a detector from its parts, as saved by a checkpoint: `None`
    /// when the cursor is not a slot of the ring.
    pub fn from_parts(
        highs: [Price; 5],
        lows: [Price; 5],
        up: [bool; 5],
        cursor: usize,
        rule: FractalRule,
    ) -> (r: Option<WilliamsFractal>)
        ensures
            cursor < WINDOW <==> r is Some,
            r matches Some(d) ==> d@ == (FractalView {
                highs: highs@,
                lows: lows@,
                up: up@,
                cursor: cursor as int,
                rule,
            }),
    {
        if cursor < WINDOW {
            Some(WilliamsFractal { highs, lows, up, cursor, rule })
        } else {
            None
        }
    }

    pub fn highs(&self) -> (r: [Price; 5])
        ensures
            r@ == self@.highs,
    {
        self.highs
    }

    pub fn lows(&self) -> (r: [Price; 5])
        ensures
            r@ == self@.lows,
    {
        self.lows
    }

    /// Whether the bar in each slot closed above its open.
    pub fn up(&self) -> (r: [bool; 5])
        ensures
            r@ == self@.up,
    {
        self.up
    }

    pub fn cursor(&self) -> (r: usize)
        ensures
            r as int == self@.cursor,
    {
        self.cursor
    }

    pub fn rule(&self) -> (r: FractalRule)
        ensures
            r == self@.rule,
    {
        self.rule
    }

    /// The indicator's short name.
    pub fn label(&self) -> (r: &'static str)
        ensures
            r@ == "WFRACTAL"@,
    {
        "WFRACTAL"
    }

    /// Feeds one bar given by its values; `up` tells whether it closed above
    /// its open. Returns the classification of the bar two steps back.
    pub fn next_values(&mut self, high: Price, low: Price, up: bool) -> (r: WilliamsFractalType)
        requires
            old(self)@.wf(),
        ensures
            final(self)@.wf(),
            final(self)@ == old(self)@.step(high, low, up),
            r == final(self)@.signal(),
    {
        let t = self.cursor;
        self.highs[t] = high;
        self.lows[t] = low;
        self.up[t] = up;

        let t1 = back(t, 1);
        let t2 = back(t, 2);
        let t3 = back(t, 3);
        let t4 = back(t, 4);

        let bullish = match self.rule {
            FractalRule::Relaxed => {
                self.lows[t2].less_than(&self.lows[t4])
                    && self.lows[t2].less_than(&self.lows[t3])
                    && self.lows[t2].less_than(&self.lows[t1])
                    && self.lows[t2].less_than(&self.lows[t])
            },
            FractalRule::Strict => {
                self.lows[t3].less_than(&self.lows[t4])
                    && self.lows[t2].less_than(&self.lows[t3])
                    && self.lows[t1].greater_than(&self.lows[t2])
                    && self.lows[t].greater_than(&self.lows[t1])
                    && !self.up[t4] && !self.up[t3] && !self.up[t2]
                    && self.up[t1] && self.up[t]
            },
        };
        let bearish = match self.rule {
            FractalRule::Relaxed => {
                self.highs[t2].greater_than(&self.highs[t4])
                    && self.highs[t2].greater_than(&self.highs[t3])
                    && self.highs[t2].greater_than(&self.highs[t1])
                    && self.highs[t2].greater_than(&self.highs[t])
            },
            FractalRule::Strict => {
                self.highs[t3].greater_than(&self.highs[t4])
                    && self.highs[t2].greater_than(&self.highs[t3])
                    && self.highs[t1].less_than(&self.highs[t2])
                    && self.highs[t].less_than(&self.highs[t1])
                    && self.up[t4] && self.up[t3] && self.up[t2]
                    && !self.up[t1] && !self.up[t]
            },
        };

        self.cursor = (t + 1) % WINDOW;

        proof {
            let v = self@;
            assert forall|i: int| 0 <= i < WINDOW implies #[trigger] v.slot(i) == if i == 4 {
                t as int
            } else {
                slot_back(t as int, 4 - i)
            } by {
                lemma_window_slots(t as int, i);
            }
            assert(v.window_lows()[0] == self.lows@[t4 as int]);
            assert(v.window_lows()[1] == self.lows@[t3 as int]);
            assert(v.window_lows()[2] == self.lows@[t2 as int]);
            assert(v.window_lows()[3] == self.lows@[t1 as int]);
            assert(v.window_lows()[4] == self.lows@[t as int]);
            assert(v.window_highs()[0] == self.highs@[t4 as int]);
            assert(v.window_highs()[1] == self.highs@[t3 as int]);
            assert(v.window_highs()[2] == self.highs@[t2 as int]);
            assert(v.window_highs()[3] == self.highs@[t1 as int]);
            assert(v.window_highs()[4] == self.highs@[t as int]);
            assert(v.window_up()[0] == self.up@[t4 as int]);
            assert(v.window_up()[1] == self.up@[t3 as int]);
            assert(v.window_up()[2] == self.up@[t2 as int]);
            assert(v.window_up()[3] == self.up@[t1 as int]);
            assert(v.window_up()[4] == self.up@[t as int]);
        }

        if bullish {
            WilliamsFractalType::Bullish(self.lows[t2])
        } else if bearish {
            WilliamsFractalType::Bearish(self.highs[t2])
        } else {
            WilliamsFractalType::Neither
        }
    }

    /// Feeds one bar. Returns the classification of the bar two steps back.
    pub fn next<T: High + Low + Open + Close>(&mut self, input: &T) -> (r: WilliamsFractalType)
        requires
            old(self)@.wf(),
        ensures
            final(self)@.wf(),
            final(self)@ == old(self)@.step(
                input.spec_high(),
                input.spec_low(),
                closed_up(input.spec_open(), input.spec_close()),
            ),
            r == final(self)@.signal(),
    {
        let up = input.close().greater_than(&input.open());
        self.next_values(input.high(), input.low(), up)
    }
}

} // verus!
