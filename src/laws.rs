//! Properties of the detector that relate several steps or all windows.
use vstd::prelude::*;
use crate::bar::{closed_up, Bar};
use crate::price::Price;
use crate::fractal::{
    classify, falling_then_rising, filled, high_run, low_run, rising_then_falling, slot_back,
    strict_bearish, FractalRule, FractalView, WilliamsFractalType, WINDOW,
};

verus! {

/// The state after feeding `bar`, as `WilliamsFractal::next` leaves it.
pub open spec fn fed(v: FractalView, bar: Bar) -> FractalView {
    v.step(bar.high, bar.low, closed_up(bar.open, bar.close))
}

/// The state after feeding `bars` in order.
pub open spec fn fed_all(v: FractalView, bars: Seq<Bar>) -> FractalView
    decreases bars.len(),
{
    if bars.len() == 0 {
        v
    } else {
        fed(fed_all(v, bars.drop_last()), bars.last())
    }
}

/// The state that `initial` (relaxed) or `initial_strict` builds from `seed`.
pub open spec fn seeded(rule: FractalRule, seed: Bar) -> FractalView {
    FractalView {
        highs: filled(seed.high),
        lows: filled(seed.low),
        up: filled(
            match rule {
                FractalRule::Relaxed => false,
                FractalRule::Strict => closed_up(seed.open, seed.close),
            },
        ),
        cursor: 0,
        rule,
    }
}

pub open spec fn highs_of(bars: Seq<Bar>) -> Seq<Price> {
    bars.map_values(|b: Bar| b.high)
}

pub open spec fn lows_of(bars: Seq<Bar>) -> Seq<Price> {
    bars.map_values(|b: Bar| b.low)
}

pub open spec fn ups_of(bars: Seq<Bar>) -> Seq<bool> {
    bars.map_values(|b: Bar| closed_up(b.open, b.close))
}

/// A step keeps the state well formed, and moves the cursor on by exactly one
/// round the ring.
pub proof fn lemma_step_wf(v: FractalView, bar: Bar)
    requires
        v.wf(),
    ensures
        fed(v, bar).wf(),
        fed(v, bar).cursor == (v.cursor + 1) % WINDOW as int,
        fed(v, bar).rule == v.rule,
{
}

/// After five steps from any phase the cursor is back where it started.
pub proof fn lemma_cursor_cycles(v: FractalView, b1: Bar, b2: Bar, b3: Bar, b4: Bar, b5: Bar)
    requires
        v.wf(),
    ensures
        fed(fed(fed(fed(fed(v, b1), b2), b3), b4), b5).cursor == v.cursor,
{
}

/// One step drops the oldest bar of the window and appends the new one.
pub proof fn lemma_step_shifts_window(v: FractalView, bar: Bar)
    requires
        v.wf(),
    ensures
        fed(v, bar).window_highs() == v.window_highs().drop_first().push(bar.high),
        fed(v, bar).window_lows() == v.window_lows().drop_first().push(bar.low),
        fed(v, bar).window_up() == v.window_up().drop_first().push(closed_up(bar.open, bar.close)),
{
    let w = fed(v, bar);
    assert forall|i: int| 0 <= i < WINDOW implies #[trigger] w.slot(i) == if i == 4 {
        v.cursor
    } else {
        v.slot(i + 1)
    } by {}
    assert(w.window_highs() =~= v.window_highs().drop_first().push(bar.high));
    assert(w.window_lows() =~= v.window_lows().drop_first().push(bar.low));
    assert(w.window_up() =~= v.window_up().drop_first().push(closed_up(bar.open, bar.close)));
}

/// The slot two steps back from the cursor at a step is the slot that was
/// written two steps earlier, and it still holds that bar.
pub proof fn lemma_two_back_is_written_two_steps_before(v: FractalView, a: Bar, b: Bar, c: Bar)
    requires
        v.wf(),
    ensures
        slot_back(fed(fed(v, a), b).cursor, 2) == v.cursor,
        fed(fed(fed(v, a), b), c).highs[v.cursor] == a.high,
        fed(fed(fed(v, a), b), c).lows[v.cursor] == a.low,
        fed(fed(fed(v, a), b), c).up[v.cursor] == closed_up(a.open, a.close),
{
}

/// However many bars were fed, the window is the last five values of the
/// history made of the window at the start followed by every bar fed: the ring
/// needs no history of its own.
pub proof fn lemma_window_tracks_history(v: FractalView, bars: Seq<Bar>)
    requires
        v.wf(),
    ensures
        fed_all(v, bars).wf(),
        fed_all(v, bars).rule == v.rule,
        fed_all(v, bars).window_highs() == (v.window_highs() + highs_of(bars)).subrange(
            bars.len() as int,
            bars.len() + WINDOW,
        ),
        fed_all(v, bars).window_lows() == (v.window_lows() + lows_of(bars)).subrange(
            bars.len() as int,
            bars.len() + WINDOW,
        ),
        fed_all(v, bars).window_up() == (v.window_up() + ups_of(bars)).subrange(
            bars.len() as int,
            bars.len() + WINDOW,
        ),
    decreases bars.len(),
{
    let n = bars.len() as int;
    if n == 0 {
        assert(v.window_highs() + highs_of(bars) =~= v.window_highs());
        assert(v.window_lows() + lows_of(bars) =~= v.window_lows());
        assert(v.window_up() + ups_of(bars) =~= v.window_up());
        assert(v.window_highs().subrange(0, 5) =~= v.window_highs());
        assert(v.window_lows().subrange(0, 5) =~= v.window_lows());
        assert(v.window_up().subrange(0, 5) =~= v.window_up());
    } else {
        let prefix = bars.drop_last();
        let last = bars.last();
        lemma_window_tracks_history(v, prefix);
        let u = fed_all(v, prefix);
        lemma_step_shifts_window(u, last);
        let hs = v.window_highs() + highs_of(bars);
        let hp = v.window_highs() + highs_of(prefix);
        assert(hs.subrange(n, n + 5) =~= hp.subrange(n - 1, n + 4).drop_first().push(last.high));
        let ls = v.window_lows() + lows_of(bars);
        let lp = v.window_lows() + lows_of(prefix);
        assert(ls.subrange(n, n + 5) =~= lp.subrange(n - 1, n + 4).drop_first().push(last.low));
        let us = v.window_up() + ups_of(bars);
        let up = v.window_up() + ups_of(prefix);
        assert(us.subrange(n, n + 5) =~= up.subrange(n - 1, n + 4).drop_first().push(
            closed_up(last.open, last.close),
        ));
    }
}

/// Relaxed rule: a middle low strictly below the four other lows gives
/// `Bullish` with that low; a middle high strictly above the four other highs
/// gives `Bearish` with that high unless the low pattern holds too (bullish is
/// checked first); otherwise `Neither`.
pub proof fn lemma_relaxed_rule(highs: Seq<Price>, lows: Seq<Price>, up: Seq<bool>)
    requires
        highs.len() == WINDOW,
        lows.len() == WINDOW,
        up.len() == WINDOW,
    ensures
        lows[2].lt(lows[0]) && lows[2].lt(lows[1]) && lows[2].lt(lows[3]) && lows[2].lt(lows[4])
            ==> classify(FractalRule::Relaxed, highs, lows, up) == WilliamsFractalType::Bullish(
            lows[2],
        ),
        !(lows[2].lt(lows[0]) && lows[2].lt(lows[1]) && lows[2].lt(lows[3]) && lows[2].lt(
            lows[4],
        )) && highs[2].gt(highs[0]) && highs[2].gt(highs[1]) && highs[2].gt(highs[3])
            && highs[2].gt(highs[4]) ==> classify(FractalRule::Relaxed, highs, lows, up)
            == WilliamsFractalType::Bearish(highs[2]),
        !(lows[2].lt(lows[0]) && lows[2].lt(lows[1]) && lows[2].lt(lows[3]) && lows[2].lt(
            lows[4],
        )) && !(highs[2].gt(highs[0]) && highs[2].gt(highs[1]) && highs[2].gt(highs[3])
            && highs[2].gt(highs[4])) ==> classify(FractalRule::Relaxed, highs, lows, up)
            == WilliamsFractalType::Neither,
{
}

/// Strict rule: `Bullish` comes exactly when the lows run down into the middle
/// bar and up out of it and the directions are three falling bars then two
/// rising ones. With the directions right but the run broken, the result is
/// `Neither`; with either part broken and no bearish pattern, it is `Neither`.
pub proof fn lemma_strict_bullish_needs_both(highs: Seq<Price>, lows: Seq<Price>, up: Seq<bool>)
    requires
        highs.len() == WINDOW,
        lows.len() == WINDOW,
        up.len() == WINDOW,
    ensures
        (classify(FractalRule::Strict, highs, lows, up) is Bullish) <==> (low_run(lows)
            && falling_then_rising(up)),
        low_run(lows) && falling_then_rising(up) ==> classify(FractalRule::Strict, highs, lows, up)
            == WilliamsFractalType::Bullish(lows[2]),
        falling_then_rising(up) && !low_run(lows) ==> classify(FractalRule::Strict, highs, lows, up)
            == WilliamsFractalType::Neither,
        !(low_run(lows) && falling_then_rising(up)) && !strict_bearish(highs, up) ==> classify(
            FractalRule::Strict,
            highs,
            lows,
            up,
        ) == WilliamsFractalType::Neither,
{
}

/// Strict rule, the mirror: `Bearish` with the middle high when the highs run
/// up into the middle bar and down out of it after three rising bars and
/// before two falling ones.
pub proof fn lemma_strict_bearish(highs: Seq<Price>, lows: Seq<Price>, up: Seq<bool>)
    requires
        highs.len() == WINDOW,
        lows.len() == WINDOW,
        up.len() == WINDOW,
    ensures
        high_run(highs) && rising_then_falling(up) ==> classify(FractalRule::Strict, highs, lows, up)
            == WilliamsFractalType::Bearish(highs[2]),
{
}

/// A window whose highs and lows both rise strictly from bar to bar holds no
/// fractal under either rule.
pub proof fn lemma_rising_window_is_neither(
    rule: FractalRule,
    highs: Seq<Price>,
    lows: Seq<Price>,
    up: Seq<bool>,
)
    requires
        highs.len() == WINDOW,
        lows.len() == WINDOW,
        up.len() == WINDOW,
        highs[0].lt(highs[1]) && highs[1].lt(highs[2]) && highs[2].lt(highs[3]) && highs[3].lt(
            highs[4],
        ),
        lows[0].lt(lows[1]) && lows[1].lt(lows[2]) && lows[2].lt(lows[3]) && lows[3].lt(lows[4]),
    ensures
        classify(rule, highs, lows, up) == WilliamsFractalType::Neither,
{
}

/// A detector seeded with one bar reports `Neither` on the first two steps
/// under the relaxed rule and on the first three under the strict one, for
/// any bars fed.
pub proof fn lemma_seeded_first_steps(rule: FractalRule, seed: Bar, b1: Bar, b2: Bar, b3: Bar)
    ensures
        fed(seeded(rule, seed), b1).signal() == WilliamsFractalType::Neither,
        fed(fed(seeded(rule, seed), b1), b2).signal() == WilliamsFractalType::Neither,
        rule == FractalRule::Strict ==> fed(fed(fed(seeded(rule, seed), b1), b2), b3).signal()
            == WilliamsFractalType::Neither,
{
    let s0 = seeded(rule, seed);
    let s1 = fed(s0, b1);
    let s2 = fed(s1, b2);
    let s3 = fed(s2, b3);
    lemma_step_shifts_window(s0, b1);
    lemma_step_shifts_window(s1, b2);
    lemma_step_shifts_window(s2, b3);
    assert(s0.window_highs() =~= filled(seed.high));
    assert(s0.window_lows() =~= filled(seed.low));
    assert(s1.window_lows()[2] == seed.low && s1.window_lows()[0] == seed.low);
    assert(s1.window_highs()[2] == seed.high && s1.window_highs()[0] == seed.high);
    assert(s2.window_lows()[2] == seed.low && s2.window_lows()[0] == seed.low);
    assert(s2.window_highs()[2] == seed.high && s2.window_highs()[0] == seed.high);
    assert(s3.window_lows()[1] == seed.low && s3.window_lows()[0] == seed.low);
    assert(s3.window_highs()[1] == seed.high && s3.window_highs()[0] == seed.high);
}

/// A detector seeded with one bar reports `Neither` on each of the first four
/// steps under either rule, as long as no bar fed has a low strictly below the
/// seed's low or a high strictly above the seed's high.
pub proof fn lemma_seeded_four_steps_within_seed(
    rule: FractalRule,
    seed: Bar,
    b1: Bar,
    b2: Bar,
    b3: Bar,
    b4: Bar,
)
    requires
        !b1.low.lt(seed.low) && !b1.high.gt(seed.high),
        !b2.low.lt(seed.low) && !b2.high.gt(seed.high),
        !b3.low.lt(seed.low) && !b3.high.gt(seed.high),
        !b4.low.lt(seed.low) && !b4.high.gt(seed.high),
    ensures
        fed(seeded(rule, seed), b1).signal() == WilliamsFractalType::Neither,
        fed(fed(seeded(rule, seed), b1), b2).signal() == WilliamsFractalType::Neither,
        fed(fed(fed(seeded(rule, seed), b1), b2), b3).signal() == WilliamsFractalType::Neither,
        fed(fed(fed(fed(seeded(rule, seed), b1), b2), b3), b4).signal()
            == WilliamsFractalType::Neither,
{
    lemma_seeded_first_steps(rule, seed, b1, b2, b3);
    let s0 = seeded(rule, seed);
    let s1 = fed(s0, b1);
    let s2 = fed(s1, b2);
    let s3 = fed(s2, b3);
    let s4 = fed(s3, b4);
    lemma_step_shifts_window(s0, b1);
    lemma_step_shifts_window(s1, b2);
    lemma_step_shifts_window(s2, b3);
    lemma_step_shifts_window(s3, b4);
    assert(s0.window_highs() =~= filled(seed.high));
    assert(s0.window_lows() =~= filled(seed.low));
    assert(s3.window_lows()[0] == seed.low && s3.window_lows()[2] == b1.low);
    assert(s3.window_highs()[0] == seed.high && s3.window_highs()[2] == b1.high);
    assert(s4.window_lows()[0] == seed.low && s4.window_lows()[1] == b1.low);
    assert(s4.window_lows()[2] == b2.low);
    assert(s4.window_highs()[0] == seed.high && s4.window_highs()[1] == b1.high);
    assert(s4.window_highs()[2] == b2.high);
}

} // verus!
