use williams_fractal::{Bar, FractalRule, Price, WilliamsFractal, WilliamsFractalType};

fn p(x: f64) -> Price {
    Price::from_bits(x.to_bits())
}

fn ps(xs: [f64; 4]) -> [Price; 4] {
    [p(xs[0]), p(xs[1]), p(xs[2]), p(xs[3])]
}

fn hl(high: f64, low: f64) -> Bar {
    Bar::new(p(0.0), p(high), p(low), p(0.0))
}

fn ohlc(open: f64, high: f64, low: f64, close: f64) -> Bar {
    Bar::new(p(open), p(high), p(low), p(close))
}

#[test]
fn test_bullish_basic() {
    let mut wf = WilliamsFractal::new(ps([4.0, 3.0, 2.0, 3.0]), ps([3.0, 2.0, 1.0, 2.0]));
    let bar = hl(4.0, 3.0);
    assert_eq!(wf.next(&bar), WilliamsFractalType::Bullish(p(1.0)))
}

#[test]
fn test_bearish_basic() {
    let mut wf = WilliamsFractal::new(ps([2.0, 3.0, 4.0, 3.0]), ps([1.0, 2.0, 3.0, 2.0]));
    let bar = hl(2.0, 1.0);
    assert_eq!(wf.next(&bar), WilliamsFractalType::Bearish(p(4.0)))
}

#[test]
fn test_neither_basic() {
    let mut wf = WilliamsFractal::new(ps([2.0, 3.0, 4.0, 5.0]), ps([1.0, 2.0, 3.0, 4.0]));
    let bar = hl(2.0, 1.0);
    assert_eq!(wf.next(&bar), WilliamsFractalType::Neither);
}

#[test]
fn strict_bullish_scenario() {
    let mut wf = WilliamsFractal::new_strict(
        ps([4.0, 3.0, 2.0, 3.0]),
        ps([3.0, 2.0, 1.0, 2.0]),
        ps([4.0, 3.0, 2.0, 2.0]),
        ps([3.0, 2.0, 1.0, 3.0]),
    );
    assert_eq!(wf.next(&ohlc(3.0, 4.0, 3.0, 4.0)), WilliamsFractalType::Bullish(p(1.0)));
}

#[test]
fn strict_bearish_scenario() {
    let mut wf = WilliamsFractal::new_strict(
        ps([2.0, 3.0, 4.0, 3.0]),
        ps([1.0, 2.0, 3.0, 2.0]),
        ps([1.0, 2.0, 3.0, 3.0]),
        ps([2.0, 3.0, 4.0, 2.0]),
    );
    assert_eq!(wf.next(&ohlc(2.0, 2.0, 1.0, 1.0)), WilliamsFractalType::Bearish(p(4.0)));
}

#[test]
fn strict_run_with_wrong_directions_is_neither() {
    // the lows run down and up, but every bar closed down
    let mut wf = WilliamsFractal::new_strict(
        ps([4.0, 3.0, 2.0, 3.0]),
        ps([3.0, 2.0, 1.0, 2.0]),
        ps([4.0, 3.0, 2.0, 4.0]),
        ps([3.0, 2.0, 1.0, 3.0]),
    );
    assert_eq!(wf.next(&ohlc(4.0, 4.0, 3.0, 3.5)), WilliamsFractalType::Neither);
}

#[test]
fn strict_directions_without_run_is_neither() {
    // directions are falling, falling, falling, rising, rising; the lows do not run
    let mut wf = WilliamsFractal::new_strict(
        ps([4.0, 3.0, 2.0, 3.0]),
        ps([3.0, 3.0, 1.0, 2.0]),
        ps([4.0, 3.0, 2.0, 2.0]),
        ps([3.0, 2.0, 1.0, 3.0]),
    );
    assert_eq!(wf.next(&ohlc(3.0, 4.0, 3.0, 4.0)), WilliamsFractalType::Neither);
}

#[test]
fn relaxed_ignores_directions() {
    let mut wf = WilliamsFractal::new(ps([4.0, 3.0, 2.0, 3.0]), ps([3.0, 2.0, 1.0, 2.0]));
    assert_eq!(wf.next(&ohlc(9.0, 4.0, 3.0, 1.0)), WilliamsFractalType::Bullish(p(1.0)));
}

#[test]
fn relaxed_bullish_over_uneven_neighbours() {
    let mut wf = WilliamsFractal::new(ps([10.0, 8.0, 9.0, 7.0]), ps([5.0, 9.0, 4.5, 6.0]));
    assert_eq!(wf.next(&hl(11.0, 4.75)), WilliamsFractalType::Bullish(p(4.5)));
}

#[test]
fn relaxed_equal_low_is_not_a_fractal() {
    let mut wf = WilliamsFractal::new(ps([4.0, 3.0, 2.0, 3.0]), ps([3.0, 1.0, 1.0, 2.0]));
    assert_eq!(wf.next(&hl(4.0, 3.0)), WilliamsFractalType::Neither);
}

#[test]
fn relaxed_outside_bar_reports_bullish_first() {
    // the middle bar has both the lowest low and the highest high
    let mut wf = WilliamsFractal::new(ps([5.0, 5.0, 9.0, 5.0]), ps([3.0, 3.0, 1.0, 3.0]));
    assert_eq!(wf.next(&hl(5.0, 3.0)), WilliamsFractalType::Bullish(p(1.0)));
}

#[test]
fn nan_never_matches() {
    let mut wf = WilliamsFractal::new(ps([4.0, 3.0, 2.0, 3.0]), ps([3.0, 2.0, f64::NAN, 2.0]));
    assert_eq!(wf.next(&hl(4.0, 3.0)), WilliamsFractalType::Neither);
    let mut wf = WilliamsFractal::new(ps([4.0, 3.0, 2.0, 3.0]), ps([3.0, 2.0, 1.0, 2.0]));
    assert_eq!(wf.next(&hl(4.0, f64::NAN)), WilliamsFractalType::Neither);
}

#[test]
fn negative_prices_and_infinities() {
    let mut wf = WilliamsFractal::new(
        ps([-1.0, -2.0, f64::INFINITY, -3.0]),
        ps([-1.0, -2.0, f64::NEG_INFINITY, -3.0]),
    );
    assert_eq!(wf.next(&hl(0.0, -0.0)), WilliamsFractalType::Bullish(p(f64::NEG_INFINITY)));
}

#[test]
fn seeded_first_four_steps_within_seed_are_neither() {
    for strict in [false, true] {
        let mut wf = if strict {
            WilliamsFractal::initial_strict(p(10.0), p(1.0), p(5.0), p(6.0))
        } else {
            WilliamsFractal::initial(p(10.0), p(1.0))
        };
        let bars = [
            ohlc(3.0, 5.0, 2.0, 2.0),
            ohlc(9.0, 9.0, 1.5, 4.0),
            ohlc(1.0, 10.0, 1.0, 2.0),
            ohlc(3.0, 4.0, 3.0, 3.5),
        ];
        for b in bars.iter() {
            assert_eq!(wf.next(b), WilliamsFractalType::Neither);
        }
    }
}

#[test]
fn seeded_first_two_steps_are_neither_whatever_comes() {
    let mut wf = WilliamsFractal::initial(p(10.0), p(10.0));
    assert_eq!(wf.next(&hl(100.0, -100.0)), WilliamsFractalType::Neither);
    assert_eq!(wf.next(&hl(1000.0, 500.0)), WilliamsFractalType::Neither);
    let mut wf = WilliamsFractal::initial_strict(p(10.0), p(10.0), p(10.0), p(10.0));
    assert_eq!(wf.next(&ohlc(0.0, 100.0, -100.0, 1.0)), WilliamsFractalType::Neither);
    assert_eq!(wf.next(&ohlc(0.0, 1000.0, 500.0, 1.0)), WilliamsFractalType::Neither);
    assert_eq!(wf.next(&ohlc(0.0, 1.0, -500.0, 1.0)), WilliamsFractalType::Neither);
}

#[test]
fn seeded_relaxed_third_step_sees_a_low_below_the_seed() {
    let mut wf = WilliamsFractal::initial(p(10.0), p(10.0));
    assert_eq!(wf.next(&hl(5.0, 5.0)), WilliamsFractalType::Neither);
    assert_eq!(wf.next(&hl(6.0, 6.0)), WilliamsFractalType::Neither);
    assert_eq!(wf.next(&hl(7.0, 7.0)), WilliamsFractalType::Bullish(p(5.0)));
}

#[test]
fn cursor_moves_by_one_and_cycles() {
    let mut wf = WilliamsFractal::new(ps([1.0, 2.0, 3.0, 4.0]), ps([1.0, 2.0, 3.0, 4.0]));
    assert_eq!(wf.cursor(), 4);
    let start = wf.cursor();
    for k in 0..5usize {
        let before = wf.cursor();
        wf.next(&hl(k as f64, k as f64));
        assert_eq!(wf.cursor(), (before + 1) % 5);
    }
    assert_eq!(wf.cursor(), start);
    assert_eq!(WilliamsFractal::initial(p(1.0), p(1.0)).cursor(), 0);
}

fn relaxed_on_history(highs: &[f64], lows: &[f64]) -> WilliamsFractalType {
    let n = highs.len();
    let (h, l) = (&highs[n - 5..], &lows[n - 5..]);
    let bullish = l[2] < l[0] && l[2] < l[1] && l[2] < l[3] && l[2] < l[4];
    let bearish = h[2] > h[0] && h[2] > h[1] && h[2] > h[3] && h[2] > h[4];
    if bullish {
        WilliamsFractalType::Bullish(p(l[2]))
    } else if bearish {
        WilliamsFractalType::Bearish(p(h[2]))
    } else {
        WilliamsFractalType::Neither
    }
}

#[test]
fn outputs_match_a_plain_history() {
    let mut highs = vec![4.0, 6.0, 5.0, 8.0];
    let mut lows = vec![2.0, 1.0, 3.0, 0.5];
    let mut wf = WilliamsFractal::new(
        ps([highs[0], highs[1], highs[2], highs[3]]),
        ps([lows[0], lows[1], lows[2], lows[3]]),
    );
    let stream = [
        (7.0, 2.0),
        (9.0, 1.0),
        (3.0, 0.25),
        (4.0, 3.0),
        (5.0, 3.5),
        (12.0, 0.75),
        (2.0, 1.25),
        (2.5, 1.5),
        (1.0, -1.0),
        (6.0, 0.0),
        (6.0, 0.0),
        (7.0, 4.0),
    ];
    let mut seen_bullish = false;
    let mut seen_bearish = false;
    for (h, l) in stream {
        highs.push(h);
        lows.push(l);
        let got = wf.next(&hl(h, l));
        assert_eq!(got, relaxed_on_history(&highs, &lows));
        seen_bullish |= matches!(got, WilliamsFractalType::Bullish(_));
        seen_bearish |= matches!(got, WilliamsFractalType::Bearish(_));
    }
    assert!(seen_bullish && seen_bearish);
}

#[test]
fn rising_stream_is_always_neither() {
    for strict in [false, true] {
        let mut wf = if strict {
            WilliamsFractal::new_strict(
                ps([1.0, 2.0, 3.0, 4.0]),
                ps([0.0, 1.0, 2.0, 3.0]),
                ps([1.0, 2.0, 3.0, 4.0]),
                ps([0.0, 3.0, 2.0, 5.0]),
            )
        } else {
            WilliamsFractal::new(ps([1.0, 2.0, 3.0, 4.0]), ps([0.0, 1.0, 2.0, 3.0]))
        };
        for k in 5..30 {
            let x = k as f64;
            let up = k % 3 == 0;
            let bar = ohlc(x, x, x - 1.0, if up { x + 0.5 } else { x - 0.5 });
            assert_eq!(wf.next(&bar), WilliamsFractalType::Neither);
        }
    }
}

#[test]
fn typed_constructors_match_raw_ones() {
    let bars = [hl(4.0, 3.0), hl(3.0, 2.0), hl(2.0, 1.0), hl(3.0, 2.0)];
    let mut wf = WilliamsFractal::from_data([&bars[0], &bars[1], &bars[2], &bars[3]]);
    assert_eq!(wf.rule(), FractalRule::Relaxed);
    assert_eq!(wf.highs()[..4], ps([4.0, 3.0, 2.0, 3.0]));
    assert_eq!(wf.lows()[..4], ps([3.0, 2.0, 1.0, 2.0]));
    assert_eq!(wf.next(&hl(4.0, 3.0)), WilliamsFractalType::Bullish(p(1.0)));

    let seed = ohlc(5.0, 7.0, 4.0, 6.0);
    let wf = WilliamsFractal::from_initial(&seed);
    assert_eq!(wf.highs(), [p(7.0); 5]);
    assert_eq!(wf.lows(), [p(4.0); 5]);
    assert_eq!(wf.cursor(), 0);

    let wf = WilliamsFractal::from_initial_strict(&seed);
    assert_eq!(wf.rule(), FractalRule::Strict);
    assert_eq!(wf.up(), [true; 5]);
}

#[test]
fn typed_strict_constructor_reads_directions() {
    let bars = [
        ohlc(4.0, 4.0, 3.0, 3.0),
        ohlc(3.0, 3.0, 2.0, 2.0),
        ohlc(2.0, 2.0, 1.0, 1.0),
        ohlc(2.0, 3.0, 2.0, 3.0),
    ];
    let mut wf = WilliamsFractal::from_data_strict([&bars[0], &bars[1], &bars[2], &bars[3]]);
    assert_eq!(wf.up(), [false, false, false, true, false]);
    assert_eq!(wf.next(&ohlc(3.0, 4.0, 3.0, 4.0)), WilliamsFractalType::Bullish(p(1.0)));
}

#[test]
fn parts_round_trip() {
    let mut wf = WilliamsFractal::new(ps([4.0, 3.0, 2.0, 3.0]), ps([3.0, 2.0, 1.0, 2.0]));
    wf.next(&hl(1.0, 1.0));
    let back = WilliamsFractal::from_parts(wf.highs(), wf.lows(), wf.up(), wf.cursor(), wf.rule());
    let back = back.expect("cursor is a slot");
    assert_eq!(back.highs(), wf.highs());
    assert_eq!(back.cursor(), 0);
    assert!(WilliamsFractal::from_parts(wf.highs(), wf.lows(), wf.up(), 5, wf.rule()).is_none());
}

#[test]
fn label_is_short_name() {
    let wf = WilliamsFractal::initial(p(1.0), p(1.0));
    assert_eq!(wf.label(), "WFRACTAL");
}

#[test]
fn price_order_matches_floats() {
    let values = [
        f64::NEG_INFINITY,
        -1.0e300,
        -2.5,
        -1.0e-310,
        -0.0,
        0.0,
        1.0e-310,
        1.0,
        2.5,
        1.0e300,
        f64::INFINITY,
        f64::NAN,
        -f64::NAN,
    ];
    for a in values {
        for b in values {
            assert_eq!(p(a).less_than(&p(b)), a < b, "{} < {}", a, b);
            assert_eq!(p(a).greater_than(&p(b)), a > b, "{} > {}", a, b);
        }
        assert_eq!(p(a).is_nan_price(), a.is_nan());
        assert_eq!(f64::from_bits(p(a).to_bits()).to_bits(), a.to_bits());
    }
}
