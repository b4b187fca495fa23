use demo_logic::color::{darken_color, Color, CHANNEL_ONE};

const QUARTER: u32 = 16384;

#[test]
fn named_colors_have_their_channels() {
    assert_eq!(CHANNEL_ONE, 65536);
    assert_eq!(Color::red(), Color { r: 65536, g: 0, b: 0, a: 65536 });
    assert_eq!(Color::green(), Color { r: 0, g: 65536, b: 0, a: 65536 });
    assert_eq!(Color::white(), Color { r: 65536, g: 65536, b: 65536, a: 65536 });
    assert_eq!(Color::none(), Color { r: 0, g: 0, b: 0, a: 0 });
}

#[test]
fn darken_red_by_a_quarter() {
    // (1, 0, 0, 1) darkened by 0.25 is (0.75, 0, 0, 1).
    let darker = darken_color(Color::red(), QUARTER);
    assert_eq!(darker, Color { r: 49152, g: 0, b: 0, a: 65536 });
}

#[test]
fn darken_green_by_a_quarter() {
    let darker = darken_color(Color::green(), QUARTER);
    assert_eq!(darker, Color { r: 0, g: 49152, b: 0, a: 65536 });
}

#[test]
fn darken_stops_at_zero() {
    let c = Color { r: 100, g: QUARTER, b: QUARTER - 1, a: 7 };
    assert_eq!(darken_color(c, QUARTER), Color { r: 0, g: 0, b: 0, a: 7 });
    assert_eq!(darken_color(Color::none(), u32::MAX), Color::none());
    assert_eq!(
        darken_color(Color { r: u32::MAX, g: 0, b: 1, a: u32::MAX }, u32::MAX),
        Color { r: 0, g: 0, b: 0, a: u32::MAX }
    );
}

#[test]
fn darken_by_zero_is_identity() {
    let c = Color { r: 1, g: 20000, b: 65536, a: 3 };
    assert_eq!(darken_color(c, 0), c);
}

#[test]
fn darken_by_one_blacks_out_unit_colors() {
    assert_eq!(
        darken_color(Color::white(), CHANNEL_ONE),
        Color { r: 0, g: 0, b: 0, a: 65536 }
    );
}

#[test]
fn darken_leaves_alpha_alone() {
    for a in [0u32, 1, QUARTER, CHANNEL_ONE, u32::MAX] {
        let c = Color { r: 5, g: 6, b: 7, a };
        assert_eq!(darken_color(c, 3).a, a);
    }
}

#[test]
fn darken_is_the_floored_difference_on_a_grid() {
    let samples = [0u32, 1, 8192, 16383, 16384, 16385, 32768, 49152, 65535, 65536, 100000];
    let factors = [0u32, 1, 4096, 16384, 32768, 65535, 65536];
    for &r in samples.iter() {
        for &g in samples.iter() {
            for &f in factors.iter() {
                let c = Color { r, g, b: 65536 - g.min(65536), a: r };
                let d = darken_color(c, f);
                assert_eq!(d.r as i64, (c.r as i64 - f as i64).max(0));
                assert_eq!(d.g as i64, (c.g as i64 - f as i64).max(0));
                assert_eq!(d.b as i64, (c.b as i64 - f as i64).max(0));
                assert_eq!(d.a, c.a);
            }
        }
    }
}

#[test]
fn darken_twice_is_darken_by_the_sum() {
    let c = Color { r: 60000, g: 20000, b: 5, a: 9 };
    assert_eq!(
        darken_color(darken_color(c, 10000), 15000),
        darken_color(c, 25000)
    );
}
