use dynamic_color::color::Lcha;
use dynamic_color::color::UnitRatio;
use dynamic_color::color::SCALE;
use dynamic_color::color::lerp;
use dynamic_color::color::mix;

#[test]
fn mix_at_zero_returns_first_color_exactly() {
    let a = Lcha::new(80_000_000, 40_000_000, 10_000_000, 1_000_000);
    let b = Lcha::new(12_345_678, 9_876_543, 350_000_000, 0);
    assert_eq!(mix(a, b, UnitRatio::zero()), a);
    assert_eq!(mix(b, a, UnitRatio::zero()), b);
}

#[test]
fn mix_at_one_returns_second_color_exactly() {
    let a = Lcha::new(80_000_000, 40_000_000, 10_000_000, 1_000_000);
    let b = Lcha::new(12_345_678, 9_876_543, 350_000_000, 0);
    assert_eq!(mix(a, b, UnitRatio::one()), b);
    assert_eq!(mix(b, a, UnitRatio::one()), a);
}

#[test]
fn mix_halfway_averages_components() {
    let a = Lcha::new(10, 10, 10, 10);
    let b = Lcha::new(30, 30, 30, 30);
    let r = mix(a, b, UnitRatio::new(500_000));
    assert_eq!(r, Lcha::new(20, 20, 20, 20));
}

#[test]
fn mix_is_monotone_along_each_component() {
    // Lightness rises, chroma falls, hue and alpha stay put.
    let a = Lcha::new(10_000_000, 90_000_000, 40_000_000, 1_000_000);
    let b = Lcha::new(70_000_000, 30_000_000, 40_000_000, 1_000_000);
    let samples = [0u32, 250_000, 500_000, 750_000, 1_000_000];
    let mut last = mix(a, b, UnitRatio::new(samples[0]));
    for &n in &samples[1..] {
        let next = mix(a, b, UnitRatio::new(n));
        assert!(next.lightness >= last.lightness);
        assert!(next.chroma <= last.chroma);
        assert_eq!(next.hue, 40_000_000);
        assert_eq!(next.alpha, 1_000_000);
        assert!(a.lightness <= next.lightness && next.lightness <= b.lightness);
        assert!(b.chroma <= next.chroma && next.chroma <= a.chroma);
        last = next;
    }
}

#[test]
fn mix_extrapolates_hue_linearly_without_wraparound() {
    // Hue is blended linearly: halfway between 350 and 10 is 180, not 0.
    let a = Lcha::new(0, 0, 350_000_000, 0);
    let b = Lcha::new(0, 0, 10_000_000, 0);
    let r = mix(a, b, UnitRatio::new(500_000));
    assert_eq!(r.hue, 180_000_000);
}

#[test]
fn lerp_exact_quarter_points() {
    assert_eq!(lerp(80_000_000, 40_000_000, UnitRatio::new(250_000)), 70_000_000);
    assert_eq!(lerp(80_000_000, 40_000_000, UnitRatio::new(750_000)), 50_000_000);
    assert_eq!(lerp(0, SCALE, UnitRatio::new(333_333)), 333_333);
}

#[test]
fn unit_ratio_endpoints() {
    assert_eq!(UnitRatio::zero().num, 0);
    assert_eq!(UnitRatio::one().num, SCALE);
    assert_eq!(UnitRatio::new(42).num, 42);
}
