use dynamic_color::color::Lcha;
use dynamic_color::color::UnitRatio;
use dynamic_color::model::Model;
use dynamic_color::path::Path;
use dynamic_color::source::Source;
use dynamic_color::source::default_color;
use dynamic_color::style::StyleSheet;
use dynamic_color::style::StyleValue;

fn path(segments: &[&str]) -> Path {
    Path::from_segments(segments.iter().map(|s| s.to_string()).collect())
}

fn factor_paths() -> (Path, Path) {
    (
        path(&["graph_editor", "colors", "default", "dimming", "lightness_factor"]),
        path(&["graph_editor", "colors", "default", "dimming", "chroma_factor"]),
    )
}

/// A sheet with the dimming factors configured to 0.5 and 0.8.
fn sheet_with_factors(fallback: Lcha) -> StyleSheet {
    let (lf, cf) = factor_paths();
    let mut sheet = StyleSheet::new(fallback);
    sheet.set(lf, StyleValue::Number(UnitRatio::new(500_000)));
    sheet.set(cf, StyleValue::Number(UnitRatio::new(800_000)));
    sheet
}

#[test]
fn variant_path_drops_last_segment_and_appends() {
    let p = path(&["panel", "background", "node"]);
    let v = Model::variant_path(p, "dimmed".to_string());
    assert_eq!(v, path(&["panel", "background", " variant ", "dimmed"]));
}

#[test]
fn variant_path_of_empty_path() {
    let v = Model::variant_path(path(&[]), "dimmed".to_string());
    assert_eq!(v, path(&[" variant ", "dimmed"]));
}

#[test]
fn variant_path_of_single_segment() {
    let v = Model::variant_path(path(&["node"]), "focused".to_string());
    assert_eq!(v, path(&[" variant ", "focused"]));
}

#[test]
fn path_equality_and_clone() {
    let p = path(&["a", "b"]);
    let q = p.clone();
    assert_eq!(p, q);
    assert_ne!(p, path(&["a", "c"]));
    assert_ne!(p, path(&["a"]));
    assert_eq!(p.len(), 2);
}

#[test]
fn static_source_blends_toward_derived_dim() {
    // Lightness 80 and chroma 40 with factors 0.5 and 0.8 dim to 40 and 32;
    // hue and alpha are kept.
    let c = Lcha::new(80_000_000, 40_000_000, 10_000_000, 1_000_000);
    let mut model = Model::new(sheet_with_factors(Lcha::new(0, 0, 0, 0)));
    model.set_source(Source::Static { color: c });
    assert_eq!(model.get_color_dimmed(UnitRatio::zero()), c);
    assert_eq!(
        model.get_color_dimmed(UnitRatio::one()),
        Lcha::new(40_000_000, 32_000_000, 10_000_000, 1_000_000)
    );
}

#[test]
fn explicit_override_beats_derived_transform() {
    // A color stored at the derived variant path is used verbatim even
    // though both dimming factors are configured.
    let override_color = Lcha::new(11_000_000, 22_000_000, 33_000_000, 440_000);
    let base = Lcha::new(80_000_000, 40_000_000, 10_000_000, 1_000_000);
    let mut sheet = sheet_with_factors(Lcha::new(0, 0, 0, 0));
    sheet.set(path(&["panel", "background", "node"]), StyleValue::Color(base));
    sheet.set(
        path(&["panel", "background", " variant ", "dimmed"]),
        StyleValue::Color(override_color),
    );
    let mut model = Model::new(sheet);
    model.set_source(Source::Theme { path: path(&["panel", "background", "node"]) });
    assert_eq!(model.get_color_dimmed(UnitRatio::zero()), base);
    assert_eq!(model.get_color_dimmed(UnitRatio::one()), override_color);
    assert_eq!(model.get_base_color(), base);
    assert_eq!(
        model.try_get_color_variant_from_theme("dimmed"),
        Some(override_color)
    );
}

#[test]
fn number_at_variant_path_is_no_override() {
    // A number stored at the variant path is not a color, so the derived
    // transform is used.
    let base = Lcha::new(80_000_000, 40_000_000, 10_000_000, 1_000_000);
    let mut sheet = sheet_with_factors(Lcha::new(0, 0, 0, 0));
    sheet.set(path(&["node"]), StyleValue::Color(base));
    sheet.set(
        path(&[" variant ", "dimmed"]),
        StyleValue::Number(UnitRatio::new(700_000)),
    );
    let mut model = Model::new(sheet);
    model.set_source(Source::Theme { path: path(&["node"]) });
    assert_eq!(model.try_get_color_variant_from_theme("dimmed"), None);
    assert_eq!(
        model.get_color_dimmed(UnitRatio::one()),
        Lcha::new(40_000_000, 32_000_000, 10_000_000, 1_000_000)
    );
}

#[test]
fn unconfigured_factors_default_to_zero() {
    // Without configured factors the derived dim scales lightness and
    // chroma to 0, keeping hue and alpha.
    let c = Lcha::new(80_000_000, 40_000_000, 10_000_000, 1_000_000);
    let mut model = Model::new(StyleSheet::new(Lcha::new(0, 0, 0, 0)));
    model.set_source(Source::Static { color: c });
    assert_eq!(
        model.get_color_dimmed(UnitRatio::one()),
        Lcha::new(0, 0, 10_000_000, 1_000_000)
    );
}

#[test]
fn theme_source_falls_back_to_sheet_color() {
    // A theme path with nothing stored resolves to the sheet's fallback.
    let fallback = Lcha::new(5, 6, 7, 8);
    let mut model = Model::new(StyleSheet::new(fallback));
    model.set_source(Source::Theme { path: path(&["missing", "entry"]) });
    assert_eq!(model.get_base_color(), fallback);
}

#[test]
fn make_dimmed_color_scales_lightness_and_chroma() {
    let model = Model::new(sheet_with_factors(Lcha::new(0, 0, 0, 0)));
    let c = Lcha::new(80_000_000, 40_000_000, 10_000_000, 1_000_000);
    assert_eq!(
        model.make_dimmed_color(c),
        Lcha::new(40_000_000, 32_000_000, 10_000_000, 1_000_000)
    );
}

#[test]
fn sheet_get_number_or_uses_default_when_absent() {
    let sheet = StyleSheet::new(Lcha::new(0, 0, 0, 0));
    let d = UnitRatio::new(123_456);
    assert_eq!(sheet.get_number_or(&path(&["nowhere"]), d), d);
}

#[test]
fn sheet_set_shadows_older_entry() {
    let mut sheet = StyleSheet::new(Lcha::new(0, 0, 0, 0));
    let key = path(&["k"]);
    sheet.set(key.clone(), StyleValue::Color(Lcha::new(1, 1, 1, 1)));
    sheet.set(key.clone(), StyleValue::Color(Lcha::new(2, 2, 2, 2)));
    assert_eq!(sheet.get_color(&key), Lcha::new(2, 2, 2, 2));
}

#[test]
fn source_conversions_wrap_their_argument() {
    let c = Lcha::new(1, 2, 3, 4);
    match Source::from(c) {
        Source::Static { color } => assert_eq!(color, c),
        _ => panic!("a color converts to a static source"),
    }
    match Source::from(path(&["x", "y"])) {
        Source::Theme { path: p } => assert_eq!(p, path(&["x", "y"])),
        _ => panic!("a path converts to a theme source"),
    }
}

#[test]
fn default_source_is_the_fallback_color() {
    match Source::default() {
        Source::Static { color } => assert_eq!(color, default_color()),
        _ => panic!("the default source is static"),
    }
}
