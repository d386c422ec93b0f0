use digital_rain::color::{FadeColor, Xxx};
use digital_rain::palette::{palette, random_glyph};

#[test]
fn fade_gradient_steps_down_by_sixteen() {
    assert_eq!(FadeColor(0).fg_str(), "\x1B[38;2;0;255;0m");
    assert_eq!(FadeColor(1).fg_str(), "\x1B[38;2;0;240;0m");
    assert_eq!(FadeColor(6).fg_str(), "\x1B[38;2;0;160;0m");
    assert_eq!(FadeColor(10).fg_str(), "\x1B[38;2;0;96;0m");
    assert_eq!(FadeColor(15).fg_str(), "\x1B[38;2;0;16;0m");
    assert_eq!(FadeColor(16).fg_str(), "\x1B[38;2;0;0;0m");
    assert_eq!(FadeColor(1000).fg_str(), "\x1B[38;2;0;0;0m");
}

#[test]
fn fade_background_is_black() {
    assert_eq!(FadeColor(0).bg_str(), "\x1B[48;2;0;0;0m");
    assert_eq!(FadeColor(9).bg_str(), "\x1B[48;2;0;0;0m");
}

#[test]
fn highlight_sequences() {
    assert_eq!(Xxx.fg_str(), "\x1B[38;2;255;255;0m");
    assert_eq!(Xxx.bg_str(), "\x1B4[8;2;0;255;255m");
}

#[test]
fn palette_is_the_hiragana_block() {
    let p = palette();
    assert_eq!(p.len(), 91);
    assert_eq!(p[0], '\u{3041}');
    assert_eq!(p[85], '\u{3096}');
    assert_eq!(p[86], '\u{309B}');
    assert_eq!(p[90], '\u{309F}');
}

#[test]
fn random_glyphs_come_from_the_palette() {
    let p = palette();
    let mut seen = std::collections::BTreeSet::new();
    for _ in 0..300 {
        let g = random_glyph();
        assert!(p.contains(&g));
        seen.insert(g);
    }
    assert!(seen.len() > 1);
}
