use lumina::color::Color;

#[test]
fn hex_six_digits() {
    assert_eq!(Color::from_hex("#ff8000"), Some(Color::rgb(255, 128, 0)));
}

#[test]
fn hex_eight_digits() {
    assert_eq!(Color::from_hex("#11223344"), Some(Color::rgba(0x11, 0x22, 0x33, 0x44)));
}

#[test]
fn hex_without_hash() {
    assert_eq!(Color::from_hex("00DCE6"), Some(Color::cyan()));
}

#[test]
fn hex_plus_sign_group() {
    // A pair is two hex digits; a sign is malformed.
    assert_eq!(Color::from_hex("#+f+f+f"), None);
    assert_eq!(Color::from_hex("#+f0000"), None);
}

#[test]
fn hex_malformed() {
    assert_eq!(Color::from_hex("#12345"), None);
    assert_eq!(Color::from_hex("#gg0000"), None);
    assert_eq!(Color::from_hex("##ff0000"), None);
    assert_eq!(Color::from_hex(""), None);
    assert_eq!(Color::from_hex("#-10000"), None);
}

#[test]
fn default_is_white() {
    assert_eq!(Color::default(), Color::white());
    assert_eq!(Color::white(), Color::rgba(255, 255, 255, 255));
}

#[test]
fn named_colors() {
    assert_eq!(Color::black(), Color::rgb(0, 0, 0));
    assert_eq!(Color::red(), Color::rgb(255, 0, 0));
    assert_eq!(Color::green(), Color::rgb(0, 255, 0));
    assert_eq!(Color::blue(), Color::rgb(0, 0, 255));
    assert_eq!(Color::cyan(), Color::rgb(0, 220, 230));
    assert_eq!(Color::lumina_accent(), Color::cyan());
}

#[test]
fn hash_is_optional() {
    assert_eq!(Color::from_hex("#a0b0c0"), Color::from_hex("a0b0c0"));
    assert_eq!(Color::from_hex("#A0B0C0d0"), Some(Color::rgba(0xa0, 0xb0, 0xc0, 0xd0)));
}

#[test]
fn hex_rejects_non_ascii_groups() {
    // Cuts at byte 2 and 4 fall on character boundaries here, but the
    // groups are not hex.
    assert_eq!(Color::from_hex("#\u{e9}\u{e9}\u{e9}"), None);
}

#[test]
fn hex_multibyte_text_is_malformed() {
    // Six bytes, with the byte-2 and byte-4 cuts inside characters.
    assert_eq!(Color::from_hex("a\u{e9}\u{e9}b"), None);
    assert_eq!(Color::from_hex("#a\u{e9}\u{e9}b"), None);
    assert_eq!(Color::from_hex("\u{e9}\u{e9}\u{e9}\u{e9}"), None);
}
