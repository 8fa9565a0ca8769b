use scieldas::services::codestyles::python_style;
use scieldas::services::licenses::license;
use scieldas::{
    compose_vector, to_vector, RenderableScield, RenderableShield, Scield, ScieldRequest, Shield,
    StateScield, StateShield, StateTable, SupportedFiletype, TextScield, TextShield,
};

fn mit_table() -> StateTable {
    let mut t = StateTable::new();
    t.insert("mit", "MIT");
    t
}

#[test]
fn state_lookup_is_exact() {
    let s = StateScield { prefix: None, suffix: None, states: mit_table() };
    assert_eq!(s.render(&"mit".to_string()), "MIT");
    assert_eq!(s.render(&"MIT".to_string()), "N/A");
}

#[test]
fn state_table_later_insert_wins() {
    let mut t = StateTable::new();
    t.insert("a", "first");
    t.insert("a", "second");
    assert_eq!(t.get(&"a".to_string()), Some("second".to_string()));
    assert_eq!(t.get(&"b".to_string()), None);
}

#[test]
fn state_scield_with_affixes() {
    let s = StateScield { prefix: Some("Build"), suffix: Some("!"), states: mit_table() };
    assert_eq!(s.render(&"mit".to_string()), "Build :: MIT !");
    assert_eq!(s.render(&"gpl".to_string()), "Build :: N/A !");
}

#[test]
fn text_scield_renders_template() {
    let s = TextScield { prefix: "Version", suffix: None };
    assert_eq!(s.render(&"1.0.2".to_string()), "Version :: 1.0.2");
    let s = TextScield { prefix: "Size", suffix: Some("kB") };
    assert_eq!(s.render(&"12".to_string()), "Size :: 12 kB");
}

#[test]
fn text_scield_formats_numbers() {
    let s = TextScield { prefix: "Downloads", suffix: None };
    assert_eq!(s.render(&1234i64), "Downloads :: 1k");
    assert_eq!(s.render(&Some(1_234_567i64)), "Downloads :: 1m");
    assert_eq!(s.render(&None::<i64>), "Downloads :: N/A");
    assert_eq!(s.render(&None::<String>), "Downloads :: N/A");
    assert_eq!(s.render(&Some("x".to_string())), "Downloads :: x");
}

#[test]
fn vector_layout() {
    let svg = to_vector("ab");
    assert_eq!(
        svg,
        [
            r#"<svg baseProfile="full" height="41px" version="1.1" width="46px" "#,
            r#"xmlns="http://www.w3.org/2000/svg" xmlns:ev="http://www.w3.org/2001/xml-events" "#,
            r#"xmlns:xlink="http://www.w3.org/1999/xlink">"#,
            r##"<rect fill="#282828" height="100%" width="100%" x="0" y="0" />"##,
            r##"<text fill="#F2F2F2" font-family="Inconsolata Nerd Font, Inconsolata, monospace" "##,
            r#"font-size="140" textLength="140" transform="scale(.1)" x="160" y="240">ab</text>"#,
            "</svg>",
        ]
        .concat()
    );
}

#[test]
fn vector_is_deterministic() {
    let a = to_vector("Downloads :: 1m");
    let b = to_vector("Downloads :: 1m");
    assert_eq!(a, b);
    assert!(a.contains(r#"width="137px""#));
    assert!(a.contains(r#"textLength="1050""#));
}

#[test]
fn vector_of_empty_text() {
    let svg = to_vector("");
    assert!(svg.contains(r#"width="32px""#));
    assert!(svg.contains(r#"textLength="0""#));
}

#[test]
fn vector_width_counts_utf8_bytes() {
    let svg = to_vector("é");
    assert!(svg.contains(r#"width="46px""#));
    assert!(svg.contains(r#"textLength="140""#));
}

#[test]
fn compose_vector_uses_fill() {
    let svg = compose_vector("x", "#123456");
    assert!(svg.contains(r##"<rect fill="#123456""##));
}

#[test]
fn scield_to_svg() {
    let s = Scield {
        scield: TextScield { prefix: "Stars", suffix: None },
        value: 42i64,
        filetype: SupportedFiletype::Svg,
    };
    assert_eq!(s.to_svg(), to_vector("Stars :: 42"));
}

#[test]
fn shields_render() {
    let t = TextShield { prefix: "Release", suffix: None };
    assert_eq!(t.render("v1"), "Release :: v1");
    let s = StateShield { prefix: Some("Licence"), suffix: None, states: mit_table() };
    assert_eq!(s.render("mit"), "Licence :: MIT");
    assert_eq!(s.render("bsd"), "Licence :: N/A");
    let shield = Shield { shield: t, value: "v1".to_string(), filetype: SupportedFiletype::Svg };
    let svg = shield.to_svg();
    assert!(svg.contains(r##"<rect fill="#2D2D2D""##));
    assert!(svg.contains(">Release :: v1</text>"));
}

#[test]
fn licence_badge() {
    let b = license(ScieldRequest::from_param("apache.svg").unwrap());
    assert_eq!(b.scield.render(&b.value), "Apache 2");
    let b = license(ScieldRequest::from_param("GPL.txt").unwrap());
    assert_eq!(b.scield.render(&b.value), "N/A");
}

#[test]
fn python_style_folds_case() {
    let b = python_style(ScieldRequest::from_param("BLACK.txt").unwrap());
    assert_eq!(b.value, "black");
    assert_eq!(b.scield.render(&b.value), "Style :: Black");
    let b = python_style(ScieldRequest::from_param("AutoPEP8.svg").unwrap());
    assert_eq!(b.scield.render(&b.value), "Style :: AutoPEP8");
    let b = python_style(ScieldRequest::from_param("ruff.svg").unwrap());
    assert_eq!(b.scield.render(&b.value), "Style :: N/A");
}

#[test]
fn index_and_health() {
    assert_eq!(scieldas::index(), "Scieldas.");
    assert_eq!(scieldas::health(), "OK");
}
