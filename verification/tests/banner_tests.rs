use banner::banner::{prepare_banner, render_banner, BannerPath, BannerQuery};
use banner::color::{color_to_hex, darken, darken_color, from_hex, hex_color, is_hex_digit, Color};
use banner::error::BannerError;
use banner::icons::{icon_path, icons_json, is_valid_icon_name};
use banner::svg::{assemble_svg, escape_xml, inject_fill};

#[test]
fn hex_digits() {
    assert!(is_hex_digit('0'));
    assert!(is_hex_digit('9'));
    assert!(is_hex_digit('a'));
    assert!(is_hex_digit('f'));
    assert!(is_hex_digit('A'));
    assert!(is_hex_digit('F'));
    assert!(!is_hex_digit('g'));
    assert!(!is_hex_digit('G'));
    assert!(!is_hex_digit(' '));
    assert!(!is_hex_digit('-'));
}

#[test]
fn from_hex_values() {
    assert_eq!(from_hex("00"), Ok(0));
    assert_eq!(from_hex("ff"), Ok(255));
    assert_eq!(from_hex("FF"), Ok(255));
    assert_eq!(from_hex("7b"), Ok(123));
    assert_eq!(from_hex("0"), Ok(0));
    assert_eq!(from_hex("0ff"), Ok(255));
}

#[test]
fn from_hex_rejects() {
    assert_eq!(from_hex(""), Err(BannerError::MalformedColor));
    assert_eq!(from_hex("g0"), Err(BannerError::MalformedColor));
    assert_eq!(from_hex("100"), Err(BannerError::MalformedColor));
    assert_eq!(from_hex("+ff"), Err(BannerError::MalformedColor));
}

#[test]
fn hex_color_parses_six_digits() {
    assert_eq!(
        hex_color("2F14DF"),
        Ok(Color { red: 47, green: 20, blue: 223 })
    );
    assert_eq!(
        hex_color("ffffff"),
        Ok(Color { red: 255, green: 255, blue: 255 })
    );
    assert_eq!(hex_color("000000"), Ok(Color { red: 0, green: 0, blue: 0 }));
}

#[test]
fn hex_color_round_trips_lowercase() {
    // Rendering the parsed color reproduces the input, folded to lowercase.
    for s in ["2f14df", "AbCdEf", "999999", "00FF00", "DEADBE"] {
        let c = hex_color(s).unwrap();
        assert_eq!(color_to_hex(&c), s.to_lowercase());
    }
}

#[test]
fn hex_color_rejects_everything_else() {
    for s in ["12", "zzzzzz", "", "1234567", "12345", "12345g", " ffffff", "ffffff "] {
        assert_eq!(hex_color(s), Err(BannerError::MalformedColor));
    }
}

#[test]
fn darken_white() {
    // floor(255 * 0.3) = 76 on every channel.
    let c = hex_color("ffffff").unwrap();
    assert_eq!(darken_color(&c), Color { red: 76, green: 76, blue: 76 });
    assert_eq!(darken("ffffff"), "4c4c4c");
}

#[test]
fn darken_channels_independently() {
    // floor(153 * 0.3) = 45 = 0x2d; floor(16 * 0.3) = 4; floor(9 * 0.3) = 2.
    assert_eq!(darken("999999"), "2d2d2d");
    assert_eq!(darken("100900"), "040200");
    assert_eq!(darken("000000"), "000000");
}

#[test]
fn icon_names_validate() {
    assert!(is_valid_icon_name("question_mark"));
    assert!(is_valid_icon_name("check"));
    assert!(is_valid_icon_name("does_not_exist"));
    assert!(is_valid_icon_name("Icon-2"));
    assert!(!is_valid_icon_name(""));
    assert!(!is_valid_icon_name("../secret"));
    assert!(!is_valid_icon_name("a/b"));
    assert!(!is_valid_icon_name("a\\b"));
    assert!(!is_valid_icon_name("dot.dot"));
    assert!(!is_valid_icon_name("sp ace"));
}

#[test]
fn icon_path_is_fixed_location() {
    assert_eq!(icon_path("check"), "icons/outlined/check.svg");
    assert_eq!(icon_path("question_mark"), "icons/outlined/question_mark.svg");
}

#[test]
fn icons_json_lists_each_name_once() {
    let names: Vec<String> = vec!["check".to_string(), "question_mark".to_string()];
    assert_eq!(icons_json(&names), "{\"icons\": [\"check\",\"question_mark\"]}");
}

#[test]
fn icons_json_empty_and_single() {
    let none: Vec<String> = vec![];
    assert_eq!(icons_json(&none), "{\"icons\": []}");
    let one: Vec<String> = vec!["check".to_string()];
    assert_eq!(icons_json(&one), "{\"icons\": [\"check\"]}");
}

#[test]
fn escape_reserved_characters() {
    assert_eq!(escape_xml("a<b&c>d"), "a&lt;b&amp;c&gt;d");
    assert_eq!(escape_xml("plain"), "plain");
    assert_eq!(escape_xml(""), "");
    assert_eq!(escape_xml("&&"), "&amp;&amp;");
}

#[test]
fn inject_fill_at_namespace_declaration() {
    let icon = "<svg xmlns=\"http://www.w3.org/2000/svg\"><path d=\"M0 0\"/></svg>";
    let out = inject_fill(icon, "ff0000");
    assert_eq!(
        out,
        "<svg fill=\"#ff0000\" xmlns=\"http://www.w3.org/2000/svg\"><path d=\"M0 0\"/></svg>"
    );
}

#[test]
fn inject_fill_without_namespace_is_identity() {
    let icon = "<svg><path/></svg>";
    assert_eq!(inject_fill(icon, "ff0000"), icon);
}

#[test]
fn inject_fill_hits_every_occurrence() {
    let icon = "<a xmlns=\"x\"><b xmlns=\"y\"/></a>";
    assert_eq!(
        inject_fill(icon, "123456"),
        "<a fill=\"#123456\" xmlns=\"x\"><b fill=\"#123456\" xmlns=\"y\"/></a>"
    );
}

#[test]
fn prepare_defaults() {
    let q = BannerQuery { fg: None, bg: None, symbol: None };
    let r = prepare_banner(&q).unwrap();
    assert_eq!(r.bg, "999999");
    assert_eq!(r.fg, "2d2d2d"); // darken("999999"), not a hardcoded black
    assert_eq!(r.symbol, "question_mark");
}

#[test]
fn prepare_keeps_explicit_values() {
    let q = BannerQuery {
        fg: Some("ff0000".to_string()),
        bg: Some("00ff00".to_string()),
        symbol: Some("check".to_string()),
    };
    let r = prepare_banner(&q).unwrap();
    assert_eq!(r.fg, "ff0000");
    assert_eq!(r.bg, "00ff00");
    assert_eq!(r.symbol, "check");
}

#[test]
fn prepare_rejects_malformed_colors() {
    let q = BannerQuery { fg: Some("red".to_string()), bg: None, symbol: None };
    assert!(matches!(prepare_banner(&q), Err(BannerError::MalformedColor)));
    let q = BannerQuery { fg: None, bg: Some("12".to_string()), symbol: None };
    assert!(matches!(prepare_banner(&q), Err(BannerError::MalformedColor)));
}

#[test]
fn prepare_rejects_bad_icon_names() {
    let q = BannerQuery { fg: None, bg: None, symbol: Some("../etc/passwd".to_string()) };
    assert!(matches!(prepare_banner(&q), Err(BannerError::IconNotFound)));
    let q = BannerQuery { fg: None, bg: None, symbol: Some("".to_string()) };
    assert!(matches!(prepare_banner(&q), Err(BannerError::IconNotFound)));
}

#[test]
fn prepare_reports_color_before_icon() {
    let q = BannerQuery {
        fg: Some("nope".to_string()),
        bg: None,
        symbol: Some("../x".to_string()),
    };
    assert!(matches!(prepare_banner(&q), Err(BannerError::MalformedColor)));
}

#[test]
fn render_with_explicit_parameters() {
    let q = BannerQuery {
        fg: Some("ff0000".to_string()),
        bg: Some("00ff00".to_string()),
        symbol: Some("check".to_string()),
    };
    let r = prepare_banner(&q).unwrap();
    let path = BannerPath { title: "Build".to_string(), text: "Passing".to_string() };
    let icon = "<svg xmlns=\"http://www.w3.org/2000/svg\"><path/></svg>";
    let doc = render_banner(&path, &r, icon);
    assert!(doc.contains("fill=\"#ff0000\" xmlns"));
    assert!(doc.contains("<rect fill=\"#00ff00\" x=\"0\" y=\"0\" width=\"500\" height=\"72\"/>"));
    assert!(doc.contains(">Build</text>"));
    assert!(doc.contains(">Passing</text>"));
    assert!(doc.starts_with("<?xml version=\"1.0\" encoding=\"UTF-8\"?>"));
    assert!(doc.contains("<!DOCTYPE svg PUBLIC \"-//W3C//DTD SVG 1.1//EN\""));
    assert!(doc.ends_with("</g></svg>"));
}

#[test]
fn render_with_defaults_darkens_background() {
    let q = BannerQuery { fg: None, bg: None, symbol: None };
    let r = prepare_banner(&q).unwrap();
    let path = BannerPath { title: "Build".to_string(), text: "Passing".to_string() };
    let icon = "<svg xmlns=\"http://www.w3.org/2000/svg\"><path/></svg>";
    let doc = render_banner(&path, &r, icon);
    assert!(doc.contains("<rect fill=\"#999999\" x=\"0\" y=\"0\""));
    assert!(doc.contains("<rect fill=\"#2d2d2d\" x=\"87\" y=\"11\" width=\"10\" height=\"50\"/>"));
    assert!(doc.contains("fill=\"#2d2d2d\" xmlns"));
    assert!(!doc.contains("#000000"));
}

#[test]
fn render_escapes_title_and_text() {
    // Escaping reserved characters is a deliberate hardening: raw insertion
    // of title and text would leave the document malformed.
    let q = BannerQuery { fg: None, bg: None, symbol: None };
    let r = prepare_banner(&q).unwrap();
    let path = BannerPath { title: "a<b".to_string(), text: "c&d".to_string() };
    let doc = render_banner(&path, &r, "<svg xmlns=\"n\"/>");
    assert!(doc.contains(">a&lt;b</text>"));
    assert!(doc.contains(">c&amp;d</text>"));
}

#[test]
fn assemble_matches_fixed_template() {
    let doc = assemble_svg("T", "S", "2d2d2d", "999999", "<i/>");
    let expected = "<?xml version=\"1.0\" encoding=\"UTF-8\"?>\n\
        <!DOCTYPE svg PUBLIC \"-//W3C//DTD SVG 1.1//EN\" \"http://www.w3.org/Graphics/SVG/1.1/DTD/svg11.dtd\">\n\
        <svg xmlns=\"http://www.w3.org/2000/svg\" version=\"1.1\" width=\"500\" height=\"72\">\n\
        <rect fill=\"#999999\" x=\"0\" y=\"0\" width=\"500\" height=\"72\"/>\n\
        <rect fill=\"#2d2d2d\" x=\"87\" y=\"11\" width=\"10\" height=\"50\"/>\n\
        <g transform=\"scale(1)\">\n  \
        <text fill=\"#2d2d2d\" x=\"110\" y=\"40\" font-size=\"33px\" font-weight=\"bold\" font-family=\"sans serif\">T</text>\n  \
        <text fill=\"#2d2d2d\" x=\"110\" y=\"55\" font-size=\"13px\">S</text>\n  \
        <g transform=\"translate(5 0) scale(3)\">\n  <i/>\n  </g>\n</g></svg>";
    assert_eq!(doc, expected);
}
