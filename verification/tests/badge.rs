use badges::Badge;
use badges::Colour;
use badges::IteratorExt;

#[test]
fn test_join_puts_separator_between_parts() {
    let parts: Vec<String> = vec![String::from("a=\"1\""), String::from("b=\"2\"")];
    assert_eq!(parts.join(" "), "a=\"1\" b=\"2\"");
    let one: Vec<String> = vec![String::from("only")];
    assert_eq!(one.join(", "), "only");
    let none: Vec<String> = Vec::new();
    assert_eq!(none.join(", "), "");
    let empty_sep: Vec<String> = vec![String::from("x"), String::from("y")];
    assert_eq!(empty_sep.join(""), "xy");
}

#[test]
fn test_message_only_badge_has_no_left_panel() {
    // label absent, logo absent, message "hi": the left panel vanishes and
    // no text element is emitted for the label
    let badge = Badge::builder().message(String::from("hi")).build();
    assert_eq!(badge.left_width(), 0);
    assert_eq!(badge.right_width(), 190);
    let svg = badge.render();
    // only one text block: the message's shadow and main text
    assert_eq!(svg.matches("<text ").count(), 2);
    assert!(svg.contains("width=\"19\""));
}

#[test]
fn test_empty_badge_is_two_paddings_wide() {
    // an empty message and nothing else: the badge is exactly twice the
    // horizontal padding wide and holds no text element at all
    let badge = Badge::builder().build();
    assert_eq!(badge.left_width(), 0);
    assert_eq!(badge.width(), 100);
    let svg = badge.render();
    assert!(!svg.contains("<text"));
    assert!(svg.contains("width=\"10\""));
    assert!(svg.contains("<title ></title>"));
}

#[test]
fn test_build_passing_badge_end_to_end() {
    let badge = Badge::builder()
        .label(String::from("build"))
        .message(String::from("passing"))
        .colour(Colour::from_rgb(0x44, 0xcc, 0x11))
        .label_colour(Colour::from_rgb(0x55, 0x55, 0x55))
        .build();
    assert_eq!(badge.left_width(), 341);
    assert_eq!(badge.right_width(), 478);
    assert_eq!(badge.width(), 819);
    assert_eq!(badge.accessible_text(), "build: passing");
    let svg = badge.render();
    assert!(svg.starts_with("<svg xmlns=\"http://www.w3.org/2000/svg\""));
    assert!(svg.contains("height=\"20\""));
    assert!(svg.contains("width=\"81.9\""));
    assert!(svg.contains("<title >build: passing</title>"));
    assert!(svg.contains("aria-label=\"build: passing\""));
    assert!(svg.contains("role=\"img\""));
    // both panels, in their colours
    assert!(svg.contains("fill=\"#555555\""));
    assert!(svg.contains("fill=\"#44cc11\""));
    // the text runs are stretched to exactly the measured widths
    assert!(svg.contains("textLength=\"241\""));
    assert!(svg.contains("textLength=\"378\""));
    // text anchors follow the layout formulas
    assert!(svg.contains("x=\"180.5\""));
    assert!(svg.contains("x=\"570\""));
    // baselines of text and shadow
    assert!(svg.contains("y=\"140\""));
    assert!(svg.contains("y=\"150\""));
}

#[test]
fn test_default_colours() {
    let badge = Badge::builder()
        .label(String::from("a"))
        .message(String::from("b"))
        .build();
    // default green for the message panel, default grey for the label panel
    let svg = badge.render();
    assert!(svg.contains("fill=\"#44cc11\""));
    assert!(svg.contains("fill=\"#555555\""));
}

#[test]
fn test_message_only_badge_uses_one_colour() {
    // without label and logo the left chip takes the main colour too
    let badge = Badge::builder()
        .message(String::from("hi"))
        .colour(Colour::from_rgb(1, 2, 3))
        .build();
    let svg = badge.render();
    assert!(svg.contains("fill=\"#010203\""));
    assert!(!svg.contains("fill=\"#555555\""));
}

#[test]
fn test_logo_badge_geometry() {
    let badge = Badge::builder()
        .message(String::from("hi"))
        .logo(String::from("data:image/svg+xml;base64,abc"))
        .build();
    // a logo without explicit width gets the default width
    assert_eq!(badge.logo_width(), 140);
    // no label: the logo room moves into the right panel
    assert_eq!(badge.left_width(), 0);
    assert_eq!(badge.right_width(), 100 + 90 + 0 + 140 + 50 - 10);
    let svg = badge.render();
    assert!(svg.contains("<image "));
    assert!(svg.contains("xlink:href=\"data:image/svg+xml;base64,abc\""));
    // logo box: x at the padding, vertically centred
    assert!(svg.contains("x=\"5\""));
    assert!(svg.contains("y=\"3\""));
    assert!(svg.contains("height=\"14\""));
}

#[test]
fn test_logo_with_label_gets_padding() {
    let badge = Badge::builder()
        .label(String::from("hi"))
        .message(String::from("hi"))
        .logo(String::from("l"))
        .build();
    assert_eq!(badge.logo_padding(), 30);
    // left panel holds padding, label, logo padding and logo
    assert_eq!(badge.left_width(), 100 + 90 + 30 + 140);
}

#[test]
fn test_explicit_logo_width() {
    let badge = Badge::builder()
        .message(String::from("m"))
        .logo(String::from("l"))
        .logo_width(200)
        .build();
    assert_eq!(badge.logo_width(), 200);
    let svg = badge.render();
    assert!(svg.contains("<image x=\"5\" y=\"3\" width=\"20\" height=\"14\""));
}

#[test]
fn test_empty_label_and_logo_strings_count_as_absent() {
    let badge = Badge::builder()
        .label(String::new())
        .logo(String::new())
        .message(String::from("hi"))
        .build();
    assert!(!badge.has_label());
    assert!(!badge.has_logo());
    assert_eq!(badge.left_width(), 0);
    assert_eq!(badge.logo_width(), 0);
    // an empty label still prefixes the accessible text, as a present label
    assert_eq!(badge.accessible_text(), ": hi");
}

#[test]
fn test_message_with_xml_significant_characters() {
    let badge = Badge::builder()
        .message(String::from("<&\">"))
        .build();
    let svg = badge.render();
    assert!(svg.contains("&lt;&amp;&quot;&gt;"));
    assert!(!svg.contains("<&\">"));
}

#[test]
fn test_renders_are_deterministic_and_independent() {
    let a = Badge::builder()
        .label(String::from("build"))
        .message(String::from("passing"))
        .build();
    let b = Badge::builder()
        .message(String::from("other"))
        .colour(Colour::from_rgb(9, 9, 9))
        .build();
    let first_a = a.render();
    let first_b = b.render();
    // interleaved repeat renders come out byte-identical
    let second_a = a.render();
    let second_b = b.render();
    assert_eq!(first_a, second_a);
    assert_eq!(first_b, second_b);
    assert_ne!(first_a, first_b);
}

#[test]
fn test_document_structure() {
    let badge = Badge::builder().message(String::from("m")).build();
    let svg = badge.render();
    assert!(svg.ends_with("</svg>"));
    assert!(svg.contains("<linearGradient id=\"s\" x2=\"0\" y2=\"100%\">"));
    assert!(svg.contains("<stop offset=\"0\" stop-color=\"#bbb\" stop-opacity=\".1\"/>"));
    assert!(svg.contains("<stop offset=\"1\" stop-opacity=\".1\"/>"));
    assert!(svg.contains("<clipPath id=\"r\">"));
    assert!(svg.contains("rx=\"3\""));
    assert!(svg.contains("<g clip-path=\"url(#r)\">"));
    assert!(svg.contains("fill=\"url(#s)\""));
    assert!(svg.contains("font-family=\"Verdana,Geneva,DejaVu Sans,sans-serif\""));
    assert!(svg.contains("transform=\"scale(.1)\""));
    assert!(svg.contains("font-size=\"110\""));
    assert!(svg.contains("aria-hidden=\"true\""));
    assert!(svg.contains("fill-opacity=\".3\""));
}

#[test]
fn test_exact_document_empty_badge() {
    let badge = Badge::builder().build();
    let mut expected = String::new();
    expected.push_str("<svg xmlns=\"http://www.w3.org/2000/svg\" xmlns:xlink=\"http://www.w3.org/1999/xlink\"");
    expected.push_str(" width=\"10\" height=\"20\" role=\"img\" aria-label=\"\">");
    expected.push_str("<title ></title>");
    expected.push_str("<linearGradient id=\"s\" x2=\"0\" y2=\"100%\">");
    expected.push_str("<stop offset=\"0\" stop-color=\"#bbb\" stop-opacity=\".1\"/>");
    expected.push_str("<stop offset=\"1\" stop-opacity=\".1\"/>");
    expected.push_str("</linearGradient>");
    expected.push_str("<clipPath id=\"r\"><rect width=\"10\" height=\"20\" rx=\"3\" fill=\"#fff\"/></clipPath>");
    expected.push_str("<g clip-path=\"url(#r)\">");
    expected.push_str("<rect width=\"0\" height=\"20\" fill=\"#44cc11\"/>");
    expected.push_str("<rect x=\"0\" width=\"10\" height=\"20\" fill=\"#44cc11\"/>");
    expected.push_str("<rect width=\"10\" height=\"20\" fill=\"url(#s)\"/>");
    expected.push_str("</g>");
    expected.push_str("<g fill=\"#fff\" text-anchor=\"middle\"");
    expected.push_str(" font-family=\"Verdana,Geneva,DejaVu Sans,sans-serif\"");
    expected.push_str(" text-rendering=\"geometricPrecision\" font-size=\"110\"></g>");
    expected.push_str("</svg>");
    assert_eq!(badge.render(), expected);
}

#[test]
fn test_exact_document_message_badge() {
    let badge = Badge::builder().message(String::from("hi")).build();
    let mut expected = String::new();
    expected.push_str("<svg xmlns=\"http://www.w3.org/2000/svg\" xmlns:xlink=\"http://www.w3.org/1999/xlink\"");
    expected.push_str(" width=\"19\" height=\"20\" role=\"img\" aria-label=\"hi\">");
    expected.push_str("<title >hi</title>");
    expected.push_str("<linearGradient id=\"s\" x2=\"0\" y2=\"100%\">");
    expected.push_str("<stop offset=\"0\" stop-color=\"#bbb\" stop-opacity=\".1\"/>");
    expected.push_str("<stop offset=\"1\" stop-opacity=\".1\"/>");
    expected.push_str("</linearGradient>");
    expected.push_str("<clipPath id=\"r\"><rect width=\"19\" height=\"20\" rx=\"3\" fill=\"#fff\"/></clipPath>");
    expected.push_str("<g clip-path=\"url(#r)\">");
    expected.push_str("<rect width=\"0\" height=\"20\" fill=\"#44cc11\"/>");
    expected.push_str("<rect x=\"0\" width=\"19\" height=\"20\" fill=\"#44cc11\"/>");
    expected.push_str("<rect width=\"19\" height=\"20\" fill=\"url(#s)\"/>");
    expected.push_str("</g>");
    expected.push_str("<g fill=\"#fff\" text-anchor=\"middle\"");
    expected.push_str(" font-family=\"Verdana,Geneva,DejaVu Sans,sans-serif\"");
    expected.push_str(" text-rendering=\"geometricPrecision\" font-size=\"110\">");
    expected.push_str("<text aria-hidden=\"true\" x=\"95\" y=\"150\" transform=\"scale(.1)\"");
    expected.push_str(" fill=\"#010101\" fill-opacity=\".3\" textLength=\"90\">hi</text>");
    expected.push_str("<text x=\"95\" y=\"140\" transform=\"scale(.1)\" fill=\"#ffffff\" textLength=\"90\">hi</text>");
    expected.push_str("</g>");
    expected.push_str("</svg>");
    assert_eq!(badge.render(), expected);
}
