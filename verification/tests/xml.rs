use badges::Content;
use badges::Element;
use badges::ElementList;
use badges::Render;
use badges::escape_xml;

#[test]
fn test_escape_xml_named_entities() {
    assert_eq!(escape_xml("a<b&c\"d'e>f"), "a&lt;b&amp;c&quot;d&apos;e&gt;f");
    assert_eq!(escape_xml("<<&&>>"), "&lt;&lt;&amp;&amp;&gt;&gt;");
}

#[test]
fn test_escape_xml_leaves_other_text_alone() {
    assert_eq!(escape_xml(""), "");
    assert_eq!(escape_xml("plain text 123"), "plain text 123");
    assert_eq!(escape_xml("héllo wörld \u{1F600}"), "héllo wörld \u{1F600}");
}

#[test]
fn test_escape_xml_does_not_double_escape_visibly() {
    // escaping is plain textual substitution: an ampersand already part of
    // an entity spelling is escaped again like any other ampersand
    assert_eq!(escape_xml("&amp;"), "&amp;amp;");
}

/// Entity decoding as a generic XML parser would do it.
fn unescape(s: &str) -> String {
    let mut out = String::new();
    let mut rest = s;
    while !rest.is_empty() {
        if let Some(r) = rest.strip_prefix("&lt;") {
            out.push('<');
            rest = r;
        } else if let Some(r) = rest.strip_prefix("&gt;") {
            out.push('>');
            rest = r;
        } else if let Some(r) = rest.strip_prefix("&amp;") {
            out.push('&');
            rest = r;
        } else if let Some(r) = rest.strip_prefix("&quot;") {
            out.push('"');
            rest = r;
        } else if let Some(r) = rest.strip_prefix("&apos;") {
            out.push('\'');
            rest = r;
        } else {
            let c = rest.chars().next().unwrap();
            out.push(c);
            rest = &rest[c.len_utf8()..];
        }
    }
    out
}

#[test]
fn test_escape_unescape_round_trip() {
    for s in [
        "",
        "plain",
        "a<b&c\"d'e>f",
        "&&&",
        "&amp;",
        "<tag attr=\"v\">body</tag>",
        "mixed é<&>\u{1F600}'\"",
    ] {
        assert_eq!(unescape(&escape_xml(s)), s);
    }
}

#[test]
fn test_element_without_children_self_closes() {
    let e = Element::new("rect").attr("width", "10").attr("fill", "#fff");
    assert_eq!(e.render(), "<rect width=\"10\" fill=\"#fff\"/>");
}

#[test]
fn test_element_without_attributes_keeps_the_space() {
    let e = Element::new("title").content(vec![Content::Text(String::from("hello"))]);
    assert_eq!(e.render(), "<title >hello</title>");
    let empty = Element::new("br");
    assert_eq!(empty.render(), "<br />");
}

#[test]
fn test_element_children_concatenated_in_order() {
    let child1 = Element::new("a").attr("x", "1");
    let child2 = Element::new("b").attr("y", "2");
    let e = Element::new("g")
        .content(vec![
            Content::Element(child1),
            Content::Text(String::from("mid")),
            Content::Element(child2),
        ])
        .attr("id", "top");
    assert_eq!(
        e.render(),
        "<g id=\"top\"><a x=\"1\"/>mid<b y=\"2\"/></g>"
    );
}

#[test]
fn test_element_list_renders_without_wrapper() {
    let l = ElementList::new(vec![
        Content::Text(String::from("one")),
        Content::Element(Element::new("x")),
        Content::Text(String::from("two")),
    ]);
    assert_eq!(l.render(), "one<x />two");
}

#[test]
fn test_text_content_is_escaped_on_render() {
    let e = Element::new("t").content(vec![Content::Text(String::from("a<b&c"))]);
    assert_eq!(e.render(), "<t >a&lt;b&amp;c</t>");
}

#[test]
fn test_attribute_values_are_escaped_on_render() {
    let e = Element::new("t").attr("label", "he said \"hi\" & left");
    assert_eq!(
        e.render(),
        "<t label=\"he said &quot;hi&quot; &amp; left\"/>"
    );
}

#[test]
fn test_attr_num_shortest_exact_decimal() {
    let e = Element::new("r")
        .attr_num("a", 200)
        .attr_num("b", 819)
        .attr_num("c", 0)
        .attr_num("d", -35)
        .attr_num("e", 5);
    assert_eq!(
        e.render(),
        "<r a=\"20\" b=\"81.9\" c=\"0\" d=\"-3.5\" e=\"0.5\"/>"
    );
}

#[test]
fn test_content_default_renders_to_nothing() {
    let c: Content = Default::default();
    assert_eq!(c.render(), "");
}
