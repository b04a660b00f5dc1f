//! A small XML document model: a tree of text, element and list nodes with
//! attributes, rendered compactly with exact escaping.
//!
//! The mathematical model of a tree is given by [`Node`], [`ElemModel`] and
//! [`AttrModel`]; rendering is specified character by character over that
//! model, and the executable renderer is proved to produce exactly the
//! specified sequence.

use vstd::prelude::*;
use vstd::string::StrSliceExecFns;
use vstd::string::StringExecFns;

use crate::text::chars_to_string;
use crate::text::format_tenths;
use crate::text::tenths_str;
use crate::traits::IteratorExt;
use crate::traits::Render;
use crate::traits::join_spec;
use crate::traits::lemma_join_push;

verus! {

/// A named attribute with a textual value.
#[derive(Debug, Clone)]
pub struct Attribute {
    pub name: String,
    pub value: String,
}

/// One node of the document tree: raw text (escaped on render), an element,
/// or a list of nodes acting as a fragment with no wrapping tag.
#[derive(Debug)]
pub enum Content {
    Text(String),
    Element(Element),
    List(ElementList),
}

/// An element: a name, its attributes in order, and its child nodes in
/// order (child order is render order).
#[derive(Debug)]
pub struct Element {
    pub name: String,
    pub content: Vec<Content>,
    pub attrs: Vec<Attribute>,
}

/// A fragment: a list of sibling nodes rendered in order with no wrapper.
#[derive(Debug)]
pub struct ElementList {
    pub content: Vec<Content>,
}

/// The mathematical model of an attribute: its name and raw value.
#[verifier::ext_equal]
pub struct AttrModel {
    pub name: Seq<char>,
    pub value: Seq<char>,
}

/// The mathematical model of an element.
#[verifier::ext_equal]
pub struct ElemModel {
    pub name: Seq<char>,
    pub attrs: Seq<AttrModel>,
    pub children: Seq<Node>,
}

/// The mathematical model of a node.
#[verifier::ext_equal]
pub enum Node {
    Text(Seq<char>),
    Elem(ElemModel),
    List(Seq<Node>),
}

/// The model of an attribute value.
pub open spec fn attr_model(a: Attribute) -> AttrModel {
    AttrModel { name: a.name@, value: a.value@ }
}

/// An attribute model from two literal texts.
pub open spec fn am(name: &str, value: &str) -> AttrModel {
    AttrModel { name: name@, value: value@ }
}

/// An attribute model from a literal name and a computed value.
pub open spec fn ams(name: &str, value: Seq<char>) -> AttrModel {
    AttrModel { name: name@, value }
}

/// An attribute model holding a numeric value: a quantity in tenths of a
/// unit, written in its shortest exact decimal form.
pub open spec fn amt(name: &str, t: int) -> AttrModel {
    AttrModel { name: name@, value: tenths_str(t) }
}

/// The model of an element value.
pub open spec fn elem_model(e: Element) -> ElemModel
    decreases e,
{
    ElemModel {
        name: e.name@,
        attrs: Seq::new(e.attrs@.len(), |i: int| attr_model(e.attrs@[i])),
        children: content_models(e.content@),
    }
}

/// The model of a node value.
pub open spec fn content_model(c: Content) -> Node
    decreases c,
{
    match c {
        Content::Text(t) => Node::Text(t@),
        Content::Element(e) => Node::Elem(elem_model(e)),
        Content::List(l) => Node::List(content_models(l.content@)),
    }
}

/// The models of a sequence of nodes, in order.
pub open spec fn content_models(s: Seq<Content>) -> Seq<Node>
    decreases s,
{
    if s.len() == 0 {
        Seq::empty()
    } else {
        seq![content_model(s[0])] + content_models(s.drop_first())
    }
}

/// Taking models commutes with indexing.
pub proof fn lemma_content_models_index(s: Seq<Content>)
    ensures
        content_models(s).len() == s.len(),
        forall|i: int| 0 <= i < s.len() ==> #[trigger] content_models(s)[i] == content_model(s[i]),
    decreases s,
{
    if s.len() > 0 {
        lemma_content_models_index(s.drop_first());
    }
}

/// Taking models commutes with appending one node.
pub proof fn lemma_content_models_push(s: Seq<Content>, c: Content)
    ensures
        content_models(s.push(c)) == content_models(s).push(content_model(c)),
    decreases s,
{
    if s.len() == 0 {
        reveal_with_fuel(content_models, 2);
        assert(s.push(c) =~= seq![c]);
        assert(content_models(s.push(c)) =~= content_models(s).push(content_model(c)));
    } else {
        assert(s.push(c).drop_first() =~= s.drop_first().push(c));
        lemma_content_models_push(s.drop_first(), c);
        assert(content_models(s.push(c)) =~= content_models(s).push(content_model(c)));
    }
}

/// What one character renders as: each of the five XML-significant
/// characters becomes its named entity, every other character stands
/// unchanged.
pub open spec fn escape_char(c: char) -> Seq<char> {
    if c == '<' {
        seq!['&', 'l', 't', ';']
    } else if c == '>' {
        seq!['&', 'g', 't', ';']
    } else if c == '&' {
        seq!['&', 'a', 'm', 'p', ';']
    } else if c == '"' {
        seq!['&', 'q', 'u', 'o', 't', ';']
    } else if c == '\'' {
        seq!['&', 'a', 'p', 'o', 's', ';']
    } else {
        seq![c]
    }
}

/// A text with every character escaped, in order.
pub open spec fn escape_text(s: Seq<char>) -> Seq<char>
    decreases s.len(),
{
    if s.len() == 0 {
        Seq::empty()
    } else {
        escape_char(s[0]) + escape_text(s.drop_first())
    }
}

/// Escaping one more character appends its escape.
pub proof fn lemma_escape_push(s: Seq<char>, c: char)
    ensures
        escape_text(s.push(c)) == escape_text(s) + escape_char(c),
    decreases s.len(),
{
    if s.len() == 0 {
        reveal_with_fuel(escape_text, 2);
        assert(s.push(c) =~= seq![c]);
        assert(seq![c].drop_first() =~= Seq::<char>::empty());
        assert(escape_text(s.push(c)) =~= escape_text(s) + escape_char(c));
    } else {
        assert(s.push(c).drop_first() =~= s.drop_first().push(c));
        lemma_escape_push(s.drop_first(), c);
        assert(escape_text(s.push(c)) =~= escape_text(s) + escape_char(c));
    }
}

/// Replaces the five XML-significant characters `& < > " '` by their named
/// entities and leaves every other character unchanged.
pub fn escape_xml(s: &str) -> (r: String)
    ensures
        r@ == escape_text(s@),
{
    let n = s.unicode_len();
    let mut out: Vec<char> = Vec::new();
    let mut i: usize = 0;
    while i < n
        invariant
            n == s@.len(),
            i <= n,
            out@ == escape_text(s@.take(i as int)),
        decreases n - i,
    {
        let c = s.get_char(i);
        if c == '<' {
            out.push('&');
            out.push('l');
            out.push('t');
            out.push(';');
        } else if c == '>' {
            out.push('&');
            out.push('g');
            out.push('t');
            out.push(';');
        } else if c == '&' {
            out.push('&');
            out.push('a');
            out.push('m');
            out.push('p');
            out.push(';');
        } else if c == '"' {
            out.push('&');
            out.push('q');
            out.push('u');
            out.push('o');
            out.push('t');
            out.push(';');
        } else if c == '\'' {
            out.push('&');
            out.push('a');
            out.push('p');
            out.push('o');
            out.push('s');
            out.push(';');
        } else {
            out.push(c);
        }
        proof {
            assert(s@.take(i as int + 1) =~= s@.take(i as int).push(s@[i as int]));
            lemma_escape_push(s@.take(i as int), s@[i as int]);
            assert(out@ =~= escape_text(s@.take(i as int + 1)));
        }
        i = i + 1;
    }
    proof {
        assert(s@.take(n as int) =~= s@);
    }
    chars_to_string(&out)
}

/// The rendered form of one attribute: `name="value"` with the value
/// escaped.
pub open spec fn rendered_attr(a: AttrModel) -> Seq<char> {
    a.name + "=\""@ + escape_text(a.value) + "\""@
}

/// The rendered forms of a sequence of attributes.
pub open spec fn attr_strings(attrs: Seq<AttrModel>) -> Seq<Seq<char>> {
    Seq::new(attrs.len(), |i: int| rendered_attr(attrs[i]))
}

/// The rendered form of an element: a self-closing tag when it has no
/// children, otherwise an open tag, the children back to back with nothing
/// between them, and a close tag.  A space always separates the name from
/// the attribute list.
pub open spec fn rendered_elem(e: ElemModel) -> Seq<char>
    decreases e,
{
    let open_tag = "<"@ + e.name + " "@ + join_spec(attr_strings(e.attrs), " "@);
    if e.children.len() == 0 {
        open_tag + "/>"@
    } else {
        open_tag + ">"@ + rendered_nodes(e.children) + "</"@ + e.name + ">"@
    }
}

/// The rendered form of one node.
pub open spec fn rendered_node(n: Node) -> Seq<char>
    decreases n,
{
    match n {
        Node::Text(t) => escape_text(t),
        Node::Elem(e) => rendered_elem(e),
        Node::List(cs) => rendered_nodes(cs),
    }
}

/// The rendered forms of a sequence of nodes, concatenated in order.
pub open spec fn rendered_nodes(s: Seq<Node>) -> Seq<char>
    decreases s,
{
    if s.len() == 0 {
        Seq::empty()
    } else {
        rendered_node(s[0]) + rendered_nodes(s.drop_first())
    }
}

/// Rendering one more node appends its rendering.
pub proof fn lemma_rendered_nodes_push(s: Seq<Node>, n: Node)
    ensures
        rendered_nodes(s.push(n)) == rendered_nodes(s) + rendered_node(n),
    decreases s,
{
    if s.len() == 0 {
        reveal_with_fuel(rendered_nodes, 2);
        assert(s.push(n) =~= seq![n]);
        assert(rendered_nodes(s.push(n)) =~= rendered_nodes(s) + rendered_node(n));
    } else {
        assert(s.push(n).drop_first() =~= s.drop_first().push(n));
        lemma_rendered_nodes_push(s.drop_first(), n);
        assert(rendered_nodes(s.push(n)) =~= rendered_nodes(s) + rendered_node(n));
    }
}

/// Renders one attribute as `name="value"` with the value escaped.
fn render_attribute(a: &Attribute) -> (r: String)
    ensures
        r@ == rendered_attr(attr_model(*a)),
{
    let mut out = String::new();
    out.append(a.name.as_str());
    out.append("=\"");
    let escaped = escape_xml(a.value.as_str());
    out.append(escaped.as_str());
    out.append("\"");
    out
}

/// Renders an element to its exact textual form.
fn render_element(e: &Element) -> (r: String)
    ensures
        r@ == rendered_elem(elem_model(*e)),
    decreases *e,
{
    let mut attr_parts: Vec<String> = Vec::new();
    let mut i: usize = 0;
    while i < e.attrs.len()
        invariant
            i <= e.attrs@.len(),
            attr_parts@.len() == i,
            forall|k: int|
                0 <= k < i ==> (#[trigger] attr_parts@[k])@ == rendered_attr(
                    attr_model(e.attrs@[k]),
                ),
        decreases e.attrs@.len() - i,
    {
        let part = render_attribute(&e.attrs[i]);
        attr_parts.push(part);
        i = i + 1;
    }
    let attrs_str = attr_parts.join(" ");
    proof {
        assert(attr_parts.deep_view() =~= attr_strings(elem_model(*e).attrs));
    }
    let mut out = String::new();
    out.append("<");
    out.append(e.name.as_str());
    out.append(" ");
    out.append(attrs_str.as_str());
    if e.content.len() == 0 {
        out.append("/>");
    } else {
        out.append(">");
        let body = render_contents(&e.content);
        out.append(body.as_str());
        out.append("</");
        out.append(e.name.as_str());
        out.append(">");
    }
    proof {
        lemma_content_models_index(e.content@);
        assert(out@ =~= rendered_elem(elem_model(*e)));
    }
    out
}

/// Renders one node.
fn render_content(c: &Content) -> (r: String)
    ensures
        r@ == rendered_node(content_model(*c)),
    decreases *c,
{
    match c {
        Content::Text(t) => escape_xml(t.as_str()),
        Content::Element(e) => render_element(e),
        Content::List(l) => render_contents(&l.content),
    }
}

/// Renders a sequence of nodes back to back, with nothing between them.
fn render_contents(v: &Vec<Content>) -> (r: String)
    ensures
        r@ == rendered_nodes(content_models(v@)),
    decreases v@,
{
    let mut out = String::new();
    let mut i: usize = 0;
    while i < v.len()
        invariant
            i <= v@.len(),
            out@ == rendered_nodes(content_models(v@.take(i as int))),
        decreases v@.len() - i,
    {
        let part = render_content(&v[i]);
        out.append(part.as_str());
        proof {
            assert(v@.take(i as int + 1) =~= v@.take(i as int).push(v@[i as int]));
            lemma_content_models_push(v@.take(i as int), v@[i as int]);
            lemma_rendered_nodes_push(
                content_models(v@.take(i as int)),
                content_model(v@[i as int]),
            );
        }
        i = i + 1;
    }
    proof {
        assert(v@.take(v@.len() as int) =~= v@);
    }
    out
}

impl Element {
    /// A new element with the given name and no attributes or children.
    pub fn new(name: &str) -> (e: Element)
        ensures
            e.name@ == name@,
            e.content@ == Seq::<Content>::empty(),
            e.attrs@ == Seq::<Attribute>::empty(),
    {
        Element { name: String::from_str(name), content: Vec::new(), attrs: Vec::new() }
    }

    /// The same element with its children replaced by `content`.
    pub fn content(self, content: Vec<Content>) -> (e: Element)
        ensures
            e.name == self.name,
            e.attrs == self.attrs,
            e.content == content,
    {
        Element { name: self.name, content, attrs: self.attrs }
    }

    /// The same element with `name="value"` appended to its attributes.
    pub fn attr(self, name: &str, value: &str) -> (e: Element)
        ensures
            e.name == self.name,
            e.content == self.content,
            e.attrs@ == self.attrs@.push(e.attrs@.last()),
            e.attrs@.last().name@ == name@,
            e.attrs@.last().value@ == value@,
    {
        let mut e = self;
        e.attrs.push(Attribute { name: String::from_str(name), value: String::from_str(value) });
        e
    }

    /// The same element with a numeric attribute appended: the value is a
    /// quantity in tenths of a unit, written in its shortest exact decimal
    /// form.
    pub fn attr_num(self, name: &str, tenths: i64) -> (e: Element)
        requires
            tenths != i64::MIN,
        ensures
            e.name == self.name,
            e.content == self.content,
            e.attrs@ == self.attrs@.push(e.attrs@.last()),
            e.attrs@.last().name@ == name@,
            e.attrs@.last().value@ == tenths_str(tenths as int),
    {
        let value = format_tenths(tenths);
        self.attr(name, value.as_str())
    }
}

impl ElementList {
    /// A new fragment holding the given nodes.
    pub fn new(content: Vec<Content>) -> (l: ElementList)
        ensures
            l.content == content,
    {
        ElementList { content }
    }
}

impl core::default::Default for Content {
    /// The empty node: text that renders as nothing.
    fn default() -> (r: Content)
        ensures
            r matches Content::Text(t) && t@ == Seq::<char>::empty(),
            content_model(r) == Node::Text(Seq::<char>::empty()),
    {
        let r = Content::Text(String::new());
        r
    }
}

impl Render for Attribute {
    open spec fn rendered(&self) -> Seq<char> {
        rendered_attr(attr_model(*self))
    }

    fn render(&self) -> (r: String) {
        render_attribute(self)
    }
}

impl Render for Element {
    open spec fn rendered(&self) -> Seq<char> {
        rendered_elem(elem_model(*self))
    }

    fn render(&self) -> (r: String) {
        render_element(self)
    }
}

impl Render for Content {
    open spec fn rendered(&self) -> Seq<char> {
        rendered_node(content_model(*self))
    }

    fn render(&self) -> (r: String) {
        render_content(self)
    }
}

impl Render for ElementList {
    open spec fn rendered(&self) -> Seq<char> {
        rendered_nodes(content_models(self.content@))
    }

    fn render(&self) -> (r: String) {
        render_contents(&self.content)
    }
}


/// The inverse reading of escaped text, as a generic XML parser would
/// decode it: each named entity of the five significant characters becomes
/// its character again, and every other character stands unchanged.
pub open spec fn unescape_text(s: Seq<char>) -> Seq<char>
    decreases s.len(),
{
    if s.len() == 0 {
        Seq::empty()
    } else if seq!['&', 'l', 't', ';'].is_prefix_of(s) {
        seq!['<'] + unescape_text(s.skip(4))
    } else if seq!['&', 'g', 't', ';'].is_prefix_of(s) {
        seq!['>'] + unescape_text(s.skip(4))
    } else if seq!['&', 'a', 'm', 'p', ';'].is_prefix_of(s) {
        seq!['&'] + unescape_text(s.skip(5))
    } else if seq!['&', 'q', 'u', 'o', 't', ';'].is_prefix_of(s) {
        seq!['"'] + unescape_text(s.skip(6))
    } else if seq!['&', 'a', 'p', 'o', 's', ';'].is_prefix_of(s) {
        seq!['\''] + unescape_text(s.skip(6))
    } else {
        seq![s[0]] + unescape_text(s.skip(1))
    }
}

/// Escaping loses nothing: reading the escaped text back with entity
/// decoding reproduces the original text exactly, whatever it held.
pub proof fn lemma_escape_unescape(s: Seq<char>)
    ensures
        unescape_text(escape_text(s)) == s,
    decreases s.len(),
{
    if s.len() == 0 {
    } else {
        let c = s[0];
        let rest = s.drop_first();
        lemma_escape_unescape(rest);
        let e = escape_text(s);
        assert(e == escape_char(c) + escape_text(rest));
        if c == '<' {
            assert(seq!['&', 'l', 't', ';'].is_prefix_of(e)) by {
                assert(e.take(4) =~= seq!['&', 'l', 't', ';']);
            }
            assert(e.skip(4) =~= escape_text(rest));
            assert(seq!['<'] + unescape_text(escape_text(rest)) =~= s);
        } else if c == '>' {
            assert(e[0] == '&' && e[1] == 'g');
            assert(!seq!['&', 'l', 't', ';'].is_prefix_of(e));
            assert(seq!['&', 'g', 't', ';'].is_prefix_of(e)) by {
                assert(e.take(4) =~= seq!['&', 'g', 't', ';']);
            }
            assert(e.skip(4) =~= escape_text(rest));
            assert(seq!['>'] + unescape_text(escape_text(rest)) =~= s);
        } else if c == '&' {
            assert(e[0] == '&' && e[1] == 'a' && e[2] == 'm');
            assert(!seq!['&', 'l', 't', ';'].is_prefix_of(e));
            assert(!seq!['&', 'g', 't', ';'].is_prefix_of(e));
            assert(seq!['&', 'a', 'm', 'p', ';'].is_prefix_of(e)) by {
                assert(e.take(5) =~= seq!['&', 'a', 'm', 'p', ';']);
            }
            assert(e.skip(5) =~= escape_text(rest));
            assert(seq!['&'] + unescape_text(escape_text(rest)) =~= s);
        } else if c == '"' {
            assert(e[0] == '&' && e[1] == 'q');
            assert(!seq!['&', 'l', 't', ';'].is_prefix_of(e));
            assert(!seq!['&', 'g', 't', ';'].is_prefix_of(e));
            assert(!seq!['&', 'a', 'm', 'p', ';'].is_prefix_of(e));
            assert(seq!['&', 'q', 'u', 'o', 't', ';'].is_prefix_of(e)) by {
                assert(e.take(6) =~= seq!['&', 'q', 'u', 'o', 't', ';']);
            }
            assert(e.skip(6) =~= escape_text(rest));
            assert(seq!['"'] + unescape_text(escape_text(rest)) =~= s);
        } else if c == '\'' {
            assert(e[0] == '&' && e[1] == 'a' && e[2] == 'p');
            assert(!seq!['&', 'l', 't', ';'].is_prefix_of(e));
            assert(!seq!['&', 'g', 't', ';'].is_prefix_of(e));
            assert(!seq!['&', 'a', 'm', 'p', ';'].is_prefix_of(e));
            assert(!seq!['&', 'q', 'u', 'o', 't', ';'].is_prefix_of(e));
            assert(seq!['&', 'a', 'p', 'o', 's', ';'].is_prefix_of(e)) by {
                assert(e.take(6) =~= seq!['&', 'a', 'p', 'o', 's', ';']);
            }
            assert(e.skip(6) =~= escape_text(rest));
            assert(seq!['\''] + unescape_text(escape_text(rest)) =~= s);
        } else {
            assert(e[0] == c);
            assert(!seq!['&', 'l', 't', ';'].is_prefix_of(e));
            assert(!seq!['&', 'g', 't', ';'].is_prefix_of(e));
            assert(!seq!['&', 'a', 'm', 'p', ';'].is_prefix_of(e));
            assert(!seq!['&', 'q', 'u', 'o', 't', ';'].is_prefix_of(e));
            assert(!seq!['&', 'a', 'p', 'o', 's', ';'].is_prefix_of(e));
            assert(e.skip(1) =~= escape_text(rest));
            assert(seq![c] + unescape_text(escape_text(rest)) =~= s);
        }
    }
}


} // verus!
