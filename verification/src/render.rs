//! The renderer for a lazy image node: it reproduces the standard image
//! attribute list — the node's own attributes, then `src` and `alt`, then a
//! present title — and appends the loading marker exactly when the URL is
//! not blank. Emission of the element text (escaping, `>` against `/>`)
//! belongs to the host and is not modelled here.

use vstd::prelude::*;
use vstd::string::StrSliceExecFns;
use vstd::string::StringExecFns;

use crate::tree::LazyLoadImage;
use crate::tree::Node;
use crate::tree::NodeModel;
use crate::tree::NodeValue;
use crate::tree::ValueModel;
use crate::tree::attrs_model;
use crate::tree::lemma_children_model_all;
use crate::tree::opt_view;

verus! {

/// Whether a character counts as whitespace when the URL is trimmed.
pub uninterp spec fn char_whitespace(c: char) -> bool;

/// Relies on char::is_whitespace: whether the character has the Unicode
/// White_Space property, a function of the character alone.
#[verifier::external_body]
fn is_whitespace_char(c: char) -> (r: bool)
    ensures
        r == char_whitespace(c),
{
    c.is_whitespace()
}

/// A string is blank when trimming leading and trailing whitespace leaves
/// nothing: every character is whitespace.
pub open spec fn blank(s: Seq<char>) -> bool {
    forall|i: int| 0 <= i < s.len() ==> char_whitespace(s[i])
}

/// Whether the URL trims to the empty string.
pub fn url_is_blank(url: &str) -> (r: bool)
    ensures
        r == blank(url@),
{
    let n = url.unicode_len();
    let mut i: usize = 0;
    while i < n
        invariant
            n == url@.len(),
            i <= n,
            forall|j: int| 0 <= j < i ==> char_whitespace(url@[j]),
        decreases n - i,
    {
        let c = url.get_char(i);
        if !is_whitespace_char(c) {
            return false;
        }
        i = i + 1;
    }
    true
}

/// The rendered attribute list of a lazy image: the node's own attributes in
/// their order, then `src`, then `alt`, then the title when one is present —
/// an explicit empty title counts as present — and then the loading marker,
/// unless the URL is blank.
pub open spec fn img_attr_list(
    base: Seq<(Seq<char>, Seq<char>)>,
    url: Seq<char>,
    title: Option<Seq<char>>,
    alt: Seq<char>,
    loading: Seq<char>,
) -> Seq<(Seq<char>, Seq<char>)> {
    let with_title = img_attrs_before_loading(base, url, title, alt);
    if blank(url) {
        with_title
    } else {
        with_title.push(("loading"@, loading))
    }
}

/// The part of the list that does not depend on the URL being blank.
pub open spec fn img_attrs_before_loading(
    base: Seq<(Seq<char>, Seq<char>)>,
    url: Seq<char>,
    title: Option<Seq<char>>,
    alt: Seq<char>,
) -> Seq<(Seq<char>, Seq<char>)> {
    let with_alt = base.push(("src"@, url)).push(("alt"@, alt));
    match title {
        Option::Some(t) => with_alt.push(("title"@, t)),
        Option::None => with_alt,
    }
}

impl LazyLoadImage {
    /// Build the attribute list this payload renders with, from the node's
    /// own attributes and its flattened text.
    pub fn render_attrs(&self, base: &Vec<(String, String)>, alt: String) -> (r: Vec<
        (String, String),
    >)
        ensures
            attrs_model(r@) == img_attr_list(
                attrs_model(base@),
                self.image.url@,
                opt_view(self.image.title),
                alt@,
                self.loading@,
            ),
    {
        let ghost alt_chars: Seq<char> = alt@;
        let mut out: Vec<(String, String)> = Vec::new();
        let mut i: usize = 0;
        while i < base.len()
            invariant
                i <= base@.len(),
                out@.len() == i,
                forall|j: int|
                    0 <= j < i ==> out@[j].0@ == base@[j].0@ && out@[j].1@ == base@[j].1@,
            decreases base@.len() - i,
        {
            let p = &base[i];
            out.push((p.0.clone(), p.1.clone()));
            i = i + 1;
        }
        proof {
            assert(attrs_model(out@) =~= attrs_model(base@));
        }
        let ghost base_m: Seq<(Seq<char>, Seq<char>)> = attrs_model(base@);
        out.push(("src".to_string(), self.image.url.clone()));
        out.push(("alt".to_string(), alt));
        proof {
            assert(attrs_model(out@) =~= base_m.push(("src"@, self.image.url@)).push(
                ("alt"@, alt_chars),
            ));
        }
        match &self.image.title {
            Option::Some(t) => {
                out.push(("title".to_string(), t.clone()));
                proof {
                    assert(attrs_model(out@) =~= img_attrs_before_loading(
                        base_m,
                        self.image.url@,
                        opt_view(self.image.title),
                        alt_chars,
                    ));
                }
            },
            Option::None => {},
        }
        if !url_is_blank(self.image.url.as_str()) {
            out.push(("loading".to_string(), self.loading.clone()));
        }
        proof {
            assert(attrs_model(out@) =~= img_attr_list(
                base_m,
                self.image.url@,
                opt_view(self.image.title),
                alt_chars,
                self.loading@,
            ));
        }
        out
    }
}

/// What a payload itself contributes to the flattened text: text runs their
/// characters, everything else nothing.
pub open spec fn own_text(v: ValueModel) -> Seq<char> {
    match v {
        ValueModel::Text { text } => text,
        _ => Seq::empty(),
    }
}

/// The flattened text of a tree, depth first: the node's own contribution,
/// then each child's flattened text in order, with all structure discarded.
pub open spec fn text_of(m: NodeModel) -> Seq<char>
    decreases m,
{
    own_text(m.value) + texts_from(m.children, 0)
}

pub open spec fn texts_from(s: Seq<NodeModel>, i: int) -> Seq<char>
    decreases s, s.len() - i,
{
    if i < 0 || i >= s.len() {
        Seq::empty()
    } else {
        text_of(s[i]) + texts_from(s, i + 1)
    }
}

/// Collect the flattened text of the tree under a node.
pub fn collect_text(node: &Node) -> (r: String)
    ensures
        r@ == text_of(node@),
    decreases node,
{
    let mut out = String::new();
    match &node.value {
        NodeValue::Text(s) => {
            out.append(s.as_str());
        },
        _ => {},
    }
    proof {
        lemma_children_model_all(node.children@);
        assert(out@ + texts_from(node@.children, 0) =~= text_of(node@));
    }
    let mut i: usize = 0;
    while i < node.children.len()
        invariant
            i <= node.children@.len(),
            node@.children.len() == node.children@.len(),
            out@ + texts_from(node@.children, i as int) == text_of(node@),
        decreases node.children@.len() - i,
    {
        let t = collect_text(&node.children[i]);
        proof {
            lemma_children_model_all(node.children@);
            assert(node@.children[i as int] == crate::tree::node_model(
                node.children@[i as int],
            ));
            assert(texts_from(node@.children, i as int) == text_of(node@.children[i as int])
                + texts_from(node@.children, i + 1));
            assert((out@ + t@) + texts_from(node@.children, i + 1) =~= out@ + texts_from(
                node@.children,
                i as int,
            ));
        }
        out.append(t.as_str());
        i = i + 1;
    }
    proof {
        assert(out@ + texts_from(node@.children, node.children@.len() as int) =~= out@);
    }
    out
}

/// The attribute list a lazy image node renders with.
pub open spec fn lazy_attrs_of(m: NodeModel) -> Seq<(Seq<char>, Seq<char>)>
    recommends
        m.value is LazyImage,
{
    match m.value {
        ValueModel::LazyImage { url, title, loading } => img_attr_list(
            m.attrs,
            url,
            title,
            text_of(m),
            loading,
        ),
        _ => Seq::empty(),
    }
}

/// Render a node holding a lazy image payload: its own attributes, then
/// `src` from the URL, `alt` from the flattened text of its children, the
/// title when present, and the loading marker when the URL is not blank.
pub fn render_lazy_node_attrs(node: &Node) -> (r: Vec<(String, String)>)
    requires
        node@.value is LazyImage,
    ensures
        attrs_model(r@) == lazy_attrs_of(node@),
{
    let alt = collect_text(node);
    match &node.value {
        NodeValue::LazyImage(li) => li.render_attrs(&node.attrs, alt),
        _ => {
            proof {
                assert(false);
            }
            Vec::new()
        },
    }
}

} // verus!
