//! Laws of the transformation and the renderer, stated over the models that
//! the executable contracts speak of.

use vstd::prelude::*;

use crate::render::blank;
use crate::render::img_attr_list;
use crate::render::img_attrs_before_loading;
use crate::rule::lazify_node;
use crate::rule::lazify_nodes;
use crate::rule::lemma_lazify_nodes_all;
use crate::tree::Node;
use crate::tree::NodeModel;
use crate::tree::ValueModel;

verus! {

/// For an image whose URL is not blank, the loading marker is emitted, and it
/// stands last: after the base attributes, `src`, `alt`, and any title, and
/// immediately before the close of the tag.
pub proof fn lemma_loading_last_when_url_not_blank(
    base: Seq<(Seq<char>, Seq<char>)>,
    url: Seq<char>,
    title: Option<Seq<char>>,
    alt: Seq<char>,
    loading: Seq<char>,
)
    requires
        !blank(url),
    ensures
        ({
            let r = img_attr_list(base, url, title, alt, loading);
            &&& r.len() > 0
            &&& r.last() == ("loading"@, loading)
            &&& r.drop_last() == img_attrs_before_loading(base, url, title, alt)
        }),
{
    let r = img_attr_list(base, url, title, alt, loading);
    assert(r.drop_last() =~= img_attrs_before_loading(base, url, title, alt));
}

/// For an image whose URL is blank, the loading marker is omitted entirely:
/// the list ends with the attributes that do not depend on the URL. With no
/// base attributes and no title, it is exactly `src` then `alt`.
pub proof fn lemma_blank_url_omits_loading(
    base: Seq<(Seq<char>, Seq<char>)>,
    url: Seq<char>,
    title: Option<Seq<char>>,
    alt: Seq<char>,
    loading: Seq<char>,
)
    requires
        blank(url),
    ensures
        img_attr_list(base, url, title, alt, loading) == img_attrs_before_loading(
            base,
            url,
            title,
            alt,
        ),
        base.len() == 0 && title is None ==> img_attr_list(base, url, title, alt, loading)
            =~= seq![("src"@, url), ("alt"@, alt)],
{
    if base.len() == 0 && title is None {
        assert(img_attr_list(base, url, title, alt, loading) =~= seq![
            ("src"@, url),
            ("alt"@, alt),
        ]);
    }
}

/// Where each attribute stands: the node's own attributes keep their places,
/// `src` and `alt` follow them in that order, and a present title — an
/// explicitly empty one included — follows those; the list holds nothing
/// else before any loading marker.
pub proof fn lemma_attr_positions(
    base: Seq<(Seq<char>, Seq<char>)>,
    url: Seq<char>,
    title: Option<Seq<char>>,
    alt: Seq<char>,
)
    ensures
        ({
            let r = img_attrs_before_loading(base, url, title, alt);
            &&& r.len() == base.len() + 2 + (if title is Some {
                1int
            } else {
                0int
            })
            &&& r.subrange(0, base.len() as int) == base
            &&& r[base.len() as int] == ("src"@, url)
            &&& r[base.len() as int + 1] == ("alt"@, alt)
            &&& (title matches Some(t) ==> r[base.len() as int + 2] == ("title"@, t))
        }),
{
    let r = img_attrs_before_loading(base, url, title, alt);
    assert(r.subrange(0, base.len() as int) =~= base);
}

/// The alt attribute carries the flattened text handed to the renderer and
/// nothing of the title: at the alt position the list holds the same pair
/// for every title.
pub proof fn lemma_alt_independent_of_title(
    base: Seq<(Seq<char>, Seq<char>)>,
    url: Seq<char>,
    t1: Option<Seq<char>>,
    t2: Option<Seq<char>>,
    alt: Seq<char>,
)
    ensures
        img_attrs_before_loading(base, url, t1, alt)[base.len() as int + 1] == ("alt"@, alt),
        img_attrs_before_loading(base, url, t1, alt)[base.len() as int + 1]
            == img_attrs_before_loading(base, url, t2, alt)[base.len() as int + 1],
{
    lemma_attr_positions(base, url, t1, alt);
    lemma_attr_positions(base, url, t2, alt);
}

/// The transformation is a function of the fully-built tree alone: equal
/// trees transform equally, so its result cannot depend on the order in
/// which the host assembled its phases before running the rule.
pub proof fn lemma_transform_determined_by_tree(a: Node, b: Node)
    requires
        a@ == b@,
    ensures
        lazify_node(a@) == lazify_node(b@),
{
}

/// Only image payloads are rewritten: any other payload — a raw text run
/// that merely looks like markup included — comes through the rule
/// unchanged, as do every node's attributes.
pub proof fn lemma_non_image_payload_unchanged(m: NodeModel)
    ensures
        !(m.value is Image) ==> lazify_node(m).value == m.value,
        lazify_node(m).attrs == m.attrs,
{
}

/// Replacement is total and value-level: an image payload becomes a lazy
/// image carrying the same URL and the same title — present or absent —
/// plus the fixed marker, at the same position in the tree.
pub proof fn lemma_image_replaced(m: NodeModel)
    ensures
        m.value matches ValueModel::Image { url, title } ==> lazify_node(m).value == (
        ValueModel::LazyImage { url, title, loading: "lazy"@ }),
{
}

/// No payload anywhere in the tree is a lazy image; the host parser only
/// produces such trees, since lazy images exist only after the rule has run.
pub open spec fn no_lazy_images(m: NodeModel) -> bool
    decreases m,
{
    &&& !(m.value is LazyImage)
    &&& forall|i: int| 0 <= i < m.children.len() ==> no_lazy_images(#[trigger] m.children[i])
}

/// Every lazy image anywhere in the tree carries the fixed marker.
pub open spec fn marker_ok(m: NodeModel) -> bool
    decreases m,
{
    &&& (m.value matches ValueModel::LazyImage { loading, .. } ==> loading == "lazy"@)
    &&& forall|i: int| 0 <= i < m.children.len() ==> marker_ok(#[trigger] m.children[i])
}

/// On any tree the parser can hand the rule, the transformation establishes
/// the marker invariant: every lazy image of the result says `lazy`.
pub proof fn lemma_rule_establishes_marker(m: NodeModel)
    requires
        no_lazy_images(m),
    ensures
        marker_ok(lazify_node(m)),
    decreases m,
{
    let r = lazify_node(m);
    lemma_lazify_nodes_all(m.children);
    assert forall|i: int| 0 <= i < r.children.len() implies marker_ok(
        #[trigger] r.children[i],
    ) by {
        assert(r.children[i] == lazify_node(m.children[i]));
        assert(no_lazy_images(m.children[i]));
        lemma_rule_establishes_marker(m.children[i]);
    }
}

/// Transforming an already transformed tree changes nothing: no payload of
/// the result is an image, so a second pass finds nothing to rewrite.
pub proof fn lemma_transform_idempotent(m: NodeModel)
    ensures
        lazify_node(lazify_node(m)) == lazify_node(m),
    decreases m,
{
    let once = lazify_node(m);
    lemma_lazify_nodes_all(m.children);
    lemma_lazify_nodes_all(once.children);
    assert forall|j: int| 0 <= j < m.children.len() implies lazify_nodes(once.children, 0)[j]
        == lazify_nodes(m.children, 0)[j] by {
        lemma_transform_idempotent(m.children[j]);
    }
    assert(lazify_node(once).children =~= once.children);
    assert(lazify_node(once) == once);
}

} // verus!
