//! The lazy-load rule: a single traversal over the fully-built tree that
//! replaces every image payload with its augmented variant and changes
//! nothing else — neither attributes, nor children, nor their order.

use vstd::prelude::*;

use crate::tree::ImageValue;
use crate::tree::LazyLoadImage;
use crate::tree::Node;
use crate::tree::NodeModel;
use crate::tree::NodeValue;
use crate::tree::ValueModel;
use crate::tree::attrs_model;
use crate::tree::children_model;
use crate::tree::lemma_children_model_all;
use crate::tree::node_model;
use crate::tree::opt_view;

verus! {

/// What the rule does to one payload: an image becomes a lazy image with the
/// same URL and title and the fixed loading marker; every other payload is
/// kept as it is.
pub open spec fn lazify_value(v: ValueModel) -> ValueModel {
    match v {
        ValueModel::Image { url, title } => ValueModel::LazyImage {
            url,
            title,
            loading: "lazy"@,
        },
        _ => v,
    }
}

/// What the rule does to a whole tree: the payload of every node is rewritten
/// by `lazify_value`; attributes, children, and their order are kept.
pub open spec fn lazify_node(m: NodeModel) -> NodeModel
    decreases m,
{
    NodeModel {
        value: lazify_value(m.value),
        attrs: m.attrs,
        children: lazify_nodes(m.children, 0),
    }
}

pub open spec fn lazify_nodes(s: Seq<NodeModel>, i: int) -> Seq<NodeModel>
    decreases s, s.len() - i,
{
    if i < 0 || i >= s.len() {
        Seq::empty()
    } else {
        seq![lazify_node(s[i])] + lazify_nodes(s, i + 1)
    }
}

/// The transformed children are the transformed nodes, index by index.
pub proof fn lemma_lazify_nodes(s: Seq<NodeModel>, i: int)
    requires
        0 <= i <= s.len(),
    ensures
        lazify_nodes(s, i).len() == s.len() - i,
        forall|j: int| i <= j < s.len() ==> lazify_nodes(s, i)[j - i] == lazify_node(s[j]),
    decreases s.len() - i,
{
    if i < s.len() {
        lemma_lazify_nodes(s, i + 1);
    }
}

/// `lemma_lazify_nodes` at the start of the list, with the index written
/// directly.
pub proof fn lemma_lazify_nodes_all(s: Seq<NodeModel>)
    ensures
        lazify_nodes(s, 0).len() == s.len(),
        forall|j: int| 0 <= j < s.len() ==> lazify_nodes(s, 0)[j] == lazify_node(s[j]),
{
    lemma_lazify_nodes(s, 0);
    assert forall|j: int| 0 <= j < s.len() implies lazify_nodes(s, 0)[j] == lazify_node(
        s[j],
    ) by {
        assert(lazify_nodes(s, 0)[j - 0] == lazify_node(s[j]));
    }
}

fn clone_opt_string(o: &Option<String>) -> (r: Option<String>)
    ensures
        opt_view(r) == opt_view(*o),
{
    match o {
        Option::Some(s) => Option::Some(s.clone()),
        Option::None => Option::None,
    }
}

impl NodeValue {
    /// A copy of the payload whose model is the same.
    pub fn duplicate(&self) -> (r: NodeValue)
        ensures
            r@ == self@,
    {
        match self {
            NodeValue::Image(img) => NodeValue::Image(
                ImageValue { url: img.url.clone(), title: clone_opt_string(&img.title) },
            ),
            NodeValue::LazyImage(li) => NodeValue::LazyImage(
                LazyLoadImage {
                    image: ImageValue {
                        url: li.image.url.clone(),
                        title: clone_opt_string(&li.image.title),
                    },
                    loading: li.loading.clone(),
                },
            ),
            NodeValue::Text(s) => NodeValue::Text(s.clone()),
            NodeValue::Other => NodeValue::Other,
        }
    }
}

/// The traversal, written as a transformation that returns an owned
/// replacement tree: the payload of every node — the visited one and all of
/// its descendants — is rewritten, while attributes, children, and their
/// order are reproduced unchanged.
pub fn lazify_tree(node: &Node) -> (r: Node)
    ensures
        r@ == lazify_node(node@),
    decreases node,
{
    let new_value = match &node.value {
        NodeValue::Image(img) => NodeValue::LazyImage(
            LazyLoadImage::new(
                ImageValue { url: img.url.clone(), title: clone_opt_string(&img.title) },
            ),
        ),
        other => other.duplicate(),
    };
    let mut new_attrs: Vec<(String, String)> = Vec::new();
    let mut i: usize = 0;
    while i < node.attrs.len()
        invariant
            i <= node.attrs@.len(),
            new_attrs@.len() == i,
            forall|j: int|
                0 <= j < i ==> new_attrs@[j].0@ == node.attrs@[j].0@ && new_attrs@[j].1@
                    == node.attrs@[j].1@,
        decreases node.attrs@.len() - i,
    {
        let p = &node.attrs[i];
        new_attrs.push((p.0.clone(), p.1.clone()));
        i = i + 1;
    }
    let mut new_children: Vec<Node> = Vec::new();
    let mut i: usize = 0;
    while i < node.children.len()
        invariant
            i <= node.children@.len(),
            new_children@.len() == i,
            forall|j: int|
                0 <= j < i ==> new_children@[j]@ == lazify_node(node_model(node.children@[j])),
        decreases node.children@.len() - i,
    {
        let c = lazify_tree(&node.children[i]);
        new_children.push(c);
        i = i + 1;
    }
    let r = Node { value: new_value, attrs: new_attrs, children: new_children };
    proof {
        lemma_children_model_all(node.children@);
        lemma_children_model_all(r.children@);
        lemma_lazify_nodes_all(node@.children);
        assert(attrs_model(r.attrs@) =~= attrs_model(node.attrs@));
        assert forall|j: int| 0 <= j < r.children@.len() implies children_model(r.children@, 0)[j]
            == lazify_nodes(node@.children, 0)[j] by {
            assert(children_model(r.children@, 0)[j] == node_model(r.children@[j]));
            assert(r.children@[j]@ == lazify_node(node_model(node.children@[j])));
            assert(node@.children[j] == node_model(node.children@[j]));
            assert(lazify_nodes(node@.children, 0)[j] == lazify_node(node@.children[j]));
        }
        assert(r@.children =~= lazify_node(node@).children);
        assert(r@ == lazify_node(node@));
    }
    r
}

/// In-place form of the rule: replace the tree behind the reference with its
/// transformed image, leaving node identity and position to the caller.
pub fn apply_rule(root: &mut Node)
    ensures
        final(root)@ == lazify_node(old(root)@),
{
    let new_root = lazify_tree(root);
    *root = new_root;
}

} // verus!
