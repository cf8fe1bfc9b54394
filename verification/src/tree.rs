//! The document tree the transformation works on: a node holds a typed
//! payload, an ordered attribute list, and an ordered child list. The ghost
//! model mirrors the tree with sequences of characters, and every contract in
//! this crate speaks over that model.

use vstd::prelude::*;

verus! {

/// Parsed markdown image reference: a URL and an optional title, as the host
/// parser produces them.
#[derive(Debug)]
pub struct ImageValue {
    pub url: String,
    pub title: Option<String>,
}

/// The augmented payload installed in place of an image: the original image
/// data plus the fixed loading marker.
#[derive(Debug)]
pub struct LazyLoadImage {
    pub image: ImageValue,
    pub loading: String,
}

/// The closed set of payload kinds the transformation distinguishes. Anything
/// that is neither an image, a lazy image, nor a text run is `Other`: the
/// transformation leaves it untouched and only walks its children.
#[derive(Debug)]
pub enum NodeValue {
    Image(ImageValue),
    LazyImage(LazyLoadImage),
    Text(String),
    Other,
}

/// A document tree element.
#[derive(Debug)]
pub struct Node {
    pub value: NodeValue,
    pub attrs: Vec<(String, String)>,
    pub children: Vec<Node>,
}

/// Mathematical image of a payload.
pub ghost enum ValueModel {
    Image { url: Seq<char>, title: Option<Seq<char>> },
    LazyImage { url: Seq<char>, title: Option<Seq<char>>, loading: Seq<char> },
    Text { text: Seq<char> },
    Other,
}

/// Mathematical image of a node.
pub ghost struct NodeModel {
    pub value: ValueModel,
    pub attrs: Seq<(Seq<char>, Seq<char>)>,
    pub children: Seq<NodeModel>,
}

pub open spec fn opt_view(o: Option<String>) -> Option<Seq<char>> {
    match o {
        Option::Some(s) => Option::Some(s@),
        Option::None => Option::None,
    }
}

pub open spec fn attrs_model(a: Seq<(String, String)>) -> Seq<(Seq<char>, Seq<char>)> {
    a.map_values(|p: (String, String)| (p.0@, p.1@))
}

impl View for NodeValue {
    type V = ValueModel;

    open spec fn view(&self) -> ValueModel {
        match self {
            NodeValue::Image(img) => ValueModel::Image {
                url: img.url@,
                title: opt_view(img.title),
            },
            NodeValue::LazyImage(li) => ValueModel::LazyImage {
                url: li.image.url@,
                title: opt_view(li.image.title),
                loading: li.loading@,
            },
            NodeValue::Text(s) => ValueModel::Text { text: s@ },
            NodeValue::Other => ValueModel::Other,
        }
    }
}

pub open spec fn node_model(n: Node) -> NodeModel
    decreases n,
{
    NodeModel {
        value: n.value@,
        attrs: attrs_model(n.attrs@),
        children: children_model(n.children@, 0),
    }
}

pub open spec fn children_model(s: Seq<Node>, i: int) -> Seq<NodeModel>
    decreases s, s.len() - i,
{
    if i < 0 || i >= s.len() {
        Seq::empty()
    } else {
        seq![node_model(s[i])] + children_model(s, i + 1)
    }
}

impl View for Node {
    type V = NodeModel;

    open spec fn view(&self) -> NodeModel {
        node_model(*self)
    }
}

/// The children of the model are the models of the children, index by index.
pub proof fn lemma_children_model(s: Seq<Node>, i: int)
    requires
        0 <= i <= s.len(),
    ensures
        children_model(s, i).len() == s.len() - i,
        forall|j: int| i <= j < s.len() ==> children_model(s, i)[j - i] == node_model(s[j]),
    decreases s.len() - i,
{
    if i < s.len() {
        lemma_children_model(s, i + 1);
    }
}

/// `lemma_children_model` at the start of the list, with the index written
/// directly.
pub proof fn lemma_children_model_all(s: Seq<Node>)
    ensures
        children_model(s, 0).len() == s.len(),
        forall|j: int| 0 <= j < s.len() ==> children_model(s, 0)[j] == node_model(s[j]),
{
    lemma_children_model(s, 0);
    assert forall|j: int| 0 <= j < s.len() implies children_model(s, 0)[j] == node_model(
        s[j],
    ) by {
        assert(children_model(s, 0)[j - 0] == node_model(s[j]));
    }
}

impl LazyLoadImage {
    /// Wrap image data with the fixed loading marker.
    pub fn new(image: ImageValue) -> (r: LazyLoadImage)
        ensures
            r.image == image,
            r.loading@ == "lazy"@,
    {
        LazyLoadImage { image, loading: "lazy".to_string() }
    }
}

} // verus!
