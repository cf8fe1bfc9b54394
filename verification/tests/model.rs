// Tests of the verified document-tree model: the traversal, the flattened
// text, and the attribute policy of the renderer.

use markdown_it_lazyload::apply_rule;
use markdown_it_lazyload::collect_text;
use markdown_it_lazyload::lazify_tree;
use markdown_it_lazyload::render_lazy_node_attrs;
use markdown_it_lazyload::url_is_blank;
use markdown_it_lazyload::ImageValue;
use markdown_it_lazyload::LazyLoadImage;
use markdown_it_lazyload::Node;
use markdown_it_lazyload::NodeValue;

fn leaf(value: NodeValue) -> Node {
    Node { value, attrs: Vec::new(), children: Vec::new() }
}

fn image_node(url: &str, title: Option<&str>, children: Vec<Node>) -> Node {
    Node {
        value: NodeValue::Image(ImageValue {
            url: url.to_string(),
            title: title.map(|t| t.to_string()),
        }),
        attrs: Vec::new(),
        children,
    }
}

fn pairs(attrs: &[(String, String)]) -> Vec<(&str, &str)> {
    attrs.iter().map(|p| (p.0.as_str(), p.1.as_str())).collect()
}

#[test]
fn model_image_becomes_lazy() {
    let root = image_node("https://example.com/a.png", Some("t"), Vec::new());
    let out = lazify_tree(&root);
    match out.value {
        NodeValue::LazyImage(LazyLoadImage { image, loading }) => {
            assert_eq!(image.url, "https://example.com/a.png");
            assert_eq!(image.title.as_deref(), Some("t"));
            assert_eq!(loading, "lazy");
        }
        _ => panic!("image payload was not replaced"),
    }
    assert!(out.attrs.is_empty());
    assert!(out.children.is_empty());
}

#[test]
fn model_non_image_payloads_untouched() {
    let raw = "<img src=\"raw.rust.png\" alt=\"Raw\">";
    let root = Node {
        value: NodeValue::Other,
        attrs: Vec::new(),
        children: vec![
            leaf(NodeValue::Text(raw.to_string())),
            leaf(NodeValue::Other),
        ],
    };
    let out = lazify_tree(&root);
    assert!(matches!(out.value, NodeValue::Other));
    assert_eq!(out.children.len(), 2);
    match &out.children[0].value {
        NodeValue::Text(s) => assert_eq!(s, raw),
        _ => panic!("text payload changed kind"),
    }
    assert!(matches!(out.children[1].value, NodeValue::Other));
}

#[test]
fn model_children_order_kept() {
    let root = Node {
        value: NodeValue::Other,
        attrs: Vec::new(),
        children: vec![
            leaf(NodeValue::Text("one".to_string())),
            image_node("a.png", None, Vec::new()),
            leaf(NodeValue::Text("two".to_string())),
            Node {
                value: NodeValue::Other,
                attrs: Vec::new(),
                children: vec![image_node("b.png", None, Vec::new())],
            },
        ],
    };
    let out = lazify_tree(&root);
    assert_eq!(out.children.len(), 4);
    assert!(matches!(&out.children[0].value, NodeValue::Text(s) if s == "one"));
    assert!(
        matches!(&out.children[1].value, NodeValue::LazyImage(li) if li.image.url == "a.png")
    );
    assert!(matches!(&out.children[2].value, NodeValue::Text(s) if s == "two"));
    assert!(
        matches!(&out.children[3].children[0].value,
            NodeValue::LazyImage(li) if li.image.url == "b.png")
    );
}

#[test]
fn model_apply_rule_in_place() {
    let mut root = image_node("a.png", None, Vec::new());
    apply_rule(&mut root);
    assert!(matches!(&root.value, NodeValue::LazyImage(li) if li.loading == "lazy"));
}

#[test]
fn model_transform_twice_same() {
    let root = Node {
        value: NodeValue::Other,
        attrs: Vec::new(),
        children: vec![image_node("a.png", Some("t"), Vec::new())],
    };
    let once = lazify_tree(&root);
    let twice = lazify_tree(&once);
    let a = render_lazy_node_attrs(&once.children[0]);
    let b = render_lazy_node_attrs(&twice.children[0]);
    assert_eq!(a, b);
}

#[test]
fn render_nonblank_url_appends_loading() {
    let root = lazify_tree(&image_node(
        "https://example.com/example.png",
        None,
        vec![leaf(NodeValue::Text("Rust".to_string()))],
    ));
    let attrs = render_lazy_node_attrs(&root);
    assert_eq!(
        pairs(&attrs),
        vec![
            ("src", "https://example.com/example.png"),
            ("alt", "Rust"),
            ("loading", "lazy"),
        ]
    );
}

#[test]
fn render_blank_url_omits_loading() {
    let empty = lazify_tree(&image_node("", None, Vec::new()));
    assert_eq!(pairs(&render_lazy_node_attrs(&empty)), vec![("src", ""), ("alt", "")]);

    let spaces = lazify_tree(&image_node(" \t\n ", None, Vec::new()));
    assert_eq!(
        pairs(&render_lazy_node_attrs(&spaces)),
        vec![("src", " \t\n "), ("alt", "")]
    );
}

#[test]
fn render_title_presence_not_emptiness() {
    let with_empty_title = lazify_tree(&image_node("a.png", Some(""), Vec::new()));
    assert_eq!(
        pairs(&render_lazy_node_attrs(&with_empty_title)),
        vec![("src", "a.png"), ("alt", ""), ("title", ""), ("loading", "lazy")]
    );

    let without_title = lazify_tree(&image_node("a.png", None, Vec::new()));
    assert_eq!(
        pairs(&render_lazy_node_attrs(&without_title)),
        vec![("src", "a.png"), ("alt", ""), ("loading", "lazy")]
    );
}

#[test]
fn render_alt_from_flattened_children() {
    let children = vec![
        leaf(NodeValue::Text("Ru".to_string())),
        Node {
            value: NodeValue::Other,
            attrs: Vec::new(),
            children: vec![leaf(NodeValue::Text("st".to_string()))],
        },
    ];
    let root = lazify_tree(&image_node("a.png", Some("the_title"), children));
    let attrs = render_lazy_node_attrs(&root);
    assert_eq!(
        pairs(&attrs),
        vec![
            ("src", "a.png"),
            ("alt", "Rust"),
            ("title", "the_title"),
            ("loading", "lazy"),
        ]
    );
}

#[test]
fn render_keeps_base_attrs_first() {
    let mut root = lazify_tree(&image_node("a.png", None, Vec::new()));
    root.attrs.push(("class".to_string(), "hero".to_string()));
    assert_eq!(
        pairs(&render_lazy_node_attrs(&root)),
        vec![("class", "hero"), ("src", "a.png"), ("alt", ""), ("loading", "lazy")]
    );
}

#[test]
fn collect_text_flattens_depth_first() {
    let tree = Node {
        value: NodeValue::Text("a".to_string()),
        attrs: Vec::new(),
        children: vec![
            Node {
                value: NodeValue::Other,
                attrs: Vec::new(),
                children: vec![leaf(NodeValue::Text("b".to_string()))],
            },
            leaf(NodeValue::Text("c".to_string())),
        ],
    };
    assert_eq!(collect_text(&tree), "abc");
}

#[test]
fn url_is_blank_cases() {
    assert!(url_is_blank(""));
    assert!(url_is_blank(" \t\r\n"));
    assert!(!url_is_blank(" a "));
    assert!(!url_is_blank("./x.png"));
}
