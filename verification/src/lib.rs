//! A post-parse transformation for a markdown document tree: every image
//! node is replaced by a lazy-loading variant, and that variant renders as a
//! self-closing `img` element whose attribute list appends `src`, `alt`, an
//! optional `title`, and — when the URL is not blank — `loading="lazy"`.

pub mod laws;
pub mod render;
pub mod rule;
pub mod tree;

pub use render::collect_text;
pub use render::render_lazy_node_attrs;
pub use render::url_is_blank;
pub use rule::apply_rule;
pub use rule::lazify_tree;
pub use tree::ImageValue;
pub use tree::LazyLoadImage;
pub use tree::Node;
pub use tree::NodeValue;
