use theme_render::filters::accumulate_plaintext;
use theme_render::filters::render_markdown;
use theme_render::filters::render_markdown_text;
use theme_render::filters::MdNode;

#[test]
fn gfm_bold_to_html() {
    let html = render_markdown("**bold**");
    assert!(html.contains("<strong>bold</strong>"));
    assert_eq!(html, "<p><strong>bold</strong></p>");
}

#[test]
fn gfm_strikethrough_to_html() {
    assert_eq!(render_markdown("~~x~~"), "<p><del>x</del></p>");
}

#[test]
fn heading_then_paragraph_plaintext() {
    assert_eq!(render_markdown_text("# Title\n\nBody"), "Title\n\nBody\n\n");
}

#[test]
fn plaintext_strips_markup() {
    assert_eq!(render_markdown_text("**bold** *it*"), "bold it\n\n");
}

#[test]
fn plaintext_inline_code_verbatim() {
    assert_eq!(render_markdown_text("`x + y`"), "x + y\n\n");
}

#[test]
fn plaintext_strikethrough_contributes_nothing() {
    assert_eq!(render_markdown_text("~~gone~~kept"), "kept\n\n");
}

#[test]
fn plaintext_image_alt_text() {
    assert_eq!(render_markdown_text("![the alt](https://example.com/i.png)"), "the alt\n\n");
}

#[test]
fn plaintext_thematic_break_contributes_nothing() {
    assert_eq!(render_markdown_text("a\n\n---\n\nb"), "a\n\nb\n\n");
}

#[test]
fn walk_per_node_rules() {
    let tree = MdNode::Root(vec![
        MdNode::Heading(vec![MdNode::Text("T".to_string())]),
        MdNode::Paragraph(vec![
            MdNode::Emphasis(vec![MdNode::Text("a".to_string())]),
            MdNode::Break,
            MdNode::Strong(vec![MdNode::Text("b".to_string())]),
        ]),
        MdNode::Image("alt".to_string()),
        MdNode::Skipped,
        MdNode::Code("code".to_string()),
    ]);
    let mut out = String::new();
    accumulate_plaintext(&mut out, &tree);
    assert_eq!(out, "T\n\na\nb\n\naltcode");
}

#[test]
fn walk_nested_containers() {
    let tree = MdNode::Blockquote(vec![MdNode::List(vec![
        MdNode::ListItem(vec![MdNode::Link(vec![MdNode::InlineCode("x".to_string())])]),
        MdNode::ListItem(vec![MdNode::ImageReference("y".to_string())]),
    ])]);
    let mut out = String::new();
    accumulate_plaintext(&mut out, &tree);
    assert_eq!(out, "xy");
}
