//! The two text filters a theme can apply: markdown to HTML, and markdown to
//! plain text.
//!
//! The plain-text filter parses the markdown into a syntax tree and walks it
//! depth first, so its per-node rules are stated and proved over the tree
//! type [`MdNode`]; only the parse itself is taken on trust.

use vstd::prelude::*;
use vstd::string::StringExecFns;

use markdown::mdast::Node;

verus! {

/// A markdown syntax tree, holding exactly what the plain-text walk reads of
/// each node: its children, its literal text, or an image's alt text.
/// Node kinds that contribute nothing to the plain text (tables, thematic
/// breaks, definitions, references, raw HTML, block math, strikethrough,
/// front matter, and embedded-markup extensions) collapse into `Skipped`.
pub enum MdNode {
    Root(Vec<MdNode>),
    Blockquote(Vec<MdNode>),
    List(Vec<MdNode>),
    ListItem(Vec<MdNode>),
    Emphasis(Vec<MdNode>),
    Strong(Vec<MdNode>),
    Link(Vec<MdNode>),
    Heading(Vec<MdNode>),
    Paragraph(Vec<MdNode>),
    Break,
    Text(String),
    InlineCode(String),
    InlineMath(String),
    Code(String),
    Image(String),
    ImageReference(String),
    Skipped,
}

/// The plain text a node contributes: transparent containers recurse;
/// headings and paragraphs recurse and then append a blank line; a break is
/// one newline; literal nodes contribute their text verbatim; images their
/// alt text; everything else nothing.
pub open spec fn plaintext_of(n: MdNode) -> Seq<char>
    decreases n,
{
    match n {
        MdNode::Root(cs) => plaintext_of_children(cs@),
        MdNode::Blockquote(cs) => plaintext_of_children(cs@),
        MdNode::List(cs) => plaintext_of_children(cs@),
        MdNode::ListItem(cs) => plaintext_of_children(cs@),
        MdNode::Emphasis(cs) => plaintext_of_children(cs@),
        MdNode::Strong(cs) => plaintext_of_children(cs@),
        MdNode::Link(cs) => plaintext_of_children(cs@),
        MdNode::Heading(cs) => plaintext_of_children(cs@) + seq!['\n', '\n'],
        MdNode::Paragraph(cs) => plaintext_of_children(cs@) + seq!['\n', '\n'],
        MdNode::Break => seq!['\n'],
        MdNode::Text(s) => s@,
        MdNode::InlineCode(s) => s@,
        MdNode::InlineMath(s) => s@,
        MdNode::Code(s) => s@,
        MdNode::Image(alt) => alt@,
        MdNode::ImageReference(alt) => alt@,
        MdNode::Skipped => Seq::empty(),
    }
}

/// The concatenation of the plain text of a list of sibling nodes, in order.
pub open spec fn plaintext_of_children(cs: Seq<MdNode>) -> Seq<char>
    decreases cs,
{
    if cs.len() == 0 {
        Seq::empty()
    } else {
        plaintext_of_children(cs.drop_last()) + plaintext_of(cs.last())
    }
}

/// Appends the plain text of `node` to `out`, depth first.
pub fn accumulate_plaintext(out: &mut String, node: &MdNode)
    ensures
        final(out)@ == old(out)@ + plaintext_of(*node),
    decreases *node,
{
    match node {
        MdNode::Root(cs) => accumulate_children(out, cs),
        MdNode::Blockquote(cs) => accumulate_children(out, cs),
        MdNode::List(cs) => accumulate_children(out, cs),
        MdNode::ListItem(cs) => accumulate_children(out, cs),
        MdNode::Emphasis(cs) => accumulate_children(out, cs),
        MdNode::Strong(cs) => accumulate_children(out, cs),
        MdNode::Link(cs) => accumulate_children(out, cs),
        MdNode::Heading(cs) => {
            accumulate_children(out, cs);
            out.append("\n\n");
            proof {
                reveal_strlit("\n\n");
                assert(out@ =~= old(out)@ + plaintext_of(*node));
            }
        },
        MdNode::Paragraph(cs) => {
            accumulate_children(out, cs);
            out.append("\n\n");
            proof {
                reveal_strlit("\n\n");
                assert(out@ =~= old(out)@ + plaintext_of(*node));
            }
        },
        MdNode::Break => {
            out.append("\n");
            proof {
                reveal_strlit("\n");
                assert(out@ =~= old(out)@ + plaintext_of(*node));
            }
        },
        MdNode::Text(s) => out.append(s.as_str()),
        MdNode::InlineCode(s) => out.append(s.as_str()),
        MdNode::InlineMath(s) => out.append(s.as_str()),
        MdNode::Code(s) => out.append(s.as_str()),
        MdNode::Image(alt) => out.append(alt.as_str()),
        MdNode::ImageReference(alt) => out.append(alt.as_str()),
        MdNode::Skipped => {
            proof {
                assert(out@ =~= old(out)@ + plaintext_of(*node));
            }
        },
    }
}

/// Appends the plain text of each child of a node, in order.
fn accumulate_children(out: &mut String, cs: &Vec<MdNode>)
    ensures
        final(out)@ == old(out)@ + plaintext_of_children(cs@),
    decreases cs@,
{
    let ghost base = out@;
    let mut i: usize = 0;
    while i < cs.len()
        invariant
            i <= cs.len(),
            out@ == base + plaintext_of_children(cs@.subrange(0, i as int)),
        decreases cs.len() - i,
    {
        accumulate_plaintext(out, &cs[i]);
        proof {
            let pre = cs@.subrange(0, i as int);
            let post = cs@.subrange(0, (i + 1) as int);
            assert(post.drop_last() =~= pre);
            assert(post.last() == cs@[i as int]);
        }
        i = i + 1;
    }
    proof {
        assert(cs@.subrange(0, cs@.len() as int) =~= cs@);
    }
}

/// The syntax tree that parsing a markdown text under GFM rules yields.
pub uninterp spec fn md_ast_of(s: Seq<char>) -> MdNode;

/// The HTML that a markdown text renders to under GFM rules.
pub uninterp spec fn gfm_html_of(s: Seq<char>) -> Seq<char>;

#[verifier::external_type_specification]
#[verifier::external_body]
pub struct ExMdastNode(markdown::mdast::Node);

/// Relies on `markdown::to_mdast` under GFM parse options: the tree is a
/// function of the input text alone, and parsing cannot fail, since only MDX
/// constructs (which GFM options leave off) have syntax errors.
#[verifier::external_body]
fn parse_markdown(m: &str) -> (r: MdNode)
    ensures
        r == md_ast_of(m@),
{
    match markdown::to_mdast(m, &markdown::ParseOptions::gfm()) {
        Ok(node) => convert_block(node),
        Err(_) => MdNode::Skipped,
    }
}

/// Carries the children of a node of `markdown::mdast` into the library's
/// tree type, for `parse_markdown` alone.
#[verifier::external_body]
fn convert_children(ns: Vec<Node>) -> (r: Vec<MdNode>)
{
    ns.into_iter().map(convert_block).collect()
}

/// Carries a block-level node of `markdown::mdast` into the library's tree
/// type, for `parse_markdown` alone; inline nodes go on to `convert_inline`.
#[verifier::external_body]
fn convert_block(n: Node) -> (r: MdNode)
{
    match n {
        Node::Root(x) => MdNode::Root(convert_children(x.children)),
        Node::Blockquote(x) => MdNode::Blockquote(convert_children(x.children)),
        Node::List(x) => MdNode::List(convert_children(x.children)),
        Node::ListItem(x) => MdNode::ListItem(convert_children(x.children)),
        Node::Heading(x) => MdNode::Heading(convert_children(x.children)),
        Node::Paragraph(x) => MdNode::Paragraph(convert_children(x.children)),
        other => convert_inline(other),
    }
}

/// Carries an inline node of `markdown::mdast` into the library's tree type,
/// for `convert_block` alone; kinds that contribute no plain text collapse
/// into `MdNode::Skipped`.
#[verifier::external_body]
fn convert_inline(n: Node) -> (r: MdNode)
{
    match n {
        Node::Emphasis(x) => MdNode::Emphasis(convert_children(x.children)),
        Node::Strong(x) => MdNode::Strong(convert_children(x.children)),
        Node::Link(x) => MdNode::Link(convert_children(x.children)),
        Node::Break(_) => MdNode::Break,
        Node::Text(x) => MdNode::Text(x.value),
        Node::InlineCode(x) => MdNode::InlineCode(x.value),
        Node::InlineMath(x) => MdNode::InlineMath(x.value),
        Node::Code(x) => MdNode::Code(x.value),
        Node::Image(x) => MdNode::Image(x.alt),
        Node::ImageReference(x) => MdNode::ImageReference(x.alt),
        _ => MdNode::Skipped,
    }
}

/// Relies on `markdown::to_html_with_options` under GFM options: the HTML is
/// a function of the input text alone, and rendering cannot fail, since only
/// MDX constructs (which GFM options leave off) have syntax errors.
#[verifier::external_body]
fn gfm_to_html(m: &str) -> (r: String)
    ensures
        r@ == gfm_html_of(m@),
{
    match markdown::to_html_with_options(m, &markdown::Options::gfm()) {
        Ok(html) => html,
        Err(_) => String::new(),
    }
}

/// The markdown-to-HTML filter: renders `m` as HTML under GFM rules.
pub fn render_markdown(m: &str) -> (r: String)
    ensures
        r@ == gfm_html_of(m@),
{
    gfm_to_html(m)
}

/// The markdown-to-plaintext filter: parses `m` under GFM rules and walks the
/// tree depth first under the per-node rules of `plaintext_of`.
pub fn render_markdown_text(m: &str) -> (r: String)
    ensures
        r@ == plaintext_of(md_ast_of(m@)),
{
    let ast = parse_markdown(m);
    let mut out = String::new();
    accumulate_plaintext(&mut out, &ast);
    proof {
        assert(out@ =~= plaintext_of(md_ast_of(m@)));
    }
    out
}

} // verus!
