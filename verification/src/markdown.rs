//! The Markdown transformer: a document's nodes in document order, the
//! rewrites applied to them, the summary and the word count.

use comrak::nodes::NodeValue;
use vstd::prelude::*;
use vstd::string::*;

use crate::text::{
    begins_with, char_len, count_words, prefix, prefix_of, starts_with_char, word_count,
};

verus! {

/// Longest summary, in characters.
pub const SUMMARY_LIMIT: usize = 250;

/// One node of a parsed document, reduced to what the transformer reads and
/// writes.
#[derive(Debug)]
pub enum Node {
    /// A run of text.
    Text(String),
    /// A math span, inline or display, with its source.
    Math { literal: String, display: bool },
    /// A heading of the given level.
    Heading { level: u8 },
    /// An image with its address.
    Image { url: String },
    /// Markup that goes into the output as it is.
    Markup(String),
    /// Any other node.
    Other,
}

/// The mathematical value of a [`Node`].
pub enum NodeView {
    Text(Seq<char>),
    Math { literal: Seq<char>, display: bool },
    Heading { level: u8 },
    Image { url: Seq<char> },
    Markup(Seq<char>),
    Other,
}

impl View for Node {
    type V = NodeView;

    open spec fn view(&self) -> NodeView {
        match self {
            Node::Text(text) => NodeView::Text(text@),
            Node::Math { literal, display } => NodeView::Math {
                literal: literal@,
                display: *display,
            },
            Node::Heading { level } => NodeView::Heading { level: *level },
            Node::Image { url } => NodeView::Image { url: url@ },
            Node::Markup(markup) => NodeView::Markup(markup@),
            Node::Other => NodeView::Other,
        }
    }
}

/// The values of a list of nodes.
pub open spec fn views(nodes: Seq<Node>) -> Seq<NodeView> {
    nodes.map_values(|node: Node| node@)
}

/// What the transformer hands back for one document.
#[derive(Debug)]
pub struct MarkdownData {
    pub html: String,
    pub summary: String,
    pub word_count: u32,
}

/// What a node adds to the visible text: its own text, a math span's source,
/// and a single space for any other node.
pub open spec fn chunk(node: NodeView) -> Seq<char> {
    match node {
        NodeView::Text(text) => text,
        NodeView::Math { literal, .. } => literal,
        _ => seq![' '],
    }
}

/// The visible text of the first `k` nodes, in document order.
pub open spec fn visible_text(nodes: Seq<NodeView>, k: nat) -> Seq<char>
    decreases k,
{
    if k == 0 || k > nodes.len() {
        Seq::empty()
    } else {
        visible_text(nodes, (k - 1) as nat) + chunk(nodes[k - 1])
    }
}

/// A summary takes no more text once it is within one character of the limit.
pub open spec fn summary_full(summary: Seq<char>) -> bool {
    summary.len() >= SUMMARY_LIMIT - 1
}

/// The summary after one more chunk: the chunk is cut where the limit falls.
pub open spec fn pushed(summary: Seq<char>, text: Seq<char>) -> Seq<char> {
    if summary.len() + text.len() >= SUMMARY_LIMIT {
        summary + prefix_of(text, SUMMARY_LIMIT - summary.len())
    } else {
        summary + text
    }
}

/// The summary after the first `k` nodes.
pub open spec fn summary_after(nodes: Seq<NodeView>, k: nat) -> Seq<char>
    decreases k,
{
    if k == 0 || k > nodes.len() {
        Seq::empty()
    } else {
        let before = summary_after(nodes, (k - 1) as nat);
        if summary_full(before) {
            before
        } else {
            pushed(before, chunk(nodes[k - 1]))
        }
    }
}

/// The summary of a document.
pub open spec fn summary_of(nodes: Seq<NodeView>) -> Seq<char> {
    summary_after(nodes, nodes.len())
}

/// A summary never exceeds the limit and is a prefix of the visible text
/// read so far.
pub proof fn lemma_summary_after(nodes: Seq<NodeView>, k: nat)
    requires
        k <= nodes.len(),
    ensures
        summary_after(nodes, k).len() <= SUMMARY_LIMIT,
        summary_after(nodes, k).is_prefix_of(visible_text(nodes, k)),
        !summary_full(summary_after(nodes, k)) ==> summary_after(nodes, k) == visible_text(
            nodes,
            k,
        ),
    decreases k,
{
    if k > 0 {
        lemma_summary_after(nodes, (k - 1) as nat);
        let before = summary_after(nodes, (k - 1) as nat);
        let text = chunk(nodes[k - 1]);
        if !summary_full(before) {
            assert(pushed(before, text).is_prefix_of(before + text));
        }
    }
}

/// Once full, a summary stays as it is.
pub proof fn lemma_summary_settles(nodes: Seq<NodeView>, k: nat, n: nat)
    requires
        k <= n <= nodes.len(),
        summary_full(summary_after(nodes, k)),
    ensures
        summary_after(nodes, n) == summary_after(nodes, k),
    decreases n,
{
    if n > k {
        lemma_summary_settles(nodes, k, (n - 1) as nat);
    }
}

/// The summary is bounded by the limit and is a prefix of the document's
/// visible text; short of the limit by two or more, it is all of that text.
pub proof fn lemma_summary_bounded_prefix(nodes: Seq<NodeView>)
    ensures
        summary_of(nodes).len() <= SUMMARY_LIMIT,
        summary_of(nodes).is_prefix_of(visible_text(nodes, nodes.len())),
        summary_of(nodes).len() < SUMMARY_LIMIT - 1 ==> summary_of(nodes) == visible_text(
            nodes,
            nodes.len(),
        ),
{
    lemma_summary_after(nodes, nodes.len());
}

/// Extends `summary`, of `len` characters, by `text`, cut where the limit
/// falls, and returns the new length.
fn push_text(summary: &mut String, len: usize, text: &str) -> (new_len: usize)
    requires
        old(summary)@.len() == len,
        len < SUMMARY_LIMIT,
    ensures
        final(summary)@ == pushed(old(summary)@, text@),
        new_len == final(summary)@.len(),
        new_len <= SUMMARY_LIMIT,
{
    let room = SUMMARY_LIMIT - len;
    let text_len = char_len(text);
    if text_len >= room {
        let head = prefix(text, room);
        summary.append(head.as_str());
        SUMMARY_LIMIT
    } else {
        summary.append(text);
        len + text_len
    }
}

/// Builds the summary of a document: its visible text in document order, up
/// to the limit.
pub fn summarize(nodes: &Vec<Node>) -> (summary: String)
    ensures
        summary@ == summary_of(views(nodes@)),
        summary@.len() <= SUMMARY_LIMIT,
        summary@.is_prefix_of(visible_text(views(nodes@), nodes@.len())),
{
    let mut summary = String::new();
    let mut len: usize = 0;
    let mut i: usize = 0;
    while i < nodes.len() && len < SUMMARY_LIMIT - 1
        invariant
            i <= nodes.len(),
            len == summary@.len(),
            len <= SUMMARY_LIMIT,
            summary@ == summary_after(views(nodes@), i as nat),
        decreases nodes.len() - i,
    {
        assert(views(nodes@)[i as int] == nodes@[i as int]@);
        len = match &nodes[i] {
            Node::Text(text) => push_text(&mut summary, len, text.as_str()),
            Node::Math { literal, .. } => push_text(&mut summary, len, literal.as_str()),
            _ => {
                proof {
                    reveal_strlit(" ");
                    assert(" "@ =~= seq![' ']);
                }
                push_text(&mut summary, len, " ")
            },
        };
        i = i + 1;
    }
    proof {
        if i < nodes.len() {
            lemma_summary_settles(views(nodes@), i as nat, nodes@.len());
        }
        lemma_summary_bounded_prefix(views(nodes@));
    }
    summary
}

/// Where an image lives once the site is built: an address that starts at
/// the root stays as it is, any other is placed under the blog's directory.
pub open spec fn rooted_under_blog(url: Seq<char>) -> Seq<char> {
    if begins_with(url, '/') {
        url
    } else {
        "/blog/"@ + url
    }
}

/// Places an image's address under the blog's directory.
pub fn rooted_url(url: &str) -> (rooted: String)
    ensures
        rooted@ == rooted_under_blog(url@),
{
    if starts_with_char(url, '/') {
        String::from_str(url)
    } else {
        let mut rooted = String::from_str("/blog/");
        rooted.append(url);
        rooted
    }
}

/// A node after the rewrites: a heading moves one level down, an image is
/// placed under the blog's directory, any other node stays.
pub open spec fn rewritten_node(node: NodeView) -> NodeView {
    match node {
        NodeView::Heading { level } => NodeView::Heading { level: (level + 1) as u8 },
        NodeView::Image { url } => NodeView::Image { url: rooted_under_blog(url) },
        other => other,
    }
}

/// A document after the rewrites.
pub open spec fn rewritten(nodes: Seq<NodeView>) -> Seq<NodeView> {
    nodes.map_values(|node: NodeView| rewritten_node(node))
}

/// The addresses of the first `k` nodes that are images, in document order.
pub open spec fn image_urls(nodes: Seq<NodeView>, k: nat) -> Seq<Seq<char>>
    decreases k,
{
    if k == 0 || k > nodes.len() {
        Seq::empty()
    } else {
        let before = image_urls(nodes, (k - 1) as nat);
        match nodes[k - 1] {
            NodeView::Image { url } => before.push(url),
            _ => before,
        }
    }
}

/// Number of images among the first `k` nodes.
pub open spec fn image_count(nodes: Seq<NodeView>, k: nat) -> nat
    decreases k,
{
    if k == 0 || k > nodes.len() {
        0
    } else {
        image_count(nodes, (k - 1) as nat) + if nodes[k - 1] is Image {
            1nat
        } else {
            0nat
        }
    }
}

/// A document with N images has N image addresses.
pub proof fn lemma_one_url_per_image(nodes: Seq<NodeView>, k: nat)
    requires
        k <= nodes.len(),
    ensures
        image_urls(nodes, k).len() == image_count(nodes, k),
    decreases k,
{
    if k > 0 {
        lemma_one_url_per_image(nodes, (k - 1) as nat);
    }
}

/// After the rewrites every heading stands one level below its level in the
/// source, and every other node but an image is as it was.
pub proof fn lemma_headings_one_level_down(nodes: Seq<NodeView>)
    requires
        headings_can_shift(nodes),
    ensures
        rewritten(nodes).len() == nodes.len(),
        forall|i: int|
            0 <= i < nodes.len() ==> (#[trigger] nodes[i] matches NodeView::Heading { level }
                ==> rewritten(nodes)[i] matches NodeView::Heading { level: shifted } && shifted
                == level + 1),
        forall|i: int|
            0 <= i < nodes.len() && !(#[trigger] nodes[i] is Heading) && !(nodes[i] is Image)
                ==> rewritten(nodes)[i] == nodes[i],
{
}

/// A document with N images adds N addresses to the collector, and after
/// the rewrites each image's address is the source's address placed under
/// the blog's directory: `/blog/` and the address, unless the address
/// starts at the root already.
pub proof fn lemma_images_recorded_and_rooted(nodes: Seq<NodeView>)
    ensures
        image_urls(nodes, nodes.len()).len() == image_count(nodes, nodes.len()),
        forall|i: int|
            0 <= i < nodes.len() ==> (#[trigger] nodes[i] matches NodeView::Image { url }
                ==> rewritten(nodes)[i] == NodeView::Image { url: rooted_under_blog(url) }),
        forall|url: Seq<char>|
            !begins_with(url, '/') ==> #[trigger] rooted_under_blog(url) == "/blog/"@ + url,
{
    lemma_one_url_per_image(nodes, nodes.len());
}

/// Whether every heading can move one level down.
pub open spec fn headings_can_shift(nodes: Seq<NodeView>) -> bool {
    forall|i: int|
        0 <= i < nodes.len() ==> (#[trigger] nodes[i] matches NodeView::Heading { level }
            ==> level < u8::MAX)
}

/// The texts of a list of strings.
pub open spec fn texts(strings: Seq<String>) -> Seq<Seq<char>> {
    strings.map_values(|s: String| s@)
}

/// Applies the rewrites to a document: every heading moves one level down,
/// and every image's address is recorded in `referenced_links` as written in
/// the source and then placed under the blog's directory.
pub fn rewrite(nodes: Vec<Node>, referenced_links: &mut Vec<String>) -> (out: Vec<Node>)
    requires
        headings_can_shift(views(nodes@)),
    ensures
        views(out@) == rewritten(views(nodes@)),
        texts(final(referenced_links)@) == texts(old(referenced_links)@) + image_urls(
            views(nodes@),
            nodes@.len(),
        ),
        final(referenced_links)@.len() == old(referenced_links)@.len() + image_count(
            views(nodes@),
            nodes@.len(),
        ),
{
    let ghost source = views(nodes@);
    let ghost before = texts(referenced_links@);
    let mut out: Vec<Node> = Vec::new();
    let mut i: usize = 0;
    while i < nodes.len()
        invariant
            i <= nodes.len(),
            source == views(nodes@),
            headings_can_shift(source),
            out@.len() == i,
            forall|j: int| 0 <= j < i ==> (#[trigger] out@[j])@ == rewritten_node(source[j]),
            texts(referenced_links@) == before + image_urls(source, i as nat),
        decreases nodes.len() - i,
    {
        assert(source[i as int] == nodes@[i as int]@);
        let ghost links_before = referenced_links@;
        let node = match &nodes[i] {
            Node::Heading { level } => Node::Heading { level: *level + 1 },
            Node::Image { url } => {
                referenced_links.push(url.clone());
                proof {
                    assert(texts(referenced_links@) =~= texts(links_before).push(url@));
                }
                Node::Image { url: rooted_url(url.as_str()) }
            },
            Node::Text(text) => Node::Text(text.clone()),
            Node::Math { literal, display } => Node::Math {
                literal: literal.clone(),
                display: *display,
            },
            Node::Markup(markup) => Node::Markup(markup.clone()),
            Node::Other => Node::Other,
        };
        out.push(node);
        i = i + 1;
    }
    proof {
        assert(views(out@) =~= rewritten(source));
        lemma_one_url_per_image(source, nodes@.len());
        assert(texts(referenced_links@).len() == referenced_links@.len());
        assert(before.len() == old(referenced_links)@.len());
    }
    out
}

/// Words in the text-bearing nodes among the first `k`: text runs and math
/// sources.
pub open spec fn words_in(nodes: Seq<NodeView>, k: nat) -> nat
    decreases k,
{
    if k == 0 || k > nodes.len() {
        0
    } else {
        words_in(nodes, (k - 1) as nat) + match nodes[k - 1] {
            NodeView::Text(text) => word_count(text),
            NodeView::Math { literal, .. } => word_count(literal),
            _ => 0nat,
        }
    }
}

/// The word count of a document as the transformer reports it: the words of
/// its text-bearing nodes, held at the largest `u32` where there are more.
pub open spec fn reported_words(nodes: Seq<NodeView>) -> nat {
    if words_in(nodes, nodes.len()) > u32::MAX {
        u32::MAX as nat
    } else {
        words_in(nodes, nodes.len())
    }
}

/// The rewrites leave the words of a document as they are: the count is
/// that of the source's text-bearing nodes, whenever it is taken.
pub proof fn lemma_rewrite_keeps_words(nodes: Seq<NodeView>, k: nat)
    requires
        k <= nodes.len(),
    ensures
        words_in(rewritten(nodes), k) == words_in(nodes, k),
        k == nodes.len() ==> reported_words(rewritten(nodes)) == reported_words(nodes),
    decreases k,
{
    if k > 0 {
        lemma_rewrite_keeps_words(nodes, (k - 1) as nat);
    }
}

/// `count` more words on top of `total`, held at the largest `u32`.
fn add_words(total: u32, count: usize) -> (sum: u32)
    ensures
        sum == if total + count > u32::MAX {
            u32::MAX as int
        } else {
            total + count
        },
{
    if count > (u32::MAX - total) as usize {
        u32::MAX
    } else {
        total + count as u32
    }
}

/// Counts the words of a document's text-bearing nodes.
pub fn count_document_words(nodes: &Vec<Node>) -> (count: u32)
    ensures
        count == reported_words(views(nodes@)),
{
    let ghost source = views(nodes@);
    let mut count: u32 = 0;
    let mut i: usize = 0;
    while i < nodes.len()
        invariant
            i <= nodes.len(),
            source == views(nodes@),
            count == if words_in(source, i as nat) > u32::MAX {
                u32::MAX as int
            } else {
                words_in(source, i as nat) as int
            },
        decreases nodes.len() - i,
    {
        assert(source[i as int] == nodes@[i as int]@);
        count = match &nodes[i] {
            Node::Text(text) => add_words(count, count_words(text.as_str())),
            Node::Math { literal, .. } => add_words(count, count_words(literal.as_str())),
            _ => count,
        };
        i = i + 1;
    }
    count
}

/// Why a document could not be transformed.
#[derive(Debug)]
pub enum MarkdownError {
    /// The math span with this source could not be typeset.
    Math(String),
}

/// The markup that the typesetter gives for a math source, inline or
/// display; `None` where it gives none.
pub uninterp spec fn typeset_math(literal: Seq<char>, display: bool) -> Option<Seq<char>>;

/// Typesets one math source with `katex::render_with_opts`, in display mode
/// or inline. The markup is taken to depend on the source and the mode
/// alone; a failure of the typesetter comes back as `None`.
#[verifier::external_body]
fn typeset(literal: &str, display: bool) -> (markup: Option<String>)
    ensures
        markup matches Some(html) ==> typeset_math(literal@, display) == Some(html@),
        markup is None ==> typeset_math(literal@, display) is None,
{
    let options = katex::Opts::builder().display_mode(display).build().ok()?;
    katex::render_with_opts(literal, &options).ok()
}

/// Puts the typesetter's answer in the place of a math node with the given
/// source, or reports the source where there was no answer.
pub fn place_math(literal: &str, markup: Option<String>) -> (placed: Result<Node, MarkdownError>)
    ensures
        match placed {
            Ok(node) => markup matches Some(html) && node@ == NodeView::Markup(html@),
            Err(MarkdownError::Math(source)) => markup is None && source@ == literal@,
        },
{
    match markup {
        Some(html) => Ok(Node::Markup(html)),
        None => Err(MarkdownError::Math(String::from_str(literal))),
    }
}

/// Whether the typesetter has markup for this node, if it is a math span.
pub open spec fn typesets(node: NodeView) -> bool {
    node matches NodeView::Math { literal, display } ==> typeset_math(literal, display) is Some
}

/// A node after typesetting: a math span gives way to its markup.
pub open spec fn typeset_node(node: NodeView) -> NodeView {
    match node {
        NodeView::Math { literal, display } => match typeset_math(literal, display) {
            Some(html) => NodeView::Markup(html),
            None => node,
        },
        other => other,
    }
}

/// A document after typesetting.
pub open spec fn typeset_document(nodes: Seq<NodeView>) -> Seq<NodeView> {
    nodes.map_values(|node: NodeView| typeset_node(node))
}

/// The source of the first math span, among the first `k` nodes, for which
/// the typesetter has no markup.
pub open spec fn first_failure(nodes: Seq<NodeView>, k: nat) -> Option<Seq<char>>
    decreases k,
{
    if k == 0 || k > nodes.len() {
        None
    } else {
        match first_failure(nodes, (k - 1) as nat) {
            Some(literal) => Some(literal),
            None => match nodes[k - 1] {
                NodeView::Math { literal, display } => if typeset_math(literal, display) is None {
                    Some(literal)
                } else {
                    None
                },
                _ => None,
            },
        }
    }
}

/// The first failure among the first `k` nodes is the first failure of any
/// longer stretch.
pub proof fn lemma_first_failure_stays(nodes: Seq<NodeView>, k: nat, n: nat)
    requires
        k <= n <= nodes.len(),
        first_failure(nodes, k) is Some,
    ensures
        first_failure(nodes, n) == first_failure(nodes, k),
    decreases n,
{
    if n > k {
        lemma_first_failure_stays(nodes, k, (n - 1) as nat);
    }
}

/// Typesets every math span of a document. Fails on the first span that the
/// typesetter has no markup for, and says which.
pub fn typeset_nodes(nodes: Vec<Node>) -> (result: Result<Vec<Node>, MarkdownError>)
    ensures
        match result {
            Ok(out) => first_failure(views(nodes@), nodes@.len()) is None && views(out@)
                == typeset_document(views(nodes@)),
            Err(MarkdownError::Math(source)) => first_failure(views(nodes@), nodes@.len())
                == Some(source@),
        },
{
    let ghost source = views(nodes@);
    let mut out: Vec<Node> = Vec::new();
    let mut i: usize = 0;
    while i < nodes.len()
        invariant
            i <= nodes.len(),
            source == views(nodes@),
            out@.len() == i,
            first_failure(source, i as nat) is None,
            forall|j: int| 0 <= j < i ==> (#[trigger] out@[j])@ == typeset_node(source[j]),
        decreases nodes.len() - i,
    {
        assert(source[i as int] == nodes@[i as int]@);
        let node = match &nodes[i] {
            Node::Math { literal, display } => {
                let markup = typeset(literal.as_str(), *display);
                match place_math(literal.as_str(), markup) {
                    Ok(node) => node,
                    Err(error) => {
                        proof {
                            lemma_first_failure_stays(source, (i + 1) as nat, nodes@.len());
                        }
                        return Err(error);
                    },
                }
            },
            Node::Heading { level } => Node::Heading { level: *level },
            Node::Image { url } => Node::Image { url: url.clone() },
            Node::Text(text) => Node::Text(text.clone()),
            Node::Markup(markup) => Node::Markup(markup.clone()),
            Node::Other => Node::Other,
        };
        out.push(node);
        i = i + 1;
    }
    proof {
        assert(views(out@) =~= typeset_document(source));
    }
    Ok(out)
}

/// The depth of the image in whose alternative text the node at `k`
/// stands, if it stands in one: the node before it stood in that text, or
/// was the image itself, and the node at `k` lies deeper than the image.
pub open spec fn alt_image_depth(nodes: Seq<NodeView>, depths: Seq<usize>, k: int) -> Option<
    usize,
>
    decreases k,
{
    if k <= 0 || k >= nodes.len() || k >= depths.len() {
        None
    } else {
        let before = match alt_image_depth(nodes, depths, k - 1) {
            Some(depth) => Some(depth),
            None => if nodes[k - 1] is Image {
                Some(depths[k - 1])
            } else {
                None
            },
        };
        match before {
            Some(depth) => if depths[k] > depth {
                Some(depth)
            } else {
                None
            },
            None => None,
        }
    }
}

/// A node as it goes to the typesetter: a math span in the alternative
/// text of an image is text there, its source written as it is; any other
/// node is itself.
pub open spec fn alt_text_node(node: NodeView, in_alt_text: bool) -> NodeView {
    match node {
        NodeView::Math { literal, .. } => if in_alt_text {
            NodeView::Text(literal)
        } else {
            node
        },
        other => other,
    }
}

/// A document as it goes to the typesetter, given the depth of each node.
pub open spec fn alt_text_plain(nodes: Seq<NodeView>, depths: Seq<usize>) -> Seq<NodeView> {
    Seq::new(
        nodes.len(),
        |i: int| alt_text_node(nodes[i], alt_image_depth(nodes, depths, i) is Some),
    )
}

/// Takes the math spans that stand in the alternative text of an image for
/// the text that they are there, so that they are not typeset. `depths`
/// holds the depth of each node; a node without one stands in no such text.
pub fn plain_alt_text(nodes: Vec<Node>, depths: &Vec<usize>) -> (out: Vec<Node>)
    ensures
        views(out@) == alt_text_plain(views(nodes@), depths@),
{
    let ghost source = views(nodes@);
    let mut out: Vec<Node> = Vec::new();
    let mut before: Option<usize> = None;
    let mut i: usize = 0;
    while i < nodes.len()
        invariant
            i <= nodes.len(),
            source == views(nodes@),
            out@.len() == i,
            i == 0 ==> before is None,
            i > 0 ==> before == match alt_image_depth(source, depths@, i - 1) {
                Some(depth) => Some(depth),
                None => if source[i - 1] is Image && i - 1 < depths@.len() {
                    Some(depths@[i - 1])
                } else {
                    None
                },
            },
            forall|j: int|
                0 <= j < i ==> (#[trigger] out@[j])@ == alt_text_node(
                    source[j],
                    alt_image_depth(source, depths@, j) is Some,
                ),
        decreases nodes.len() - i,
    {
        assert(source[i as int] == nodes@[i as int]@);
        let inside: Option<usize> = match before {
            Some(depth) => if i < depths.len() && depths[i] > depth {
                Some(depth)
            } else {
                None
            },
            None => None,
        };
        assert(inside == alt_image_depth(source, depths@, i as int));
        let node = match &nodes[i] {
            Node::Math { literal, display } => if inside.is_some() {
                Node::Text(literal.clone())
            } else {
                Node::Math { literal: literal.clone(), display: *display }
            },
            Node::Heading { level } => Node::Heading { level: *level },
            Node::Image { url } => Node::Image { url: url.clone() },
            Node::Text(text) => Node::Text(text.clone()),
            Node::Markup(markup) => Node::Markup(markup.clone()),
            Node::Other => Node::Other,
        };
        before = match inside {
            Some(depth) => Some(depth),
            None => match &nodes[i] {
                Node::Image { .. } => if i < depths.len() {
                    Some(depths[i])
                } else {
                    None
                },
                _ => None,
            },
        };
        out.push(node);
        i = i + 1;
    }
    proof {
        assert(views(out@) =~= alt_text_plain(source, depths@));
    }
    out
}

/// The options of the Markdown parser and renderer.
#[verifier::external_type_specification]
#[verifier::external_body]
pub struct ExOptions<'c>(comrak::Options<'c>);

/// A profile of the Markdown parser and renderer: what it recognizes and
/// how it renders, together with the options that say so to the parser.
pub struct Profile {
    front_matter_delimiter: String,
    math_dollars: bool,
    footnotes: bool,
    figure_with_caption: bool,
    raw_html: bool,
    options: comrak::Options<'static>,
}

impl Profile {
    /// Whether this is the one profile under which the site reads and
    /// renders Markdown: front matter between `---` lines is set aside,
    /// dollar signs delimit math, footnotes are on, images become figures
    /// with captions and embedded HTML passes through.
    pub closed spec fn is_site_profile(self) -> bool {
        &&& self.front_matter_delimiter@ == "---"@
        &&& self.math_dollars
        &&& self.footnotes
        &&& self.figure_with_caption
        &&& self.raw_html
    }
}

/// Builds a profile from `comrak::Options::default`, with the front-matter
/// delimiter and the four switches set as given.
#[verifier::external_body]
fn make_profile(
    delimiter: &str,
    math_dollars: bool,
    footnotes: bool,
    figure_with_caption: bool,
    raw_html: bool,
) -> (profile: Profile)
    ensures
        profile.front_matter_delimiter@ == delimiter@,
        profile.math_dollars == math_dollars,
        profile.footnotes == footnotes,
        profile.figure_with_caption == figure_with_caption,
        profile.raw_html == raw_html,
{
    let front_matter_delimiter = delimiter.to_string();
    let mut options = comrak::Options::default();
    options.extension.front_matter_delimiter = Some(delimiter.to_string());
    options.extension.math_dollars = math_dollars;
    options.extension.footnotes = footnotes;
    options.render.figure_with_caption = figure_with_caption;
    options.render.unsafe_ = raw_html;
    Profile { front_matter_delimiter, math_dollars, footnotes, figure_with_caption, raw_html, options }
}

/// The site's profile.
pub(crate) fn site_profile() -> (profile: Profile)
    ensures
        profile.is_site_profile(),
{
    make_profile("---", true, true, true, true)
}

/// The nodes of a document, parsed under the site's profile, in document
/// order: each node before its children.
pub uninterp spec fn parsed_nodes(input: Seq<char>) -> Seq<NodeView>;

/// The HTML of a document whose nodes took the levels, addresses and markup
/// of `nodes`, rendered under the site's profile.
pub uninterp spec fn rendered_document(input: Seq<char>, nodes: Seq<NodeView>) -> Seq<char>;

/// Whether every heading's level is between 1 and `deepest`.
pub open spec fn headings_within(nodes: Seq<NodeView>, deepest: u8) -> bool {
    forall|i: int|
        0 <= i < nodes.len() ==> (#[trigger] nodes[i] matches NodeView::Heading { level } ==> 1
            <= level <= deepest)
}

/// Parses `input` with `comrak::parse_document` and lists what `descendants`
/// walks: the root and every node below it, parents first. Headings have the
/// levels 1 to 6, as the parser documents.
#[verifier::external_body]
fn document_nodes(profile: &Profile, input: &str) -> (nodes: Vec<Node>)
    requires
        profile.is_site_profile(),
    ensures
        views(nodes@) == parsed_nodes(input@),
        headings_within(views(nodes@), 6),
{
    let arena = comrak::Arena::new();
    let root = comrak::parse_document(&arena, input, &profile.options);
    root.descendants().map(|node| match &node.data.borrow().value {
        NodeValue::Text(text) => Node::Text(text.clone()),
        NodeValue::Math(math) => Node::Math {
            literal: math.literal.clone(),
            display: math.display_math,
        },
        NodeValue::Heading(heading) => Node::Heading { level: heading.level },
        NodeValue::Image(link) => Node::Image { url: link.url.clone() },
        _ => Node::Other,
    }).collect()
}

/// Parses `input` again, gives each heading the level, each image the
/// address and each math span the markup that `nodes` holds at its place in
/// document order, and renders the tree with `comrak::format_html`.
#[verifier::external_body]
fn render_nodes(profile: &Profile, input: &str, nodes: &Vec<Node>) -> (html: String)
    requires
        profile.is_site_profile(),
    ensures
        html@ == rendered_document(input@, views(nodes@)),
{
    let arena = comrak::Arena::new();
    let root = comrak::parse_document(&arena, input, &profile.options);
    for (node, plain) in root.descendants().zip(nodes.iter()) {
        match (&mut node.data.borrow_mut().value, plain) {
            (NodeValue::Heading(heading), Node::Heading { level }) => heading.level = *level,
            (NodeValue::Image(link), Node::Image { url }) => link.url = url.clone(),
            (value @ NodeValue::Math(_), Node::Markup(markup)) => {
                *value = NodeValue::Raw(markup.clone())
            },
            _ => (),
        }
    }
    let mut html = String::new();
    let _ = comrak::format_html(root, &profile.options, &mut html);
    html
}

/// How deep each node of a document lies, in document order, parsed under
/// the site's profile: the number of nodes on the way from the node up to
/// the root, both counted.
pub uninterp spec fn parsed_depths(input: Seq<char>) -> Seq<usize>;

/// Parses `input` with `comrak::parse_document` and counts, for each node
/// that `descendants` walks, what `ancestors` walks from it: the node and
/// every node above it. There is one depth for each node of the document.
#[verifier::external_body]
fn document_depths(profile: &Profile, input: &str) -> (depths: Vec<usize>)
    requires
        profile.is_site_profile(),
    ensures
        depths@ == parsed_depths(input@),
        depths@.len() == parsed_nodes(input@).len(),
{
    let arena = comrak::Arena::new();
    let root = comrak::parse_document(&arena, input, &profile.options);
    root.descendants().map(|node| node.ancestors().count()).collect()
}

/// The HTML of a document as it stands, rendered under the site's profile.
pub uninterp spec fn plain_html(input: Seq<char>) -> Seq<char>;

/// Renders `input` with `comrak::markdown_to_html`, nothing rewritten.
#[verifier::external_body]
pub(crate) fn render_plain(profile: &Profile, input: &str) -> (html: String)
    requires
        profile.is_site_profile(),
    ensures
        html@ == plain_html(input@),
{
    comrak::markdown_to_html(input, &profile.options)
}

/// Headings of level 6 or less can move one level down.
proof fn lemma_parsed_headings_shift(nodes: Seq<NodeView>)
    requires
        headings_within(nodes, 6),
    ensures
        headings_can_shift(nodes),
{
}

/// The nodes of a document as they go to the typesetter: after the
/// rewrites, and with the math that stands in the alternative text of an
/// image taken for text.
pub open spec fn prepared(input: Seq<char>) -> Seq<NodeView> {
    alt_text_plain(rewritten(parsed_nodes(input)), parsed_depths(input))
}

/// Transforms a Markdown document: parses it, draws the summary and, after
/// the rewrites, the word count, typesets the math and renders the HTML.
///
/// Every image's address, as the source has it, is added to
/// `referenced_links`, whether or not the math typesets. The document fails
/// as a whole on the first math span that the typesetter has no markup for.
/// The summary and its limit are measured in characters. Math that stands in
/// the alternative text of an image is not typeset: its source is written
/// there as text.
pub fn parse(input: &str, referenced_links: &mut Vec<String>) -> (result: Result<
    MarkdownData,
    MarkdownError,
>)
    ensures
        texts(final(referenced_links)@) == texts(old(referenced_links)@) + image_urls(
            parsed_nodes(input@),
            parsed_nodes(input@).len(),
        ),
        final(referenced_links)@.len() == old(referenced_links)@.len() + image_count(
            parsed_nodes(input@),
            parsed_nodes(input@).len(),
        ),
        headings_within(parsed_nodes(input@), 6),
        match result {
            Ok(data) => {
                &&& first_failure(prepared(input@), prepared(input@).len()) is None
                &&& data.html@ == rendered_document(input@, typeset_document(prepared(input@)))
                &&& data.summary@ == summary_of(parsed_nodes(input@))
                &&& data.word_count == reported_words(rewritten(parsed_nodes(input@)))
            },
            Err(MarkdownError::Math(source)) => first_failure(
                prepared(input@),
                prepared(input@).len(),
            ) == Some(source@),
        },
{
    let profile = site_profile();
    let nodes = document_nodes(&profile, input);
    let depths = document_depths(&profile, input);
    proof {
        lemma_parsed_headings_shift(views(nodes@));
    }
    let summary = summarize(&nodes);
    let shifted = rewrite(nodes, referenced_links);
    let word_count = count_document_words(&shifted);
    let ready = plain_alt_text(shifted, &depths);
    let finished = typeset_nodes(ready)?;
    let html = render_nodes(&profile, input, &finished);
    Ok(MarkdownData { html, summary, word_count })
}

} // verus!
