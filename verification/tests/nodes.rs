use odilf_site::markdown::{
    count_document_words, place_math, plain_alt_text, rewrite, rooted_url, summarize,
    typeset_nodes,
    MarkdownError, Node, SUMMARY_LIMIT,
};

fn text(content: &str) -> Node {
    Node::Text(String::from(content))
}

#[test]
fn summary_joins_text_math_and_spaces() {
    let nodes = vec![
        Node::Other,
        text("Euler:"),
        Node::Other,
        Node::Math { literal: String::from("e^x"), display: false },
        Node::Heading { level: 2 },
        Node::Image { url: String::from("a.png") },
        text("end"),
    ];
    assert_eq!(summarize(&nodes), " Euler: e^x  end");
    assert_eq!(summarize(&Vec::new()), "");
}

#[test]
fn summary_never_exceeds_the_limit() {
    assert_eq!(SUMMARY_LIMIT, 250);
    let long = "x".repeat(1000);
    let nodes = vec![text("abc"), text(&long), text("never reached")];
    let summary = summarize(&nodes);
    assert_eq!(summary.chars().count(), 250);
    assert_eq!(summary, format!("abc{}", "x".repeat(247)));

    let exact = vec![text(&"y".repeat(250)), text("z")];
    assert_eq!(summarize(&exact), "y".repeat(250));

    let one_short = vec![text(&"y".repeat(249)), text("z")];
    assert_eq!(summarize(&one_short), "y".repeat(249));

    let two_short = vec![text(&"y".repeat(248)), text("zzz")];
    assert_eq!(summarize(&two_short), format!("{}zz", "y".repeat(248)));
}

#[test]
fn rewrite_shifts_headings_and_roots_images() {
    let mut links = vec![String::from("before.png")];
    let nodes = vec![
        Node::Heading { level: 1 },
        text("Title"),
        Node::Image { url: String::from("pics/a.png") },
        Node::Heading { level: 6 },
        Node::Image { url: String::from("/abs/b.png") },
        Node::Image { url: String::new() },
        Node::Math { literal: String::from("x"), display: true },
        Node::Markup(String::from("<b>")),
        Node::Other,
    ];
    let out = rewrite(nodes, &mut links);
    assert_eq!(links, vec!["before.png", "pics/a.png", "/abs/b.png", ""]);
    assert!(matches!(&out[0], Node::Heading { level: 2 }));
    assert!(matches!(&out[1], Node::Text(t) if t == "Title"));
    assert!(matches!(&out[2], Node::Image { url } if url == "/blog/pics/a.png"));
    assert!(matches!(&out[3], Node::Heading { level: 7 }));
    assert!(matches!(&out[4], Node::Image { url } if url == "/abs/b.png"));
    assert!(matches!(&out[5], Node::Image { url } if url == "/blog/"));
    assert!(matches!(&out[6], Node::Math { literal, display: true } if literal == "x"));
    assert!(matches!(&out[7], Node::Markup(m) if m == "<b>"));
    assert!(matches!(&out[8], Node::Other));
    assert_eq!(out.len(), 9);
}

#[test]
fn addresses_are_placed_under_the_blog() {
    assert_eq!(rooted_url("cat.png"), "/blog/cat.png");
    assert_eq!(rooted_url("a/b/cat.png"), "/blog/a/b/cat.png");
    assert_eq!(rooted_url("/cat.png"), "/cat.png");
    assert_eq!(rooted_url(""), "/blog/");
    assert_eq!(rooted_url("https://example.org/cat.png"), "/blog/https://example.org/cat.png");
}

#[test]
fn words_of_text_and_math_are_counted() {
    let nodes = vec![
        text("one two"),
        Node::Other,
        Node::Math { literal: String::from("a + b"), display: false },
        Node::Markup(String::from("not counted here")),
        Node::Image { url: String::from("not counted.png") },
        Node::Heading { level: 3 },
        text("  three\n"),
    ];
    assert_eq!(count_document_words(&nodes), 6);
    assert_eq!(count_document_words(&Vec::new()), 0);
}

#[test]
fn math_gives_way_to_its_markup() {
    let nodes = vec![
        text("t"),
        Node::Math { literal: String::from("x^2"), display: false },
        Node::Heading { level: 2 },
    ];
    let out = typeset_nodes(nodes).unwrap();
    assert_eq!(out.len(), 3);
    assert!(matches!(&out[0], Node::Text(t) if t == "t"));
    assert!(matches!(&out[1], Node::Markup(html) if html.starts_with("<span class=\"katex\">")));
    assert!(matches!(&out[2], Node::Heading { level: 2 }));

    let display = typeset_nodes(vec![Node::Math { literal: String::from("x^2"), display: true }])
        .unwrap();
    assert!(matches!(&display[0], Node::Markup(html) if html.starts_with("<span class=\"katex-display\">")));
}

#[test]
fn the_first_math_that_fails_is_reported() {
    let nodes = vec![
        Node::Math { literal: String::from("ok"), display: false },
        Node::Math { literal: String::from("\\frac{"), display: false },
        Node::Math { literal: String::from("\\sqrt{"), display: false },
    ];
    assert!(matches!(typeset_nodes(nodes), Err(MarkdownError::Math(source)) if source == "\\frac{"));
}

#[test]
fn markup_takes_the_place_of_math() {
    assert!(matches!(
        place_math("x", Some(String::from("<i>x</i>"))),
        Ok(Node::Markup(html)) if html == "<i>x</i>"
    ));
    assert!(matches!(place_math("x", None), Err(MarkdownError::Math(source)) if source == "x"));
}

fn math(source: &str) -> Node {
    Node::Math { literal: String::from(source), display: false }
}

fn image() -> Node {
    Node::Image { url: String::from("i.png") }
}

#[test]
fn math_below_an_image_is_taken_for_text() {
    // document > paragraph > [math, image > [text, emphasis > math, image > math], math]
    let nodes = vec![
        Node::Other,
        Node::Other,
        math("before"),
        image(),
        text("alt"),
        Node::Other,
        math("deep"),
        image(),
        math("deeper"),
        math("after"),
    ];
    let depths = vec![1, 2, 3, 3, 4, 4, 5, 4, 5, 3];
    let out = plain_alt_text(nodes, &depths);
    assert_eq!(out.len(), 10);
    assert!(matches!(&out[2], Node::Math { literal, .. } if literal == "before"));
    assert!(matches!(&out[3], Node::Image { url } if url == "i.png"));
    assert!(matches!(&out[4], Node::Text(t) if t == "alt"));
    assert!(matches!(&out[5], Node::Other));
    assert!(matches!(&out[6], Node::Text(t) if t == "deep"));
    assert!(matches!(&out[7], Node::Image { .. }));
    assert!(matches!(&out[8], Node::Text(t) if t == "deeper"));
    assert!(matches!(&out[9], Node::Math { literal, .. } if literal == "after"));
}

#[test]
fn math_beside_an_image_stays_math() {
    let nodes = vec![Node::Other, image(), math("sibling"), image(), math("child")];
    let out = plain_alt_text(nodes, &vec![1, 2, 2, 2, 3]);
    assert!(matches!(&out[2], Node::Math { literal, .. } if literal == "sibling"));
    assert!(matches!(&out[4], Node::Text(t) if t == "child"));

    let bare = plain_alt_text(vec![image(), math("no depth")], &Vec::new());
    assert!(matches!(&bare[1], Node::Math { literal, .. } if literal == "no depth"));
    let short = plain_alt_text(vec![image(), math("a"), math("b")], &vec![1, 2]);
    assert!(matches!(&short[1], Node::Text(t) if t == "a"));
    assert!(matches!(&short[2], Node::Math { literal, .. } if literal == "b"));
    assert!(plain_alt_text(Vec::new(), &vec![1]).is_empty());
}
