use odilf_site::markdown::{parse, MarkdownError};

#[test]
fn headings_move_one_level_down() {
    let mut links = Vec::new();
    let data = parse("# Title\n\nHello world\n\n## Section\n", &mut links).unwrap();
    assert_eq!(data.html, "<h2>Title</h2>\n<p>Hello world</p>\n<h3>Section</h3>\n");
    assert!(links.is_empty());
}

#[test]
fn images_are_recorded_and_rooted_under_the_blog() {
    let mut links = vec![String::from("earlier.png")];
    let data = parse("![a cat](pics/cat.png)\n\n![logo](/static/logo.svg)\n", &mut links).unwrap();
    assert_eq!(links, vec!["earlier.png", "pics/cat.png", "/static/logo.svg"]);
    assert_eq!(
        data.html,
        "<p><figure><img src=\"/blog/pics/cat.png\" alt=\"a cat\" /></figure></p>\n<p><figure><img src=\"/static/logo.svg\" alt=\"logo\" /></figure></p>\n"
    );
}

#[test]
fn summary_and_word_count_of_a_short_document() {
    let mut links = Vec::new();
    let data = parse("Hello brave\nnew world", &mut links).unwrap();
    assert_eq!(data.summary, "  Hello brave new world");
    assert_eq!(data.word_count, 4);
}

#[test]
fn math_is_typeset() {
    let mut links = Vec::new();
    let data = parse("Euler: $e^{i\\pi} = -1$", &mut links).unwrap();
    assert!(data.html.starts_with("<p>Euler: <span class=\"katex\">"), "{}", data.html);
    assert_eq!(data.word_count, 4);
}

#[test]
fn math_that_does_not_typeset_fails_the_document() {
    let mut links = Vec::new();
    let result = parse("![x](a.png) and $\\frac{$", &mut links);
    assert!(matches!(result, Err(MarkdownError::Math(source)) if source == "\\frac{"));
    assert_eq!(links, vec!["a.png"]);
}

#[test]
fn summary_is_cut_at_the_limit() {
    let mut links = Vec::new();
    let body = "a".repeat(300);
    let data = parse(&body, &mut links).unwrap();
    assert_eq!(data.summary.chars().count(), 250);
    assert_eq!(data.summary, format!("  {}", "a".repeat(248)));
    assert_eq!(data.word_count, 1);
}

#[test]
fn summary_stops_one_short_of_the_limit_between_nodes() {
    let mut links = Vec::new();
    let body = format!("{}\n\nmore text", "a".repeat(247));
    let data = parse(&body, &mut links).unwrap();
    assert_eq!(data.summary, format!("  {}", "a".repeat(247)));
    assert_eq!(data.summary.chars().count(), 249);
}

#[test]
fn summary_counts_characters_not_bytes() {
    let mut links = Vec::new();
    let body = "é".repeat(300);
    let data = parse(&body, &mut links).unwrap();
    assert_eq!(data.summary, format!("  {}", "é".repeat(248)));
}

#[test]
fn front_matter_is_set_aside() {
    let mut links = Vec::new();
    let data = parse("---\ntitle: A\n---\n\nBody text\n", &mut links).unwrap();
    assert_eq!(data.html, "<p>Body text</p>\n");
    assert_eq!(data.word_count, 2);
}

#[test]
fn embedded_html_and_footnotes_pass() {
    let mut links = Vec::new();
    let data = parse("<div class=\"x\">raw</div>\n\nNote[^1].\n\n[^1]: The note.\n", &mut links)
        .unwrap();
    assert!(data.html.starts_with("<div class=\"x\">raw</div>\n"), "{}", data.html);
    assert!(data.html.contains("class=\"footnote-ref\""), "{}", data.html);
}

#[test]
fn the_same_input_gives_the_same_data() {
    let body = "# One\n\nSome $x+y$ math and ![i](i.png) image.\n";
    let mut first_links = Vec::new();
    let first = parse(body, &mut first_links).unwrap();
    let mut second_links = Vec::new();
    let second = parse(body, &mut second_links).unwrap();
    assert_eq!(first.word_count, second.word_count);
    assert_eq!(first.word_count, 7);
    assert_eq!(first.summary, second.summary);
    assert_eq!(first.html, second.html);
    assert_eq!(first_links, second_links);
}

#[test]
fn math_in_the_alternative_text_of_an_image_is_text() {
    let mut links = Vec::new();
    let data = parse("a ![alt $x<y$ text](u.png) b $z$\n", &mut links).unwrap();
    assert!(
        data.html.starts_with(
            "<p>a <figure><img src=\"/blog/u.png\" alt=\"alt x&lt;y text\" /></figure> b <span class=\"katex\">"
        ),
        "{}",
        data.html
    );
    assert_eq!(links, vec!["u.png"]);
    assert_eq!(data.word_count, 6);
}

#[test]
fn math_that_does_not_typeset_is_harmless_in_alternative_text() {
    let mut links = Vec::new();
    let data = parse("![see $\\frac{$ here](u.png)\n", &mut links).unwrap();
    assert_eq!(
        data.html,
        "<p><figure><img src=\"/blog/u.png\" alt=\"see \\frac{ here\" /></figure></p>\n"
    );
    let after = parse("![see](u.png) $\\frac{$\n", &mut links);
    assert!(matches!(after, Err(MarkdownError::Math(source)) if source == "\\frac{"));
}
