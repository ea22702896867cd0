use odilf_site::site::{
    aborts_run, entry_slug, page_path, visit, Loaded, Stage, Visit, Walk, ATOM_PATH, INDEX_PATH,
    RSS_PATH,
};

#[test]
fn slugs_of_file_names() {
    assert_eq!(entry_slug("hello-world.md").as_deref(), Some("hello-world"));
    assert_eq!(entry_slug("a.b.md").as_deref(), Some("a.b"));
    assert_eq!(entry_slug("x.md").as_deref(), Some("x"));
    assert_eq!(entry_slug(".md"), None);
    assert_eq!(entry_slug("md"), None);
    assert_eq!(entry_slug("notes.txt"), None);
    assert_eq!(entry_slug("notes.MD"), None);
    assert_eq!(entry_slug("notes.md.bak"), None);
    assert_eq!(entry_slug(""), None);
}

#[test]
fn directories_and_other_files_are_passed_over() {
    assert!(matches!(visit("posts.md", true), Visit::SkipDirectory));
    assert!(matches!(visit("drafts", true), Visit::SkipDirectory));
    assert!(matches!(visit("cat.png", false), Visit::SkipOther));
    assert!(matches!(visit("post.md", false), Visit::Read { slug } if slug == "post"));
}

#[test]
fn output_paths() {
    assert_eq!(page_path("hello"), "blog/hello/index.html");
    assert_eq!(INDEX_PATH, "blog/index.html");
    assert_eq!(RSS_PATH, "blog/rss.xml");
    assert_eq!(ATOM_PATH, "blog/atom.xml");
}

#[test]
fn only_failures_about_one_file_let_the_run_go_on() {
    assert!(aborts_run(Stage::CreateOutput));
    assert!(aborts_run(Stage::ListContent));
    assert!(!aborts_run(Stage::ReadEntry));
    assert!(!aborts_run(Stage::LoadEntry));
    assert!(!aborts_run(Stage::WritePage));
    assert!(aborts_run(Stage::WriteIndex));
    assert!(aborts_run(Stage::WriteFeed));
    assert!(aborts_run(Stage::CopyAsset));
}

fn run(files: &[(&str, bool, &str)], include_drafts: bool) -> (Vec<String>, Vec<String>, Vec<String>) {
    let mut walk = Walk::new(include_drafts);
    let mut pages = Vec::new();
    for (name, is_dir, content) in files {
        let Visit::Read { slug } = visit(name, *is_dir) else {
            continue;
        };
        if let Loaded::Page { path, entry } = walk.load(&slug, content) {
            pages.push(path);
            walk.accept(entry);
        }
    }
    let plan = walk.finish();
    let index = plan.entries.iter().map(|entry| entry.slug.clone()).collect();
    (pages, index, plan.assets)
}

#[test]
fn one_valid_file_and_one_without_front_matter_give_one_page_and_one_index_entry() {
    let files = [
        ("a.md", false, "---\ntitle: \"A\"\ndate: 2024-01-01\n---\nHello"),
        ("b.md", false, "No front matter here"),
    ];
    let (pages, index, assets) = run(&files, false);
    assert_eq!(pages, vec!["blog/a/index.html"]);
    assert_eq!(index, vec!["a"]);
    assert!(assets.is_empty());
}

#[test]
fn a_draft_is_in_the_index_only_when_drafts_are_included() {
    let files = [
        ("old.md", false, "---\ntitle: Old\ndate: 2024-01-01\n---\n![o](o.png)"),
        ("wip.md", false, "---\ntitle: Wip\ndate: 2024-03-01\ndraft: true\n---\n![w](w.png)"),
        ("new.md", false, "---\ntitle: New\ndate: 2024-06-01\ndraft: false\n---\nText"),
    ];
    let (pages, index, assets) = run(&files, false);
    assert_eq!(pages, vec!["blog/old/index.html", "blog/new/index.html"]);
    assert_eq!(index, vec!["new", "old"]);
    assert_eq!(assets, vec!["o.png"]);

    let (pages, index, assets) = run(&files, true);
    assert_eq!(pages.len(), 3);
    assert_eq!(index, vec!["new", "wip", "old"]);
    assert_eq!(assets, vec!["o.png", "w.png"]);
}

#[test]
fn a_file_whose_math_fails_is_left_out_and_its_assets_stay() {
    let mut walk = Walk::new(false);
    let content = "---\ntitle: M\ndate: 2024-01-01\n---\n![m](m.png) $\\frac{$";
    assert!(matches!(walk.load("m", content), Loaded::Failed(_)));
    assert!(matches!(walk.load("n", "nothing"), Loaded::Skipped));
    let plan = walk.finish();
    assert!(plan.entries.is_empty());
    assert_eq!(plan.assets, vec!["m.png"]);
}

#[test]
fn directories_are_not_walked() {
    let files = [
        ("nested.md", true, ""),
        ("readme.txt", false, "---\ntitle: T\ndate: 2024-01-01\n---\n"),
    ];
    let (pages, index, _) = run(&files, true);
    assert!(pages.is_empty());
    assert!(index.is_empty());
}
