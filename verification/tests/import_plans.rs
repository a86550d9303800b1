use colette_repository::import::{plan_netscape_import, plan_opml_import, Backend, ImportStep, Item, Outline};

fn feed(text: &str, html: &str, xml: &str) -> Outline {
    Outline {
        text: text.to_string(),
        title: None,
        xml_url: Some(xml.to_string()),
        html_url: Some(html.to_string()),
        outline: None,
    }
}

fn folder(text: &str, title: Option<&str>, children: Vec<Outline>) -> Outline {
    Outline {
        text: text.to_string(),
        title: title.map(String::from),
        xml_url: None,
        html_url: None,
        outline: Some(children),
    }
}

fn feed_step(link: &str, title: &str, xml: &str, tag: Option<usize>) -> ImportStep {
    ImportStep::Feed { link: link.into(), title: title.into(), xml_url: Some(xml.into()), tag }
}

fn tag_step(title: &str) -> ImportStep {
    ImportStep::Tag { title: title.into() }
}

fn sample_outlines() -> Vec<Outline> {
    vec![
        folder("News", Some("Daily news"), vec![feed("A", "https://a", "https://a/rss"), feed("B", "https://b", "https://b/rss")]),
        feed("C", "https://c", "https://c/rss"),
    ]
}

#[test]
fn opml_d1_takes_top_level_last_first_and_children_in_order() {
    let steps = plan_opml_import(sample_outlines(), Backend::D1);
    assert_eq!(
        steps,
        vec![
            feed_step("https://c", "C", "https://c/rss", None),
            tag_step("Daily news"),
            feed_step("https://a", "A", "https://a/rss", Some(0)),
            feed_step("https://b", "B", "https://b/rss", Some(0)),
        ]
    );
}

#[test]
fn opml_libsql_takes_children_last_first_and_titles_folders_by_text() {
    let steps = plan_opml_import(sample_outlines(), Backend::Libsql);
    assert_eq!(
        steps,
        vec![
            feed_step("https://c", "C", "https://c/rss", None),
            tag_step("News"),
            feed_step("https://b", "B", "https://b/rss", Some(0)),
            feed_step("https://a", "A", "https://a/rss", Some(0)),
        ]
    );
}

#[test]
fn opml_empty_folder_is_a_tag_only_on_d1() {
    let outlines = vec![folder("Empty", None, vec![])];
    assert_eq!(plan_opml_import(outlines, Backend::D1), vec![tag_step("Empty")]);
    let outlines = vec![folder("Empty", None, vec![])];
    assert_eq!(plan_opml_import(outlines, Backend::Libsql), vec![]);
}

#[test]
fn opml_outline_without_site_link_gives_no_step() {
    let mut o = feed("X", "https://x", "https://x/rss");
    o.html_url = None;
    assert!(plan_opml_import(vec![o], Backend::D1).is_empty());
    assert!(plan_opml_import(vec![], Backend::Libsql).is_empty());
}

#[test]
fn opml_tag_references_point_back() {
    let outlines = vec![folder(
        "Outer",
        None,
        vec![folder("Inner", None, vec![feed("A", "https://a", "https://a/rss")]), feed("B", "https://b", "https://b/rss")],
    )];
    for backend in [Backend::D1, Backend::Libsql] {
        let steps = plan_opml_import(
            vec![folder(
                "Outer",
                None,
                vec![folder("Inner", None, vec![feed("A", "https://a", "https://a/rss")]), feed("B", "https://b", "https://b/rss")],
            )],
            backend,
        );
        let mut tags = 0;
        for s in &steps {
            match s {
                ImportStep::Tag { .. } => tags += 1,
                ImportStep::Feed { tag: Some(t), .. } => assert!(*t < tags),
                _ => {}
            }
        }
        assert_eq!(tags, 2);
    }
    let d1 = plan_opml_import(outlines, Backend::D1);
    assert_eq!(d1[2], feed_step("https://a", "A", "https://a/rss", Some(1)));
    assert_eq!(d1[3], feed_step("https://b", "B", "https://b/rss", Some(0)));
}

fn item(title: &str, href: Option<&str>, children: Option<Vec<Item>>) -> Item {
    Item { title: title.into(), href: href.map(String::from), item: children }
}

fn bookmark_step(link: &str, title: &str, tag: Option<usize>) -> ImportStep {
    ImportStep::Bookmark { link: link.into(), title: title.into(), tag }
}

fn sample_items() -> Vec<Item> {
    vec![item(
        "Dev",
        None,
        Some(vec![item("Rust", Some("https://rust"), None), item("Sub", None, Some(vec![item("X", Some("https://x"), None)]))]),
    )]
}

#[test]
fn netscape_d1_titles_folders_with_their_path() {
    assert_eq!(
        plan_netscape_import(sample_items(), Backend::D1),
        vec![
            tag_step("Dev"),
            bookmark_step("https://rust", "Rust", Some(0)),
            tag_step("Dev/Sub"),
            bookmark_step("https://x", "X", Some(1)),
        ]
    );
}

#[test]
fn netscape_libsql_takes_children_last_first() {
    assert_eq!(
        plan_netscape_import(sample_items(), Backend::Libsql),
        vec![
            tag_step("Dev"),
            tag_step("Sub"),
            bookmark_step("https://x", "X", Some(1)),
            bookmark_step("https://rust", "Rust", Some(0)),
        ]
    );
}

#[test]
fn netscape_top_level_bookmark_has_no_tag() {
    let items = vec![item("A", Some("https://a"), None), item("B", Some("https://b"), None), item("Sep", None, None)];
    assert_eq!(
        plan_netscape_import(items, Backend::D1),
        vec![bookmark_step("https://b", "B", None), bookmark_step("https://a", "A", None)]
    );
}

#[test]
fn netscape_tag_references_point_back() {
    for backend in [Backend::D1, Backend::Libsql] {
        let steps = plan_netscape_import(sample_items(), backend);
        let mut tags = 0;
        for s in &steps {
            match s {
                ImportStep::Tag { .. } => tags += 1,
                ImportStep::Bookmark { tag: Some(t), .. } => assert!(*t < tags),
                _ => {}
            }
        }
        assert_eq!(tags, 2);
    }
}
