use rugby_fixtures::document::{Content, Document, Element, Node, Pattern};
use scraper::{Html, Selector};
use rugby_fixtures::error::{ExtractionError, FetchError, TimeError};
use rugby_fixtures::fixtures::FixtureList;
use rugby_fixtures::scrape::{
    build_fixtures, check_schema, extract, get_child_nodes, get_flist, populate_flist,
    read_batch, FixtureBatch,
};

fn strings(items: &[&str]) -> Vec<String> {
    items.iter().map(|s| s.to_string()).collect()
}

fn fixture_html(date: &str, time: &str, competition: &str, home: &str, away: &str) -> String {
    format!(
        "<h2>{}</h2><h3>{}</h3><ul><li><span class=\"emlpoi30 other\">{}</span>\
         <time>{}</time><span class=\"emlpoi30\">{}</span><span class=\"score\">v</span></li></ul>",
        date, competition, home, time, away
    )
}

fn page_html(fixtures: &[String]) -> String {
    format!(
        "<html><head><title>Fixtures</title></head><body><div id=\"header\">Sport</div>\
         <div id=\"main-data\"><div>{}</div><div><h2>Not a fixture</h2></div></div></body></html>",
        fixtures.concat()
    )
}

fn element(depth: usize, name: &str, id: Option<&str>, classes: &[&str]) -> Node {
    Node {
        depth,
        content: Content::Element(Element {
            name: name.to_string(),
            id: id.map(|s| s.to_string()),
            classes: strings(classes),
        }),
    }
}

fn text(depth: usize, text: &str) -> Node {
    Node { depth, content: Content::Text(text.to_string()) }
}

fn selected_texts(page: &str, selector: &str, class: Option<&str>) -> Vec<String> {
    let html = Html::parse_document(page);
    let anchor = html.select(&Selector::parse("div#main-data").unwrap()).next().unwrap();
    let group = anchor.select(&Selector::parse("div").unwrap()).next().unwrap();
    group
        .select(&Selector::parse(selector).unwrap())
        .filter(|e| class.is_none() || e.value().classes().next() == class)
        .map(|e| e.text().next().unwrap().to_string())
        .collect()
}

#[test]
fn extraction_agrees_with_css_selectors() {
    let page = "<html><body><div id=\"intro\"><h2>Elsewhere</h2></div>\
        <div id=\"main-data\" class=\"wrap\"><p>Upcoming</p>\
        <div class=\"list\"><h2>Saturday 14th <b>September</b></h2>\
        <section><h3><i>United</i> Rugby Championship</h3>\
        <div class=\"row\"><span class=\"zz emlpoi30\">Leinster</span>\
        <span class=\"aa emlpoi30\">skipped</span><time datetime=\"x\">15:30</time>\
        <span class=\"emlpoi30\"><em>Munster</em></span><span>v</span></div></section>\
        <h2>Sunday 15th September</h2><h3>Cup</h3><time>17:15</time>\
        <span class=\"emlpoi30\">Ulster</span><span class=\"emlpoi30\">Connacht</span></div>\
        <div><h2>Outside the group</h2><time>00:00</time></div></div>\
        <h2>Outside the anchor</h2></body></html>";
    let batch = extract(&Document::parse(page)).unwrap();
    assert_eq!(batch.dates, selected_texts(page, "h2", None));
    assert_eq!(batch.competitions, selected_texts(page, "h3", None));
    assert_eq!(batch.times, selected_texts(page, "time", None));
    assert_eq!(batch.team_names, selected_texts(page, "span", Some("emlpoi30")));
    assert_eq!(batch.dates, strings(&["Saturday 14th ", "Sunday 15th September"]));
    assert_eq!(batch.competitions, strings(&["United", "Cup"]));
    assert_eq!(batch.times, strings(&["15:30", "17:15"]));
    assert_eq!(batch.team_names, strings(&["Leinster", "Munster", "Ulster", "Connacht"]));
}

#[test]
fn test_get_child_nodes() {
    let mock_html = r#"
            <html>
                <body>
                    <div id="main-data">
                        <div id="child1">Content 1</div>
                        <div id="child2">Content 2</div>
                    </div>
                </body>
            </html>
        "#;

    let parsed_html = Document::parse(mock_html);

    let result = get_child_nodes(&parsed_html);

    assert!(result.is_some());

    let first_child = parsed_html.node(result.unwrap());
    let child_id = match &first_child.content {
        Content::Element(element) => element.id.clone().unwrap(),
        _ => panic!("the region is an element"),
    };
    assert_eq!(child_id, "child1");
}

#[test]
fn test_get_html_document() {
    let mock_html = "<html><body><h1>Test</h1></body></html>";

    let result = Document::parse(mock_html);

    let mut headings = Vec::new();
    for i in 0..result.len() {
        if let Content::Element(e) = &result.node(i).content {
            if e.name == "h1" {
                headings.push(result.first_text(i));
            }
        }
    }
    assert!(!headings.is_empty());
    assert_eq!(headings, vec![Some("Test".to_string())]);
}

#[test]
fn parsed_nodes_carry_their_depth() {
    let page = "<html><head></head><body><p id=\"a\" class=\"x y\">hi</p></body></html>";
    let document = Document::parse(page);
    assert_eq!(document.len(), 6);
    assert_eq!(document.node(0).depth, 0);
    assert!(matches!(document.node(0).content, Content::Other));
    assert_eq!(document.node(1).depth, 1);
    assert_eq!(document.node(2).depth, 2);
    assert_eq!(document.node(3).depth, 2);
    assert_eq!(document.node(4).depth, 3);
    match &document.node(4).content {
        Content::Element(e) => {
            assert_eq!(e.name, "p");
            assert_eq!(e.id, Some("a".to_string()));
            assert_eq!(e.classes, strings(&["x", "y"]));
        }
        _ => panic!("the paragraph is an element"),
    }
    assert_eq!(document.node(5).depth, 4);
    assert!(matches!(&document.node(5).content, Content::Text(t) if t == "hi"));
    assert_eq!(document.subtree_end(0), 6);
    assert_eq!(document.subtree_end(2), 3);
    assert_eq!(document.subtree_end(3), 6);
    assert_eq!(document.subtree_end(5), 6);
}

#[test]
fn parsed_class_tokens_come_sorted_and_without_repeats() {
    let page = "<html><body><span class=\"zeta  emlpoi30 alpha zeta\">x</span></body></html>";
    let document = Document::parse(page);
    let mut seen = false;
    for i in 0..document.len() {
        if let Content::Element(e) = &document.node(i).content {
            if e.name == "span" {
                seen = true;
                assert_eq!(e.classes, strings(&["alpha", "emlpoi30", "zeta"]));
                assert!(!document.node(i).matches(Pattern::TeamName));
            }
        }
    }
    assert!(seen);
}

#[test]
fn missing_anchor_is_no_region() {
    let page = "<html><body><div id=\"other\"><div>x</div></div></body></html>";
    let document = Document::parse(page);
    assert_eq!(get_child_nodes(&document), None);
    assert_eq!(extract(&document).err(), Some(ExtractionError::StructureNotFound));
}

#[test]
fn anchor_without_group_is_no_region() {
    let page = "<html><body><div id=\"main-data\"><p>x</p></div><div>y</div></body></html>";
    let document = Document::parse(page);
    assert_eq!(get_child_nodes(&document), None);
    let mut list = FixtureList::new();
    assert_eq!(
        get_flist(page, &mut list, 2024),
        Err(FetchError::Extraction(ExtractionError::StructureNotFound))
    );
    assert_eq!(list.get_len(), 0);
}

#[test]
fn anchor_must_be_a_div() {
    let page = "<html><body><section id=\"main-data\"><div>x</div></section></body></html>";
    let document = Document::parse(page);
    assert_eq!(get_child_nodes(&document), None);
}

#[test]
fn extraction_reads_the_four_lists_in_document_order() {
    let page = page_html(&[
        fixture_html("Saturday 14th September", "15:30", "Championship", "Leinster", "Munster"),
        fixture_html("Saturday 21st September", "17:15", "Cup", "Ulster", "Leinster"),
    ]);
    let batch = extract(&Document::parse(&page)).unwrap();
    assert_eq!(batch.dates, strings(&["Saturday 14th September", "Saturday 21st September"]));
    assert_eq!(batch.times, strings(&["15:30", "17:15"]));
    assert_eq!(batch.competitions, strings(&["Championship", "Cup"]));
    assert_eq!(batch.team_names, strings(&["Leinster", "Munster", "Ulster", "Leinster"]));
    assert!(check_schema(&batch));
}

#[test]
fn extraction_is_scoped_to_the_first_group() {
    let page = page_html(&[]);
    let batch = extract(&Document::parse(&page)).unwrap();
    assert!(batch.dates.is_empty());
    assert!(batch.times.is_empty());
    assert!(batch.competitions.is_empty());
    assert!(batch.team_names.is_empty());
}

#[test]
fn span_counts_by_its_first_class_only() {
    let nodes = vec![
        element(0, "div", Some("main-data"), &[]),
        element(1, "div", None, &[]),
        element(2, "span", None, &["emlpoi30", "zzz"]),
        text(3, "Leinster"),
        element(2, "span", None, &["aaa", "emlpoi30"]),
        text(3, "ignored"),
        element(2, "span", None, &[]),
        text(3, "ignored too"),
        element(2, "p", None, &["emlpoi30"]),
        text(3, "no span"),
    ];
    let document = Document::from_nodes(nodes);
    assert!(document.node(2).matches(Pattern::TeamName));
    assert!(!document.node(4).matches(Pattern::TeamName));
    assert!(!document.node(6).matches(Pattern::TeamName));
    assert!(!document.node(8).matches(Pattern::TeamName));
    let batch = extract(&document).unwrap();
    assert_eq!(batch.team_names, strings(&["Leinster"]));
}

#[test]
fn element_text_is_its_first_text_below() {
    let nodes = vec![
        element(0, "div", Some("main-data"), &[]),
        element(1, "div", None, &[]),
        element(2, "h2", None, &[]),
        element(3, "b", None, &[]),
        text(4, "Saturday"),
        text(3, " 14th September"),
        element(2, "h3", None, &[]),
        text(3, "Cup"),
    ];
    let document = Document::from_nodes(nodes);
    assert_eq!(document.first_text(2), Some("Saturday".to_string()));
    assert_eq!(document.first_text(3), Some("Saturday".to_string()));
    assert_eq!(document.first_text(4), None);
    assert_eq!(document.collect(2, 8, Pattern::Date), Some(strings(&["Saturday"])));
    assert_eq!(document.collect(2, 8, Pattern::Competition), Some(strings(&["Cup"])));
    assert_eq!(document.collect(2, 8, Pattern::Time), Some(Vec::new()));
    assert_eq!(document.first_match(0, 8, Pattern::Group), Some(0));
    assert_eq!(document.first_match(1, 8, Pattern::Group), Some(1));
    assert_eq!(document.first_match(2, 8, Pattern::Group), None);
    assert_eq!(document.first_match(0, 8, Pattern::Anchor), Some(0));
}

#[test]
fn heading_without_text_is_a_schema_mismatch() {
    let nodes = vec![
        element(0, "div", Some("main-data"), &[]),
        element(1, "div", None, &[]),
        element(2, "h2", None, &[]),
        element(2, "h3", None, &[]),
        text(3, "Cup"),
    ];
    let document = Document::from_nodes(nodes);
    assert_eq!(document.collect(2, 5, Pattern::Date), None);
    assert!(read_batch(&document, 1).is_none());
    assert_eq!(extract(&document).err(), Some(ExtractionError::SchemaMismatch));
}

#[test]
fn three_dates_with_five_team_names_is_a_schema_mismatch() {
    let mut fixtures = vec![
        fixture_html("Saturday 14th September", "15:30", "Championship", "Leinster", "Munster"),
        fixture_html("Saturday 21st September", "17:15", "Cup", "Ulster", "Leinster"),
    ];
    fixtures.push(
        "<h2>Saturday 28th September</h2><h3>Cup</h3><time>19:35</time>\
         <span class=\"emlpoi30\">Connacht</span>"
            .to_string(),
    );
    let page = page_html(&fixtures);
    let batch = extract(&Document::parse(&page)).unwrap();
    assert_eq!(batch.dates.len(), 3);
    assert_eq!(batch.team_names.len(), 5);
    assert!(!check_schema(&batch));
    let mut list = FixtureList::new();
    assert_eq!(
        get_flist(&page, &mut list, 2024),
        Err(FetchError::Extraction(ExtractionError::SchemaMismatch))
    );
    assert_eq!(list.get_len(), 0);
}

#[test]
fn uneven_lists_are_a_schema_mismatch() {
    let batch = FixtureBatch {
        dates: strings(&["Saturday 14th September"]),
        times: strings(&[]),
        competitions: strings(&["Cup"]),
        team_names: strings(&["Leinster", "Munster"]),
    };
    assert!(!check_schema(&batch));
    assert_eq!(
        build_fixtures(batch, 2024).err(),
        Some(FetchError::Extraction(ExtractionError::SchemaMismatch))
    );
    let batch = FixtureBatch {
        dates: strings(&["Saturday 14th September"]),
        times: strings(&["15:30"]),
        competitions: strings(&[]),
        team_names: strings(&["Leinster", "Munster"]),
    };
    assert!(!check_schema(&batch));
    let batch = FixtureBatch {
        dates: strings(&["Saturday 14th September"]),
        times: strings(&["15:30"]),
        competitions: strings(&["Cup"]),
        team_names: strings(&["Leinster", "Munster", "Ulster"]),
    };
    assert!(!check_schema(&batch));
}

#[test]
fn batch_pairs_up_to_fixtures() {
    let batch = FixtureBatch {
        dates: strings(&["Saturday 14th September", "Tuesday 10th December"]),
        times: strings(&["15:30", "15:30"]),
        competitions: strings(&["Championship", "Cup"]),
        team_names: strings(&["Leinster", "Munster", "Ulster", "Connacht"]),
    };
    let list = build_fixtures(batch, 2024).unwrap();
    assert_eq!(list.get_len(), 2);
    assert_eq!(list.get(0).home(), "Leinster");
    assert_eq!(list.get(0).away(), "Munster");
    assert_eq!(list.get(0).kickoff(), 1726324200);
    assert_eq!(list.get(0).competition(), "Championship");
    assert_eq!(list.get(1).home(), "Ulster");
    assert_eq!(list.get(1).away(), "Connacht");
    assert_eq!(list.get(1).kickoff(), 1733844600);
    assert_eq!(list.get(1).competition(), "Cup");
}

#[test]
fn unresolvable_kickoff_fails_the_page() {
    let page = page_html(&[
        fixture_html("Saturday 14th September", "15:30", "Championship", "Leinster", "Munster"),
        fixture_html("Sunday 31st March", "01:30", "Cup", "Ulster", "Leinster"),
    ]);
    let mut list = FixtureList::new();
    assert_eq!(
        get_flist(&page, &mut list, 2024),
        Err(FetchError::Time(TimeError::AmbiguousOrInvalidLocalTime))
    );
    assert_eq!(list.get_len(), 0);
    let page = page_html(&[fixture_html("Someday", "15:30", "Cup", "Ulster", "Leinster")]);
    assert_eq!(get_flist(&page, &mut list, 2024), Err(FetchError::Time(TimeError::ParseError)));
}

#[test]
fn page_fixtures_are_added_behind_what_the_list_holds() {
    let first = page_html(&[fixture_html(
        "Saturday 14th September",
        "15:30",
        "Championship",
        "Leinster",
        "Munster",
    )]);
    let second = page_html(&[
        fixture_html("Saturday 5th October", "13:00", "Cup", "Ulster", "Leinster"),
        fixture_html("Saturday 12th October", "19:35", "Cup", "Leinster", "Connacht"),
    ]);
    let mut list = FixtureList::new();
    assert_eq!(get_flist(&first, &mut list, 2024), Ok(1));
    assert_eq!(get_flist(&second, &mut list, 2024), Ok(3));
    assert_eq!(list.get(0).kickoff(), 1726324200);
    assert_eq!(list.get(1).kickoff(), 1728129600);
    assert_eq!(list.get(2).kickoff(), 1728758100);
    assert_eq!(list.get(2).home(), "Leinster");
    assert_eq!(list.get(2).away(), "Connacht");
}

#[test]
fn region_fixtures_are_added_to_the_list() {
    let page = page_html(&[fixture_html(
        "Saturday 14th September",
        "15:30",
        "Championship",
        "Leinster",
        "Munster",
    )]);
    let document = Document::parse(&page);
    let region = get_child_nodes(&document).unwrap();
    let mut list = FixtureList::new();
    assert_eq!(populate_flist(&document, region, &mut list, 2024), Ok(1));
    assert_eq!(populate_flist(&document, region, &mut list, 2024), Ok(2));
    assert_eq!(list.get(1).home(), "Leinster");
}
