use html_pager::anim::{handle_event, AlgoState, AnimAction, AnimEvent};
use html_pager::document::{HtmlDocument, Location, StylesheetSource};
use html_pager::dom::{Attribute, Node};
use html_pager::geom::{Point, Rectangle};
use html_pager::page::{DrawCommand, ImageCommand, Page, TextAlign, TextCommand, TextLocation};

fn rect(x0: i32, y0: i32, x1: i32, y1: i32) -> Rectangle {
    Rectangle { min: Point { x: x0, y: y0 }, max: Point { x: x1, y: y1 } }
}

fn element(tag: &str, offset: usize, attrs: Vec<(&str, &str)>, children: Vec<Node>) -> Node {
    Node {
        tag: Some(tag.to_string()),
        attrs: attrs
            .into_iter()
            .map(|(n, v)| Attribute { name: n.to_string(), value: v.to_string() })
            .collect(),
        children,
        text: None,
        offset,
    }
}

fn text_node(text: &str, offset: usize) -> Node {
    Node { tag: None, attrs: vec![], children: vec![], text: Some(text.to_string()), offset }
}

fn text_cmd(text: &str, offset: usize, uri: Option<&str>) -> DrawCommand {
    DrawCommand::Text(TextCommand {
        text: text.to_string(),
        rect: rect(0, 0, 100, 20),
        offset,
        uri: uri.map(|u| u.to_string()),
        align: TextAlign::Left,
    })
}

fn image_cmd(offset: usize, uri: Option<&str>) -> DrawCommand {
    DrawCommand::Image(ImageCommand {
        rect: rect(0, 40, 200, 140),
        offset,
        uri: uri.map(|u| u.to_string()),
    })
}

#[test]
fn fragment_link_resolves_to_node_offset() {
    let sec = element("div", 500, vec![("id", "sec2")], vec![]);
    let body = element("body", 90, vec![], vec![sec]);
    let root = element("html", 0, vec![], vec![body]);
    let doc = HtmlDocument::new_from_memory(root, 600);
    assert_eq!(doc.resolve_link("doc#sec2"), Some(500));
    assert_eq!(doc.resolve_link("doc#missing"), None);
    assert_eq!(doc.resolve_link("doc"), None);
}

#[test]
fn uri_location_resolves_through_the_fragment_cache() {
    let sec = element("h1", 120, vec![("id", "intro")], vec![]);
    let root = element("html", 0, vec![], vec![sec]);
    let doc = HtmlDocument::new_from_memory(root, 200);
    assert_eq!(doc.resolve_location(Location::Uri("book#intro".to_string())), Some(120));
    assert_eq!(doc.resolve_location(Location::LocalUri(9, "book#intro".to_string())), Some(120));
    assert_eq!(doc.resolve_location(Location::Uri("book".to_string())), None);
}

#[test]
fn later_duplicate_id_wins() {
    let a = element("div", 100, vec![("id", "dup")], vec![]);
    let b = element("div", 300, vec![("id", "dup")], vec![]);
    let root = element("html", 0, vec![], vec![a, b]);
    let doc = HtmlDocument::new_from_memory(root, 400);
    assert_eq!(doc.resolve_link("x#dup"), Some(300));
}

#[test]
fn words_returns_one_record_per_text_command() {
    let root = element("html", 0, vec![], vec![]);
    let mut doc = HtmlDocument::new_from_memory(root, 100);
    doc.ensure_pages(vec![vec![
        text_cmd("one", 0, None),
        image_cmd(3, None),
        text_cmd("two", 5, None),
        text_cmd("three", 9, None),
    ]]);
    let (words, anchor) = doc.words(Location::Exact(4)).unwrap();
    assert_eq!(anchor, 0);
    assert_eq!(words.len(), 3);
    assert_eq!(words[0].text, "one");
    assert_eq!(words[1].text, "two");
    assert_eq!(words[2].text, "three");
    assert_eq!(words[1].location, TextLocation::Dynamic(5));
    assert_eq!(words[0].rect, rect(0, 0, 100, 20));
}

#[test]
fn words_on_unbuilt_document_is_none() {
    let root = element("html", 0, vec![], vec![]);
    let doc = HtmlDocument::new_from_memory(root, 100);
    assert!(doc.words(Location::Exact(0)).is_none());
}

#[test]
fn links_collects_only_commands_with_a_uri() {
    let root = element("html", 0, vec![], vec![]);
    let mut doc = HtmlDocument::new_from_memory(root, 100);
    doc.ensure_pages(vec![vec![
        text_cmd("plain", 0, None),
        text_cmd("see", 4, Some("doc#a")),
        image_cmd(8, Some("image.png")),
        image_cmd(12, None),
    ]]);
    let (links, anchor) = doc.links(Location::Exact(0)).unwrap();
    assert_eq!(anchor, 0);
    assert_eq!(links.len(), 2);
    assert_eq!(links[0].text, "doc#a");
    assert_eq!(links[0].location, TextLocation::Dynamic(4));
    assert_eq!(links[1].text, "image.png");
}

#[test]
fn images_collects_rectangles() {
    let root = element("html", 0, vec![], vec![]);
    let mut doc = HtmlDocument::new_from_memory(root, 100);
    doc.ensure_pages(vec![vec![text_cmd("t", 0, None), image_cmd(2, None), image_cmd(6, None)]]);
    let (rects, anchor) = doc.images(Location::Exact(3)).unwrap();
    assert_eq!(anchor, 0);
    assert_eq!(rects, vec![rect(0, 40, 200, 140), rect(0, 40, 200, 140)]);
}

fn metadata_tree() -> Node {
    let title = element("title", 10, vec![], vec![text_node("A Tale", 17)]);
    let meta_author = element("meta", 30, vec![("name", "author"), ("content", "B. Writer")], vec![]);
    let meta_desc =
        element("meta", 50, vec![("name", "description"), ("content", "about things")], vec![]);
    let meta_date = element("meta", 70, vec![("name", "date"), ("content", "2021-05-01")], vec![]);
    let head = element("head", 5, vec![], vec![title, meta_author, meta_desc, meta_date]);
    let body = element("body", 90, vec![], vec![]);
    element("html", 0, vec![("xml:lang", "en")], vec![head, body])
}

#[test]
fn metadata_queries() {
    let doc = HtmlDocument::new_from_memory(metadata_tree(), 100);
    assert_eq!(doc.title().as_deref(), Some("A Tale"));
    assert_eq!(doc.author().as_deref(), Some("B. Writer"));
    assert_eq!(doc.description().as_deref(), Some("about things"));
    assert_eq!(doc.language().as_deref(), Some("en"));
    assert_eq!(doc.year().as_deref(), Some("2021"));
    assert_eq!(doc.metadata("publisher"), None);
}

#[test]
fn extracted_text_is_entity_decoded() {
    let title = element("title", 10, vec![], vec![text_node("Dombey &amp; Son &lt;3", 17)]);
    let meta_author = element(
        "meta",
        30,
        vec![("name", "author"), ("content", "&quot;B.&quot; O&apos;Writer &gt;")],
        vec![],
    );
    let head = element("head", 5, vec![], vec![title, meta_author]);
    let root = element("html", 0, vec![], vec![head]);
    let doc = HtmlDocument::new_from_memory(root, 100);
    assert_eq!(doc.title().as_deref(), Some("Dombey & Son <3"));
    assert_eq!(doc.author().as_deref(), Some("\"B.\" O'Writer >"));
}

#[test]
fn unknown_entities_pass_through() {
    let title = element("title", 10, vec![], vec![text_node("a &nbsp; b & c", 17)]);
    let head = element("head", 5, vec![], vec![title]);
    let root = element("html", 0, vec![], vec![head]);
    let doc = HtmlDocument::new_from_memory(root, 100);
    assert_eq!(doc.title().as_deref(), Some("a &nbsp; b & c"));
}

#[test]
fn year_shorter_than_four_characters_is_kept_whole() {
    let meta_date = element("meta", 70, vec![("name", "date"), ("content", "99")], vec![]);
    let head = element("head", 5, vec![], vec![meta_date]);
    let root = element("html", 0, vec![], vec![head]);
    let doc = HtmlDocument::new_from_memory(root, 100);
    assert_eq!(doc.year().as_deref(), Some("99"));
}

#[test]
fn missing_metadata_is_absence() {
    let root = element("html", 0, vec![], vec![element("body", 10, vec![], vec![])]);
    let doc = HtmlDocument::new_from_memory(root, 100);
    assert_eq!(doc.title(), None);
    assert_eq!(doc.author(), None);
    assert_eq!(doc.language(), None);
    assert_eq!(doc.year(), None);
}

#[test]
fn stylesheet_plan_orders_viewer_user_document() {
    let link =
        element("link", 10, vec![("rel", "stylesheet"), ("href", "extra.css")], vec![]);
    let style = {
        let mut s = element("style", 20, vec![("type", "text/css")], vec![]);
        s.text = Some("p { margin: 0 }".to_string());
        s
    };
    let ignored = element("link", 30, vec![("rel", "icon"), ("href", "i.png")], vec![]);
    let head = element("head", 5, vec![], vec![link, style, ignored]);
    let root = element("html", 0, vec![], vec![head]);
    let doc = HtmlDocument::new_from_memory(root, 100);
    let plan = doc.stylesheet_plan();
    assert_eq!(plan.len(), 4);
    assert!(matches!(&plan[0], StylesheetSource::File(p) if p == "css/html.css"));
    assert!(matches!(&plan[1], StylesheetSource::File(p) if p == "css/html-user.css"));
    assert!(matches!(&plan[2], StylesheetSource::File(p) if p == "extra.css"));
    assert!(matches!(&plan[3], StylesheetSource::Inline(t) if t == "p { margin: 0 }"));
}

#[test]
fn suppressing_document_css_keeps_only_viewer_and_user_sheets() {
    let link = element("link", 10, vec![("rel", "stylesheet"), ("href", "extra.css")], vec![]);
    let head = element("head", 5, vec![], vec![link]);
    let root = element("html", 0, vec![], vec![head]);
    let mut doc = HtmlDocument::new_from_memory(root, 100);
    doc.set_ignore_document_css(true);
    assert_eq!(doc.stylesheet_plan().len(), 2);
}

#[test]
fn style_context_reflects_configuration() {
    let root = element("html", 0, vec![("xml:lang", "de")], vec![]);
    let mut doc = HtmlDocument::new_from_memory(root, 100);
    doc.layout(600, 800, 1100, 167);
    doc.set_line_height(120);
    doc.set_margin_width(10);
    let sc = doc.style_context();
    assert_eq!(sc.language.as_deref(), Some("de"));
    assert_eq!(sc.font_size, 1100);
    // 11 pt * 1.2 at 167 dpi: round(1100 * 120 * 167 / 720000) = 31 px.
    assert_eq!(sc.line_height_px, 31);
    assert_eq!(sc.text_align, TextAlign::Left);
    assert_eq!(sc.start_x, 10);
    assert_eq!(sc.end_x, 590);
    assert_eq!(sc.width, 580);
}

#[test]
fn find_returns_first_match_in_preorder() {
    let inner = element("p", 40, vec![("id", "two")], vec![]);
    let first = element("p", 20, vec![("id", "one")], vec![inner]);
    let root = element("html", 0, vec![], vec![first]);
    let hit = root.find("p").unwrap();
    assert_eq!(hit.offset, 20);
    assert!(root.find("table").is_none());
}

#[test]
fn rectangle_intersection() {
    let a = rect(0, 0, 10, 10);
    let b = rect(5, 5, 20, 20);
    assert_eq!(a.intersection(&b), Some(rect(5, 5, 10, 10)));
    let c = rect(10, 0, 20, 10);
    assert_eq!(a.intersection(&c), None);
}

#[test]
fn algo_state_starts_at_origin() {
    let s = AlgoState::new();
    assert_eq!(s.pos, Point { x: 0, y: 0 });
    assert_eq!(s.vel, Point { x: 16, y: 16 });
}

#[test]
fn step_moves_and_bounces() {
    let mut s = AlgoState::new();
    let dirty = s.step(100, 100);
    assert_eq!(s.pos, Point { x: 16, y: 16 });
    assert_eq!(s.vel, Point { x: 16, y: 16 });
    assert_eq!(dirty, rect(-16, -16, 16, 16));

    let mut near = AlgoState { pos: Point { x: 96, y: 50 }, vel: Point { x: 16, y: -16 } };
    near.step(100, 100);
    assert_eq!(near.pos, Point { x: 96, y: 34 });
    assert_eq!(near.vel, Point { x: -16, y: -16 });
}

#[test]
fn events_map_to_actions() {
    assert_eq!(handle_event(&AnimEvent::FingerDown), AnimAction::StepAndNotify);
    assert_eq!(handle_event(&AnimEvent::FingerUp), AnimAction::Back);
    assert_eq!(handle_event(&AnimEvent::RenderTick), AnimAction::Step);
    assert_eq!(handle_event(&AnimEvent::Other), AnimAction::Ignore);
}
