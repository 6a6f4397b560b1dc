use html_pager::document::{HtmlDocument, Location};
use html_pager::geom::Edge;
use html_pager::dom::{Attribute, Node};
use html_pager::geom::{Point, Rectangle};
use html_pager::page::{DrawCommand, Page, TextAlign, TextCommand};

fn rect(x0: i32, y0: i32, x1: i32, y1: i32) -> Rectangle {
    Rectangle { min: Point { x: x0, y: y0 }, max: Point { x: x1, y: y1 } }
}

fn text_cmd(text: &str, offset: usize) -> DrawCommand {
    DrawCommand::Text(TextCommand {
        text: text.to_string(),
        rect: rect(0, 0, 100, 20),
        offset,
        uri: None,
        align: TextAlign::Left,
    })
}

fn element(tag: &str, offset: usize, attrs: Vec<(&str, &str)>, children: Vec<Node>) -> Node {
    Node {
        tag: Some(tag.to_string()),
        attrs: attrs
            .into_iter()
            .map(|(n, v)| Attribute { name: n.to_string(), value: v.to_string() })
            .collect(),
        children,
        text: None,
        offset,
    }
}

fn doc_with_pages(starts: &[usize]) -> HtmlDocument {
    let root = element("html", 0, vec![], vec![]);
    let mut doc = HtmlDocument::new_from_memory(root, 1000);
    let raw: Vec<Page> = starts.iter().map(|&s| vec![text_cmd("x", s)]).collect();
    doc.ensure_pages(raw);
    doc
}

fn page_starts(doc: &HtmlDocument) -> Vec<usize> {
    doc.pages.iter().map(|p| p[0].offset()).collect()
}

#[test]
fn empty_document_gets_one_marker_page() {
    let root = element("html", 7, vec![], vec![]);
    let mut doc = HtmlDocument::new_from_memory(root, 0);
    assert!(doc.needs_build());
    doc.ensure_pages(Vec::new());
    assert!(!doc.needs_build());
    assert_eq!(doc.pages.len(), 1);
    assert_eq!(doc.pages[0].len(), 1);
    assert!(matches!(doc.pages[0][0], DrawCommand::Marker(7)));
    assert_eq!(doc.resolve_location(Location::Exact(0)), Some(7));
}

#[test]
fn empty_raw_pages_are_dropped() {
    let root = element("html", 0, vec![], vec![]);
    let mut doc = HtmlDocument::new_from_memory(root, 100);
    let raw: Vec<Page> = vec![vec![], vec![text_cmd("a", 10)], vec![], vec![text_cmd("b", 30)]];
    doc.ensure_pages(raw);
    assert_eq!(page_starts(&doc), vec![10, 30]);
}

#[test]
fn out_of_order_raw_pages_are_dropped() {
    let root = element("html", 0, vec![], vec![]);
    let mut doc = HtmlDocument::new_from_memory(root, 100);
    let raw: Vec<Page> =
        vec![vec![text_cmd("a", 10)], vec![text_cmd("b", 5)], vec![text_cmd("c", 20)]];
    doc.ensure_pages(raw);
    let starts = page_starts(&doc);
    assert_eq!(starts, vec![10, 20]);
    for w in starts.windows(2) {
        assert!(w[0] < w[1]);
    }
}

#[test]
fn whitespace_only_layout_output_falls_back_to_marker() {
    let root = element("html", 3, vec![], vec![]);
    let mut doc = HtmlDocument::new_from_memory(root, 4);
    doc.ensure_pages(vec![vec![], vec![]]);
    assert_eq!(doc.pages.len(), 1);
    assert!(matches!(doc.pages[0][0], DrawCommand::Marker(3)));
}

#[test]
fn page_index_uses_start_ranges() {
    let doc = doc_with_pages(&[0, 100, 200]);
    assert_eq!(doc.page_index(0), Some(0));
    assert_eq!(doc.page_index(99), Some(0));
    assert_eq!(doc.page_index(100), Some(1));
    assert_eq!(doc.page_index(150), Some(1));
    assert_eq!(doc.page_index(200), Some(2));
    assert_eq!(doc.page_index(5000), Some(2));
}

#[test]
fn first_page_absorbs_offsets_below_its_start() {
    let doc = doc_with_pages(&[10, 20]);
    assert_eq!(doc.page_index(0), Some(0));
    assert_eq!(doc.page_index(9), Some(0));
}

#[test]
fn page_index_on_unbuilt_document_is_none() {
    let root = element("html", 0, vec![], vec![]);
    let doc = HtmlDocument::new_from_memory(root, 10);
    assert_eq!(doc.page_index(0), None);
}

#[test]
fn exact_resolution_snaps_to_page_start() {
    let doc = doc_with_pages(&[0, 100, 200]);
    assert_eq!(doc.resolve_location(Location::Exact(150)), Some(100));
}

#[test]
fn exact_resolution_is_idempotent() {
    let doc = doc_with_pages(&[0, 100, 200]);
    for probe in [0usize, 42, 100, 199, 200, 999] {
        let a = doc.resolve_location(Location::Exact(probe)).unwrap();
        let b = doc.resolve_location(Location::Exact(a)).unwrap();
        assert_eq!(a, b);
    }
}

#[test]
fn previous_and_next_are_inverses_at_page_granularity() {
    let doc = doc_with_pages(&[0, 100, 200]);
    let starts = page_starts(&doc);
    for i in 0..starts.len() - 1 {
        assert_eq!(doc.resolve_location(Location::Next(starts[i])), Some(starts[i + 1]));
        assert_eq!(doc.resolve_location(Location::Previous(starts[i + 1])), Some(starts[i]));
    }
}

#[test]
fn previous_on_first_page_and_next_on_last_page_are_none() {
    let doc = doc_with_pages(&[0, 100]);
    assert_eq!(doc.resolve_location(Location::Previous(50)), None);
    assert_eq!(doc.resolve_location(Location::Next(100)), None);
}

#[test]
fn setter_invalidates_and_rebuild_sees_new_output() {
    let mut doc = doc_with_pages(&[0, 100]);
    assert!(!doc.needs_build());
    doc.set_font_size(2400);
    assert!(doc.needs_build());
    // A rebuild with different boundaries (as a bigger font would give)
    // is picked up; the old list is not reused.
    doc.ensure_pages(vec![vec![text_cmd("a", 0)], vec![text_cmd("b", 50)], vec![
        text_cmd("c", 100),
    ]]);
    assert_eq!(page_starts(&doc), vec![0, 50, 100]);
}

#[test]
fn every_setter_clears_the_page_cache() {
    let builders: Vec<Box<dyn Fn(&mut HtmlDocument)>> = vec![
        Box::new(|d| d.set_margin(&Edge { top: 1, right: 1, bottom: 1, left: 1 })),
        Box::new(|d| d.set_margin_width(4)),
        Box::new(|d| d.set_font_size(1500)),
        Box::new(|d| d.set_line_height(150)),
        Box::new(|d| d.set_text_align(TextAlign::Justify)),
        Box::new(|d| d.set_font_family("Serif", "/fonts")),
        Box::new(|d| d.set_viewer_stylesheet("a.css")),
        Box::new(|d| d.set_user_stylesheet("b.css")),
        Box::new(|d| d.set_ignore_document_css(true)),
        Box::new(|d| d.layout(1000, 1400, 1200, 300)),
    ];
    for setter in builders {
        let mut doc = doc_with_pages(&[0, 100]);
        assert!(!doc.needs_build());
        setter(&mut doc);
        assert!(doc.needs_build());
    }
}

#[test]
fn ensure_pages_keeps_an_existing_build() {
    let mut doc = doc_with_pages(&[0, 100]);
    doc.ensure_pages(vec![vec![text_cmd("z", 500)]]);
    assert_eq!(page_starts(&doc), vec![0, 100]);
}

#[test]
fn update_replaces_content_and_clears_pages() {
    let mut doc = doc_with_pages(&[0, 100]);
    let new_root = element("html", 42, vec![], vec![]);
    doc.update(new_root, 7);
    assert!(doc.needs_build());
    assert_eq!(doc.pages_count(), 7);
    assert_eq!(doc.content.offset, 42);
}

#[test]
fn document_defaults() {
    let root = element("html", 0, vec![], vec![]);
    let doc = HtmlDocument::new_from_memory(root, 55);
    assert_eq!(doc.pages_count(), 55);
    assert_eq!(doc.dims(0), (600, 800));
    assert!(doc.toc().is_none());
    assert!(doc.chapter(0, &[]).is_none());
    assert!(doc.lines(Location::Exact(0)).is_none());
    assert!(doc.is_reflowable());
    assert!(doc.has_synthetic_page_numbers());
    assert!(doc.categories().is_none());
}
