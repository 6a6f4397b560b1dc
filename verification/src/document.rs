//! The document controller: owns the content tree and the pipeline
//! configuration, keeps a lazily built, invalidatable page cache, and
//! resolves offsets, fragment links, and page-scoped content queries
//! against it.
//!
//! Markup parsing and the layout pipeline are external collaborators: the
//! host hands `new_from_memory` a parsed tree, and when `needs_build` says
//! so it runs the pipeline on `stylesheet_plan` and `style_context` and
//! hands the raw page list to `ensure_pages`, which normalizes and caches
//! it.  Every configuration setter clears the cache, so a query after a
//! setter always sees pages rebuilt from the new configuration.

use vstd::prelude::*;
use vstd::string::*;
use crate::dom::{Node, attr_value, has_tag, spec_find, first_child_tagged, meta_named, uri_map, uri_map_kids, str_eq};
use crate::geom::Edge;
use crate::page::{Page, DrawCommand, TextAlign, TextLocation, BoundedText, cmd_offset, page_start, pages_wf, filter_pages, lemma_filter_pages_wf, words_on, links_on, image_views};
use crate::geom::Rectangle;
use crate::uri_cache::{UriCache, cache_entries, uri_cache_new, uri_cache_insert, uri_cache_get};
use crate::text::{decode_entities, decode_entities_spec};

verus! {

/// A location to resolve: an exact source offset, the page before or after
/// the one containing an offset, or a fragment URI.
#[derive(Debug)]
pub enum Location {
    Exact(usize),
    Previous(usize),
    Next(usize),
    Uri(String),
    LocalUri(usize, String),
}

/// A table-of-contents entry.  Markup documents never produce one.
#[derive(Debug)]
pub struct TocEntry {
    pub title: String,
    pub offset: usize,
}

/// A direction for chapter-relative queries.
#[derive(Clone, Copy, PartialEq, Eq, Structural, Debug)]
pub enum CycleDir {
    Previous,
    Next,
}

/// The document controller.
pub struct HtmlDocument {
    /// The parsed content tree (immutable between `update` calls).
    pub content: Node,
    /// The cached page list; empty means a rebuild is pending.
    pub pages: Vec<Page>,
    /// The resource root: the directory the document was loaded from.
    pub parent: String,
    /// The byte length of the source markup.
    pub size: usize,
    /// Path of the viewer-default style sheet.
    pub viewer_stylesheet: String,
    /// Path of the user-override style sheet.
    pub user_stylesheet: String,
    /// Whether document-supplied style sheets are suppressed.
    pub ignore_document_css: bool,
    /// Page margins, in device pixels.
    pub margin: Edge,
    /// Font size, in hundredths of a point.
    pub font_size: u32,
    /// Line height multiplier, in hundredths.
    pub line_height: u32,
    /// Text alignment.
    pub text_align: TextAlign,
    /// Font family name.
    pub font_family: String,
    /// Font search path.
    pub font_search_path: String,
    /// Viewport width in device pixels.
    pub dims_w: u32,
    /// Viewport height in device pixels.
    pub dims_h: u32,
    /// Display density, dots per inch.
    pub dpi: u16,
}

/// The unique page index an offset resolves to: the page whose start range
/// contains the offset, the first page absorbing everything below the second
/// page's start and the last page absorbing everything at or above its own.
pub open spec fn idx_of(ps: Seq<Page>, offset: usize) -> int
    decreases ps.len(),
{
    if ps.len() <= 1 {
        0
    } else if offset < page_start(ps[1]@) {
        0
    } else {
        1 + idx_of(ps.drop_first(), offset)
    }
}

/// What it means for `i` to be the page index of `offset`: the offset lies
/// at or after the page's start (except on the first page, which absorbs
/// everything below) and strictly before the next page's start (except on
/// the last page).
pub open spec fn valid_index(ps: Seq<Page>, offset: usize, i: int) -> bool {
    0 <= i < ps.len()
    && (i == 0 || page_start(ps[i]@) <= offset)
    && (i == ps.len() - 1 || offset < page_start(ps[i + 1]@))
}

/// `idx_of` always yields a valid page index when pages exist.
pub proof fn lemma_idx_of_valid(ps: Seq<Page>, offset: usize)
    requires
        ps.len() > 0,
    ensures
        valid_index(ps, offset, idx_of(ps, offset)),
    decreases ps.len(),
{
    if ps.len() <= 1 {
    } else if offset < page_start(ps[1]@) {
    } else {
        let rest = ps.drop_first();
        lemma_idx_of_valid(rest, offset);
        let k = idx_of(rest, offset);
        assert(ps[1 + k] == rest[k]);
        if k < rest.len() - 1 {
            assert(ps[1 + k + 1] == rest[k + 1]);
        }
    }
}

/// Law: an offset has exactly one page index.  Two indices that both satisfy
/// the containment property of a built page list are equal.
pub proof fn lemma_page_index_unique(ps: Seq<Page>, offset: usize, i: int, j: int)
    requires
        pages_wf(ps),
        valid_index(ps, offset, i),
        valid_index(ps, offset, j),
    ensures
        i == j,
{
    if i < j {
        assert(page_start(ps[i + 1]@) <= page_start(ps[j]@));
    } else if j < i {
        assert(page_start(ps[j + 1]@) <= page_start(ps[i]@));
    }
}

/// The page index of a page's own start offset is that page.
pub proof fn lemma_idx_of_start(ps: Seq<Page>, k: int)
    requires
        pages_wf(ps),
        0 <= k < ps.len(),
    ensures
        idx_of(ps, page_start(ps[k]@)) == k,
{
    lemma_idx_of_valid(ps, page_start(ps[k]@));
    assert(valid_index(ps, page_start(ps[k]@), k));
    lemma_page_index_unique(ps, page_start(ps[k]@), idx_of(ps, page_start(ps[k]@)), k);
}

/// The smallest index of `'#'` in `u`, or `u.len()` if there is none.
pub open spec fn first_hash(u: Seq<char>) -> int
    decreases u.len(),
{
    if u.len() == 0 {
        0
    } else if u[0] == '#' {
        0
    } else {
        1 + first_hash(u.drop_first())
    }
}

/// Whether `u` holds a `'#'`.
pub open spec fn has_hash(u: Seq<char>) -> bool {
    exists|k: int| 0 <= k < u.len() && u[k] == '#'
}

/// A position known to hold the first `'#'` pins `first_hash` down.
pub proof fn lemma_first_hash_at(u: Seq<char>, i: int)
    requires
        0 <= i < u.len(),
        u[i] == '#',
        forall|j: int| 0 <= j < i ==> u[j] != '#',
    ensures
        first_hash(u) == i,
        has_hash(u),
    decreases i,
{
    if i == 0 {
    } else {
        let rest = u.drop_first();
        assert(rest[i - 1] == u[i]);
        assert(forall|j: int| 0 <= j < i - 1 ==> rest[j] == u[j + 1] && u[j + 1] != '#');
        lemma_first_hash_at(rest, i - 1);
    }
}

/// What a fragment URI resolves to: nothing without a `'#'`; otherwise the
/// entry of the full URI in the fragment map built for the name before the
/// `'#'`.
pub open spec fn link_target(root: Node, uri: Seq<char>) -> Option<usize> {
    if !has_hash(uri) {
        None
    } else {
        let name = uri.take(first_hash(uri));
        let m = uri_map(root, name);
        if m.contains_key(uri) {
            Some(m[uri])
        } else {
            None
        }
    }
}

/// What resolving a location yields, over the built page list and the tree.
pub open spec fn resolve_loc_spec(ps: Seq<Page>, root: Node, loc: Location) -> Option<usize> {
    match loc {
        Location::Exact(o) => if ps.len() == 0 {
            None
        } else {
            Some(page_start(ps[idx_of(ps, o)]@))
        },
        Location::Previous(o) => if ps.len() == 0 || idx_of(ps, o) == 0 {
            None
        } else {
            Some(page_start(ps[idx_of(ps, o) - 1]@))
        },
        Location::Next(o) => if ps.len() == 0 || idx_of(ps, o) == ps.len() - 1 {
            None
        } else {
            Some(page_start(ps[idx_of(ps, o) + 1]@))
        },
        Location::Uri(u) => link_target(root, u@),
        Location::LocalUri(_, u) => link_target(root, u@),
    }
}

/// Law: resolving an exact location is idempotent.  Whatever offset an
/// exact resolution yields, resolving that offset exactly yields it again.
pub proof fn lemma_exact_idempotent(ps: Seq<Page>, root: Node, o: usize)
    requires
        pages_wf(ps),
    ensures
        match resolve_loc_spec(ps, root, Location::Exact(o)) {
            Some(a) => resolve_loc_spec(ps, root, Location::Exact(a)) == Some(a),
            None => ps.len() == 0,
        },
{
    if ps.len() > 0 {
        lemma_idx_of_valid(ps, o);
        let k = idx_of(ps, o);
        lemma_idx_of_start(ps, k);
    }
}

/// Law: moving to the next page and back is the identity at page
/// granularity.  From the start of page `i`, `Next` yields the start of page
/// `i + 1`, and from there `Previous` yields the start of page `i` again.
pub proof fn lemma_prev_next_inverse(ps: Seq<Page>, root: Node, i: int)
    requires
        pages_wf(ps),
        0 <= i < ps.len() - 1,
    ensures
        resolve_loc_spec(ps, root, Location::Next(page_start(ps[i]@))) == Some(page_start(ps[i + 1]@)),
        resolve_loc_spec(ps, root, Location::Previous(page_start(ps[i + 1]@))) == Some(page_start(ps[i]@)),
{
    lemma_idx_of_start(ps, i);
    lemma_idx_of_start(ps, i + 1);
}

/// Whether a page is the synthetic fallback: a single marker at `off`.
pub open spec fn is_marker_page(p: Seq<DrawCommand>, off: usize) -> bool {
    p =~= seq![DrawCommand::Marker(off)]
}

impl HtmlDocument {
    /// The controller's invariant: the cached page list is well formed and
    /// the configuration lies within the bounds the arithmetic needs.
    pub open spec fn wf(&self) -> bool {
        pages_wf(self.pages@)
        && self.font_size <= 10000
        && self.line_height <= 1000
        && self.dims_w <= 100000
        && self.dims_h <= 100000
        && -100000 <= self.margin.left <= 100000
        && -100000 <= self.margin.right <= 100000
        && -100000 <= self.margin.top <= 100000
        && -100000 <= self.margin.bottom <= 100000
    }

    /// Create a document from an already parsed content tree and the byte
    /// length of the markup it was parsed from.
    pub fn new_from_memory(content: Node, size: usize) -> (d: HtmlDocument)
        ensures
            d.wf(),
            d.content == content,
            d.size == size,
            d.pages@.len() == 0,
            d.margin == (Edge { top: 0, right: 0, bottom: 0, left: 0 }),
            d.font_size == 1100u32,
            d.line_height == 120u32,
            d.text_align == TextAlign::Left,
            d.dims_w == 600u32,
            d.dims_h == 800u32,
            d.dpi == 167u16,
            d.viewer_stylesheet@ == "css/html.css"@,
            d.user_stylesheet@ == "css/html-user.css"@,
            !d.ignore_document_css,
            d.parent@ == ""@,
    {
        HtmlDocument {
            content,
            pages: Vec::new(),
            parent: String::from_str(""),
            size,
            viewer_stylesheet: String::from_str("css/html.css"),
            user_stylesheet: String::from_str("css/html-user.css"),
            ignore_document_css: false,
            margin: Edge { top: 0, right: 0, bottom: 0, left: 0 },
            font_size: 1100,
            line_height: 120,
            text_align: TextAlign::Left,
            font_family: String::new(),
            font_search_path: String::new(),
            dims_w: 600,
            dims_h: 800,
            dpi: 167,
        }
    }

    /// Replace the content tree; the page cache is cleared.
    pub fn update(&mut self, content: Node, size: usize)
        requires
            old(self).wf(),
        ensures
            final(self).wf(),
            final(self).content == content,
            final(self).size == size,
            final(self).pages@.len() == 0,
            *final(self) == (HtmlDocument { content, size, pages: final(self).pages, ..*old(self) }),
    {
        self.content = content;
        self.size = size;
        self.pages = Vec::new();
    }

    /// Whether a page build is pending.
    pub fn needs_build(&self) -> (r: bool)
        ensures
            r == (self.pages@.len() == 0),
    {
        self.pages.len() == 0
    }

    /// Install the raw output of the layout pipeline if no pages are cached:
    /// empty pages are dropped, out-of-order pages are dropped so that start
    /// offsets are strictly increasing, and if nothing is left a single
    /// marker page at the tree's root offset is synthesized.  After the call
    /// the page list is never empty.
    pub fn ensure_pages(&mut self, raw: Vec<Page>)
        requires
            old(self).wf(),
        ensures
            final(self).wf(),
            final(self).pages@.len() > 0,
            pages_wf(final(self).pages@),
            *final(self) == (HtmlDocument { pages: final(self).pages, ..*old(self) }),
            old(self).pages@.len() > 0 ==> final(self).pages@ == old(self).pages@,
            old(self).pages@.len() == 0 && filter_pages(raw@, None).len() > 0
                ==> final(self).pages@ == filter_pages(raw@, None),
            old(self).pages@.len() == 0 && filter_pages(raw@, None).len() == 0
                ==> final(self).pages@.len() == 1
                    && is_marker_page(final(self).pages@[0]@, old(self).content.offset),
    {
        if self.pages.len() > 0 {
            return;
        }
        let ghost orig = raw@;
        let mut raw = raw;
        let mut out: Vec<Page> = Vec::new();
        let mut last: Option<usize> = None;
        while raw.len() > 0
            invariant
                filter_pages(orig, None) == out@ + filter_pages(raw@, last),
            decreases raw@.len(),
        {
            let ghost pre = raw@;
            let p = raw.remove(0);
            proof {
                assert(pre.remove(0) =~= pre.drop_first());
            }
            if p.len() > 0 {
                let s = p[0].offset();
                let keep = match last {
                    None => true,
                    Some(l) => l < s,
                };
                if keep {
                    out.push(p);
                    last = Some(s);
                }
            }
        }
        proof {
            assert(filter_pages(raw@, last) =~= Seq::<Page>::empty());
            assert(filter_pages(orig, None) =~= out@);
            lemma_filter_pages_wf(orig, None);
        }
        if out.len() == 0 {
            let mut fallback: Vec<DrawCommand> = Vec::new();
            fallback.push(DrawCommand::Marker(self.content.offset));
            out.push(fallback);
        }
        self.pages = out;
    }

    /// The page whose range contains `offset`, or nothing only while the
    /// page list is empty.  An offset equal to a page's start belongs to
    /// that page; the first page absorbs all lower offsets and the last all
    /// higher ones.
    pub fn page_index(&self, offset: usize) -> (r: Option<usize>)
        requires
            self.wf(),
        ensures
            match r {
                Some(i) => self.pages@.len() > 0 && i as int == idx_of(self.pages@, offset)
                    && valid_index(self.pages@, offset, i as int),
                None => self.pages@.len() == 0,
            },
    {
        let ghost ps = self.pages@;
        let n = self.pages.len();
        if n == 0 {
            return None;
        }
        proof {
            lemma_idx_of_valid(ps, offset);
            assert(ps.skip(0) =~= ps);
        }
        let mut i: usize = 0;
        while i + 1 < n
            invariant
                self.wf(),
                n == ps.len(),
                ps == self.pages@,
                0 <= i < n,
                idx_of(ps, offset) == i + idx_of(ps.skip(i as int), offset),
            decreases n - i,
        {
            let next_start = self.pages[i + 1][0].offset();
            proof {
                let tail = ps.skip(i as int);
                assert(tail[1] == ps[i + 1]);
                assert(page_start(tail[1]@) == next_start);
                assert(tail.drop_first() =~= ps.skip(i as int + 1));
            }
            if offset < next_start {
                proof {
                    let tail = ps.skip(i as int);
                    assert(tail.len() >= 2);
                    assert(idx_of(tail, offset) == 0);
                    lemma_idx_of_valid(ps, offset);
                }
                return Some(i);
            }
            i = i + 1;
        }
        proof {
            assert(ps.skip(i as int).len() == 1);
            lemma_idx_of_valid(ps, offset);
        }
        Some(i)
    }

    /// Resolve a location to a page-aligned source offset: an exact offset
    /// snaps to the start of its page, `Previous` and `Next` move exactly
    /// one page, and a URI resolves through the fragment map.  Pages must
    /// already be built for the offset forms to resolve.
    pub fn resolve_location(&self, loc: Location) -> (r: Option<usize>)
        requires
            self.wf(),
        ensures
            r == resolve_loc_spec(self.pages@, self.content, loc),
    {
        match loc {
            Location::Exact(offset) => {
                match self.page_index(offset) {
                    Some(i) => Some(self.pages[i][0].offset()),
                    None => None,
                }
            },
            Location::Previous(offset) => {
                match self.page_index(offset) {
                    Some(i) => if i > 0 {
                        Some(self.pages[i - 1][0].offset())
                    } else {
                        None
                    },
                    None => None,
                }
            },
            Location::Next(offset) => {
                match self.page_index(offset) {
                    Some(i) => if i < self.pages.len() - 1 {
                        Some(self.pages[i + 1][0].offset())
                    } else {
                        None
                    },
                    None => None,
                }
            },
            Location::Uri(uri) => self.resolve_link(uri.as_str()),
            Location::LocalUri(_, uri) => self.resolve_link(uri.as_str()),
        }
    }

    /// Resolve a fragment URI: nothing without a `'#'`; otherwise the tree
    /// is walked afresh into a fragment cache keyed by `"<name>#<id>"` and
    /// the full URI is looked up in it.
    pub fn resolve_link(&self, uri: &str) -> (r: Option<usize>)
        ensures
            r == link_target(self.content, uri@),
    {
        let n = uri.unicode_len();
        let mut i: usize = 0;
        while i < n
            invariant
                n == uri@.len(),
                0 <= i <= n,
                forall|j: int| 0 <= j < i ==> uri@[j] != '#',
            decreases n - i,
        {
            if uri.get_char(i) == '#' {
                proof {
                    lemma_first_hash_at(uri@, i as int);
                }
                let name = uri.substring_char(0, i);
                let mut cache = uri_cache_new();
                cache_uris(&self.content, name, &mut cache);
                proof {
                    assert(cache_entries(cache) =~= uri_map(self.content, name@));
                }
                return uri_cache_get(&cache, uri);
            }
            i = i + 1;
        }
        proof {
            assert(!has_hash(uri@));
        }
        None
    }
}

/// What the `metadata` query yields: the `content` attribute of the first
/// `meta` element under the head section whose `name` attribute equals `key`.
pub open spec fn metadata_spec(root: Node, key: Seq<char>) -> Option<Seq<char>> {
    match spec_find(root, "head"@) {
        None => None,
        Some(head) => match meta_named(head.children@, key, 0) {
            None => None,
            Some(m) => attr_value(m.attrs@, "content"@),
        },
    }
}

/// What the `title` query yields: the text of the first child of the first
/// `title` element under the head section.
pub open spec fn title_spec(root: Node) -> Option<Seq<char>> {
    match spec_find(root, "head"@) {
        None => None,
        Some(head) => match first_child_tagged(head.children@, "title"@, 0) {
            None => None,
            Some(t) => if t.children@.len() == 0 {
                None
            } else {
                match t.children@[0].text {
                    Some(s) => Some(s@),
                    None => None,
                }
            },
        },
    }
}

/// What the `language` query yields: the root element's language attribute.
pub open spec fn language_spec(root: Node) -> Option<Seq<char>> {
    match spec_find(root, "html"@) {
        Some(h) => attr_value(h.attrs@, "xml:lang"@),
        None => None,
    }
}

/// What the `year` query yields: the first four characters of the decoded
/// `date` metadata entry, or all of it when it is shorter.
pub open spec fn year_spec(root: Node) -> Option<Seq<char>> {
    match metadata_spec(root, "date"@) {
        Some(raw) => {
            let s = decode_entities_spec(raw);
            Some(s.take(if s.len() < 4 { s.len() as int } else { 4 }))
        },
        None => None,
    }
}

/// One style-sheet source for a page build: a file to fetch by path, or
/// inline style text embedded in the document.
#[derive(Debug)]
pub enum StylesheetSource {
    File(String),
    Inline(String),
}

/// The view of a style-sheet source: a flag (true for a file to fetch) and
/// the path or text characters.
pub open spec fn ss_view(s: StylesheetSource) -> (bool, Seq<char>) {
    match s {
        StylesheetSource::File(p) => (true, p@),
        StylesheetSource::Inline(t) => (false, t@),
    }
}

/// The document-supplied style sheets found among the head children
/// `cs[i..]`, in order: `link[rel=stylesheet]` elements contribute their
/// `href` as a file to fetch, and `style[type=text/css]` elements their text.
pub open spec fn doc_sheets(cs: Seq<Node>, i: int) -> Seq<(bool, Seq<char>)>
    decreases cs.len() - i,
{
    if i < 0 || i >= cs.len() {
        Seq::empty()
    } else {
        let rest = doc_sheets(cs, i + 1);
        let c = cs[i];
        if has_tag(c, "link"@) && attr_value(c.attrs@, "rel"@) == Some("stylesheet"@) {
            match attr_value(c.attrs@, "href"@) {
                Some(h) => seq![(true, h)] + rest,
                None => rest,
            }
        } else if has_tag(c, "style"@) && attr_value(c.attrs@, "type"@) == Some("text/css"@) {
            match c.text {
                Some(t) => seq![(false, t@)] + rest,
                None => rest,
            }
        } else {
            rest
        }
    }
}

/// The full style-sheet plan of a document, in cascade precedence order:
/// the viewer sheet, then the user sheet, then (unless suppressed) the
/// document's own sheets.
pub open spec fn plan_spec(doc: HtmlDocument) -> Seq<(bool, Seq<char>)> {
    let base = seq![(true, doc.viewer_stylesheet@), (true, doc.user_stylesheet@)];
    if doc.ignore_document_css {
        base
    } else {
        match spec_find(doc.content, "head"@) {
            None => base,
            Some(head) => base + doc_sheets(head.children@, 0),
        }
    }
}

/// The line height in device pixels: font size (hundredth points) times the
/// line height multiplier (hundredths) converted at `dpi` dots per 72-point
/// inch, rounded to the nearest pixel.
pub open spec fn line_height_px_spec(font_size: u32, line_height: u32, dpi: u16) -> int {
    (font_size * line_height * dpi + 360000) / 720000
}

/// The per-build style snapshot handed to the layout pipeline.
#[derive(Debug)]
pub struct StyleContext {
    pub language: Option<String>,
    pub font_size: u32,
    pub line_height_px: i32,
    pub text_align: TextAlign,
    pub start_x: i32,
    pub end_x: i32,
    pub width: i32,
}

/// Walk the subtree rooted at `node` and record, for every node carrying an
/// `id` attribute, the key `"<name>#<id>"` mapped to that node's offset.
pub fn cache_uris(node: &Node, name: &str, cache: &mut UriCache)
    ensures
        cache_entries(*final(cache)) == cache_entries(*old(cache)).union_prefer_right(
            uri_map(*node, name@),
        ),
    decreases *node, 0nat,
{
    if let Some(id) = node.attr("id") {
        let mut key = name.to_owned();
        key.append("#");
        key.append(id.as_str());
        uri_cache_insert(cache, key, node.offset);
    }
    let ghost base = cache_entries(*cache);
    let mut i: usize = 0;
    while i < node.children.len()
        invariant
            0 <= i <= node.children@.len(),
            cache_entries(*cache).union_prefer_right(uri_map_kids(node.children, name@, i as int))
                == base.union_prefer_right(uri_map_kids(node.children, name@, 0)),
        decreases node.children@.len() - i,
    {
        proof {
            assert(decreases_to!(*node => node.children));
            assert(decreases_to!(node.children => node.children[i as int]));
        }
        let ghost before = cache_entries(*cache);
        cache_uris(&node.children[i], name, cache);
        proof {
            let kid = uri_map(node.children[i as int], name@);
            let rest = uri_map_kids(node.children, name@, i as int + 1);
            assert(uri_map_kids(node.children, name@, i as int) == kid.union_prefer_right(rest));
            assert(before.union_prefer_right(kid).union_prefer_right(rest)
                =~= before.union_prefer_right(kid.union_prefer_right(rest)));
        }
        i = i + 1;
    }
    proof {
        let all = uri_map_kids(node.children, name@, 0);
        let done = uri_map_kids(node.children, name@, node.children@.len() as int);
        assert(done =~= Map::<Seq<char>, usize>::empty());
        assert(cache_entries(*cache).union_prefer_right(done) =~= cache_entries(*cache));
        match attr_value(node.attrs@, "id"@) {
            Some(id) => {
                assert(base =~= cache_entries(*old(cache)).insert(name@ + "#"@ + id, node.offset));
                assert(base.union_prefer_right(all) =~= cache_entries(*old(cache)).union_prefer_right(
                    uri_map(*node, name@),
                ));
            },
            None => {
                assert(base.union_prefer_right(all) =~= cache_entries(*old(cache)).union_prefer_right(
                    uri_map(*node, name@),
                ));
            },
        }
    }
}

impl HtmlDocument {
    /// Set the page margins; the page cache is cleared.
    pub fn set_margin(&mut self, margin: &Edge)
        requires
            old(self).wf(),
            -100000 <= margin.left <= 100000,
            -100000 <= margin.right <= 100000,
            -100000 <= margin.top <= 100000,
            -100000 <= margin.bottom <= 100000,
        ensures
            final(self).wf(),
            final(self).pages@.len() == 0,
            *final(self) == (HtmlDocument { margin: *margin, pages: final(self).pages, ..*old(self) }),
    {
        self.margin = *margin;
        self.pages = Vec::new();
    }

    /// Set a uniform margin width on all four edges; the page cache is cleared.
    pub fn set_margin_width(&mut self, width: i32)
        requires
            old(self).wf(),
            -100000 <= width <= 100000,
        ensures
            final(self).wf(),
            final(self).pages@.len() == 0,
            final(self).margin == (Edge { top: width, right: width, bottom: width, left: width }),
            *final(self) == (HtmlDocument { margin: final(self).margin, pages: final(self).pages, ..*old(self) }),
    {
        self.margin = Edge { top: width, right: width, bottom: width, left: width };
        self.pages = Vec::new();
    }

    /// Set the font size, in hundredths of a point; the page cache is cleared.
    pub fn set_font_size(&mut self, font_size: u32)
        requires
            old(self).wf(),
            font_size <= 10000,
        ensures
            final(self).wf(),
            final(self).pages@.len() == 0,
            *final(self) == (HtmlDocument { font_size, pages: final(self).pages, ..*old(self) }),
    {
        self.font_size = font_size;
        self.pages = Vec::new();
    }

    /// Set the line height multiplier, in hundredths; the page cache is cleared.
    pub fn set_line_height(&mut self, line_height: u32)
        requires
            old(self).wf(),
            line_height <= 1000,
        ensures
            final(self).wf(),
            final(self).pages@.len() == 0,
            *final(self) == (HtmlDocument { line_height, pages: final(self).pages, ..*old(self) }),
    {
        self.line_height = line_height;
        self.pages = Vec::new();
    }

    /// Set the text alignment; the page cache is cleared.
    pub fn set_text_align(&mut self, text_align: TextAlign)
        requires
            old(self).wf(),
        ensures
            final(self).wf(),
            final(self).pages@.len() == 0,
            *final(self) == (HtmlDocument { text_align, pages: final(self).pages, ..*old(self) }),
    {
        self.text_align = text_align;
        self.pages = Vec::new();
    }

    /// Set the font family and its search path; the page cache is cleared.
    pub fn set_font_family(&mut self, family_name: &str, search_path: &str)
        requires
            old(self).wf(),
        ensures
            final(self).wf(),
            final(self).pages@.len() == 0,
            final(self).font_family@ == family_name@,
            final(self).font_search_path@ == search_path@,
            *final(self) == (HtmlDocument {
                font_family: final(self).font_family,
                font_search_path: final(self).font_search_path,
                pages: final(self).pages,
                ..*old(self)
            }),
    {
        self.font_family = family_name.to_owned();
        self.font_search_path = search_path.to_owned();
        self.pages = Vec::new();
    }

    /// Set the viewer-default style-sheet path; the page cache is cleared.
    pub fn set_viewer_stylesheet(&mut self, path: &str)
        requires
            old(self).wf(),
        ensures
            final(self).wf(),
            final(self).pages@.len() == 0,
            final(self).viewer_stylesheet@ == path@,
            *final(self) == (HtmlDocument {
                viewer_stylesheet: final(self).viewer_stylesheet,
                pages: final(self).pages,
                ..*old(self)
            }),
    {
        self.viewer_stylesheet = path.to_owned();
        self.pages = Vec::new();
    }

    /// Set the user-override style-sheet path; the page cache is cleared.
    pub fn set_user_stylesheet(&mut self, path: &str)
        requires
            old(self).wf(),
        ensures
            final(self).wf(),
            final(self).pages@.len() == 0,
            final(self).user_stylesheet@ == path@,
            *final(self) == (HtmlDocument {
                user_stylesheet: final(self).user_stylesheet,
                pages: final(self).pages,
                ..*old(self)
            }),
    {
        self.user_stylesheet = path.to_owned();
        self.pages = Vec::new();
    }

    /// Suppress or allow document-supplied style sheets; the page cache is
    /// cleared.
    pub fn set_ignore_document_css(&mut self, ignore: bool)
        requires
            old(self).wf(),
        ensures
            final(self).wf(),
            final(self).pages@.len() == 0,
            *final(self) == (HtmlDocument {
                ignore_document_css: ignore,
                pages: final(self).pages,
                ..*old(self)
            }),
    {
        self.ignore_document_css = ignore;
        self.pages = Vec::new();
    }

    /// Set the viewport dimensions, font size, and display density; the page
    /// cache is cleared.
    pub fn layout(&mut self, width: u32, height: u32, font_size: u32, dpi: u16)
        requires
            old(self).wf(),
            width <= 100000,
            height <= 100000,
            font_size <= 10000,
        ensures
            final(self).wf(),
            final(self).pages@.len() == 0,
            *final(self) == (HtmlDocument {
                dims_w: width,
                dims_h: height,
                font_size,
                dpi,
                pages: final(self).pages,
                ..*old(self)
            }),
    {
        self.dims_w = width;
        self.dims_h = height;
        self.font_size = font_size;
        self.dpi = dpi;
        self.pages = Vec::new();
    }

    /// The viewport dimensions in device pixels.
    pub fn dims(&self, _index: usize) -> (r: (u32, u32))
        ensures
            r.0 == self.dims_w,
            r.1 == self.dims_h,
    {
        (self.dims_w, self.dims_h)
    }

    /// The addressable extent of the document: its source byte length.
    pub fn pages_count(&self) -> (r: usize)
        ensures
            r == self.size,
    {
        self.size
    }

    /// Markup documents carry no table of contents.
    pub fn toc(&self) -> (r: Option<Vec<TocEntry>>)
        ensures
            r is None,
    {
        None
    }

    /// Markup documents carry no chapter structure.
    pub fn chapter<'a>(&self, _offset: usize, _toc: &'a [TocEntry]) -> (r: Option<&'a TocEntry>)
        ensures
            r is None,
    {
        None
    }

    /// Markup documents carry no chapter structure.
    pub fn chapter_relative<'a>(&self, _offset: usize, _dir: CycleDir, _toc: &'a [TocEntry]) -> (r:
        Option<&'a TocEntry>)
        ensures
            r is None,
    {
        None
    }

    /// Line-level extraction is unsupported for markup documents.
    pub fn lines(&self, _loc: Location) -> (r: Option<(Vec<BoundedText>, usize)>)
        ensures
            r is None,
    {
        None
    }

    /// Markup documents reflow.
    pub fn is_reflowable(&self) -> (r: bool)
        ensures
            r,
    {
        true
    }

    /// Page numbers are synthesized from offsets, not taken from the source.
    pub fn has_synthetic_page_numbers(&self) -> (r: bool)
        ensures
            r,
    {
        true
    }

    /// The text commands of the page the location resolves to, as
    /// bounded-text records, together with the resolved anchor offset.
    pub fn words(&self, loc: Location) -> (r: Option<(Vec<BoundedText>, usize)>)
        requires
            self.wf(),
        ensures
            match r {
                Some(p) => {
                    &&& self.pages@.len() > 0
                    &&& resolve_loc_spec(self.pages@, self.content, loc) == Some(p.1)
                    &&& p.0@ == words_on(self.pages@[idx_of(self.pages@, p.1)]@)
                },
                None => resolve_loc_spec(self.pages@, self.content, loc) is None
                    || self.pages@.len() == 0,
            },
    {
        let offset = match self.resolve_location(loc) {
            Some(o) => o,
            None => {
                return None;
            },
        };
        let pi = match self.page_index(offset) {
            Some(i) => i,
            None => {
                return None;
            },
        };
        let page = &self.pages[pi];
        let mut out: Vec<BoundedText> = Vec::new();
        let mut i: usize = 0;
        while i < page.len()
            invariant
                0 <= i <= page@.len(),
                out@ == words_on(page@.take(i as int)),
            decreases page@.len() - i,
        {
            match &page[i] {
                DrawCommand::Text(t) => {
                    out.push(
                        BoundedText {
                            text: t.text.clone(),
                            rect: t.rect,
                            location: TextLocation::Dynamic(t.offset),
                        },
                    );
                },
                _ => {},
            }
            proof {
                assert(page@.take(i as int + 1).drop_last() =~= page@.take(i as int));
                assert(page@.take(i as int + 1).last() == page@[i as int]);
            }
            i = i + 1;
        }
        proof {
            assert(page@.take(page@.len() as int) =~= page@);
        }
        Some((out, offset))
    }

    /// The link-carrying commands of the page the location resolves to, as
    /// bounded-text records whose text holds the URI, together with the
    /// resolved anchor offset.
    pub fn links(&self, loc: Location) -> (r: Option<(Vec<BoundedText>, usize)>)
        requires
            self.wf(),
        ensures
            match r {
                Some(p) => {
                    &&& self.pages@.len() > 0
                    &&& resolve_loc_spec(self.pages@, self.content, loc) == Some(p.1)
                    &&& p.0@ == links_on(self.pages@[idx_of(self.pages@, p.1)]@)
                },
                None => resolve_loc_spec(self.pages@, self.content, loc) is None
                    || self.pages@.len() == 0,
            },
    {
        let offset = match self.resolve_location(loc) {
            Some(o) => o,
            None => {
                return None;
            },
        };
        let pi = match self.page_index(offset) {
            Some(i) => i,
            None => {
                return None;
            },
        };
        let page = &self.pages[pi];
        let mut out: Vec<BoundedText> = Vec::new();
        let mut i: usize = 0;
        while i < page.len()
            invariant
                0 <= i <= page@.len(),
                out@ == links_on(page@.take(i as int)),
            decreases page@.len() - i,
        {
            match &page[i] {
                DrawCommand::Text(t) => {
                    match &t.uri {
                        Some(u) => {
                            out.push(
                                BoundedText {
                                    text: u.clone(),
                                    rect: t.rect,
                                    location: TextLocation::Dynamic(t.offset),
                                },
                            );
                        },
                        None => {},
                    }
                },
                DrawCommand::Image(im) => {
                    match &im.uri {
                        Some(u) => {
                            out.push(
                                BoundedText {
                                    text: u.clone(),
                                    rect: im.rect,
                                    location: TextLocation::Dynamic(im.offset),
                                },
                            );
                        },
                        None => {},
                    }
                },
                DrawCommand::Marker(_) => {},
            }
            proof {
                assert(page@.take(i as int + 1).drop_last() =~= page@.take(i as int));
                assert(page@.take(i as int + 1).last() == page@[i as int]);
            }
            i = i + 1;
        }
        proof {
            assert(page@.take(page@.len() as int) =~= page@);
        }
        Some((out, offset))
    }

    /// The bounding rectangles of the images on the page the location
    /// resolves to, together with the resolved anchor offset.
    pub fn images(&self, loc: Location) -> (r: Option<(Vec<Rectangle>, usize)>)
        requires
            self.wf(),
        ensures
            match r {
                Some(p) => {
                    &&& self.pages@.len() > 0
                    &&& resolve_loc_spec(self.pages@, self.content, loc) == Some(p.1)
                    &&& p.0@ == image_views(self.pages@[idx_of(self.pages@, p.1)]@)
                },
                None => resolve_loc_spec(self.pages@, self.content, loc) is None
                    || self.pages@.len() == 0,
            },
    {
        let offset = match self.resolve_location(loc) {
            Some(o) => o,
            None => {
                return None;
            },
        };
        let pi = match self.page_index(offset) {
            Some(i) => i,
            None => {
                return None;
            },
        };
        let page = &self.pages[pi];
        let mut out: Vec<Rectangle> = Vec::new();
        let mut i: usize = 0;
        while i < page.len()
            invariant
                0 <= i <= page@.len(),
                out@ == image_views(page@.take(i as int)),
            decreases page@.len() - i,
        {
            match &page[i] {
                DrawCommand::Image(im) => {
                    out.push(im.rect);
                },
                _ => {},
            }
            proof {
                assert(page@.take(i as int + 1).drop_last() =~= page@.take(i as int));
                assert(page@.take(i as int + 1).last() == page@[i as int]);
            }
            i = i + 1;
        }
        proof {
            assert(page@.take(page@.len() as int) =~= page@);
        }
        Some((out, offset))
    }

    /// The `content` attribute of the first head `meta` element whose
    /// `name` attribute equals `key`, with entity decoding applied.
    pub fn metadata(&self, key: &str) -> (r: Option<String>)
        ensures
            match r {
                Some(s) => (match metadata_spec(self.content, key@) {
                    Some(raw) => s@ == decode_entities_spec(raw),
                    None => false,
                }),
                None => metadata_spec(self.content, key@) is None,
            },
    {
        let head = match self.content.find("head") {
            Some(h) => h,
            None => {
                return None;
            },
        };
        let mut i: usize = 0;
        while i < head.children.len()
            invariant
                0 <= i <= head.children@.len(),
                spec_find(self.content, "head"@) == Some(*head),
                meta_named(head.children@, key@, 0) == meta_named(head.children@, key@, i as int),
            decreases head.children@.len() - i,
        {
            let c = &head.children[i];
            if c.tag_is("meta") {
                let name_matches = match c.attr("name") {
                    Some(v) => str_eq(v.as_str(), key),
                    None => false,
                };
                if name_matches {
                    return match c.attr("content") {
                        Some(s) => Some(decode_entities(s.as_str())),
                        None => None,
                    };
                }
            }
            i = i + 1;
        }
        None
    }

    /// The document title: the text of the first child of the first head
    /// `title` element, with entity decoding applied.
    pub fn title(&self) -> (r: Option<String>)
        ensures
            match r {
                Some(s) => (match title_spec(self.content) {
                    Some(raw) => s@ == decode_entities_spec(raw),
                    None => false,
                }),
                None => title_spec(self.content) is None,
            },
    {
        let head = match self.content.find("head") {
            Some(h) => h,
            None => {
                return None;
            },
        };
        let mut i: usize = 0;
        while i < head.children.len()
            invariant
                0 <= i <= head.children@.len(),
                spec_find(self.content, "head"@) == Some(*head),
                first_child_tagged(head.children@, "title"@, 0) == first_child_tagged(
                    head.children@,
                    "title"@,
                    i as int,
                ),
            decreases head.children@.len() - i,
        {
            let c = &head.children[i];
            if c.tag_is("title") {
                if c.children.len() == 0 {
                    return None;
                }
                return match &c.children[0].text {
                    Some(s) => Some(decode_entities(s.as_str())),
                    None => None,
                };
            }
            i = i + 1;
        }
        None
    }

    /// The `author` metadata entry, with entity decoding applied.
    pub fn author(&self) -> (r: Option<String>)
        ensures
            match r {
                Some(s) => (match metadata_spec(self.content, "author"@) {
                    Some(raw) => s@ == decode_entities_spec(raw),
                    None => false,
                }),
                None => metadata_spec(self.content, "author"@) is None,
            },
    {
        self.metadata("author")
    }

    /// The `description` metadata entry, with entity decoding applied.
    pub fn description(&self) -> (r: Option<String>)
        ensures
            match r {
                Some(s) => (match metadata_spec(self.content, "description"@) {
                    Some(raw) => s@ == decode_entities_spec(raw),
                    None => false,
                }),
                None => metadata_spec(self.content, "description"@) is None,
            },
    {
        self.metadata("description")
    }

    /// Markup documents carry no category metadata.
    pub fn categories(&self) -> (r: Option<String>)
        ensures
            r is None,
    {
        None
    }

    /// The root element's language attribute.
    pub fn language(&self) -> (r: Option<String>)
        ensures
            match r {
                Some(s) => language_spec(self.content) == Some(s@),
                None => language_spec(self.content) is None,
            },
    {
        match self.content.find("html") {
            Some(h) => match h.attr("xml:lang") {
                Some(v) => Some(v.clone()),
                None => None,
            },
            None => None,
        }
    }

    /// The publication year: the first four characters of the `date`
    /// metadata entry.
    pub fn year(&self) -> (r: Option<String>)
        ensures
            match r {
                Some(s) => year_spec(self.content) == Some(s@),
                None => year_spec(self.content) is None,
            },
    {
        match self.metadata("date") {
            Some(s) => {
                let n = s.as_str().unicode_len();
                let k: usize = if n < 4 {
                    n
                } else {
                    4
                };
                Some(s.as_str().substring_char(0, k).to_owned())
            },
            None => None,
        }
    }

    /// The style-sheet sources of the next build, in cascade precedence
    /// order: the viewer sheet, the user sheet, then the document's own
    /// sheets unless suppressed.
    pub fn stylesheet_plan(&self) -> (r: Vec<StylesheetSource>)
        ensures
            r@.map_values(|s: StylesheetSource| ss_view(s)) == plan_spec(*self),
    {
        let mut out: Vec<StylesheetSource> = Vec::new();
        out.push(StylesheetSource::File(self.viewer_stylesheet.clone()));
        out.push(StylesheetSource::File(self.user_stylesheet.clone()));
        proof {
            assert(out@.map_values(|s: StylesheetSource| ss_view(s)) =~= seq![
                (true, self.viewer_stylesheet@),
                (true, self.user_stylesheet@),
            ]);
        }
        if self.ignore_document_css {
            return out;
        }
        let head = match self.content.find("head") {
            Some(h) => h,
            None => {
                return out;
            },
        };
        let ghost base = out@.map_values(|s: StylesheetSource| ss_view(s));
        let mut i: usize = 0;
        while i < head.children.len()
            invariant
                0 <= i <= head.children@.len(),
                spec_find(self.content, "head"@) == Some(*head),
                base == seq![(true, self.viewer_stylesheet@), (true, self.user_stylesheet@)],
                base + doc_sheets(head.children@, 0) == out@.map_values(
                    |s: StylesheetSource| ss_view(s),
                ) + doc_sheets(head.children@, i as int),
            decreases head.children@.len() - i,
        {
            let ghost views = out@.map_values(|s: StylesheetSource| ss_view(s));
            let c = &head.children[i];
            let is_link = c.tag_is("link") && (match c.attr("rel") {
                Some(v) => str_eq(v.as_str(), "stylesheet"),
                None => false,
            });
            if is_link {
                match c.attr("href") {
                    Some(h) => {
                        out.push(StylesheetSource::File(h.clone()));
                        proof {
                            assert(out@.map_values(|s: StylesheetSource| ss_view(s)) =~= views.push(
                                (true, h@),
                            ));
                            assert(views + (seq![(true, h@)] + doc_sheets(
                                head.children@,
                                i as int + 1,
                            )) =~= views.push((true, h@)) + doc_sheets(head.children@, i as int + 1));
                        }
                    },
                    None => {},
                }
            } else {
                let is_style = c.tag_is("style") && (match c.attr("type") {
                    Some(v) => str_eq(v.as_str(), "text/css"),
                    None => false,
                });
                if is_style {
                    match &c.text {
                        Some(t) => {
                            out.push(StylesheetSource::Inline(t.clone()));
                            proof {
                                assert(out@.map_values(|s: StylesheetSource| ss_view(s))
                                    =~= views.push((false, t@)));
                                assert(views + (seq![(false, t@)] + doc_sheets(
                                    head.children@,
                                    i as int + 1,
                                )) =~= views.push((false, t@)) + doc_sheets(
                                    head.children@,
                                    i as int + 1,
                                ));
                            }
                        },
                        None => {},
                    }
                }
            }
            i = i + 1;
        }
        proof {
            assert(doc_sheets(head.children@, head.children@.len() as int) =~= Seq::<(
                bool,
                Seq<char>,
            )>::empty());
            assert(out@.map_values(|s: StylesheetSource| ss_view(s)) + doc_sheets(
                head.children@,
                head.children@.len() as int,
            ) =~= out@.map_values(|s: StylesheetSource| ss_view(s)));
        }
        out
    }

    /// The per-build style snapshot: content area after margin shrink, font
    /// size, line height in device pixels, alignment, and the document
    /// language.
    pub fn style_context(&self) -> (sc: StyleContext)
        requires
            self.wf(),
        ensures
            (match sc.language {
                Some(l) => language_spec(self.content) == Some(l@),
                None => language_spec(self.content) is None,
            }),
            sc.font_size == self.font_size,
            sc.line_height_px == line_height_px_spec(self.font_size, self.line_height, self.dpi),
            sc.text_align == self.text_align,
            sc.start_x == self.margin.left,
            sc.end_x == self.dims_w - self.margin.right,
            sc.width == sc.end_x - sc.start_x,
    {
        let language = match self.content.find("html") {
            Some(h) => match h.attr("xml:lang") {
                Some(v) => Some(v.clone()),
                None => None,
            },
            None => None,
        };
        proof {
            assert(self.font_size as int * self.line_height as int <= 10000 * 1000)
                by (nonlinear_arith)
                requires
                    self.font_size <= 10000,
                    self.line_height <= 1000,
            ;
            assert(self.font_size as int * self.line_height as int * self.dpi as int
                <= 10000 * 1000 * 65535) by (nonlinear_arith)
                requires
                    self.font_size as int * self.line_height as int <= 10000 * 1000,
                    self.dpi <= 65535,
            ;
        }
        let num: u64 = self.font_size as u64 * self.line_height as u64 * self.dpi as u64 + 360000;
        let line_height_px = (num / 720000) as i32;
        let start_x = self.margin.left;
        let end_x = self.dims_w as i32 - self.margin.right;
        StyleContext {
            language,
            font_size: self.font_size,
            line_height_px,
            text_align: self.text_align,
            start_x,
            end_x,
            width: end_x - start_x,
        }
    }
}

} // verus!
