//! Pages and draw commands.  A page is an ordered sequence of draw commands;
//! its start offset is the offset of its first command.  Across a built page
//! list, start offsets are strictly increasing.

use vstd::prelude::*;
use crate::geom::Rectangle;

verus! {

/// Horizontal text alignment carried by text commands.
#[derive(Clone, Copy, PartialEq, Eq, Structural, Debug)]
pub enum TextAlign {
    Left,
    Right,
    Center,
    Justify,
}

/// A positioned text run.
#[derive(Debug)]
pub struct TextCommand {
    pub text: String,
    pub rect: Rectangle,
    pub offset: usize,
    pub uri: Option<String>,
    pub align: TextAlign,
}

/// A positioned image.
#[derive(Debug)]
pub struct ImageCommand {
    pub rect: Rectangle,
    pub offset: usize,
    pub uri: Option<String>,
}

/// One renderable unit produced by layout.  A `Marker` carries only a source
/// offset: it is the sentinel for documents with no visible content.
#[derive(Debug)]
pub enum DrawCommand {
    Text(TextCommand),
    Image(ImageCommand),
    Marker(usize),
}

/// The source offset a command originates from.
pub open spec fn cmd_offset(c: DrawCommand) -> usize {
    match c {
        DrawCommand::Text(t) => t.offset,
        DrawCommand::Image(im) => im.offset,
        DrawCommand::Marker(o) => o,
    }
}

impl DrawCommand {
    pub fn offset(&self) -> (o: usize)
        ensures
            o == cmd_offset(*self),
    {
        match self {
            DrawCommand::Text(t) => t.offset,
            DrawCommand::Image(im) => im.offset,
            DrawCommand::Marker(o) => *o,
        }
    }
}

/// An ordered sequence of draw commands meant to fit one viewport.
pub type Page = Vec<DrawCommand>;

/// The start offset of a non-empty page: the offset of its first command.
pub open spec fn page_start(p: Seq<DrawCommand>) -> usize
    recommends
        p.len() > 0,
{
    cmd_offset(p[0])
}

/// Well-formedness of a built page list: every page is non-empty and start
/// offsets are strictly increasing.
pub open spec fn pages_wf(ps: Seq<Page>) -> bool {
    (forall|i: int| 0 <= i < ps.len() ==> (#[trigger] ps[i])@.len() > 0)
    && (forall|i: int, j: int|
        0 <= i < j < ps.len() ==> page_start((#[trigger] ps[i])@) < page_start((#[trigger] ps[j])@))
}

/// The pages kept from raw layout output: empty pages are dropped, and a
/// page is kept only if its start offset exceeds the start of the last page
/// kept so far (`last`).  On well-formed pipeline output nothing is dropped
/// but empty pages.
pub open spec fn filter_pages(raw: Seq<Page>, last: Option<usize>) -> Seq<Page>
    decreases raw.len(),
{
    if raw.len() == 0 {
        Seq::empty()
    } else {
        let p = raw[0];
        let rest = raw.drop_first();
        if p@.len() > 0 && (match last {
            None => true,
            Some(l) => l < page_start(p@),
        }) {
            seq![p] + filter_pages(rest, Some(page_start(p@)))
        } else {
            filter_pages(rest, last)
        }
    }
}

/// The kept pages are well formed, and all their starts exceed `last`.
pub proof fn lemma_filter_pages_wf(raw: Seq<Page>, last: Option<usize>)
    ensures
        pages_wf(filter_pages(raw, last)),
        forall|k: int|
            0 <= k < filter_pages(raw, last).len() && last is Some
                ==> last->0 < page_start((#[trigger] filter_pages(raw, last)[k])@),
    decreases raw.len(),
{
    if raw.len() == 0 {
    } else {
        let p = raw[0];
        let rest = raw.drop_first();
        if p@.len() > 0 && (match last {
            None => true,
            Some(l) => l < page_start(p@),
        }) {
            lemma_filter_pages_wf(rest, Some(page_start(p@)));
            let out = filter_pages(raw, last);
            let tail = filter_pages(rest, Some(page_start(p@)));
            assert forall|i: int, j: int| 0 <= i < j < out.len() implies
                page_start((#[trigger] out[i])@) < page_start((#[trigger] out[j])@) by {
                if i == 0 {
                    assert(out[j] == tail[j - 1]);
                } else {
                    assert(out[i] == tail[i - 1]);
                    assert(out[j] == tail[j - 1]);
                }
            }
        } else {
            lemma_filter_pages_wf(rest, last);
        }
    }
}

/// Where an extracted text record points back into the document: a dynamic
/// location is a source byte offset resolved against the current build.
#[derive(Clone, Copy, PartialEq, Eq, Structural, Debug)]
pub enum TextLocation {
    Dynamic(usize),
}

/// A piece of extracted text (a word, or a link URI) with its bounding
/// rectangle and its location in the source.
#[derive(Debug)]
pub struct BoundedText {
    pub text: String,
    pub rect: Rectangle,
    pub location: TextLocation,
}

/// The text commands of a page, as bounded-text records.
pub open spec fn words_on(cmds: Seq<DrawCommand>) -> Seq<BoundedText>
    decreases cmds.len(),
{
    if cmds.len() == 0 {
        Seq::empty()
    } else {
        let rest = words_on(cmds.drop_last());
        match cmds.last() {
            DrawCommand::Text(t) => rest.push(
                BoundedText { text: t.text, rect: t.rect, location: TextLocation::Dynamic(t.offset) },
            ),
            _ => rest,
        }
    }
}

/// The commands of a page that carry a link URI, as bounded-text records
/// whose text field holds the URI.
pub open spec fn links_on(cmds: Seq<DrawCommand>) -> Seq<BoundedText>
    decreases cmds.len(),
{
    if cmds.len() == 0 {
        Seq::empty()
    } else {
        let rest = links_on(cmds.drop_last());
        match cmds.last() {
            DrawCommand::Text(t) => match t.uri {
                Some(u) => rest.push(
                    BoundedText { text: u, rect: t.rect, location: TextLocation::Dynamic(t.offset) },
                ),
                None => rest,
            },
            DrawCommand::Image(im) => match im.uri {
                Some(u) => rest.push(
                    BoundedText { text: u, rect: im.rect, location: TextLocation::Dynamic(im.offset) },
                ),
                None => rest,
            },
            DrawCommand::Marker(_) => rest,
        }
    }
}

/// The bounding rectangles of the image commands of a page.
pub open spec fn image_views(cmds: Seq<DrawCommand>) -> Seq<Rectangle>
    decreases cmds.len(),
{
    if cmds.len() == 0 {
        Seq::empty()
    } else {
        let rest = image_views(cmds.drop_last());
        match cmds.last() {
            DrawCommand::Image(im) => rest.push(im.rect),
            _ => rest,
        }
    }
}

} // verus!
