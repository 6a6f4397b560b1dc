//! Pagination and addressing core for reflowable markup documents.
//!
//! The library owns a parsed content tree and a lazily built, invalidatable
//! page cache, and resolves stable source offsets, fragment links, and
//! page-scoped content queries against it.  Markup parsing, style cascade,
//! layout, and rasterization are external collaborators: the host hands the
//! library a parsed tree and the raw output of the layout pipeline, and the
//! library proves everything it decides about them.

pub mod anim;
pub mod document;
pub mod dom;
pub mod geom;
pub mod page;
pub mod text;
pub mod uri_cache;
