//! A small Markdown blog renderer: fixed HTML templates, a homepage, and
//! per-slug post pages. Pages are assembled by literal placeholder
//! substitution over bytes; Markdown conversion is delegated to an outside
//! converter behind a trusted wrapper.

pub mod render;
pub mod substitute;
pub mod templates;
