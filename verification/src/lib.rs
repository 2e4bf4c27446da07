//! Reads GObject introspection documents and writes editor stubs from them.
//!
//! `xml` reads the bytes of a document into a tree of elements, `parse`
//! decodes the tree into the typed description that `library` defines, and
//! `lang` and `vimdoc` write text from that description. `laws` holds what is
//! proved of the decoder on every document.

pub mod items;
pub mod lang;
pub mod laws;
pub mod library;
pub mod parse;
pub mod text;
pub mod vimdoc;
pub mod xml;
