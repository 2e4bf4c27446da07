//! The decoder: from the element tree of a document to a `Repository`.
//!
//! Every decoding function has two specification functions beside it. One
//! gives the first fault of the element, in document order, if it has one; the
//! other gives the value that the element decodes to when it has none. The
//! function returns what `checked` makes of the two.
//!
//! An element is read in this order: its own attributes, then its children as
//! they stand in the document, then what must hold of the children together
//! (a return value that is missing). The first fault ends the decoding.

pub mod error;
pub mod tag;
pub mod attr;
pub mod docs;
pub mod children;
pub mod types;
pub mod callable;
pub mod members;
pub mod composite;
pub mod repository;

pub use self::error::{DecodeError, DecodeErrorView};
pub use self::tag::{classify, Tag};
pub use self::attr::{attr_bool, attr_required, attr_value, attribute, AttrValue};
pub use self::docs::{
    get_doc, get_doc_versioned, get_source_position, read_infoattrs, read_infoelements,
};
pub use self::children::Scope;
pub use self::types::{r_anytype, read_anytype};
pub use self::callable::{read_function, read_param, read_signal};
pub use self::members::{
    read_alias, read_bitfield, read_boxed, read_constant, read_enumeration, read_field,
    read_member, read_property,
};
pub use self::composite::{read_interface, read_union};
pub use self::repository::{
    is_empty_c_type, parse_gir, read_cinclude, read_include, read_namespace, read_package,
    read_repository,
};
