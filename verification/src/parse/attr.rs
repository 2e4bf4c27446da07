//! Attributes: text, booleans, and values that are written as text.

use crate::library::{ParameterDirection, ParameterScope, Transfer, Version};
use crate::parse::error::{checked, outcome, DecodeError, DecodeErrorView};
use crate::parse::tag::{tag_of, Tag};
use crate::text::{
    chars_of, decimal_up_to, find_char, parse_decimal, position_of, same_text, text_of,
};
use crate::xml::{XmlElement, XmlElementView};
use vstd::prelude::*;

verus! {

impl XmlElementView {
    /// The tag that the element's name stands for.
    pub open spec fn tag(self) -> Tag {
        tag_of(self.name)
    }

    /// The attribute `name`, or the empty string where it is absent.
    pub open spec fn text_attr(self, name: Seq<char>) -> Seq<char> {
        match self.attr(name) {
            Some(value) => value,
            None => Seq::empty(),
        }
    }

    /// The fault of an element that lacks the attribute `name`.
    pub open spec fn missing(self, name: Seq<char>) -> Option<DecodeErrorView> {
        match self.attr(name) {
            Some(_) => None,
            None => Some(DecodeErrorView::MissingAttribute { element: self.name, attribute: name }),
        }
    }

    /// The fault of an element whose attribute `name` holds `value`.
    pub open spec fn invalid(self, name: Seq<char>, value: Seq<char>) -> DecodeErrorView {
        DecodeErrorView::InvalidValue { element: self.name, attribute: name, value }
    }

    /// The boolean attribute `name`: `"0"` is false and `"1"` is true.
    pub open spec fn flag(self, name: Seq<char>) -> Option<bool> {
        match self.attr(name) {
            Some(value) => if value == "0"@ {
                Some(false)
            } else if value == "1"@ {
                Some(true)
            } else {
                None
            },
            None => None,
        }
    }

    /// The boolean attribute `name`, or `default` where it is absent.
    pub open spec fn flag_or(self, name: Seq<char>, default: bool) -> bool {
        match self.flag(name) {
            Some(value) => value,
            None => default,
        }
    }

    /// The fault of a boolean attribute that holds neither `"0"` nor `"1"`.
    pub open spec fn bad_flag(self, name: Seq<char>) -> Option<DecodeErrorView> {
        match self.attr(name) {
            Some(value) => if value == "0"@ || value == "1"@ {
                None
            } else {
                Some(self.invalid(name, value))
            },
            None => None,
        }
    }

    /// The attribute `name` read as a `T`.
    pub open spec fn value<T: AttrValue>(self, name: Seq<char>) -> Option<T> {
        match self.attr(name) {
            Some(text) => T::parsed(text),
            None => None,
        }
    }

    /// The fault of an attribute `name` that cannot be read as a `T`.
    pub open spec fn bad_value<T: AttrValue>(self, name: Seq<char>) -> Option<DecodeErrorView> {
        match self.attr(name) {
            Some(text) => if T::parsed(text) is Some {
                None
            } else {
                Some(self.invalid(name, text))
            },
            None => None,
        }
    }

    /// The attribute `name` read as a `T`, or `default` where it is absent.
    pub open spec fn value_or<T: AttrValue>(self, name: Seq<char>, default: T) -> T {
        match self.value::<T>(name) {
            Some(value) => value,
            None => default,
        }
    }
}

/// A value that an attribute can hold in text.
pub trait AttrValue: Sized {
    /// The value that `text` writes, if it writes one.
    spec fn parsed(text: Seq<char>) -> Option<Self>;

    /// Reads the value that `text` writes.
    fn parse(text: &str) -> (value: Option<Self>)
        ensures
            value == Self::parsed(text@),
    ;
}

impl AttrValue for ParameterScope {
    open spec fn parsed(text: Seq<char>) -> Option<Self> {
        if text == "call"@ {
            Some(ParameterScope::Call)
        } else if text == "async"@ {
            Some(ParameterScope::Async)
        } else if text == "notified"@ {
            Some(ParameterScope::Notified)
        } else {
            None
        }
    }

    fn parse(text: &str) -> (value: Option<Self>) {
        if same_text(text, "call") {
            Some(ParameterScope::Call)
        } else if same_text(text, "async") {
            Some(ParameterScope::Async)
        } else if same_text(text, "notified") {
            Some(ParameterScope::Notified)
        } else {
            None
        }
    }
}

impl AttrValue for ParameterDirection {
    open spec fn parsed(text: Seq<char>) -> Option<Self> {
        if text == "in"@ {
            Some(ParameterDirection::In)
        } else if text == "out"@ {
            Some(ParameterDirection::Out)
        } else if text == "inout"@ {
            Some(ParameterDirection::InOut)
        } else {
            None
        }
    }

    fn parse(text: &str) -> (value: Option<Self>) {
        if same_text(text, "in") {
            Some(ParameterDirection::In)
        } else if same_text(text, "out") {
            Some(ParameterDirection::Out)
        } else if same_text(text, "inout") {
            Some(ParameterDirection::InOut)
        } else {
            None
        }
    }
}

impl AttrValue for Transfer {
    open spec fn parsed(text: Seq<char>) -> Option<Self> {
        if text == "none"@ {
            Some(Transfer::Nothing)
        } else if text == "container"@ {
            Some(Transfer::Container)
        } else if text == "full"@ {
            Some(Transfer::Full)
        } else {
            None
        }
    }

    fn parse(text: &str) -> (value: Option<Self>) {
        if same_text(text, "none") {
            Some(Transfer::Nothing)
        } else if same_text(text, "container") {
            Some(Transfer::Container)
        } else if same_text(text, "full") {
            Some(Transfer::Full)
        } else {
            None
        }
    }
}

impl AttrValue for usize {
    open spec fn parsed(text: Seq<char>) -> Option<Self> {
        match decimal_up_to(text, usize::MAX as nat) {
            Some(n) => Some(n as usize),
            None => None,
        }
    }

    fn parse(text: &str) -> (value: Option<Self>) {
        match parse_decimal(text, usize::MAX as u64) {
            Some(n) => Some(n as usize),
            None => None,
        }
    }
}

impl AttrValue for u32 {
    open spec fn parsed(text: Seq<char>) -> Option<Self> {
        match decimal_up_to(text, u32::MAX as nat) {
            Some(n) => Some(n as u32),
            None => None,
        }
    }

    fn parse(text: &str) -> (value: Option<Self>) {
        match parse_decimal(text, u32::MAX as u64) {
            Some(n) => Some(n as u32),
            None => None,
        }
    }
}

/// What stands before the first `.` of `text`.
pub open spec fn before_dot(text: Seq<char>) -> Seq<char> {
    text.take(position_of(text, '.'))
}

/// What stands after the first `.` of `text`, where it has one.
pub open spec fn after_dot(text: Seq<char>) -> Option<Seq<char>> {
    if position_of(text, '.') < text.len() {
        Some(text.skip(position_of(text, '.') + 1))
    } else {
        None
    }
}

/// The number before the first `.` of `text`, where it is one that a part of
/// a version can hold.
pub open spec fn leading_part(text: Seq<char>) -> Option<u16> {
    match decimal_up_to(before_dot(text), u16::MAX as nat) {
        Some(n) => Some(n as u16),
        None => None,
    }
}

/// The version that `text` writes: its first three parts, split at `.`. A
/// part that is no number ends the reading; that part and what follows it
/// count as zero.
pub open spec fn version_of(text: Seq<char>) -> Version {
    match leading_part(text) {
        None => Version(0, 0, 0),
        Some(major) => match after_dot(text) {
            None => Version(major, 0, 0),
            Some(rest) => match leading_part(rest) {
                None => Version(major, 0, 0),
                Some(minor) => match after_dot(rest) {
                    None => Version(major, minor, 0),
                    Some(last) => match leading_part(last) {
                        None => Version(major, minor, 0),
                        Some(micro) => Version(major, minor, micro),
                    },
                },
            },
        },
    }
}

/// Splits `text` at its first `.`: what stands before it, and what stands
/// after it where there is one.
fn split_at_dot(text: &str) -> (parts: (String, Option<String>))
    ensures
        parts.0@ == before_dot(text@),
        parts.1.deep_view() == after_dot(text@),
{
    let chars = chars_of(text);
    assert(chars@.skip(0) =~= chars@);
    let at = find_char(&chars, 0, '.');
    let head = text_of(&chars, 0, at);
    if at < chars.len() {
        (head, Some(text_of(&chars, at + 1, chars.len())))
    } else {
        (head, None)
    }
}

/// Reads the number before the first `.` of `text`.
fn read_leading_part(text: &str) -> (read: (Option<u16>, Option<String>))
    ensures
        read.0 == leading_part(text@),
        read.1.deep_view() == after_dot(text@),
{
    let (head, tail) = split_at_dot(text);
    match parse_decimal(head.as_str(), u16::MAX as u64) {
        Some(n) => (Some(n as u16), tail),
        None => (None, tail),
    }
}

impl AttrValue for Version {
    open spec fn parsed(text: Seq<char>) -> Option<Self> {
        Some(version_of(text))
    }

    fn parse(text: &str) -> (value: Option<Self>) {
        let (major, rest) = read_leading_part(text);
        let major = match major {
            Some(major) => major,
            None => { return Some(Version(0, 0, 0)); },
        };
        let rest = match rest {
            Some(rest) => rest,
            None => { return Some(Version(major, 0, 0)); },
        };
        let (minor, last) = read_leading_part(rest.as_str());
        let minor = match minor {
            Some(minor) => minor,
            None => { return Some(Version(major, 0, 0)); },
        };
        let last = match last {
            Some(last) => last,
            None => { return Some(Version(major, minor, 0)); },
        };
        match read_leading_part(last.as_str()).0 {
            Some(micro) => Some(Version(major, minor, micro)),
            None => Some(Version(major, minor, 0)),
        }
    }
}

/// The fault of `e` when it lacks the attribute `attribute`.
fn missing_attribute(e: &XmlElement, attribute: &str) -> (error: DecodeError)
    ensures
        error.deep_view() == (DecodeErrorView::MissingAttribute {
            element: e@.name,
            attribute: attribute@,
        }),
{
    DecodeError::MissingAttribute { element: e.name.clone(), attribute: attribute.to_owned() }
}

/// The fault of `e` when it lacks a child called `child`.
pub(crate) fn missing_child(e: &XmlElement, child: &str) -> (error: DecodeError)
    ensures
        error.deep_view() == (DecodeErrorView::MissingChild {
            element: e@.name,
            child: child@,
        }),
{
    DecodeError::MissingChild { element: e.name.clone(), child: child.to_owned() }
}

/// The fault of `e` when it has a second child called `child`.
pub(crate) fn duplicate_child(e: &XmlElement, child: &str) -> (error: DecodeError)
    ensures
        error.deep_view() == (DecodeErrorView::DuplicateChild {
            element: e@.name,
            child: child@,
        }),
{
    DecodeError::DuplicateChild { element: e.name.clone(), child: child.to_owned() }
}

/// The fault of `e` when its attribute `attribute` holds `value`.
fn invalid_value(e: &XmlElement, attribute: &str, value: &String) -> (error: DecodeError)
    ensures
        error.deep_view() == e@.invalid(attribute@, value@),
{
    DecodeError::InvalidValue {
        element: e.name.clone(),
        attribute: attribute.to_owned(),
        value: value.clone(),
    }
}

/// The fault of an element called `element` that stands directly below
/// `parent`, which does not allow it.
pub(crate) fn unknown_element(parent: &str, element: &str) -> (error: DecodeError)
    ensures
        error.deep_view() == (DecodeErrorView::UnknownElement {
            parent: parent@,
            element: element@,
        }),
{
    DecodeError::UnknownElement { parent: parent.to_owned(), element: element.to_owned() }
}

/// The attribute `attr` of `e`, if it has one.
pub fn attribute(e: &XmlElement, attr: &str) -> (value: Option<String>)
    ensures
        value.deep_view() == e@.attr(attr@),
{
    match e.attribute(attr) {
        Some(value) => Some(value.clone()),
        None => None,
    }
}

/// The attribute `name` of `e`, which must have one.
pub fn attr_required(e: &XmlElement, name: &str) -> (value: Result<String, DecodeError>)
    ensures
        outcome(value) == checked(e@.missing(name@), e@.text_attr(name@)),
{
    match e.attribute(name) {
        Some(value) => Ok(value.clone()),
        None => Err(missing_attribute(e, name)),
    }
}

/// The boolean attribute `name` of `e`: `"0"` is false, `"1"` is true, and
/// any other value is a fault.
pub fn attr_bool(e: &XmlElement, name: &str) -> (value: Result<Option<bool>, DecodeError>)
    ensures
        outcome(value) == checked(e@.bad_flag(name@), e@.flag(name@)),
{
    match e.attribute(name) {
        Some(value) => {
            if same_text(value.as_str(), "0") {
                Ok(Some(false))
            } else if same_text(value.as_str(), "1") {
                Ok(Some(true))
            } else {
                Err(invalid_value(e, name, value))
            }
        },
        None => Ok(None),
    }
}

/// The boolean attribute `name` of `e`, or `default` where it is absent.
pub(crate) fn attr_flag(e: &XmlElement, name: &str, default: bool) -> (value: Result<
    bool,
    DecodeError,
>)
    ensures
        outcome(value) == checked(e@.bad_flag(name@), e@.flag_or(name@, default)),
{
    match attr_bool(e, name)? {
        Some(value) => Ok(value),
        None => Ok(default),
    }
}

/// The attribute `name` of `e` read as a `T`; a value that is no `T` is a
/// fault.
pub fn attr_value<T: AttrValue>(e: &XmlElement, name: &str) -> (value: Result<
    Option<T>,
    DecodeError,
>)
    ensures
        match value {
            Ok(v) => {
                &&& e@.bad_value::<T>(name@) is None
                &&& v == e@.value::<T>(name@)
            },
            Err(error) => e@.bad_value::<T>(name@) == Some(error.deep_view()),
        },
{
    match e.attribute(name) {
        Some(text) => match T::parse(text.as_str()) {
            Some(v) => Ok(Some(v)),
            None => Err(invalid_value(e, name, text)),
        },
        None => Ok(None),
    }
}

} // verus!
