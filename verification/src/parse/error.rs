//! The faults of decoding, and how the outcome of a decoding function is
//! stated: the first fault if there is one, else the value.

use vstd::prelude::*;
use vstd::string::StringExecFns;

verus! {

/// Why a document could not be decoded.
#[derive(Debug)]
pub enum DecodeError {
    /// The reader could not build a tree from the bytes.
    Xml(xmltree::ParseError),
    /// `element` lacks the attribute `attribute`.
    MissingAttribute { element: String, attribute: String },
    /// `element` lacks a child `child`.
    MissingChild { element: String, child: String },
    /// `element` has more than one child `child`.
    DuplicateChild { element: String, child: String },
    /// The attribute `attribute` of `element` holds `value`, which it cannot.
    InvalidValue { element: String, attribute: String, value: String },
    /// `element` stands directly below `parent`, which does not allow it.
    UnknownElement { parent: String, element: String },
}

/// The view of `DecodeError`.
pub ghost enum DecodeErrorView {
    Xml,
    MissingAttribute { element: Seq<char>, attribute: Seq<char> },
    MissingChild { element: Seq<char>, child: Seq<char> },
    DuplicateChild { element: Seq<char>, child: Seq<char> },
    InvalidValue { element: Seq<char>, attribute: Seq<char>, value: Seq<char> },
    UnknownElement { parent: Seq<char>, element: Seq<char> },
}

impl DeepView for DecodeError {
    type V = DecodeErrorView;

    open spec fn deep_view(&self) -> DecodeErrorView {
        match self {
            DecodeError::Xml(_) => DecodeErrorView::Xml,
            DecodeError::MissingAttribute { element, attribute } => {
                DecodeErrorView::MissingAttribute { element: element@, attribute: attribute@ }
            },
            DecodeError::MissingChild { element, child } => DecodeErrorView::MissingChild {
                element: element@,
                child: child@,
            },
            DecodeError::DuplicateChild { element, child } => DecodeErrorView::DuplicateChild {
                element: element@,
                child: child@,
            },
            DecodeError::InvalidValue { element, attribute, value } => {
                DecodeErrorView::InvalidValue {
                    element: element@,
                    attribute: attribute@,
                    value: value@,
                }
            },
            DecodeError::UnknownElement { parent, element } => DecodeErrorView::UnknownElement {
                parent: parent@,
                element: element@,
            },
        }
    }
}

/// What a decoding function returned, seen through the views.
pub open spec fn outcome<T: DeepView>(r: Result<T, DecodeError>) -> Result<T::V, DecodeErrorView> {
    match r {
        Ok(value) => Ok(value.deep_view()),
        Err(error) => Err(error.deep_view()),
    }
}

/// The result of decoding: the first fault if there is one, else the value.
pub open spec fn checked<V>(fault: Option<DecodeErrorView>, value: V) -> Result<
    V,
    DecodeErrorView,
> {
    match fault {
        Some(error) => Err(error),
        None => Ok(value),
    }
}

/// The earlier of two faults.
pub open spec fn first(a: Option<DecodeErrorView>, b: Option<DecodeErrorView>) -> Option<
    DecodeErrorView,
> {
    match a {
        Some(_) => a,
        None => b,
    }
}

/// What `xmltree::ParseError` says of itself through `Display`. Nothing is
/// claimed of the text.
#[verifier::external_body]
fn reader_message(error: &xmltree::ParseError) -> String {
    error.to_string()
}

impl DecodeErrorView {
    /// The fault in words. What the reader says of a document that it could
    /// not read is its own affair; `reader` stands for it.
    pub open spec fn message(self, reader: Seq<char>) -> Seq<char> {
        match self {
            DecodeErrorView::Xml => "malformed XML: "@ + reader,
            DecodeErrorView::MissingAttribute { element, attribute } => "missing `"@ + attribute
                + "` attribute on `<"@ + element + ">`"@,
            DecodeErrorView::MissingChild { element, child } => "missing `<"@ + child
                + ">` element in `<"@ + element + ">`"@,
            DecodeErrorView::DuplicateChild { element, child } => "more than one `<"@ + child
                + ">` element in `<"@ + element + ">`"@,
            DecodeErrorView::InvalidValue { element, attribute, value } => "invalid value `"@
                + value + "` of attribute `"@ + attribute + "` on `<"@ + element + ">`"@,
            DecodeErrorView::UnknownElement { parent, element } => "unexpected element `<"@
                + element + ">` in `<"@ + parent + ">`"@,
        }
    }
}

impl DecodeError {
    /// The fault in words, for a reader of the document.
    pub fn message(&self) -> (text: String)
        ensures
            exists|reader: Seq<char>| text@ == self.deep_view().message(reader),
    {
        match self {
            DecodeError::Xml(error) => {
                let reader = reader_message(error);
                let mut text = "malformed XML: ".to_owned();
                text.append(reader.as_str());
                assert(text@ == self.deep_view().message(reader@));
                text
            },
            DecodeError::MissingAttribute { element, attribute } => {
                let mut text = "missing `".to_owned();
                text.append(attribute.as_str());
                text.append("` attribute on `<");
                text.append(element.as_str());
                text.append(">`");
                assert(text@ == self.deep_view().message(Seq::empty()));
                text
            },
            DecodeError::MissingChild { element, child } => {
                let mut text = "missing `<".to_owned();
                text.append(child.as_str());
                text.append(">` element in `<");
                text.append(element.as_str());
                text.append(">`");
                assert(text@ == self.deep_view().message(Seq::empty()));
                text
            },
            DecodeError::DuplicateChild { element, child } => {
                let mut text = "more than one `<".to_owned();
                text.append(child.as_str());
                text.append(">` element in `<");
                text.append(element.as_str());
                text.append(">`");
                assert(text@ == self.deep_view().message(Seq::empty()));
                text
            },
            DecodeError::InvalidValue { element, attribute, value } => {
                let mut text = "invalid value `".to_owned();
                text.append(value.as_str());
                text.append("` of attribute `");
                text.append(attribute.as_str());
                text.append("` on `<");
                text.append(element.as_str());
                text.append(">`");
                assert(text@ == self.deep_view().message(Seq::empty()));
                text
            },
            DecodeError::UnknownElement { parent, element } => {
                let mut text = "unexpected element `<".to_owned();
                text.append(element.as_str());
                text.append(">` in `<");
                text.append(parent.as_str());
                text.append(">`");
                assert(text@ == self.deep_view().message(Seq::empty()));
                text
            },
        }
    }
}

} // verus!
