//! The attributes and the documentation that nearly every declaration
//! carries.

use crate::library::{
    Doc, DocPosition, DocPositionView, DocVersioned, DocVersionedView, DocView, InfoAttrs,
    InfoAttrsView, InfoElements, InfoElementsView,
};
use crate::parse::attr::{attr_bool, attr_flag, attr_required, attribute, missing_child};
use crate::parse::error::{checked, first, outcome, DecodeError, DecodeErrorView};
use crate::parse::tag::{classify, Tag};
use crate::xml::{Node, NodeView, XmlElement, XmlElementView};
use vstd::prelude::*;

verus! {

/// The first fault among the attributes that `info_value` reads.
pub open spec fn info_fault(e: XmlElementView) -> Option<DecodeErrorView> {
    first(e.bad_flag("introspectable"@), e.bad_flag("deprecated"@))
}

/// The common attributes of `e`. A declaration is introspectable unless it
/// says otherwise.
pub open spec fn info_value(e: XmlElementView) -> InfoAttrsView {
    InfoAttrsView {
        introspectable: e.flag_or("introspectable"@, true),
        deprecated: e.flag("deprecated"@),
        deprecated_version: e.attr("deprecated-version"@),
        version: e.attr("version"@),
        stability: e.attr("stability"@),
    }
}

/// Decodes the attributes that every declaration carries.
pub fn read_infoattrs(e: &XmlElement) -> (info: Result<InfoAttrs, DecodeError>)
    ensures
        outcome(info) == checked(info_fault(e@), info_value(e@)),
{
    let introspectable = attr_flag(e, "introspectable", true)?;
    let deprecated = attr_bool(e, "deprecated")?;
    Ok(
        InfoAttrs {
            introspectable,
            deprecated,
            deprecated_version: attribute(e, "deprecated-version"),
            version: attribute(e, "version"),
            stability: attribute(e, "stability"),
        },
    )
}

/// The fault of an element that must hold text and holds none.
pub open spec fn missing_text(e: XmlElementView) -> Option<DecodeErrorView> {
    match e.text() {
        Some(_) => None,
        None => Some(DecodeErrorView::MissingChild { element: e.name, child: "text"@ }),
    }
}

/// The text of `e`, or the empty string where it holds none.
pub open spec fn text_value(e: XmlElementView) -> Seq<char> {
    match e.text() {
        Some(text) => text,
        None => Seq::empty(),
    }
}

/// The text below `e`, which must hold some.
fn read_text(e: &XmlElement) -> (text: Result<String, DecodeError>)
    ensures
        outcome(text) == checked(missing_text(e@), text_value(e@)),
{
    match e.text() {
        Some(text) => Ok(text),
        None => Err(missing_child(e, "text")),
    }
}

/// The first fault of a `doc` element: it names its file and line and holds
/// text.
pub open spec fn doc_fault(e: XmlElementView) -> Option<DecodeErrorView> {
    first(e.missing("filename"@), first(e.missing("line"@), missing_text(e)))
}

/// What a `doc` element decodes to.
pub open spec fn doc_value(e: XmlElementView) -> DocView {
    DocView {
        preserve_space: e.attr("space"@),
        preserve_white: e.attr("whitespace"@),
        filename: e.text_attr("filename"@),
        line: e.text_attr("line"@),
        column: e.attr("column"@),
        content: text_value(e),
    }
}

/// Decodes a `doc` element.
pub fn get_doc(e: &XmlElement) -> (doc: Result<Doc, DecodeError>)
    ensures
        outcome(doc) == checked(doc_fault(e@), doc_value(e@)),
{
    let filename = attr_required(e, "filename")?;
    let line = attr_required(e, "line")?;
    let content = read_text(e)?;
    Ok(
        Doc {
            preserve_space: attribute(e, "space"),
            preserve_white: attribute(e, "whitespace"),
            filename,
            line,
            column: attribute(e, "column"),
            content,
        },
    )
}

/// The fault of a `doc-stability`, `doc-version` or `doc-deprecated`
/// element: it holds text.
pub open spec fn doc_versioned_fault(e: XmlElementView) -> Option<DecodeErrorView> {
    missing_text(e)
}

/// What a `doc-stability`, `doc-version` or `doc-deprecated` element decodes to.
pub open spec fn doc_versioned_value(e: XmlElementView) -> DocVersionedView {
    DocVersionedView {
        preserve_space: e.attr("space"@),
        preserve_white: e.attr("whitespace"@),
        content: text_value(e),
    }
}

/// Decodes a `doc-stability`, `doc-version` or `doc-deprecated` element.
pub fn get_doc_versioned(e: &XmlElement) -> (doc: Result<DocVersioned, DecodeError>)
    ensures
        outcome(doc) == checked(doc_versioned_fault(e@), doc_versioned_value(e@)),
{
    let content = read_text(e)?;
    Ok(
        DocVersioned {
            preserve_space: attribute(e, "space"),
            preserve_white: attribute(e, "whitespace"),
            content,
        },
    )
}

/// The first fault of a `source-position` element: it names its file and
/// line.
pub open spec fn source_position_fault(e: XmlElementView) -> Option<DecodeErrorView> {
    first(e.missing("filename"@), e.missing("line"@))
}

/// What a `source-position` element decodes to.
pub open spec fn source_position_value(e: XmlElementView) -> DocPositionView {
    DocPositionView {
        filename: e.text_attr("filename"@),
        line: e.text_attr("line"@),
        column: e.attr("column"@),
    }
}

/// Decodes a `source-position` element.
pub fn get_source_position(e: &XmlElement) -> (position: Result<DocPosition, DecodeError>)
    ensures
        outcome(position) == checked(source_position_fault(e@), source_position_value(e@)),
{
    let filename = attr_required(e, "filename")?;
    let line = attr_required(e, "line")?;
    Ok(DocPosition { filename, line, column: attribute(e, "column") })
}

/// No documentation at all.
pub open spec fn no_docs() -> InfoElementsView {
    InfoElementsView {
        doc: None,
        doc_stability: None,
        doc_version: None,
        doc_deprecated: None,
        doc_pos: None,
    }
}

/// The fault of a child `c` in its part as documentation; a child that is
/// no documentation has none.
pub open spec fn doc_child_fault(c: XmlElementView) -> Option<DecodeErrorView> {
    match c.tag() {
        Tag::Doc => doc_fault(c),
        Tag::DocStability | Tag::DocDeprecated | Tag::DocVersion => doc_versioned_fault(c),
        Tag::SourcePosition => source_position_fault(c),
        _ => None,
    }
}

/// The documentation `docs` after the child `c` was read: a later element
/// replaces an earlier one of its kind.
pub open spec fn docs_with(docs: InfoElementsView, c: XmlElementView) -> InfoElementsView {
    match c.tag() {
        Tag::Doc => InfoElementsView { doc: Some(doc_value(c)), ..docs },
        Tag::DocStability => InfoElementsView {
            doc_stability: Some(doc_versioned_value(c)),
            ..docs
        },
        Tag::DocDeprecated => InfoElementsView {
            doc_deprecated: Some(doc_versioned_value(c)),
            ..docs
        },
        Tag::DocVersion => InfoElementsView { doc_version: Some(doc_versioned_value(c)), ..docs },
        Tag::SourcePosition => InfoElementsView {
            doc_pos: Some(source_position_value(c)),
            ..docs
        },
        _ => docs,
    }
}

/// The documentation among `nodes`.
pub open spec fn docs_value(nodes: Seq<NodeView>) -> InfoElementsView
    decreases nodes.len(),
{
    if nodes.len() == 0 {
        no_docs()
    } else {
        let before = docs_value(nodes.drop_last());
        match nodes.last() {
            NodeView::Element(c) => docs_with(before, c),
            _ => before,
        }
    }
}

/// The first fault among `nodes` in their part as documentation.
pub open spec fn docs_fault(nodes: Seq<NodeView>) -> Option<DecodeErrorView>
    decreases nodes.len(),
{
    if nodes.len() == 0 {
        None
    } else {
        first(
            docs_fault(nodes.drop_last()),
            match nodes.last() {
                NodeView::Element(c) => doc_child_fault(c),
                _ => None,
            },
        )
    }
}

/// No documentation at all.
pub(crate) fn empty_docs() -> (docs: InfoElements)
    ensures
        docs.deep_view() == no_docs(),
{
    InfoElements {
        doc: None,
        doc_stability: None,
        doc_version: None,
        doc_deprecated: None,
        doc_pos: None,
    }
}

/// Reads the child `c` in its part as documentation into `docs`.
pub(crate) fn read_doc_child(c: &XmlElement, tag: Tag, docs: &mut InfoElements) -> (read: Result<
    (),
    DecodeError,
>)
    requires
        tag == c@.tag(),
    ensures
        match read {
            Ok(_) => doc_child_fault(c@) is None && final(docs).deep_view() == docs_with(
                old(docs).deep_view(),
                c@,
            ),
            Err(error) => doc_child_fault(c@) == Some(error.deep_view()),
        },
{
    match tag {
        Tag::Doc => {
            docs.doc = Some(get_doc(c)?);
        },
        Tag::DocStability => {
            docs.doc_stability = Some(get_doc_versioned(c)?);
        },
        Tag::DocDeprecated => {
            docs.doc_deprecated = Some(get_doc_versioned(c)?);
        },
        Tag::DocVersion => {
            docs.doc_version = Some(get_doc_versioned(c)?);
        },
        Tag::SourcePosition => {
            docs.doc_pos = Some(get_source_position(c)?);
        },
        _ => {},
    }
    Ok(())
}

/// Decodes the documentation below `e`.
pub fn read_infoelements(e: &XmlElement) -> (docs: Result<InfoElements, DecodeError>)
    ensures
        outcome(docs) == checked(docs_fault(e@.children), docs_value(e@.children)),
{
    let ghost all = e@.children;
    let mut docs = empty_docs();
    let mut i: usize = 0;
    while i < e.children.len()
        invariant
            i <= e.children.len(),
            all == e@.children,
            docs_fault(all.take(i as int)) is None,
            docs.deep_view() == docs_value(all.take(i as int)),
        decreases e.children.len() - i,
    {
        proof {
            let next = all.take(i + 1);
            assert(next.drop_last() =~= all.take(i as int));
            assert(next.last() == e.children[i as int].deep_view());
        }
        match &e.children[i] {
            Node::Element(c) => {
                match read_doc_child(c, classify(c.name.as_str()), &mut docs) {
                    Ok(_) => {},
                    Err(error) => {
                        proof {
                            lemma_docs_fault_stays(all, i + 1);
                        }
                        return Err(error);
                    },
                }
            },
            _ => {},
        }
        i += 1;
    }
    assert(all.take(i as int) =~= all);
    Ok(docs)
}

/// A fault among the first `n` nodes is the fault of all of them.
pub proof fn lemma_docs_fault_stays(nodes: Seq<NodeView>, n: int)
    requires
        0 <= n <= nodes.len(),
        docs_fault(nodes.take(n)) is Some,
    ensures
        docs_fault(nodes) == docs_fault(nodes.take(n)),
    decreases nodes.len() - n,
{
    if n == nodes.len() {
        assert(nodes.take(n) =~= nodes);
    } else {
        assert(nodes.drop_last().take(n) =~= nodes.take(n));
        lemma_docs_fault_stays(nodes.drop_last(), n);
    }
}

} // verus!
