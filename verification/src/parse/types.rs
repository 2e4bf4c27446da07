//! Types: named types with their arguments, arrays, and the marker of a
//! variable argument list; and the elements that hold a type.

use crate::items::{no_items, push_item};
use crate::library::{
    lemma_type_arguments, AnyType, AnyTypeView, Array, ArrayView, InfoElements, Type, TypeView,
};
use crate::parse::attr::{
    attr_bool, attr_flag, attr_value, attribute, duplicate_child, missing_child,
};
use crate::parse::children::{
    children_fault, is_type_tag, lemma_child_step, lemma_children_done, Scope,
};
use crate::parse::docs::{docs_value, empty_docs, read_doc_child};
use crate::parse::error::{checked, first, outcome, DecodeError, DecodeErrorView};
use crate::parse::tag::{classify, Tag};
use crate::text::same_text;
use crate::xml::{Node, NodeView, XmlElement, XmlElementView};
use vstd::prelude::*;

verus! {

/// Whether a `type` element names the one container that is read as a
/// scalar: what stands below it is no type argument.
pub open spec fn is_terminal(e: XmlElementView) -> bool {
    e.attr("name"@) == Some("GLib.ByteArray"@)
}

/// The scope in which the children of a `type` element are read.
pub open spec fn type_scope(e: XmlElementView) -> Scope {
    if is_terminal(e) {
        Scope::TerminalType
    } else {
        Scope::Type
    }
}

/// The first fault among the attributes of an `array` element.
pub open spec fn array_attr_fault(e: XmlElementView) -> Option<DecodeErrorView> {
    first(
        e.bad_flag("zero-terminated"@),
        first(
            e.bad_value::<usize>("fixed-size"@),
            first(e.bad_flag("introspectable"@), e.bad_value::<usize>("length"@)),
        ),
    )
}

/// The fault of an `array` element that holds no element type.
pub open spec fn array_final_fault(e: XmlElementView) -> Option<DecodeErrorView> {
    if first_type(e.children, false) is Some {
        None
    } else {
        Some(DecodeErrorView::MissingChild { element: e.name, child: "type"@ })
    }
}

/// The first fault of a `type`, `array` or `varargs` element.
pub open spec fn anytype_fault(e: XmlElementView) -> Option<DecodeErrorView>
    decreases e, 1int,
{
    match e.tag() {
        Tag::Type => first(
            e.bad_flag("introspectable"@),
            children_fault(type_scope(e), e.name, e.children),
        ),
        Tag::Array => first(
            array_attr_fault(e),
            first(children_fault(Scope::Array, e.name, e.children), array_final_fault(e)),
        ),
        Tag::VarArgs => None,
        _ => Some(DecodeErrorView::UnknownElement { parent: Seq::empty(), element: e.name }),
    }
}

/// What a `type`, `array` or `varargs` element decodes to.
pub open spec fn anytype_value(e: XmlElementView) -> AnyTypeView
    decreases e, 1int,
{
    match e.tag() {
        Tag::Type => AnyTypeView::Type(
            TypeView {
                name: e.attr("name"@),
                ctype: e.attr("type"@),
                introspectable: e.flag_or("introspectable"@, true),
                doc: docs_value(e.children),
                children: if is_terminal(e) {
                    Seq::empty()
                } else {
                    types_in(e.children)
                },
            },
        ),
        Tag::Array => AnyTypeView::Array(
            ArrayView {
                name: e.attr("name"@),
                zero_terminated: e.flag("zero-terminated"@),
                fixed_size: e.value::<usize>("fixed-size"@),
                introspectable: e.flag_or("introspectable"@, true),
                length: e.value::<usize>("length"@),
                ctype: e.attr("type"@),
                typ: Box::new(
                    match first_type(e.children, false) {
                        Some(typ) => typ,
                        None => AnyTypeView::VarArg,
                    },
                ),
            },
        ),
        _ => AnyTypeView::VarArg,
    }
}

/// The type arguments among `nodes`: every `type` and `array`, in document
/// order.
pub open spec fn types_in(nodes: Seq<NodeView>) -> Seq<AnyTypeView>
    decreases nodes, 0int,
{
    if nodes.len() == 0 {
        Seq::empty()
    } else {
        let before = types_in(nodes.drop_last());
        match nodes.last() {
            NodeView::Element(c) => if is_type_tag(c.tag()) {
                before.push(anytype_value(c))
            } else {
                before
            },
            _ => before,
        }
    }
}

/// What the first type among `nodes` decodes to: the first `type` or
/// `array`, and with `varargs` also the first `varargs`.
pub open spec fn first_type(nodes: Seq<NodeView>, varargs: bool) -> Option<AnyTypeView>
    decreases nodes, 0int,
{
    if nodes.len() == 0 {
        None
    } else {
        match first_type(nodes.drop_last(), varargs) {
            Some(typ) => Some(typ),
            None => match nodes.last() {
                NodeView::Element(c) => if is_type_tag(c.tag()) || (varargs && c.tag()
                    == Tag::VarArgs) {
                    Some(anytype_value(c))
                } else {
                    None
                },
                _ => None,
            },
        }
    }
}

/// Decodes a `type`, `array` or `varargs` element.
#[verifier::loop_isolation(false)]
pub fn r_anytype(e: &XmlElement) -> (typ: Result<AnyType, DecodeError>)
    ensures
        outcome(typ) == checked(anytype_fault(e@), anytype_value(e@)),
    decreases e,
{
    let ghost all = e@.children;
    let ghost owner = e@.name;
    proof {
        reveal_with_fuel(children_fault, 2);
    }
    match classify(e.name.as_str()) {
        Tag::Type => {
            let name = attribute(e, "name");
            let introspectable = attr_flag(e, "introspectable", true)?;
            let terminal = match &name {
                Some(name) => same_text(name.as_str(), "GLib.ByteArray"),
                None => false,
            };
            let ghost scope = type_scope(e@);
            let mut doc = empty_docs();
            let mut children: Vec<AnyType> = no_items();
            let mut i: usize = 0;
            while i < e.children.len()
                invariant
                    i <= e.children.len(),
                    children_fault(scope, owner, all.take(i as int)) is None,
                    doc.deep_view() == docs_value(all.take(i as int)),
                    children.deep_view() == if terminal {
                        Seq::empty()
                    } else {
                        types_in(all.take(i as int))
                    },
                decreases e.children.len() - i,
            {
                proof {
                    lemma_child_step(scope, e, i as int);
                }
                match &e.children[i] {
                    Node::Element(c) => {
                        let tag = classify(c.name.as_str());
                        match tag {
                            Tag::Type | Tag::Array => {
                                if !terminal {
                                    push_item(&mut children, r_anytype(c)?);
                                }
                            },
                            _ => read_doc_child(c, tag, &mut doc)?,
                        }
                    },
                    _ => {},
                }
                i += 1;
            }
            proof {
                lemma_children_done(e);
            }
            let typ = Type { name, ctype: attribute(e, "type"), introspectable, doc, children };
            proof {
                lemma_type_arguments(typ);
            }
            Ok(AnyType::Type(typ))
        },
        Tag::Array => {
            let name = attribute(e, "name");
            let zero_terminated = attr_bool(e, "zero-terminated")?;
            let fixed_size = attr_value::<usize>(e, "fixed-size")?;
            let introspectable = attr_flag(e, "introspectable", true)?;
            let length = attr_value::<usize>(e, "length")?;
            let mut typ: Option<AnyType> = None;
            let mut i: usize = 0;
            while i < e.children.len()
                invariant
                    i <= e.children.len(),
                    children_fault(Scope::Array, owner, all.take(i as int)) is None,
                    typ.deep_view() == first_type(all.take(i as int), false),
                decreases e.children.len() - i,
            {
                proof {
                    lemma_child_step(Scope::Array, e, i as int);
                }
                match &e.children[i] {
                    Node::Element(c) => {
                        match classify(c.name.as_str()) {
                            Tag::Type | Tag::Array => {
                                if typ.is_some() {
                                    return Err(duplicate_child(e, c.name.as_str()));
                                }
                                typ = Some(r_anytype(c)?);
                            },
                            _ => {},
                        }
                    },
                    _ => {},
                }
                i += 1;
            }
            proof {
                lemma_children_done(e);
            }
            match typ {
                Some(typ) => Ok(
                    AnyType::Array(
                        Array {
                            name,
                            zero_terminated,
                            fixed_size,
                            introspectable,
                            length,
                            ctype: attribute(e, "type"),
                            typ: Box::new(typ),
                        },
                    ),
                ),
                None => Err(missing_child(e, "type")),
            }
        },
        Tag::VarArgs => Ok(AnyType::VarArg),
        _ => Err(
            DecodeError::UnknownElement { parent: String::new(), element: e.name.clone() },
        ),
    }
}

/// The fault of an element that must hold a type and holds none.
pub open spec fn missing_type(e: XmlElementView) -> Option<DecodeErrorView> {
    if first_type(e.children, true) is Some {
        None
    } else {
        Some(DecodeErrorView::MissingChild { element: e.name, child: "type"@ })
    }
}

/// The first fault among the children of an element that holds a type.
pub open spec fn typed_fault(e: XmlElementView) -> Option<DecodeErrorView>
    decreases e, 0int,
{
    first(children_fault(Scope::Holder, e.name, e.children), missing_type(e))
}

/// The type that `e` holds: what its first `type`, `array` or `varargs`
/// child decodes to.
pub open spec fn held_type(e: XmlElementView) -> AnyTypeView {
    match first_type(e.children, true) {
        Some(typ) => typ,
        None => AnyTypeView::VarArg,
    }
}

/// Decodes what stands below an element that holds a type: its
/// documentation and its type, which is the first that it holds.
#[verifier::loop_isolation(false)]
pub(crate) fn read_typed_children(e: &XmlElement) -> (read: Result<
    (InfoElements, AnyType),
    DecodeError,
>)
    ensures
        outcome(read) == checked(typed_fault(e@), (docs_value(e@.children), held_type(e@))),
{
    let ghost all = e@.children;
    let ghost owner = e@.name;
    proof {
        reveal_with_fuel(children_fault, 2);
    }
    let mut doc = empty_docs();
    let mut typ: Option<AnyType> = None;
    let mut i: usize = 0;
    while i < e.children.len()
        invariant
            i <= e.children.len(),
            children_fault(Scope::Holder, owner, all.take(i as int)) is None,
            doc.deep_view() == docs_value(all.take(i as int)),
            typ.deep_view() == first_type(all.take(i as int), true),
        decreases e.children.len() - i,
    {
        proof {
            lemma_child_step(Scope::Holder, e, i as int);
        }
        match &e.children[i] {
            Node::Element(c) => {
                let tag = classify(c.name.as_str());
                match tag {
                    Tag::Type | Tag::Array | Tag::VarArgs => {
                        if typ.is_none() {
                            typ = Some(r_anytype(c)?);
                        }
                    },
                    _ => read_doc_child(c, tag, &mut doc)?,
                }
            },
            _ => {},
        }
        i += 1;
    }
    proof {
        lemma_children_done(e);
    }
    match typ {
        Some(typ) => Ok((doc, typ)),
        None => Err(missing_child(e, "type")),
    }
}

/// Decodes the type that `e` holds: its first `type`, `array` or `varargs`
/// child.
pub fn read_anytype(e: &XmlElement) -> (typ: Result<AnyType, DecodeError>)
    ensures
        outcome(typ) == checked(typed_fault(e@), held_type(e@)),
{
    let (_, typ) = read_typed_children(e)?;
    Ok(typ)
}

} // verus!
