//! The children of an element, read in document order.
//!
//! Each kind of element has its scope, which says what each child is read as.
//! The first fault among the children is the fault of the element: what
//! stands after it is not read.

use crate::parse::callable::{function_fault, parameter_fault, return_in, signal_fault};
use crate::parse::composite::{class_fault, interface_fault, record_fault, union_fault};
use crate::parse::docs::{doc_child_fault, docs_fault};
use crate::parse::error::{first, DecodeErrorView};
use crate::parse::members::{
    alias_fault, bitfield_fault, boxed_fault, constant_fault, enumeration_fault, field_fault,
    member_fault, property_fault,
};
use crate::parse::repository::{cinclude_fault, include_fault, namespace_fault, package_fault};
use crate::parse::tag::Tag;
use crate::parse::types::{anytype_fault, first_type};
use crate::xml::{NodeView, XmlElement, XmlElementView};
use vstd::prelude::*;

verus! {

/// The kinds of element whose children are read, each with its own rules.
pub ghost enum Scope {
    /// Documentation only.
    Docs,
    /// A `type`: its type arguments and documentation.
    Type,
    /// A `type` that is read as a scalar: documentation only.
    TerminalType,
    /// An `array`: its one element type.
    Array,
    /// An element that holds a type: the first type and documentation.
    Holder,
    /// A function or a signal: parameters, one return value, documentation.
    Callable,
    /// A `parameters` element.
    Parameters,
    /// An enumeration or a bitfield.
    Members,
    Boxed,
    Union,
    Record,
    Class,
    Interface,
    Namespace,
    Repository,
}

/// Whether `tag` is that of a named type or an array.
pub open spec fn is_type_tag(tag: Tag) -> bool {
    tag == Tag::Type || tag == Tag::Array
}

/// Whether `tag` is that of a named type, an array or a variable argument
/// list.
pub open spec fn is_anytype_tag(tag: Tag) -> bool {
    tag == Tag::Type || tag == Tag::Array || tag == Tag::VarArgs
}

/// The fault of an element called `owner` that has a second child `c` of a
/// kind that it may have once.
pub open spec fn duplicate(owner: Seq<char>, c: XmlElementView) -> DecodeErrorView {
    DecodeErrorView::DuplicateChild { element: owner, child: c.name }
}

/// The fault of the child `c` of an element called `owner`, where `before`
/// are the children that stand before it. A child that the scope does not
/// name is read as documentation, or passed over; directly below the
/// repository it is a fault.
pub open spec fn child_fault(
    scope: Scope,
    owner: Seq<char>,
    before: Seq<NodeView>,
    c: XmlElementView,
) -> Option<DecodeErrorView>
    decreases c, 2int,
{
    match scope {
        Scope::Docs | Scope::TerminalType => doc_child_fault(c),
        Scope::Type => if is_type_tag(c.tag()) {
            anytype_fault(c)
        } else {
            doc_child_fault(c)
        },
        Scope::Array => if is_type_tag(c.tag()) {
            if first_type(before, false) is Some {
                Some(duplicate(owner, c))
            } else {
                anytype_fault(c)
            }
        } else {
            None
        },
        Scope::Holder => if is_anytype_tag(c.tag()) {
            if first_type(before, true) is Some {
                None
            } else {
                anytype_fault(c)
            }
        } else {
            doc_child_fault(c)
        },
        Scope::Callable => match c.tag() {
            Tag::Parameters => children_fault(Scope::Parameters, c.name, c.children),
            Tag::ReturnValue => if return_in(before) is Some {
                Some(duplicate(owner, c))
            } else {
                parameter_fault(c)
            },
            _ => doc_child_fault(c),
        },
        Scope::Parameters => match c.tag() {
            Tag::Parameter | Tag::InstanceParameter => parameter_fault(c),
            _ => None,
        },
        Scope::Members => match c.tag() {
            Tag::Member => member_fault(c),
            Tag::Function => function_fault(c),
            _ => doc_child_fault(c),
        },
        Scope::Boxed => match c.tag() {
            Tag::Function => function_fault(c),
            _ => doc_child_fault(c),
        },
        Scope::Union => match c.tag() {
            Tag::Constructor | Tag::Function | Tag::Method => function_fault(c),
            Tag::Record => record_fault(c),
            Tag::Field => field_fault(c),
            _ => doc_child_fault(c),
        },
        Scope::Record => match c.tag() {
            Tag::Constructor | Tag::Function | Tag::Method => function_fault(c),
            Tag::Union => union_fault(c),
            Tag::Field => field_fault(c),
            _ => doc_child_fault(c),
        },
        Scope::Class => match c.tag() {
            Tag::Constructor | Tag::Function | Tag::Method | Tag::VirtualMethod | Tag::Callback => {
                function_fault(c)
            },
            Tag::Union => union_fault(c),
            Tag::Constant => constant_fault(c),
            Tag::Record => record_fault(c),
            Tag::Field => field_fault(c),
            Tag::Property => property_fault(c),
            Tag::Signal => signal_fault(c),
            Tag::Implements => c.missing("name"@),
            _ => doc_child_fault(c),
        },
        Scope::Interface => match c.tag() {
            Tag::Constructor | Tag::Function | Tag::Method | Tag::VirtualMethod | Tag::Callback => {
                function_fault(c)
            },
            Tag::Constant => constant_fault(c),
            Tag::Field => field_fault(c),
            Tag::Property => property_fault(c),
            Tag::Signal => signal_fault(c),
            Tag::Prerequisite | Tag::Implements => c.missing("name"@),
            _ => doc_child_fault(c),
        },
        Scope::Namespace => match c.tag() {
            Tag::Class => class_fault(c),
            Tag::Function | Tag::Callback => function_fault(c),
            Tag::Enumeration => enumeration_fault(c),
            Tag::Record => record_fault(c),
            Tag::Constant => constant_fault(c),
            Tag::Bitfield => bitfield_fault(c),
            Tag::Union => union_fault(c),
            Tag::Alias => alias_fault(c),
            Tag::Interface => interface_fault(c),
            Tag::Boxed => boxed_fault(c),
            Tag::FunctionMacro | Tag::DocSection => None,
            _ => None,
        },
        Scope::Repository => match c.tag() {
            Tag::Include => include_fault(c),
            Tag::CInclude => cinclude_fault(c),
            Tag::Package => package_fault(c),
            Tag::Namespace => namespace_fault(c),
            Tag::Attribute => None,
            _ => Some(DecodeErrorView::UnknownElement { parent: owner, element: c.name }),
        },
    }
}

/// The first fault among the children `nodes` of an element called `owner`,
/// in document order. Only elements are read.
pub open spec fn children_fault(scope: Scope, owner: Seq<char>, nodes: Seq<NodeView>) -> Option<
    DecodeErrorView,
>
    decreases nodes, 0int,
{
    if nodes.len() == 0 {
        None
    } else {
        first(
            children_fault(scope, owner, nodes.drop_last()),
            match nodes.last() {
                NodeView::Element(c) => child_fault(scope, owner, nodes.drop_last(), c),
                _ => None,
            },
        )
    }
}

/// A fault among the first `n` children is the fault of all of them.
pub proof fn lemma_fault_stays(scope: Scope, owner: Seq<char>, nodes: Seq<NodeView>, n: int)
    requires
        0 <= n <= nodes.len(),
    ensures
        children_fault(scope, owner, nodes.take(n)) is Some ==> children_fault(scope, owner, nodes)
            == children_fault(scope, owner, nodes.take(n)),
    decreases nodes.len() - n,
{
    if n == nodes.len() {
        assert(nodes.take(n) =~= nodes);
    } else {
        assert(nodes.drop_last().take(n) =~= nodes.take(n));
        lemma_fault_stays(scope, owner, nodes.drop_last(), n);
    }
}

/// What the loop over the children of `e` knows of the child at `i`: the
/// children up to and with it are those before it and itself, and a fault
/// among them is the fault of all the children.
pub(crate) proof fn lemma_child_step(scope: Scope, e: &XmlElement, i: int)
    requires
        0 <= i < e.children.len(),
    ensures
        e@.children.len() == e.children.len(),
        e@.children.take(i + 1).len() == i + 1,
        e@.children.take(i + 1).drop_last() == e@.children.take(i),
        e@.children.take(i + 1).last() == e.children[i].deep_view(),
        children_fault(scope, e@.name, e@.children.take(i + 1)) is Some ==> children_fault(
            scope,
            e@.name,
            e@.children,
        ) == children_fault(scope, e@.name, e@.children.take(i + 1)),
{
    let all = e@.children;
    assert(all.take(i + 1).drop_last() =~= all.take(i));
    lemma_fault_stays(scope, e@.name, all, i + 1);
}

/// All the children were read.
pub(crate) proof fn lemma_children_done(e: &XmlElement)
    ensures
        e@.children.len() == e.children.len(),
        e@.children.take(e.children.len() as int) == e@.children,
{
    assert(e@.children.take(e.children.len() as int) =~= e@.children);
}

/// Where documentation is all that is read, the first fault among the
/// children is that of the documentation.
pub proof fn lemma_docs_scope(owner: Seq<char>, nodes: Seq<NodeView>)
    ensures
        children_fault(Scope::Docs, owner, nodes) == docs_fault(nodes),
    decreases nodes.len(),
{
    reveal_with_fuel(children_fault, 2);
    if nodes.len() > 0 {
        lemma_docs_scope(owner, nodes.drop_last());
    }
}

} // verus!
