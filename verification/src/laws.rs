//! What holds of the decoder on every document, proved from the
//! specification functions that its contracts speak of.

use crate::library::{AnyTypeView, FunctionType, ParameterDirection, Repository, Transfer};
use crate::parse::callable::{
    error_parameter, function_fault, function_value, functions_in, has_varargs, parameter_fault,
    parameter_value, parameters_in, signal_fault, signal_value,
};
use crate::parse::children::{child_fault, children_fault, lemma_fault_stays, Scope};
use crate::parse::composite::{
    class_fault, class_value, implements_in, interface_fault, interface_value, names_in,
    record_fault, record_value,
};
use crate::parse::docs::{docs_fault, info_fault, info_value};
use crate::parse::error::{outcome, DecodeError, DecodeErrorView};
use crate::parse::members::{property_fault, property_value};
use crate::parse::repository::parsed;
use crate::parse::tag::Tag;
use crate::parse::types::{anytype_fault, anytype_value};
use crate::xml::{NodeView, XmlElementView};
use vstd::prelude::*;

verus! {

/// An element that has exactly the attributes `names`, or fewer.
pub open spec fn has_only(e: XmlElementView, names: Set<Seq<char>>) -> bool {
    forall|name: Seq<char>| !names.contains(name) ==> (#[trigger] e.attr(name)) is None
}

/// The fault of an element that lacks the attribute `name`.
pub open spec fn lacks(e: XmlElementView, name: Seq<char>) -> Option<DecodeErrorView> {
    Some(DecodeErrorView::MissingAttribute { element: e.name, attribute: name })
}

/// The lengths of the attribute names that the laws tell apart, and the
/// first letters of two that are equally long.
proof fn lemma_attribute_names()
    ensures
        "name"@.len() == 4,
        "type"@.len() == 4,
        "type-name"@.len() == 9,
        "get-type"@.len() == 8,
        "symbol-prefix"@.len() == 13,
        "introspectable"@.len() == 14,
        "deprecated"@.len() == 10,
        "abstract"@.len() == 8,
        "fundamental"@.len() == 11,
        "final"@.len() == 5,
        "disguised"@.len() == 9,
        "foreign"@.len() == 7,
        "abstract"@[0] == 'a',
        "get-type"@[0] == 'g',
        "0"@.len() == 1,
        "1"@.len() == 1,
        "0"@[0] == '0',
        "1"@[0] == '1',
{
    reveal_strlit("name");
    reveal_strlit("type");
    reveal_strlit("type-name");
    reveal_strlit("get-type");
    reveal_strlit("symbol-prefix");
    reveal_strlit("introspectable");
    reveal_strlit("deprecated");
    reveal_strlit("abstract");
    reveal_strlit("fundamental");
    reveal_strlit("final");
    reveal_strlit("disguised");
    reveal_strlit("foreign");
    reveal_strlit("0");
    reveal_strlit("1");
}

/// A class with its three required attributes, no other attribute and no
/// child decodes, and holds what the attributes hold.
pub proof fn lemma_class_round_trip(
    e: XmlElementView,
    name: Seq<char>,
    gtype_name: Seq<char>,
    get_type: Seq<char>,
)
    requires
        e.attr("name"@) == Some(name),
        e.attr("type-name"@) == Some(gtype_name),
        e.attr("get-type"@) == Some(get_type),
        has_only(e, set!["name"@, "type-name"@, "get-type"@]),
        e.children.len() == 0,
    ensures
        class_fault(e) is None,
        class_value(e).name == name,
        class_value(e).glib_type_name == gtype_name,
        class_value(e).glib_get_type == get_type,
{
    lemma_attribute_names();
    let names = set!["name"@, "type-name"@, "get-type"@];
    assert(!names.contains("introspectable"@));
    assert(!names.contains("deprecated"@));
    assert(!names.contains("abstract"@));
    assert(!names.contains("fundamental"@));
    assert(!names.contains("final"@));
}

/// A class that lacks one of its required attributes, and has the others,
/// does not decode: the fault names the attribute that it lacks.
pub proof fn lemma_class_requires(e: XmlElementView)
    ensures
        e.attr("name"@) is None ==> class_fault(e) == lacks(e, "name"@),
        e.attr("name"@) is Some && e.attr("type-name"@) is None ==> class_fault(e) == lacks(
            e,
            "type-name"@,
        ),
        e.attr("name"@) is Some && e.attr("type-name"@) is Some && e.attr("get-type"@) is None
            ==> class_fault(e) == lacks(e, "get-type"@),
{
}

/// A record with its two required attributes, no other attribute and no
/// child decodes, and holds what the attributes hold.
pub proof fn lemma_record_round_trip(e: XmlElementView, name: Seq<char>, c_type: Seq<char>)
    requires
        e.attr("name"@) == Some(name),
        e.attr("type"@) == Some(c_type),
        has_only(e, set!["name"@, "type"@]),
        e.children.len() == 0,
    ensures
        record_fault(e) is None,
        record_value(e).name == name,
        record_value(e).c_type == c_type,
{
    lemma_attribute_names();
    let names = set!["name"@, "type"@];
    assert(!names.contains("introspectable"@));
    assert(!names.contains("deprecated"@));
    assert(!names.contains("disguised"@));
    assert(!names.contains("foreign"@));
}

/// A record that lacks one of its required attributes, and has the other,
/// does not decode: the fault names the attribute that it lacks.
pub proof fn lemma_record_requires(e: XmlElementView)
    ensures
        e.attr("name"@) is None ==> record_fault(e) == lacks(e, "name"@),
        e.attr("name"@) is Some && e.attr("type"@) is None ==> record_fault(e) == lacks(
            e,
            "type"@,
        ),
{
}

/// An interface with its four required attributes, no other attribute and
/// no child decodes, and holds what the attributes hold.
pub proof fn lemma_interface_round_trip(
    e: XmlElementView,
    name: Seq<char>,
    gtype_name: Seq<char>,
    get_type: Seq<char>,
    symbol_prefix: Seq<char>,
)
    requires
        e.attr("name"@) == Some(name),
        e.attr("type-name"@) == Some(gtype_name),
        e.attr("get-type"@) == Some(get_type),
        e.attr("symbol-prefix"@) == Some(symbol_prefix),
        has_only(e, set!["name"@, "type-name"@, "get-type"@, "symbol-prefix"@]),
        e.children.len() == 0,
    ensures
        interface_fault(e) is None,
        interface_value(e).name == name,
        interface_value(e).glib_type_name == gtype_name,
        interface_value(e).glib_get_type == get_type,
        interface_value(e).symbol_prefix == symbol_prefix,
{
    lemma_attribute_names();
    let names = set!["name"@, "type-name"@, "get-type"@, "symbol-prefix"@];
    assert(!names.contains("introspectable"@));
    assert(!names.contains("deprecated"@));
}

/// An interface that lacks one of its required attributes, and has the
/// others, does not decode: the fault names the attribute that it lacks.
pub proof fn lemma_interface_requires(e: XmlElementView)
    ensures
        e.attr("name"@) is None ==> interface_fault(e) == lacks(e, "name"@),
        e.attr("name"@) is Some && e.attr("type-name"@) is None ==> interface_fault(e) == lacks(
            e,
            "type-name"@,
        ),
        e.attr("name"@) is Some && e.attr("type-name"@) is Some && e.attr("get-type"@) is None
            ==> interface_fault(e) == lacks(e, "get-type"@),
        e.attr("name"@) is Some && e.attr("type-name"@) is Some && e.attr("get-type"@) is Some
            && e.attr("symbol-prefix"@) is None ==> interface_fault(e) == lacks(
            e,
            "symbol-prefix"@,
        ),
{
}

/// A boolean attribute that is absent has its default; `"1"` is true and
/// `"0"` is false; any other value is a fault and no default.
pub proof fn lemma_flag(e: XmlElementView, name: Seq<char>, default: bool)
    ensures
        e.attr(name) is None ==> e.flag_or(name, default) == default && e.bad_flag(name) is None,
        e.attr(name) == Some("1"@) ==> e.flag_or(name, default) && e.bad_flag(name) is None,
        e.attr(name) == Some("0"@) ==> !e.flag_or(name, default) && e.bad_flag(name) is None,
        e.attr(name) matches Some(value) ==> (value != "0"@ && value != "1"@ ==> e.bad_flag(name)
            == Some(e.invalid(name, value))),
{
    lemma_attribute_names();
}

/// Each boolean of the decoded values is the attribute that it is read
/// from, with its default where the attribute is absent.
pub proof fn lemma_flag_defaults(e: XmlElementView, kind: FunctionType)
    ensures
        info_value(e).introspectable == e.flag_or("introspectable"@, true),
        function_value(e, kind).introspectable == e.flag_or("introspectable"@, true),
        parameter_value(e).introspectable == e.flag_or("introspectable"@, true),
        anytype_value(e) matches AnyTypeView::Type(typ) ==> typ.introspectable == e.flag_or(
            "introspectable"@,
            true,
        ),
        anytype_value(e) matches AnyTypeView::Array(array) ==> array.introspectable == e.flag_or(
            "introspectable"@,
            true,
        ),
        parameter_value(e).nullable == e.flag_or("nullable"@, false),
        parameter_value(e).allow_none == e.flag_or("allow-none"@, false),
        parameter_value(e).caller_allocates == e.flag_or("caller-allocates"@, false),
        property_value(e).readable == e.flag_or("readable"@, true),
        property_value(e).writable == e.flag_or("writable"@, false),
        property_value(e).construct == e.flag_or("construct"@, false),
        property_value(e).construct_only == e.flag_or("construct-only"@, false),
        class_value(e).abstracts == e.flag_or("abstract"@, false),
        record_value(e).disguised == e.flag_or("disguised"@, false),
        function_value(e, kind).throws == e.flag_or("throws"@, false),
        signal_value(e).action == e.flag_or("action"@, false),
        signal_value(e).detailed == e.flag_or("detailed"@, false),
{
}

/// An element with a boolean attribute that holds neither `"0"` nor `"1"`
/// does not decode.
pub proof fn lemma_bad_flag_is_a_fault(e: XmlElementView)
    ensures
        e.bad_flag("introspectable"@) is Some ==> info_fault(e) is Some,
        e.bad_flag("introspectable"@) is Some && (e.tag() == Tag::Type || e.tag() == Tag::Array)
            ==> anytype_fault(e) is Some,
        e.bad_flag("introspectable"@) is Some || e.bad_flag("nullable"@) is Some || e.bad_flag(
            "allow-none"@,
        ) is Some || e.bad_flag("caller-allocates"@) is Some ==> parameter_fault(e) is Some,
        e.bad_flag("readable"@) is Some || e.bad_flag("writable"@) is Some || e.bad_flag(
            "construct"@,
        ) is Some || e.bad_flag("construct-only"@) is Some ==> property_fault(e) is Some,
        e.bad_flag("abstract"@) is Some ==> class_fault(e) is Some,
        e.bad_flag("disguised"@) is Some ==> record_fault(e) is Some,
        e.bad_flag("throws"@) is Some ==> function_fault(e) is Some,
        e.bad_flag("action"@) is Some || e.bad_flag("detailed"@) is Some ==> signal_fault(e)
            is Some,
{
}

/// A function that throws has one parameter more than it declares: the
/// error, handed out to the caller in full, which may be absent. A function
/// that does not throw has the parameters that it declares.
pub proof fn lemma_throws(e: XmlElementView, kind: FunctionType)
    ensures
        e.attr("throws"@) == Some("1"@) ==> function_value(e, kind).parameters == parameters_in(
            e.children,
        ).push(error_parameter()),
        e.attr("throws"@) == Some("0"@) || e.attr("throws"@) is None ==> function_value(
            e,
            kind,
        ).parameters == parameters_in(e.children),
        e.children.len() == 0 ==> parameters_in(e.children).len() == 0,
        error_parameter().name == "error"@,
        error_parameter().direction == ParameterDirection::Out,
        error_parameter().transfer == Transfer::Full,
        error_parameter().nullable,
{
    lemma_flag(e, "throws"@, false);
}

/// Where documentation is all that is read below a type, the first fault
/// among the children is that of the documentation.
proof fn lemma_terminal_scope(owner: Seq<char>, nodes: Seq<NodeView>)
    ensures
        children_fault(Scope::TerminalType, owner, nodes) == docs_fault(nodes),
    decreases nodes.len(),
{
    reveal_with_fuel(children_fault, 2);
    if nodes.len() > 0 {
        lemma_terminal_scope(owner, nodes.drop_last());
    }
}

/// A `type` called `GLib.ByteArray` is read as a scalar: it decodes without
/// type arguments, whatever types stand below it, and without any it is no
/// fault.
pub proof fn lemma_byte_array(e: XmlElementView)
    requires
        e.tag() == Tag::Type,
        e.attr("name"@) == Some("GLib.ByteArray"@),
        e.bad_flag("introspectable"@) is None,
        docs_fault(e.children) is None,
    ensures
        anytype_fault(e) is None,
        anytype_value(e) matches AnyTypeView::Type(typ) && typ.children.len() == 0 && typ.name
            == Some("GLib.ByteArray"@),
{
    lemma_terminal_scope(e.name, e.children);
}

/// Decoding is a function of the bytes: two decodings of the same bytes
/// give the same repository, or the same fault.
pub proof fn lemma_same_bytes_same_outcome(
    bytes: Seq<u8>,
    once: Result<Repository, DecodeError>,
    again: Result<Repository, DecodeError>,
)
    requires
        outcome(once) == parsed(bytes),
        outcome(again) == parsed(bytes),
    ensures
        outcome(once) == outcome(again),
{
}

/// The fault of the first child that has one is the fault of all the
/// children, whatever stands after it.
pub proof fn lemma_first_fault_wins(
    scope: Scope,
    owner: Seq<char>,
    nodes: Seq<NodeView>,
    i: int,
    c: XmlElementView,
)
    requires
        0 <= i < nodes.len(),
        nodes[i] == NodeView::Element(c),
        children_fault(scope, owner, nodes.take(i)) is None,
        child_fault(scope, owner, nodes.take(i), c) is Some,
    ensures
        children_fault(scope, owner, nodes) == child_fault(scope, owner, nodes.take(i), c),
{
    reveal_with_fuel(children_fault, 2);
    assert(nodes.take(i + 1).drop_last() =~= nodes.take(i));
    lemma_fault_stays(scope, owner, nodes, i + 1);
}

/// A function that decodes says what it returns, unless it takes a variable
/// argument list; and so does a signal.
pub proof fn lemma_return_is_present(e: XmlElementView, kind: FunctionType)
    ensures
        function_fault(e) is None ==> function_value(e, kind).ret is Some || has_varargs(
            parameters_in(e.children),
        ),
        signal_fault(e) is None ==> signal_value(e).ret is Some || has_varargs(
            signal_value(e).parameters,
        ),
{
}

/// The position that a parameter gives for the length of its array is the
/// one that the array is written with: nothing is added to it, whatever
/// stands before the parameter.
pub proof fn lemma_array_length_is_raw(e: XmlElementView)
    ensures
        parameter_value(e).array_length == match parameter_value(e).typ {
            AnyTypeView::Array(array) => array.length,
            _ => None,
        },
        anytype_value(e) matches AnyTypeView::Array(array) ==> array.length == e.value::<usize>(
            "length"@,
        ),
        parameter_value(e).instance_parameter == (e.tag() == Tag::InstanceParameter),
{
}

/// Names are kept as they are written: no namespace is put before them.
pub proof fn lemma_names_as_written(e: XmlElementView)
    ensures
        class_value(e).name == e.text_attr("name"@),
        class_value(e).parent == e.attr("parent"@),
        class_value(e).implements == implements_in(e.children),
        interface_value(e).prerequisites == names_in(e.children, Tag::Prerequisite),
        interface_value(e).implements == names_in(e.children, Tag::Implements),
        anytype_value(e) matches AnyTypeView::Type(typ) ==> typ.name == e.attr("name"@),
{
}

/// The functions among the children stand in the order of the document:
/// those among the first children come before those among the rest.
pub proof fn lemma_document_order(
    before: Seq<NodeView>,
    after: Seq<NodeView>,
    tag: Tag,
    kind: FunctionType,
)
    ensures
        functions_in(before + after, tag, kind) == functions_in(before, tag, kind) + functions_in(
            after,
            tag,
            kind,
        ),
    decreases after.len(),
{
    if after.len() == 0 {
        assert(before + after =~= before);
        assert(functions_in(before, tag, kind) + functions_in(after, tag, kind) =~= functions_in(
            before,
            tag,
            kind,
        ));
    } else {
        let all = before + after;
        assert(all.drop_last() =~= before + after.drop_last());
        assert(all.last() == after.last());
        lemma_document_order(before, after.drop_last(), tag, kind);
        assert(functions_in(all, tag, kind) =~= functions_in(before, tag, kind) + functions_in(
            after,
            tag,
            kind,
        ));
    }
}

} // verus!
