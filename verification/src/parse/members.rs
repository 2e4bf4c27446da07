//! Properties, fields, constants, aliases, enumerations, bitfields and boxed
//! types.

use crate::items::{no_items, push_item};
use crate::library::{
    Alias, AliasView, Bitfield, BitfieldView, Boxed, BoxedView, Constant, ConstantView,
    Enumeration, EnumerationView, Field, FieldView, Function, FunctionType, InfoElements, Member,
    MemberView, Property, PropertyView, Transfer,
};
use crate::parse::attr::{attr_flag, attr_required, attr_value, attribute};
use crate::parse::callable::{functions_in, read_function};
use crate::parse::children::{
    children_fault, lemma_child_step, lemma_children_done, lemma_docs_scope, Scope,
};
use crate::parse::docs::{
    docs_value, empty_docs, info_fault, info_value, read_doc_child, read_infoattrs,
    read_infoelements,
};
use crate::parse::error::{checked, first, outcome, DecodeError, DecodeErrorView};
use crate::parse::tag::{classify, Tag};
use crate::parse::types::{held_type, read_typed_children, typed_fault};
use crate::xml::{Node, NodeView, XmlElement, XmlElementView};
use vstd::prelude::*;

verus! {

/// The members among `nodes`.
pub open spec fn members_in(nodes: Seq<NodeView>) -> Seq<MemberView>
    decreases nodes, 0int,
{
    if nodes.len() == 0 {
        Seq::empty()
    } else {
        let before = members_in(nodes.drop_last());
        match nodes.last() {
            NodeView::Element(c) => if c.tag() == Tag::Member {
                before.push(member_value(c))
            } else {
                before
            },
            _ => before,
        }
    }
}

/// The fields among `nodes`.
pub open spec fn fields_in(nodes: Seq<NodeView>) -> Seq<FieldView>
    decreases nodes, 0int,
{
    if nodes.len() == 0 {
        Seq::empty()
    } else {
        let before = fields_in(nodes.drop_last());
        match nodes.last() {
            NodeView::Element(c) => if c.tag() == Tag::Field {
                before.push(field_value(c))
            } else {
                before
            },
            _ => before,
        }
    }
}

/// The properties among `nodes`.
pub open spec fn properties_in(nodes: Seq<NodeView>) -> Seq<PropertyView>
    decreases nodes, 0int,
{
    if nodes.len() == 0 {
        Seq::empty()
    } else {
        let before = properties_in(nodes.drop_last());
        match nodes.last() {
            NodeView::Element(c) => if c.tag() == Tag::Property {
                before.push(property_value(c))
            } else {
                before
            },
            _ => before,
        }
    }
}

/// The constants among `nodes`.
pub open spec fn constants_in(nodes: Seq<NodeView>) -> Seq<ConstantView>
    decreases nodes, 0int,
{
    if nodes.len() == 0 {
        Seq::empty()
    } else {
        let before = constants_in(nodes.drop_last());
        match nodes.last() {
            NodeView::Element(c) => if c.tag() == Tag::Constant {
                before.push(constant_value(c))
            } else {
                before
            },
            _ => before,
        }
    }
}

/// The enumerations among `nodes`.
pub open spec fn enumerations_in(nodes: Seq<NodeView>) -> Seq<EnumerationView>
    decreases nodes, 0int,
{
    if nodes.len() == 0 {
        Seq::empty()
    } else {
        let before = enumerations_in(nodes.drop_last());
        match nodes.last() {
            NodeView::Element(c) => if c.tag() == Tag::Enumeration {
                before.push(enumeration_value(c))
            } else {
                before
            },
            _ => before,
        }
    }
}

/// The bitfields among `nodes`.
pub open spec fn bitfields_in(nodes: Seq<NodeView>) -> Seq<BitfieldView>
    decreases nodes, 0int,
{
    if nodes.len() == 0 {
        Seq::empty()
    } else {
        let before = bitfields_in(nodes.drop_last());
        match nodes.last() {
            NodeView::Element(c) => if c.tag() == Tag::Bitfield {
                before.push(bitfield_value(c))
            } else {
                before
            },
            _ => before,
        }
    }
}

/// The aliases among `nodes`.
pub open spec fn aliases_in(nodes: Seq<NodeView>) -> Seq<AliasView>
    decreases nodes, 0int,
{
    if nodes.len() == 0 {
        Seq::empty()
    } else {
        let before = aliases_in(nodes.drop_last());
        match nodes.last() {
            NodeView::Element(c) => if c.tag() == Tag::Alias {
                before.push(alias_value(c))
            } else {
                before
            },
            _ => before,
        }
    }
}

/// The boxed types among `nodes`.
pub open spec fn boxed_in(nodes: Seq<NodeView>) -> Seq<BoxedView>
    decreases nodes, 0int,
{
    if nodes.len() == 0 {
        Seq::empty()
    } else {
        let before = boxed_in(nodes.drop_last());
        match nodes.last() {
            NodeView::Element(c) => if c.tag() == Tag::Boxed {
                before.push(boxed_value(c))
            } else {
                before
            },
            _ => before,
        }
    }
}

/// The first fault among the attributes of a property.
pub open spec fn property_attr_fault(e: XmlElementView) -> Option<DecodeErrorView> {
    first(
        e.missing("name"@),
        first(
            info_fault(e),
            first(
                e.bad_flag("readable"@),
                first(
                    e.bad_flag("writable"@),
                    first(
                        e.bad_flag("construct"@),
                        first(
                            e.bad_flag("construct-only"@),
                            e.bad_value::<Transfer>("transfer-ownership"@),
                        ),
                    ),
                ),
            ),
        ),
    )
}

/// The first fault of a `property` element.
pub open spec fn property_fault(e: XmlElementView) -> Option<DecodeErrorView>
    decreases e, 1int,
{
    first(property_attr_fault(e), typed_fault(e))
}

/// What a `property` element decodes to. A property can be read and cannot
/// be written unless it says otherwise.
pub open spec fn property_value(e: XmlElementView) -> PropertyView {
    PropertyView {
        name: e.text_attr("name"@),
        info: info_value(e),
        doc: docs_value(e.children),
        writable: e.flag_or("writable"@, false),
        readable: e.flag_or("readable"@, true),
        construct: e.flag_or("construct"@, false),
        construct_only: e.flag_or("construct-only"@, false),
        setter: e.attr("setter"@),
        getter: e.attr("getter"@),
        transfer: e.value_or::<Transfer>("transfer-ownership"@, Transfer::Nothing),
        typ: held_type(e),
    }
}

/// The first fault among the attributes of a field.
pub open spec fn field_attr_fault(e: XmlElementView) -> Option<DecodeErrorView> {
    first(
        e.missing("name"@),
        first(
            info_fault(e),
            first(
                e.bad_flag("writable"@),
                first(
                    e.bad_flag("readable"@),
                    first(e.bad_flag("private"@), e.bad_value::<u32>("bits"@)),
                ),
            ),
        ),
    )
}

/// The first fault of a `field` element.
pub open spec fn field_fault(e: XmlElementView) -> Option<DecodeErrorView>
    decreases e, 1int,
{
    first(field_attr_fault(e), typed_fault(e))
}

/// What a `field` element decodes to.
pub open spec fn field_value(e: XmlElementView) -> FieldView {
    FieldView {
        name: e.text_attr("name"@),
        info: info_value(e),
        doc: docs_value(e.children),
        typ: held_type(e),
        writeable: e.flag_or("writable"@, false),
        readable: e.flag_or("readable"@, true),
        private: e.flag_or("private"@, false),
        bits: e.value::<u32>("bits"@),
    }
}

/// The first fault among the attributes of a constant.
pub open spec fn constant_attr_fault(e: XmlElementView) -> Option<DecodeErrorView> {
    first(e.missing("name"@), first(e.missing("value"@), info_fault(e)))
}

/// The first fault of a `constant` element.
pub open spec fn constant_fault(e: XmlElementView) -> Option<DecodeErrorView>
    decreases e, 1int,
{
    first(constant_attr_fault(e), typed_fault(e))
}

/// What a `constant` element decodes to.
pub open spec fn constant_value(e: XmlElementView) -> ConstantView {
    ConstantView {
        info: info_value(e),
        doc: docs_value(e.children),
        name: e.text_attr("name"@),
        value: e.text_attr("value"@),
        c_identifier: e.attr("identifier"@),
        c_type: e.attr("type"@),
        typ: held_type(e),
    }
}

/// The first fault among the attributes of an alias.
pub open spec fn alias_attr_fault(e: XmlElementView) -> Option<DecodeErrorView> {
    first(e.missing("name"@), first(e.missing("type"@), info_fault(e)))
}

/// The first fault of an `alias` element.
pub open spec fn alias_fault(e: XmlElementView) -> Option<DecodeErrorView>
    decreases e, 1int,
{
    first(alias_attr_fault(e), typed_fault(e))
}

/// What an `alias` element decodes to.
pub open spec fn alias_value(e: XmlElementView) -> AliasView {
    AliasView {
        name: e.text_attr("name"@),
        info: info_value(e),
        doc: docs_value(e.children),
        c_type: e.text_attr("type"@),
        typ: held_type(e),
    }
}

/// The first fault among the attributes of a member.
pub open spec fn member_attr_fault(e: XmlElementView) -> Option<DecodeErrorView> {
    first(e.missing("name"@), first(e.missing("value"@), info_fault(e)))
}

/// The first fault of a `member` element.
pub open spec fn member_fault(e: XmlElementView) -> Option<DecodeErrorView>
    decreases e, 1int,
{
    first(member_attr_fault(e), children_fault(Scope::Docs, e.name, e.children))
}

/// What a `member` element decodes to.
pub open spec fn member_value(e: XmlElementView) -> MemberView {
    MemberView {
        info: info_value(e),
        doc: docs_value(e.children),
        name: e.text_attr("name"@),
        value: e.text_attr("value"@),
        c_identifier: e.attr("identifier"@),
        glib_nick: e.attr("nick"@),
    }
}

/// The first fault among the attributes of an enumeration or a bitfield.
pub open spec fn members_attr_fault(e: XmlElementView) -> Option<DecodeErrorView> {
    first(e.missing("name"@), first(e.missing("type"@), info_fault(e)))
}

/// The first fault of an `enumeration` element.
pub open spec fn enumeration_fault(e: XmlElementView) -> Option<DecodeErrorView>
    decreases e, 1int,
{
    first(members_attr_fault(e), children_fault(Scope::Members, e.name, e.children))
}

/// What an `enumeration` element decodes to.
pub open spec fn enumeration_value(e: XmlElementView) -> EnumerationView {
    EnumerationView {
        info: info_value(e),
        doc: docs_value(e.children),
        name: e.text_attr("name"@),
        c_type: e.text_attr("type"@),
        glib_type_name: e.attr("type-name"@),
        glib_get_type: e.attr("get-type"@),
        glib_error_domain: e.attr("error-domain"@),
        members: members_in(e.children),
        functions: functions_in(e.children, Tag::Function, FunctionType::Member),
    }
}

/// The first fault of a `bitfield` element.
pub open spec fn bitfield_fault(e: XmlElementView) -> Option<DecodeErrorView>
    decreases e, 1int,
{
    first(members_attr_fault(e), children_fault(Scope::Members, e.name, e.children))
}

/// What a `bitfield` element decodes to.
pub open spec fn bitfield_value(e: XmlElementView) -> BitfieldView {
    BitfieldView {
        info: info_value(e),
        doc: docs_value(e.children),
        name: e.text_attr("name"@),
        c_type: e.text_attr("type"@),
        glib_type_name: e.attr("type-name"@),
        glib_get_type: e.attr("get-type"@),
        members: members_in(e.children),
        functions: functions_in(e.children, Tag::Function, FunctionType::Member),
    }
}

/// The first fault among the attributes of a boxed type.
pub open spec fn boxed_attr_fault(e: XmlElementView) -> Option<DecodeErrorView> {
    first(e.missing("name"@), info_fault(e))
}

/// The first fault of a `boxed` element.
pub open spec fn boxed_fault(e: XmlElementView) -> Option<DecodeErrorView>
    decreases e, 1int,
{
    first(boxed_attr_fault(e), children_fault(Scope::Boxed, e.name, e.children))
}

/// What a `boxed` element decodes to.
pub open spec fn boxed_value(e: XmlElementView) -> BoxedView {
    BoxedView {
        glib_name: e.text_attr("name"@),
        info: info_value(e),
        doc: docs_value(e.children),
        symbol_prefix: e.attr("symbol-prefix"@),
        glib_type_name: e.attr("type-name"@),
        glib_get_type: e.attr("get-type"@),
        functions: functions_in(e.children, Tag::Function, FunctionType::Function),
    }
}

/// Decodes a `property` element.
pub fn read_property(e: &XmlElement) -> (property: Result<Property, DecodeError>)
    ensures
        outcome(property) == checked(property_fault(e@), property_value(e@)),
{
    let name = attr_required(e, "name")?;
    let info = read_infoattrs(e)?;
    let readable = attr_flag(e, "readable", true)?;
    let writable = attr_flag(e, "writable", false)?;
    let construct = attr_flag(e, "construct", false)?;
    let construct_only = attr_flag(e, "construct-only", false)?;
    let transfer = match attr_value::<Transfer>(e, "transfer-ownership")? {
        Some(transfer) => transfer,
        None => Transfer::Nothing,
    };
    let (doc, typ) = read_typed_children(e)?;
    Ok(
        Property {
            name,
            info,
            doc,
            writable,
            readable,
            construct,
            construct_only,
            setter: attribute(e, "setter"),
            getter: attribute(e, "getter"),
            transfer,
            typ,
        },
    )
}

/// Decodes a `field` element.
pub fn read_field(e: &XmlElement) -> (field: Result<Field, DecodeError>)
    ensures
        outcome(field) == checked(field_fault(e@), field_value(e@)),
{
    let name = attr_required(e, "name")?;
    let info = read_infoattrs(e)?;
    let writeable = attr_flag(e, "writable", false)?;
    let readable = attr_flag(e, "readable", true)?;
    let private = attr_flag(e, "private", false)?;
    let bits = attr_value::<u32>(e, "bits")?;
    let (doc, typ) = read_typed_children(e)?;
    Ok(Field { name, info, doc, typ, writeable, readable, private, bits })
}

/// Decodes a `constant` element.
pub fn read_constant(e: &XmlElement) -> (constant: Result<Constant, DecodeError>)
    ensures
        outcome(constant) == checked(constant_fault(e@), constant_value(e@)),
{
    let name = attr_required(e, "name")?;
    let value = attr_required(e, "value")?;
    let info = read_infoattrs(e)?;
    let (doc, typ) = read_typed_children(e)?;
    Ok(
        Constant {
            info,
            doc,
            name,
            value,
            c_identifier: attribute(e, "identifier"),
            c_type: attribute(e, "type"),
            typ,
        },
    )
}

/// Decodes an `alias` element.
pub fn read_alias(e: &XmlElement) -> (alias: Result<Alias, DecodeError>)
    ensures
        outcome(alias) == checked(alias_fault(e@), alias_value(e@)),
{
    let name = attr_required(e, "name")?;
    let c_type = attr_required(e, "type")?;
    let info = read_infoattrs(e)?;
    let (doc, typ) = read_typed_children(e)?;
    Ok(Alias { name, info, doc, c_type, typ })
}

/// Decodes a `member` element.
pub fn read_member(e: &XmlElement) -> (member: Result<Member, DecodeError>)
    ensures
        outcome(member) == checked(member_fault(e@), member_value(e@)),
{
    let name = attr_required(e, "name")?;
    let value = attr_required(e, "value")?;
    let info = read_infoattrs(e)?;
    proof {
        lemma_docs_scope(e@.name, e@.children);
    }
    let doc = read_infoelements(e)?;
    Ok(
        Member {
            info,
            doc,
            name,
            value,
            c_identifier: attribute(e, "identifier"),
            glib_nick: attribute(e, "nick"),
        },
    )
}

/// Decodes what stands below an enumeration or a bitfield: its
/// documentation, its members and its functions.
#[verifier::loop_isolation(false)]
fn read_member_children(e: &XmlElement) -> (read: Result<
    (InfoElements, Vec<Member>, Vec<Function>),
    DecodeError,
>)
    ensures
        outcome(read) == checked(
            children_fault(Scope::Members, e@.name, e@.children),
            (
                docs_value(e@.children),
                members_in(e@.children),
                functions_in(e@.children, Tag::Function, FunctionType::Member),
            ),
        ),
{
    let ghost all = e@.children;
    let ghost owner = e@.name;
    proof {
        reveal_with_fuel(children_fault, 2);
    }
    let mut doc = empty_docs();
    let mut members: Vec<Member> = no_items();
    let mut functions: Vec<Function> = no_items();
    let mut i: usize = 0;
    while i < e.children.len()
        invariant
            i <= e.children.len(),
            children_fault(Scope::Members, owner, all.take(i as int)) is None,
            doc.deep_view() == docs_value(all.take(i as int)),
            members.deep_view() == members_in(all.take(i as int)),
            functions.deep_view() == functions_in(
                all.take(i as int),
                Tag::Function,
                FunctionType::Member,
            ),
        decreases e.children.len() - i,
    {
        proof {
            lemma_child_step(Scope::Members, e, i as int);
        }
        match &e.children[i] {
            Node::Element(c) => {
                let tag = classify(c.name.as_str());
                match tag {
                    Tag::Member => push_item(&mut members, read_member(c)?),
                    Tag::Function => push_item(
                        &mut functions,
                        read_function(c, FunctionType::Member)?,
                    ),
                    _ => read_doc_child(c, tag, &mut doc)?,
                }
            },
            _ => {},
        }
        i += 1;
    }
    proof {
        lemma_children_done(e);
    }
    Ok((doc, members, functions))
}

/// Decodes an `enumeration` element.
pub fn read_enumeration(e: &XmlElement) -> (enumeration: Result<Enumeration, DecodeError>)
    ensures
        outcome(enumeration) == checked(enumeration_fault(e@), enumeration_value(e@)),
{
    let name = attr_required(e, "name")?;
    let c_type = attr_required(e, "type")?;
    let info = read_infoattrs(e)?;
    let (doc, members, functions) = read_member_children(e)?;
    Ok(
        Enumeration {
            info,
            doc,
            name,
            c_type,
            glib_type_name: attribute(e, "type-name"),
            glib_get_type: attribute(e, "get-type"),
            glib_error_domain: attribute(e, "error-domain"),
            members,
            functions,
        },
    )
}

/// Decodes a `bitfield` element.
pub fn read_bitfield(e: &XmlElement) -> (bitfield: Result<Bitfield, DecodeError>)
    ensures
        outcome(bitfield) == checked(bitfield_fault(e@), bitfield_value(e@)),
{
    let name = attr_required(e, "name")?;
    let c_type = attr_required(e, "type")?;
    let info = read_infoattrs(e)?;
    let (doc, members, functions) = read_member_children(e)?;
    Ok(
        Bitfield {
            info,
            doc,
            name,
            c_type,
            glib_type_name: attribute(e, "type-name"),
            glib_get_type: attribute(e, "get-type"),
            members,
            functions,
        },
    )
}

/// Decodes a `boxed` element.
#[verifier::loop_isolation(false)]
pub fn read_boxed(e: &XmlElement) -> (boxed: Result<Boxed, DecodeError>)
    ensures
        outcome(boxed) == checked(boxed_fault(e@), boxed_value(e@)),
{
    let ghost all = e@.children;
    let ghost owner = e@.name;
    proof {
        reveal_with_fuel(children_fault, 2);
    }
    let glib_name = attr_required(e, "name")?;
    let info = read_infoattrs(e)?;
    let mut doc = empty_docs();
    let mut functions: Vec<Function> = no_items();
    let mut i: usize = 0;
    while i < e.children.len()
        invariant
            i <= e.children.len(),
            children_fault(Scope::Boxed, owner, all.take(i as int)) is None,
            doc.deep_view() == docs_value(all.take(i as int)),
            functions.deep_view() == functions_in(
                all.take(i as int),
                Tag::Function,
                FunctionType::Function,
            ),
        decreases e.children.len() - i,
    {
        proof {
            lemma_child_step(Scope::Boxed, e, i as int);
        }
        match &e.children[i] {
            Node::Element(c) => {
                let tag = classify(c.name.as_str());
                match tag {
                    Tag::Function => push_item(
                        &mut functions,
                        read_function(c, FunctionType::Function)?,
                    ),
                    _ => read_doc_child(c, tag, &mut doc)?,
                }
            },
            _ => {},
        }
        i += 1;
    }
    proof {
        lemma_children_done(e);
    }
    Ok(
        Boxed {
            glib_name,
            info,
            doc,
            symbol_prefix: attribute(e, "symbol-prefix"),
            glib_type_name: attribute(e, "type-name"),
            glib_get_type: attribute(e, "get-type"),
            functions,
        },
    )
}

} // verus!
