//! Unions, records, classes and interfaces.

use crate::items::{no_items, push_item};
use crate::library::{
    lemma_record_unions, lemma_union_records, Class, ClassView, Constant, Field, Function,
    FunctionType, Implement, ImplementView, Interface, InterfaceView, Property, Record, RecordView,
    Signal, Union, UnionView,
};
use crate::parse::attr::{attr_bool, attr_flag, attr_required, attribute};
use crate::parse::callable::{functions_in, last_function, read_function, read_signal, signals_in};
use crate::parse::children::{children_fault, lemma_child_step, lemma_children_done, Scope};
use crate::parse::docs::{
    docs_value, empty_docs, info_fault, info_value, read_doc_child, read_infoattrs,
};
use crate::parse::error::{checked, first, outcome, DecodeError, DecodeErrorView};
use crate::parse::members::{
    constants_in, fields_in, properties_in, read_constant, read_field, read_property,
};
use crate::parse::tag::{classify, Tag};
use crate::xml::{Node, NodeView, XmlElement, XmlElementView};
use vstd::prelude::*;

verus! {

/// The interfaces that a class says it implements, among `nodes`.
pub open spec fn implements_in(nodes: Seq<NodeView>) -> Seq<ImplementView>
    decreases nodes, 0int,
{
    if nodes.len() == 0 {
        Seq::empty()
    } else {
        let before = implements_in(nodes.drop_last());
        match nodes.last() {
            NodeView::Element(c) => if c.tag() == Tag::Implements {
                before.push(ImplementView { name: c.text_attr("name"@) })
            } else {
                before
            },
            _ => before,
        }
    }
}

/// The `name` of every child called `tag` among `nodes`.
pub open spec fn names_in(nodes: Seq<NodeView>, tag: Tag) -> Seq<Seq<char>>
    decreases nodes, 0int,
{
    if nodes.len() == 0 {
        Seq::empty()
    } else {
        let before = names_in(nodes.drop_last(), tag);
        match nodes.last() {
            NodeView::Element(c) => if c.tag() == tag {
                before.push(c.text_attr("name"@))
            } else {
                before
            },
            _ => before,
        }
    }
}

/// The records among `nodes`.
pub open spec fn records_in(nodes: Seq<NodeView>) -> Seq<RecordView>
    decreases nodes, 0int,
{
    if nodes.len() == 0 {
        Seq::empty()
    } else {
        let before = records_in(nodes.drop_last());
        match nodes.last() {
            NodeView::Element(c) => if c.tag() == Tag::Record {
                before.push(record_value(c))
            } else {
                before
            },
            _ => before,
        }
    }
}

/// The unions among `nodes`.
pub open spec fn unions_in(nodes: Seq<NodeView>) -> Seq<UnionView>
    decreases nodes, 0int,
{
    if nodes.len() == 0 {
        Seq::empty()
    } else {
        let before = unions_in(nodes.drop_last());
        match nodes.last() {
            NodeView::Element(c) => if c.tag() == Tag::Union {
                before.push(union_value(c))
            } else {
                before
            },
            _ => before,
        }
    }
}

/// The classes among `nodes`.
pub open spec fn classes_in(nodes: Seq<NodeView>) -> Seq<ClassView>
    decreases nodes, 0int,
{
    if nodes.len() == 0 {
        Seq::empty()
    } else {
        let before = classes_in(nodes.drop_last());
        match nodes.last() {
            NodeView::Element(c) => if c.tag() == Tag::Class {
                before.push(class_value(c))
            } else {
                before
            },
            _ => before,
        }
    }
}

/// The interfaces among `nodes`.
pub open spec fn interfaces_in(nodes: Seq<NodeView>) -> Seq<InterfaceView>
    decreases nodes, 0int,
{
    if nodes.len() == 0 {
        Seq::empty()
    } else {
        let before = interfaces_in(nodes.drop_last());
        match nodes.last() {
            NodeView::Element(c) => if c.tag() == Tag::Interface {
                before.push(interface_value(c))
            } else {
                before
            },
            _ => before,
        }
    }
}

/// The first fault of a `union` element.
pub open spec fn union_fault(e: XmlElementView) -> Option<DecodeErrorView>
    decreases e, 1int,
{
    first(info_fault(e), children_fault(Scope::Union, e.name, e.children))
}

/// What a `union` element decodes to.
pub open spec fn union_value(e: XmlElementView) -> UnionView
    decreases e, 1int,
{
    UnionView {
        name: e.attr("name"@),
        info: info_value(e),
        doc: docs_value(e.children),
        c_type: e.attr("type"@),
        symbol_prefix: e.attr("symbol-prefix"@),
        glib_type_name: e.attr("type-name"@),
        glib_get_type: e.attr("get-type"@),
        fields: fields_in(e.children),
        constructor: functions_in(e.children, Tag::Constructor, FunctionType::Constructor),
        method: functions_in(e.children, Tag::Method, FunctionType::Method),
        functions: functions_in(e.children, Tag::Function, FunctionType::Function),
        record: records_in(e.children),
    }
}

/// The first fault among the attributes of a record.
pub open spec fn record_attr_fault(e: XmlElementView) -> Option<DecodeErrorView> {
    first(
        e.missing("name"@),
        first(
            e.missing("type"@),
            first(info_fault(e), first(e.bad_flag("disguised"@), e.bad_flag("foreign"@))),
        ),
    )
}

/// The first fault of a `record` element.
pub open spec fn record_fault(e: XmlElementView) -> Option<DecodeErrorView>
    decreases e, 1int,
{
    first(record_attr_fault(e), children_fault(Scope::Record, e.name, e.children))
}

/// What a `record` element decodes to. A record is not disguised unless it
/// says so.
pub open spec fn record_value(e: XmlElementView) -> RecordView
    decreases e, 1int,
{
    RecordView {
        name: e.text_attr("name"@),
        info: info_value(e),
        doc: docs_value(e.children),
        c_type: e.text_attr("type"@),
        disguised: e.flag_or("disguised"@, false),
        symbol_prefix: e.attr("symbol-prefix"@),
        glib_get_type: e.attr("get-type"@),
        glib_type_name: e.attr("type-name"@),
        glib_is_gtype_struct_for: e.attr("is-gtype-struct-for"@),
        foreign: e.flag("foreign"@),
        fields: fields_in(e.children),
        unions: unions_in(e.children),
        constructor: functions_in(e.children, Tag::Constructor, FunctionType::Constructor),
        functions: functions_in(e.children, Tag::Function, FunctionType::Function),
        method: functions_in(e.children, Tag::Method, FunctionType::Method),
    }
}

/// The first fault among the attributes of a class.
pub open spec fn class_attr_fault(e: XmlElementView) -> Option<DecodeErrorView> {
    first(
        e.missing("name"@),
        first(
            e.missing("type-name"@),
            first(
                e.missing("get-type"@),
                first(
                    info_fault(e),
                    first(
                        e.bad_flag("abstract"@),
                        first(e.bad_flag("fundamental"@), e.bad_flag("final"@)),
                    ),
                ),
            ),
        ),
    )
}

/// The first fault of a `class` element.
pub open spec fn class_fault(e: XmlElementView) -> Option<DecodeErrorView>
    decreases e, 1int,
{
    first(class_attr_fault(e), children_fault(Scope::Class, e.name, e.children))
}

/// The attribute `name` of a class, which counts for fundamental types only.
pub open spec fn fundamental_attr(e: XmlElementView, name: Seq<char>) -> Option<Seq<char>> {
    if e.flag_or("fundamental"@, false) {
        e.attr(name)
    } else {
        None
    }
}

/// What a `class` element decodes to. A class is neither abstract, nor
/// fundamental, nor final unless it says so.
pub open spec fn class_value(e: XmlElementView) -> ClassView {
    ClassView {
        info: info_value(e),
        doc: docs_value(e.children),
        name: e.text_attr("name"@),
        glib_type_name: e.text_attr("type-name"@),
        glib_get_type: e.text_attr("get-type"@),
        parent: e.attr("parent"@),
        glib_type_struct: e.attr("type-struct"@),
        ref_func: fundamental_attr(e, "ref-func"@),
        unref_func: fundamental_attr(e, "unref-func"@),
        set_value_func: e.attr("set-value-func"@),
        get_value_func: e.attr("get-value-func"@),
        ctype: e.attr("type"@),
        symbol_prefix: e.attr("symbol-prefix"@),
        abstracts: e.flag_or("abstract"@, false),
        glib_fundamental: e.flag_or("fundamental"@, false),
        finals: e.flag_or("final"@, false),
        constructor: functions_in(e.children, Tag::Constructor, FunctionType::Constructor),
        functions: functions_in(e.children, Tag::Function, FunctionType::Function),
        method: functions_in(e.children, Tag::Method, FunctionType::Method),
        virtual_method: functions_in(e.children, Tag::VirtualMethod, FunctionType::Virtual),
        callbacks: functions_in(e.children, Tag::Callback, FunctionType::Callback),
        record: records_in(e.children),
        fields: fields_in(e.children),
        signals: signals_in(e.children),
        unions: unions_in(e.children),
        constant: constants_in(e.children),
        properties: properties_in(e.children),
        implements: implements_in(e.children),
    }
}

/// The first fault among the attributes of an interface.
pub open spec fn interface_attr_fault(e: XmlElementView) -> Option<DecodeErrorView> {
    first(
        e.missing("name"@),
        first(
            e.missing("type-name"@),
            first(e.missing("get-type"@), first(e.missing("symbol-prefix"@), info_fault(e))),
        ),
    )
}

/// The first fault of an `interface` element.
pub open spec fn interface_fault(e: XmlElementView) -> Option<DecodeErrorView>
    decreases e, 1int,
{
    first(interface_attr_fault(e), children_fault(Scope::Interface, e.name, e.children))
}

/// What an `interface` element decodes to.
pub open spec fn interface_value(e: XmlElementView) -> InterfaceView {
    InterfaceView {
        name: e.text_attr("name"@),
        info: info_value(e),
        doc: docs_value(e.children),
        glib_type_name: e.text_attr("type-name"@),
        glib_get_type: e.text_attr("get-type"@),
        symbol_prefix: e.text_attr("symbol-prefix"@),
        c_type: e.attr("type"@),
        glib_type_struct: e.attr("type-struct"@),
        constructor: last_function(e.children, Tag::Constructor, FunctionType::Constructor),
        prerequisites: names_in(e.children, Tag::Prerequisite),
        implements: names_in(e.children, Tag::Implements),
        functions: functions_in(e.children, Tag::Function, FunctionType::Function),
        method: functions_in(e.children, Tag::Method, FunctionType::Method),
        virtual_method: functions_in(e.children, Tag::VirtualMethod, FunctionType::Virtual),
        callbacks: functions_in(e.children, Tag::Callback, FunctionType::Callback),
        fields: fields_in(e.children),
        properties: properties_in(e.children),
        signals: signals_in(e.children),
        constant: constants_in(e.children),
    }
}

/// Decodes a `union` element.
#[verifier::loop_isolation(false)]
pub fn read_union(e: &XmlElement) -> (decoded: Result<Union, DecodeError>)
    ensures
        outcome(decoded) == checked(union_fault(e@), union_value(e@)),
    decreases e,
{
    let ghost all = e@.children;
    let ghost owner = e@.name;
    proof {
        reveal_with_fuel(children_fault, 2);
    }
    let info = read_infoattrs(e)?;
    let mut doc = empty_docs();
    let mut fields: Vec<Field> = no_items();
    let mut constructor: Vec<Function> = no_items();
    let mut method: Vec<Function> = no_items();
    let mut functions: Vec<Function> = no_items();
    let mut record: Vec<Record> = no_items();
    let mut i: usize = 0;
    while i < e.children.len()
        invariant
            i <= e.children.len(),
            children_fault(Scope::Union, owner, all.take(i as int)) is None,
            doc.deep_view() == docs_value(all.take(i as int)),
            fields.deep_view() == fields_in(all.take(i as int)),
            constructor.deep_view() == functions_in(
                all.take(i as int),
                Tag::Constructor,
                FunctionType::Constructor,
            ),
            method.deep_view() == functions_in(
                all.take(i as int),
                Tag::Method,
                FunctionType::Method,
            ),
            functions.deep_view() == functions_in(
                all.take(i as int),
                Tag::Function,
                FunctionType::Function,
            ),
            record.deep_view() == records_in(all.take(i as int)),
        decreases e.children.len() - i,
    {
        proof {
            lemma_child_step(Scope::Union, e, i as int);
        }
        match &e.children[i] {
            Node::Element(c) => {
                let tag = classify(c.name.as_str());
                match tag {
                    Tag::Constructor => push_item(
                        &mut constructor,
                        read_function(c, FunctionType::Constructor)?,
                    ),
                    Tag::Function => push_item(
                        &mut functions,
                        read_function(c, FunctionType::Function)?,
                    ),
                    Tag::Method => push_item(&mut method, read_function(c, FunctionType::Method)?),
                    Tag::Record => push_item(&mut record, Record::read(c)?),
                    Tag::Field => push_item(&mut fields, read_field(c)?),
                    _ => read_doc_child(c, tag, &mut doc)?,
                }
            },
            _ => {},
        }
        i += 1;
    }
    proof {
        lemma_children_done(e);
    }
    let decoded = Union {
        name: attribute(e, "name"),
        info,
        doc,
        c_type: attribute(e, "type"),
        symbol_prefix: attribute(e, "symbol-prefix"),
        glib_type_name: attribute(e, "type-name"),
        glib_get_type: attribute(e, "get-type"),
        fields,
        constructor,
        method,
        functions,
        record,
    };
    proof {
        lemma_union_records(decoded);
    }
    Ok(decoded)
}

impl Record {
    /// Decodes a `record` element.
    #[verifier::loop_isolation(false)]
    pub fn read(e: &XmlElement) -> (record: Result<Record, DecodeError>)
        ensures
            outcome(record) == checked(record_fault(e@), record_value(e@)),
        decreases e,
    {
        let ghost all = e@.children;
        let ghost owner = e@.name;
        proof {
            reveal_with_fuel(children_fault, 2);
        }
        let name = attr_required(e, "name")?;
        let c_type = attr_required(e, "type")?;
        let info = read_infoattrs(e)?;
        let disguised = attr_flag(e, "disguised", false)?;
        let foreign = attr_bool(e, "foreign")?;
        let mut doc = empty_docs();
        let mut fields: Vec<Field> = no_items();
        let mut unions: Vec<Union> = no_items();
        let mut constructor: Vec<Function> = no_items();
        let mut functions: Vec<Function> = no_items();
        let mut method: Vec<Function> = no_items();
        let mut i: usize = 0;
        while i < e.children.len()
            invariant
                i <= e.children.len(),
                children_fault(Scope::Record, owner, all.take(i as int)) is None,
                doc.deep_view() == docs_value(all.take(i as int)),
                fields.deep_view() == fields_in(all.take(i as int)),
                unions.deep_view() == unions_in(all.take(i as int)),
                constructor.deep_view() == functions_in(
                    all.take(i as int),
                    Tag::Constructor,
                    FunctionType::Constructor,
                ),
                functions.deep_view() == functions_in(
                    all.take(i as int),
                    Tag::Function,
                    FunctionType::Function,
                ),
                method.deep_view() == functions_in(
                    all.take(i as int),
                    Tag::Method,
                    FunctionType::Method,
                ),
            decreases e.children.len() - i,
        {
            proof {
                lemma_child_step(Scope::Record, e, i as int);
            }
            match &e.children[i] {
                Node::Element(c) => {
                    let tag = classify(c.name.as_str());
                    match tag {
                        Tag::Constructor => push_item(
                            &mut constructor,
                            read_function(c, FunctionType::Constructor)?,
                        ),
                        Tag::Function => push_item(
                            &mut functions,
                            read_function(c, FunctionType::Function)?,
                        ),
                        Tag::Method => push_item(
                            &mut method,
                            read_function(c, FunctionType::Method)?,
                        ),
                        Tag::Union => push_item(&mut unions, read_union(c)?),
                        Tag::Field => push_item(&mut fields, read_field(c)?),
                        _ => read_doc_child(c, tag, &mut doc)?,
                    }
                },
                _ => {},
            }
            i += 1;
        }
        proof {
            lemma_children_done(e);
        }
        let record = Record {
            name,
            info,
            doc,
            c_type,
            disguised,
            symbol_prefix: attribute(e, "symbol-prefix"),
            glib_get_type: attribute(e, "get-type"),
            glib_type_name: attribute(e, "type-name"),
            glib_is_gtype_struct_for: attribute(e, "is-gtype-struct-for"),
            foreign,
            fields,
            unions,
            constructor,
            functions,
            method,
        };
        proof {
            lemma_record_unions(record);
        }
        Ok(record)
    }
}

impl Class {
    /// Decodes a `class` element.
    #[verifier::loop_isolation(false)]
    pub fn read(e: &XmlElement) -> (class: Result<Class, DecodeError>)
        ensures
            outcome(class) == checked(class_fault(e@), class_value(e@)),
    {
        let ghost all = e@.children;
        let ghost owner = e@.name;
        proof {
            reveal_with_fuel(children_fault, 2);
        }
        let name = attr_required(e, "name")?;
        let glib_type_name = attr_required(e, "type-name")?;
        let glib_get_type = attr_required(e, "get-type")?;
        let info = read_infoattrs(e)?;
        let abstracts = attr_flag(e, "abstract", false)?;
        let glib_fundamental = attr_flag(e, "fundamental", false)?;
        let finals = attr_flag(e, "final", false)?;
        let mut doc = empty_docs();
        let mut constructor: Vec<Function> = no_items();
        let mut functions: Vec<Function> = no_items();
        let mut method: Vec<Function> = no_items();
        let mut virtual_method: Vec<Function> = no_items();
        let mut callbacks: Vec<Function> = no_items();
        let mut record: Vec<Record> = no_items();
        let mut fields: Vec<Field> = no_items();
        let mut signals: Vec<Signal> = no_items();
        let mut unions: Vec<Union> = no_items();
        let mut constant: Vec<Constant> = no_items();
        let mut properties: Vec<Property> = no_items();
        let mut implements: Vec<Implement> = no_items();
        let mut i: usize = 0;
        while i < e.children.len()
            invariant
                i <= e.children.len(),
                children_fault(Scope::Class, owner, all.take(i as int)) is None,
                doc.deep_view() == docs_value(all.take(i as int)),
                constructor.deep_view() == functions_in(
                    all.take(i as int),
                    Tag::Constructor,
                    FunctionType::Constructor,
                ),
                functions.deep_view() == functions_in(
                    all.take(i as int),
                    Tag::Function,
                    FunctionType::Function,
                ),
                method.deep_view() == functions_in(
                    all.take(i as int),
                    Tag::Method,
                    FunctionType::Method,
                ),
                virtual_method.deep_view() == functions_in(
                    all.take(i as int),
                    Tag::VirtualMethod,
                    FunctionType::Virtual,
                ),
                callbacks.deep_view() == functions_in(
                    all.take(i as int),
                    Tag::Callback,
                    FunctionType::Callback,
                ),
                record.deep_view() == records_in(all.take(i as int)),
                fields.deep_view() == fields_in(all.take(i as int)),
                signals.deep_view() == signals_in(all.take(i as int)),
                unions.deep_view() == unions_in(all.take(i as int)),
                constant.deep_view() == constants_in(all.take(i as int)),
                properties.deep_view() == properties_in(all.take(i as int)),
                implements.deep_view() == implements_in(all.take(i as int)),
            decreases e.children.len() - i,
        {
            proof {
                lemma_child_step(Scope::Class, e, i as int);
            }
            match &e.children[i] {
                Node::Element(c) => {
                    let tag = classify(c.name.as_str());
                    match tag {
                        Tag::Constructor => push_item(
                            &mut constructor,
                            read_function(c, FunctionType::Constructor)?,
                        ),
                        Tag::Function => push_item(
                            &mut functions,
                            read_function(c, FunctionType::Function)?,
                        ),
                        Tag::Method => push_item(
                            &mut method,
                            read_function(c, FunctionType::Method)?,
                        ),
                        Tag::VirtualMethod => push_item(
                            &mut virtual_method,
                            read_function(c, FunctionType::Virtual)?,
                        ),
                        Tag::Callback => push_item(
                            &mut callbacks,
                            read_function(c, FunctionType::Callback)?,
                        ),
                        Tag::Union => push_item(&mut unions, read_union(c)?),
                        Tag::Constant => push_item(&mut constant, read_constant(c)?),
                        Tag::Record => push_item(&mut record, Record::read(c)?),
                        Tag::Field => push_item(&mut fields, read_field(c)?),
                        Tag::Property => push_item(&mut properties, read_property(c)?),
                        Tag::Signal => push_item(&mut signals, read_signal(c)?),
                        Tag::Implements => push_item(
                            &mut implements,
                            Implement { name: attr_required(c, "name")? },
                        ),
                        _ => read_doc_child(c, tag, &mut doc)?,
                    }
                },
                _ => {},
            }
            i += 1;
        }
        proof {
            lemma_children_done(e);
        }
        let (ref_func, unref_func) = if glib_fundamental {
            (attribute(e, "ref-func"), attribute(e, "unref-func"))
        } else {
            (None, None)
        };
        Ok(
            Class {
                info,
                doc,
                name,
                glib_type_name,
                glib_get_type,
                parent: attribute(e, "parent"),
                glib_type_struct: attribute(e, "type-struct"),
                ref_func,
                unref_func,
                set_value_func: attribute(e, "set-value-func"),
                get_value_func: attribute(e, "get-value-func"),
                ctype: attribute(e, "type"),
                symbol_prefix: attribute(e, "symbol-prefix"),
                abstracts,
                glib_fundamental,
                finals,
                constructor,
                functions,
                method,
                virtual_method,
                callbacks,
                record,
                fields,
                signals,
                unions,
                constant,
                properties,
                implements,
            },
        )
    }
}

/// Decodes an `interface` element.
#[verifier::loop_isolation(false)]
pub fn read_interface(e: &XmlElement) -> (interface: Result<Interface, DecodeError>)
    ensures
        outcome(interface) == checked(interface_fault(e@), interface_value(e@)),
{
    let ghost all = e@.children;
    let ghost owner = e@.name;
    proof {
        reveal_with_fuel(children_fault, 2);
    }
    let name = attr_required(e, "name")?;
    let glib_type_name = attr_required(e, "type-name")?;
    let glib_get_type = attr_required(e, "get-type")?;
    let symbol_prefix = attr_required(e, "symbol-prefix")?;
    let info = read_infoattrs(e)?;
    let mut doc = empty_docs();
    let mut constructor: Option<Function> = None;
    let mut prerequisites: Vec<String> = no_items();
    let mut implements: Vec<String> = no_items();
    let mut functions: Vec<Function> = no_items();
    let mut method: Vec<Function> = no_items();
    let mut virtual_method: Vec<Function> = no_items();
    let mut callbacks: Vec<Function> = no_items();
    let mut fields: Vec<Field> = no_items();
    let mut properties: Vec<Property> = no_items();
    let mut signals: Vec<Signal> = no_items();
    let mut constant: Vec<Constant> = no_items();
    let mut i: usize = 0;
    while i < e.children.len()
        invariant
            i <= e.children.len(),
            children_fault(Scope::Interface, owner, all.take(i as int)) is None,
            doc.deep_view() == docs_value(all.take(i as int)),
            constructor.deep_view() == last_function(
                all.take(i as int),
                Tag::Constructor,
                FunctionType::Constructor,
            ),
            prerequisites.deep_view() == names_in(all.take(i as int), Tag::Prerequisite),
            implements.deep_view() == names_in(all.take(i as int), Tag::Implements),
            functions.deep_view() == functions_in(
                all.take(i as int),
                Tag::Function,
                FunctionType::Function,
            ),
            method.deep_view() == functions_in(
                all.take(i as int),
                Tag::Method,
                FunctionType::Method,
            ),
            virtual_method.deep_view() == functions_in(
                all.take(i as int),
                Tag::VirtualMethod,
                FunctionType::Virtual,
            ),
            callbacks.deep_view() == functions_in(
                all.take(i as int),
                Tag::Callback,
                FunctionType::Callback,
            ),
            fields.deep_view() == fields_in(all.take(i as int)),
            properties.deep_view() == properties_in(all.take(i as int)),
            signals.deep_view() == signals_in(all.take(i as int)),
            constant.deep_view() == constants_in(all.take(i as int)),
        decreases e.children.len() - i,
    {
        proof {
            lemma_child_step(Scope::Interface, e, i as int);
        }
        match &e.children[i] {
            Node::Element(c) => {
                let tag = classify(c.name.as_str());
                match tag {
                    Tag::Constructor => {
                        constructor = Some(read_function(c, FunctionType::Constructor)?);
                    },
                    Tag::Function => push_item(
                        &mut functions,
                        read_function(c, FunctionType::Function)?,
                    ),
                    Tag::Method => push_item(&mut method, read_function(c, FunctionType::Method)?),
                    Tag::VirtualMethod => push_item(
                        &mut virtual_method,
                        read_function(c, FunctionType::Virtual)?,
                    ),
                    Tag::Callback => push_item(
                        &mut callbacks,
                        read_function(c, FunctionType::Callback)?,
                    ),
                    Tag::Constant => push_item(&mut constant, read_constant(c)?),
                    Tag::Field => push_item(&mut fields, read_field(c)?),
                    Tag::Property => push_item(&mut properties, read_property(c)?),
                    Tag::Signal => push_item(&mut signals, read_signal(c)?),
                    Tag::Prerequisite => push_item(&mut prerequisites, attr_required(c, "name")?),
                    Tag::Implements => push_item(&mut implements, attr_required(c, "name")?),
                    _ => read_doc_child(c, tag, &mut doc)?,
                }
            },
            _ => {},
        }
        i += 1;
    }
    proof {
        lemma_children_done(e);
    }
    Ok(
        Interface {
            name,
            info,
            doc,
            glib_type_name,
            glib_get_type,
            symbol_prefix,
            c_type: attribute(e, "type"),
            glib_type_struct: attribute(e, "type-struct"),
            constructor,
            prerequisites,
            implements,
            functions,
            method,
            virtual_method,
            callbacks,
            fields,
            properties,
            signals,
            constant,
        },
    )
}

} // verus!
