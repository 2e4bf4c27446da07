//! Parameters, functions of every kind, and signals.

use crate::items::{no_items, push_item};
use crate::library::{
    lemma_type_arguments, AnyType, AnyTypeView, Function, FunctionType, FunctionView, InfoElements,
    Parameter, ParameterDirection, ParameterScope, ParameterView, Signal, SignalView, Transfer,
    Type, TypeView,
};
use crate::parse::attr::{
    attr_flag, attr_required, attr_value, attribute, duplicate_child, missing_child,
};
use crate::parse::children::{children_fault, lemma_child_step, lemma_children_done, Scope};
use crate::parse::docs::{
    docs_value, empty_docs, info_fault, info_value, no_docs, read_doc_child, read_infoattrs,
};
use crate::parse::error::{checked, first, outcome, DecodeError, DecodeErrorView};
use crate::parse::tag::{classify, Tag};
use crate::parse::types::{held_type, read_typed_children, typed_fault};
use crate::xml::{Node, NodeView, XmlElement, XmlElementView};
use vstd::prelude::*;

verus! {

/// The parameters among the children `nodes` of a `parameters` element.
pub open spec fn parameters_of(nodes: Seq<NodeView>) -> Seq<ParameterView>
    decreases nodes, 0int,
{
    if nodes.len() == 0 {
        Seq::empty()
    } else {
        let before = parameters_of(nodes.drop_last());
        match nodes.last() {
            NodeView::Element(
                c,
            ) => if c.tag() == Tag::Parameter || c.tag() == Tag::InstanceParameter {
                before.push(parameter_value(c))
            } else {
                before
            },
            _ => before,
        }
    }
}

/// What the children called `tag` among `nodes` decode to as functions of
/// the kind `kind`.
pub open spec fn functions_in(
    nodes: Seq<NodeView>,
    tag: Tag,
    kind: FunctionType,
) -> Seq<FunctionView>
    decreases nodes, 0int,
{
    if nodes.len() == 0 {
        Seq::empty()
    } else {
        let before = functions_in(nodes.drop_last(), tag, kind);
        match nodes.last() {
            NodeView::Element(c) => if c.tag() == tag {
                before.push(function_value(c, kind))
            } else {
                before
            },
            _ => before,
        }
    }
}

/// The signals among `nodes`.
pub open spec fn signals_in(nodes: Seq<NodeView>) -> Seq<SignalView>
    decreases nodes, 0int,
{
    if nodes.len() == 0 {
        Seq::empty()
    } else {
        let before = signals_in(nodes.drop_last());
        match nodes.last() {
            NodeView::Element(c) => if c.tag() == Tag::Signal {
                before.push(signal_value(c))
            } else {
                before
            },
            _ => before,
        }
    }
}

/// The first fault among the attributes of a parameter or a return value.
pub open spec fn parameter_attr_fault(e: XmlElementView) -> Option<DecodeErrorView> {
    first(
        e.bad_flag("nullable"@),
        first(
            e.bad_flag("allow-none"@),
            first(
                e.bad_flag("introspectable"@),
                first(
                    e.bad_value::<usize>("closure"@),
                    first(
                        e.bad_value::<usize>("destroy"@),
                        first(
                            e.bad_value::<ParameterScope>("scope"@),
                            first(
                                if e.tag() == Tag::ReturnValue {
                                    None
                                } else {
                                    e.bad_value::<ParameterDirection>("direction"@)
                                },
                                first(
                                    e.bad_flag("caller-allocates"@),
                                    first(
                                        e.bad_flag("optional"@),
                                        first(
                                            e.bad_flag("skip"@),
                                            e.bad_value::<Transfer>("transfer-ownership"@),
                                        ),
                                    ),
                                ),
                            ),
                        ),
                    ),
                ),
            ),
        ),
    )
}

/// The first fault of a `parameter`, `instance-parameter` or `return-value`
/// element.
pub open spec fn parameter_fault(e: XmlElementView) -> Option<DecodeErrorView>
    decreases e, 1int,
{
    first(parameter_attr_fault(e), typed_fault(e))
}

/// The position that an array type gives for the parameter that holds its
/// length.
pub open spec fn length_position(typ: AnyTypeView) -> Option<usize> {
    match typ {
        AnyTypeView::Array(array) => array.length,
        _ => None,
    }
}

/// What a `parameter`, `instance-parameter` or `return-value` element
/// decodes to. A return value has the direction `Return`, whatever it says;
/// any other parameter is `In` unless it says otherwise.
pub open spec fn parameter_value(e: XmlElementView) -> ParameterView {
    ParameterView {
        name: e.text_attr("name"@),
        instance_parameter: e.tag() == Tag::InstanceParameter,
        nullable: e.flag_or("nullable"@, false),
        allow_none: e.flag_or("allow-none"@, false),
        introspectable: e.flag_or("introspectable"@, true),
        closure: e.value::<usize>("closure"@),
        destroy: e.value::<usize>("destroy"@),
        scope: e.value_or::<ParameterScope>("scope"@, ParameterScope::Unspecified),
        direction: if e.tag() == Tag::ReturnValue {
            ParameterDirection::Return
        } else {
            e.value_or::<ParameterDirection>("direction"@, ParameterDirection::In)
        },
        caller_allocates: e.flag_or("caller-allocates"@, false),
        optional: e.flag_or("optional"@, false),
        skip: e.flag_or("skip"@, false),
        transfer: e.value_or::<Transfer>("transfer-ownership"@, Transfer::Nothing),
        array_length: length_position(held_type(e)),
        doc: docs_value(e.children),
        typ: held_type(e),
    }
}

/// The parameters among `nodes`: those of every `parameters` child, in
/// document order.
pub open spec fn parameters_in(nodes: Seq<NodeView>) -> Seq<ParameterView>
    decreases nodes.len(),
{
    if nodes.len() == 0 {
        Seq::empty()
    } else {
        let before = parameters_in(nodes.drop_last());
        match nodes.last() {
            NodeView::Element(c) => if c.tag() == Tag::Parameters {
                before + parameters_of(c.children)
            } else {
                before
            },
            _ => before,
        }
    }
}

/// What the first `return-value` among `nodes` decodes to.
pub open spec fn return_in(nodes: Seq<NodeView>) -> Option<ParameterView>
    decreases nodes.len(),
{
    if nodes.len() == 0 {
        None
    } else {
        match return_in(nodes.drop_last()) {
            Some(ret) => Some(ret),
            None => match nodes.last() {
                NodeView::Element(c) => if c.tag() == Tag::ReturnValue {
                    Some(parameter_value(c))
                } else {
                    None
                },
                _ => None,
            },
        }
    }
}

/// Whether one of `parameters` is a variable argument list.
pub open spec fn has_varargs(parameters: Seq<ParameterView>) -> bool {
    exists|i: int| 0 <= i < parameters.len() && (#[trigger] parameters[i]).typ is VarArg
}

/// The fault of a function or signal that says nothing of what it returns.
/// One that takes a variable argument list need not say it.
pub open spec fn missing_return(e: XmlElementView) -> Option<DecodeErrorView> {
    if return_in(e.children) is None && !has_varargs(parameters_in(e.children)) {
        Some(DecodeErrorView::MissingChild { element: e.name, child: "return-value"@ })
    } else {
        None
    }
}

/// The first fault among the children of a function or a signal.
pub open spec fn callable_fault(e: XmlElementView) -> Option<DecodeErrorView>
    decreases e, 0int,
{
    first(children_fault(Scope::Callable, e.name, e.children), missing_return(e))
}

/// The first fault among the attributes of a function.
pub open spec fn function_attr_fault(e: XmlElementView) -> Option<DecodeErrorView> {
    first(e.missing("name"@), first(info_fault(e), e.bad_flag("throws"@)))
}

/// The first fault of a function of any kind.
pub open spec fn function_fault(e: XmlElementView) -> Option<DecodeErrorView>
    decreases e, 1int,
{
    first(function_attr_fault(e), callable_fault(e))
}

/// The type of the error that a throwing function hands out.
pub open spec fn error_type() -> AnyTypeView {
    AnyTypeView::Type(
        TypeView {
            name: Some("GLib.Error"@),
            ctype: Some("GError**"@),
            introspectable: true,
            doc: no_docs(),
            children: Seq::empty(),
        },
    )
}

/// The parameter that a throwing function has after those it declares: the
/// error, handed out to the caller, who owns it; there may be none.
pub open spec fn error_parameter() -> ParameterView {
    ParameterView {
        name: "error"@,
        instance_parameter: false,
        nullable: true,
        allow_none: false,
        introspectable: true,
        closure: None,
        destroy: None,
        scope: ParameterScope::Unspecified,
        direction: ParameterDirection::Out,
        caller_allocates: false,
        optional: false,
        skip: false,
        transfer: Transfer::Full,
        array_length: None,
        doc: no_docs(),
        typ: error_type(),
    }
}

/// The parameters of the function `e`: those it declares, and the error
/// after them where it throws.
pub open spec fn function_parameters(e: XmlElementView) -> Seq<ParameterView> {
    if e.flag_or("throws"@, false) {
        parameters_in(e.children).push(error_parameter())
    } else {
        parameters_in(e.children)
    }
}

/// What a function element decodes to as a function of the kind `kind`.
pub open spec fn function_value(e: XmlElementView, kind: FunctionType) -> FunctionView {
    FunctionView {
        info: info_value(e),
        doc: docs_value(e.children),
        typ: kind,
        name: e.text_attr("name"@),
        introspectable: e.flag_or("introspectable"@, true),
        c_identifier: e.attr("identifier"@),
        shadowed_by: e.attr("shadowed-by"@),
        shadows: e.attr("shadows"@),
        throws: e.flag_or("throws"@, false),
        moved_to: e.attr("moved-to"@),
        parameters: function_parameters(e),
        ret: return_in(e.children),
    }
}

/// The first fault among the attributes of a signal.
pub open spec fn signal_attr_fault(e: XmlElementView) -> Option<DecodeErrorView> {
    first(
        e.missing("name"@),
        first(
            info_fault(e),
            first(
                e.bad_flag("detailed"@),
                first(
                    e.bad_flag("action"@),
                    first(e.bad_flag("no-hooks"@), e.bad_flag("no-recurse"@)),
                ),
            ),
        ),
    )
}

/// The first fault of a `signal` element.
pub open spec fn signal_fault(e: XmlElementView) -> Option<DecodeErrorView>
    decreases e, 1int,
{
    first(signal_attr_fault(e), callable_fault(e))
}

/// What a `signal` element decodes to.
pub open spec fn signal_value(e: XmlElementView) -> SignalView {
    SignalView {
        name: e.text_attr("name"@),
        info: info_value(e),
        doc: docs_value(e.children),
        detailed: e.flag_or("detailed"@, false),
        when: e.attr("when"@),
        action: e.flag_or("action"@, false),
        no_hooks: e.flag_or("no-hooks"@, false),
        no_recurse: e.flag_or("no-recurse"@, false),
        emitter: e.attr("emitter"@),
        parameters: parameters_in(e.children),
        ret: return_in(e.children),
    }
}

/// What the last child called `tag` among `nodes` decodes to as a function
/// of the kind `kind`.
pub open spec fn last_function(nodes: Seq<NodeView>, tag: Tag, kind: FunctionType) -> Option<
    FunctionView,
>
    decreases nodes.len(),
{
    if nodes.len() == 0 {
        None
    } else {
        match nodes.last() {
            NodeView::Element(c) => if c.tag() == tag {
                Some(function_value(c, kind))
            } else {
                last_function(nodes.drop_last(), tag, kind)
            },
            _ => last_function(nodes.drop_last(), tag, kind),
        }
    }
}

/// Decodes a `parameter`, `instance-parameter` or `return-value` element.
pub fn read_param(e: &XmlElement) -> (parameter: Result<Parameter, DecodeError>)
    ensures
        outcome(parameter) == checked(parameter_fault(e@), parameter_value(e@)),
{
    let tag = classify(e.name.as_str());
    let nullable = attr_flag(e, "nullable", false)?;
    let allow_none = attr_flag(e, "allow-none", false)?;
    let introspectable = attr_flag(e, "introspectable", true)?;
    let closure = attr_value::<usize>(e, "closure")?;
    let destroy = attr_value::<usize>(e, "destroy")?;
    let scope = match attr_value::<ParameterScope>(e, "scope")? {
        Some(scope) => scope,
        None => ParameterScope::Unspecified,
    };
    let direction = if tag == Tag::ReturnValue {
        ParameterDirection::Return
    } else {
        match attr_value::<ParameterDirection>(e, "direction")? {
            Some(direction) => direction,
            None => ParameterDirection::In,
        }
    };
    let caller_allocates = attr_flag(e, "caller-allocates", false)?;
    let optional = attr_flag(e, "optional", false)?;
    let skip = attr_flag(e, "skip", false)?;
    let transfer = match attr_value::<Transfer>(e, "transfer-ownership")? {
        Some(transfer) => transfer,
        None => Transfer::Nothing,
    };
    let (doc, typ) = read_typed_children(e)?;
    let array_length = match &typ {
        AnyType::Array(array) => array.length,
        _ => None,
    };
    Ok(
        Parameter {
            name: match attribute(e, "name") {
                Some(name) => name,
                None => String::new(),
            },
            instance_parameter: tag == Tag::InstanceParameter,
            nullable,
            allow_none,
            introspectable,
            closure,
            destroy,
            scope,
            direction,
            caller_allocates,
            optional,
            skip,
            transfer,
            array_length,
            doc,
            typ,
        },
    )
}

/// Decodes the parameters below the `parameters` element `e` and appends
/// them to `parameters`.
#[verifier::loop_isolation(false)]
fn read_params(e: &XmlElement, parameters: &mut Vec<Parameter>) -> (read: Result<(), DecodeError>)
    ensures
        match read {
            Ok(_) => {
                &&& children_fault(Scope::Parameters, e@.name, e@.children) is None
                &&& final(parameters).deep_view() == old(parameters).deep_view() + parameters_of(
                    e@.children,
                )
            },
            Err(error) => children_fault(Scope::Parameters, e@.name, e@.children) == Some(
                error.deep_view(),
            ),
        },
{
    let ghost all = e@.children;
    let ghost owner = e@.name;
    let ghost given = parameters.deep_view();
    proof {
        reveal_with_fuel(children_fault, 2);
    }
    let mut i: usize = 0;
    assert(parameters.deep_view() =~= given + parameters_of(all.take(0)));
    while i < e.children.len()
        invariant
            i <= e.children.len(),
            children_fault(Scope::Parameters, owner, all.take(i as int)) is None,
            parameters.deep_view() == given + parameters_of(all.take(i as int)),
        decreases e.children.len() - i,
    {
        proof {
            lemma_child_step(Scope::Parameters, e, i as int);
        }
        let ghost so_far = parameters_of(all.take(i as int));
        match &e.children[i] {
            Node::Element(c) => {
                match classify(c.name.as_str()) {
                    Tag::Parameter | Tag::InstanceParameter => {
                        let parameter = read_param(c)?;
                        push_item(parameters, parameter);
                        assert((given + so_far).push(parameter.deep_view()) =~= given
                            + so_far.push(parameter.deep_view()));
                    },
                    _ => {},
                }
            },
            _ => {},
        }
        i += 1;
    }
    proof {
        lemma_children_done(e);
    }
    Ok(())
}

/// Whether one of `parameters` is a variable argument list.
fn any_varargs(parameters: &Vec<Parameter>) -> (found: bool)
    ensures
        found == has_varargs(parameters.deep_view()),
{
    let mut i: usize = 0;
    while i < parameters.len()
        invariant
            i <= parameters.len(),
            forall|k: int| 0 <= k < i ==> !((#[trigger] parameters.deep_view()[k]).typ is VarArg),
        decreases parameters.len() - i,
    {
        match &parameters[i].typ {
            AnyType::VarArg => {
                assert(parameters.deep_view()[i as int].typ is VarArg);
                return true;
            },
            _ => {},
        }
        i += 1;
    }
    false
}

/// Decodes what stands below a function or a signal: its documentation, its
/// parameters and what it returns.
#[verifier::loop_isolation(false)]
fn read_callable(e: &XmlElement) -> (read: Result<
    (InfoElements, Vec<Parameter>, Option<Parameter>),
    DecodeError,
>)
    ensures
        outcome(read) == checked(
            callable_fault(e@),
            (docs_value(e@.children), parameters_in(e@.children), return_in(e@.children)),
        ),
{
    let ghost all = e@.children;
    let ghost owner = e@.name;
    proof {
        reveal_with_fuel(children_fault, 2);
    }
    let mut doc = empty_docs();
    let mut parameters: Vec<Parameter> = no_items();
    let mut ret: Option<Parameter> = None;
    let mut i: usize = 0;
    while i < e.children.len()
        invariant
            i <= e.children.len(),
            children_fault(Scope::Callable, owner, all.take(i as int)) is None,
            doc.deep_view() == docs_value(all.take(i as int)),
            parameters.deep_view() == parameters_in(all.take(i as int)),
            ret.deep_view() == return_in(all.take(i as int)),
        decreases e.children.len() - i,
    {
        proof {
            lemma_child_step(Scope::Callable, e, i as int);
        }
        match &e.children[i] {
            Node::Element(c) => {
                let tag = classify(c.name.as_str());
                match tag {
                    Tag::Parameters => read_params(c, &mut parameters)?,
                    Tag::ReturnValue => {
                        if ret.is_some() {
                            return Err(duplicate_child(e, c.name.as_str()));
                        }
                        ret = Some(read_param(c)?);
                    },
                    _ => read_doc_child(c, tag, &mut doc)?,
                }
            },
            _ => {},
        }
        i += 1;
    }
    proof {
        lemma_children_done(e);
    }
    if ret.is_none() && !any_varargs(&parameters) {
        return Err(missing_child(e, "return-value"));
    }
    Ok((doc, parameters, ret))
}

/// The type of the error that a throwing function hands out.
fn error_type_value() -> (typ: AnyType)
    ensures
        typ.deep_view() == error_type(),
{
    let typ = Type {
        name: Some("GLib.Error".to_owned()),
        ctype: Some("GError**".to_owned()),
        introspectable: true,
        doc: empty_docs(),
        children: no_items(),
    };
    proof {
        lemma_type_arguments(typ);
    }
    AnyType::Type(typ)
}

/// The parameter that a throwing function has after those it declares.
fn error_param() -> (parameter: Parameter)
    ensures
        parameter.deep_view() == error_parameter(),
{
    Parameter {
        name: "error".to_owned(),
        instance_parameter: false,
        nullable: true,
        allow_none: false,
        introspectable: true,
        closure: None,
        destroy: None,
        scope: ParameterScope::Unspecified,
        direction: ParameterDirection::Out,
        caller_allocates: false,
        optional: false,
        skip: false,
        transfer: Transfer::Full,
        array_length: None,
        doc: empty_docs(),
        typ: error_type_value(),
    }
}

/// Decodes a function element as a function of the kind `typ`. Where it
/// throws, the error stands after the parameters that it declares.
pub fn read_function(e: &XmlElement, typ: FunctionType) -> (function: Result<
    Function,
    DecodeError,
>)
    ensures
        outcome(function) == checked(function_fault(e@), function_value(e@, typ)),
{
    let name = attr_required(e, "name")?;
    let info = read_infoattrs(e)?;
    let throws = attr_flag(e, "throws", false)?;
    let (doc, mut parameters, ret) = read_callable(e)?;
    if throws {
        push_item(&mut parameters, error_param());
    }
    let introspectable = info.introspectable;
    Ok(
        Function {
            info,
            doc,
            typ,
            name,
            introspectable,
            c_identifier: attribute(e, "identifier"),
            shadowed_by: attribute(e, "shadowed-by"),
            shadows: attribute(e, "shadows"),
            throws,
            moved_to: attribute(e, "moved-to"),
            parameters,
            ret,
        },
    )
}

/// Decodes a `signal` element.
pub fn read_signal(e: &XmlElement) -> (signal: Result<Signal, DecodeError>)
    ensures
        outcome(signal) == checked(signal_fault(e@), signal_value(e@)),
{
    let name = attr_required(e, "name")?;
    let info = read_infoattrs(e)?;
    let detailed = attr_flag(e, "detailed", false)?;
    let action = attr_flag(e, "action", false)?;
    let no_hooks = attr_flag(e, "no-hooks", false)?;
    let no_recurse = attr_flag(e, "no-recurse", false)?;
    let (doc, parameters, ret) = read_callable(e)?;
    Ok(
        Signal {
            name,
            info,
            doc,
            detailed,
            when: attribute(e, "when"),
            action,
            no_hooks,
            no_recurse,
            emitter: attribute(e, "emitter"),
            parameters,
            ret,
        },
    )
}

} // verus!
