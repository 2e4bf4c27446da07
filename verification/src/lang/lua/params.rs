//! The documentation of a declaration, and what a call takes and hands
//! back.

use crate::items::{lemma_all_items, lemma_next_item, no_items, push_item};
use crate::lang::lua::names::{show_anytyp, shown, unkeyword, unkeyworded};
use crate::library::{
    Function, InfoAttrs, InfoAttrsView, InfoElements, InfoElementsView, Parameter,
    ParameterDirection, ParameterView, Signal, SignalView,
};
use crate::text::{join, joined, replace, replace_char, replaced, same_text, swapped};
use vstd::prelude::*;
use vstd::string::StringExecFns;

verus! {

/// The texts `texts` written one after the other.
pub open spec fn concat(texts: Seq<Seq<char>>) -> Seq<char>
    decreases texts.len(),
{
    if texts.len() == 0 {
        Seq::empty()
    } else {
        concat(texts.drop_last()) + texts.last()
    }
}

/// Writes `texts` one after the other.
fn concat_all(texts: &Vec<String>) -> (text: String)
    ensures
        text@ == concat(texts.deep_view()),
{
    let mut text = String::new();
    let mut i: usize = 0;
    while i < texts.len()
        invariant
            i <= texts.len(),
            text@ == concat(texts.deep_view().take(i as int)),
        decreases texts.len() - i,
    {
        proof {
            lemma_next_item(texts, i as int);
        }
        text.append(texts[i].as_str());
        i += 1;
    }
    proof {
        lemma_all_items(texts);
    }
    text
}

/// Whether a parameter of the direction `direction` hands a value in.
pub open spec fn is_in(direction: ParameterDirection) -> bool {
    direction == ParameterDirection::In || direction == ParameterDirection::InOut
}

/// Whether a parameter of the direction `direction` hands a value out.
pub open spec fn is_out(direction: ParameterDirection) -> bool {
    direction == ParameterDirection::Out || direction == ParameterDirection::InOut
}

/// Whether a parameter of the direction `direction` hands a value in.
pub fn in_param(direction: ParameterDirection) -> (handed_in: bool)
    ensures
        handed_in == is_in(direction),
{
    match direction {
        ParameterDirection::In | ParameterDirection::InOut => true,
        _ => false,
    }
}

/// Whether a parameter of the direction `direction` hands a value out.
pub fn out_param(direction: ParameterDirection) -> (handed_out: bool)
    ensures
        handed_out == is_out(direction),
{
    match direction {
        ParameterDirection::Out | ParameterDirection::InOut => true,
        _ => false,
    }
}

/// The mark of a parameter that may be left out.
pub open spec fn optional_mark(parameter: ParameterView) -> Seq<char> {
    if parameter.optional || parameter.allow_none {
        "?"@
    } else {
        ""@
    }
}

/// The mark of a parameter that may be left out.
pub fn optional(param: &Parameter) -> (mark: &'static str)
    ensures
        mark@ == optional_mark(param.deep_view()),
{
    if param.optional || param.allow_none {
        "?"
    } else {
        ""
    }
}

/// A documentation text as Lua reads it: `%NULL` is `nil`.
pub open spec fn luafied(content: Seq<char>) -> Seq<char> {
    replaced(content, "%NULL"@, "nil"@)
}

/// The line that says that a declaration is deprecated.
pub open spec fn info_text(info: InfoAttrsView) -> Seq<char> {
    if info.deprecated == Some(true) {
        "--- @deprecated\n"@
    } else {
        Seq::empty()
    }
}

impl InfoAttrs {
    /// Writes the line that says that a declaration is deprecated, where it
    /// is.
    pub fn gen(&self) -> (text: String)
        ensures
            text@ == info_text(self.deep_view()),
    {
        match self.deprecated {
            Some(true) => "--- @deprecated\n".to_owned(),
            _ => String::new(),
        }
    }
}

/// The documentation of a declaration as comment lines: each line of the
/// text after `--- `.
pub open spec fn docs_text(docs: InfoElementsView) -> Seq<char> {
    match docs.doc {
        Some(doc) => "--- "@ + replaced(luafied(doc.content), "\n"@, "\n--- "@) + "\n"@,
        None => Seq::empty(),
    }
}

impl InfoElements {
    /// Writes the documentation of a declaration as comment lines.
    pub fn gen(&self) -> (text: String)
        ensures
            text@ == docs_text(self.deep_view()),
    {
        match &self.doc {
            Some(doc) => {
                let luafied = replace(doc.content.as_str(), "%NULL", "nil");
                let mut text = "--- ".to_owned();
                text.append(replace(luafied.as_str(), "\n", "\n--- ").as_str());
                text.append("\n");
                text
            },
            None => String::new(),
        }
    }
}

/// The line that documents a parameter: its name, its type, and its
/// documentation on one line where it has any.
pub open spec fn parameter_text(parameter: ParameterView, ns: Seq<char>) -> Seq<char> {
    match parameter.doc.doc {
        Some(doc) => "--- @param "@ + unkeyworded(parameter.name) + " "@ + shown(parameter.typ, ns)
            + optional_mark(parameter) + " "@ + replaced(luafied(doc.content), "\n"@, ""@) + "\n"@,
        None => "--- @param "@ + unkeyworded(parameter.name) + " "@ + optional_mark(parameter)
            + shown(parameter.typ, ns) + "\n"@,
    }
}

impl Parameter {
    /// Writes the line that documents the parameter.
    pub fn gen(&self, ns: &str) -> (text: String)
        ensures
            text@ == parameter_text(self.deep_view(), ns@),
    {
        let type_str = show_anytyp(&self.typ, ns);
        let opt = optional(self);
        let mut text = "--- @param ".to_owned();
        text.append(unkeyword(self.name.as_str()).as_str());
        text.append(" ");
        match &self.doc.doc {
            Some(doc) => {
                let luafied = replace(doc.content.as_str(), "%NULL", "nil");
                text.append(type_str.as_str());
                text.append(opt);
                text.append(" ");
                text.append(replace(luafied.as_str(), "\n", "").as_str());
            },
            None => {
                text.append(opt);
                text.append(type_str.as_str());
            },
        }
        text.append("\n");
        text
    }
}

/// `parameters` without the first, where `skip` says so: the first
/// parameter of a method is the object itself.
pub open spec fn without_self(parameters: Seq<ParameterView>, skip: bool) -> Seq<ParameterView> {
    if skip && parameters.len() > 0 {
        parameters.skip(1)
    } else {
        parameters
    }
}

/// The lines that document those of `parameters` that hand a value in.
pub open spec fn in_lines(parameters: Seq<ParameterView>, ns: Seq<char>) -> Seq<Seq<char>>
    decreases parameters.len(),
{
    if parameters.len() == 0 {
        Seq::empty()
    } else {
        let before = in_lines(parameters.drop_last(), ns);
        if is_in(parameters.last().direction) {
            before.push(parameter_text(parameters.last(), ns))
        } else {
            before
        }
    }
}

/// The lines that document the parameters of a function.
pub open spec fn doc_params_text(parameters: Seq<ParameterView>, ns: Seq<char>, skip: bool) -> Seq<
    char,
> {
    concat(in_lines(without_self(parameters, skip), ns))
}

/// Where the parameters that count begin: after the first for a method.
fn first_counted(params: &Vec<Parameter>, skip: bool) -> (start: usize)
    ensures
        start <= params.len(),
        params.deep_view().skip(start as int) == without_self(params.deep_view(), skip),
{
    if skip && params.len() > 0 {
        1
    } else {
        assert(params.deep_view().skip(0) =~= params.deep_view());
        0
    }
}

/// What a loop over `params` from `start` knows of the parameter at `i`.
proof fn lemma_next_param(params: &Vec<Parameter>, start: int, i: int)
    requires
        0 <= start <= i < params.len(),
    ensures
        params.deep_view().skip(start).take(i + 1 - start).drop_last() == params.deep_view().skip(
            start,
        ).take(i - start),
        params.deep_view().skip(start).take(i + 1 - start).last() == params[i].deep_view(),
{
    let rest = params.deep_view().skip(start);
    assert(rest.take(i + 1 - start).drop_last() =~= rest.take(i - start));
}

/// The loop over `params` from `start` has seen all of them.
proof fn lemma_all_params(params: &Vec<Parameter>, start: int)
    requires
        0 <= start <= params.len(),
    ensures
        params.deep_view().skip(start).take(params.len() - start) == params.deep_view().skip(
            start,
        ),
{
    let rest = params.deep_view().skip(start);
    assert(rest.take(params.len() - start) =~= rest);
}

/// Writes the lines that document the parameters of a function.
pub fn gen_doc_params(params: &Vec<Parameter>, ns: &str, skip: bool) -> (text: String)
    ensures
        text@ == doc_params_text(params.deep_view(), ns@, skip),
{
    let start = first_counted(params, skip);
    let ghost rest = params.deep_view().skip(start as int);
    let mut lines: Vec<String> = no_items();
    let mut i: usize = start;
    while i < params.len()
        invariant
            start <= i <= params.len(),
            rest == params.deep_view().skip(start as int),
            lines.deep_view() == in_lines(rest.take(i - start), ns@),
        decreases params.len() - i,
    {
        proof {
            lemma_next_param(params, start as int, i as int);
        }
        if in_param(params[i].direction) {
            push_item(&mut lines, params[i].gen(ns));
        }
        i += 1;
    }
    proof {
        lemma_all_params(params, start as int);
    }
    concat_all(&lines)
}

/// The names of those of `parameters` that hand a value in.
pub open spec fn in_names(parameters: Seq<ParameterView>) -> Seq<Seq<char>>
    decreases parameters.len(),
{
    if parameters.len() == 0 {
        Seq::empty()
    } else {
        let before = in_names(parameters.drop_last());
        if is_in(parameters.last().direction) {
            before.push(unkeyworded(parameters.last().name))
        } else {
            before
        }
    }
}

/// The names of the parameters of a function as its declaration lists
/// them.
pub open spec fn param_names(parameters: Seq<ParameterView>, skip: bool) -> Seq<char> {
    joined(in_names(without_self(parameters, skip)), ", "@)
}

/// Writes the names of the parameters of a function as its declaration
/// lists them.
pub fn gen_param_names(params: &Vec<Parameter>, skip: bool) -> (text: String)
    ensures
        text@ == param_names(params.deep_view(), skip),
{
    let start = first_counted(params, skip);
    let ghost rest = params.deep_view().skip(start as int);
    let mut names: Vec<String> = no_items();
    let mut i: usize = start;
    while i < params.len()
        invariant
            start <= i <= params.len(),
            rest == params.deep_view().skip(start as int),
            names.deep_view() == in_names(rest.take(i - start)),
        decreases params.len() - i,
    {
        proof {
            lemma_next_param(params, start as int, i as int);
        }
        if in_param(params[i].direction) {
            push_item(&mut names, unkeyword(params[i].name.as_str()));
        }
        i += 1;
    }
    proof {
        lemma_all_params(params, start as int);
    }
    join(&names, ", ")
}

/// Those of `parameters` that hand a value in, each as its name with its
/// type.
pub open spec fn typed_names(parameters: Seq<ParameterView>, ns: Seq<char>) -> Seq<Seq<char>>
    decreases parameters.len(),
{
    if parameters.len() == 0 {
        Seq::empty()
    } else {
        let before = typed_names(parameters.drop_last(), ns);
        let last = parameters.last();
        if is_in(last.direction) {
            before.push(unkeyworded(last.name) + ": "@ + shown(last.typ, ns))
        } else {
            before
        }
    }
}

/// Writes those of `params` that hand a value in, each as its name with its
/// type.
pub fn gen_param_names_typed(params: &Vec<Parameter>, ns: &str) -> (names: Vec<String>)
    ensures
        names.deep_view() == typed_names(params.deep_view(), ns@),
{
    let mut names: Vec<String> = no_items();
    let mut i: usize = 0;
    while i < params.len()
        invariant
            i <= params.len(),
            names.deep_view() == typed_names(params.deep_view().take(i as int), ns@),
        decreases params.len() - i,
    {
        proof {
            lemma_next_item(params, i as int);
        }
        if in_param(params[i].direction) {
            let mut name = unkeyword(params[i].name.as_str());
            name.append(": ");
            name.append(show_anytyp(&params[i].typ, ns).as_str());
            push_item(&mut names, name);
        }
        i += 1;
    }
    proof {
        lemma_all_items(params);
    }
    names
}

/// Those of `parameters` that hand a value out.
pub open spec fn outs(parameters: Seq<ParameterView>) -> Seq<ParameterView>
    decreases parameters.len(),
{
    if parameters.len() == 0 {
        Seq::empty()
    } else {
        let before = outs(parameters.drop_last());
        if is_out(parameters.last().direction) {
            before.push(parameters.last())
        } else {
            before
        }
    }
}

/// What a call hands back: what it returns, then the parameters that hand a
/// value out.
pub open spec fn handed_back(ret: Option<ParameterView>, parameters: Seq<ParameterView>) -> Seq<
    ParameterView,
> {
    match ret {
        Some(ret) => seq![ret] + outs(parameters),
        None => outs(parameters),
    }
}

/// Collects what a call hands back.
fn returned<'a>(ret: &'a Option<Parameter>, params: &'a Vec<Parameter>) -> (back: Vec<
    &'a Parameter,
>)
    ensures
        back.deep_view() == handed_back(ret.deep_view(), params.deep_view()),
{
    let mut back: Vec<&Parameter> = no_items();
    match ret {
        Some(ret) => {
            push_item(&mut back, ret);
        },
        None => {},
    }
    let ghost first = back.deep_view();
    let mut i: usize = 0;
    assert(back.deep_view() =~= first + outs(params.deep_view().take(0)));
    while i < params.len()
        invariant
            i <= params.len(),
            back.deep_view() == first + outs(params.deep_view().take(i as int)),
        decreases params.len() - i,
    {
        proof {
            lemma_next_item(params, i as int);
        }
        if out_param(params[i].direction) {
            push_item(&mut back, &params[i]);
            assert(back.deep_view() =~= first + outs(params.deep_view().take(i + 1)));
        }
        i += 1;
    }
    proof {
        lemma_all_items(params);
        assert(Seq::<ParameterView>::empty() + outs(params.deep_view()) =~= outs(
            params.deep_view(),
        ));
    }
    back
}

/// The types of `parameters` as Lua writes them.
pub open spec fn shown_types(parameters: Seq<ParameterView>, ns: Seq<char>) -> Seq<Seq<char>>
    decreases parameters.len(),
{
    if parameters.len() == 0 {
        Seq::empty()
    } else {
        shown_types(parameters.drop_last(), ns).push(shown(parameters.last().typ, ns))
    }
}

/// Writes the types of `parameters`.
fn show_types(parameters: &Vec<&Parameter>, ns: &str) -> (types: Vec<String>)
    ensures
        types.deep_view() == shown_types(parameters.deep_view(), ns@),
{
    let mut types: Vec<String> = no_items();
    let mut i: usize = 0;
    while i < parameters.len()
        invariant
            i <= parameters.len(),
            types.deep_view() == shown_types(parameters.deep_view().take(i as int), ns@),
        decreases parameters.len() - i,
    {
        proof {
            lemma_next_item(parameters, i as int);
        }
        push_item(&mut types, show_anytyp(&parameters[i].typ, ns));
        i += 1;
    }
    proof {
        lemma_all_items(parameters);
    }
    types
}

/// The types of what a call hands back, as the type of a function lists
/// them; none where it hands nothing back.
pub open spec fn return_names_typed(
    ret: Option<ParameterView>,
    parameters: Seq<ParameterView>,
    ns: Seq<char>,
) -> Option<Seq<char>> {
    if handed_back(ret, parameters).len() == 0 {
        None
    } else {
        Some(joined(shown_types(handed_back(ret, parameters), ns), ", "@))
    }
}

/// Writes the types of what the function `fun` hands back.
pub fn gen_return_names_typed(fun: &Function, ns: &str) -> (types: Option<String>)
    ensures
        types.deep_view() == return_names_typed(
            fun.deep_view().ret,
            fun.deep_view().parameters,
            ns@,
        ),
{
    let back = returned(&fun.ret, &fun.parameters);
    if back.len() == 0 {
        return None;
    }
    Some(join(&show_types(&back, ns), ", "))
}

/// What a signal is said to return: nothing is said of a signal that hands
/// anything back, and of any other that it returns the empty text.
pub open spec fn return_signal(signal: SignalView) -> Option<Seq<char>> {
    if handed_back(signal.ret, signal.parameters).len() > 0 {
        None
    } else {
        Some(Seq::empty())
    }
}

/// Writes what the signal `fun` is said to return.
pub fn gen_return_signal(fun: &Signal) -> (text: Option<String>)
    ensures
        text.deep_view() == return_signal(fun.deep_view()),
{
    let back = returned(&fun.ret, &fun.parameters);
    if back.len() > 0 {
        None
    } else {
        Some(String::new())
    }
}

/// The types that the line `@return` lists: what is handed back, without
/// what is `nil`, and with `|nil` after a type that may be absent.
pub open spec fn return_docs(parameters: Seq<ParameterView>, ns: Seq<char>) -> Seq<Seq<char>>
    decreases parameters.len(),
{
    if parameters.len() == 0 {
        Seq::empty()
    } else {
        let before = return_docs(parameters.drop_last(), ns);
        let last = parameters.last();
        if shown(last.typ, ns) == "nil"@ {
            before
        } else if last.nullable {
            before.push(shown(last.typ, ns) + "|nil"@)
        } else {
            before.push(shown(last.typ, ns))
        }
    }
}

/// The line that documents what a call hands back; nothing where that is
/// nothing but `nil`.
pub open spec fn doc_return_text(
    ret: Option<ParameterView>,
    parameters: Seq<ParameterView>,
    ns: Seq<char>,
) -> Seq<char> {
    let types = return_docs(handed_back(ret, parameters), ns);
    if types.len() > 0 {
        "--- @return "@ + joined(types, ", "@) + "\n"@
    } else {
        Seq::empty()
    }
}

/// Writes the line that documents what the function `fun` hands back.
pub fn gen_doc_return(fun: &Function, ns: &str) -> (text: String)
    ensures
        text@ == doc_return_text(fun.deep_view().ret, fun.deep_view().parameters, ns@),
{
    let back = returned(&fun.ret, &fun.parameters);
    let mut types: Vec<String> = no_items();
    let mut i: usize = 0;
    while i < back.len()
        invariant
            i <= back.len(),
            types.deep_view() == return_docs(back.deep_view().take(i as int), ns@),
        decreases back.len() - i,
    {
        proof {
            lemma_next_item(&back, i as int);
        }
        let mut type_str = show_anytyp(&back[i].typ, ns);
        if !same_text(type_str.as_str(), "nil") {
            if back[i].nullable {
                type_str.append("|nil");
            }
            push_item(&mut types, type_str);
        }
        i += 1;
    }
    proof {
        lemma_all_items(&back);
    }
    if types.len() > 0 {
        let mut text = "--- @return ".to_owned();
        text.append(join(&types, ", ").as_str());
        text.append("\n");
        text
    } else {
        String::new()
    }
}

/// The name of the field that holds the handler of the signal `name`.
pub open spec fn signal_field(name: Seq<char>) -> Seq<char> {
    "on_"@ + swapped(name, '-', '_')
}

/// Writes the name of the field that holds the handler of the signal
/// `name`.
pub fn signal_name(name: &str) -> (field: String)
    ensures
        field@ == signal_field(name@),
{
    let mut field = "on_".to_owned();
    field.append(replace_char(name, '-', '_').as_str());
    field
}

} // verus!
