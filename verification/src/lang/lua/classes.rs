//! Classes, unions and records.

use crate::items::{lemma_all_items, lemma_next_item};
use crate::lang::{generated, GenerateError, GenerateErrorView, OutputFile, OutputFileView};
use crate::lang::lua::{file_header, gen_file};
use crate::lang::lua::function::{both, functions_text, gen_functions};
use crate::lang::lua::members::{
    fields_text, gen_fields, gen_properties, gen_signals, properties_text, signals_text,
};
use crate::lang::lua::names::{translate_ns, translated_ns};
use crate::lang::lua::params::{gen_return_names_typed, info_text, return_names_typed};
use crate::library::{
    lemma_record_unions, Class, ClassView, Function, FunctionView, Record, RecordView, Union,
    UnionView,
};
use crate::text::{ends_with, has_suffix, same_text};
use vstd::prelude::*;
use vstd::string::StringExecFns;

verus! {

/// The declarations of the records `items` as classes.
pub open spec fn record_types_text(items: Seq<RecordView>, ns: Seq<char>) -> Seq<char>
    decreases items.len(),
{
    if items.len() == 0 {
        Seq::empty()
    } else {
        record_types_text(items.drop_last(), ns) + record_type_text(items.last(), ns)
    }
}

/// Writes what `record_types_text` gives.
pub(crate) fn gen_record_types(items: &Vec<Record>, ns: &str) -> (text: String)
    ensures
        text@ == record_types_text(items.deep_view(), ns@),
{
    let mut text = String::new();
    let mut i: usize = 0;
    while i < items.len()
        invariant
            i <= items.len(),
            text@ == record_types_text(items.deep_view().take(i as int), ns@),
        decreases items.len() - i,
    {
        proof {
            lemma_next_item(items, i as int);
        }
        text.append(items[i].gen_type(ns).as_str());
        i += 1;
    }
    proof {
        lemma_all_items(items);
    }
    text
}

/// The declarations of the unions `items` as classes.
pub open spec fn union_types_text(items: Seq<UnionView>, ns: Seq<char>) -> Seq<char>
    decreases items.len(),
{
    if items.len() == 0 {
        Seq::empty()
    } else {
        union_types_text(items.drop_last(), ns) + union_type_text(items.last(), ns)
    }
}

/// Writes what `union_types_text` gives.
pub(crate) fn gen_union_types(items: &Vec<Union>, ns: &str) -> (text: String)
    ensures
        text@ == union_types_text(items.deep_view(), ns@),
{
    let mut text = String::new();
    let mut i: usize = 0;
    while i < items.len()
        invariant
            i <= items.len(),
            text@ == union_types_text(items.deep_view().take(i as int), ns@),
        decreases items.len() - i,
    {
        proof {
            lemma_next_item(items, i as int);
        }
        text.append(items[i].gen_type(ns).as_str());
        i += 1;
    }
    proof {
        lemma_all_items(items);
    }
    text
}

/// The line that says that a class can be made from a table of its
/// properties: it is written for the first constructor called `new`, where
/// that hands something back.
pub open spec fn default_constructor_text(constructors: Seq<FunctionView>, ns: Seq<char>) -> Seq<
    char,
>
    decreases constructors.len(),
{
    if constructors.len() == 0 {
        Seq::empty()
    } else if constructors[0].name == "new"@ {
        match return_names_typed(constructors[0].ret, constructors[0].parameters, ns) {
            Some(ret) => "--- @overload fun(params: {}):"@ + ret + "\n"@,
            None => Seq::empty(),
        }
    } else {
        default_constructor_text(constructors.drop_first(), ns)
    }
}

/// Writes the line that says that a class can be made from a table of its
/// properties.
pub fn gen_default_construtor(ns: &str, constrs: &Vec<Function>) -> (text: String)
    ensures
        text@ == default_constructor_text(constrs.deep_view(), ns@),
{
    let ghost all = constrs.deep_view();
    let mut i: usize = 0;
    assert(all.skip(0) =~= all);
    while i < constrs.len()
        invariant
            i <= constrs.len(),
            all == constrs.deep_view(),
            default_constructor_text(all, ns@) == default_constructor_text(all.skip(i as int), ns@),
        decreases constrs.len() - i,
    {
        proof {
            assert(all.skip(i as int)[0] == constrs[i as int].deep_view());
            assert(all.skip(i as int).drop_first() =~= all.skip(i + 1));
        }
        if same_text(constrs[i].name.as_str(), "new") {
            return match gen_return_names_typed(&constrs[i], ns) {
                Some(ret) => {
                    let mut text = "--- @overload fun(params: {}):".to_owned();
                    text.append(ret.as_str());
                    text.append("\n");
                    text
                },
                None => String::new(),
            };
        }
        i += 1;
    }
    String::new()
}

/// The line that opens the declaration of a class.
pub open spec fn class_line(class: ClassView, ns: Seq<char>) -> Seq<char> {
    match class.parent {
        Some(parent) => "--- @class "@ + ns + "."@ + class.name + " : "@ + translated_ns(parent, ns)
            + "\n"@,
        None => "--- @class "@ + ns + "."@ + class.name + "\n"@,
    }
}

/// The declaration of a class: its signals, fields and properties.
pub open spec fn class_type_text(class: ClassView, ns: Seq<char>) -> Seq<char> {
    if !class.info.introspectable {
        Seq::empty()
    } else {
        info_text(class.info) + class_line(class, ns) + signals_text(class.signals, ns)
            + fields_text(class.fields, ns) + properties_text(class.properties, ns)
            + default_constructor_text(class.constructor, ns) + "local "@ + class.name
            + " = {}\n"@
    }
}

/// The functions of a class: constructors, methods, functions and
/// callbacks.
pub open spec fn class_functions_text(class: ClassView, ns: Seq<char>) -> Result<
    Seq<char>,
    GenerateErrorView,
> {
    both(
        both(
            both(
                functions_text(class.constructor, class.name, ns),
                functions_text(class.method, class.name, ns),
            ),
            functions_text(class.functions, class.name, ns),
        ),
        functions_text(class.callbacks, class.name, ns),
    )
}

/// What the file of a class ends with.
pub open spec fn class_tail(class: ClassView) -> Seq<char> {
    "--- @param obj GObject.Object\n"@ + "--- @return boolean\n"@ + "function "@ + class.name
        + ":is_type_of(obj) end\n"@ + "return "@ + class.name + "\n"@
}

/// The file of a class; none for a class that is not to be shown.
pub open spec fn class_file(class: ClassView, ns: Seq<char>) -> Result<
    Option<OutputFileView>,
    GenerateErrorView,
> {
    if !class.info.introspectable {
        Ok(None)
    } else {
        match class_functions_text(class, ns) {
            Ok(functions) => Ok(
                Some(
                    OutputFileView {
                        name: class.name,
                        content: file_header() + class_type_text(class, ns) + functions
                            + class_tail(class),
                    },
                ),
            ),
            Err(error) => Err(error),
        }
    }
}

impl Class {
    /// Writes the declaration of the class.
    pub fn gen_type(&self, ns: &str) -> (text: String)
        ensures
            text@ == class_type_text(self.deep_view(), ns@),
    {
        if !self.info.introspectable {
            return String::new();
        }
        let mut line = "--- @class ".to_owned();
        line.append(ns);
        line.append(".");
        line.append(self.name.as_str());
        match &self.parent {
            Some(parent) => {
                line.append(" : ");
                line.append(translate_ns(parent.as_str(), ns).as_str());
                line.append("\n");
            },
            None => {
                line.append("\n");
            },
        }
        let mut text = self.info.gen();
        text.append(line.as_str());
        text.append(gen_signals(&self.signals, ns).as_str());
        text.append(gen_fields(&self.fields, ns).as_str());
        text.append(gen_properties(&self.properties, ns).as_str());
        text.append(gen_default_construtor(ns, &self.constructor).as_str());
        text.append("local ");
        text.append(self.name.as_str());
        text.append(" = {}\n");
        text
    }

    /// Writes the file of the class.
    pub fn gen(&self, ns: &str) -> (file: Result<Option<OutputFile>, GenerateError>)
        ensures
            generated(file) == class_file(self.deep_view(), ns@),
    {
        if !self.info.introspectable {
            return Ok(None);
        }
        let name = self.name.as_str();
        let mut functions = gen_functions(&self.constructor, name, ns)?;
        functions.append(gen_functions(&self.method, name, ns)?.as_str());
        functions.append(gen_functions(&self.functions, name, ns)?.as_str());
        functions.append(gen_functions(&self.callbacks, name, ns)?.as_str());
        let mut tail = "--- @param obj GObject.Object\n".to_owned();
        tail.append("--- @return boolean\n");
        tail.append("function ");
        tail.append(name);
        tail.append(":is_type_of(obj) end\n");
        tail.append("return ");
        tail.append(name);
        tail.append("\n");
        let mut content = gen_file();
        content.append(self.gen_type(ns).as_str());
        content.append(functions.as_str());
        content.append(tail.as_str());
        Ok(Some(OutputFile { name: self.name.clone(), content }))
    }
}

/// The declaration of a union as a class; nothing for a union without a
/// name.
pub open spec fn union_type_text(item: UnionView, ns: Seq<char>) -> Seq<char> {
    if !item.info.introspectable {
        Seq::empty()
    } else {
        match item.name {
            Some(name) => "--- @class "@ + ns + "."@ + name + "\n"@ + fields_text(item.fields, ns)
                + "local "@ + name + " = {}\n"@,
            None => Seq::empty(),
        }
    }
}

/// The constructors and methods of a union; nothing for a union without a
/// name.
pub open spec fn union_text(item: UnionView, ns: Seq<char>) -> Result<
    Seq<char>,
    GenerateErrorView,
> {
    if !item.info.introspectable {
        Ok(Seq::empty())
    } else {
        match item.name {
            Some(name) => both(
                functions_text(item.constructor, ns + "."@ + name, ns),
                functions_text(item.method, ns + "."@ + name, ns),
            ),
            None => Ok(Seq::empty()),
        }
    }
}

impl Union {
    /// Writes the declaration of the union as a class.
    pub fn gen_type(&self, ns: &str) -> (text: String)
        ensures
            text@ == union_type_text(self.deep_view(), ns@),
    {
        if !self.info.introspectable {
            return String::new();
        }
        match &self.name {
            Some(name) => {
                let mut text = "--- @class ".to_owned();
                text.append(ns);
                text.append(".");
                text.append(name.as_str());
                text.append("\n");
                text.append(gen_fields(&self.fields, ns).as_str());
                text.append("local ");
                text.append(name.as_str());
                text.append(" = {}\n");
                text
            },
            None => String::new(),
        }
    }

    /// Writes the constructors and methods of the union.
    pub fn gen(&self, ns: &str) -> (text: Result<String, GenerateError>)
        ensures
            generated(text) == union_text(self.deep_view(), ns@),
    {
        if !self.info.introspectable {
            return Ok(String::new());
        }
        match &self.name {
            Some(name) => {
                let mut union_ns = ns.to_owned();
                union_ns.append(".");
                union_ns.append(name.as_str());
                let mut text = gen_functions(&self.constructor, union_ns.as_str(), ns)?;
                text.append(gen_functions(&self.method, union_ns.as_str(), ns)?.as_str());
                Ok(text)
            },
            None => Ok(String::new()),
        }
    }
}

/// What the unions `items` declare, or the first that cannot be written.
pub open spec fn unions_text(
    items: Seq<UnionView>,
    ns: Seq<char>,
) -> Result<Seq<char>, GenerateErrorView>
    decreases items.len(),
{
    if items.len() == 0 {
        Ok(Seq::empty())
    } else {
        match unions_text(items.drop_last(), ns) {
            Ok(before) => match union_text(items.last(), ns) {
                Ok(last) => Ok(before + last),
                Err(error) => Err(error),
            },
            Err(error) => Err(error),
        }
    }
}

/// What cannot be written among the first `n` of `items` cannot be written
/// among all of them.
proof fn lemma_unions_text_stays(items: Seq<UnionView>, ns: Seq<char>, n: int)
    requires
        0 <= n <= items.len(),
    ensures
        unions_text(
            items.take(n),
            ns,
        ) is Err ==> unions_text(items, ns) == unions_text(items.take(n), ns),
    decreases items.len() - n,
{
    if n == items.len() {
        assert(items.take(n) =~= items);
    } else {
        assert(items.drop_last().take(n) =~= items.take(n));
        lemma_unions_text_stays(items.drop_last(), ns, n);
    }
}

/// Writes what `unions_text` gives.
pub(crate) fn gen_unions(items: &Vec<Union>, ns: &str) -> (text: Result<String, GenerateError>)
    ensures
        generated(text) == unions_text(items.deep_view(), ns@),
{
    let mut text = String::new();
    let mut i: usize = 0;
    while i < items.len()
        invariant
            i <= items.len(),
            unions_text(
                items.deep_view().take(i as int),
                ns@,
            ) == Ok::<Seq<char>, GenerateErrorView>(text@),
        decreases items.len() - i,
    {
        proof {
            lemma_next_item(items, i as int);
            lemma_unions_text_stays(items.deep_view(), ns@, i + 1);
        }
        text.append(items[i].gen(ns)?.as_str());
        i += 1;
    }
    proof {
        lemma_all_items(items);
    }
    Ok(text)
}

/// Whether a record is the structure of a class, which is not shown.
pub open spec fn is_class_struct(record: RecordView) -> bool {
    ends_with(record.name, "Class"@)
}

/// The declaration of a record as a class.
pub open spec fn record_type_text(record: RecordView, ns: Seq<char>) -> Seq<char> {
    if !record.info.introspectable || is_class_struct(record) {
        Seq::empty()
    } else {
        "--- @class "@ + ns + "."@ + record.name + "\n"@ + fields_text(record.fields, ns)
            + "local "@ + record.name + " = {}\n"@
    }
}

/// The functions of a record and what its unions declare.
pub open spec fn record_functions_text(record: RecordView, ns: Seq<char>) -> Result<
    Seq<char>,
    GenerateErrorView,
> {
    let record_ns = ns + "."@ + record.name;
    both(
        both(
            both(
                functions_text(record.constructor, record_ns, ns),
                functions_text(record.method, record_ns, ns),
            ),
            functions_text(record.functions, record_ns, ns),
        ),
        unions_text(record.unions, record_ns),
    )
}

/// The file of a record; none for a record that is not to be shown.
pub open spec fn record_file(record: RecordView, ns: Seq<char>) -> Result<
    Option<OutputFileView>,
    GenerateErrorView,
> {
    if !record.info.introspectable {
        Ok(None)
    } else {
        match record_functions_text(record, ns) {
            Ok(functions) => Ok(
                Some(OutputFileView { name: record.name, content: file_header() + functions }),
            ),
            Err(error) => Err(error),
        }
    }
}

impl Record {
    /// Writes the declaration of the record as a class.
    pub fn gen_type(&self, ns: &str) -> (text: String)
        ensures
            text@ == record_type_text(self.deep_view(), ns@),
    {
        if !self.info.introspectable || has_suffix(self.name.as_str(), "Class") {
            return String::new();
        }
        let mut text = "--- @class ".to_owned();
        text.append(ns);
        text.append(".");
        text.append(self.name.as_str());
        text.append("\n");
        text.append(gen_fields(&self.fields, ns).as_str());
        text.append("local ");
        text.append(self.name.as_str());
        text.append(" = {}\n");
        text
    }

    /// Writes the file of the record.
    pub fn gen(&self, ns: &str) -> (file: Result<Option<OutputFile>, GenerateError>)
        ensures
            generated(file) == record_file(self.deep_view(), ns@),
    {
        if !self.info.introspectable {
            return Ok(None);
        }
        proof {
            lemma_record_unions(*self);
        }
        let mut record_ns = ns.to_owned();
        record_ns.append(".");
        record_ns.append(self.name.as_str());
        let mut functions = gen_functions(&self.constructor, record_ns.as_str(), ns)?;
        functions.append(gen_functions(&self.method, record_ns.as_str(), ns)?.as_str());
        functions.append(gen_functions(&self.functions, record_ns.as_str(), ns)?.as_str());
        functions.append(gen_unions(&self.unions, record_ns.as_str())?.as_str());
        let mut content = gen_file();
        content.append(functions.as_str());
        Ok(Some(OutputFile { name: self.name.clone(), content }))
    }
}

} // verus!
