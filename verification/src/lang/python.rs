//! Stubs for Python: a `def` for every function and a `class` for every
//! class, with `pass` for a body.

use crate::items::{append_items, lemma_all_items, lemma_next_item, no_items, push_item};
use crate::lang::{generated, GenerateError, GenerateErrorView, Level};
use crate::lang::lua::names::{reserved, unkeyworded};
use crate::lang::lua::params::{in_names, in_param};
use crate::library::{
    Class, ClassView, Function, FunctionView, Namespace, NamespaceView, Parameter, ParameterView,
};
use crate::text::{join, joined, repeat, repeated};
use vstd::prelude::*;
use vstd::string::StringExecFns;

verus! {

/// The generator of Python stubs.
pub struct PythonCodeGen {
    pub level: Level,
}

impl PythonCodeGen {
    /// A generator that writes as much as `level` says.
    pub fn new(level: Level) -> (generator: PythonCodeGen)
        ensures
            generator.level == level,
    {
        PythonCodeGen { level }
    }
}

/// Makes `param_name` a name that a parameter can have. The words that are
/// set aside are those of the Lua stubs.
pub fn unkeyword(param_name: &str) -> (name: String)
    ensures
        name@ == unkeyworded(param_name@),
{
    let mut name = param_name.to_owned();
    if reserved(param_name) {
        name.append("_");
    }
    name
}

/// The comment that opens the section `section` of the namespace `ns`.
pub open spec fn section_text(ns: Seq<char>, section: Seq<char>) -> Seq<char> {
    "# "@ + ns + " "@ + section + "\n\n"@
}

/// Writes the comment that opens a section.
pub fn create_section(ns: &str, section: &str) -> (text: String)
    ensures
        text@ == section_text(ns@, section@),
{
    let mut text = "# ".to_owned();
    text.append(ns);
    text.append(" ");
    text.append(section);
    text.append("\n\n");
    text
}

/// The names of the parameters of a function as its `def` lists them: those
/// that hand a value in, after `self` for a method.
pub open spec fn param_names(parameters: Seq<ParameterView>, method: bool) -> Seq<char> {
    if method {
        joined(seq!["self"@] + in_names(parameters), ", "@)
    } else {
        joined(in_names(parameters), ", "@)
    }
}

/// Writes the names of the parameters of a function as its `def` lists
/// them.
pub fn gen_param_names(params: &Vec<Parameter>, method: bool) -> (text: String)
    ensures
        text@ == param_names(params.deep_view(), method),
{
    let mut names: Vec<String> = no_items();
    let mut i: usize = 0;
    while i < params.len()
        invariant
            i <= params.len(),
            names.deep_view() == in_names(params.deep_view().take(i as int)),
        decreases params.len() - i,
    {
        proof {
            lemma_next_item(params, i as int);
        }
        if in_param(params[i].direction) {
            push_item(&mut names, unkeyword(params[i].name.as_str()));
        }
        i += 1;
    }
    proof {
        lemma_all_items(params);
    }
    if method {
        let mut all: Vec<String> = no_items();
        push_item(&mut all, "self".to_owned());
        assert(all.deep_view() =~= seq!["self"@]);
        append_items(&mut all, names);
        join(&all, ", ")
    } else {
        join(&names, ", ")
    }
}

/// The `def` of a function, with a body that stands `repeats` steps in;
/// nothing for a function that is not to be shown.
pub open spec fn function_text(function: FunctionView, repeats: nat) -> Seq<char> {
    if function.info.introspectable {
        "def "@ + function.name + "("@ + param_names(function.parameters, false) + "):\n"@
            + repeated("    "@, repeats) + "pass\n\n"@
    } else {
        Seq::empty()
    }
}

impl Function {
    /// Writes the `def` of the function.
    pub fn gen_python(&self, repeats: usize) -> (text: String)
        ensures
            text@ == function_text(self.deep_view(), repeats as nat),
    {
        if !self.info.introspectable {
            return String::new();
        }
        let mut text = "def ".to_owned();
        text.append(self.name.as_str());
        text.append("(");
        text.append(gen_param_names(&self.parameters, false).as_str());
        text.append("):\n");
        text.append(repeat("    ", repeats).as_str());
        text.append("pass\n\n");
        text
    }
}

/// The `def`s of the functions `items`, each with a body that stands
/// `repeats` steps in.
pub open spec fn functions_text(items: Seq<FunctionView>, repeats: nat) -> Seq<char>
    decreases items.len(),
{
    if items.len() == 0 {
        Seq::empty()
    } else {
        functions_text(items.drop_last(), repeats) + function_text(items.last(), repeats)
    }
}

/// Writes the `def`s of the functions `items`.
fn gen_functions(items: &Vec<Function>, repeats: usize) -> (text: String)
    ensures
        text@ == functions_text(items.deep_view(), repeats as nat),
{
    let mut text = String::new();
    let mut i: usize = 0;
    while i < items.len()
        invariant
            i <= items.len(),
            text@ == functions_text(items.deep_view().take(i as int), repeats as nat),
        decreases items.len() - i,
    {
        proof {
            lemma_next_item(items, i as int);
        }
        text.append(items[i].gen_python(repeats).as_str());
        i += 1;
    }
    proof {
        lemma_all_items(items);
    }
    text
}

/// The `class` of a class, with its methods.
pub open spec fn class_text(class: ClassView) -> Seq<char> {
    "class "@ + class.name + ":\n"@ + functions_text(class.method, 1)
}

impl Class {
    /// Writes the `class` of the class. Nothing is written of the namespace
    /// `ns` that it belongs to.
    pub fn gen_python(&self, ns: &str) -> (text: String)
        ensures
            text@ == class_text(self.deep_view()),
    {
        let mut text = "class ".to_owned();
        text.append(self.name.as_str());
        text.append(":\n");
        text.append(gen_functions(&self.method, 1).as_str());
        text
    }
}

/// The `class`es of the classes `items`.
pub open spec fn classes_text(items: Seq<ClassView>) -> Seq<char>
    decreases items.len(),
{
    if items.len() == 0 {
        Seq::empty()
    } else {
        classes_text(items.drop_last()) + class_text(items.last())
    }
}

/// A section: its comment and then `body`; nothing where `empty` says that
/// the section holds nothing.
pub open spec fn section(empty: bool, ns: Seq<char>, name: Seq<char>, body: Seq<char>) -> Seq<
    char,
> {
    if empty {
        Seq::empty()
    } else {
        section_text(ns, name) + body
    }
}

/// The stubs of a namespace called `ns`: its functions, then its classes.
pub open spec fn namespace_text(namespace: NamespaceView, ns: Seq<char>) -> Seq<char> {
    section(
        namespace.functions.len() == 0,
        ns,
        "Function"@,
        functions_text(namespace.functions, 0),
    ) + section(namespace.classes.len() == 0, ns, "classes"@, classes_text(namespace.classes))
}

/// The stubs of a namespace, which must have a name.
pub open spec fn namespace_stubs(namespace: NamespaceView) -> Result<Seq<char>, GenerateErrorView> {
    match namespace.name {
        Some(ns) => Ok(namespace_text(namespace, ns)),
        None => Err(GenerateErrorView::UnnamedNamespace),
    }
}

impl Namespace {
    /// Writes the stubs of the namespace.
    pub fn gen_python(&self) -> (text: Result<String, GenerateError>)
        ensures
            generated(text) == namespace_stubs(self.deep_view()),
    {
        let ns = match &self.name {
            Some(name) => name.as_str(),
            None => {
                return Err(GenerateError::UnnamedNamespace);
            },
        };
        let mut text = String::new();
        if self.functions.len() > 0 {
            text = create_section(ns, "Function");
            text.append(gen_functions(&self.functions, 0).as_str());
        }
        let ghost first = text@;
        let mut classes = String::new();
        if self.classes.len() > 0 {
            classes = create_section(ns, "classes");
            let mut i: usize = 0;
            let ghost head = classes@;
            assert(classes@ =~= head + classes_text(self.classes.deep_view().take(0)));
            while i < self.classes.len()
                invariant
                    i <= self.classes.len(),
                    classes@ == head + classes_text(self.classes.deep_view().take(i as int)),
                decreases self.classes.len() - i,
            {
                proof {
                    lemma_next_item(&self.classes, i as int);
                }
                let ghost before = classes_text(self.classes.deep_view().take(i as int));
                let one = self.classes[i].gen_python(ns);
                classes.append(one.as_str());
                assert(classes@ =~= head + (before + one@));
                i += 1;
            }
            proof {
                lemma_all_items(&self.classes);
            }
        }
        text.append(classes.as_str());
        Ok(text)
    }
}

} // verus!
