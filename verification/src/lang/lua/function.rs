//! Functions, methods and the types of callbacks.

use crate::items::{lemma_all_items, lemma_next_item};
use crate::lang::{generated, GenerateError, GenerateErrorView};
use crate::lang::lua::params::{
    doc_params_text, doc_return_text, docs_text, gen_doc_params, gen_doc_return, gen_param_names,
    gen_param_names_typed, gen_return_names_typed, info_text, param_names, return_names_typed,
    typed_names,
};
use crate::library::{Function, FunctionType, FunctionView};
use crate::text::{join, joined, to_uppercase, uppercase};
use vstd::prelude::*;
use vstd::string::StringExecFns;

verus! {

/// The documentation that stands before the declaration of a function.
pub open spec fn function_head(function: FunctionView, root_ns: Seq<char>) -> Seq<char> {
    info_text(function.info) + docs_text(function.doc) + doc_params_text(
        function.parameters,
        root_ns,
        function.typ == FunctionType::Method,
    ) + doc_return_text(function.ret, function.parameters, root_ns)
}

/// The declaration of a function: a method of `ns` with `:`, an entry in the
/// table of an enumeration for one of its members, and a function of `ns`
/// in any other case.
pub open spec fn function_line(function: FunctionView, ns: Seq<char>) -> Seq<char> {
    let names = param_names(function.parameters, function.typ == FunctionType::Method);
    match function.typ {
        FunctionType::Method => "function "@ + ns + ":"@ + function.name + "("@ + names
            + ") end\n\n"@,
        FunctionType::Member => "\t[\""@ + uppercase(function.name) + "\"] = function("@ + names
            + ") end,\n\n"@,
        _ => "function "@ + ns + "."@ + function.name + "("@ + names + ") end\n\n"@,
    }
}

/// What a function is written as: nothing where it is not to be shown, its
/// documentation and its declaration in any other case. A callback and a
/// virtual method cannot be written as a function.
pub open spec fn function_text(function: FunctionView, ns: Seq<char>, root_ns: Seq<char>) -> Result<
    Seq<char>,
    GenerateErrorView,
> {
    if !function.info.introspectable {
        Ok(Seq::empty())
    } else if function.typ == FunctionType::Callback || function.typ == FunctionType::Virtual {
        Err(GenerateErrorView::Unsupported(function.typ))
    } else {
        Ok(function_head(function, root_ns) + function_line(function, ns))
    }
}

/// The type of a callback: an alias for the type of a function.
pub open spec fn callback_type_text(function: FunctionView, ns: Seq<char>) -> Seq<char> {
    if !function.info.introspectable {
        Seq::empty()
    } else {
        let head = "--- @alias "@ + ns + "."@ + function.name + " fun("@ + joined(
            typed_names(function.parameters, ns),
            ", "@,
        );
        match return_names_typed(function.ret, function.parameters, ns) {
            Some(ret) => head + "):"@ + ret + "\n"@,
            None => head + ")\n"@,
        }
    }
}

impl Function {
    /// Writes the function with its documentation. `ns` is what the function
    /// belongs to, `root_ns` the namespace that its types are named in.
    pub fn gen(&self, ns: &str, root_ns: &str) -> (text: Result<String, GenerateError>)
        ensures
            generated(text) == function_text(self.deep_view(), ns@, root_ns@),
    {
        if !self.info.introspectable {
            return Ok(String::new());
        }
        let skip = match self.typ {
            FunctionType::Method => true,
            FunctionType::Callback | FunctionType::Virtual => {
                return Err(GenerateError::Unsupported(self.typ));
            },
            _ => false,
        };
        let mut text = self.info.gen();
        text.append(self.doc.gen().as_str());
        text.append(gen_doc_params(&self.parameters, root_ns, skip).as_str());
        text.append(gen_doc_return(self, root_ns).as_str());
        let ghost head = text@;
        let names = gen_param_names(&self.parameters, skip);
        let mut line = String::new();
        match self.typ {
            FunctionType::Method => {
                line = "function ".to_owned();
                line.append(ns);
                line.append(":");
                line.append(self.name.as_str());
                line.append("(");
                line.append(names.as_str());
                line.append(") end\n\n");
            },
            FunctionType::Member => {
                line = "\t[\"".to_owned();
                line.append(to_uppercase(self.name.as_str()).as_str());
                line.append("\"] = function(");
                line.append(names.as_str());
                line.append(") end,\n\n");
            },
            _ => {
                line = "function ".to_owned();
                line.append(ns);
                line.append(".");
                line.append(self.name.as_str());
                line.append("(");
                line.append(names.as_str());
                line.append(") end\n\n");
            },
        }
        text.append(line.as_str());
        Ok(text)
    }

    /// Writes the type of a callback.
    pub fn gen_callback_type(&self, ns: &str) -> (text: String)
        ensures
            text@ == callback_type_text(self.deep_view(), ns@),
    {
        if !self.info.introspectable {
            return String::new();
        }
        let mut text = "--- @alias ".to_owned();
        text.append(ns);
        text.append(".");
        text.append(self.name.as_str());
        text.append(" fun(");
        text.append(join(&gen_param_names_typed(&self.parameters, ns), ", ").as_str());
        match gen_return_names_typed(self, ns) {
            Some(ret) => {
                text.append("):");
                text.append(ret.as_str());
                text.append("\n");
            },
            None => {
                text.append(")\n");
            },
        }
        text
    }
}

/// The declarations of the functions `items`, or the first that cannot be
/// written.
pub open spec fn functions_text(
    items: Seq<FunctionView>,
    ns: Seq<char>,
    root_ns: Seq<char>,
) -> Result<Seq<char>, GenerateErrorView>
    decreases items.len(),
{
    if items.len() == 0 {
        Ok(Seq::empty())
    } else {
        match functions_text(items.drop_last(), ns, root_ns) {
            Ok(before) => match function_text(items.last(), ns, root_ns) {
                Ok(last) => Ok(before + last),
                Err(error) => Err(error),
            },
            Err(error) => Err(error),
        }
    }
}

/// What cannot be written among the first `n` of `items` cannot be written
/// among all of them.
proof fn lemma_functions_text_stays(
    items: Seq<FunctionView>,
    ns: Seq<char>,
    root_ns: Seq<char>,
    n: int,
)
    requires
        0 <= n <= items.len(),
    ensures
        functions_text(items.take(n), ns, root_ns) is Err ==> functions_text(
            items,
            ns,
            root_ns,
        ) == functions_text(items.take(n), ns, root_ns),
    decreases items.len() - n,
{
    if n == items.len() {
        assert(items.take(n) =~= items);
    } else {
        assert(items.drop_last().take(n) =~= items.take(n));
        lemma_functions_text_stays(items.drop_last(), ns, root_ns, n);
    }
}

/// Writes what `functions_text` gives.
pub(crate) fn gen_functions(
    items: &Vec<Function>,
    ns: &str,
    root_ns: &str,
) -> (text: Result<String, GenerateError>)
    ensures
        generated(text) == functions_text(items.deep_view(), ns@, root_ns@),
{
    let mut text = String::new();
    let mut i: usize = 0;
    while i < items.len()
        invariant
            i <= items.len(),
            functions_text(
                items.deep_view().take(i as int),
                ns@,
                root_ns@,
            ) == Ok::<Seq<char>, GenerateErrorView>(text@),
        decreases items.len() - i,
    {
        proof {
            lemma_next_item(items, i as int);
            lemma_functions_text_stays(items.deep_view(), ns@, root_ns@, i + 1);
        }
        text.append(items[i].gen(ns, root_ns)?.as_str());
        i += 1;
    }
    proof {
        lemma_all_items(items);
    }
    Ok(text)
}

/// The types of the callbacks `items`.
pub open spec fn callback_types_text(items: Seq<FunctionView>, ns: Seq<char>) -> Seq<char>
    decreases items.len(),
{
    if items.len() == 0 {
        Seq::empty()
    } else {
        callback_types_text(items.drop_last(), ns) + callback_type_text(items.last(), ns)
    }
}

/// Writes what `callback_types_text` gives.
pub(crate) fn gen_callback_types(items: &Vec<Function>, ns: &str) -> (text: String)
    ensures
        text@ == callback_types_text(items.deep_view(), ns@),
{
    let mut text = String::new();
    let mut i: usize = 0;
    while i < items.len()
        invariant
            i <= items.len(),
            text@ == callback_types_text(items.deep_view().take(i as int), ns@),
        decreases items.len() - i,
    {
        proof {
            lemma_next_item(items, i as int);
        }
        text.append(items[i].gen_callback_type(ns).as_str());
        i += 1;
    }
    proof {
        lemma_all_items(items);
    }
    text
}

/// Two texts one after the other, or the first fault of the two.
pub open spec fn both(
    a: Result<Seq<char>, GenerateErrorView>,
    b: Result<Seq<char>, GenerateErrorView>,
) -> Result<Seq<char>, GenerateErrorView> {
    match a {
        Ok(first) => match b {
            Ok(second) => Ok(first + second),
            Err(error) => Err(error),
        },
        Err(error) => Err(error),
    }
}

/// A text with `more` after it, or its fault.
pub open spec fn then(a: Result<Seq<char>, GenerateErrorView>, more: Seq<char>) -> Result<
    Seq<char>,
    GenerateErrorView,
> {
    match a {
        Ok(first) => Ok(first + more),
        Err(error) => Err(error),
    }
}

} // verus!
