//! Names and types as Lua writes them.

use crate::library::{lemma_type_arguments, AnyType, AnyTypeView};
use crate::text::{contains_char, same_text};
use vstd::prelude::*;
use vstd::string::StringExecFns;

verus! {

/// Whether `name` is a word that Lua keeps for itself.
pub open spec fn is_keyword(name: Seq<char>) -> bool {
    name == "and"@ || name == "break"@ || name == "do"@ || name == "else"@
    || name == "elseif"@ || name == "end"@ || name == "false"@ || name == "for"@
    || name == "function"@ || name == "if"@ || name == "in"@ || name == "local"@
    || name == "nil"@ || name == "not"@ || name == "or"@ || name == "repeat"@
    || name == "return"@ || name == "then"@ || name == "true"@ || name == "until"@
    || name == "while"@
}

/// `name` as a parameter can be called: a reserved word gets `_` after it.
pub open spec fn unkeyworded(name: Seq<char>) -> Seq<char> {
    if is_keyword(name) {
        name + "_"@
    } else {
        name
    }
}

/// Whether `name` is a word that Lua keeps for itself.
pub fn reserved(name: &str) -> (reserved: bool)
    ensures
        reserved == is_keyword(name@),
{
    same_text(name, "and") || same_text(name, "break") || same_text(name, "do")
    || same_text(name, "else") || same_text(name, "elseif") || same_text(name, "end")
    || same_text(name, "false") || same_text(name, "for") || same_text(name, "function")
    || same_text(name, "if") || same_text(name, "in") || same_text(name, "local")
    || same_text(name, "nil") || same_text(name, "not") || same_text(name, "or")
    || same_text(name, "repeat") || same_text(name, "return") || same_text(name, "then")
    || same_text(name, "true") || same_text(name, "until") || same_text(name, "while")
}

/// Makes `param_name` a name that a parameter can have: a reserved word gets
/// `_` after it.
pub fn unkeyword(param_name: &str) -> (name: String)
    ensures
        name@ == unkeyworded(param_name@),
{
    let mut name = param_name.to_owned();
    if reserved(param_name) {
        name.append("_");
    }
    name
}

/// Whether `name` is one of the number types of GLib.
pub open spec fn is_number_name(name: Seq<char>) -> bool {
    name == "gint"@ || name == "guint"@ || name == "gint8"@ || name == "guint8"@
    || name == "gint16"@ || name == "guint16"@ || name == "gint32"@ || name == "guint32"@
    || name == "gint64"@ || name == "guint64"@ || name == "gsize"@ || name == "gssize"@
    || name == "glong"@ || name == "gulong"@ || name == "glong64"@ || name == "gulong64"@
    || name == "gshort"@ || name == "gushort"@ || name == "gshort64"@ || name == "gushort64"@
    || name == "gfloat"@ || name == "gdouble"@
}

/// Whether `name` is one of the number types of GLib.
fn number_name(name: &str) -> (number: bool)
    ensures
        number == is_number_name(name@),
{
    same_text(name, "gint") || same_text(name, "guint") || same_text(name, "gint8")
    || same_text(name, "guint8") || same_text(name, "gint16") || same_text(name, "guint16")
    || same_text(name, "gint32") || same_text(name, "guint32") || same_text(name, "gint64")
    || same_text(name, "guint64") || same_text(name, "gsize") || same_text(name, "gssize")
    || same_text(name, "glong") || same_text(name, "gulong") || same_text(name, "glong64")
    || same_text(name, "gulong64") || same_text(name, "gshort") || same_text(name, "gushort")
    || same_text(name, "gshort64") || same_text(name, "gushort64") || same_text(name, "gfloat")
    || same_text(name, "gdouble")
}

/// Whether `name` is one of the string types of C and GLib.
pub open spec fn is_string_name(name: Seq<char>) -> bool {
    name == "const char*"@ || name == "char*"@ || name == "gchar"@ || name == "guchar"@
    || name == "string"@ || name == "GString"@ || name == "utf8"@
}

/// Whether `name` is one of the string types of C and GLib.
fn string_name(name: &str) -> (string: bool)
    ensures
        string == is_string_name(name@),
{
    same_text(name, "const char*") || same_text(name, "char*") || same_text(name, "gchar")
    || same_text(name, "guchar") || same_text(name, "string") || same_text(name, "GString")
    || same_text(name, "utf8")
}

/// `name` as the stubs of the namespace `ns` write it: a name with a `.` in
/// it stands as it is, any other is a name of the namespace.
pub open spec fn translated_ns(name: Seq<char>, ns: Seq<char>) -> Seq<char> {
    if name.contains('.') {
        name
    } else {
        ns + "."@ + name
    }
}

/// Writes `name` as a name of the namespace `ns`, unless it names its own.
pub fn translate_ns(name: &str, ns: &str) -> (text: String)
    ensures
        text@ == translated_ns(name@, ns@),
{
    if contains_char(name, '.') {
        name.to_owned()
    } else {
        let mut text = ns.to_owned();
        text.append(".");
        text.append(name);
        text
    }
}

/// The Lua type that the type called `name` is written as.
pub open spec fn translated(name: Seq<char>, ns: Seq<char>) -> Seq<char> {
    if name == "gboolean"@ {
        "boolean"@
    } else if name == "gpointer"@ {
        "any"@
    } else if name == "GType"@ {
        "Glib.GType"@
    } else if is_number_name(name) {
        "number"@
    } else if is_string_name(name) {
        "string"@
    } else if name == "none"@ {
        "nil"@
    } else {
        translated_ns(name, ns)
    }
}

/// Writes the Lua type that the type called `name` stands for.
pub fn translate(name: &str, ns: &str) -> (text: String)
    ensures
        text@ == translated(name@, ns@),
{
    if same_text(name, "gboolean") {
        "boolean".to_owned()
    } else if same_text(name, "gpointer") {
        "any".to_owned()
    } else if same_text(name, "GType") {
        "Glib.GType".to_owned()
    } else if number_name(name) {
        "number".to_owned()
    } else if string_name(name) {
        "string".to_owned()
    } else if same_text(name, "none") {
        "nil".to_owned()
    } else {
        translate_ns(name, ns)
    }
}

/// The type argument of `arguments` at `position`, as Lua writes it; `any`
/// where there is none.
pub open spec fn shown_argument(arguments: Seq<AnyTypeView>, position: int, ns: Seq<char>) -> Seq<
    char,
>
    decreases arguments, 0int,
{
    if 0 <= position < arguments.len() {
        shown(arguments[position], ns)
    } else {
        "any"@
    }
}

/// The type `typ` as Lua writes it. An array and a list are written as
/// their element with `[]` after it, a hash table as a table from its key to
/// its value, a variable argument list as `...`, a type without a name as
/// `any`.
pub open spec fn shown(typ: AnyTypeView, ns: Seq<char>) -> Seq<char>
    decreases typ, 1int,
{
    match typ {
        AnyTypeView::Array(array) => shown(*array.typ, ns) + "[]"@,
        AnyTypeView::Type(named) => match named.name {
            Some(name) => if name == "GLib.SList"@ || name == "GLib.List"@ {
                shown_argument(named.children, 0, ns) + "[]"@
            } else if name == "GLib.HashTable"@ {
                "table<"@ + shown_argument(named.children, 0, ns) + ", "@ + shown_argument(
                    named.children,
                    1,
                    ns,
                ) + ">"@
            } else {
                translated(name, ns)
            },
            None => "any"@,
        },
        AnyTypeView::VarArg => "..."@,
    }
}

/// Writes the type argument of `arguments` at `position`.
fn show_argument(arguments: &Vec<AnyType>, position: usize, ns: &str) -> (text: String)
    ensures
        text@ == shown_argument(arguments.deep_view(), position as int, ns@),
    decreases arguments, 0int,
{
    if position < arguments.len() {
        show_anytyp(&arguments[position], ns)
    } else {
        "any".to_owned()
    }
}

/// Writes the type `typ` as Lua writes it.
pub fn show_anytyp(typ: &AnyType, ns: &str) -> (text: String)
    ensures
        text@ == shown(typ.deep_view(), ns@),
    decreases typ, 1int,
{
    match typ {
        AnyType::Array(array) => {
            let mut text = show_anytyp(&array.typ, ns);
            text.append("[]");
            text
        },
        AnyType::Type(named) => {
            proof {
                lemma_type_arguments(*named);
            }
            match &named.name {
                Some(name) => {
                    if same_text(name.as_str(), "GLib.SList") || same_text(
                        name.as_str(),
                        "GLib.List",
                    ) {
                        let mut text = show_argument(&named.children, 0, ns);
                        text.append("[]");
                        text
                    } else if same_text(name.as_str(), "GLib.HashTable") {
                        let mut text = "table<".to_owned();
                        text.append(show_argument(&named.children, 0, ns).as_str());
                        text.append(", ");
                        text.append(show_argument(&named.children, 1, ns).as_str());
                        text.append(">");
                        text
                    } else {
                        translate(name.as_str(), ns)
                    }
                },
                None => "any".to_owned(),
            }
        },
        AnyType::VarArg => "...".to_owned(),
    }
}

} // verus!
