//! A help document in Vim's format, built up piece by piece and then written
//! out as text.

use crate::items::{lemma_all_items, lemma_next_item, no_items, push_item};
use crate::text::{
    byte_len, join, joined, lines, lines_of, lowercase, pad_left, padded, repeat, repeated,
    to_lowercase,
};
use vstd::prelude::*;
use vstd::string::StringExecFns;

verus! {

/// A function, macro, constructor or method as the help document shows it.
pub struct Function {
    name: String,
    introspectable: bool,
    doc: Option<String>,
    args: Vec<(String, String)>,
    ret: Vec<String>,
}

/// The view of `Function`.
pub ghost struct FunctionView {
    pub name: Seq<char>,
    pub introspectable: bool,
    pub doc: Option<Seq<char>>,
    /// Each argument with its type.
    pub args: Seq<(Seq<char>, Seq<char>)>,
    pub ret: Seq<Seq<char>>,
}

impl DeepView for Function {
    type V = FunctionView;

    closed spec fn deep_view(&self) -> FunctionView {
        FunctionView {
            name: self.name@,
            introspectable: self.introspectable,
            doc: self.doc.deep_view(),
            args: self.args.deep_view(),
            ret: self.ret.deep_view(),
        }
    }
}

/// An enumeration with the documentation of each member.
#[derive(Debug)]
pub struct Enum {
    pub name: String,
    pub doc: String,
    pub members: Vec<(String, String)>,
}

/// The view of `Enum`.
pub ghost struct EnumView {
    pub name: Seq<char>,
    pub doc: Seq<char>,
    pub members: Seq<(Seq<char>, Seq<char>)>,
}

impl DeepView for Enum {
    type V = EnumView;

    open spec fn deep_view(&self) -> EnumView {
        EnumView { name: self.name@, doc: self.doc@, members: self.members.deep_view() }
    }
}

/// Anything that is a name with a type: a record, a constant.
#[derive(Debug)]
pub struct Variable {
    pub name: String,
    pub doc: String,
    pub rtype: String,
}

/// The view of `Variable`.
pub ghost struct VariableView {
    pub name: Seq<char>,
    pub doc: Seq<char>,
    pub rtype: Seq<char>,
}

impl DeepView for Variable {
    type V = VariableView;

    open spec fn deep_view(&self) -> VariableView {
        VariableView { name: self.name@, doc: self.doc@, rtype: self.rtype@ }
    }
}

/// A class as the help document shows it.
pub struct Class {
    name: String,
    doc: Option<String>,
    fields: Vec<(String, String)>,
    constructor: Vec<Function>,
    method: Vec<Function>,
    func: Vec<Function>,
    virt: Vec<Function>,
}

/// The view of `Class`.
pub ghost struct ClassView {
    pub name: Seq<char>,
    pub doc: Option<Seq<char>>,
    pub fields: Seq<(Seq<char>, Seq<char>)>,
    pub constructor: Seq<FunctionView>,
    pub method: Seq<FunctionView>,
    pub func: Seq<FunctionView>,
    pub virt: Seq<FunctionView>,
}

impl DeepView for Class {
    type V = ClassView;

    closed spec fn deep_view(&self) -> ClassView {
        ClassView {
            name: self.name@,
            doc: self.doc.deep_view(),
            fields: self.fields.deep_view(),
            constructor: self.constructor.deep_view(),
            method: self.method.deep_view(),
            func: self.func.deep_view(),
            virt: self.virt.deep_view(),
        }
    }
}

/// What a document holds at its top level.
pub struct Global {
    classes: Vec<Class>,
    functions: Vec<Function>,
    macros: Vec<Function>,
    enums: Vec<Enum>,
    record: Vec<Variable>,
    constant: Vec<Variable>,
    callback: Vec<Function>,
    bitfield: Vec<String>,
}

/// The view of `Global`.
pub ghost struct GlobalView {
    pub classes: Seq<ClassView>,
    pub functions: Seq<FunctionView>,
    pub macros: Seq<FunctionView>,
    pub enums: Seq<EnumView>,
    pub record: Seq<VariableView>,
    pub constant: Seq<VariableView>,
    pub callback: Seq<FunctionView>,
    pub bitfield: Seq<Seq<char>>,
}

impl DeepView for Global {
    type V = GlobalView;

    closed spec fn deep_view(&self) -> GlobalView {
        GlobalView {
            classes: self.classes.deep_view(),
            functions: self.functions.deep_view(),
            macros: self.macros.deep_view(),
            enums: self.enums.deep_view(),
            record: self.record.deep_view(),
            constant: self.constant.deep_view(),
            callback: self.callback.deep_view(),
            bitfield: self.bitfield.deep_view(),
        }
    }
}

impl GlobalView {
    /// A top level with nothing in it.
    pub open spec fn empty() -> GlobalView {
        GlobalView {
            classes: Seq::empty(),
            functions: Seq::empty(),
            macros: Seq::empty(),
            enums: Seq::empty(),
            record: Seq::empty(),
            constant: Seq::empty(),
            callback: Seq::empty(),
            bitfield: Seq::empty(),
        }
    }
}

/// A help document for the namespace `ns`.
pub struct Document {
    pub ns: String,
    header: String,
    intro: String,
    global: Global,
}

/// The view of `Document`.
pub ghost struct DocumentView {
    pub ns: Seq<char>,
    pub header: Seq<char>,
    pub intro: Seq<char>,
    pub global: GlobalView,
}

impl DeepView for Document {
    type V = DocumentView;

    closed spec fn deep_view(&self) -> DocumentView {
        DocumentView {
            ns: self.ns@,
            header: self.header@,
            intro: self.intro@,
            global: self.global.deep_view(),
        }
    }
}

impl Global {
    /// A top level with nothing in it.
    pub fn new() -> (global: Global)
        ensures
            global.deep_view() == GlobalView::empty(),
    {
        Global {
            classes: no_items(),
            functions: no_items(),
            macros: no_items(),
            enums: no_items(),
            record: no_items(),
            constant: no_items(),
            callback: no_items(),
            bitfield: no_items(),
        }
    }
}

impl Document {
    /// An empty document for the namespace `ns`.
    pub fn new(ns: &str, header: &str, intro: &str) -> (document: Document)
        ensures
            document.deep_view() == (DocumentView {
                ns: ns@,
                header: header@,
                intro: intro@,
                global: GlobalView::empty(),
            }),
    {
        Document {
            ns: ns.to_owned(),
            header: header.to_owned(),
            intro: intro.to_owned(),
            global: Global::new(),
        }
    }

    /// Adds `class` after the classes that the document holds.
    pub fn add_class(&mut self, class: Class)
        ensures
            final(self).deep_view() == (DocumentView {
                global: GlobalView {
                    classes: old(self).deep_view().global.classes.push(class.deep_view()),
                    ..old(self).deep_view().global
                },
                ..old(self).deep_view()
            }),
    {
        push_item(&mut self.global.classes, class);
    }

    /// Adds `func` after the functions that the document holds.
    pub fn add_function(&mut self, func: Function)
        ensures
            final(self).deep_view() == (DocumentView {
                global: GlobalView {
                    functions: old(self).deep_view().global.functions.push(func.deep_view()),
                    ..old(self).deep_view().global
                },
                ..old(self).deep_view()
            }),
    {
        push_item(&mut self.global.functions, func);
    }

    /// Adds `macr` after the macros that the document holds.
    pub fn add_macro(&mut self, macr: Function)
        ensures
            final(self).deep_view() == (DocumentView {
                global: GlobalView {
                    macros: old(self).deep_view().global.macros.push(macr.deep_view()),
                    ..old(self).deep_view().global
                },
                ..old(self).deep_view()
            }),
    {
        push_item(&mut self.global.macros, macr);
    }

    /// Adds `enu` after the enumerations that the document holds.
    pub fn add_enum(&mut self, enu: Enum)
        ensures
            final(self).deep_view() == (DocumentView {
                global: GlobalView {
                    enums: old(self).deep_view().global.enums.push(enu.deep_view()),
                    ..old(self).deep_view().global
                },
                ..old(self).deep_view()
            }),
    {
        push_item(&mut self.global.enums, enu);
    }

    /// Adds `var` after the constants that the document holds.
    pub fn add_constants(&mut self, var: Variable)
        ensures
            final(self).deep_view() == (DocumentView {
                global: GlobalView {
                    constant: old(self).deep_view().global.constant.push(var.deep_view()),
                    ..old(self).deep_view().global
                },
                ..old(self).deep_view()
            }),
    {
        push_item(&mut self.global.constant, var);
    }
}

impl Class {
    /// A class called `name` with nothing in it.
    pub fn new(name: &str) -> (class: Class)
        ensures
            class.deep_view() == (ClassView {
                name: name@,
                doc: None,
                fields: Seq::empty(),
                constructor: Seq::empty(),
                method: Seq::empty(),
                func: Seq::empty(),
                virt: Seq::empty(),
            }),
    {
        Class {
            name: name.to_owned(),
            doc: None,
            fields: no_items(),
            func: no_items(),
            constructor: no_items(),
            method: no_items(),
            virt: no_items(),
        }
    }

    /// Adds `fun` after the constructors of the class.
    pub fn add_constructor(&mut self, fun: Function)
        ensures
            final(self).deep_view() == (ClassView {
                constructor: old(self).deep_view().constructor.push(fun.deep_view()),
                ..old(self).deep_view()
            }),
    {
        push_item(&mut self.constructor, fun);
    }

    /// Adds `fun` after the methods of the class.
    pub fn add_method(&mut self, fun: Function)
        ensures
            final(self).deep_view() == (ClassView {
                method: old(self).deep_view().method.push(fun.deep_view()),
                ..old(self).deep_view()
            }),
    {
        push_item(&mut self.method, fun);
    }

    /// Adds `fun` after the virtual methods of the class.
    pub fn add_virtual(&mut self, fun: Function)
        ensures
            final(self).deep_view() == (ClassView {
                virt: old(self).deep_view().virt.push(fun.deep_view()),
                ..old(self).deep_view()
            }),
    {
        push_item(&mut self.virt, fun);
    }

    /// Adds `fun` after the functions of the class.
    pub fn add_function(&mut self, fun: Function)
        ensures
            final(self).deep_view() == (ClassView {
                func: old(self).deep_view().func.push(fun.deep_view()),
                ..old(self).deep_view()
            }),
    {
        push_item(&mut self.func, fun);
    }

    /// Adds the field `field`, a name with its type, after the fields of the
    /// class.
    pub fn add_field(&mut self, field: (String, String))
        ensures
            final(self).deep_view() == (ClassView {
                fields: old(self).deep_view().fields.push(field.deep_view()),
                ..old(self).deep_view()
            }),
    {
        push_item(&mut self.fields, field);
    }

    /// Replaces the documentation of the class by `doc`.
    pub fn set_docs(&mut self, doc: Option<String>)
        ensures
            final(self).deep_view() == (ClassView {
                doc: doc.deep_view(),
                ..old(self).deep_view()
            }),
    {
        self.doc = doc;
    }
}

impl Function {
    /// A function called `name` with its arguments, each with its type, and
    /// the types of what it returns.
    pub fn new(
        name: String,
        intro: bool,
        doc: Option<String>,
        args: Vec<(String, String)>,
        ret: Vec<String>,
    ) -> (function: Function)
        ensures
            function.deep_view() == (FunctionView {
                name: name@,
                introspectable: intro,
                doc: doc.deep_view(),
                args: args.deep_view(),
                ret: ret.deep_view(),
            }),
    {
        Function { name, introspectable: intro, doc, args, ret }
    }
}

/// The line that an enumeration takes in the document: its name.
pub open spec fn enum_text(e: EnumView) -> Seq<char> {
    e.name + "\n"@
}

/// Writes the line that an enumeration takes in the document.
pub fn write_enum(e: &Enum) -> (text: String)
    ensures
        text@ == enum_text(e.deep_view()),
{
    let mut text = e.name.clone();
    text.append("\n");
    text
}

/// What is left of `width` after `taken` bytes; nothing where they take
/// more.
pub open spec fn room(width: nat, taken: nat) -> nat {
    if taken <= width {
        (width - taken) as nat
    } else {
        0
    }
}

/// What is left of `width` after the bytes of `text`.
fn room_after(width: usize, text: &str) -> (left: usize)
    ensures
        left == room(width as nat, byte_len(text@)),
{
    let taken = text.as_bytes().len();
    if taken <= width {
        width - taken
    } else {
        0
    }
}

/// The tag that a section is found by.
pub open spec fn section_tag(ns: Seq<char>, name: Seq<char>) -> Seq<char> {
    "*"@ + ns + "."@ + name + "*"@
}

/// The two lines that open the section `name` of the namespace `ns`: a
/// rule, then the name of the section with its tag at the right.
pub open spec fn section_text(ns: Seq<char>, name: Seq<char>) -> Seq<char> {
    repeated("="@, 76) + "\n"@ + ns + "."@ + name + " "@ + padded(
        section_tag(ns, name),
        room(79, byte_len(section_tag(ns, name))),
    ) + "\n"@
}

/// Writes the two lines that open a section.
pub fn create_section(ns: &str, name: &str) -> (text: String)
    ensures
        text@ == section_text(ns@, name@),
{
    let mut tag = "*".to_owned();
    tag.append(ns);
    tag.append(".");
    tag.append(name);
    tag.append("*");
    let mut text = repeat("=", 76);
    text.append("\n");
    text.append(ns);
    text.append(".");
    text.append(name);
    text.append(" ");
    text.append(pad_left(tag.as_str(), room_after(79, tag.as_str())).as_str());
    text.append("\n");
    text
}

/// The names of the arguments `args`, each between braces.
pub open spec fn typeless(args: Seq<(Seq<char>, Seq<char>)>) -> Seq<Seq<char>>
    decreases args.len(),
{
    if args.len() == 0 {
        Seq::empty()
    } else {
        typeless(args.drop_last()).push("{"@ + args.last().0 + "}"@)
    }
}

/// Writes the names of the arguments `args`, each between braces.
pub fn get_typeless(args: &Vec<(String, String)>) -> (names: Vec<String>)
    ensures
        names.deep_view() == typeless(args.deep_view()),
{
    let mut names: Vec<String> = no_items();
    let mut i: usize = 0;
    while i < args.len()
        invariant
            i <= args.len(),
            names.deep_view() == typeless(args.deep_view().take(i as int)),
        decreases args.len() - i,
    {
        proof {
            lemma_next_item(args, i as int);
        }
        let mut name = "{".to_owned();
        name.append(args[i].0.as_str());
        name.append("}");
        push_item(&mut names, name);
        i += 1;
    }
    proof {
        lemma_all_items(args);
    }
    names
}

/// The lines `lines`, each after a tab.
pub open spec fn indented(lines: Seq<Seq<char>>) -> Seq<char>
    decreases lines.len(),
{
    if lines.len() == 0 {
        Seq::empty()
    } else {
        indented(lines.drop_last()) + "\t"@ + lines.last() + "\n"@
    }
}

/// A documentation text in the document: its lines, each after a tab, and an
/// empty line after them. Nothing where there is no text.
pub open spec fn doc_text(doc: Option<Seq<char>>) -> Seq<char> {
    match doc {
        Some(doc) => indented(lines(doc)) + "\n"@,
        None => Seq::empty(),
    }
}

/// Writes a documentation text.
pub fn write_doc(doc: &Option<String>) -> (text: String)
    ensures
        text@ == doc_text(doc.deep_view()),
{
    match doc {
        Some(doc) => {
            let found = lines_of(doc.as_str());
            let mut text = String::new();
            let mut i: usize = 0;
            while i < found.len()
                invariant
                    i <= found.len(),
                    text@ == indented(found.deep_view().take(i as int)),
                decreases found.len() - i,
            {
                proof {
                    lemma_next_item(&found, i as int);
                }
                text.append("\t");
                text.append(found[i].as_str());
                text.append("\n");
                i += 1;
            }
            proof {
                lemma_all_items(&found);
            }
            text.append("\n");
            text
        },
        None => String::new(),
    }
}

/// The lines that list the arguments `args`, each with its type.
pub open spec fn arguments_text(args: Seq<(Seq<char>, Seq<char>)>) -> Seq<char>
    decreases args.len(),
{
    if args.len() == 0 {
        Seq::empty()
    } else {
        arguments_text(args.drop_last()) + "\t\t{"@ + args.last().0 + "} `"@ + args.last().1
            + "`\n"@
    }
}

/// What the document says of a function of `ns`: its tag at the right, how
/// it is called, its documentation, its arguments and what it returns.
pub open spec fn function_text(function: FunctionView, ns: Seq<char>) -> Seq<char> {
    padded("*"@ + ns + "."@ + function.name + "()*"@, 78) + "\n"@ + ns + "."@ + function.name
        + "("@ + joined(typeless(function.args), ", "@) + ")\n\n"@ + doc_text(function.doc)
        + "\tArguments:~\n"@ + arguments_text(function.args) + "\tReturns:~\n\t\t`"@ + joined(
        function.ret,
        ", "@,
    ) + "`\n"@
}

impl Function {
    /// Writes what the document says of the function.
    pub fn write(&self, ns: &str) -> (text: String)
        ensures
            text@ == function_text(self.deep_view(), ns@),
    {
        let mut tag = "*".to_owned();
        tag.append(ns);
        tag.append(".");
        tag.append(self.name.as_str());
        tag.append("()*");
        let mut arguments = String::new();
        let mut i: usize = 0;
        while i < self.args.len()
            invariant
                i <= self.args.len(),
                arguments@ == arguments_text(self.args.deep_view().take(i as int)),
            decreases self.args.len() - i,
        {
            proof {
                lemma_next_item(&self.args, i as int);
            }
            arguments.append("\t\t{");
            arguments.append(self.args[i].0.as_str());
            arguments.append("} `");
            arguments.append(self.args[i].1.as_str());
            arguments.append("`\n");
            i += 1;
        }
        proof {
            lemma_all_items(&self.args);
        }
        let mut text = pad_left(tag.as_str(), 78);
        text.append("\n");
        text.append(ns);
        text.append(".");
        text.append(self.name.as_str());
        text.append("(");
        text.append(join(&get_typeless(&self.args), ", ").as_str());
        text.append(")\n\n");
        text.append(write_doc(&self.doc).as_str());
        text.append("\tArguments:~\n");
        text.append(arguments.as_str());
        text.append("\tReturns:~\n\t\t`");
        text.append(join(&self.ret, ", ").as_str());
        text.append("`\n");
        text
    }
}

/// What the document says of the functions `items` of `ns`, with `after`
/// after each.
pub open spec fn functions_text(items: Seq<FunctionView>, ns: Seq<char>, after: Seq<char>) -> Seq<
    char,
>
    decreases items.len(),
{
    if items.len() == 0 {
        Seq::empty()
    } else {
        functions_text(items.drop_last(), ns, after) + function_text(items.last(), ns) + after
    }
}

/// Writes what the document says of the functions `items`.
fn write_functions(items: &Vec<Function>, ns: &str, after: &str) -> (text: String)
    ensures
        text@ == functions_text(items.deep_view(), ns@, after@),
{
    let mut text = String::new();
    let mut i: usize = 0;
    while i < items.len()
        invariant
            i <= items.len(),
            text@ == functions_text(items.deep_view().take(i as int), ns@, after@),
        decreases items.len() - i,
    {
        proof {
            lemma_next_item(items, i as int);
        }
        text.append(items[i].write(ns).as_str());
        text.append(after);
        i += 1;
    }
    proof {
        lemma_all_items(items);
    }
    text
}

/// A list of functions under its heading, each with an empty line after
/// it; nothing where the list is empty.
pub open spec fn listed(heading: Seq<char>, items: Seq<FunctionView>, ns: Seq<char>) -> Seq<char> {
    if items.len() == 0 {
        Seq::empty()
    } else {
        heading + functions_text(items, ns, "\n"@)
    }
}

/// Writes a list of functions under its heading.
fn write_listed(heading: &str, items: &Vec<Function>, ns: &str) -> (text: String)
    ensures
        text@ == listed(heading@, items.deep_view(), ns@),
{
    if items.len() == 0 {
        return String::new();
    }
    let mut text = heading.to_owned();
    text.append(write_functions(items, ns, "\n").as_str());
    text
}

/// The lines of the fields `fields` of what is called `owner`.
pub open spec fn field_lines(fields: Seq<(Seq<char>, Seq<char>)>, owner: Seq<char>) -> Seq<char>
    decreases fields.len(),
{
    if fields.len() == 0 {
        Seq::empty()
    } else {
        field_lines(fields.drop_last(), owner) + owner + "."@ + fields.last().0 + "\n"@
    }
}

/// The fields of a class under their heading; nothing where it has none.
pub open spec fn fields_text(fields: Seq<(Seq<char>, Seq<char>)>, owner: Seq<char>) -> Seq<char> {
    if fields.len() == 0 {
        Seq::empty()
    } else {
        "Fields~\n"@ + field_lines(fields, owner)
    }
}

/// Writes the fields `fields` of what is called `owner` under their heading.
fn write_fields(fields: &Vec<(String, String)>, owner: &str) -> (text: String)
    ensures
        text@ == fields_text(fields.deep_view(), owner@),
{
    if fields.len() == 0 {
        return String::new();
    }
    let mut lines = String::new();
    let mut i: usize = 0;
    while i < fields.len()
        invariant
            i <= fields.len(),
            lines@ == field_lines(fields.deep_view().take(i as int), owner@),
        decreases fields.len() - i,
    {
        proof {
            lemma_next_item(fields, i as int);
        }
        lines.append(owner);
        lines.append(".");
        lines.append(fields[i].0.as_str());
        lines.append("\n");
        i += 1;
    }
    proof {
        lemma_all_items(fields);
    }
    let mut text = "Fields~\n".to_owned();
    text.append(lines.as_str());
    text
}

/// The documentation of a class with an empty line after it.
pub open spec fn class_doc_text(doc: Option<Seq<char>>) -> Seq<char> {
    match doc {
        Some(doc) => doc + "\n\n"@,
        None => Seq::empty(),
    }
}

/// What the document says of a class of `ns`: its section, its
/// documentation, its fields, and its constructors, methods, functions and
/// virtual methods. Constructors and functions are called on the class,
/// methods and virtual methods on an object, which is named by the name of
/// the class in lower case.
pub open spec fn class_text(class: ClassView, ns: Seq<char>) -> Seq<char> {
    let on_class = ns + "."@ + class.name;
    let on_object = lowercase(class.name);
    section_text(ns, class.name) + class_doc_text(class.doc) + fields_text(class.fields, on_class)
        + listed("Constructors~\n"@, class.constructor, on_class) + listed(
        "Methods~\n"@,
        class.method,
        on_object,
    ) + listed("Functions~\n"@, class.func, on_class) + listed(
        "Virtual~\n"@,
        class.virt,
        on_object,
    )
}

impl Class {
    /// Writes what the document says of the class.
    pub fn write(&self, ns: &str) -> (text: String)
        ensures
            text@ == class_text(self.deep_view(), ns@),
    {
        let mut on_class = ns.to_owned();
        on_class.append(".");
        on_class.append(self.name.as_str());
        let on_object = to_lowercase(self.name.as_str());
        let doc = match &self.doc {
            Some(doc) => {
                let mut block = doc.clone();
                block.append("\n\n");
                block
            },
            None => String::new(),
        };
        let fields = write_fields(&self.fields, on_class.as_str());
        let mut text = create_section(ns, self.name.as_str());
        text.append(doc.as_str());
        text.append(fields.as_str());
        text.append(write_listed("Constructors~\n", &self.constructor, on_class.as_str()).as_str());
        text.append(write_listed("Methods~\n", &self.method, on_object.as_str()).as_str());
        text.append(write_listed("Functions~\n", &self.func, on_class.as_str()).as_str());
        text.append(write_listed("Virtual~\n", &self.virt, on_object.as_str()).as_str());
        text
    }
}

/// What the document says of the classes `items` of `ns`.
pub open spec fn classes_text(items: Seq<ClassView>, ns: Seq<char>) -> Seq<char>
    decreases items.len(),
{
    if items.len() == 0 {
        Seq::empty()
    } else {
        classes_text(items.drop_last(), ns) + class_text(items.last(), ns)
    }
}

/// The lines of the enumerations `items`.
pub open spec fn enums_text(items: Seq<EnumView>) -> Seq<char>
    decreases items.len(),
{
    if items.len() == 0 {
        Seq::empty()
    } else {
        enums_text(items.drop_last()) + enum_text(items.last())
    }
}

/// Writes what the document says of the classes `items`.
fn write_classes(items: &Vec<Class>, ns: &str) -> (text: String)
    ensures
        text@ == classes_text(items.deep_view(), ns@),
{
    let mut text = String::new();
    let mut i: usize = 0;
    while i < items.len()
        invariant
            i <= items.len(),
            text@ == classes_text(items.deep_view().take(i as int), ns@),
        decreases items.len() - i,
    {
        proof {
            lemma_next_item(items, i as int);
        }
        text.append(items[i].write(ns).as_str());
        i += 1;
    }
    proof {
        lemma_all_items(items);
    }
    text
}

/// Writes the lines of the enumerations `items`.
fn write_enums(items: &Vec<Enum>) -> (text: String)
    ensures
        text@ == enums_text(items.deep_view()),
{
    let mut text = String::new();
    let mut i: usize = 0;
    while i < items.len()
        invariant
            i <= items.len(),
            text@ == enums_text(items.deep_view().take(i as int)),
        decreases items.len() - i,
    {
        proof {
            lemma_next_item(items, i as int);
        }
        text.append(write_enum(&items[i]).as_str());
        i += 1;
    }
    proof {
        lemma_all_items(items);
    }
    text
}

/// A section of the document between empty lines, with `body` below it;
/// nothing where `shown` says that it is left out.
pub open spec fn part(shown: bool, ns: Seq<char>, name: Seq<char>, body: Seq<char>) -> Seq<char> {
    if shown {
        "\n"@ + section_text(ns, name) + "\n"@ + body
    } else {
        Seq::empty()
    }
}

/// Writes a section of the document between empty lines.
fn write_part(shown: bool, ns: &str, name: &str, body: String) -> (text: String)
    ensures
        text@ == part(shown, ns@, name@, body@),
{
    if !shown {
        return String::new();
    }
    let mut text = "\n".to_owned();
    text.append(create_section(ns, name).as_str());
    text.append("\n");
    text.append(body.as_str());
    text
}

/// What the last line of the document tells Vim.
pub open spec fn modeline() -> Seq<char> {
    "vim:tw=78:ts=8:noet:ft=help:norl:"@
}

/// The whole document, with `date` at the right of its first line: the
/// classes, then functions, macros and enumerations, each in a section of
/// its own. The enumerations are shown where there are functions.
pub open spec fn document_text(document: DocumentView, date: Seq<char>) -> Seq<char> {
    let ns = document.ns;
    let global = document.global;
    "*"@ + ns + ".txt* "@ + padded(date, room(71, byte_len(ns))) + "\n"@ + classes_text(
        global.classes,
        ns,
    ) + part(
        global.functions.len() > 0,
        ns,
        "Functions"@,
        functions_text(global.functions, ns, ""@),
    ) + part(global.macros.len() > 0, ns, "Macros"@, functions_text(global.macros, ns, ""@))
        + part(global.functions.len() > 0, ns, "Enums"@, enums_text(global.enums)) + "\n"@
        + modeline()
}

/// The day and the minute that it is now, read from the clock by
/// `chrono::Utc::now` and written by `format` as day, month, year, hour and
/// minute. Nothing is claimed of the text: it differs from call to call.
#[verifier::external_body]
fn timestamp() -> String {
    chrono::Utc::now().format("%d/%m/%Y %H:%M").to_string()
}

impl Document {
    /// Writes the document with `date` at the right of its first line.
    pub fn write_dated(&self, date: &str) -> (text: String)
        ensures
            text@ == document_text(self.deep_view(), date@),
    {
        let ns = self.ns.as_str();
        let has_functions = self.global.functions.len() > 0;
        let functions = write_part(
            has_functions,
            ns,
            "Functions",
            write_functions(&self.global.functions, ns, ""),
        );
        let macros = write_part(
            self.global.macros.len() > 0,
            ns,
            "Macros",
            write_functions(&self.global.macros, ns, ""),
        );
        let enums = write_part(has_functions, ns, "Enums", write_enums(&self.global.enums));
        let mut text = "*".to_owned();
        text.append(ns);
        text.append(".txt* ");
        text.append(pad_left(date, room_after(71, ns)).as_str());
        text.append("\n");
        text.append(write_classes(&self.global.classes, ns).as_str());
        text.append(functions.as_str());
        text.append(macros.as_str());
        text.append(enums.as_str());
        text.append("\n");
        text.append("vim:tw=78:ts=8:noet:ft=help:norl:");
        text
    }

    /// Writes the document, with the time that it is now in its first line.
    pub fn write(&self) -> (text: String)
        ensures
            exists|stamp: Seq<char>|
                text@ == document_text(self.deep_view(), "Last Generated: "@ + stamp),
    {
        let mut date = "Last Generated: ".to_owned();
        let stamp = timestamp();
        date.append(stamp.as_str());
        self.write_dated(date.as_str())
    }
}

} // verus!
