//! The files of a namespace.

use crate::items::{append_items, lemma_all_items, lemma_next_item, no_items, push_item};
use crate::lang::{generated, GenerateError, GenerateErrorView, OutputFile, OutputFileView};
use crate::lang::lua::{file_header, gen_file};
use crate::lang::lua::classes::{
    class_file, gen_record_types, gen_union_types, gen_unions, is_class_struct, record_file,
    record_types_text, union_types_text, unions_text,
};
use crate::lang::lua::function::{
    both, callback_types_text, functions_text, gen_callback_types, gen_functions, then,
};
use crate::lang::lua::members::{
    aliases_text, bitfields_text, constants_text, enumerations_text, gen_aliases, gen_bitfields,
    gen_constants, gen_enumerations,
};
use crate::library::{Class, ClassView, Namespace, NamespaceView, Record, RecordView};
use crate::text::has_suffix;
use vstd::prelude::*;
use vstd::string::StringExecFns;

verus! {

/// The lines that load the file of the declaration `name` and make it a
/// field of the namespace `ns`.
pub open spec fn require_text(name: Seq<char>, ns: Seq<char>) -> Seq<char> {
    "local _"@ + name + " = require('"@ + name + "')\n"@ + ns + "."@ + name + " = _"@ + name
        + "\n\n"@
}

/// Writes the lines that load the file of the declaration `name`.
fn gen_require(name: &str, ns: &str) -> (text: String)
    ensures
        text@ == require_text(name@, ns@),
{
    let mut text = "local _".to_owned();
    text.append(name);
    text.append(" = require('");
    text.append(name);
    text.append("')\n");
    text.append(ns);
    text.append(".");
    text.append(name);
    text.append(" = _");
    text.append(name);
    text.append("\n\n");
    text
}

/// The files that a namespace hands out beside its own, and the lines of
/// its own file that load them.
pub ghost struct Loaded {
    pub lines: Seq<char>,
    pub files: Seq<OutputFileView>,
}

/// `loaded` with the lines `lines` and the file `file`, where there is one,
/// after what it holds.
pub open spec fn loaded_with(
    loaded: Loaded,
    lines: Seq<char>,
    file: Option<OutputFileView>,
) -> Loaded {
    Loaded {
        lines: loaded.lines + lines,
        files: match file {
            Some(file) => loaded.files.push(file),
            None => loaded.files,
        },
    }
}

/// The files of the classes `classes` and the lines that load them, or the
/// first class that cannot be written. A class that is not to be shown has
/// its lines and no file.
pub open spec fn classes_loaded(classes: Seq<ClassView>, ns: Seq<char>) -> Result<
    Loaded,
    GenerateErrorView,
>
    decreases classes.len(),
{
    if classes.len() == 0 {
        Ok(Loaded { lines: Seq::empty(), files: Seq::empty() })
    } else {
        match classes_loaded(classes.drop_last(), ns) {
            Ok(before) => match class_file(classes.last(), ns) {
                Ok(file) => Ok(loaded_with(before, require_text(classes.last().name, ns), file)),
                Err(error) => Err(error),
            },
            Err(error) => Err(error),
        }
    }
}

/// The files of the records `records` and the lines that load them, or the
/// first record that cannot be written. The structure of a class is passed
/// over.
pub open spec fn records_loaded(records: Seq<RecordView>, ns: Seq<char>) -> Result<
    Loaded,
    GenerateErrorView,
>
    decreases records.len(),
{
    if records.len() == 0 {
        Ok(Loaded { lines: Seq::empty(), files: Seq::empty() })
    } else {
        match records_loaded(records.drop_last(), ns) {
            Ok(before) => if is_class_struct(records.last()) {
                Ok(before)
            } else {
                match record_file(records.last(), ns) {
                    Ok(file) => Ok(
                        loaded_with(before, require_text(records.last().name, ns), file),
                    ),
                    Err(error) => Err(error),
                }
            },
            Err(error) => Err(error),
        }
    }
}

/// What cannot be written among the first `n` classes cannot be written
/// among all of them.
proof fn lemma_classes_loaded_stays(classes: Seq<ClassView>, ns: Seq<char>, n: int)
    requires
        0 <= n <= classes.len(),
    ensures
        classes_loaded(classes.take(n), ns) is Err ==> classes_loaded(classes, ns)
            == classes_loaded(classes.take(n), ns),
    decreases classes.len() - n,
{
    if n == classes.len() {
        assert(classes.take(n) =~= classes);
    } else {
        assert(classes.drop_last().take(n) =~= classes.take(n));
        lemma_classes_loaded_stays(classes.drop_last(), ns, n);
    }
}

/// What cannot be written among the first `n` records cannot be written
/// among all of them.
proof fn lemma_records_loaded_stays(records: Seq<RecordView>, ns: Seq<char>, n: int)
    requires
        0 <= n <= records.len(),
    ensures
        records_loaded(records.take(n), ns) is Err ==> records_loaded(records, ns)
            == records_loaded(records.take(n), ns),
    decreases records.len() - n,
{
    if n == records.len() {
        assert(records.take(n) =~= records);
    } else {
        assert(records.drop_last().take(n) =~= records.take(n));
        lemma_records_loaded_stays(records.drop_last(), ns, n);
    }
}

/// Writes the files of `classes` after `files`, and the lines that load
/// them.
fn gen_classes(classes: &Vec<Class>, ns: &str, files: &mut Vec<OutputFile>) -> (lines: Result<
    String,
    GenerateError,
>)
    ensures
        match classes_loaded(classes.deep_view(), ns@) {
            Ok(loaded) => {
                &&& lines matches Ok(text)
                &&& text@ == loaded.lines
                &&& final(files).deep_view() == old(files).deep_view() + loaded.files
            },
            Err(error) => lines matches Err(fault) && fault.deep_view() == error,
        },
{
    let ghost given = files.deep_view();
    let mut lines = String::new();
    let mut i: usize = 0;
    assert(given + Seq::<OutputFileView>::empty() =~= given);
    while i < classes.len()
        invariant
            i <= classes.len(),
            classes_loaded(classes.deep_view().take(i as int), ns@) matches Ok(loaded)
                && lines@ == loaded.lines && files.deep_view() == given + loaded.files,
        decreases classes.len() - i,
    {
        proof {
            lemma_next_item(classes, i as int);
            lemma_classes_loaded_stays(classes.deep_view(), ns@, i + 1);
        }
        let ghost before = classes_loaded(classes.deep_view().take(i as int), ns@)->Ok_0;
        let file = classes[i].gen(ns)?;
        lines.append(gen_require(classes[i].name.as_str(), ns).as_str());
        match file {
            Some(file) => {
                push_item(files, file);
                assert(files.deep_view() =~= given + before.files.push(file.deep_view()));
            },
            None => {},
        }
        i += 1;
    }
    proof {
        lemma_all_items(classes);
    }
    Ok(lines)
}

/// Writes the files of `records` after `files`, and the lines that load
/// them.
fn gen_records(records: &Vec<Record>, ns: &str, files: &mut Vec<OutputFile>) -> (lines: Result<
    String,
    GenerateError,
>)
    ensures
        match records_loaded(records.deep_view(), ns@) {
            Ok(loaded) => {
                &&& lines matches Ok(text)
                &&& text@ == loaded.lines
                &&& final(files).deep_view() == old(files).deep_view() + loaded.files
            },
            Err(error) => lines matches Err(fault) && fault.deep_view() == error,
        },
{
    let ghost given = files.deep_view();
    let mut lines = String::new();
    let mut i: usize = 0;
    assert(given + Seq::<OutputFileView>::empty() =~= given);
    while i < records.len()
        invariant
            i <= records.len(),
            records_loaded(records.deep_view().take(i as int), ns@) matches Ok(loaded)
                && lines@ == loaded.lines && files.deep_view() == given + loaded.files,
        decreases records.len() - i,
    {
        proof {
            lemma_next_item(records, i as int);
            lemma_records_loaded_stays(records.deep_view(), ns@, i + 1);
        }
        let ghost before = records_loaded(records.deep_view().take(i as int), ns@)->Ok_0;
        if !has_suffix(records[i].name.as_str(), "Class") {
            let file = records[i].gen(ns)?;
            lines.append(gen_require(records[i].name.as_str(), ns).as_str());
            match file {
                Some(file) => {
                    push_item(files, file);
                    assert(files.deep_view() =~= given + before.files.push(file.deep_view()));
                },
                None => {},
            }
        }
        i += 1;
    }
    proof {
        lemma_all_items(records);
    }
    Ok(lines)
}

/// What the file of a namespace declares itself: enumerations, bitfields,
/// functions, constants, aliases and unions.
pub open spec fn declarations_text(namespace: NamespaceView, ns: Seq<char>) -> Result<
    Seq<char>,
    GenerateErrorView,
> {
    both(
        then(
            then(
                both(
                    both(
                        enumerations_text(namespace.enums, ns),
                        bitfields_text(namespace.bitfield, ns),
                    ),
                    functions_text(namespace.functions, ns, ns),
                ),
                constants_text(namespace.constant, ns),
            ),
            aliases_text(namespace.alias, ns),
        ),
        unions_text(namespace.unions, ns),
    )
}

/// The types that the file of a namespace begins with: records, callbacks
/// and unions.
pub open spec fn types_text(namespace: NamespaceView, ns: Seq<char>) -> Seq<char> {
    "local "@ + ns + " = {}\n\n"@ + record_types_text(namespace.record, ns) + callback_types_text(
        namespace.callback,
        ns,
    ) + union_types_text(namespace.unions, ns) + "\n"@
}

/// The files of a namespace called `ns`: its own, called `init`, then those
/// of its classes, then those of its records.
pub open spec fn named_namespace_files(namespace: NamespaceView, ns: Seq<char>) -> Result<
    Seq<OutputFileView>,
    GenerateErrorView,
> {
    match classes_loaded(namespace.classes, ns) {
        Ok(classes) => match records_loaded(namespace.record, ns) {
            Ok(records) => match declarations_text(namespace, ns) {
                Ok(declarations) => Ok(
                    seq![
                        OutputFileView {
                            name: "init"@,
                            content: file_header() + types_text(namespace, ns) + classes.lines
                                + records.lines + declarations + "return "@ + ns + "\n"@,
                        },
                    ] + classes.files + records.files,
                ),
                Err(error) => Err(error),
            },
            Err(error) => Err(error),
        },
        Err(error) => Err(error),
    }
}

/// The files of a namespace, which must have a name.
pub open spec fn namespace_files(namespace: NamespaceView) -> Result<
    Seq<OutputFileView>,
    GenerateErrorView,
> {
    match namespace.name {
        Some(ns) => named_namespace_files(namespace, ns),
        None => Err(GenerateErrorView::UnnamedNamespace),
    }
}

impl Namespace {
    /// Writes the files of the namespace.
    pub fn gen(&self) -> (files: Result<Vec<OutputFile>, GenerateError>)
        ensures
            generated(files) == namespace_files(self.deep_view()),
    {
        let ns = match &self.name {
            Some(name) => name.as_str(),
            None => {
                return Err(GenerateError::UnnamedNamespace);
            },
        };
        let mut others: Vec<OutputFile> = no_items();
        let class_lines = gen_classes(&self.classes, ns, &mut others)?;
        let record_lines = gen_records(&self.record, ns, &mut others)?;
        let mut declarations = gen_enumerations(&self.enums, ns)?;
        declarations.append(gen_bitfields(&self.bitfield, ns)?.as_str());
        declarations.append(gen_functions(&self.functions, ns, ns)?.as_str());
        declarations.append(gen_constants(&self.constant, ns).as_str());
        declarations.append(gen_aliases(&self.alias, ns).as_str());
        declarations.append(gen_unions(&self.unions, ns)?.as_str());
        let mut types = "local ".to_owned();
        types.append(ns);
        types.append(" = {}\n\n");
        types.append(gen_record_types(&self.record, ns).as_str());
        types.append(gen_callback_types(&self.callback, ns).as_str());
        types.append(gen_union_types(&self.unions, ns).as_str());
        types.append("\n");
        let mut content = gen_file();
        content.append(types.as_str());
        content.append(class_lines.as_str());
        content.append(record_lines.as_str());
        content.append(declarations.as_str());
        content.append("return ");
        content.append(ns);
        content.append("\n");
        let mut files: Vec<OutputFile> = no_items();
        push_item(&mut files, OutputFile { name: "init".to_owned(), content });
        assert(files.deep_view() =~= seq![files.deep_view()[0]]);
        append_items(&mut files, others);
        assert(Seq::<OutputFileView>::empty() + classes_loaded(
            self.deep_view().classes,
            ns@,
        )->Ok_0.files
            =~= classes_loaded(self.deep_view().classes, ns@)->Ok_0.files);
        assert(files.deep_view() =~= named_namespace_files(self.deep_view(), ns@)->Ok_0);
        Ok(files)
    }
}

} // verus!
