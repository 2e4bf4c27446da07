//! Stubs for Lua: annotated declarations that an editor reads.
//!
//! Every function here computes text. What a function writes is given by a
//! specification function of the same shape over the views of the library's
//! types; the writing of files is left to the caller.

pub mod names;
pub mod params;
pub mod function;
pub mod members;
pub mod classes;
pub mod namespace;

pub use self::names::{reserved, show_anytyp, translate, translate_ns, unkeyword};
pub use self::params::{
    gen_doc_params, gen_doc_return, gen_param_names, gen_param_names_typed, gen_return_names_typed,
    gen_return_signal, in_param, optional, out_param, signal_name,
};
pub use self::classes::gen_default_construtor;
pub use self::namespace::Loaded;

use crate::lang::{generated, GenerateError, GenerateErrorView, OutputFile, OutputFileView};
use crate::lang::lua::namespace::namespace_files;
use crate::parse::repository::{parse_gir, parsed};
use crate::text::{replace_char, swapped};
use vstd::prelude::*;
use vstd::string::StringExecFns;

verus! {

/// The generator of Lua stubs.
pub struct LuaCodegen {}

impl LuaCodegen {
    /// The generator; it has nothing to set.
    pub fn new() -> LuaCodegen {
        LuaCodegen {}
    }
}

/// What every file of stubs begins with.
pub open spec fn file_header() -> Seq<char> {
    "---@diagnostic disable: unused-local, duplicate-doc-field\n"@ + "---@meta\n"@
        + "-- THIS FILE WAS GENERATED BY gir-to-stub! DO NOT MODIFY!\n\n"@
}

/// Writes what every file of stubs begins with.
pub fn gen_file() -> (text: String)
    ensures
        text@ == file_header(),
{
    let mut text = "---@diagnostic disable: unused-local, duplicate-doc-field\n".to_owned();
    text.append("---@meta\n");
    text.append("-- THIS FILE WAS GENERATED BY gir-to-stub! DO NOT MODIFY!\n\n");
    text
}

/// The file that declares the class that every object is one of.
pub open spec fn gobject_file() -> OutputFileView {
    OutputFileView {
        name: "GObject"@,
        content: "--- @class GObject.Object\n"@ + "local Object = {}\n"@,
    }
}

/// Writes the file that declares the class that every object is one of.
pub fn generate_gobject() -> (file: OutputFile)
    ensures
        file.deep_view() == gobject_file(),
{
    let mut content = "--- @class GObject.Object\n".to_owned();
    content.append("local Object = {}\n");
    OutputFile { name: "GObject".to_owned(), content }
}

/// `name` as the name of a directory: `_` stands for every `-` and `.`.
pub open spec fn fixed_filename(name: Seq<char>) -> Seq<char> {
    swapped(swapped(name, '-', '_'), '.', '_')
}

/// Makes `name` the name of a directory.
pub fn fix_filename(name: &str) -> (fixed: String)
    ensures
        fixed@ == fixed_filename(name@),
{
    replace_char(replace_char(name, '-', '_').as_str(), '.', '_')
}

/// The stubs of a document: the files of its first namespace.
pub open spec fn stubs(bytes: Seq<u8>) -> Result<Seq<OutputFileView>, GenerateErrorView> {
    match parsed(bytes) {
        Ok(repository) => if repository.namespace.len() > 0 {
            namespace_files(repository.namespace[0])
        } else {
            Err(GenerateErrorView::NoNamespace)
        },
        Err(error) => Err(GenerateErrorView::Decode(error)),
    }
}

impl LuaCodegen {
    /// Decodes the document that `bytes` holds and writes the stubs of its
    /// first namespace.
    pub fn gen(&self, bytes: &[u8]) -> (files: Result<Vec<OutputFile>, GenerateError>)
        ensures
            generated(files) == stubs(bytes@),
    {
        let repository = match parse_gir(bytes) {
            Ok(repository) => repository,
            Err(error) => {
                return Err(GenerateError::Decode(error));
            },
        };
        if repository.namespace.len() == 0 {
            return Err(GenerateError::NoNamespace);
        }
        repository.namespace[0].gen()
    }
}

} // verus!
