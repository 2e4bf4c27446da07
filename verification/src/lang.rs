//! The generators of stub files, one module for each language.

pub mod lua;
pub mod python;

use crate::library::FunctionType;
use crate::parse::error::{DecodeError, DecodeErrorView};
use crate::text::same_text;
use vstd::prelude::*;
use vstd::string::StringExecFns;

verus! {

/// A file that a generator hands out. `name` is the name of the file
/// without its extension.
#[derive(Debug)]
pub struct OutputFile {
    pub name: String,
    pub content: String,
}

/// The view of `OutputFile`.
pub ghost struct OutputFileView {
    pub name: Seq<char>,
    pub content: Seq<char>,
}

impl DeepView for OutputFile {
    type V = OutputFileView;

    open spec fn deep_view(&self) -> OutputFileView {
        OutputFileView { name: self.name@, content: self.content@ }
    }
}

/// Why a generator could not write its stubs.
#[derive(Debug)]
pub enum GenerateError {
    /// The document could not be decoded.
    Decode(DecodeError),
    /// The document declares no namespace.
    NoNamespace,
    /// The namespace has no name.
    UnnamedNamespace,
    /// A function of this kind cannot be written as a function.
    Unsupported(FunctionType),
}

/// The view of `GenerateError`.
pub ghost enum GenerateErrorView {
    Decode(DecodeErrorView),
    NoNamespace,
    UnnamedNamespace,
    Unsupported(FunctionType),
}

impl DeepView for GenerateError {
    type V = GenerateErrorView;

    open spec fn deep_view(&self) -> GenerateErrorView {
        match self {
            GenerateError::Decode(error) => GenerateErrorView::Decode(error.deep_view()),
            GenerateError::NoNamespace => GenerateErrorView::NoNamespace,
            GenerateError::UnnamedNamespace => GenerateErrorView::UnnamedNamespace,
            GenerateError::Unsupported(kind) => GenerateErrorView::Unsupported(*kind),
        }
    }
}

impl GenerateErrorView {
    /// The fault in words; `reader` stands for what the reader says of a
    /// document that it could not read.
    pub open spec fn message(self, reader: Seq<char>) -> Seq<char> {
        match self {
            GenerateErrorView::Decode(error) => error.message(reader),
            GenerateErrorView::NoNamespace => "the document declares no namespace"@,
            GenerateErrorView::UnnamedNamespace => "the namespace has no name"@,
            GenerateErrorView::Unsupported(kind) => match kind {
                FunctionType::Callback => "a callback cannot be written as a function"@,
                FunctionType::Virtual => "a virtual method cannot be written as a function"@,
                _ => "a function of this kind cannot be written"@,
            },
        }
    }
}

impl GenerateError {
    /// The fault in words.
    pub fn message(&self) -> (text: String)
        ensures
            exists|reader: Seq<char>| text@ == self.deep_view().message(reader),
    {
        match self {
            GenerateError::Decode(error) => {
                let text = error.message();
                proof {
                    let reader = choose|reader: Seq<char>|
                        text@ == error.deep_view().message(reader);
                    assert(text@ == self.deep_view().message(reader));
                }
                text
            },
            GenerateError::NoNamespace => {
                let text = "the document declares no namespace".to_owned();
                assert(text@ == self.deep_view().message(Seq::empty()));
                text
            },
            GenerateError::UnnamedNamespace => {
                let text = "the namespace has no name".to_owned();
                assert(text@ == self.deep_view().message(Seq::empty()));
                text
            },
            GenerateError::Unsupported(kind) => {
                let text = match kind {
                    FunctionType::Callback => "a callback cannot be written as a function",
                    FunctionType::Virtual => "a virtual method cannot be written as a function",
                    _ => "a function of this kind cannot be written",
                }.to_owned();
                assert(text@ == self.deep_view().message(Seq::empty()));
                text
            },
        }
    }
}

/// What a generating function returned, seen through the views.
pub open spec fn generated<T: DeepView>(r: Result<T, GenerateError>) -> Result<
    T::V,
    GenerateErrorView,
> {
    match r {
        Ok(value) => Ok(value.deep_view()),
        Err(error) => Err(error.deep_view()),
    }
}

/// How much a generator writes: code alone, code with documentation, or all
/// that it knows.
#[derive(Clone, Copy, Debug, PartialEq, Eq, Structural)]
pub enum Level {
    Code,
    CodeDoc,
    Full,
}

impl Level {
    /// Whether `name` is one of the names that a level is asked for by.
    pub open spec fn known(name: Seq<char>) -> bool {
        name == "code"@ || name == "Code"@ || name == "codedoc"@ || name == "CodeDoc"@ || name
            == "full"@ || name == "Full"@
    }

    /// What is said of a name that asks for no level.
    pub open spec fn unknown(name: Seq<char>) -> Seq<char> {
        name + " level not supported"@
    }

    /// The level that `name` asks for. Every known name gives `Code`: the
    /// generators write nothing more yet. An unknown name is a fault, which
    /// says so.
    pub fn from_name(name: &str) -> (level: Result<Level, String>)
        ensures
            match level {
                Ok(level) => Level::known(name@) && level == Level::Code,
                Err(fault) => !Level::known(name@) && fault@ == Level::unknown(name@),
            },
    {
        if same_text(name, "code") || same_text(name, "Code") || same_text(name, "codedoc")
            || same_text(name, "CodeDoc") || same_text(name, "full") || same_text(name, "Full") {
            Ok(Level::Code)
        } else {
            let mut fault = name.to_owned();
            fault.append(" level not supported");
            Err(fault)
        }
    }

    /// The name of the level.
    pub fn name(&self) -> (name: &'static str)
        ensures
            name@ == match self {
                Level::Code => "Code"@,
                Level::CodeDoc => "CodeDoc"@,
                Level::Full => "Full"@,
            },
    {
        match self {
            Level::Code => "Code",
            Level::CodeDoc => "CodeDoc",
            Level::Full => "Full",
        }
    }
}

} // verus!
