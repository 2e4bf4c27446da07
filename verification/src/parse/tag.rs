//! The element names that the decoder knows.

use crate::text::same_text;
use vstd::prelude::*;

verus! {

/// The element names that the decoder knows. Every other name is `Other`.
#[derive(Clone, Copy, Debug, PartialEq, Eq, Structural)]
pub enum Tag {
    Repository,
    Include,
    CInclude,
    Package,
    Namespace,
    Attribute,
    Class,
    Record,
    Union,
    Interface,
    Callback,
    Bitfield,
    Enumeration,
    Function,
    Constant,
    Alias,
    Boxed,
    FunctionMacro,
    DocSection,
    Constructor,
    Method,
    VirtualMethod,
    Field,
    Property,
    Signal,
    Implements,
    Prerequisite,
    Parameters,
    Parameter,
    InstanceParameter,
    ReturnValue,
    Type,
    Array,
    VarArgs,
    Doc,
    DocStability,
    DocDeprecated,
    DocVersion,
    SourcePosition,
    Member,
    Other,
}

/// The tag that an element name stands for.
pub open spec fn tag_of(name: Seq<char>) -> Tag {
    if name == "repository"@ {
        Tag::Repository
    } else if name == "include"@ {
        Tag::Include
    } else if name == "cinclude"@ {
        Tag::CInclude
    } else if name == "package"@ {
        Tag::Package
    } else if name == "namespace"@ {
        Tag::Namespace
    } else if name == "attribute"@ {
        Tag::Attribute
    } else if name == "class"@ {
        Tag::Class
    } else if name == "record"@ {
        Tag::Record
    } else if name == "union"@ {
        Tag::Union
    } else if name == "interface"@ {
        Tag::Interface
    } else if name == "callback"@ {
        Tag::Callback
    } else if name == "bitfield"@ {
        Tag::Bitfield
    } else if name == "enumeration"@ {
        Tag::Enumeration
    } else if name == "function"@ {
        Tag::Function
    } else if name == "constant"@ {
        Tag::Constant
    } else if name == "alias"@ {
        Tag::Alias
    } else if name == "boxed"@ {
        Tag::Boxed
    } else if name == "function-macro"@ {
        Tag::FunctionMacro
    } else if name == "docsection"@ {
        Tag::DocSection
    } else if name == "constructor"@ {
        Tag::Constructor
    } else if name == "method"@ {
        Tag::Method
    } else if name == "virtual-method"@ {
        Tag::VirtualMethod
    } else if name == "field"@ {
        Tag::Field
    } else if name == "property"@ {
        Tag::Property
    } else if name == "signal"@ {
        Tag::Signal
    } else if name == "implements"@ {
        Tag::Implements
    } else if name == "prerequisite"@ {
        Tag::Prerequisite
    } else if name == "parameters"@ {
        Tag::Parameters
    } else if name == "parameter"@ {
        Tag::Parameter
    } else if name == "instance-parameter"@ {
        Tag::InstanceParameter
    } else if name == "return-value"@ {
        Tag::ReturnValue
    } else if name == "type"@ {
        Tag::Type
    } else if name == "array"@ {
        Tag::Array
    } else if name == "varargs"@ {
        Tag::VarArgs
    } else if name == "doc"@ {
        Tag::Doc
    } else if name == "doc-stability"@ {
        Tag::DocStability
    } else if name == "doc-deprecated"@ {
        Tag::DocDeprecated
    } else if name == "doc-version"@ {
        Tag::DocVersion
    } else if name == "source-position"@ {
        Tag::SourcePosition
    } else if name == "member"@ {
        Tag::Member
    } else {
        Tag::Other
    }
}

/// Finds the tag that an element name stands for.
pub fn classify(name: &str) -> (tag: Tag)
    ensures
        tag == tag_of(name@),
{
    if same_text(name, "repository") {
        Tag::Repository
    } else if same_text(name, "include") {
        Tag::Include
    } else if same_text(name, "cinclude") {
        Tag::CInclude
    } else if same_text(name, "package") {
        Tag::Package
    } else if same_text(name, "namespace") {
        Tag::Namespace
    } else if same_text(name, "attribute") {
        Tag::Attribute
    } else if same_text(name, "class") {
        Tag::Class
    } else if same_text(name, "record") {
        Tag::Record
    } else if same_text(name, "union") {
        Tag::Union
    } else if same_text(name, "interface") {
        Tag::Interface
    } else if same_text(name, "callback") {
        Tag::Callback
    } else if same_text(name, "bitfield") {
        Tag::Bitfield
    } else if same_text(name, "enumeration") {
        Tag::Enumeration
    } else if same_text(name, "function") {
        Tag::Function
    } else if same_text(name, "constant") {
        Tag::Constant
    } else if same_text(name, "alias") {
        Tag::Alias
    } else if same_text(name, "boxed") {
        Tag::Boxed
    } else if same_text(name, "function-macro") {
        Tag::FunctionMacro
    } else if same_text(name, "docsection") {
        Tag::DocSection
    } else if same_text(name, "constructor") {
        Tag::Constructor
    } else if same_text(name, "method") {
        Tag::Method
    } else if same_text(name, "virtual-method") {
        Tag::VirtualMethod
    } else if same_text(name, "field") {
        Tag::Field
    } else if same_text(name, "property") {
        Tag::Property
    } else if same_text(name, "signal") {
        Tag::Signal
    } else if same_text(name, "implements") {
        Tag::Implements
    } else if same_text(name, "prerequisite") {
        Tag::Prerequisite
    } else if same_text(name, "parameters") {
        Tag::Parameters
    } else if same_text(name, "parameter") {
        Tag::Parameter
    } else if same_text(name, "instance-parameter") {
        Tag::InstanceParameter
    } else if same_text(name, "return-value") {
        Tag::ReturnValue
    } else if same_text(name, "type") {
        Tag::Type
    } else if same_text(name, "array") {
        Tag::Array
    } else if same_text(name, "varargs") {
        Tag::VarArgs
    } else if same_text(name, "doc") {
        Tag::Doc
    } else if same_text(name, "doc-stability") {
        Tag::DocStability
    } else if same_text(name, "doc-deprecated") {
        Tag::DocDeprecated
    } else if same_text(name, "doc-version") {
        Tag::DocVersion
    } else if same_text(name, "source-position") {
        Tag::SourcePosition
    } else if same_text(name, "member") {
        Tag::Member
    } else {
        Tag::Other
    }
}

} // verus!
