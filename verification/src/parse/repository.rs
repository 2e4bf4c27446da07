//! Namespaces, the repository, and the decoding of a whole document.

use crate::items::{append_items, no_items, push_item};
use crate::library::{
    Alias, Bitfield, Boxed, CInclude, CIncludeView, Class, Constant, Enumeration, Function,
    FunctionType, Include, IncludeView, Interface, Namespace, NamespaceView, Package, PackageView,
    Record, Repository, RepositoryView, Union, Version,
};
use crate::parse::attr::{attr_required, attr_value, attribute, unknown_element};
use crate::parse::callable::{functions_in, read_function};
use crate::parse::children::{children_fault, lemma_child_step, lemma_children_done, Scope};
use crate::parse::composite::{
    classes_in, interfaces_in, read_interface, read_union, records_in, unions_in,
};
use crate::parse::error::{checked, first, outcome, DecodeError, DecodeErrorView};
use crate::parse::members::{
    aliases_in, bitfields_in, boxed_in, constants_in, enumerations_in, read_alias, read_bitfield,
    read_boxed, read_constant, read_enumeration,
};
use crate::parse::tag::{classify, Tag};
use crate::text::same_text;
use crate::xml::{document_root, read_document, Node, NodeView, XmlElement, XmlElementView};
use vstd::prelude::*;

verus! {

/// The namespaces among `nodes`.
pub open spec fn namespaces_in(nodes: Seq<NodeView>) -> Seq<NamespaceView>
    decreases nodes, 0int,
{
    if nodes.len() == 0 {
        Seq::empty()
    } else {
        let before = namespaces_in(nodes.drop_last());
        match nodes.last() {
            NodeView::Element(c) => if c.tag() == Tag::Namespace {
                before.push(namespace_value(c))
            } else {
                before
            },
            _ => before,
        }
    }
}

/// The namespaces that a document depends on, among `nodes`.
pub open spec fn includes_in(nodes: Seq<NodeView>) -> Seq<IncludeView>
    decreases nodes, 0int,
{
    if nodes.len() == 0 {
        Seq::empty()
    } else {
        let before = includes_in(nodes.drop_last());
        match nodes.last() {
            NodeView::Element(c) => if c.tag() == Tag::Include {
                before.push(include_value(c))
            } else {
                before
            },
            _ => before,
        }
    }
}

/// The C headers that a document names, among `nodes`.
pub open spec fn cincludes_in(nodes: Seq<NodeView>) -> Seq<CIncludeView>
    decreases nodes, 0int,
{
    if nodes.len() == 0 {
        Seq::empty()
    } else {
        let before = cincludes_in(nodes.drop_last());
        match nodes.last() {
            NodeView::Element(c) => if c.tag() == Tag::CInclude {
                before.push(cinclude_value(c))
            } else {
                before
            },
            _ => before,
        }
    }
}

/// The packages that a document names, among `nodes`.
pub open spec fn packages_in(nodes: Seq<NodeView>) -> Seq<PackageView>
    decreases nodes, 0int,
{
    if nodes.len() == 0 {
        Seq::empty()
    } else {
        let before = packages_in(nodes.drop_last());
        match nodes.last() {
            NodeView::Element(c) => if c.tag() == Tag::Package {
                before.push(package_value(c))
            } else {
                before
            },
            _ => before,
        }
    }
}

/// The first fault of a `namespace` element.
pub open spec fn namespace_fault(e: XmlElementView) -> Option<DecodeErrorView>
    decreases e, 1int,
{
    children_fault(Scope::Namespace, e.name, e.children)
}

/// What a `namespace` element decodes to. Macros are passed over: the list
/// of them stays empty.
pub open spec fn namespace_value(e: XmlElementView) -> NamespaceView {
    NamespaceView {
        name: e.attr("name"@),
        version: e.attr("version"@),
        shared_library: e.attr("shared-library"@),
        identifier_prefixes: e.attr("identifier-prefixes"@),
        symbol_prefixes: e.attr("symbol-prefixes"@),
        prefix: e.attr("prefix"@),
        classes: classes_in(e.children),
        functions: functions_in(e.children, Tag::Function, FunctionType::Function),
        macros: Seq::empty(),
        callback: functions_in(e.children, Tag::Callback, FunctionType::Callback),
        interfaces: interfaces_in(e.children),
        enums: enumerations_in(e.children),
        record: records_in(e.children),
        constant: constants_in(e.children),
        bitfield: bitfields_in(e.children),
        alias: aliases_in(e.children),
        unions: unions_in(e.children),
        boxed: boxed_in(e.children),
    }
}

/// The fault of an `include` element without a name.
pub open spec fn include_fault(e: XmlElementView) -> Option<DecodeErrorView> {
    e.missing("name"@)
}

/// What an `include` element decodes to.
pub open spec fn include_value(e: XmlElementView) -> IncludeView {
    IncludeView { name: e.text_attr("name"@), version: e.attr("version"@) }
}

/// The fault of a `cinclude` element without a name.
pub open spec fn cinclude_fault(e: XmlElementView) -> Option<DecodeErrorView> {
    e.missing("name"@)
}

/// What a `cinclude` element decodes to.
pub open spec fn cinclude_value(e: XmlElementView) -> CIncludeView {
    CIncludeView { name: e.text_attr("name"@) }
}

/// The fault of a `package` element without a name.
pub open spec fn package_fault(e: XmlElementView) -> Option<DecodeErrorView> {
    e.missing("name"@)
}

/// What a `package` element decodes to.
pub open spec fn package_value(e: XmlElementView) -> PackageView {
    PackageView { name: e.text_attr("name"@) }
}

/// The fault of a root element that is no `repository`.
pub open spec fn root_fault(e: XmlElementView) -> Option<DecodeErrorView> {
    if e.tag() == Tag::Repository {
        None
    } else {
        Some(DecodeErrorView::UnknownElement { parent: ""@, element: e.name })
    }
}

/// The first fault of the root element of a document.
pub open spec fn repository_fault(e: XmlElementView) -> Option<DecodeErrorView>
    decreases e, 1int,
{
    first(root_fault(e), children_fault(Scope::Repository, e.name, e.children))
}

/// What the root element of a document decodes to.
pub open spec fn repository_value(e: XmlElementView) -> RepositoryView {
    RepositoryView {
        version: e.value::<Version>("version"@),
        xmlns: e.attr("xmlns"@),
        identifier_prefixes: e.attr("identifier-prefixes"@),
        symbol_prefixes: e.attr("symbol-prefixes"@),
        includes: includes_in(e.children),
        cinclude: cincludes_in(e.children),
        package: packages_in(e.children),
        namespace: namespaces_in(e.children),
    }
}

/// What decoding the root element `e` gives.
pub open spec fn decoded(e: XmlElementView) -> Result<RepositoryView, DecodeErrorView> {
    checked(repository_fault(e), repository_value(e))
}

/// Decodes a `namespace` element. Macros and documentation sections are
/// passed over, and so is any element that the decoder does not know.
#[verifier::loop_isolation(false)]
pub fn read_namespace(e: &XmlElement) -> (namespace: Result<Namespace, DecodeError>)
    ensures
        outcome(namespace) == checked(namespace_fault(e@), namespace_value(e@)),
{
    let ghost all = e@.children;
    let ghost owner = e@.name;
    proof {
        reveal_with_fuel(children_fault, 2);
    }
    let mut classes: Vec<Class> = no_items();
    let mut functions: Vec<Function> = no_items();
    let mut callback: Vec<Function> = no_items();
    let mut interfaces: Vec<Interface> = no_items();
    let mut enums: Vec<Enumeration> = no_items();
    let mut record: Vec<Record> = no_items();
    let mut constant: Vec<Constant> = no_items();
    let mut bitfield: Vec<Bitfield> = no_items();
    let mut alias: Vec<Alias> = no_items();
    let mut unions: Vec<Union> = no_items();
    let mut boxed: Vec<Boxed> = no_items();
    let mut i: usize = 0;
    while i < e.children.len()
        invariant
            i <= e.children.len(),
            children_fault(Scope::Namespace, owner, all.take(i as int)) is None,
            classes.deep_view() == classes_in(all.take(i as int)),
            functions.deep_view() == functions_in(
                all.take(i as int),
                Tag::Function,
                FunctionType::Function,
            ),
            callback.deep_view() == functions_in(
                all.take(i as int),
                Tag::Callback,
                FunctionType::Callback,
            ),
            interfaces.deep_view() == interfaces_in(all.take(i as int)),
            enums.deep_view() == enumerations_in(all.take(i as int)),
            record.deep_view() == records_in(all.take(i as int)),
            constant.deep_view() == constants_in(all.take(i as int)),
            bitfield.deep_view() == bitfields_in(all.take(i as int)),
            alias.deep_view() == aliases_in(all.take(i as int)),
            unions.deep_view() == unions_in(all.take(i as int)),
            boxed.deep_view() == boxed_in(all.take(i as int)),
        decreases e.children.len() - i,
    {
        proof {
            lemma_child_step(Scope::Namespace, e, i as int);
        }
        match &e.children[i] {
            Node::Element(c) => {
                let tag = classify(c.name.as_str());
                match tag {
                    Tag::Class => push_item(&mut classes, Class::read(c)?),
                    Tag::Function => push_item(
                        &mut functions,
                        read_function(c, FunctionType::Function)?,
                    ),
                    Tag::Callback => push_item(
                        &mut callback,
                        read_function(c, FunctionType::Callback)?,
                    ),
                    Tag::Enumeration => push_item(&mut enums, read_enumeration(c)?),
                    Tag::Record => push_item(&mut record, Record::read(c)?),
                    Tag::Constant => push_item(&mut constant, read_constant(c)?),
                    Tag::Bitfield => push_item(&mut bitfield, read_bitfield(c)?),
                    Tag::Union => push_item(&mut unions, read_union(c)?),
                    Tag::Alias => push_item(&mut alias, read_alias(c)?),
                    Tag::Interface => push_item(&mut interfaces, read_interface(c)?),
                    Tag::Boxed => push_item(&mut boxed, read_boxed(c)?),
                    Tag::FunctionMacro | Tag::DocSection => {},
                    _ => {},
                }
            },
            _ => {},
        }
        i += 1;
    }
    proof {
        lemma_children_done(e);
    }
    Ok(
        Namespace {
            name: attribute(e, "name"),
            version: attribute(e, "version"),
            shared_library: attribute(e, "shared-library"),
            identifier_prefixes: attribute(e, "identifier-prefixes"),
            symbol_prefixes: attribute(e, "symbol-prefixes"),
            prefix: attribute(e, "prefix"),
            classes,
            functions,
            macros: no_items(),
            callback,
            interfaces,
            enums,
            record,
            constant,
            bitfield,
            alias,
            unions,
            boxed,
        },
    )
}

/// Decodes an `include` element: a namespace that the document depends on.
pub fn read_include(e: &XmlElement) -> (decoded: Result<Include, DecodeError>)
    ensures
        outcome(decoded) == checked(include_fault(e@), include_value(e@)),
{
    let name = attr_required(e, "name")?;
    Ok(Include { name, version: attribute(e, "version") })
}

/// Decodes a `cinclude` element: a C header that the document names.
pub fn read_cinclude(e: &XmlElement) -> (cinclude: Result<CInclude, DecodeError>)
    ensures
        outcome(cinclude) == checked(cinclude_fault(e@), cinclude_value(e@)),
{
    let name = attr_required(e, "name")?;
    Ok(CInclude { name })
}

/// Decodes a `package` element: a package that the document names.
pub fn read_package(e: &XmlElement) -> (package: Result<Package, DecodeError>)
    ensures
        outcome(package) == checked(package_fault(e@), package_value(e@)),
{
    let name = attr_required(e, "name")?;
    Ok(Package { name })
}

/// Decodes the root element of a document. Directly below it stand
/// includes, packages, namespaces and attributes; anything else is a fault.
#[verifier::loop_isolation(false)]
pub fn read_repository(e: &XmlElement) -> (repository: Result<Repository, DecodeError>)
    ensures
        outcome(repository) == decoded(e@),
{
    let ghost all = e@.children;
    let ghost owner = e@.name;
    proof {
        reveal_with_fuel(children_fault, 2);
    }
    if classify(e.name.as_str()) != Tag::Repository {
        return Err(unknown_element("", e.name.as_str()));
    }
    let version = match attr_value::<Version>(e, "version") {
        Ok(version) => version,
        Err(_) => None,
    };
    let mut includes: Vec<Include> = no_items();
    let mut cinclude: Vec<CInclude> = no_items();
    let mut package: Vec<Package> = no_items();
    let mut namespace: Vec<Namespace> = no_items();
    let mut i: usize = 0;
    while i < e.children.len()
        invariant
            i <= e.children.len(),
            children_fault(Scope::Repository, owner, all.take(i as int)) is None,
            includes.deep_view() == includes_in(all.take(i as int)),
            cinclude.deep_view() == cincludes_in(all.take(i as int)),
            package.deep_view() == packages_in(all.take(i as int)),
            namespace.deep_view() == namespaces_in(all.take(i as int)),
        decreases e.children.len() - i,
    {
        proof {
            lemma_child_step(Scope::Repository, e, i as int);
        }
        match &e.children[i] {
            Node::Element(c) => {
                let tag = classify(c.name.as_str());
                match tag {
                    Tag::Include => push_item(&mut includes, read_include(c)?),
                    Tag::CInclude => push_item(&mut cinclude, read_cinclude(c)?),
                    Tag::Package => push_item(&mut package, read_package(c)?),
                    Tag::Namespace => push_item(&mut namespace, read_namespace(c)?),
                    Tag::Attribute => {},
                    _ => {
                        return Err(unknown_element(e.name.as_str(), c.name.as_str()));
                    },
                }
            },
            _ => {},
        }
        i += 1;
    }
    proof {
        lemma_children_done(e);
    }
    Ok(
        Repository {
            version,
            xmlns: attribute(e, "xmlns"),
            identifier_prefixes: attribute(e, "identifier-prefixes"),
            symbol_prefixes: attribute(e, "symbol-prefixes"),
            includes,
            cinclude,
            package,
            namespace,
        },
    )
}

/// What decoding the bytes of a document gives: the reader's fault where it
/// builds no tree, else what the root element decodes to.
pub open spec fn parsed(bytes: Seq<u8>) -> Result<RepositoryView, DecodeErrorView> {
    match document_root(bytes) {
        Some(root) => decoded(root),
        None => Err(DecodeErrorView::Xml),
    }
}

/// Decodes the bytes of a document.
pub fn parse_gir(bytes: &[u8]) -> (repository: Result<Repository, DecodeError>)
    ensures
        outcome(repository) == parsed(bytes@),
{
    match read_document(bytes) {
        Ok(root) => read_repository(&root),
        Err(error) => Err(DecodeError::Xml(error)),
    }
}

/// Whether `c_type` is the text that stands for a C type that is not known.
pub fn is_empty_c_type(c_type: &str) -> (empty: bool)
    ensures
        empty == (c_type@ == "/*EMPTY*/"@),
{
    same_text(c_type, "/*EMPTY*/")
}

impl Repository {
    /// A repository that holds nothing.
    pub fn new() -> (repository: Repository)
        ensures
            repository.deep_view() == RepositoryView::empty(),
    {
        Repository {
            version: None,
            xmlns: None,
            identifier_prefixes: None,
            symbol_prefixes: None,
            includes: no_items(),
            cinclude: no_items(),
            package: no_items(),
            namespace: no_items(),
        }
    }

    /// Decodes the document that `bytes` holds and adds what it declares to
    /// this repository: its includes, packages and namespaces, each after
    /// those that are there. On a fault the repository stays as it is.
    pub fn read_file(&mut self, bytes: &[u8]) -> (read: Result<(), DecodeError>)
        ensures
            match parsed(bytes@) {
                Ok(more) => {
                    &&& read is Ok
                    &&& final(self).deep_view() == old(self).deep_view().with(more)
                },
                Err(error) => {
                    &&& read matches Err(fault)
                    &&& fault.deep_view() == error
                    &&& final(self).deep_view() == old(self).deep_view()
                },
            },
    {
        let more = parse_gir(bytes)?;
        append_items(&mut self.includes, more.includes);
        append_items(&mut self.cinclude, more.cinclude);
        append_items(&mut self.package, more.package);
        append_items(&mut self.namespace, more.namespace);
        Ok(())
    }
}

impl RepositoryView {
    /// A repository that holds nothing.
    pub open spec fn empty() -> RepositoryView {
        RepositoryView {
            version: None,
            xmlns: None,
            identifier_prefixes: None,
            symbol_prefixes: None,
            includes: Seq::empty(),
            cinclude: Seq::empty(),
            package: Seq::empty(),
            namespace: Seq::empty(),
        }
    }

    /// This repository with what `more` declares after what it holds.
    pub open spec fn with(self, more: RepositoryView) -> RepositoryView {
        RepositoryView {
            includes: self.includes + more.includes,
            cinclude: self.cinclude + more.cinclude,
            package: self.package + more.package,
            namespace: self.namespace + more.namespace,
            ..self
        }
    }
}

} // verus!
