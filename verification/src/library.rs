//! The typed description of a library that decoding produces.
//!
//! Every value here is a finished tree: a namespace owns its classes, a class
//! owns its functions, and nothing is shared. Names that refer to other
//! declarations (`parent`, `implements`, type names) are kept as written.
//!
//! Each type has a ghost twin, its deep view, in which strings are sequences
//! of characters and vectors are sequences. Contracts speak of the views.

use vstd::prelude::*;

verus! {

/// A version number of up to three parts.
#[derive(Clone, Copy, Debug, PartialEq, Eq, Structural)]
pub struct Version(pub u16, pub u16, pub u16);

impl DeepView for Version {
    type V = Version;

    open spec fn deep_view(&self) -> Version {
        *self
    }
}

/// The kind of declaration that a `Function` came from.
#[derive(Clone, Copy, Debug, PartialEq, Eq, Structural)]
pub enum FunctionType {
    Function,
    Callback,
    Constructor,
    Method,
    Virtual,
    Member,
}

impl DeepView for FunctionType {
    type V = FunctionType;

    open spec fn deep_view(&self) -> FunctionType {
        *self
    }
}

/// The direction of a parameter. A parameter without a direction is `In`; a
/// return value is `Return`.
#[derive(Clone, Copy, Debug, PartialEq, Eq, Structural)]
pub enum ParameterDirection {
    Unspecified,
    In,
    Out,
    InOut,
    Return,
}

impl DeepView for ParameterDirection {
    type V = ParameterDirection;

    open spec fn deep_view(&self) -> ParameterDirection {
        *self
    }
}

/// Who owns a value after the call: `Nothing` is handed over, the container
/// alone, or the container with what it holds.
#[derive(Clone, Copy, Debug, PartialEq, Eq, Structural)]
pub enum Transfer {
    Nothing,
    Container,
    Full,
}

impl DeepView for Transfer {
    type V = Transfer;

    open spec fn deep_view(&self) -> Transfer {
        *self
    }
}

/// How long a callback parameter stays in use.
#[derive(Clone, Copy, Debug, PartialEq, Eq, Structural)]
pub enum ParameterScope {
    Unspecified,
    Call,
    Async,
    Notified,
}

impl DeepView for ParameterScope {
    type V = ParameterScope;

    open spec fn deep_view(&self) -> ParameterScope {
        *self
    }
}

/// What stands in a type position: a named type, a C array or the marker of
/// a variable argument list.
#[derive(Debug)]
pub enum AnyType {
    Array(Array),
    Type(Type),
    VarArg,
}

/// The view of `AnyType`.
pub ghost enum AnyTypeView {
    Array(ArrayView),
    Type(TypeView),
    VarArg,
}

/// The view of a type, by recursion on the type.
pub open spec fn anytype_view(typ: AnyType) -> AnyTypeView
    decreases typ,
{
    match typ {
        AnyType::Array(a) => AnyTypeView::Array(array_view(a)),
        AnyType::Type(t) => AnyTypeView::Type(type_view(t)),
        AnyType::VarArg => AnyTypeView::VarArg,
    }
}

/// The view of an array type.
pub open spec fn array_view(array: Array) -> ArrayView
    decreases array,
{
    ArrayView {
        name: array.name.deep_view(),
        zero_terminated: array.zero_terminated,
        fixed_size: array.fixed_size,
        introspectable: array.introspectable,
        length: array.length,
        ctype: array.ctype.deep_view(),
        typ: Box::new(anytype_view(*array.typ)),
    }
}

/// The view of a named type.
pub open spec fn type_view(typ: Type) -> TypeView
    decreases typ,
{
    TypeView {
        name: typ.name.deep_view(),
        ctype: typ.ctype.deep_view(),
        introspectable: typ.introspectable,
        doc: typ.doc.deep_view(),
        children: Seq::new(
            typ.children@.len(),
            |i: int|
                if 0 <= i < typ.children@.len() {
                    anytype_view(typ.children@[i])
                } else {
                    arbitrary()
                },
        ),
    }
}

impl DeepView for AnyType {
    type V = AnyTypeView;

    open spec fn deep_view(&self) -> AnyTypeView {
        anytype_view(*self)
    }
}

/// The root of a decoded document: its namespaces and what it declares
/// about includes and packages.
#[derive(Debug)]
pub struct Repository {
    pub version: Option<Version>,
    pub xmlns: Option<String>,
    pub identifier_prefixes: Option<String>,
    pub symbol_prefixes: Option<String>,
    pub includes: Vec<Include>,
    pub cinclude: Vec<CInclude>,
    pub package: Vec<Package>,
    pub namespace: Vec<Namespace>,
}

/// The view of `Repository`.
pub ghost struct RepositoryView {
    pub version: Option<Version>,
    pub xmlns: Option<Seq<char>>,
    pub identifier_prefixes: Option<Seq<char>>,
    pub symbol_prefixes: Option<Seq<char>>,
    pub includes: Seq<IncludeView>,
    pub cinclude: Seq<CIncludeView>,
    pub package: Seq<PackageView>,
    pub namespace: Seq<NamespaceView>,
}

impl DeepView for Repository {
    type V = RepositoryView;

    open spec fn deep_view(&self) -> RepositoryView {
        RepositoryView {
            version: self.version,
            xmlns: self.xmlns.deep_view(),
            identifier_prefixes: self.identifier_prefixes.deep_view(),
            symbol_prefixes: self.symbol_prefixes.deep_view(),
            includes: self.includes.deep_view(),
            cinclude: self.cinclude.deep_view(),
            package: self.package.deep_view(),
            namespace: self.namespace.deep_view(),
        }
    }
}

/// A namespace that the document depends on.
#[derive(Debug)]
pub struct Include {
    pub name: String,
    pub version: Option<String>,
}

/// The view of `Include`.
pub ghost struct IncludeView {
    pub name: Seq<char>,
    pub version: Option<Seq<char>>,
}

impl DeepView for Include {
    type V = IncludeView;

    open spec fn deep_view(&self) -> IncludeView {
        IncludeView {
            name: self.name@,
            version: self.version.deep_view(),
        }
    }
}

/// A C header that the document names.
#[derive(Debug)]
pub struct CInclude {
    pub name: String,
}

/// The view of `CInclude`.
pub ghost struct CIncludeView {
    pub name: Seq<char>,
}

impl DeepView for CInclude {
    type V = CIncludeView;

    open spec fn deep_view(&self) -> CIncludeView {
        CIncludeView {
            name: self.name@,
        }
    }
}

/// A pkg-config package that the document names.
#[derive(Debug)]
pub struct Package {
    pub name: String,
}

/// The view of `Package`.
pub ghost struct PackageView {
    pub name: Seq<char>,
}

impl DeepView for Package {
    type V = PackageView;

    open spec fn deep_view(&self) -> PackageView {
        PackageView {
            name: self.name@,
        }
    }
}

/// One version of a library: its prefixes and every top-level declaration,
/// each kind in document order.
#[derive(Debug)]
pub struct Namespace {
    pub name: Option<String>,
    pub version: Option<String>,
    pub shared_library: Option<String>,
    pub identifier_prefixes: Option<String>,
    pub symbol_prefixes: Option<String>,
    pub prefix: Option<String>,
    pub classes: Vec<Class>,
    pub functions: Vec<Function>,
    pub macros: Vec<Macro>,
    pub callback: Vec<Function>,
    pub interfaces: Vec<Interface>,
    pub enums: Vec<Enumeration>,
    pub record: Vec<Record>,
    pub constant: Vec<Constant>,
    pub bitfield: Vec<Bitfield>,
    pub alias: Vec<Alias>,
    pub unions: Vec<Union>,
    pub boxed: Vec<Boxed>,
}

/// The view of `Namespace`.
pub ghost struct NamespaceView {
    pub name: Option<Seq<char>>,
    pub version: Option<Seq<char>>,
    pub shared_library: Option<Seq<char>>,
    pub identifier_prefixes: Option<Seq<char>>,
    pub symbol_prefixes: Option<Seq<char>>,
    pub prefix: Option<Seq<char>>,
    pub classes: Seq<ClassView>,
    pub functions: Seq<FunctionView>,
    pub macros: Seq<MacroView>,
    pub callback: Seq<FunctionView>,
    pub interfaces: Seq<InterfaceView>,
    pub enums: Seq<EnumerationView>,
    pub record: Seq<RecordView>,
    pub constant: Seq<ConstantView>,
    pub bitfield: Seq<BitfieldView>,
    pub alias: Seq<AliasView>,
    pub unions: Seq<UnionView>,
    pub boxed: Seq<BoxedView>,
}

impl DeepView for Namespace {
    type V = NamespaceView;

    open spec fn deep_view(&self) -> NamespaceView {
        NamespaceView {
            name: self.name.deep_view(),
            version: self.version.deep_view(),
            shared_library: self.shared_library.deep_view(),
            identifier_prefixes: self.identifier_prefixes.deep_view(),
            symbol_prefixes: self.symbol_prefixes.deep_view(),
            prefix: self.prefix.deep_view(),
            classes: self.classes.deep_view(),
            functions: self.functions.deep_view(),
            macros: self.macros.deep_view(),
            callback: self.callback.deep_view(),
            interfaces: self.interfaces.deep_view(),
            enums: self.enums.deep_view(),
            record: self.record.deep_view(),
            constant: self.constant.deep_view(),
            bitfield: self.bitfield.deep_view(),
            alias: self.alias.deep_view(),
            unions: self.unions.deep_view(),
            boxed: self.boxed.deep_view(),
        }
    }
}

/// The attributes that nearly every declaration carries.
#[derive(Debug)]
pub struct InfoAttrs {
    pub introspectable: bool,
    pub deprecated: Option<bool>,
    pub deprecated_version: Option<String>,
    pub version: Option<String>,
    pub stability: Option<String>,
}

/// The view of `InfoAttrs`.
pub ghost struct InfoAttrsView {
    pub introspectable: bool,
    pub deprecated: Option<bool>,
    pub deprecated_version: Option<Seq<char>>,
    pub version: Option<Seq<char>>,
    pub stability: Option<Seq<char>>,
}

impl DeepView for InfoAttrs {
    type V = InfoAttrsView;

    open spec fn deep_view(&self) -> InfoAttrsView {
        InfoAttrsView {
            introspectable: self.introspectable,
            deprecated: self.deprecated,
            deprecated_version: self.deprecated_version.deep_view(),
            version: self.version.deep_view(),
            stability: self.stability.deep_view(),
        }
    }
}

/// The documentation below a declaration.
#[derive(Debug)]
pub struct InfoElements {
    pub doc: Option<Doc>,
    pub doc_stability: Option<DocVersioned>,
    pub doc_version: Option<DocVersioned>,
    pub doc_deprecated: Option<DocVersioned>,
    pub doc_pos: Option<DocPosition>,
}

/// The view of `InfoElements`.
pub ghost struct InfoElementsView {
    pub doc: Option<DocView>,
    pub doc_stability: Option<DocVersionedView>,
    pub doc_version: Option<DocVersionedView>,
    pub doc_deprecated: Option<DocVersionedView>,
    pub doc_pos: Option<DocPositionView>,
}

impl DeepView for InfoElements {
    type V = InfoElementsView;

    open spec fn deep_view(&self) -> InfoElementsView {
        InfoElementsView {
            doc: self.doc.deep_view(),
            doc_stability: self.doc_stability.deep_view(),
            doc_version: self.doc_version.deep_view(),
            doc_deprecated: self.doc_deprecated.deep_view(),
            doc_pos: self.doc_pos.deep_view(),
        }
    }
}

/// The main documentation text and where it was written.
#[derive(Debug)]
pub struct Doc {
    pub preserve_space: Option<String>,
    pub preserve_white: Option<String>,
    pub filename: String,
    pub line: String,
    pub column: Option<String>,
    pub content: String,
}

/// The view of `Doc`.
pub ghost struct DocView {
    pub preserve_space: Option<Seq<char>>,
    pub preserve_white: Option<Seq<char>>,
    pub filename: Seq<char>,
    pub line: Seq<char>,
    pub column: Option<Seq<char>>,
    pub content: Seq<char>,
}

impl DeepView for Doc {
    type V = DocView;

    open spec fn deep_view(&self) -> DocView {
        DocView {
            preserve_space: self.preserve_space.deep_view(),
            preserve_white: self.preserve_white.deep_view(),
            filename: self.filename@,
            line: self.line@,
            column: self.column.deep_view(),
            content: self.content@,
        }
    }
}

/// A documentation text about stability, version or deprecation.
#[derive(Debug)]
pub struct DocVersioned {
    pub preserve_space: Option<String>,
    pub preserve_white: Option<String>,
    pub content: String,
}

/// The view of `DocVersioned`.
pub ghost struct DocVersionedView {
    pub preserve_space: Option<Seq<char>>,
    pub preserve_white: Option<Seq<char>>,
    pub content: Seq<char>,
}

impl DeepView for DocVersioned {
    type V = DocVersionedView;

    open spec fn deep_view(&self) -> DocVersionedView {
        DocVersionedView {
            preserve_space: self.preserve_space.deep_view(),
            preserve_white: self.preserve_white.deep_view(),
            content: self.content@,
        }
    }
}

/// The source position of a declaration.
#[derive(Debug)]
pub struct DocPosition {
    pub filename: String,
    pub line: String,
    pub column: Option<String>,
}

/// The view of `DocPosition`.
pub ghost struct DocPositionView {
    pub filename: Seq<char>,
    pub line: Seq<char>,
    pub column: Option<Seq<char>>,
}

impl DeepView for DocPosition {
    type V = DocPositionView;

    open spec fn deep_view(&self) -> DocPositionView {
        DocPositionView {
            filename: self.filename@,
            line: self.line@,
            column: self.column.deep_view(),
        }
    }
}

/// An object type. `parent` and `implements` are names as written, not
/// resolved. `ref_func` and `unref_func` are set for fundamental types only.
#[derive(Debug)]
pub struct Class {
    pub info: InfoAttrs,
    pub doc: InfoElements,
    pub name: String,
    pub glib_type_name: String,
    pub glib_get_type: String,
    pub parent: Option<String>,
    pub glib_type_struct: Option<String>,
    pub ref_func: Option<String>,
    pub unref_func: Option<String>,
    pub set_value_func: Option<String>,
    pub get_value_func: Option<String>,
    pub ctype: Option<String>,
    pub symbol_prefix: Option<String>,
    pub abstracts: bool,
    pub glib_fundamental: bool,
    pub finals: bool,
    pub constructor: Vec<Function>,
    pub functions: Vec<Function>,
    pub method: Vec<Function>,
    pub virtual_method: Vec<Function>,
    pub callbacks: Vec<Function>,
    pub record: Vec<Record>,
    pub fields: Vec<Field>,
    pub signals: Vec<Signal>,
    pub unions: Vec<Union>,
    pub constant: Vec<Constant>,
    pub properties: Vec<Property>,
    pub implements: Vec<Implement>,
}

/// The view of `Class`.
pub ghost struct ClassView {
    pub info: InfoAttrsView,
    pub doc: InfoElementsView,
    pub name: Seq<char>,
    pub glib_type_name: Seq<char>,
    pub glib_get_type: Seq<char>,
    pub parent: Option<Seq<char>>,
    pub glib_type_struct: Option<Seq<char>>,
    pub ref_func: Option<Seq<char>>,
    pub unref_func: Option<Seq<char>>,
    pub set_value_func: Option<Seq<char>>,
    pub get_value_func: Option<Seq<char>>,
    pub ctype: Option<Seq<char>>,
    pub symbol_prefix: Option<Seq<char>>,
    pub abstracts: bool,
    pub glib_fundamental: bool,
    pub finals: bool,
    pub constructor: Seq<FunctionView>,
    pub functions: Seq<FunctionView>,
    pub method: Seq<FunctionView>,
    pub virtual_method: Seq<FunctionView>,
    pub callbacks: Seq<FunctionView>,
    pub record: Seq<RecordView>,
    pub fields: Seq<FieldView>,
    pub signals: Seq<SignalView>,
    pub unions: Seq<UnionView>,
    pub constant: Seq<ConstantView>,
    pub properties: Seq<PropertyView>,
    pub implements: Seq<ImplementView>,
}

impl DeepView for Class {
    type V = ClassView;

    open spec fn deep_view(&self) -> ClassView {
        ClassView {
            info: self.info.deep_view(),
            doc: self.doc.deep_view(),
            name: self.name@,
            glib_type_name: self.glib_type_name@,
            glib_get_type: self.glib_get_type@,
            parent: self.parent.deep_view(),
            glib_type_struct: self.glib_type_struct.deep_view(),
            ref_func: self.ref_func.deep_view(),
            unref_func: self.unref_func.deep_view(),
            set_value_func: self.set_value_func.deep_view(),
            get_value_func: self.get_value_func.deep_view(),
            ctype: self.ctype.deep_view(),
            symbol_prefix: self.symbol_prefix.deep_view(),
            abstracts: self.abstracts,
            glib_fundamental: self.glib_fundamental,
            finals: self.finals,
            constructor: self.constructor.deep_view(),
            functions: self.functions.deep_view(),
            method: self.method.deep_view(),
            virtual_method: self.virtual_method.deep_view(),
            callbacks: self.callbacks.deep_view(),
            record: self.record.deep_view(),
            fields: self.fields.deep_view(),
            signals: self.signals.deep_view(),
            unions: self.unions.deep_view(),
            constant: self.constant.deep_view(),
            properties: self.properties.deep_view(),
            implements: self.implements.deep_view(),
        }
    }
}

/// A struct type. A disguised record is a pointer behind a typedef: its
/// fields are decoded, and a generator should not show them.
#[derive(Debug)]
pub struct Record {
    pub name: String,
    pub info: InfoAttrs,
    pub doc: InfoElements,
    pub c_type: String,
    pub disguised: bool,
    pub symbol_prefix: Option<String>,
    pub glib_get_type: Option<String>,
    pub glib_type_name: Option<String>,
    pub glib_is_gtype_struct_for: Option<String>,
    pub foreign: Option<bool>,
    pub fields: Vec<Field>,
    pub unions: Vec<Union>,
    pub constructor: Vec<Function>,
    pub functions: Vec<Function>,
    pub method: Vec<Function>,
}

/// The view of `Record`.
pub ghost struct RecordView {
    pub name: Seq<char>,
    pub info: InfoAttrsView,
    pub doc: InfoElementsView,
    pub c_type: Seq<char>,
    pub disguised: bool,
    pub symbol_prefix: Option<Seq<char>>,
    pub glib_get_type: Option<Seq<char>>,
    pub glib_type_name: Option<Seq<char>>,
    pub glib_is_gtype_struct_for: Option<Seq<char>>,
    pub foreign: Option<bool>,
    pub fields: Seq<FieldView>,
    pub unions: Seq<UnionView>,
    pub constructor: Seq<FunctionView>,
    pub functions: Seq<FunctionView>,
    pub method: Seq<FunctionView>,
}

impl DeepView for Record {
    type V = RecordView;

    open spec fn deep_view(&self) -> RecordView
        decreases self,
    {
        RecordView {
            name: self.name@,
            info: self.info.deep_view(),
            doc: self.doc.deep_view(),
            c_type: self.c_type@,
            disguised: self.disguised,
            symbol_prefix: self.symbol_prefix.deep_view(),
            glib_get_type: self.glib_get_type.deep_view(),
            glib_type_name: self.glib_type_name.deep_view(),
            glib_is_gtype_struct_for: self.glib_is_gtype_struct_for.deep_view(),
            foreign: self.foreign,
            fields: self.fields.deep_view(),
            unions: Seq::new(
                self.unions@.len(),
                |i: int|
                    if 0 <= i < self.unions@.len() {
                        self.unions@[i].deep_view()
                    } else {
                        arbitrary()
                    },
            ),
            constructor: self.constructor.deep_view(),
            functions: self.functions.deep_view(),
            method: self.method.deep_view(),
        }
    }
}

/// An interface type, with the names of what it requires and implements.
#[derive(Debug)]
pub struct Interface {
    pub name: String,
    pub info: InfoAttrs,
    pub doc: InfoElements,
    pub glib_type_name: String,
    pub glib_get_type: String,
    pub symbol_prefix: String,
    pub c_type: Option<String>,
    pub glib_type_struct: Option<String>,
    pub constructor: Option<Function>,
    pub prerequisites: Vec<String>,
    pub implements: Vec<String>,
    pub functions: Vec<Function>,
    pub method: Vec<Function>,
    pub virtual_method: Vec<Function>,
    pub callbacks: Vec<Function>,
    pub fields: Vec<Field>,
    pub properties: Vec<Property>,
    pub signals: Vec<Signal>,
    pub constant: Vec<Constant>,
}

/// The view of `Interface`.
pub ghost struct InterfaceView {
    pub name: Seq<char>,
    pub info: InfoAttrsView,
    pub doc: InfoElementsView,
    pub glib_type_name: Seq<char>,
    pub glib_get_type: Seq<char>,
    pub symbol_prefix: Seq<char>,
    pub c_type: Option<Seq<char>>,
    pub glib_type_struct: Option<Seq<char>>,
    pub constructor: Option<FunctionView>,
    pub prerequisites: Seq<Seq<char>>,
    pub implements: Seq<Seq<char>>,
    pub functions: Seq<FunctionView>,
    pub method: Seq<FunctionView>,
    pub virtual_method: Seq<FunctionView>,
    pub callbacks: Seq<FunctionView>,
    pub fields: Seq<FieldView>,
    pub properties: Seq<PropertyView>,
    pub signals: Seq<SignalView>,
    pub constant: Seq<ConstantView>,
}

impl DeepView for Interface {
    type V = InterfaceView;

    open spec fn deep_view(&self) -> InterfaceView {
        InterfaceView {
            name: self.name@,
            info: self.info.deep_view(),
            doc: self.doc.deep_view(),
            glib_type_name: self.glib_type_name@,
            glib_get_type: self.glib_get_type@,
            symbol_prefix: self.symbol_prefix@,
            c_type: self.c_type.deep_view(),
            glib_type_struct: self.glib_type_struct.deep_view(),
            constructor: self.constructor.deep_view(),
            prerequisites: self.prerequisites.deep_view(),
            implements: self.implements.deep_view(),
            functions: self.functions.deep_view(),
            method: self.method.deep_view(),
            virtual_method: self.virtual_method.deep_view(),
            callbacks: self.callbacks.deep_view(),
            fields: self.fields.deep_view(),
            properties: self.properties.deep_view(),
            signals: self.signals.deep_view(),
            constant: self.constant.deep_view(),
        }
    }
}

/// A named constant with its value as written.
#[derive(Debug)]
pub struct Constant {
    pub info: InfoAttrs,
    pub doc: InfoElements,
    pub name: String,
    pub value: String,
    pub c_identifier: Option<String>,
    pub c_type: Option<String>,
    pub typ: AnyType,
}

/// The view of `Constant`.
pub ghost struct ConstantView {
    pub info: InfoAttrsView,
    pub doc: InfoElementsView,
    pub name: Seq<char>,
    pub value: Seq<char>,
    pub c_identifier: Option<Seq<char>>,
    pub c_type: Option<Seq<char>>,
    pub typ: AnyTypeView,
}

impl DeepView for Constant {
    type V = ConstantView;

    open spec fn deep_view(&self) -> ConstantView {
        ConstantView {
            info: self.info.deep_view(),
            doc: self.doc.deep_view(),
            name: self.name@,
            value: self.value@,
            c_identifier: self.c_identifier.deep_view(),
            c_type: self.c_type.deep_view(),
            typ: self.typ.deep_view(),
        }
    }
}

/// A flags type: its members and its functions.
#[derive(Debug)]
pub struct Bitfield {
    pub info: InfoAttrs,
    pub doc: InfoElements,
    pub name: String,
    pub c_type: String,
    pub glib_type_name: Option<String>,
    pub glib_get_type: Option<String>,
    pub members: Vec<Member>,
    pub functions: Vec<Function>,
}

/// The view of `Bitfield`.
pub ghost struct BitfieldView {
    pub info: InfoAttrsView,
    pub doc: InfoElementsView,
    pub name: Seq<char>,
    pub c_type: Seq<char>,
    pub glib_type_name: Option<Seq<char>>,
    pub glib_get_type: Option<Seq<char>>,
    pub members: Seq<MemberView>,
    pub functions: Seq<FunctionView>,
}

impl DeepView for Bitfield {
    type V = BitfieldView;

    open spec fn deep_view(&self) -> BitfieldView {
        BitfieldView {
            info: self.info.deep_view(),
            doc: self.doc.deep_view(),
            name: self.name@,
            c_type: self.c_type@,
            glib_type_name: self.glib_type_name.deep_view(),
            glib_get_type: self.glib_get_type.deep_view(),
            members: self.members.deep_view(),
            functions: self.functions.deep_view(),
        }
    }
}

/// An enumeration: its members and its functions.
#[derive(Debug)]
pub struct Enumeration {
    pub info: InfoAttrs,
    pub doc: InfoElements,
    pub name: String,
    pub c_type: String,
    pub glib_type_name: Option<String>,
    pub glib_get_type: Option<String>,
    pub glib_error_domain: Option<String>,
    pub members: Vec<Member>,
    pub functions: Vec<Function>,
}

/// The view of `Enumeration`.
pub ghost struct EnumerationView {
    pub info: InfoAttrsView,
    pub doc: InfoElementsView,
    pub name: Seq<char>,
    pub c_type: Seq<char>,
    pub glib_type_name: Option<Seq<char>>,
    pub glib_get_type: Option<Seq<char>>,
    pub glib_error_domain: Option<Seq<char>>,
    pub members: Seq<MemberView>,
    pub functions: Seq<FunctionView>,
}

impl DeepView for Enumeration {
    type V = EnumerationView;

    open spec fn deep_view(&self) -> EnumerationView {
        EnumerationView {
            info: self.info.deep_view(),
            doc: self.doc.deep_view(),
            name: self.name@,
            c_type: self.c_type@,
            glib_type_name: self.glib_type_name.deep_view(),
            glib_get_type: self.glib_get_type.deep_view(),
            glib_error_domain: self.glib_error_domain.deep_view(),
            members: self.members.deep_view(),
            functions: self.functions.deep_view(),
        }
    }
}

/// A function-like macro.
#[derive(Debug)]
pub struct Macro {
    pub info: InfoAttrs,
    pub doc: InfoElements,
    pub name: String,
    pub c_identifier: Option<String>,
    pub parameters: Vec<MacroParam>,
}

/// The view of `Macro`.
pub ghost struct MacroView {
    pub info: InfoAttrsView,
    pub doc: InfoElementsView,
    pub name: Seq<char>,
    pub c_identifier: Option<Seq<char>>,
    pub parameters: Seq<MacroParamView>,
}

impl DeepView for Macro {
    type V = MacroView;

    open spec fn deep_view(&self) -> MacroView {
        MacroView {
            info: self.info.deep_view(),
            doc: self.doc.deep_view(),
            name: self.name@,
            c_identifier: self.c_identifier.deep_view(),
            parameters: self.parameters.deep_view(),
        }
    }
}

/// Anything that can be called. `typ` says which kind it was declared as;
/// the shape is the same for all of them.
#[derive(Debug)]
pub struct Function {
    pub info: InfoAttrs,
    pub doc: InfoElements,
    pub typ: FunctionType,
    pub name: String,
    pub introspectable: bool,
    pub c_identifier: Option<String>,
    pub shadowed_by: Option<String>,
    pub shadows: Option<String>,
    pub throws: bool,
    pub moved_to: Option<String>,
    pub parameters: Vec<Parameter>,
    pub ret: Option<Parameter>,
}

/// The view of `Function`.
pub ghost struct FunctionView {
    pub info: InfoAttrsView,
    pub doc: InfoElementsView,
    pub typ: FunctionType,
    pub name: Seq<char>,
    pub introspectable: bool,
    pub c_identifier: Option<Seq<char>>,
    pub shadowed_by: Option<Seq<char>>,
    pub shadows: Option<Seq<char>>,
    pub throws: bool,
    pub moved_to: Option<Seq<char>>,
    pub parameters: Seq<ParameterView>,
    pub ret: Option<ParameterView>,
}

impl DeepView for Function {
    type V = FunctionView;

    open spec fn deep_view(&self) -> FunctionView {
        FunctionView {
            info: self.info.deep_view(),
            doc: self.doc.deep_view(),
            typ: self.typ,
            name: self.name@,
            introspectable: self.introspectable,
            c_identifier: self.c_identifier.deep_view(),
            shadowed_by: self.shadowed_by.deep_view(),
            shadows: self.shadows.deep_view(),
            throws: self.throws,
            moved_to: self.moved_to.deep_view(),
            parameters: self.parameters.deep_view(),
            ret: self.ret.deep_view(),
        }
    }
}

/// A union of fields. A union nested in a record may have no name.
#[derive(Debug)]
pub struct Union {
    pub name: Option<String>,
    pub info: InfoAttrs,
    pub doc: InfoElements,
    pub c_type: Option<String>,
    pub symbol_prefix: Option<String>,
    pub glib_type_name: Option<String>,
    pub glib_get_type: Option<String>,
    pub fields: Vec<Field>,
    pub constructor: Vec<Function>,
    pub method: Vec<Function>,
    pub functions: Vec<Function>,
    pub record: Vec<Record>,
}

/// The view of `Union`.
pub ghost struct UnionView {
    pub name: Option<Seq<char>>,
    pub info: InfoAttrsView,
    pub doc: InfoElementsView,
    pub c_type: Option<Seq<char>>,
    pub symbol_prefix: Option<Seq<char>>,
    pub glib_type_name: Option<Seq<char>>,
    pub glib_get_type: Option<Seq<char>>,
    pub fields: Seq<FieldView>,
    pub constructor: Seq<FunctionView>,
    pub method: Seq<FunctionView>,
    pub functions: Seq<FunctionView>,
    pub record: Seq<RecordView>,
}

impl DeepView for Union {
    type V = UnionView;

    open spec fn deep_view(&self) -> UnionView
        decreases self,
    {
        UnionView {
            name: self.name.deep_view(),
            info: self.info.deep_view(),
            doc: self.doc.deep_view(),
            c_type: self.c_type.deep_view(),
            symbol_prefix: self.symbol_prefix.deep_view(),
            glib_type_name: self.glib_type_name.deep_view(),
            glib_get_type: self.glib_get_type.deep_view(),
            fields: self.fields.deep_view(),
            constructor: self.constructor.deep_view(),
            method: self.method.deep_view(),
            functions: self.functions.deep_view(),
            record: Seq::new(
                self.record@.len(),
                |i: int|
                    if 0 <= i < self.record@.len() {
                        self.record@[i].deep_view()
                    } else {
                        arbitrary()
                    },
            ),
        }
    }
}

/// A signal of a class or an interface.
#[derive(Debug)]
pub struct Signal {
    pub name: String,
    pub info: InfoAttrs,
    pub doc: InfoElements,
    pub detailed: bool,
    pub when: Option<String>,
    pub action: bool,
    pub no_hooks: bool,
    pub no_recurse: bool,
    pub emitter: Option<String>,
    pub parameters: Vec<Parameter>,
    pub ret: Option<Parameter>,
}

/// The view of `Signal`.
pub ghost struct SignalView {
    pub name: Seq<char>,
    pub info: InfoAttrsView,
    pub doc: InfoElementsView,
    pub detailed: bool,
    pub when: Option<Seq<char>>,
    pub action: bool,
    pub no_hooks: bool,
    pub no_recurse: bool,
    pub emitter: Option<Seq<char>>,
    pub parameters: Seq<ParameterView>,
    pub ret: Option<ParameterView>,
}

impl DeepView for Signal {
    type V = SignalView;

    open spec fn deep_view(&self) -> SignalView {
        SignalView {
            name: self.name@,
            info: self.info.deep_view(),
            doc: self.doc.deep_view(),
            detailed: self.detailed,
            when: self.when.deep_view(),
            action: self.action,
            no_hooks: self.no_hooks,
            no_recurse: self.no_recurse,
            emitter: self.emitter.deep_view(),
            parameters: self.parameters.deep_view(),
            ret: self.ret.deep_view(),
        }
    }
}

/// A boxed type.
#[derive(Debug)]
pub struct Boxed {
    pub glib_name: String,
    pub info: InfoAttrs,
    pub doc: InfoElements,
    pub symbol_prefix: Option<String>,
    pub glib_type_name: Option<String>,
    pub glib_get_type: Option<String>,
    pub functions: Vec<Function>,
}

/// The view of `Boxed`.
pub ghost struct BoxedView {
    pub glib_name: Seq<char>,
    pub info: InfoAttrsView,
    pub doc: InfoElementsView,
    pub symbol_prefix: Option<Seq<char>>,
    pub glib_type_name: Option<Seq<char>>,
    pub glib_get_type: Option<Seq<char>>,
    pub functions: Seq<FunctionView>,
}

impl DeepView for Boxed {
    type V = BoxedView;

    open spec fn deep_view(&self) -> BoxedView {
        BoxedView {
            glib_name: self.glib_name@,
            info: self.info.deep_view(),
            doc: self.doc.deep_view(),
            symbol_prefix: self.symbol_prefix.deep_view(),
            glib_type_name: self.glib_type_name.deep_view(),
            glib_get_type: self.glib_get_type.deep_view(),
            functions: self.functions.deep_view(),
        }
    }
}

/// The name of an interface that a class implements.
#[derive(Debug)]
pub struct Implement {
    pub name: String,
}

/// The view of `Implement`.
pub ghost struct ImplementView {
    pub name: Seq<char>,
}

impl DeepView for Implement {
    type V = ImplementView;

    open spec fn deep_view(&self) -> ImplementView {
        ImplementView {
            name: self.name@,
        }
    }
}

/// A typedef: a new name for the type `typ`.
#[derive(Debug)]
pub struct Alias {
    pub name: String,
    pub info: InfoAttrs,
    pub doc: InfoElements,
    pub c_type: String,
    pub typ: AnyType,
}

/// The view of `Alias`.
pub ghost struct AliasView {
    pub name: Seq<char>,
    pub info: InfoAttrsView,
    pub doc: InfoElementsView,
    pub c_type: Seq<char>,
    pub typ: AnyTypeView,
}

impl DeepView for Alias {
    type V = AliasView;

    open spec fn deep_view(&self) -> AliasView {
        AliasView {
            name: self.name@,
            info: self.info.deep_view(),
            doc: self.doc.deep_view(),
            c_type: self.c_type@,
            typ: self.typ.deep_view(),
        }
    }
}

/// A member of an enumeration or a bitfield. `value` is the integer as
/// written.
#[derive(Debug)]
pub struct Member {
    pub info: InfoAttrs,
    pub doc: InfoElements,
    pub name: String,
    pub value: String,
    pub c_identifier: Option<String>,
    pub glib_nick: Option<String>,
}

/// The view of `Member`.
pub ghost struct MemberView {
    pub info: InfoAttrsView,
    pub doc: InfoElementsView,
    pub name: Seq<char>,
    pub value: Seq<char>,
    pub c_identifier: Option<Seq<char>>,
    pub glib_nick: Option<Seq<char>>,
}

impl DeepView for Member {
    type V = MemberView;

    open spec fn deep_view(&self) -> MemberView {
        MemberView {
            info: self.info.deep_view(),
            doc: self.doc.deep_view(),
            name: self.name@,
            value: self.value@,
            c_identifier: self.c_identifier.deep_view(),
            glib_nick: self.glib_nick.deep_view(),
        }
    }
}

/// A parameter of a macro.
#[derive(Debug)]
pub struct MacroParam {
    pub name: String,
    pub doc: InfoElements,
}

/// The view of `MacroParam`.
pub ghost struct MacroParamView {
    pub name: Seq<char>,
    pub doc: InfoElementsView,
}

impl DeepView for MacroParam {
    type V = MacroParamView;

    open spec fn deep_view(&self) -> MacroParamView {
        MacroParamView {
            name: self.name@,
            doc: self.doc.deep_view(),
        }
    }
}

/// A parameter, a return value or a signal argument. `closure`, `destroy`
/// and `array_length` are positions in the parameter list that this
/// parameter stands in, as written in the document.
#[derive(Debug)]
pub struct Parameter {
    pub name: String,
    pub instance_parameter: bool,
    pub nullable: bool,
    pub allow_none: bool,
    pub introspectable: bool,
    pub closure: Option<usize>,
    pub destroy: Option<usize>,
    pub scope: ParameterScope,
    pub direction: ParameterDirection,
    pub caller_allocates: bool,
    pub optional: bool,
    pub skip: bool,
    pub transfer: Transfer,
    pub array_length: Option<usize>,
    pub doc: InfoElements,
    pub typ: AnyType,
}

/// The view of `Parameter`.
pub ghost struct ParameterView {
    pub name: Seq<char>,
    pub instance_parameter: bool,
    pub nullable: bool,
    pub allow_none: bool,
    pub introspectable: bool,
    pub closure: Option<usize>,
    pub destroy: Option<usize>,
    pub scope: ParameterScope,
    pub direction: ParameterDirection,
    pub caller_allocates: bool,
    pub optional: bool,
    pub skip: bool,
    pub transfer: Transfer,
    pub array_length: Option<usize>,
    pub doc: InfoElementsView,
    pub typ: AnyTypeView,
}

impl DeepView for Parameter {
    type V = ParameterView;

    open spec fn deep_view(&self) -> ParameterView {
        ParameterView {
            name: self.name@,
            instance_parameter: self.instance_parameter,
            nullable: self.nullable,
            allow_none: self.allow_none,
            introspectable: self.introspectable,
            closure: self.closure,
            destroy: self.destroy,
            scope: self.scope,
            direction: self.direction,
            caller_allocates: self.caller_allocates,
            optional: self.optional,
            skip: self.skip,
            transfer: self.transfer,
            array_length: self.array_length,
            doc: self.doc.deep_view(),
            typ: self.typ.deep_view(),
        }
    }
}

/// A C array of `typ`. `length` is the position of the parameter that
/// holds the number of elements.
#[derive(Debug)]
pub struct Array {
    pub name: Option<String>,
    pub zero_terminated: Option<bool>,
    pub fixed_size: Option<usize>,
    pub introspectable: bool,
    pub length: Option<usize>,
    pub ctype: Option<String>,
    pub typ: Box<AnyType>,
}

/// The view of `Array`.
pub ghost struct ArrayView {
    pub name: Option<Seq<char>>,
    pub zero_terminated: Option<bool>,
    pub fixed_size: Option<usize>,
    pub introspectable: bool,
    pub length: Option<usize>,
    pub ctype: Option<Seq<char>>,
    pub typ: Box<AnyTypeView>,
}

impl DeepView for Array {
    type V = ArrayView;

    open spec fn deep_view(&self) -> ArrayView {
        array_view(*self)
    }
}

/// A named type. `children` are the type arguments of a container such as
/// `GLib.List` or `GLib.HashTable`.
#[derive(Debug)]
pub struct Type {
    pub name: Option<String>,
    pub ctype: Option<String>,
    pub introspectable: bool,
    pub doc: InfoElements,
    pub children: Vec<AnyType>,
}

/// The view of `Type`.
pub ghost struct TypeView {
    pub name: Option<Seq<char>>,
    pub ctype: Option<Seq<char>>,
    pub introspectable: bool,
    pub doc: InfoElementsView,
    pub children: Seq<AnyTypeView>,
}

impl DeepView for Type {
    type V = TypeView;

    open spec fn deep_view(&self) -> TypeView {
        type_view(*self)
    }
}

/// A field of a class, record, interface or union.
#[derive(Debug)]
pub struct Field {
    pub name: String,
    pub info: InfoAttrs,
    pub doc: InfoElements,
    pub typ: AnyType,
    pub writeable: bool,
    pub readable: bool,
    pub private: bool,
    pub bits: Option<u32>,
}

/// The view of `Field`.
pub ghost struct FieldView {
    pub name: Seq<char>,
    pub info: InfoAttrsView,
    pub doc: InfoElementsView,
    pub typ: AnyTypeView,
    pub writeable: bool,
    pub readable: bool,
    pub private: bool,
    pub bits: Option<u32>,
}

impl DeepView for Field {
    type V = FieldView;

    open spec fn deep_view(&self) -> FieldView {
        FieldView {
            name: self.name@,
            info: self.info.deep_view(),
            doc: self.doc.deep_view(),
            typ: self.typ.deep_view(),
            writeable: self.writeable,
            readable: self.readable,
            private: self.private,
            bits: self.bits,
        }
    }
}

/// A property of a class or an interface.
#[derive(Debug)]
pub struct Property {
    pub name: String,
    pub info: InfoAttrs,
    pub doc: InfoElements,
    pub writable: bool,
    pub readable: bool,
    pub construct: bool,
    pub construct_only: bool,
    pub setter: Option<String>,
    pub getter: Option<String>,
    pub transfer: Transfer,
    pub typ: AnyType,
}

/// The view of `Property`.
pub ghost struct PropertyView {
    pub name: Seq<char>,
    pub info: InfoAttrsView,
    pub doc: InfoElementsView,
    pub writable: bool,
    pub readable: bool,
    pub construct: bool,
    pub construct_only: bool,
    pub setter: Option<Seq<char>>,
    pub getter: Option<Seq<char>>,
    pub transfer: Transfer,
    pub typ: AnyTypeView,
}

impl DeepView for Property {
    type V = PropertyView;

    open spec fn deep_view(&self) -> PropertyView {
        PropertyView {
            name: self.name@,
            info: self.info.deep_view(),
            doc: self.doc.deep_view(),
            writable: self.writable,
            readable: self.readable,
            construct: self.construct,
            construct_only: self.construct_only,
            setter: self.setter.deep_view(),
            getter: self.getter.deep_view(),
            transfer: self.transfer,
            typ: self.typ.deep_view(),
        }
    }
}

/// The arguments of a named type, seen through the view of the type.
pub proof fn lemma_type_arguments(typ: Type)
    ensures
        typ.deep_view().children == typ.children.deep_view(),
{
    assert(typ.deep_view().children =~= typ.children.deep_view());
}

/// The unions of a record, seen through the view of the record.
pub proof fn lemma_record_unions(record: Record)
    ensures
        record.deep_view().unions == record.unions.deep_view(),
{
    assert(record.deep_view().unions =~= record.unions.deep_view());
}

/// The records of a union, seen through the view of the union.
pub proof fn lemma_union_records(item: Union)
    ensures
        item.deep_view().record == item.record.deep_view(),
{
    assert(item.deep_view().record =~= item.record.deep_view());
}

} // verus!
