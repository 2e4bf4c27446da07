use gir_to_stub::library::{
    AnyType, FunctionType, ParameterDirection, ParameterScope, Repository, Transfer, Version,
};
use gir_to_stub::parse::{
    attr_bool, attr_required, attr_value, attribute, classify, is_empty_c_type, parse_gir, r_anytype,
    read_anytype, DecodeError, Tag,
};
use gir_to_stub::xml::{Attribute, Node, XmlElement};

fn document(body: &str) -> String {
    format!(
        "<?xml version=\"1.0\"?>\n<repository version=\"1.2\" xmlns=\"http://www.gtk.org/introspection/core/1.0\" \
         xmlns:c=\"http://www.gtk.org/introspection/c/1.0\" \
         xmlns:glib=\"http://www.gtk.org/introspection/glib/1.0\">\n<namespace name=\"Test\" version=\"1.0\">\n{}\n</namespace>\n</repository>",
        body
    )
}

fn decode(body: &str) -> Result<Repository, DecodeError> {
    parse_gir(document(body).as_bytes())
}

fn missing_attribute(body: &str) -> (String, String) {
    match decode(body) {
        Err(DecodeError::MissingAttribute { element, attribute }) => (element, attribute),
        other => panic!("unexpected outcome {:?}", other),
    }
}

fn missing_child(body: &str) -> (String, String) {
    match decode(body) {
        Err(DecodeError::MissingChild { element, child }) => (element, child),
        other => panic!("unexpected outcome {:?}", other),
    }
}

fn duplicate_child(body: &str) -> (String, String) {
    match decode(body) {
        Err(DecodeError::DuplicateChild { element, child }) => (element, child),
        other => panic!("unexpected outcome {:?}", other),
    }
}

fn invalid_value(body: &str) -> (String, String, String) {
    match decode(body) {
        Err(DecodeError::InvalidValue { element, attribute, value }) => (element, attribute, value),
        other => panic!("unexpected outcome {:?}", other),
    }
}

fn pair(a: &str, b: &str) -> (String, String) {
    (a.to_string(), b.to_string())
}

fn triple(a: &str, b: &str, c: &str) -> (String, String, String) {
    (a.to_string(), b.to_string(), c.to_string())
}

const RETURNS_NONE: &str = "<return-value transfer-ownership=\"none\"><type name=\"none\"/></return-value>";

#[test]
fn malformed_xml_is_reported() {
    assert!(matches!(parse_gir(b"<repository>"), Err(DecodeError::Xml(_))));
    assert!(matches!(parse_gir(b""), Err(DecodeError::Xml(_))));
    assert!(matches!(parse_gir(b"<a></b>"), Err(DecodeError::Xml(_))));
    let fault = parse_gir(b"<repository>").unwrap_err();
    assert!(fault.message().starts_with("malformed XML: "));
}

#[test]
fn class_with_a_method() {
    let repo = decode(&format!(
        "<class name=\"Widget\" glib:type-name=\"GtkWidget\" glib:get-type=\"gtk_widget_get_type\">\
         <method name=\"show\">{}</method></class>",
        RETURNS_NONE
    ))
    .unwrap();
    assert_eq!(repo.namespace.len(), 1);
    let ns = &repo.namespace[0];
    assert_eq!(ns.name.as_deref(), Some("Test"));
    assert_eq!(ns.version.as_deref(), Some("1.0"));
    assert_eq!(ns.classes.len(), 1);
    let class = &ns.classes[0];
    assert_eq!(class.name, "Widget");
    assert_eq!(class.glib_type_name, "GtkWidget");
    assert_eq!(class.glib_get_type, "gtk_widget_get_type");
    assert!(!class.abstracts);
    assert!(class.info.introspectable);
    assert_eq!(class.method.len(), 1);
    let method = &class.method[0];
    assert_eq!(method.name, "show");
    assert_eq!(method.typ, FunctionType::Method);
    assert!(method.parameters.is_empty());
    let ret = method.ret.as_ref().unwrap();
    assert_eq!(ret.name, "");
    assert_eq!(ret.direction, ParameterDirection::Return);
    assert_eq!(ret.transfer, Transfer::Nothing);
    match &ret.typ {
        AnyType::Type(t) => {
            assert_eq!(t.name.as_deref(), Some("none"));
            assert!(t.children.is_empty());
        }
        other => panic!("unexpected type {:?}", other),
    }
}

#[test]
fn required_attributes_of_a_class() {
    let repo = decode("<class name=\"W\" glib:type-name=\"GW\" glib:get-type=\"gw_get_type\"/>").unwrap();
    let class = &repo.namespace[0].classes[0];
    assert_eq!(class.name, "W");
    assert_eq!(class.glib_type_name, "GW");
    assert_eq!(class.glib_get_type, "gw_get_type");
    assert_eq!(
        missing_attribute("<class glib:type-name=\"GW\" glib:get-type=\"gw_get_type\"/>"),
        pair("class", "name")
    );
    assert_eq!(
        missing_attribute("<class name=\"W\" glib:get-type=\"gw_get_type\"/>"),
        pair("class", "type-name")
    );
    assert_eq!(
        missing_attribute("<class name=\"W\" glib:type-name=\"GW\"/>"),
        pair("class", "get-type")
    );
}

#[test]
fn required_attributes_of_a_record() {
    let repo = decode("<record name=\"R\" c:type=\"GR\"/>").unwrap();
    let record = &repo.namespace[0].record[0];
    assert_eq!(record.name, "R");
    assert_eq!(record.c_type, "GR");
    assert!(!record.disguised);
    assert_eq!(missing_attribute("<record c:type=\"GR\"/>"), pair("record", "name"));
    assert_eq!(missing_attribute("<record name=\"R\"/>"), pair("record", "type"));
}

#[test]
fn required_attributes_of_an_interface() {
    let whole = "<interface name=\"I\" glib:type-name=\"GI\" glib:get-type=\"gi_get_type\" c:symbol-prefix=\"gi\"/>";
    let repo = decode(whole).unwrap();
    let interface = &repo.namespace[0].interfaces[0];
    assert_eq!(interface.name, "I");
    assert_eq!(interface.glib_type_name, "GI");
    assert_eq!(interface.glib_get_type, "gi_get_type");
    assert_eq!(interface.symbol_prefix, "gi");
    assert_eq!(
        missing_attribute("<interface glib:type-name=\"GI\" glib:get-type=\"g\" c:symbol-prefix=\"gi\"/>"),
        pair("interface", "name")
    );
    assert_eq!(
        missing_attribute("<interface name=\"I\" glib:get-type=\"g\" c:symbol-prefix=\"gi\"/>"),
        pair("interface", "type-name")
    );
    assert_eq!(
        missing_attribute("<interface name=\"I\" glib:type-name=\"GI\" c:symbol-prefix=\"gi\"/>"),
        pair("interface", "get-type")
    );
    assert_eq!(
        missing_attribute("<interface name=\"I\" glib:type-name=\"GI\" glib:get-type=\"g\"/>"),
        pair("interface", "symbol-prefix")
    );
}

fn class_with(attributes: &str) -> String {
    format!("<class name=\"W\" glib:type-name=\"GW\" glib:get-type=\"g\" {}/>", attributes)
}

#[test]
fn booleans_of_a_class() {
    let class = |attributes: &str| decode(&class_with(attributes)).unwrap().namespace.remove(0).classes.remove(0);
    assert!(!class("").abstracts);
    assert!(class("abstract=\"1\"").abstracts);
    assert!(!class("abstract=\"0\"").abstracts);
    assert!(class("").info.introspectable);
    assert!(class("introspectable=\"1\"").info.introspectable);
    assert!(!class("introspectable=\"0\"").info.introspectable);
    assert!(!class("").finals);
    assert!(class("final=\"1\"").finals);
    assert_eq!(class("").info.deprecated, None);
    assert_eq!(class("deprecated=\"1\"").info.deprecated, Some(true));
    assert_eq!(
        invalid_value(&class_with("abstract=\"yes\"")),
        triple("class", "abstract", "yes")
    );
    assert_eq!(
        invalid_value(&class_with("introspectable=\"true\"")),
        triple("class", "introspectable", "true")
    );
    assert_eq!(invalid_value(&class_with("abstract=\"\"")), triple("class", "abstract", ""));
    assert_eq!(invalid_value(&class_with("abstract=\"01\"")), triple("class", "abstract", "01"));
}

#[test]
fn fundamental_class_keeps_its_reference_functions() {
    let class = |attributes: &str| decode(&class_with(attributes)).unwrap().namespace.remove(0).classes.remove(0);
    let plain = class("glib:ref-func=\"r\" glib:unref-func=\"u\" parent=\"GObject.Object\"");
    assert!(!plain.glib_fundamental);
    assert_eq!(plain.ref_func, None);
    assert_eq!(plain.unref_func, None);
    assert_eq!(plain.parent.as_deref(), Some("GObject.Object"));
    let fundamental = class("glib:fundamental=\"1\" glib:ref-func=\"r\" glib:unref-func=\"u\"");
    assert!(fundamental.glib_fundamental);
    assert_eq!(fundamental.ref_func.as_deref(), Some("r"));
    assert_eq!(fundamental.unref_func.as_deref(), Some("u"));
}

#[test]
fn booleans_of_a_record_and_a_property() {
    let record = decode("<record name=\"R\" c:type=\"GR\" disguised=\"1\"/>").unwrap().namespace.remove(0).record.remove(0);
    assert!(record.disguised);
    let record = decode("<record name=\"R\" c:type=\"GR\" disguised=\"0\"/>").unwrap().namespace.remove(0).record.remove(0);
    assert!(!record.disguised);
    assert_eq!(
        invalid_value("<record name=\"R\" c:type=\"GR\" disguised=\"2\"/>"),
        triple("record", "disguised", "2")
    );
    let property = |attributes: &str| {
        decode(&format!(
            "<class name=\"W\" glib:type-name=\"GW\" glib:get-type=\"g\"><property name=\"p\" {}>\
             <type name=\"utf8\" c:type=\"const char*\"/></property></class>",
            attributes
        ))
    };
    let own = |attributes: &str| property(attributes).unwrap().namespace.remove(0).classes.remove(0).properties.remove(0);
    let plain = own("");
    assert!(plain.readable);
    assert!(!plain.writable);
    assert!(!plain.construct);
    assert!(!plain.construct_only);
    assert_eq!(plain.transfer, Transfer::Nothing);
    let set = own("readable=\"0\" writable=\"1\" construct=\"1\" construct-only=\"1\" transfer-ownership=\"container\"");
    assert!(!set.readable);
    assert!(set.writable);
    assert!(set.construct);
    assert!(set.construct_only);
    assert_eq!(set.transfer, Transfer::Container);
    match &set.typ {
        AnyType::Type(t) => {
            assert_eq!(t.name.as_deref(), Some("utf8"));
            assert_eq!(t.ctype.as_deref(), Some("const char*"));
            assert!(t.children.is_empty());
            assert!(t.introspectable);
        }
        other => panic!("unexpected type {:?}", other),
    }
    assert!(matches!(
        property("writable=\"no\""),
        Err(DecodeError::InvalidValue { .. })
    ));
    assert!(matches!(
        property("transfer-ownership=\"some\""),
        Err(DecodeError::InvalidValue { .. })
    ));
}

#[test]
fn booleans_of_a_signal() {
    let signal = |attributes: &str| {
        decode(&format!(
            "<class name=\"W\" glib:type-name=\"GW\" glib:get-type=\"g\"><glib:signal name=\"changed\" {}>{}\
             </glib:signal></class>",
            attributes, RETURNS_NONE
        ))
    };
    let own = |attributes: &str| signal(attributes).unwrap().namespace.remove(0).classes.remove(0).signals.remove(0);
    let plain = own("");
    assert!(!plain.action);
    assert!(!plain.detailed);
    assert!(!plain.no_hooks);
    assert!(!plain.no_recurse);
    assert_eq!(plain.when, None);
    let set = own("action=\"1\" detailed=\"1\" no-hooks=\"1\" no-recurse=\"1\" when=\"last\"");
    assert!(set.action);
    assert!(set.detailed);
    assert!(set.no_hooks);
    assert!(set.no_recurse);
    assert_eq!(set.when.as_deref(), Some("last"));
    assert!(matches!(signal("detailed=\"x\""), Err(DecodeError::InvalidValue { .. })));
}

#[test]
fn throwing_function_gets_an_error_parameter() {
    let repo = decode(&format!(
        "<function name=\"load\" throws=\"1\">{0}</function>\
         <function name=\"quiet\" throws=\"0\">{0}</function>\
         <function name=\"plain\">{0}</function>\
         <function name=\"more\" throws=\"1\">{0}<parameters><parameter name=\"a\"><type name=\"gint\"/>\
         </parameter></parameters></function>",
        RETURNS_NONE
    ))
    .unwrap();
    let functions = &repo.namespace[0].functions;
    assert_eq!(functions.len(), 4);
    assert!(functions[0].throws);
    assert_eq!(functions[0].typ, FunctionType::Function);
    assert_eq!(functions[0].parameters.len(), 1);
    let error = &functions[0].parameters[0];
    assert_eq!(error.name, "error");
    assert_eq!(error.direction, ParameterDirection::Out);
    assert_eq!(error.transfer, Transfer::Full);
    assert!(error.nullable);
    assert!(!error.instance_parameter);
    match &error.typ {
        AnyType::Type(t) => assert_eq!(t.name.as_deref(), Some("GLib.Error")),
        other => panic!("unexpected type {:?}", other),
    }
    assert!(!functions[1].throws);
    assert!(functions[1].parameters.is_empty());
    assert!(!functions[2].throws);
    assert!(functions[2].parameters.is_empty());
    assert_eq!(functions[3].parameters.len(), 2);
    assert_eq!(functions[3].parameters[0].name, "a");
    assert_eq!(functions[3].parameters[1].name, "error");
    assert_eq!(
        invalid_value(&format!("<function name=\"f\" throws=\"maybe\">{}</function>", RETURNS_NONE)),
        triple("function", "throws", "maybe")
    );
}

fn constant_of(typ: &str) -> Result<Repository, DecodeError> {
    decode(&format!("<constant name=\"C\" value=\"1\">{}</constant>", typ))
}

fn type_of(typ: &str) -> AnyType {
    constant_of(typ).unwrap().namespace.remove(0).constant.remove(0).typ
}

#[test]
fn types_decode_to_their_closed_form() {
    match type_of("<type name=\"utf8\" c:type=\"const char*\"/>") {
        AnyType::Type(t) => {
            assert_eq!(t.name.as_deref(), Some("utf8"));
            assert_eq!(t.ctype.as_deref(), Some("const char*"));
            assert!(t.children.is_empty());
        }
        other => panic!("unexpected type {:?}", other),
    }
    match type_of("<type name=\"GLib.List\"><type name=\"utf8\"/></type>") {
        AnyType::Type(t) => {
            assert_eq!(t.name.as_deref(), Some("GLib.List"));
            assert_eq!(t.children.len(), 1);
            match &t.children[0] {
                AnyType::Type(inner) => {
                    assert_eq!(inner.name.as_deref(), Some("utf8"));
                    assert_eq!(inner.ctype, None);
                    assert!(inner.children.is_empty());
                }
                other => panic!("unexpected type {:?}", other),
            }
        }
        other => panic!("unexpected type {:?}", other),
    }
    match type_of("<type name=\"GLib.HashTable\"><type name=\"utf8\"/><array><type name=\"gint\"/></array></type>") {
        AnyType::Type(t) => {
            assert_eq!(t.children.len(), 2);
            assert!(matches!(t.children[0], AnyType::Type(_)));
            assert!(matches!(t.children[1], AnyType::Array(_)));
        }
        other => panic!("unexpected type {:?}", other),
    }
    match type_of("<array c:type=\"gint*\" length=\"0\"><type name=\"gint\"/></array>") {
        AnyType::Array(a) => {
            assert_eq!(a.ctype.as_deref(), Some("gint*"));
            assert_eq!(a.length, Some(0));
            assert_eq!(a.fixed_size, None);
            assert_eq!(a.zero_terminated, None);
            match *a.typ {
                AnyType::Type(inner) => assert_eq!(inner.name.as_deref(), Some("gint")),
                other => panic!("unexpected type {:?}", other),
            }
        }
        other => panic!("unexpected type {:?}", other),
    }
    match type_of("<array fixed-size=\"4\" zero-terminated=\"1\"><array><type name=\"gint\"/></array></array>") {
        AnyType::Array(a) => {
            assert_eq!(a.fixed_size, Some(4));
            assert_eq!(a.zero_terminated, Some(true));
            assert!(matches!(*a.typ, AnyType::Array(_)));
        }
        other => panic!("unexpected type {:?}", other),
    }
    assert!(matches!(type_of("<varargs/>"), AnyType::VarArg));
    assert!(matches!(
        type_of("<doc filename=\"a\" line=\"1\">x</doc><varargs/><type name=\"later\"/>"),
        AnyType::VarArg
    ));
}

#[test]
fn byte_array_is_a_scalar() {
    match type_of("<type name=\"GLib.ByteArray\"/>") {
        AnyType::Type(t) => {
            assert_eq!(t.name.as_deref(), Some("GLib.ByteArray"));
            assert!(t.children.is_empty());
        }
        other => panic!("unexpected type {:?}", other),
    }
    match type_of("<type name=\"GLib.ByteArray\"><type name=\"guint8\"/></type>") {
        AnyType::Type(t) => assert!(t.children.is_empty()),
        other => panic!("unexpected type {:?}", other),
    }
    match constant_of("<array/>") {
        Err(DecodeError::MissingChild { element, child }) => {
            assert_eq!(element, "array");
            assert_eq!(child, "type");
        }
        other => panic!("unexpected outcome {:?}", other),
    }
}

#[test]
fn faults_of_types() {
    match constant_of("") {
        Err(DecodeError::MissingChild { element, child }) => {
            assert_eq!(element, "constant");
            assert_eq!(child, "type");
        }
        other => panic!("unexpected outcome {:?}", other),
    }
    match constant_of("<array><type name=\"a\"/><type name=\"b\"/></array>") {
        Err(DecodeError::DuplicateChild { element, child }) => {
            assert_eq!(element, "array");
            assert_eq!(child, "type");
        }
        other => panic!("unexpected outcome {:?}", other),
    }
    match constant_of("<array length=\"-1\"><type name=\"a\"/></array>") {
        Err(DecodeError::InvalidValue { element, attribute, value }) => {
            assert_eq!(element, "array");
            assert_eq!(attribute, "length");
            assert_eq!(value, "-1");
        }
        other => panic!("unexpected outcome {:?}", other),
    }
    assert!(matches!(
        constant_of("<type name=\"a\" introspectable=\"2\"/>"),
        Err(DecodeError::InvalidValue { .. })
    ));
    assert!(matches!(
        constant_of("<type name=\"GLib.List\"><array/></type>"),
        Err(DecodeError::MissingChild { .. })
    ));
}

#[test]
fn decoding_twice_gives_the_same() {
    let text = document(&format!(
        "<class name=\"Widget\" glib:type-name=\"GtkWidget\" glib:get-type=\"g\" b=\"1\" a=\"2\">\
         <method name=\"show\" throws=\"1\">{0}</method><field name=\"f\"><type name=\"gint\"/></field></class>\
         <record name=\"R\" c:type=\"GR\"><union name=\"u\"><field name=\"x\"><type name=\"gint\"/></field></union></record>",
        RETURNS_NONE
    ));
    let once = parse_gir(text.as_bytes()).unwrap();
    let again = parse_gir(text.as_bytes()).unwrap();
    assert_eq!(format!("{:?}", once), format!("{:?}", again));
    let broken = document("<class/>");
    let once = parse_gir(broken.as_bytes()).unwrap_err();
    let again = parse_gir(broken.as_bytes()).unwrap_err();
    assert_eq!(format!("{:?}", once), format!("{:?}", again));
}

#[test]
fn first_fault_in_document_order_is_reported() {
    assert_eq!(
        missing_attribute("<class glib:type-name=\"A\" glib:get-type=\"a\"/><record name=\"R\"/>"),
        pair("class", "name")
    );
    assert_eq!(
        missing_attribute("<record name=\"R\"/><class glib:type-name=\"A\" glib:get-type=\"a\"/>"),
        pair("record", "type")
    );
    assert_eq!(
        missing_attribute(
            "<class name=\"W\" glib:type-name=\"GW\" glib:get-type=\"g\">\
             <field><type name=\"gint\"/></field><method/></class>"
        ),
        pair("field", "name")
    );
    assert_eq!(
        missing_attribute(
            "<class name=\"W\" glib:type-name=\"GW\" glib:get-type=\"g\">\
             <method/><field><type name=\"gint\"/></field></class>"
        ),
        pair("method", "name")
    );
    assert_eq!(
        missing_attribute(
            "<class name=\"W\" glib:type-name=\"GW\" glib:get-type=\"g\">\
             <doc line=\"1\">text</doc><method/></class>"
        ),
        pair("doc", "filename")
    );
}

#[test]
fn return_values() {
    assert_eq!(
        missing_child("<function name=\"f\"/>"),
        pair("function", "return-value")
    );
    assert_eq!(
        duplicate_child(&format!("<function name=\"f\">{0}{0}</function>", RETURNS_NONE)),
        pair("function", "return-value")
    );
    assert_eq!(
        missing_child("<function name=\"f\"><return-value/></function>"),
        pair("return-value", "type")
    );
    let repo = decode(
        "<function name=\"printf\"><parameters><parameter name=\"format\"><type name=\"utf8\"/></parameter>\
         <parameter><varargs/></parameter></parameters></function>",
    )
    .unwrap();
    let function = &repo.namespace[0].functions[0];
    assert!(function.ret.is_none());
    assert_eq!(function.parameters.len(), 2);
    assert!(matches!(function.parameters[1].typ, AnyType::VarArg));
    assert_eq!(function.parameters[1].name, "");
    assert_eq!(
        missing_child(
            "<callback name=\"cb\"><parameters><parameter name=\"a\"><type name=\"utf8\"/></parameter>\
             </parameters></callback>"
        ),
        pair("callback", "return-value")
    );
}

#[test]
fn parameters() {
    let repo = decode(&format!(
        "<class name=\"W\" glib:type-name=\"GW\" glib:get-type=\"g\"><method name=\"read\" c:identifier=\"w_read\">{}\
         <parameters><instance-parameter name=\"self\" transfer-ownership=\"none\"><type name=\"Widget\"/>\
         </instance-parameter><parameter name=\"data\" direction=\"out\" caller-allocates=\"1\" closure=\"1\" \
         destroy=\"2\" scope=\"async\" transfer-ownership=\"full\" nullable=\"1\" allow-none=\"1\" optional=\"1\" skip=\"1\">\
         <array length=\"1\" c:type=\"guint8*\"><type name=\"guint8\"/></array></parameter>\
         <parameter name=\"size\" direction=\"inout\"><type name=\"gsize\"/></parameter>\
         <unknown/></parameters></method></class>",
        RETURNS_NONE
    ))
    .unwrap();
    let method = &repo.namespace[0].classes[0].method[0];
    assert_eq!(method.c_identifier.as_deref(), Some("w_read"));
    assert_eq!(method.parameters.len(), 3);
    let this = &method.parameters[0];
    assert!(this.instance_parameter);
    assert_eq!(this.name, "self");
    assert_eq!(this.direction, ParameterDirection::In);
    assert_eq!(this.transfer, Transfer::Nothing);
    assert_eq!(this.scope, ParameterScope::Unspecified);
    assert!(!this.nullable && !this.allow_none && !this.caller_allocates && !this.optional && !this.skip);
    assert!(this.introspectable);
    assert_eq!(this.closure, None);
    assert_eq!(this.array_length, None);
    let data = &method.parameters[1];
    assert!(!data.instance_parameter);
    assert_eq!(data.direction, ParameterDirection::Out);
    assert_eq!(data.transfer, Transfer::Full);
    assert_eq!(data.scope, ParameterScope::Async);
    assert_eq!(data.closure, Some(1));
    assert_eq!(data.destroy, Some(2));
    assert_eq!(data.array_length, Some(1));
    assert!(data.nullable && data.allow_none && data.caller_allocates && data.optional && data.skip);
    assert_eq!(method.parameters[2].direction, ParameterDirection::InOut);
    let with = |attributes: &str| {
        format!(
            "<function name=\"f\">{}<parameters><parameter name=\"a\" {}><type name=\"gint\"/></parameter>\
             </parameters></function>",
            RETURNS_NONE, attributes
        )
    };
    assert_eq!(
        invalid_value(&with("direction=\"sideways\"")),
        triple("parameter", "direction", "sideways")
    );
    assert_eq!(invalid_value(&with("scope=\"forever\"")), triple("parameter", "scope", "forever"));
    assert_eq!(invalid_value(&with("closure=\"x\"")), triple("parameter", "closure", "x"));
    assert_eq!(invalid_value(&with("nullable=\"2\"")), triple("parameter", "nullable", "2"));
    assert_eq!(invalid_value(&with("allow-none=\"2\"")), triple("parameter", "allow-none", "2"));
    assert_eq!(
        invalid_value(&with("caller-allocates=\"2\"")),
        triple("parameter", "caller-allocates", "2")
    );
    let ret = decode("<function name=\"f\"><return-value direction=\"sideways\"><type name=\"gint\"/></return-value></function>")
        .unwrap();
    assert_eq!(
        ret.namespace[0].functions[0].ret.as_ref().unwrap().direction,
        ParameterDirection::Return
    );
}

#[test]
fn documentation() {
    let repo = decode(&format!(
        "<function name=\"f\" version=\"2.4\" deprecated=\"1\" deprecated-version=\"3.0\" stability=\"Stable\">\
         <doc xml:space=\"preserve\" filename=\"a.c\" line=\"3\">One</doc>\
         <doc filename=\"b.c\" line=\"4\" column=\"7\">Two<![CDATA[ & more]]></doc>\
         <doc-deprecated>Gone</doc-deprecated><doc-version>New</doc-version><doc-stability>Firm</doc-stability>\
         <source-position filename=\"a.h\" line=\"9\"/>{}</function>",
        RETURNS_NONE
    ))
    .unwrap();
    let function = &repo.namespace[0].functions[0];
    assert_eq!(function.info.version.as_deref(), Some("2.4"));
    assert_eq!(function.info.deprecated, Some(true));
    assert_eq!(function.info.deprecated_version.as_deref(), Some("3.0"));
    assert_eq!(function.info.stability.as_deref(), Some("Stable"));
    let doc = function.doc.doc.as_ref().unwrap();
    assert_eq!(doc.filename, "b.c");
    assert_eq!(doc.line, "4");
    assert_eq!(doc.column.as_deref(), Some("7"));
    assert_eq!(doc.content, "Two & more");
    assert_eq!(doc.preserve_space, None);
    assert_eq!(function.doc.doc_deprecated.as_ref().unwrap().content, "Gone");
    assert_eq!(function.doc.doc_version.as_ref().unwrap().content, "New");
    assert_eq!(function.doc.doc_stability.as_ref().unwrap().content, "Firm");
    let position = function.doc.doc_pos.as_ref().unwrap();
    assert_eq!(position.filename, "a.h");
    assert_eq!(position.line, "9");
    assert_eq!(position.column, None);
    let first = decode(&format!(
        "<function name=\"f\"><doc xml:space=\"preserve\" xml:whitespace=\"keep\" filename=\"a.c\" line=\"3\">One</doc>{}</function>",
        RETURNS_NONE
    ))
    .unwrap();
    let doc = first.namespace[0].functions[0].doc.doc.as_ref().unwrap();
    assert_eq!(doc.preserve_space.as_deref(), Some("preserve"));
    assert_eq!(doc.preserve_white.as_deref(), Some("keep"));
    assert_eq!(doc.content, "One");
    assert_eq!(
        missing_child(&format!(
            "<function name=\"f\"><doc filename=\"a.c\" line=\"3\"></doc>{}</function>",
            RETURNS_NONE
        )),
        pair("doc", "text")
    );
    assert_eq!(
        missing_attribute(&format!(
            "<function name=\"f\"><source-position filename=\"a.c\"/>{}</function>",
            RETURNS_NONE
        )),
        pair("source-position", "line")
    );
}

#[test]
fn namespace_declarations() {
    let repo = decode(&format!(
        "<alias name=\"Id\" c:type=\"GId\"><type name=\"guint\" c:type=\"guint\"/></alias>\
         <constant name=\"MAX\" value=\"10\" c:type=\"G_MAX\" c:identifier=\"G_MAX\"><type name=\"gint\"/></constant>\
         <enumeration name=\"Kind\" c:type=\"GKind\" glib:error-domain=\"g-kind\">\
         <member name=\"one\" value=\"1\" c:identifier=\"G_KIND_ONE\" glib:nick=\"one\"/>\
         <member name=\"two\" value=\"2\"/><function name=\"quark\">{0}</function></enumeration>\
         <bitfield name=\"Flags\" c:type=\"GFlags\"><member name=\"a\" value=\"1\"/></bitfield>\
         <callback name=\"Notify\">{0}</callback>\
         <union name=\"Value\" c:type=\"GValue\"><field name=\"i\" writable=\"1\" bits=\"3\"><type name=\"gint\"/></field>\
         <record name=\"inner\" c:type=\"GInner\"/></union>\
         <glib:boxed glib:name=\"Box\" glib:type-name=\"GBox\"><function name=\"copy\">{0}</function></glib:boxed>\
         <function-macro name=\"CHECK\"/><docsection name=\"intro\"/><surprise/>\
         <interface name=\"I\" glib:type-name=\"GI\" glib:get-type=\"g\" c:symbol-prefix=\"i\">\
         <prerequisite name=\"Object\"/><implements name=\"Other\"/><constructor name=\"a\">{0}</constructor>\
         <constructor name=\"b\">{0}</constructor><virtual-method name=\"v\">{0}</virtual-method></interface>\
         <class name=\"W\" glib:type-name=\"GW\" glib:get-type=\"g\"><implements name=\"I\"/>\
         <constructor name=\"new\">{0}</constructor><function name=\"s\">{0}</function>\
         <virtual-method name=\"v\">{0}</virtual-method><callback name=\"c\">{0}</callback>\
         <union/><constant name=\"K\" value=\"k\"><type name=\"utf8\"/></constant>\
         <record name=\"Priv\" c:type=\"GPriv\"/></class>",
        RETURNS_NONE
    ))
    .unwrap();
    let ns = &repo.namespace[0];
    assert_eq!(ns.alias.len(), 1);
    assert_eq!(ns.alias[0].name, "Id");
    assert_eq!(ns.alias[0].c_type, "GId");
    assert_eq!(ns.constant.len(), 1);
    assert_eq!(ns.constant[0].value, "10");
    assert_eq!(ns.constant[0].c_identifier.as_deref(), Some("G_MAX"));
    assert_eq!(ns.enums.len(), 1);
    assert_eq!(ns.enums[0].c_type, "GKind");
    assert_eq!(ns.enums[0].glib_error_domain.as_deref(), Some("g-kind"));
    assert_eq!(ns.enums[0].members.len(), 2);
    assert_eq!(ns.enums[0].members[0].name, "one");
    assert_eq!(ns.enums[0].members[0].value, "1");
    assert_eq!(ns.enums[0].members[0].c_identifier.as_deref(), Some("G_KIND_ONE"));
    assert_eq!(ns.enums[0].members[0].glib_nick.as_deref(), Some("one"));
    assert_eq!(ns.enums[0].members[1].name, "two");
    assert_eq!(ns.enums[0].functions.len(), 1);
    assert_eq!(ns.enums[0].functions[0].typ, FunctionType::Member);
    assert_eq!(ns.bitfield.len(), 1);
    assert_eq!(ns.bitfield[0].members.len(), 1);
    assert_eq!(ns.callback.len(), 1);
    assert_eq!(ns.callback[0].typ, FunctionType::Callback);
    assert_eq!(ns.unions.len(), 1);
    assert_eq!(ns.unions[0].name.as_deref(), Some("Value"));
    assert_eq!(ns.unions[0].fields.len(), 1);
    assert!(ns.unions[0].fields[0].writeable);
    assert!(ns.unions[0].fields[0].readable);
    assert!(!ns.unions[0].fields[0].private);
    assert_eq!(ns.unions[0].fields[0].bits, Some(3));
    assert_eq!(ns.unions[0].record.len(), 1);
    assert_eq!(ns.boxed.len(), 1);
    assert_eq!(ns.boxed[0].glib_name, "Box");
    assert_eq!(ns.boxed[0].functions.len(), 1);
    assert!(ns.macros.is_empty());
    assert!(ns.functions.is_empty());
    assert!(ns.record.is_empty());
    assert_eq!(ns.interfaces.len(), 1);
    let interface = &ns.interfaces[0];
    assert_eq!(interface.prerequisites, vec!["Object".to_string()]);
    assert_eq!(interface.implements, vec!["Other".to_string()]);
    assert_eq!(interface.constructor.as_ref().unwrap().name, "b");
    assert_eq!(interface.virtual_method.len(), 1);
    assert_eq!(interface.virtual_method[0].typ, FunctionType::Virtual);
    let class = &ns.classes[0];
    assert_eq!(class.implements.len(), 1);
    assert_eq!(class.implements[0].name, "I");
    assert_eq!(class.constructor.len(), 1);
    assert_eq!(class.constructor[0].typ, FunctionType::Constructor);
    assert_eq!(class.functions.len(), 1);
    assert_eq!(class.virtual_method.len(), 1);
    assert_eq!(class.callbacks.len(), 1);
    assert_eq!(class.unions.len(), 1);
    assert_eq!(class.unions[0].name, None);
    assert_eq!(class.constant.len(), 1);
    assert_eq!(class.record.len(), 1);
    assert_eq!(missing_attribute("<enumeration name=\"E\"/>"), pair("enumeration", "type"));
    assert_eq!(missing_attribute("<bitfield c:type=\"E\"/>"), pair("bitfield", "name"));
    assert_eq!(missing_attribute("<alias name=\"E\"/>"), pair("alias", "type"));
    assert_eq!(missing_attribute("<constant name=\"E\"/>"), pair("constant", "value"));
    assert_eq!(missing_attribute("<glib:boxed/>"), pair("boxed", "name"));
    assert_eq!(
        missing_attribute("<enumeration name=\"E\" c:type=\"E\"><member name=\"a\"/></enumeration>"),
        pair("member", "value")
    );
    assert_eq!(
        missing_attribute("<class name=\"W\" glib:type-name=\"GW\" glib:get-type=\"g\"><implements/></class>"),
        pair("implements", "name")
    );
    assert_eq!(
        invalid_value("<union><field name=\"f\" bits=\"4294967296\"><type name=\"gint\"/></field></union>"),
        triple("field", "bits", "4294967296")
    );
}

#[test]
fn repository_is_strict() {
    let text = "<repository version=\"1.2\" c:identifier-prefixes=\"G\" xmlns:c=\"c\"><include name=\"GLib\" version=\"2.0\"/>\
                <package name=\"glib-2.0\"/><cinclude name=\"glib.h\"/><attribute name=\"a\" value=\"b\"/>\
                <!-- a comment -->text<namespace name=\"A\"/><namespace/></repository>";
    let repo = parse_gir(text.as_bytes()).unwrap();
    assert_eq!(repo.version, Some(Version(1, 2, 0)));
    assert_eq!(repo.identifier_prefixes.as_deref(), Some("G"));
    assert_eq!(repo.includes.len(), 1);
    assert_eq!(repo.includes[0].name, "GLib");
    assert_eq!(repo.includes[0].version.as_deref(), Some("2.0"));
    assert_eq!(repo.package.len(), 1);
    assert_eq!(repo.package[0].name, "glib-2.0");
    assert_eq!(repo.cinclude.len(), 1);
    assert_eq!(repo.cinclude[0].name, "glib.h");
    assert_eq!(repo.namespace.len(), 2);
    assert_eq!(repo.namespace[0].name.as_deref(), Some("A"));
    assert_eq!(repo.namespace[1].name, None);
    match parse_gir(b"<repository><namespace name=\"A\"/><bogus/><include/></repository>") {
        Err(DecodeError::UnknownElement { parent, element }) => {
            assert_eq!(parent, "repository");
            assert_eq!(element, "bogus");
        }
        other => panic!("unexpected outcome {:?}", other),
    }
    match parse_gir(b"<namespace name=\"A\"/>") {
        Err(DecodeError::UnknownElement { parent, element }) => {
            assert_eq!(parent, "");
            assert_eq!(element, "namespace");
        }
        other => panic!("unexpected outcome {:?}", other),
    }
    match parse_gir(b"<repository><package/></repository>") {
        Err(DecodeError::MissingAttribute { element, attribute }) => {
            assert_eq!(element, "package");
            assert_eq!(attribute, "name");
        }
        other => panic!("unexpected outcome {:?}", other),
    }
}

#[test]
fn versions() {
    let version = |text: &str| {
        parse_gir(format!("<repository version=\"{}\"/>", text).as_bytes()).unwrap().version
    };
    assert_eq!(version("1.2"), Some(Version(1, 2, 0)));
    assert_eq!(version("1.2.3"), Some(Version(1, 2, 3)));
    assert_eq!(version("1.2.3.4"), Some(Version(1, 2, 3)));
    assert_eq!(version("1.2.3.4.5"), Some(Version(1, 2, 3)));
    assert_eq!(version("7"), Some(Version(7, 0, 0)));
    assert_eq!(version("x"), Some(Version(0, 0, 0)));
    assert_eq!(version(""), Some(Version(0, 0, 0)));
    assert_eq!(version("1.x.3"), Some(Version(1, 0, 0)));
    assert_eq!(version("1.2.x"), Some(Version(1, 2, 0)));
    assert_eq!(version(".2"), Some(Version(0, 0, 0)));
    assert_eq!(version("1."), Some(Version(1, 0, 0)));
    assert_eq!(version("65535.65536"), Some(Version(65535, 0, 0)));
    assert_eq!(version("+1.+2"), Some(Version(1, 2, 0)));
    assert_eq!(parse_gir(b"<repository/>").unwrap().version, None);
}

#[test]
fn messages() {
    let message = |body: &str| decode(body).unwrap_err().message();
    assert_eq!(message("<class/>"), "missing `name` attribute on `<class>`");
    assert_eq!(
        message("<constant name=\"a\" value=\"1\"/>"),
        "missing `<type>` element in `<constant>`"
    );
    assert_eq!(
        message(&format!("<function name=\"f\">{0}{0}</function>", RETURNS_NONE)),
        "more than one `<return-value>` element in `<function>`"
    );
    assert_eq!(
        message(&class_with("abstract=\"yes\"")),
        "invalid value `yes` of attribute `abstract` on `<class>`"
    );
    assert_eq!(
        parse_gir(b"<repository><bogus/></repository>").unwrap_err().message(),
        "unexpected element `<bogus>` in `<repository>`"
    );
}

#[test]
fn files_add_up_in_a_repository() {
    let mut repo = Repository::new();
    assert!(repo.namespace.is_empty());
    repo.read_file(b"<repository><include name=\"GLib\"/><namespace name=\"A\"/></repository>").unwrap();
    repo.read_file(b"<repository><package name=\"p\"/><namespace name=\"B\"/><namespace name=\"C\"/></repository>")
        .unwrap();
    assert!(repo.read_file(b"<repository><namespace name=\"D\"/><class/></repository>").is_err());
    assert!(repo.read_file(b"<repository>").is_err());
    let names: Vec<_> = repo.namespace.iter().map(|ns| ns.name.clone().unwrap()).collect();
    assert_eq!(names, vec!["A".to_string(), "B".to_string(), "C".to_string()]);
    assert_eq!(repo.includes.len(), 1);
    assert_eq!(repo.package.len(), 1);
}

#[test]
fn empty_c_type() {
    assert!(is_empty_c_type("/*EMPTY*/"));
    assert!(!is_empty_c_type("/*EMPTY*/ "));
    assert!(!is_empty_c_type(""));
    assert!(!is_empty_c_type("gint"));
}

fn element(name: &str, attributes: &[(&str, &str)], children: Vec<XmlElement>) -> XmlElement {
    XmlElement {
        name: name.to_string(),
        attributes: attributes
            .iter()
            .map(|(name, value)| Attribute { name: name.to_string(), value: value.to_string() })
            .collect(),
        children: children.into_iter().map(Node::Element).collect(),
    }
}

#[test]
fn attributes_of_an_element() {
    let e = element("parameter", &[("name", "a"), ("nullable", "1"), ("skip", "0"), ("odd", "2"), ("closure", "12")], vec![]);
    assert_eq!(attribute(&e, "name").as_deref(), Some("a"));
    assert_eq!(attribute(&e, "other"), None);
    assert_eq!(attr_required(&e, "name").unwrap(), "a");
    assert!(matches!(
        attr_required(&e, "other"),
        Err(DecodeError::MissingAttribute { element, attribute }) if element == "parameter" && attribute == "other"
    ));
    assert_eq!(attr_bool(&e, "nullable").unwrap(), Some(true));
    assert_eq!(attr_bool(&e, "skip").unwrap(), Some(false));
    assert_eq!(attr_bool(&e, "absent").unwrap(), None);
    assert!(matches!(
        attr_bool(&e, "odd"),
        Err(DecodeError::InvalidValue { element, attribute, value })
            if element == "parameter" && attribute == "odd" && value == "2"
    ));
    assert_eq!(attr_value::<usize>(&e, "closure").unwrap(), Some(12));
    assert_eq!(attr_value::<u32>(&e, "closure").unwrap(), Some(12));
    assert_eq!(attr_value::<usize>(&e, "absent").unwrap(), None);
    assert!(matches!(attr_value::<usize>(&e, "name"), Err(DecodeError::InvalidValue { .. })));
    assert!(matches!(attr_value::<Transfer>(&e, "name"), Err(DecodeError::InvalidValue { .. })));
    let t = element("p", &[("a", "none"), ("b", "container"), ("c", "full"), ("d", "call"), ("e", "notified"), ("f", "inout")], vec![]);
    assert_eq!(attr_value::<Transfer>(&t, "a").unwrap(), Some(Transfer::Nothing));
    assert_eq!(attr_value::<Transfer>(&t, "b").unwrap(), Some(Transfer::Container));
    assert_eq!(attr_value::<Transfer>(&t, "c").unwrap(), Some(Transfer::Full));
    assert_eq!(attr_value::<ParameterScope>(&t, "d").unwrap(), Some(ParameterScope::Call));
    assert_eq!(attr_value::<ParameterScope>(&t, "e").unwrap(), Some(ParameterScope::Notified));
    assert_eq!(attr_value::<ParameterDirection>(&t, "f").unwrap(), Some(ParameterDirection::InOut));
    assert_eq!(attr_value::<Version>(&t, "a").unwrap(), Some(Version(0, 0, 0)));
}

#[test]
fn tags() {
    assert_eq!(classify("class"), Tag::Class);
    assert_eq!(classify("include"), Tag::Include);
    assert_eq!(classify("cinclude"), Tag::CInclude);
    assert_eq!(classify("virtual-method"), Tag::VirtualMethod);
    assert_eq!(classify("return-value"), Tag::ReturnValue);
    assert_eq!(classify("doc-deprecated"), Tag::DocDeprecated);
    assert_eq!(classify("Class"), Tag::Other);
    assert_eq!(classify(""), Tag::Other);
    assert_eq!(classify("classes"), Tag::Other);
}

#[test]
fn types_of_elements() {
    let utf8 = || element("type", &[("name", "utf8")], vec![]);
    match r_anytype(&utf8()).unwrap() {
        AnyType::Type(t) => assert_eq!(t.name.as_deref(), Some("utf8")),
        other => panic!("unexpected type {:?}", other),
    }
    assert!(matches!(r_anytype(&element("varargs", &[], vec![])).unwrap(), AnyType::VarArg));
    assert!(matches!(
        r_anytype(&element("field", &[], vec![])),
        Err(DecodeError::UnknownElement { parent, element }) if parent.is_empty() && element == "field"
    ));
    let holder = element("field", &[], vec![element("other", &[], vec![]), utf8(), element("varargs", &[], vec![])]);
    match read_anytype(&holder).unwrap() {
        AnyType::Type(t) => assert_eq!(t.name.as_deref(), Some("utf8")),
        other => panic!("unexpected type {:?}", other),
    }
    assert!(matches!(
        read_anytype(&element("field", &[], vec![])),
        Err(DecodeError::MissingChild { element, child }) if element == "field" && child == "type"
    ));
}
