use gir_to_stub::lang::lua::{
    fix_filename, gen_doc_params, gen_doc_return, gen_param_names, gen_param_names_typed,
    gen_return_names_typed, gen_return_signal, generate_gobject, in_param, optional, out_param,
    show_anytyp, signal_name, translate, translate_ns, unkeyword, LuaCodegen,
};
use gir_to_stub::lang::{GenerateError, Level, OutputFile};
use gir_to_stub::library::{FunctionType, Namespace, ParameterDirection};
use gir_to_stub::parse::{parse_gir, DecodeError};

const HEADER: &str = "---@diagnostic disable: unused-local, duplicate-doc-field\n---@meta\n-- THIS FILE WAS GENERATED BY gir-to-stub! DO NOT MODIFY!\n\n";
const RETURNS_NONE: &str = "<return-value transfer-ownership=\"none\"><type name=\"none\"/></return-value>";

fn document(body: &str) -> String {
    format!(
        "<repository version=\"1.2\" xmlns=\"http://www.gtk.org/introspection/core/1.0\" \
         xmlns:c=\"http://www.gtk.org/introspection/c/1.0\" \
         xmlns:glib=\"http://www.gtk.org/introspection/glib/1.0\"><namespace name=\"Test\">{}</namespace></repository>",
        body
    )
}

fn namespace(body: &str) -> Namespace {
    parse_gir(document(body).as_bytes()).unwrap().namespace.remove(0)
}

fn stubs(body: &str) -> Vec<OutputFile> {
    LuaCodegen::new().gen(document(body).as_bytes()).unwrap()
}

fn init(body: &str) -> String {
    let mut files = stubs(body);
    assert_eq!(files[0].name, "init");
    files.remove(0).content
}

fn test_function(tag: &str) -> String {
    format!(
        "<{0} name=\"testFunc\" c:identifier=\"g_test\">{1}<parameters><parameter name=\"num\">\
         <type name=\"guint8\" c:type=\"unsigned char*\"/></parameter></parameters></{0}>",
        tag, RETURNS_NONE
    )
}

#[test]
fn reserved_words() {
    assert_eq!(unkeyword("end"), "end_");
    assert_eq!(unkeyword("function"), "function_");
    assert_eq!(unkeyword("while"), "while_");
    assert_eq!(unkeyword("and"), "and_");
    assert_eq!(unkeyword("ends"), "ends");
    assert_eq!(unkeyword("End"), "End");
    assert_eq!(unkeyword(""), "");
    assert_eq!(unkeyword("self"), "self");
}

#[test]
fn translated_names() {
    assert_eq!(translate("gboolean", "Gtk"), "boolean");
    assert_eq!(translate("gpointer", "Gtk"), "any");
    assert_eq!(translate("GType", "Gtk"), "Glib.GType");
    assert_eq!(translate("gint", "Gtk"), "number");
    assert_eq!(translate("gushort64", "Gtk"), "number");
    assert_eq!(translate("gdouble", "Gtk"), "number");
    assert_eq!(translate("const char*", "Gtk"), "string");
    assert_eq!(translate("utf8", "Gtk"), "string");
    assert_eq!(translate("none", "Gtk"), "nil");
    assert_eq!(translate("Widget", "Gtk"), "Gtk.Widget");
    assert_eq!(translate("GLib.Variant", "Gtk"), "GLib.Variant");
    assert_eq!(translate_ns("Widget", "Gtk"), "Gtk.Widget");
    assert_eq!(translate_ns("Gdk.Window", "Gtk"), "Gdk.Window");
    assert_eq!(translate_ns("gint", "Gtk"), "Gtk.gint");
}

#[test]
fn shown_types() {
    let ns = namespace(
        "<constant name=\"a\" value=\"1\"><type name=\"utf8\"/></constant>\
         <constant name=\"b\" value=\"1\"><type name=\"GLib.List\"><type name=\"Widget\"/></type></constant>\
         <constant name=\"c\" value=\"1\"><type name=\"GLib.HashTable\"><type name=\"utf8\"/><type name=\"gint\"/></type></constant>\
         <constant name=\"d\" value=\"1\"><array><type name=\"guint8\"/></array></constant>\
         <constant name=\"e\" value=\"1\"><varargs/></constant>\
         <constant name=\"f\" value=\"1\"><type/></constant>\
         <constant name=\"g\" value=\"1\"><type name=\"GLib.SList\"/></constant>\
         <constant name=\"h\" value=\"1\"><type name=\"GLib.HashTable\"><type name=\"utf8\"/></type></constant>\
         <constant name=\"i\" value=\"1\"><array><type name=\"GLib.List\"><array><type name=\"Gdk.Key\"/></array></type></array></constant>",
    );
    let shown: Vec<String> = ns.constant.iter().map(|c| show_anytyp(&c.typ, "Test")).collect();
    assert_eq!(
        shown,
        vec![
            "string",
            "Test.Widget[]",
            "table<string, number>",
            "number[]",
            "...",
            "any",
            "any[]",
            "table<string, any>",
            "Gdk.Key[][][]"
        ]
    );
}

#[test]
fn test_functions() {
    assert_eq!(
        init(&test_function("function")),
        format!(
            "{}local Test = {{}}\n\n\n--- @param num number\nfunction Test.testFunc(num) end\n\nreturn Test\n",
            HEADER
        )
    );
}

#[test]
fn test_callback() {
    assert_eq!(
        init(&test_function("callback")),
        format!("{}local Test = {{}}\n\n--- @alias Test.testFunc fun(num: number):nil\n\nreturn Test\n", HEADER)
    );
    let ns = namespace(
        "<callback name=\"log\"><parameters><parameter name=\"end\"><type name=\"utf8\"/></parameter>\
         <parameter><varargs/></parameter></parameters></callback>",
    );
    assert_eq!(
        ns.callback[0].gen_callback_type("Test"),
        "--- @alias Test.log fun(end_: string, : ...)\n"
    );
    assert_eq!(gen_return_names_typed(&ns.callback[0], "Test"), None);
}

#[test]
fn test_enum() {
    assert_eq!(
        init("<enumeration name=\"TestEnum\" c:type=\"TestTestEnum\"><member name=\"key\" value=\"3\"/></enumeration>"),
        format!(
            "{}local Test = {{}}\n\n\n--- @enum Test.TestEnum\nTest.TestEnum = {{\n\t[\"KEY\"] = 3,\n}}\nreturn Test\n",
            HEADER
        )
    );
}

#[test]
fn test_bitfield() {
    let body = format!(
        "<bitfield name=\"TestField\" c:type=\"TestTestField\"><member name=\"key\" value=\"3\"/>\
         <member name=\"hidden\" value=\"4\" introspectable=\"0\"/><function name=\"check\">{}</function></bitfield>",
        RETURNS_NONE
    );
    assert_eq!(
        init(&body),
        format!(
            "{}local Test = {{}}\n\n\n--- @enum Test.TestField\n--- @overload fun({{any}}): Test.TestField\n\
             Test.TestField = {{\n\t[\"KEY\"] = 3,\n\t[\"CHECK\"] = function() end,\n\n}}\nreturn Test\n",
            HEADER
        )
    );
}

#[test]
fn test_constant() {
    assert_eq!(
        init(
            "<constant name=\"MYCONSTANT\" c:type=\"TEST_MYCONSTANT\" value=\"555\"><type name=\"gint\"/></constant>\
             <constant name=\"NAME\" value=\"five\"><type name=\"utf8\"/></constant>\
             <constant name=\"BIG\" value=\"4294967296\"><type name=\"gint64\"/></constant>\
             <constant name=\"HIDDEN\" value=\"1\" introspectable=\"0\"><type name=\"gint\"/></constant>"
        ),
        format!(
            "{}local Test = {{}}\n\n\nTest.MYCONSTANT = 555\nTest.NAME = \"five\"\nTest.BIG = \"4294967296\"\nreturn Test\n",
            HEADER
        )
    );
}

#[test]
fn test_alias() {
    assert_eq!(
        init("<alias name=\"Id\" c:type=\"TestId\"><type name=\"guint\"/></alias>"),
        format!("{}local Test = {{}}\n\n\n--- @alias Test.Id number\nreturn Test\n", HEADER)
    );
}

#[test]
fn test_class() {
    let files = stubs("<class name=\"TestClass\" glib:type-name=\"TestTestClass\" glib:get-type=\"test_test_get_type\"/>");
    assert_eq!(files.len(), 2);
    assert_eq!(files[0].name, "init");
    assert_eq!(
        files[0].content,
        format!(
            "{}local Test = {{}}\n\n\nlocal _TestClass = require('TestClass')\nTest.TestClass = _TestClass\n\nreturn Test\n",
            HEADER
        )
    );
    assert_eq!(files[1].name, "TestClass");
    assert_eq!(
        files[1].content,
        format!(
            "{}--- @class Test.TestClass\nlocal TestClass = {{}}\n--- @param obj GObject.Object\n--- @return boolean\n\
             function TestClass:is_type_of(obj) end\nreturn TestClass\n",
            HEADER
        )
    );
}

#[test]
fn class_with_members() {
    let body = format!(
        "<class name=\"Button\" parent=\"Widget\" deprecated=\"1\" glib:type-name=\"GtkButton\" glib:get-type=\"g\">\
         <constructor name=\"new\"><return-value><type name=\"Button\"/></return-value></constructor>\
         <constructor name=\"new_with_label\"><return-value><type name=\"Button\"/></return-value>\
         <parameters><parameter name=\"label\" allow-none=\"1\"><doc filename=\"a.c\" line=\"1\">The label,\nor %NULL</doc>\
         <type name=\"utf8\"/></parameter></parameters></constructor>\
         <method name=\"click\" deprecated=\"1\"><doc filename=\"a.c\" line=\"1\">Clicks.\nReturns %NULL.</doc>\
         <return-value nullable=\"1\"><type name=\"gboolean\"/></return-value>\
         <parameters><instance-parameter name=\"button\"><type name=\"Button\"/></instance-parameter>\
         <parameter name=\"times\"><type name=\"gint\"/></parameter>\
         <parameter name=\"x\" direction=\"out\"><type name=\"gint\"/></parameter>\
         <parameter name=\"y\" direction=\"inout\" nullable=\"1\"><type name=\"gint\"/></parameter>\
         </parameters></method>\
         <function name=\"hidden\" introspectable=\"0\">{0}</function>\
         <field name=\"parent\"><type name=\"Widget\"/></field>\
         <field name=\"priv\" private=\"1\"><type name=\"gpointer\"/></field>\
         <property name=\"use-underline\"><type name=\"gboolean\"/></property>\
         <glib:signal name=\"button-pressed\">{0}<parameters><parameter name=\"event\"><type name=\"Gdk.Event\"/>\
         </parameter></parameters></glib:signal>\
         </class>",
        RETURNS_NONE
    );
    let files = stubs(&body);
    assert_eq!(files.len(), 2);
    assert_eq!(files[1].name, "Button");
    assert_eq!(
        files[1].content,
        format!(
            "{}--- @deprecated\n--- @class Test.Button : Test.Widget\n\
             --- @field on_button_pressed fun(self, event: Gdk.Event)\n\
             --- @field parent Test.Widget\n--- @field use_underline boolean\n\
             --- @overload fun(params: {{}}):Test.Button\nlocal Button = {{}}\n\
             --- @return Test.Button\nfunction Button.new() end\n\n\
             --- @param label string? The label,or nil\n--- @return Test.Button\nfunction Button.new_with_label(label) end\n\n\
             --- @deprecated\n--- Clicks.\n--- Returns nil.\n--- @param times number\n--- @param y number\n\
             --- @return boolean|nil, number, number|nil\nfunction Button:click(times, y) end\n\n\
             --- @param obj GObject.Object\n--- @return boolean\nfunction Button:is_type_of(obj) end\nreturn Button\n",
            HEADER
        )
    );
    let ns = namespace(&body);
    assert_eq!(
        ns.classes[0].gen_type("Test"),
        "--- @deprecated\n--- @class Test.Button : Test.Widget\n\
         --- @field on_button_pressed fun(self, event: Gdk.Event)\n--- @field parent Test.Widget\n\
         --- @field use_underline boolean\n--- @overload fun(params: {}):Test.Button\nlocal Button = {}\n"
    );
    assert_eq!(ns.classes[0].signals[0].gen("Test"), "--- @field on_button_pressed fun(self, event: Gdk.Event)\n");
    assert_eq!(gen_return_signal(&ns.classes[0].signals[0]), None);
    let click = &ns.classes[0].method[0];
    assert_eq!(gen_param_names(&click.parameters, true), "times, y");
    assert_eq!(gen_param_names(&click.parameters, false), "button, times, y");
    assert_eq!(
        gen_param_names_typed(&click.parameters, "Test"),
        vec!["button: Test.Button", "times: number", "y: number"]
    );
    assert_eq!(gen_return_names_typed(click, "Test").as_deref(), Some("boolean, number, number"));
    assert_eq!(gen_doc_return(click, "Test"), "--- @return boolean|nil, number, number|nil\n");
    assert_eq!(
        gen_doc_params(&click.parameters, "Test", false),
        "--- @param button Test.Button\n--- @param times number\n--- @param y number\n"
    );
    assert_eq!(optional(&click.parameters[1]), "");
    assert_eq!(optional(&ns.classes[0].constructor[1].parameters[0]), "?");
    assert_eq!(ns.classes[0].constructor[1].parameters[0].gen("Test"), "--- @param label string? The label,or nil\n");
    assert_eq!(ns.classes[0].fields[1].gen("Test"), "");
}

#[test]
fn class_that_is_not_shown_is_still_loaded() {
    let files = stubs("<class name=\"Hidden\" introspectable=\"0\" glib:type-name=\"H\" glib:get-type=\"h\"/>");
    assert_eq!(files.len(), 1);
    assert_eq!(
        files[0].content,
        format!(
            "{}local Test = {{}}\n\n\nlocal _Hidden = require('Hidden')\nTest.Hidden = _Hidden\n\nreturn Test\n",
            HEADER
        )
    );
}

#[test]
fn test_record() {
    let body = format!(
        "<record name=\"Point\" c:type=\"TestPoint\"><field name=\"x\"><type name=\"gint\"/></field>\
         <constructor name=\"new\"><return-value><type name=\"Point\"/></return-value></constructor>\
         <method name=\"free\">{0}<parameters><instance-parameter name=\"p\"><type name=\"Point\"/></instance-parameter>\
         </parameters></method>\
         <union name=\"u\"><method name=\"get\">{0}</method></union></record>\
         <record name=\"PointClass\" c:type=\"TestPointClass\"><field name=\"x\"><type name=\"gint\"/></field></record>",
        RETURNS_NONE
    );
    let files = stubs(&body);
    assert_eq!(files.len(), 2);
    assert_eq!(
        files[0].content,
        format!(
            "{}local Test = {{}}\n\n--- @class Test.Point\n--- @field x number\nlocal Point = {{}}\n\n\
             local _Point = require('Point')\nTest.Point = _Point\n\nreturn Test\n",
            HEADER
        )
    );
    assert_eq!(files[1].name, "Point");
    assert_eq!(
        files[1].content,
        format!(
            "{}--- @return Test.Point\nfunction Test.Point.new() end\n\nfunction Test.Point:free() end\n\n\
             function Test.Point.u:get() end\n\n",
            HEADER
        )
    );
}

#[test]
fn test_unions() {
    let body = format!(
        "<union name=\"Value\" c:type=\"TestValue\"><field name=\"i\"><type name=\"gint\"/></field>\
         <constructor name=\"new\"><return-value><type name=\"Value\"/></return-value></constructor>\
         <function name=\"skipped\">{}</function></union><union><field name=\"i\"><type name=\"gint\"/></field></union>",
        RETURNS_NONE
    );
    assert_eq!(
        init(&body),
        format!(
            "{}local Test = {{}}\n\n--- @class Test.Value\n--- @field i number\nlocal Value = {{}}\n\n\
             --- @return Test.Value\nfunction Test.Value.new() end\n\nreturn Test\n",
            HEADER
        )
    );
}

#[test]
fn what_cannot_be_written() {
    let callback_in_class = format!(
        "<class name=\"W\" glib:type-name=\"GW\" glib:get-type=\"g\"><callback name=\"cb\">{}</callback></class>",
        RETURNS_NONE
    );
    assert!(matches!(
        LuaCodegen::new().gen(document(&callback_in_class).as_bytes()),
        Err(GenerateError::Unsupported(FunctionType::Callback))
    ));
    let ns = namespace(&callback_in_class);
    assert!(matches!(
        ns.classes[0].callbacks[0].gen("W", "Test"),
        Err(GenerateError::Unsupported(FunctionType::Callback))
    ));
    assert!(matches!(
        LuaCodegen::new().gen(b"<repository/>"),
        Err(GenerateError::NoNamespace)
    ));
    assert!(matches!(
        LuaCodegen::new().gen(b"<repository><namespace/></repository>"),
        Err(GenerateError::UnnamedNamespace)
    ));
    assert!(matches!(
        LuaCodegen::new().gen(b"<repository><namespace><class/></namespace></repository>"),
        Err(GenerateError::Decode(DecodeError::MissingAttribute { .. }))
    ));
    assert!(matches!(
        LuaCodegen::new().gen(b"<repository>"),
        Err(GenerateError::Decode(DecodeError::Xml(_)))
    ));
    assert_eq!(
        LuaCodegen::new().gen(b"<repository/>").unwrap_err().message(),
        "the document declares no namespace"
    );
}

#[test]
fn directions_and_names() {
    assert!(in_param(ParameterDirection::In));
    assert!(in_param(ParameterDirection::InOut));
    assert!(!in_param(ParameterDirection::Out));
    assert!(!in_param(ParameterDirection::Return));
    assert!(!in_param(ParameterDirection::Unspecified));
    assert!(out_param(ParameterDirection::Out));
    assert!(out_param(ParameterDirection::InOut));
    assert!(!out_param(ParameterDirection::In));
    assert!(!out_param(ParameterDirection::Return));
    assert_eq!(signal_name("notify-changed"), "on_notify_changed");
    assert_eq!(signal_name("clicked"), "on_clicked");
    assert_eq!(fix_filename("Gtk-4.0"), "Gtk_4_0");
    assert_eq!(fix_filename("GLib"), "GLib");
    let gobject = generate_gobject();
    assert_eq!(gobject.name, "GObject");
    assert_eq!(gobject.content, "--- @class GObject.Object\nlocal Object = {}\n");
    assert_eq!(Level::from_name("full"), Ok(Level::Code));
    assert_eq!(Level::from_name("Code"), Ok(Level::Code));
    assert_eq!(Level::from_name("codedoc"), Ok(Level::Code));
    assert_eq!(Level::from_name("all"), Err("all level not supported".to_string()));
    assert_eq!(Level::CodeDoc.name(), "CodeDoc");
}
