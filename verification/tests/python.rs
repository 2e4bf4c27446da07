use gir_to_stub::lang::python::{create_section, gen_param_names, unkeyword, PythonCodeGen};
use gir_to_stub::lang::{GenerateError, Level};
use gir_to_stub::parse::parse_gir;

const BODY: &str = "<function name=\"run\"><return-value><type name=\"none\"/></return-value><parameters>\
    <parameter name=\"in\"><type name=\"gint\"/></parameter><parameter name=\"out\" direction=\"out\"><type name=\"gint\"/>\
    </parameter><parameter name=\"count\"><type name=\"gint\"/></parameter></parameters></function>\
    <function name=\"hidden\" introspectable=\"0\"><return-value><type name=\"none\"/></return-value></function>\
    <class name=\"Widget\" glib:type-name=\"W\" glib:get-type=\"w\"><method name=\"show\">\
    <return-value><type name=\"none\"/></return-value></method></class>";

fn document(name: &str, body: &str) -> String {
    format!(
        "<repository xmlns:glib=\"http://www.gtk.org/introspection/glib/1.0\"><namespace {}>{}</namespace></repository>",
        name, body
    )
}

#[test]
fn python_stubs() {
    let repo = parse_gir(document("name=\"Test\"", BODY).as_bytes()).unwrap();
    let ns = &repo.namespace[0];
    assert_eq!(
        ns.gen_python().unwrap(),
        "# Test Function\n\ndef run(in_, count):\npass\n\n# Test classes\n\nclass Widget:\ndef show():\n    pass\n\n"
    );
    assert_eq!(ns.functions[0].gen_python(2), "def run(in_, count):\n        pass\n\n");
    assert_eq!(ns.functions[1].gen_python(0), "");
    assert_eq!(ns.classes[0].gen_python("Test"), "class Widget:\ndef show():\n    pass\n\n");
    assert_eq!(gen_param_names(&ns.functions[0].parameters, true), "self, in_, count");
    assert_eq!(gen_param_names(&ns.functions[0].parameters, false), "in_, count");
    assert_eq!(gen_param_names(&ns.functions[1].parameters, true), "self");
    assert_eq!(gen_param_names(&ns.functions[1].parameters, false), "");
}

#[test]
fn python_sections() {
    assert_eq!(create_section("Gtk", "classes"), "# Gtk classes\n\n");
    assert_eq!(unkeyword("local"), "local_");
    assert_eq!(unkeyword("value"), "value");
    assert_eq!(PythonCodeGen::new(Level::Full).level, Level::Full);
    let empty = parse_gir(document("name=\"Test\"", "").as_bytes()).unwrap();
    assert_eq!(empty.namespace[0].gen_python().unwrap(), "");
    let unnamed = parse_gir(document("", BODY).as_bytes()).unwrap();
    assert!(matches!(unnamed.namespace[0].gen_python(), Err(GenerateError::UnnamedNamespace)));
}
