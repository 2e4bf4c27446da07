use gir_to_stub::vimdoc::{create_section, get_typeless, write_doc, write_enum, Class, Document, Enum, Function, Variable};

fn pair(a: &str, b: &str) -> (String, String) {
    (a.to_string(), b.to_string())
}

fn open() -> Function {
    Function::new(
        "open".to_string(),
        true,
        Some("Opens it.\nTwice.".to_string()),
        vec![pair("path", "string"), pair("mode", "number")],
        vec!["boolean".to_string(), "string".to_string()],
    )
}

fn close() -> Function {
    Function::new("close".to_string(), true, None, vec![], vec![])
}

fn section(ns: &str, name: &str) -> String {
    let tag = format!("*{}.{}*", ns, name);
    format!("{:=>76}\n{}.{} {:>pad$}\n", "=", ns, name, tag, pad = 79 - tag.len())
}

fn function_text(ns: &str, name: &str, typeless: &str, doc: &str, arguments: &str, ret: &str) -> String {
    let tag = format!("*{}.{}()*", ns, name);
    format!(
        "{:>78}\n{}.{}({})\n\n{}\tArguments:~\n{}\tReturns:~\n\t\t`{}`\n",
        tag, ns, name, typeless, doc, arguments, ret
    )
}

fn open_text(ns: &str) -> String {
    function_text(
        ns,
        "open",
        "{path}, {mode}",
        "\tOpens it.\n\tTwice.\n\n",
        "\t\t{path} `string`\n\t\t{mode} `number`\n",
        "boolean, string",
    )
}

fn close_text(ns: &str) -> String {
    function_text(ns, "close", "", "", "", "")
}

#[test]
fn sections() {
    assert_eq!(create_section("Gtk", "Window"), section("Gtk", "Window"));
    assert_eq!(
        create_section("Gtk", "Window"),
        format!("{}\nGtk.Window {}*Gtk.Window*\n", "=".repeat(76), " ".repeat(55))
    );
    let long = "x".repeat(90);
    assert_eq!(
        create_section("Gtk", &long),
        format!("{}\nGtk.{} *Gtk.{}*\n", "=".repeat(76), long, long)
    );
    assert_eq!(create_section("é", "ü"), section("é", "ü"));
}

#[test]
fn functions() {
    assert_eq!(open().write("Gtk"), open_text("Gtk"));
    assert_eq!(close().write("Gtk.Window"), close_text("Gtk.Window"));
    assert_eq!(
        open().write("Gtk"),
        format!(
            "{}*Gtk.open()*\nGtk.open({{path}}, {{mode}})\n\n\tOpens it.\n\tTwice.\n\n\tArguments:~\n\
             \t\t{{path}} `string`\n\t\t{{mode}} `number`\n\tReturns:~\n\t\t`boolean, string`\n",
            " ".repeat(66)
        )
    );
    assert_eq!(get_typeless(&vec![pair("a", "x"), pair("b", "y")]), vec!["{a}", "{b}"]);
    assert!(get_typeless(&vec![]).is_empty());
    assert_eq!(write_doc(&None), "");
    assert_eq!(write_doc(&Some("a\r\nb\n".to_string())), "\ta\n\tb\n\n");
    assert_eq!(write_doc(&Some(String::new())), "\n");
}

#[test]
fn classes() {
    let mut class = Class::new("Window");
    assert_eq!(class.write("Gtk"), section("Gtk", "Window"));
    class.set_docs(Some("A window.".to_string()));
    class.add_field(pair("title", "string"));
    class.add_field(pair("width", "number"));
    class.add_constructor(close());
    class.add_method(open());
    class.add_method(close());
    class.add_function(close());
    class.add_virtual(close());
    assert_eq!(
        class.write("Gtk"),
        format!(
            "{}A window.\n\nFields~\nGtk.Window.title\nGtk.Window.width\nConstructors~\n{}\nMethods~\n{}\n{}\n\
             Functions~\n{}\nVirtual~\n{}\n",
            section("Gtk", "Window"),
            close_text("Gtk.Window"),
            open_text("window"),
            close_text("window"),
            close_text("Gtk.Window"),
            close_text("window"),
        )
    );
}

#[test]
fn documents() {
    let empty = Document::new("Gtk", "head", "intro");
    assert_eq!(empty.ns, "Gtk");
    assert_eq!(
        empty.write_dated("Last Generated: 01/02/2003 04:05"),
        format!("*Gtk.txt* {:>68}\n\nvim:tw=78:ts=8:noet:ft=help:norl:", "Last Generated: 01/02/2003 04:05")
    );
    let mut document = Document::new("Gtk", "head", "intro");
    document.add_class(Class::new("Window"));
    document.add_class(Class::new("Button"));
    document.add_function(open());
    document.add_macro(close());
    document.add_enum(Enum { name: "Kind".to_string(), doc: String::new(), members: vec![pair("a", "first")] });
    document.add_enum(Enum { name: "Side".to_string(), doc: String::new(), members: vec![] });
    document.add_constants(Variable { name: "MAX".to_string(), doc: String::new(), rtype: "number".to_string() });
    assert_eq!(
        document.write_dated("now"),
        format!(
            "*Gtk.txt* {:>68}\n{}{}\n{}\n{}\n{}\n{}\n{}\nKind\nSide\n\nvim:tw=78:ts=8:noet:ft=help:norl:",
            "now",
            section("Gtk", "Window"),
            section("Gtk", "Button"),
            section("Gtk", "Functions"),
            open_text("Gtk"),
            section("Gtk", "Macros"),
            close_text("Gtk"),
            section("Gtk", "Enums"),
        )
    );
    let mut only_enums = Document::new("Gtk", "", "");
    only_enums.add_enum(Enum { name: "Kind".to_string(), doc: String::new(), members: vec![] });
    assert_eq!(
        only_enums.write_dated("now"),
        format!("*Gtk.txt* {:>68}\n\nvim:tw=78:ts=8:noet:ft=help:norl:", "now")
    );
    let text = document.write();
    let first = text.lines().next().unwrap();
    assert!(first.starts_with("*Gtk.txt* "));
    let stamp = first.trim_start_matches("*Gtk.txt* ").trim_start();
    assert!(stamp.starts_with("Last Generated: "));
    let date = &stamp["Last Generated: ".len()..];
    assert_eq!(date.len(), 16);
    assert_eq!(&date[2..3], "/");
    assert_eq!(&date[5..6], "/");
    assert_eq!(&date[10..11], " ");
    assert_eq!(&date[13..14], ":");
    assert!(text.ends_with("\nvim:tw=78:ts=8:noet:ft=help:norl:"));
    assert_eq!(write_enum(&Enum { name: "Kind".to_string(), doc: String::new(), members: vec![] }), "Kind\n");
}
