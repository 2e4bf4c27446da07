use gir_to_stub::text::{
    chars_of, contains_char, has_suffix, join, lines_of, pad_left, parse_decimal, repeat, replace,
    replace_char, same_text,
};
use gir_to_stub::xml::{Attribute, Node, XmlElement};

#[test]
fn decimal_numbers() {
    assert_eq!(parse_decimal("42", 100), Some(42));
    assert_eq!(parse_decimal("+7", 100), Some(7));
    assert_eq!(parse_decimal("00012", 100), Some(12));
    assert_eq!(parse_decimal("0", 0), Some(0));
    assert_eq!(parse_decimal("100", 100), Some(100));
    assert_eq!(parse_decimal("101", 100), None);
    assert_eq!(parse_decimal("", 100), None);
    assert_eq!(parse_decimal("+", 100), None);
    assert_eq!(parse_decimal("-1", 100), None);
    assert_eq!(parse_decimal("4a", 100), None);
    assert_eq!(parse_decimal("a4", 100), None);
    assert_eq!(parse_decimal(" 4", 100), None);
    assert_eq!(parse_decimal("++4", 100), None);
    assert_eq!(parse_decimal("٤", 100), None);
    assert_eq!(parse_decimal("18446744073709551615", u64::MAX), Some(u64::MAX));
    assert_eq!(parse_decimal("18446744073709551616", u64::MAX), None);
    assert_eq!(parse_decimal("99999999999999999999999", u64::MAX), None);
    for text in ["0", "17", "+65535", "65536", "x", "", "+", "007"] {
        assert_eq!(
            parse_decimal(text, u16::MAX as u64),
            text.parse::<u16>().ok().map(|n| n as u64),
            "{:?}",
            text
        );
    }
}

#[test]
fn equal_texts() {
    assert!(same_text("", ""));
    assert!(same_text("abc", "abc"));
    assert!(!same_text("abc", "abd"));
    assert!(!same_text("abc", "ab"));
    assert!(same_text("grüß", "grüß"));
    assert!(!same_text("grüß", "gruss"));
}

#[test]
fn characters() {
    assert_eq!(chars_of("aé漢"), vec!['a', 'é', '漢']);
    assert!(chars_of("").is_empty());
    assert!(contains_char("Gtk.Widget", '.'));
    assert!(!contains_char("Widget", '.'));
    assert!(!contains_char("", '.'));
    assert_eq!(replace_char("a-b-c", '-', '_'), "a_b_c");
    assert_eq!(replace_char("", '-', '_'), "");
    assert_eq!(replace_char("é-é", '-', '_'), "é_é");
}

#[test]
fn replacing() {
    assert_eq!(replace("a%NULLb%NULL", "%NULL", "nil"), "anilbnil");
    assert_eq!(replace("aaa", "aa", "b"), "ba");
    assert_eq!(replace("abc", "", "x"), "abc");
    assert_eq!(replace("", "a", "x"), "");
    assert_eq!(replace("ab", "abc", "x"), "ab");
    for (text, from, to) in [
        ("one\ntwo\n", "\n", "\n--- "),
        ("aXbXXc", "X", ""),
        ("aaaa", "aa", "aaa"),
        ("abcabc", "bc", "d"),
        ("ééé", "é", "e"),
        ("%NUL%NULL", "%NULL", "nil"),
    ] {
        assert_eq!(replace(text, from, to), text.replace(from, to), "{:?}", (text, from, to));
    }
}

#[test]
fn suffixes() {
    assert!(has_suffix("WidgetClass", "Class"));
    assert!(has_suffix("Class", "Class"));
    assert!(has_suffix("a", ""));
    assert!(!has_suffix("lass", "Class"));
    assert!(!has_suffix("WidgetClasses", "Class"));
}

#[test]
fn joining_and_padding() {
    let items = vec!["a".to_string(), "b".to_string(), "c".to_string()];
    assert_eq!(join(&items, ", "), "a, b, c");
    assert_eq!(join(&items[..1].to_vec(), ", "), "a");
    assert_eq!(join(&Vec::new(), ", "), "");
    assert_eq!(repeat("ab", 3), "ababab");
    assert_eq!(repeat("ab", 0), "");
    assert_eq!(repeat("=", 76), format!("{:=>76}", "="));
    for (text, width) in [("abc", 5usize), ("abc", 3), ("abc", 2), ("", 4), ("é", 3)] {
        assert_eq!(pad_left(text, width), format!("{:>width$}", text, width = width));
    }
}

#[test]
fn lines() {
    assert_eq!(lines_of("a\nb\r\n\nc"), vec!["a", "b", "", "c"]);
    for text in ["", "a", "a\n", "a\n\n", "\n", "a\r", "a\r\nb", "\r\n", "a\rb\n", "one\ntwo", "\n\na"] {
        let expected: Vec<String> = text.lines().map(|line| line.to_string()).collect();
        assert_eq!(lines_of(text), expected, "{:?}", text);
    }
}

#[test]
fn attributes_and_text_of_an_element() {
    let element = XmlElement {
        name: "doc".to_string(),
        attributes: vec![
            Attribute { name: "a".to_string(), value: "1".to_string() },
            Attribute { name: "b".to_string(), value: "2".to_string() },
            Attribute { name: "a".to_string(), value: "3".to_string() },
        ],
        children: vec![
            Node::Text("one".to_string()),
            Node::Comment("no".to_string()),
            Node::Element(XmlElement { name: "x".to_string(), attributes: vec![], children: vec![] }),
            Node::CData(" two".to_string()),
        ],
    };
    assert_eq!(element.attribute("a").map(|v| v.as_str()), Some("1"));
    assert_eq!(element.attribute("b").map(|v| v.as_str()), Some("2"));
    assert_eq!(element.attribute("c"), None);
    assert_eq!(element.text().as_deref(), Some("one two"));
    let empty = XmlElement { name: "x".to_string(), attributes: vec![], children: vec![] };
    assert_eq!(empty.text(), None);
}
