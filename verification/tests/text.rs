use todo_htmx::text::{escape_html, is_blank, is_whitespace, push_decimal, push_escaped};

fn decimal_of(n: i32) -> String {
    let mut out = String::new();
    push_decimal(&mut out, n);
    out
}

#[test]
fn escape_replaces_the_five_characters() {
    assert_eq!(escape_html("&"), "&amp;");
    assert_eq!(escape_html("<"), "&lt;");
    assert_eq!(escape_html(">"), "&gt;");
    assert_eq!(escape_html("\""), "&quot;");
    assert_eq!(escape_html("'"), "&#39;");
}

#[test]
fn escape_keeps_everything_else() {
    assert_eq!(escape_html(""), "");
    assert_eq!(escape_html("Buy milk"), "Buy milk");
    assert_eq!(escape_html("caf\u{e9} \u{1F600} / = ;"), "caf\u{e9} \u{1F600} / = ;");
}

#[test]
fn escape_works_character_by_character() {
    assert_eq!(
        escape_html("<a href=\"x\">Tom & 'Jerry'</a>"),
        "&lt;a href=&quot;x&quot;&gt;Tom &amp; &#39;Jerry&#39;&lt;/a&gt;"
    );
    assert_eq!(escape_html("&amp;"), "&amp;amp;");
}

#[test]
fn escaped_text_holds_no_tag_or_quote() {
    let out = escape_html("<<>>\"\"''&&plain");
    assert!(!out.contains('<'));
    assert!(!out.contains('>'));
    assert!(!out.contains('"'));
    assert!(!out.contains('\''));
}

#[test]
fn escape_of_two_texts_is_the_two_escapes() {
    let a = "x < y";
    let b = " & y > z";
    let joined = format!("{}{}", a, b);
    assert_eq!(escape_html(&joined), format!("{}{}", escape_html(a), escape_html(b)));
}

#[test]
fn push_escaped_appends() {
    let mut out = String::from("<b>");
    push_escaped(&mut out, "1 < 2");
    assert_eq!(out, "<b>1 &lt; 2");
}

#[test]
fn decimal_of_small_numbers() {
    assert_eq!(decimal_of(0), "0");
    assert_eq!(decimal_of(7), "7");
    assert_eq!(decimal_of(9), "9");
    assert_eq!(decimal_of(10), "10");
    assert_eq!(decimal_of(42), "42");
    assert_eq!(decimal_of(100), "100");
    assert_eq!(decimal_of(1234567890), "1234567890");
}

#[test]
fn decimal_of_negative_numbers_and_the_limits() {
    assert_eq!(decimal_of(-1), "-1");
    assert_eq!(decimal_of(-305), "-305");
    assert_eq!(decimal_of(i32::MAX), "2147483647");
    assert_eq!(decimal_of(i32::MIN), "-2147483648");
}

#[test]
fn decimal_agrees_with_the_standard_numeral() {
    let mut n: i64 = i32::MIN as i64;
    while n <= i32::MAX as i64 {
        assert_eq!(decimal_of(n as i32), (n as i32).to_string());
        n += 9_999_991;
    }
}

#[test]
fn push_decimal_appends() {
    let mut out = String::from("/check/");
    push_decimal(&mut out, 15);
    assert_eq!(out, "/check/15");
}

#[test]
fn whitespace_is_what_the_standard_library_calls_whitespace() {
    let mut code: u32 = 0;
    while code <= 0x10FFFF {
        if let Some(c) = char::from_u32(code) {
            assert_eq!(is_whitespace(c), c.is_whitespace(), "code point {:x}", code);
        }
        code += 1;
    }
}

#[test]
fn blank_texts() {
    assert!(is_blank(""));
    assert!(is_blank(" "));
    assert!(is_blank("   "));
    assert!(is_blank("\t\n\r "));
    assert!(is_blank("\u{a0}\u{2003}\u{3000}"));
}

#[test]
fn texts_that_are_not_blank() {
    assert!(!is_blank("a"));
    assert!(!is_blank("  a  "));
    assert!(!is_blank("   ."));
    assert!(!is_blank("\u{200b}"));
    assert!(!is_blank("Buy milk"));
}

#[test]
fn blank_agrees_with_trimming() {
    let samples = ["", " ", "x", " x", "x ", "\u{85}", "\u{1680} \u{2028}\u{2029}", "\u{feff}", "\u{202f}\u{205f}", "a\tb"];
    for sample in samples {
        assert_eq!(is_blank(sample), sample.trim().is_empty(), "{:?}", sample);
    }
}
