use microroute::digits::u32_dec;
use microroute::fortunes::{Fortune, html_escape, render_fortunes, render_row};
use microroute::query::parse_count;
use microroute::ser::{Message, Record, json_message, json_record, json_records};

#[test]
fn decimal_rendering() {
    assert_eq!(u32_dec(0), "0");
    assert_eq!(u32_dec(7), "7");
    assert_eq!(u32_dec(10), "10");
    assert_eq!(u32_dec(12345), "12345");
    assert_eq!(u32_dec(u32::MAX), "4294967295");
}

#[test]
fn message_serialization() {
    let m = Message::new();
    assert_eq!(m.message, "Hello, World!");
    assert_eq!(json_message(&m), "{\"message\":\"Hello, World!\"}");
}

#[test]
fn record_serialization() {
    assert_eq!(json_record(&Record { id: 0, value: 0 }), "{\"id\":0,\"randomNumber\":0}");
    assert_eq!(
        json_record(&Record { id: 10000, value: 1 }),
        "{\"id\":10000,\"randomNumber\":1}"
    );
}

#[test]
fn record_list_serialization() {
    assert_eq!(json_records(&Vec::new()), "[]");
    let rs = vec![Record { id: 1, value: 2 }, Record { id: 3, value: 4 }];
    assert_eq!(json_records(&rs), "[{\"id\":1,\"randomNumber\":2},{\"id\":3,\"randomNumber\":4}]");
    let v: serde_json::Value = serde_json::from_str(&json_records(&rs)).unwrap();
    assert_eq!(v.as_array().map(|a| a.len()), Some(2));
}

#[test]
fn html_escaping() {
    assert_eq!(html_escape(""), "");
    assert_eq!(html_escape("plain"), "plain");
    assert_eq!(html_escape("<script>"), "&lt;script&gt;");
    assert_eq!(html_escape("a&b"), "a&amp;b");
    assert_eq!(html_escape("\"quoted\" 'single'"), "&quot;quoted&quot; &#39;single&#39;");
    assert_eq!(html_escape("フレームワーク"), "フレームワーク");
}

#[test]
fn fortune_row_rendering() {
    let f = Fortune { id: 11, message: "<b>&</b>".to_string() };
    assert_eq!(render_row(&f), "<tr><td>11</td><td>&lt;b&gt;&amp;&lt;/b&gt;</td></tr>");
}

#[test]
fn fortunes_page_rendering() {
    let fs = vec![
        Fortune { id: 1, message: "A computer is like air conditioning".to_string() },
        Fortune { id: 2, message: "<danger>".to_string() },
    ];
    let page = render_fortunes(&fs);
    let expected = String::from(
        "<!DOCTYPE html><html><head><title>Fortunes</title></head><body><table><tr><th>id</th><th>message</th></tr>",
    ) + "<tr><td>1</td><td>A computer is like air conditioning</td></tr>"
        + "<tr><td>2</td><td>&lt;danger&gt;</td></tr>"
        + "</table></body></html>";
    assert_eq!(page, expected);
}

#[test]
fn empty_fortune_list_renders_head_and_tail() {
    let page = render_fortunes(&Vec::new());
    assert_eq!(
        page,
        "<!DOCTYPE html><html><head><title>Fortunes</title></head><body><table><tr><th>id</th><th>message</th></tr></table></body></html>"
    );
}

#[test]
fn count_parameter_clamping() {
    let some = |s: &str| Some(s.to_string());
    assert_eq!(parse_count(&None), 1);
    assert_eq!(parse_count(&some("")), 1);
    assert_eq!(parse_count(&some("count=0")), 1);
    assert_eq!(parse_count(&some("count=1")), 1);
    assert_eq!(parse_count(&some("count=20")), 20);
    assert_eq!(parse_count(&some("count=500")), 500);
    assert_eq!(parse_count(&some("count=501")), 500);
    assert_eq!(parse_count(&some("count=9999")), 500);
    assert_eq!(parse_count(&some("count=99999999999999999999")), 500);
    assert_eq!(parse_count(&some("count=abc")), 1);
    assert_eq!(parse_count(&some("count=-3")), 1);
    assert_eq!(parse_count(&some("count=")), 1);
    assert_eq!(parse_count(&some("count")), 1);
    assert_eq!(parse_count(&some("other=5")), 1);
}

#[test]
fn count_parameter_among_pairs() {
    let some = |s: &str| Some(s.to_string());
    assert_eq!(parse_count(&some("a=b&count=7")), 7);
    assert_eq!(parse_count(&some("count=7&a=b")), 7);
    assert_eq!(parse_count(&some("count=5&count=9")), 5);
    assert_eq!(parse_count(&some("discount=9&count=2")), 2);
    assert_eq!(parse_count(&some("&&count=4&&")), 4);
    assert_eq!(parse_count(&some("count=007")), 7);
}
