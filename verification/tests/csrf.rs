use modo::csrf::template::{csrf_field, csrf_token, html_escape};

#[test]
fn escape_special_characters() {
    assert_eq!(html_escape("a&b\"c<d>e"), "a&amp;b&quot;c&lt;d&gt;e");
    assert_eq!(html_escape("plain"), "plain");
    assert_eq!(html_escape(""), "");
    assert_eq!(html_escape("é'"), "é'");
}

#[test]
fn token_function() {
    assert_eq!(csrf_token("tok".to_string()).unwrap(), "tok");
    let err = csrf_token(String::new()).unwrap_err();
    assert!(err.message.contains("csrf_token not found"));
}

#[test]
fn field_function() {
    assert_eq!(
        csrf_field("a<b".to_string(), None).unwrap(),
        "<input type=\"hidden\" name=\"_csrf_token\" value=\"a&lt;b\">"
    );
    assert_eq!(
        csrf_field("t".to_string(), Some("tok".to_string())).unwrap(),
        "<input type=\"hidden\" name=\"tok\" value=\"t\">"
    );
    assert!(csrf_field(String::new(), None).is_err());
}

#[test]
fn unescaping_an_escape_gives_the_text_back() {
    let s = "&lt; & \"x\" <y> 'z'";
    let e = html_escape(s);
    let back = e.replace("&quot;", "\"").replace("&lt;", "<").replace("&gt;", ">").replace("&amp;", "&");
    assert_eq!(back, s);
    assert_eq!(e, "&amp;lt; &amp; &quot;x&quot; &lt;y&gt; 'z'");
}
