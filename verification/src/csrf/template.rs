//! What the `csrf_field()` and `csrf_token()` template functions render.

use vstd::prelude::*;
use crate::text::{chars_of, push_char};

verus! {

broadcast use vstd::string::group_string_axioms;

/// The HTML escape of one character: `&`, `"`, `<` and `>` become
/// entities, every other character stays.
pub open spec fn escape_char(c: char) -> Seq<char> {
    if c == '&' {
        "&amp;"@
    } else if c == '"' {
        "&quot;"@
    } else if c == '<' {
        "&lt;"@
    } else if c == '>' {
        "&gt;"@
    } else {
        seq![c]
    }
}

/// The HTML escape of a character sequence, character by character.
pub open spec fn html_escaped(s: Seq<char>) -> Seq<char>
    decreases s.len(),
{
    if s.len() == 0 {
        Seq::<char>::empty()
    } else {
        html_escaped(s.drop_last()) + escape_char(s.last())
    }
}

/// Escape `&`, `"`, `<` and `>` for use inside an HTML attribute value.
pub fn html_escape(s: &str) -> (r: String)
    ensures
        r@ == html_escaped(s@),
{
    let cs = chars_of(s);
    let mut out = String::new();
    let mut i: usize = 0;
    while i < cs.len()
        invariant
            i <= cs@.len(),
            out@ == html_escaped(cs@.take(i as int)),
        decreases cs@.len() - i,
    {
        let c = cs[i];
        assert(cs@.take(i + 1).drop_last() =~= cs@.take(i as int));
        if c == '&' {
            out.append("&amp;");
        } else if c == '"' {
            out.append("&quot;");
        } else if c == '<' {
            out.append("&lt;");
        } else if c == '>' {
            out.append("&gt;");
        } else {
            push_char(&mut out, c);
            assert(seq![c] =~= escape_char(c));
        }
        i = i + 1;
    }
    assert(cs@.take(cs@.len() as int) =~= cs@);
    out
}

/// A template function failed because the render context lacks what it
/// needs; `message` says what.
#[derive(Debug, Clone)]
pub struct TemplateFunctionError {
    pub message: String,
}

/// The message given when the render context holds no CSRF token.
pub open spec fn missing_token_message() -> Seq<char> {
    "csrf_token not found in template context \u{2014} is the CSRF middleware active?"@
}

/// The field name used when the render context names none.
pub open spec fn default_field_name() -> Seq<char> {
    "_csrf_token"@
}

/// The hidden form field carrying `token` under `field_name`.
pub open spec fn hidden_field(field_name: Seq<char>, token: Seq<char>) -> Seq<char> {
    "<input type=\"hidden\" name=\""@ + field_name + "\" value=\""@ + html_escaped(token)
        + "\">"@
}

/// What `csrf_token()` renders for the token found in the render context
/// (empty when there is none): the token itself, or an error when it is
/// empty.
pub fn csrf_token(token: String) -> (r: Result<String, TemplateFunctionError>)
    ensures
        token@.len() == 0 ==> (r matches Err(e) && e.message@ == missing_token_message()),
        token@.len() > 0 ==> (r matches Ok(s) && s@ == token@),
{
    if token.as_str().is_empty() {
        Err(TemplateFunctionError {
            message: String::from_str(
                "csrf_token not found in template context \u{2014} is the CSRF middleware active?",
            ),
        })
    } else {
        Ok(token)
    }
}

/// What `csrf_field()` renders for the token found in the render context
/// (empty when there is none) and the field name found there: a hidden
/// input holding the escaped token, or an error when the token is empty.
pub fn csrf_field(token: String, field_name: Option<String>) -> (r: Result<
    String,
    TemplateFunctionError,
>)
    ensures
        token@.len() == 0 ==> (r matches Err(e) && e.message@ == missing_token_message()),
        token@.len() > 0 ==> (r matches Ok(s) && s@ == hidden_field(
            match field_name {
                Some(f) => f@,
                None => default_field_name(),
            },
            token@,
        )),
{
    if token.as_str().is_empty() {
        return Err(TemplateFunctionError {
            message: String::from_str(
                "csrf_token not found in template context \u{2014} is the CSRF middleware active?",
            ),
        });
    }
    let name = match field_name {
        Some(f) => f,
        None => String::from_str("_csrf_token"),
    };
    let escaped = html_escape(token.as_str());
    let out = String::from_str("<input type=\"hidden\" name=\"").concat(name.as_str()).concat(
        "\" value=\"",
    ).concat(escaped.as_str()).concat("\">");
    Ok(out)
}

/// Escaping leaves no raw `"`, `<` or `>` in its output.
pub proof fn lemma_escaped_has_no_markup(s: Seq<char>)
    ensures
        forall|i: int|
            0 <= i < html_escaped(s).len() ==> {
                let c = #[trigger] html_escaped(s)[i];
                c != '"' && c != '<' && c != '>'
            },
    decreases s.len(),
{
    reveal_strlit("&amp;");
    reveal_strlit("&quot;");
    reveal_strlit("&lt;");
    reveal_strlit("&gt;");
    if s.len() > 0 {
        lemma_escaped_has_no_markup(s.drop_last());
        let a = html_escaped(s.drop_last());
        let b = escape_char(s.last());
        assert forall|i: int| 0 <= i < (a + b).len() implies {
            let c = #[trigger] (a + b)[i];
            c != '"' && c != '<' && c != '>'
        } by {
            if i >= a.len() {
                assert((a + b)[i] == b[i - a.len()]);
            } else {
                assert((a + b)[i] == a[i]);
            }
        }
    }
}

/// Reading escaped text back: from the front, each of the entities `&amp;`,
/// `&quot;`, `&lt;` and `&gt;` becomes its character, and every other
/// character stays.
pub open spec fn html_unescaped(s: Seq<char>) -> Seq<char>
    decreases s.len(),
{
    if s.len() == 0 {
        Seq::<char>::empty()
    } else if s.len() >= 5 && s.take(5) == "&amp;"@ {
        seq!['&'] + html_unescaped(s.skip(5))
    } else if s.len() >= 6 && s.take(6) == "&quot;"@ {
        seq!['"'] + html_unescaped(s.skip(6))
    } else if s.len() >= 4 && s.take(4) == "&lt;"@ {
        seq!['<'] + html_unescaped(s.skip(4))
    } else if s.len() >= 4 && s.take(4) == "&gt;"@ {
        seq!['>'] + html_unescaped(s.skip(4))
    } else {
        seq![s[0]] + html_unescaped(s.skip(1))
    }
}

/// Escaping works character by character from the front as well.
proof fn lemma_escaped_front(s: Seq<char>)
    requires
        s.len() > 0,
    ensures
        html_escaped(s) == escape_char(s[0]) + html_escaped(s.drop_first()),
    decreases s.len(),
{
    if s.len() == 1 {
        assert(s.drop_last() =~= Seq::<char>::empty());
        assert(s.drop_first() =~= Seq::<char>::empty());
        assert(s.last() == s[0]);
        assert(html_escaped(s.drop_last()) == Seq::<char>::empty());
        assert(Seq::<char>::empty() + escape_char(s[0]) =~= escape_char(s[0]));
        assert(escape_char(s[0]) + Seq::<char>::empty() =~= escape_char(s[0]));
    } else {
        lemma_escaped_front(s.drop_last());
        assert(s.drop_last()[0] == s[0]);
        assert(s.drop_last().drop_first() =~= s.drop_first().drop_last());
        assert(s.drop_first().last() == s.last());
        assert(escape_char(s[0]) + html_escaped(s.drop_last().drop_first()) + escape_char(s.last())
            =~= escape_char(s[0]) + (html_escaped(s.drop_first().drop_last()) + escape_char(
            s.drop_first().last(),
        )));
    }
}

/// Reading back the escape of one character followed by any text gives the
/// character, then the reading of the text.
proof fn lemma_unescape_one(c: char, t: Seq<char>)
    ensures
        html_unescaped(escape_char(c) + t) == seq![c] + html_unescaped(t),
{
    reveal_strlit("&amp;");
    reveal_strlit("&quot;");
    reveal_strlit("&lt;");
    reveal_strlit("&gt;");
    let e = escape_char(c);
    let u = e + t;
    if c == '&' {
        assert(u.take(5) =~= "&amp;"@);
        assert(u.skip(5) =~= t);
    } else if c == '"' {
        assert(u.take(5)[1] == 'q');
        assert(u.take(6) =~= "&quot;"@);
        assert(u.skip(6) =~= t);
    } else if c == '<' {
        assert(u.len() >= 5 ==> u.take(5)[1] == 'l');
        assert(u.len() >= 6 ==> u.take(6)[1] == 'l');
        assert(u.take(4) =~= "&lt;"@);
        assert(u.skip(4) =~= t);
    } else if c == '>' {
        assert(u.len() >= 5 ==> u.take(5)[1] == 'g');
        assert(u.len() >= 6 ==> u.take(6)[1] == 'g');
        assert(u.take(4)[1] == 'g');
        assert(u.take(4) =~= "&gt;"@);
        assert(u.skip(4) =~= t);
    } else {
        assert(u[0] == c);
        assert(u.len() >= 5 ==> u.take(5)[0] == c);
        assert(u.len() >= 6 ==> u.take(6)[0] == c);
        assert(u.len() >= 4 ==> u.take(4)[0] == c);
        assert(u.skip(1) =~= t);
    }
}

/// Replacing the four entities of an escaped text back gives the text that
/// was escaped.
pub proof fn lemma_unescape_escape(s: Seq<char>)
    ensures
        html_unescaped(html_escaped(s)) == s,
    decreases s.len(),
{
    if s.len() == 0 {
    } else {
        lemma_escaped_front(s);
        lemma_unescape_one(s[0], html_escaped(s.drop_first()));
        lemma_unescape_escape(s.drop_first());
        assert(seq![s[0]] + s.drop_first() =~= s);
    }
}

/// Text without `&`, `"`, `<` or `>` is left as it is by escaping.
pub proof fn lemma_escape_plain_unchanged(s: Seq<char>)
    requires
        forall|i: int|
            0 <= i < s.len() ==> {
                let c = #[trigger] s[i];
                c != '&' && c != '"' && c != '<' && c != '>'
            },
    ensures
        html_escaped(s) == s,
    decreases s.len(),
{
    if s.len() > 0 {
        assert(s.last() == s[s.len() - 1]);
        assert forall|i: int| 0 <= i < s.drop_last().len() implies {
            let c = #[trigger] s.drop_last()[i];
            c != '&' && c != '"' && c != '<' && c != '>'
        } by {
            assert(s.drop_last()[i] == s[i]);
        }
        lemma_escape_plain_unchanged(s.drop_last());
        assert(s.drop_last() + seq![s.last()] =~= s);
    }
}

} // verus!

