//! Security headers added to every response.

use vstd::prelude::*;
use crate::text::{decimal, decimal_string};

verus! {

broadcast use vstd::string::group_string_axioms;

/// The deployment environment.
#[derive(Debug, Clone, Copy, PartialEq, Eq, Structural)]
pub enum Environment {
    Development,
    Production,
}

/// Which security headers to send, and with what values.
#[derive(Debug, Clone)]
pub struct SecurityHeadersConfig {
    pub enabled: bool,
    pub x_content_type_options: Option<String>,
    pub x_frame_options: Option<String>,
    pub referrer_policy: Option<String>,
    pub permissions_policy: Option<String>,
    pub content_security_policy: Option<String>,
    pub hsts: bool,
    pub hsts_max_age: u64,
}

/// A header `name` with the configured value, when one is configured.
pub open spec fn optional_header(name: Seq<char>, value: Option<String>) -> Seq<
    (Seq<char>, Seq<char>),
> {
    match value {
        Some(v) => seq![(name, v@)],
        None => Seq::empty(),
    }
}

/// The value of the `Strict-Transport-Security` header.
pub open spec fn hsts_value(max_age: u64) -> Seq<char> {
    "max-age="@ + decimal(max_age as nat) + "; includeSubDomains"@
}

/// The headers that a configuration asks for, in order: each configured
/// header, then HSTS when it is on and the environment is production.
pub open spec fn configured_headers(config: SecurityHeadersConfig, env: Environment) -> Seq<
    (Seq<char>, Seq<char>),
> {
    optional_header("x-content-type-options"@, config.x_content_type_options) + optional_header(
        "x-frame-options"@,
        config.x_frame_options,
    ) + optional_header("referrer-policy"@, config.referrer_policy) + optional_header(
        "permissions-policy"@,
        config.permissions_policy,
    ) + optional_header("content-security-policy"@, config.content_security_policy) + if config.hsts
        && env == Environment::Production {
        seq![("strict-transport-security"@, hsts_value(config.hsts_max_age))]
    } else {
        Seq::empty()
    }
}

/// HSTS is requested only when it is switched on and the environment is
/// production: otherwise no requested header, and so no header set, is
/// named `strict-transport-security`. When it is on in production, the
/// last requested header is HSTS with the configured max-age.
pub proof fn lemma_hsts_only_when_on(config: SecurityHeadersConfig, env: Environment)
    ensures
        !(config.hsts && env == Environment::Production) ==> forall|i: int|
            0 <= i < configured_headers(config, env).len() ==> (#[trigger] configured_headers(
                config,
                env,
            )[i]).0 != "strict-transport-security"@,
        !(config.hsts && env == Environment::Production) ==> forall|i: int|
            0 <= i < settable_headers(configured_headers(config, env)).len() ==> (
            #[trigger] settable_headers(configured_headers(config, env))[i]).0
                != "strict-transport-security"@,
        config.hsts && env == Environment::Production ==> configured_headers(config, env).last()
            == ("strict-transport-security"@, hsts_value(config.hsts_max_age)),
{
    reveal_strlit("strict-transport-security");
    reveal_strlit("x-content-type-options");
    reveal_strlit("x-frame-options");
    reveal_strlit("referrer-policy");
    reveal_strlit("permissions-policy");
    reveal_strlit("content-security-policy");
    let all = configured_headers(config, env);
    let a = optional_header("x-content-type-options"@, config.x_content_type_options);
    let b = optional_header("x-frame-options"@, config.x_frame_options);
    let c = optional_header("referrer-policy"@, config.referrer_policy);
    let d = optional_header("permissions-policy"@, config.permissions_policy);
    let e = optional_header("content-security-policy"@, config.content_security_policy);
    let front = a + b + c + d + e;
    assert forall|i: int| 0 <= i < front.len() implies (#[trigger] front[i]).0.len() != 25 by {
        let ab = a + b;
        let abc = ab + c;
        let abcd = abc + d;
        if i < abcd.len() {
            if i < abc.len() {
                if i < ab.len() {
                    if i < a.len() {
                        assert(front[i] == a[i]);
                    } else {
                        assert(front[i] == b[i - a.len()]);
                    }
                } else {
                    assert(front[i] == c[i - ab.len()]);
                }
            } else {
                assert(front[i] == d[i - abc.len()]);
            }
        } else {
            assert(front[i] == e[i - abcd.len()]);
        }
    }
    if !(config.hsts && env == Environment::Production) {
        assert(all =~= front);
        let kept = settable_headers(all);
        assert forall|i: int| 0 <= i < kept.len() implies (#[trigger] kept[i]).0
            != "strict-transport-security"@ by {
            all.lemma_filter_contains_rev(settable(), kept[i]);
            assert(kept.contains(kept[i]));
        }
    }
}

/// A character that may stand in a header value: any character from the
/// space on except DEL, and the tab. (Characters beyond ASCII are written
/// as bytes of 128 and more, which are allowed.)
pub open spec fn header_value_char_ok(c: char) -> bool {
    ((c as u32) >= 32 && (c as u32) != 127) || c == '\t'
}

/// A text that may be a header value: each of its characters may.
pub open spec fn header_value_valid(v: Seq<char>) -> bool {
    forall|i: int| 0 <= i < v.len() ==> #[trigger] header_value_char_ok(v[i])
}

/// A header pair whose value may be set.
pub open spec fn settable() -> spec_fn((Seq<char>, Seq<char>)) -> bool {
    |p: (Seq<char>, Seq<char>)| header_value_valid(p.1)
}

/// The pairs among `s`, in order, whose value may be set; the others are
/// skipped.
pub open spec fn settable_headers(s: Seq<(Seq<char>, Seq<char>)>) -> Seq<(Seq<char>, Seq<char>)> {
    s.filter(settable())
}

/// `HeaderValue::from_str` of `http`, asked only whether it succeeds.
/// Claimed: it succeeds exactly when every byte of `v` is 32 or more and not
/// 127, or a tab; said of characters, `header_value_valid`.
#[verifier::external_body]
fn header_value_ok(v: &str) -> (r: bool)
    ensures
        r == header_value_valid(v@),
{
    http::HeaderValue::from_str(v).is_ok()
}

/// The text of each header pair.
pub open spec fn header_views(v: Seq<(String, String)>) -> Seq<(Seq<char>, Seq<char>)> {
    v.map_values(|p: (String, String)| (p.0@, p.1@))
}

/// Append `name: value` when a value is configured.
fn push_optional(headers: &mut Vec<(String, String)>, name: &str, value: &Option<String>)
    ensures
        header_views(final(headers)@) == header_views(old(headers)@) + optional_header(
            name@,
            *value,
        ),
{
    let ghost before = headers@;
    match value {
        Some(v) => {
            headers.push((String::from_str(name), v.clone()));
            assert(header_views(headers@) =~= header_views(before) + optional_header(
                name@,
                *value,
            ));
        },
        None => {
            assert(header_views(headers@) =~= header_views(before) + optional_header(
                name@,
                *value,
            ));
        },
    }
}

/// The headers (name, value) that `config` asks for in `env`, before the
/// invalid values are skipped.
fn requested_headers(config: &SecurityHeadersConfig, env: Environment) -> (r: Vec<
    (String, String),
>)
    ensures
        header_views(r@) == configured_headers(*config, env),
{
    let mut headers: Vec<(String, String)> = Vec::new();
    assert(header_views(headers@) =~= Seq::<(Seq<char>, Seq<char>)>::empty());
    push_optional(&mut headers, "x-content-type-options", &config.x_content_type_options);
    push_optional(&mut headers, "x-frame-options", &config.x_frame_options);
    push_optional(&mut headers, "referrer-policy", &config.referrer_policy);
    push_optional(&mut headers, "permissions-policy", &config.permissions_policy);
    push_optional(&mut headers, "content-security-policy", &config.content_security_policy);
    let ghost before = headers@;
    if config.hsts && env == Environment::Production {
        let val = String::from_str("max-age=").concat(
            decimal_string(config.hsts_max_age).as_str(),
        ).concat("; includeSubDomains");
        headers.push((String::from_str("strict-transport-security"), val));
        assert(header_views(headers@) =~= header_views(before).push(
            ("strict-transport-security"@, hsts_value(config.hsts_max_age)),
        ));
    }
    assert(header_views(headers@) =~= configured_headers(*config, env));
    headers
}

/// The headers (name, value) that a response receives under `config` in
/// `env`: those configured, in order, except any whose value is not a valid
/// header value, which is skipped.
pub fn apply_headers(config: &SecurityHeadersConfig, env: Environment) -> (r: Vec<
    (String, String),
>)
    ensures
        header_views(r@) == settable_headers(configured_headers(*config, env)),
{
    let all = requested_headers(config, env);
    let ghost whole = header_views(all@);
    let mut out: Vec<(String, String)> = Vec::new();
    proof {
        reveal(Seq::filter);
        assert(whole.take(0) =~= Seq::<(Seq<char>, Seq<char>)>::empty());
        assert(header_views(out@) =~= Seq::<(Seq<char>, Seq<char>)>::empty());
    }
    let mut i: usize = 0;
    while i < all.len()
        invariant
            i <= all@.len(),
            whole == header_views(all@),
            header_views(out@) == whole.take(i as int).filter(settable()),
        decreases all@.len() - i,
    {
        let ok = header_value_ok(all[i].1.as_str());
        let ghost before = out@;
        proof {
            assert(whole.take(i + 1) =~= whole.take(i as int).push(whole[i as int]));
            whole.take(i as int).lemma_filter_push(whole[i as int], settable());
        }
        if ok {
            let pair = (all[i].0.clone(), all[i].1.clone());
            out.push(pair);
            assert(header_views(out@) =~= header_views(before).push(whole[i as int]));
        }
        i = i + 1;
    }
    assert(whole.take(all@.len() as int) =~= whole);
    out
}

/// The security headers a response gets from the middleware: none when the
/// feature is disabled, else those of `apply_headers`.
pub fn response_headers(config: &SecurityHeadersConfig, env: Environment) -> (r: Vec<
    (String, String),
>)
    ensures
        header_views(r@) == if config.enabled {
            settable_headers(configured_headers(*config, env))
        } else {
            Seq::empty()
        },
{
    if config.enabled {
        apply_headers(config, env)
    } else {
        let v: Vec<(String, String)> = Vec::new();
        assert(header_views(v@) =~= Seq::<(Seq<char>, Seq<char>)>::empty());
        v
    }
}

} // verus!
