//! Human-readable device descriptions parsed from a `User-Agent` header.

use vstd::prelude::*;
use crate::text::{chars_of, contains_str, has_substring, to_lowercase, unicode_lowercase};

verus! {

broadcast use vstd::string::group_string_axioms;

/// The browser named by a user agent; the first marker found wins.
pub open spec fn browser_of(ua: Seq<char>) -> Seq<char> {
    if has_substring(ua, "Edg/"@) {
        "Edge"@
    } else if has_substring(ua, "Firefox/"@) {
        "Firefox"@
    } else if has_substring(ua, "Chromium/"@) {
        "Chromium"@
    } else if has_substring(ua, "Chrome/"@) {
        "Chrome"@
    } else if has_substring(ua, "Safari/"@) {
        "Safari"@
    } else {
        "Unknown"@
    }
}

/// The operating system named by a user agent; the first marker found wins.
pub open spec fn os_of(ua: Seq<char>) -> Seq<char> {
    if has_substring(ua, "iPhone"@) {
        "iPhone"@
    } else if has_substring(ua, "iPad"@) {
        "iPad"@
    } else if has_substring(ua, "HarmonyOS"@) {
        "HarmonyOS"@
    } else if has_substring(ua, "Android"@) {
        "Android"@
    } else if has_substring(ua, "CrOS"@) {
        "ChromeOS"@
    } else if has_substring(ua, "Mac OS X"@) || has_substring(ua, "Macintosh"@)
        || has_substring(ua, "OS X"@) {
        "macOS"@
    } else if has_substring(ua, "Windows"@) {
        "Windows"@
    } else if has_substring(ua, "FreeBSD"@) {
        "FreeBSD"@
    } else if has_substring(ua, "OpenBSD"@) {
        "OpenBSD"@
    } else if has_substring(ua, "Linux"@) {
        "Linux"@
    } else {
        "Unknown"@
    }
}

/// Whether a user agent carries any of the operating-system markers.
pub open spec fn has_os_marker(ua: Seq<char>) -> bool {
    has_substring(ua, "iPhone"@) || has_substring(ua, "iPad"@) || has_substring(ua, "HarmonyOS"@)
        || has_substring(ua, "Android"@) || has_substring(ua, "CrOS"@) || has_substring(
        ua,
        "Mac OS X"@,
    ) || has_substring(ua, "Macintosh"@) || has_substring(ua, "OS X"@) || has_substring(
        ua,
        "Windows"@,
    ) || has_substring(ua, "FreeBSD"@) || has_substring(ua, "OpenBSD"@) || has_substring(
        ua,
        "Linux"@,
    )
}

/// An operating system is named exactly when the user agent carries one of
/// the markers; a user agent that says `Linux` and carries none of the
/// markers checked before it is Linux, and one that says `Windows` and none
/// before it is Windows.
pub proof fn lemma_os_markers(ua: Seq<char>)
    ensures
        has_os_marker(ua) <==> os_of(ua) != "Unknown"@,
        has_substring(ua, "Linux"@) && !has_substring(ua, "iPhone"@) && !has_substring(ua, "iPad"@)
            && !has_substring(ua, "HarmonyOS"@) && !has_substring(ua, "Android"@)
            && !has_substring(ua, "CrOS"@) && !has_substring(ua, "Mac OS X"@) && !has_substring(
            ua,
            "Macintosh"@,
        ) && !has_substring(ua, "OS X"@) && !has_substring(ua, "Windows"@) && !has_substring(
            ua,
            "FreeBSD"@,
        ) && !has_substring(ua, "OpenBSD"@) ==> os_of(ua) == "Linux"@,
        has_substring(ua, "Windows"@) && !has_substring(ua, "iPhone"@) && !has_substring(
            ua,
            "iPad"@,
        ) && !has_substring(ua, "HarmonyOS"@) && !has_substring(ua, "Android"@)
            && !has_substring(ua, "CrOS"@) && !has_substring(ua, "Mac OS X"@) && !has_substring(
            ua,
            "Macintosh"@,
        ) && !has_substring(ua, "OS X"@) ==> os_of(ua) == "Windows"@,
        has_substring(ua, "Android"@) && !has_substring(ua, "iPhone"@) && !has_substring(
            ua,
            "iPad"@,
        ) && !has_substring(ua, "HarmonyOS"@) ==> os_of(ua) == "Android"@,
        has_substring(ua, "iPhone"@) ==> os_of(ua) == "iPhone"@,
{
    reveal_strlit("Unknown");
    reveal_strlit("iPhone");
    reveal_strlit("iPad");
    reveal_strlit("HarmonyOS");
    reveal_strlit("Android");
    reveal_strlit("ChromeOS");
    reveal_strlit("macOS");
    reveal_strlit("Windows");
    reveal_strlit("FreeBSD");
    reveal_strlit("OpenBSD");
    reveal_strlit("Linux");
    assert("iPhone"@[0] != "Unknown"@[0]);
    assert("iPad"@[0] != "Unknown"@[0]);
    assert("HarmonyOS"@[0] != "Unknown"@[0]);
    assert("Android"@[0] != "Unknown"@[0]);
    assert("ChromeOS"@[0] != "Unknown"@[0]);
    assert("macOS"@[0] != "Unknown"@[0]);
    assert("Windows"@[0] != "Unknown"@[0]);
    assert("FreeBSD"@[0] != "Unknown"@[0]);
    assert("OpenBSD"@[0] != "Unknown"@[0]);
    assert("Linux"@[0] != "Unknown"@[0]);
}

/// Whether a user agent carries any of the browser markers.
pub open spec fn has_browser_marker(ua: Seq<char>) -> bool {
    has_substring(ua, "Edg/"@) || has_substring(ua, "Firefox/"@) || has_substring(ua, "Chromium/"@)
        || has_substring(ua, "Chrome/"@) || has_substring(ua, "Safari/"@)
}

/// A browser is named exactly when the user agent carries one of the
/// markers; Edge wins over every other, Firefox over the Chrome and Safari
/// markers, Chrome over Safari.
pub proof fn lemma_browser_markers(ua: Seq<char>)
    ensures
        has_browser_marker(ua) <==> browser_of(ua) != "Unknown"@,
        has_substring(ua, "Edg/"@) ==> browser_of(ua) == "Edge"@,
        has_substring(ua, "Firefox/"@) && !has_substring(ua, "Edg/"@) ==> browser_of(ua)
            == "Firefox"@,
        has_substring(ua, "Chrome/"@) && !has_substring(ua, "Edg/"@) && !has_substring(
            ua,
            "Firefox/"@,
        ) && !has_substring(ua, "Chromium/"@) ==> browser_of(ua) == "Chrome"@,
        has_substring(ua, "Safari/"@) && !has_substring(ua, "Edg/"@) && !has_substring(
            ua,
            "Firefox/"@,
        ) && !has_substring(ua, "Chromium/"@) && !has_substring(ua, "Chrome/"@) ==> browser_of(
            ua,
        ) == "Safari"@,
{
    reveal_strlit("Unknown");
    reveal_strlit("Edge");
    reveal_strlit("Firefox");
    reveal_strlit("Chromium");
    reveal_strlit("Chrome");
    reveal_strlit("Safari");
    assert("Edge"@[0] != "Unknown"@[0]);
    assert("Firefox"@[0] != "Unknown"@[0]);
    assert("Chromium"@[0] != "Unknown"@[0]);
    assert("Chrome"@[0] != "Unknown"@[0]);
    assert("Safari"@[0] != "Unknown"@[0]);
}

/// A Firefox user agent (without the Edge marker) that says `Linux` and
/// carries no operating-system marker checked before it is described as
/// `Firefox on Linux`.
pub proof fn lemma_device_name_parts(ua: Seq<char>)
    ensures
        has_substring(ua, "Firefox/"@) && !has_substring(ua, "Edg/"@) && has_substring(
            ua,
            "Linux"@,
        ) && !has_os_marker_before_linux(ua) ==> device_name_of(ua) == "Firefox on Linux"@,
{
    reveal_strlit("Firefox");
    reveal_strlit("Linux");
    reveal_strlit(" on ");
    reveal_strlit("Firefox on Linux");
    if has_substring(ua, "Firefox/"@) && !has_substring(ua, "Edg/"@) && has_substring(ua, "Linux"@)
        && !has_os_marker_before_linux(ua) {
        assert(device_name_of(ua) =~= "Firefox on Linux"@);
    }
}

/// Whether a user agent carries an operating-system marker that is checked
/// before `Linux`.
pub open spec fn has_os_marker_before_linux(ua: Seq<char>) -> bool {
    has_substring(ua, "iPhone"@) || has_substring(ua, "iPad"@) || has_substring(ua, "HarmonyOS"@)
        || has_substring(ua, "Android"@) || has_substring(ua, "CrOS"@) || has_substring(
        ua,
        "Mac OS X"@,
    ) || has_substring(ua, "Macintosh"@) || has_substring(ua, "OS X"@) || has_substring(
        ua,
        "Windows"@,
    ) || has_substring(ua, "FreeBSD"@) || has_substring(ua, "OpenBSD"@)
}

/// "<browser> on <os>" for a user agent.
pub open spec fn device_name_of(ua: Seq<char>) -> Seq<char> {
    browser_of(ua) + " on "@ + os_of(ua)
}

/// The device class of an already lowercased user agent.
pub open spec fn device_type_of_lower(ua: Seq<char>) -> Seq<char> {
    if has_substring(ua, "tablet"@) || has_substring(ua, "ipad"@) {
        "tablet"@
    } else if has_substring(ua, "mobile"@) || has_substring(ua, "iphone"@) || (has_substring(
        ua,
        "android"@,
    ) && !has_substring(ua, "tablet"@)) {
        "mobile"@
    } else {
        "desktop"@
    }
}

/// A lowercased user agent that says `tablet` or `ipad` is a tablet; one
/// that says neither but says `mobile`, `iphone` or `android` is a phone;
/// one that says none of these is a desktop.
pub proof fn lemma_device_type_markers(ua: Seq<char>)
    ensures
        has_substring(ua, "tablet"@) || has_substring(ua, "ipad"@) ==> device_type_of_lower(ua)
            == "tablet"@,
        !has_substring(ua, "tablet"@) && !has_substring(ua, "ipad"@) && (has_substring(
            ua,
            "mobile"@,
        ) || has_substring(ua, "iphone"@) || has_substring(ua, "android"@))
            ==> device_type_of_lower(ua) == "mobile"@,
        !has_substring(ua, "tablet"@) && !has_substring(ua, "ipad"@) && !has_substring(
            ua,
            "mobile"@,
        ) && !has_substring(ua, "iphone"@) && !has_substring(ua, "android"@)
            ==> device_type_of_lower(ua) == "desktop"@,
{
}

/// The device class of a user agent: its lowercase form is matched.
pub open spec fn device_type_of(ua: Seq<char>) -> Seq<char> {
    device_type_of_lower(unicode_lowercase(ua))
}

/// Parse a human-readable device name from a User-Agent string,
/// such as "Chrome on macOS" or "Safari on iPhone".
pub fn parse_device_name(user_agent: &str) -> (r: String)
    ensures
        r@ == device_name_of(user_agent@),
{
    let browser = parse_browser(user_agent);
    let os = parse_os(user_agent);
    let r = String::from_str(browser).concat(" on ").concat(os);
    r
}

/// Parse the device type from a User-Agent string:
/// "mobile", "tablet" or "desktop".
pub fn parse_device_type(user_agent: &str) -> (r: String)
    ensures
        r@ == device_type_of(user_agent@),
        r@ == "mobile"@ || r@ == "tablet"@ || r@ == "desktop"@,
{
    let lower = to_lowercase(user_agent);
    device_type_of_lowercase(lower.as_str())
}

/// The device type of a user agent that is already in lowercase.
pub fn device_type_of_lowercase(ua: &str) -> (r: String)
    ensures
        r@ == device_type_of_lower(ua@),
        r@ == "mobile"@ || r@ == "tablet"@ || r@ == "desktop"@,
{
    let ua = chars_of(ua);
    if contains_str(&ua, "tablet") || contains_str(&ua, "ipad") {
        String::from_str("tablet")
    } else if contains_str(&ua, "mobile") || contains_str(&ua, "iphone") || (contains_str(
        &ua,
        "android",
    ) && !contains_str(&ua, "tablet")) {
        String::from_str("mobile")
    } else {
        String::from_str("desktop")
    }
}

/// The browser named by a user agent.
pub fn parse_browser(ua: &str) -> (r: &'static str)
    ensures
        r@ == browser_of(ua@),
{
    let s = chars_of(ua);
    if contains_str(&s, "Edg/") {
        "Edge"
    } else if contains_str(&s, "Firefox/") {
        "Firefox"
    } else if contains_str(&s, "Chromium/") {
        "Chromium"
    } else if contains_str(&s, "Chrome/") {
        "Chrome"
    } else if contains_str(&s, "Safari/") {
        "Safari"
    } else {
        "Unknown"
    }
}

/// The operating system named by a user agent.
pub fn parse_os(ua: &str) -> (r: &'static str)
    ensures
        r@ == os_of(ua@),
{
    let s = chars_of(ua);
    if contains_str(&s, "iPhone") {
        "iPhone"
    } else if contains_str(&s, "iPad") {
        "iPad"
    } else if contains_str(&s, "HarmonyOS") {
        "HarmonyOS"
    } else if contains_str(&s, "Android") {
        "Android"
    } else if contains_str(&s, "CrOS") {
        "ChromeOS"
    } else if contains_str(&s, "Mac OS X") || contains_str(&s, "Macintosh") || contains_str(
        &s,
        "OS X",
    ) {
        "macOS"
    } else if contains_str(&s, "Windows") {
        "Windows"
    } else if contains_str(&s, "FreeBSD") {
        "FreeBSD"
    } else if contains_str(&s, "OpenBSD") {
        "OpenBSD"
    } else if contains_str(&s, "Linux") {
        "Linux"
    } else {
        "Unknown"
    }
}

} // verus!
