//! Text that the application hands to webviews and to the operating system:
//! scripts that quote strings as JSON, and the command line that opens
//! YouTube links in the application.
use vstd::prelude::*;

verus! {

/// The type of serde_json's errors.
#[verifier::external_type_specification]
#[verifier::external_body]
pub struct ExJsonError(serde_json::Error);

/// A lower-case hexadecimal digit for `d`, which is below sixteen.
pub open spec fn hex_digit(d: nat) -> char {
    if d < 10 {
        (48 + d) as char
    } else {
        (87 + d) as char
    }
}

/// How a character is written inside a JSON string: quote, backslash and
/// control characters escaped, the short forms where JSON has them and
/// `\u00XX` otherwise; every other character as it is.
pub open spec fn json_escape_char(c: char) -> Seq<char> {
    let n = c as u32;
    if c == '"' {
        seq!['\\', '"']
    } else if c == '\\' {
        seq!['\\', '\\']
    } else if n == 0x08 {
        seq!['\\', 'b']
    } else if n == 0x09 {
        seq!['\\', 't']
    } else if n == 0x0A {
        seq!['\\', 'n']
    } else if n == 0x0C {
        seq!['\\', 'f']
    } else if n == 0x0D {
        seq!['\\', 'r']
    } else if n < 0x20 {
        seq!['\\', 'u', '0', '0', hex_digit((n / 16) as nat), hex_digit((n % 16) as nat)]
    } else {
        seq![c]
    }
}

/// The escaped characters of `s`, in order.
pub open spec fn json_escape(s: Seq<char>) -> Seq<char>
    decreases s.len(),
{
    if s.len() == 0 {
        Seq::empty()
    } else {
        json_escape(s.drop_last()) + json_escape_char(s.last())
    }
}

/// `s` as a JSON string literal: escaped and in double quotes.
pub open spec fn json_string_spec(s: Seq<char>) -> Seq<char> {
    seq!['"'] + json_escape(s) + seq!['"']
}

/// Calls `serde_json::to_string` on a string. Its contract claims what the
/// serializer's source shows for a `str`: the result is always `Ok` and holds
/// the string in double quotes, with `"` and `\` escaped by a backslash,
/// backspace, tab, line feed, form feed and carriage return written as
/// `\b \t \n \f \r`, the other characters below U+0020 as `\u00` and two
/// lower-case hexadecimal digits, and all other characters unchanged.
#[verifier::external_body]
fn json_string(s: &str) -> (r: Result<String, serde_json::Error>)
    ensures
        r is Ok,
        r is Ok ==> r->Ok_0@ == json_string_spec(s@),
{
    serde_json::to_string(s)
}

/// The JSON literal of `s`, or the empty string if serialization failed.
fn json_string_or_empty(s: &str) -> (r: String)
    ensures
        r@ == json_string_spec(s@),
{
    match json_string(s) {
        Ok(j) => j,
        Err(_) => String::new(),
    }
}

/// The first line of a tab's start-up script, which tells the page its tab
/// label: `window.__YTD_TAB_LABEL__ = <label as JSON>;` and a line feed. The
/// host appends the rest of the page script after it.
pub fn tab_label_script(label: &str) -> (r: String)
    ensures
        r@ == "window.__YTD_TAB_LABEL__ = "@ + json_string_spec(label@) + ";\n"@,
{
    let mut r = String::from_str("window.__YTD_TAB_LABEL__ = ");
    let j = json_string_or_empty(label);
    r.append(j.as_str());
    r.append(";\n");
    r
}

/// A script that sends a webview to `url`: `location.href = <url as JSON>;`.
pub open spec fn navigation_script_spec(url: Seq<char>) -> Seq<char> {
    "location.href = "@ + json_string_spec(url) + ";"@
}

/// The script that sends the active tab to `url`; `None` would mean that the
/// address could not be quoted, which does not happen for a string.
pub fn navigation_script(url: &str) -> (r: Option<String>)
    ensures
        r matches Some(s) && s@ == navigation_script_spec(url@),
{
    match json_string(url) {
        Ok(j) => {
            let mut r = String::from_str("location.href = ");
            r.append(j.as_str());
            r.append(";");
            Some(r)
        },
        Err(_) => None,
    }
}

/// The script that plays a queued video in the active tab (see
/// [`navigation_script_spec`]).
pub fn queue_navigation_script(url: &str) -> (r: String)
    ensures
        r@ == navigation_script_spec(url@),
{
    let mut r = String::from_str("location.href = ");
    let j = json_string_or_empty(url);
    r.append(j.as_str());
    r.append(";");
    r
}

/// The command that the operating system runs to open a YouTube link in the
/// application at `exe`: the path in double quotes, a space, and the link
/// placeholder `%1` in double quotes.
pub fn handler_command(exe: &str) -> (r: String)
    ensures
        r@ == "\""@ + exe@ + "\" \"%1\""@,
{
    let mut r = String::from_str("\"");
    r.append(exe);
    r.append("\" \"%1\"");
    r
}

} // verus!
