//! The script that points a window's web content at an address.

use vstd::prelude::*;
use vstd::string::*;

verus! {

/// What the script starts with, up to the quoted address.
pub const SCRIPT_HEAD: &'static str = "window.location.replace(";

/// What the script ends with, after the quoted address.
pub const SCRIPT_TAIL: &'static str = ");";

/// `text` as `str`'s `Debug` writes it: between double quotes, with the
/// characters escaped that a string literal cannot hold as they are.
pub uninterp spec fn debug_quoted(text: Seq<char>) -> Seq<char>;

/// The call of `window.location.replace` on `argument`, as a statement.
pub open spec fn replace_call_of(argument: Seq<char>) -> Seq<char> {
    SCRIPT_HEAD@ + argument + SCRIPT_TAIL@
}

/// The script that sends a window to `url`.
pub open spec fn navigation_script_of(url: Seq<char>) -> Seq<char> {
    replace_call_of(debug_quoted(url))
}

/// Formats `text` with `{:?}`, that is by `<str as Debug>::fmt`.
#[verifier::external_body]
pub(crate) fn quote(text: &str) -> (quoted: String)
    ensures
        quoted@ == debug_quoted(text@),
{
    format!("{:?}", text)
}

/// The statement that calls `window.location.replace` on `argument`, which is
/// taken as it is.
pub fn replace_call(argument: &str) -> (script: String)
    ensures
        script@ == replace_call_of(argument@),
{
    let mut script = SCRIPT_HEAD.to_owned();
    script.append(argument);
    script.append(SCRIPT_TAIL);
    script
}

/// The script that replaces a window's location by `url`, with `url` quoted as
/// a string literal.
pub fn navigation_script(url: &str) -> (script: String)
    ensures
        script@ == navigation_script_of(url@),
{
    let quoted = quote(url);
    replace_call(quoted.as_str())
}

} // verus!
