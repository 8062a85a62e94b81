//! Window labels: the fixed label of the primary window and the generated
//! labels of secondary windows.

use vstd::prelude::*;
use vstd::string::*;

verus! {

/// The label of the primary window.
pub const PRIMARY_LABEL: &'static str = "main";

/// What every secondary window's label starts with.
pub const SECONDARY_PREFIX: &'static str = "window-";

/// The number of characters of a random token.
pub const TOKEN_LEN: usize = 32;

/// A digit of lower-case hexadecimal notation.
pub open spec fn is_lower_hex(c: char) -> bool {
    ('0' <= c && c <= '9') || ('a' <= c && c <= 'f')
}

/// The shape of a random token: a version 4 UUID in lower-case hexadecimal
/// notation without hyphens.
pub open spec fn is_token(token: Seq<char>) -> bool {
    &&& token.len() == TOKEN_LEN
    &&& forall|i: int| 0 <= i < token.len() ==> is_lower_hex(#[trigger] token[i])
    &&& token[12] == '4'
    &&& token[16] == '8' || token[16] == '9' || token[16] == 'a' || token[16] == 'b'
}

/// The label of the secondary window made from `token`.
pub open spec fn secondary_label_of(token: Seq<char>) -> Seq<char> {
    SECONDARY_PREFIX@ + token
}

/// Whether `label` has the form of a secondary window's label.
pub open spec fn is_secondary_label(label: Seq<char>) -> bool {
    SECONDARY_PREFIX@.is_prefix_of(label)
}

/// Whether `label` is a secondary label made from a random token.
pub open spec fn is_generated_label(label: Seq<char>) -> bool {
    is_secondary_label(label) && is_token(label.skip(SECONDARY_PREFIX@.len() as int))
}

/// The label made from a token is a generated label.
pub proof fn lemma_token_gives_generated_label(token: Seq<char>)
    requires
        is_token(token),
    ensures
        is_generated_label(secondary_label_of(token)),
{
    let n = SECONDARY_PREFIX@.len() as int;
    assert(secondary_label_of(token).subrange(0, n) =~= SECONDARY_PREFIX@);
    assert(secondary_label_of(token).skip(n) =~= token);
}

/// The primary label does not have the form of a secondary label, so no token
/// yields it.
pub proof fn lemma_primary_is_not_secondary()
    ensures
        !is_secondary_label(PRIMARY_LABEL@),
        forall|token: Seq<char>| #[trigger] secondary_label_of(token) != PRIMARY_LABEL@,
        forall|token: Seq<char>| is_secondary_label(#[trigger] secondary_label_of(token)),
{
    reveal_strlit("main");
    reveal_strlit("window-");
    assert(PRIMARY_LABEL@[0] == 'm');
    assert(SECONDARY_PREFIX@[0] == 'w');
    assert forall|token: Seq<char>| #[trigger] secondary_label_of(token) != PRIMARY_LABEL@ by {
        assert(secondary_label_of(token)[0] == 'w');
    }
    assert forall|token: Seq<char>| is_secondary_label(#[trigger] secondary_label_of(token)) by {
        assert(secondary_label_of(token).subrange(0, SECONDARY_PREFIX@.len() as int)
            =~= SECONDARY_PREFIX@);
    }
}

/// Two tokens give the same label only if they are the same token: windows
/// made from different tokens never share a label.
pub proof fn law_label_determines_token(a: Seq<char>, b: Seq<char>)
    requires
        secondary_label_of(a) == secondary_label_of(b),
    ensures
        a == b,
{
    let n = SECONDARY_PREFIX@.len() as int;
    assert(a =~= secondary_label_of(a).subrange(n, n + a.len()));
    assert(b =~= secondary_label_of(b).subrange(n, n + b.len()));
    assert(secondary_label_of(a).len() == n + a.len());
    assert(secondary_label_of(b).len() == n + b.len());
}

/// Calls `uuid::Uuid::new_v4` and writes the result with `Uuid::simple`: the 32
/// lower-case hexadecimal digits of a random UUID, whose thirteenth digit gives
/// the version, 4, and whose seventeenth the variant. Which token comes back,
/// nothing says: two calls may give the same. The call fails, with a panic,
/// only where the operating system has no random bytes to give.
#[verifier::external_body]
pub(crate) fn random_token() -> (token: String)
    ensures
        is_token(token@),
{
    uuid::Uuid::new_v4().simple().to_string()
}

/// The label of the secondary window made from `token`.
pub fn secondary_label(token: &str) -> (label: String)
    ensures
        label@ == secondary_label_of(token@),
{
    let mut label = SECONDARY_PREFIX.to_owned();
    label.append(token);
    label
}

} // verus!
