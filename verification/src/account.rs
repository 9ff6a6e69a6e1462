use vstd::prelude::*;
use vstd::string::*;

verus! {

/// Characters that may appear in a NEAR account id.
pub open spec fn is_account_char(c: char) -> bool {
    ('a' <= c && c <= 'z') || ('0' <= c && c <= '9') || is_separator(c)
}

/// The separators of a NEAR account id.
pub open spec fn is_separator(c: char) -> bool {
    c == '-' || c == '_' || c == '.'
}

/// What makes a string a valid NEAR account id: 2 to 64 characters out of
/// `a-z`, `0-9`, `-`, `_`, `.`, not starting or ending with a separator and
/// with no two separators in a row.
pub open spec fn is_valid_account_id(s: Seq<char>) -> bool {
    &&& 2 <= s.len() <= 64
    &&& forall|i: int| 0 <= i < s.len() ==> is_account_char(#[trigger] s[i])
    &&& !is_separator(s[0])
    &&& !is_separator(s[s.len() - 1])
    &&& forall|i: int| 0 <= i < s.len() - 1 ==> !(#[trigger] is_separator(s[i]) && is_separator(s[i + 1]))
}

/// Asks `near_sdk::AccountId::validate` whether `s` parses as an account id.
/// Trusted: the crate's validation accepts exactly the strings described by
/// `is_valid_account_id` (length bounds, allowed characters, separator rules).
#[verifier::external_body]
pub(crate) fn account_id_is_valid(s: &str) -> (valid: bool)
    ensures
        valid == is_valid_account_id(s@),
{
    near_sdk::AccountId::validate(s).is_ok()
}

/// The full account id of sub-account `name` under `tla_id`.
pub open spec fn spec_sub_account_key(tla_id: Seq<char>, name: Seq<char>) -> Seq<char> {
    name + "."@ + tla_id
}

pub fn sub_account_key(tla_id: &String, name: &String) -> (key: String)
    ensures
        key@ == spec_sub_account_key(tla_id@, name@),
{
    let mut key = name.clone();
    key.append(".");
    key.append(tla_id.as_str());
    key
}

} // verus!
