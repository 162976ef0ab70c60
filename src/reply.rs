use vstd::prelude::*;
use vstd::string::StrSliceExecFns;

verus! {

/// What `str::trim` leaves of the given characters.
pub uninterp spec fn trimmed_of(s: Seq<char>) -> Seq<char>;

/// Relies on `str::trim`: the result depends on the characters alone.
#[verifier::external_body]
fn trim(s: &str) -> (r: &str)
    ensures
        r@ == trimmed_of(s@),
{
    s.trim()
}

/// An operator's answer to a prompt: the answer itself, or the remembered
/// default when the answer is empty.
pub open spec fn reply_of(answer: Seq<char>, default: Seq<char>) -> Seq<char> {
    if answer.len() == 0 {
        default
    } else {
        answer
    }
}

/// Picks between an already trimmed answer and the default.
pub fn pick_reply(trimmed: &str, default: &str) -> (r: String)
    ensures
        r@ == reply_of(trimmed@, default@),
{
    if trimmed.unicode_len() == 0 {
        default.to_owned()
    } else {
        trimmed.to_owned()
    }
}

/// The value an operator's raw input line stands for: the line without
/// surrounding whitespace, or the default when nothing else is left.
pub fn choose_reply(line: &str, default: &str) -> (r: String)
    ensures
        r@ == reply_of(trimmed_of(line@), default@),
{
    pick_reply(trim(line), default)
}

} // verus!
