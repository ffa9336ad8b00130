use vstd::prelude::*;

use rand::{thread_rng, Rng};

verus! {

/// ASCII letters and digits: the only characters a confirmation token may
/// hold.
pub open spec fn is_token_char(c: char) -> bool {
    ||| 'a' <= c && c <= 'z'
    ||| 'A' <= c && c <= 'Z'
    ||| '0' <= c && c <= '9'
}

/// Confirmation tokens are exactly 25 ASCII letters or digits.
pub open spec fn is_well_formed_token(s: Seq<char>) -> bool {
    &&& s.len() == 25
    &&& forall|i: int| 0 <= i < s.len() ==> is_token_char(#[trigger] s[i])
}

/// Relies on rand's `Alphanumeric` distribution over `thread_rng`: every
/// sampled byte is an ASCII letter or digit, and 25 of them are drawn. The
/// value itself is unpredictable, so nothing more is promised of it.
#[verifier::external_body]
fn sample_alphanumeric_token() -> (t: String)
    ensures
        is_well_formed_token(t@),
{
    let mut rng = thread_rng();
    std::iter::repeat_with(|| rng.sample(rand::distributions::Alphanumeric))
        .map(char::from)
        .take(25)
        .collect()
}

/// Draws one fresh confirmation token: 25 ASCII letters or digits from an
/// unpredictable source. The store's insert is the authoritative collision
/// guard, so nothing is promised of the value beyond its shape — and the
/// transport draws its tokens here too, through the same trusted sampling.
pub fn generate_subscription_token() -> (t: String)
    ensures
        is_well_formed_token(t@),
{
    sample_alphanumeric_token()
}

} // verus!
