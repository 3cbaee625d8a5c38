use rand::Rng;
use vstd::prelude::*;

verus! {

/// The characters a generated password is drawn from.
pub const PASSWORD_CHARSET: &'static str = "abcdefghijklmnopqrstuvwxyz0123456789";

/// The number of characters in the password alphabet.
pub const PASSWORD_CHARSET_LEN: usize = 36;

/// The password alphabet.
pub open spec fn charset_spec() -> Seq<char> {
    "abcdefghijklmnopqrstuvwxyz0123456789"@
}

/// Relies on rand::thread_rng and Rng::gen_range, which draw a number from
/// `0..bound` (and panic only on an empty range).
#[verifier::external_body]
fn random_below(bound: usize) -> (r: usize)
    requires
        bound > 0,
    ensures
        r < bound,
{
    rand::thread_rng().gen_range(0..bound)
}

/// The password that picks, for each index, that character of the alphabet.
pub fn password_from_indices(indices: &Vec<usize>) -> (r: String)
    requires
        forall|i: int| 0 <= i < indices@.len() ==> indices@[i] < PASSWORD_CHARSET_LEN,
    ensures
        r@.len() == indices@.len(),
        forall|i: int| 0 <= i < indices@.len() ==> r@[i] == charset_spec()[indices@[i] as int],
{
    proof {
        reveal_strlit("abcdefghijklmnopqrstuvwxyz0123456789");
    }
    let charset: &str = PASSWORD_CHARSET;
    assert(charset@ == charset_spec());
    let mut out = String::new();
    let mut k: usize = 0;
    while k < indices.len()
        invariant
            charset@ == charset_spec(),
            charset_spec().len() == PASSWORD_CHARSET_LEN,
            k <= indices@.len(),
            forall|i: int| 0 <= i < indices@.len() ==> indices@[i] < PASSWORD_CHARSET_LEN,
            out@.len() == k,
            forall|i: int| 0 <= i < k ==> out@[i] == charset_spec()[indices@[i] as int],
        decreases indices@.len() - k,
    {
        let idx = indices[k];
        let c = charset.substring_char(idx, idx + 1);
        out.append(c);
        k = k + 1;
    }
    out
}

/// A random password of `length` characters of the alphabet.
pub fn generate_password(length: usize) -> (r: String)
    ensures
        r@.len() == length,
        forall|i: int| 0 <= i < r@.len() ==> charset_spec().contains(#[trigger] r@[i]),
{
    let mut indices: Vec<usize> = Vec::new();
    let mut k: usize = 0;
    while k < length
        invariant
            k <= length,
            indices@.len() == k,
            forall|i: int| 0 <= i < indices@.len() ==> indices@[i] < PASSWORD_CHARSET_LEN,
        decreases length - k,
    {
        indices.push(random_below(PASSWORD_CHARSET_LEN));
        k = k + 1;
    }
    let r = password_from_indices(&indices);
    proof {
        reveal_strlit("abcdefghijklmnopqrstuvwxyz0123456789");
        assert forall|i: int| 0 <= i < r@.len() implies charset_spec().contains(#[trigger] r@[i]) by {
            let j = indices@[i] as int;
            assert(charset_spec()[j] == r@[i]);
        }
    }
    r
}

} // verus!
