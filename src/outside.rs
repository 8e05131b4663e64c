use vstd::prelude::*;

verus! {

/// What `str::trim` returns for a text: the text without its leading and
/// trailing Unicode white space.
pub uninterp spec fn trimmed(s: Seq<char>) -> Seq<char>;

/// Relies on `str::trim`: the result depends on the characters alone, and an
/// empty text stays empty.
#[verifier::external_body]
pub(crate) fn trim(s: &String) -> (r: String)
    ensures
        r@ == trimmed(s@),
        s@.len() == 0 ==> r@.len() == 0,
{
    s.trim().to_string()
}

/// Relies on `ulid::Ulid::generate`: a new identifier drawn from the clock and
/// a random source. Nothing is known of its value.
#[verifier::external_body]
pub(crate) fn fresh_id() -> (r: u128) {
    ulid::Ulid::generate().0
}

} // verus!
