//! Calls into the random-number crates. What they return depends on chance,
//! so their contracts say only what holds of every outcome.
use vstd::prelude::*;

verus! {

/// Calls `rand::seq::SliceRandom::shuffle` with the thread-local generator
/// (`rand::thread_rng`). Its source swaps elements in place (Fisher-Yates),
/// so the result is a rearrangement of the input: the contract states that
/// the multiset of elements is unchanged, and nothing about the order.
/// `thread_rng` panics only when the operating system's random source cannot
/// seed it, which no argument can cause or rule out.
#[verifier::external_body]
pub(crate) fn shuffle_in_place<T>(v: &mut Vec<T>)
    ensures
        final(v)@.to_multiset() == old(v)@.to_multiset(),
{
    rand::seq::SliceRandom::shuffle(v.as_mut_slice(), &mut rand::thread_rng());
}

/// The text of a version-4 UUID in its hyphenated lower-case form:
/// 8-4-4-4-12 hexadecimal digits, the version digit `4` at position 14 and
/// the variant digit (one of `8`, `9`, `a`, `b`) at position 19.
pub open spec fn uuid_v4_text(s: Seq<char>) -> bool {
    &&& s.len() == 36
    &&& forall|i: int| 0 <= i < 36 ==> (if i == 8 || i == 13 || i == 18 || i == 23 {
        s[i] == '-'
    } else {
        ('0' <= s[i] && s[i] <= '9') || ('a' <= s[i] && s[i] <= 'f')
    })
    &&& s[14] == '4'
    &&& (s[19] == '8' || s[19] == '9' || s[19] == 'a' || s[19] == 'b')
}

/// Calls `uuid::Uuid::new_v4` and converts the identifier to text with its
/// `Display` impl, which writes the hyphenated lower-case form. The
/// identifier is random: the contract claims only its shape. `new_v4`
/// panics only when the operating system's random source fails, which no
/// argument can cause or rule out.
#[verifier::external_body]
pub(crate) fn new_uuid_v4_text() -> (r: String)
    ensures
        uuid_v4_text(r@),
{
    uuid::Uuid::new_v4().to_string()
}

} // verus!
