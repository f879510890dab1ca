use rand::rngs::StdRng;
use rand::Rng;
use rand::SeedableRng;
use vstd::prelude::*;

verus! {

/// The text form of an identifier, as the `uuid` crate writes it.
pub uninterp spec fn uuid_text(id: u128) -> Seq<char>;

/// Relies on uuid::Uuid::new_v4: a random identifier, read as its 128-bit value.
/// Nothing is known of the value. Like the crate, it panics if the system
/// cannot supply random bytes.
#[verifier::external_body]
pub(crate) fn fresh_uuid() -> (r: u128) {
    uuid::Uuid::new_v4().as_u128()
}

/// Relies on uuid's hyphenated form (`Uuid::from_u128`, `Uuid::hyphenated`,
/// then `to_string`): the text depends on the value alone.
#[verifier::external_body]
pub(crate) fn uuid_string(id: u128) -> (r: String)
    ensures
        r@ == uuid_text(id),
{
    uuid::Uuid::from_u128(id).hyphenated().to_string()
}

/// Relies on rand's `StdRng::from_entropy` and `Rng::gen_range` over an
/// inclusive range, which returns a value inside it and panics on an empty
/// range. `from_entropy` also panics if the system cannot supply entropy.
#[verifier::external_body]
pub(crate) fn draw_in_range(low: u64, high: u64) -> (r: u64)
    requires
        low <= high,
    ensures
        low <= r <= high,
{
    let mut rng: StdRng = SeedableRng::from_entropy();
    rng.gen_range(low..=high)
}

} // verus!
