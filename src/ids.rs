use vstd::prelude::*;

verus! {

/// The 128-bit value of a UUID text, or `None` where `uuid` does not accept the text.
pub uninterp spec fn uuid_value_of(s: Seq<char>) -> Option<u128>;

/// The hyphenated lower-case text of a UUID value.
pub uninterp spec fn uuid_text_of(u: u128) -> Seq<char>;

/// Relies on `uuid::Uuid::parse_str`: whether and to what value a text parses depends on the
/// text alone.
#[verifier::external_body]
pub(crate) fn parse_uuid(s: &str) -> (r: Option<u128>)
    ensures
        r == uuid_value_of(s@),
{
    uuid::Uuid::parse_str(s).ok().map(|u| u.as_u128())
}

/// Relies on `uuid::Uuid`'s `Display`: the hyphenated form, 36 characters.
#[verifier::external_body]
pub(crate) fn uuid_text(u: u128) -> (r: String)
    ensures
        r@ == uuid_text_of(u),
        r@.len() == 36,
        forall|i: int|
            0 <= i < 36 ==> if i == 8 || i == 13 || i == 18 || i == 23 {
                #[trigger] r@[i] == '-'
            } else {
                ('0' <= r@[i] && r@[i] <= '9') || ('a' <= r@[i] && r@[i] <= 'f')
            },
{
    uuid::Uuid::from_u128(u).to_string()
}

/// Relies on `getrandom::fill`: `n` bytes from the system's random source, where it answers.
#[verifier::external_body]
pub(crate) fn random_bytes(n: usize) -> (r: Option<Vec<u8>>)
    ensures
        r matches Some(b) ==> b@.len() == n,
{
    let mut bytes = vec![0u8; n];
    getrandom::fill(&mut bytes).ok()?;
    Some(bytes)
}

/// The version-4 UUID that 16 random bytes make once its version and variant bits are set.
pub uninterp spec fn uuid_v4_of(b: Seq<u8>) -> u128;

/// Relies on `uuid::Builder::from_random_bytes`: the UUID depends on the bytes alone.
#[verifier::external_body]
fn uuid_v4_from(b: &[u8]) -> (r: u128)
    requires
        b@.len() == 16,
    ensures
        r == uuid_v4_of(b@),
        (r >> 76u128) & 0xfu128 == 4,
        (r >> 62u128) & 0x3u128 == 2,
{
    let mut bytes = [0u8; 16];
    bytes.copy_from_slice(b);
    uuid::Builder::from_random_bytes(bytes).into_uuid().as_u128()
}

/// A fresh random UUID; `None` where the random source does not answer.
pub fn new_uuid_v4() -> (r: Option<u128>)
    ensures
        r matches Some(u) ==> exists|b: Seq<u8>| b.len() == 16 && u == uuid_v4_of(b),
{
    let b = random_bytes(16)?;
    Some(uuid_v4_from(b.as_slice()))
}

} // verus!
