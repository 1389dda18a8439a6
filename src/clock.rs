use vstd::prelude::*;

verus! {

/// Relies on `SystemTime::now` and `SystemTime::duration_since(UNIX_EPOCH)`:
/// the time elapsed since the Unix epoch as whole seconds and the
/// milliseconds of the second begun (`Duration::subsec_millis`, below one
/// thousand), or `None` where the clock reads earlier than the epoch.
#[verifier::external_body]
fn unix_time() -> (r: Option<(u64, u32)>)
    ensures
        r matches Some((_, ms)) ==> ms < 1000,
{
    std::time::SystemTime::now().duration_since(std::time::UNIX_EPOCH).ok().map(
        |d| (d.as_secs(), d.subsec_millis()),
    )
}

/// The current time in whole seconds since the Unix epoch (zero where the
/// clock reads earlier than the epoch).
pub fn now() -> u64 {
    match unix_time() {
        Some((secs, _)) => secs,
        None => 0,
    }
}

/// The current time in milliseconds since the Unix epoch (zero where the
/// clock reads earlier than the epoch).
pub fn now_millis() -> u128 {
    match unix_time() {
        Some((secs, ms)) => secs as u128 * 1000 + ms as u128,
        None => 0,
    }
}

/// A lowercase hexadecimal digit.
pub open spec fn is_lower_hex_digit(c: char) -> bool {
    (48 <= c as u32 <= 57) || (97 <= c as u32 <= 102)
}

/// The text form of a version-4 UUID: 36 characters, hyphens at positions
/// 8, 13, 18 and 23, lowercase hexadecimal digits elsewhere, the version
/// digit `4` at position 14, and the variant digit (one of `8`, `9`, `a`,
/// `b`) at position 19.
pub open spec fn is_uuid_v4_text(s: Seq<char>) -> bool {
    &&& s.len() == 36
    &&& forall|i: int|
        0 <= i < 36 ==> if i == 8 || i == 13 || i == 18 || i == 23 {
            #[trigger] s[i] == '-'
        } else {
            is_lower_hex_digit(s[i])
        }
    &&& s[14] == '4'
    &&& (s[19] == '8' || s[19] == '9' || s[19] == 'a' || s[19] == 'b')
}

/// Relies on `uuid::Uuid::new_v4` and its `Display` (`LowerHex` of the
/// hyphenated form): a random version-4 UUID of the RFC 4122 variant as
/// lowercase 8-4-4-4-12 text.
#[verifier::external_body]
pub(crate) fn new_token() -> (r: String)
    ensures
        is_uuid_v4_text(r@),
{
    uuid::Uuid::new_v4().to_string()
}

} // verus!
