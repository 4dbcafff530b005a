use vstd::prelude::*;

verus! {

/// True when `c` is a digit or one of the letters `a` to `f`.
pub open spec fn is_lower_hex(c: char) -> bool {
    ('0' <= c && c <= '9') || ('a' <= c && c <= 'f')
}

/// True at the four positions where the hyphenated form of a UUID has a hyphen.
pub open spec fn is_hyphen_position(i: int) -> bool {
    i == 8 || i == 13 || i == 18 || i == 23
}

/// The text shape of a random (version 4) UUID in hyphenated lower-case form:
/// 32 lower-case hex digits in groups of 8-4-4-4-12, whose version digit is `4`.
pub open spec fn is_v4_uuid_text(s: Seq<char>) -> bool {
    &&& s.len() == 36
    &&& s[14] == '4'
    &&& forall|i: int|
        0 <= i < 36 ==> (if is_hyphen_position(i) {
            s[i] == '-'
        } else {
            is_lower_hex(#[trigger] s[i])
        })
}

/// Relies on `uuid::Uuid::new_v4` and the `Display` impl of `uuid::Uuid`:
/// a fresh UUID drawn from the process-wide random source (122 random bits),
/// written in its hyphenated lower-case form.
#[verifier::external_body]
fn random_uuid_text() -> (r: String)
    ensures
        is_v4_uuid_text(r@),
{
    uuid::Uuid::new_v4().to_string()
}

/// Issues a fresh state token for one authorization attempt.
///
/// The value is unguessable (it carries 122 random bits); what is stated here
/// is its shape, which holds of every value issued.
pub fn issue_state() -> (r: String)
    ensures
        is_v4_uuid_text(r@),
        r@.len() == 36,
{
    random_uuid_text()
}

} // verus!
