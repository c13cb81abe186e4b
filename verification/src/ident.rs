//! Widget identifiers.
//!
//! Every created widget gets a fresh random 128-bit identifier, rendered in
//! the standard hyphenated string form of a version-4 UUID. The shape of
//! that rendering is pinned down here as a spec, the generator is a trusted
//! call into the `uuid` crate, and a verified checker decides the shape for
//! any string.

use vstd::prelude::*;

verus! {

/// A lowercase hexadecimal digit character.
pub open spec fn is_hex_digit(c: char) -> bool {
    (48 <= c as int && c as int <= 57) || (97 <= c as int && c as int <= 102)
}

/// What the character at position `i` of a hyphenated version-4 UUID string
/// must be: a hyphen at positions 8, 13, 18 and 23, the version digit `'4'`
/// at position 14, one of `'8'`, `'9'`, `'a'`, `'b'` (the RFC 4122 variant)
/// at position 19, and a lowercase hexadecimal digit everywhere else.
pub open spec fn uuid_char_ok(i: int, c: char) -> bool {
    if i == 8 || i == 13 || i == 18 || i == 23 {
        c == '-'
    } else if i == 14 {
        c == '4'
    } else if i == 19 {
        c == '8' || c == '9' || c == 'a' || c == 'b'
    } else {
        is_hex_digit(c)
    }
}

/// A syntactically valid hyphenated version-4 UUID string: 36 characters,
/// each as `uuid_char_ok` demands.
pub open spec fn is_uuid_v4_str(s: Seq<char>) -> bool {
    s.len() == 36 && forall|i: int| 0 <= i < 36 ==> uuid_char_ok(i, #[trigger] s[i])
}

/// Relies on `uuid::Uuid::new_v4` and `Uuid`'s `Display` impl: a random
/// UUID with the version nibble forced to 4 and the variant nibble forced
/// into 8..=b, rendered as 36 lowercase hexadecimal digits with hyphens at
/// positions 8, 13, 18 and 23. Nothing is promised about which identifier
/// comes back: the value is random.
#[verifier::external_body]
pub(crate) fn new_widget_id() -> (r: String)
    ensures
        is_uuid_v4_str(r@),
{
    uuid::Uuid::new_v4().to_string()
}

/// Decides whether `s` has the shape of a hyphenated version-4 UUID string.
pub fn is_uuid_v4_shaped(s: &str) -> (r: bool)
    ensures
        r == is_uuid_v4_str(s@),
{
    let n: usize = s.unicode_len();
    if n != 36 {
        return false;
    }
    let mut i: usize = 0;
    while i < 36
        invariant
            0 <= i <= 36,
            s@.len() == 36,
            forall|j: int| 0 <= j < i ==> uuid_char_ok(j, #[trigger] s@[j]),
        decreases 36 - i,
    {
        let c: char = s.get_char(i);
        let v: u32 = c as u32;
        let ok: bool = if i == 8 || i == 13 || i == 18 || i == 23 {
            c == '-'
        } else if i == 14 {
            c == '4'
        } else if i == 19 {
            c == '8' || c == '9' || c == 'a' || c == 'b'
        } else {
            (48 <= v && v <= 57) || (97 <= v && v <= 102)
        };
        if !ok {
            return false;
        }
        i = i + 1;
    }
    true
}

} // verus!
