//! Commit status lookups: which references are commit SHAs, and which HTTP
//! statuses mean that Gitea could not resolve a reference.
use vstd::prelude::*;
use crate::text::{chars_of, is_hex_digit, is_hex_digit_char};
use vstd::string::StringSliceAdditionalSpecFns;

verus! {

/// A reference that looks like a full or abbreviated commit SHA: 7 to 40
/// hexadecimal digits.
pub open spec fn looks_like_commit_sha(reference: Seq<char>) -> bool {
    7 <= reference.len() <= 40 && forall|i: int| 0 <= i < reference.len() ==> is_hex_digit(
        #[trigger] reference[i],
    )
}

/// An ASCII hexadecimal digit as a byte (`u8::is_ascii_hexdigit`).
pub open spec fn is_hex_byte(b: u8) -> bool {
    ||| (48 <= b && b <= 57)
    ||| (97 <= b && b <= 102)
    ||| (65 <= b && b <= 70)
}

/// A reference, as UTF-8 bytes, that looks like a commit SHA: 7 to 40
/// bytes, each an ASCII hexadecimal digit.
pub open spec fn bytes_look_like_commit_sha(bytes: Seq<u8>) -> bool {
    7 <= bytes.len() <= 40 && forall|i: int| 0 <= i < bytes.len() ==> is_hex_byte(#[trigger] bytes[i])
}

/// The first byte of the UTF-8 encoding of a character above U+007F is
/// not ASCII.
proof fn lemma_leading_bytes_are_high(v: u32)
    by (bit_vector)
    ensures
        vstd::utf8::leading_byte_width_2(v) >= 0x80,
        vstd::utf8::leading_byte_width_3(v) >= 0x80,
        vstd::utf8::leading_byte_width_4(v) >= 0x80,
{
}

/// Characters whose UTF-8 encoding holds only hexadecimal-digit bytes are
/// all ASCII.
proof fn lemma_hex_bytes_mean_ascii(chars: Seq<char>)
    requires
        forall|i: int|
            0 <= i < vstd::utf8::encode_utf8(chars).len() ==> is_hex_byte(
                #[trigger] vstd::utf8::encode_utf8(chars)[i],
            ),
    ensures
        vstd::utf8::is_ascii_chars(chars),
    decreases chars.len(),
{
    broadcast use vstd::utf8::char_is_scalar, vstd::utf8::char_u32_cast;

    if chars.len() > 0 {
        let c = chars[0];
        let e = vstd::utf8::encode_scalar(c as u32);
        let rest = chars.drop_first();
        let all = vstd::utf8::encode_utf8(chars);
        assert(all == e + vstd::utf8::encode_utf8(rest));
        lemma_leading_bytes_are_high(c as u32);
        assert(e.len() > 0);
        assert(all[0] == e[0]);
        assert(is_hex_byte(all[0]));
        assert(c as u32 <= 0x7F);
        assert forall|i: int|
            0 <= i < vstd::utf8::encode_utf8(rest).len() implies is_hex_byte(
            #[trigger] vstd::utf8::encode_utf8(rest)[i],
        ) by {
            assert(all[e.len() + i] == vstd::utf8::encode_utf8(rest)[i]);
        }
        lemma_hex_bytes_mean_ascii(rest);
        assert forall|i: int| 0 <= i < chars.len() implies '\0' <= #[trigger] chars[i] <= '\u{7f}' by {
            if i > 0 {
                assert(chars[i] == rest[i - 1]);
                assert('\0' <= rest[i - 1] <= '\u{7f}');
            } else {
                assert(chars[i] == c);
                assert(c as u32 <= 0x7F);
                let u = c as u32;
                vstd::utf8::char_u32_cast(c, u);
                assert((u as char) == c);
                assert((u as char) <= '\u{7f}');
                assert(c <= '\u{7f}');
            }
        }
    }
}

/// Counted in characters or in UTF-8 bytes, a reference looks like a commit
/// SHA alike: hexadecimal digits are ASCII, one byte each.
pub proof fn law_commit_sha_chars_and_bytes_agree(reference: Seq<char>)
    ensures
        looks_like_commit_sha(reference) == bytes_look_like_commit_sha(
            vstd::utf8::encode_utf8(reference),
        ),
{
    let bytes = vstd::utf8::encode_utf8(reference);
    if looks_like_commit_sha(reference) {
        assert(vstd::utf8::is_ascii_chars(reference)) by {
            assert forall|i: int| 0 <= i < reference.len() implies '\0' <= #[trigger] reference[i]
                <= '\u{7f}' by {
                assert(is_hex_digit(reference[i]));
            }
        }
    }
    if bytes_look_like_commit_sha(bytes) {
        lemma_hex_bytes_mean_ascii(reference);
    }
    if vstd::utf8::is_ascii_chars(reference) {
        vstd::utf8::is_ascii_chars_encode_utf8(reference);
        assert forall|i: int| 0 <= i < reference.len() implies is_hex_digit(#[trigger] reference[i])
            == is_hex_byte(bytes[i]) by {
            assert(reference[i] as u8 == bytes[i]);
            assert('\0' <= reference[i] <= '\u{7f}');
        }
        if looks_like_commit_sha(reference) {
            assert forall|i: int| 0 <= i < bytes.len() implies is_hex_byte(#[trigger] bytes[i]) by {
                assert(is_hex_digit(reference[i]));
            }
        }
        if bytes_look_like_commit_sha(bytes) {
            assert forall|i: int| 0 <= i < reference.len() implies is_hex_digit(#[trigger] reference[i]) by {
                assert(is_hex_byte(bytes[i]));
            }
        }
    }
}

/// A reference that looks like a commit SHA is used directly; others are
/// resolved to a SHA first. Counted in characters or in UTF-8 bytes alike.
pub fn is_likely_commit_sha(reference: &str) -> (r: bool)
    ensures
        r == looks_like_commit_sha(reference@),
        r == bytes_look_like_commit_sha(reference.spec_bytes()),
{
    proof {
        law_commit_sha_chars_and_bytes_agree(reference@);
        assert(reference.spec_bytes() == vstd::utf8::encode_utf8(reference@));
    }
    let chars = chars_of(reference);
    if chars.len() < 7 || chars.len() > 40 {
        return false;
    }
    let mut i: usize = 0;
    while i < chars.len()
        invariant
            i <= chars@.len(),
            chars@ == reference@,
            7 <= chars@.len() <= 40,
            forall|k: int| 0 <= k < i ==> is_hex_digit(#[trigger] chars@[k]),
            looks_like_commit_sha(reference@) == bytes_look_like_commit_sha(reference.spec_bytes()),
        decreases chars.len() - i,
    {
        if !is_hex_digit_char(chars[i]) {
            proof {
                assert(!is_hex_digit(reference@[i as int]));
            }
            return false;
        }
        i = i + 1;
    }
    true
}

/// HTTP 400, 404 and 422: Gitea cannot resolve the reference (it may not
/// have propagated yet after a push, or a proxy rejected an encoded slash).
pub open spec fn unresolvable_ref_status(status: u16) -> bool {
    status == 400 || status == 404 || status == 422
}

/// The HTTP status means that the reference could not be resolved, an
/// expected "no checks" state rather than an API failure.
pub fn is_unresolvable_ref_status(status: u16) -> (r: bool)
    ensures
        r == unresolvable_ref_status(status),
{
    status == 404 || status == 400 || status == 422
}

/// A successful HTTP status: 200 to 299.
pub open spec fn success_status(status: u16) -> bool {
    200 <= status <= 299
}

/// How a lookup request answered.
#[derive(Debug, Clone, Copy, PartialEq, Eq, Structural)]
pub enum LookupStatus {
    /// Gitea cannot resolve the reference: there are no checks to show.
    Unresolvable,
    /// The request failed.
    Failed,
    /// The request succeeded; its body holds the answer.
    Succeeded,
}

/// How a lookup request answered, by its HTTP status: an unresolvable
/// reference first, then success, then failure.
pub fn classify_lookup_status(status: u16) -> (r: LookupStatus)
    ensures
        r == (if unresolvable_ref_status(status) {
            LookupStatus::Unresolvable
        } else if success_status(status) {
            LookupStatus::Succeeded
        } else {
            LookupStatus::Failed
        }),
{
    if is_unresolvable_ref_status(status) {
        LookupStatus::Unresolvable
    } else if 200 <= status && status <= 299 {
        LookupStatus::Succeeded
    } else {
        LookupStatus::Failed
    }
}

/// The first step of resolving a reference to a commit SHA: a reference
/// that looks like a SHA is the SHA itself; anything else (branch names
/// with slashes among them) is looked up through the commits list.
pub fn known_commit_sha(reference: &str) -> (r: Option<String>)
    ensures
        match r {
            Some(s) => looks_like_commit_sha(reference@) && s@ == reference@,
            None => !looks_like_commit_sha(reference@),
        },
{
    if is_likely_commit_sha(reference) {
        Some(reference.to_string())
    } else {
        None
    }
}

/// The SHA a commits lookup resolves to: that of the first commit listed,
/// none when the list is empty.
pub fn first_commit_sha(shas: Vec<String>) -> (r: Option<String>)
    ensures
        match r {
            Some(s) => shas@.len() > 0 && s@ == shas@[0]@,
            None => shas@.len() == 0,
        },
{
    let mut shas = shas;
    if shas.len() == 0 {
        None
    } else {
        Some(shas.swap_remove(0))
    }
}

} // verus!
