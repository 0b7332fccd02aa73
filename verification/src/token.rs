//! Random token generation.
//!
//! Both per-attempt CSRF tokens and session tokens are opaque credentials
//! and must come from a cryptographically secure source with at least 128
//! bits of entropy, rendered over a URL-safe alphabet.

use vstd::prelude::*;

verus! {

/// A character of the unpadded base64url alphabet, the alphabet every token
/// of this crate is rendered in.
pub open spec fn is_token_char(c: char) -> bool {
    ||| 65 <= c as int <= 90  // 'A'..='Z'
    ||| 97 <= c as int <= 122  // 'a'..='z'
    ||| 48 <= c as int <= 57  // '0'..='9'
    ||| c == '-'
    ||| c == '_'
}

/// Every character of the sequence is drawn from the base64url alphabet.
pub open spec fn is_token_text(s: Seq<char>) -> bool {
    forall|i: int| 0 <= i < s.len() ==> is_token_char(#[trigger] s[i])
}

/// Relies on oauth2::CsrfToken::new_random: 16 bytes (128 bits) from a
/// cryptographically secure random source, rendered as unpadded base64url,
/// which is 22 characters over the base64url alphabet.  Nothing is promised
/// about which token comes back: two calls may differ.
#[verifier::external_body]
pub(crate) fn random_token() -> (r: String)
    ensures
        r@.len() == 22,
        is_token_text(r@),
{
    oauth2::CsrfToken::new_random().secret().clone()
}

} // verus!
