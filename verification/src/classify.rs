//! Classifying free-text input into a query kind.
//!
//! An account address is a 32-byte value written as exactly 44 base58
//! characters; a transaction signature is a 64-byte value written in at
//! most 88 base58 characters.  Both forms are parsed structurally; a
//! string that parses as neither is `Invalid`, never silently treated as
//! one of the kinds.

use vstd::prelude::*;
use vstd::string::*;
use crate::base58::{b58_decode, b58_decoded, b58_valid};

verus! {

/// What a query string was classified as.
#[derive(Debug, Clone, Copy, PartialEq, Eq, Structural)]
pub enum QueryKind {
    AccountAddress,
    TransactionSignature,
    Empty,
    Invalid,
}

/// A 44-character base58 string that decodes to exactly 32 bytes.
pub open spec fn is_address_chars(s: Seq<char>) -> bool {
    s.len() == 44 && b58_valid(s) && b58_decoded(s).len() == 32
}

/// A base58 string of at most 88 characters that decodes to exactly 64
/// bytes.
pub open spec fn is_signature_chars(s: Seq<char>) -> bool {
    s.len() <= 88 && b58_valid(s) && b58_decoded(s).len() == 64
}

/// The kind every string classifies to: empty first, then the two
/// structured forms, and `Invalid` for everything else.
pub open spec fn classify_chars(s: Seq<char>) -> QueryKind {
    if s.len() == 0 {
        QueryKind::Empty
    } else if is_address_chars(s) {
        QueryKind::AccountAddress
    } else if is_signature_chars(s) {
        QueryKind::TransactionSignature
    } else {
        QueryKind::Invalid
    }
}

/// Classify a query string by parsing it.
pub fn classify(input: &str) -> (k: QueryKind)
    ensures
        k == classify_chars(input@),
{
    let n = input.unicode_len();
    if n == 0 {
        return QueryKind::Empty;
    }
    match b58_decode(input) {
        None => QueryKind::Invalid,
        Some(bytes) => {
            if n == 44 && bytes.len() == 32 {
                QueryKind::AccountAddress
            } else if n <= 88 && bytes.len() == 64 {
                QueryKind::TransactionSignature
            } else {
                QueryKind::Invalid
            }
        },
    }
}

/// Whether `input` is a well-formed transaction signature.
pub fn is_valid_signature(input: &str) -> (b: bool)
    ensures
        b == is_signature_chars(input@),
{
    match classify(input) {
        QueryKind::TransactionSignature => true,
        _ => {
            proof {
                if is_signature_chars(input@) {
                    assert(input@.len() != 0);
                    assert(b58_decoded(input@).len() == 64);
                }
            }
            false
        },
    }
}

/// A string that is not a well-formed signature and does not have the
/// 44-character address length never classifies as an address or a
/// signature.
pub proof fn lemma_wrong_length_never_address(s: Seq<char>)
    requires
        s.len() != 44,
        !is_signature_chars(s),
    ensures
        classify_chars(s) == QueryKind::Invalid || classify_chars(s) == QueryKind::Empty,
{
}

/// Every valid 44-character base58 address classifies as an account
/// address.
pub proof fn lemma_valid_address_classified(s: Seq<char>)
    requires
        is_address_chars(s),
    ensures
        classify_chars(s) == QueryKind::AccountAddress,
{
}

} // verus!
