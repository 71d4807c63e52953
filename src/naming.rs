use crate::entity_type::{lemma_name_key, EntityType};
use vstd::prelude::*;

verus! {

/// The lookup key of a piece of text: its length together with its first, last,
/// second-to-last and fourth-to-last characters (zero where the text is shorter).
/// Text that is too short or too long to be a name, or that has a character
/// outside ASCII at one of those places, has key zero, which no name has.
pub open spec fn name_key(s: Seq<char>) -> int {
    let n = s.len();
    if n < 2 || n > 31 {
        0
    } else {
        let a = s[0] as int;
        let b = s[n - 1] as int;
        let c = s[n - 2] as int;
        let d = if n >= 4 { s[n - 4] as int } else { 0 };
        if a >= 128 || b >= 128 || c >= 128 || d >= 128 {
            0
        } else {
            (((n * 128 + a) * 128 + b) * 128 + c) * 128 + d
        }
    }
}

/// The type whose name is `s`, if any.
pub open spec fn spec_from_name(s: Seq<char>) -> Option<EntityType> {
    match EntityType::spec_from_key(name_key(s) as u64) {
        Some(t) => if t.name() == s {
            Some(t)
        } else {
            None
        },
        None => None,
    }
}

/// Computes `name_key` of a string.
fn key_of_text(s: &str) -> (r: u64)
    ensures
        r as int == name_key(s@),
{
    let n = s.unicode_len();
    if n < 2 || n > 31 {
        return 0;
    }
    let a = s.get_char(0) as u64;
    let b = s.get_char(n - 1) as u64;
    let c = s.get_char(n - 2) as u64;
    let d = if n >= 4 {
        s.get_char(n - 4) as u64
    } else {
        0
    };
    if a >= 128 || b >= 128 || c >= 128 || d >= 128 {
        return 0;
    }
    let n = n as u64;
    (((n * 128 + a) * 128 + b) * 128 + c) * 128 + d
}

/// Whether two strings hold the same characters.
fn same_text(a: &str, b: &str) -> (r: bool)
    ensures
        r == (a@ == b@),
{
    let n = a.unicode_len();
    if n != b.unicode_len() {
        return false;
    }
    let mut i: usize = 0;
    while i < n
        invariant
            n == a@.len(),
            n == b@.len(),
            i <= n,
            forall|k: int| 0 <= k < i ==> a@[k] == b@[k],
        decreases n - i,
    {
        if a.get_char(i) != b.get_char(i) {
            return false;
        }
        i = i + 1;
    }
    assert(a@ =~= b@);
    true
}

impl EntityType {
    /// The type whose short name is `s`, if there is one.
    pub fn from_name(s: &str) -> (r: Option<EntityType>)
        ensures
            r == spec_from_name(s@),
            forall|t: EntityType| r == Some(t) <==> s@ == t.name(),
    {
        let r = match EntityType::from_key(key_of_text(s)) {
            Some(t) => if same_text(t.as_str(), s) {
                Some(t)
            } else {
                None
            },
            None => None,
        };
        proof {
            assert forall|t: EntityType| r == Some(t) <==> s@ == t.name() by {
                lemma_name_exact(t, s@);
            }
        }
        r
    }
}

/// Why an entity type could not be decoded.
#[derive(Debug, PartialEq, Eq)]
pub enum DecodeError {
    /// No type has this name.
    InvalidEntityType(String),
    /// No type has this ordinal.
    InvalidEntityTypeInteger(u8),
}

impl EntityType {
    /// Decodes a type from its textual wire form.
    pub fn decode_name(s: &str) -> (r: Result<EntityType, DecodeError>)
        ensures
            spec_from_name(s@) matches Some(t) ==> r == Ok::<EntityType, DecodeError>(t),
            spec_from_name(s@) is None ==> (r matches Err(DecodeError::InvalidEntityType(n)) && n@ == s@),
    {
        match EntityType::from_name(s) {
            Some(t) => Ok(t),
            None => Err(DecodeError::InvalidEntityType(s.to_owned())),
        }
    }

    /// Decodes a type from its binary wire form.
    pub fn decode_u8(n: u8) -> (r: Result<EntityType, DecodeError>)
        ensures
            forall|t: EntityType| r == Ok::<EntityType, DecodeError>(t) <==> n as int == t.ordinal(),
            EntityType::spec_from_u8(n) matches Some(t) ==> r == Ok::<EntityType, DecodeError>(t),
            EntityType::spec_from_u8(n) is None ==> r == Err::<EntityType, DecodeError>(
                DecodeError::InvalidEntityTypeInteger(n),
            ),
    {
        let r = match EntityType::from_u8(n) {
            Some(t) => Ok(t),
            None => Err(DecodeError::InvalidEntityTypeInteger(n)),
        };
        proof {
            assert forall|t: EntityType| r == Ok::<EntityType, DecodeError>(t) <==> n as int == t.ordinal() by {
                lemma_ordinal_exact(t, n);
                lemma_codec_round_trip(t);
                crate::catalog::lemma_catalog_bounds(t);
            }
        }
        r
    }
}

/// Decoding a type's ordinal or its name gives the type back.
pub proof fn lemma_codec_round_trip(t: EntityType)
    ensures
        EntityType::spec_from_u8(t.ordinal() as u8) == Some(t),
        spec_from_name(t.name()) == Some(t),
{
    lemma_name_key(t);
}

/// Only `t`'s own name decodes to `t`.
pub proof fn lemma_name_exact(t: EntityType, s: Seq<char>)
    ensures
        spec_from_name(s) == Some(t) <==> s == t.name(),
{
    lemma_codec_round_trip(t);
}

/// Only `t`'s own ordinal decodes to `t`.
#[verifier::rlimit(40)]
pub proof fn lemma_ordinal_exact(t: EntityType, n: u8)
    ensures
        EntityType::spec_from_u8(n) == Some(t) ==> n as int == t.ordinal(),
{
}

} // verus!
