//! Plain-value checks over an item's metadata, as handed in by the caller:
//! collection-membership verification over the metadata's creator list, and
//! recovery of an item's numeric rarity id from its display label.
//!
//! The label parser mirrors the deposit path's scan: the token starts after
//! the first `#` (a `#` in the final position starts nothing), runs to the
//! first NUL character or the end of the label, and must be a non-empty
//! string of decimal digits.

use vstd::prelude::*;

use crate::account::AccountId;
use crate::error::StakingError;

verus! {

/// One creator entry of an item's metadata: an identity and whether the
/// creator has verified the item.
#[derive(Clone, Copy, Debug, PartialEq, Eq, Structural)]
pub struct CreatorInfo {
    pub address: AccountId,
    pub verified: bool,
}

/// Some creator entry carries the allowed collection identity, verified.
pub open spec fn has_allowed_creator(creators: Seq<CreatorInfo>, allowed: AccountId) -> bool {
    exists|i: int|
        0 <= i < creators.len() && (#[trigger] creators[i]).address == allowed
            && creators[i].verified
}

/// Confirms that the item belongs to the allowed collection: its metadata
/// must name a creator list (else `MetadataParseError`) holding the allowed
/// identity as a verified creator (else `UnknownOrNotAllowedCollection`).
pub fn verify_collection(creators: Option<&Vec<CreatorInfo>>, allowed: &AccountId) -> (r: Result<
    (),
    StakingError,
>)
    ensures
        r is Ok <==> (creators matches Some(cs) && has_allowed_creator(cs@, *allowed)),
        r matches Err(e) ==> e == (if creators is Some {
            StakingError::UnknownOrNotAllowedCollection
        } else {
            StakingError::MetadataParseError
        }),
{
    match creators {
        None => Err(StakingError::MetadataParseError),
        Some(cs) => {
            let n = cs.len();
            let mut i: usize = 0;
            while i < n
                invariant
                    creators matches Some(v) && v@ == cs@,
                    n == cs.len(),
                    i <= n,
                    forall|j: int|
                        0 <= j < i ==> !(#[trigger] cs@[j].address == *allowed && cs@[j].verified),
                decreases n - i,
            {
                if cs[i].address == *allowed && cs[i].verified {
                    return Ok(());
                }
                i = i + 1;
            }
            Err(StakingError::UnknownOrNotAllowedCollection)
        },
    }
}

/// An ASCII decimal digit.
pub open spec fn is_ascii_digit(c: char) -> bool {
    48 <= c as u32 <= 57
}

/// The numeric value of one ASCII digit.
pub open spec fn spec_digit_val(c: char) -> int {
    c as u32 - 48
}

/// Every character of the sequence is an ASCII decimal digit.
pub open spec fn all_digits(s: Seq<char>) -> bool {
    forall|i: int| 0 <= i < s.len() ==> is_ascii_digit(#[trigger] s[i])
}

/// The value of a digit string read in base ten, most significant first.
pub open spec fn spec_digits_val(s: Seq<char>) -> int
    decreases s.len(),
{
    if s.len() == 0 {
        0
    } else {
        spec_digits_val(s.drop_last()) * 10 + spec_digit_val(s.last())
    }
}

/// Index `h` holds the label's first `#`, and not as the final character
/// (a trailing `#` starts no token).
pub open spec fn is_first_hash(s: Seq<char>, h: int) -> bool {
    &&& 0 <= h < s.len() - 1
    &&& s[h] == '#'
    &&& forall|j: int| 0 <= j < h ==> s[j] != '#'
}

/// The label holds a `#` that starts a token.
pub open spec fn has_hash(s: Seq<char>) -> bool {
    exists|h: int| is_first_hash(s, h)
}

/// The index of the token-starting `#`; meaningful only when `has_hash`.
pub open spec fn hash_idx(s: Seq<char>) -> int {
    choose|h: int| is_first_hash(s, h)
}

/// Index `e` ends the token that starts after `h`: everything strictly
/// between is NUL-free, and `e` is the end of the label or a NUL.
pub open spec fn is_token_end(s: Seq<char>, h: int, e: int) -> bool {
    &&& h < e <= s.len()
    &&& forall|j: int| h < j < e ==> (#[trigger] s[j]) as u32 != 0
    &&& e < s.len() ==> s[e] as u32 == 0
}

/// The end of the token starting after `hash_idx`; meaningful only when
/// `has_hash`.
pub open spec fn token_end(s: Seq<char>) -> int {
    choose|e: int| is_token_end(s, hash_idx(s), e)
}

/// The label's token: the characters after the first `#`, up to the first
/// NUL or the end.
pub open spec fn spec_token(s: Seq<char>) -> Seq<char> {
    s.subrange(hash_idx(s) + 1, token_end(s))
}

/// The label parses to a numeric id: a token exists, is non-empty, is all
/// digits, and its value fits a `u64`.
pub open spec fn parses_to_id(s: Seq<char>) -> bool {
    &&& has_hash(s)
    &&& spec_token(s).len() > 0
    &&& all_digits(spec_token(s))
    &&& spec_digits_val(spec_token(s)) <= u64::MAX
}

/// A sequence has at most one first `#`.
pub proof fn lemma_first_hash_unique(s: Seq<char>, h: int)
    requires
        is_first_hash(s, h),
    ensures
        has_hash(s),
        hash_idx(s) == h,
{
    assert(has_hash(s));
    let k = hash_idx(s);
    assert(is_first_hash(s, k));
    if k < h {
        assert(s[k] != '#');
    } else if h < k {
        assert(s[h] != '#');
    }
}

/// A token has at most one end.
pub proof fn lemma_token_end_unique(s: Seq<char>, h: int, e: int)
    requires
        is_first_hash(s, h),
        is_token_end(s, h, e),
    ensures
        hash_idx(s) == h,
        token_end(s) == e,
{
    lemma_first_hash_unique(s, h);
    let k = token_end(s);
    assert(is_token_end(s, h, k));
    if k < e {
        assert(s[k] as u32 != 0);
    } else if e < k {
        assert(s[e] as u32 != 0);
    }
}

/// The value of an all-digit string is non-negative.
pub proof fn lemma_digits_val_nonneg(s: Seq<char>)
    requires
        all_digits(s),
    ensures
        0 <= spec_digits_val(s),
    decreases s.len(),
{
    if s.len() > 0 {
        let prev = s.drop_last();
        assert(all_digits(prev));
        lemma_digits_val_nonneg(prev);
    }
}

/// Extending an all-digit string never shrinks its value: a prefix's value
/// bounds the whole value from below.
pub proof fn lemma_digits_val_prefix(s: Seq<char>, k: int)
    requires
        all_digits(s),
        0 <= k <= s.len(),
    ensures
        spec_digits_val(s.take(k)) <= spec_digits_val(s),
    decreases s.len(),
{
    if k == s.len() {
        assert(s.take(k) =~= s);
    } else {
        let prev = s.drop_last();
        assert(all_digits(prev));
        assert(s.take(k) =~= prev.take(k));
        lemma_digits_val_prefix(prev, k);
        lemma_digits_val_nonneg(prev);
    }
}

/// Recovers an item's numeric id from its display label, handed in as the
/// label's characters.  Returns the base-ten value of the token after the
/// first `#`, or `MetadataParseError` when no token exists, the token is
/// empty or non-numeric, or its value overflows a `u64`.
pub fn parse_nft_id(name: &Vec<char>) -> (r: Result<u64, StakingError>)
    ensures
        r is Ok <==> parses_to_id(name@),
        r matches Ok(v) ==> v == spec_digits_val(spec_token(name@)),
        r matches Err(e) ==> e == StakingError::MetadataParseError,
{
    let s = Ghost(name@);
    let n = name.len();
    let mut h: usize = 0;
    let mut found = false;
    while h + 1 < n && !found
        invariant
            s@ == name@,
            n == s@.len(),
            h == 0 || h < n,
            found ==> h + 1 < n && s@[h as int] == '#',
            forall|j: int| 0 <= j < h ==> s@[j] != '#',
        decreases n - h, (if found { 0int } else { 1int }),
    {
        if name[h] == '#' {
            found = true;
        } else {
            h = h + 1;
        }
    }
    if !found {
        proof {
            assert forall|k: int| !is_first_hash(s@, k) by {
                if 0 <= k < s@.len() - 1 {
                    assert(s@[k] != '#');
                }
            }
        }
        return Err(StakingError::MetadataParseError);
    }
    proof {
        lemma_first_hash_unique(s@, h as int);
    }
    let mut i: usize = h + 1;
    let mut val: u64 = 0;
    let mut nonempty = false;
    while i < n
        invariant
            s@ == name@,
            n == s@.len(),
            is_first_hash(s@, h as int),
            hash_idx(s@) == h,
            h < i <= n,
            forall|j: int| h < j < i ==> (#[trigger] s@[j]) as u32 != 0,
            all_digits(s@.subrange(h + 1, i as int)),
            val == spec_digits_val(s@.subrange(h + 1, i as int)),
            nonempty <==> i > h + 1,
        ensures
            is_token_end(s@, h as int, i as int),
            all_digits(s@.subrange(h + 1, i as int)),
            val == spec_digits_val(s@.subrange(h + 1, i as int)),
            nonempty <==> i > h + 1,
        decreases n - i,
    {
        let c = name[i];
        let u: u32 = c as u32;
        if u == 0 {
            break;
        }
        if u < 48 || u > 57 {
            // The token provably contains a non-digit: any token end lies
            // at or beyond this character.
            proof {
                assert forall|e: int| is_token_end(s@, h as int, e) implies
                    !all_digits(s@.subrange(h + 1, e)) by {
                    assert(e > i) by {
                        if e <= i {
                            assert(s@[e] as u32 != 0);
                        }
                    }
                    assert(s@.subrange(h + 1, e)[i - h - 1] == s@[i as int]);
                    assert(!is_ascii_digit(s@[i as int]));
                }
                lemma_token_end_exists(s@, h as int);
                let e = choose|e: int| is_token_end(s@, h as int, e);
                lemma_token_end_unique(s@, h as int, e);
            }
            return Err(StakingError::MetadataParseError);
        }
        let d: u64 = (u - 48) as u64;
        let wide: u128 = val as u128 * 10 + d as u128;
        if wide > u64::MAX as u128 {
            // The digits seen so far already overflow, and more digits can
            // only grow the value (or a later non-digit voids the token).
            proof {
                lemma_token_end_exists(s@, h as int);
                let e = choose|e: int| is_token_end(s@, h as int, e);
                lemma_token_end_unique(s@, h as int, e);
                assert(e > i) by {
                    if e <= i {
                        assert(s@[e] as u32 != 0);
                    }
                }
                let tok = s@.subrange(h + 1, e);
                if all_digits(tok) {
                    assert(s@.subrange(h + 1, i + 1 as int).drop_last() =~= s@.subrange(
                        h + 1,
                        i as int,
                    ));
                    assert(s@.subrange(h + 1, i + 1 as int) =~= tok.take(i - h));
                    lemma_digits_val_prefix(tok, i - h);
                    assert(spec_digits_val(tok.take(i - h)) > u64::MAX);
                }
            }
            return Err(StakingError::MetadataParseError);
        }
        proof {
            assert(s@.subrange(h + 1, i + 1 as int).drop_last() =~= s@.subrange(h + 1, i as int));
            assert(s@.subrange(h + 1, i + 1 as int).last() == s@[i as int]);
        }
        val = wide as u64;
        nonempty = true;
        i = i + 1;
    }
    proof {
        lemma_token_end_unique(s@, h as int, i as int);
        assert(spec_token(s@) == s@.subrange(h + 1, i as int));
    }
    if !nonempty {
        return Err(StakingError::MetadataParseError);
    }
    Ok(val)
}

/// Every token started by a first `#` has an end: the first NUL after it,
/// or the end of the label.
pub proof fn lemma_token_end_exists(s: Seq<char>, h: int)
    requires
        0 <= h < s.len(),
    ensures
        exists|e: int| is_token_end(s, h, e),
    decreases s.len() - h,
{
    if h + 1 == s.len() {
        assert(is_token_end(s, h, h + 1));
    } else if s[h + 1] as u32 == 0 {
        assert(is_token_end(s, h, h + 1));
    } else {
        lemma_token_end_exists(s, h + 1);
        let e = choose|e: int| #[trigger] is_token_end(s, h + 1, e);
        assert(is_token_end(s, h, e));
    }
}

} // verus!
