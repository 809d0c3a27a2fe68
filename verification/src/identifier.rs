//! Identifier generation: a 6-character base-62 rendering of the low-order
//! bits of a millisecond timestamp.

use vstd::prelude::*;
use vstd::string::StrSliceExecFns;
use vstd::string::StringExecFns;

verus! {

/// The 62 URL-safe characters identifiers are drawn from.
pub open spec fn alphabet() -> Seq<char> {
    "ABCDEFGHIJKLMNOPQRSTUVWXYZabcdefghijklmnopqrstuvwxyz0123456789"@
}

/// The number of characters in every identifier.
pub open spec fn identifier_len() -> nat {
    6
}

/// The base-62 digits of `num`, least significant first, padded with the
/// digit for zero up to `count` characters.
pub open spec fn base62_chars(num: nat, count: nat) -> Seq<char>
    decreases count,
{
    if count == 0 {
        Seq::empty()
    } else {
        seq![alphabet()[(num % 62) as int]] + base62_chars(num / 62, (count - 1) as nat)
    }
}

/// The identifier generated for the timestamp `timestamp_ms`: a function of
/// the timestamp and of nothing else.
pub open spec fn spec_identifier(timestamp_ms: u64) -> Seq<char> {
    base62_chars(timestamp_ms as nat, identifier_len())
}

/// Whether `id` is a well-formed identifier: exactly six characters, each
/// from the 62-character alphabet.
pub open spec fn is_valid_identifier(id: Seq<char>) -> bool {
    &&& id.len() == identifier_len()
    &&& forall|i: int| 0 <= i < id.len() ==> alphabet().contains(#[trigger] id[i])
}

proof fn lemma_base62_chars_valid(num: nat, count: nat)
    ensures
        base62_chars(num, count).len() == count,
        forall|i: int|
            0 <= i < count ==> alphabet().contains(#[trigger] base62_chars(num, count)[i]),
    decreases count,
{
    if count > 0 {
        lemma_base62_chars_valid(num / 62, (count - 1) as nat);
        reveal_strlit("ABCDEFGHIJKLMNOPQRSTUVWXYZabcdefghijklmnopqrstuvwxyz0123456789");
        assert(alphabet().contains(alphabet()[(num % 62) as int])) by {
            assert(0 <= num % 62 < 62);
            assert(alphabet().len() == 62);
        }
    }
}

/// Every identifier the generator can produce is well-formed: exactly six
/// characters, each drawn from the 62-character alphabet.
pub proof fn lemma_identifier_well_formed(timestamp_ms: u64)
    ensures
        is_valid_identifier(spec_identifier(timestamp_ms)),
{
    lemma_base62_chars_valid(timestamp_ms as nat, identifier_len());
}

/// Produces the identifier for the given millisecond timestamp: take the
/// value modulo 62 to pick a character, divide by 62, six times over.
///
/// The result is deterministic in `timestamp_ms`, so two calls within the
/// same millisecond return the same identifier.
pub fn generate_identifier(timestamp_ms: u64) -> (id: String)
    ensures
        id@ == spec_identifier(timestamp_ms),
        is_valid_identifier(id@),
{
    let charset: &str = "ABCDEFGHIJKLMNOPQRSTUVWXYZabcdefghijklmnopqrstuvwxyz0123456789";
    proof {
        reveal_strlit("ABCDEFGHIJKLMNOPQRSTUVWXYZabcdefghijklmnopqrstuvwxyz0123456789");
    }
    let mut id = String::new();
    let mut num: u64 = timestamp_ms;
    let mut produced: usize = 0;
    while produced < 6
        invariant
            produced <= 6,
            charset@ == alphabet(),
            charset@.len() == 62,
            id@.len() == produced,
            spec_identifier(timestamp_ms) == id@ + base62_chars(
                num as nat,
                (identifier_len() - produced) as nat,
            ),
        decreases 6 - produced,
    {
        let digit: usize = (num % 62) as usize;
        let ch: &str = charset.substring_char(digit, digit + 1);
        proof {
            assert(ch@ =~= seq![alphabet()[digit as int]]);
            assert(base62_chars(num as nat, (identifier_len() - produced) as nat) == seq![
                alphabet()[(num as nat % 62) as int],
            ] + base62_chars(num as nat / 62, (identifier_len() - produced - 1) as nat));
            assert((id@ + ch@) + base62_chars(
                num as nat / 62,
                (identifier_len() - produced - 1) as nat,
            ) =~= id@ + (ch@ + base62_chars(
                num as nat / 62,
                (identifier_len() - produced - 1) as nat,
            )));
        }
        id.append(ch);
        num = num / 62;
        produced = produced + 1;
    }
    proof {
        assert(id@ =~= spec_identifier(timestamp_ms));
        lemma_identifier_well_formed(timestamp_ms);
    }
    id
}

} // verus!
