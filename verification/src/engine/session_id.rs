//! Session identifiers.
//!
//! An identifier is the text `frida_` followed by the decimal form of the
//! sequence number under which the session was registered. Sequence numbers
//! are handed out in increasing order, so the text of an identifier is never
//! issued twice; the lemmas in this module show that the text determines the
//! number.

use vstd::prelude::*;
use vstd::string::*;
use crate::decimal::{
    append_decimal,
    decimal,
    decimal_value,
    is_canonical_decimal,
    is_digit,
    lemma_decimal_is_canonical,
    lemma_decimal_of_value,
    lemma_value_of_decimal,
    lemma_value_of_prefix,
};

verus! {

/// The fixed text every session identifier starts with.
pub open spec fn id_prefix() -> Seq<char> {
    seq!['f', 'r', 'i', 'd', 'a', '_']
}

/// The identifier of the session registered under sequence number `n`.
pub open spec fn session_id_text(n: nat) -> Seq<char> {
    id_prefix() + decimal(n)
}

/// The sequence number that an identifier text names, if it has the form of
/// an identifier at all.
pub open spec fn session_number(id: Seq<char>) -> Option<nat> {
    let digits = id.subrange(6, id.len() as int);
    if id.len() > 6 && id.subrange(0, 6) == id_prefix() && is_canonical_decimal(digits) {
        Some(decimal_value(digits))
    } else {
        None
    }
}

/// The sequence number that `id` names, where that number fits the counter
/// of a registry.
pub open spec fn parsed_session_number(id: Seq<char>) -> Option<u32> {
    match session_number(id) {
        Some(n) => if n <= u32::MAX {
            Some(n as u32)
        } else {
            None
        },
        None => None,
    }
}

/// The text of an identifier names the number it was made from.
pub proof fn lemma_session_number_of_text(n: nat)
    ensures
        session_number(session_id_text(n)) == Some(n),
{
    let id = session_id_text(n);
    lemma_decimal_is_canonical(n);
    lemma_value_of_decimal(n);
    assert(id.subrange(0, 6) =~= id_prefix());
    assert(id.subrange(6, id.len() as int) =~= decimal(n));
}

/// A text that names a number is exactly the identifier of that number.
pub proof fn lemma_text_of_session_number(id: Seq<char>)
    requires
        session_number(id) is Some,
    ensures
        session_id_text(session_number(id)->0) == id,
{
    let digits = id.subrange(6, id.len() as int);
    lemma_decimal_of_value(digits);
    assert(id.subrange(0, 6) + digits =~= id);
}

/// Identifiers never collide: two sequence numbers with the same identifier
/// text are the same number.
pub proof fn lemma_session_id_injective(a: nat, b: nat)
    requires
        session_id_text(a) == session_id_text(b),
    ensures
        a == b,
{
    lemma_session_number_of_text(a);
    lemma_session_number_of_text(b);
}

/// Writes the identifier of sequence number `n`.
pub fn format_session_id(n: u32) -> (id: String)
    ensures
        id@ == session_id_text(n as nat),
{
    proof {
        reveal_strlit("frida_");
    }
    let mut id = String::from_str("frida_");
    assert(id@ =~= id_prefix());
    append_decimal(&mut id, n as u64);
    id
}

/// Reads the sequence number out of an identifier. The result is `None` for
/// every text that is not the identifier of a number a registry can issue.
pub fn parse_session_id(id: &str) -> (r: Option<u32>)
    ensures
        r == parsed_session_number(id@),
{
    let len = id.unicode_len();
    if len <= 6 {
        return None;
    }
    let prefix = "frida_";
    proof {
        reveal_strlit("frida_");
    }
    let mut i: usize = 0;
    while i < 6
        invariant
            i <= 6,
            len == id@.len(),
            len > 6,
            prefix@ == id_prefix(),
            forall|j: int| 0 <= j < i ==> id@[j] == id_prefix()[j],
        decreases 6 - i,
    {
        if id.get_char(i) != prefix.get_char(i) {
            assert(id@.subrange(0, 6)[i as int] == id@[i as int]);
            return None;
        }
        i += 1;
    }
    assert(id@.subrange(0, 6) =~= id_prefix());
    let ghost digits = id@.subrange(6, len as int);
    if len > 7 && id.get_char(6) == '0' {
        assert(digits[0] == id@[6]);
        return None;
    }
    let mut value: u64 = 0;
    let mut k: usize = 6;
    while k < len
        invariant
            6 <= k <= len,
            len == id@.len(),
            digits == id@.subrange(6, len as int),
            value == decimal_value(digits.subrange(0, k - 6)),
            value <= u32::MAX,
            forall|j: int| 0 <= j < k - 6 ==> is_digit(#[trigger] digits[j]),
        decreases len - k,
    {
        let c = id.get_char(k);
        assert(digits[k - 6] == c);
        if !('0' <= c && c <= '9') {
            return None;
        }
        let d: u64 = (c as u32 - '0' as u32) as u64;
        proof {
            let longer = digits.subrange(0, k - 6 + 1);
            assert(longer.drop_last() =~= digits.subrange(0, k - 6));
            assert(longer.last() == c);
        }
        value = value * 10 + d;
        if value > 0xffff_ffff {
            proof {
                lemma_value_of_prefix(digits, k - 6 + 1);
            }
            return None;
        }
        k += 1;
    }
    assert(digits.subrange(0, k - 6) =~= digits);
    assert(digits.len() > 1 ==> digits[0] != '0') by {
        assert(digits[0] == id@[6]);
    }
    Some(value as u32)
}

} // verus!
