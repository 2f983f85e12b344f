//! Strings as they are persisted and named: lengths in bytes, and the name of
//! a token, made of the collection's name and the token's sequence id.

use vstd::prelude::*;
use vstd::string::StringExecFns;
use vstd::utf8::{encode_utf8, is_ascii_chars, is_ascii_chars_encode_utf8};

verus! {

/// Bytes that a string takes when it is persisted, without its length prefix.
pub open spec fn byte_len(s: Seq<char>) -> nat {
    encode_utf8(s).len()
}

/// Bytes that a string takes when it is persisted, without its length prefix.
pub fn byte_length(s: &String) -> (len: usize)
    ensures
        len == byte_len(s@),
{
    s.as_str().as_bytes().len()
}

/// The bytes of two strings joined are the bytes of the first, then those of
/// the second.
pub proof fn lemma_encode_concat(a: Seq<char>, b: Seq<char>)
    ensures
        encode_utf8(a + b) == encode_utf8(a) + encode_utf8(b),
        byte_len(a + b) == byte_len(a) + byte_len(b),
    decreases a.len(),
{
    if a.len() == 0 {
        assert(a + b =~= b);
        assert(encode_utf8(a) + encode_utf8(b) =~= encode_utf8(b));
    } else {
        lemma_encode_concat(a.drop_first(), b);
        assert((a + b).drop_first() =~= a.drop_first() + b);
        assert((a + b)[0] == a[0]);
        assert(encode_utf8(a + b) =~= encode_utf8(a) + encode_utf8(b));
    }
}

/// The character of a decimal digit.
pub open spec fn digit_char(d: nat) -> char
    recommends
        d < 10,
{
    if d == 0 {
        '0'
    } else if d == 1 {
        '1'
    } else if d == 2 {
        '2'
    } else if d == 3 {
        '3'
    } else if d == 4 {
        '4'
    } else if d == 5 {
        '5'
    } else if d == 6 {
        '6'
    } else if d == 7 {
        '7'
    } else if d == 8 {
        '8'
    } else {
        '9'
    }
}

/// A number in decimal notation, without leading zeros.
pub open spec fn spec_decimal(n: nat) -> Seq<char>
    decreases n,
{
    if n < 10 {
        seq![digit_char(n)]
    } else {
        spec_decimal(n / 10).push(digit_char(n % 10))
    }
}

/// The name of the token with sequence id `token_id` in the collection named
/// `collection`: the collection's name, a space, a number sign, the id.
pub open spec fn spec_token_name(collection: Seq<char>, token_id: u64) -> Seq<char> {
    collection + seq![' ', '#'] + spec_decimal(token_id as nat)
}

/// Ten to the power of `k`.
pub open spec fn pow10(k: nat) -> nat
    decreases k,
{
    if k == 0 {
        1
    } else {
        10 * pow10((k - 1) as nat)
    }
}

/// A number below ten to the `k` has at most `k` digits, all of them ASCII.
pub proof fn lemma_decimal_len(n: nat, k: nat)
    requires
        k >= 1,
        n < pow10(k),
    ensures
        1 <= spec_decimal(n).len() <= k,
        is_ascii_chars(spec_decimal(n)),
    decreases k,
{
    reveal_with_fuel(pow10, 2);
    if n < 10 {
    } else {
        assert(k >= 2);
        lemma_decimal_len(n / 10, (k - 1) as nat);
    }
}

/// The name of a token is at most twenty-two bytes longer than the name of its
/// collection.
pub proof fn lemma_token_name_len(collection: Seq<char>, token_id: u64)
    ensures
        byte_len(spec_token_name(collection, token_id)) <= byte_len(collection) + 22,
{
    assert(pow10(20) == 100000000000000000000nat) by {
        reveal_with_fuel(pow10, 21);
    }
    lemma_decimal_len(token_id as nat, 20);
    let mark = seq![' ', '#'];
    let digits = spec_decimal(token_id as nat);
    assert(is_ascii_chars(mark));
    is_ascii_chars_encode_utf8(mark);
    is_ascii_chars_encode_utf8(digits);
    lemma_encode_concat(collection, mark);
    lemma_encode_concat(collection + mark, digits);
}

fn digit_str(d: u64) -> (s: &'static str)
    requires
        d < 10,
    ensures
        s@ == seq![digit_char(d as nat)],
{
    proof {
        reveal_strlit("0");
        reveal_strlit("1");
        reveal_strlit("2");
        reveal_strlit("3");
        reveal_strlit("4");
        reveal_strlit("5");
        reveal_strlit("6");
        reveal_strlit("7");
        reveal_strlit("8");
        reveal_strlit("9");
    }
    let s = if d == 0 {
        "0"
    } else if d == 1 {
        "1"
    } else if d == 2 {
        "2"
    } else if d == 3 {
        "3"
    } else if d == 4 {
        "4"
    } else if d == 5 {
        "5"
    } else if d == 6 {
        "6"
    } else if d == 7 {
        "7"
    } else if d == 8 {
        "8"
    } else {
        "9"
    };
    assert(s@ =~= seq![digit_char(d as nat)]);
    s
}

/// Appends `n` in decimal notation to `text`.
pub fn push_decimal(text: &mut String, n: u64)
    ensures
        final(text)@ == old(text)@ + spec_decimal(n as nat),
    decreases n,
{
    if n >= 10 {
        push_decimal(text, n / 10);
    }
    text.append(digit_str(n % 10));
    assert(text@ =~= old(text)@ + spec_decimal(n as nat));
}

/// The name of the token with sequence id `token_id` in the collection named
/// `collection`.
pub fn token_name(collection: &String, token_id: u64) -> (name: String)
    ensures
        name@ == spec_token_name(collection@, token_id),
{
    let mut name = collection.clone();
    proof {
        reveal_strlit(" #");
    }
    name.append(" #");
    assert(" #"@ =~= seq![' ', '#']);
    push_decimal(&mut name, token_id);
    name
}

} // verus!
