//! The auth token codec. A credential token is an opaque string of the
//! shape `user-<digits>.<exp>.<sign>`: the digits name the user id, the
//! last dot separates the (nonempty) expiration and signature parts.

use vstd::prelude::*;

use crate::error::Error;
use crate::strutil::{dec_digits, dec_str, digits_val, is_digit, parse_u64, str_prefix};

verus! {

/// The end of the run of digit characters of `s` that starts at `i`.
pub open spec fn digits_end(s: Seq<char>, i: int) -> int
    decreases s.len() - i,
{
    if i < 0 || i >= s.len() || !is_digit(s[i]) {
        i
    } else {
        digits_end(s, i + 1)
    }
}

/// The index of the last `'.'` of `s`, or `-1` if there is none.
pub open spec fn last_dot(s: Seq<char>) -> int
    decreases s.len(),
{
    if s.len() == 0 {
        -1
    } else if s.last() == '.' {
        s.len() - 1
    } else {
        last_dot(s.drop_last())
    }
}

/// A well-formed token: the prefix `user-`, at least one digit naming a
/// user id that fits in `u64`, a dot, and a nonempty expiration and
/// signature separated by the last dot.
pub open spec fn wf_token(s: Seq<char>) -> bool {
    let de = digits_end(s, 5);
    let ld = last_dot(s);
    &&& s.len() > 5
    &&& s.subrange(0, 5) == "user-"@
    &&& de > 5
    &&& de < s.len()
    &&& s[de] == '.'
    &&& ld >= de + 2
    &&& ld <= s.len() - 2
    &&& digits_val(s.subrange(5, de)) <= u64::MAX
}

/// The user id a well-formed token names.
pub open spec fn token_user_id(s: Seq<char>) -> u64 {
    digits_val(s.subrange(5, digits_end(s, 5))) as u64
}

/// The expiration part of a well-formed token.
pub open spec fn token_exp(s: Seq<char>) -> Seq<char> {
    s.subrange(digits_end(s, 5) + 1, last_dot(s))
}

/// The signature part of a well-formed token.
pub open spec fn token_sign(s: Seq<char>) -> Seq<char> {
    s.subrange(last_dot(s) + 1, s.len() as int)
}

/// The token minted for `uid`, with placeholder expiration and signature.
pub open spec fn token_of(uid: u64) -> Seq<char> {
    "user-"@ + dec_digits(uid as nat) + ".exp.sign"@
}

proof fn lemma_digits_end_run(s: Seq<char>, a: int, b: int)
    requires
        0 <= a <= b <= s.len(),
        forall|j: int| a <= j < b ==> is_digit(#[trigger] s[j]),
        b == s.len() || !is_digit(s[b]),
    ensures
        digits_end(s, a) == b,
    decreases b - a,
{
    if a < b {
        lemma_digits_end_run(s, a + 1, b);
    }
}

proof fn lemma_last_dot_at(s: Seq<char>, k: int)
    requires
        0 <= k < s.len(),
        s[k] == '.',
        forall|m: int| k < m < s.len() ==> s[m] != '.',
    ensures
        last_dot(s) == k,
    decreases s.len(),
{
    if k < s.len() - 1 {
        lemma_last_dot_at(s.drop_last(), k);
    }
}

fn digit_at(s: &str, i: usize) -> (r: bool)
    requires
        i < s@.len(),
    ensures
        r == is_digit(s@[i as int]),
{
    let cv = s.get_char(i) as u32;
    48 <= cv && cv <= 57
}

fn dot_at(s: &str, i: usize) -> (r: bool)
    requires
        i < s@.len(),
    ensures
        r == (s@[i as int] == '.'),
{
    s.get_char(i) == '.'
}

/// Parse a credential token. A well-formed token yields its user id,
/// expiration and signature; anything else is a malformed-token failure.
pub fn parse_token(token: &str) -> (r: Result<(u64, String, String), Error>)
    ensures
        wf_token(token@) ==> (r matches Ok(t) && t.0 == token_user_id(token@) && t.1@ == token_exp(
            token@,
        ) && t.2@ == token_sign(token@)),
        !wf_token(token@) ==> r == Err::<(u64, String, String), Error>(
            Error::AuthFailTokenWrongFormat,
        ),
{
    let n = token.unicode_len();
    if !str_prefix(token, "user-") {
        proof {
            reveal_strlit("user-");
        }
        return Err(Error::AuthFailTokenWrongFormat);
    }
    proof {
        reveal_strlit("user-");
    }
    let mut i: usize = 5;
    while i < n && digit_at(token, i)
        invariant
            n == token@.len(),
            5 <= n,
            5 <= i <= n,
            forall|j: int| 5 <= j < i ==> is_digit(#[trigger] token@[j]),
        decreases n - i,
    {
        i += 1;
    }
    proof {
        lemma_digits_end_run(token@, 5, i as int);
    }
    if i == 5 || i >= n || !dot_at(token, i) {
        return Err(Error::AuthFailTokenWrongFormat);
    }
    let digits = token.substring_char(5, i);
    let uid = match parse_u64(digits) {
        Some(v) => v,
        None => {
            return Err(Error::AuthFailTokenWrongFormat);
        }
    };
    let mut k: usize = n - 1;
    while !dot_at(token, k)
        invariant
            n == token@.len(),
            i <= k < n,
            token@[i as int] == '.',
            forall|m: int| k < m < n ==> token@[m] != '.',
        decreases k,
    {
        k -= 1;
    }
    proof {
        lemma_last_dot_at(token@, k as int);
    }
    if k - i < 2 || n - k < 2 {
        return Err(Error::AuthFailTokenWrongFormat);
    }
    let exp = token.substring_char(i + 1, k).to_owned();
    let sign = token.substring_char(k + 1, n).to_owned();
    Ok((uid, exp, sign))
}

/// Law: a minted token is well-formed and decodes back to the identity it
/// was minted for, with the placeholder expiration and signature parts.
pub proof fn lemma_minted_token_round_trip(uid: u64)
    ensures
        wf_token(token_of(uid)),
        token_user_id(token_of(uid)) == uid,
        token_exp(token_of(uid)) == "exp"@,
        token_sign(token_of(uid)) == "sign"@,
{
    reveal_strlit("user-");
    reveal_strlit(".exp.sign");
    reveal_strlit("exp");
    reveal_strlit("sign");
    crate::strutil::lemma_dec_digits(uid as nat);
    let d = dec_digits(uid as nat);
    let s = token_of(uid);
    let dlen = d.len() as int;
    let de = 5 + dlen;
    let ld = de + 4;
    assert(s.len() == 14 + dlen);
    assert(s.subrange(0, 5) =~= "user-"@);
    assert forall|j: int| 5 <= j < de implies is_digit(#[trigger] s[j]) by {
        assert(s[j] == d[j - 5]);
    }
    assert(s[de] == ".exp.sign"@[0]);
    lemma_digits_end_run(s, 5, de);
    assert(s[ld] == ".exp.sign"@[4]);
    assert forall|m: int| ld < m < s.len() implies s[m] != '.' by {
        assert(s[m] == ".exp.sign"@[m - de]);
    }
    lemma_last_dot_at(s, ld);
    assert(s.subrange(5, de) =~= d);
    assert(s.subrange(de + 1, ld) =~= "exp"@);
    assert(s.subrange(ld + 1, s.len() as int) =~= "sign"@);
}

/// Mint the session token for `user_id`, with placeholder expiration and
/// signature parts.
pub fn mint_token(user_id: u64) -> (r: String)
    ensures
        r@ == token_of(user_id),
{
    let mut s = "user-".to_owned();
    let digits = dec_str(user_id);
    s.append(digits.as_str());
    s.append(".exp.sign");
    s
}

} // verus!
