use vstd::prelude::*;

use crate::error::Error;

verus! {

/// An ASCII decimal digit.
pub open spec fn is_digit(c: char) -> bool {
    '0' <= c && c <= '9'
}

pub open spec fn all_digits(d: Seq<char>) -> bool {
    forall|i: int| 0 <= i < d.len() ==> #[trigger] is_digit(d[i])
}

pub open spec fn digit_value(c: char) -> nat {
    ((c as u32) - ('0' as u32)) as nat
}

/// The number that a string of decimal digits writes.
pub open spec fn decimal_value(d: Seq<char>) -> nat
    decreases d.len(),
{
    if d.len() == 0 {
        0
    } else {
        decimal_value(d.drop_last()) * 10 + digit_value(d.last())
    }
}

/// The literal text that every token starts with.
pub open spec fn token_prefix() -> Seq<char> {
    seq!['u', 's', 'e', 'r', '-']
}

/// A character that a segment may hold: ASCII, and not the dot that
/// separates segments.
pub open spec fn is_segment_char(c: char) -> bool {
    (c as u32) < 128 && c != '.'
}

/// A token segment: not empty, ASCII, without a dot.
pub open spec fn is_segment(e: Seq<char>) -> bool {
    &&& e.len() > 0
    &&& forall|i: int| 0 <= i < e.len() ==> is_segment_char(#[trigger] e[i])
}

/// `user-<digits>.<expiration>.<signature>`
pub open spec fn token_text(d: Seq<char>, exp: Seq<char>, sig: Seq<char>) -> Seq<char> {
    token_prefix() + d + seq!['.'] + exp + seq!['.'] + sig
}

/// `t` is the token made of the digits `d`, the expiration `exp` and the
/// signature `sig`.
pub open spec fn is_token_of(t: Seq<char>, d: Seq<char>, exp: Seq<char>, sig: Seq<char>) -> bool {
    &&& d.len() > 0
    &&& all_digits(d)
    &&& is_segment(exp)
    &&& is_segment(sig)
    &&& t == token_text(d, exp, sig)
}

/// `t` is a token for the identity `id`, with the expiration `exp` and the
/// signature `sig`.
pub open spec fn is_token_for(t: Seq<char>, id: nat, exp: Seq<char>, sig: Seq<char>) -> bool {
    exists|d: Seq<char>| #[trigger] is_token_of(t, d, exp, sig) && decimal_value(d) == id
}

/// A well-formed token, as its parts.
#[derive(Clone, Debug)]
pub struct Credential {
    pub user_id: u64,
    pub expiration: String,
    pub signature: String,
}

proof fn lemma_token_text_parts(d: Seq<char>, exp: Seq<char>, sig: Seq<char>)
    ensures
        ({
            let t = token_text(d, exp, sig);
            let a: int = 5 + d.len() as int;
            let b: int = a + 1 + exp.len();
            &&& t.len() == b + 1 + sig.len()
            &&& t.subrange(0, 5) == token_prefix()
            &&& t.subrange(5, a) == d
            &&& t[a] == '.'
            &&& t.subrange(a + 1, b) == exp
            &&& t[b] == '.'
            &&& t.subrange(b + 1, t.len() as int) == sig
            &&& forall|k: int| 0 <= k < d.len() ==> t[5 + k] == #[trigger] d[k]
            &&& forall|k: int| 0 <= k < exp.len() ==> t[a + 1 + k] == #[trigger] exp[k]
            &&& forall|k: int| 0 <= k < sig.len() ==> t[b + 1 + k] == #[trigger] sig[k]
        }),
{
    let t = token_text(d, exp, sig);
    let a: int = 5 + d.len() as int;
    let b: int = a + 1 + exp.len();
    assert(t.subrange(0, 5) =~= token_prefix());
    assert(t.subrange(5, a) =~= d);
    assert(t.subrange(a + 1, b) =~= exp);
    assert(t.subrange(b + 1, t.len() as int) =~= sig);
}

/// The digits of a token run up to the first dot.
proof fn lemma_digits_of_token(t: Seq<char>, d: Seq<char>, exp: Seq<char>, sig: Seq<char>, j: int)
    requires
        is_token_of(t, d, exp, sig),
        5 <= j <= t.len(),
        forall|k: int| 5 <= k < j ==> is_digit(#[trigger] t[k]),
        j == t.len() || !is_digit(t[j]),
    ensures
        d.len() == j - 5,
{
    lemma_token_text_parts(d, exp, sig);
    let a: int = 5 + d.len() as int;
    if a < j {
        assert(is_digit(t[a]));
    } else if a > j {
        assert(t[5 + (j - 5)] == d[j - 5]);
        assert(is_digit(d[j - 5]));
    }
}

/// A string is a token of at most one set of parts.
pub proof fn lemma_token_parts_unique(
    t: Seq<char>,
    d1: Seq<char>,
    e1: Seq<char>,
    s1: Seq<char>,
    d2: Seq<char>,
    e2: Seq<char>,
    s2: Seq<char>,
)
    requires
        is_token_of(t, d1, e1, s1),
        is_token_of(t, d2, e2, s2),
    ensures
        d1 == d2,
        e1 == e2,
        s1 == s2,
{
    lemma_token_text_parts(d1, e1, s1);
    lemma_token_text_parts(d2, e2, s2);
    let j: int = 5 + d1.len() as int;
    assert forall|k: int| 5 <= k < j implies is_digit(#[trigger] t[k]) by {
        assert(t[5 + (k - 5)] == d1[k - 5]);
    }
    lemma_digits_of_token(t, d2, e2, s2, j);
    assert(d1 =~= d2);
    let q1: int = j + 1 + e1.len();
    let q2: int = j + 1 + e2.len();
    if q1 < q2 {
        assert(t[q1 + 1 + (q2 - q1 - 1)] == s1[q2 - q1 - 1]);
    } else if q2 < q1 {
        assert(t[q2 + 1 + (q1 - q2 - 1)] == s2[q1 - q2 - 1]);
    }
    assert(e1 =~= e2);
    assert(s1 =~= s2);
}

/// Every string written as `user-<digits>.<expiration>.<signature>`, with
/// well-formed parts, is a token for the number that its digits write.
pub proof fn lemma_token_text_is_token(d: Seq<char>, exp: Seq<char>, sig: Seq<char>)
    requires
        d.len() > 0,
        all_digits(d),
        is_segment(exp),
        is_segment(sig),
    ensures
        is_token_for(token_text(d, exp, sig), decimal_value(d), exp, sig),
{
    assert(is_token_of(token_text(d, exp, sig), d, exp, sig));
}

pub(crate) proof fn lemma_decimal_push(d: Seq<char>, c: char)
    ensures
        decimal_value(d.push(c)) == decimal_value(d) * 10 + digit_value(c),
{
    assert(d.push(c).drop_last() =~= d);
}

/// Parses a token of the shape `user-<digits>.<expiration>.<signature>`:
/// three dot-separated segments, the last two non-empty ASCII text without
/// a dot. The identity must fit in 64 bits. Every deviation fails with the one format error, so that a forged token
/// learns nothing of why it was refused.
pub fn parse_token(token: &str) -> (r: Result<Credential, Error>)
    ensures
        forall|id: nat, exp: Seq<char>, sig: Seq<char>|
            id <= u64::MAX && #[trigger] is_token_for(token@, id, exp, sig) ==> (r matches Ok(c)
                && c.user_id == id && c.expiration@ == exp && c.signature@ == sig),
        r is Ok <==> exists|id: nat, exp: Seq<char>, sig: Seq<char>|
            id <= u64::MAX && #[trigger] is_token_for(token@, id, exp, sig),
        r is Err ==> r == Err::<Credential, Error>(Error::AuthFailTokenWrongFormat),
{
    let ghost t = token@;
    let n = token.unicode_len();
    if n < 5 || token.get_char(0) != 'u' || token.get_char(1) != 's' || token.get_char(2) != 'e'
        || token.get_char(3) != 'r' || token.get_char(4) != '-' {
        proof {
            assert forall|d: Seq<char>, exp: Seq<char>, sig: Seq<char>|
                !(#[trigger] is_token_of(t, d, exp, sig)) by {
                if is_token_of(t, d, exp, sig) {
                    lemma_token_text_parts(d, exp, sig);
                    assert(t.subrange(0, 5)[0] == 'u');
                    assert(t.subrange(0, 5)[1] == 's');
                    assert(t.subrange(0, 5)[2] == 'e');
                    assert(t.subrange(0, 5)[3] == 'r');
                    assert(t.subrange(0, 5)[4] == '-');
                }
            }
        }
        return Err(Error::AuthFailTokenWrongFormat);
    }
    // The identity: a run of digits.
    let mut i: usize = 5;
    let mut value: u64 = 0;
    let mut overflow = false;
    while i < n && '0' <= token.get_char(i) && token.get_char(i) <= '9'
        invariant
            n == t.len(),
            t == token@,
            5 <= i <= n,
            forall|k: int| 5 <= k < i ==> is_digit(#[trigger] t[k]),
            !overflow ==> value == decimal_value(t.subrange(5, i as int)),
            overflow ==> decimal_value(t.subrange(5, i as int)) > u64::MAX,
        decreases n - i,
    {
        let c = token.get_char(i);
        let dv = (c as u32 - '0' as u32) as u64;
        proof {
            assert(t.subrange(5, i + 1) =~= t.subrange(5, i as int).push(c));
            lemma_decimal_push(t.subrange(5, i as int), c);
        }
        if !overflow {
            if value > (u64::MAX - dv) / 10 {
                overflow = true;
            } else {
                value = value * 10 + dv;
            }
        }
        i = i + 1;
    }
    let j = i;
    proof {
        assert forall|d: Seq<char>, exp: Seq<char>, sig: Seq<char>|
            #[trigger] is_token_of(t, d, exp, sig) implies d == t.subrange(5, j as int) by {
            lemma_digits_of_token(t, d, exp, sig, j as int);
            lemma_token_text_parts(d, exp, sig);
        }
    }
    if j == 5 || j >= n || token.get_char(j) != '.' || overflow {
        proof {
            assert forall|id: nat, exp: Seq<char>, sig: Seq<char>|
                id <= u64::MAX implies !(#[trigger] is_token_for(t, id, exp, sig)) by {
                if is_token_for(t, id, exp, sig) {
                    let d = choose|d: Seq<char>| #[trigger]
                        is_token_of(t, d, exp, sig) && decimal_value(d) == id;
                    lemma_token_text_parts(d, exp, sig);
                }
            }
        }
        return Err(Error::AuthFailTokenWrongFormat);
    }
    // The rest: one dot, with a non-empty segment of ASCII characters on
    // each side.
    let mut k: usize = j + 1;
    let mut found = false;
    let mut p: usize = j + 1;
    while k < n
        invariant
            n == t.len(),
            t == token@,
            5 < j < n,
            j + 1 <= k <= n,
            j + 1 <= p,
            found ==> p < k && t[p as int] == '.',
            forall|q: int| j + 1 <= q < k ==> (#[trigger] t[q] as u32) < 128,
            forall|q: int| j + 1 <= q < k && q != p ==> #[trigger] t[q] != '.',
            !found ==> forall|q: int| j + 1 <= q < k ==> #[trigger] t[q] != '.',
            forall|d: Seq<char>, exp: Seq<char>, sig: Seq<char>|
                #[trigger] is_token_of(t, d, exp, sig) ==> d == t.subrange(5, j as int),
        decreases n - k,
    {
        let c = token.get_char(k);
        if (c as u32) >= 128 || (c == '.' && found) {
            proof {
                assert forall|id: nat, exp: Seq<char>, sig: Seq<char>|
                    id <= u64::MAX implies !(#[trigger] is_token_for(t, id, exp, sig)) by {
                    if is_token_for(t, id, exp, sig) {
                        let d = choose|d: Seq<char>| #[trigger]
                            is_token_of(t, d, exp, sig) && decimal_value(d) == id;
                        lemma_token_text_parts(d, exp, sig);
                        let b: int = j + 1 + exp.len();
                        if k < b {
                            assert(t[j + 1 + (k - j - 1)] == exp[k - j - 1]);
                            assert(is_segment_char(exp[k - j - 1]));
                        } else if k > b {
                            assert(t[b + 1 + (k - b - 1)] == sig[k - b - 1]);
                            assert(is_segment_char(sig[k - b - 1]));
                        }
                        if c == '.' {
                            if p < b {
                                assert(t[j + 1 + (p - j - 1)] == exp[p - j - 1]);
                                assert(is_segment_char(exp[p - j - 1]));
                            } else if p > b {
                                assert(t[b + 1 + (p - b - 1)] == sig[p - b - 1]);
                                assert(is_segment_char(sig[p - b - 1]));
                            }
                        }
                    }
                }
            }
            return Err(Error::AuthFailTokenWrongFormat);
        }
        if c == '.' {
            found = true;
            p = k;
        }
        k = k + 1;
    }
    if !found || p == j + 1 || p == n - 1 {
        proof {
            assert forall|id: nat, exp: Seq<char>, sig: Seq<char>|
                id <= u64::MAX implies !(#[trigger] is_token_for(t, id, exp, sig)) by {
                if is_token_for(t, id, exp, sig) {
                    let d = choose|d: Seq<char>| #[trigger]
                        is_token_of(t, d, exp, sig) && decimal_value(d) == id;
                    lemma_token_text_parts(d, exp, sig);
                    let b: int = j + 1 + exp.len();
                    assert(t[b] == '.');
                }
            }
        }
        return Err(Error::AuthFailTokenWrongFormat);
    }
    let expiration = token.substring_char(j + 1, p).to_owned();
    let signature = token.substring_char(p + 1, n).to_owned();
    proof {
        let d = t.subrange(5, j as int);
        let exp = expiration@;
        let sig = signature@;
        assert forall|x: int| 0 <= x < exp.len() implies is_segment_char(#[trigger] exp[x]) by {
            assert(exp[x] == t[j + 1 + x]);
        }
        assert forall|x: int| 0 <= x < sig.len() implies is_segment_char(#[trigger] sig[x]) by {
            assert(sig[x] == t[p + 1 + x]);
        }
        assert forall|x: int| 0 <= x < d.len() implies #[trigger] is_digit(d[x]) by {
            assert(d[x] == t[5 + x]);
        }
        assert(t.subrange(0, 5) =~= token_prefix());
        assert(t =~= token_text(d, exp, sig));
        assert(is_token_of(t, d, exp, sig));
        assert(is_token_for(t, value as nat, exp, sig));
        assert forall|id: nat, e: Seq<char>, s: Seq<char>|
            id <= u64::MAX && #[trigger] is_token_for(t, id, e, s) implies id == value && e == exp
            && s == sig by {
            let d2 = choose|d2: Seq<char>| #[trigger]
                is_token_of(t, d2, e, s) && decimal_value(d2) == id;
            lemma_token_parts_unique(t, d, exp, sig, d2, e, s);
        }
    }
    Ok(Credential { user_id: value, expiration, signature })
}

} // verus!
