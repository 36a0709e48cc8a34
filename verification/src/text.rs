//! Small verified text utilities the parsing actors share: whitespace
//! classification, whitespace splitting, trimming, and decimal parsing.

use vstd::prelude::*;

verus! {

/// Whether `c` is a white-space character (the Unicode `White_Space` set).
pub open spec fn is_space(c: char) -> bool {
    let u = c as u32;
    ||| (0x9 <= u && u <= 0xD)
    ||| u == 0x20
    ||| u == 0x85
    ||| u == 0xA0
    ||| u == 0x1680
    ||| (0x2000 <= u && u <= 0x200A)
    ||| u == 0x2028
    ||| u == 0x2029
    ||| u == 0x202F
    ||| u == 0x205F
    ||| u == 0x3000
}

/// Decides [`is_space`].
pub fn is_space_char(c: char) -> (b: bool)
    ensures
        b == is_space(c),
{
    let u = c as u32;
    (0x9 <= u && u <= 0xD) || u == 0x20 || u == 0x85 || u == 0xA0 || u == 0x1680 || (0x2000 <= u
        && u <= 0x200A) || u == 0x2028 || u == 0x2029 || u == 0x202F || u == 0x205F || u == 0x3000
}

/// The length of the leading run of non-space characters.
pub open spec fn token_len(s: Seq<char>) -> nat
    decreases s.len(),
{
    if s.len() == 0 || is_space(s[0]) {
        0
    } else {
        1 + token_len(s.drop_first())
    }
}

/// The leading token is indeed a maximal run of non-space characters.
pub proof fn lemma_token_len(s: Seq<char>)
    ensures
        token_len(s) <= s.len(),
        forall|k: int| 0 <= k < token_len(s) ==> !is_space(#[trigger] s[k]),
        token_len(s) < s.len() ==> is_space(s[token_len(s) as int]),
    decreases s.len(),
{
    if s.len() > 0 && !is_space(s[0]) {
        lemma_token_len(s.drop_first());
        assert forall|k: int| 0 <= k < token_len(s) implies !is_space(#[trigger] s[k]) by {
            if k > 0 {
                assert(s.drop_first()[k - 1] == s[k]);
            }
        }
    }
}

/// The white-space split of `s`: its maximal runs of non-space characters,
/// in order, with all the space between and around them discarded.
pub open spec fn split_ws(s: Seq<char>) -> Seq<Seq<char>>
    decreases s.len(),
    when s.len() >= 0
    via split_ws_decreases
{
    if s.len() == 0 {
        Seq::empty()
    } else if is_space(s[0]) {
        split_ws(s.drop_first())
    } else {
        seq![s.take(token_len(s) as int)] + split_ws(s.skip(token_len(s) as int))
    }
}

#[via_fn]
proof fn split_ws_decreases(s: Seq<char>) {
    if s.len() > 0 && !is_space(s[0]) {
        lemma_token_len(s);
    }
}

/// The position right after the leading token that starts at `i`.
fn token_end(s: &str, i: usize) -> (j: usize)
    requires
        i as nat <= s@.len(),
    ensures
        i <= j,
        j as nat <= s@.len(),
        j - i == token_len(s@.skip(i as int)),
    decreases s@.len() - i,
{
    let n = s.unicode_len();
    if i < n {
        let c = s.get_char(i);
        if !is_space_char(c) {
            proof {
                assert(s@.skip(i as int)[0] == s@[i as int]);
                assert(s@.skip(i as int).drop_first() =~= s@.skip(i as int + 1));
            }
            return token_end(s, i + 1);
        }
        proof {
            assert(s@.skip(i as int)[0] == s@[i as int]);
        }
    }
    i
}

/// Splits the suffix of `s` that starts at `i` on white space.
fn split_from<'a>(s: &'a str, i: usize) -> (toks: Vec<&'a str>)
    requires
        i as nat <= s@.len(),
    ensures
        toks@.map_values(|t: &str| t@) == split_ws(s@.skip(i as int)),
    decreases s@.len() - i,
{
    let n = s.unicode_len();
    if i >= n {
        let toks: Vec<&'a str> = Vec::new();
        proof {
            assert(toks@.map_values(|t: &str| t@) =~= split_ws(s@.skip(i as int)));
        }
        toks
    } else {
        let c = s.get_char(i);
        if is_space_char(c) {
            proof {
                assert(s@.skip(i as int)[0] == s@[i as int]);
                assert(s@.skip(i as int).drop_first() =~= s@.skip(i as int + 1));
            }
            split_from(s, i + 1)
        } else {
            let j = token_end(s, i);
            let tok = s.substring_char(i, j);
            let mut toks = split_from(s, j);
            toks.insert(0, tok);
            proof {
                let suf = s@.skip(i as int);
                assert(suf[0] == s@[i as int]);
                assert(suf.take(token_len(suf) as int) =~= s@.subrange(i as int, j as int));
                assert(suf.skip(token_len(suf) as int) =~= s@.skip(j as int));
                assert(toks@.map_values(|t: &str| t@) =~= seq![tok@] + split_ws(s@.skip(j as int)));
            }
            toks
        }
    }
}

/// Splits `s` on white space into its tokens, in order.
pub fn split_whitespace_tokens<'a>(s: &'a str) -> (toks: Vec<&'a str>)
    ensures
        toks@.map_values(|t: &str| t@) == split_ws(s@),
{
    let toks = split_from(s, 0);
    proof {
        assert(s@.skip(0) =~= s@);
    }
    toks
}

/// The length of the leading run of space characters.
pub open spec fn ws_prefix_len(s: Seq<char>) -> nat
    decreases s.len(),
{
    if s.len() == 0 || !is_space(s[0]) {
        0
    } else {
        1 + ws_prefix_len(s.drop_first())
    }
}

/// The length of the trailing run of space characters.
pub open spec fn ws_suffix_len(s: Seq<char>) -> nat
    decreases s.len(),
{
    if s.len() == 0 || !is_space(s.last()) {
        0
    } else {
        1 + ws_suffix_len(s.drop_last())
    }
}

/// `s` without its surrounding white space.
pub open spec fn trim_spec(s: Seq<char>) -> Seq<char> {
    if ws_prefix_len(s) == s.len() {
        Seq::empty()
    } else {
        s.subrange(ws_prefix_len(s) as int, s.len() - ws_suffix_len(s))
    }
}

/// The leading space run is maximal.
proof fn lemma_ws_prefix(s: Seq<char>)
    ensures
        ws_prefix_len(s) <= s.len(),
        forall|k: int| 0 <= k < ws_prefix_len(s) ==> is_space(#[trigger] s[k]),
        ws_prefix_len(s) < s.len() ==> !is_space(s[ws_prefix_len(s) as int]),
    decreases s.len(),
{
    if s.len() > 0 && is_space(s[0]) {
        lemma_ws_prefix(s.drop_first());
        assert forall|k: int| 0 <= k < ws_prefix_len(s) implies is_space(#[trigger] s[k]) by {
            if k > 0 {
                assert(s.drop_first()[k - 1] == s[k]);
            }
        }
    }
}

/// The trailing space run is maximal.
proof fn lemma_ws_suffix(s: Seq<char>)
    ensures
        ws_suffix_len(s) <= s.len(),
        forall|k: int| s.len() - ws_suffix_len(s) <= k < s.len() ==> is_space(#[trigger] s[k]),
        ws_suffix_len(s) < s.len() ==> !is_space(s[s.len() - ws_suffix_len(s) - 1]),
    decreases s.len(),
{
    if s.len() > 0 && is_space(s.last()) {
        lemma_ws_suffix(s.drop_last());
        assert forall|k: int| s.len() - ws_suffix_len(s) <= k < s.len() implies is_space(
            #[trigger] s[k],
        ) by {
            if k < s.len() - 1 {
                assert(s.drop_last()[k] == s[k]);
            }
        }
    }
}

/// Removes the white space around `s`.
pub fn trim_text(s: &str) -> (r: String)
    ensures
        r@ == trim_spec(s@),
{
    let n = s.unicode_len();
    let mut a: usize = 0;
    while a < n && is_space_char(s.get_char(a))
        invariant
            a <= n,
            n as nat == s@.len(),
            forall|k: int| 0 <= k < a ==> is_space(#[trigger] s@[k]),
        decreases n - a,
    {
        a = a + 1;
    }
    proof {
        lemma_ws_prefix(s@);
        assert(a as nat == ws_prefix_len(s@));
    }
    if a == n {
        let r = String::new();
        return r;
    }
    let mut b: usize = n;
    while b > a && is_space_char(s.get_char(b - 1))
        invariant
            a <= b <= n,
            n as nat == s@.len(),
            a < n,
            !is_space(s@[a as int]),
            forall|k: int| b <= k < n ==> is_space(#[trigger] s@[k]),
        decreases b,
    {
        b = b - 1;
    }
    proof {
        lemma_ws_suffix(s@);
        assert(b > a);
        assert((n - b) as nat == ws_suffix_len(s@));
    }
    s.substring_char(a, b).to_owned()
}

/// Whether `c` is a decimal digit.
pub open spec fn is_digit(c: char) -> bool {
    0x30 <= (c as u32) && (c as u32) <= 0x39
}

/// The value of the digit `c`.
pub open spec fn digit_val(c: char) -> nat {
    ((c as u32) - 0x30) as nat
}

/// Whether every character of `s` is a decimal digit.
pub open spec fn all_digits(s: Seq<char>) -> bool {
    forall|k: int| 0 <= k < s.len() ==> is_digit(#[trigger] s[k])
}

/// The number the digit string `s` denotes.
pub open spec fn digits_val(s: Seq<char>) -> nat
    decreases s.len(),
{
    if s.len() == 0 {
        0
    } else {
        digits_val(s.drop_last()) * 10 + digit_val(s.last())
    }
}

/// A digit string is worth at least any of its prefixes.
proof fn lemma_digits_val_prefix_le(s: Seq<char>, k: int)
    requires
        0 <= k <= s.len(),
    ensures
        digits_val(s.take(k)) <= digits_val(s),
    decreases s.len(),
{
    if k < s.len() {
        assert(s.drop_last().take(k) =~= s.take(k));
        lemma_digits_val_prefix_le(s.drop_last(), k);
    } else {
        assert(s.take(k) =~= s);
    }
}

/// The digits of a decimal number: everything after an optional leading `+`.
pub open spec fn dec_body(s: Seq<char>) -> Seq<char> {
    if s.len() > 0 && s[0] == '+' {
        s.drop_first()
    } else {
        s
    }
}

/// What parsing `s` as a decimal 32-bit number yields: an optional leading
/// `+`, then at least one digit and nothing else, with a value that fits.
pub open spec fn dec_u32_of(s: Seq<char>) -> Option<u32> {
    let body = dec_body(s);
    if body.len() == 0 || !all_digits(body) || digits_val(body) > u32::MAX {
        None
    } else {
        Some(digits_val(body) as u32)
    }
}

/// Parses `s` as a decimal 32-bit number.
pub fn parse_u32(s: &str) -> (r: Option<u32>)
    ensures
        r == dec_u32_of(s@),
{
    let n = s.unicode_len();
    let start: usize = if n > 0 && s.get_char(0) == '+' {
        1
    } else {
        0
    };
    let ghost body = dec_body(s@);
    proof {
        assert(body =~= s@.subrange(start as int, n as int));
    }
    if n == start {
        return None;
    }
    let mut val: u64 = 0;
    let mut i: usize = start;
    while i < n
        invariant
            start <= i <= n,
            n as nat == s@.len(),
            body == dec_body(s@),
            body == s@.subrange(start as int, n as int),
            forall|k: int| start <= k < i ==> is_digit(#[trigger] s@[k]),
            val as nat == digits_val(s@.subrange(start as int, i as int)),
            val <= u32::MAX,
        decreases n - i,
    {
        let c = s.get_char(i);
        let u = c as u32;
        if !(48 <= u && u <= 57) {
            proof {
                assert(body[i - start] == s@[i as int]);
                assert(!all_digits(body));
            }
            return None;
        }
        let d = u - 48;
        val = val * 10 + d as u64;
        proof {
            let pref = s@.subrange(start as int, i as int + 1);
            assert(pref.drop_last() =~= s@.subrange(start as int, i as int));
            assert(pref.last() == s@[i as int]);
        }
        if val > u32::MAX as u64 {
            proof {
                if all_digits(body) {
                    lemma_digits_val_prefix_le(body, i + 1 - start);
                    assert(body.take(i + 1 - start) =~= s@.subrange(start as int, i as int + 1));
                }
            }
            return None;
        }
        i = i + 1;
    }
    proof {
        assert(s@.subrange(start as int, n as int) =~= body);
        assert forall|k: int| 0 <= k < body.len() implies is_digit(#[trigger] body[k]) by {
            assert(body[k] == s@[start + k]);
        }
    }
    Some(val as u32)
}

} // verus!
