//! Small verified text utilities: prefix, suffix and substring tests,
//! leftmost non-overlapping replacement, end trimming, and decimal
//! rendering of integers. Everything is specified over sequences of
//! characters.

use vstd::prelude::*;

verus! {

/// `s` begins with `p`.
pub open spec fn has_prefix(s: Seq<char>, p: Seq<char>) -> bool {
    p.len() <= s.len() && s.take(p.len() as int) == p
}

/// `s` ends with `p`.
pub open spec fn has_suffix(s: Seq<char>, p: Seq<char>) -> bool {
    p.len() <= s.len() && s.skip(s.len() - p.len()) == p
}

/// `p` occurs in `s` at position `i`.
pub open spec fn matches_at(s: Seq<char>, i: int, p: Seq<char>) -> bool {
    0 <= i && i + p.len() <= s.len() && s.subrange(i, i + p.len()) == p
}

/// `p` occurs somewhere in `s`.
pub open spec fn contains_seq(s: Seq<char>, p: Seq<char>) -> bool {
    exists|i: int| matches_at(s, i, p)
}

/// `s` with every leftmost, non-overlapping occurrence of `pat` replaced by
/// `rep`, scanning left to right.
pub open spec fn replace_seq(s: Seq<char>, pat: Seq<char>, rep: Seq<char>) -> Seq<char>
    recommends
        pat.len() > 0,
    decreases s.len(),
    when pat.len() > 0
{
    if s.len() < pat.len() {
        s
    } else if s.take(pat.len() as int) == pat {
        rep + replace_seq(s.skip(pat.len() as int), pat, rep)
    } else {
        seq![s[0]] + replace_seq(s.skip(1), pat, rep)
    }
}

/// `s` with every trailing occurrence of `c` removed.
pub open spec fn trimmed_end(s: Seq<char>, c: char) -> Seq<char>
    decreases s.len(),
{
    if s.len() > 0 && s.last() == c {
        trimmed_end(s.drop_last(), c)
    } else {
        s
    }
}

/// Tests whether `p` occurs in `s` at position `i`.
fn matches_at_exec(s: &str, i: usize, p: &str) -> (r: bool)
    requires
        i + p@.len() <= s@.len(),
    ensures
        r == matches_at(s@, i as int, p@),
{
    let slen = s.unicode_len();
    let plen = p.unicode_len();
    let mut j: usize = 0;
    while j < plen
        invariant
            j <= plen,
            plen == p@.len(),
            slen == s@.len(),
            i + plen <= slen,
            forall|k: int| 0 <= k < j ==> s@[i + k] == p@[k],
        decreases plen - j,
    {
        if s.get_char(i + j) != p.get_char(j) {
            proof {
                assert(s@.subrange(i as int, i + plen)[j as int] == s@[i + j]);
            }
            return false;
        }
        j = j + 1;
    }
    proof {
        assert(s@.subrange(i as int, i + plen) =~= p@);
    }
    true
}

/// Returns whether the two texts hold the same characters.
pub fn str_eq(a: &str, b: &str) -> (r: bool)
    ensures
        r == (a@ == b@),
{
    let alen = a.unicode_len();
    let blen = b.unicode_len();
    if alen != blen {
        proof {
            if a@ == b@ {
                assert(a@.len() == b@.len());
            }
        }
        return false;
    }
    let m = matches_at_exec(a, 0, b);
    proof {
        if matches_at(a@, 0, b@) {
            assert(a@.subrange(0, b@.len() as int) =~= a@);
        } else {
            if a@ == b@ {
                assert(a@.subrange(0, b@.len() as int) =~= b@);
            }
        }
    }
    m
}

/// Returns whether `s` begins with `p`.
pub fn str_has_prefix(s: &str, p: &str) -> (r: bool)
    ensures
        r == has_prefix(s@, p@),
{
    if p.unicode_len() > s.unicode_len() {
        false
    } else {
        let r = matches_at_exec(s, 0, p);
        proof {
            assert(s@.subrange(0, p@.len() as int) =~= s@.take(p@.len() as int));
        }
        r
    }
}

/// Returns whether `s` ends with `p`.
pub fn str_has_suffix(s: &str, p: &str) -> (r: bool)
    ensures
        r == has_suffix(s@, p@),
{
    let slen = s.unicode_len();
    let plen = p.unicode_len();
    if plen > slen {
        false
    } else {
        let r = matches_at_exec(s, slen - plen, p);
        proof {
            assert(s@.subrange(slen - plen, slen - plen + p@.len()) =~= s@.skip(
                s@.len() - p@.len(),
            ));
        }
        r
    }
}

/// Returns whether `p` occurs anywhere in `s`.
pub fn str_contains(s: &str, p: &str) -> (r: bool)
    ensures
        r == contains_seq(s@, p@),
{
    let slen = s.unicode_len();
    let plen = p.unicode_len();
    if plen > slen {
        return false;
    }
    if plen == 0 {
        proof {
            assert(s@.subrange(0, 0) =~= p@);
            assert(matches_at(s@, 0, p@));
        }
        return true;
    }
    let mut i: usize = 0;
    while i <= slen - plen
        invariant
            slen == s@.len(),
            plen == p@.len(),
            0 < plen <= slen,
            i <= slen - plen + 1,
            forall|k: int| 0 <= k < i ==> !matches_at(s@, k, p@),
        decreases slen - i,
    {
        if matches_at_exec(s, i, p) {
            return true;
        }
        i = i + 1;
    }
    assert forall|k: int| !matches_at(s@, k, p@) by {
        if 0 <= k < i {
        } else {
        }
    }
    false
}

/// Returns `s` with every leftmost, non-overlapping occurrence of `pat`
/// replaced by `rep`.
pub fn str_replace(s: &str, pat: &str, rep: &str) -> (r: String)
    requires
        pat@.len() > 0,
    ensures
        r@ == replace_seq(s@, pat@, rep@),
{
    let slen = s.unicode_len();
    let plen = pat.unicode_len();
    let mut out = String::new();
    proof {
        assert(s@.skip(0) =~= s@);
        assert(out@ + replace_seq(s@, pat@, rep@) =~= replace_seq(s@, pat@, rep@));
    }
    let mut i: usize = 0;
    while i < slen
        invariant
            slen == s@.len(),
            plen == pat@.len(),
            plen > 0,
            i <= slen,
            out@ + replace_seq(s@.skip(i as int), pat@, rep@) == replace_seq(s@, pat@, rep@),
        decreases slen - i,
    {
        let ghost tail = s@.skip(i as int);
        if plen <= slen - i && matches_at_exec(s, i, pat) {
            proof {
                assert(tail.take(plen as int) =~= s@.subrange(i as int, i + plen));
                assert(tail.skip(plen as int) =~= s@.skip(i + plen));
            }
            out.append(rep);
            i = i + plen;
        } else if plen <= slen - i {
            proof {
                assert(tail.take(plen as int) =~= s@.subrange(i as int, i + plen));
                assert(tail.skip(1) =~= s@.skip(i + 1));
                assert(tail[0] == s@[i as int]);
            }
            let c = s.substring_char(i, i + 1);
            proof {
                assert(c@ =~= seq![s@[i as int]]);
            }
            out.append(c);
            i = i + 1;
        } else {
            proof {
                assert(tail.len() < plen);
            }
            let restpiece = s.substring_char(i, slen);
            proof {
                assert(restpiece@ =~= tail);
            }
            out.append(restpiece);
            i = slen;
        }
    }
    proof {
        assert(s@.skip(slen as int).len() == 0);
        assert(replace_seq(s@.skip(slen as int), pat@, rep@) =~= Seq::<char>::empty());
        assert(out@ =~= out@ + replace_seq(s@.skip(slen as int), pat@, rep@));
    }
    out
}

/// Returns `s` with every trailing occurrence of `c` removed.
pub fn str_trim_end_char<'a>(s: &'a str, c: char) -> (r: &'a str)
    ensures
        r@ == trimmed_end(s@, c),
{
    let slen = s.unicode_len();
    let mut end: usize = slen;
    proof {
        assert(s@.take(slen as int) =~= s@);
    }
    while end > 0 && s.get_char(end - 1) == c
        invariant
            end <= slen,
            slen == s@.len(),
            trimmed_end(s@, c) == trimmed_end(s@.take(end as int), c),
        decreases end,
    {
        proof {
            assert(s@.take(end as int).last() == s@[end - 1]);
            assert(s@.take(end as int).drop_last() =~= s@.take(end - 1));
        }
        end = end - 1;
    }
    let r = s.substring_char(0, end);
    proof {
        assert(r@ =~= s@.take(end as int));
    }
    r
}

/// The lower-case form of a text, as the standard library's case folding
/// produces it.
pub uninterp spec fn lower_of(s: Seq<char>) -> Seq<char>;

/// Relies on str::to_lowercase: the result depends on the characters
/// alone, and an empty text stays empty.
#[verifier::external_body]
pub(crate) fn lowercase(s: &str) -> (r: String)
    ensures
        r@ == lower_of(s@),
        s@.len() == 0 ==> r@.len() == 0,
{
    s.to_lowercase()
}

/// The character for one decimal digit.
pub open spec fn spec_digit(d: int) -> char {
    if d == 0 {
        '0'
    } else if d == 1 {
        '1'
    } else if d == 2 {
        '2'
    } else if d == 3 {
        '3'
    } else if d == 4 {
        '4'
    } else if d == 5 {
        '5'
    } else if d == 6 {
        '6'
    } else if d == 7 {
        '7'
    } else if d == 8 {
        '8'
    } else {
        '9'
    }
}

/// The decimal rendering of a non-negative integer, most significant digit
/// first, no leading zeros (a lone zero for zero).
pub open spec fn dec_digits(n: int) -> Seq<char>
    recommends
        n >= 0,
    decreases n,
{
    if n < 10 {
        seq![spec_digit(n)]
    } else {
        dec_digits(n / 10).push(spec_digit(n % 10))
    }
}

/// One decimal digit as text.
fn digit_str(d: u128) -> (r: &'static str)
    requires
        d < 10,
    ensures
        r@ == seq![spec_digit(d as int)],
{
    proof {
        reveal_strlit("0");
        reveal_strlit("1");
        reveal_strlit("2");
        reveal_strlit("3");
        reveal_strlit("4");
        reveal_strlit("5");
        reveal_strlit("6");
        reveal_strlit("7");
        reveal_strlit("8");
        reveal_strlit("9");
    }
    let r = match d {
        0 => "0",
        1 => "1",
        2 => "2",
        3 => "3",
        4 => "4",
        5 => "5",
        6 => "6",
        7 => "7",
        8 => "8",
        _ => "9",
    };
    proof {
        assert(r@ =~= seq![spec_digit(d as int)]);
    }
    r
}

/// Renders a non-negative integer in decimal.
pub fn fmt_u128(n: u128) -> (r: String)
    ensures
        r@ == dec_digits(n as int),
    decreases n,
{
    if n < 10 {
        String::from_str(digit_str(n))
    } else {
        let mut s = fmt_u128(n / 10);
        s.append(digit_str(n % 10));
        proof {
            assert(s@ =~= dec_digits(n as int / 10).push(spec_digit(n as int % 10)));
        }
        s
    }
}

/// Renders a non-negative integer in decimal.
pub fn fmt_u64(n: u64) -> (r: String)
    ensures
        r@ == dec_digits(n as int),
{
    fmt_u128(n as u128)
}

/// The character for one hexadecimal digit, lower case.
pub open spec fn hex_digit(d: int) -> char {
    if d < 10 {
        spec_digit(d)
    } else if d == 10 {
        'a'
    } else if d == 11 {
        'b'
    } else if d == 12 {
        'c'
    } else if d == 13 {
        'd'
    } else if d == 14 {
        'e'
    } else {
        'f'
    }
}

/// Exactly `n` hexadecimal digits of `v`, most significant first, zero
/// padded.
pub open spec fn hex_pad(v: int, n: nat) -> Seq<char>
    decreases n,
{
    if n == 0 {
        Seq::empty()
    } else {
        hex_pad(v / 16, (n - 1) as nat).push(hex_digit(v % 16))
    }
}

/// A fixed-width hexadecimal rendering has exactly its width.
pub proof fn lemma_hex_pad_len(v: int, n: nat)
    ensures
        hex_pad(v, n).len() == n,
    decreases n,
{
    if n > 0 {
        lemma_hex_pad_len(v / 16, (n - 1) as nat);
    }
}

/// One hexadecimal digit as text, lower case.
fn hex_digit_str(d: u128) -> (r: &'static str)
    requires
        d < 16,
    ensures
        r@ == seq![hex_digit(d as int)],
{
    proof {
        reveal_strlit("0");
        reveal_strlit("1");
        reveal_strlit("2");
        reveal_strlit("3");
        reveal_strlit("4");
        reveal_strlit("5");
        reveal_strlit("6");
        reveal_strlit("7");
        reveal_strlit("8");
        reveal_strlit("9");
        reveal_strlit("a");
        reveal_strlit("b");
        reveal_strlit("c");
        reveal_strlit("d");
        reveal_strlit("e");
        reveal_strlit("f");
    }
    let r = match d {
        0 => "0",
        1 => "1",
        2 => "2",
        3 => "3",
        4 => "4",
        5 => "5",
        6 => "6",
        7 => "7",
        8 => "8",
        9 => "9",
        10 => "a",
        11 => "b",
        12 => "c",
        13 => "d",
        14 => "e",
        _ => "f",
    };
    proof {
        assert(r@ =~= seq![hex_digit(d as int)]);
    }
    r
}

/// Renders exactly `n` hexadecimal digits of `v`, most significant first,
/// zero padded.
pub fn fmt_hex_pad(v: u128, n: usize) -> (r: String)
    ensures
        r@ == hex_pad(v as int, n as nat),
    decreases n,
{
    if n == 0 {
        let r = String::new();
        proof {
            assert(r@ =~= hex_pad(v as int, 0));
        }
        r
    } else {
        let mut s = fmt_hex_pad(v / 16, n - 1);
        s.append(hex_digit_str(v % 16));
        proof {
            assert(s@ =~= hex_pad(v as int / 16, (n - 1) as nat).push(
                hex_digit(v as int % 16),
            ));
        }
        s
    }
}

/// The canonical hyphenated rendering of a 128-bit identifier: thirty-two
/// lower-case hexadecimal digits in five groups of 8, 4, 4, 4 and 12.
pub open spec fn id_text(id: u128) -> Seq<char> {
    let h = hex_pad(id as int, 32);
    h.subrange(0, 8) + seq!['-'] + h.subrange(8, 12) + seq!['-'] + h.subrange(12, 16) + seq!['-']
        + h.subrange(16, 20) + seq!['-'] + h.subrange(20, 32)
}

/// Renders a 128-bit identifier in its canonical hyphenated form.
pub fn format_entity_id(id: u128) -> (r: String)
    ensures
        r@ == id_text(id),
{
    proof {
        reveal_strlit("-");
        lemma_hex_pad_len(id as int, 32);
    }
    let h = fmt_hex_pad(id, 32);
    let hs = h.as_str();
    let mut out = String::from_str(hs.substring_char(0, 8));
    out.append("-");
    out.append(hs.substring_char(8, 12));
    out.append("-");
    out.append(hs.substring_char(12, 16));
    out.append("-");
    out.append(hs.substring_char(16, 20));
    out.append("-");
    out.append(hs.substring_char(20, 32));
    proof {
        assert("-"@ =~= seq!['-']);
        assert(out@ =~= id_text(id));
    }
    out
}

} // verus!
