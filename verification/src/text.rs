//! Character-level text utilities: ASCII case folding, whitespace trimming,
//! tokenization, joining, and decimal rendering of integers.

use vstd::prelude::*;

verus! {

// ---------------------------------------------------------------------------
// Character classes
// ---------------------------------------------------------------------------

/// The whitespace characters recognized by the protocol (the ASCII ones).
pub open spec fn is_ws(c: char) -> bool {
    c == ' ' || c == '\t' || c == '\n' || c == '\r' || c == '\u{0c}'
}

/// ASCII decimal digit.
pub open spec fn is_digit(c: char) -> bool {
    48 <= c as u32 && c as u32 <= 57
}

/// ASCII upper-casing of one character; every other character is unchanged.
pub open spec fn to_upper(c: char) -> char {
    if 97 <= c as u32 && c as u32 <= 122 {
        ((c as u32 - 32) as u8) as char
    } else {
        c
    }
}

/// ASCII upper-casing of a whole sequence.
pub open spec fn upper_all(s: Seq<char>) -> Seq<char> {
    s.map_values(|c: char| to_upper(c))
}

pub fn is_ws_ch(c: char) -> (r: bool)
    ensures
        r == is_ws(c),
{
    c == ' ' || c == '\t' || c == '\n' || c == '\r' || c == '\u{0c}'
}

pub fn is_digit_ch(c: char) -> (r: bool)
    ensures
        r == is_digit(c),
{
    let u = c as u32;
    48 <= u && u <= 57
}

pub fn to_upper_ch(c: char) -> (r: char)
    ensures
        r == to_upper(c),
{
    let u = c as u32;
    if 97 <= u && u <= 122 {
        ((u - 32) as u8) as char
    } else {
        c
    }
}

pub fn upper_all_vec(s: &Vec<char>) -> (r: Vec<char>)
    ensures
        r@ == upper_all(s@),
{
    let mut r: Vec<char> = Vec::new();
    let mut i: usize = 0;
    while i < s.len()
        invariant
            i <= s.len(),
            r@.len() == i,
            forall|j: int| 0 <= j < i ==> r@[j] == to_upper(s@[j]),
        decreases s.len() - i,
    {
        r.push(to_upper_ch(s[i]));
        i += 1;
    }
    proof {
        assert(r@ =~= upper_all(s@));
    }
    r
}

// ---------------------------------------------------------------------------
// Trimming
// ---------------------------------------------------------------------------

/// Drop leading whitespace.
pub open spec fn ltrim(s: Seq<char>) -> Seq<char>
    decreases s.len(),
{
    if s.len() > 0 && is_ws(s[0]) {
        ltrim(s.drop_first())
    } else {
        s
    }
}

/// Drop trailing whitespace.
pub open spec fn rtrim(s: Seq<char>) -> Seq<char>
    decreases s.len(),
{
    if s.len() > 0 && is_ws(s.last()) {
        rtrim(s.drop_last())
    } else {
        s
    }
}

/// Drop surrounding whitespace.
pub open spec fn trim(s: Seq<char>) -> Seq<char> {
    rtrim(ltrim(s))
}

proof fn lemma_ltrim_skip(s: Seq<char>, k: int)
    requires
        0 <= k <= s.len(),
        forall|j: int| 0 <= j < k ==> is_ws(s[j]),
    ensures
        ltrim(s) == ltrim(s.skip(k)),
    decreases k,
{
    if k > 0 {
        assert(is_ws(s[0]));
        assert(s.drop_first() =~= s.skip(1));
        lemma_ltrim_skip(s.skip(1), k - 1);
        assert(s.skip(1).skip(k - 1) =~= s.skip(k));
    } else {
        assert(s.skip(0) =~= s);
    }
}

proof fn lemma_ltrim_fixed(s: Seq<char>)
    requires
        s.len() == 0 || !is_ws(s[0]),
    ensures
        ltrim(s) == s,
{
}

proof fn lemma_rtrim_take(s: Seq<char>, k: int)
    requires
        0 <= k <= s.len(),
        forall|j: int| k <= j < s.len() ==> is_ws(s[j]),
    ensures
        rtrim(s) == rtrim(s.take(k)),
    decreases s.len() - k,
{
    if k < s.len() {
        assert(is_ws(s.last()));
        assert(s.drop_last() =~= s.take(s.len() - 1));
        lemma_rtrim_take(s.take(s.len() - 1), k);
        assert(s.take(s.len() - 1).take(k) =~= s.take(k));
    } else {
        assert(s.take(s.len() as int) =~= s);
    }
}

proof fn lemma_rtrim_fixed(s: Seq<char>)
    requires
        s.len() == 0 || !is_ws(s.last()),
    ensures
        rtrim(s) == s,
{
}

/// Trim surrounding whitespace from a character vector.
pub fn trim_vec(s: &Vec<char>) -> (r: Vec<char>)
    ensures
        r@ == trim(s@),
{
    let n = s.len();
    let mut start: usize = 0;
    while start < n && is_ws_ch(s[start as usize])
        invariant
            start <= n,
            n == s@.len(),
            forall|j: int| 0 <= j < start ==> is_ws(s@[j]),
        decreases n - start,
    {
        start += 1;
    }
    let mut end: usize = n;
    while end > start && is_ws_ch(s[end - 1])
        invariant
            start <= end <= n,
            n == s@.len(),
            forall|j: int| end <= j < n ==> is_ws(s@[j]),
        decreases end,
    {
        end -= 1;
    }
    let mut r: Vec<char> = Vec::new();
    let mut i: usize = start;
    while i < end
        invariant
            start <= i <= end <= n,
            n == s@.len(),
            r@ =~= s@.subrange(start as int, i as int),
        decreases end - i,
    {
        r.push(s[i]);
        assert(r@ =~= s@.subrange(start as int, i + 1));
        i += 1;
    }
    proof {
        let mid = s@.skip(start as int);
        lemma_ltrim_skip(s@, start as int);
        if start < n {
            assert(mid[0] == s@[start as int]);
            assert(!is_ws(mid[0]));
        }
        lemma_ltrim_fixed(mid);
        assert(ltrim(s@) == mid);
        lemma_rtrim_take(mid, end - start);
        let kept = mid.take(end - start);
        if end > start {
            assert(kept.last() == s@[end - 1]);
            assert(!is_ws(kept.last()));
        }
        lemma_rtrim_fixed(kept);
        assert(trim(s@) == kept);
        assert(r@ =~= kept);
    }
    r
}

// ---------------------------------------------------------------------------
// Tokenization: split on runs of whitespace
// ---------------------------------------------------------------------------

/// The whitespace-separated tokens of a sequence, in order.
pub open spec fn tokens_of(s: Seq<char>) -> Seq<Seq<char>>
    decreases s.len(),
{
    if s.len() == 0 {
        Seq::empty()
    } else if is_ws(s.last()) {
        tokens_of(s.drop_last())
    } else if s.len() == 1 || is_ws(s[s.len() - 2]) {
        tokens_of(s.drop_last()).push(seq![s.last()])
    } else {
        let t = tokens_of(s.drop_last());
        t.update(t.len() - 1, t.last().push(s.last()))
    }
}


/// Split a character vector on runs of whitespace.
pub fn tokenize(s: &Vec<char>) -> (toks: Vec<Vec<char>>)
    ensures
        toks.deep_view() == tokens_of(s@),
{
    let n = s.len();
    let mut toks: Vec<Vec<char>> = Vec::new();
    let mut cur: Vec<char> = Vec::new();
    let mut i: usize = 0;
    while i < n
        invariant
            i <= n,
            n == s@.len(),
            (i == 0 || is_ws(s@[i - 1])) ==> cur@.len() == 0 && toks.deep_view() == tokens_of(
                s@.take(i as int),
            ),
            !(i == 0 || is_ws(s@[i - 1])) ==> cur@.len() > 0 && tokens_of(s@.take(i as int))
                == toks.deep_view().push(cur@),
        decreases n - i,
    {
        let c = s[i];
        proof {
            let pre = s@.take(i + 1);
            assert(pre.drop_last() =~= s@.take(i as int));
            assert(pre.last() == s@[i as int]);
            if i > 0 {
                assert(pre[pre.len() - 2] == s@[i - 1]);
            }
        }
        if is_ws_ch(c) {
            if cur.len() > 0 {
                let ghost old_toks = toks.deep_view();
                let ghost old_cur = cur@;
                toks.push(cur);
                cur = Vec::new();
                proof {
                    assert(toks.deep_view() =~~= old_toks.push(old_cur));
                }
            }
        } else {
            if cur.len() == 0 {
                let ghost old_toks = toks.deep_view();
                cur.push(c);
                proof {
                    assert(cur@ =~= seq![c]);
                    assert(tokens_of(s@.take(i + 1)) == old_toks.push(seq![c]));
                }
            } else {
                let ghost t = tokens_of(s@.take(i as int));
                cur.push(c);
                proof {
                    assert(t.len() > 0);
                    assert(t.update(t.len() - 1, t.last().push(c)) =~~= toks.deep_view().push(
                        cur@,
                    ));
                }
            }
        }
        i += 1;
    }
    proof {
        assert(s@.take(n as int) =~= s@);
    }
    if cur.len() > 0 {
        let ghost old_toks = toks.deep_view();
        let ghost old_cur = cur@;
        toks.push(cur);
        proof {
            assert(toks.deep_view() =~~= old_toks.push(old_cur));
        }
    }
    toks
}

// ---------------------------------------------------------------------------
// Joining
// ---------------------------------------------------------------------------

/// Join a sequence of tokens with a separator.
pub open spec fn join_with(ts: Seq<Seq<char>>, sep: Seq<char>) -> Seq<char>
    decreases ts.len(),
{
    if ts.len() == 0 {
        Seq::empty()
    } else if ts.len() == 1 {
        ts[0]
    } else {
        join_with(ts.drop_last(), sep) + sep + ts.last()
    }
}

/// Join tokens `ts[from..]` with single spaces.
pub fn join_from(ts: &Vec<Vec<char>>, from: usize) -> (r: Vec<char>)
    requires
        from <= ts@.len(),
    ensures
        r@ == join_with(ts.deep_view().skip(from as int), seq![' ']),
{
    let ghost suffix = ts.deep_view().skip(from as int);
    let mut r: Vec<char> = Vec::new();
    let mut i: usize = from;
    while i < ts.len()
        invariant
            from <= i <= ts@.len(),
            suffix == ts.deep_view().skip(from as int),
            ts.deep_view().len() == ts@.len(),
            r@ == join_with(suffix.take(i - from), seq![' ']),
        decreases ts@.len() - i,
    {
        let ghost k = i - from;
        proof {
            assert(suffix.take(k + 1).drop_last() =~= suffix.take(k));
            assert(suffix.take(k + 1).last() == ts.deep_view()[i as int]);
        }
        if i > from {
            r.push(' ');
        }
        let tok = &ts[i];
        let mut j: usize = 0;
        let ghost mid = r@;
        while j < tok.len()
            invariant
                j <= tok@.len(),
                r@ == mid + tok@.take(j as int),
            decreases tok@.len() - j,
        {
            r.push(tok[j]);
            proof {
                assert(mid + tok@.take(j + 1) =~= (mid + tok@.take(j as int)).push(tok@[
                    j as int]));
            }
            j += 1;
        }
        proof {
            assert(tok@.take(tok@.len() as int) =~= tok@);
            assert(tok@ == ts.deep_view()[i as int]);
            if k == 0 {
                assert(r@ =~= suffix.take(1)[0]);
            } else {
                assert(r@ =~= join_with(suffix.take(k), seq![' ']) + seq![' ']
                    + suffix.take(k + 1).last());
            }
        }
        i += 1;
    }
    proof {
        assert(suffix.take(suffix.len() as int) =~= suffix);
    }
    r
}

// ---------------------------------------------------------------------------
// Decimal literals
// ---------------------------------------------------------------------------

/// Number of decimal points in a sequence.
pub open spec fn count_dots(s: Seq<char>) -> nat
    decreases s.len(),
{
    if s.len() == 0 {
        0
    } else {
        count_dots(s.drop_last()) + if s.last() == '.' {
            1nat
        } else {
            0nat
        }
    }
}

/// Number of decimal digits in a sequence.
pub open spec fn count_digits(s: Seq<char>) -> nat
    decreases s.len(),
{
    if s.len() == 0 {
        0
    } else {
        count_digits(s.drop_last()) + if is_digit(s.last()) {
            1nat
        } else {
            0nat
        }
    }
}

/// Every character is a digit or a decimal point.
pub open spec fn all_digit_or_dot(s: Seq<char>) -> bool
    decreases s.len(),
{
    if s.len() == 0 {
        true
    } else {
        all_digit_or_dot(s.drop_last()) && (is_digit(s.last()) || s.last() == '.')
    }
}

pub proof fn lemma_all_digit_or_dot_take(s: Seq<char>, m: int)
    requires
        0 <= m <= s.len(),
        all_digit_or_dot(s),
    ensures
        all_digit_or_dot(s.take(m)),
    decreases s.len(),
{
    if m < s.len() {
        assert(s.take(m) =~= s.drop_last().take(m));
        lemma_all_digit_or_dot_take(s.drop_last(), m);
    } else {
        assert(s.take(m) =~= s);
    }
}

/// Every character is a decimal digit.
pub open spec fn all_digits(s: Seq<char>) -> bool
    decreases s.len(),
{
    if s.len() == 0 {
        true
    } else {
        all_digits(s.drop_last()) && is_digit(s.last())
    }
}

pub proof fn lemma_all_digits_take(s: Seq<char>, m: int)
    requires
        0 <= m <= s.len(),
        all_digits(s),
    ensures
        all_digits(s.take(m)),
    decreases s.len(),
{
    if m < s.len() {
        assert(s.take(m) =~= s.drop_last().take(m));
        lemma_all_digits_take(s.drop_last(), m);
    } else {
        assert(s.take(m) =~= s);
    }
}

/// A decimal literal: an optional sign, then digits with at most one decimal
/// point and at least one digit.
pub open spec fn is_decimal(s: Seq<char>) -> bool {
    if s.len() == 0 {
        false
    } else {
        let body = if s[0] == '+' || s[0] == '-' {
            s.skip(1)
        } else {
            s
        };
        &&& body.len() > 0
        &&& all_digit_or_dot(body)
        &&& count_dots(body) <= 1
        &&& count_digits(body) >= 1
    }
}

// ---------------------------------------------------------------------------
// Decimal rendering of integers
// ---------------------------------------------------------------------------

/// The character for one decimal digit value.
pub open spec fn dec_digit(d: int) -> char {
    ((48 + d) as u8) as char
}

/// The decimal representation of a non-negative integer, no leading zeros.
pub open spec fn dec_str(n: int) -> Seq<char>
    decreases n,
{
    if n < 10 {
        seq![dec_digit(n)]
    } else {
        dec_str(n / 10).push(dec_digit(n % 10))
    }
}

/// Render a `u64` in decimal.
pub fn u64_dec_chars(n: u64) -> (r: Vec<char>)
    ensures
        r@ == dec_str(n as int),
    decreases n,
{
    if n < 10 {
        let d = ((48 + n) as u8) as char;
        let mut r: Vec<char> = Vec::new();
        r.push(d);
        proof {
            assert(r@ =~= seq![dec_digit(n as int)]);
        }
        r
    } else {
        let mut r = u64_dec_chars(n / 10);
        let d = ((48 + n % 10) as u8) as char;
        r.push(d);
        r
    }
}

/// Dollar rendering of an amount in cents: `$<dollars>.<two digits>`.
pub open spec fn money_str(cents: int) -> Seq<char> {
    seq!['$'] + dec_str(cents / 100) + seq!['.'] + seq![
        dec_digit((cents % 100) / 10),
        dec_digit(cents % 10),
    ]
}

/// Render an amount of cents as dollars, always with two decimal places.
pub fn money_chars(cents: u64) -> (r: Vec<char>)
    ensures
        r@ == money_str(cents as int),
{
    let mut r: Vec<char> = Vec::new();
    r.push('$');
    let whole = u64_dec_chars(cents / 100);
    let mut i: usize = 0;
    while i < whole.len()
        invariant
            i <= whole@.len(),
            r@ == seq!['$'] + whole@.take(i as int),
        decreases whole@.len() - i,
    {
        r.push(whole[i]);
        proof {
            assert(seq!['$'] + whole@.take(i + 1) =~= (seq!['$'] + whole@.take(i as int)).push(
                whole@[i as int]));
        }
        i += 1;
    }
    proof {
        assert(whole@.take(whole@.len() as int) =~= whole@);
    }
    r.push('.');
    let rem = cents % 100;
    r.push(((48 + rem / 10) as u8) as char);
    r.push(((48 + rem % 10) as u8) as char);
    proof {
        assert(rem / 10 == (cents as int % 100) / 10) by {
            assert(rem == cents as int % 100);
        }
        assert(rem as int % 10 == cents as int % 10) by {
            vstd::arithmetic::div_mod::lemma_mod_mod(cents as int, 10, 10);
        }
        assert(r@ =~= money_str(cents as int));
    }
    r
}

// ---------------------------------------------------------------------------
// Strings <-> character vectors
// ---------------------------------------------------------------------------

/// Relies on `String::push`: appends exactly one character.
#[verifier::external_body]
fn push_char(s: &mut String, c: char)
    ensures
        final(s)@ == old(s)@.push(c),
{
    s.push(c)
}

/// Build a `String` from a character vector.
pub fn chars_to_string(v: &Vec<char>) -> (r: String)
    ensures
        r@ == v@,
{
    let mut r = String::new();
    let mut i: usize = 0;
    while i < v.len()
        invariant
            i <= v@.len(),
            r@ == v@.take(i as int),
        decreases v@.len() - i,
    {
        push_char(&mut r, v[i]);
        proof {
            assert(v@.take(i + 1) =~= v@.take(i as int).push(v@[i as int]));
        }
        i += 1;
    }
    proof {
        assert(v@.take(v@.len() as int) =~= v@);
    }
    r
}

/// Collect the characters of a string slice.
pub fn str_to_chars(s: &str) -> (r: Vec<char>)
    ensures
        r@ == s@,
{
    let n = s.unicode_len();
    let mut r: Vec<char> = Vec::new();
    let mut i: usize = 0;
    while i < n
        invariant
            i <= n,
            n == s@.len(),
            r@ == s@.take(i as int),
        decreases n - i,
    {
        r.push(s.get_char(i));
        proof {
            assert(s@.take(i + 1) =~= s@.take(i as int).push(s@[i as int]));
        }
        i += 1;
    }
    proof {
        assert(s@.take(n as int) =~= s@);
    }
    r
}

/// Append the characters of `src` to `dst`.
pub fn append_chars(dst: &mut Vec<char>, src: &Vec<char>)
    ensures
        final(dst)@ == old(dst)@ + src@,
{
    let mut i: usize = 0;
    while i < src.len()
        invariant
            i <= src@.len(),
            dst@ == old(dst)@ + src@.take(i as int),
        decreases src@.len() - i,
    {
        dst.push(src[i]);
        proof {
            assert(old(dst)@ + src@.take(i + 1) =~= (old(dst)@ + src@.take(i as int)).push(
                src@[i as int]));
        }
        i += 1;
    }
    proof {
        assert(src@.take(src@.len() as int) =~= src@);
    }
}

/// Append the characters of a string slice to `dst`.
pub fn append_str_chars(dst: &mut Vec<char>, s: &str)
    ensures
        final(dst)@ == old(dst)@ + s@,
{
    let n = s.unicode_len();
    let mut i: usize = 0;
    while i < n
        invariant
            i <= n,
            n == s@.len(),
            dst@ == old(dst)@ + s@.take(i as int),
        decreases n - i,
    {
        dst.push(s.get_char(i));
        proof {
            assert(old(dst)@ + s@.take(i + 1) =~= (old(dst)@ + s@.take(i as int)).push(s@[
                i as int]));
        }
        i += 1;
    }
    proof {
        assert(s@.take(n as int) =~= s@);
    }
}

/// Compare a character vector with a string slice.
pub fn eq_str(v: &Vec<char>, s: &str) -> (r: bool)
    ensures
        r == (v@ == s@),
{
    let n = s.unicode_len();
    if v.len() != n {
        proof {
            assert(v@ != s@);
        }
        return false;
    }
    let mut i: usize = 0;
    while i < n
        invariant
            i <= n,
            n == s@.len(),
            v@.len() == n,
            forall|j: int| 0 <= j < i ==> v@[j] == s@[j],
        decreases n - i,
    {
        if v[i] != s.get_char(i) {
            proof {
                assert(v@[i as int] != s@[i as int]);
            }
            return false;
        }
        i += 1;
    }
    proof {
        assert(v@ =~= s@);
    }
    true
}

} // verus!
