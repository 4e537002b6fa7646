//! Character-level helpers shared by the rest of the library.

use vstd::prelude::*;

verus! {

/// Relies on `String::push`: appends one character at the end.
#[verifier::external_body]
pub(crate) fn push_char(s: &mut String, c: char)
    ensures
        final(s)@ == old(s)@.push(c),
{
    s.push(c)
}

/// The characters of a string slice, in order.
pub fn chars_of(s: &str) -> (r: Vec<char>)
    ensures
        r@ == s@,
{
    let mut v: Vec<char> = Vec::new();
    for c in it: s.chars()
        invariant
            v@ == it.seq().subrange(0, it.index() as int),
    {
        v.push(c);
    }
    v
}

/// The string made of the given characters, in order.
pub fn string_of(v: &Vec<char>) -> (r: String)
    ensures
        r@ == v@,
{
    let mut s = String::new();
    let mut i: usize = 0;
    while i < v.len()
        invariant
            i <= v.len(),
            s@ == v@.subrange(0, i as int),
        decreases v.len() - i,
    {
        push_char(&mut s, v[i]);
        i = i + 1;
        assert(s@ == v@.subrange(0, i as int));
    }
    assert(v@.subrange(0, v.len() as int) == v@);
    s
}

} // verus!

verus! {

/// The character that spells the decimal digit `d`.
pub open spec fn digit_char(d: nat) -> char {
    (d + 48) as char
}

/// Decimal notation of a natural number: most significant digit first, no leading zeros.
pub open spec fn decimal(n: nat) -> Seq<char>
    decreases n,
{
    if n < 10 {
        seq![digit_char(n)]
    } else {
        decimal(n / 10).push(digit_char(n % 10))
    }
}

/// Decimal notation of an integer, with a leading `-` when it is negative.
pub open spec fn signed_decimal(i: int) -> Seq<char> {
    if i < 0 {
        seq!['-'] + decimal((-i) as nat)
    } else {
        decimal(i as nat)
    }
}

/// Appends the decimal notation of `n`.
pub fn push_decimal(out: &mut Vec<char>, n: u64)
    ensures
        final(out)@ == old(out)@ + decimal(n as nat),
    decreases n,
{
    if n >= 10 {
        push_decimal(out, n / 10);
    }
    let d: u8 = (n % 10) as u8;
    let c: char = (d + 48) as char;
    out.push(c);
    assert(decimal(n as nat) == (if n < 10 { Seq::<char>::empty() } else { decimal((n / 10) as nat) }).push(digit_char((n % 10) as nat)));
}

/// Appends the decimal notation of `i`, signed.
pub fn push_signed_decimal(out: &mut Vec<char>, i: i64)
    ensures
        final(out)@ == old(out)@ + signed_decimal(i as int),
{
    if i < 0 {
        out.push('-');
        let m: u64 = (-(i as i128)) as u64;
        push_decimal(out, m);
        assert(final(out)@ =~= old(out)@ + signed_decimal(i as int));
    } else {
        push_decimal(out, i as u64);
    }
}

/// Unicode's `White_Space` property: the characters that `char::is_whitespace`
/// accepts, and that `\s` matches in a Unicode regular expression.
pub open spec fn is_white_space(c: char) -> bool {
    let u = c as u32;
    (0x9 <= u && u <= 0xd) || u == 0x20 || u == 0x85 || u == 0xa0 || u == 0x1680 || (0x2000
        <= u && u <= 0x200a) || u == 0x2028 || u == 0x2029 || u == 0x202f || u == 0x205f || u
        == 0x3000
}

pub fn white_space(c: char) -> (r: bool)
    ensures
        r == is_white_space(c),
{
    let u = c as u32;
    (0x9 <= u && u <= 0xd) || u == 0x20 || u == 0x85 || u == 0xa0 || u == 0x1680 || (0x2000
        <= u && u <= 0x200a) || u == 0x2028 || u == 0x2029 || u == 0x202f || u == 0x205f || u
        == 0x3000
}

/// `s` without the leading characters that satisfy `p`.
pub open spec fn strip_start(s: Seq<char>, p: spec_fn(char) -> bool) -> Seq<char>
    decreases s.len(),
{
    if s.len() > 0 && p(s[0]) {
        strip_start(s.drop_first(), p)
    } else {
        s
    }
}

/// `s` without the trailing characters that satisfy `p`.
pub open spec fn strip_end(s: Seq<char>, p: spec_fn(char) -> bool) -> Seq<char>
    decreases s.len(),
{
    if s.len() > 0 && p(s.last()) {
        strip_end(s.drop_last(), p)
    } else {
        s
    }
}

/// `s` without white space at either end, as `str::trim` gives it.
pub open spec fn trimmed(s: Seq<char>) -> Seq<char> {
    strip_end(strip_start(s, space_pred()), space_pred())
}

pub open spec fn space_pred() -> spec_fn(char) -> bool {
    |c: char| is_white_space(c)
}

pub open spec fn quote_pred() -> spec_fn(char) -> bool {
    |c: char| c == '"'
}

/// `s` without `"` at either end, as `str::trim_matches('"')` gives it.
pub open spec fn unquoted(s: Seq<char>) -> Seq<char> {
    strip_end(strip_start(s, quote_pred()), quote_pred())
}

proof fn lemma_strip_start_skip(s: Seq<char>, p: spec_fn(char) -> bool, i: int)
    requires
        0 <= i <= s.len(),
        forall|k: int| 0 <= k < i ==> p(#[trigger] s[k]),
    ensures
        strip_start(s, p) == strip_start(s.subrange(i, s.len() as int), p),
    decreases i,
{
    if i > 0 {
        assert(s.drop_first() =~= s.subrange(1, s.len() as int));
        lemma_strip_start_skip(s.drop_first(), p, i - 1);
        assert(s.drop_first().subrange(i - 1, s.drop_first().len() as int) =~= s.subrange(
            i,
            s.len() as int,
        ));
    } else {
        assert(s.subrange(0, s.len() as int) =~= s);
    }
}

proof fn lemma_strip_end_skip(s: Seq<char>, p: spec_fn(char) -> bool, j: int)
    requires
        0 <= j <= s.len(),
        forall|k: int| j <= k < s.len() ==> p(#[trigger] s[k]),
    ensures
        strip_end(s, p) == strip_end(s.subrange(0, j), p),
    decreases s.len() - j,
{
    if j < s.len() {
        lemma_strip_end_skip(s.drop_last(), p, j);
        assert(s.drop_last().subrange(0, j) =~= s.subrange(0, j));
    } else {
        assert(s.subrange(0, j) =~= s);
    }
}

/// `s` without white space at either end.
pub fn trim_chars(s: &Vec<char>) -> (r: Vec<char>)
    ensures
        r@ == trimmed(s@),
{
    let mut i: usize = 0;
    while i < s.len() && white_space(s[i])
        invariant
            i <= s.len(),
            forall|k: int| 0 <= k < i ==> space_pred()(#[trigger] s@[k]),
        decreases s.len() - i,
    {
        assert(space_pred()(s@[i as int]));
        i = i + 1;
    }
    let mut j: usize = s.len();
    while j > i && white_space(s[j - 1])
        invariant
            i <= j <= s.len(),
            forall|k: int| j <= k < s.len() ==> space_pred()(#[trigger] s@[k]),
        decreases j,
    {
        assert(space_pred()(s@[j - 1]));
        j = j - 1;
    }
    let mut r: Vec<char> = Vec::new();
    let mut k: usize = i;
    while k < j
        invariant
            i <= k <= j,
            j <= s.len(),
            forall|m: int| 0 <= m < i ==> space_pred()(#[trigger] s@[m]),
            forall|m: int| j <= m < s.len() ==> space_pred()(#[trigger] s@[m]),
            r@ == s@.subrange(i as int, k as int),
        decreases j - k,
    {
        r.push(s[k]);
        k = k + 1;
        assert(r@ =~= s@.subrange(i as int, k as int));
    }
    proof {
        lemma_strip_start_skip(s@, space_pred(), i as int);
        let t = s@.subrange(i as int, s.len() as int);
        assert(strip_start(t, space_pred()) == t);
        lemma_strip_end_skip(t, space_pred(), j - i);
        assert(t.subrange(0, j - i) =~= r@);
        assert(strip_end(r@, space_pred()) == r@);
    }
    r
}

/// `s` without `"` at either end.
pub fn unquote_chars(s: &Vec<char>) -> (r: Vec<char>)
    ensures
        r@ == unquoted(s@),
{
    let mut i: usize = 0;
    while i < s.len() && s[i] == '"'
        invariant
            i <= s.len(),
            forall|k: int| 0 <= k < i ==> quote_pred()(#[trigger] s@[k]),
        decreases s.len() - i,
    {
        assert(quote_pred()(s@[i as int]));
        i = i + 1;
    }
    let mut j: usize = s.len();
    while j > i && s[j - 1] == '"'
        invariant
            i <= j <= s.len(),
            forall|k: int| j <= k < s.len() ==> quote_pred()(#[trigger] s@[k]),
        decreases j,
    {
        assert(quote_pred()(s@[j - 1]));
        j = j - 1;
    }
    let mut r: Vec<char> = Vec::new();
    let mut k: usize = i;
    while k < j
        invariant
            i <= k <= j,
            j <= s.len(),
            forall|m: int| 0 <= m < i ==> quote_pred()(#[trigger] s@[m]),
            forall|m: int| j <= m < s.len() ==> quote_pred()(#[trigger] s@[m]),
            r@ == s@.subrange(i as int, k as int),
        decreases j - k,
    {
        r.push(s[k]);
        k = k + 1;
        assert(r@ =~= s@.subrange(i as int, k as int));
    }
    proof {
        lemma_strip_start_skip(s@, quote_pred(), i as int);
        let t = s@.subrange(i as int, s.len() as int);
        assert(strip_start(t, quote_pred()) == t);
        lemma_strip_end_skip(t, quote_pred(), j - i);
        assert(t.subrange(0, j - i) =~= r@);
        assert(strip_end(r@, quote_pred()) == r@);
    }
    r
}

} // verus!

verus! {

/// The views of a sequence of character vectors.
pub open spec fn views(v: Seq<Vec<char>>) -> Seq<Seq<char>> {
    v.map_values(|x: Vec<char>| x@)
}

/// `p` occurs in `s` at index `i`.
pub open spec fn matches_at(s: Seq<char>, p: Seq<char>, i: int) -> bool {
    0 <= i && i + p.len() <= s.len() && s.subrange(i, i + p.len()) == p
}

/// The pieces of `s` between the occurrences of `p`, taken from the left without
/// overlap, as `str::split` gives them.
pub open spec fn split_seq(s: Seq<char>, p: Seq<char>) -> Seq<Seq<char>>
    decreases s.len(),
{
    if p.len() == 0 || s.len() == 0 {
        seq![s]
    } else if matches_at(s, p, 0) {
        seq![Seq::empty()] + split_seq(s.subrange(p.len() as int, s.len() as int), p)
    } else {
        let rest = split_seq(s.drop_first(), p);
        rest.update(0, seq![s[0]] + rest[0])
    }
}

/// `ps` with `c` put in front of its first piece.
pub open spec fn prepend_first(c: Seq<char>, ps: Seq<Seq<char>>) -> Seq<Seq<char>> {
    ps.update(0, c + ps[0])
}

pub proof fn lemma_split_nonempty(s: Seq<char>, p: Seq<char>)
    ensures
        split_seq(s, p).len() >= 1,
    decreases s.len(),
{
    if p.len() == 0 || s.len() == 0 {
    } else if matches_at(s, p, 0) {
        lemma_split_nonempty(s.subrange(p.len() as int, s.len() as int), p);
    } else {
        lemma_split_nonempty(s.drop_first(), p);
    }
}

/// Whether `p` occurs in `s` at index `i`.
pub fn occurs_at(s: &Vec<char>, p: &Vec<char>, i: usize) -> (r: bool)
    ensures
        r == matches_at(s@, p@, i as int),
{
    if i > s.len() || p.len() > s.len() - i {
        return false;
    }
    let mut k: usize = 0;
    while k < p.len()
        invariant
            k <= p.len(),
            i + p.len() <= s.len(),
            forall|m: int| 0 <= m < k ==> s@[i + m] == p@[m],
        decreases p.len() - k,
    {
        if s[i + k] != p[k] {
            assert(s@.subrange(i as int, i + p.len())[k as int] != p@[k as int]);
            return false;
        }
        k = k + 1;
    }
    assert(s@.subrange(i as int, i + p.len()) =~= p@);
    true
}

/// The pieces of `s` between the occurrences of `p`.
pub fn split_chars(s: &Vec<char>, p: &Vec<char>) -> (r: Vec<Vec<char>>)
    requires
        p.len() > 0,
    ensures
        views(r@) == split_seq(s@, p@),
{
    let mut acc: Vec<Vec<char>> = Vec::new();
    let mut cur: Vec<char> = Vec::new();
    let mut i: usize = 0;
    assert(s@.subrange(0, s.len() as int) =~= s@);
    proof {
        lemma_split_nonempty(s@, p@);
    }
    assert(views(acc@) + prepend_first(cur@, split_seq(s@, p@)) =~= split_seq(s@, p@));
    while i < s.len()
        invariant
            i <= s.len(),
            p.len() > 0,
            views(acc@) + prepend_first(cur@, split_seq(s@.subrange(i as int, s.len() as int), p@))
                == split_seq(s@, p@),
        decreases s.len() - i,
    {
        let ghost t = s@.subrange(i as int, s.len() as int);
        let ghost old_acc = acc@;
        let ghost old_cur = cur@;
        if occurs_at(s, p, i) {
            assert(t.subrange(0, p.len() as int) =~= s@.subrange(i as int, i + p.len()));
            assert(matches_at(t, p@, 0));
            let ghost t2 = s@.subrange(i + p.len(), s.len() as int);
            assert(t.subrange(p.len() as int, t.len() as int) =~= t2);
            proof {
                lemma_split_nonempty(t2, p@);
            }
            acc.push(cur);
            cur = Vec::new();
            i = i + p.len();
            assert(views(acc@) =~= views(old_acc).push(old_cur));
            assert(prepend_first(cur@, split_seq(t2, p@)) =~= split_seq(t2, p@));
            assert(prepend_first(old_cur, split_seq(t, p@)) =~= seq![old_cur] + split_seq(
                t2,
                p@,
            ));
            assert(views(acc@) + prepend_first(cur@, split_seq(t2, p@)) =~= views(old_acc)
                + prepend_first(old_cur, split_seq(t, p@)));
        } else {
            let c = s[i];
            let ghost t2 = s@.subrange(i + 1, s.len() as int);
            assert(t.drop_first() =~= t2);
            proof {
                if i + p.len() <= s.len() {
                    assert(t.subrange(0, p.len() as int) =~= s@.subrange(i as int, i + p.len()));
                }
            }
            assert(!matches_at(t, p@, 0));
            assert(t[0] == c);
            proof {
                lemma_split_nonempty(t2, p@);
            }
            cur.push(c);
            i = i + 1;
            let ghost rest = split_seq(t2, p@);
            assert(old_cur + (seq![c] + rest[0]) =~= cur@ + rest[0]);
            assert(prepend_first(old_cur, split_seq(t, p@)) =~= prepend_first(cur@, rest));
        }
    }
    let ghost last = cur@;
    let ghost before = acc@;
    assert(s@.subrange(i as int, s.len() as int) =~= Seq::<char>::empty());
    acc.push(cur);
    assert(prepend_first(last, seq![Seq::<char>::empty()]) =~= seq![last]);
    assert(views(acc@) =~= views(before).push(last));
    assert(views(acc@) =~= views(before) + seq![last]);
    acc
}

} // verus!

verus! {

/// Appends every character of `s`.
pub fn push_all(out: &mut Vec<char>, s: &Vec<char>)
    ensures
        final(out)@ == old(out)@ + s@,
{
    let ghost start = out@;
    let mut i: usize = 0;
    while i < s.len()
        invariant
            i <= s.len(),
            out@ == start + s@.subrange(0, i as int),
        decreases s.len() - i,
    {
        out.push(s[i]);
        i = i + 1;
        assert(out@ =~= start + s@.subrange(0, i as int));
    }
    assert(s@.subrange(0, s.len() as int) =~= s@);
}

/// Whether `v` holds exactly the characters of `t`.
pub fn same_chars(v: &Vec<char>, t: &Vec<char>) -> (r: bool)
    ensures
        r == (v@ == t@),
{
    if v.len() != t.len() {
        return false;
    }
    let mut i: usize = 0;
    while i < v.len()
        invariant
            i <= v.len(),
            v.len() == t.len(),
            forall|k: int| 0 <= k < i ==> v@[k] == t@[k],
        decreases v.len() - i,
    {
        if v[i] != t[i] {
            return false;
        }
        i = i + 1;
    }
    assert(v@ =~= t@);
    true
}

} // verus!
