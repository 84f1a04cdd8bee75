//! Character-sequence utilities: splitting on a delimiter, joining with a
//! delimiter, and decimal parsing, with full functional specifications.

use vstd::prelude::*;

verus! {

/// Index of the first occurrence of `c` in `s`; `s.len()` if `c` is absent.
pub open spec fn first_ix(s: Seq<char>, c: char) -> int
    decreases s.len(),
{
    if s.len() == 0 {
        0
    } else if s[0] == c {
        0
    } else {
        1 + first_ix(s.skip(1), c)
    }
}

pub proof fn lemma_first_ix(s: Seq<char>, c: char)
    ensures
        0 <= first_ix(s, c) <= s.len(),
        first_ix(s, c) < s.len() ==> s[first_ix(s, c)] == c,
        forall|j: int| 0 <= j < first_ix(s, c) ==> s[j] != c,
    decreases s.len(),
{
    if s.len() == 0 {
    } else if s[0] == c {
    } else {
        lemma_first_ix(s.skip(1), c);
        assert forall|j: int| 0 <= j < first_ix(s, c) implies s[j] != c by {
            if j > 0 {
                assert(s.skip(1)[j - 1] == s[j]);
            }
        }
    }
}

/// `c` does not occur in `s`.
pub open spec fn free_of(s: Seq<char>, c: char) -> bool {
    forall|i: int| 0 <= i < s.len() ==> s[i] != c
}

pub proof fn lemma_first_ix_free(s: Seq<char>, c: char)
    requires
        free_of(s, c),
    ensures
        first_ix(s, c) == s.len(),
{
    lemma_first_ix(s, c);
}

/// Split `s` at every occurrence of `c`; a delimiter-free string yields one
/// part, and n delimiters yield n + 1 parts (possibly empty).
pub open spec fn split_chars(s: Seq<char>, c: char) -> Seq<Seq<char>>
    decreases s.len(),
    via split_chars_decreases
{
    let i = first_ix(s, c);
    if i == s.len() {
        seq![s]
    } else {
        seq![s.take(i)] + split_chars(s.skip(i + 1), c)
    }
}

#[via_fn]
proof fn split_chars_decreases(s: Seq<char>, c: char) {
    lemma_first_ix(s, c);
}

/// Split at most `n - 1` times: the last of the at most `n` parts keeps any
/// remaining delimiters.
pub open spec fn splitn_chars(s: Seq<char>, c: char, n: nat) -> Seq<Seq<char>>
    decreases n,
{
    if n <= 1 {
        seq![s]
    } else {
        let i = first_ix(s, c);
        if i == s.len() {
            seq![s]
        } else {
            seq![s.take(i)] + splitn_chars(s.skip(i + 1), c, (n - 1) as nat)
        }
    }
}

pub proof fn lemma_split_free(s: Seq<char>, c: char)
    requires
        free_of(s, c),
    ensures
        split_chars(s, c) == seq![s],
{
    lemma_first_ix_free(s, c);
}

/// Splitting `a ++ [c] ++ b` where `a` is delimiter-free peels off `a`.
pub proof fn lemma_split_prepend(a: Seq<char>, b: Seq<char>, c: char)
    requires
        free_of(a, c),
    ensures
        split_chars(a + seq![c] + b, c) == seq![a] + split_chars(b, c),
{
    let s = a + seq![c] + b;
    lemma_first_ix(s, c);
    let i = first_ix(s, c);
    assert(s[a.len() as int] == c);
    assert(i <= a.len());
    if i < a.len() {
        assert(s[i] == a[i]);
        assert(false);
    }
    assert(i == a.len());
    assert(s.take(i) =~= a);
    assert(s.skip(i + 1) =~= b);
    assert(split_chars(s, c) == seq![a] + split_chars(b, c));
}

pub proof fn lemma_splitn_prepend(a: Seq<char>, b: Seq<char>, c: char, n: nat)
    requires
        free_of(a, c),
        n >= 2,
    ensures
        splitn_chars(a + seq![c] + b, c, n) == seq![a] + splitn_chars(b, c, (n - 1) as nat),
{
    let s = a + seq![c] + b;
    lemma_first_ix(s, c);
    let i = first_ix(s, c);
    assert(s[a.len() as int] == c);
    if i < a.len() {
        assert(s[i] == a[i]);
        assert(false);
    }
    assert(i == a.len());
    assert(s.take(i) =~= a);
    assert(s.skip(i + 1) =~= b);
    assert(splitn_chars(s, c, n) == seq![a] + splitn_chars(b, c, (n - 1) as nat));
}

/// Join parts with a single delimiter character between them.
pub open spec fn join_chars(parts: Seq<Seq<char>>, c: char) -> Seq<char>
    decreases parts.len(),
{
    if parts.len() == 0 {
        Seq::empty()
    } else if parts.len() == 1 {
        parts[0]
    } else {
        parts[0] + seq![c] + join_chars(parts.skip(1), c)
    }
}

/// Extending a join by one more part appends a delimiter and the part.
pub proof fn lemma_join_snoc(parts: Seq<Seq<char>>, c: char, i: int)
    requires
        0 <= i < parts.len(),
    ensures
        i == 0 ==> join_chars(parts.take(1), c) == parts[0],
        i > 0 ==> join_chars(parts.take(i + 1), c) == join_chars(parts.take(i), c) + seq![c]
            + parts[i],
    decreases i,
{
    if i == 0 {
        assert(parts.take(1) =~= seq![parts[0]]);
    } else if i == 1 {
        let q = parts.take(2);
        assert(q.skip(1) =~= seq![parts[1]]);
        assert(join_chars(q.skip(1), c) == parts[1]);
        assert(parts.take(1) =~= seq![parts[0]]);
        assert(join_chars(parts.take(1), c) == parts[0]);
        assert(q[0] == parts[0]);
        assert(join_chars(q, c) == q[0] + seq![c] + join_chars(q.skip(1), c));
    } else {
        let p1 = parts.skip(1);
        lemma_join_snoc(p1, c, i - 1);
        assert(parts.take(i + 1).skip(1) =~= p1.take(i));
        assert(parts.take(i).skip(1) =~= p1.take(i - 1));
        assert(p1[i - 1] == parts[i]);
        assert(join_chars(parts.take(i + 1), c) == parts[0] + seq![c] + join_chars(p1.take(i), c));
        assert(join_chars(parts.take(i), c) == parts[0] + seq![c] + join_chars(
            p1.take(i - 1),
            c,
        ));
        assert(join_chars(p1.take(i), c) == join_chars(p1.take(i - 1), c) + seq![c] + p1[i - 1]);
        assert((parts[0] + seq![c] + (join_chars(p1.take(i - 1), c) + seq![c] + parts[i])) =~= (
        parts[0] + seq![c] + join_chars(p1.take(i - 1), c)) + seq![c] + parts[i]);
    }
}

/// Every part is free of `c`.
pub open spec fn csv_free(xs: Seq<Seq<char>>, c: char) -> bool {
    forall|i: int| 0 <= i < xs.len() ==> free_of(#[trigger] xs[i], c)
}

/// Joining parts free of `c` with a separator other than `c` stays free of `c`.
pub proof fn lemma_join_free(parts: Seq<Seq<char>>, sep: char, c: char)
    requires
        csv_free(parts, c),
        c != sep,
    ensures
        free_of(join_chars(parts, sep), c),
    decreases parts.len(),
{
    if parts.len() <= 1 {
    } else {
        let rest = parts.skip(1);
        assert(csv_free(rest, c));
        lemma_join_free(rest, sep, c);
        let j = join_chars(parts, sep);
        assert forall|i: int| 0 <= i < j.len() implies j[i] != c by {
            let head = parts[0];
            if i < head.len() {
                assert(j[i] == head[i]);
            } else if i == head.len() {
                assert(j[i] == sep);
            } else {
                assert(j[i] == join_chars(rest, sep)[i - head.len() - 1]);
            }
        }
    }
}

/// Splitting a join of one or more delimiter-free parts recovers the parts.
pub proof fn lemma_split_join(parts: Seq<Seq<char>>, c: char)
    requires
        parts.len() >= 1,
        forall|i: int| 0 <= i < parts.len() ==> free_of(#[trigger] parts[i], c),
    ensures
        split_chars(join_chars(parts, c), c) == parts,
    decreases parts.len(),
{
    if parts.len() == 1 {
        lemma_split_free(parts[0], c);
        assert(seq![parts[0]] =~= parts);
    } else {
        let rest = parts.skip(1);
        assert(forall|i: int| 0 <= i < rest.len() ==> free_of(#[trigger] rest[i], c));
        lemma_split_join(rest, c);
        lemma_split_prepend(parts[0], join_chars(rest, c), c);
        assert(seq![parts[0]] + rest =~= parts);
    }
}

/// Split `s` at every occurrence of `c`.
pub fn split_all(s: &str, c: char) -> (r: Vec<String>)
    ensures
        r.deep_view() == split_chars(s@, c),
{
    let n = s.unicode_len();
    let mut r: Vec<String> = Vec::new();
    let mut start: usize = 0;
    let mut i: usize = 0;
    proof {
        assert(s@.skip(0) =~= s@);
        assert(r.deep_view() + split_chars(s@, c) =~= split_chars(s@, c));
    }
    while i < n
        invariant
            start <= i <= n,
            n == s@.len(),
            forall|j: int| start <= j < i ==> s@[j] != c,
            r.deep_view() + split_chars(s@.skip(start as int), c) == split_chars(s@, c),
        decreases n - i,
    {
        let ch = s.get_char(i);
        if ch == c {
            let part = s.substring_char(start, i);
            let ghost old_r = r.deep_view();
            r.push(part.to_owned());
            proof {
                let a = s@.subrange(start as int, i as int);
                let b = s@.skip(i as int + 1);
                assert(s@.skip(start as int) =~= a + seq![c] + b);
                lemma_split_prepend(a, b, c);
                assert(r.deep_view() =~= old_r.push(a));
                assert(old_r.push(a) + split_chars(b, c) =~= old_r + split_chars(
                    s@.skip(start as int),
                    c,
                ));
            }
            start = i + 1;
        }
        i = i + 1;
    }
    let part = s.substring_char(start, n);
    let ghost old_r = r.deep_view();
    r.push(part.to_owned());
    proof {
        let tail = s@.skip(start as int);
        assert(tail =~= s@.subrange(start as int, n as int));
        lemma_split_free(tail, c);
        assert(r.deep_view() =~= old_r.push(tail));
        assert(old_r.push(tail) =~= old_r + seq![tail]);
    }
    r
}

/// Split `s` at the first at most `n - 1` occurrences of `c`.
pub fn splitn_all(s: &str, c: char, n: usize) -> (r: Vec<String>)
    requires
        n >= 1,
    ensures
        r.deep_view() == splitn_chars(s@, c, n as nat),
        r.deep_view().len() >= 1,
{
    let len = s.unicode_len();
    let mut r: Vec<String> = Vec::new();
    let mut start: usize = 0;
    let mut i: usize = 0;
    proof {
        assert(s@.skip(0) =~= s@);
        assert(r.deep_view() + splitn_chars(s@, c, n as nat) =~= splitn_chars(s@, c, n as nat));
    }
    while i < len && r.len() < n - 1
        invariant
            start <= i <= len,
            n >= 1,
            r.len() < n,
            len == s@.len(),
            forall|j: int| start <= j < i ==> s@[j] != c,
            r.deep_view() + splitn_chars(s@.skip(start as int), c, (n - r.len()) as nat)
                == splitn_chars(s@, c, n as nat),
        decreases len - i,
    {
        let ch = s.get_char(i);
        if ch == c {
            let part = s.substring_char(start, i);
            let ghost old_r = r.deep_view();
            let ghost m = (n - r.len()) as nat;
            r.push(part.to_owned());
            proof {
                let a = s@.subrange(start as int, i as int);
                let b = s@.skip(i as int + 1);
                assert(s@.skip(start as int) =~= a + seq![c] + b);
                lemma_splitn_prepend(a, b, c, m);
                assert(r.deep_view() =~= old_r.push(a));
                assert(old_r.push(a) + splitn_chars(b, c, (m - 1) as nat) =~= old_r + (seq![a]
                    + splitn_chars(b, c, (m - 1) as nat)));
            }
            start = i + 1;
        }
        i = i + 1;
    }
    let part = s.substring_char(start, len);
    let ghost old_r = r.deep_view();
    r.push(part.to_owned());
    proof {
        let tail = s@.skip(start as int);
        assert(tail =~= s@.subrange(start as int, len as int));
        let m = (n - old_r.len()) as nat;
        if old_r.len() == n - 1 {
            assert(splitn_chars(tail, c, 1nat) == seq![tail]);
        } else {
            lemma_first_ix_free(tail, c);
            assert(splitn_chars(tail, c, m) == seq![tail]);
        }
        assert(r.deep_view() =~= old_r.push(tail));
        assert(old_r.push(tail) =~= old_r + seq![tail]);
    }
    r
}

/// Join parts with a one-character separator.
pub fn join_with(parts: &Vec<String>, sep: &str) -> (r: String)
    requires
        sep@.len() == 1,
    ensures
        r@ == join_chars(parts.deep_view(), sep@[0]),
{
    let ghost c = sep@[0];
    let mut r = String::new();
    let mut i: usize = 0;
    while i < parts.len()
        invariant
            i <= parts.len(),
            sep@.len() == 1,
            c == sep@[0],
            r@ == join_chars(parts.deep_view().take(i as int), c),
        decreases parts.len() - i,
    {
        proof {
            lemma_join_snoc(parts.deep_view(), c, i as int);
        }
        if i > 0 {
            r.append(sep);
            proof {
                assert(sep@ =~= seq![c]);
            }
        }
        r.append(parts[i].as_str());
        proof {
            assert(parts.deep_view()[i as int] == parts[i as int]@);
        }
        i = i + 1;
    }
    proof {
        assert(parts.deep_view().take(parts.len() as int) =~= parts.deep_view());
    }
    r
}

/// `c` is a decimal digit.
pub open spec fn is_digit(c: char) -> bool {
    48 <= c as u32 <= 57
}

pub open spec fn all_digits(s: Seq<char>) -> bool {
    forall|i: int| 0 <= i < s.len() ==> is_digit(#[trigger] s[i])
}

/// The value of a decimal digit string.
pub open spec fn dec_val(s: Seq<char>) -> nat
    decreases s.len(),
{
    if s.len() == 0 {
        0
    } else {
        dec_val(s.drop_last()) * 10 + (if s.last() as u32 >= 48 {
            (s.last() as u32 - 48) as nat
        } else {
            0
        })
    }
}

pub open spec fn pow10(n: nat) -> nat
    decreases n,
{
    if n == 0 {
        1
    } else {
        10 * pow10((n - 1) as nat)
    }
}

/// A digit string of length n denotes a value below 10^n.
pub proof fn lemma_dec_val_bound(s: Seq<char>)
    requires
        all_digits(s),
    ensures
        dec_val(s) < pow10(s.len()),
    decreases s.len(),
{
    if s.len() == 0 {
    } else {
        let head = s.drop_last();
        assert(all_digits(head));
        lemma_dec_val_bound(head);
        let p = pow10(head.len());
        assert(dec_val(head) * 10 <= (p - 1) * 10) by (nonlinear_arith)
            requires
                dec_val(head) <= p - 1,
        ;
        assert(pow10(s.len()) == 10 * p);
    }
}

proof fn lemma_dec_val_grows(s: Seq<char>, j: int)
    requires
        0 <= j <= s.len(),
    ensures
        dec_val(s) >= dec_val(s.take(j)),
    decreases s.len() - j,
{
    if j < s.len() {
        lemma_dec_val_grows(s, j + 1);
        assert(s.take(j + 1).drop_last() =~= s.take(j));
        assert(s.take(j + 1).last() == s[j]);
        assert(dec_val(s.take(j + 1)) >= dec_val(s.take(j)));
    } else {
        assert(s.take(j) =~= s);
    }
}

/// Parse a digits-only decimal `u64`; `None` on the empty string, a
/// non-digit, or overflow.
pub fn parse_digits(s: &str) -> (r: Option<u64>)
    ensures
        match r {
            Some(v) => s@.len() > 0 && all_digits(s@) && dec_val(s@) == v,
            None => s@.len() == 0 || !all_digits(s@) || dec_val(s@) > u64::MAX,
        },
{
    let n = s.unicode_len();
    if n == 0 {
        return None;
    }
    let mut acc: u64 = 0;
    let mut i: usize = 0;
    while i < n
        invariant
            i <= n,
            n == s@.len(),
            all_digits(s@.take(i as int)),
            acc == dec_val(s@.take(i as int)),
        decreases n - i,
    {
        let ch = s.get_char(i);
        let code = ch as u32;
        if code < 48 || code > 57 {
            return None;
        }
        let d: u64 = (code - 48) as u64;
        if acc > (u64::MAX - d) / 10 {
            proof {
                assert(s@.take(i as int + 1).drop_last() =~= s@.take(i as int));
                assert(s@.take(i as int + 1).last() == s@[i as int]);
                assert(dec_val(s@.take(i as int + 1)) == acc * 10 + d);
                assert(acc * 10 + d > u64::MAX) by (nonlinear_arith)
                    requires
                        acc > (u64::MAX - d) / 10,
                        d <= 9,
                ;
                lemma_dec_val_grows(s@, i as int + 1);
            }
            return None;
        }
        proof {
            assert(acc * 10 + d <= u64::MAX) by (nonlinear_arith)
                requires
                    acc <= (u64::MAX - d) / 10,
                    d <= 9,
            ;
            assert(s@.take(i as int + 1).drop_last() =~= s@.take(i as int));
            assert(s@.take(i as int + 1).last() == s@[i as int]);
        }
        acc = acc * 10 + d;
        i = i + 1;
    }
    proof {
        assert(s@.take(n as int) =~= s@);
    }
    Some(acc)
}

/// The digits of a decimal literal: everything after one optional leading
/// `+` sign.
pub open spec fn digits_part(s: Seq<char>) -> Seq<char> {
    if s.len() > 0 && s[0] == '+' {
        s.skip(1)
    } else {
        s
    }
}

/// Parse a decimal `u64` as `str::parse` does: one optional leading `+`,
/// then digits; `None` on the empty string, a non-digit, or overflow.
pub fn parse_u64(s: &str) -> (r: Option<u64>)
    ensures
        match r {
            Some(v) => digits_part(s@).len() > 0 && all_digits(digits_part(s@)) && dec_val(
                digits_part(s@),
            ) == v,
            None => digits_part(s@).len() == 0 || !all_digits(digits_part(s@)) || dec_val(
                digits_part(s@),
            ) > u64::MAX,
        },
{
    let n = s.unicode_len();
    if n == 0 {
        return None;
    }
    if s.get_char(0) == '+' {
        let rest = s.substring_char(1, n);
        proof {
            assert(rest@ =~= s@.skip(1));
        }
        parse_digits(rest)
    } else {
        parse_digits(s)
    }
}

/// The needle occurs in the haystack as a contiguous run.
pub open spec fn contains_seq(hay: Seq<char>, needle: Seq<char>) -> bool {
    exists|i: int|
        0 <= i <= hay.len() - needle.len() && #[trigger] hay.subrange(i, i + needle.len() as int)
            == needle
}

/// The needle occurs at position `i` of the haystack.
fn match_at(hay: &str, needle: &str, i: usize) -> (r: bool)
    requires
        i + needle@.len() <= hay@.len(),
        hay@.len() <= usize::MAX,
    ensures
        r == (hay@.subrange(i as int, i as int + needle@.len() as int) == needle@),
{
    let m = needle.unicode_len();
    let mut j: usize = 0;
    while j < m
        invariant
            j <= m,
            m == needle@.len(),
            i + m <= hay@.len(),
            hay@.len() <= usize::MAX,
            forall|k: int| 0 <= k < j ==> hay@[i + k] == needle@[k],
        decreases m - j,
    {
        if hay.get_char(i + j) != needle.get_char(j) {
            proof {
                assert(hay@.subrange(i as int, i as int + m as int)[j as int] == hay@[i + j]);
            }
            return false;
        }
        j = j + 1;
    }
    proof {
        assert(hay@.subrange(i as int, i as int + m as int) =~= needle@);
    }
    true
}

/// Substring search; `true` iff the needle occurs in the haystack.
pub fn contains_sub(hay: &str, needle: &str) -> (r: bool)
    ensures
        r == contains_seq(hay@, needle@),
{
    let n = hay.unicode_len();
    let m = needle.unicode_len();
    if m > n {
        return false;
    }
    let mut i: usize = 0;
    loop
        invariant
            m <= n,
            n == hay@.len(),
            m == needle@.len(),
            i <= n - m,
            forall|k: int|
                0 <= k < i ==> #[trigger] hay@.subrange(k, k + needle@.len() as int) != needle@,
        decreases n - m - i,
    {
        if match_at(hay, needle, i) {
            return true;
        }
        if i == n - m {
            return false;
        }
        i = i + 1;
    }
}

/// Character-wise string equality.
pub fn str_eq(a: &str, b: &str) -> (r: bool)
    ensures
        r == (a@ == b@),
{
    let n = a.unicode_len();
    let m = b.unicode_len();
    if n != m {
        return false;
    }
    let r = match_at(a, b, 0);
    proof {
        if r {
            assert(a@.subrange(0, m as int) =~= a@);
        } else {
            if a@ == b@ {
                assert(a@.subrange(0, m as int) =~= b@);
            }
        }
    }
    r
}

/// `s` starts with the given prefix.
pub fn starts_with_str(s: &str, prefix: &str) -> (r: bool)
    ensures
        r == (prefix@.len() <= s@.len() && s@.subrange(0, prefix@.len() as int) == prefix@),
{
    let n = s.unicode_len();
    let m = prefix.unicode_len();
    if m > n {
        return false;
    }
    match_at(s, prefix, 0)
}

} // verus!
