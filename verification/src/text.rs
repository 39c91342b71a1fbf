//! Verified text utilities: character vectors, substring search, trimming,
//! line splitting, and decimal parsing/formatting.
//!
//! All executable functions here are specified against `Seq<char>` views, so
//! the higher-level modules can state their contracts over the same models.

use vstd::prelude::*;
use vstd::string::*;

verus! {

/// The whitespace characters that `trim` removes.
pub open spec fn is_space_char(c: char) -> bool {
    c == ' ' || c == '\t' || c == '\r' || c == '\n' || c == '\u{b}' || c == '\u{c}'
}

/// Executable test for [`is_space_char`].
pub fn is_space(c: char) -> (r: bool)
    ensures
        r == is_space_char(c),
{
    c == ' ' || c == '\t' || c == '\r' || c == '\n' || c == '\u{b}' || c == '\u{c}'
}

/// The characters of a string slice, as a vector.
pub fn chars_of(s: &str) -> (r: Vec<char>)
    ensures
        r@ == s@,
{
    let n = s.unicode_len();
    let mut r: Vec<char> = Vec::new();
    let mut i: usize = 0;
    while i < n
        invariant
            n == s@.len(),
            i <= n,
            r@ == s@.subrange(0, i as int),
        decreases n - i,
    {
        r.push(s.get_char(i));
        i = i + 1;
        assert(r@ =~= s@.subrange(0, i as int));
    }
    assert(r@ =~= s@);
    r
}

/// Builds a `String` out of a vector of characters.
///
/// Relies on `String`'s `FromIterator<char>` implementation: collecting an
/// iterator of characters yields the string of exactly those characters.
#[verifier::external_body]
pub fn string_from_chars(v: &Vec<char>) -> (r: String)
    ensures
        r@ == v@,
{
    v.iter().collect()
}

/// Copies the subrange `[from, to)` of a character vector.
pub fn subvec(v: &Vec<char>, from: usize, to: usize) -> (r: Vec<char>)
    requires
        from <= to <= v@.len(),
    ensures
        r@ == v@.subrange(from as int, to as int),
{
    let mut r: Vec<char> = Vec::new();
    let mut i: usize = from;
    while i < to
        invariant
            from <= i <= to <= v@.len(),
            r@ == v@.subrange(from as int, i as int),
        decreases to - i,
    {
        r.push(v[i]);
        i = i + 1;
        assert(r@ =~= v@.subrange(from as int, i as int));
    }
    r
}

/// Character-for-character equality of two string slices.
pub fn str_eq(a: &str, b: &str) -> (r: bool)
    ensures
        r == (a@ == b@),
{
    let na = a.unicode_len();
    let nb = b.unicode_len();
    if na != nb {
        return false;
    }
    let mut i: usize = 0;
    while i < na
        invariant
            na == a@.len(),
            na == b@.len(),
            i <= na,
            forall|j: int| 0 <= j < i ==> a@[j] == b@[j],
        decreases na - i,
    {
        if a.get_char(i) != b.get_char(i) {
            return false;
        }
        i = i + 1;
    }
    assert(a@ =~= b@);
    true
}

/// `p` occurs in `h` starting at position `i`.
pub open spec fn spec_match_at(h: Seq<char>, p: Seq<char>, i: int) -> bool {
    0 <= i && i + p.len() <= h.len() && (forall|j: int| 0 <= j < p.len() ==> h[i + j] == p[j])
}

/// `p` is a prefix of `h`.
pub open spec fn spec_is_prefix(p: Seq<char>, h: Seq<char>) -> bool {
    spec_match_at(h, p, 0)
}

/// `p` occurs somewhere in `h`.
pub open spec fn spec_contains(h: Seq<char>, p: Seq<char>) -> bool {
    exists|i: int| spec_match_at(h, p, i)
}

/// Does `p` occur in `h` at position `i`?
pub fn match_at(h: &Vec<char>, p: &Vec<char>, i: usize) -> (r: bool)
    requires
        i + p@.len() <= h@.len(),
    ensures
        r == spec_match_at(h@, p@, i as int),
{
    let nh = h.len();
    let m = p.len();
    let mut j: usize = 0;
    while j < m
        invariant
            m == p@.len(),
            nh == h@.len(),
            i + m <= nh,
            j <= m,
            forall|k: int| 0 <= k < j ==> h@[i + k] == p@[k],
        decreases m - j,
    {
        if h[i + j] != p[j] {
            return false;
        }
        j = j + 1;
    }
    true
}

/// Does `p` occur anywhere in `h`?
pub fn vec_contains(h: &Vec<char>, p: &Vec<char>) -> (r: bool)
    ensures
        r == spec_contains(h@, p@),
{
    let nh = h.len();
    let np = p.len();
    if np > nh {
        assert(forall|i: int| !spec_match_at(h@, p@, i));
        return false;
    }
    let mut i: usize = 0;
    while i <= nh - np
        invariant
            nh == h@.len(),
            np == p@.len(),
            np <= nh,
            i <= nh - np + 1,
            forall|k: int| 0 <= k < i ==> !spec_match_at(h@, p@, k),
        decreases nh - np + 1 - i,
    {
        if match_at(h, p, i) {
            return true;
        }
        i = i + 1;
    }
    assert(forall|k: int| #![auto] spec_match_at(h@, p@, k) ==> 0 <= k <= nh - np);
    false
}

/// Does `needle` occur anywhere in `hay`?
pub fn str_contains(hay: &str, needle: &str) -> (r: bool)
    ensures
        r == spec_contains(hay@, needle@),
{
    let h = chars_of(hay);
    let p = chars_of(needle);
    vec_contains(&h, &p)
}

/// Is `prefix` a prefix of `hay`?
pub fn str_starts_with(hay: &str, prefix: &str) -> (r: bool)
    ensures
        r == spec_is_prefix(prefix@, hay@),
{
    let h = chars_of(hay);
    let p = chars_of(prefix);
    if p.len() > h.len() {
        return false;
    }
    match_at(&h, &p, 0)
}

/// `p` is a suffix of `h`.
pub open spec fn spec_is_suffix(p: Seq<char>, h: Seq<char>) -> bool {
    spec_match_at(h, p, h.len() - p.len())
}

/// Does `hay` end with `suffix`?
pub fn str_ends_with(hay: &str, suffix: &str) -> (r: bool)
    ensures
        r == spec_is_suffix(suffix@, hay@),
{
    let h = chars_of(hay);
    let p = chars_of(suffix);
    if p.len() > h.len() {
        return false;
    }
    match_at(&h, &p, h.len() - p.len())
}

/// Index of the first non-whitespace character at or after `i`, or `s.len()`.
pub open spec fn first_non_space_from(s: Seq<char>, i: int) -> int
    decreases s.len() - i when 0 <= i <= s.len()
{
    if i == s.len() {
        i
    } else if is_space_char(s[i]) {
        first_non_space_from(s, i + 1)
    } else {
        i
    }
}

/// One past the index of the last non-whitespace character before `i`, or `0`.
pub open spec fn last_non_space_before(s: Seq<char>, i: int) -> int
    decreases i when 0 <= i <= s.len()
{
    if i == 0 {
        0
    } else if is_space_char(s[i - 1]) {
        last_non_space_before(s, i - 1)
    } else {
        i
    }
}

/// `s` with leading and trailing whitespace removed.
pub open spec fn spec_trim(s: Seq<char>) -> Seq<char> {
    let a = first_non_space_from(s, 0);
    let b = last_non_space_before(s, s.len() as int);
    if a <= b {
        s.subrange(a, b)
    } else {
        Seq::empty()
    }
}

proof fn lemma_first_non_space_from_step(s: Seq<char>, i: int, k: int)
    requires
        0 <= i <= k <= s.len(),
        forall|j: int| i <= j < k ==> is_space_char(s[j]),
        k == s.len() || !is_space_char(s[k]),
    ensures
        first_non_space_from(s, i) == k,
    decreases k - i,
{
    if i < k {
        lemma_first_non_space_from_step(s, i + 1, k);
    }
}

proof fn lemma_last_non_space_before_step(s: Seq<char>, i: int, k: int)
    requires
        0 <= k <= i <= s.len(),
        forall|j: int| k <= j < i ==> is_space_char(s[j]),
        k == 0 || !is_space_char(s[k - 1]),
    ensures
        last_non_space_before(s, i) == k,
    decreases i - k,
{
    if k < i {
        lemma_last_non_space_before_step(s, i - 1, k);
    }
}

/// `v` with leading and trailing whitespace removed.
pub fn trim_chars(v: &Vec<char>) -> (r: Vec<char>)
    ensures
        r@ == spec_trim(v@),
{
    let n = v.len();
    let mut a: usize = 0;
    while a < n && is_space(v[a])
        invariant
            n == v@.len(),
            a <= n,
            forall|j: int| 0 <= j < a ==> is_space_char(v@[j]),
        decreases n - a,
    {
        a = a + 1;
    }
    proof {
        lemma_first_non_space_from_step(v@, 0, a as int);
    }
    let mut b: usize = n;
    while b > 0 && is_space(v[b - 1])
        invariant
            n == v@.len(),
            b <= n,
            forall|j: int| b <= j < n ==> is_space_char(v@[j]),
        decreases b,
    {
        b = b - 1;
    }
    proof {
        lemma_last_non_space_before_step(v@, n as int, b as int);
    }
    if a <= b {
        subvec(v, a, b)
    } else {
        let r: Vec<char> = Vec::new();
        r
    }
}

/// `s` with leading and trailing whitespace removed, as a fresh `String`.
pub fn trim_str(s: &str) -> (r: String)
    ensures
        r@ == spec_trim(s@),
{
    let v = chars_of(s);
    let t = trim_chars(&v);
    string_from_chars(&t)
}

/// Index of the first character differing from `c` at or after `i`, or `s.len()`.
pub open spec fn first_other_from(s: Seq<char>, c: char, i: int) -> int
    decreases s.len() - i when 0 <= i <= s.len()
{
    if i == s.len() {
        i
    } else if s[i] == c {
        first_other_from(s, c, i + 1)
    } else {
        i
    }
}

/// One past the index of the last character differing from `c` before `i`, or `0`.
pub open spec fn last_other_before(s: Seq<char>, c: char, i: int) -> int
    decreases i when 0 <= i <= s.len()
{
    if i == 0 {
        0
    } else if s[i - 1] == c {
        last_other_before(s, c, i - 1)
    } else {
        i
    }
}

/// `s` with every leading and trailing occurrence of `c` removed.
pub open spec fn spec_trim_char(s: Seq<char>, c: char) -> Seq<char> {
    let a = first_other_from(s, c, 0);
    let b = last_other_before(s, c, s.len() as int);
    if a <= b {
        s.subrange(a, b)
    } else {
        Seq::empty()
    }
}

proof fn lemma_first_other_from_step(s: Seq<char>, c: char, i: int, k: int)
    requires
        0 <= i <= k <= s.len(),
        forall|j: int| i <= j < k ==> s[j] == c,
        k == s.len() || s[k] != c,
    ensures
        first_other_from(s, c, i) == k,
    decreases k - i,
{
    if i < k {
        lemma_first_other_from_step(s, c, i + 1, k);
    }
}

proof fn lemma_last_other_before_step(s: Seq<char>, c: char, i: int, k: int)
    requires
        0 <= k <= i <= s.len(),
        forall|j: int| k <= j < i ==> s[j] == c,
        k == 0 || s[k - 1] != c,
    ensures
        last_other_before(s, c, i) == k,
    decreases i - k,
{
    if k < i {
        lemma_last_other_before_step(s, c, i - 1, k);
    }
}

/// `s` with every leading and trailing occurrence of `c` removed.
pub fn trim_char_str(s: &str, c: char) -> (r: String)
    ensures
        r@ == spec_trim_char(s@, c),
{
    let v = chars_of(s);
    let n = v.len();
    let mut a: usize = 0;
    while a < n && v[a] == c
        invariant
            n == v@.len(),
            a <= n,
            forall|j: int| 0 <= j < a ==> v@[j] == c,
        decreases n - a,
    {
        a = a + 1;
    }
    proof {
        lemma_first_other_from_step(v@, c, 0, a as int);
    }
    let mut b: usize = n;
    while b > 0 && v[b - 1] == c
        invariant
            n == v@.len(),
            b <= n,
            forall|j: int| b <= j < n ==> v@[j] == c,
        decreases b,
    {
        b = b - 1;
    }
    proof {
        lemma_last_other_before_step(v@, c, n as int, b as int);
    }
    if a <= b {
        let t = subvec(&v, a, b);
        string_from_chars(&t)
    } else {
        let t: Vec<char> = Vec::new();
        string_from_chars(&t)
    }
}

/// Index of the first occurrence of `c` at or after `i`, or `s.len()`.
pub open spec fn find_char_from(s: Seq<char>, c: char, i: int) -> int
    decreases s.len() - i when 0 <= i <= s.len()
{
    if i == s.len() {
        i
    } else if s[i] == c {
        i
    } else {
        find_char_from(s, c, i + 1)
    }
}

proof fn lemma_find_char_from_step(s: Seq<char>, c: char, i: int, k: int)
    requires
        0 <= i <= k <= s.len(),
        forall|j: int| i <= j < k ==> s[j] != c,
        k == s.len() || s[k] == c,
    ensures
        find_char_from(s, c, i) == k,
    decreases k - i,
{
    if i < k {
        lemma_find_char_from_step(s, c, i + 1, k);
    }
}

proof fn lemma_find_char_from_bounds(s: Seq<char>, c: char, i: int)
    requires
        0 <= i <= s.len(),
    ensures
        i <= find_char_from(s, c, i) <= s.len(),
    decreases s.len() - i,
{
    if i < s.len() && s[i] != c {
        lemma_find_char_from_bounds(s, c, i + 1);
    }
}

/// A line with a trailing carriage return removed.
pub open spec fn strip_trailing_cr(l: Seq<char>) -> Seq<char> {
    if l.len() > 0 && l[l.len() - 1] == '\r' {
        l.subrange(0, l.len() - 1)
    } else {
        l
    }
}

/// The lines of `s` starting at position `i`: split at `'\n'`, each with a
/// trailing `'\r'` removed, a final line ending being optional.
pub open spec fn spec_lines_from(s: Seq<char>, i: int) -> Seq<Seq<char>>
    decreases s.len() - i when 0 <= i <= s.len()
    via spec_lines_from_decreases
{
    if i == s.len() {
        Seq::empty()
    } else {
        let e = find_char_from(s, '\n', i);
        seq![strip_trailing_cr(s.subrange(i, e))] + spec_lines_from(
            s,
            if e < s.len() {
                e + 1
            } else {
                e
            },
        )
    }
}

#[via_fn]
proof fn spec_lines_from_decreases(s: Seq<char>, i: int) {
    if 0 <= i < s.len() {
        lemma_find_char_from_bounds(s, '\n', i);
    }
}

/// The lines of `s`, following the same convention as Rust's `str::lines`.
pub open spec fn spec_lines(s: Seq<char>) -> Seq<Seq<char>> {
    spec_lines_from(s, 0)
}

/// Splits `s` into lines; the model is [`spec_lines`].
pub fn lines_of(s: &str) -> (r: Vec<String>)
    ensures
        r.deep_view() == spec_lines(s@),
{
    let v = chars_of(s);
    let n = v.len();
    let mut r: Vec<String> = Vec::new();
    let mut i: usize = 0;
    while i < n
        invariant
            n == v@.len(),
            v@ == s@,
            i <= n,
            spec_lines(s@) == r.deep_view() + spec_lines_from(v@, i as int),
        decreases n - i,
    {
        let ghost prev_r = r.deep_view();
        let mut e: usize = i;
        while e < n && v[e] != '\n'
            invariant
                n == v@.len(),
                i <= e <= n,
                forall|j: int| i <= j < e ==> v@[j] != '\n',
            decreases n - e,
        {
            e = e + 1;
        }
        proof {
            lemma_find_char_from_step(v@, '\n', i as int, e as int);
        }
        let mut line_end: usize = e;
        if line_end > i && v[line_end - 1] == '\r' {
            line_end = line_end - 1;
        }
        let piece = subvec(&v, i, line_end);
        proof {
            assert(piece@ =~= strip_trailing_cr(v@.subrange(i as int, e as int)));
        }
        r.push(string_from_chars(&piece));
        let next: usize = if e < n {
            e + 1
        } else {
            e
        };
        proof {
            assert(r.deep_view() =~= prev_r + seq![piece@]);
            assert(prev_r + spec_lines_from(v@, i as int) =~= r.deep_view() + spec_lines_from(
                v@,
                next as int,
            ));
        }
        i = next;
    }
    assert(r.deep_view() =~= spec_lines(s@));
    r
}

/// The pieces of `s` split at `sep`, starting at position `i`; a trailing
/// separator yields a trailing empty piece, as Rust's `str::split` does.
pub open spec fn spec_split_from(s: Seq<char>, sep: char, i: int) -> Seq<Seq<char>>
    decreases s.len() - i when 0 <= i <= s.len()
    via spec_split_from_decreases
{
    let e = find_char_from(s, sep, i);
    if e == s.len() {
        seq![s.subrange(i, e)]
    } else {
        seq![s.subrange(i, e)] + spec_split_from(s, sep, e + 1)
    }
}

#[via_fn]
proof fn spec_split_from_decreases(s: Seq<char>, sep: char, i: int) {
    if 0 <= i <= s.len() {
        lemma_find_char_from_bounds(s, sep, i);
    }
}

/// The pieces of `s` split at `sep`.
pub open spec fn spec_split(s: Seq<char>, sep: char) -> Seq<Seq<char>> {
    spec_split_from(s, sep, 0)
}

/// Splits `s` at `sep`; the model is [`spec_split`].
pub fn split_str(s: &str, sep: char) -> (r: Vec<String>)
    ensures
        r.deep_view() == spec_split(s@, sep),
        r@.len() >= 1,
{
    let v = chars_of(s);
    let n = v.len();
    let mut r: Vec<String> = Vec::new();
    let mut i: usize = 0;
    loop
        invariant_except_break
            n == v@.len(),
            v@ == s@,
            i <= n,
            spec_split(s@, sep) == r.deep_view() + spec_split_from(v@, sep, i as int),
        ensures
            r.deep_view() == spec_split(s@, sep),
            r@.len() >= 1,
        decreases n - i,
    {
        let ghost prev_r = r.deep_view();
        let mut e: usize = i;
        while e < n && v[e] != sep
            invariant
                n == v@.len(),
                i <= e <= n,
                forall|j: int| i <= j < e ==> v@[j] != sep,
            decreases n - e,
        {
            e = e + 1;
        }
        proof {
            lemma_find_char_from_step(v@, sep, i as int, e as int);
        }
        let piece = subvec(&v, i, e);
        r.push(string_from_chars(&piece));
        proof {
            assert(r.deep_view() =~= prev_r + seq![piece@]);
        }
        if e < n {
            proof {
                assert(prev_r + spec_split_from(v@, sep, i as int) =~= r.deep_view()
                    + spec_split_from(v@, sep, e + 1));
            }
            i = e + 1;
        } else {
            proof {
                assert(prev_r + spec_split_from(v@, sep, i as int) =~= r.deep_view());
                assert(r.deep_view() =~= spec_split(s@, sep));
            }
            break;
        }
    }
    r
}

/// Decimal digit characters and their values.
pub open spec fn is_digit_char(c: char) -> bool {
    48 <= (c as u32) <= 57
}

/// The numeric value of a digit character.
pub open spec fn digit_val(c: char) -> int {
    (c as u32) as int - 48
}

/// Every character of `s` is a decimal digit.
pub open spec fn all_digits(s: Seq<char>) -> bool {
    forall|i: int| 0 <= i < s.len() ==> is_digit_char(s[i])
}

/// The value of a string of decimal digits, most significant first.
pub open spec fn digits_value(s: Seq<char>) -> int
    decreases s.len(),
{
    if s.len() == 0 {
        0
    } else {
        digits_value(s.drop_last()) * 10 + digit_val(s.last())
    }
}

/// `s` is an optionally signed, non-empty string of decimal digits.
pub open spec fn is_int_string(s: Seq<char>) -> bool {
    if s.len() == 0 {
        false
    } else if s[0] == '-' || s[0] == '+' {
        s.len() > 1 && all_digits(s.subrange(1, s.len() as int))
    } else {
        all_digits(s)
    }
}

/// The integer value denoted by `s` (meaningful when [`is_int_string`] holds).
pub open spec fn int_string_value(s: Seq<char>) -> int {
    if s.len() > 0 && s[0] == '-' {
        -digits_value(s.subrange(1, s.len() as int))
    } else if s.len() > 0 && s[0] == '+' {
        digits_value(s.subrange(1, s.len() as int))
    } else {
        digits_value(s)
    }
}

proof fn lemma_digits_value_nonneg(s: Seq<char>)
    requires
        all_digits(s),
    ensures
        digits_value(s) >= 0,
    decreases s.len(),
{
    if s.len() > 0 {
        assert(all_digits(s.drop_last()));
        lemma_digits_value_nonneg(s.drop_last());
        assert(digits_value(s.drop_last()) * 10 >= 0) by (nonlinear_arith)
            requires
                digits_value(s.drop_last()) >= 0,
        ;
    }
}

proof fn lemma_digits_prefix_le(s: Seq<char>, i: int)
    requires
        all_digits(s),
        0 <= i <= s.len(),
    ensures
        digits_value(s.subrange(0, i)) <= digits_value(s),
    decreases s.len() - i,
{
    if i < s.len() {
        let p = s.subrange(0, i);
        let q = s.subrange(0, i + 1);
        assert(q.drop_last() =~= p);
        assert(all_digits(p));
        lemma_digits_value_nonneg(p);
        assert(digits_value(p) * 10 >= digits_value(p)) by (nonlinear_arith)
            requires
                digits_value(p) >= 0,
        ;
        assert(digits_value(q) >= digits_value(p));
        lemma_digits_prefix_le(s, i + 1);
        assert(s.subrange(0, s.len() as int) =~= s);
    } else {
        assert(s.subrange(0, s.len() as int) =~= s);
    }
}

/// Parses `s` as a signed 64-bit decimal integer, accepting exactly the
/// strings [`is_int_string`] describes whose value fits in an `i64`.
pub fn parse_i64(s: &str) -> (r: Option<i64>)
    ensures
        match r {
            Some(v) => is_int_string(s@) && v as int == int_string_value(s@),
            None => !is_int_string(s@) || int_string_value(s@) < i64::MIN
                || int_string_value(s@) > i64::MAX,
        },
{
    let v = chars_of(s);
    let n = v.len();
    if n == 0 {
        return None;
    }
    let negative: bool = v[0] == '-';
    let d0: usize = if v[0] == '-' || v[0] == '+' {
        1
    } else {
        0
    };
    if d0 == n {
        return None;
    }
    let ghost digits = v@.subrange(d0 as int, n as int);
    let mut acc: u128 = 0;
    let mut i: usize = d0;
    while i < n
        invariant
            n == v@.len(),
            v@ == s@,
            d0 <= i <= n,
            d0 == 0 || d0 == 1,
            d0 < n,
            (v@[0] == '-' || v@[0] == '+') <==> d0 == 1,
            negative == (v@[0] == '-'),
            digits == v@.subrange(d0 as int, n as int),
            forall|j: int| d0 <= j < i ==> is_digit_char(v@[j]),
            acc as int == digits_value(v@.subrange(d0 as int, i as int)),
            acc <= 0x8000_0000_0000_0000u128,
        decreases n - i,
    {
        let c = v[i];
        proof {
            vstd::utf8::char_is_scalar(c);
        }
        let x: u32 = c as u32;
        if !(48 <= x && x <= 57) {
            proof {
                assert(!is_digit_char(v@[i as int]));
                assert(v@ == s@);
                assert(0 <= i < s@.len());
                assert(!is_digit_char(s@[i as int]));
                if d0 == 1 {
                    let t = s@.subrange(1, s@.len() as int);
                    assert(t[i - 1] == s@[i as int]);
                    assert(!all_digits(t));
                    assert(s@[0] == '-' || s@[0] == '+');
                    assert(!is_int_string(s@));
                } else {
                    assert(!(s@[0] == '-' || s@[0] == '+'));
                    assert(!all_digits(s@));
                    assert(!is_int_string(s@));
                }
            }
            return None;
        }
        let d: u128 = (x - 48) as u128;
        let ghost prefix = v@.subrange(d0 as int, i as int);
        acc = acc * 10 + d;
        i = i + 1;
        proof {
            let sub = v@.subrange(d0 as int, i as int);
            assert(sub.drop_last() =~= prefix);
            assert(sub.last() == c);
            assert(digits_value(sub) == digits_value(prefix) * 10 + digit_val(c));
            assert(acc as int == digits_value(sub));
        }
        if acc > 0x8000_0000_0000_0000u128 {
            proof {
                if is_int_string(s@) {
                    if d0 == 1 {
                        assert(digits =~= s@.subrange(1, s@.len() as int));
                    } else {
                        assert(digits =~= s@);
                    }
                    assert(all_digits(digits));
                    assert(acc as int == digits_value(v@.subrange(d0 as int, i as int)));
                    assert(digits.subrange(0, i - d0) =~= v@.subrange(d0 as int, i as int));
                    assert(digits_value(digits.subrange(0, i - d0)) == acc as int);
                    lemma_digits_prefix_le(digits, i - d0);
                    assert(digits_value(digits) > 0x8000_0000_0000_0000);
                    if s@[0] == '-' {
                        assert(int_string_value(s@) == -digits_value(digits));
                        assert(int_string_value(s@) < i64::MIN);
                    } else {
                        assert(int_string_value(s@) == digits_value(digits));
                        assert(int_string_value(s@) > i64::MAX);
                    }
                }
            }
            return None;
        }
    }
    proof {
        assert(v@.subrange(d0 as int, i as int) =~= digits);
        assert forall|j: int| 0 <= j < digits.len() implies is_digit_char(digits[j]) by {
            assert(digits[j] == v@[d0 + j]);
        }
        assert(all_digits(digits));
        if d0 == 1 {
            assert(digits =~= s@.subrange(1, s@.len() as int));
        } else {
            assert(digits =~= s@);
        }
        assert(is_int_string(s@));
        lemma_digits_value_nonneg(digits);
    }
    if negative {
        let val: i128 = -(acc as i128);
        assert(int_string_value(s@) == -digits_value(digits));
        Some(val as i64)
    } else {
        if acc > 0x7fff_ffff_ffff_ffffu128 {
            assert(int_string_value(s@) == digits_value(digits));
            return None;
        }
        assert(int_string_value(s@) == digits_value(digits));
        Some(acc as i64)
    }
}

/// The digit character for a value in `0 ..= 9`.
pub open spec fn digit_char(d: int) -> char {
    if d == 0 {
        '0'
    } else if d == 1 {
        '1'
    } else if d == 2 {
        '2'
    } else if d == 3 {
        '3'
    } else if d == 4 {
        '4'
    } else if d == 5 {
        '5'
    } else if d == 6 {
        '6'
    } else if d == 7 {
        '7'
    } else if d == 8 {
        '8'
    } else {
        '9'
    }
}

/// The decimal digit string of a non-negative integer, no leading zeros.
pub open spec fn spec_digits_of(n: int) -> Seq<char>
    decreases n when n >= 0
    via spec_digits_of_decreases
{
    if n < 10 {
        seq![digit_char(n)]
    } else {
        spec_digits_of(n / 10) + seq![digit_char(n % 10)]
    }
}

#[via_fn]
proof fn spec_digits_of_decreases(n: int) {
    if n >= 10 {
        assert(0 <= n / 10 < n) by (nonlinear_arith)
            requires
                n >= 10,
        ;
    }
}

/// The decimal rendering of any integer: a minus sign for negatives,
/// then the digit string of the magnitude.
pub open spec fn spec_decimal_of(v: int) -> Seq<char> {
    if v >= 0 {
        spec_digits_of(v)
    } else {
        seq!['-'] + spec_digits_of(-v)
    }
}

fn digit_to_char(d: u64) -> (c: char)
    requires
        d < 10,
    ensures
        c == digit_char(d as int),
{
    match d {
        0 => '0',
        1 => '1',
        2 => '2',
        3 => '3',
        4 => '4',
        5 => '5',
        6 => '6',
        7 => '7',
        8 => '8',
        _ => '9',
    }
}

/// The decimal digit characters of `n`.
pub fn u64_digits(n: u64) -> (r: Vec<char>)
    ensures
        r@ == spec_digits_of(n as int),
{
    let mut rev: Vec<char> = Vec::new();
    let mut m: u64 = n;
    while m >= 10
        invariant
            spec_digits_of(n as int) == spec_digits_of(m as int) + rev_seq(rev@),
        decreases m,
    {
        let ghost old_rev = rev@;
        let d = m % 10;
        let c = digit_to_char(d);
        rev.push(c);
        proof {
            assert(rev@.drop_last() =~= old_rev);
            assert(rev_seq(rev@) =~= seq![c] + rev_seq(old_rev));
            assert(spec_digits_of(m as int) == spec_digits_of(m as int / 10) + seq![
                digit_char(m as int % 10),
            ]);
            assert(spec_digits_of(m as int) + rev_seq(old_rev) =~= spec_digits_of(m as int / 10)
                + rev_seq(rev@));
        }
        m = m / 10;
    }
    let ghost old_rev = rev@;
    let last_c = digit_to_char(m);
    rev.push(last_c);
    proof {
        assert(rev@.drop_last() =~= old_rev);
        assert(rev_seq(rev@) =~= seq![last_c] + rev_seq(old_rev));
        assert(spec_digits_of(m as int) =~= seq![digit_char(m as int)]);
        assert(spec_digits_of(n as int) =~= rev_seq(rev@));
    }
    let mut r: Vec<char> = Vec::new();
    let k = rev.len();
    let mut j: usize = 0;
    proof {
        lemma_rev_seq_index(rev@);
    }
    while j < k
        invariant
            k == rev@.len(),
            j <= k,
            r@.len() == j,
            spec_digits_of(n as int) == rev_seq(rev@),
            rev_seq(rev@).len() == k,
            forall|t: int| 0 <= t < k ==> rev_seq(rev@)[t] == rev@[k - 1 - t],
            forall|t: int| 0 <= t < j ==> r@[t] == rev@[k - 1 - t],
        decreases k - j,
    {
        r.push(rev[k - 1 - j]);
        j = j + 1;
    }
    assert(r@ =~= rev_seq(rev@));
    r
}

/// `s` reversed.
pub open spec fn rev_seq(s: Seq<char>) -> Seq<char>
    decreases s.len(),
{
    if s.len() == 0 {
        Seq::empty()
    } else {
        seq![s.last()] + rev_seq(s.drop_last())
    }
}

proof fn lemma_rev_seq_index(s: Seq<char>)
    ensures
        rev_seq(s).len() == s.len(),
        forall|t: int| 0 <= t < s.len() ==> rev_seq(s)[t] == s[s.len() - 1 - t],
    decreases s.len(),
{
    if s.len() > 0 {
        lemma_rev_seq_index(s.drop_last());
    }
}

/// Renders `n` in decimal.
pub fn u64_to_string(n: u64) -> (r: String)
    ensures
        r@ == spec_digits_of(n as int),
{
    let digits = u64_digits(n);
    string_from_chars(&digits)
}

/// Index of the last occurrence of `c` in `s`, or `-1`.
pub open spec fn rfind_char(s: Seq<char>, c: char) -> int
    decreases s.len(),
{
    if s.len() == 0 {
        -1
    } else if s.last() == c {
        s.len() - 1
    } else {
        rfind_char(s.drop_last(), c)
    }
}

proof fn lemma_rfind_char_at(s: Seq<char>, c: char, k: int)
    requires
        0 <= k < s.len(),
        s[k] == c,
        forall|j: int| k < j < s.len() ==> s[j] != c,
    ensures
        rfind_char(s, c) == k,
    decreases s.len(),
{
    if k < s.len() - 1 {
        assert(s.drop_last()[k] == c);
        lemma_rfind_char_at(s.drop_last(), c, k);
    }
}

proof fn lemma_rfind_char_none(s: Seq<char>, c: char)
    requires
        forall|j: int| 0 <= j < s.len() ==> s[j] != c,
    ensures
        rfind_char(s, c) == -1,
    decreases s.len(),
{
    if s.len() > 0 {
        lemma_rfind_char_none(s.drop_last(), c);
    }
}

/// Finds the last occurrence of `c` in `v`; the model is [`rfind_char`].
pub fn rfind_in(v: &Vec<char>, c: char) -> (r: Option<usize>)
    ensures
        match r {
            Some(k) => k < v@.len() && rfind_char(v@, c) == k as int,
            None => rfind_char(v@, c) == -1,
        },
{
    let n = v.len();
    let mut b: usize = n;
    while b > 0
        invariant
            n == v@.len(),
            b <= n,
            forall|j: int| b <= j < n ==> v@[j] != c,
        decreases b,
    {
        if v[b - 1] == c {
            proof {
                lemma_rfind_char_at(v@, c, b - 1);
            }
            return Some(b - 1);
        }
        b = b - 1;
    }
    proof {
        lemma_rfind_char_none(v@, c);
    }
    None
}

/// The lowercase counterpart of an ASCII uppercase letter; other characters
/// are unchanged.
pub open spec fn lower_char(c: char) -> char {
    if c == 'A' {
        'a'
    } else if c == 'B' {
        'b'
    } else if c == 'C' {
        'c'
    } else if c == 'D' {
        'd'
    } else if c == 'E' {
        'e'
    } else if c == 'F' {
        'f'
    } else if c == 'G' {
        'g'
    } else if c == 'H' {
        'h'
    } else if c == 'I' {
        'i'
    } else if c == 'J' {
        'j'
    } else if c == 'K' {
        'k'
    } else if c == 'L' {
        'l'
    } else if c == 'M' {
        'm'
    } else if c == 'N' {
        'n'
    } else if c == 'O' {
        'o'
    } else if c == 'P' {
        'p'
    } else if c == 'Q' {
        'q'
    } else if c == 'R' {
        'r'
    } else if c == 'S' {
        's'
    } else if c == 'T' {
        't'
    } else if c == 'U' {
        'u'
    } else if c == 'V' {
        'v'
    } else if c == 'W' {
        'w'
    } else if c == 'X' {
        'x'
    } else if c == 'Y' {
        'y'
    } else if c == 'Z' {
        'z'
    } else {
        c
    }
}

/// `s` with every ASCII uppercase letter lowered.
pub open spec fn spec_lower(s: Seq<char>) -> Seq<char> {
    s.map_values(|c: char| lower_char(c))
}

fn to_lower_char(c: char) -> (r: char)
    ensures
        r == lower_char(c),
{
    match c {
        'A' => 'a',
        'B' => 'b',
        'C' => 'c',
        'D' => 'd',
        'E' => 'e',
        'F' => 'f',
        'G' => 'g',
        'H' => 'h',
        'I' => 'i',
        'J' => 'j',
        'K' => 'k',
        'L' => 'l',
        'M' => 'm',
        'N' => 'n',
        'O' => 'o',
        'P' => 'p',
        'Q' => 'q',
        'R' => 'r',
        'S' => 's',
        'T' => 't',
        'U' => 'u',
        'V' => 'v',
        'W' => 'w',
        'X' => 'x',
        'Y' => 'y',
        'Z' => 'z',
        _ => c,
    }
}

/// Lowers the ASCII uppercase letters of `s`.
pub fn lower_str(s: &str) -> (r: String)
    ensures
        r@ == spec_lower(s@),
{
    let v = chars_of(s);
    let n = v.len();
    let mut out: Vec<char> = Vec::new();
    let mut i: usize = 0;
    while i < n
        invariant
            n == v@.len(),
            v@ == s@,
            i <= n,
            out@.len() == i,
            forall|j: int| 0 <= j < i ==> out@[j] == lower_char(v@[j]),
        decreases n - i,
    {
        out.push(to_lower_char(v[i]));
        i = i + 1;
    }
    assert(out@ =~= spec_lower(s@));
    string_from_chars(&out)
}

/// Renders a signed value in decimal; the magnitude must fit in a `u64`.
pub fn i128_to_string(v: i128) -> (r: String)
    requires
        -0xffff_ffff_ffff_ffffi128 <= v <= 0xffff_ffff_ffff_ffffi128,
    ensures
        r@ == spec_decimal_of(v as int),
{
    if v >= 0 {
        u64_to_string(v as u64)
    } else {
        let digits = u64_digits((-v) as u64);
        let mut chars: Vec<char> = Vec::new();
        chars.push('-');
        let mut i: usize = 0;
        let k = digits.len();
        while i < k
            invariant
                k == digits@.len(),
                i <= k,
                chars@ == seq!['-'] + digits@.subrange(0, i as int),
            decreases k - i,
        {
            chars.push(digits[i]);
            i = i + 1;
            assert(chars@ =~= seq!['-'] + digits@.subrange(0, i as int));
        }
        assert(chars@ =~= seq!['-'] + digits@);
        string_from_chars(&chars)
    }
}

} // verus!
