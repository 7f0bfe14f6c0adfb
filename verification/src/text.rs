//! Verified text utilities: equality and substring search over `&str`,
//! ASCII lowercasing, decimal formatting of integers and millisecond
//! durations, and whitespace/line splitting.  All contracts are stated over
//! the `Seq<char>` views of the strings involved.

use vstd::prelude::*;
use vstd::string::StrSliceExecFns;
use vstd::string::StringExecFns;

verus! {

/// ASCII whitespace, the only whitespace this library recognises.
pub open spec fn is_space(c: char) -> bool {
    c == ' ' || c == '\t' || c == '\n' || c == '\r'
}

/// Executable test for [`is_space`].
pub fn is_space_char(c: char) -> (r: bool)
    ensures
        r == is_space(c),
{
    c == ' ' || c == '\t' || c == '\n' || c == '\r'
}

/// Character-wise string equality.
pub fn str_eq(a: &str, b: &str) -> (r: bool)
    ensures
        r == (a@ == b@),
{
    let alen = a.unicode_len();
    let blen = b.unicode_len();
    if alen != blen {
        return false;
    }
    let mut i: usize = 0;
    while i < alen
        invariant
            i <= alen,
            alen == a@.len(),
            alen == b@.len(),
            forall|j: int| 0 <= j < i ==> a@[j] == b@[j],
        decreases alen - i,
    {
        if a.get_char(i) != b.get_char(i) {
            return false;
        }
        i = i + 1;
    }
    proof {
        assert(a@ =~= b@);
    }
    true
}

/// Whether the character `c` occurs in `s`.
pub fn contains_char(s: &str, c: char) -> (r: bool)
    ensures
        r == s@.contains(c),
{
    let n = s.unicode_len();
    let mut i: usize = 0;
    while i < n
        invariant
            i <= n,
            n == s@.len(),
            forall|j: int| 0 <= j < i ==> s@[j] != c,
        decreases n - i,
    {
        if s.get_char(i) == c {
            return true;
        }
        i = i + 1;
    }
    false
}

/// `p` occurs in `s` starting at some offset `i`.
pub open spec fn spec_has_substring(s: Seq<char>, p: Seq<char>) -> bool {
    exists|i: int| 0 <= i && i + p.len() <= s.len() && #[trigger] s.subrange(i, i + p.len()) == p
}

/// `s` begins with `p`.
pub open spec fn spec_starts_with(s: Seq<char>, p: Seq<char>) -> bool {
    p.len() <= s.len() && s.subrange(0, p.len() as int) == p
}

/// Whether `p` matches `s` at offset `at`.
fn match_at(s: &str, p: &str, at: usize) -> (r: bool)
    requires
        at + p@.len() <= s@.len(),
    ensures
        r == (s@.subrange(at as int, at + p@.len()) == p@),
{
    let n = s.unicode_len();
    let m = p.unicode_len();
    let mut j: usize = 0;
    while j < m
        invariant
            j <= m,
            m == p@.len(),
            n == s@.len(),
            at + m <= n,
            forall|t: int| 0 <= t < j ==> s@[at + t] == p@[t],
        decreases m - j,
    {
        if s.get_char(at + j) != p.get_char(j) {
            proof {
                assert(s@.subrange(at as int, at + p@.len())[j as int] == s@[at + j]);
            }
            return false;
        }
        j = j + 1;
    }
    proof {
        assert(s@.subrange(at as int, at + p@.len()) =~= p@);
    }
    true
}

/// Substring search; see [`spec_has_substring`].
pub fn has_substring(s: &str, p: &str) -> (r: bool)
    ensures
        r == spec_has_substring(s@, p@),
{
    let n = s.unicode_len();
    let m = p.unicode_len();
    if m > n {
        return false;
    }
    if m == 0 {
        proof {
            assert(s@.subrange(0, 0 + p@.len() as int) =~= p@);
        }
        return true;
    }
    let mut i: usize = 0;
    while i <= n - m
        invariant
            1 <= m <= n,
            n == s@.len(),
            m == p@.len(),
            i <= n - m + 1,
            forall|k: int| 0 <= k < i ==> #[trigger] s@.subrange(k, k + p@.len()) != p@,
        decreases n - i,
    {
        if match_at(s, p, i) {
            return true;
        }
        i = i + 1;
    }
    false
}

/// Prefix test; see [`spec_starts_with`].
pub fn starts_with(s: &str, p: &str) -> (r: bool)
    ensures
        r == spec_starts_with(s@, p@),
{
    let n = s.unicode_len();
    let m = p.unicode_len();
    if m > n {
        return false;
    }
    match_at(s, p, 0)
}

/// ASCII lowercasing of one character; anything but `A..=Z` is unchanged.
pub open spec fn spec_lower_char(c: char) -> char {
    if c == 'A' { 'a' }
    else if c == 'B' { 'b' }
    else if c == 'C' { 'c' }
    else if c == 'D' { 'd' }
    else if c == 'E' { 'e' }
    else if c == 'F' { 'f' }
    else if c == 'G' { 'g' }
    else if c == 'H' { 'h' }
    else if c == 'I' { 'i' }
    else if c == 'J' { 'j' }
    else if c == 'K' { 'k' }
    else if c == 'L' { 'l' }
    else if c == 'M' { 'm' }
    else if c == 'N' { 'n' }
    else if c == 'O' { 'o' }
    else if c == 'P' { 'p' }
    else if c == 'Q' { 'q' }
    else if c == 'R' { 'r' }
    else if c == 'S' { 's' }
    else if c == 'T' { 't' }
    else if c == 'U' { 'u' }
    else if c == 'V' { 'v' }
    else if c == 'W' { 'w' }
    else if c == 'X' { 'x' }
    else if c == 'Y' { 'y' }
    else if c == 'Z' { 'z' }
    else { c }
}

/// ASCII lowercasing of a character sequence.
pub open spec fn spec_lower(s: Seq<char>) -> Seq<char> {
    s.map_values(|c: char| spec_lower_char(c))
}

/// Executable ASCII lowercasing of one character.
pub fn lower_char(c: char) -> (r: char)
    ensures
        r == spec_lower_char(c),
{
    match c {
        'A' => 'a',
        'B' => 'b',
        'C' => 'c',
        'D' => 'd',
        'E' => 'e',
        'F' => 'f',
        'G' => 'g',
        'H' => 'h',
        'I' => 'i',
        'J' => 'j',
        'K' => 'k',
        'L' => 'l',
        'M' => 'm',
        'N' => 'n',
        'O' => 'o',
        'P' => 'p',
        'Q' => 'q',
        'R' => 'r',
        'S' => 's',
        'T' => 't',
        'U' => 'u',
        'V' => 'v',
        'W' => 'w',
        'X' => 'x',
        'Y' => 'y',
        'Z' => 'z',
        _ => c,
    }
}

/// Whether `p` matches the ASCII-lowercased `s` at offset `at`.
fn match_at_lowered(s: &str, p: &str, at: usize) -> (r: bool)
    requires
        at + p@.len() <= s@.len(),
    ensures
        r == (spec_lower(s@).subrange(at as int, at + p@.len()) == p@),
{
    let n = s.unicode_len();
    let m = p.unicode_len();
    let mut j: usize = 0;
    while j < m
        invariant
            j <= m,
            m == p@.len(),
            n == s@.len(),
            at + m <= n,
            forall|t: int| 0 <= t < j ==> spec_lower(s@)[at + t] == p@[t],
        decreases m - j,
    {
        if lower_char(s.get_char(at + j)) != p.get_char(j) {
            proof {
                assert(spec_lower(s@).subrange(at as int, at + p@.len())[j as int]
                    == spec_lower(s@)[at + j]);
            }
            return false;
        }
        j = j + 1;
    }
    proof {
        assert(spec_lower(s@).subrange(at as int, at + p@.len()) =~= p@);
    }
    true
}

/// Whether the ASCII-lowercased `s` contains `p`.
pub fn contains_lowered(s: &str, p: &str) -> (r: bool)
    ensures
        r == spec_has_substring(spec_lower(s@), p@),
{
    let n = s.unicode_len();
    let m = p.unicode_len();
    if m > n {
        return false;
    }
    if m == 0 {
        proof {
            assert(spec_lower(s@).subrange(0, 0 + p@.len() as int) =~= p@);
        }
        return true;
    }
    let mut i: usize = 0;
    while i <= n - m
        invariant
            1 <= m <= n,
            n == s@.len(),
            m == p@.len(),
            i <= n - m + 1,
            forall|k: int| 0 <= k < i ==> #[trigger] spec_lower(s@).subrange(k, k + p@.len()) != p@,
        decreases n - i,
    {
        if match_at_lowered(s, p, i) {
            return true;
        }
        i = i + 1;
    }
    false
}

/// The decimal digit character for `d` in `0..=9`.
pub open spec fn spec_digit_char(d: int) -> char {
    if d == 0 { '0' }
    else if d == 1 { '1' }
    else if d == 2 { '2' }
    else if d == 3 { '3' }
    else if d == 4 { '4' }
    else if d == 5 { '5' }
    else if d == 6 { '6' }
    else if d == 7 { '7' }
    else if d == 8 { '8' }
    else { '9' }
}

/// The usual decimal rendering of `n`, without leading zeros (`0` is "0").
pub open spec fn spec_dec(n: nat) -> Seq<char>
    decreases n,
{
    if n < 10 {
        seq![spec_digit_char(n as int)]
    } else {
        spec_dec((n / 10) as nat).push(spec_digit_char((n % 10) as int))
    }
}

/// The decimal rendering of a possibly negative integer.
pub open spec fn spec_dec_signed(n: int) -> Seq<char> {
    if n < 0 {
        seq!['-'] + spec_dec((-n) as nat)
    } else {
        spec_dec(n as nat)
    }
}

/// Appends the digit character for `d` to `s`.
fn push_digit(s: &mut String, d: u64)
    requires
        d < 10,
    ensures
        final(s)@ == old(s)@.push(spec_digit_char(d as int)),
{
    let lit: &str = if d == 0 { "0" }
    else if d == 1 { "1" }
    else if d == 2 { "2" }
    else if d == 3 { "3" }
    else if d == 4 { "4" }
    else if d == 5 { "5" }
    else if d == 6 { "6" }
    else if d == 7 { "7" }
    else { if d == 8 { "8" } else { "9" } };
    proof {
        reveal_strlit("0");
        reveal_strlit("1");
        reveal_strlit("2");
        reveal_strlit("3");
        reveal_strlit("4");
        reveal_strlit("5");
        reveal_strlit("6");
        reveal_strlit("7");
        reveal_strlit("8");
        reveal_strlit("9");
        assert(lit@ =~= seq![spec_digit_char(d as int)]);
    }
    s.append(lit);
    proof {
        assert(s@ =~= old(s)@.push(spec_digit_char(d as int)));
    }
}

/// Decimal rendering of `n`; see [`spec_dec`].
pub fn u64_to_dec(n: u64) -> (r: String)
    ensures
        r@ == spec_dec(n as nat),
    decreases n,
{
    if n < 10 {
        let mut s = String::new();
        push_digit(&mut s, n);
        proof {
            assert(s@ =~= spec_dec(n as nat));
        }
        s
    } else {
        let mut s = u64_to_dec(n / 10);
        push_digit(&mut s, n % 10);
        s
    }
}

/// Decimal rendering of a signed value; see [`spec_dec_signed`].
pub fn i64_to_dec(n: i64) -> (r: String)
    requires
        n > i64::MIN,
    ensures
        r@ == spec_dec_signed(n as int),
{
    if n < 0 {
        let mut s = String::from_str("-");
        proof {
            reveal_strlit("-");
        }
        let rest = u64_to_dec((-n) as u64);
        s.append(rest.as_str());
        proof {
            assert(s@ =~= spec_dec_signed(n as int));
        }
        s
    } else {
        u64_to_dec(n as u64)
    }
}

/// `s` without its leading ASCII whitespace.
pub open spec fn spec_trim_start(s: Seq<char>) -> Seq<char>
    decreases s.len(),
{
    if s.len() > 0 && is_space(s[0]) {
        spec_trim_start(s.drop_first())
    } else {
        s
    }
}

/// `s` without its trailing ASCII whitespace.
pub open spec fn spec_trim_end(s: Seq<char>) -> Seq<char>
    decreases s.len(),
{
    if s.len() > 0 && is_space(s[s.len() - 1]) {
        spec_trim_end(s.drop_last())
    } else {
        s
    }
}

/// `s` without leading and trailing ASCII whitespace.
pub open spec fn spec_trim(s: Seq<char>) -> Seq<char> {
    spec_trim_end(spec_trim_start(s))
}

fn trim_start_str<'a>(s: &'a str) -> (r: &'a str)
    ensures
        r@ == spec_trim_start(s@),
    decreases s@.len(),
{
    let n = s.unicode_len();
    if n > 0 && is_space_char(s.get_char(0)) {
        let rest = s.substring_char(1, n);
        proof {
            assert(rest@ =~= s@.drop_first());
        }
        trim_start_str(rest)
    } else {
        s
    }
}

fn trim_end_str<'a>(s: &'a str) -> (r: &'a str)
    ensures
        r@ == spec_trim_end(s@),
    decreases s@.len(),
{
    let n = s.unicode_len();
    if n > 0 && is_space_char(s.get_char(n - 1)) {
        let rest = s.substring_char(0, n - 1);
        proof {
            assert(rest@ =~= s@.drop_last());
        }
        trim_end_str(rest)
    } else {
        s
    }
}

/// Trims ASCII whitespace from both ends; see [`spec_trim`].
pub fn trim_str<'a>(s: &'a str) -> (r: &'a str)
    ensures
        r@ == spec_trim(s@),
{
    trim_end_str(trim_start_str(s))
}

/// Length of the longest prefix of `s` holding no `c`.
pub open spec fn spec_run_until(s: Seq<char>, c: char) -> nat
    decreases s.len(),
{
    if s.len() == 0 || s[0] == c {
        0
    } else {
        1 + spec_run_until(s.drop_first(), c)
    }
}

/// The run never reaches past the end of the sequence, and stops exactly
/// at the first occurrence of `c` if there is one.
pub proof fn lemma_run_until_le(s: Seq<char>, c: char)
    ensures
        spec_run_until(s, c) <= s.len(),
    decreases s.len(),
{
    if s.len() == 0 || s[0] == c {
    } else {
        lemma_run_until_le(s.drop_first(), c);
    }
}

/// Executable counterpart of [`spec_run_until`].
pub fn run_until_str(s: &str, c: char) -> (k: usize)
    ensures
        k == spec_run_until(s@, c),
    decreases s@.len(),
{
    let n = s.unicode_len();
    if n == 0 {
        0
    } else if s.get_char(0) == c {
        0
    } else {
        let rest = s.substring_char(1, n);
        proof {
            assert(rest@ =~= s@.drop_first());
            lemma_run_until_le(rest@, c);
        }
        1 + run_until_str(rest, c)
    }
}

/// Length of the leading run of non-whitespace characters.
pub open spec fn spec_token_len(s: Seq<char>) -> nat
    decreases s.len(),
{
    if s.len() == 0 || is_space(s[0]) {
        0
    } else {
        1 + spec_token_len(s.drop_first())
    }
}

proof fn lemma_token_len_le(s: Seq<char>)
    ensures
        spec_token_len(s) <= s.len(),
    decreases s.len(),
{
    if s.len() == 0 || is_space(s[0]) {
    } else {
        lemma_token_len_le(s.drop_first());
    }
}

fn token_len_str(s: &str) -> (k: usize)
    ensures
        k == spec_token_len(s@),
    decreases s@.len(),
{
    let n = s.unicode_len();
    if n == 0 {
        0
    } else if is_space_char(s.get_char(0)) {
        0
    } else {
        let rest = s.substring_char(1, n);
        proof {
            assert(rest@ =~= s@.drop_first());
            lemma_token_len_le(rest@);
        }
        1 + token_len_str(rest)
    }
}

/// The maximal nonempty whitespace-free tokens of `s`, in order.
pub open spec fn spec_split_ws(s: Seq<char>) -> Seq<Seq<char>>
    decreases s.len(),
    via spec_split_ws_decreases
{
    if s.len() == 0 {
        Seq::empty()
    } else if is_space(s[0]) {
        spec_split_ws(s.drop_first())
    } else {
        let k = spec_token_len(s);
        seq![s.subrange(0, k as int)] + spec_split_ws(s.subrange(k as int, s.len() as int))
    }
}

#[via_fn]
proof fn spec_split_ws_decreases(s: Seq<char>) {
    if s.len() > 0 && !is_space(s[0]) {
        lemma_token_len_le(s);
    }
}

/// Splits on ASCII whitespace; see [`spec_split_ws`].
pub fn split_ws(s: &str) -> (r: Vec<String>)
    ensures
        r.deep_view() == spec_split_ws(s@),
    decreases s@.len(),
{
    let n = s.unicode_len();
    if n == 0 {
        let v: Vec<String> = Vec::new();
        proof {
            assert(v.deep_view() =~= spec_split_ws(s@));
        }
        v
    } else if is_space_char(s.get_char(0)) {
        let rest = s.substring_char(1, n);
        proof {
            assert(rest@ =~= s@.drop_first());
        }
        split_ws(rest)
    } else {
        let k = token_len_str(s);
        proof {
            lemma_token_len_le(s@);
        }
        let token = s.substring_char(0, k).to_owned();
        let rest = s.substring_char(k, n);
        let mut v: Vec<String> = Vec::new();
        v.push(token);
        let mut tail = split_ws(rest);
        v.append(&mut tail);
        proof {
            let rhs = seq![s@.subrange(0, k as int)] + spec_split_ws(rest@);
            assert forall|i: int| 0 <= i < v.deep_view().len() implies v.deep_view()[i] == rhs[i]
            by {
                if i > 0 {
                    assert(v.deep_view()[i] == v@[i].deep_view());
                }
            }
            assert(v.deep_view() =~= rhs);
        }
        v
    }
}

/// `t` without one trailing carriage return, if it has one.
pub open spec fn spec_strip_cr(t: Seq<char>) -> Seq<char> {
    if t.len() > 0 && t[t.len() - 1] == '\r' {
        t.drop_last()
    } else {
        t
    }
}

/// The lines of `s`: segments separated by `'\n'`, each without a trailing
/// `'\r'`, and with no empty final line after a terminating newline.
pub open spec fn spec_split_lines(s: Seq<char>) -> Seq<Seq<char>>
    decreases s.len(),
    via spec_split_lines_decreases
{
    if s.len() == 0 {
        Seq::empty()
    } else {
        let k = spec_run_until(s, '\n');
        let line = spec_strip_cr(s.subrange(0, k as int));
        if k == s.len() {
            seq![line]
        } else {
            seq![line] + spec_split_lines(s.subrange(k as int + 1, s.len() as int))
        }
    }
}

#[via_fn]
proof fn spec_split_lines_decreases(s: Seq<char>) {
    if s.len() > 0 {
        lemma_run_until_le(s, '\n');
    }
}

/// Splits into lines; see [`spec_split_lines`].
pub fn split_lines(s: &str) -> (r: Vec<String>)
    ensures
        r.deep_view() == spec_split_lines(s@),
    decreases s@.len(),
{
    let n = s.unicode_len();
    if n == 0 {
        let v: Vec<String> = Vec::new();
        proof {
            assert(v.deep_view() =~= spec_split_lines(s@));
        }
        return v;
    }
    let k = run_until_str(s, '\n');
    proof {
        lemma_run_until_le(s@, '\n');
    }
    let line = if k > 0 && s.get_char(k - 1) == '\r' {
        let l = s.substring_char(0, k - 1);
        proof {
            assert(s@.subrange(0, k as int).drop_last() =~= s@.subrange(0, k as int - 1));
            assert(l@ =~= spec_strip_cr(s@.subrange(0, k as int)));
        }
        l
    } else {
        let l = s.substring_char(0, k);
        proof {
            assert(l@ =~= spec_strip_cr(s@.subrange(0, k as int)));
        }
        l
    };
    let mut v: Vec<String> = Vec::new();
    v.push(line.to_owned());
    if k == n {
        proof {
            assert(v.deep_view() =~= spec_split_lines(s@));
        }
        v
    } else {
        let rest = s.substring_char(k + 1, n);
        let mut tail = split_lines(rest);
        v.append(&mut tail);
        proof {
            let rhs = seq![spec_strip_cr(s@.subrange(0, k as int))] + spec_split_lines(rest@);
            assert forall|i: int| 0 <= i < v.deep_view().len() implies v.deep_view()[i] == rhs[i]
            by {
                if i > 0 {
                    assert(v.deep_view()[i] == v@[i].deep_view());
                }
            }
            assert(v.deep_view() =~= rhs);
        }
        v
    }
}

/// The elements of `fs` joined with single commas.
pub open spec fn spec_join_comma(fs: Seq<Seq<char>>) -> Seq<char>
    decreases fs.len(),
{
    if fs.len() == 0 {
        Seq::empty()
    } else if fs.len() == 1 {
        fs[0]
    } else {
        fs[0] + seq![','] + spec_join_comma(fs.drop_first())
    }
}

fn join_comma_from(v: &Vec<String>, i: usize) -> (r: String)
    requires
        i <= v@.len(),
    ensures
        r@ == spec_join_comma(v.deep_view().subrange(i as int, v@.len() as int)),
    decreases v@.len() - i,
{
    if i == v.len() {
        let r = String::new();
        proof {
            assert(v.deep_view().subrange(i as int, v@.len() as int)
                =~= Seq::<Seq<char>>::empty());
        }
        r
    } else if i + 1 == v.len() {
        let r = v[i].clone();
        proof {
            let fs = v.deep_view().subrange(i as int, v@.len() as int);
            assert(fs[0] == v.deep_view()[i as int]);
        }
        r
    } else {
        let mut r = v[i].clone();
        r.append(",");
        let rest = join_comma_from(v, i + 1);
        r.append(rest.as_str());
        proof {
            reveal_strlit(",");
            let fs = v.deep_view().subrange(i as int, v@.len() as int);
            assert(fs.drop_first() =~= v.deep_view().subrange(i + 1, v@.len() as int));
            assert(fs[0] == v.deep_view()[i as int]);
            assert(r@ =~= spec_join_comma(fs));
        }
        r
    }
}

/// Joins strings with commas; see [`spec_join_comma`].
pub fn join_comma(v: &Vec<String>) -> (r: String)
    ensures
        r@ == spec_join_comma(v.deep_view()),
{
    let r = join_comma_from(v, 0);
    proof {
        assert(v.deep_view().subrange(0, v@.len() as int) =~= v.deep_view());
    }
    r
}

/// A decimal digit.
pub open spec fn is_digit(c: char) -> bool {
    '0' <= c && c <= '9'
}

/// The numeric value of a digit character.
pub open spec fn digit_val(c: char) -> nat
    recommends
        is_digit(c),
{
    (c as int - '0' as int) as nat
}

/// All characters of `s` are decimal digits.
pub open spec fn all_digits(s: Seq<char>) -> bool {
    forall|i: int| 0 <= i < s.len() ==> #[trigger] is_digit(s[i])
}

/// The value of a digit string read most-significant first.
pub open spec fn digits_val(s: Seq<char>) -> nat
    decreases s.len(),
{
    if s.len() == 0 {
        0
    } else {
        digits_val(s.drop_last()) * 10 + digit_val(s.last())
    }
}

/// A later prefix of a digit string never has a smaller value.
proof fn lemma_digits_val_prefix_le(s: Seq<char>, j: int)
    requires
        0 <= j <= s.len(),
    ensures
        digits_val(s.subrange(0, j)) <= digits_val(s),
    decreases s.len() - j,
{
    if j == s.len() {
        assert(s.subrange(0, j) =~= s);
    } else {
        assert(s.subrange(0, j + 1).drop_last() =~= s.subrange(0, j));
        assert(s.subrange(0, j + 1).last() == s[j]);
        lemma_digits_val_prefix_le(s, j + 1);
    }
}

/// The value of a nonempty all-digit string if it fits in a `u64`.
pub open spec fn spec_parse_u64(s: Seq<char>) -> Option<u64> {
    if s.len() > 0 && all_digits(s) && digits_val(s) <= u64::MAX {
        Some(digits_val(s) as u64)
    } else {
        None
    }
}

/// The value of a digit character, `None` for anything else.
pub fn digit_of_char(c: char) -> (r: Option<u64>)
    ensures
        r is Some <==> is_digit(c),
        r is Some ==> r->Some_0 == digit_val(c),
{
    match c {
        '0' => Some(0),
        '1' => Some(1),
        '2' => Some(2),
        '3' => Some(3),
        '4' => Some(4),
        '5' => Some(5),
        '6' => Some(6),
        '7' => Some(7),
        '8' => Some(8),
        '9' => Some(9),
        _ => None,
    }
}

/// Whether every character of `s` is a decimal digit.
pub fn all_digits_str(s: &str) -> (r: bool)
    ensures
        r == all_digits(s@),
{
    let n = s.unicode_len();
    let mut i: usize = 0;
    while i < n
        invariant
            i <= n,
            n == s@.len(),
            forall|j: int| 0 <= j < i ==> #[trigger] is_digit(s@[j]),
        decreases n - i,
    {
        match digit_of_char(s.get_char(i)) {
            None => {
                proof {
                    assert(!is_digit(s@[i as int]));
                }
                return false;
            },
            Some(_) => {},
        }
        i = i + 1;
    }
    true
}

/// Parses a nonempty unsigned decimal digit string; see [`spec_parse_u64`].
pub fn parse_u64_digits(s: &str) -> (r: Option<u64>)
    ensures
        r == spec_parse_u64(s@),
{
    let n = s.unicode_len();
    if n == 0 {
        return None;
    }
    let mut acc: u64 = 0;
    let mut i: usize = 0;
    while i < n
        invariant
            0 < n,
            n == s@.len(),
            i <= n,
            forall|j: int| 0 <= j < i ==> #[trigger] is_digit(s@[j]),
            acc == digits_val(s@.subrange(0, i as int)),
        decreases n - i,
    {
        let c = s.get_char(i);
        match digit_of_char(c) {
            None => {
                proof {
                    assert(!is_digit(s@[i as int]));
                }
                return None;
            },
            Some(d) => {
                proof {
                    assert(s@.subrange(0, i + 1).drop_last() =~= s@.subrange(0, i as int));
                    assert(s@.subrange(0, i + 1).last() == s@[i as int]);
                }
                match acc.checked_mul(10) {
                    None => {
                        proof {
                            lemma_digits_val_prefix_le(s@, i + 1);
                        }
                        return None;
                    },
                    Some(t) => {
                        match t.checked_add(d) {
                            None => {
                                proof {
                                    lemma_digits_val_prefix_le(s@, i + 1);
                                }
                                return None;
                            },
                            Some(v) => {
                                acc = v;
                            },
                        }
                    },
                }
            },
        }
        i = i + 1;
    }
    proof {
        assert(s@.subrange(0, n as int) =~= s@);
    }
    Some(acc)
}

/// A millisecond count rendered as seconds with exactly three decimal
/// places, e.g. `25500` becomes `25.500`.
pub open spec fn spec_fmt_ms(ms: nat) -> Seq<char> {
    spec_dec(ms / 1000) + seq!['.'] + seq![
        spec_digit_char(((ms % 1000) / 100) as int),
        spec_digit_char(((ms % 1000) / 10 % 10) as int),
        spec_digit_char((ms % 10) as int),
    ]
}

/// Renders a millisecond duration; see [`spec_fmt_ms`].
pub fn format_ms(ms: u64) -> (r: String)
    ensures
        r@ == spec_fmt_ms(ms as nat),
{
    let mut s = u64_to_dec(ms / 1000);
    s.append(".");
    proof {
        reveal_strlit(".");
    }
    let rem = ms % 1000;
    push_digit(&mut s, rem / 100);
    push_digit(&mut s, rem / 10 % 10);
    push_digit(&mut s, ms % 10);
    proof {
        assert(ms % 1000 % 10 == ms % 10) by (nonlinear_arith);
        assert(s@ =~= spec_fmt_ms(ms as nat));
    }
    s
}

} // verus!
