//! Verified helpers for character-level work on strings.
//!
//! The annotation mini-language is parsed character by character, so
//! every operation the parser needs (searching, trimming,
//! case-insensitive comparison, decimal rendering of indices) is
//! specified here over `Seq<char>` and implemented over `&str`.

use vstd::prelude::*;
use vstd::string::*;

verus! {

/// ASCII whitespace as recognized by the annotation mini-language.
pub open spec fn is_ws_char(c: char) -> bool {
    c == ' ' || c == '\t' || c == '\n' || c == '\r'
}

/// Index of the first occurrence of `c` in `s` at or after `i`, or -1.
pub open spec fn find_from(s: Seq<char>, i: int, c: char) -> int
    decreases s.len() - i,
{
    if i < 0 || i >= s.len() {
        -1
    } else if s[i] == c {
        i
    } else {
        find_from(s, i + 1, c)
    }
}

/// `s` holds `c` somewhere.
pub open spec fn contains_char(s: Seq<char>, c: char) -> bool {
    find_from(s, 0, c) != -1
}

/// Index of the first occurrence of the pair `c0 c1` at or after `i`, or -1.
pub open spec fn find2_from(s: Seq<char>, i: int, c0: char, c1: char) -> int
    decreases s.len() - i,
{
    if i < 0 || i + 1 >= s.len() {
        -1
    } else if s[i] == c0 && s[i + 1] == c1 {
        i
    } else {
        find2_from(s, i + 1, c0, c1)
    }
}

/// Index of the last occurrence of `c` in `s` at or before `i`, or -1.
pub open spec fn rfind_from(s: Seq<char>, i: int, c: char) -> int
    decreases i + 1,
{
    if i < 0 || i >= s.len() {
        -1
    } else if s[i] == c {
        i
    } else {
        rfind_from(s, i - 1, c)
    }
}

/// Index of the last occurrence of the pair `c0 c1` starting at or before `i`, or -1.
pub open spec fn rfind2_from(s: Seq<char>, i: int, c0: char, c1: char) -> int
    decreases i + 1,
{
    if i < 0 || i + 1 >= s.len() {
        -1
    } else if s[i] == c0 && s[i + 1] == c1 {
        i
    } else {
        rfind2_from(s, i - 1, c0, c1)
    }
}

/// Index of the first non-whitespace character at or after `i`, or `s.len()`.
pub open spec fn skip_ws(s: Seq<char>, i: int) -> int
    decreases s.len() - i,
{
    if i < 0 {
        0
    } else if i >= s.len() {
        s.len() as int
    } else if is_ws_char(s[i]) {
        skip_ws(s, i + 1)
    } else {
        i
    }
}

/// Index of the last non-whitespace character at or before `i`, or -1.
pub open spec fn rskip_ws(s: Seq<char>, i: int) -> int
    decreases i + 1,
{
    if i < 0 || i >= s.len() {
        -1
    } else if is_ws_char(s[i]) {
        rskip_ws(s, i - 1)
    } else {
        i
    }
}

/// `s` with leading and trailing ASCII whitespace removed.
pub open spec fn trim_seq(s: Seq<char>) -> Seq<char> {
    let a = skip_ws(s, 0);
    let b = rskip_ws(s, s.len() - 1);
    if a <= b {
        s.subrange(a, b + 1)
    } else {
        Seq::empty()
    }
}

/// `s` with one surrounding pair of double quotes removed, if present.
pub open spec fn strip_quotes(s: Seq<char>) -> Seq<char> {
    if s.len() >= 2 && s[0] == '"' && s[s.len() - 1] == '"' {
        s.subrange(1, s.len() - 1)
    } else {
        s
    }
}

/// The two characters are equal up to ASCII case.
pub open spec fn char_ci_eq(a: char, b: char) -> bool {
    a == b || (97 <= a as u32 <= 122 && a as u32 - 32 == b as u32) || (97 <= b as u32 <= 122
        && b as u32 - 32 == a as u32)
}

/// The two strings are equal up to ASCII case, character for character.
pub open spec fn ci_eq(a: Seq<char>, b: Seq<char>) -> bool {
    a.len() == b.len() && forall|i: int| 0 <= i < a.len() ==> char_ci_eq(a[i], b[i])
}

/// The character standing for the decimal digit `d`.
pub open spec fn digit_char(d: int) -> char {
    if d == 0 {
        '0'
    } else if d == 1 {
        '1'
    } else if d == 2 {
        '2'
    } else if d == 3 {
        '3'
    } else if d == 4 {
        '4'
    } else if d == 5 {
        '5'
    } else if d == 6 {
        '6'
    } else if d == 7 {
        '7'
    } else if d == 8 {
        '8'
    } else {
        '9'
    }
}

/// The decimal rendering of a non-negative number.
pub open spec fn dec_str(n: int) -> Seq<char>
    decreases n,
{
    if n < 10 {
        seq![digit_char(n)]
    } else {
        dec_str(n / 10) + seq![digit_char(n % 10)]
    }
}

/// What `find_from` returns: the least matching index, or -1 when none matches.
pub proof fn lemma_find_from_props(s: Seq<char>, i: int, c: char)
    requires
        0 <= i <= s.len(),
    ensures
        ({
            let r = find_from(s, i, c);
            &&& r == -1 ==> forall|j: int| i <= j < s.len() ==> s[j] != c
            &&& r != -1 ==> i <= r < s.len() && s[r] == c && forall|j: int| i <= j < r ==> s[j] != c
        }),
    decreases s.len() - i,
{
    if i < s.len() && s[i] != c {
        lemma_find_from_props(s, i + 1, c);
    }
}

/// What `skip_ws` returns: bounds, whitespace before it, non-whitespace at it.
pub proof fn lemma_skip_ws_props(s: Seq<char>, i: int)
    requires
        0 <= i <= s.len(),
    ensures
        ({
            let r = skip_ws(s, i);
            &&& i <= r <= s.len()
            &&& forall|j: int| i <= j < r ==> is_ws_char(s[j])
            &&& r < s.len() ==> !is_ws_char(s[r])
        }),
    decreases s.len() - i,
{
    if i < s.len() && is_ws_char(s[i]) {
        lemma_skip_ws_props(s, i + 1);
    }
}

/// What `rskip_ws` returns: bounds, whitespace after it, non-whitespace at it.
pub proof fn lemma_rskip_ws_props(s: Seq<char>, i: int)
    requires
        -1 <= i < s.len(),
    ensures
        ({
            let r = rskip_ws(s, i);
            &&& -1 <= r <= i
            &&& forall|j: int| r < j <= i && 0 <= j ==> is_ws_char(s[j])
            &&& r >= 0 ==> !is_ws_char(s[r])
        }),
    decreases i + 1,
{
    if 0 <= i && is_ws_char(s[i]) {
        lemma_rskip_ws_props(s, i - 1);
    }
}

/// A string with no occurrence of `c` has no first occurrence.
pub proof fn lemma_find_from_absent(s: Seq<char>, i: int, c: char)
    requires
        0 <= i <= s.len(),
        forall|j: int| i <= j < s.len() ==> s[j] != c,
    ensures
        find_from(s, i, c) == -1,
{
    lemma_find_from_props(s, i, c);
}

/// The first occurrence of `c` at or after `i` is the least matching
/// index.
pub proof fn lemma_find_from_at(s: Seq<char>, i: int, c: char, k: int)
    requires
        0 <= i <= k < s.len(),
        s[k] == c,
        forall|j: int| i <= j < k ==> s[j] != c,
    ensures
        find_from(s, i, c) == k,
    decreases k - i,
{
    if i < k {
        lemma_find_from_at(s, i + 1, c, k);
    }
}

/// The first occurrence of the pair `c0 c1` at or after `i` is the
/// least matching index.
pub proof fn lemma_find2_from_at(s: Seq<char>, i: int, c0: char, c1: char, k: int)
    requires
        0 <= i <= k,
        k + 1 < s.len(),
        s[k] == c0 && s[k + 1] == c1,
        forall|j: int| i <= j < k ==> !(#[trigger] s[j] == c0 && s[j + 1] == c1),
    ensures
        find2_from(s, i, c0, c1) == k,
    decreases k - i,
{
    if i < k {
        lemma_find2_from_at(s, i + 1, c0, c1, k);
    }
}

/// A string whose pair search failed holds no such pair.
pub proof fn lemma_find2_from_none(s: Seq<char>, i: int, c0: char, c1: char)
    requires
        0 <= i,
        find2_from(s, i, c0, c1) == -1,
    ensures
        forall|j: int| i <= j && j + 1 < s.len() ==> !(#[trigger] s[j] == c0 && s[j + 1] == c1),
    decreases s.len() - i,
{
    if i + 1 < s.len() {
        lemma_find2_from_none(s, i + 1, c0, c1);
    }
}

/// The last occurrence of `c` is the greatest matching index.
pub proof fn lemma_rfind_from_at(s: Seq<char>, i: int, c: char, k: int)
    requires
        0 <= k <= i < s.len(),
        s[k] == c,
        forall|j: int| k < j <= i ==> s[j] != c,
    ensures
        rfind_from(s, i, c) == k,
    decreases i - k,
{
    if k < i {
        lemma_rfind_from_at(s, i - 1, c, k);
    }
}

/// The first non-whitespace position is where the whitespace run
/// ends.
pub proof fn lemma_skip_ws_at(s: Seq<char>, i: int, k: int)
    requires
        0 <= i <= k <= s.len(),
        forall|j: int| i <= j < k ==> is_ws_char(s[j]),
        k == s.len() || !is_ws_char(s[k]),
    ensures
        skip_ws(s, i) == k,
    decreases k - i,
{
    if i < k {
        lemma_skip_ws_at(s, i + 1, k);
    }
}

/// The last non-whitespace position is where the trailing whitespace
/// run begins.
pub proof fn lemma_rskip_ws_at(s: Seq<char>, i: int, k: int)
    requires
        -1 <= k <= i < s.len(),
        forall|j: int| k < j <= i ==> is_ws_char(s[j]),
        k == -1 || !is_ws_char(s[k]),
    ensures
        rskip_ws(s, i) == k,
    decreases i - k,
{
    if k < i {
        lemma_rskip_ws_at(s, i - 1, k);
    }
}

/// Trimming a string that neither starts nor ends with whitespace
/// changes nothing.
pub proof fn lemma_trim_id(s: Seq<char>)
    requires
        s.len() > 0,
        !is_ws_char(s[0]),
        !is_ws_char(s[s.len() - 1]),
    ensures
        trim_seq(s) == s,
{
    lemma_skip_ws_at(s, 0, 0);
    lemma_rskip_ws_at(s, s.len() - 1, s.len() - 1);
    assert(s.subrange(0, s.len() as int) =~= s);
}

/// A non-empty string that trimming leaves unchanged neither starts
/// nor ends with whitespace.
pub proof fn lemma_trimmed_ends(s: Seq<char>)
    requires
        trim_seq(s) == s,
        s.len() > 0,
    ensures
        !is_ws_char(s[0]),
        !is_ws_char(s[s.len() - 1]),
{
    lemma_skip_ws_props(s, 0);
    lemma_rskip_ws_props(s, s.len() - 1);
    let a = skip_ws(s, 0);
    let b = rskip_ws(s, s.len() - 1);
    if a > b {
        assert(trim_seq(s).len() == 0);
    } else {
        assert(trim_seq(s).len() == b + 1 - a);
        assert(a == 0 && b == s.len() - 1);
    }
}

/// Case-insensitive equality is reflexive.
pub proof fn lemma_ci_refl(s: Seq<char>)
    ensures
        ci_eq(s, s),
{
}

/// `s` with one surrounding pair of double quotes removed, if present.
pub fn str_strip_quotes(s: &str) -> (r: &str)
    ensures
        r@ == strip_quotes(s@),
{
    let n = s.unicode_len();
    if n >= 2 && s.get_char(0) == '"' && s.get_char(n - 1) == '"' {
        s.substring_char(1, n - 1)
    } else {
        s
    }
}

/// Whether `c` is ASCII whitespace.
pub fn is_ws(c: char) -> (r: bool)
    ensures
        r == is_ws_char(c),
{
    c == ' ' || c == '\t' || c == '\n' || c == '\r'
}

/// First occurrence of `c` in `s` at or after `from`.
pub fn str_find(s: &str, from: usize, c: char) -> (r: Option<usize>)
    requires
        from <= s@.len(),
    ensures
        ({
            let f = find_from(s@, from as int, c);
            match r {
                Some(j) => f == j as int && from <= j < s@.len(),
                None => f == -1,
            }
        }),
{
    let n = s.unicode_len();
    let mut i = from;
    while i < n
        invariant
            from <= i <= n,
            n == s@.len(),
            find_from(s@, from as int, c) == find_from(s@, i as int, c),
        decreases n - i,
    {
        if s.get_char(i) == c {
            return Some(i);
        }
        i = i + 1;
    }
    None
}

/// First occurrence of the pair `c0 c1` in `s` at or after `from`.
pub fn str_find2(s: &str, from: usize, c0: char, c1: char) -> (r: Option<usize>)
    requires
        from <= s@.len(),
    ensures
        ({
            let f = find2_from(s@, from as int, c0, c1);
            match r {
                Some(j) => f == j as int && from <= j && j + 1 < s@.len(),
                None => f == -1,
            }
        }),
{
    let n = s.unicode_len();
    let mut i = from;
    while n - i > 1
        invariant
            from <= i <= n,
            n == s@.len(),
            find2_from(s@, from as int, c0, c1) == find2_from(s@, i as int, c0, c1),
        decreases n - i,
    {
        if s.get_char(i) == c0 && s.get_char(i + 1) == c1 {
            return Some(i);
        }
        i = i + 1;
    }
    None
}

/// Last occurrence of `c` in `s`.
pub fn str_rfind(s: &str, c: char) -> (r: Option<usize>)
    ensures
        ({
            let f = rfind_from(s@, s@.len() - 1, c);
            match r {
                Some(j) => f == j as int && j < s@.len(),
                None => f == -1,
            }
        }),
{
    let n = s.unicode_len();
    let mut i = n;
    while i > 0
        invariant
            i <= n,
            n == s@.len(),
            rfind_from(s@, n as int - 1, c) == rfind_from(s@, i as int - 1, c),
        decreases i,
    {
        if s.get_char(i - 1) == c {
            return Some(i - 1);
        }
        i = i - 1;
    }
    None
}

/// Last occurrence of the pair `c0 c1` in `s`.
pub fn str_rfind2(s: &str, c0: char, c1: char) -> (r: Option<usize>)
    ensures
        ({
            let f = rfind2_from(s@, s@.len() - 2, c0, c1);
            match r {
                Some(j) => f == j as int && j + 1 < s@.len(),
                None => f == -1,
            }
        }),
{
    let n = s.unicode_len();
    if n < 2 {
        return None;
    }
    let mut i = n - 1;
    while i > 0
        invariant
            i <= n - 1,
            n == s@.len(),
            2 <= n,
            rfind2_from(s@, n as int - 2, c0, c1) == rfind2_from(s@, i as int - 1, c0, c1),
        decreases i,
    {
        if s.get_char(i - 1) == c0 && s.get_char(i) == c1 {
            return Some(i - 1);
        }
        i = i - 1;
    }
    None
}

/// First non-whitespace position in `s` at or after `from`.
pub fn str_skip_ws(s: &str, from: usize) -> (r: usize)
    requires
        from <= s@.len(),
    ensures
        r as int == skip_ws(s@, from as int),
        from <= r <= s@.len(),
{
    proof {
        lemma_skip_ws_props(s@, from as int);
    }
    let n = s.unicode_len();
    let mut i = from;
    while i < n && is_ws(s.get_char(i))
        invariant
            from <= i <= n,
            n == s@.len(),
            skip_ws(s@, from as int) == skip_ws(s@, i as int),
        decreases n - i,
    {
        i = i + 1;
    }
    i
}

/// `s` with leading and trailing ASCII whitespace removed.
pub fn str_trim(s: &str) -> (r: &str)
    ensures
        r@ == trim_seq(s@),
{
    let n = s.unicode_len();
    let a = str_skip_ws(s, 0);
    let mut b = n;
    while b > 0 && is_ws(s.get_char(b - 1))
        invariant
            b <= n,
            n == s@.len(),
            rskip_ws(s@, n as int - 1) == rskip_ws(s@, b as int - 1),
        decreases b,
    {
        b = b - 1;
    }
    proof {
        lemma_skip_ws_props(s@, 0);
        lemma_rskip_ws_props(s@, s@.len() - 1);
    }
    if a < b {
        s.substring_char(a, b)
    } else {
        let r = s.substring_char(0, 0);
        proof {
            assert(r@ =~= trim_seq(s@));
        }
        r
    }
}

/// Whether two characters agree up to ASCII case.
pub fn char_ci(a: char, b: char) -> (r: bool)
    ensures
        r == char_ci_eq(a, b),
{
    let au = a as u32;
    let bu = b as u32;
    a == b || (97 <= au && au <= 122 && au - 32 == bu) || (97 <= bu && bu <= 122 && bu - 32 == au)
}

/// Whether two strings are equal, character for character.
pub fn str_eq(a: &str, b: &str) -> (r: bool)
    ensures
        r == (a@ == b@),
{
    let na = a.unicode_len();
    let nb = b.unicode_len();
    if na != nb {
        return false;
    }
    let mut i: usize = 0;
    while i < na
        invariant
            i <= na,
            na == a@.len(),
            na == b@.len(),
            forall|j: int| 0 <= j < i ==> a@[j] == b@[j],
        decreases na - i,
    {
        if s_ne(a.get_char(i), b.get_char(i)) {
            return false;
        }
        i = i + 1;
    }
    proof {
        assert(a@ =~= b@);
    }
    true
}

/// Whether two characters differ.
fn s_ne(a: char, b: char) -> (r: bool)
    ensures
        r == (a != b),
{
    a != b
}

/// Whether two strings are equal up to ASCII case.
pub fn str_eq_ci(a: &str, b: &str) -> (r: bool)
    ensures
        r == ci_eq(a@, b@),
{
    let na = a.unicode_len();
    let nb = b.unicode_len();
    if na != nb {
        return false;
    }
    let mut i: usize = 0;
    while i < na
        invariant
            i <= na,
            na == a@.len(),
            na == b@.len(),
            forall|j: int| 0 <= j < i ==> char_ci_eq(a@[j], b@[j]),
        decreases na - i,
    {
        if !char_ci(a.get_char(i), b.get_char(i)) {
            return false;
        }
        i = i + 1;
    }
    true
}

/// The one-character string for the decimal digit `d`.
fn digit_str(d: usize) -> (r: &'static str)
    requires
        d < 10,
    ensures
        r@ == seq![digit_char(d as int)],
{
    proof {
        reveal_strlit("0");
        reveal_strlit("1");
        reveal_strlit("2");
        reveal_strlit("3");
        reveal_strlit("4");
        reveal_strlit("5");
        reveal_strlit("6");
        reveal_strlit("7");
        reveal_strlit("8");
        reveal_strlit("9");
    }
    let r = if d == 0 {
        "0"
    } else if d == 1 {
        "1"
    } else if d == 2 {
        "2"
    } else if d == 3 {
        "3"
    } else if d == 4 {
        "4"
    } else if d == 5 {
        "5"
    } else if d == 6 {
        "6"
    } else if d == 7 {
        "7"
    } else if d == 8 {
        "8"
    } else {
        "9"
    };
    proof {
        assert(r@ =~= seq![digit_char(d as int)]);
    }
    r
}

/// The decimal rendering of `n`.
pub fn usize_to_string(n: usize) -> (r: String)
    ensures
        r@ == dec_str(n as int),
    decreases n,
{
    if n < 10 {
        let r = String::from_str(digit_str(n));
        r
    } else {
        let mut s = usize_to_string(n / 10);
        s.append(digit_str(n % 10));
        proof {
            assert(s@ =~= dec_str(n as int));
        }
        s
    }
}

} // verus!
