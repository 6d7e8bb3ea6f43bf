//! Character-level text operations used by the parsers, with their specifications.
use vstd::prelude::*;

verus! {

/// Unicode `White_Space` characters, as `char::is_whitespace` defines them.
pub open spec fn is_ws(c: char) -> bool {
    let n = c as u32;
    (0x9 <= n && n <= 0xd) || n == 0x20 || n == 0x85 || n == 0xa0 || n == 0x1680 || (0x2000 <= n
        && n <= 0x200a) || n == 0x2028 || n == 0x2029 || n == 0x202f || n == 0x205f || n == 0x3000
}

pub fn char_is_ws(c: char) -> (r: bool)
    ensures
        r == is_ws(c),
{
    let n = c as u32;
    (0x9 <= n && n <= 0xd) || n == 0x20 || n == 0x85 || n == 0xa0 || n == 0x1680 || (0x2000 <= n
        && n <= 0x200a) || n == 0x2028 || n == 0x2029 || n == 0x202f || n == 0x205f || n == 0x3000
}

/// Number of leading whitespace characters.
pub open spec fn lead_ws(s: Seq<char>) -> nat
    decreases s.len(),
{
    if s.len() > 0 && is_ws(s[0]) {
        1 + lead_ws(s.drop_first())
    } else {
        0
    }
}

/// Number of trailing whitespace characters.
pub open spec fn trail_ws(s: Seq<char>) -> nat
    decreases s.len(),
{
    if s.len() > 0 && is_ws(s.last()) {
        1 + trail_ws(s.drop_last())
    } else {
        0
    }
}

pub open spec fn trim_start(s: Seq<char>) -> Seq<char> {
    s.skip(lead_ws(s) as int)
}

pub open spec fn trim_end(s: Seq<char>) -> Seq<char> {
    s.take(s.len() - trail_ws(s))
}

/// `str::trim`: leading and trailing whitespace removed.
pub open spec fn trim(s: Seq<char>) -> Seq<char> {
    trim_end(trim_start(s))
}

/// First index of `c` in `s`.
#[verifier::opaque]
pub open spec fn find_char(s: Seq<char>, c: char) -> Option<int> {
    if exists|i: int| 0 <= i < s.len() && s[i] == c {
        Some(choose|i: int| 0 <= i < s.len() && s[i] == c && forall|j: int| 0 <= j < i ==> s[j] != c)
    } else {
        None
    }
}

/// `t` occurs in `s` starting at index `i`.
pub open spec fn occurs_at(s: Seq<char>, t: Seq<char>, i: int) -> bool {
    0 <= i && i + t.len() <= s.len() && s.subrange(i, i + t.len()) == t
}

/// First index at which `t` occurs in `s`.
#[verifier::opaque]
pub open spec fn find_str(s: Seq<char>, t: Seq<char>) -> Option<int> {
    if exists|i: int| occurs_at(s, t, i) {
        Some(choose|i: int| occurs_at(s, t, i) && forall|j: int| 0 <= j < i ==> !occurs_at(s, t, j))
    } else {
        None
    }
}

pub open spec fn contains_str(s: Seq<char>, t: Seq<char>) -> bool {
    exists|i: int| occurs_at(s, t, i)
}

pub open spec fn starts_with(s: Seq<char>, t: Seq<char>) -> bool {
    t.len() <= s.len() && s.take(t.len() as int) == t
}

/// Strict lexicographic order by code point (the order of `str`'s `Ord`).
pub open spec fn lex_lt(a: Seq<char>, b: Seq<char>) -> bool
    decreases a.len(),
{
    if b.len() == 0 {
        false
    } else if a.len() == 0 {
        true
    } else if a[0] != b[0] {
        a[0] < b[0]
    } else {
        lex_lt(a.drop_first(), b.drop_first())
    }
}

pub proof fn lemma_lex_irrefl(a: Seq<char>)
    ensures
        !lex_lt(a, a),
    decreases a.len(),
{
    if a.len() > 0 {
        lemma_lex_irrefl(a.drop_first());
    }
}

pub proof fn lemma_lex_trans(a: Seq<char>, b: Seq<char>, c: Seq<char>)
    requires
        lex_lt(a, b),
        lex_lt(b, c),
    ensures
        lex_lt(a, c),
    decreases a.len(),
{
    if a.len() > 0 && b.len() > 0 && c.len() > 0 && a[0] == b[0] && b[0] == c[0] {
        lemma_lex_trans(a.drop_first(), b.drop_first(), c.drop_first());
    }
}

pub proof fn lemma_lex_total(a: Seq<char>, b: Seq<char>)
    ensures
        lex_lt(a, b) || lex_lt(b, a) || a == b,
    decreases a.len(),
{
    if a.len() > 0 && b.len() > 0 && a[0] == b[0] {
        lemma_lex_total(a.drop_first(), b.drop_first());
        if a.drop_first() == b.drop_first() {
            assert(a =~= seq![a[0]] + a.drop_first());
            assert(b =~= seq![b[0]] + b.drop_first());
        }
    } else if a.len() == 0 && b.len() == 0 {
        assert(a =~= b);
    }
}

pub proof fn lemma_lex_asym(a: Seq<char>, b: Seq<char>)
    requires
        lex_lt(a, b),
    ensures
        !lex_lt(b, a),
{
    if lex_lt(b, a) {
        lemma_lex_trans(a, b, a);
        lemma_lex_irrefl(a);
    }
}

/// Number of characters.
pub fn char_len(s: &str) -> (n: usize)
    ensures
        n == s@.len(),
{
    s.unicode_len()
}

/// The characters of `s` from `from` to `to`.
pub fn slice(s: &str, from: usize, to: usize) -> (r: &str)
    requires
        from <= to <= s@.len(),
    ensures
        r@ == s@.subrange(from as int, to as int),
{
    s.substring_char(from, to)
}

pub fn to_owned_string(s: &str) -> (r: String)
    ensures
        r@ == s@,
{
    s.to_string()
}

/// Two strings hold the same characters.
pub fn str_eq(a: &str, b: &str) -> (r: bool)
    ensures
        r == (a@ == b@),
{
    let n = char_len(a);
    if n != char_len(b) {
        return false;
    }
    let mut i: usize = 0;
    while i < n
        invariant
            n == a@.len(),
            n == b@.len(),
            i <= n,
            forall|k: int| 0 <= k < i ==> a@[k] == b@[k],
        decreases n - i,
    {
        if a.get_char(i) != b.get_char(i) {
            return false;
        }
        i = i + 1;
    }
    assert(a@ =~= b@);
    true
}

proof fn lemma_lead_ws_bound(s: Seq<char>)
    ensures
        lead_ws(s) <= s.len(),
        forall|k: int| 0 <= k < lead_ws(s) ==> is_ws(#[trigger] s[k]),
        lead_ws(s) < s.len() ==> !is_ws(s[lead_ws(s) as int]),
    decreases s.len(),
{
    if s.len() > 0 && is_ws(s[0]) {
        lemma_lead_ws_bound(s.drop_first());
        assert forall|k: int| 0 <= k < lead_ws(s) implies is_ws(#[trigger] s[k]) by {
            if k > 0 {
                assert(s[k] == s.drop_first()[k - 1]);
            }
        }
    }
}

proof fn lemma_lead_ws_is(s: Seq<char>, i: int)
    requires
        0 <= i <= s.len(),
        forall|k: int| 0 <= k < i ==> is_ws(#[trigger] s[k]),
        i < s.len() ==> !is_ws(s[i]),
    ensures
        lead_ws(s) == i,
    decreases s.len(),
{
    if i > 0 {
        assert forall|k: int| 0 <= k < i - 1 implies is_ws(#[trigger] s.drop_first()[k]) by {
            assert(s.drop_first()[k] == s[k + 1]);
        }
        lemma_lead_ws_is(s.drop_first(), i - 1);
    }
}

proof fn lemma_trail_ws_is(s: Seq<char>, j: int)
    requires
        0 <= j <= s.len(),
        forall|k: int| j <= k < s.len() ==> is_ws(#[trigger] s[k]),
        j > 0 ==> !is_ws(s[j - 1]),
    ensures
        trail_ws(s) == s.len() - j,
    decreases s.len(),
{
    if j < s.len() {
        assert forall|k: int| j <= k < s.len() - 1 implies is_ws(#[trigger] s.drop_last()[k]) by {
            assert(s.drop_last()[k] == s[k]);
        }
        lemma_trail_ws_is(s.drop_last(), j);
    }
}

/// `str::trim` at character level.
pub fn trim_str(s: &str) -> (r: &str)
    ensures
        r@ == trim(s@),
{
    let n = char_len(s);
    let mut i: usize = 0;
    while i < n && char_is_ws(s.get_char(i))
        invariant
            n == s@.len(),
            i <= n,
            forall|k: int| 0 <= k < i ==> is_ws(#[trigger] s@[k]),
        decreases n - i,
    {
        i = i + 1;
    }
    proof {
        lemma_lead_ws_is(s@, i as int);
    }
    let mut j: usize = n;
    while j > i && char_is_ws(s.get_char(j - 1))
        invariant
            n == s@.len(),
            i <= j <= n,
            forall|k: int| j <= k < n ==> is_ws(#[trigger] s@[k]),
        decreases j,
    {
        j = j - 1;
    }
    let ghost t = trim_start(s@);
    proof {
        assert(t =~= s@.subrange(i as int, n as int));
        assert forall|k: int| j - i <= k < t.len() implies is_ws(#[trigger] t[k]) by {
            assert(t[k] == s@[k + i]);
        }
        if j > i {
            assert(t[j - i - 1] == s@[j - 1]);
        }
        lemma_trail_ws_is(t, j - i);
        assert(trim(s@) =~= s@.subrange(i as int, j as int));
    }
    slice(s, i, j)
}

/// First index of `c` in `s`.
pub fn find_char_in(s: &str, c: char) -> (r: Option<usize>)
    ensures
        match r {
            Some(i) => find_char(s@, c) == Some(i as int),
            None => find_char(s@, c) is None,
        },
{
    reveal(find_char);
    let n = char_len(s);
    let mut i: usize = 0;
    while i < n
        invariant
            n == s@.len(),
            i <= n,
            forall|k: int| 0 <= k < i ==> s@[k] != c,
        decreases n - i,
    {
        if s.get_char(i) == c {
            proof {
                reveal(find_char);
                let w = choose|w: int| 0 <= w < s@.len() && s@[w] == c && forall|j: int| 0 <= j < w ==> s@[j] != c;
                assert(w == i as int) by {
                    if w < i {
                    } else if w > i {
                        assert(s@[i as int] == c);
                    }
                }
            }
            return Some(i);
        }
        i = i + 1;
    }
    None
}

/// Does `t` occur in `s` at index `i`?
pub fn occurs_at_exec(s: &str, t: &str, i: usize) -> (r: bool)
    ensures
        r == occurs_at(s@, t@, i as int),
{
    let n = char_len(s);
    let m = char_len(t);
    if i > n || m > n - i {
        return false;
    }
    let mut k: usize = 0;
    while k < m
        invariant
            n == s@.len(),
            m == t@.len(),
            i + m <= n,
            k <= m,
            forall|q: int| 0 <= q < k ==> s@[i + q] == t@[q],
        decreases m - k,
    {
        if s.get_char(i + k) != t.get_char(k) {
            assert(s@.subrange(i as int, i + m)[k as int] != t@[k as int]);
            return false;
        }
        k = k + 1;
    }
    assert(s@.subrange(i as int, i + m) =~= t@);
    true
}

/// First index at which `t` occurs in `s`.
pub fn find_str_in(s: &str, t: &str) -> (r: Option<usize>)
    ensures
        match r {
            Some(i) => find_str(s@, t@) == Some(i as int),
            None => find_str(s@, t@) is None,
        },
{
    reveal(find_str);
    let n = char_len(s);
    let mut i: usize = 0;
    while i < n
        invariant
            n == s@.len(),
            i <= n,
            forall|k: int| 0 <= k < i ==> !occurs_at(s@, t@, k),
        decreases n - i,
    {
        if occurs_at_exec(s, t, i) {
            proof {
                reveal(find_str);
                let w = choose|w: int| occurs_at(s@, t@, w) && forall|j: int| 0 <= j < w ==> !occurs_at(s@, t@, j);
                assert(w == i as int) by {
                    if w > i {
                        assert(occurs_at(s@, t@, i as int));
                    }
                }
            }
            return Some(i);
        }
        i = i + 1;
    }
    if occurs_at_exec(s, t, n) {
        proof {
            let w = choose|w: int| occurs_at(s@, t@, w) && forall|j: int| 0 <= j < w ==> !occurs_at(s@, t@, j);
            assert(w == n as int) by {
                if w > n {
                    assert(occurs_at(s@, t@, n as int));
                }
            }
        }
        return Some(n);
    }
    assert(forall|k: int| !occurs_at(s@, t@, k));
    None
}

pub fn contains_exec(s: &str, t: &str) -> (r: bool)
    ensures
        r == contains_str(s@, t@),
{
    reveal(find_str);
    match find_str_in(s, t) {
        Some(_) => true,
        None => false,
    }
}

pub fn starts_with_exec(s: &str, t: &str) -> (r: bool)
    ensures
        r == starts_with(s@, t@),
{
    let r = occurs_at_exec(s, t, 0);
    proof {
        if r {
            assert(s@.take(t@.len() as int) =~= s@.subrange(0, t@.len() as int));
        } else if starts_with(s@, t@) {
            assert(s@.take(t@.len() as int) =~= s@.subrange(0, t@.len() as int));
        }
    }
    r
}

/// Strict lexicographic comparison by code point.
pub fn str_lt(a: &str, b: &str) -> (r: bool)
    ensures
        r == lex_lt(a@, b@),
{
    let n = char_len(a);
    let m = char_len(b);
    let mut i: usize = 0;
    assert(a@.skip(0) =~= a@);
    assert(b@.skip(0) =~= b@);
    while i < n && i < m
        invariant
            n == a@.len(),
            m == b@.len(),
            i <= n,
            i <= m,
            lex_lt(a@, b@) == lex_lt(a@.skip(i as int), b@.skip(i as int)),
        decreases n - i,
    {
        let x = a.get_char(i);
        let y = b.get_char(i);
        if x != y {
            assert(a@.skip(i as int)[0] == x);
            assert(b@.skip(i as int)[0] == y);
            return x < y;
        }
        assert(a@.skip(i as int).drop_first() =~= a@.skip(i as int + 1));
        assert(b@.skip(i as int).drop_first() =~= b@.skip(i as int + 1));
        i = i + 1;
    }
    i < m
}

pub proof fn lemma_find_char_bound(s: Seq<char>, c: char)
    ensures
        find_char(s, c) matches Some(i) ==> 0 <= i < s.len() && s[i] == c,
{
    reveal(find_char);
    if exists|i: int| 0 <= i < s.len() && s[i] == c {
        let w = choose|i: int| 0 <= i < s.len() && s[i] == c;
        let v = choose|i: int| 0 <= i < s.len() && s[i] == c && forall|j: int| 0 <= j < i ==> s[j] != c;
        // the first occurrence exists
        assert(exists|i: int| 0 <= i < s.len() && s[i] == c && forall|j: int| 0 <= j < i ==> s[j] != c) by {
            lemma_first_occurrence(s, c, w);
        }
    }
}

pub proof fn lemma_first_occurrence(s: Seq<char>, c: char, w: int)
    requires
        0 <= w < s.len(),
        s[w] == c,
    ensures
        exists|i: int| 0 <= i < s.len() && s[i] == c && forall|j: int| 0 <= j < i ==> s[j] != c,
    decreases w,
{
    if exists|j: int| 0 <= j < w && s[j] == c {
        let j = choose|j: int| 0 <= j < w && s[j] == c;
        lemma_first_occurrence(s, c, j);
    } else {
        assert(forall|j: int| 0 <= j < w ==> s[j] != c);
    }
}

/// Every character is an ASCII decimal digit.
pub open spec fn all_digits(s: Seq<char>) -> bool {
    forall|i: int| 0 <= i < s.len() ==> '0' <= #[trigger] s[i] && s[i] <= '9'
}

/// The number a string of decimal digits spells.
pub open spec fn digits_value(s: Seq<char>) -> nat
    decreases s.len(),
{
    if s.len() == 0 {
        0
    } else {
        digits_value(s.drop_last()) * 10 + ((s.last() as u32) - 48) as nat
    }
}

/// `u32::from_str`: an optional `+`, then one or more decimal digits whose
/// value fits in a `u32`.
pub open spec fn parse_u32_spec(s: Seq<char>) -> Option<u32> {
    let body = if s.len() > 0 && s[0] == '+' {
        s.drop_first()
    } else {
        s
    };
    if body.len() == 0 || !all_digits(body) || digits_value(body) > u32::MAX {
        None
    } else {
        Some(digits_value(body) as u32)
    }
}

proof fn lemma_digits_value_mono(s: Seq<char>, k: int)
    requires
        0 <= k <= s.len(),
        all_digits(s),
    ensures
        digits_value(s.take(k)) <= digits_value(s),
    decreases s.len() - k,
{
    if k < s.len() {
        lemma_digits_value_mono(s, k + 1);
        assert(s.take(k + 1).drop_last() =~= s.take(k));
    } else {
        assert(s.take(k) =~= s);
    }
}

/// `from_str` of an unsigned integer type whose largest value is `max`: an
/// optional `+`, then one or more decimal digits whose value is at most `max`.
pub open spec fn parse_uint_spec(s: Seq<char>, max: nat) -> Option<nat> {
    let body = if s.len() > 0 && s[0] == '+' {
        s.drop_first()
    } else {
        s
    };
    if body.len() == 0 || !all_digits(body) || digits_value(body) > max {
        None
    } else {
        Some(digits_value(body))
    }
}

fn parse_bounded(s: &str, max: u64) -> (r: Option<u64>)
    ensures
        match r {
            Some(v) => parse_uint_spec(s@, max as nat) == Some(v as nat),
            None => parse_uint_spec(s@, max as nat) is None,
        },
{
    let n = char_len(s);
    let mut start: usize = 0;
    if n > 0 && s.get_char(0) == '+' {
        start = 1;
    }
    let ghost body = if s@.len() > 0 && s@[0] == '+' {
        s@.drop_first()
    } else {
        s@
    };
    assert(body =~= s@.subrange(start as int, n as int));
    if start == n {
        return None;
    }
    let mut acc: u128 = 0;
    let mut i: usize = start;
    while i < n
        invariant
            n == s@.len(),
            start <= i <= n,
            start < n,
            body == s@.subrange(start as int, n as int),
            body == (if s@.len() > 0 && s@[0] == '+' {
                s@.drop_first()
            } else {
                s@
            }),
            all_digits(body.take(i - start)),
            acc == digits_value(body.take(i - start)),
            acc <= max,
        decreases n - i,
    {
        let c = s.get_char(i);
        assert(body[i - start] == c);
        if c < '0' || c > '9' {
            proof {
                assert(!('0' <= body[i - start] && body[i - start] <= '9'));
                assert(!all_digits(body));
            }
            return None;
        }
        let d = (c as u32 - 48) as u128;
        assert(body.take(i - start + 1).drop_last() =~= body.take(i - start));
        assert(body.take(i - start + 1).last() == c);
        acc = acc * 10 + d;
        assert(all_digits(body.take(i - start + 1))) by {
            assert forall|k: int| 0 <= k < i - start + 1 implies '0' <= #[trigger] body.take(i - start + 1)[k]
                && body.take(i - start + 1)[k] <= '9' by {
                if k < i - start {
                    assert(body.take(i - start + 1)[k] == body.take(i - start)[k]);
                }
            }
        }
        assert(acc == digits_value(body.take(i - start + 1)));
        if acc > max as u128 {
            proof {
                if all_digits(body) {
                    lemma_digits_value_mono(body, i - start + 1);
                }
            }
            return None;
        }
        i = i + 1;
    }
    assert(body.take(n - start) =~= body);
    Some(acc as u64)
}

/// Decimal parse of a `u32`, as `str::parse::<u32>` does it.
pub fn parse_u32(s: &str) -> (r: Option<u32>)
    ensures
        r == parse_u32_spec(s@),
{
    match parse_bounded(s, 4294967295) {
        Some(v) => Some(v as u32),
        None => None,
    }
}

/// Decimal parse of a `u16`, as `str::parse::<u16>` does it.
pub fn parse_u16(s: &str) -> (r: Option<u16>)
    ensures
        match r {
            Some(v) => parse_uint_spec(s@, u16::MAX as nat) == Some(v as nat),
            None => parse_uint_spec(s@, u16::MAX as nat) is None,
        },
{
    match parse_bounded(s, 65535) {
        Some(v) => Some(v as u16),
        None => None,
    }
}

/// Decimal parse of a `usize`, as `str::parse::<usize>` does it.
pub fn parse_usize(s: &str) -> (r: Option<usize>)
    ensures
        match r {
            Some(v) => parse_uint_spec(s@, usize::MAX as nat) == Some(v as nat),
            None => parse_uint_spec(s@, usize::MAX as nat) is None,
        },
{
    match parse_bounded(s, usize::MAX as u64) {
        Some(v) => Some(v as usize),
        None => None,
    }
}

proof fn lemma_first_occurs(s: Seq<char>, t: Seq<char>, w: int)
    requires
        occurs_at(s, t, w),
    ensures
        exists|i: int| occurs_at(s, t, i) && forall|j: int| 0 <= j < i ==> !occurs_at(s, t, j),
    decreases w,
{
    if exists|j: int| 0 <= j < w && occurs_at(s, t, j) {
        let j = choose|j: int| 0 <= j < w && occurs_at(s, t, j);
        lemma_first_occurs(s, t, j);
    }
}

/// Where `find_str` finds `t`, `t` occurs.
pub proof fn lemma_find_str_bound(s: Seq<char>, t: Seq<char>)
    ensures
        find_str(s, t) matches Some(i) ==> occurs_at(s, t, i),
{
    reveal(find_str);
    if exists|i: int| occurs_at(s, t, i) {
        let w = choose|i: int| occurs_at(s, t, i);
        lemma_first_occurs(s, t, w);
    }
}

} // verus!
