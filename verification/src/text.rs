//! Small string utilities shared by the naming and capture modules:
//! building strings character by character, decimal rendering of integers,
//! whitespace trimming, and substring search.

use vstd::prelude::*;

verus! {

/// Relies on String::push: appends exactly one character at the end.
#[verifier::external_body]
pub(crate) fn push_char(s: &mut String, c: char)
    ensures
        final(s)@ == old(s)@.push(c),
{
    s.push(c)
}

/// The decimal digit character for a value below ten.
pub open spec fn digit_char(d: nat) -> char {
    if d == 0 {
        '0'
    } else if d == 1 {
        '1'
    } else if d == 2 {
        '2'
    } else if d == 3 {
        '3'
    } else if d == 4 {
        '4'
    } else if d == 5 {
        '5'
    } else if d == 6 {
        '6'
    } else if d == 7 {
        '7'
    } else if d == 8 {
        '8'
    } else {
        '9'
    }
}

/// The usual decimal rendering of a natural number, most significant digit first.
pub open spec fn dec_str(n: nat) -> Seq<char>
    decreases n,
{
    if n < 10 {
        seq![digit_char(n)]
    } else {
        dec_str(n / 10).push(digit_char(n % 10))
    }
}

fn digit_to_char(d: u64) -> (c: char)
    requires
        d < 10,
    ensures
        c == digit_char(d as nat),
{
    if d == 0 {
        '0'
    } else if d == 1 {
        '1'
    } else if d == 2 {
        '2'
    } else if d == 3 {
        '3'
    } else if d == 4 {
        '4'
    } else if d == 5 {
        '5'
    } else if d == 6 {
        '6'
    } else if d == 7 {
        '7'
    } else if d == 8 {
        '8'
    } else {
        '9'
    }
}

/// Renders an unsigned number in decimal.
pub fn u64_to_string(n: u64) -> (r: String)
    ensures
        r@ == dec_str(n as nat),
    decreases n,
{
    if n < 10 {
        let mut s = String::new();
        let c = digit_to_char(n);
        push_char(&mut s, c);
        proof {
            assert(s@ =~= seq![digit_char(n as nat)]);
        }
        s
    } else {
        let mut s = u64_to_string(n / 10);
        let c = digit_to_char(n % 10);
        push_char(&mut s, c);
        s
    }
}

/// A whitespace character — the Unicode `White_Space` set, the same
/// characters the standard library's trimming removes.
pub open spec fn is_space(c: char) -> bool {
    let n = c as int;
    (9 <= n && n <= 13) || n == 32 || n == 0x85 || n == 0xa0 || n == 0x1680 || (0x2000 <= n && n
        <= 0x200a) || n == 0x2028 || n == 0x2029 || n == 0x202f || n == 0x205f || n == 0x3000
}

fn is_space_exec(c: char) -> (r: bool)
    ensures
        r == is_space(c),
{
    let n = c as u32;
    (9 <= n && n <= 13) || n == 32 || n == 0x85 || n == 0xa0 || n == 0x1680 || (0x2000 <= n && n
        <= 0x200a) || n == 0x2028 || n == 0x2029 || n == 0x202f || n == 0x205f || n == 0x3000
}

/// The sequence with its leading whitespace removed.
pub open spec fn trim_front(s: Seq<char>) -> Seq<char>
    decreases s.len(),
{
    if s.len() > 0 && is_space(s[0]) {
        trim_front(s.drop_first())
    } else {
        s
    }
}

/// The sequence with its trailing whitespace removed.
pub open spec fn trim_back(s: Seq<char>) -> Seq<char>
    decreases s.len(),
{
    if s.len() > 0 && is_space(s.last()) {
        trim_back(s.drop_last())
    } else {
        s
    }
}

/// The sequence with whitespace removed on both ends.
pub open spec fn trim_chars(s: Seq<char>) -> Seq<char> {
    trim_back(trim_front(s))
}

proof fn lemma_trim_front_at(s: Seq<char>, k: int)
    requires
        0 <= k <= s.len(),
        forall|i: int| 0 <= i < k ==> is_space(s[i]),
        k < s.len() ==> !is_space(s[k]),
    ensures
        trim_front(s) == s.subrange(k, s.len() as int),
    decreases k,
{
    if k == 0 {
        assert(s.subrange(0, s.len() as int) =~= s);
    } else {
        let d = s.drop_first();
        lemma_trim_front_at(d, k - 1);
        assert(d.subrange(k - 1, d.len() as int) =~= s.subrange(k, s.len() as int));
    }
}

proof fn lemma_trim_back_at(s: Seq<char>, m: int)
    requires
        0 <= m <= s.len(),
        forall|i: int| m <= i < s.len() ==> is_space(s[i]),
        m > 0 ==> !is_space(s[m - 1]),
    ensures
        trim_back(s) == s.subrange(0, m),
    decreases s.len(),
{
    if m == s.len() {
        if s.len() > 0 && is_space(s.last()) {
            let d = s.drop_last();
            lemma_trim_back_at(d, m - 1);
            assert(d.subrange(0, m - 1) =~= s.subrange(0, m - 1));
            assert(s.subrange(0, m - 1) =~= s.subrange(0, m).drop_last());
            assert(trim_back(s.subrange(0, m)) == s.subrange(0, m)) by {
                if m > 0 && is_space(s.subrange(0, m).last()) {
                    assert(s.subrange(0, m).last() == s[m - 1]);
                    assert(false);
                }
            }
            assert(s.subrange(0, m - 1) =~= s.subrange(0, m - 1));
            assert(trim_back(s) == trim_back(d));
            assert(trim_back(d) == d.subrange(0, m - 1));
            assert(d.subrange(0, m - 1) =~= s.subrange(0, m));
        } else {
            assert(s.subrange(0, m) =~= s);
        }
    } else {
        // m < s.len(), so the last character is whitespace and is dropped.
        let d = s.drop_last();
        lemma_trim_back_at(d, m);
        assert(d.subrange(0, m) =~= s.subrange(0, m));
    }
}

/// Copies the characters of a string with leading and trailing
/// ASCII whitespace removed.
pub fn trim_str(s: &str) -> (r: String)
    ensures
        r@ == trim_chars(s@),
{
    let len = s.unicode_len();
    let mut a: usize = 0;
    while a < len && is_space_exec(s.get_char(a))
        invariant
            a <= len,
            len == s@.len(),
            forall|i: int| 0 <= i < a ==> is_space(s@[i]),
        decreases len - a,
    {
        a = a + 1;
    }
    proof {
        lemma_trim_front_at(s@, a as int);
    }
    if a == len {
        let r = String::new();
        proof {
            assert(trim_front(s@) =~= Seq::<char>::empty());
            assert(trim_chars(s@) =~= Seq::<char>::empty());
        }
        return r;
    }
    let mut b: usize = len;
    while b > a && is_space_exec(s.get_char(b - 1))
        invariant
            a <= b <= len,
            len == s@.len(),
            a < len,
            !is_space(s@[a as int]),
            forall|i: int| b <= i < len ==> is_space(s@[i]),
        decreases b,
    {
        b = b - 1;
    }
    proof {
        if b == a {
            assert(is_space(s@[a as int]));
        }
        assert(b > a);
        let t = s@.subrange(a as int, len as int);
        lemma_trim_back_at(t, b - a);
        assert(t.subrange(0, b - a) =~= s@.subrange(a as int, b as int));
    }
    let sub = s.substring_char(a, b);
    String::from_str(sub)
}

/// An exact occurrence of `p` inside `t` at position `i`.
pub open spec fn match_at(t: Seq<char>, p: Seq<char>, i: int) -> bool {
    &&& 0 <= i
    &&& i + p.len() <= t.len()
    &&& forall|j: int| 0 <= j < p.len() ==> t[i + j] == p[j]
}

/// The rightmost occurrence of `p` at a position below `n`, if any.
pub open spec fn rfind_upto(t: Seq<char>, p: Seq<char>, n: nat) -> Option<nat>
    decreases n,
{
    if n == 0 {
        None
    } else if match_at(t, p, n - 1) {
        Some((n - 1) as nat)
    } else {
        rfind_upto(t, p, (n - 1) as nat)
    }
}

/// The rightmost occurrence of `p` inside `t`, if any.
pub open spec fn rfind(t: Seq<char>, p: Seq<char>) -> Option<nat> {
    if p.len() <= t.len() {
        rfind_upto(t, p, (t.len() - p.len() + 1) as nat)
    } else {
        None
    }
}

proof fn lemma_rfind_upto_some(t: Seq<char>, p: Seq<char>, n: nat, i: nat)
    requires
        rfind_upto(t, p, n) == Some(i),
    ensures
        match_at(t, p, i as int),
        i < n,
        forall|k: int| i < k < n ==> !match_at(t, p, k),
    decreases n,
{
    if n > 0 && !match_at(t, p, n - 1) {
        lemma_rfind_upto_some(t, p, (n - 1) as nat, i);
    }
}

proof fn lemma_rfind_upto_none(t: Seq<char>, p: Seq<char>, n: nat)
    requires
        rfind_upto(t, p, n) is None,
    ensures
        forall|k: int| 0 <= k < n ==> !match_at(t, p, k),
    decreases n,
{
    if n > 0 {
        lemma_rfind_upto_none(t, p, (n - 1) as nat);
    }
}

/// What a successful rightmost search means: a match there, and none to its right.
pub proof fn lemma_rfind_some(t: Seq<char>, p: Seq<char>, i: nat)
    requires
        rfind(t, p) == Some(i),
    ensures
        match_at(t, p, i as int),
        i + p.len() <= t.len(),
        forall|k: int| i < k ==> !match_at(t, p, k),
{
    lemma_rfind_upto_some(t, p, (t.len() - p.len() + 1) as nat, i);
    assert forall|k: int| i < k implies !match_at(t, p, k) by {
        if match_at(t, p, k) {
            assert(k + p.len() <= t.len());
        }
    }
}

fn str_match_at(t: &str, p: &str, i: usize) -> (r: bool)
    requires
        i + p@.len() <= t@.len(),
        t@.len() <= usize::MAX,
    ensures
        r == match_at(t@, p@, i as int),
{
    let pl = p.unicode_len();
    let mut j: usize = 0;
    while j < pl
        invariant
            j <= pl,
            pl == p@.len(),
            i + pl <= t@.len(),
            t@.len() <= usize::MAX,
            forall|q: int| 0 <= q < j ==> t@[i + q] == p@[q],
        decreases pl - j,
    {
        if t.get_char(i + j) != p.get_char(j) {
            return false;
        }
        j = j + 1;
    }
    true
}

/// Finds the rightmost occurrence of `p` inside `t`.
pub fn str_rfind(t: &str, p: &str) -> (r: Option<usize>)
    ensures
        match r {
            Some(i) => rfind(t@, p@) == Some(i as nat),
            None => rfind(t@, p@) is None,
        },
{
    let tl = t.unicode_len();
    let pl = p.unicode_len();
    if pl > tl {
        return None;
    }
    if pl == 0 {
        proof {
            assert(match_at(t@, p@, tl as int));
            assert(rfind_upto(t@, p@, (tl + 1) as nat) == Some(tl as nat));
        }
        return Some(tl);
    }
    let mut n: usize = tl - pl + 1;
    while n > 0
        invariant
            n <= tl - pl + 1,
            tl == t@.len(),
            pl == p@.len(),
            pl <= tl,
            rfind(t@, p@) == rfind_upto(t@, p@, n as nat),
        decreases n,
    {
        if str_match_at(t, p, n - 1) {
            return Some(n - 1);
        }
        n = n - 1;
    }
    None
}

/// ASCII case folding of a character's code point.
pub open spec fn lower_code(c: char) -> int {
    if 'A' <= c && c <= 'Z' {
        c as int + 32
    } else {
        c as int
    }
}

/// Equality of two characters up to ASCII case.
pub open spec fn eq_ci(a: char, b: char) -> bool {
    lower_code(a) == lower_code(b)
}

fn char_eq_ci(a: char, b: char) -> (r: bool)
    ensures
        r == eq_ci(a, b),
{
    let ac = a as u32;
    let bc = b as u32;
    let al = if 65 <= ac && ac <= 90 {
        ac + 32
    } else {
        ac
    };
    let bl = if 65 <= bc && bc <= 90 {
        bc + 32
    } else {
        bc
    };
    al == bl
}

/// An occurrence of `p` inside `t` at position `i`, up to ASCII case.
pub open spec fn match_ci_at(t: Seq<char>, p: Seq<char>, i: int) -> bool {
    &&& 0 <= i
    &&& i + p.len() <= t.len()
    &&& forall|j: int| 0 <= j < p.len() ==> eq_ci(t[i + j], p[j])
}

/// Whether `p` occurs anywhere inside `t`, up to ASCII case.
pub open spec fn contains_ci(t: Seq<char>, p: Seq<char>) -> bool {
    exists|i: int| match_ci_at(t, p, i)
}

fn str_match_ci_at(t: &str, p: &str, i: usize) -> (r: bool)
    requires
        i + p@.len() <= t@.len(),
        t@.len() <= usize::MAX,
    ensures
        r == match_ci_at(t@, p@, i as int),
{
    let pl = p.unicode_len();
    let mut j: usize = 0;
    while j < pl
        invariant
            j <= pl,
            pl == p@.len(),
            i + pl <= t@.len(),
            t@.len() <= usize::MAX,
            forall|q: int| 0 <= q < j ==> eq_ci(t@[i + q], p@[q]),
        decreases pl - j,
    {
        if !char_eq_ci(t.get_char(i + j), p.get_char(j)) {
            return false;
        }
        j = j + 1;
    }
    true
}

/// Whether `p` occurs anywhere inside `t`, comparing characters
/// without regard to ASCII case.
pub fn str_contains_ci(t: &str, p: &str) -> (r: bool)
    ensures
        r == contains_ci(t@, p@),
{
    let tl = t.unicode_len();
    let pl = p.unicode_len();
    if pl > tl {
        proof {
            assert forall|i: int| !match_ci_at(t@, p@, i) by {}
        }
        return false;
    }
    if pl == 0 {
        proof {
            assert(match_ci_at(t@, p@, 0));
        }
        return true;
    }
    let mut i: usize = 0;
    while i <= tl - pl
        invariant
            tl == t@.len(),
            pl == p@.len(),
            0 < pl <= tl,
            i <= tl - pl + 1,
            forall|k: int| 0 <= k < i ==> !match_ci_at(t@, p@, k),
        decreases tl - i,
    {
        if str_match_ci_at(t, p, i) {
            proof {
                assert(match_ci_at(t@, p@, i as int));
            }
            return true;
        }
        i = i + 1;
    }
    proof {
        assert forall|k: int| !match_ci_at(t@, p@, k) by {
            if 0 <= k < i {
            }
        }
    }
    false
}

} // verus!
