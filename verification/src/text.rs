//! Small text utilities shared by validation and message building.

use vstd::prelude::*;
use vstd::string::*;
use vstd::std_specs::iter::IteratorSpec;

verus! {

/// Whether `c` is white space: one of the code points that bear the
/// Unicode property `White_Space`.
pub open spec fn is_white_space(c: char) -> bool {
    ('\u{9}' <= c && c <= '\u{d}') || c == ' ' || c == '\u{85}' || c == '\u{a0}' || c
        == '\u{1680}' || ('\u{2000}' <= c && c <= '\u{200a}') || c == '\u{2028}' || c
        == '\u{2029}' || c == '\u{202f}' || c == '\u{205f}' || c == '\u{3000}'
}

/// Decides [`is_white_space`].
pub fn white_space(c: char) -> (r: bool)
    ensures
        r == is_white_space(c),
{
    ('\u{9}' <= c && c <= '\u{d}') || c == ' ' || c == '\u{85}' || c == '\u{a0}' || c
        == '\u{1680}' || ('\u{2000}' <= c && c <= '\u{200a}') || c == '\u{2028}' || c
        == '\u{2029}' || c == '\u{202f}' || c == '\u{205f}' || c == '\u{3000}'
}

/// `s` without its leading white space.
pub open spec fn trimmed_start(s: Seq<char>) -> Seq<char>
    decreases s.len(),
{
    if s.len() > 0 && is_white_space(s[0]) {
        trimmed_start(s.drop_first())
    } else {
        s
    }
}

/// `s` without its trailing white space.
pub open spec fn trimmed_end(s: Seq<char>) -> Seq<char>
    decreases s.len(),
{
    if s.len() > 0 && is_white_space(s.last()) {
        trimmed_end(s.drop_last())
    } else {
        s
    }
}

/// `s` without its leading and trailing white space.
pub open spec fn trimmed(s: Seq<char>) -> Seq<char> {
    trimmed_end(trimmed_start(s))
}

/// Where white space leads up to a position at which `s` ends or another
/// character stands, what is left of `s` begins there.
pub proof fn lemma_trimmed_start(s: Seq<char>, k: int)
    requires
        0 <= k <= s.len(),
        forall|j: int| 0 <= j < k ==> is_white_space(s[j]),
        k == s.len() || !is_white_space(s[k]),
    ensures
        trimmed_start(s) == s.skip(k),
    decreases k,
{
    if k > 0 {
        let rest = s.drop_first();
        assert forall|j: int| 0 <= j < k - 1 implies is_white_space(rest[j]) by {
            assert(rest[j] == s[j + 1]);
        }
        lemma_trimmed_start(rest, k - 1);
        assert(rest.skip(k - 1) =~= s.skip(k));
    } else {
        assert(s.skip(0) =~= s);
    }
}

/// Where white space fills `s` from a position on before which `s` begins
/// or another character stands, what is left of `s` ends there.
pub proof fn lemma_trimmed_end(s: Seq<char>, e: int)
    requires
        0 <= e <= s.len(),
        forall|j: int| e <= j < s.len() ==> is_white_space(s[j]),
        e == 0 || !is_white_space(s[e - 1]),
    ensures
        trimmed_end(s) == s.take(e),
    decreases s.len() - e,
{
    if e < s.len() {
        let rest = s.drop_last();
        lemma_trimmed_end(rest, e);
        assert(rest.take(e) =~= s.take(e));
    } else {
        assert(s.take(e) =~= s);
    }
}

/// Finds where the leading white space of `s` ends and where its
/// trailing white space begins, in one pass.
fn edges(s: &str) -> (r: (usize, usize))
    ensures
        r.0 <= s@.len(),
        r.1 <= s@.len(),
        forall|j: int| 0 <= j < r.0 ==> is_white_space(s@[j]),
        r.0 < s@.len() ==> !is_white_space(s@[r.0 as int]),
        forall|j: int| r.1 <= j < s@.len() ==> is_white_space(s@[j]),
        r.1 > 0 ==> !is_white_space(s@[r.1 - 1]),
{
    broadcast use vstd::string::group_string_axioms;

    let n = s.unicode_len();
    let mut it = s.chars();
    let mut k: usize = 0;
    let mut lead: usize = 0;
    let mut end: usize = 0;
    while k < n
        invariant
            n == s@.len(),
            k <= n,
            it.remaining() == s@.skip(k as int),
            lead <= k,
            end <= k,
            forall|j: int| 0 <= j < lead ==> is_white_space(s@[j]),
            lead < k ==> !is_white_space(s@[lead as int]),
            forall|j: int| end <= j < k ==> is_white_space(s@[j]),
            end > 0 ==> !is_white_space(s@[end - 1]),
        decreases n - k,
    {
        assert(it.remaining()[0] == s@[k as int]);
        let next = it.next();
        assert(it.remaining() =~= s@.skip(k + 1));
        match next {
            Some(c) => {
                if white_space(c) {
                    if lead == k {
                        lead = k + 1;
                    }
                } else {
                    end = k + 1;
                }
            },
            None => {
                assert(false);
            },
        }
        k += 1;
    }
    (lead, end)
}

/// Copies `s` without its leading and trailing white space.
pub fn trim(s: &str) -> (r: String)
    ensures
        r@ == trimmed(s@),
{
    let (lead, end) = edges(s);
    proof {
        lemma_trimmed_start(s@, lead as int);
        let rest = s@.skip(lead as int);
        if end > lead {
            assert forall|j: int| end - lead <= j < rest.len() implies is_white_space(rest[j]) by {
                assert(rest[j] == s@[lead + j]);
            }
            assert(rest[end - lead - 1] == s@[end - 1]);
            lemma_trimmed_end(rest, end - lead);
            assert(rest.take(end - lead) =~= s@.subrange(lead as int, end as int));
        } else {
            assert forall|j: int| 0 <= j < rest.len() implies is_white_space(rest[j]) by {
                assert(rest[j] == s@[lead + j]);
            }
            lemma_trimmed_end(rest, 0);
            assert(rest.take(0) =~= Seq::<char>::empty());
        }
    }
    if end > lead {
        String::from_str(s.substring_char(lead, end))
    } else {
        String::new()
    }
}

/// The character that writes the digit `d` (0 to 9).
pub open spec fn digit_char(d: nat) -> char {
    if d == 0 {
        '0'
    } else if d == 1 {
        '1'
    } else if d == 2 {
        '2'
    } else if d == 3 {
        '3'
    } else if d == 4 {
        '4'
    } else if d == 5 {
        '5'
    } else if d == 6 {
        '6'
    } else if d == 7 {
        '7'
    } else if d == 8 {
        '8'
    } else {
        '9'
    }
}

/// `n` written in base ten without leading zeros.
pub open spec fn decimal(n: nat) -> Seq<char>
    decreases n,
{
    if n < 10 {
        seq![digit_char(n)]
    } else {
        decimal(n / 10).push(digit_char(n % 10))
    }
}

fn digit_text(d: u64) -> (r: &'static str)
    requires
        d < 10,
    ensures
        r@ == seq![digit_char(d as nat)],
{
    proof {
        reveal_strlit("0");
        reveal_strlit("1");
        reveal_strlit("2");
        reveal_strlit("3");
        reveal_strlit("4");
        reveal_strlit("5");
        reveal_strlit("6");
        reveal_strlit("7");
        reveal_strlit("8");
        reveal_strlit("9");
    }
    let r = if d == 0 {
        "0"
    } else if d == 1 {
        "1"
    } else if d == 2 {
        "2"
    } else if d == 3 {
        "3"
    } else if d == 4 {
        "4"
    } else if d == 5 {
        "5"
    } else if d == 6 {
        "6"
    } else if d == 7 {
        "7"
    } else if d == 8 {
        "8"
    } else {
        "9"
    };
    assert(r@ =~= seq![digit_char(d as nat)]);
    r
}

/// Writes `n` in base ten.
pub fn to_decimal(n: u64) -> (r: String)
    ensures
        r@ == decimal(n as nat),
    decreases n,
{
    if n < 10 {
        String::from_str(digit_text(n))
    } else {
        let head = to_decimal(n / 10);
        let r = head.concat(digit_text(n % 10));
        assert(r@ =~= decimal(n as nat));
        r
    }
}

/// Whether `c` may occur in a display name: an ASCII letter or digit, a
/// space, a hyphen or an underscore.
pub open spec fn is_name_char(c: char) -> bool {
    ('a' <= c && c <= 'z') || ('A' <= c && c <= 'Z') || ('0' <= c && c <= '9') || c == ' '
        || c == '-' || c == '_'
}

/// Whether every character of `s` may occur in a display name.
pub open spec fn all_name_chars(s: Seq<char>) -> bool {
    forall|i: int| 0 <= i < s.len() ==> is_name_char(#[trigger] s[i])
}

fn name_char(c: char) -> (r: bool)
    ensures
        r == is_name_char(c),
{
    ('a' <= c && c <= 'z') || ('A' <= c && c <= 'Z') || ('0' <= c && c <= '9') || c == ' '
        || c == '-' || c == '_'
}

/// Decides [`all_name_chars`].
pub fn only_name_chars(s: &str) -> (r: bool)
    ensures
        r == all_name_chars(s@),
{
    let n = s.unicode_len();
    let mut i: usize = 0;
    while i < n
        invariant
            n == s@.len(),
            i <= n,
            forall|j: int| 0 <= j < i ==> is_name_char(#[trigger] s@[j]),
        decreases n - i,
    {
        if !name_char(s.get_char(i)) {
            return false;
        }
        i += 1;
    }
    true
}

/// `c` with an ASCII capital replaced by its small letter.
pub open spec fn ascii_lower(c: char) -> char {
    if 'A' <= c && c <= 'Z' {
        ((c as u8) + 32) as char
    } else {
        c
    }
}

/// Whether `a` and `b` are the same text once ASCII capitals are replaced
/// by small letters.
pub open spec fn same_ignoring_ascii_case(a: Seq<char>, b: Seq<char>) -> bool {
    a.len() == b.len() && forall|i: int|
        0 <= i < a.len() ==> ascii_lower(#[trigger] a[i]) == ascii_lower(b[i])
}

fn lower(c: char) -> (r: char)
    ensures
        r == ascii_lower(c),
{
    if 'A' <= c && c <= 'Z' {
        ((c as u8) + 32) as char
    } else {
        c
    }
}

/// Decides [`same_ignoring_ascii_case`].
pub fn eq_ignoring_ascii_case(a: &str, b: &str) -> (r: bool)
    ensures
        r == same_ignoring_ascii_case(a@, b@),
{
    let n = a.unicode_len();
    if n != b.unicode_len() {
        return false;
    }
    let mut i: usize = 0;
    while i < n
        invariant
            n == a@.len(),
            n == b@.len(),
            i <= n,
            forall|j: int| 0 <= j < i ==> ascii_lower(#[trigger] a@[j]) == ascii_lower(b@[j]),
        decreases n - i,
    {
        if lower(a.get_char(i)) != lower(b.get_char(i)) {
            return false;
        }
        i += 1;
    }
    true
}

/// The number of characters of `s` before the first `stop`, or the length
/// of `s` if it holds none.
pub open spec fn prefix_len(s: Seq<char>, stop: char) -> nat
    decreases s.len(),
{
    if s.len() == 0 || s[0] == stop {
        0
    } else {
        1 + prefix_len(s.drop_first(), stop)
    }
}

/// What stands in `s` before the first `stop`: all of `s` if it holds
/// none.
pub open spec fn before_first(s: Seq<char>, stop: char) -> Seq<char> {
    s.subrange(0, prefix_len(s, stop) as int)
}

/// What stands in `s` after the first `stop`: nothing if it holds none.
pub open spec fn after_first(s: Seq<char>, stop: char) -> Seq<char> {
    if prefix_len(s, stop) < s.len() {
        s.subrange(prefix_len(s, stop) as int + 1, s.len() as int)
    } else {
        Seq::empty()
    }
}

/// The prefix of `s` before the first `stop` is never longer than `s`,
/// holds no `stop`, and ends where a `stop` stands or `s` ends; and a
/// position with that property is its length.
pub proof fn lemma_prefix_len(s: Seq<char>, stop: char, k: int)
    ensures
        prefix_len(s, stop) <= s.len(),
        forall|j: int| 0 <= j < prefix_len(s, stop) ==> s[j] != stop,
        prefix_len(s, stop) < s.len() ==> s[prefix_len(s, stop) as int] == stop,
        0 <= k <= s.len() && (forall|j: int| 0 <= j < k ==> s[j] != stop) && (k == s.len()
            || s[k] == stop) ==> prefix_len(s, stop) == k,
    decreases s.len(),
{
    if s.len() > 0 && s[0] != stop {
        let rest = s.drop_first();
        lemma_prefix_len(rest, stop, k - 1);
        assert forall|j: int| 0 <= j < prefix_len(s, stop) implies s[j] != stop by {
            if j > 0 {
                assert(s[j] == rest[j - 1]);
            }
        }
        if prefix_len(s, stop) < s.len() {
            assert(s[prefix_len(s, stop) as int] == rest[prefix_len(rest, stop) as int]);
        }
        if 0 <= k <= s.len() && (forall|j: int| 0 <= j < k ==> s[j] != stop) && (k == s.len()
            || s[k] == stop) {
            assert(k > 0);
            assert forall|j: int| 0 <= j < k - 1 implies rest[j] != stop by {
                assert(rest[j] == s[j + 1]);
            }
            if k < s.len() {
                assert(rest[k - 1] == s[k]);
            }
        }
    }
}

fn find_first(s: &str, stop: char) -> (k: usize)
    ensures
        k == prefix_len(s@, stop),
        k <= s@.len(),
{
    let n = s.unicode_len();
    let mut k: usize = 0;
    while k < n && s.get_char(k) != stop
        invariant
            n == s@.len(),
            k <= n,
            forall|j: int| 0 <= j < k ==> s@[j] != stop,
        decreases n - k,
    {
        k += 1;
    }
    proof {
        lemma_prefix_len(s@, stop, k as int);
    }
    k
}

/// Copies what stands in `s` before the first `stop`.
pub fn take_before(s: &str, stop: char) -> (r: String)
    ensures
        r@ == before_first(s@, stop),
{
    let k = find_first(s, stop);
    String::from_str(s.substring_char(0, k))
}

/// Copies what stands in `s` after the first `stop`.
pub fn take_after(s: &str, stop: char) -> (r: String)
    ensures
        r@ == after_first(s@, stop),
{
    let k = find_first(s, stop);
    let n = s.unicode_len();
    if k < n {
        String::from_str(s.substring_char(k + 1, n))
    } else {
        String::new()
    }
}

/// Decides whether two texts are the same.
pub fn str_eq(a: &str, b: &str) -> (r: bool)
    ensures
        r == (a@ == b@),
{
    let n = a.unicode_len();
    if n != b.unicode_len() {
        return false;
    }
    let mut i: usize = 0;
    while i < n
        invariant
            n == a@.len(),
            n == b@.len(),
            i <= n,
            forall|j: int| 0 <= j < i ==> a@[j] == b@[j],
        decreases n - i,
    {
        if a.get_char(i) != b.get_char(i) {
            return false;
        }
        i += 1;
    }
    assert(a@ =~= b@);
    true
}

} // verus!
