//! The latency probe's command line.

use vstd::prelude::*;
use vstd::string::*;
use crate::config::{parse_number, parsed_number};
use crate::text::str_eq;

verus! {

/// What the probe was asked to do.
#[derive(Debug, Clone, PartialEq, Eq)]
pub struct MonitorArgs {
    /// The server to probe.
    pub url: String,
    /// Whether round-trip times are printed.
    pub verbose: bool,
    /// How many pings are sent.
    pub count: u32,
}

/// The view of a [`MonitorArgs`].
pub struct MonitorArgsView {
    pub url: Seq<char>,
    pub verbose: bool,
    pub count: u32,
}

impl View for MonitorArgs {
    type V = MonitorArgsView;

    open spec fn view(&self) -> MonitorArgsView {
        MonitorArgsView { url: self.url@, verbose: self.verbose, count: self.count }
    }
}

/// What the probe does when it is given no argument: one silent ping of
/// the local server.
pub open spec fn default_args() -> MonitorArgsView {
    MonitorArgsView { url: "ws://127.0.0.1:3001"@, verbose: false, count: 1 }
}

/// Whether `s` begins with `p`.
pub open spec fn starts_with(s: Seq<char>, p: Seq<char>) -> bool {
    p.len() <= s.len() && s.subrange(0, p.len() as int) == p
}

/// `s` without every leading repetition of `p`.
pub open spec fn without_leading(s: Seq<char>, p: Seq<char>) -> Seq<char>
    decreases s.len(),
{
    if p.len() > 0 && starts_with(s, p) {
        without_leading(s.skip(p.len() as int), p)
    } else {
        s
    }
}

/// Decides whether `s`, from its character `from` on, begins with `p`.
fn begins_at(s: &str, from: usize, p: &str) -> (r: bool)
    requires
        from <= s@.len(),
    ensures
        r == starts_with(s@.skip(from as int), p@),
{
    let n = s.unicode_len();
    let m = p.unicode_len();
    if m > n - from {
        return false;
    }
    let mut i: usize = 0;
    while i < m
        invariant
            n == s@.len(),
            m == p@.len(),
            from <= n,
            m <= n - from,
            i <= m,
            forall|j: int| 0 <= j < i ==> s@[from + j] == p@[j],
        decreases m - i,
    {
        if s.get_char(from + i) != p.get_char(i) {
            assert(s@.skip(from as int).subrange(0, m as int)[i as int] != p@[i as int]);
            return false;
        }
        i += 1;
    }
    assert(s@.skip(from as int).subrange(0, m as int) =~= p@);
    true
}

/// Decides [`starts_with`].
pub fn has_prefix(s: &str, p: &str) -> (r: bool)
    ensures
        r == starts_with(s@, p@),
{
    assert(s@.skip(0) =~= s@);
    begins_at(s, 0, p)
}

/// Copies `s` without every leading repetition of `p`.
pub fn strip_leading(s: &str, p: &str) -> (r: String)
    ensures
        r@ == without_leading(s@, p@),
{
    let n = s.unicode_len();
    let m = p.unicode_len();
    let mut k: usize = 0;
    assert(s@.skip(0) =~= s@);
    if m > 0 {
        while begins_at(s, k, p)
            invariant
                n == s@.len(),
                m == p@.len(),
                m > 0,
                k <= n,
                without_leading(s@.skip(k as int), p@) == without_leading(s@, p@),
            decreases n - k,
        {
            assert(s@.skip(k as int).skip(m as int) =~= s@.skip(k + m));
            k += m;
        }
    }
    assert(s@.skip(k as int) =~= s@.subrange(k as int, n as int));
    String::from_str(s.substring_char(k, n))
}

/// Whether an argument asks for round-trip times to be printed.
pub open spec fn is_verbose_flag(a: Seq<char>) -> bool {
    a == "-v"@ || a == "--print"@ || a == "--verbose"@
}

/// Whether an argument asks for the help text.
pub open spec fn is_help_flag(a: Seq<char>) -> bool {
    a == "-h"@ || a == "--help"@
}

/// The count that a number read from a flag's value sets, if any.
pub open spec fn count_of(read: Option<u64>) -> Option<u32> {
    match read {
        Some(n) => if n <= u32::MAX {
            Some(n as u32)
        } else {
            None
        },
        None => None,
    }
}

/// Narrows a number read from a flag's value to a count.
pub fn count_from(read: Option<u64>) -> (r: Option<u32>)
    ensures
        r == count_of(read),
{
    match read {
        Some(n) => if n <= u32::MAX as u64 {
            Some(n as u32)
        } else {
            None
        },
        None => None,
    }
}

/// The count that the argument `a` sets through the flag `flag`.
pub open spec fn count_in(a: Seq<char>, flag: Seq<char>) -> Option<u32> {
    count_of(parsed_number(without_leading(a, flag)))
}

/// The settings after an argument that is no call for help: a verbose
/// flag switches printing on; `--count=N` and `-cN` set the count where N
/// is a number; an argument without a leading hyphen is the server; any
/// other argument is passed over.
pub open spec fn with_arg(args: MonitorArgsView, a: Seq<char>) -> MonitorArgsView {
    if is_verbose_flag(a) {
        MonitorArgsView { verbose: true, ..args }
    } else if starts_with(a, "--count="@) {
        match count_in(a, "--count="@) {
            Some(n) => MonitorArgsView { count: n, ..args },
            None => args,
        }
    } else if starts_with(a, "-c"@) {
        match count_in(a, "-c"@) {
            Some(n) => MonitorArgsView { count: n, ..args },
            None => args,
        }
    } else if !starts_with(a, "-"@) {
        MonitorArgsView { url: a, ..args }
    } else {
        args
    }
}

/// The texts of a list of arguments, in the list's order.
pub open spec fn texts(args: Seq<String>) -> Seq<Seq<char>> {
    Seq::new(args.len(), |i: int| args[i]@)
}

/// The settings after the first `n` arguments, or `None` once one of
/// them called for help.
pub open spec fn args_read(list: Seq<Seq<char>>, n: int) -> Option<MonitorArgsView>
    decreases n,
{
    if n <= 0 {
        Some(default_args())
    } else {
        match args_read(list, n - 1) {
            None => None,
            Some(args) => if is_help_flag(list[n - 1]) {
                None
            } else {
                Some(with_arg(args, list[n - 1]))
            },
        }
    }
}

fn read_count(a: &str, flag: &str) -> (r: Option<u32>)
    ensures
        r == count_in(a@, flag@),
{
    let value = strip_leading(a, flag);
    count_from(parse_number(value.as_str()))
}

/// Reads the probe's arguments, the program's name left out. `None`
/// means that help was called for.
pub fn parse_args(list: &Vec<String>) -> (r: Option<MonitorArgs>)
    ensures
        match r {
            Some(args) => args_read(texts(list@), list@.len() as int) == Some(args@),
            None => args_read(texts(list@), list@.len() as int) is None,
        },
{
    let mut args = MonitorArgs {
        url: String::from_str("ws://127.0.0.1:3001"),
        verbose: false,
        count: 1,
    };
    let mut i: usize = 0;
    while i < list.len()
        invariant
            i <= list.len(),
            args_read(texts(list@), i as int) == Some(args@),
        decreases list.len() - i,
    {
        let a = list[i].as_str();
        assert(texts(list@)[i as int] == a@);
        if str_eq(a, "-h") || str_eq(a, "--help") {
            proof {
                lemma_help_stays(texts(list@), i as int + 1, list@.len() as int);
            }
            return None;
        }
        if str_eq(a, "-v") || str_eq(a, "--print") || str_eq(a, "--verbose") {
            args.verbose = true;
        } else if has_prefix(a, "--count=") {
            match read_count(a, "--count=") {
                Some(n) => {
                    args.count = n;
                },
                None => {},
            }
        } else if has_prefix(a, "-c") {
            match read_count(a, "-c") {
                Some(n) => {
                    args.count = n;
                },
                None => {},
            }
        } else if !has_prefix(a, "-") {
            args.url = String::from_str(a);
        }
        i += 1;
    }
    Some(args)
}

/// Once help was called for, no later argument changes that.
proof fn lemma_help_stays(list: Seq<Seq<char>>, k: int, n: int)
    requires
        0 <= k <= n,
        args_read(list, k) is None,
    ensures
        args_read(list, n) is None,
    decreases n - k,
{
    if k < n {
        lemma_help_stays(list, k, n - 1);
    }
}

} // verus!
