//! The load generator's bookkeeping: how often a client sends, what it
//! sends, and which echo answers which send.

use vstd::prelude::*;
use vstd::string::*;
use crate::protocol::text_view;
use crate::text::{before_first, decimal, str_eq, take_before, to_decimal};

verus! {

/// Microseconds in a minute.
pub const MINUTE_US: u64 = 60_000_000;

/// The pause between two sends of a client, in microseconds: none in
/// flood mode, else a minute shared out over `rate` sends, a rate of zero
/// counting as one.
pub open spec fn interval_us(flood: bool, rate: u32) -> u64 {
    if flood {
        0
    } else if rate == 0 {
        MINUTE_US
    } else {
        MINUTE_US / (rate as u64)
    }
}

/// Computes [`interval_us`].
pub fn send_interval_us(flood: bool, rate: u32) -> (r: u64)
    ensures
        r == interval_us(flood, rate),
{
    if flood {
        0
    } else if rate == 0 {
        MINUTE_US
    } else {
        MINUTE_US / (rate as u64)
    }
}

/// The name that the client with the number `client` asks for.
pub open spec fn bench_name(client: u64) -> Seq<char> {
    "bench-"@ + decimal(client as nat)
}

/// Writes [`bench_name`].
pub fn client_name(client: u64) -> (r: String)
    ensures
        r@ == bench_name(client),
{
    let number = to_decimal(client);
    String::from_str("bench-").concat(number.as_str())
}

/// The mark of the send number `n` of the client number `client`.
pub open spec fn mark_of(client: u64, n: u64) -> Seq<char> {
    decimal(client as nat) + "-"@ + decimal(n as nat)
}

/// Writes [`mark_of`].
pub fn message_mark(client: u64, n: u64) -> (r: String)
    ensures
        r@ == mark_of(client, n),
{
    let client = to_decimal(client);
    let n = to_decimal(n);
    client.concat("-").concat(n.as_str())
}

/// The chat text that carries `mark` in front of `phrase`.
pub open spec fn marked_text(mark: Seq<char>, phrase: Seq<char>) -> Seq<char> {
    mark + "|"@ + phrase
}

/// Writes [`marked_text`].
pub fn message_text(mark: &str, phrase: &str) -> (r: String)
    ensures
        r@ == marked_text(mark@, phrase@),
{
    String::from_str(mark).concat("|").concat(phrase)
}

/// The mark that an echoed chat message answers: what stands before the
/// first bar of its text, if the message is from the client itself.
pub open spec fn echo_mark(own_name: Seq<char>, from: Seq<char>, text: Seq<char>) -> Option<
    Seq<char>,
> {
    if from == own_name {
        Some(before_first(text, '|'))
    } else {
        None
    }
}

/// Finds [`echo_mark`].
pub fn echoed_mark(own_name: &str, from: &str, text: &str) -> (r: Option<String>)
    ensures
        text_view(r) == echo_mark(own_name@, from@, text@),
{
    if str_eq(from, own_name) {
        Some(take_before(text, '|'))
    } else {
        None
    }
}

/// The rank, counted from one, of the value below which `percent` in a
/// hundred of `len` sorted samples lie: `percent` hundredths of `len`,
/// rounded up, and at least one and at most `len`.
pub open spec fn percentile_rank(len: nat, percent: u64) -> nat
    recommends
        len > 0,
{
    let rank = (percent * len + 99) / 100;
    if rank < 1 {
        1
    } else if rank > len {
        len
    } else {
        rank as nat
    }
}

/// The percentile of the sorted samples: the sample of that rank, or
/// zero where there is no sample.
pub open spec fn percentile_of(sorted: Seq<u64>, percent: u64) -> u64 {
    if sorted.len() == 0 {
        0
    } else {
        sorted[percentile_rank(sorted.len(), percent) - 1]
    }
}

/// Finds [`percentile_of`].
pub fn percentile(sorted: &Vec<u64>, percent: u64) -> (r: u64)
    ensures
        r == percentile_of(sorted@, percent),
{
    let len = sorted.len();
    if len == 0 {
        return 0;
    }
    assert(percent as u128 * len as u128 <= 0xffff_ffff_ffff_ffff * 0xffff_ffff_ffff_ffff)
        by (nonlinear_arith)
        requires
            percent <= 0xffff_ffff_ffff_ffff,
            len <= 0xffff_ffff_ffff_ffff,
    ;
    let scaled: u128 = percent as u128 * len as u128 + 99;
    let rank: u128 = scaled / 100;
    let index: usize = if rank < 1 {
        0
    } else if rank > len as u128 {
        len - 1
    } else {
        (rank - 1) as usize
    };
    sorted[index]
}

} // verus!
