//! How the terminal client shows a pong's token and the list of users.

use vstd::prelude::*;
use vstd::string::*;
use vstd::utf8::encode_utf8;
use crate::protocol::{text_view, users_view, UserInfo, UserInfoView};

verus! {

/// How many characters of a token are shown.
pub const TOKEN_CHARS_SHOWN: usize = 8;

/// The part of a pong's line that shows its token: the first eight
/// characters of the token, or nothing where the pong bears none.
pub open spec fn hint_of(token: Option<Seq<char>>) -> Seq<char> {
    match token {
        Some(t) => " (token: "@ + (if t.len() > TOKEN_CHARS_SHOWN {
            t.take(TOKEN_CHARS_SHOWN as int)
        } else {
            t
        }) + "...)"@,
        None => Seq::empty(),
    }
}

/// Writes [`hint_of`].
pub fn token_hint(token: &Option<String>) -> (r: String)
    ensures
        r@ == hint_of(text_view(*token)),
{
    match token {
        Some(t) => {
            let n = t.as_str().unicode_len();
            let shown = if n > TOKEN_CHARS_SHOWN {
                TOKEN_CHARS_SHOWN
            } else {
                n
            };
            assert(t@.subrange(0, shown as int) =~= if t@.len() > TOKEN_CHARS_SHOWN {
                t@.take(TOKEN_CHARS_SHOWN as int)
            } else {
                t@
            });
            String::from_str(" (token: ").concat(t.as_str().substring_char(0, shown)).concat("...)")
        },
        None => String::new(),
    }
}

/// `n` times the character `c`.
pub open spec fn run_of(n: nat, c: char) -> Seq<char> {
    Seq::new(n, |i: int| c)
}

/// `t`, filled up with `c` behind it to `width` characters where it has
/// fewer.
pub open spec fn padded(t: Seq<char>, width: nat, c: char) -> Seq<char> {
    if t.len() >= width {
        t
    } else {
        t + run_of((width - t.len()) as nat, c)
    }
}

/// Writes [`padded`], where `fill` is the one character to fill with.
pub fn pad(t: &str, width: usize, fill: &str) -> (r: String)
    requires
        fill@.len() == 1,
    ensures
        r@ == padded(t@, width as nat, fill@[0]),
{
    let n = t.unicode_len();
    let mut r = String::from_str(t);
    let mut k: usize = n;
    assert(r@ =~= t@ + run_of(0, fill@[0]));
    while k < width
        invariant
            n == t@.len(),
            n <= k,
            k <= width || k == n,
            fill@.len() == 1,
            r@ == t@ + run_of((k - n) as nat, fill@[0]),
        decreases width - k,
    {
        r.append(fill);
        assert(r@ =~= t@ + run_of((k + 1 - n) as nat, fill@[0]));
        k += 1;
    }
    assert(t@ + run_of(0, fill@[0]) =~= t@);
    assert(r@ =~= padded(t@, width as nat, fill@[0]));
    r
}

/// The length of `t` in bytes of UTF-8.
pub open spec fn byte_len(t: Seq<char>) -> nat {
    encode_utf8(t).len()
}

/// The larger of two widths.
pub open spec fn wider(a: nat, b: nat) -> nat {
    if a >= b {
        a
    } else {
        b
    }
}

/// The width of the column of names: the length in bytes of the longest
/// name, and at least `least`.
pub open spec fn name_width(users: Seq<UserInfoView>, least: nat) -> nat
    decreases users.len(),
{
    if users.len() == 0 {
        least
    } else {
        wider(name_width(users.drop_last(), least), byte_len(users.last().name))
    }
}

/// The width of the column of addresses: the length in bytes of the
/// longest address, and at least `least`.
pub open spec fn ip_width(users: Seq<UserInfoView>, least: nat) -> nat
    decreases users.len(),
{
    if users.len() == 0 {
        least
    } else {
        wider(ip_width(users.drop_last(), least), byte_len(users.last().ip))
    }
}

/// One line of the table: the three cells, each filled up with `c` to
/// the width of its column.
pub open spec fn table_line(
    name: Seq<char>,
    ip: Seq<char>,
    id: Seq<char>,
    names: nat,
    ips: nat,
    ids: nat,
    c: char,
) -> Seq<char> {
    "  "@ + padded(name, names, c) + "  "@ + padded(ip, ips, c) + "  "@ + padded(id, ids, c)
        + "\r\n"@
}

/// The lines of the users, in the list's order.
pub open spec fn table_body(users: Seq<UserInfoView>, names: nat, ips: nat) -> Seq<char>
    decreases users.len(),
{
    if users.len() == 0 {
        Seq::empty()
    } else {
        table_body(users.drop_last(), names, ips) + table_line(
            users.last().name,
            users.last().ip,
            users.last().id,
            names,
            ips,
            0,
            ' ',
        )
    }
}

/// The list of users as the client shows it: a line of headings, a rule,
/// and one line per user, in columns as wide as their longest cell; or
/// one sentence where the list is empty.
pub open spec fn table_of(users: Seq<UserInfoView>) -> Seq<char> {
    if users.len() == 0 {
        "\x1b[36m[Users] No users connected\x1b[0m"@
    } else {
        let names = name_width(users, 4);
        let ips = ip_width(users, 2);
        "\x1b[36m\r\n"@ + table_line("NAME"@, "IP"@, "ID"@, names, ips, 0, ' ') + table_line(
            Seq::empty(),
            Seq::empty(),
            Seq::empty(),
            names,
            ips,
            36,
            '-',
        ) + table_body(users, names, ips) + "\x1b[0m"@
    }
}

fn line(name: &str, ip: &str, id: &str, names: usize, ips: usize, ids: usize, fill: &str) -> (r:
    String)
    requires
        fill@.len() == 1,
    ensures
        r@ == table_line(name@, ip@, id@, names as nat, ips as nat, ids as nat, fill@[0]),
{
    let name = pad(name, names, fill);
    let ip = pad(ip, ips, fill);
    let id = pad(id, ids, fill);
    String::from_str("  ").concat(name.as_str()).concat("  ").concat(ip.as_str()).concat("  ").concat(
        id.as_str(),
    ).concat("\r\n")
}

fn widths(users: &Vec<UserInfo>) -> (r: (usize, usize))
    ensures
        r.0 == name_width(users_view(users@), 4),
        r.1 == ip_width(users_view(users@), 2),
{
    let mut names: usize = 4;
    let mut ips: usize = 2;
    let mut i: usize = 0;
    let ghost all = users_view(users@);
    assert(all.take(0) =~= Seq::<UserInfoView>::empty());
    while i < users.len()
        invariant
            i <= users.len(),
            all == users_view(users@),
            names == name_width(all.take(i as int), 4),
            ips == ip_width(all.take(i as int), 2),
        decreases users.len() - i,
    {
        let name_len = users[i].name.as_str().as_bytes().len();
        let ip_len = users[i].ip.as_str().as_bytes().len();
        if name_len > names {
            names = name_len;
        }
        if ip_len > ips {
            ips = ip_len;
        }
        proof {
            assert(all.take(i + 1).drop_last() =~= all.take(i as int));
            assert(all.take(i + 1).last() == users@[i as int]@);
        }
        i += 1;
    }
    assert(all.take(users@.len() as int) =~= all);
    (names, ips)
}

/// Writes [`table_of`].
pub fn users_table(users: &Vec<UserInfo>) -> (r: String)
    ensures
        r@ == table_of(users_view(users@)),
{
    if users.len() == 0 {
        return String::from_str("\x1b[36m[Users] No users connected\x1b[0m");
    }
    proof {
        reveal_strlit(" ");
        reveal_strlit("-");
        reveal_strlit("");
        assert(""@ =~= Seq::<char>::empty());
    }
    let (names, ips) = widths(users);
    let ghost all = users_view(users@);
    let mut body = String::new();
    let mut i: usize = 0;
    assert(all.take(0) =~= Seq::<UserInfoView>::empty());
    while i < users.len()
        invariant
            i <= users.len(),
            all == users_view(users@),
            " "@.len() == 1,
            " "@[0] == ' ',
            body@ == table_body(all.take(i as int), names as nat, ips as nat),
        decreases users.len() - i,
    {
        let row = line(
            users[i].name.as_str(),
            users[i].ip.as_str(),
            users[i].id.as_str(),
            names,
            ips,
            0,
            " ",
        );
        proof {
            assert(all.take(i + 1).drop_last() =~= all.take(i as int));
            assert(all.take(i + 1).last() == users@[i as int]@);
        }
        body.append(row.as_str());
        i += 1;
    }
    assert(all.take(users@.len() as int) =~= all);
    let headings = line("NAME", "IP", "ID", names, ips, 0, " ");
    let rule = line("", "", "", names, ips, 36, "-");
    let r = String::from_str("\x1b[36m\r\n").concat(headings.as_str()).concat(
        rule.as_str(),
    ).concat(body.as_str()).concat("\x1b[0m");
    assert(r@ =~= table_of(all));
    r
}

} // verus!
