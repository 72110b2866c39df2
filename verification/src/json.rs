//! Rendering of the response envelope as its JSON body.
//!
//! Every reply the service sends has one of two fixed bodies:
//! `{"success":true,"data":...}` or `{"success":false,"err":"..."}`. The
//! functions here produce exactly those strings — escaping string content,
//! writing numbers in decimal — so the guarantee that every body is valid
//! JSON of one of the two shapes rests on proved string construction, not on
//! a serializer taken on faith.

use vstd::prelude::*;

use crate::models::User;
use crate::response::Envelope;

verus! {

/// The sixteen lowercase hexadecimal digits; the first ten double as the
/// decimal digits.
pub open spec fn hex_digit(n: int) -> char {
    if n == 0 {
        '0'
    } else if n == 1 {
        '1'
    } else if n == 2 {
        '2'
    } else if n == 3 {
        '3'
    } else if n == 4 {
        '4'
    } else if n == 5 {
        '5'
    } else if n == 6 {
        '6'
    } else if n == 7 {
        '7'
    } else if n == 8 {
        '8'
    } else if n == 9 {
        '9'
    } else if n == 10 {
        'a'
    } else if n == 11 {
        'b'
    } else if n == 12 {
        'c'
    } else if n == 13 {
        'd'
    } else if n == 14 {
        'e'
    } else {
        'f'
    }
}

/// The digit character for a value below sixteen.
pub fn hex_digit_of(n: u32) -> (c: char)
    requires
        n < 16,
    ensures
        c == hex_digit(n as int),
{
    if n == 0 {
        '0'
    } else if n == 1 {
        '1'
    } else if n == 2 {
        '2'
    } else if n == 3 {
        '3'
    } else if n == 4 {
        '4'
    } else if n == 5 {
        '5'
    } else if n == 6 {
        '6'
    } else if n == 7 {
        '7'
    } else if n == 8 {
        '8'
    } else if n == 9 {
        '9'
    } else if n == 10 {
        'a'
    } else if n == 11 {
        'b'
    } else if n == 12 {
        'c'
    } else if n == 13 {
        'd'
    } else if n == 14 {
        'e'
    } else {
        'f'
    }
}

/// How one character appears inside a JSON string literal: quote, backslash
/// and the common control characters get their short escapes, the remaining
/// control characters a `\u00..` escape, everything else stands as itself.
pub open spec fn json_escape_char(c: char) -> Seq<char> {
    if c == '"' {
        seq!['\\', '"']
    } else if c == '\\' {
        seq!['\\', '\\']
    } else if c == '\n' {
        seq!['\\', 'n']
    } else if c == '\r' {
        seq!['\\', 'r']
    } else if c == '\t' {
        seq!['\\', 't']
    } else if (c as u32) < 32 {
        seq!['\\', 'u', '0', '0', hex_digit(((c as u32) / 16) as int), hex_digit(
            ((c as u32) % 16) as int,
        )]
    } else {
        seq![c]
    }
}

/// A whole string escaped, character by character, defined from the back so
/// a writer's loop follows it step by step.
pub open spec fn json_escape(s: Seq<char>) -> Seq<char>
    decreases s.len(),
{
    if s.len() == 0 {
        Seq::empty()
    } else {
        json_escape(s.drop_last()) + json_escape_char(s.last())
    }
}

/// A JSON string literal: quotes around the escaped content.
pub open spec fn json_string(s: Seq<char>) -> Seq<char> {
    seq!['"'] + json_escape(s) + seq!['"']
}

/// Relies on `String::push` of std: appends exactly the one given character.
#[verifier::external_body]
fn push_char(out: &mut String, c: char)
    ensures
        final (out)@ == old(out)@ + seq![c],
{
    out.push(c);
}

/// Appends `s` as a JSON string literal, escaped.
pub fn push_json_string(out: &mut String, s: &str)
    ensures
        final (out)@ == old(out)@ + json_string(s@),
{
    push_char(out, '"');
    let n: usize = s.unicode_len();
    let mut i: usize = 0;
    while i < n
        invariant
            n == s@.len(),
            i <= n,
            out@ == old(out)@ + seq!['"'] + json_escape(s@.take(i as int)),
        decreases n - i,
    {
        let c = s.get_char(i);
        proof {
            assert(s@.take(i as int + 1).drop_last() =~= s@.take(i as int));
            assert(s@.take(i as int + 1).last() == c);
        }
        if c == '"' {
            push_char(out, '\\');
            push_char(out, '"');
        } else if c == '\\' {
            push_char(out, '\\');
            push_char(out, '\\');
        } else if c == '\n' {
            push_char(out, '\\');
            push_char(out, 'n');
        } else if c == '\r' {
            push_char(out, '\\');
            push_char(out, 'r');
        } else if c == '\t' {
            push_char(out, '\\');
            push_char(out, 't');
        } else if (c as u32) < 32 {
            push_char(out, '\\');
            push_char(out, 'u');
            push_char(out, '0');
            push_char(out, '0');
            push_char(out, hex_digit_of((c as u32) / 16));
            push_char(out, hex_digit_of((c as u32) % 16));
        } else {
            push_char(out, c);
        }
        proof {
            assert(out@ =~= old(out)@ + seq!['"'] + json_escape(s@.take(i as int + 1)));
        }
        i += 1;
    }
    proof {
        assert(s@.take(n as int) =~= s@);
    }
    push_char(out, '"');
    proof {
        assert(out@ =~= old(out)@ + json_string(s@));
    }
}

/// The decimal digits of `n`, most significant first.
pub open spec fn dec_digits(n: nat) -> Seq<char>
    decreases n,
{
    if n < 10 {
        seq![hex_digit(n as int)]
    } else {
        dec_digits(n / 10) + seq![hex_digit((n % 10) as int)]
    }
}

/// A JSON number: an optional minus sign and the decimal digits.
pub open spec fn json_int(n: int) -> Seq<char> {
    if n < 0 {
        seq!['-'] + dec_digits((-n) as nat)
    } else {
        dec_digits(n as nat)
    }
}

/// Appends the decimal digits of `n`.
fn push_u64(out: &mut String, n: u64)
    ensures
        final (out)@ == old(out)@ + dec_digits(n as nat),
    decreases n,
{
    if n < 10 {
        push_char(out, hex_digit_of(n as u32));
    } else {
        push_u64(out, n / 10);
        proof {
            assert((n / 10) as nat == (n as nat) / 10);
            assert((n % 10) as nat == (n as nat) % 10);
        }
        push_char(out, hex_digit_of((n % 10) as u32));
        proof {
            assert(out@ =~= old(out)@ + dec_digits(n as nat));
        }
    }
}

/// Appends `n` as a JSON number.
pub fn push_i32(out: &mut String, n: i32)
    ensures
        final (out)@ == old(out)@ + json_int(n as int),
{
    if n < 0 {
        push_char(out, '-');
        let m: u64 = (-(n as i64)) as u64;
        proof {
            assert(m as nat == (-(n as int)) as nat);
        }
        push_u64(out, m);
        proof {
            assert(out@ =~= old(out)@ + json_int(n as int));
        }
    } else {
        push_u64(out, n as u64);
    }
}

/// The record as its fixed JSON object.
pub open spec fn json_user(u: User) -> Seq<char> {
    "{\"id\":"@ + json_int(u.id as int) + ",\"name\":"@ + json_string(u.name@) + ",\"email\":"@
        + json_string(u.email@) + "}"@
}

/// Appends the record as its JSON object.
pub fn push_user(out: &mut String, u: &User)
    ensures
        final (out)@ == old(out)@ + json_user(*u),
{
    out.append("{\"id\":");
    push_i32(out, u.id);
    out.append(",\"name\":");
    push_json_string(out, u.name.as_str());
    out.append(",\"email\":");
    push_json_string(out, u.email.as_str());
    out.append("}");
    proof {
        assert(out@ =~= old(out)@ + json_user(*u));
    }
}

/// The records joined with commas, in order.
pub open spec fn json_users(users: Seq<User>) -> Seq<char>
    decreases users.len(),
{
    if users.len() == 0 {
        Seq::empty()
    } else if users.len() == 1 {
        json_user(users.last())
    } else {
        json_users(users.drop_last()) + seq![','] + json_user(users.last())
    }
}

/// The listing as a JSON array of records.
pub open spec fn json_user_array(users: Seq<User>) -> Seq<char> {
    seq!['['] + json_users(users) + seq![']']
}

/// Appends the listing as a JSON array.
pub fn push_user_array(out: &mut String, users: &Vec<User>)
    ensures
        final (out)@ == old(out)@ + json_user_array(users@),
{
    push_char(out, '[');
    let mut i: usize = 0;
    while i < users.len()
        invariant
            i <= users@.len(),
            out@ == old(out)@ + seq!['['] + json_users(users@.take(i as int)),
        decreases users@.len() - i,
    {
        proof {
            assert(users@.take(i as int + 1).drop_last() =~= users@.take(i as int));
            assert(users@.take(i as int + 1).last() == users@[i as int]);
        }
        if i > 0 {
            push_char(out, ',');
        }
        push_user(out, &users[i]);
        proof {
            assert(out@ =~= old(out)@ + seq!['['] + json_users(users@.take(i as int + 1)));
        }
        i += 1;
    }
    proof {
        assert(users@.take(users@.len() as int) =~= users@);
    }
    push_char(out, ']');
    proof {
        assert(out@ =~= old(out)@ + json_user_array(users@));
    }
}

/// The opening of every success body.
pub open spec fn json_ok_prefix() -> Seq<char> {
    "{\"success\":true,\"data\":"@
}

/// The whole body of an error reply.
pub open spec fn json_err_body(msg: Seq<char>) -> Seq<char> {
    "{\"success\":false,\"err\":"@ + json_string(msg) + "}"@
}

/// The body of a reply carrying one record.
pub open spec fn json_user_body(b: Envelope<User>) -> Seq<char> {
    match b {
        Envelope::Data(m) => json_ok_prefix() + json_user(m.data) + "}"@,
        Envelope::Error(e) => json_err_body(e.err@),
    }
}

/// The body of a reply carrying the listing.
pub open spec fn json_users_body(b: Envelope<Vec<User>>) -> Seq<char> {
    match b {
        Envelope::Data(m) => json_ok_prefix() + json_user_array(m.data@) + "}"@,
        Envelope::Error(e) => json_err_body(e.err@),
    }
}

/// The body of a reply carrying no data: `data` is JSON `null`.
pub open spec fn json_unit_body(b: Envelope<()>) -> Seq<char> {
    match b {
        Envelope::Data(_) => json_ok_prefix() + "null}"@,
        Envelope::Error(e) => json_err_body(e.err@),
    }
}

/// Renders the body of a one-record reply.
pub fn render_user_body(b: &Envelope<User>) -> (out: String)
    ensures
        out@ == json_user_body(*b),
{
    let mut out = String::new();
    match b {
        Envelope::Data(m) => {
            out.append("{\"success\":true,\"data\":");
            push_user(&mut out, &m.data);
            out.append("}");
        },
        Envelope::Error(e) => {
            out.append("{\"success\":false,\"err\":");
            push_json_string(&mut out, e.err);
            out.append("}");
        },
    }
    proof {
        assert(out@ =~= json_user_body(*b));
    }
    out
}

/// Renders the body of a listing reply.
pub fn render_users_body(b: &Envelope<Vec<User>>) -> (out: String)
    ensures
        out@ == json_users_body(*b),
{
    let mut out = String::new();
    match b {
        Envelope::Data(m) => {
            out.append("{\"success\":true,\"data\":");
            push_user_array(&mut out, &m.data);
            out.append("}");
        },
        Envelope::Error(e) => {
            out.append("{\"success\":false,\"err\":");
            push_json_string(&mut out, e.err);
            out.append("}");
        },
    }
    proof {
        assert(out@ =~= json_users_body(*b));
    }
    out
}

/// Renders the body of an empty-payload reply.
pub fn render_unit_body(b: &Envelope<()>) -> (out: String)
    ensures
        out@ == json_unit_body(*b),
{
    let mut out = String::new();
    match b {
        Envelope::Data(_) => {
            out.append("{\"success\":true,\"data\":");
            out.append("null}");
        },
        Envelope::Error(e) => {
            out.append("{\"success\":false,\"err\":");
            push_json_string(&mut out, e.err);
            out.append("}");
        },
    }
    proof {
        assert(out@ =~= json_unit_body(*b));
    }
    out
}

} // verus!
