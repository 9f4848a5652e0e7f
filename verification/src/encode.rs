//! Serializing a conversation snapshot plus request parameters into the
//! provider's JSON request body.
//!
//! The whole body is specified character by character: [`request_json`] is
//! the mathematical value of the body, and [`build_request_body`] is proved
//! to produce exactly that string.

use vstd::prelude::*;
use vstd::string::StrSliceExecFns;
use vstd::string::StringExecFns;

use crate::message::Message;
use crate::message::MessageView;
use crate::message::Role;
use crate::message::views_of;
use crate::params::ParamsView;
use crate::params::RequestParams;

verus! {

/// The lowercase hexadecimal digit for `d`.
pub open spec fn hex_digit(d: nat) -> char {
    if d == 0 {
        '0'
    } else if d == 1 {
        '1'
    } else if d == 2 {
        '2'
    } else if d == 3 {
        '3'
    } else if d == 4 {
        '4'
    } else if d == 5 {
        '5'
    } else if d == 6 {
        '6'
    } else if d == 7 {
        '7'
    } else if d == 8 {
        '8'
    } else if d == 9 {
        '9'
    } else if d == 10 {
        'a'
    } else if d == 11 {
        'b'
    } else if d == 12 {
        'c'
    } else if d == 13 {
        'd'
    } else if d == 14 {
        'e'
    } else {
        'f'
    }
}

/// The decimal digit character for `d < 10`.
pub open spec fn dec_digit(d: nat) -> char {
    hex_digit(if d < 10 { d } else { 0 })
}

/// Decimal notation of a natural number, most significant digit first, with
/// no leading zero except for zero itself.
pub open spec fn dec_digits(n: nat) -> Seq<char>
    decreases n,
{
    if n < 10 {
        seq![dec_digit(n)]
    } else {
        dec_digits(n / 10).push(dec_digit(n % 10))
    }
}

/// Decimal notation of an integer: a minus sign before the digits when it is
/// negative.
pub open spec fn int_literal(v: int) -> Seq<char> {
    if v < 0 {
        seq!['-'] + dec_digits((-v) as nat)
    } else {
        dec_digits(v as nat)
    }
}

/// How one character appears inside a JSON string literal: quote, backslash
/// and the common control characters get a two-character escape, any other
/// control character a `\u00XX` escape, and everything else stands as it is.
pub open spec fn escape_char(c: char) -> Seq<char> {
    if c == '"' {
        seq!['\\', '"']
    } else if c == '\\' {
        seq!['\\', '\\']
    } else if c == '\n' {
        seq!['\\', 'n']
    } else if c == '\r' {
        seq!['\\', 'r']
    } else if c == '\t' {
        seq!['\\', 't']
    } else if (c as u32) < 0x20 {
        seq!['\\', 'u', '0', '0', hex_digit(((c as u32) / 16) as nat), hex_digit(
            ((c as u32) % 16) as nat,
        )]
    } else {
        seq![c]
    }
}

/// The body of a JSON string literal holding the text `s`.
pub open spec fn escape_str(s: Seq<char>) -> Seq<char>
    decreases s.len(),
{
    if s.len() == 0 {
        Seq::empty()
    } else {
        escape_char(s[0]) + escape_str(s.drop_first())
    }
}

proof fn lemma_escape_str_push(s: Seq<char>, c: char)
    ensures
        escape_str(s.push(c)) == escape_str(s) + escape_char(c),
    decreases s.len(),
{
    let q = s.push(c);
    assert(q.len() == s.len() + 1);
    assert(q[s.len() as int] == c);
    if s.len() == 0 {
        assert(q[0] == c);
        assert(q.drop_first() =~= Seq::<char>::empty());
        assert(escape_str(q) == escape_char(c) + escape_str(Seq::<char>::empty()));
        assert(escape_str(q) =~= escape_str(s) + escape_char(c));
    } else {
        assert(q[0] == s[0]);
        assert(q.drop_first() =~= s.drop_first().push(c));
        lemma_escape_str_push(s.drop_first(), c);
        assert(escape_str(q) == escape_char(s[0]) + (escape_str(s.drop_first()) + escape_char(c)));
        assert(escape_str(q) =~= escape_str(s) + escape_char(c));
    }
}

/// The wire name of a role.
pub open spec fn role_str(r: Role) -> Seq<char> {
    match r {
        Role::User => "user"@,
        Role::Assistant => "assistant"@,
    }
}

/// One element of the `messages` array.
pub open spec fn message_json(m: MessageView) -> Seq<char> {
    "{\"role\":\""@ + role_str(m.role) + "\",\"content\":\""@ + escape_str(m.content) + "\"}"@
}

/// The comma-separated contents of the `messages` array, oldest first.
pub open spec fn messages_json(msgs: Seq<MessageView>) -> Seq<char>
    decreases msgs.len(),
{
    if msgs.len() == 0 {
        Seq::empty()
    } else if msgs.len() == 1 {
        message_json(msgs[0])
    } else {
        messages_json(msgs.drop_last()) + ","@ + message_json(msgs.last())
    }
}

/// The full request body for a snapshot and a parameter bundle.
pub open spec fn request_json(p: ParamsView, msgs: Seq<MessageView>) -> Seq<char> {
    "{\"model\":\""@ + escape_str(p.model) + "\",\"stream\":false,\"messages\":["@ + messages_json(
        msgs,
    ) + "],\"temperature\":"@ + int_literal(p.temperature) + ",\"max_tokens\":"@ + int_literal(
        p.max_tokens,
    ) + ",\"seed\":"@ + int_literal(p.seed) + ",\"top_p\":"@ + int_literal(p.top_p) + "}"@
}

/// Relies on `String::push`: appends exactly the one character at the end.
#[verifier::external_body]
fn push_char(out: &mut String, c: char)
    ensures
        final(out)@ == old(out)@.push(c),
{
    out.push(c);
}

fn hex_digit_char(d: u32) -> (c: char)
    requires
        d < 16,
    ensures
        c == hex_digit(d as nat),
{
    if d == 0 {
        '0'
    } else if d == 1 {
        '1'
    } else if d == 2 {
        '2'
    } else if d == 3 {
        '3'
    } else if d == 4 {
        '4'
    } else if d == 5 {
        '5'
    } else if d == 6 {
        '6'
    } else if d == 7 {
        '7'
    } else if d == 8 {
        '8'
    } else if d == 9 {
        '9'
    } else if d == 10 {
        'a'
    } else if d == 11 {
        'b'
    } else if d == 12 {
        'c'
    } else if d == 13 {
        'd'
    } else if d == 14 {
        'e'
    } else {
        'f'
    }
}

fn append_escaped_char(out: &mut String, c: char)
    ensures
        final(out)@ == old(out)@ + escape_char(c),
{
    if c == '"' {
        push_char(out, '\\');
        push_char(out, '"');
    } else if c == '\\' {
        push_char(out, '\\');
        push_char(out, '\\');
    } else if c == '\n' {
        push_char(out, '\\');
        push_char(out, 'n');
    } else if c == '\r' {
        push_char(out, '\\');
        push_char(out, 'r');
    } else if c == '\t' {
        push_char(out, '\\');
        push_char(out, 't');
    } else {
        let code = c as u32;
        if code < 0x20 {
            push_char(out, '\\');
            push_char(out, 'u');
            push_char(out, '0');
            push_char(out, '0');
            push_char(out, hex_digit_char(code / 16));
            push_char(out, hex_digit_char(code % 16));
        } else {
            push_char(out, c);
        }
    }
    proof {
        assert(out@ =~= old(out)@ + escape_char(c));
    }
}

/// Appends the escaped form of `s`, so that the result between quotes is a
/// JSON string literal holding exactly `s`.
fn append_escaped(out: &mut String, s: &str)
    ensures
        final(out)@ == old(out)@ + escape_str(s@),
{
    let n = s.unicode_len();
    let mut i: usize = 0;
    while i < n
        invariant
            i <= n,
            n == s@.len(),
            out@ == old(out)@ + escape_str(s@.take(i as int)),
        decreases n - i,
    {
        let c = s.get_char(i);
        append_escaped_char(out, c);
        proof {
            assert(s@.take(i + 1 as int) =~= s@.take(i as int).push(s@[i as int]));
            lemma_escape_str_push(s@.take(i as int), c);
            assert(out@ =~= old(out)@ + escape_str(s@.take(i + 1 as int)));
        }
        i += 1;
    }
    proof {
        assert(s@.take(n as int) =~= s@);
    }
}

fn dec_digit_char(d: u64) -> (c: char)
    requires
        d < 10,
    ensures
        c == dec_digit(d as nat),
{
    hex_digit_char(d as u32)
}

pub(crate) fn append_u64(out: &mut String, n: u64)
    ensures
        final(out)@ == old(out)@ + dec_digits(n as nat),
    decreases n,
{
    if n < 10 {
        push_char(out, dec_digit_char(n));
        proof {
            assert(out@ =~= old(out)@ + dec_digits(n as nat));
        }
    } else {
        append_u64(out, n / 10);
        push_char(out, dec_digit_char(n % 10));
        proof {
            assert(out@ =~= old(out)@ + dec_digits(n as nat));
        }
    }
}

fn append_i32(out: &mut String, v: i32)
    ensures
        final(out)@ == old(out)@ + int_literal(v as int),
{
    if v < 0 {
        push_char(out, '-');
        let m: u64 = (-(v as i64)) as u64;
        append_u64(out, m);
        proof {
            assert(m as nat == (-(v as int)) as nat);
            assert(out@ =~= old(out)@ + int_literal(v as int));
        }
    } else {
        append_u64(out, v as u64);
    }
}

/// The wire name of a role, as sent in the `role` field.
pub fn role_name(r: Role) -> (s: &'static str)
    ensures
        s@ == role_str(r),
{
    match r {
        Role::User => "user",
        Role::Assistant => "assistant",
    }
}

fn append_message_json(out: &mut String, m: &Message)
    ensures
        final(out)@ == old(out)@ + message_json(m@),
{
    out.append("{\"role\":\"");
    out.append(role_name(m.role));
    out.append("\",\"content\":\"");
    append_escaped(out, m.content.as_str());
    out.append("\"}");
    proof {
        assert(out@ =~= old(out)@ + message_json(m@));
    }
}

/// Serializes a snapshot of the conversation plus the configured parameters
/// into the provider's request body.  The result is exactly
/// [`request_json`] of the inputs: field order, escaping and number
/// notation are all pinned down.
pub fn build_request_body(params: &RequestParams, snapshot: &Vec<Message>) -> (body: String)
    ensures
        body@ == request_json(params@, views_of(snapshot@)),
{
    let ghost vs = views_of(snapshot@);
    let mut out = String::new();
    out.append("{\"model\":\"");
    append_escaped(&mut out, params.model.as_str());
    out.append("\",\"stream\":false,\"messages\":[");
    let ghost head = out@;
    let n = snapshot.len();
    let mut i: usize = 0;
    while i < n
        invariant
            i <= n,
            n == snapshot@.len(),
            vs == views_of(snapshot@),
            vs.len() == n,
            out@ == head + messages_json(vs.take(i as int)),
        decreases n - i,
    {
        if i > 0 {
            out.append(",");
        }
        append_message_json(&mut out, &snapshot[i]);
        proof {
            assert(vs.take(i + 1 as int).last() == vs[i as int]);
            assert(vs.take(i + 1 as int).drop_last() =~= vs.take(i as int));
            if i == 0 {
                assert(messages_json(vs.take(1)) == message_json(vs[0]));
                assert(out@ =~= head + messages_json(vs.take(i + 1 as int)));
            } else {
                assert(messages_json(vs.take(i + 1 as int)) == messages_json(vs.take(i as int))
                    + ","@ + message_json(vs[i as int]));
                assert(out@ =~= head + messages_json(vs.take(i + 1 as int)));
            }
        }
        i += 1;
    }
    proof {
        assert(vs.take(n as int) =~= vs);
    }
    out.append("],\"temperature\":");
    append_i32(&mut out, params.temperature);
    out.append(",\"max_tokens\":");
    append_i32(&mut out, params.max_tokens);
    out.append(",\"seed\":");
    append_i32(&mut out, params.seed);
    out.append(",\"top_p\":");
    append_i32(&mut out, params.top_p);
    out.append("}");
    proof {
        assert(out@ =~= request_json(params@, vs));
    }
    out
}

} // verus!
