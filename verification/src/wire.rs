//! The produced wire protocol: one send request per reply, written as a
//! single JSON line. The escaping is exactly what the transport's JSON
//! expects of a string member, so the line never holds a raw line break
//! before its terminating one.

use crate::reply::{OutboundReply, OutboundReplyV};
use vstd::prelude::*;

verus! {

/// A hexadecimal digit as the wire encoder writes it.
pub open spec fn hex_digit(d: int) -> char {
    if d == 0 {
        '0'
    } else if d == 1 {
        '1'
    } else if d == 2 {
        '2'
    } else if d == 3 {
        '3'
    } else if d == 4 {
        '4'
    } else if d == 5 {
        '5'
    } else if d == 6 {
        '6'
    } else if d == 7 {
        '7'
    } else if d == 8 {
        '8'
    } else if d == 9 {
        '9'
    } else if d == 10 {
        'a'
    } else if d == 11 {
        'b'
    } else if d == 12 {
        'c'
    } else if d == 13 {
        'd'
    } else if d == 14 {
        'e'
    } else {
        'f'
    }
}

/// Runtime counterpart of [`hex_digit`].
fn hex_digit_char(d: u32) -> (r: char)
    requires
        d < 16,
    ensures
        r == hex_digit(d as int),
{
    if d == 0 {
        '0'
    } else if d == 1 {
        '1'
    } else if d == 2 {
        '2'
    } else if d == 3 {
        '3'
    } else if d == 4 {
        '4'
    } else if d == 5 {
        '5'
    } else if d == 6 {
        '6'
    } else if d == 7 {
        '7'
    } else if d == 8 {
        '8'
    } else if d == 9 {
        '9'
    } else if d == 10 {
        'a'
    } else if d == 11 {
        'b'
    } else if d == 12 {
        'c'
    } else if d == 13 {
        'd'
    } else if d == 14 {
        'e'
    } else {
        'f'
    }
}

/// How one character appears inside a JSON string member: quote and
/// backslash escaped, control characters as their short escapes or `\u00..`,
/// everything else as itself.
pub open spec fn escape_char(c: char) -> Seq<char> {
    if c == '"' {
        seq!['\\', '"']
    } else if c == '\\' {
        seq!['\\', '\\']
    } else if c == '\u{8}' {
        seq!['\\', 'b']
    } else if c == '\t' {
        seq!['\\', 't']
    } else if c == '\n' {
        seq!['\\', 'n']
    } else if c == '\u{c}' {
        seq!['\\', 'f']
    } else if c == '\r' {
        seq!['\\', 'r']
    } else if (c as u32) < 0x20 {
        seq!['\\', 'u', '0', '0', hex_digit(((c as u32) / 16) as int), hex_digit(
            ((c as u32) % 16) as int,
        )]
    } else {
        seq![c]
    }
}

/// A whole string as it appears inside a JSON string member.
pub open spec fn escape_str(s: Seq<char>) -> Seq<char>
    decreases s.len(),
{
    if s.len() == 0 {
        Seq::<char>::empty()
    } else {
        escape_str(s.drop_last()) + escape_char(s.last())
    }
}

/// Relies on String::push: appends exactly the one character.
#[verifier::external_body]
fn push_char(s: &mut String, c: char)
    ensures
        final(s)@ == old(s)@.push(c),
{
    s.push(c);
}

/// Appends the escaped form of `s` to `out`.
fn escape_into(out: &mut String, s: &str)
    ensures
        final(out)@ == old(out)@ + escape_str(s@),
{
    let ghost base: Seq<char> = out@;
    let n: usize = s.unicode_len();
    let mut i: usize = 0;
    while i < n
        invariant
            i <= n,
            n == s@.len(),
            out@ == base + escape_str(s@.take(i as int)),
        decreases n - i,
    {
        let ghost before: Seq<char> = out@;
        let c: char = s.get_char(i);
        if c == '"' {
            push_char(out, '\\');
            push_char(out, '"');
        } else if c == '\\' {
            push_char(out, '\\');
            push_char(out, '\\');
        } else if c == '\u{8}' {
            push_char(out, '\\');
            push_char(out, 'b');
        } else if c == '\t' {
            push_char(out, '\\');
            push_char(out, 't');
        } else if c == '\n' {
            push_char(out, '\\');
            push_char(out, 'n');
        } else if c == '\u{c}' {
            push_char(out, '\\');
            push_char(out, 'f');
        } else if c == '\r' {
            push_char(out, '\\');
            push_char(out, 'r');
        } else if (c as u32) < 0x20 {
            let u: u32 = c as u32;
            push_char(out, '\\');
            push_char(out, 'u');
            push_char(out, '0');
            push_char(out, '0');
            push_char(out, hex_digit_char(u / 16));
            push_char(out, hex_digit_char(u % 16));
        } else {
            push_char(out, c);
        }
        proof {
            assert(out@ =~= before + escape_char(c));
            assert(s@.take(i + 1).drop_last() =~= s@.take(i as int));
            assert(s@.take(i + 1).last() == c);
            assert(out@ =~= base + escape_str(s@.take(i + 1)));
        }
        i += 1;
    }
    proof {
        assert(s@.take(n as int) =~= s@);
    }
}

/// The send request owed for one reply: the transport's JSON-RPC `send`
/// notification as a single newline-terminated line.
pub open spec fn spec_send_line(recipient: Seq<char>, message: Seq<char>) -> Seq<char> {
    "{\"jsonrpc\":\"2.0\",\"method\":\"send\",\"params\":{\"recipient\":[\""@ + escape_str(recipient)
        + "\"],\"message\":\""@ + escape_str(message) + "\"},\"id\":\"100\"}\n"@
}

/// Builds the wire line of [`spec_send_line`].
pub fn send_line(recipient: &str, message: &str) -> (r: String)
    ensures
        r@ == spec_send_line(recipient@, message@),
{
    let mut out = String::from_str(
        "{\"jsonrpc\":\"2.0\",\"method\":\"send\",\"params\":{\"recipient\":[\"",
    );
    escape_into(&mut out, recipient);
    out.append("\"],\"message\":\"");
    escape_into(&mut out, message);
    out.append("\"},\"id\":\"100\"}\n");
    proof {
        assert(out@ =~= spec_send_line(recipient@, message@));
    }
    out
}

/// The wire line of one reply.
pub open spec fn spec_reply_line(r: OutboundReplyV) -> Seq<char> {
    spec_send_line(r.destination, r.text)
}

/// Runtime counterpart of [`spec_reply_line`].
pub fn reply_line(r: &OutboundReply) -> (l: String)
    ensures
        l@ == spec_reply_line(r@),
{
    send_line(r.destination.as_str(), r.text.as_str())
}

/// The wire lines owed for a batch of replies, in receipt order.
pub open spec fn spec_reply_lines(rs: Seq<OutboundReplyV>) -> Seq<Seq<char>> {
    rs.map_values(|r: OutboundReplyV| spec_reply_line(r))
}

/// Serializer law: a batch of N replies becomes exactly N lines, one per
/// reply and in receipt order, and each is a single unbroken line — so
/// concurrently produced replies cannot interleave inside the stream.
pub proof fn lemma_serializer_exact_writes(rs: Seq<OutboundReplyV>)
    ensures
        spec_reply_lines(rs).len() == rs.len(),
        forall|k: int|
            0 <= k < rs.len() ==> #[trigger] spec_reply_lines(rs)[k] == spec_reply_line(rs[k]),
        forall|k: int|
            0 <= k < rs.len() ==> (#[trigger] spec_reply_lines(rs)[k]).len() > 0
                && spec_reply_lines(rs)[k].last() == '\n' && newline_free(
                spec_reply_lines(rs)[k].drop_last(),
            ),
{
    assert forall|k: int|
        0 <= k < rs.len() implies (#[trigger] spec_reply_lines(rs)[k]).len() > 0
        && spec_reply_lines(rs)[k].last() == '\n' && newline_free(
        spec_reply_lines(rs)[k].drop_last(),
    ) by {
        lemma_reply_line_unbroken(rs[k]);
    }
}

/// No character of `s` is a line break.
pub open spec fn newline_free(s: Seq<char>) -> bool
    decreases s.len(),
{
    s.len() == 0 || (s.last() != '\n' && newline_free(s.drop_last()))
}

/// `newline_free` says exactly that no position of `s` holds `'\n'`.
pub proof fn lemma_newline_free_iff(s: Seq<char>)
    ensures
        newline_free(s) <==> (forall|k: int| 0 <= k < s.len() ==> s[k] != '\n'),
    decreases s.len(),
{
    if s.len() > 0 {
        let dl = s.drop_last();
        lemma_newline_free_iff(dl);
        if newline_free(s) {
            assert forall|k: int| 0 <= k < s.len() implies s[k] != '\n' by {
                if k < s.len() - 1 {
                    assert(s[k] == dl[k]);
                } else {
                    assert(s[k] == s.last());
                }
            }
        }
        if forall|k: int| 0 <= k < s.len() ==> s[k] != '\n' {
            assert(s.last() == s[s.len() - 1]);
            assert forall|k: int| 0 <= k < dl.len() implies dl[k] != '\n' by {
                assert(dl[k] == s[k]);
            }
            assert(newline_free(s));
        }
    }
}

pub proof fn lemma_newline_free_concat(a: Seq<char>, b: Seq<char>)
    requires
        newline_free(a),
        newline_free(b),
    ensures
        newline_free(a + b),
{
    lemma_newline_free_iff(a);
    lemma_newline_free_iff(b);
    lemma_newline_free_iff(a + b);
    assert forall|k: int| 0 <= k < (a + b).len() implies (a + b)[k] != '\n' by {
        if k < a.len() {
            assert((a + b)[k] == a[k]);
        } else {
            assert((a + b)[k] == b[k - a.len()]);
        }
    }
}

/// One serialized reply is a single unbroken line: non-empty, and the only
/// line break it holds is its terminating one. However many tasks complete
/// concurrently, each reply reaches the stream as one whole line.
#[verifier::rlimit(100)]
pub proof fn lemma_reply_line_unbroken(r: OutboundReplyV)
    ensures
        spec_reply_line(r).len() > 0,
        spec_reply_line(r).last() == '\n',
        newline_free(spec_reply_line(r).drop_last()),
{
    let a = "{\"jsonrpc\":\"2.0\",\"method\":\"send\",\"params\":{\"recipient\":[\""@;
    let b = "\"],\"message\":\""@;
    let c = "\"},\"id\":\"100\"}\n"@;
    let e1 = escape_str(r.destination);
    let e2 = escape_str(r.text);
    let line = spec_reply_line(r);
    assert(newline_free(a)) by {
        reveal_strlit("{\"jsonrpc\":\"2.0\",\"method\":\"send\",\"params\":{\"recipient\":[\"");
        assert(a.len() == 57);
        assert(a =~= a.subrange(0, 28) + a.subrange(28, 57));
        assert(newline_free(a.subrange(0, 28))) by {
            reveal_strlit("{\"jsonrpc\":\"2.0\",\"method\":\"send\",\"params\":{\"recipient\":[\"");
            reveal_with_fuel(newline_free, 32);
        }
        assert(newline_free(a.subrange(28, 57))) by {
            reveal_strlit("{\"jsonrpc\":\"2.0\",\"method\":\"send\",\"params\":{\"recipient\":[\"");
            reveal_with_fuel(newline_free, 32);
        }
        lemma_newline_free_concat(a.subrange(0, 28), a.subrange(28, 57));
    }
    assert(newline_free(b)) by {
        reveal_strlit("\"],\"message\":\"");
        reveal_with_fuel(newline_free, 16);
    }
    assert(c.len() == 15 && c.last() == '\n' && newline_free(c.drop_last())) by {
        reveal_strlit("\"},\"id\":\"100\"}\n");
        reveal_with_fuel(newline_free, 16);
    }
    lemma_escape_newline_free(r.destination);
    lemma_escape_newline_free(r.text);
    assert(line =~= a + e1 + b + e2 + c);
    assert(line.last() == '\n');
    assert(line.drop_last() =~= a + e1 + b + e2 + c.drop_last());
    lemma_newline_free_concat(a, e1);
    lemma_newline_free_concat(a + e1, b);
    lemma_newline_free_concat(a + e1 + b, e2);
    lemma_newline_free_concat(a + e1 + b + e2, c.drop_last());
}

/// The escaped form of any text holds no line break: a raw break is written
/// as its two-character escape.
pub proof fn lemma_escape_newline_free(s: Seq<char>)
    ensures
        newline_free(escape_str(s)),
    decreases s.len(),
{
    if s.len() == 0 {
    } else {
        lemma_escape_newline_free(s.drop_last());
        let c = s.last();
        assert(newline_free(escape_char(c))) by {
            lemma_newline_free_iff(escape_char(c));
        }
        lemma_newline_free_concat(escape_str(s.drop_last()), escape_char(c));
    }
}

} // verus!
