//! The outbound webhook envelope: a JSON object with a single `content`
//! field, framed and escaped by verified code. The escaping follows the JSON
//! grammar: quote and backslash get a backslash, the named control characters
//! get their short escapes, the remaining control characters appear as
//! `\u00..`, and every other character stands for itself.

use vstd::prelude::*;
use vstd::string::*;

verus! {

/// The lower-case hex digit for a value below sixteen.
pub open spec fn hex_digit(n: int) -> char
    recommends
        0 <= n < 16,
{
    if n == 0 {
        '0'
    } else if n == 1 {
        '1'
    } else if n == 2 {
        '2'
    } else if n == 3 {
        '3'
    } else if n == 4 {
        '4'
    } else if n == 5 {
        '5'
    } else if n == 6 {
        '6'
    } else if n == 7 {
        '7'
    } else if n == 8 {
        '8'
    } else if n == 9 {
        '9'
    } else if n == 10 {
        'a'
    } else if n == 11 {
        'b'
    } else if n == 12 {
        'c'
    } else if n == 13 {
        'd'
    } else if n == 14 {
        'e'
    } else {
        'f'
    }
}

/// The characters that have a two-character escape of their own.
pub open spec fn has_short_escape(c: char) -> bool {
    c == '"' || c == '\\' || c == '\u{0008}' || c == '\t' || c == '\n' || c == '\u{000c}' || c
        == '\r'
}

/// How one character of the message appears inside the payload's JSON string.
pub open spec fn escaped_char(c: char) -> Seq<char> {
    if c == '"' {
        seq!['\\', '"']
    } else if c == '\\' {
        seq!['\\', '\\']
    } else if c == '\u{0008}' {
        seq!['\\', 'b']
    } else if c == '\t' {
        seq!['\\', 't']
    } else if c == '\n' {
        seq!['\\', 'n']
    } else if c == '\u{000c}' {
        seq!['\\', 'f']
    } else if c == '\r' {
        seq!['\\', 'r']
    } else if (c as u32) < 32 {
        seq!['\\', 'u', '0', '0', hex_digit((c as u32) as int / 16), hex_digit((c as u32) as int % 16)]
    } else {
        seq![c]
    }
}

/// The escaped form of a whole message.
pub open spec fn escaped_text(s: Seq<char>) -> Seq<char>
    decreases s.len(),
{
    if s.len() == 0 {
        Seq::empty()
    } else {
        escaped_char(s[0]) + escaped_text(s.drop_first())
    }
}

/// The full payload sent to the webhook: exactly one field, `content`,
/// holding the escaped message.
pub open spec fn payload_text(content: Seq<char>) -> Seq<char> {
    "{\"content\":\""@ + escaped_text(content) + "\"}"@
}

/// Escaping a message one character longer appends that character's escape.
pub proof fn lemma_escaped_text_push(s: Seq<char>, c: char)
    ensures
        escaped_text(s.push(c)) == escaped_text(s) + escaped_char(c),
    decreases s.len(),
{
    if s.len() == 0 {
        assert(s.push(c)[0] == c);
        assert(s.push(c).drop_first() =~= Seq::<char>::empty());
        assert(escaped_text(s.push(c).drop_first()) == Seq::<char>::empty());
        assert(escaped_text(s.push(c)) == escaped_char(c) + Seq::<char>::empty());
        assert(escaped_text(s.push(c)) =~= escaped_text(s) + escaped_char(c));
    } else {
        lemma_escaped_text_push(s.drop_first(), c);
        assert(s.push(c)[0] == s[0]);
        assert(s.push(c).drop_first() =~= s.drop_first().push(c));
        assert(escaped_text(s.push(c)) == escaped_char(s[0]) + escaped_text(s.drop_first().push(c)));
        assert(escaped_text(s.push(c)) == escaped_char(s[0]) + (escaped_text(s.drop_first())
            + escaped_char(c)));
        assert(escaped_text(s.push(c)) =~= escaped_text(s) + escaped_char(c));
    }
}

/// The shape of a character's escape: its length, its leading character,
/// and what its second character tells about the escape taken.
pub proof fn lemma_escaped_char_shape(c: char)
    ensures
        has_short_escape(c) ==> escaped_char(c).len() == 2 && escaped_char(c)[0] == '\\' && (
        escaped_char(c)[1] == '"' || escaped_char(c)[1] == '\\' || escaped_char(c)[1] == 'b'
            || escaped_char(c)[1] == 't' || escaped_char(c)[1] == 'n' || escaped_char(c)[1] == 'f'
            || escaped_char(c)[1] == 'r'),
        !has_short_escape(c) && (c as u32) < 32 ==> escaped_char(c).len() == 6 && escaped_char(
            c,
        )[0] == '\\' && escaped_char(c)[1] == 'u',
        !has_short_escape(c) && (c as u32) >= 32 ==> escaped_char(c).len() == 1 && escaped_char(
            c,
        )[0] == c && c != '\\',
{
}

/// Two characters with the same escape are the same character.
pub proof fn lemma_escaped_char_injective(a: char, b: char)
    requires
        escaped_char(a) == escaped_char(b),
    ensures
        a == b,
{
    lemma_escaped_char_shape(a);
    lemma_escaped_char_shape(b);
    assert(escaped_char(a)[0] == escaped_char(b)[0]);
    if !has_short_escape(a) && (a as u32) >= 32 {
        assert(a == b);
    } else if has_short_escape(a) {
        assert(escaped_char(a)[1] == escaped_char(b)[1]);
        assert(has_short_escape(b));
        assert(a == b);
    } else {
        assert(escaped_char(a)[1] == escaped_char(b)[1]);
        assert(!has_short_escape(b) && (b as u32) < 32);
        assert(escaped_char(a)[4] == escaped_char(b)[4]);
        assert(escaped_char(a)[5] == escaped_char(b)[5]);
        let ca = (a as u32) as int;
        let cb = (b as u32) as int;
        assert(hex_digit(ca / 16) == hex_digit(cb / 16));
        assert(hex_digit(ca % 16) == hex_digit(cb % 16));
        assert(ca / 16 == cb / 16);
        assert(ca % 16 == cb % 16);
        assert(ca == cb);
        vstd::utf8::char_u32_cast(a, a as u32);
        vstd::utf8::char_u32_cast(b, b as u32);
        assert(a == b);
    }
}

/// Two messages with the same escaped form are the same message: the
/// escaping loses nothing, so the payload's `content` field carries the
/// decoded message exactly.
pub proof fn lemma_escaped_text_injective(s1: Seq<char>, s2: Seq<char>)
    requires
        escaped_text(s1) == escaped_text(s2),
    ensures
        s1 =~= s2,
    decreases s1.len(),
{
    if s1.len() == 0 && s2.len() == 0 {
    } else if s1.len() == 0 {
        lemma_escaped_char_shape(s2[0]);
        assert(escaped_text(s2).len() >= escaped_char(s2[0]).len());
        assert(false);
    } else if s2.len() == 0 {
        lemma_escaped_char_shape(s1[0]);
        assert(escaped_text(s1).len() >= escaped_char(s1[0]).len());
        assert(false);
    } else {
        let a = s1[0];
        let b = s2[0];
        let ea = escaped_char(a);
        let eb = escaped_char(b);
        let ra = escaped_text(s1.drop_first());
        let rb = escaped_text(s2.drop_first());
        let t = escaped_text(s1);
        assert(t == ea + ra);
        assert(t == eb + rb);
        lemma_escaped_char_shape(a);
        lemma_escaped_char_shape(b);
        assert(t[0] == ea[0] && t[0] == eb[0]);
        if ea.len() >= 2 && eb.len() >= 2 {
            assert(t[1] == ea[1] && t[1] == eb[1]);
        }
        assert(ea.len() == eb.len());
        assert(ea =~= eb) by {
            assert forall|i: int| 0 <= i < ea.len() implies ea[i] == eb[i] by {
                assert(t[i] == ea[i]);
                assert(t[i] == eb[i]);
            }
        }
        lemma_escaped_char_injective(a, b);
        assert(ra =~= rb) by {
            assert(ra.len() == rb.len());
            assert forall|i: int| 0 <= i < ra.len() implies ra[i] == rb[i] by {
                assert(t[ea.len() + i] == ra[i]);
                assert(t[eb.len() + i] == rb[i]);
            }
        }
        lemma_escaped_text_injective(s1.drop_first(), s2.drop_first());
        assert(s1.len() == s2.len());
        assert forall|i: int| 0 <= i < s1.len() implies s1[i] == s2[i] by {
            if i > 0 {
                assert(s1[i] == s1.drop_first()[i - 1]);
                assert(s2[i] == s2.drop_first()[i - 1]);
            }
        }
        assert(s1 =~= s2);
    }
}

/// The payload determines the message: the envelope holds exactly one
/// field, and equal payloads carry equal content.
pub proof fn lemma_payload_determines_content(a: Seq<char>, b: Seq<char>)
    requires
        payload_text(a) == payload_text(b),
    ensures
        a =~= b,
{
    let p = "{\"content\":\""@;
    let s = "\"}"@;
    let ea = escaped_text(a);
    let eb = escaped_text(b);
    let t = payload_text(a);
    assert(t == (p + ea) + s);
    assert(t == (p + eb) + s);
    assert(t.len() == p.len() + ea.len() + s.len());
    assert(t.len() == p.len() + eb.len() + s.len());
    assert(ea.len() == eb.len());
    assert(ea =~= eb) by {
        assert forall|i: int| 0 <= i < ea.len() implies ea[i] == eb[i] by {
            assert(t[p.len() + i] == (p + ea)[p.len() + i]);
            assert((p + ea)[p.len() + i] == ea[i]);
            assert(t[p.len() + i] == (p + eb)[p.len() + i]);
            assert((p + eb)[p.len() + i] == eb[i]);
        }
    }
    lemma_escaped_text_injective(a, b);
}

/// Relies on String::push: it appends exactly the given character.
#[verifier::external_body]
fn push_char(out: &mut String, c: char)
    ensures
        final(out)@ == old(out)@ + seq![c],
{
    out.push(c);
}

/// The lower-case hex digit for a value below sixteen.
fn hex_char(n: u32) -> (c: char)
    requires
        n < 16,
    ensures
        c == hex_digit(n as int),
{
    if n == 0 {
        '0'
    } else if n == 1 {
        '1'
    } else if n == 2 {
        '2'
    } else if n == 3 {
        '3'
    } else if n == 4 {
        '4'
    } else if n == 5 {
        '5'
    } else if n == 6 {
        '6'
    } else if n == 7 {
        '7'
    } else if n == 8 {
        '8'
    } else if n == 9 {
        '9'
    } else if n == 10 {
        'a'
    } else if n == 11 {
        'b'
    } else if n == 12 {
        'c'
    } else if n == 13 {
        'd'
    } else if n == 14 {
        'e'
    } else {
        'f'
    }
}

/// Appends the escaped form of `s` to `out`.
fn escape_into(out: &mut String, s: &str)
    ensures
        final(out)@ == old(out)@ + escaped_text(s@),
{
    let ghost base: Seq<char> = out@;
    let n: usize = s.unicode_len();
    let mut i: usize = 0;
    while i < n
        invariant
            n == s@.len(),
            0 <= i <= n,
            out@ == base + escaped_text(s@.take(i as int)),
        decreases n - i,
    {
        let c = s.get_char(i);
        let ghost before: Seq<char> = out@;
        if c == '"' {
            out.append("\\\"");
            proof {
                reveal_strlit("\\\"");
                assert(out@ =~= before + escaped_char(c));
            }
        } else if c == '\\' {
            out.append("\\\\");
            proof {
                reveal_strlit("\\\\");
                assert(out@ =~= before + escaped_char(c));
            }
        } else if c == '\u{0008}' {
            out.append("\\b");
            proof {
                reveal_strlit("\\b");
                assert(out@ =~= before + escaped_char(c));
            }
        } else if c == '\t' {
            out.append("\\t");
            proof {
                reveal_strlit("\\t");
                assert(out@ =~= before + escaped_char(c));
            }
        } else if c == '\n' {
            out.append("\\n");
            proof {
                reveal_strlit("\\n");
                assert(out@ =~= before + escaped_char(c));
            }
        } else if c == '\u{000c}' {
            out.append("\\f");
            proof {
                reveal_strlit("\\f");
                assert(out@ =~= before + escaped_char(c));
            }
        } else if c == '\r' {
            out.append("\\r");
            proof {
                reveal_strlit("\\r");
                assert(out@ =~= before + escaped_char(c));
            }
        } else if (c as u32) < 32 {
            let code: u32 = c as u32;
            out.append("\\u00");
            push_char(out, hex_char(code / 16));
            push_char(out, hex_char(code % 16));
            proof {
                reveal_strlit("\\u00");
                assert(out@ =~= before + escaped_char(c));
            }
        } else {
            push_char(out, c);
            proof {
                assert(out@ =~= before + escaped_char(c));
            }
        }
        proof {
            lemma_escaped_text_push(s@.take(i as int), c);
            assert(s@.take(i + 1 as int) =~= s@.take(i as int).push(c));
            assert(out@ =~= base + escaped_text(s@.take(i + 1 as int)));
        }
        i = i + 1;
    }
    proof {
        assert(s@.take(n as int) =~= s@);
    }
}

/// Builds the webhook payload for a message.
pub fn encode_payload(content: &str) -> (r: String)
    ensures
        r@ == payload_text(content@),
{
    let mut out = String::from_str("{\"content\":\"");
    escape_into(&mut out, content);
    out.append("\"}");
    proof {
        assert(out@ =~= payload_text(content@));
    }
    out
}

} // verus!
