//! Rendering the uniform error response body as JSON bytes:
//! `{"code":<api code>,"title":"<title>","message":"<message>"}`, with the
//! text fields escaped so that any detail a client slipped into an id comes
//! out as valid JSON.

use vstd::prelude::*;
use vstd::string::StrSliceExecFns;
use vstd::string::StringSliceAdditionalSpecFns;

verus! {

/// The byte for a hexadecimal digit value, lowercase.
pub open spec fn spec_hex_digit(v: u8) -> u8
    recommends
        v < 16,
{
    if v < 10 {
        (0x30 + v) as u8
    } else {
        (0x57 + v) as u8
    }
}

/// The JSON escaping of one byte of text: quote and backslash take a
/// backslash, control bytes become `\u00XX`, everything else stands as is.
pub open spec fn spec_escape_byte(b: u8) -> Seq<u8> {
    if b == 0x22 {
        seq![0x5c, 0x22]
    } else if b == 0x5c {
        seq![0x5c, 0x5c]
    } else if b < 0x20 {
        seq![0x5c, 0x75, 0x30, 0x30, spec_hex_digit(b / 16), spec_hex_digit(b % 16)]
    } else {
        seq![b]
    }
}

/// The JSON escaping of a whole text.
pub open spec fn spec_escape(s: Seq<u8>) -> Seq<u8>
    decreases s.len(),
{
    if s.len() == 0 {
        Seq::<u8>::empty()
    } else {
        spec_escape_byte(s[0]) + spec_escape(s.drop_first())
    }
}

/// Escaping distributes over appending one byte at the end.
proof fn lemma_escape_snoc(s: Seq<u8>, b: u8)
    ensures
        spec_escape(s.push(b)) == spec_escape(s) + spec_escape_byte(b),
    decreases s.len(),
{
    if s.len() == 0 {
        assert(s.push(b)[0] == b);
        assert(s.push(b).drop_first() =~= Seq::<u8>::empty());
        assert(spec_escape(s.push(b)) == spec_escape_byte(b) + spec_escape(Seq::<u8>::empty()));
        assert(spec_escape_byte(b) + Seq::<u8>::empty() =~= spec_escape_byte(b));
        assert(spec_escape(s) + spec_escape_byte(b) =~= spec_escape_byte(b));
    } else {
        assert(s.push(b).drop_first() =~= s.drop_first().push(b));
        lemma_escape_snoc(s.drop_first(), b);
        assert(s.push(b)[0] == s[0]);
        assert(spec_escape_byte(s[0]) + (spec_escape(s.drop_first()) + spec_escape_byte(b))
            =~= (spec_escape_byte(s[0]) + spec_escape(s.drop_first())) + spec_escape_byte(b));
    }
}

/// The decimal digits of an API code, without leading zeroes.
pub open spec fn spec_decimal(code: u8) -> Seq<u8> {
    if code < 10 {
        seq![(0x30 + code) as u8]
    } else if code < 100 {
        seq![(0x30 + code / 10) as u8, (0x30 + code % 10) as u8]
    } else {
        seq![
            (0x30 + code / 100) as u8,
            (0x30 + (code / 10) % 10) as u8,
            (0x30 + code % 10) as u8,
        ]
    }
}

/// The opening of the body, up to the code value: `{"code":`.
pub open spec fn spec_json_head() -> Seq<u8> {
    seq![0x7b, 0x22, 0x63, 0x6f, 0x64, 0x65, 0x22, 0x3a]
}

/// Between the code and the title value: `,"title":"`.
pub open spec fn spec_json_title_key() -> Seq<u8> {
    seq![0x2c, 0x22, 0x74, 0x69, 0x74, 0x6c, 0x65, 0x22, 0x3a, 0x22]
}

/// Between the title and the message value: `","message":"`.
pub open spec fn spec_json_message_key() -> Seq<u8> {
    seq![0x22, 0x2c, 0x22, 0x6d, 0x65, 0x73, 0x73, 0x61, 0x67, 0x65, 0x22, 0x3a, 0x22]
}

/// The closing of the body: `"}`.
pub open spec fn spec_json_tail() -> Seq<u8> {
    seq![0x22, 0x7d]
}

/// The JSON error body for an API code and the UTF-8 bytes of a title and
/// a message.
pub open spec fn spec_error_body_bytes(code: u8, title: Seq<u8>, message: Seq<u8>) -> Seq<u8> {
    spec_json_head() + spec_decimal(code) + spec_json_title_key() + spec_escape(title)
        + spec_json_message_key() + spec_escape(message) + spec_json_tail()
}

/// Appends the decimal digits of `code`.
fn push_decimal(out: &mut Vec<u8>, code: u8)
    ensures
        final(out)@ == old(out)@ + spec_decimal(code),
{
    let ghost pre = out@;
    if code >= 100 {
        out.push(0x30 + code / 100);
        out.push(0x30 + (code / 10) % 10);
        out.push(0x30 + code % 10);
    } else if code >= 10 {
        out.push(0x30 + code / 10);
        out.push(0x30 + code % 10);
    } else {
        out.push(0x30 + code);
    }
    proof {
        assert(out@ =~= pre + spec_decimal(code));
    }
}

/// Appends the JSON escaping of `text`.
fn push_escaped(out: &mut Vec<u8>, text: &Vec<u8>)
    ensures
        final(out)@ == old(out)@ + spec_escape(text@),
{
    let ghost pre = out@;
    let mut i: usize = 0;
    proof {
        assert(text@.take(0) =~= Seq::<u8>::empty());
        assert(pre + spec_escape(text@.take(0)) =~= pre);
    }
    while i < text.len()
        invariant
            i <= text@.len(),
            out@ == pre + spec_escape(text@.take(i as int)),
        decreases text@.len() - i,
    {
        let b = text[i];
        if b == 0x22 {
            out.push(0x5c);
            out.push(0x22);
        } else if b == 0x5c {
            out.push(0x5c);
            out.push(0x5c);
        } else if b < 0x20 {
            out.push(0x5c);
            out.push(0x75);
            out.push(0x30);
            out.push(0x30);
            if b / 16 < 10 {
                out.push(0x30 + b / 16);
            } else {
                out.push(0x57 + b / 16);
            }
            if b % 16 < 10 {
                out.push(0x30 + b % 16);
            } else {
                out.push(0x57 + b % 16);
            }
        } else {
            out.push(b);
        }
        proof {
            lemma_escape_snoc(text@.take(i as int), text@[i as int]);
            assert(text@.take(i + 1) =~= text@.take(i as int).push(text@[i as int]));
            assert(out@ =~= pre + (spec_escape(text@.take(i as int)) + spec_escape_byte(
                text@[i as int],
            )));
        }
        i += 1;
    }
    proof {
        assert(text@.take(text@.len() as int) =~= text@);
    }
}

/// Renders the uniform JSON error body from an API code, a title, and a
/// rendered message.
pub fn render_error_body(code: u8, title: &str, message: &str) -> (body: Vec<u8>)
    ensures
        body@ == spec_error_body_bytes(code, title.spec_bytes(), message.spec_bytes()),
{
    let mut out: Vec<u8> = Vec::new();
    out.push(0x7b);
    out.push(0x22);
    out.push(0x63);
    out.push(0x6f);
    out.push(0x64);
    out.push(0x65);
    out.push(0x22);
    out.push(0x3a);
    proof {
        assert(out@ =~= spec_json_head());
    }
    push_decimal(&mut out, code);
    let ghost after_code = out@;
    out.push(0x2c);
    out.push(0x22);
    out.push(0x74);
    out.push(0x69);
    out.push(0x74);
    out.push(0x6c);
    out.push(0x65);
    out.push(0x22);
    out.push(0x3a);
    out.push(0x22);
    proof {
        assert(out@ =~= after_code + spec_json_title_key());
    }
    let title_bytes = title.as_bytes_vec();
    push_escaped(&mut out, &title_bytes);
    let ghost after_title = out@;
    out.push(0x22);
    out.push(0x2c);
    out.push(0x22);
    out.push(0x6d);
    out.push(0x65);
    out.push(0x73);
    out.push(0x73);
    out.push(0x61);
    out.push(0x67);
    out.push(0x65);
    out.push(0x22);
    out.push(0x3a);
    out.push(0x22);
    proof {
        assert(out@ =~= after_title + spec_json_message_key());
    }
    let message_bytes = message.as_bytes_vec();
    push_escaped(&mut out, &message_bytes);
    out.push(0x22);
    out.push(0x7d);
    proof {
        assert(out@ =~= spec_error_body_bytes(code, title.spec_bytes(), message.spec_bytes()));
    }
    out
}

} // verus!
