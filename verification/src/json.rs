//! Framing the JSON body of a generation request.  The body is built
//! character by character under an exact specification, including JSON
//! string escaping of the prompt text.

use vstd::prelude::*;

verus! {

use vstd::string::StrSliceExecFns;
use vstd::string::StringExecFns;

/// The hexadecimal digit characters in order; index `d` is the digit
/// `d`.
pub open spec fn hex_digits() -> Seq<char> {
    "0123456789abcdef"@
}

/// How one character appears inside a JSON string literal: quote and
/// backslash are escaped, the named control characters get their short
/// escapes, any other control character a `\u00..` escape, and
/// everything else stands as itself.
pub open spec fn esc_char(c: char) -> Seq<char> {
    if c == '"' {
        seq!['\\', '"']
    } else if c == '\\' {
        seq!['\\', '\\']
    } else if c == '\u{0008}' {
        seq!['\\', 'b']
    } else if c == '\u{000C}' {
        seq!['\\', 'f']
    } else if c == '\n' {
        seq!['\\', 'n']
    } else if c == '\r' {
        seq!['\\', 'r']
    } else if c == '\t' {
        seq!['\\', 't']
    } else if (c as u32) < 32 {
        seq!['\\', 'u', '0', '0'] + seq![
            hex_digits()[((c as u32) / 16) as int],
            hex_digits()[((c as u32) % 16) as int],
        ]
    } else {
        seq![c]
    }
}

/// The JSON string-literal image of a text: each character escaped as
/// `esc_char` says, in order.
pub open spec fn json_escape_spec(s: Seq<char>) -> Seq<char>
    decreases s.len(),
{
    if s.len() == 0 {
        Seq::empty()
    } else {
        esc_char(s[0]) + json_escape_spec(s.drop_first())
    }
}

proof fn lemma_json_escape_push(s: Seq<char>, c: char)
    ensures
        json_escape_spec(s.push(c)) == json_escape_spec(s) + esc_char(c),
    decreases s.len(),
{
    if s.len() == 0 {
        assert(s.push(c).drop_first() =~= s);
        assert(json_escape_spec(s.push(c)) =~= json_escape_spec(s) + esc_char(c));
    } else {
        assert(s.push(c).drop_first() =~= s.drop_first().push(c));
        lemma_json_escape_push(s.drop_first(), c);
        assert(json_escape_spec(s.push(c)) =~= json_escape_spec(s) + esc_char(c));
    }
}

/// Escapes a text for inclusion inside a JSON string literal.
pub fn json_escape(s: &str) -> (r: String)
    ensures
        r@ == json_escape_spec(s@),
{
    let n: usize = s.unicode_len();
    let mut r = String::new();
    let mut i: usize = 0;
    while i < n
        invariant
            i <= n,
            n == s@.len(),
            r@ == json_escape_spec(s@.take(i as int)),
        decreases n - i,
    {
        let c: char = s.get_char(i);
        if c == '"' {
            r.append("\\\"");
            proof {
                reveal_strlit("\\\"");
                assert("\\\""@ =~= esc_char(c));
            }
        } else if c == '\\' {
            r.append("\\\\");
            proof {
                reveal_strlit("\\\\");
                assert("\\\\"@ =~= esc_char(c));
            }
        } else if c == '\u{0008}' {
            r.append("\\b");
            proof {
                reveal_strlit("\\b");
                assert("\\b"@ =~= esc_char(c));
            }
        } else if c == '\u{000C}' {
            r.append("\\f");
            proof {
                reveal_strlit("\\f");
                assert("\\f"@ =~= esc_char(c));
            }
        } else if c == '\n' {
            r.append("\\n");
            proof {
                reveal_strlit("\\n");
                assert("\\n"@ =~= esc_char(c));
            }
        } else if c == '\r' {
            r.append("\\r");
            proof {
                reveal_strlit("\\r");
                assert("\\r"@ =~= esc_char(c));
            }
        } else if c == '\t' {
            r.append("\\t");
            proof {
                reveal_strlit("\\t");
                assert("\\t"@ =~= esc_char(c));
            }
        } else if (c as u32) < 32 {
            let cu: u32 = c as u32;
            let hi: usize = (cu / 16) as usize;
            let lo: usize = (cu % 16) as usize;
            proof {
                reveal_strlit("\\u00");
                reveal_strlit("0123456789abcdef");
            }
            r.append("\\u00");
            r.append("0123456789abcdef".substring_char(hi, hi + 1));
            r.append("0123456789abcdef".substring_char(lo, lo + 1));
            proof {
                assert("\\u00"@ + "0123456789abcdef"@.subrange(hi as int, hi as int + 1)
                    + "0123456789abcdef"@.subrange(lo as int, lo as int + 1) =~= esc_char(c));
            }
        } else {
            r.append(s.substring_char(i, i + 1));
            proof {
                assert(s@.subrange(i as int, i as int + 1) =~= esc_char(c));
            }
        }
        proof {
            assert(s@.take(i as int + 1) =~= s@.take(i as int).push(c));
            lemma_json_escape_push(s@.take(i as int), c);
        }
        i = i + 1;
    }
    proof {
        assert(s@.take(n as int) =~= s@);
    }
    r
}

/// The JSON body of one generation request: the escaped prompt, the
/// fixed model `"flux"`, the fixed style `"animated3d"`, 8 steps, and
/// no seed.
pub open spec fn generate_body_spec(prompt: Seq<char>) -> Seq<char> {
    "{\"prompt\":\""@ + json_escape_spec(prompt)
        + "\",\"model\":\"flux\",\"style\":\"animated3d\",\"steps\":8,\"seed\":null}"@
}

/// Frames the JSON request body for one prompt.
pub fn generate_body(prompt: &str) -> (r: String)
    ensures
        r@ == generate_body_spec(prompt@),
{
    let mut r = String::from_str("{\"prompt\":\"");
    r.append(json_escape(prompt).as_str());
    r.append("\",\"model\":\"flux\",\"style\":\"animated3d\",\"steps\":8,\"seed\":null}");
    r
}

} // verus!
