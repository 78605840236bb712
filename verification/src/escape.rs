//! String-literal escaping: the UTF-16 code units of a source string are
//! rendered as printable ASCII, with named escapes for the common control
//! characters, the quote character escaped, and every other unit below
//! `0x20` or above `0x7E` spelled as a 4-digit hex escape.

use vstd::prelude::*;

verus! {

/// The lowercase hex digit for `n < 16`.
pub open spec fn spec_hex_digit(n: nat) -> char {
    if n < 10 {
        ((48 + n) as u8) as char
    } else {
        ((87 + n) as u8) as char
    }
}

/// The four lowercase hex digits of a 16-bit value, high nibble first.
pub open spec fn spec_hex4(c: u16) -> Seq<char> {
    seq![
        spec_hex_digit(((c as nat) / 4096) % 16),
        spec_hex_digit(((c as nat) / 256) % 16),
        spec_hex_digit(((c as nat) / 16) % 16),
        spec_hex_digit((c as nat) % 16),
    ]
}

/// The escape of one code unit: named escapes first, then a backslash
/// before the quote character itself, then the printable range verbatim,
/// and everything else as `\u` plus four hex digits.
pub open spec fn spec_esc_unit(c: u16, esc: char) -> Seq<char> {
    if c == 0x5c {
        "\\\\"@
    } else if c == 0x08 {
        "\\b"@
    } else if c == 0x0c {
        "\\f"@
    } else if c == 0x0a {
        "\\n"@
    } else if c == 0x0d {
        "\\r"@
    } else if c == 0x09 {
        "\\t"@
    } else if c == 0x0b {
        "\\v"@
    } else {
        let pre: Seq<char> = if c as nat == esc as nat {
            "\\"@
        } else {
            Seq::empty()
        };
        if 0x20 <= c && c <= 0x7e {
            pre.push((c as u8) as char)
        } else {
            pre + "\\u"@ + spec_hex4(c)
        }
    }
}

/// The escaped text of the code units from index `i` on.
pub open spec fn spec_escaped_from(units: Seq<u16>, i: int, esc: char) -> Seq<char>
    decreases units.len() - i,
{
    if 0 <= i < units.len() {
        spec_esc_unit(units[i], esc) + spec_escaped_from(units, i + 1, esc)
    } else {
        Seq::empty()
    }
}

/// The escaped text of a whole string literal.
pub open spec fn spec_escaped(units: Seq<u16>, esc: char) -> Seq<char> {
    spec_escaped_from(units, 0, esc)
}

/// Relies on std's `String::push`: appends exactly one character.
#[verifier::external_body]
fn push_char(s: &mut String, c: char)
    ensures
        final(s)@ == old(s)@.push(c),
{
    s.push(c);
}

/// The lowercase hex digit character for `d < 16`.
fn hex_digit_char(d: u16) -> (r: char)
    requires
        d < 16,
    ensures
        r == spec_hex_digit(d as nat),
{
    if d < 10 {
        (48 + d as u8) as char
    } else {
        (87 + d as u8) as char
    }
}

/// The escape of one code unit, as an owned string.
fn escape_unit(c: u16, esc: char) -> (r: String)
    ensures
        r@ == spec_esc_unit(c, esc),
{
    if c == 0x5c {
        return "\\\\".to_owned();
    }
    if c == 0x08 {
        return "\\b".to_owned();
    }
    if c == 0x0c {
        return "\\f".to_owned();
    }
    if c == 0x0a {
        return "\\n".to_owned();
    }
    if c == 0x0d {
        return "\\r".to_owned();
    }
    if c == 0x09 {
        return "\\t".to_owned();
    }
    if c == 0x0b {
        return "\\v".to_owned();
    }
    proof {
        reveal_strlit("\\");
        reveal_strlit("\\u");
        assert("\\"@ =~= seq!['\\']);
        assert("\\u"@ =~= seq!['\\', 'u']);
    }
    let mut s = String::new();
    if c as u32 == esc as u32 {
        push_char(&mut s, '\\');
    }
    if 0x20 <= c && c <= 0x7e {
        push_char(&mut s, (c as u8) as char);
        proof {
            assert(s@ =~= spec_esc_unit(c, esc));
        }
    } else {
        push_char(&mut s, '\\');
        push_char(&mut s, 'u');
        push_char(&mut s, hex_digit_char((c / 4096) % 16));
        push_char(&mut s, hex_digit_char((c / 256) % 16));
        push_char(&mut s, hex_digit_char((c / 16) % 16));
        push_char(&mut s, hex_digit_char(c % 16));
        proof {
            assert(s@ =~= spec_esc_unit(c, esc));
        }
    }
    s
}

fn escaped_from(value: &Vec<u16>, i: usize, esc: char) -> (r: String)
    ensures
        r@ == spec_escaped_from(value@, i as int, esc),
    decreases value@.len() - i,
{
    if i < value.len() {
        let mut s = escape_unit(value[i], esc);
        let rest = escaped_from(value, i + 1, esc);
        s.append(rest.as_str());
        proof {
            assert(s@ =~= spec_escaped_from(value@, i as int, esc));
        }
        s
    } else {
        String::new()
    }
}

/// The escaped spelling of a string literal's code units, ready to stand
/// between a pair of `esc` quote characters.
pub fn escaped_string_literal(value: &Vec<u16>, esc: char) -> (r: String)
    ensures
        r@ == spec_escaped(value@, esc),
{
    escaped_from(value, 0, esc)
}

} // verus!
