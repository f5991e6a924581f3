//! Verified building blocks for emitting JSON text: string escaping and
//! decimal number rendering, each specified character by character.

use vstd::prelude::*;

verus! {

/// The decimal digit character for one digit value.
pub open spec fn spec_digit_char(d: nat) -> char {
    if d == 0 {
        '0'
    } else if d == 1 {
        '1'
    } else if d == 2 {
        '2'
    } else if d == 3 {
        '3'
    } else if d == 4 {
        '4'
    } else if d == 5 {
        '5'
    } else if d == 6 {
        '6'
    } else if d == 7 {
        '7'
    } else if d == 8 {
        '8'
    } else {
        '9'
    }
}

/// The lower-case hexadecimal digit character for one digit value.
pub open spec fn spec_hex_char(d: nat) -> char {
    if d < 10 {
        spec_digit_char(d)
    } else if d == 10 {
        'a'
    } else if d == 11 {
        'b'
    } else if d == 12 {
        'c'
    } else if d == 13 {
        'd'
    } else if d == 14 {
        'e'
    } else {
        'f'
    }
}

/// The decimal rendering of a non-negative integer, most significant digit
/// first, with no leading zeros (`0` itself renders as `"0"`).
pub open spec fn spec_dec_nat(n: nat) -> Seq<char>
    decreases n,
{
    if n < 10 {
        seq![spec_digit_char(n)]
    } else {
        spec_dec_nat(n / 10) + seq![spec_digit_char(n % 10)]
    }
}

/// The decimal rendering of an integer: a minus sign in front of the
/// rendered magnitude when negative.
pub open spec fn spec_dec_int(i: int) -> Seq<char> {
    if i < 0 {
        seq!['-'] + spec_dec_nat((-i) as nat)
    } else {
        spec_dec_nat(i as nat)
    }
}

/// How one character appears inside a JSON string literal: quote and
/// backslash are backslash-escaped, control characters take the `\u00XX`
/// form, and every other character stands for itself.
pub open spec fn spec_escape_char(c: char) -> Seq<char> {
    if c == '"' {
        seq!['\\', '"']
    } else if c == '\\' {
        seq!['\\', '\\']
    } else if (c as u32) < 0x20 {
        seq!['\\', 'u', '0', '0']
            + seq![spec_hex_char(((c as u32) / 16) as nat), spec_hex_char(((c as u32) % 16) as nat)]
    } else {
        seq![c]
    }
}

/// A JSON-escaped string body: each character escaped in order.
pub open spec fn spec_escape(s: Seq<char>) -> Seq<char>
    decreases s.len(),
{
    if s.len() == 0 {
        Seq::empty()
    } else {
        spec_escape(s.drop_last()) + spec_escape_char(s.last())
    }
}

/// A complete JSON string literal: the escaped body between double quotes.
pub open spec fn spec_json_string(s: Seq<char>) -> Seq<char> {
    seq!['"'] + spec_escape(s) + seq!['"']
}

/// True when no character of `s` is changed by JSON escaping.
pub open spec fn needs_no_escaping(s: Seq<char>) -> bool {
    forall|i: int| 0 <= i < s.len() ==> #[trigger] spec_escape_char(s[i]) == seq![s[i]]
}

/// Law: a string that needs no escaping appears in its JSON-escaped form
/// verbatim.
pub proof fn lemma_escape_identity(s: Seq<char>)
    requires
        needs_no_escaping(s),
    ensures
        spec_escape(s) == s,
    decreases s.len(),
{
    if s.len() == 0 {
        assert(spec_escape(s) =~= s);
    } else {
        assert(spec_escape_char(s[s.len() - 1]) == seq![s[s.len() - 1]]);
        lemma_escape_identity(s.drop_last());
        assert(spec_escape(s) =~= s);
    }
}

/// Relies on `String::push`: appends exactly the one character.
#[verifier::external_body]
pub(crate) fn push_char(s: &mut String, c: char)
    ensures
        final(s)@ == old(s)@.push(c),
{
    s.push(c);
}

/// The decimal digit character for a digit value below ten.
fn digit_char(d: u128) -> (c: char)
    requires
        d < 10,
    ensures
        c == spec_digit_char(d as nat),
{
    match d {
        0 => '0',
        1 => '1',
        2 => '2',
        3 => '3',
        4 => '4',
        5 => '5',
        6 => '6',
        7 => '7',
        8 => '8',
        _ => '9',
    }
}

/// The lower-case hexadecimal digit character for a digit value below 16.
fn hex_char(d: u32) -> (c: char)
    requires
        d < 16,
    ensures
        c == spec_hex_char(d as nat),
{
    match d {
        0 => '0',
        1 => '1',
        2 => '2',
        3 => '3',
        4 => '4',
        5 => '5',
        6 => '6',
        7 => '7',
        8 => '8',
        9 => '9',
        10 => 'a',
        11 => 'b',
        12 => 'c',
        13 => 'd',
        14 => 'e',
        _ => 'f',
    }
}

/// Renders a non-negative number in decimal.
pub fn dec_u128(n: u128) -> (r: String)
    ensures
        r@ == spec_dec_nat(n as nat),
    decreases n,
{
    if n < 10 {
        let mut s = String::new();
        push_char(&mut s, digit_char(n));
        proof {
            assert(s@ =~= seq![spec_digit_char(n as nat)]);
        }
        s
    } else {
        let mut s = dec_u128(n / 10);
        push_char(&mut s, digit_char(n % 10));
        proof {
            assert(s@ =~= spec_dec_nat((n / 10) as nat) + seq![spec_digit_char((n % 10) as nat)]);
        }
        s
    }
}

/// Renders a signed 64-bit number in decimal.
pub fn dec_i64(n: i64) -> (r: String)
    ensures
        r@ == spec_dec_int(n as int),
{
    if n >= 0 {
        dec_u128(n as u128)
    } else {
        let magnitude: u128 = ((-(n + 1)) as u128) + 1;
        proof {
            assert(magnitude == -(n as int));
        }
        let mut s = String::from_str("-");
        proof {
            reveal_strlit("-");
            assert(s@ =~= seq!['-']);
        }
        s.append(dec_u128(magnitude).as_str());
        s
    }
}

/// Renders a signed 128-bit number in decimal.
pub fn dec_i128(n: i128) -> (r: String)
    ensures
        r@ == spec_dec_int(n as int),
{
    if n >= 0 {
        dec_u128(n as u128)
    } else {
        let magnitude: u128 = ((-(n + 1)) as u128) + 1;
        proof {
            assert(magnitude == -(n as int));
        }
        let mut s = String::from_str("-");
        proof {
            reveal_strlit("-");
            assert(s@ =~= seq!['-']);
        }
        s.append(dec_u128(magnitude).as_str());
        s
    }
}

/// Appends the JSON-escaped form of one character.
fn push_escaped_char(out: &mut String, c: char)
    ensures
        final(out)@ == old(out)@ + spec_escape_char(c),
{
    if c == '"' {
        push_char(out, '\\');
        push_char(out, '"');
        proof {
            assert(out@ =~= old(out)@ + spec_escape_char(c));
        }
    } else if c == '\\' {
        push_char(out, '\\');
        push_char(out, '\\');
        proof {
            assert(out@ =~= old(out)@ + spec_escape_char(c));
        }
    } else if (c as u32) < 0x20 {
        let code: u32 = c as u32;
        push_char(out, '\\');
        push_char(out, 'u');
        push_char(out, '0');
        push_char(out, '0');
        push_char(out, hex_char(code / 16));
        push_char(out, hex_char(code % 16));
        proof {
            assert(out@ =~= old(out)@ + spec_escape_char(c));
        }
    } else {
        push_char(out, c);
        proof {
            assert(out@ =~= old(out)@ + spec_escape_char(c));
        }
    }
}

/// Appends `s` as a complete JSON string literal, quotes included.
pub fn append_json_string(out: &mut String, s: &str)
    ensures
        final(out)@ == old(out)@ + spec_json_string(s@),
{
    push_char(out, '"');
    let n = s.unicode_len();
    let mut i: usize = 0;
    proof {
        assert(s@.subrange(0, 0) =~= Seq::<char>::empty());
        assert(out@ =~= old(out)@ + seq!['"'] + spec_escape(s@.subrange(0, 0)));
    }
    while i < n
        invariant
            n == s@.len(),
            0 <= i <= n,
            out@ == old(out)@ + seq!['"'] + spec_escape(s@.subrange(0, i as int)),
        decreases n - i,
    {
        let c = s.get_char(i);
        push_escaped_char(out, c);
        proof {
            let pre = s@.subrange(0, i as int);
            let post = s@.subrange(0, i + 1 as int);
            assert(post.drop_last() =~= pre);
            assert(post.last() == c);
            assert(spec_escape(post) == spec_escape(pre) + spec_escape_char(c));
            assert(out@ =~= old(out)@ + seq!['"'] + spec_escape(post));
        }
        i += 1;
    }
    proof {
        assert(s@.subrange(0, n as int) =~= s@);
    }
    push_char(out, '"');
    proof {
        assert(out@ =~= old(out)@ + spec_json_string(s@));
    }
}

} // verus!
