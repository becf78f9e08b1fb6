//! JSON string escaping for the wire-level error envelope.
//!
//! The envelope carries a free-text diagnostic message, so the crate must be
//! able to place an arbitrary string inside a JSON string literal.  The
//! escaping implemented here covers everything JSON requires: the quote, the
//! backslash, and every control character below U+0020.

use vstd::prelude::*;
use vstd::string::*;

verus! {

/// The lower-case hexadecimal digit for a value below sixteen.
pub open spec fn spec_hex_digit(n: u32) -> char {
    if n == 0 {
        '0'
    } else if n == 1 {
        '1'
    } else if n == 2 {
        '2'
    } else if n == 3 {
        '3'
    } else if n == 4 {
        '4'
    } else if n == 5 {
        '5'
    } else if n == 6 {
        '6'
    } else if n == 7 {
        '7'
    } else if n == 8 {
        '8'
    } else if n == 9 {
        '9'
    } else if n == 10 {
        'a'
    } else if n == 11 {
        'b'
    } else if n == 12 {
        'c'
    } else if n == 13 {
        'd'
    } else if n == 14 {
        'e'
    } else {
        'f'
    }
}

fn hex_digit(n: u32) -> (c: char)
    requires
        n < 16,
    ensures
        c == spec_hex_digit(n),
{
    if n == 0 {
        '0'
    } else if n == 1 {
        '1'
    } else if n == 2 {
        '2'
    } else if n == 3 {
        '3'
    } else if n == 4 {
        '4'
    } else if n == 5 {
        '5'
    } else if n == 6 {
        '6'
    } else if n == 7 {
        '7'
    } else if n == 8 {
        '8'
    } else if n == 9 {
        '9'
    } else if n == 10 {
        'a'
    } else if n == 11 {
        'b'
    } else if n == 12 {
        'c'
    } else if n == 13 {
        'd'
    } else if n == 14 {
        'e'
    } else {
        'f'
    }
}

/// What one character contributes to the escaped form of a JSON string.
pub open spec fn spec_escape_char(c: char) -> Seq<char> {
    if c == '"' {
        seq!['\\', '"']
    } else if c == '\\' {
        seq!['\\', '\\']
    } else if c == '\n' {
        seq!['\\', 'n']
    } else if c == '\r' {
        seq!['\\', 'r']
    } else if c == '\t' {
        seq!['\\', 't']
    } else if (c as u32) < 32 {
        seq!['\\', 'u', '0', '0', spec_hex_digit((c as u32) / 16), spec_hex_digit((c as u32) % 16)]
    } else {
        seq![c]
    }
}

/// The escaped form of a whole string: each character's contribution, in
/// order.
pub open spec fn spec_escape(s: Seq<char>) -> Seq<char>
    decreases s.len(),
{
    if s.len() == 0 {
        Seq::<char>::empty()
    } else {
        spec_escape_char(s[0]) + spec_escape(s.drop_first())
    }
}

proof fn lemma_escape_snoc(s: Seq<char>, c: char)
    ensures
        spec_escape(s.push(c)) == spec_escape(s) + spec_escape_char(c),
    decreases s.len(),
{
    let sp = s.push(c);
    if s.len() == 0 {
        assert(sp[0] == c);
        assert(sp.drop_first() =~= Seq::<char>::empty());
        assert(spec_escape(Seq::<char>::empty()) == Seq::<char>::empty());
        assert(spec_escape(sp) == spec_escape_char(c) + Seq::<char>::empty());
        assert(spec_escape_char(c) + Seq::<char>::empty() =~= spec_escape_char(c));
        assert(spec_escape(s) == Seq::<char>::empty());
        assert(Seq::<char>::empty() + spec_escape_char(c) =~= spec_escape_char(c));
    } else {
        lemma_escape_snoc(s.drop_first(), c);
        assert(sp[0] == s[0]);
        assert(sp.drop_first() =~= s.drop_first().push(c));
        assert(spec_escape(sp) == spec_escape_char(s[0]) + spec_escape(sp.drop_first()));
        assert(spec_escape(s) == spec_escape_char(s[0]) + spec_escape(s.drop_first()));
        assert((spec_escape_char(s[0]) + spec_escape(s.drop_first())) + spec_escape_char(c)
            =~= spec_escape_char(s[0]) + (spec_escape(s.drop_first()) + spec_escape_char(c)));
    }
}

/// Relies on String::push: appends exactly the given character.
#[verifier::external_body]
fn push_char(s: &mut String, c: char)
    ensures
        final(s)@ == old(s)@.push(c),
{
    s.push(c);
}

/// Appends the escaped form of one character.
fn append_escaped(r: &mut String, c: char)
    ensures
        final(r)@ == old(r)@ + spec_escape_char(c),
{
    if c == '"' {
        r.append("\\\"");
        proof {
            reveal_strlit("\\\"");
            assert("\\\""@ =~= spec_escape_char(c));
        }
    } else if c == '\\' {
        r.append("\\\\");
        proof {
            reveal_strlit("\\\\");
            assert("\\\\"@ =~= spec_escape_char(c));
        }
    } else if c == '\n' {
        r.append("\\n");
        proof {
            reveal_strlit("\\n");
            assert("\\n"@ =~= spec_escape_char(c));
        }
    } else if c == '\r' {
        r.append("\\r");
        proof {
            reveal_strlit("\\r");
            assert("\\r"@ =~= spec_escape_char(c));
        }
    } else if c == '\t' {
        r.append("\\t");
        proof {
            reveal_strlit("\\t");
            assert("\\t"@ =~= spec_escape_char(c));
        }
    } else if (c as u32) < 32 {
        let code: u32 = c as u32;
        r.append("\\u00");
        push_char(r, hex_digit(code / 16));
        push_char(r, hex_digit(code % 16));
        proof {
            reveal_strlit("\\u00");
            assert(("\\u00"@.push(spec_hex_digit(code / 16)).push(spec_hex_digit(code % 16)))
                =~= spec_escape_char(c));
            assert(final(r)@ =~= old(r)@ + spec_escape_char(c));
        }
    } else {
        push_char(r, c);
        proof {
            assert(old(r)@.push(c) =~= old(r)@ + spec_escape_char(c));
        }
    }
}

/// Escapes a string for inclusion inside a JSON string literal.
pub fn json_escape(s: &str) -> (r: String)
    ensures
        r@ == spec_escape(s@),
{
    let n: usize = s.unicode_len();
    let mut r = String::new();
    let mut i: usize = 0;
    while i < n
        invariant
            n == s@.len(),
            i <= n,
            r@ == spec_escape(s@.subrange(0, i as int)),
        decreases n - i,
    {
        let c = s.get_char(i);
        append_escaped(&mut r, c);
        proof {
            assert(s@.subrange(0, i + 1 as int) =~= s@.subrange(0, i as int).push(s@[i as int]));
            lemma_escape_snoc(s@.subrange(0, i as int), s@[i as int]);
        }
        i = i + 1;
    }
    proof {
        assert(s@.subrange(0, n as int) =~= s@);
    }
    r
}

} // verus!
