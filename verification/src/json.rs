//! Verified JSON emission for the console payload: string escaping and string
//! arrays, each executable builder pinned to a spec-level definition of the
//! exact character sequence it appends.

use vstd::prelude::*;
use vstd::string::StrSliceExecFns;
use vstd::string::StringExecFns;
use crate::text::push_char;
use crate::text::str_views;

verus! {

/// The hexadecimal digit `d` as a character, for `0 <= d <= 15`.
pub open spec fn spec_hex_digit(d: int) -> char {
    if d == 0 {
        '0'
    } else if d == 1 {
        '1'
    } else if d == 2 {
        '2'
    } else if d == 3 {
        '3'
    } else if d == 4 {
        '4'
    } else if d == 5 {
        '5'
    } else if d == 6 {
        '6'
    } else if d == 7 {
        '7'
    } else if d == 8 {
        '8'
    } else if d == 9 {
        '9'
    } else if d == 10 {
        'a'
    } else if d == 11 {
        'b'
    } else if d == 12 {
        'c'
    } else if d == 13 {
        'd'
    } else if d == 14 {
        'e'
    } else {
        'f'
    }
}

/// How one character appears inside a JSON string literal: quotes and
/// backslashes are escaped, the common control characters get their short
/// escapes, the remaining control characters a `\u00..` escape, and every
/// other character stands for itself.
pub open spec fn escape_char(c: char) -> Seq<char> {
    if c == '"' {
        seq!['\\', '"']
    } else if c == '\\' {
        seq!['\\', '\\']
    } else if c == '\n' {
        seq!['\\', 'n']
    } else if c == '\r' {
        seq!['\\', 'r']
    } else if c == '\t' {
        seq!['\\', 't']
    } else if (c as u32) < 32 {
        seq![
            '\\',
            'u',
            '0',
            '0',
            spec_hex_digit(c as u32 as int / 16),
            spec_hex_digit(c as u32 as int % 16),
        ]
    } else {
        seq![c]
    }
}

/// A whole character sequence, escaped.
pub open spec fn escape_seq(s: Seq<char>) -> Seq<char>
    decreases s.len(),
{
    if s.len() == 0 {
        Seq::<char>::empty()
    } else {
        escape_char(s[0]) + escape_seq(s.drop_first())
    }
}

pub proof fn lemma_escape_snoc(s: Seq<char>, c: char)
    ensures
        escape_seq(s.push(c)) == escape_seq(s) + escape_char(c),
    decreases s.len(),
{
    if s.len() == 0 {
        assert(s.push(c)[0] == c);
        assert(s.push(c).drop_first() =~= Seq::<char>::empty());
        assert(escape_seq(s.push(c)) == escape_char(c) + escape_seq(Seq::<char>::empty()));
        assert(escape_seq(s.push(c)) =~= escape_seq(s) + escape_char(c));
    } else {
        assert(s.push(c)[0] == s[0]);
        assert(s.push(c).drop_first() =~= s.drop_first().push(c));
        lemma_escape_snoc(s.drop_first(), c);
        assert(escape_seq(s.push(c)) == escape_char(s[0]) + escape_seq(s.drop_first().push(c)));
        assert(escape_seq(s.push(c)) =~= escape_seq(s) + escape_char(c));
    }
}

/// The JSON string literal denoting `s`.
pub open spec fn json_string(s: Seq<char>) -> Seq<char> {
    seq!['"'] + escape_seq(s) + seq!['"']
}

/// Comma-separated JSON string literals.
pub open spec fn json_items(elems: Seq<Seq<char>>) -> Seq<char>
    decreases elems.len(),
{
    if elems.len() == 0 {
        Seq::<char>::empty()
    } else if elems.len() == 1 {
        json_string(elems[0])
    } else {
        json_items(elems.drop_last()) + seq![','] + json_string(elems.last())
    }
}

/// The JSON array of string literals denoting `elems`.
pub open spec fn json_string_array(elems: Seq<Seq<char>>) -> Seq<char> {
    seq!['['] + json_items(elems) + seq![']']
}

fn hex_digit_char(d: u32) -> (c: char)
    requires
        d < 16,
    ensures
        c == spec_hex_digit(d as int),
{
    match d {
        0 => '0',
        1 => '1',
        2 => '2',
        3 => '3',
        4 => '4',
        5 => '5',
        6 => '6',
        7 => '7',
        8 => '8',
        9 => '9',
        10 => 'a',
        11 => 'b',
        12 => 'c',
        13 => 'd',
        14 => 'e',
        _ => 'f',
    }
}

/// Appends the escaped form of one character.
fn append_escaped_char(out: &mut String, c: char)
    ensures
        final(out)@ == old(out)@ + escape_char(c),
{
    if c == '"' {
        out.append("\\\"");
        proof {
            reveal_strlit("\\\"");
            assert(final(out)@ =~= old(out)@ + escape_char(c));
        }
    } else if c == '\\' {
        out.append("\\\\");
        proof {
            reveal_strlit("\\\\");
            assert(final(out)@ =~= old(out)@ + escape_char(c));
        }
    } else if c == '\n' {
        out.append("\\n");
        proof {
            reveal_strlit("\\n");
            assert(final(out)@ =~= old(out)@ + escape_char(c));
        }
    } else if c == '\r' {
        out.append("\\r");
        proof {
            reveal_strlit("\\r");
            assert(final(out)@ =~= old(out)@ + escape_char(c));
        }
    } else if c == '\t' {
        out.append("\\t");
        proof {
            reveal_strlit("\\t");
            assert(final(out)@ =~= old(out)@ + escape_char(c));
        }
    } else if (c as u32) < 32 {
        out.append("\\u00");
        let hi = hex_digit_char((c as u32) / 16);
        push_char(out, hi);
        let lo = hex_digit_char((c as u32) % 16);
        push_char(out, lo);
        proof {
            reveal_strlit("\\u00");
            assert(final(out)@ =~= old(out)@ + escape_char(c));
        }
    } else {
        push_char(out, c);
        proof {
            assert(final(out)@ =~= old(out)@ + escape_char(c));
        }
    }
}

/// Appends the JSON string literal denoting `s`.
pub fn append_json_string(out: &mut String, s: &str)
    ensures
        final(out)@ == old(out)@ + json_string(s@),
{
    push_char(out, '"');
    let len = s.unicode_len();
    let mut i: usize = 0;
    proof {
        assert(s@.subrange(0, 0) =~= Seq::<char>::empty());
        assert(out@ =~= old(out)@ + seq!['"'] + escape_seq(s@.subrange(0, 0)));
    }
    while i < len
        invariant
            len == s@.len(),
            i <= len,
            out@ == old(out)@ + seq!['"'] + escape_seq(s@.subrange(0, i as int)),
        decreases len - i,
    {
        let c = s.get_char(i);
        append_escaped_char(out, c);
        proof {
            lemma_escape_snoc(s@.subrange(0, i as int), s@[i as int]);
            assert(s@.subrange(0, i + 1) =~= s@.subrange(0, i as int).push(s@[i as int]));
            assert(out@ =~= old(out)@ + seq!['"'] + escape_seq(s@.subrange(0, i + 1)));
        }
        i = i + 1;
    }
    push_char(out, '"');
    proof {
        assert(s@.subrange(0, len as int) =~= s@);
        assert(out@ =~= old(out)@ + json_string(s@));
    }
}

/// Appends the JSON array of string literals denoting `elems`.
pub fn append_json_string_array(out: &mut String, elems: &Vec<String>)
    ensures
        final(out)@ == old(out)@ + json_string_array(str_views(elems@)),
{
    push_char(out, '[');
    let n = elems.len();
    let mut i: usize = 0;
    proof {
        assert(str_views(elems@).subrange(0, 0) =~= Seq::<Seq<char>>::empty());
        assert(out@ =~= old(out)@ + seq!['['] + json_items(str_views(elems@).subrange(0, 0)));
    }
    while i < n
        invariant
            n == elems@.len(),
            i <= n,
            out@ == old(out)@ + seq!['['] + json_items(str_views(elems@).subrange(0, i as int)),
        decreases n - i,
    {
        if i > 0 {
            push_char(out, ',');
        }
        append_json_string(out, elems[i].as_str());
        proof {
            let pre = str_views(elems@).subrange(0, i as int);
            let post = str_views(elems@).subrange(0, i + 1);
            assert(post.drop_last() =~= pre);
            assert(post.last() == elems@[i as int]@);
            if i == 0 {
                assert(out@ =~= old(out)@ + seq!['['] + json_items(post));
            } else {
                assert(out@ =~= old(out)@ + seq!['['] + json_items(post));
            }
        }
        i = i + 1;
    }
    push_char(out, ']');
    proof {
        assert(str_views(elems@).subrange(0, n as int) =~= str_views(elems@));
        assert(out@ =~= old(out)@ + json_string_array(str_views(elems@)));
    }
}

} // verus!
