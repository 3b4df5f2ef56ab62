//! Small verified string utilities shared by the client and endpoint code.

use vstd::prelude::*;
use vstd::string::{StrSliceExecFns, StringExecFns};

verus! {

/// Compare two string slices by their character sequences.
pub fn str_eq(a: &str, b: &str) -> (r: bool)
    ensures
        r == (a@ == b@),
{
    let sa: String = a.to_owned();
    let sb: String = b.to_owned();
    sa == sb
}

/// One hexadecimal digit, lower case.
pub open spec fn hex_digit(n: int) -> char {
    if n == 0 {
        '0'
    } else if n == 1 {
        '1'
    } else if n == 2 {
        '2'
    } else if n == 3 {
        '3'
    } else if n == 4 {
        '4'
    } else if n == 5 {
        '5'
    } else if n == 6 {
        '6'
    } else if n == 7 {
        '7'
    } else if n == 8 {
        '8'
    } else if n == 9 {
        '9'
    } else if n == 10 {
        'a'
    } else if n == 11 {
        'b'
    } else if n == 12 {
        'c'
    } else if n == 13 {
        'd'
    } else if n == 14 {
        'e'
    } else {
        'f'
    }
}

/// Whether the debug form writes `c` as a `\u{..}` escape: the control
/// characters (the C0 and C1 ranges and delete) that have no short escape.
pub open spec fn is_escaped_control(c: char) -> bool {
    (c as int) < 0x20 || (0x7f <= c as int && c as int <= 0x9f)
}

/// How one character appears inside a double-quoted list entry, exactly as
/// the debug form writes it: quotes and backslashes gain a backslash; tab,
/// newline and carriage return have their short escapes; the remaining
/// control characters are written `\u{..}` with minimal lower-case hex
/// digits; every other character stands as itself.
pub open spec fn escape_char(c: char) -> Seq<char> {
    if c == '"' {
        seq!['\\', '"']
    } else if c == '\\' {
        seq!['\\', '\\']
    } else if c == '\t' {
        seq!['\\', 't']
    } else if c == '\n' {
        seq!['\\', 'n']
    } else if c == '\r' {
        seq!['\\', 'r']
    } else if is_escaped_control(c) {
        let code = c as int;
        if code < 16 {
            seq!['\\', 'u', '{', hex_digit(code), '}']
        } else {
            seq!['\\', 'u', '{', hex_digit(code / 16), hex_digit(code % 16), '}']
        }
    } else {
        seq![c]
    }
}

/// A string with each of its characters escaped.
pub open spec fn escape_str(s: Seq<char>) -> Seq<char>
    decreases s.len(),
{
    if s.len() == 0 {
        Seq::empty()
    } else {
        escape_str(s.drop_last()) + escape_char(s.last())
    }
}

/// A string as a double-quoted, escaped list entry.
pub open spec fn quoted(s: Seq<char>) -> Seq<char> {
    seq!['"'] + escape_str(s) + seq!['"']
}

/// The entries of a list, quoted and joined with `", "`.
pub open spec fn list_inner(items: Seq<Seq<char>>) -> Seq<char>
    decreases items.len(),
{
    if items.len() == 0 {
        Seq::empty()
    } else if items.len() == 1 {
        quoted(items[0])
    } else {
        list_inner(items.drop_last()) + seq![',', ' '] + quoted(items.last())
    }
}

/// The bracketed textual form of a list of strings, e.g.
/// `["alice", "bob"]`: the exact convention the Modrinth API expects for
/// list-valued query parameters.  This is the debug form of the list,
/// bit for bit, for strings made of printable and control characters;
/// rarer non-printable code points above the control ranges stand as
/// themselves.
pub open spec fn debug_list_spec(items: Seq<Seq<char>>) -> Seq<char> {
    seq!['['] + list_inner(items) + seq![']']
}

/// Append the lower-case hex digit of `n`.
fn append_hex_digit(out: &mut String, n: u32)
    requires
        n < 16,
    ensures
        final(out)@ == old(out)@ + seq![hex_digit(n as int)],
{
    if n == 0 {
        out.append("0");
        proof {
            reveal_strlit("0");
            assert("0"@ =~= seq![hex_digit(0)]);
        }
    } else if n == 1 {
        out.append("1");
        proof {
            reveal_strlit("1");
            assert("1"@ =~= seq![hex_digit(1)]);
        }
    } else if n == 2 {
        out.append("2");
        proof {
            reveal_strlit("2");
            assert("2"@ =~= seq![hex_digit(2)]);
        }
    } else if n == 3 {
        out.append("3");
        proof {
            reveal_strlit("3");
            assert("3"@ =~= seq![hex_digit(3)]);
        }
    } else if n == 4 {
        out.append("4");
        proof {
            reveal_strlit("4");
            assert("4"@ =~= seq![hex_digit(4)]);
        }
    } else if n == 5 {
        out.append("5");
        proof {
            reveal_strlit("5");
            assert("5"@ =~= seq![hex_digit(5)]);
        }
    } else if n == 6 {
        out.append("6");
        proof {
            reveal_strlit("6");
            assert("6"@ =~= seq![hex_digit(6)]);
        }
    } else if n == 7 {
        out.append("7");
        proof {
            reveal_strlit("7");
            assert("7"@ =~= seq![hex_digit(7)]);
        }
    } else if n == 8 {
        out.append("8");
        proof {
            reveal_strlit("8");
            assert("8"@ =~= seq![hex_digit(8)]);
        }
    } else if n == 9 {
        out.append("9");
        proof {
            reveal_strlit("9");
            assert("9"@ =~= seq![hex_digit(9)]);
        }
    } else if n == 10 {
        out.append("a");
        proof {
            reveal_strlit("a");
            assert("a"@ =~= seq![hex_digit(10)]);
        }
    } else if n == 11 {
        out.append("b");
        proof {
            reveal_strlit("b");
            assert("b"@ =~= seq![hex_digit(11)]);
        }
    } else if n == 12 {
        out.append("c");
        proof {
            reveal_strlit("c");
            assert("c"@ =~= seq![hex_digit(12)]);
        }
    } else if n == 13 {
        out.append("d");
        proof {
            reveal_strlit("d");
            assert("d"@ =~= seq![hex_digit(13)]);
        }
    } else if n == 14 {
        out.append("e");
        proof {
            reveal_strlit("e");
            assert("e"@ =~= seq![hex_digit(14)]);
        }
    } else {
        out.append("f");
        proof {
            reveal_strlit("f");
            assert("f"@ =~= seq![hex_digit(15)]);
        }
    }
}

/// Append `s`, escaped, to `out`.
fn append_escaped(out: &mut String, s: &str)
    ensures
        final(out)@ == old(out)@ + escape_str(s@),
{
    let n = s.unicode_len();
    let mut i: usize = 0;
    proof {
        assert(s@.take(0) =~= Seq::<char>::empty());
        assert(out@ =~= old(out)@ + escape_str(s@.take(0)));
    }
    while i < n
        invariant
            i <= n,
            n == s@.len(),
            out@ == old(out)@ + escape_str(s@.take(i as int)),
        decreases n - i,
    {
        let c = s.get_char(i);
        if c == '"' {
            out.append("\\\"");
            proof {
                reveal_strlit("\\\"");
                assert("\\\""@ =~= escape_char(c));
            }
        } else if c == '\\' {
            out.append("\\\\");
            proof {
                reveal_strlit("\\\\");
                assert("\\\\"@ =~= escape_char(c));
            }
        } else if c == '\t' {
            out.append("\\t");
            proof {
                reveal_strlit("\\t");
                assert("\\t"@ =~= escape_char(c));
            }
        } else if c == '\n' {
            out.append("\\n");
            proof {
                reveal_strlit("\\n");
                assert("\\n"@ =~= escape_char(c));
            }
        } else if c == '\r' {
            out.append("\\r");
            proof {
                reveal_strlit("\\r");
                assert("\\r"@ =~= escape_char(c));
            }
        } else if (c as u32) < 0x20 || (0x7f <= c as u32 && c as u32 <= 0x9f) {
            let ghost before: Seq<char> = out@;
            let code: u32 = c as u32;
            out.append("\\u{");
            proof {
                reveal_strlit("\\u{");
            }
            if code >= 16 {
                append_hex_digit(out, code / 16);
            }
            append_hex_digit(out, code % 16);
            out.append("}");
            proof {
                reveal_strlit("}");
                assert(out@ =~= before + escape_char(c));
            }
        } else {
            let one = s.substring_char(i, i + 1);
            proof {
                assert(one@ =~= escape_char(c));
            }
            out.append(one);
        }
        proof {
            assert(s@.take(i + 1).drop_last() =~= s@.take(i as int));
            assert(s@.take(i + 1).last() == c);
            assert(out@ =~= old(out)@ + escape_str(s@.take(i + 1)));
        }
        i = i + 1;
    }
    proof {
        assert(s@.take(n as int) =~= s@);
    }
}

/// Find the position holding `name`, if any.
pub(crate) fn find_name(names: &Vec<String>, name: &str) -> (r: Option<usize>)
    ensures
        match r {
            Some(p) => p < names@.len() && names@[p as int]@ == name@,
            None => forall|q: int| 0 <= q < names@.len() ==> names@[q]@ != name@,
        },
{
    let m = names.len();
    let mut j: usize = 0;
    while j < m
        invariant
            j <= m,
            m == names@.len(),
            forall|q: int| 0 <= q < j ==> names@[q]@ != name@,
        decreases m - j,
    {
        if str_eq(names[j].as_str(), name) {
            return Some(j);
        }
        j = j + 1;
    }
    None
}

/// Render a list of strings in the bracketed textual form of
/// [`debug_list_spec`].
pub fn debug_list(items: &Vec<String>) -> (r: String)
    ensures
        r@ == debug_list_spec(items.deep_view()),
{
    let ghost dv: Seq<Seq<char>> = items.deep_view();
    let mut out = String::from_str("[");
    proof {
        reveal_strlit("[");
        assert(out@ =~= seq!['['] + list_inner(dv.take(0)));
    }
    let n = items.len();
    let mut i: usize = 0;
    while i < n
        invariant
            i <= n,
            n == items@.len(),
            dv == items.deep_view(),
            dv.len() == n,
            forall|j: int| 0 <= j < n ==> dv[j] == items@[j]@,
            out@ == seq!['['] + list_inner(dv.take(i as int)),
        decreases n - i,
    {
        if i > 0 {
            out.append(", ");
            proof {
                reveal_strlit(", ");
            }
        }
        out.append("\"");
        append_escaped(&mut out, items[i].as_str());
        out.append("\"");
        proof {
            reveal_strlit("\"");
            assert(dv.take(i + 1).drop_last() =~= dv.take(i as int));
            assert(dv.take(i + 1).last() == dv[i as int]);
            assert(out@ =~= seq!['['] + list_inner(dv.take(i + 1)));
        }
        i = i + 1;
    }
    out.append("]");
    proof {
        reveal_strlit("]");
        assert(dv.take(n as int) =~= dv);
        assert(out@ =~= debug_list_spec(items.deep_view()));
    }
    out
}

} // verus!
