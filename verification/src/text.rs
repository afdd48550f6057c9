//! Small text helpers: the lower-case display form of variant names, and
//! joining name lists for error messages.

use vstd::prelude::*;

verus! {

/// The lower-case form of one character: an ASCII capital letter becomes the
/// small letter, every other character stands unchanged.
pub open spec fn lower_char(c: char) -> char {
    if c == 'A' {
        'a'
    } else if c == 'B' {
        'b'
    } else if c == 'C' {
        'c'
    } else if c == 'D' {
        'd'
    } else if c == 'E' {
        'e'
    } else if c == 'F' {
        'f'
    } else if c == 'G' {
        'g'
    } else if c == 'H' {
        'h'
    } else if c == 'I' {
        'i'
    } else if c == 'J' {
        'j'
    } else if c == 'K' {
        'k'
    } else if c == 'L' {
        'l'
    } else if c == 'M' {
        'm'
    } else if c == 'N' {
        'n'
    } else if c == 'O' {
        'o'
    } else if c == 'P' {
        'p'
    } else if c == 'Q' {
        'q'
    } else if c == 'R' {
        'r'
    } else if c == 'S' {
        's'
    } else if c == 'T' {
        't'
    } else if c == 'U' {
        'u'
    } else if c == 'V' {
        'v'
    } else if c == 'W' {
        'w'
    } else if c == 'X' {
        'x'
    } else if c == 'Y' {
        'y'
    } else if c == 'Z' {
        'z'
    } else {
        c
    }
}

/// The lower-case form of a character sequence.
pub open spec fn lower_chars(s: Seq<char>) -> Seq<char> {
    s.map_values(|c: char| lower_char(c))
}

/// Appends the lower-case form of one character to `out`.
fn push_lower_char(out: &mut String, s: &str, i: usize)
    requires
        i < s@.len(),
        i + 1 <= usize::MAX,
    ensures
        final(out)@ == old(out)@ + seq![lower_char(s@[i as int])],
{
    let c = s.get_char(i);
    if c == 'A' {
        out.append("a");
        proof {
            reveal_strlit("a");
        }
    } else if c == 'B' {
        out.append("b");
        proof {
            reveal_strlit("b");
        }
    } else if c == 'C' {
        out.append("c");
        proof {
            reveal_strlit("c");
        }
    } else if c == 'D' {
        out.append("d");
        proof {
            reveal_strlit("d");
        }
    } else if c == 'E' {
        out.append("e");
        proof {
            reveal_strlit("e");
        }
    } else if c == 'F' {
        out.append("f");
        proof {
            reveal_strlit("f");
        }
    } else if c == 'G' {
        out.append("g");
        proof {
            reveal_strlit("g");
        }
    } else if c == 'H' {
        out.append("h");
        proof {
            reveal_strlit("h");
        }
    } else if c == 'I' {
        out.append("i");
        proof {
            reveal_strlit("i");
        }
    } else if c == 'J' {
        out.append("j");
        proof {
            reveal_strlit("j");
        }
    } else if c == 'K' {
        out.append("k");
        proof {
            reveal_strlit("k");
        }
    } else if c == 'L' {
        out.append("l");
        proof {
            reveal_strlit("l");
        }
    } else if c == 'M' {
        out.append("m");
        proof {
            reveal_strlit("m");
        }
    } else if c == 'N' {
        out.append("n");
        proof {
            reveal_strlit("n");
        }
    } else if c == 'O' {
        out.append("o");
        proof {
            reveal_strlit("o");
        }
    } else if c == 'P' {
        out.append("p");
        proof {
            reveal_strlit("p");
        }
    } else if c == 'Q' {
        out.append("q");
        proof {
            reveal_strlit("q");
        }
    } else if c == 'R' {
        out.append("r");
        proof {
            reveal_strlit("r");
        }
    } else if c == 'S' {
        out.append("s");
        proof {
            reveal_strlit("s");
        }
    } else if c == 'T' {
        out.append("t");
        proof {
            reveal_strlit("t");
        }
    } else if c == 'U' {
        out.append("u");
        proof {
            reveal_strlit("u");
        }
    } else if c == 'V' {
        out.append("v");
        proof {
            reveal_strlit("v");
        }
    } else if c == 'W' {
        out.append("w");
        proof {
            reveal_strlit("w");
        }
    } else if c == 'X' {
        out.append("x");
        proof {
            reveal_strlit("x");
        }
    } else if c == 'Y' {
        out.append("y");
        proof {
            reveal_strlit("y");
        }
    } else if c == 'Z' {
        out.append("z");
        proof {
            reveal_strlit("z");
        }
    } else {
        let piece = s.substring_char(i, i + 1);
        out.append(piece);
        proof {
            assert(piece@ =~= seq![s@[i as int]]);
        }
    }
}

/// The lower-case display form of a name, as the command line shows variant
/// names.
pub fn to_lowercase(s: &str) -> (r: String)
    ensures
        r@ == lower_chars(s@),
{
    let n = s.unicode_len();
    let mut out = String::new();
    let mut i: usize = 0;
    while i < n
        invariant
            n == s@.len(),
            i <= n,
            out@ == lower_chars(s@).take(i as int),
        decreases n - i,
    {
        push_lower_char(&mut out, s, i);
        proof {
            assert(lower_chars(s@).take(i + 1) =~= lower_chars(s@).take(i as int) + seq![
                lower_char(s@[i as int]),
            ]);
        }
        i += 1;
    }
    proof {
        assert(lower_chars(s@).take(n as int) =~= lower_chars(s@));
    }
    out
}

/// What joining a list of names with a separator yields.
pub open spec fn joined(items: Seq<Seq<char>>, sep: Seq<char>) -> Seq<char>
    decreases items.len(),
{
    if items.len() == 0 {
        Seq::empty()
    } else if items.len() == 1 {
        items[0]
    } else {
        joined(items.drop_last(), sep) + sep + items.last()
    }
}

/// Joins a list of names with a separator.
pub fn join_with(items: &Vec<String>, sep: &str) -> (r: String)
    ensures
        r@ == joined(crate::filter::name_views(items@), sep@),
{
    let ghost views = crate::filter::name_views(items@);
    let mut out = String::new();
    let mut i: usize = 0;
    while i < items.len()
        invariant
            i <= items@.len(),
            views == crate::filter::name_views(items@),
            out@ == joined(views.take(i as int), sep@),
        decreases items@.len() - i,
    {
        if i > 0 {
            out.append(sep);
        }
        out.append(items[i].as_str());
        proof {
            assert(views.take(i + 1).drop_last() =~= views.take(i as int));
            assert(views.take(i + 1).last() == items@[i as int]@);
            if i == 0 {
                assert(joined(views.take(1), sep@) == views.take(1)[0]);
            }
        }
        i += 1;
    }
    proof {
        assert(views.take(items@.len() as int) =~= views);
    }
    out
}

} // verus!
