use vstd::prelude::*;

verus! {

/// A line without the line end: drops one `'\r'` that closes it.
pub open spec fn without_cr(line: Seq<char>) -> Seq<char> {
    if line.len() > 0 && line.last() == '\r' {
        line.drop_last()
    } else {
        line
    }
}

/// The lines that `s` closes with a `'\n'`, and the text that follows the
/// last of them.
pub open spec fn line_scan(s: Seq<char>) -> (Seq<Seq<char>>, Seq<char>)
    decreases s.len(),
{
    if s.len() == 0 {
        (seq![], seq![])
    } else {
        let (closed, open) = line_scan(s.drop_last());
        if s.last() == '\n' {
            (closed.push(without_cr(open)), seq![])
        } else {
            (closed, open.push(s.last()))
        }
    }
}

/// The lines of `s`: split at each `'\n'`, with a `'\r'` just before it
/// removed; a final line without `'\n'` counts when it is not empty.
pub open spec fn lines_of(s: Seq<char>) -> Seq<Seq<char>> {
    let (closed, open) = line_scan(s);
    if open.len() == 0 {
        closed
    } else {
        closed.push(open)
    }
}

/// The views of a list of strings.
pub open spec fn string_views(v: Seq<String>) -> Seq<Seq<char>> {
    v.map_values(|l: String| l@)
}

/// Splits `text` into its lines, as [`lines_of`] states.
pub fn lines(text: &str) -> (r: Vec<String>)
    ensures
        string_views(r@) == lines_of(text@),
{
    let n = text.unicode_len();
    let mut out: Vec<String> = Vec::new();
    let mut start: usize = 0;
    let mut i: usize = 0;
    while i < n
        invariant
            n == text@.len(),
            start <= i <= n,
            line_scan(text@.take(i as int)) == (string_views(out@), text@.subrange(
                start as int,
                i as int,
            )),
        decreases n - i,
    {
        let c = text.get_char(i);
        proof {
            assert(text@.take(i + 1).drop_last() =~= text@.take(i as int));
            assert(text@.take(i + 1).last() == c);
        }
        if c == '\n' {
            let end: usize = if i > start && text.get_char(i - 1) == '\r' {
                i - 1
            } else {
                i
            };
            let line = String::from_str(text.substring_char(start, end));
            let ghost before = out@;
            proof {
                let open = text@.subrange(start as int, i as int);
                assert(line@ =~= without_cr(open));
            }
            out.push(line);
            proof {
                assert(string_views(out@) =~= string_views(before).push(line@));
            }
            start = i + 1;
        } else {
            proof {
                assert(text@.subrange(start as int, i + 1) =~= text@.subrange(
                    start as int,
                    i as int,
                ).push(c));
            }
        }
        i = i + 1;
    }
    proof {
        assert(text@.take(n as int) =~= text@);
    }
    if start < n {
        let last = String::from_str(text.substring_char(start, n));
        let ghost before = out@;
        out.push(last);
        proof {
            assert(string_views(out@) =~= string_views(before).push(last@));
        }
    }
    out
}

} // verus!
