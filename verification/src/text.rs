use vstd::prelude::*;

verus! {

/// The single character naming the decimal digit `d`.
pub open spec fn digit_seq(d: int) -> Seq<char> {
    if d == 0 {
        "0"@
    } else if d == 1 {
        "1"@
    } else if d == 2 {
        "2"@
    } else if d == 3 {
        "3"@
    } else if d == 4 {
        "4"@
    } else if d == 5 {
        "5"@
    } else if d == 6 {
        "6"@
    } else if d == 7 {
        "7"@
    } else if d == 8 {
        "8"@
    } else {
        "9"@
    }
}

/// The decimal digits of `n`, most significant first, with no sign and no
/// leading zero except for `n == 0` itself.
pub open spec fn dec_seq(n: int) -> Seq<char>
    recommends
        n >= 0,
    decreases n,
{
    if n < 10 {
        digit_seq(n)
    } else {
        dec_seq(n / 10) + digit_seq(n % 10)
    }
}

fn digit_str(d: usize) -> (r: &'static str)
    requires
        d < 10,
    ensures
        r@ == digit_seq(d as int),
{
    if d == 0 {
        "0"
    } else if d == 1 {
        "1"
    } else if d == 2 {
        "2"
    } else if d == 3 {
        "3"
    } else if d == 4 {
        "4"
    } else if d == 5 {
        "5"
    } else if d == 6 {
        "6"
    } else if d == 7 {
        "7"
    } else if d == 8 {
        "8"
    } else {
        "9"
    }
}

/// Append the decimal digits of `n` to `s`.
pub fn append_dec(s: &mut String, n: usize)
    ensures
        final(s)@ == old(s)@ + dec_seq(n as int),
    decreases n,
{
    if n < 10 {
        s.append(digit_str(n));
    } else {
        append_dec(s, n / 10);
        s.append(digit_str(n % 10));
        proof {
            assert((old(s)@ + dec_seq(n as int / 10)) + digit_seq(n as int % 10) =~= old(
                s,
            )@ + dec_seq(n as int));
        }
    }
}

/// `t` with one carriage return dropped from its end, if one stands there.
pub open spec fn strip_cr(t: Seq<char>) -> Seq<char> {
    if t.len() > 0 && t.last() == '\r' {
        t.drop_last()
    } else {
        t
    }
}

/// The segments of `s` between newline characters, every one kept, so the
/// result always holds one more segment than `s` holds newlines. A carriage
/// return standing directly before a newline belongs to the line ending and
/// is dropped; one anywhere else stays.
pub open spec fn split_nl(s: Seq<char>) -> Seq<Seq<char>>
    decreases s.len(),
{
    if s.len() == 0 {
        seq![Seq::<char>::empty()]
    } else if s.last() == '\n' {
        let p = split_nl(s.drop_last());
        p.update(p.len() - 1, strip_cr(p.last())).push(Seq::<char>::empty())
    } else {
        let p = split_nl(s.drop_last());
        p.update(p.len() - 1, p.last().push(s.last()))
    }
}

/// The lines of `s`: its newline-separated segments, with the one empty
/// segment that a terminating newline (or an empty `s`) leaves at the end
/// dropped.
pub open spec fn line_seq(s: Seq<char>) -> Seq<Seq<char>> {
    let p = split_nl(s);
    if p.last().len() == 0 {
        p.drop_last()
    } else {
        p
    }
}

/// Split `s` into its lines, as `line_seq` counts them: a trailing newline
/// ends the last line rather than opening an empty one.
pub fn split_lines(s: &str) -> (r: Vec<String>)
    ensures
        r@.map_values(|x: String| x@) == line_seq(s@),
{
    let n = s.unicode_len();
    let mut out: Vec<String> = Vec::new();
    let mut start: usize = 0;
    let mut i: usize = 0;
    proof {
        assert(s@.take(0) =~= Seq::<char>::empty());
        assert(s@.subrange(0, 0) =~= Seq::<char>::empty());
        assert(out@.map_values(|x: String| x@).push(s@.subrange(0, 0)) =~= seq![
            Seq::<char>::empty(),
        ]);
    }
    while i < n
        invariant
            start <= i <= n,
            n == s@.len(),
            out@.map_values(|x: String| x@).push(s@.subrange(start as int, i as int)) == split_nl(
                s@.take(i as int),
            ),
        decreases n - i,
    {
        let ghost m0 = out@.map_values(|x: String| x@);
        let c = s.get_char(i);
        proof {
            assert(s@.take(i as int + 1).drop_last() =~= s@.take(i as int));
            assert(s@.take(i as int + 1).last() == c);
        }
        if c == '\n' {
            let piece = if i > start && s.get_char(i - 1) == '\r' {
                s.substring_char(start, i - 1)
            } else {
                s.substring_char(start, i)
            };
            proof {
                let seg = s@.subrange(start as int, i as int);
                if i > start && s@[i as int - 1] == '\r' {
                    assert(seg.last() == s@[i as int - 1]);
                    assert(seg.drop_last() =~= s@.subrange(start as int, i as int - 1));
                }
                assert(piece@ == strip_cr(seg));
            }
            out.push(String::from_str(piece));
            proof {
                let p = split_nl(s@.take(i as int));
                assert(p.update(p.len() - 1, strip_cr(p.last())) =~= m0.push(
                    strip_cr(s@.subrange(start as int, i as int)),
                ));
                assert(out@.map_values(|x: String| x@) =~= m0.push(
                    strip_cr(s@.subrange(start as int, i as int)),
                ));
                assert(s@.subrange(i as int + 1, i as int + 1) =~= Seq::<char>::empty());
                assert(out@.map_values(|x: String| x@).push(
                    s@.subrange(i as int + 1, i as int + 1),
                ) == split_nl(s@.take(i as int + 1)));
            }
            start = i + 1;
        } else {
            proof {
                let p = split_nl(s@.take(i as int));
                assert(s@.subrange(start as int, i as int).push(s@[i as int]) =~= s@.subrange(
                    start as int,
                    i as int + 1,
                ));
                assert(p.update(p.len() - 1, p.last().push(c)) =~= m0.push(
                    s@.subrange(start as int, i as int + 1),
                ));
                assert(out@.map_values(|x: String| x@).push(
                    s@.subrange(start as int, i as int + 1),
                ) == split_nl(s@.take(i as int + 1)));
            }
        }
        i += 1;
    }
    proof {
        assert(s@.take(n as int) =~= s@);
    }
    if start < n {
        let ghost m0 = out@.map_values(|x: String| x@);
        let piece = s.substring_char(start, n);
        out.push(String::from_str(piece));
        proof {
            assert(split_nl(s@).last() == s@.subrange(start as int, n as int));
            assert(split_nl(s@).last().len() != 0);
            assert(out@.map_values(|x: String| x@) =~= m0.push(
                s@.subrange(start as int, n as int),
            ));
        }
        out
    } else {
        proof {
            assert(s@.subrange(start as int, n as int) =~= Seq::<char>::empty());
            assert(split_nl(s@).last().len() == 0);
            assert(out@.map_values(|x: String| x@) =~= split_nl(s@).drop_last());
        }
        out
    }
}

} // verus!
