use vstd::prelude::*;

verus! {

/// Dot-splitting, defined one character at a time: `cur` is the segment being
/// read.  Every string splits into at least one segment; the empty string
/// splits into one empty segment.
pub open spec fn split_rec(s: Seq<char>, cur: Seq<char>) -> Seq<Seq<char>>
    decreases s.len(),
{
    if s.len() == 0 {
        seq![cur]
    } else if s[0] == '.' {
        seq![cur] + split_rec(s.drop_first(), Seq::empty())
    } else {
        split_rec(s.drop_first(), cur.push(s[0]))
    }
}

/// The segments of a dotted string.
pub open spec fn split_path(s: Seq<char>) -> Seq<Seq<char>> {
    split_rec(s, Seq::empty())
}

/// The dotted string a list of segments describes; inverse of `split_path`
/// whenever no segment holds a dot.
pub open spec fn join_path(segs: Seq<Seq<char>>) -> Seq<char>
    decreases segs.len(),
{
    if segs.len() == 0 {
        Seq::empty()
    } else if segs.len() == 1 {
        segs[0]
    } else {
        segs[0] + seq!['.'] + join_path(segs.drop_first())
    }
}

/// Splits a dotted string into its segments.
pub fn split_dots(s: &str) -> (r: Vec<String>)
    ensures
        r@.map_values(|x: String| x@) == split_path(s@),
        r@.len() >= 1,
{
    let n = s.unicode_len();
    let mut done: Vec<String> = Vec::new();
    let mut start: usize = 0;
    proof {
        assert(s@.skip(0) =~= s@);
        assert(s@.subrange(0, 0) =~= Seq::<char>::empty());
    }
    for i in 0..n
        invariant
            n == s@.len(),
            start <= i <= n,
            split_path(s@) == done@.map_values(|x: String| x@) + split_rec(
                s@.skip(i as int),
                s@.subrange(start as int, i as int),
            ),
    {
        proof {
            assert(s@.skip(i as int)[0] == s@[i as int]);
            assert(s@.skip(i as int).drop_first() =~= s@.skip(i as int + 1));
        }
        let c = s.get_char(i);
        if c == '.' {
            let ghost old_start = start as int;
            let ghost old_done = done@;
            let seg = s.substring_char(start, i);
            done.push(seg.to_owned());
            start = i + 1;
            proof {
                assert(done@.map_values(|x: String| x@) =~= old_done.map_values(|x: String| x@)
                    .push(s@.subrange(old_start, i as int)));
                assert(s@.subrange(start as int, i as int + 1) =~= Seq::<char>::empty());
                assert(done@.map_values(|x: String| x@) + split_rec(
                    s@.skip(i as int + 1),
                    Seq::empty(),
                ) =~= old_done.map_values(|x: String| x@) + (seq![
                    s@.subrange(old_start, i as int),
                ] + split_rec(s@.skip(i as int + 1), Seq::empty())));
            }
        } else {
            proof {
                assert(s@.subrange(start as int, i as int).push(s@[i as int]) =~= s@.subrange(
                    start as int,
                    i as int + 1,
                ));
            }
        }
    }
    let last = s.substring_char(start, n);
    done.push(last.to_owned());
    proof {
        assert(s@.skip(n as int) =~= Seq::<char>::empty());
        assert(done@.map_values(|x: String| x@) =~= done@.drop_last().map_values(|x: String| x@)
            + seq![s@.subrange(start as int, n as int)]);
    }
    done
}

/// Joins segments back into a dotted string.
pub fn join_dots(segs: &Vec<String>, from: usize) -> (r: String)
    requires
        from <= segs@.len(),
    ensures
        r@ == join_path(segs@.skip(from as int).map_values(|x: String| x@)),
    decreases segs@.len() - from,
{
    if from == segs.len() {
        proof {
            assert(segs@.skip(from as int).map_values(|x: String| x@) =~= Seq::<Seq<char>>::empty());
        }
        String::new()
    } else if from + 1 == segs.len() {
        proof {
            let m = segs@.skip(from as int).map_values(|x: String| x@);
            assert(m.len() == 1);
            assert(m[0] == segs@[from as int]@);
        }
        segs[from].clone()
    } else {
        let mut r = segs[from].clone();
        r.append(".");
        let rest = join_dots(segs, from + 1);
        r.append(rest.as_str());
        proof {
            let m = segs@.skip(from as int).map_values(|x: String| x@);
            let m1 = segs@.skip(from as int + 1).map_values(|x: String| x@);
            assert(m.drop_first() =~= m1);
            assert(m[0] == segs@[from as int]@);
            reveal_strlit(".");
            assert(r@ =~= m[0] + seq!['.'] + join_path(m1));
        }
        r
    }
}

} // verus!
