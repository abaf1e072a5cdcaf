//! Text as a sequence of line segments, the way `str::split_inclusive('\n')`
//! cuts it, with the facts the fence parser and its laws rest on.
use vstd::prelude::*;

verus! {

broadcast use vstd::seq_lib::group_seq_properties;

/// Index of the first line feed of `t` at or after `i`, or `t.len()` when there is none.
pub open spec fn newline_from(t: Seq<char>, i: int) -> int
    decreases t.len() - i,
{
    if i >= t.len() {
        t.len() as int
    } else if t[i] == '\n' {
        i
    } else {
        newline_from(t, i + 1)
    }
}

/// Length of the first segment of `t`: through its first line feed, or all of `t`.
pub open spec fn first_segment_len(t: Seq<char>) -> int {
    let p = newline_from(t, 0);
    if p < t.len() {
        p + 1
    } else {
        t.len() as int
    }
}

/// The segments of `t` as `split_inclusive('\n')` yields them: every segment but
/// possibly the last ends with its line feed, and the empty text has none.
pub open spec fn segments(t: Seq<char>) -> Seq<Seq<char>>
    decreases t.len(),
{
    if t.len() == 0 {
        Seq::empty()
    } else {
        proof {
            lemma_newline_from(t, 0);
        }
        let k = first_segment_len(t);
        seq![t.take(k)] + segments(t.skip(k))
    }
}

/// A segment without its trailing line feed (`strip_suffix('\n')`).
pub open spec fn line_text(seg: Seq<char>) -> Seq<char> {
    if seg.len() > 0 && seg.last() == '\n' {
        seg.drop_last()
    } else {
        seg
    }
}

/// `s` holds no line feed.
pub open spec fn no_newline(s: Seq<char>) -> bool {
    forall|k: int| 0 <= k < s.len() ==> s[k] != '\n'
}

/// A list of segments that some text splits into: none empty, a line feed only as
/// the last character of a segment, and every segment but the last ending with one.
pub open spec fn well_formed_segments(s: Seq<Seq<char>>) -> bool {
    forall|i: int|
        0 <= i < s.len() ==> {
            &&& (#[trigger] s[i]).len() > 0
            &&& no_newline(s[i].drop_last())
            &&& (i + 1 < s.len() ==> s[i].last() == '\n')
        }
}

/// `newline_from` is the first line feed at or after `i`.
pub proof fn lemma_newline_from(t: Seq<char>, i: int)
    requires
        0 <= i <= t.len(),
    ensures
        i <= newline_from(t, i) <= t.len(),
        newline_from(t, i) < t.len() ==> t[newline_from(t, i)] == '\n',
        forall|k: int| i <= k < newline_from(t, i) ==> t[k] != '\n',
    decreases t.len() - i,
{
    if i < t.len() && t[i] != '\n' {
        lemma_newline_from(t, i + 1);
    }
}

/// Any position with the defining properties of `newline_from` is it.
pub proof fn lemma_newline_from_unique(t: Seq<char>, i: int, p: int)
    requires
        0 <= i <= p <= t.len(),
        p < t.len() ==> t[p] == '\n',
        forall|k: int| i <= k < p ==> t[k] != '\n',
    ensures
        newline_from(t, i) == p,
{
    lemma_newline_from(t, i);
    let q = newline_from(t, i);
    if q < p {
        assert(t[q] != '\n');
    } else if p < q {
        assert(t[p] != '\n');
    }
}

/// Concatenating the segments of `t` gives back `t`, and they are well formed.
pub proof fn lemma_segments_sound(t: Seq<char>)
    ensures
        segments(t).flatten() == t,
        well_formed_segments(segments(t)),
    decreases t.len(),
{
    if t.len() > 0 {
        lemma_newline_from(t, 0);
        let k = first_segment_len(t);
        let head = t.take(k);
        let rest = t.skip(k);
        lemma_segments_sound(rest);
        let s = segments(t);
        assert(s == seq![head] + segments(rest));
        vstd::seq_lib::lemma_flatten_concat(seq![head], segments(rest));
        seq![head].lemma_flatten_one_element();
        assert(head + rest =~= t);
        assert forall|i: int| 0 <= i < s.len() implies {
            &&& (#[trigger] s[i]).len() > 0
            &&& no_newline(s[i].drop_last())
            &&& (i + 1 < s.len() ==> s[i].last() == '\n')
        } by {
            if i == 0 {
                assert(s[0] == head);
                assert forall|m: int| 0 <= m < head.drop_last().len() implies head.drop_last()[m]
                    != '\n' by {
                    assert(head.drop_last()[m] == t[m]);
                }
                if 1 < s.len() {
                    assert(rest.len() > 0);
                    assert(newline_from(t, 0) < t.len());
                }
            } else {
                assert(s[i] == segments(rest)[i - 1]);
            }
        }
    }
}

/// A well-formed list of segments is exactly what its concatenation splits into.
pub proof fn lemma_segments_of_flatten(s: Seq<Seq<char>>)
    requires
        well_formed_segments(s),
    ensures
        segments(s.flatten()) == s,
    decreases s.len(),
{
    if s.len() > 0 {
        let t = s.flatten();
        let head = s[0];
        let tail = s.drop_first();
        assert(t == head + tail.flatten());
        assert(well_formed_segments(tail)) by {
            assert forall|i: int| 0 <= i < tail.len() implies {
                &&& (#[trigger] tail[i]).len() > 0
                &&& no_newline(tail[i].drop_last())
                &&& (i + 1 < tail.len() ==> tail[i].last() == '\n')
            } by {
                assert(tail[i] == s[i + 1]);
            }
        }
        lemma_segments_of_flatten(tail);
        assert(head.len() > 0);
        assert(no_newline(head.drop_last()));
        if head.last() == '\n' {
            let p = head.len() - 1;
            assert forall|k: int| 0 <= k < p implies t[k] != '\n' by {
                assert(t[k] == head.drop_last()[k]);
            }
            lemma_newline_from_unique(t, 0, p);
            assert(first_segment_len(t) == head.len());
        } else {
            assert(s.len() == 1);
            assert(tail.len() == 0);
            assert(tail.flatten() =~= Seq::<char>::empty());
            assert(t =~= head);
            assert forall|k: int| 0 <= k < t.len() implies t[k] != '\n' by {
                if k < t.len() - 1 {
                    assert(t[k] == head.drop_last()[k]);
                }
            }
            lemma_newline_from_unique(t, 0, t.len() as int);
            assert(first_segment_len(t) == head.len());
        }
        assert(t.take(head.len() as int) =~= head);
        assert(t.skip(head.len() as int) =~= tail.flatten());
        assert(segments(t) == seq![head] + segments(tail.flatten()));
        assert(s =~= seq![head] + tail);
    }
}

/// The last character of a concatenation of non-empty pieces is that of the last piece.
pub proof fn lemma_flatten_last(s: Seq<Seq<char>>)
    requires
        s.len() > 0,
        s.last().len() > 0,
    ensures
        s.flatten().len() > 0,
        s.flatten().last() == s.last().last(),
{
    s.drop_last().lemma_flatten_push(s.last());
    assert(s.drop_last().push(s.last()) =~= s);
}

} // verus!
