//! Recognizing the first `textagram` code fence of a markdown text.
use vstd::prelude::*;

use crate::lines::{lemma_segments_of_flatten, line_text, no_newline, segments};

verus! {

broadcast use vstd::seq_lib::group_seq_properties;

/// Unicode `White_Space`, as `char::is_whitespace` documents it.
pub open spec fn is_white_space(c: char) -> bool {
    let n = c as u32;
    ||| 0x09 <= n <= 0x0d
    ||| n == 0x20
    ||| n == 0x85
    ||| n == 0xa0
    ||| n == 0x1680
    ||| 0x2000 <= n <= 0x200a
    ||| n == 0x2028
    ||| n == 0x2029
    ||| n == 0x202f
    ||| n == 0x205f
    ||| n == 0x3000
}

/// `s` without its leading white space (`str::trim_start`).
pub open spec fn trim_start(s: Seq<char>) -> Seq<char>
    decreases s.len(),
{
    if s.len() > 0 && is_white_space(s[0]) {
        trim_start(s.drop_first())
    } else {
        s
    }
}

/// The longest prefix of `s` that holds no white space.
pub open spec fn leading_word(s: Seq<char>) -> Seq<char>
    decreases s.len(),
{
    if s.len() > 0 && !is_white_space(s[0]) {
        seq![s[0]] + leading_word(s.drop_first())
    } else {
        Seq::empty()
    }
}

/// The first white-space separated word of `s` (`split_whitespace().next()`).
pub open spec fn first_word(s: Seq<char>) -> Option<Seq<char>> {
    let r = trim_start(s);
    if r.len() == 0 {
        None
    } else {
        Some(leading_word(r))
    }
}

/// `s` starts with three backticks.
pub open spec fn starts_with_backtick_fence(s: Seq<char>) -> bool {
    s.len() >= 3 && s[0] == '`' && s[1] == '`' && s[2] == '`'
}

/// Code point of the ASCII lower case of `c`; other characters are left as they are.
pub open spec fn ascii_lower(c: char) -> int {
    if 'A' <= c <= 'Z' {
        (c as u32) + 32
    } else {
        c as u32 as int
    }
}

/// The label that marks a diagram fence.
pub open spec fn diagram_label() -> Seq<char> {
    seq!['t', 'e', 'x', 't', 'a', 'g', 'r', 'a', 'm']
}

/// `w` equals the diagram label when ASCII case is ignored.
pub open spec fn is_diagram_label(w: Seq<char>) -> bool {
    &&& w.len() == diagram_label().len()
    &&& forall|k: int| 0 <= k < w.len() ==> ascii_lower(#[trigger] w[k]) == diagram_label()[k] as u32
}

/// A line that opens a diagram fence: after leading white space, three backticks
/// and an info string whose first word is the diagram label.
pub open spec fn is_opening_line(line: Seq<char>) -> bool {
    let t = trim_start(line);
    &&& starts_with_backtick_fence(t)
    &&& match first_word(t.skip(3)) {
        Some(w) => is_diagram_label(w),
        None => false,
    }
}

/// A line that closes an open fence: three backticks after leading white space.
pub open spec fn is_closing_line(line: Seq<char>) -> bool {
    starts_with_backtick_fence(trim_start(line))
}

/// Index of the first segment at or after `k` whose line opens a diagram fence,
/// or `segs.len()` when there is none.
pub open spec fn first_opening_from(segs: Seq<Seq<char>>, k: int) -> int
    decreases segs.len() - k,
{
    if k >= segs.len() {
        segs.len() as int
    } else if is_opening_line(line_text(segs[k])) {
        k
    } else {
        first_opening_from(segs, k + 1)
    }
}

/// Index of the first segment at or after `k` whose line is a closing fence,
/// or `segs.len()` when there is none.
pub open spec fn first_closing_from(segs: Seq<Seq<char>>, k: int) -> int
    decreases segs.len() - k,
{
    if k >= segs.len() {
        segs.len() as int
    } else if is_closing_line(line_text(segs[k])) {
        k
    } else {
        first_closing_from(segs, k + 1)
    }
}

/// The segment indices of the first diagram fence of `t`: its opening line and the
/// first fence line after it. `None` when no line opens a diagram fence, or when
/// the first that does is never closed.
pub open spec fn fence_lines(t: Seq<char>) -> Option<(int, int)> {
    fence_lines_in(segments(t))
}

/// The segment indices of the first diagram fence among `segs` (see `fence_lines`).
pub open spec fn fence_lines_in(segs: Seq<Seq<char>>) -> Option<(int, int)> {
    let i = first_opening_from(segs, 0);
    let j = first_closing_from(segs, i + 1);
    if i < segs.len() && j < segs.len() {
        Some((i, j))
    } else {
        None
    }
}

/// `s` without one trailing line feed, if it has one.
pub open spec fn drop_trailing_newline(s: Seq<char>) -> Seq<char> {
    if s.len() > 0 && s.last() == '\n' {
        s.drop_last()
    } else {
        s
    }
}

/// The five parts of a text around its first diagram fence.
pub struct FenceParts {
    pub before: Seq<char>,
    pub opening: Seq<char>,
    pub body: Seq<char>,
    pub closing: Seq<char>,
    pub after: Seq<char>,
}

/// The text strictly between the opening and the closing line of the fence.
pub open spec fn fence_region(segs: Seq<Seq<char>>, i: int, j: int) -> Seq<char> {
    segs.subrange(i + 1, j).flatten()
}

/// How `t` falls apart around its first diagram fence: the text before the opening
/// line, the opening line, the body (without its final line feed), the closing
/// line and the rest. Each line keeps its own line feed.
pub open spec fn fence_parts(t: Seq<char>) -> Option<FenceParts> {
    match fence_lines(t) {
        Some((i, j)) => {
            let segs = segments(t);
            Some(
                FenceParts {
                    before: segs.take(i).flatten(),
                    opening: segs[i],
                    body: drop_trailing_newline(fence_region(segs, i, j)),
                    closing: segs[j],
                    after: segs.skip(j + 1).flatten(),
                },
            )
        },
        None => None,
    }
}

/// `first_opening_from` is the first opening line at or after `k`.
pub proof fn lemma_first_opening(segs: Seq<Seq<char>>, k: int)
    requires
        0 <= k <= segs.len(),
    ensures
        k <= first_opening_from(segs, k) <= segs.len(),
        first_opening_from(segs, k) < segs.len() ==> is_opening_line(
            line_text(segs[first_opening_from(segs, k)]),
        ),
        forall|m: int|
            k <= m < first_opening_from(segs, k) ==> !is_opening_line(line_text(#[trigger] segs[m])),
    decreases segs.len() - k,
{
    if k < segs.len() && !is_opening_line(line_text(segs[k])) {
        lemma_first_opening(segs, k + 1);
    }
}

/// An index with the defining properties of `first_opening_from` is it.
pub proof fn lemma_first_opening_unique(segs: Seq<Seq<char>>, k: int, r: int)
    requires
        0 <= k <= r <= segs.len(),
        r < segs.len() ==> is_opening_line(line_text(segs[r])),
        forall|m: int| k <= m < r ==> !is_opening_line(line_text(#[trigger] segs[m])),
    ensures
        first_opening_from(segs, k) == r,
{
    lemma_first_opening(segs, k);
    let q = first_opening_from(segs, k);
    if q < r {
        assert(!is_opening_line(line_text(segs[q])));
    } else if r < q {
        assert(!is_opening_line(line_text(segs[r])));
    }
}

/// `first_closing_from` is the first closing line at or after `k`.
pub proof fn lemma_first_closing(segs: Seq<Seq<char>>, k: int)
    requires
        0 <= k <= segs.len(),
    ensures
        k <= first_closing_from(segs, k) <= segs.len(),
        first_closing_from(segs, k) < segs.len() ==> is_closing_line(
            line_text(segs[first_closing_from(segs, k)]),
        ),
        forall|m: int|
            k <= m < first_closing_from(segs, k) ==> !is_closing_line(line_text(#[trigger] segs[m])),
    decreases segs.len() - k,
{
    if k < segs.len() && !is_closing_line(line_text(segs[k])) {
        lemma_first_closing(segs, k + 1);
    }
}

/// An index with the defining properties of `first_closing_from` is it.
pub proof fn lemma_first_closing_unique(segs: Seq<Seq<char>>, k: int, r: int)
    requires
        0 <= k <= r <= segs.len(),
        r < segs.len() ==> is_closing_line(line_text(segs[r])),
        forall|m: int| k <= m < r ==> !is_closing_line(line_text(#[trigger] segs[m])),
    ensures
        first_closing_from(segs, k) == r,
{
    lemma_first_closing(segs, k);
    let q = first_closing_from(segs, k);
    if q < r {
        assert(!is_closing_line(line_text(segs[q])));
    } else if r < q {
        assert(!is_closing_line(line_text(segs[r])));
    }
}

/// The chars of each segment vector.
pub open spec fn seg_views(v: Seq<Vec<char>>) -> Seq<Seq<char>> {
    v.map_values(|x: Vec<char>| x@)
}

/// `char::is_whitespace`.
pub fn white_space(c: char) -> (b: bool)
    ensures
        b == is_white_space(c),
{
    let n = c as u32;
    (0x09 <= n && n <= 0x0d) || n == 0x20 || n == 0x85 || n == 0xa0 || n == 0x1680 || (0x2000
        <= n && n <= 0x200a) || n == 0x2028 || n == 0x2029 || n == 0x202f || n == 0x205f || n
        == 0x3000
}

/// First index in `from..to` of `v` that is not white space, or `to`.
fn skip_white_space(v: &Vec<char>, from: usize, to: usize) -> (r: usize)
    requires
        from <= to <= v.len(),
    ensures
        from <= r <= to,
        trim_start(v@.subrange(from as int, to as int)) == v@.subrange(r as int, to as int),
{
    let mut i = from;
    while i < to && white_space(v[i])
        invariant
            from <= i <= to <= v.len(),
            trim_start(v@.subrange(from as int, to as int)) == trim_start(
                v@.subrange(i as int, to as int),
            ),
        decreases to - i,
    {
        assert(v@.subrange(i as int, to as int).drop_first() =~= v@.subrange(
            i + 1,
            to as int,
        ));
        i = i + 1;
    }
    i
}

/// End of the word of `v` that starts at `from`, looking no further than `to`.
fn skip_word(v: &Vec<char>, from: usize, to: usize) -> (r: usize)
    requires
        from <= to <= v.len(),
    ensures
        from <= r <= to,
        leading_word(v@.subrange(from as int, to as int)) == v@.subrange(from as int, r as int),
{
    let mut i = from;
    while i < to && !white_space(v[i])
        invariant
            from <= i <= to <= v.len(),
            leading_word(v@.subrange(from as int, to as int)) == v@.subrange(from as int, i as int)
                + leading_word(v@.subrange(i as int, to as int)),
        decreases to - i,
    {
        assert(v@.subrange(i as int, to as int).drop_first() =~= v@.subrange(
            i + 1,
            to as int,
        ));
        assert(v@.subrange(from as int, i as int) + seq![v@[i as int]] =~= v@.subrange(
            from as int,
            i + 1,
        ));
        i = i + 1;
    }
    assert(v@.subrange(from as int, i as int) + Seq::<char>::empty() =~= v@.subrange(
        from as int,
        i as int,
    ));
    i
}

/// Code point of `char::to_ascii_lowercase`.
fn to_ascii_lower(c: char) -> (r: u32)
    ensures
        r == ascii_lower(c),
{
    if 'A' <= c && c <= 'Z' {
        (c as u32) + 32
    } else {
        c as u32
    }
}

/// Length of `seg` without its trailing line feed.
fn line_len(seg: &Vec<char>) -> (r: usize)
    ensures
        r <= seg.len(),
        seg@.take(r as int) == line_text(seg@),
{
    if seg.len() > 0 && seg[seg.len() - 1] == '\n' {
        seg.len() - 1
    } else {
        assert(seg@.take(seg.len() as int) =~= seg@);
        seg.len()
    }
}

/// Whether `v[from..to]` starts with three backticks.
fn backtick_fence_at(v: &Vec<char>, from: usize, to: usize) -> (b: bool)
    requires
        from <= to <= v.len(),
    ensures
        b == starts_with_backtick_fence(v@.subrange(from as int, to as int)),
{
    to - from >= 3 && v[from] == '`' && v[from + 1] == '`' && v[from + 2] == '`'
}

/// Whether `v[from..to]` is the diagram label, ASCII case ignored.
fn diagram_label_at(v: &Vec<char>, from: usize, to: usize) -> (b: bool)
    requires
        from <= to <= v.len(),
    ensures
        b == is_diagram_label(v@.subrange(from as int, to as int)),
{
    let ghost w = v@.subrange(from as int, to as int);
    if to - from != 9 {
        return false;
    }
    let label: [char; 9] = ['t', 'e', 'x', 't', 'a', 'g', 'r', 'a', 'm'];
    assert(label@ =~= diagram_label());
    let mut k: usize = 0;
    while k < 9
        invariant
            0 <= k <= 9,
            from + 9 == to <= v.len(),
            w == v@.subrange(from as int, to as int),
            label@ == diagram_label(),
            forall|m: int| 0 <= m < k ==> ascii_lower(#[trigger] w[m]) == diagram_label()[m] as u32,
        decreases 9 - k,
    {
        assert(w[k as int] == v@[from + k]);
        if to_ascii_lower(v[from + k]) != label[k] as u32 {
            return false;
        }
        k = k + 1;
    }
    true
}

/// Whether the line of `seg` is a closing fence.
pub fn is_closing_segment(seg: &Vec<char>) -> (b: bool)
    ensures
        b == is_closing_line(line_text(seg@)),
{
    let end = line_len(seg);
    assert(seg@.subrange(0, end as int) =~= seg@.take(end as int));
    let p = skip_white_space(seg, 0, end);
    backtick_fence_at(seg, p, end)
}

/// Whether the line of `seg` opens a diagram fence.
pub fn is_opening_segment(seg: &Vec<char>) -> (b: bool)
    ensures
        b == is_opening_line(line_text(seg@)),
{
    let end = line_len(seg);
    assert(seg@.subrange(0, end as int) =~= seg@.take(end as int));
    let p = skip_white_space(seg, 0, end);
    let ghost t = seg@.subrange(p as int, end as int);
    if !backtick_fence_at(seg, p, end) {
        return false;
    }
    assert(t.skip(3) =~= seg@.subrange(p + 3, end as int));
    let q = skip_white_space(seg, p + 3, end);
    if q == end {
        assert(first_word(t.skip(3)) is None);
        return false;
    }
    let e = skip_word(seg, q, end);
    assert(first_word(t.skip(3)) == Some(seg@.subrange(q as int, e as int)));
    diagram_label_at(seg, q, e)
}

/// Splits `t` after each line feed, as `split_inclusive('\n')` does.
pub fn split_segments(t: &Vec<char>) -> (r: Vec<Vec<char>>)
    ensures
        seg_views(r@) == segments(t@),
{
    let mut r: Vec<Vec<char>> = Vec::new();
    let mut cur: Vec<char> = Vec::new();
    let mut i: usize = 0;
    while i < t.len()
        invariant
            0 <= i <= t.len(),
            seg_views(r@).flatten() + cur@ == t@.take(i as int),
            forall|k: int|
                0 <= k < r.len() ==> {
                    &&& (#[trigger] r@[k])@.len() > 0
                    &&& r@[k]@.last() == '\n'
                    &&& no_newline(r@[k]@.drop_last())
                },
            no_newline(cur@),
        decreases t.len() - i,
    {
        let c = t[i];
        let ghost prev = cur@;
        cur.push(c);
        assert(t@.take(i + 1) =~= t@.take(i as int).push(c));
        if c == '\n' {
            assert(cur@.drop_last() =~= prev);
            let ghost before = seg_views(r@);
            r.push(cur);
            assert(seg_views(r@) =~= before.push(r@.last()@));
            proof { before.lemma_flatten_push(r@.last()@); }
            cur = Vec::new();
            assert(seg_views(r@).flatten() + cur@ =~= t@.take(i + 1));
        } else {
            assert(no_newline(cur@));
        }
        i = i + 1;
    }
    assert(t@.take(t.len() as int) =~= t@);
    if cur.len() > 0 {
        let ghost before = seg_views(r@);
        r.push(cur);
        assert(seg_views(r@) =~= before.push(r@.last()@));
        proof { before.lemma_flatten_push(r@.last()@); }
    } else {
        assert(seg_views(r@).flatten() + cur@ =~= seg_views(r@).flatten());
    }
    proof {
        let s = seg_views(r@);
        assert forall|k: int| 0 <= k < s.len() implies {
            &&& (#[trigger] s[k]).len() > 0
            &&& no_newline(s[k].drop_last())
            &&& (k + 1 < s.len() ==> s[k].last() == '\n')
        } by {
            assert(s[k] == r@[k]@);
        }
        lemma_segments_of_flatten(s);
    }
    r
}

/// Segment indices of the opening and the closing line of the first diagram
/// fence, the first line that opens one and the first fence line after it.
pub fn find_first_recognized_fence(segs: &Vec<Vec<char>>) -> (r: Option<(usize, usize)>)
    ensures
        match r {
            Some((i, j)) => i < j < segs.len() && fence_lines_in(seg_views(segs@)) == Some(
                (i as int, j as int),
            ),
            None => fence_lines_in(seg_views(segs@)) is None,
        },
{
    let ghost s = seg_views(segs@);
    let n = segs.len();
    let mut i: usize = 0;
    while i < n && !is_opening_segment(&segs[i])
        invariant
            0 <= i <= n == segs.len() == s.len(),
            s == seg_views(segs@),
            first_opening_from(s, 0) == first_opening_from(s, i as int),
        decreases n - i,
    {
        assert(s[i as int] == segs@[i as int]@);
        i = i + 1;
    }
    if i == n {
        return None;
    }
    assert(s[i as int] == segs@[i as int]@);
    let mut j: usize = i + 1;
    while j < n && !is_closing_segment(&segs[j])
        invariant
            i < j <= n == segs.len() == s.len(),
            s == seg_views(segs@),
            first_closing_from(s, i + 1) == first_closing_from(s, j as int),
        decreases n - j,
    {
        assert(s[j as int] == segs@[j as int]@);
        j = j + 1;
    }
    if j == n {
        return None;
    }
    assert(s[j as int] == segs@[j as int]@);
    Some((i, j))
}

/// The characters of `segs[from..to]`, one segment after the other.
pub fn concat_segments(segs: &Vec<Vec<char>>, from: usize, to: usize) -> (r: Vec<char>)
    requires
        from <= to <= segs.len(),
    ensures
        r@ == seg_views(segs@).subrange(from as int, to as int).flatten(),
{
    let ghost s = seg_views(segs@);
    let mut r: Vec<char> = Vec::new();
    let mut k = from;
    while k < to
        invariant
            from <= k <= to <= segs.len() == s.len(),
            s == seg_views(segs@),
            r@ == s.subrange(from as int, k as int).flatten(),
        decreases to - k,
    {
        let seg = &segs[k];
        let ghost base = r@;
        let mut m: usize = 0;
        while m < seg.len()
            invariant
                0 <= m <= seg.len(),
                r@ == base + seg@.take(m as int),
            decreases seg.len() - m,
        {
            r.push(seg[m]);
            assert(seg@.take(m + 1) =~= seg@.take(m as int).push(seg@[m as int]));
            m = m + 1;
        }
        proof {
            assert(seg@.take(seg.len() as int) =~= seg@);
            assert(s[k as int] == seg@);
            assert(s.subrange(from as int, k + 1) =~= s.subrange(from as int, k as int).push(s[k as int]));
            s.subrange(from as int, k as int).lemma_flatten_push(s[k as int]);
        }
        k = k + 1;
    }
    r
}

} // verus!
