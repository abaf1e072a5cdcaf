//! What saving and loading promise of each other.
use vstd::prelude::*;

use crate::fence::{
    drop_trailing_newline, fence_lines, fence_lines_in, fence_parts, fence_region,
    first_closing_from, first_opening_from, is_closing_line, lemma_first_closing,
    lemma_first_closing_unique, lemma_first_opening, lemma_first_opening_unique, FenceParts,
};
use crate::file_mode::{
    body_block, loaded_mode, mode_dirty, mode_original, mode_payload, mode_saved, normalized,
    rebuilt, FileModeView,
};
use crate::lines::{
    lemma_flatten_last, lemma_segments_of_flatten, lemma_segments_sound, line_text, no_newline,
    segments, well_formed_segments,
};

verus! {

broadcast use vstd::seq_lib::group_seq_properties;

/// `s` holds no carriage return.
pub open spec fn no_carriage_return(s: Seq<char>) -> bool {
    forall|k: int| 0 <= k < s.len() ==> s[k] != '\r'
}

/// No line of `s` is a fence line (three backticks after leading white space).
pub open spec fn no_fence_line(s: Seq<char>) -> bool {
    forall|k: int|
        0 <= k < segments(s).len() ==> !is_closing_line(line_text(#[trigger] segments(s)[k]))
}

/// The fence body of `t` comes back unchanged when it is written out again: the
/// text between the fence lines is empty or its last line is not blank.
pub open spec fn body_survives_rewrite(t: Seq<char>) -> bool {
    match fence_lines(t) {
        Some((i, j)) => {
            let r = fence_region(segments(t), i, j);
            r.len() == 0 || (r.len() >= 2 && r[r.len() - 2] != '\n')
        },
        None => true,
    }
}

/// Normalized text holds no carriage return.
pub proof fn lemma_normalized_has_no_carriage_return(s: Seq<char>)
    ensures
        no_carriage_return(normalized(s)),
    decreases s.len(),
{
    if s.len() > 0 {
        if s[0] == '\r' && s.len() > 1 && s[1] == '\n' {
            lemma_normalized_has_no_carriage_return(s.skip(2));
        } else {
            lemma_normalized_has_no_carriage_return(s.skip(1));
        }
    }
}

/// Text without carriage returns is already normalized.
pub proof fn lemma_normalized_identity(s: Seq<char>)
    requires
        no_carriage_return(s),
    ensures
        normalized(s) == s,
    decreases s.len(),
{
    if s.len() > 0 {
        assert(s[0] != '\r');
        lemma_normalized_identity(s.skip(1));
        assert(seq![s[0]] + s.skip(1) =~= s);
    }
}

/// A text is its five parts around a fence, one after the other.
pub proof fn lemma_five_parts(segs: Seq<Seq<char>>, i: int, j: int)
    requires
        0 <= i < j < segs.len(),
    ensures
        segs.flatten() == segs.take(i).flatten() + segs[i] + segs.subrange(i + 1, j).flatten()
            + segs[j] + segs.skip(j + 1).flatten(),
{
    let a = segs.take(i);
    let b = seq![segs[i]];
    let c = segs.subrange(i + 1, j);
    let d = seq![segs[j]];
    let e = segs.skip(j + 1);
    assert(segs =~= a + (b + (c + (d + e))));
    vstd::seq_lib::lemma_flatten_concat(a, b + (c + (d + e)));
    vstd::seq_lib::lemma_flatten_concat(b, c + (d + e));
    vstd::seq_lib::lemma_flatten_concat(c, d + e);
    vstd::seq_lib::lemma_flatten_concat(d, e);
    b.lemma_flatten_one_element();
    d.lemma_flatten_one_element();
    assert(segs.flatten() =~= a.flatten() + segs[i] + c.flatten() + segs[j] + e.flatten());
}

/// Between two lines of a text, the text ends with a line feed.
pub proof fn lemma_region_ends_with_newline(segs: Seq<Seq<char>>, i: int, j: int)
    requires
        well_formed_segments(segs),
        0 <= i < j < segs.len(),
        i + 1 < j,
    ensures
        fence_region(segs, i, j).len() > 0,
        fence_region(segs, i, j).last() == '\n',
{
    let c = segs.subrange(i + 1, j);
    assert(c.last() == segs[j - 1]);
    assert(segs[j - 1].len() > 0);
    lemma_flatten_last(c);
}

/// When the first diagram fence of `t` is found, its closing line comes after its
/// opening line.
pub proof fn lemma_fence_lines_ordered(t: Seq<char>)
    ensures
        fence_lines(t) matches Some((i, j)) ==> 0 <= i < j < segments(t).len(),
{
    let segs = segments(t);
    lemma_first_opening(segs, 0);
    let i = first_opening_from(segs, 0);
    if i < segs.len() {
        lemma_first_closing(segs, i + 1);
    }
}

/// Saving a markdown-backed document's own unedited diagram writes back exactly
/// the (newline-normalized) text it was loaded from, unless the fence body ended
/// in a blank line, which loading folds away.
pub proof fn law_unedited_save_reproduces_file(path: Seq<char>, text: Seq<char>)
    requires
        body_survives_rewrite(normalized(text)),
    ensures
        mode_payload(loaded_mode(path, text), mode_original(loaded_mode(path, text))) == Some(
            normalized(text),
        ),
{
    let n = normalized(text);
    match fence_lines(n) {
        Some((i, j)) => {
            let segs = segments(n);
            lemma_segments_sound(n);
            lemma_fence_lines_ordered(n);
            lemma_five_parts(segs, i, j);
            let region = fence_region(segs, i, j);
            if i + 1 < j {
                lemma_region_ends_with_newline(segs, i, j);
                assert(body_block(drop_trailing_newline(region)) =~= region);
            } else {
                assert(segs.subrange(i + 1, j).len() == 0);
                assert(region =~= Seq::<char>::empty());
                assert(body_block(drop_trailing_newline(region)) =~= region);
            }
        },
        None => {},
    }
}

/// After a save, the saved diagram is clean.
pub proof fn law_saved_diagram_is_clean(m: FileModeView, diagram: Seq<char>)
    ensures
        !mode_dirty(mode_saved(m, diagram), diagram),
        mode_original(mode_saved(m, diagram)) == (match m {
            FileModeView::Scratch => Seq::<char>::empty(),
            _ => diagram,
        }),
{
}

/// The segments of a diagram written back with a final line feed: those of the
/// diagram, the last one closed by the added line feed.
proof fn lemma_segments_of_body_block(e: Seq<char>)
    requires
        e.len() > 0,
        e.last() != '\n',
    ensures
        segments(body_block(e)).len() == segments(e).len(),
        forall|k: int|
            0 <= k < segments(e).len() ==> line_text(#[trigger] segments(body_block(e))[k])
                == line_text(segments(e)[k]),
{
    let se = segments(e);
    lemma_segments_sound(e);
    let last = se.last();
    lemma_flatten_last(se);
    assert(last.last() != '\n');
    let x = se.drop_last().push(last.push('\n'));
    assert(se.drop_last().push(last) =~= se);
    se.drop_last().lemma_flatten_push(last);
    se.drop_last().lemma_flatten_push(last.push('\n'));
    assert(x.flatten() =~= e.push('\n'));
    assert(well_formed_segments(x)) by {
        assert forall|k: int| 0 <= k < x.len() implies {
            &&& (#[trigger] x[k]).len() > 0
            &&& no_newline(x[k].drop_last())
            &&& (k + 1 < x.len() ==> x[k].last() == '\n')
        } by {
            if k + 1 < x.len() {
                assert(x[k] == se[k]);
            } else {
                assert(x[k] == last.push('\n'));
                assert(last.push('\n').drop_last() =~= last);
                assert(no_newline(last.drop_last()));
                assert forall|m: int| 0 <= m < last.len() implies last[m] != '\n' by {
                    if m < last.len() - 1 {
                        assert(last[m] == last.drop_last()[m]);
                    }
                }
            }
        }
    }
    lemma_segments_of_flatten(x);
    assert(body_block(e) == e.push('\n'));
    assert forall|k: int| 0 <= k < se.len() implies line_text(
        #[trigger] segments(body_block(e))[k],
    ) == line_text(se[k]) by {
        if k + 1 < se.len() {
            assert(x[k] == se[k]);
        } else {
            assert(x[k] == last.push('\n'));
            assert(last.push('\n').drop_last() =~= last);
        }
    }
}

/// The segments of a rebuilt markdown file: those before and at the opening line,
/// those of the written body, and those from the closing line on.
proof fn lemma_rebuilt_segments(segs: Seq<Seq<char>>, i: int, j: int, e: Seq<char>)
    requires
        well_formed_segments(segs),
        0 <= i < j < segs.len(),
        e.len() == 0 || e.last() != '\n',
    ensures
        ({
            let se = segments(body_block(e));
            let x = segs.take(i) + seq![segs[i]] + se + segs.skip(j);
            &&& well_formed_segments(x)
            &&& x.flatten() == segs.take(i).flatten() + segs[i] + body_block(e) + segs[j]
                + segs.skip(j + 1).flatten()
        }),
{
    let block = body_block(e);
    let se = segments(block);
    lemma_segments_sound(block);
    let a = segs.take(i);
    let b = seq![segs[i]];
    let d = segs.skip(j);
    let x = a + b + se + d;
    assert(d =~= seq![segs[j]] + segs.skip(j + 1));
    vstd::seq_lib::lemma_flatten_concat(a + b + se, d);
    vstd::seq_lib::lemma_flatten_concat(a + b, se);
    vstd::seq_lib::lemma_flatten_concat(a, b);
    b.lemma_flatten_one_element();
    assert(d.flatten() == segs[j] + segs.skip(j + 1).flatten());
    assert(x.flatten() =~= a.flatten() + segs[i] + block + segs[j] + segs.skip(j + 1).flatten());
    if se.len() > 0 {
        lemma_flatten_last(se);
        assert(block.len() > 0);
        assert(block.last() == '\n');
    }
    let c = i + 1 + se.len();
    assert forall|k: int| 0 <= k < x.len() implies {
        &&& (#[trigger] x[k]).len() > 0
        &&& no_newline(x[k].drop_last())
        &&& (k + 1 < x.len() ==> x[k].last() == '\n')
    } by {
        if k < i {
            assert(x[k] == segs[k]);
        } else if k == i {
            assert(x[k] == segs[i]);
        } else if k < c {
            assert(x[k] == se[k - i - 1]);
        } else {
            assert(x[k] == segs[j + k - c]);
        }
    }
}

/// The text around the first diagram fence, with `diagram` written as its body.
pub open spec fn rebuilt_around(segs: Seq<Seq<char>>, i: int, j: int, diagram: Seq<char>) -> Seq<
    char,
> {
    segs.take(i).flatten() + segs[i] + body_block(diagram) + segs[j] + segs.skip(j + 1).flatten()
}

/// Writing a diagram without fence lines as the body of the first diagram fence
/// leaves that fence where it was, with the diagram as its body.
proof fn lemma_rebuilt_fence(segs: Seq<Seq<char>>, i: int, j: int, diagram: Seq<char>)
    requires
        well_formed_segments(segs),
        0 <= i < j < segs.len(),
        first_opening_from(segs, 0) == i,
        first_closing_from(segs, i + 1) == j,
        diagram.len() == 0 || diagram.last() != '\n',
        no_fence_line(diagram),
    ensures
        fence_parts(rebuilt_around(segs, i, j, diagram)) == Some(
            FenceParts {
                before: segs.take(i).flatten(),
                opening: segs[i],
                body: diagram,
                closing: segs[j],
                after: segs.skip(j + 1).flatten(),
            },
        ),
{
    let block = body_block(diagram);
    let p = rebuilt_around(segs, i, j, diagram);
    lemma_rebuilt_segments(segs, i, j, diagram);
    let se = segments(block);
    let x = segs.take(i) + seq![segs[i]] + se + segs.skip(j);
    lemma_segments_of_flatten(x);
    assert(segments(p) == x);
    let c = i + 1 + se.len();
    // the opening line is where it was
    lemma_first_opening(segs, 0);
    assert forall|k: int| 0 <= k < i implies !crate::fence::is_opening_line(
        line_text(#[trigger] x[k]),
    ) by {
        assert(x[k] == segs[k]);
    }
    assert(x[i] == segs[i]);
    lemma_first_opening_unique(x, 0, i);
    // the closing line follows the written body
    lemma_first_closing(segs, i + 1);
    if diagram.len() > 0 {
        lemma_segments_of_body_block(diagram);
    } else {
        assert(block.len() == 0);
        assert(se.len() == 0);
    }
    assert forall|k: int| i + 1 <= k < c implies !is_closing_line(line_text(#[trigger] x[k])) by {
        assert(x[k] == se[k - i - 1]);
        assert(line_text(se[k - i - 1]) == line_text(segments(diagram)[k - i - 1]));
    }
    assert(x[c] == segs[j]);
    lemma_first_closing_unique(x, i + 1, c);
    assert(fence_lines_in(x) == Some((i, c)));
    assert(x.take(i) =~= segs.take(i));
    assert(x.skip(c + 1) =~= segs.skip(j + 1));
    assert(x.subrange(i + 1, c) =~= se);
    lemma_segments_sound(block);
    assert(drop_trailing_newline(block) =~= diagram);
}

/// A diagram without carriage returns written into text without them makes text
/// without them.
proof fn lemma_rebuilt_no_carriage_return(segs: Seq<Seq<char>>, i: int, j: int, diagram: Seq<char>)
    requires
        0 <= i < j < segs.len(),
        no_carriage_return(segs.flatten()),
        no_carriage_return(diagram),
    ensures
        no_carriage_return(rebuilt_around(segs, i, j, diagram)),
{
    lemma_five_parts(segs, i, j);
    let n = segs.flatten();
    let p = rebuilt_around(segs, i, j, diagram);
    let block = body_block(diagram);
    let lb = segs.take(i).flatten().len();
    let lo = segs[i].len();
    let lr = segs.subrange(i + 1, j).flatten().len();
    let lk = block.len();
    assert forall|k: int| 0 <= k < p.len() implies p[k] != '\r' by {
        if k < lb + lo {
            assert(p[k] == n[k]);
        } else if k < lb + lo + lk {
            if k - lb - lo < diagram.len() {
                assert(p[k] == diagram[k - lb - lo]);
            } else {
                assert(p[k] == '\n');
            }
        } else {
            assert(p[k] == n[k - lk + lr]);
        }
    }
}

/// Saving a diagram and loading the written file again gives back the saved
/// document, the saved diagram as its baseline. A markdown file keeps every part
/// around its first diagram fence, and the diagram comes back as the fence body,
/// provided it does not end with a line feed and none of its lines looks like a
/// fence line; a plain file comes back as the diagram, provided the diagram
/// holds no diagram fence of its own. Either way the diagram holds no carriage
/// return, which loading would normalize.
pub proof fn law_saved_file_reloads_as_saved(path: Seq<char>, text: Seq<char>, diagram: Seq<char>)
    requires
        no_carriage_return(diagram),
        match loaded_mode(path, text) {
            FileModeView::MarkdownBacked(_) => (diagram.len() == 0 || diagram.last() != '\n')
                && no_fence_line(diagram),
            _ => fence_parts(diagram) is None,
        },
    ensures
        mode_payload(loaded_mode(path, text), diagram) matches Some(p) && loaded_mode(path, p)
            == mode_saved(loaded_mode(path, text), diagram),
{
    let n = normalized(text);
    lemma_normalized_has_no_carriage_return(text);
    match fence_lines(n) {
        None => {
            lemma_normalized_identity(diagram);
        },
        Some((i, j)) => {
            let segs = segments(n);
            lemma_segments_sound(n);
            lemma_fence_lines_ordered(n);
            let parts = fence_parts(n).unwrap();
            let p = rebuilt(parts, diagram);
            assert(p =~= rebuilt_around(segs, i, j, diagram));
            lemma_rebuilt_no_carriage_return(segs, i, j, diagram);
            lemma_normalized_identity(p);
            lemma_rebuilt_fence(segs, i, j, diagram);
        },
    }
}

} // verus!
