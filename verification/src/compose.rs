//! Composition of the final status line: the five candidate segments in
//! fixed order, empty candidates dropped, survivors joined with single
//! spaces and wrapped in colored brackets.

use vstd::prelude::*;
use crate::branch::HeadOutcome;
use crate::branch::StatusError;
use crate::branch::spec_divergence;
use crate::branch::resolve_branch_name;
use crate::branch::divergence_counts;
use crate::color::Color;
use crate::color::RenderMode;
use crate::color::spec_render_colored;
use crate::color::render_colored;
use crate::numerals::dec_digits;
use crate::numerals::usize_to_decimal;
use crate::status::ChangeCounters;
use crate::status::ChangeRecord;
use crate::status::classify_statuses;
use crate::status::spec_index_counters;
use crate::status::spec_wt_counters;

verus! {

/// The numeric body of a status segment: "+new ~modified -deleted".
pub open spec fn spec_status_text(c: ChangeCounters) -> Seq<char> {
    "+"@ + dec_digits(c.new_count as nat) + " ~"@ + dec_digits(c.modified_count as nat) + " -"@
        + dec_digits(c.deleted_count as nat)
}

/// One side's status segment: the colored prefix and the colored numeric
/// body when any counter is positive, the empty segment otherwise.
pub open spec fn spec_status_segment(
    c: ChangeCounters,
    prefix: Seq<char>,
    color: Color,
    m: RenderMode,
) -> Seq<char> {
    if c.spec_any() {
        spec_render_colored(prefix, Color::Yellow, m) + spec_render_colored(
            spec_status_text(c),
            color,
            m,
        )
    } else {
        Seq::<char>::empty()
    }
}

/// The ahead marker "↑N", colored green, present exactly when ahead > 0.
pub open spec fn spec_ahead_segment(ahead: usize, m: RenderMode) -> Seq<char> {
    if ahead > 0 {
        spec_render_colored("↑"@ + dec_digits(ahead as nat), Color::Green, m)
    } else {
        Seq::<char>::empty()
    }
}

/// The behind marker "↓N", colored red, present exactly when behind > 0.
pub open spec fn spec_behind_segment(behind: usize, m: RenderMode) -> Seq<char> {
    if behind > 0 {
        spec_render_colored("↓"@ + dec_digits(behind as nat), Color::Red, m)
    } else {
        Seq::<char>::empty()
    }
}

/// The five candidate segments, in their fixed order: branch name (blue),
/// ahead marker, behind marker, index status (green, no prefix), worktree
/// status (red, "| " prefix).
pub open spec fn spec_segments(
    branch: Seq<char>,
    ahead: usize,
    behind: usize,
    index: ChangeCounters,
    wt: ChangeCounters,
    m: RenderMode,
) -> Seq<Seq<char>> {
    seq![
        spec_render_colored(branch, Color::Blue, m),
        spec_ahead_segment(ahead, m),
        spec_behind_segment(behind, m),
        spec_status_segment(index, ""@, Color::Green, m),
        spec_status_segment(wt, "| "@, Color::Red, m),
    ]
}

/// Joins segments with a single space between consecutive ones.
pub open spec fn spec_join_spaced(segs: Seq<Seq<char>>) -> Seq<char>
    decreases segs.len(),
{
    if segs.len() == 0 {
        Seq::<char>::empty()
    } else if segs.len() == 1 {
        segs[0]
    } else {
        spec_join_spaced(segs.drop_last()) + seq![' '] + segs.last()
    }
}

/// The body of the line: empty candidates dropped, the survivors joined
/// with single spaces.
pub open spec fn spec_line_body(segs: Seq<Seq<char>>) -> Seq<char> {
    spec_join_spaced(segs.filter(|s: Seq<char>| s.len() > 0))
}

/// The candidates that survive the drop of empty segments: exactly the
/// fragments, in order, that `spec_line_body` joins into the output line.
pub open spec fn spec_survivors(
    branch: Seq<char>,
    ahead: usize,
    behind: usize,
    index: ChangeCounters,
    wt: ChangeCounters,
    m: RenderMode,
) -> Seq<Seq<char>> {
    spec_segments(branch, ahead, behind, index, wt, m).filter(|s: Seq<char>| s.len() > 0)
}

/// The complete line: the body of the five candidates, wrapped in yellow
/// bracket delimiters.
pub open spec fn spec_compose(
    branch: Seq<char>,
    ahead: usize,
    behind: usize,
    index: ChangeCounters,
    wt: ChangeCounters,
    m: RenderMode,
) -> Seq<char> {
    spec_render_colored("["@, Color::Yellow, m) + spec_line_body(
        spec_segments(branch, ahead, behind, index, wt, m),
    ) + spec_render_colored("]"@, Color::Yellow, m)
}

/// One step of left-to-right accumulation: appending an empty segment
/// changes nothing; otherwise a space separates it from a non-empty
/// accumulator.
pub open spec fn spec_append_segment(acc: Seq<char>, seg: Seq<char>) -> Seq<char> {
    if seg.len() == 0 {
        acc
    } else if acc.len() == 0 {
        seg
    } else {
        acc + seq![' '] + seg
    }
}

/// Left-to-right accumulation of all segments.
pub open spec fn spec_fold_segments(segs: Seq<Seq<char>>) -> Seq<char>
    decreases segs.len(),
{
    if segs.len() == 0 {
        Seq::<char>::empty()
    } else {
        spec_append_segment(spec_fold_segments(segs.drop_last()), segs.last())
    }
}

/// Accumulating segments one by one, skipping empty ones, yields exactly
/// the drop-empties-then-join-with-spaces form of the line body.
pub proof fn lemma_fold_is_filter_join(segs: Seq<Seq<char>>)
    ensures
        spec_fold_segments(segs) == spec_line_body(segs),
        spec_fold_segments(segs).len() == 0 <==> segs.filter(|s: Seq<char>| s.len() > 0).len()
            == 0,
    decreases segs.len(),
{
    reveal(Seq::filter);
    let pred = |s: Seq<char>| s.len() > 0;
    if segs.len() == 0 {
        assert(segs.filter(pred) =~= Seq::<Seq<char>>::empty());
    } else {
        let rest = segs.drop_last();
        lemma_fold_is_filter_join(rest);
        if pred(segs.last()) {
            assert(segs.filter(pred) == rest.filter(pred).push(segs.last()));
            if rest.filter(pred).len() == 0 {
                assert(segs.filter(pred) =~= seq![segs.last()]);
            } else {
                assert(rest.filter(pred).push(segs.last()).drop_last() =~= rest.filter(pred));
                assert(rest.filter(pred).push(segs.last()).last() == segs.last());
            }
        } else {
            assert(segs.filter(pred) == rest.filter(pred));
        }
    }
}

/// Appends one rendered segment to the accumulating line body, exactly as
/// `spec_append_segment` describes.
fn append_segment(acc: String, seg: &String) -> (r: String)
    ensures
        r@ == spec_append_segment(acc@, seg@),
{
    if seg.as_str().is_empty() {
        acc
    } else if acc.as_str().is_empty() {
        seg.clone()
    } else {
        proof {
            reveal_strlit(" ");
        }
        let mut r = acc;
        r.append(" ");
        r.append(seg.as_str());
        r
    }
}

/// Renders one side's status segment, exactly as `spec_status_segment`
/// describes: colored prefix plus colored "+new ~modified -deleted" when
/// any counter is positive, the empty string otherwise.
pub fn status_segment(c: ChangeCounters, prefix: &str, color: Color, m: RenderMode) -> (r: String)
    ensures
        r@ == spec_status_segment(c, prefix@, color, m),
{
    if c.new_count > 0 || c.modified_count > 0 || c.deleted_count > 0 {
        let mut text = String::from_str("+");
        text.append(usize_to_decimal(c.new_count).as_str());
        text.append(" ~");
        text.append(usize_to_decimal(c.modified_count).as_str());
        text.append(" -");
        text.append(usize_to_decimal(c.deleted_count).as_str());
        let mut r = render_colored(prefix, Color::Yellow, m);
        r.append(render_colored(text.as_str(), color, m).as_str());
        r
    } else {
        String::new()
    }
}

/// Renders the ahead marker, exactly as `spec_ahead_segment` describes.
pub fn ahead_segment(ahead: usize, m: RenderMode) -> (r: String)
    ensures
        r@ == spec_ahead_segment(ahead, m),
{
    if ahead > 0 {
        let mut text = String::from_str("↑");
        text.append(usize_to_decimal(ahead).as_str());
        render_colored(text.as_str(), Color::Green, m)
    } else {
        String::new()
    }
}

/// Renders the behind marker, exactly as `spec_behind_segment` describes.
pub fn behind_segment(behind: usize, m: RenderMode) -> (r: String)
    ensures
        r@ == spec_behind_segment(behind, m),
{
    if behind > 0 {
        let mut text = String::from_str("↓");
        text.append(usize_to_decimal(behind).as_str());
        render_colored(text.as_str(), Color::Red, m)
    } else {
        String::new()
    }
}

/// Assembles the final line from branch name, divergence counts and the
/// two counter triples, exactly as `spec_compose` describes.
pub fn compose_summary(
    branch: &str,
    ahead: usize,
    behind: usize,
    index: ChangeCounters,
    wt: ChangeCounters,
    m: RenderMode,
) -> (r: String)
    ensures
        r@ == spec_compose(branch@, ahead, behind, index, wt, m),
{
    let s0 = render_colored(branch, Color::Blue, m);
    let s1 = ahead_segment(ahead, m);
    let s2 = behind_segment(behind, m);
    let s3 = status_segment(index, "", Color::Green, m);
    let s4 = status_segment(wt, "| ", Color::Red, m);
    let mut body = String::new();
    body = append_segment(body, &s0);
    body = append_segment(body, &s1);
    body = append_segment(body, &s2);
    body = append_segment(body, &s3);
    body = append_segment(body, &s4);
    proof {
        let g0 = seq![s0@];
        let g1 = seq![s0@, s1@];
        let g2 = seq![s0@, s1@, s2@];
        let g3 = seq![s0@, s1@, s2@, s3@];
        let g4 = seq![s0@, s1@, s2@, s3@, s4@];
        assert(g0.drop_last() =~= Seq::<Seq<char>>::empty());
        assert(g1.drop_last() =~= g0);
        assert(g2.drop_last() =~= g1);
        assert(g3.drop_last() =~= g2);
        assert(g4.drop_last() =~= g3);
        assert(spec_fold_segments(Seq::<Seq<char>>::empty()) == Seq::<char>::empty());
        assert(spec_fold_segments(g0) == spec_append_segment(Seq::<char>::empty(), s0@));
        assert(spec_fold_segments(g1) == spec_append_segment(spec_fold_segments(g0), s1@));
        assert(spec_fold_segments(g2) == spec_append_segment(spec_fold_segments(g1), s2@));
        assert(spec_fold_segments(g3) == spec_append_segment(spec_fold_segments(g2), s3@));
        assert(spec_fold_segments(g4) == spec_append_segment(spec_fold_segments(g3), s4@));
        assert(body@ == spec_fold_segments(g4));
        assert(spec_segments(branch@, ahead, behind, index, wt, m) =~= g4);
        lemma_fold_is_filter_join(g4);
    }
    let mut r = render_colored("[", Color::Yellow, m);
    r.append(body.as_str());
    r.append(render_colored("]", Color::Yellow, m).as_str());
    r
}

/// The survivors keep only candidates the filter accepted, so the empty
/// segment is never among them.
proof fn lemma_survivors_exclude_empty(segs: Seq<Seq<char>>)
    ensures
        !segs.filter(|s: Seq<char>| s.len() > 0).contains(Seq::<char>::empty()),
{
    let pred = |s: Seq<char>| s.len() > 0;
    let kept = segs.filter(pred);
    if kept.contains(Seq::<char>::empty()) {
        let j = choose|j: int| 0 <= j < kept.len() && kept[j] == Seq::<char>::empty();
        segs.lemma_filter_pred(pred, j);
    }
}

/// Law: a side's status segment is a non-empty candidate, and appears among
/// the survivors joined into the composed line, if and only if at least one
/// of that side's three counters is positive.
pub proof fn lemma_status_segment_presence(
    branch: Seq<char>,
    ahead: usize,
    behind: usize,
    index: ChangeCounters,
    wt: ChangeCounters,
    m: RenderMode,
)
    ensures
        spec_status_segment(index, ""@, Color::Green, m).len() > 0 <==> index.spec_any(),
        spec_status_segment(wt, "| "@, Color::Red, m).len() > 0 <==> wt.spec_any(),
        spec_survivors(branch, ahead, behind, index, wt, m).contains(
            spec_status_segment(index, ""@, Color::Green, m),
        ) <==> index.spec_any(),
        spec_survivors(branch, ahead, behind, index, wt, m).contains(
            spec_status_segment(wt, "| "@, Color::Red, m),
        ) <==> wt.spec_any(),
{
    reveal_strlit("+");
    crate::color::lemma_render_length(spec_status_text(index), Color::Green, m);
    crate::color::lemma_render_length(spec_status_text(wt), Color::Red, m);
    let pred = |s: Seq<char>| s.len() > 0;
    let segs = spec_segments(branch, ahead, behind, index, wt, m);
    lemma_survivors_exclude_empty(segs);
    if index.spec_any() {
        segs.lemma_filter_contains(pred, 3);
    }
    if wt.spec_any() {
        segs.lemma_filter_contains(pred, 4);
    }
}

/// Law: the ahead and behind markers are non-empty candidates, and appear
/// among the survivors joined into the composed line, if and only if the
/// respective count is positive; and when no upstream is configured, the
/// degraded (0, 0) divergence makes both markers absent.
pub proof fn lemma_divergence_marker_presence(
    branch: Seq<char>,
    ahead: usize,
    behind: usize,
    index: ChangeCounters,
    wt: ChangeCounters,
    m: RenderMode,
)
    ensures
        spec_ahead_segment(ahead, m).len() > 0 <==> ahead > 0,
        spec_behind_segment(behind, m).len() > 0 <==> behind > 0,
        spec_survivors(branch, ahead, behind, index, wt, m).contains(
            spec_ahead_segment(ahead, m),
        ) <==> ahead > 0,
        spec_survivors(branch, ahead, behind, index, wt, m).contains(
            spec_behind_segment(behind, m),
        ) <==> behind > 0,
        spec_ahead_segment(spec_divergence(None).0, m).len() == 0,
        spec_behind_segment(spec_divergence(None).1, m).len() == 0,
{
    reveal_strlit("↑");
    reveal_strlit("↓");
    if ahead > 0 {
        crate::color::lemma_render_length(
            "↑"@ + dec_digits(ahead as nat),
            Color::Green,
            m,
        );
    }
    if behind > 0 {
        crate::color::lemma_render_length(
            "↓"@ + dec_digits(behind as nat),
            Color::Red,
            m,
        );
    }
    let pred = |s: Seq<char>| s.len() > 0;
    let segs = spec_segments(branch, ahead, behind, index, wt, m);
    lemma_survivors_exclude_empty(segs);
    if ahead > 0 {
        segs.lemma_filter_contains(pred, 1);
    }
    if behind > 0 {
        segs.lemma_filter_contains(pred, 2);
    }
}

/// Law: when every candidate but the branch name is empty — zero ahead,
/// zero behind, all six counters zero — the plain-mode line is exactly the
/// branch name wrapped in brackets: "[" + branch + "]".
pub proof fn lemma_branch_only_line(branch: Seq<char>, index: ChangeCounters, wt: ChangeCounters)
    requires
        !index.spec_any(),
        !wt.spec_any(),
    ensures
        spec_compose(branch, 0, 0, index, wt, RenderMode::Plain) == seq!['['] + branch
            + seq![']'],
{
    reveal_strlit("[");
    reveal_strlit("]");
    let m = RenderMode::Plain;
    let segs = spec_segments(branch, 0, 0, index, wt, m);
    let e = Seq::<char>::empty();
    let g0 = seq![branch];
    let g1 = seq![branch, e];
    let g2 = seq![branch, e, e];
    let g3 = seq![branch, e, e, e];
    let g4 = seq![branch, e, e, e, e];
    assert(segs =~= g4);
    assert(g0.drop_last() =~= Seq::<Seq<char>>::empty());
    assert(g1.drop_last() =~= g0);
    assert(g2.drop_last() =~= g1);
    assert(g3.drop_last() =~= g2);
    assert(g4.drop_last() =~= g3);
    assert(spec_fold_segments(Seq::<Seq<char>>::empty()) == e);
    assert(spec_fold_segments(g0) == spec_append_segment(e, branch));
    assert(spec_fold_segments(g1) == spec_append_segment(spec_fold_segments(g0), e));
    assert(spec_fold_segments(g2) == spec_append_segment(spec_fold_segments(g1), e));
    assert(spec_fold_segments(g3) == spec_append_segment(spec_fold_segments(g2), e));
    assert(spec_fold_segments(g4) == spec_append_segment(spec_fold_segments(g3), e));
    assert(spec_fold_segments(segs) == branch);
    lemma_fold_is_filter_join(segs);
    assert(spec_compose(branch, 0, 0, index, wt, m) =~= seq!['['] + branch + seq![']']);
}

/// Runs the whole aggregation and rendering pipeline over the gathered
/// repository data. A bare repository is rejected with its fixed message
/// before anything is rendered; a fatal head-resolution failure propagates;
/// otherwise the composed line is returned in full.
pub fn render_status(
    is_bare: bool,
    records: &Vec<ChangeRecord>,
    head: HeadOutcome,
    divergence: Option<(usize, usize)>,
    m: RenderMode,
) -> (r: Result<String, StatusError>)
    ensures
        is_bare ==> (r matches Err(e) && e.message@ == "Cannot report status on bare repository"@),
        !is_bare && head.spec_is_fatal() ==> (r matches Err(e) && e.message@
            == head->Failed_message@),
        !is_bare && !head.spec_is_fatal() ==> (r matches Ok(line) && line@ == spec_compose(
            head.spec_branch_name(),
            spec_divergence(divergence).0,
            spec_divergence(divergence).1,
            spec_index_counters(records@),
            spec_wt_counters(records@),
            m,
        )),
{
    if is_bare {
        return Err(
            StatusError { message: String::from_str("Cannot report status on bare repository") },
        );
    }
    let counters = classify_statuses(records);
    let branch = match resolve_branch_name(head) {
        Ok(name) => name,
        Err(e) => {
            return Err(e);
        },
    };
    let counts = divergence_counts(divergence);
    Ok(compose_summary(branch.as_str(), counts.0, counts.1, counters.0, counters.1, m))
}

} // verus!
