//! The stage tracker: which stage a log line announces, and how the stage
//! index of a run moves as lines arrive. The index never moves back.

use vstd::prelude::*;
use crate::stage::{stage_views, StageInfo, StageView};
use crate::text::{contains, is_substring, lemma_empty_is_substring, lowercase_of, to_lowercase};

verus! {

/// A normalized line announces a stage when one of the stage's keywords
/// stands in it, or when the stage has no keyword at all.
pub open spec fn stage_hit(normalized: Seq<char>, stage: StageView) -> bool {
    stage.keywords.len() == 0 || exists|k: int|
        0 <= k < stage.keywords.len() && is_substring(#[trigger] stage.keywords[k], normalized)
}

/// A stage without keywords is announced by every line, and so is a stage
/// that has the empty text among its keywords.
pub proof fn lemma_announced_by_every_line(normalized: Seq<char>, stage: StageView)
    requires
        stage.keywords.len() == 0 || exists|k: int|
            0 <= k < stage.keywords.len() && (#[trigger] stage.keywords[k]).len() == 0,
    ensures
        stage_hit(normalized, stage),
{
    if stage.keywords.len() > 0 {
        let k = choose|k: int|
            0 <= k < stage.keywords.len() && (#[trigger] stage.keywords[k]).len() == 0;
        lemma_empty_is_substring(normalized);
        assert(stage.keywords[k] =~= Seq::<char>::empty());
        assert(is_substring(stage.keywords[k], normalized));
    }
}

/// `found` is the answer of the tracker for a normalized line: the lowest
/// index after `current` whose stage the line announces, or nothing where
/// no later stage is announced.
pub open spec fn is_next_stage(
    normalized: Seq<char>,
    current: int,
    stages: Seq<StageView>,
    found: Option<usize>,
) -> bool {
    match found {
        Some(next) => {
            &&& current < next < stages.len()
            &&& stage_hit(normalized, stages[next as int])
            &&& forall|j: int| current < j < next ==> !stage_hit(normalized, #[trigger] stages[j])
        },
        None => forall|j: int|
            current < j < stages.len() ==> !stage_hit(normalized, #[trigger] stages[j]),
    }
}

/// The answer of the tracker for a normalized line. There is exactly one
/// (see `lemma_next_stage_unique`).
pub open spec fn next_stage(normalized: Seq<char>, current: int, stages: Seq<StageView>) -> Option<
    usize,
> {
    choose|found: Option<usize>| is_next_stage(normalized, current, stages, found)
}

/// Two answers for the same line, index and stages are the same answer.
pub proof fn lemma_next_stage_unique(
    normalized: Seq<char>,
    current: int,
    stages: Seq<StageView>,
    a: Option<usize>,
    b: Option<usize>,
)
    requires
        is_next_stage(normalized, current, stages, a),
        is_next_stage(normalized, current, stages, b),
    ensures
        a == b,
        a == next_stage(normalized, current, stages),
{
    let c = next_stage(normalized, current, stages);
    assert(is_next_stage(normalized, current, stages, c));
    lemma_same_answer(normalized, current, stages, a, b);
    lemma_same_answer(normalized, current, stages, a, c);
}

/// The tracker has an answer for every line, index and stage sequence.
pub proof fn lemma_next_stage_exists(normalized: Seq<char>, current: int, stages: Seq<StageView>)
    requires
        0 <= current,
        stages.len() <= usize::MAX,
    ensures
        is_next_stage(normalized, current, stages, next_stage(normalized, current, stages)),
{
    lemma_answer_from(normalized, current, stages, current + 1);
}

/// Where no stage after `current` and before `from` is hit, there is an answer.
proof fn lemma_answer_from(normalized: Seq<char>, current: int, stages: Seq<StageView>, from: int)
    requires
        0 <= current < from,
        stages.len() <= usize::MAX,
        forall|j: int| current < j < from ==> !stage_hit(normalized, #[trigger] stages[j]),
    ensures
        exists|found: Option<usize>| is_next_stage(normalized, current, stages, found),
    decreases stages.len() - from,
{
    if from >= stages.len() {
        assert(is_next_stage(normalized, current, stages, None));
    } else if stage_hit(normalized, stages[from]) {
        assert(is_next_stage(normalized, current, stages, Some(from as usize)));
    } else {
        lemma_answer_from(normalized, current, stages, from + 1);
    }
}

proof fn lemma_same_answer(
    normalized: Seq<char>,
    current: int,
    stages: Seq<StageView>,
    a: Option<usize>,
    b: Option<usize>,
)
    requires
        is_next_stage(normalized, current, stages, a),
        is_next_stage(normalized, current, stages, b),
    ensures
        a == b,
{
    match (a, b) {
        (Some(x), Some(y)) => {
            if x < y {
                assert(!stage_hit(normalized, stages[x as int]));
            } else if y < x {
                assert(!stage_hit(normalized, stages[y as int]));
            }
        },
        (Some(x), None) => {
            assert(!stage_hit(normalized, stages[x as int]));
        },
        (None, Some(y)) => {
            assert(!stage_hit(normalized, stages[y as int]));
        },
        (None, None) => {},
    }
}

/// The index of a run after a line whose match result is `found`: the
/// result where it lies ahead, the old index otherwise.
pub open spec fn index_after(current: usize, found: Option<usize>) -> usize {
    match found {
        Some(next) if next > current => next,
        _ => current,
    }
}

/// The index of a run that started at `start` after the match results
/// `results`, taken in order.
pub open spec fn index_after_all(start: usize, results: Seq<Option<usize>>) -> usize
    decreases results.len(),
{
    if results.len() == 0 {
        start
    } else {
        index_after(index_after_all(start, results.drop_last()), results.last())
    }
}

/// The stage index never moves back: whatever the match results are, the
/// index after the first `j` of them is at least the index after the first
/// `i`, for `i <= j`.
pub proof fn lemma_index_never_decreases(
    start: usize,
    results: Seq<Option<usize>>,
    i: int,
    j: int,
)
    requires
        0 <= i <= j <= results.len(),
    ensures
        start <= index_after_all(start, results.take(i)),
        index_after_all(start, results.take(i)) <= index_after_all(start, results.take(j)),
    decreases j,
{
    if j == 0 {
        assert(results.take(0).len() == 0);
    } else if i == j {
        lemma_index_never_decreases(start, results, i - 1, j - 1);
        assert(results.take(j).drop_last() =~= results.take(j - 1));
    } else {
        lemma_index_never_decreases(start, results, i, j - 1);
        assert(results.take(j).drop_last() =~= results.take(j - 1));
    }
}

/// Whether one of the keywords of `stage` stands in `normalized`, or the
/// stage has none.
pub fn stage_matches(normalized: &str, stage: &StageInfo) -> (hit: bool)
    ensures
        hit == stage_hit(normalized@, stage@),
{
    if stage.keywords.len() == 0 {
        return true;
    }
    let mut k: usize = 0;
    while k < stage.keywords.len()
        invariant
            k <= stage.keywords.len(),
            stage.keywords.len() > 0,
            forall|j: int| 0 <= j < k ==> !is_substring(#[trigger] stage@.keywords[j], normalized@),
        decreases stage.keywords.len() - k,
    {
        let keyword: &str = stage.keywords[k];
        assert(stage@.keywords[k as int] == keyword@);
        if contains(normalized, keyword) {
            return true;
        }
        k += 1;
    }
    false
}

/// The tracker on a line that is already normalized.
pub fn match_normalized(normalized: &str, current_index: usize, stages: &[StageInfo]) -> (found:
    Option<usize>)
    ensures
        is_next_stage(normalized@, current_index as int, stage_views(stages@), found),
        found == next_stage(normalized@, current_index as int, stage_views(stages@)),
{
    let found = scan_stages(normalized, current_index, stages);
    proof {
        lemma_next_stage_unique(
            normalized@,
            current_index as int,
            stage_views(stages@),
            found,
            found,
        );
    }
    found
}

fn scan_stages(normalized: &str, current_index: usize, stages: &[StageInfo]) -> (found: Option<
    usize,
>)
    ensures
        is_next_stage(normalized@, current_index as int, stage_views(stages@), found),
{
    if current_index >= stages.len() {
        return None;
    }
    let mut idx: usize = current_index + 1;
    while idx < stages.len()
        invariant
            current_index < idx <= stages.len(),
            forall|j: int|
                current_index < j < idx ==> !stage_hit(
                    normalized@,
                    #[trigger] stage_views(stages@)[j],
                ),
        decreases stages.len() - idx,
    {
        if stage_matches(normalized, &stages[idx]) {
            return Some(idx);
        }
        idx += 1;
    }
    None
}

/// The stage that `line` announces: the first stage after `current_index`
/// that the lowercase form of the line hits.
pub fn match_stage(line: &str, current_index: usize, stages: &[StageInfo]) -> (found: Option<usize>)
    ensures
        is_next_stage(lowercase_of(line@), current_index as int, stage_views(stages@), found),
        found == next_stage(lowercase_of(line@), current_index as int, stage_views(stages@)),
{
    let normalized = to_lowercase(line);
    match_normalized(normalized.as_str(), current_index, stages)
}

/// The stage index of a run after a line that is already normalized: the
/// stage that the line announces where that lies ahead, the old index otherwise.
pub fn advance_normalized(normalized: &str, current_index: usize, stages: &[StageInfo]) -> (next:
    usize)
    ensures
        next >= current_index,
        next == index_after(
            current_index,
            next_stage(normalized@, current_index as int, stage_views(stages@)),
        ),
        next > current_index ==> next < stages.len(),
{
    match match_normalized(normalized, current_index, stages) {
        Some(next) => if next > current_index {
            next
        } else {
            current_index
        },
        None => current_index,
    }
}

/// The stage index of a run after `line`.
pub fn advance(line: &str, current_index: usize, stages: &[StageInfo]) -> (next: usize)
    ensures
        next >= current_index,
        next == index_after(
            current_index,
            next_stage(lowercase_of(line@), current_index as int, stage_views(stages@)),
        ),
        next > current_index ==> next < stages.len(),
{
    let normalized = to_lowercase(line);
    advance_normalized(normalized.as_str(), current_index, stages)
}

} // verus!
