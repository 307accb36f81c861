//! The per-cycle reconciliation decision.
//!
//! Every polling interval the bot looks at the populated schedule
//! blocks and the current progress (wall-clock time, or the latest
//! completed match number) and decides whether a warning is due: which
//! block, and whether it is the far warning or the near one. This
//! module is that decision; performing the send and persisting the
//! flags is left to the caller.

use vstd::prelude::*;

use crate::models::{start_key, PopulatedScheduleBlock, Window};

verus! {

/// How far the event has progressed: nothing known yet, the latest
/// completed match number, or the current time in epoch milliseconds.
#[derive(Debug, Clone, Copy, PartialEq, Eq, Structural)]
pub enum Progress {
    NoData,
    Matches(i32),
    Time(i64),
}

/// Which of the two thresholds a warning announces.
#[derive(Debug, Clone, Copy, PartialEq, Eq, Structural)]
pub enum Warning {
    Far,
    Near,
}

/// The far warning goes out within thirty minutes of the start.
pub const FAR_WARNING_MILLIS: i64 = 30 * 60 * 1000;

/// The near warning goes out within ten minutes of the start.
pub const NEAR_WARNING_MILLIS: i64 = 10 * 60 * 1000;

/// The far warning goes out within three matches of the start.
pub const FAR_WARNING_MATCHES: i32 = 3;

/// The near warning goes out exactly one match before the start.
pub const NEAR_WARNING_MATCHES: i32 = 1;

/// A block is still ahead of the current progress. A block whose
/// window kind does not match the progress kind is never eligible; in
/// particular nothing is eligible while no progress data exists.
pub open spec fn eligible(b: PopulatedScheduleBlock, p: Progress) -> bool {
    match (p, b.window) {
        (Progress::Matches(latest), Window::Matches { start_match, .. }) => latest < start_match,
        (Progress::Time(now), Window::Time { start_time, .. }) => now < start_time,
        _ => false,
    }
}

/// The warning the threshold chain picks for one block, flags
/// considered: the far branch wins when it applies, the near branch is
/// tried only after it, and a branch whose flag is already set never
/// fires again.
pub open spec fn warning_spec(b: PopulatedScheduleBlock, p: Progress) -> Option<Warning> {
    match (p, b.window) {
        (Progress::Matches(latest), Window::Matches { start_match, .. }) => {
            let rem = start_match - latest;
            if rem <= FAR_WARNING_MATCHES && !b.min_30 {
                Some(Warning::Far)
            } else if rem == NEAR_WARNING_MATCHES && !b.min_10 {
                Some(Warning::Near)
            } else {
                None
            }
        },
        (Progress::Time(now), Window::Time { start_time, .. }) => {
            let rem = start_time - now;
            if rem <= FAR_WARNING_MILLIS && !b.min_30 {
                Some(Warning::Far)
            } else if rem <= NEAR_WARNING_MILLIS && !b.min_10 {
                Some(Warning::Near)
            } else {
                None
            }
        },
        _ => None,
    }
}

/// Whether a block is still ahead of the current progress.
pub fn is_eligible(b: &PopulatedScheduleBlock, p: &Progress) -> (r: bool)
    ensures
        r == eligible(*b, *p),
{
    match (p, &b.window) {
        (Progress::Matches(latest), Window::Matches { start_match, .. }) => *latest < *start_match,
        (Progress::Time(now), Window::Time { start_time, .. }) => *now < *start_time,
        _ => false,
    }
}

/// Evaluates the threshold chain for one block.
pub fn decide_warning(b: &PopulatedScheduleBlock, p: &Progress) -> (r: Option<Warning>)
    ensures
        r == warning_spec(*b, *p),
{
    match (p, &b.window) {
        (Progress::Matches(latest), Window::Matches { start_match, .. }) => {
            let rem: i64 = (*start_match as i64) - (*latest as i64);
            if rem <= FAR_WARNING_MATCHES as i64 && !b.min_30 {
                Some(Warning::Far)
            } else if rem == NEAR_WARNING_MATCHES as i64 && !b.min_10 {
                Some(Warning::Near)
            } else {
                None
            }
        },
        (Progress::Time(now), Window::Time { start_time, .. }) => {
            let rem: i128 = (*start_time as i128) - (*now as i128);
            if rem <= FAR_WARNING_MILLIS as i128 && !b.min_30 {
                Some(Warning::Far)
            } else if rem <= NEAR_WARNING_MILLIS as i128 && !b.min_10 {
                Some(Warning::Near)
            } else {
                None
            }
        },
        _ => None,
    }
}

/// Index `i` holds the next relevant block: it is eligible, no
/// eligible block starts earlier, and on equal starts the earliest
/// index wins (the stable choice the store's ascending sort yields).
pub open spec fn is_selected(s: Seq<PopulatedScheduleBlock>, p: Progress, i: int) -> bool {
    &&& 0 <= i < s.len()
    &&& eligible(s[i], p)
    &&& forall|j: int|
        0 <= j < s.len() && #[trigger] eligible(s[j], p) ==> start_key(s[i].window) <= start_key(
            s[j].window,
        )
    &&& forall|j: int|
        0 <= j < i && #[trigger] eligible(s[j], p) ==> start_key(s[j].window) > start_key(
            s[i].window,
        )
}

/// At most one index can hold the next relevant block.
pub proof fn lemma_selected_unique(s: Seq<PopulatedScheduleBlock>, p: Progress, i: int, j: int)
    requires
        is_selected(s, p, i),
        is_selected(s, p, j),
    ensures
        i == j,
{
    if i < j {
        assert(start_key(s[i].window) > start_key(s[j].window));
        assert(start_key(s[j].window) >= start_key(s[i].window));
    } else if j < i {
        assert(start_key(s[j].window) > start_key(s[i].window));
        assert(start_key(s[i].window) >= start_key(s[j].window));
    }
}

/// Finds the next relevant block: the eligible block with the lowest
/// start, the earliest such on a tie; `None` when no block is ahead of
/// the progress.
pub fn select_next(blocks: &Vec<PopulatedScheduleBlock>, p: &Progress) -> (r: Option<usize>)
    ensures
        match r {
            Some(i) => is_selected(blocks@, *p, i as int),
            None => forall|j: int| 0 <= j < blocks@.len() ==> !eligible(blocks@[j], *p),
        },
{
    let mut best: Option<usize> = None;
    let mut i: usize = 0;
    while i < blocks.len()
        invariant
            i <= blocks@.len(),
            match best {
                Some(b) => {
                    &&& 0 <= b < i
                    &&& eligible(blocks@[b as int], *p)
                    &&& forall|j: int|
                        0 <= j < i && #[trigger] eligible(blocks@[j], *p) ==> start_key(
                            blocks@[b as int].window,
                        ) <= start_key(blocks@[j].window)
                    &&& forall|j: int|
                        0 <= j < b && #[trigger] eligible(blocks@[j], *p) ==> start_key(
                            blocks@[j].window,
                        ) > start_key(blocks@[b as int].window)
                },
                None => forall|j: int| 0 <= j < i ==> !eligible(blocks@[j], *p),
            },
        decreases blocks@.len() - i,
    {
        if is_eligible(&blocks[i], p) {
            match best {
                None => {
                    best = Some(i);
                },
                Some(b) => {
                    if blocks[i].window.start() < blocks[b].window.start() {
                        best = Some(i);
                    }
                },
            }
        }
        i = i + 1;
    }
    best
}

/// On blocks sorted ascending by start — as the populate step hands
/// them over — the next relevant block is simply the first eligible
/// one: nothing before it is eligible.
pub proof fn lemma_selected_is_first_eligible(s: Seq<PopulatedScheduleBlock>, p: Progress, i: int)
    requires
        crate::models::sorted_by_start(s),
        is_selected(s, p, i),
    ensures
        forall|j: int| 0 <= j < i ==> !eligible(s[j], p),
{
    assert forall|j: int| 0 <= j < i implies !eligible(s[j], p) by {
        if eligible(s[j], p) {
            assert(start_key(s[j].window) > start_key(s[i].window));
            assert(start_key(s[j].window) <= start_key(s[i].window));
        }
    }
}

/// One reconciliation step produced this plan: either one warning for
/// the single next relevant block, or nothing, and nothing exactly
/// when no eligible block exists or the next relevant block is
/// unstaffed or has no threshold left to fire.
pub open spec fn cycle_post(
    s: Seq<PopulatedScheduleBlock>,
    p: Progress,
    r: Option<(usize, Warning)>,
) -> bool {
    match r {
        Some((i, w)) => {
            &&& is_selected(s, p, i as int)
            &&& s[i as int].spec_has_scouter()
            &&& warning_spec(s[i as int], p) == Some(w)
        },
        None => forall|i: int|
            #[trigger] is_selected(s, p, i) ==> !s[i].spec_has_scouter() || warning_spec(
                s[i],
                p,
            ) is None,
    }
}

/// One reconciliation step: picks the next relevant block and decides
/// whether a warning is due. The caller then marks the matching flag,
/// persists it, and sends the notification.
pub fn cycle(blocks: &Vec<PopulatedScheduleBlock>, p: &Progress) -> (r: Option<(usize, Warning)>)
    ensures
        cycle_post(blocks@, *p, r),
{
    match select_next(blocks, p) {
        None => {
            proof {
                assert forall|i: int| #[trigger]
                    is_selected(blocks@, *p, i) implies !blocks@[i].spec_has_scouter()
                    || warning_spec(blocks@[i], *p) is None by {
                    assert(!eligible(blocks@[i], *p));
                }
            }
            None
        },
        Some(i) => {
            if !blocks[i].has_scouter() {
                proof {
                    assert forall|k: int| #[trigger]
                        is_selected(blocks@, *p, k) implies !blocks@[k].spec_has_scouter()
                        || warning_spec(blocks@[k], *p) is None by {
                        lemma_selected_unique(blocks@, *p, k, i as int);
                    }
                }
                None
            } else {
                match decide_warning(&blocks[i], p) {
                    Some(w) => Some((i, w)),
                    None => {
                        proof {
                            assert forall|k: int| #[trigger]
                                is_selected(blocks@, *p, k) implies !blocks@[k].spec_has_scouter()
                                || warning_spec(blocks@[k], *p) is None by {
                                lemma_selected_unique(blocks@, *p, k, i as int);
                            }
                        }
                        None
                    },
                }
            }
        },
    }
}

/// The block after one warning's flag is recorded.
pub open spec fn mark_warning(b: PopulatedScheduleBlock, w: Warning) -> PopulatedScheduleBlock {
    match w {
        Warning::Far => b.with_min_30(),
        Warning::Near => b.with_min_10(),
    }
}

/// The block after a run of warnings, recorded in order.
pub open spec fn mark_warnings(
    b: PopulatedScheduleBlock,
    ws: Seq<Warning>,
) -> PopulatedScheduleBlock
    decreases ws.len(),
{
    if ws.len() == 0 {
        b
    } else {
        mark_warnings(mark_warning(b, ws[0]), ws.drop_first())
    }
}

/// Once a warning flag is true it is never observed false again: the
/// only writes the system makes to a block's flags are the warning
/// markers, and over any run of them a set flag stays set.
pub proof fn lemma_flags_monotone_over_run(b: PopulatedScheduleBlock, ws: Seq<Warning>)
    ensures
        b.min_30 ==> mark_warnings(b, ws).min_30,
        b.min_10 ==> mark_warnings(b, ws).min_10,
    decreases ws.len(),
{
    if ws.len() > 0 {
        crate::models::lemma_flags_monotone(b, mark_warning(b, ws[0]));
        lemma_flags_monotone_over_run(mark_warning(b, ws[0]), ws.drop_first());
    }
}

/// A cycle sends at most one warning, and only for the single next
/// relevant block: any plan a cycle may produce names one index, that
/// index is selected, and no other index is.
pub proof fn lemma_at_most_one_warning(
    s: Seq<PopulatedScheduleBlock>,
    p: Progress,
    r: Option<(usize, Warning)>,
)
    requires
        cycle_post(s, p, r),
    ensures
        r matches Some((i, w)) ==> is_selected(s, p, i as int) && forall|j: int|
            is_selected(s, p, j) ==> j == i as int,
{
    if let Some((i, w)) = r {
        assert forall|j: int| is_selected(s, p, j) implies j == i as int by {
            lemma_selected_unique(s, p, j, i as int);
        }
    }
}

/// A block with all six slots empty never produces a notification,
/// whatever the timing or match count.
pub proof fn lemma_empty_block_silent(
    s: Seq<PopulatedScheduleBlock>,
    p: Progress,
    r: Option<(usize, Warning)>,
    i: int,
)
    requires
        cycle_post(s, p, r),
        0 <= i < s.len(),
        !s[i].spec_has_scouter(),
    ensures
        r matches Some((j, w)) ==> j as int != i,
{
}

} // verus!
