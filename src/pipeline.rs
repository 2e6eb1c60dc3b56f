use vstd::prelude::*;

use crate::error::Error;

verus! {

/// How an action went, or how a whole item went.
#[derive(Debug, Clone, Copy, PartialEq, Eq, Structural)]
pub enum Outcome {
    Succeeded,
    Failed(Error),
}

/// The next thing to do for an item; fragment `i` is the decoded form of segment `i`.
#[derive(Debug, Clone, Copy, PartialEq, Eq, Structural)]
pub enum Action {
    /// Fail with `OutputExists` if the final output file is there already.
    CheckOutput,
    /// Decode segment `i` into fragment `i`.
    DecodeSegment(usize),
    /// Create the destination directory, accepting one that exists.
    CreateTargetDir,
    /// Merge all fragments, in order, into the final output file.
    Merge,
    /// Delete fragment `i`; a failure is only reported.
    RemoveFragment(usize),
    /// Copy the cover image into the destination directory.
    CopyCover,
    /// Copy the group cover image into the destination directory.
    CopyGroupCover,
    /// Copy the sidecar into the destination directory as `videoInfo.json`.
    CopySidecar,
    /// Delete the source item directory; a failure is only reported.
    RemoveSource,
    /// Nothing is left to do; this is how the item went.
    Finish(Outcome),
}

/// Where an item's processing stands.
#[derive(Debug, Clone, Copy, PartialEq, Eq, Structural)]
pub enum Stage {
    CheckOutput,
    /// Segments before this one are decoded.
    Decode(usize),
    CreateTargetDir,
    Merge,
    /// Fragments `next .. count` are still to be deleted; `then` is how the item
    /// goes once they are.
    Cleanup { next: usize, count: usize, then: Outcome },
    CopyCover,
    CopyGroupCover,
    CopySidecar,
    RemoveSource,
    Done(Outcome),
}

/// The processing of one item with `segments` segment files.
#[derive(Debug, Clone, Copy, PartialEq, Eq, Structural)]
pub struct Pipeline {
    pub segments: usize,
    pub autoremove: bool,
    pub stage: Stage,
}

impl Pipeline {
    pub open spec fn wf(self) -> bool {
        match self.stage {
            Stage::Done(_) => true,
            Stage::Decode(i) => i < self.segments,
            Stage::Cleanup { next, count, then } => next < count <= self.segments,
            _ => self.segments > 0,
        }
    }
}

/// The stage at which a run starts: nothing to merge fails the item at once;
/// with overwriting forbidden, the output is checked before anything is written.
pub open spec fn start(segments: usize, no_overwrite: bool, autoremove: bool) -> Pipeline {
    Pipeline {
        segments,
        autoremove,
        stage: if segments == 0 {
            Stage::Done(Outcome::Failed(Error::NoSegmentsFound))
        } else if no_overwrite {
            Stage::CheckOutput
        } else {
            Stage::Decode(0)
        },
    }
}

/// Deleting fragments `0 .. count`, then ending with `then`.
pub open spec fn cleanup_then(count: usize, then: Outcome) -> Stage {
    if count == 0 {
        Stage::Done(then)
    } else {
        Stage::Cleanup { next: 0, count, then }
    }
}

/// What follows the copy of the sidecar.
pub open spec fn after_assets(autoremove: bool) -> Stage {
    if autoremove {
        Stage::RemoveSource
    } else {
        Stage::Done(Outcome::Succeeded)
    }
}

/// The stage after the current action went as `ev` says.
pub open spec fn next_stage(p: Pipeline, ev: Outcome) -> Stage {
    match p.stage {
        Stage::CheckOutput => match ev {
            Outcome::Succeeded => Stage::Decode(0),
            Outcome::Failed(e) => Stage::Done(Outcome::Failed(e)),
        },
        Stage::Decode(i) => match ev {
            Outcome::Succeeded => if i + 1 < p.segments {
                Stage::Decode((i + 1) as usize)
            } else {
                Stage::CreateTargetDir
            },
            // the failed fragment may be partly written
            Outcome::Failed(e) => cleanup_then((i + 1) as usize, Outcome::Failed(e)),
        },
        Stage::CreateTargetDir => match ev {
            Outcome::Succeeded => Stage::Merge,
            Outcome::Failed(e) => cleanup_then(p.segments, Outcome::Failed(e)),
        },
        Stage::Merge => cleanup_then(p.segments, ev),
        Stage::Cleanup { next, count, then } => if next + 1 < count {
            Stage::Cleanup { next: (next + 1) as usize, count, then }
        } else {
            match then {
                Outcome::Succeeded => Stage::CopyCover,
                Outcome::Failed(e) => Stage::Done(Outcome::Failed(e)),
            }
        },
        Stage::CopyCover => match ev {
            Outcome::Succeeded => Stage::CopyGroupCover,
            Outcome::Failed(e) => Stage::Done(Outcome::Failed(e)),
        },
        Stage::CopyGroupCover => match ev {
            Outcome::Succeeded => Stage::CopySidecar,
            Outcome::Failed(e) => Stage::Done(Outcome::Failed(e)),
        },
        Stage::CopySidecar => match ev {
            Outcome::Succeeded => after_assets(p.autoremove),
            Outcome::Failed(e) => Stage::Done(Outcome::Failed(e)),
        },
        Stage::RemoveSource => Stage::Done(Outcome::Succeeded),
        Stage::Done(o) => Stage::Done(o),
    }
}

pub open spec fn next(p: Pipeline, ev: Outcome) -> Pipeline {
    Pipeline { stage: next_stage(p, ev), ..p }
}

/// The action that a stage asks for.
pub open spec fn action_of(s: Stage) -> Action {
    match s {
        Stage::CheckOutput => Action::CheckOutput,
        Stage::Decode(i) => Action::DecodeSegment(i),
        Stage::CreateTargetDir => Action::CreateTargetDir,
        Stage::Merge => Action::Merge,
        Stage::Cleanup { next, count, then } => Action::RemoveFragment(next),
        Stage::CopyCover => Action::CopyCover,
        Stage::CopyGroupCover => Action::CopyGroupCover,
        Stage::CopySidecar => Action::CopySidecar,
        Stage::RemoveSource => Action::RemoveSource,
        Stage::Done(o) => Action::Finish(o),
    }
}

/// The state after the outcomes `evs`, one per action, in turn.
pub open spec fn run(p: Pipeline, evs: Seq<Outcome>) -> Pipeline
    decreases evs.len(),
{
    if evs.len() == 0 {
        p
    } else {
        next(run(p, evs.drop_last()), evs.last())
    }
}

fn cleanup_of(count: usize, then: Outcome) -> (r: Stage)
    ensures
        r == cleanup_then(count, then),
{
    if count == 0 {
        Stage::Done(then)
    } else {
        Stage::Cleanup { next: 0, count, then }
    }
}

impl Pipeline {
    /// Starts processing an item with `segments` segment files.
    pub fn new(segments: usize, no_overwrite: bool, autoremove: bool) -> (r: Pipeline)
        ensures
            r == start(segments, no_overwrite, autoremove),
            r.wf(),
    {
        let stage = if segments == 0 {
            Stage::Done(Outcome::Failed(Error::NoSegmentsFound))
        } else if no_overwrite {
            Stage::CheckOutput
        } else {
            Stage::Decode(0)
        };
        Pipeline { segments, autoremove, stage }
    }

    /// The action to perform next.
    pub fn next_action(&self) -> (r: Action)
        ensures
            r == action_of(self.stage),
    {
        match self.stage {
            Stage::CheckOutput => Action::CheckOutput,
            Stage::Decode(i) => Action::DecodeSegment(i),
            Stage::CreateTargetDir => Action::CreateTargetDir,
            Stage::Merge => Action::Merge,
            Stage::Cleanup { next, count, then } => Action::RemoveFragment(next),
            Stage::CopyCover => Action::CopyCover,
            Stage::CopyGroupCover => Action::CopyGroupCover,
            Stage::CopySidecar => Action::CopySidecar,
            Stage::RemoveSource => Action::RemoveSource,
            Stage::Done(o) => Action::Finish(o),
        }
    }

    /// Records how the action of `next_action` went and moves on.
    pub fn advance(&mut self, ev: Outcome)
        requires
            old(self).wf(),
        ensures
            *final(self) == next(*old(self), ev),
            final(self).wf(),
    {
        let stage = match self.stage {
            Stage::CheckOutput => match ev {
                Outcome::Succeeded => Stage::Decode(0),
                Outcome::Failed(e) => Stage::Done(Outcome::Failed(e)),
            },
            Stage::Decode(i) => match ev {
                Outcome::Succeeded => if i + 1 < self.segments {
                    Stage::Decode(i + 1)
                } else {
                    Stage::CreateTargetDir
                },
                Outcome::Failed(e) => cleanup_of(i + 1, Outcome::Failed(e)),
            },
            Stage::CreateTargetDir => match ev {
                Outcome::Succeeded => Stage::Merge,
                Outcome::Failed(e) => cleanup_of(self.segments, Outcome::Failed(e)),
            },
            Stage::Merge => cleanup_of(self.segments, ev),
            Stage::Cleanup { next, count, then } => if next + 1 < count {
                Stage::Cleanup { next: next + 1, count, then }
            } else {
                match then {
                    Outcome::Succeeded => Stage::CopyCover,
                    Outcome::Failed(e) => Stage::Done(Outcome::Failed(e)),
                }
            },
            Stage::CopyCover => match ev {
                Outcome::Succeeded => Stage::CopyGroupCover,
                Outcome::Failed(e) => Stage::Done(Outcome::Failed(e)),
            },
            Stage::CopyGroupCover => match ev {
                Outcome::Succeeded => Stage::CopySidecar,
                Outcome::Failed(e) => Stage::Done(Outcome::Failed(e)),
            },
            Stage::CopySidecar => match ev {
                Outcome::Succeeded => if self.autoremove {
                    Stage::RemoveSource
                } else {
                    Stage::Done(Outcome::Succeeded)
                },
                Outcome::Failed(e) => Stage::Done(Outcome::Failed(e)),
            },
            Stage::RemoveSource => Stage::Done(Outcome::Succeeded),
            Stage::Done(o) => Stage::Done(o),
        };
        self.stage = stage;
    }
}

/// The outcomes of `k` actions that all succeeded.
pub open spec fn all_succeeded(k: nat) -> Seq<Outcome> {
    Seq::new(k, |i: int| Outcome::Succeeded)
}

/// The actions of an item, in order, when each of them succeeds: the output check
/// where overwriting is forbidden, the decoding of each segment, the destination
/// directory, the merge, the deletion of each fragment, the three copies, the
/// removal of the source where asked for, and the report of success.
pub open spec fn converting_actions(segments: usize, no_overwrite: bool, autoremove: bool) -> Seq<
    Action,
> {
    (if no_overwrite {
        seq![Action::CheckOutput]
    } else {
        seq![]
    }) + Seq::new(segments as nat, |i: int| Action::DecodeSegment(i as usize)) + seq![
        Action::CreateTargetDir,
        Action::Merge,
    ] + Seq::new(segments as nat, |i: int| Action::RemoveFragment(i as usize)) + seq![
        Action::CopyCover,
        Action::CopyGroupCover,
        Action::CopySidecar,
    ] + (if autoremove {
        seq![Action::RemoveSource]
    } else {
        seq![]
    }) + seq![Action::Finish(Outcome::Succeeded)]
}

spec fn success_stage(segments: usize, no_overwrite: bool, autoremove: bool, k: int) -> Stage {
    let c: int = if no_overwrite { 1 } else { 0 };
    let n = segments as int;
    let r: int = if autoremove { 1 } else { 0 };
    if k < c {
        Stage::CheckOutput
    } else if k < c + n {
        Stage::Decode((k - c) as usize)
    } else if k == c + n {
        Stage::CreateTargetDir
    } else if k == c + n + 1 {
        Stage::Merge
    } else if k < c + 2 * n + 2 {
        Stage::Cleanup { next: (k - c - n - 2) as usize, count: segments, then: Outcome::Succeeded }
    } else if k == c + 2 * n + 2 {
        Stage::CopyCover
    } else if k == c + 2 * n + 3 {
        Stage::CopyGroupCover
    } else if k == c + 2 * n + 4 {
        Stage::CopySidecar
    } else if k < c + 2 * n + 5 + r {
        Stage::RemoveSource
    } else {
        Stage::Done(Outcome::Succeeded)
    }
}

proof fn lemma_success_stage(segments: usize, no_overwrite: bool, autoremove: bool, k: nat)
    requires
        segments > 0,
    ensures
        run(start(segments, no_overwrite, autoremove), all_succeeded(k)).stage == success_stage(
            segments,
            no_overwrite,
            autoremove,
            k as int,
        ),
        run(start(segments, no_overwrite, autoremove), all_succeeded(k)).segments == segments,
        run(start(segments, no_overwrite, autoremove), all_succeeded(k)).autoremove == autoremove,
    decreases k,
{
    if k > 0 {
        lemma_success_stage(segments, no_overwrite, autoremove, (k - 1) as nat);
        assert(all_succeeded(k).drop_last() =~= all_succeeded((k - 1) as nat));
    }
}

proof fn lemma_done_stays(p: Pipeline, evs: Seq<Outcome>)
    requires
        p.stage is Done,
    ensures
        run(p, evs) == p,
    decreases evs.len(),
{
    if evs.len() > 0 {
        lemma_done_stays(p, evs.drop_last());
    }
}

proof fn lemma_cleanup_steps(q: Pipeline, evs: Seq<Outcome>, k: int)
    requires
        q.stage matches Stage::Cleanup { next, count, then } && next == 0 && k < count,
        0 <= k <= evs.len(),
    ensures
        run(q, evs.take(k)).stage == (Stage::Cleanup {
            next: k as usize,
            count: q.stage->count,
            then: q.stage->then,
        }),
    decreases k,
{
    if k > 0 {
        lemma_cleanup_steps(q, evs, k - 1);
        assert(evs.take(k).drop_last() =~= evs.take(k - 1));
    }
}

/// When every action succeeds, the item's actions are exactly `converting_actions`,
/// in that order, and the last of them reports success.
pub proof fn success_follows_every_step(
    segments: usize,
    no_overwrite: bool,
    autoremove: bool,
    k: nat,
)
    requires
        segments > 0,
        k < converting_actions(segments, no_overwrite, autoremove).len(),
    ensures
        action_of(run(start(segments, no_overwrite, autoremove), all_succeeded(k)).stage)
            == converting_actions(segments, no_overwrite, autoremove)[k as int],
{
    lemma_success_stage(segments, no_overwrite, autoremove, k);
    let acts = converting_actions(segments, no_overwrite, autoremove);
    let c: int = if no_overwrite { 1 } else { 0 };
    let n = segments as int;
    let pre: Seq<Action> = if no_overwrite { seq![Action::CheckOutput] } else { seq![] };
    let dec = Seq::new(segments as nat, |i: int| Action::DecodeSegment(i as usize));
    let rem = Seq::new(segments as nat, |i: int| Action::RemoveFragment(i as usize));
    let mid = seq![Action::CreateTargetDir, Action::Merge];
    let copies = seq![Action::CopyCover, Action::CopyGroupCover, Action::CopySidecar];
    let post: Seq<Action> = if autoremove { seq![Action::RemoveSource] } else { seq![] };
    let fin = seq![Action::Finish(Outcome::Succeeded)];
    assert(acts == pre + dec + mid + rem + copies + post + fin);
    let ki = k as int;
    if ki < c {
    } else if ki < c + n {
        assert((pre + dec)[ki] == dec[ki - c]);
    } else if ki < c + n + 2 {
        assert((pre + dec + mid)[ki] == mid[ki - c - n]);
    } else if ki < c + 2 * n + 2 {
        assert((pre + dec + mid + rem)[ki] == rem[ki - c - n - 2]);
    } else if ki < c + 2 * n + 5 {
        assert((pre + dec + mid + rem + copies)[ki] == copies[ki - c - 2 * n - 2]);
    } else {
        assert((pre + dec + mid + rem + copies + post + fin)[ki] == (post + fin)[ki - c - 2 * n - 5]);
    }
}

/// How deleting a fragment or the source directory went changes nothing that
/// follows: such failures are reported and never decide the item's outcome.
pub proof fn deletions_never_decide(p: Pipeline, a: Outcome, b: Outcome)
    requires
        p.stage is Cleanup || p.stage is RemoveSource,
    ensures
        next(p, a) == next(p, b),
{
}

/// With overwriting forbidden, the first action of an item is the check of its
/// output; when that check fails, every later action only reports the failure,
/// so an existing output is neither written nor removed.
pub proof fn existing_output_is_left_alone(
    segments: usize,
    autoremove: bool,
    e: Error,
    evs: Seq<Outcome>,
)
    requires
        segments > 0,
    ensures
        action_of(start(segments, true, autoremove).stage) == Action::CheckOutput,
        action_of(run(next(start(segments, true, autoremove), Outcome::Failed(e)), evs).stage)
            == Action::Finish(Outcome::Failed(e)),
{
    lemma_done_stays(next(start(segments, true, autoremove), Outcome::Failed(e)), evs);
}

/// When the merge fails, the next actions delete every fragment, one at a time and
/// in order, whatever becomes of each deletion, and the item then ends with the
/// merge's failure.
pub proof fn merge_failure_removes_fragments(p: Pipeline, e: Error, evs: Seq<Outcome>)
    requires
        p.wf(),
        p.stage == Stage::Merge,
        evs.len() == p.segments,
    ensures
        forall|k: int| 0 <= k < p.segments ==> action_of(
            #[trigger] run(next(p, Outcome::Failed(e)), evs.take(k)).stage,
        ) == Action::RemoveFragment(k as usize),
        action_of(run(next(p, Outcome::Failed(e)), evs).stage) == Action::Finish(
            Outcome::Failed(e),
        ),
{
    let q = next(p, Outcome::Failed(e));
    assert forall|k: int| 0 <= k < p.segments implies action_of(
        #[trigger] run(q, evs.take(k)).stage,
    ) == Action::RemoveFragment(k as usize) by {
        lemma_cleanup_steps(q, evs, k);
    }
    lemma_cleanup_steps(q, evs, p.segments - 1);
    assert(evs.drop_last() =~= evs.take(p.segments - 1));
}

} // verus!
