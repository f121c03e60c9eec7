//! The merger: in what order and by what steps the completed parts become
//! the output file, and why the result is the resource.

use crate::part::{
    is_plan, lemma_partition_covers, lemma_tiles_total_size, lemma_tiles_within, part_views, tiles,
    total_size,
};
use crate::types::{Part, PartView};
use vstd::prelude::*;

verus! {

/// In the merge, position `a` of `parts` comes before position `b`: the
/// smaller index first, and equal indices in the order given.
pub open spec fn merges_before(parts: Seq<PartView>, a: int, b: int) -> bool {
    parts[a].idx < parts[b].idx || (parts[a].idx == parts[b].idx && a < b)
}

/// `order` lists the positions of `parts` in the order of the merge: every
/// position once, by ascending index.
pub open spec fn is_merge_order(parts: Seq<PartView>, order: Seq<usize>) -> bool {
    &&& order.len() == parts.len()
    &&& forall|k: int| 0 <= k < order.len() ==> 0 <= #[trigger] order[k] < parts.len()
    &&& forall|j: int, k: int|
        0 <= j < k < order.len() ==> merges_before(
            parts,
            #[trigger] order[j] as int,
            #[trigger] order[k] as int,
        )
}

/// The parts in the order that `order` lists them.
pub open spec fn arranged(parts: Seq<PartView>, order: Seq<usize>) -> Seq<PartView> {
    Seq::new(order.len(), |k: int| parts[order[k] as int])
}

/// Works out the order in which the merger takes the parts: by ascending
/// index, parts of equal index in the order given. The result lists positions
/// in `parts`.
pub fn merge_order(parts: &Vec<Part>) -> (order: Vec<usize>)
    ensures
        is_merge_order(part_views(parts@), order@),
{
    let ghost views = part_views(parts@);
    let mut order: Vec<usize> = Vec::new();
    let mut position: usize = 0;
    while position < parts.len()
        invariant
            position <= parts.len(),
            views == part_views(parts@),
            order.len() == position,
            forall|k: int| 0 <= k < order.len() ==> 0 <= #[trigger] order[k] < position,
            forall|j: int, k: int|
                0 <= j < k < order.len() ==> merges_before(
                    views,
                    #[trigger] order[j] as int,
                    #[trigger] order[k] as int,
                ),
        decreases parts.len() - position,
    {
        let idx = parts[position].idx;
        let mut at: usize = order.len();
        while at > 0 && parts[order[at - 1]].idx > idx
            invariant
                at <= order.len(),
                position < parts.len(),
                views == part_views(parts@),
                idx == parts[position as int].idx,
                forall|k: int| 0 <= k < order.len() ==> 0 <= #[trigger] order[k] < position,
                forall|k: int| at <= k < order.len() ==> views[#[trigger] order[k] as int].idx > idx,
            decreases at,
        {
            at -= 1;
        }
        // Everything before `at` has an index no larger and an earlier
        // position; everything from `at` on has a larger index.
        order.insert(at, position);
        position += 1;
    }
    order
}

/// Concatenation of byte strings, first to last.
pub open spec fn concat_all(pieces: Seq<Seq<u8>>) -> Seq<u8>
    decreases pieces.len(),
{
    if pieces.len() == 0 {
        Seq::empty()
    } else {
        concat_all(pieces.drop_last()) + pieces.last()
    }
}

/// What the temp file of a completed part holds: the part's bytes of the resource.
pub open spec fn slice_of(data: Seq<u8>, part: PartView) -> Seq<u8> {
    data.subrange(part.start as int, part.end())
}

/// The contents of the completed parts, in the order the parts are listed.
pub open spec fn slices_of(data: Seq<u8>, parts: Seq<PartView>) -> Seq<Seq<u8>> {
    Seq::new(parts.len(), |i: int| slice_of(data, parts[i]))
}

/// The first `k` parts of a tiling, concatenated, are the resource up to the
/// end of part `k - 1`.
proof fn lemma_merge_prefix(parts: Seq<PartView>, data: Seq<u8>, k: int)
    requires
        tiles(parts, data.len()),
        1 <= k <= parts.len(),
    ensures
        concat_all(slices_of(data, parts).take(k)) == data.subrange(0, parts[k - 1].end()),
    decreases k,
{
    let slices = slices_of(data, parts);
    lemma_tiles_within(parts, data.len(), k - 1);
    assert(slices.take(k).drop_last() =~= slices.take(k - 1));
    if k == 1 {
        assert(concat_all(slices.take(0)) =~= Seq::<u8>::empty());
    } else {
        lemma_merge_prefix(parts, data, k - 1);
        assert(data.subrange(0, parts[k - 2].end()) + slice_of(data, parts[k - 1])
            =~= data.subrange(0, parts[k - 1].end()));
    }
}

/// The contents of completed parts that tile the resource, concatenated in
/// the order of the tiling, are the resource byte for byte; so the merged
/// length is the resource's length, and so is the total of the parts' sizes.
pub proof fn lemma_merge_reproduces(parts: Seq<PartView>, data: Seq<u8>)
    requires
        tiles(parts, data.len()),
    ensures
        concat_all(slices_of(data, parts)) == data,
        concat_all(slices_of(data, parts)).len() == data.len(),
        total_size(parts) == data.len(),
{
    lemma_merge_prefix(parts, data, parts.len() as int);
    assert(slices_of(data, parts).take(parts.len() as int) =~= slices_of(data, parts));
    lemma_tiles_total_size(parts, data.len());
}

/// In a strictly ascending merge order, the entry at `k` is at least `k`.
proof fn lemma_order_at_least(parts: Seq<PartView>, order: Seq<usize>, k: int)
    requires
        forall|i: int| 0 <= i < parts.len() ==> (#[trigger] parts[i]).idx == i,
        is_merge_order(parts, order),
        0 <= k < order.len(),
    ensures
        order[k] >= k,
    decreases k,
{
    if k > 0 {
        lemma_order_at_least(parts, order, k - 1);
    }
}

/// In a strictly ascending merge order, the entry at `k` is as far below the
/// number of parts as `k` is.
proof fn lemma_order_at_most(parts: Seq<PartView>, order: Seq<usize>, k: int)
    requires
        forall|i: int| 0 <= i < parts.len() ==> (#[trigger] parts[i]).idx == i,
        is_merge_order(parts, order),
        0 <= k < order.len(),
    ensures
        order[k] <= k,
    decreases order.len() - k,
{
    if k < order.len() - 1 {
        lemma_order_at_most(parts, order, k + 1);
    }
}

/// Parts that carry their positions as indices, as those of a partition do,
/// are merged in the order they are listed.
pub proof fn lemma_merge_order_of_indexed(parts: Seq<PartView>, order: Seq<usize>)
    requires
        forall|i: int| 0 <= i < parts.len() ==> (#[trigger] parts[i]).idx == i,
        is_merge_order(parts, order),
    ensures
        forall|k: int| 0 <= k < order.len() ==> #[trigger] order[k] == k,
        arranged(parts, order) == parts,
{
    assert forall|k: int| 0 <= k < order.len() implies #[trigger] order[k] == k by {
        lemma_order_at_least(parts, order, k);
        lemma_order_at_most(parts, order, k);
    }
}

/// For parts listed in any order: if the parts, taken in merge order, tile
/// the resource, then their contents concatenated in that order are the
/// resource byte for byte.
pub proof fn lemma_merge_in_order_reproduces(
    parts: Seq<PartView>,
    order: Seq<usize>,
    data: Seq<u8>,
)
    requires
        is_merge_order(parts, order),
        tiles(arranged(parts, order), data.len()),
    ensures
        concat_all(slices_of(data, arranged(parts, order))) == data,
        total_size(arranged(parts, order)) == data.len(),
{
    lemma_merge_reproduces(arranged(parts, order), data);
}

/// From partition to output: the contents of the completed parts of a
/// partition, concatenated in merge order, are the resource byte for byte, and
/// the merged length is the resource's length.
pub proof fn lemma_partition_merges_to_resource(
    parts: Seq<Part>,
    threads: nat,
    base_name: Seq<char>,
    temp_dir: Seq<char>,
    order: Seq<usize>,
    data: Seq<u8>,
)
    requires
        data.len() >= 1,
        threads >= 1,
        is_plan(parts, data.len(), threads, base_name, temp_dir),
        is_merge_order(part_views(parts), order),
    ensures
        concat_all(slices_of(data, arranged(part_views(parts), order))) == data,
        concat_all(slices_of(data, arranged(part_views(parts), order))).len() == data.len(),
        total_size(part_views(parts)) == data.len(),
{
    lemma_partition_covers(parts, data.len(), threads, base_name, temp_dir);
    lemma_merge_order_of_indexed(part_views(parts), order);
    lemma_merge_reproduces(part_views(parts), data);
}

/// Where the merge stands.
#[derive(Clone, Copy, Debug, PartialEq, Eq)]
pub enum MergePhase {
    /// Waiting for the output file to be created empty.
    Opening,
    /// Appending the parts to the output, one after the other.
    Copying,
    /// Every part is appended; waiting for the output to be flushed.
    Flushing,
    /// Deleting the temp files, one after the other.
    Removing,
    /// The output is whole and the temp files are gone.
    Done,
    /// A step failed. The output is left as it is; nothing more is deleted.
    Failed,
}

/// The merge of `count` parts into the output file.
#[derive(Clone, Copy, Debug, PartialEq, Eq)]
pub struct MergeState {
    /// Number of parts to merge.
    pub count: usize,
    /// Number of parts appended to the output so far.
    pub copied: usize,
    /// Number of temp files deleted so far.
    pub removed: usize,
    /// Bytes appended to the output so far.
    pub merged: u64,
    pub phase: MergePhase,
}

/// What the driver reports back to the merge.
#[derive(Clone, Copy, Debug, PartialEq, Eq)]
pub enum MergeEvent {
    /// The output file was created empty.
    Opened,
    /// The whole temp file, of so many bytes, was appended to the output.
    Copied(u64),
    /// The output was flushed.
    Flushed,
    /// The temp file was deleted.
    Removed,
    /// The pending action failed.
    Failed,
}

/// What the merge asks the driver to do next. Parts are named by their place
/// in the merge order.
#[derive(Clone, Copy, Debug, PartialEq, Eq)]
pub enum MergeAction {
    /// Create the output file, emptying it if it exists.
    OpenOutput,
    /// Append the whole temp file of the part at this place to the output.
    CopyPart(usize),
    /// Flush the output.
    FlushOutput,
    /// Delete the temp file of the part at this place.
    RemovePart(usize),
    /// The merge is over; `false` when a step failed.
    Finish(bool),
}

impl MergeState {
    /// The counts match the phase. In particular no temp file is deleted
    /// before every part is appended.
    pub open spec fn well_formed(self) -> bool {
        &&& self.copied <= self.count
        &&& self.removed <= self.count
        &&& self.removed > 0 ==> self.copied == self.count
        &&& match self.phase {
            MergePhase::Opening => self.copied == 0 && self.removed == 0 && self.merged == 0,
            MergePhase::Copying => self.copied < self.count && self.removed == 0,
            MergePhase::Flushing => self.copied == self.count && self.removed == 0,
            MergePhase::Removing => self.copied == self.count && self.removed < self.count,
            MergePhase::Done => self.copied == self.count && self.removed == self.count,
            MergePhase::Failed => true,
        }
    }

    /// The state that follows `self` on `event`. An event that does not answer
    /// the pending action changes nothing.
    pub open spec fn next(self, event: MergeEvent) -> MergeState {
        match (self.phase, event) {
            (MergePhase::Opening, MergeEvent::Opened) => MergeState {
                phase: if self.count == 0 {
                    MergePhase::Flushing
                } else {
                    MergePhase::Copying
                },
                ..self
            },
            (MergePhase::Copying, MergeEvent::Copied(bytes)) => MergeState {
                copied: (self.copied + 1) as usize,
                merged: (self.merged + bytes) as u64,
                phase: if self.copied + 1 == self.count {
                    MergePhase::Flushing
                } else {
                    MergePhase::Copying
                },
                ..self
            },
            (MergePhase::Flushing, MergeEvent::Flushed) => MergeState {
                phase: if self.count == 0 {
                    MergePhase::Done
                } else {
                    MergePhase::Removing
                },
                ..self
            },
            (MergePhase::Removing, MergeEvent::Removed) => MergeState {
                removed: (self.removed + 1) as usize,
                phase: if self.removed + 1 == self.count {
                    MergePhase::Done
                } else {
                    MergePhase::Removing
                },
                ..self
            },
            (MergePhase::Done, _) => self,
            (MergePhase::Failed, _) => self,
            (_, MergeEvent::Failed) => MergeState { phase: MergePhase::Failed, ..self },
            _ => self,
        }
    }

    /// The action that the state waits for.
    pub open spec fn pending(self) -> MergeAction {
        match self.phase {
            MergePhase::Opening => MergeAction::OpenOutput,
            MergePhase::Copying => MergeAction::CopyPart(self.copied),
            MergePhase::Flushing => MergeAction::FlushOutput,
            MergePhase::Removing => MergeAction::RemovePart(self.removed),
            MergePhase::Done => MergeAction::Finish(true),
            MergePhase::Failed => MergeAction::Finish(false),
        }
    }

    /// `event` can be counted: a copy does not take the merged bytes past 64 bits.
    pub open spec fn can_count(self, event: MergeEvent) -> bool {
        self.phase is Copying ==> (event matches MergeEvent::Copied(bytes) ==> self.merged + bytes
            <= u64::MAX)
    }

    /// The bytes merged so far are those of the parts appended so far, where
    /// `in_order` lists the parts in merge order.
    pub open spec fn accounts_for(self, in_order: Seq<PartView>) -> bool {
        &&& self.count == in_order.len()
        &&& self.copied <= in_order.len()
        &&& self.merged == total_size(in_order.take(self.copied as int))
    }

    /// `event` reports a copy of exactly the part whose turn it is.
    pub open spec fn copies_whole_part(self, event: MergeEvent, in_order: Seq<PartView>) -> bool {
        self.phase is Copying ==> (event matches MergeEvent::Copied(bytes) ==> bytes
            == in_order[self.copied as int].size())
    }
}

/// Starts the merge of `count` parts: the output file is created first.
pub fn merge_begin(count: usize) -> (state: MergeState)
    ensures
        state == (MergeState {
            count,
            copied: 0,
            removed: 0,
            merged: 0,
            phase: MergePhase::Opening,
        }),
        state.well_formed(),
        state.pending() == MergeAction::OpenOutput,
{
    MergeState { count, copied: 0, removed: 0, merged: 0, phase: MergePhase::Opening }
}

/// Advances the merge by one event.
///
/// Parts are appended in merge order, each once; only when all are appended
/// and the output is flushed are the temp files deleted, in the same order;
/// after a failure nothing more is asked for.
pub fn merge_step(state: MergeState, event: MergeEvent) -> (next: MergeState)
    requires
        state.well_formed(),
        state.can_count(event),
    ensures
        next == state.next(event),
        next.well_formed(),
        next.count == state.count,
        next.pending() is RemovePart ==> next.copied == next.count,
{
    match state.phase {
        MergePhase::Done => state,
        MergePhase::Failed => state,
        MergePhase::Opening => match event {
            MergeEvent::Opened => MergeState {
                phase: if state.count == 0 {
                    MergePhase::Flushing
                } else {
                    MergePhase::Copying
                },
                ..state
            },
            MergeEvent::Failed => MergeState { phase: MergePhase::Failed, ..state },
            _ => state,
        },
        MergePhase::Copying => match event {
            MergeEvent::Copied(bytes) => MergeState {
                copied: state.copied + 1,
                merged: state.merged + bytes,
                phase: if state.copied + 1 == state.count {
                    MergePhase::Flushing
                } else {
                    MergePhase::Copying
                },
                ..state
            },
            MergeEvent::Failed => MergeState { phase: MergePhase::Failed, ..state },
            _ => state,
        },
        MergePhase::Flushing => match event {
            MergeEvent::Flushed => MergeState {
                phase: if state.count == 0 {
                    MergePhase::Done
                } else {
                    MergePhase::Removing
                },
                ..state
            },
            MergeEvent::Failed => MergeState { phase: MergePhase::Failed, ..state },
            _ => state,
        },
        MergePhase::Removing => match event {
            MergeEvent::Removed => MergeState {
                removed: state.removed + 1,
                phase: if state.removed + 1 == state.count {
                    MergePhase::Done
                } else {
                    MergePhase::Removing
                },
                ..state
            },
            MergeEvent::Failed => MergeState { phase: MergePhase::Failed, ..state },
            _ => state,
        },
    }
}

/// As long as every copy appends a whole part, the merge accounts for the
/// bytes of the parts appended so far; so when parts that tile the resource
/// are merged, the merged length is the resource's length.
pub proof fn lemma_merge_accounts(
    state: MergeState,
    event: MergeEvent,
    in_order: Seq<PartView>,
    total: nat,
)
    requires
        state.well_formed(),
        state.can_count(event),
        state.accounts_for(in_order),
        state.copies_whole_part(event, in_order),
    ensures
        state.next(event).accounts_for(in_order),
        tiles(in_order, total) && state.next(event).phase is Done ==> state.next(event).merged
            == total,
{
    let next = state.next(event);
    if state.phase is Copying && event is Copied {
        let k = state.copied as int;
        assert(in_order.take(k + 1).drop_last() =~= in_order.take(k));
    }
    if tiles(in_order, total) && next.phase is Done {
        lemma_tiles_total_size(in_order, total);
        assert(in_order.take(in_order.len() as int) =~= in_order);
    }
}

/// The action that the merge waits for.
pub fn merge_action(state: &MergeState) -> (action: MergeAction)
    ensures
        action == state.pending(),
{
    match state.phase {
        MergePhase::Opening => MergeAction::OpenOutput,
        MergePhase::Copying => MergeAction::CopyPart(state.copied),
        MergePhase::Flushing => MergeAction::FlushOutput,
        MergePhase::Removing => MergeAction::RemovePart(state.removed),
        MergePhase::Done => MergeAction::Finish(true),
        MergePhase::Failed => MergeAction::Finish(false),
    }
}

} // verus!
