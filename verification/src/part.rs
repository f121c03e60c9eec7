//! The partitioner: how the resource is cut into parts and where their temp
//! files go.

use crate::error::ProgramError;
use crate::paths::{file_name_of, join_path, path_file_name, path_join};
use crate::text::{append_decimal, decimal_text};
use crate::types::{Part, PartView};
use vstd::arithmetic::div_mod::*;
use vstd::arithmetic::mul::*;
use vstd::prelude::*;

verus! {

impl PartView {
    /// Number of bytes in the part.
    pub open spec fn size(self) -> nat {
        (self.end_inclusive - self.start + 1) as nat
    }

    /// Offset of the first byte after the part.
    pub open spec fn end(self) -> int {
        self.end_inclusive as int + 1
    }

    /// The part holds the byte at `offset`.
    pub open spec fn holds(self, offset: nat) -> bool {
        self.start <= offset <= self.end_inclusive
    }
}

impl Part {
    /// Returns the expected size of this part in bytes.
    pub fn expected_size(&self) -> (size: u64)
        requires
            self.start <= self.end_inclusive,
            self.end_inclusive - self.start < u64::MAX,
        ensures
            size == self@.size(),
    {
        self.end_inclusive - self.start + 1
    }
}

/// Number of parts that a resource of `total` bytes is cut into for
/// `threads` tasks: `threads`, or a single part when there are fewer bytes
/// than tasks.
pub open spec fn part_count(total: nat, threads: nat) -> nat {
    if total / threads == 0 {
        1
    } else {
        threads
    }
}

/// Offset of the first byte of part `i`.
pub open spec fn part_start(total: nat, threads: nat, i: nat) -> nat {
    i * (total / threads)
}

/// Offset of the last byte of part `i`: parts are `total / threads` bytes
/// long, and the last one takes what remains.
pub open spec fn part_end(total: nat, threads: nat, i: nat) -> nat {
    if i + 1 == part_count(total, threads) {
        (total - 1) as nat
    } else {
        ((i + 1) * (total / threads) - 1) as nat
    }
}

/// Name of the temp file of part `i` of an output file called `base_name`.
pub open spec fn part_file_name_text(base_name: Seq<char>, i: nat) -> Seq<char> {
    base_name + ".part"@ + decimal_text(i)
}

/// Part `i` of the partition, its temp file under `temp_dir`.
pub open spec fn planned_part(
    total: nat,
    threads: nat,
    base_name: Seq<char>,
    temp_dir: Seq<char>,
    i: nat,
) -> PartView {
    PartView {
        idx: i,
        start: part_start(total, threads, i),
        end_inclusive: part_end(total, threads, i),
        path: path_join(temp_dir, part_file_name_text(base_name, i)),
    }
}

/// The models of a list of parts.
pub open spec fn part_views(parts: Seq<Part>) -> Seq<PartView> {
    parts.map_values(|part: Part| part@)
}

/// `parts` are the parts of the partition, first to last.
pub open spec fn is_plan(
    parts: Seq<Part>,
    total: nat,
    threads: nat,
    base_name: Seq<char>,
    temp_dir: Seq<char>,
) -> bool {
    &&& parts.len() == part_count(total, threads)
    &&& forall|i: int|
        0 <= i < parts.len() ==> (#[trigger] parts[i])@ == planned_part(
            total,
            threads,
            base_name,
            temp_dir,
            i as nat,
        )
}

/// The parts tile `[0, total)`: each carries its position as index and is not
/// empty, the first starts at 0, each next one starts right after the one
/// before, and the last ends at `total - 1`.
pub open spec fn tiles(parts: Seq<PartView>, total: nat) -> bool {
    &&& parts.len() > 0
    &&& forall|i: int|
        0 <= i < parts.len() ==> (#[trigger] parts[i]).idx == i && parts[i].start
            <= parts[i].end_inclusive
    &&& parts[0].start == 0
    &&& forall|i: int|
        0 <= i < parts.len() - 1 ==> (#[trigger] parts[i]).end_inclusive + 1 == parts[i + 1].start
    &&& parts.last().end_inclusive + 1 == total
}

/// No two parts share a byte, and a part with a smaller index lies before one
/// with a larger index.
pub open spec fn pairwise_disjoint(parts: Seq<PartView>) -> bool {
    forall|i: int, j: int|
        0 <= i < j < parts.len() ==> (#[trigger] parts[i]).end_inclusive < (
        #[trigger] parts[j]).start
}

/// The bytes that the parts hold between them.
pub open spec fn covered(parts: Seq<PartView>) -> Set<nat> {
    Set::new(|offset: nat| exists|i: int| 0 <= i < parts.len() && (#[trigger] parts[i]).holds(offset))
}

/// The bytes of a resource of `total` bytes: `[0, total)`.
pub open spec fn all_bytes(total: nat) -> Set<nat> {
    Set::new(|offset: nat| offset < total)
}

/// In a tiling, a later part starts after an earlier one ends.
pub proof fn lemma_tiles_ordered(parts: Seq<PartView>, total: nat, i: int, j: int)
    requires
        tiles(parts, total),
        0 <= i < j < parts.len(),
    ensures
        parts[i].end_inclusive < parts[j].start,
    decreases j - i,
{
    if i + 1 < j {
        lemma_tiles_ordered(parts, total, i, j - 1);
    }
}

/// In a tiling, every part lies within `[0, total)`.
pub proof fn lemma_tiles_within(parts: Seq<PartView>, total: nat, i: int)
    requires
        tiles(parts, total),
        0 <= i < parts.len(),
    ensures
        parts[i].end_inclusive < total,
{
    if i < parts.len() - 1 {
        lemma_tiles_ordered(parts, total, i, parts.len() - 1);
    }
}

/// In a tiling, every byte at or after the start of part `from` and below
/// `total` lies in some part.
proof fn lemma_tiles_reach(parts: Seq<PartView>, total: nat, offset: nat, from: int) -> (at: int)
    requires
        tiles(parts, total),
        0 <= from < parts.len(),
        parts[from].start <= offset < total,
    ensures
        0 <= at < parts.len(),
        parts[at].holds(offset),
    decreases parts.len() - from,
{
    if offset <= parts[from].end_inclusive {
        from
    } else {
        lemma_tiles_reach(parts, total, offset, from + 1)
    }
}

/// Parts that tile `[0, total)` are pairwise disjoint, and the bytes they
/// hold between them are exactly those of `[0, total)`.
pub proof fn lemma_tiles_partition(parts: Seq<PartView>, total: nat)
    requires
        tiles(parts, total),
    ensures
        pairwise_disjoint(parts),
        covered(parts) == all_bytes(total),
{
    assert forall|i: int, j: int| 0 <= i < j < parts.len() implies (#[trigger] parts[i]).end_inclusive
        < (#[trigger] parts[j]).start by {
        lemma_tiles_ordered(parts, total, i, j);
    }
    assert forall|offset: nat| covered(parts).contains(offset) <==> all_bytes(total).contains(
        offset,
    ) by {
        if offset < total {
            lemma_tiles_reach(parts, total, offset, 0);
        }
        if covered(parts).contains(offset) {
            let i = choose|i: int| 0 <= i < parts.len() && (#[trigger] parts[i]).holds(offset);
            lemma_tiles_within(parts, total, i);
        }
    }
}

/// Total of the sizes of the parts.
pub open spec fn total_size(parts: Seq<PartView>) -> nat
    decreases parts.len(),
{
    if parts.len() == 0 {
        0
    } else {
        total_size(parts.drop_last()) + parts.last().size()
    }
}

/// The sizes of the first `k` parts of a tiling add up to the offset at
/// which part `k - 1` ends.
proof fn lemma_tiles_prefix_size(parts: Seq<PartView>, total: nat, k: int)
    requires
        tiles(parts, total),
        1 <= k <= parts.len(),
    ensures
        total_size(parts.take(k)) == parts[k - 1].end(),
    decreases k,
{
    assert(parts.take(k).drop_last() =~= parts.take(k - 1));
    if k == 1 {
        assert(total_size(parts.take(0)) == 0);
    } else {
        lemma_tiles_prefix_size(parts, total, k - 1);
    }
}

/// The sizes of parts that tile `[0, total)` add up to `total`.
pub proof fn lemma_tiles_total_size(parts: Seq<PartView>, total: nat)
    requires
        tiles(parts, total),
    ensures
        total_size(parts) == total,
{
    lemma_tiles_prefix_size(parts, total, parts.len() as int);
    assert(parts.take(parts.len() as int) =~= parts);
}

/// For every length of at least one byte and every number of tasks of at
/// least one, the parts of the partition carry their positions as indices,
/// are pairwise disjoint, hold between them exactly the bytes of
/// `[0, total)`, and are no more than there are tasks.
pub proof fn lemma_partition_covers(
    parts: Seq<Part>,
    total: nat,
    threads: nat,
    base_name: Seq<char>,
    temp_dir: Seq<char>,
)
    requires
        total >= 1,
        threads >= 1,
        is_plan(parts, total, threads, base_name, temp_dir),
    ensures
        tiles(part_views(parts), total),
        pairwise_disjoint(part_views(parts)),
        covered(part_views(parts)) == all_bytes(total),
        forall|i: int| 0 <= i < parts.len() ==> (#[trigger] parts[i]).idx == i,
        parts.len() <= threads,
{
    let views = part_views(parts);
    let chunk = total / threads;
    let count = part_count(total, threads);
    assert(chunk * threads <= total) by {
        lemma_fundamental_div_mod(total as int, threads as int);
        lemma_mod_bound(total as int, threads as int);
        lemma_mul_is_commutative(chunk as int, threads as int);
    }
    assert forall|i: int| 0 <= i < views.len() implies (#[trigger] views[i]).idx == i
        && views[i].start <= views[i].end_inclusive by {
        if i + 1 == count {
            if chunk > 0 {
                assert(i * chunk <= threads * chunk - chunk) by (nonlinear_arith)
                    requires
                        i + 1 == threads,
                        chunk > 0,
                ;
                lemma_mul_is_commutative(chunk as int, threads as int);
            } else {
                assert(i * chunk == 0) by (nonlinear_arith)
                    requires
                        chunk == 0,
                ;
            }
        } else {
            assert((i + 1) * chunk == i * chunk + chunk) by (nonlinear_arith);
        }
    }
    assert forall|i: int| 0 <= i < views.len() - 1 implies (#[trigger] views[i]).end_inclusive + 1
        == views[i + 1].start by {
        assert((i + 1) * chunk >= 1) by (nonlinear_arith)
            requires
                i >= 0,
                chunk >= 1,
        ;
    }
    lemma_tiles_partition(views, total);
}

/// Builds the name of the temp file of part `idx`: the output's base name,
/// `.part`, and the index in decimal.
pub fn part_file_name(base_name: &str, idx: usize) -> (name: String)
    ensures
        name@ == part_file_name_text(base_name@, idx as nat),
{
    let mut name = String::new();
    name.append(base_name);
    name.append(".part");
    append_decimal(&mut name, idx as u64);
    name
}

/// Cuts a resource of `total_len` bytes into parts for `threads` tasks, given
/// the base name of the output file as its lookup found it.
///
/// Without a base name the output cannot name temp files, and the arguments
/// are refused. Else the parts are those of [`planned_part`]: at most
/// `threads` of them, and they tile `[0, total_len)`.
pub fn parts_from_file_name(
    total_len: u64,
    threads: usize,
    file_name: Option<String>,
    temp_dir: &str,
) -> (result: Result<Vec<Part>, ProgramError>)
    requires
        total_len >= 1,
        threads >= 1,
    ensures
        match result {
            Ok(parts) => {
                &&& file_name matches Some(base_name) && is_plan(
                    parts@,
                    total_len as nat,
                    threads as nat,
                    base_name@,
                    temp_dir@,
                )
                &&& parts.len() <= threads
                &&& tiles(part_views(parts@), total_len as nat)
                &&& pairwise_disjoint(part_views(parts@))
                &&& covered(part_views(parts@)) == all_bytes(total_len as nat)
            },
            Err(error) => file_name is None && (error matches ProgramError::ArgNotValid(text)
                && text@ == "output has no file name"@),
        },
{
    let base_name = match file_name {
        Some(name) => name,
        None => {
            let mut text = String::new();
            text.append("output has no file name");
            return Err(ProgramError::ArgNotValid(text));
        },
    };
    let chunk: u64 = total_len / (threads as u64);
    let count: usize = if chunk == 0 {
        1
    } else {
        threads
    };
    let ghost total = total_len as nat;
    let ghost tasks = threads as nat;
    proof {
        assert(chunk * tasks <= total) by {
            lemma_fundamental_div_mod(total as int, tasks as int);
            lemma_mod_bound(total as int, tasks as int);
            lemma_mul_is_commutative(chunk as int, tasks as int);
        }
    }
    let mut parts: Vec<Part> = Vec::new();
    let mut start: u64 = 0;
    let mut idx: usize = 0;
    while idx < count
        invariant
            idx <= count,
            count == part_count(total, tasks),
            chunk == total / tasks,
            total == total_len,
            tasks == threads,
            total >= 1,
            tasks >= 1,
            chunk * tasks <= total,
            parts.len() == idx,
            idx < count ==> start == part_start(total, tasks, idx as nat),
            forall|i: int|
                0 <= i < idx ==> (#[trigger] parts[i])@ == planned_part(
                    total,
                    tasks,
                    base_name@,
                    temp_dir@,
                    i as nat,
                ),
        decreases count - idx,
    {
        let last = idx + 1 == count;
        proof {
            if !last {
                assert((idx + 1) * chunk == idx * chunk + chunk) by (nonlinear_arith);
                assert((idx + 1) * chunk <= tasks * chunk - chunk) by (nonlinear_arith)
                    requires
                        idx + 1 < tasks,
                        chunk > 0,
                ;
                lemma_mul_is_commutative(chunk as int, tasks as int);
            }
        }
        let end_inclusive: u64 = if last {
            total_len - 1
        } else {
            start + chunk - 1
        };
        let name = part_file_name(base_name.as_str(), idx);
        let path = join_path(temp_dir, name.as_str());
        parts.push(Part { idx, start, end_inclusive, path });
        if !last {
            start = end_inclusive + 1;
        }
        idx += 1;
    }
    proof {
        lemma_partition_covers(parts@, total, tasks, base_name@, temp_dir@);
    }
    Ok(parts)
}

/// Calculates part boundaries and temp file locations for a download.
///
/// `output` is the path of the final file, whose base name the temp files
/// take; `temp_dir` is the directory they go to. An output without a base
/// name is refused; else see [`parts_from_file_name`].
pub fn split_into_parts(total_len: u64, threads: usize, output: &str, temp_dir: &str) -> (result:
    Result<Vec<Part>, ProgramError>)
    requires
        total_len >= 1,
        threads >= 1,
    ensures
        match result {
            Ok(parts) => {
                &&& path_file_name(output@) matches Some(base_name) && is_plan(
                    parts@,
                    total_len as nat,
                    threads as nat,
                    base_name,
                    temp_dir@,
                )
                &&& parts.len() <= threads
                &&& tiles(part_views(parts@), total_len as nat)
                &&& pairwise_disjoint(part_views(parts@))
                &&& covered(part_views(parts@)) == all_bytes(total_len as nat)
            },
            Err(error) => path_file_name(output@) is None && (error matches ProgramError::ArgNotValid(
                text,
            ) && text@ == "output has no file name"@),
        },
{
    parts_from_file_name(total_len, threads, file_name_of(output), temp_dir)
}

} // verus!
