//! Chunk planning: how many parts a file of a given size is cut into, and
//! which bytes each part covers.

use vstd::prelude::*;
use crate::error::ErrorKind;

verus! {

/// The size of every part but the last: 5 MiB.
pub const CHUNK_SIZE: u32 = 5_242_880;

/// The largest file whose part count still fits in a `u32`:
/// `CHUNK_SIZE * u32::MAX` bytes.
pub const MAX_TOTAL_SIZE: u64 = 22_517_998_131_609_600;

/// The number of chunks of `chunk` bytes that cover `total` bytes.
pub open spec fn ceil_div(total: int, chunk: int) -> int {
    (total + chunk - 1) / chunk
}

/// The mathematical content of a [`ChunkPlan`].
pub ghost struct PlanView {
    pub total_size: int,
    pub chunk_size: int,
    pub part_count: int,
}

impl PlanView {
    /// The plan for a file of `total_size` bytes.
    pub open spec fn of(total_size: int) -> PlanView {
        PlanView {
            total_size,
            chunk_size: CHUNK_SIZE as int,
            part_count: ceil_div(total_size, CHUNK_SIZE as int),
        }
    }

    /// Parts are `CHUNK_SIZE` long, there is at least one, and the last one
    /// is neither empty nor longer than the others.
    pub open spec fn wf(self) -> bool {
        &&& self.chunk_size == CHUNK_SIZE
        &&& 1 <= self.part_count
        &&& 0 < self.total_size - self.chunk_size * (self.part_count - 1) <= self.chunk_size
    }

    /// Whether `part_number` names a part of this plan. Parts are numbered
    /// from 1.
    pub open spec fn has_part(self, part_number: int) -> bool {
        1 <= part_number <= self.part_count
    }

    /// The offset in the file of the first byte of a part.
    pub open spec fn part_start(self, part_number: int) -> int {
        self.chunk_size * (part_number - 1)
    }

    /// The length of a part: `chunk_size`, but for the last part, which
    /// takes what is left.
    pub open spec fn part_len(self, part_number: int) -> int {
        if part_number < self.part_count {
            self.chunk_size
        } else {
            self.total_size - self.chunk_size * (self.part_count - 1)
        }
    }

    /// The offset in the file just past the last byte of a part.
    pub open spec fn part_end(self, part_number: int) -> int {
        self.part_start(part_number) + self.part_len(part_number)
    }

    /// The lengths of the parts `1..=n` added up.
    pub open spec fn len_of_first(self, n: int) -> int
        decreases n,
    {
        if n <= 0 {
            0
        } else {
            self.len_of_first(n - 1) + self.part_len(n)
        }
    }
}

/// How a file is cut into parts.
#[derive(Clone, Copy, Debug, PartialEq, Eq)]
pub struct ChunkPlan {
    total_size: u64,
    chunk_size: u32,
    part_count: u32,
}

impl View for ChunkPlan {
    type V = PlanView;

    closed spec fn view(&self) -> PlanView {
        PlanView {
            total_size: self.total_size as int,
            chunk_size: self.chunk_size as int,
            part_count: self.part_count as int,
        }
    }
}

impl ChunkPlan {
    #[verifier::type_invariant]
    spec fn inv(self) -> bool {
        self@.wf()
    }

    /// The size of the file in bytes.
    pub fn total_size(&self) -> (n: u64)
        ensures
            n == self@.total_size,
            self@.wf(),
    {
        proof {
            use_type_invariant(self);
        }
        self.total_size
    }

    /// The size of every part but the last.
    pub fn chunk_size(&self) -> (n: u32)
        ensures
            n == self@.chunk_size,
            n == CHUNK_SIZE,
            self@.wf(),
    {
        proof {
            use_type_invariant(self);
        }
        self.chunk_size
    }

    /// The number of parts.
    pub fn part_count(&self) -> (n: u32)
        ensures
            n == self@.part_count,
            n >= 1,
            self@.wf(),
    {
        proof {
            use_type_invariant(self);
        }
        self.part_count
    }

    /// The length in bytes of the part numbered `part_number`, or `None`
    /// where the plan has no such part.
    pub fn part_length(&self, part_number: u32) -> (len: Option<u32>)
        ensures
            self@.wf(),
            self@.has_part(part_number as int) ==> len == Some(
                self@.part_len(part_number as int) as u32,
            ) && 0 < self@.part_len(part_number as int) <= CHUNK_SIZE,
            !self@.has_part(part_number as int) ==> len.is_none(),
    {
        proof {
            use_type_invariant(self);
        }
        if part_number == 0 || part_number > self.part_count {
            None
        } else if part_number < self.part_count {
            Some(self.chunk_size)
        } else {
            let before: u64 = (self.chunk_size as u64) * ((self.part_count - 1) as u64);
            Some((self.total_size - before) as u32)
        }
    }

    /// The bytes of the file that the part numbered `part_number` covers,
    /// as the offsets of its first byte and of the byte after its last, or
    /// `None` where the plan has no such part.
    pub fn part_range(&self, part_number: u32) -> (range: Option<(u64, u64)>)
        ensures
            self@.wf(),
            self@.has_part(part_number as int) ==> range == Some(
                (
                    self@.part_start(part_number as int) as u64,
                    self@.part_end(part_number as int) as u64,
                ),
            ) && 0 <= self@.part_start(part_number as int) < self@.part_end(part_number as int)
                <= self@.total_size,
            !self@.has_part(part_number as int) ==> range.is_none(),
    {
        proof {
            use_type_invariant(self);
        }
        match self.part_length(part_number) {
            None => None,
            Some(len) => {
                let start: u64 = (self.chunk_size as u64) * ((part_number - 1) as u64);
                Some((start, start + len as u64))
            },
        }
    }
}

/// Plans the upload of a file of `total_size` bytes.
///
/// An empty file has no plan. Any other file is cut into
/// `ceil(total_size / CHUNK_SIZE)` parts, so a file shorter than one chunk
/// is a single part.
pub fn plan(total_size: u64) -> (result: Result<ChunkPlan, ErrorKind>)
    requires
        total_size <= MAX_TOTAL_SIZE,
    ensures
        total_size == 0 <==> result.is_err(),
        result.is_err() ==> result == Err::<ChunkPlan, ErrorKind>(ErrorKind::InvalidSize),
        result.is_ok() ==> result.unwrap()@ == PlanView::of(total_size as int)
            && result.unwrap()@.wf(),
{
    if total_size == 0 {
        return Err(ErrorKind::InvalidSize);
    }
    let part_count: u64 = (total_size - 1) / (CHUNK_SIZE as u64) + 1;
    Ok(ChunkPlan { total_size, chunk_size: CHUNK_SIZE, part_count: part_count as u32 })
}

/// A plan of `n` parts covers more than `n - 1` chunks and at most `n`:
/// the part count is the least number of chunks that hold the file. So a
/// file of up to one chunk, and no other, is a single part; and the count
/// fits in a `u32` exactly when the file is no larger than
/// `MAX_TOTAL_SIZE`.
pub proof fn lemma_part_count_is_least(total_size: int)
    requires
        0 < total_size,
    ensures
        ({
            let n = PlanView::of(total_size).part_count;
            CHUNK_SIZE * (n - 1) < total_size <= CHUNK_SIZE * n
        }),
        PlanView::of(total_size).wf(),
        PlanView::of(total_size).part_count == 1 <==> total_size <= CHUNK_SIZE,
        PlanView::of(total_size).part_count <= u32::MAX <==> total_size <= MAX_TOTAL_SIZE,
{
}

/// In a well-formed plan the first `n` parts, for `n` below the part count,
/// are `n` whole chunks.
pub proof fn lemma_whole_chunks(plan: PlanView, n: int)
    requires
        plan.wf(),
        0 <= n < plan.part_count,
    ensures
        plan.len_of_first(n) == plan.chunk_size * n,
        plan.len_of_first(n) == plan.part_start(n + 1),
    decreases n,
{
    if n > 0 {
        lemma_whole_chunks(plan, n - 1);
    }
}

/// The lengths of the parts of a well-formed plan add up to the size of the
/// file, and every part but the last is exactly one chunk long.
pub proof fn lemma_parts_cover_file(plan: PlanView)
    requires
        plan.wf(),
    ensures
        plan.len_of_first(plan.part_count) == plan.total_size,
        forall|k: int| 1 <= k < plan.part_count ==> #[trigger] plan.part_len(k) == CHUNK_SIZE,
        0 < plan.part_len(plan.part_count) <= CHUNK_SIZE,
{
    lemma_whole_chunks(plan, plan.part_count - 1);
}

/// Every file but the empty one is covered by its plan: the planned
/// lengths add up to the size of the file, and every part but the last is
/// exactly one chunk long.
pub proof fn lemma_plan_covers_file(total_size: int)
    requires
        0 < total_size,
    ensures
        PlanView::of(total_size).wf(),
        PlanView::of(total_size).len_of_first(PlanView::of(total_size).part_count) == total_size,
        forall|k: int|
            1 <= k < PlanView::of(total_size).part_count ==> #[trigger] PlanView::of(
                total_size,
            ).part_len(k) == CHUNK_SIZE,
{
    lemma_part_count_is_least(total_size);
    lemma_parts_cover_file(PlanView::of(total_size));
}

} // verus!
