//! The jobs that completed last, kept in a circular buffer.
use crate::text::same;
use vstd::prelude::*;

verus! {

/// How many completed jobs are kept.
pub const COMPLETED_JOBS_CAPACITY: usize = 100;

/// A circular buffer of the identifiers of the jobs that completed last. Once it is full, a new
/// one takes the place of the oldest.
#[derive(Debug)]
pub struct CompletedJobsBuffer {
    jobs: Vec<String>,
    /// Where the next identifier is written once the buffer is full: at the oldest one.
    index: usize,
    /// Whether an identifier has been overwritten.
    is_full: bool,
}

/// The last `COMPLETED_JOBS_CAPACITY` of the identifiers, or all of them where there are fewer.
pub open spec fn recent(history: Seq<Seq<char>>) -> Seq<Seq<char>> {
    if history.len() <= COMPLETED_JOBS_CAPACITY {
        history
    } else {
        history.skip(history.len() - COMPLETED_JOBS_CAPACITY)
    }
}

/// How a buffer is laid out: its slots, the slot that is overwritten next, and whether one has been
/// overwritten.
pub struct BufferLayout {
    pub slots: Seq<Seq<char>>,
    pub index: nat,
    pub is_full: bool,
}

impl BufferLayout {
    /// The layout without any identifier.
    pub open spec fn empty() -> BufferLayout {
        BufferLayout { slots: Seq::empty(), index: 0, is_full: false }
    }

    /// There are never more slots than the capacity, the next slot lies within it, and slots are
    /// overwritten only once there are as many as the capacity.
    pub open spec fn is_valid(self) -> bool {
        &&& self.slots.len() <= COMPLETED_JOBS_CAPACITY
        &&& self.index < COMPLETED_JOBS_CAPACITY
        &&& !self.is_full ==> self.index == 0
        &&& self.is_full ==> self.slots.len() == COMPLETED_JOBS_CAPACITY
    }

    /// The layout with one more identifier: at the end while there is room, else in the place of
    /// the oldest one, and the slot after it is the next.
    pub open spec fn with_added(self, job_id: Seq<char>) -> BufferLayout {
        if self.slots.len() < COMPLETED_JOBS_CAPACITY {
            BufferLayout { slots: self.slots.push(job_id), ..self }
        } else {
            BufferLayout {
                slots: self.slots.update(self.index as int, job_id),
                index: (self.index + 1) % COMPLETED_JOBS_CAPACITY as nat,
                is_full: true,
            }
        }
    }

    /// The identifiers, the oldest first: from the slot that is overwritten next, round to the one
    /// before it.
    pub open spec fn oldest_first(self) -> Seq<Seq<char>> {
        Seq::new(
            self.slots.len(),
            |i: int|
                self.slots[if self.index + i < self.slots.len() {
                    self.index + i
                } else {
                    self.index + i - self.slots.len()
                }],
        )
    }
}

impl View for CompletedJobsBuffer {
    type V = Seq<Seq<char>>;

    /// The identifiers that are kept, the oldest first.
    open spec fn view(&self) -> Seq<Seq<char>> {
        self.layout().oldest_first()
    }
}

impl CompletedJobsBuffer {
    /// How the buffer is laid out.
    pub closed spec fn layout(&self) -> BufferLayout {
        BufferLayout {
            slots: Seq::new(self.jobs@.len(), |i: int| self.jobs@[i]@),
            index: self.index as nat,
            is_full: self.is_full,
        }
    }

    #[verifier::type_invariant]
    closed spec fn well_formed(self) -> bool {
        self.layout().is_valid()
    }

    /// An empty buffer.
    pub fn new() -> (buffer: CompletedJobsBuffer)
        ensures
            buffer@ == Seq::<Seq<char>>::empty(),
            buffer.layout() == BufferLayout::empty(),
    {
        let buffer = CompletedJobsBuffer {
            jobs: Vec::with_capacity(COMPLETED_JOBS_CAPACITY),
            index: 0,
            is_full: false,
        };
        assert(buffer.layout().slots =~= Seq::empty());
        assert(buffer@ =~= Seq::<Seq<char>>::empty());
        buffer
    }

    /// Adds the identifier of a completed job. A full buffer forgets the oldest one for it.
    pub fn add(&mut self, job_id: String)
        ensures
            final(self)@ == recent(old(self)@.push(job_id@)),
            final(self).layout() == old(self).layout().with_added(job_id@),
            final(self).layout().is_valid(),
    {
        let mut kept = CompletedJobsBuffer::new();
        std::mem::swap(&mut kept, self);
        proof {
            use_type_invariant(&kept);
        }
        let ghost before = kept.layout();
        let mut jobs = kept.jobs;
        let mut index = kept.index;
        let mut is_full = kept.is_full;
        let ghost added = job_id@;
        if jobs.len() < COMPLETED_JOBS_CAPACITY {
            jobs.push(job_id);
        } else {
            is_full = true;
            jobs.set(index, job_id);
            index = (index + 1) % COMPLETED_JOBS_CAPACITY;
        }
        *self = CompletedJobsBuffer { jobs, index, is_full };
        proof {
            assert(self.layout().slots =~= before.with_added(added).slots);
            adding_keeps_the_most_recent(before, added);
        }
    }

    /// Whether a job is among those that are kept.
    pub fn contains(&self, job_id: &str) -> (found: bool)
        ensures
            found == self@.contains(job_id@),
    {
        proof {
            use_type_invariant(self);
        }
        let mut i: usize = 0;
        while i < self.jobs.len()
            invariant
                i <= self.jobs.len(),
                self.well_formed(),
                forall|k: int| 0 <= k < i ==> (#[trigger] self.jobs@[k])@ != job_id@,
            decreases self.jobs.len() - i,
        {
            if same(self.jobs[i].as_str(), job_id) {
                proof {
                    let place = if self.index <= i {
                        i - self.index
                    } else {
                        i - self.index + self.jobs@.len()
                    };
                    assert(self@[place] == job_id@);
                }
                return true;
            }
            i = i + 1;
        }
        false
    }
}

/// Adding an identifier keeps a layout valid.
pub proof fn adding_keeps_the_layout_valid(layout: BufferLayout, job_id: Seq<char>)
    requires
        layout.is_valid(),
    ensures
        layout.with_added(job_id).is_valid(),
{
}

/// Adding an identifier keeps the most recent ones, in their order.
pub proof fn adding_keeps_the_most_recent(layout: BufferLayout, job_id: Seq<char>)
    requires
        layout.is_valid(),
    ensures
        layout.with_added(job_id).oldest_first() == recent(layout.oldest_first().push(job_id)),
{
    assert(layout.with_added(job_id).oldest_first() =~= recent(
        layout.oldest_first().push(job_id),
    ));
}

/// The layout of a buffer after these jobs completed one after the other, from an empty one.
pub open spec fn layout_after(added: Seq<Seq<char>>) -> BufferLayout
    decreases added.len(),
{
    if added.len() == 0 {
        BufferLayout::empty()
    } else {
        layout_after(added.drop_last()).with_added(added.last())
    }
}

/// After any number of additions the layout is valid, there is a slot for each of them up to the
/// capacity, slots have been overwritten exactly where there were more additions than that, and
/// the slot that is overwritten next goes round with them.
pub proof fn layout_goes_round(added: Seq<Seq<char>>)
    ensures
        layout_after(added).is_valid(),
        layout_after(added).slots.len() == if added.len() <= COMPLETED_JOBS_CAPACITY {
            added.len()
        } else {
            COMPLETED_JOBS_CAPACITY as nat
        },
        layout_after(added).is_full == (added.len() > COMPLETED_JOBS_CAPACITY),
        layout_after(added).index == if added.len() > COMPLETED_JOBS_CAPACITY {
            (added.len() - COMPLETED_JOBS_CAPACITY) % COMPLETED_JOBS_CAPACITY as int
        } else {
            0
        },
    decreases added.len(),
{
    if added.len() > 0 {
        layout_goes_round(added.drop_last());
    }
}

/// Each of the jobs that completed last lies in the slot that its number gives, counted round the
/// capacity.
pub proof fn recent_jobs_lie_in_their_slots(added: Seq<Seq<char>>, number: int)
    requires
        0 <= number < added.len(),
        added.len() - COMPLETED_JOBS_CAPACITY <= number,
    ensures
        layout_after(added).slots[number % COMPLETED_JOBS_CAPACITY as int] == added[number],
    decreases added.len(),
{
    let front = added.drop_last();
    layout_goes_round(front);
    if number < added.len() - 1 {
        recent_jobs_lie_in_their_slots(front, number);
        assert(front[number] == added[number]);
    }
}

/// The buffer after these jobs completed one after the other, from one that holds `kept`.
pub open spec fn after_adding(kept: Seq<Seq<char>>, added: Seq<Seq<char>>) -> Seq<Seq<char>>
    decreases added.len(),
{
    if added.len() == 0 {
        kept
    } else {
        recent(after_adding(kept, added.drop_last()).push(added.last()))
    }
}

/// However many jobs complete, the buffer holds the last ones of them all, in their order, and
/// never more than its capacity.
pub proof fn buffer_holds_the_most_recent(added: Seq<Seq<char>>)
    ensures
        after_adding(Seq::empty(), added) == recent(added),
        recent(added).len() <= COMPLETED_JOBS_CAPACITY,
    decreases added.len(),
{
    if added.len() > 0 {
        buffer_holds_the_most_recent(added.drop_last());
        assert(recent(recent(added.drop_last()).push(added.last())) =~= recent(added));
    } else {
        assert(added =~= Seq::empty());
    }
}

/// A job is found from when it completed until as many others completed after it as the buffer
/// holds.
pub proof fn completed_job_is_found(earlier: Seq<Seq<char>>, job: Seq<char>, later: Seq<Seq<char>>)
    requires
        later.len() < COMPLETED_JOBS_CAPACITY,
    ensures
        after_adding(Seq::empty(), earlier.push(job) + later).contains(job),
{
    let all = earlier.push(job) + later;
    buffer_holds_the_most_recent(all);
    let place = if all.len() <= COMPLETED_JOBS_CAPACITY {
        earlier.len() as int
    } else {
        earlier.len() - (all.len() - COMPLETED_JOBS_CAPACITY)
    };
    assert(recent(all)[place] == job);
}

/// A job that completed once is forgotten when as many others completed after it as the buffer
/// holds.
pub proof fn old_job_is_forgotten(earlier: Seq<Seq<char>>, job: Seq<char>, later: Seq<Seq<char>>)
    requires
        later.len() >= COMPLETED_JOBS_CAPACITY,
        !later.contains(job),
    ensures
        !after_adding(Seq::empty(), earlier.push(job) + later).contains(job),
{
    let all = earlier.push(job) + later;
    buffer_holds_the_most_recent(all);
    assert forall|i: int| 0 <= i < recent(all).len() implies #[trigger] recent(all)[i] != job by {
        let place = i + (all.len() - COMPLETED_JOBS_CAPACITY) - earlier.len() - 1;
        assert(recent(all)[i] == later[place]);
    }
}

} // verus!
