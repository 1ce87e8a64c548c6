//! Per-outstation state and the choice of the next task.

use vstd::prelude::*;
use crate::header::{next_seq, Iin, Sequence};
use crate::request::{Classes, EventClasses, ReadRequest};
use crate::tasks::{AssociationTask, AutoTask, NonReadTask, ReadOrigin, ReadTask, RunError, Task};
use crate::tasks::TaskError;

verus! {

/// Housekeeping that an association still owes.
#[derive(Copy, Clone, Debug, PartialEq, Eq, Structural)]
pub struct Pending {
    pub clear_restart: bool,
    pub disable_unsolicited: bool,
    pub integrity_poll: bool,
    pub enable_unsolicited: bool,
}

impl Pending {
    /// The flags after the outstation reported `iin`: a restart asks for the
    /// restart bit to be cleared, an event buffer overflow for an integrity
    /// poll. No flag is ever lowered by an observation.
    pub open spec fn observe(self, iin: Iin) -> Pending {
        Pending {
            clear_restart: self.clear_restart || iin.device_restart(),
            integrity_poll: self.integrity_poll || iin.event_buffer_overflow(),
            ..self
        }
    }
}

/// What an association is set up with.
#[derive(Copy, Clone, Debug, PartialEq, Eq, Structural)]
pub struct Configuration {
    /// Classes for which unsolicited reporting is disabled at startup.
    pub disable_unsol_classes: EventClasses,
    /// Classes for which unsolicited reporting is enabled after the first
    /// integrity poll.
    pub enable_unsol_classes: EventClasses,
    /// Classes of the integrity poll.
    pub integrity_classes: Classes,
}

/// A periodic read.
#[derive(Copy, Clone, Debug, PartialEq, Eq, Structural)]
pub struct Poll {
    pub id: u64,
    pub interval: u64,
    pub next_due: u64,
    pub request: ReadRequest,
}

/// The scheduler's answer: a task to run now, an instant before which
/// nothing is due, or nothing at all.
#[derive(Clone, Debug)]
pub enum Next<T> {
    Now(T),
    NotBefore(u64),
    Nothing,
}

/// State of the conversation with one outstation.
#[derive(Clone, Debug)]
pub struct Association {
    pub address: u16,
    pub seq: Sequence,
    pub pending: Pending,
    pub config: Configuration,
    pub polls: Vec<Poll>,
    pub queue: Vec<Task>,
    pub next_poll_id: u64,
}

/// The index of the poll that is due first; among polls due at the same
/// instant, the one added first.
pub open spec fn earliest_poll(polls: Seq<Poll>) -> int
    decreases polls.len(),
{
    if polls.len() <= 1 {
        0
    } else {
        let e = earliest_poll(polls.drop_last());
        if polls.last().next_due < polls[e].next_due {
            polls.len() - 1
        } else {
            e
        }
    }
}

/// The pending flags of an association after a read of `origin` completed:
/// a completed integrity poll lowers its flag.
pub open spec fn pending_after_read(pending: Pending, origin: ReadOrigin) -> Pending {
    match origin {
        ReadOrigin::Integrity => Pending { integrity_poll: false, ..pending },
        _ => pending,
    }
}

/// The polls of an association after a read of `origin` completed at `now`:
/// a completed periodic poll is scheduled anew.
pub open spec fn polls_after_read(polls: Seq<Poll>, origin: ReadOrigin, now: u64) -> Seq<Poll> {
    match origin {
        ReadOrigin::Poll(id) => Association::polls_after(polls, id, now),
        _ => polls,
    }
}

/// A message for one association.
#[derive(Clone, Debug)]
pub enum AssociationMsgDetails {
    /// Run a task as soon as housekeeping and due polls allow.
    QueueTask(Task),
    /// Add a periodic poll, first due one interval from now.
    AddPoll(ReadRequest, u64),
    /// Choose the classes of unsolicited reporting, and apply the choice.
    SetUnsolicitedClasses(EventClasses),
    /// Choose the classes of the integrity poll.
    SetIntegrityClasses(Classes),
}

impl Association {
    pub open spec fn wf(self) -> bool {
        self.seq.wf()
    }

    /// Equal in everything but the pending flags.
    pub open spec fn same_but_pending(self, other: Association) -> bool {
        self == (Association { pending: self.pending, ..other })
    }

    /// The housekeeping flags at the start: unsolicited reporting is first
    /// disabled, then an integrity poll is made, then reporting is enabled,
    /// each only for a non-empty choice of classes.
    pub open spec fn initial_pending(config: Configuration) -> Pending {
        Pending {
            clear_restart: false,
            disable_unsolicited: config.disable_unsol_classes.class1
                || config.disable_unsol_classes.class2 || config.disable_unsol_classes.class3,
            integrity_poll: true,
            enable_unsolicited: config.enable_unsol_classes.class1
                || config.enable_unsol_classes.class2 || config.enable_unsol_classes.class3,
        }
    }

    pub fn new(address: u16, config: Configuration) -> (r: Association)
        ensures
            r.address == address,
            r.seq.value == 0,
            r.pending == Association::initial_pending(config),
            r.config == config,
            r.polls@.len() == 0,
            r.queue@.len() == 0,
            r.next_poll_id == 0,
            r.wf(),
    {
        Association {
            address,
            seq: Sequence::new(0),
            pending: Pending {
                clear_restart: false,
                disable_unsolicited: config.disable_unsol_classes.any(),
                integrity_poll: true,
                enable_unsolicited: config.enable_unsol_classes.any(),
            },
            config,
            polls: Vec::new(),
            queue: Vec::new(),
            next_poll_id: 0,
        }
    }

    /// Hands out the sequence number for the next request and advances.
    pub fn increment_seq(&mut self) -> (r: Sequence)
        ensures
            r == old(self).seq,
            final(self).seq.value == next_seq(old(self).seq.value),
            final(self).seq.wf(),
            *final(self) == (Association { seq: final(self).seq, ..*old(self) }),
    {
        self.seq.increment()
    }

    /// Applies the indications of a received fragment.
    pub fn process_iin(&mut self, iin: Iin)
        ensures
            final(self).pending == old(self).pending.observe(iin),
            final(self).same_but_pending(*old(self)),
    {
        if iin.get_device_restart() {
            self.pending.clear_restart = true;
        }
        if iin.get_event_buffer_overflow() {
            self.pending.integrity_poll = true;
        }
    }

    pub fn on_clear_restart_iin_response(&mut self, iin: Iin)
        ensures
            final(self).pending == (Pending { clear_restart: iin.device_restart(), ..old(self).pending }),
            final(self).same_but_pending(*old(self)),
    {
        self.pending.clear_restart = iin.get_device_restart();
    }

    pub fn on_clear_restart_iin_failure(&mut self)
        ensures
            final(self).pending == (Pending { clear_restart: true, ..old(self).pending }),
            final(self).same_but_pending(*old(self)),
    {
        self.pending.clear_restart = true;
    }

    pub fn on_enable_unsolicited_response(&mut self, iin: Iin)
        ensures
            final(self).pending == (Pending { enable_unsolicited: false, ..old(self).pending }),
            final(self).same_but_pending(*old(self)),
    {
        self.pending.enable_unsolicited = false;
    }

    pub fn on_enable_unsolicited_failure(&mut self)
        ensures
            final(self).pending == (Pending { enable_unsolicited: true, ..old(self).pending }),
            final(self).same_but_pending(*old(self)),
    {
        self.pending.enable_unsolicited = true;
    }

    pub fn on_disable_unsolicited_response(&mut self, iin: Iin)
        ensures
            final(self).pending == (Pending { disable_unsolicited: false, ..old(self).pending }),
            final(self).same_but_pending(*old(self)),
    {
        self.pending.disable_unsolicited = false;
    }

    pub fn on_disable_unsolicited_failure(&mut self)
        ensures
            final(self).pending == (Pending { disable_unsolicited: true, ..old(self).pending }),
            final(self).same_but_pending(*old(self)),
    {
        self.pending.disable_unsolicited = true;
    }

    /// The polls after the poll `id` completed at `now`: it is next due one
    /// interval later, at the latest instant if that cannot be told.
    pub open spec fn polls_after(polls: Seq<Poll>, id: u64, now: u64) -> Seq<Poll> {
        Seq::new(
            polls.len(),
            |i: int|
                if polls[i].id == id {
                    Poll {
                        next_due: if now + polls[i].interval > u64::MAX {
                            u64::MAX
                        } else {
                            (now + polls[i].interval) as u64
                        },
                        ..polls[i]
                    }
                } else {
                    polls[i]
                },
        )
    }

    /// Settles a completed read: an integrity poll lowers its flag, a
    /// periodic poll is scheduled anew.
    pub fn complete_read(&mut self, origin: ReadOrigin, now: u64)
        ensures
            final(self).pending == pending_after_read(old(self).pending, origin),
            final(self).polls@ == polls_after_read(old(self).polls@, origin, now),
            final(self).address == old(self).address,
            final(self).seq == old(self).seq,
            final(self).config == old(self).config,
            final(self).queue == old(self).queue,
            final(self).next_poll_id == old(self).next_poll_id,
    {
        match origin {
            ReadOrigin::Integrity => {
                self.pending.integrity_poll = false;
            },
            ReadOrigin::Poll(id) => {
                let mut i: usize = 0;
                while i < self.polls.len()
                    invariant
                        0 <= i <= self.polls.len(),
                        self.polls@.len() == old(self).polls@.len(),
                        forall|j: int|
                            0 <= j < i ==> self.polls@[j] == Association::polls_after(
                                old(self).polls@,
                                id,
                                now,
                            )[j],
                        forall|j: int|
                            i <= j < self.polls@.len() ==> self.polls@[j] == old(self).polls@[j],
                        self.pending == old(self).pending,
                        self.address == old(self).address,
                        self.seq == old(self).seq,
                        self.config == old(self).config,
                        self.queue == old(self).queue,
                        self.next_poll_id == old(self).next_poll_id,
                    decreases self.polls.len() - i,
                {
                    let p: Poll = self.polls[i];
                    if p.id == id {
                        let due: u64 = if now > u64::MAX - p.interval {
                            u64::MAX
                        } else {
                            now + p.interval
                        };
                        self.polls.set(i, Poll { next_due: due, ..p });
                    }
                    i = i + 1;
                }
                proof {
                    assert(self.polls@ =~= Association::polls_after(old(self).polls@, id, now));
                }
            },
            ReadOrigin::User => {},
        }
    }

    /// The housekeeping task that the pending flags ask for, by fixed
    /// priority: clear the restart bit, disable unsolicited reporting, make
    /// the integrity poll, enable unsolicited reporting.
    pub open spec fn auto_task(pending: Pending, config: Configuration) -> Option<Task> {
        if pending.clear_restart {
            Some(Task::NonRead(NonReadTask::Auto(AutoTask::ClearRestartBit)))
        } else if pending.disable_unsolicited {
            Some(
                Task::NonRead(
                    NonReadTask::Auto(AutoTask::DisableUnsolicited(config.disable_unsol_classes)),
                ),
            )
        } else if pending.integrity_poll {
            Some(
                Task::Read(
                    ReadTask {
                        request: ReadRequest::ClassScan(config.integrity_classes),
                        origin: ReadOrigin::Integrity,
                    },
                ),
            )
        } else if pending.enable_unsolicited {
            Some(
                Task::NonRead(
                    NonReadTask::Auto(AutoTask::EnableUnsolicited(config.enable_unsol_classes)),
                ),
            )
        } else {
            None
        }
    }

    /// Whether a poll is due at `now`.
    pub open spec fn poll_due(self, now: u64) -> bool {
        self.polls@.len() > 0 && self.polls@[earliest_poll(self.polls@)].next_due <= now
    }

    /// Whether the next task at `now` is taken from the queue.
    pub open spec fn takes_queued(self, now: u64) -> bool {
        Association::auto_task(self.pending, self.config) is None && !self.poll_due(now)
            && self.queue@.len() > 0
    }

    /// What the association wants at `now`: housekeeping first, then the
    /// poll that is due first, then the oldest queued task; failing all
    /// that, to wait for the next poll, or nothing.
    pub open spec fn decision(self, now: u64) -> Next<Task> {
        let e = earliest_poll(self.polls@);
        if Association::auto_task(self.pending, self.config) is Some {
            Next::Now(Association::auto_task(self.pending, self.config)->0)
        } else if self.poll_due(now) {
            Next::Now(
                Task::Read(
                    ReadTask { request: self.polls@[e].request, origin: ReadOrigin::Poll(self.polls@[e].id) },
                ),
            )
        } else if self.queue@.len() > 0 {
            Next::Now(self.queue@[0])
        } else if self.polls@.len() > 0 {
            Next::NotBefore(self.polls@[e].next_due)
        } else {
            Next::Nothing
        }
    }

    fn next_auto_task(&self) -> (r: Option<Task>)
        ensures
            r == Association::auto_task(self.pending, self.config),
    {
        if self.pending.clear_restart {
            Some(AutoTask::ClearRestartBit.wrap())
        } else if self.pending.disable_unsolicited {
            Some(AutoTask::DisableUnsolicited(self.config.disable_unsol_classes).wrap())
        } else if self.pending.integrity_poll {
            Some(
                Task::Read(
                    ReadTask {
                        request: ReadRequest::class_scan(self.config.integrity_classes),
                        origin: ReadOrigin::Integrity,
                    },
                ),
            )
        } else if self.pending.enable_unsolicited {
            Some(AutoTask::EnableUnsolicited(self.config.enable_unsol_classes).wrap())
        } else {
            None
        }
    }

    fn find_earliest_poll(&self) -> (r: usize)
        requires
            self.polls@.len() > 0,
        ensures
            r == earliest_poll(self.polls@),
            r < self.polls@.len(),
    {
        let mut best: usize = 0;
        let mut i: usize = 1;
        proof {
            assert(self.polls@.take(1).len() == 1);
        }
        while i < self.polls.len()
            invariant
                1 <= i <= self.polls.len(),
                best < i,
                best == earliest_poll(self.polls@.take(i as int)),
            decreases self.polls.len() - i,
        {
            proof {
                assert(self.polls@.take(i + 1).drop_last() =~= self.polls@.take(i as int));
                assert(self.polls@.take(i + 1).last() == self.polls@[i as int]);
                assert(self.polls@.take(i + 1)[best as int] == self.polls@[best as int]);
            }
            if self.polls[i].next_due < self.polls[best].next_due {
                best = i;
            }
            i = i + 1;
        }
        proof {
            assert(self.polls@.take(i as int) =~= self.polls@);
        }
        best
    }

    /// Picks the next task of this association at `now`. A queued task that
    /// is picked leaves the queue; nothing else changes.
    pub fn get_next_task(&mut self, now: u64) -> (r: Next<Task>)
        ensures
            r == old(self).decision(now),
            old(self).takes_queued(now) ==> final(self).queue@ == old(self).queue@.skip(1),
            !old(self).takes_queued(now) ==> final(self).queue@ == old(self).queue@,
            final(self).address == old(self).address,
            final(self).seq == old(self).seq,
            final(self).pending == old(self).pending,
            final(self).config == old(self).config,
            final(self).polls == old(self).polls,
            final(self).next_poll_id == old(self).next_poll_id,
    {
        if let Some(task) = self.next_auto_task() {
            return Next::Now(task);
        }
        if self.polls.len() > 0 {
            let e: usize = self.find_earliest_poll();
            let p: Poll = self.polls[e];
            if p.next_due <= now {
                return Next::Now(
                    Task::Read(ReadTask { request: p.request, origin: ReadOrigin::Poll(p.id) }),
                );
            }
            if self.queue.len() > 0 {
                let task = self.queue.remove(0);
                assert(self.queue@ =~= old(self).queue@.skip(1));
                return Next::Now(task);
            }
            return Next::NotBefore(p.next_due);
        }
        if self.queue.len() > 0 {
            let task = self.queue.remove(0);
            assert(self.queue@ =~= old(self).queue@.skip(1));
            return Next::Now(task);
        }
        Next::Nothing
    }

    /// Applies a message to the association. A task is queued only while
    /// the link is up; configuration is taken at any time.
    pub fn process_message(&mut self, details: AssociationMsgDetails, is_connected: bool, now: u64) -> (r:
        Result<(), TaskError>)
        ensures
            message_applied(*old(self), *final(self), details, is_connected, now, r),
    {
        match details {
            AssociationMsgDetails::QueueTask(t) => {
                if !is_connected {
                    return Err(TaskError::NoConnection);
                }
                self.queue.push(t);
            },
            AssociationMsgDetails::AddPoll(request, interval) => {
                let due: u64 = if now > u64::MAX - interval {
                    u64::MAX
                } else {
                    now + interval
                };
                let id: u64 = self.next_poll_id;
                self.polls.push(Poll { id, interval, next_due: due, request });
                self.next_poll_id = if id == u64::MAX {
                    0
                } else {
                    id + 1
                };
            },
            AssociationMsgDetails::SetUnsolicitedClasses(classes) => {
                self.config.enable_unsol_classes = classes;
                self.pending.enable_unsolicited = classes.any();
            },
            AssociationMsgDetails::SetIntegrityClasses(classes) => {
                self.config.integrity_classes = classes;
            },
        }
        Ok(())
    }

    /// Cancels what is queued. The tasks handed back are the ones to fail
    /// with the error of the run.
    pub fn reset(&mut self, err: RunError) -> (r: Vec<Task>)
        ensures
            r@ == old(self).queue@,
            final(self).queue@.len() == 0,
            final(self).address == old(self).address,
            final(self).seq == old(self).seq,
            final(self).pending == old(self).pending,
            final(self).config == old(self).config,
            final(self).polls == old(self).polls,
            final(self).next_poll_id == old(self).next_poll_id,
    {
        let mut out: Vec<Task> = Vec::new();
        std::mem::swap(&mut self.queue, &mut out);
        out
    }
}

/// Why an association could not be registered.
#[derive(Copy, Clone, Debug, PartialEq, Eq, Structural)]
pub enum AssociationError {
    DuplicateAddress(u16),
}

/// The first of the first `n` associations that has `address`.
pub open spec fn first_at(assocs: Seq<Association>, address: u16, n: int) -> Option<int>
    decreases n,
{
    if n <= 0 {
        None
    } else {
        match first_at(assocs, address, n - 1) {
            Some(i) => Some(i),
            None => if assocs[n - 1].address == address {
                Some(n - 1)
            } else {
                None
            },
        }
    }
}

/// The position of the association with `address`, if there is one.
pub open spec fn lookup(assocs: Seq<Association>, address: u16) -> Option<int> {
    first_at(assocs, address, assocs.len() as int)
}

/// The first of the first `n` associations that has a task to run at `now`.
pub open spec fn first_ready(assocs: Seq<Association>, now: u64, n: int) -> Option<int>
    decreases n,
{
    if n <= 0 {
        None
    } else {
        match first_ready(assocs, now, n - 1) {
            Some(i) => Some(i),
            None => if assocs[n - 1].decision(now) is Now {
                Some(n - 1)
            } else {
                None
            },
        }
    }
}

/// The earliest instant that any of the first `n` associations waits for.
pub open spec fn earliest_wait(assocs: Seq<Association>, now: u64, n: int) -> Option<u64>
    decreases n,
{
    if n <= 0 {
        None
    } else {
        let rest = earliest_wait(assocs, now, n - 1);
        match assocs[n - 1].decision(now) {
            Next::NotBefore(t) => match rest {
                Some(r) => if t < r {
                    Some(t)
                } else {
                    Some(r)
                },
                None => Some(t),
            },
            _ => rest,
        }
    }
}

/// What the associations together want at `now`: the task of the first
/// association, in order of registration, that has one to run; failing
/// that, to wait for the earliest instant any of them waits for.
pub open spec fn map_decision(assocs: Seq<Association>, now: u64) -> Next<AssociationTask> {
    match first_ready(assocs, now, assocs.len() as int) {
        Some(i) => Next::Now(
            AssociationTask { address: assocs[i].address, details: assocs[i].decision(now)->Now_0 },
        ),
        None => match earliest_wait(assocs, now, assocs.len() as int) {
            Some(t) => Next::NotBefore(t),
            None => Next::Nothing,
        },
    }
}

/// Once an address is found among the first `n`, it is found among more.
pub proof fn lemma_first_at_stable(assocs: Seq<Association>, address: u16, n: int, m: int)
    requires
        0 <= n <= m,
        first_at(assocs, address, n) is Some,
    ensures
        first_at(assocs, address, m) == first_at(assocs, address, n),
    decreases m - n,
{
    if n < m {
        lemma_first_at_stable(assocs, address, n, m - 1);
    }
}

/// What is found is in range and has the address; nothing before it has.
pub proof fn lemma_first_at_found(assocs: Seq<Association>, address: u16, n: int)
    requires
        0 <= n <= assocs.len(),
    ensures
        match first_at(assocs, address, n) {
            Some(i) => 0 <= i < n && assocs[i].address == address && (forall|j: int|
                0 <= j < i ==> (#[trigger] assocs[j]).address != address),
            None => forall|j: int| 0 <= j < n ==> (#[trigger] assocs[j]).address != address,
        },
    decreases n,
{
    if n > 0 {
        lemma_first_at_found(assocs, address, n - 1);
    }
}

/// Where an association is found depends on the addresses alone.
pub proof fn lemma_first_at_addresses(a: Seq<Association>, b: Seq<Association>, address: u16, n: int)
    requires
        0 <= n <= a.len(),
        a.len() == b.len(),
        forall|j: int| 0 <= j < a.len() ==> (#[trigger] a[j]).address == b[j].address,
    ensures
        first_at(a, address, n) == first_at(b, address, n),
    decreases n,
{
    if n > 0 {
        lemma_first_at_addresses(a, b, address, n - 1);
    }
}

/// A change that keeps every address keeps every association findable
/// where it was.
pub proof fn lemma_lookup_after_change(
    before: Seq<Association>,
    after: Seq<Association>,
    i: int,
    seq: Sequence,
    pending: Pending,
    polls: Seq<Poll>,
    address: u16,
)
    requires
        changed_at(before, after, i, seq, pending, polls),
    ensures
        lookup(after, address) == lookup(before, address),
{
    assert forall|j: int| 0 <= j < before.len() implies (#[trigger] before[j]).address
        == after[j].address by {
        if j != i {
            assert(after[j] == before[j]);
        }
    }
    lemma_first_at_addresses(before, after, address, before.len() as int);
}

/// Once an association is ready among the first `n`, it is the first ready
/// among more.
pub proof fn lemma_first_ready_stable(assocs: Seq<Association>, now: u64, n: int, m: int)
    requires
        0 <= n <= m,
        first_ready(assocs, now, n) is Some,
    ensures
        first_ready(assocs, now, m) == first_ready(assocs, now, n),
    decreases m - n,
{
    if n < m {
        lemma_first_ready_stable(assocs, now, n, m - 1);
    }
}

/// The associations of a session, in order of registration.
#[derive(Clone, Debug)]
pub struct AssociationMap {
    pub associations: Vec<Association>,
}

impl AssociationMap {
    /// No two associations share an address.
    pub open spec fn wf(self) -> bool {
        forall|i: int, j: int|
            0 <= i < j < self.associations@.len() ==> (#[trigger] self.associations@[i]).address != (
            #[trigger] self.associations@[j]).address
    }

    pub fn new() -> (r: AssociationMap)
        ensures
            r.associations@.len() == 0,
            r.wf(),
    {
        AssociationMap { associations: Vec::new() }
    }

    /// The position of the association with `address`.
    pub fn find(&self, address: u16) -> (r: Option<usize>)
        ensures
            match r {
                Some(i) => lookup(self.associations@, address) == Some(i as int) && i
                    < self.associations@.len() && self.associations@[i as int].address == address,
                None => lookup(self.associations@, address) is None,
            },
    {
        let mut i: usize = 0;
        while i < self.associations.len()
            invariant
                0 <= i <= self.associations.len(),
                first_at(self.associations@, address, i as int) is None,
            decreases self.associations.len() - i,
        {
            if self.associations[i].address == address {
                proof {
                    lemma_first_at_stable(
                        self.associations@,
                        address,
                        i + 1,
                        self.associations@.len() as int,
                    );
                }
                return Some(i);
            }
            i = i + 1;
        }
        None
    }

    /// Adds an association behind the others, unless its address is taken.
    pub fn register(&mut self, association: Association) -> (r: Result<(), AssociationError>)
        ensures
            match lookup(old(self).associations@, association.address) {
                Some(_) => r == Err::<(), AssociationError>(
                    AssociationError::DuplicateAddress(association.address),
                ) && final(self).associations@ == old(self).associations@,
                None => r == Ok::<(), AssociationError>(()) && final(self).associations@ == old(self).associations@.push(
                    association,
                ),
            },
            old(self).wf() ==> final(self).wf(),
    {
        match self.find(association.address) {
            Some(_) => Err(AssociationError::DuplicateAddress(association.address)),
            None => {
                proof {
                    lemma_first_at_found(
                        self.associations@,
                        association.address,
                        self.associations@.len() as int,
                    );
                }
                self.associations.push(association);
                Ok(())
            },
        }
    }

    /// Removes the association with `address`, if there is one.
    pub fn remove(&mut self, address: u16) -> (r: bool)
        ensures
            match lookup(old(self).associations@, address) {
                Some(i) => r && final(self).associations@ == old(self).associations@.remove(i),
                None => !r && final(self).associations@ == old(self).associations@,
            },
            old(self).wf() ==> final(self).wf(),
    {
        match self.find(address) {
            Some(i) => {
                let gone = self.associations.remove(i);
                true
            },
            None => false,
        }
    }

    /// Picks the next task of the session at `now`. A queued task that is
    /// picked leaves its association's queue; nothing else changes.
    pub fn next_task(&mut self, now: u64) -> (r: Next<AssociationTask>)
        ensures
            r == map_decision(old(self).associations@, now),
            after_pick(old(self).associations@, final(self).associations@, now),
    {
        let mut wait: Option<u64> = None;
        let mut i: usize = 0;
        while i < self.associations.len()
            invariant
                0 <= i <= self.associations.len(),
                self.associations@.len() == old(self).associations@.len(),
                first_ready(old(self).associations@, now, i as int) is None,
                wait == earliest_wait(old(self).associations@, now, i as int),
                forall|j: int|
                    i <= j < self.associations@.len() ==> self.associations@[j] == old(self).associations@[j],
                forall|j: int|
                    0 <= j < i ==> {
                        let before = #[trigger] old(self).associations@[j];
                        let after = self.associations@[j];
                        &&& after.address == before.address
                        &&& after.seq == before.seq
                        &&& after.pending == before.pending
                        &&& after.config == before.config
                        &&& after.polls == before.polls
                        &&& after.next_poll_id == before.next_poll_id
                        &&& after.queue@ == before.queue@
                    },
            decreases self.associations.len() - i,
        {
            let ghost start = old(self).associations@;
            let address: u16 = self.associations[i].address;
            let next = self.associations[i].get_next_task(now);
            match next {
                Next::Now(task) => {
                    proof {
                        assert(first_ready(start, now, i + 1) == Some(i as int));
                        lemma_first_ready_stable(start, now, i + 1, start.len() as int);
                    }
                    return Next::Now(AssociationTask { address, details: task });
                },
                Next::NotBefore(t) => {
                    wait = match wait {
                        Some(r) => if t < r {
                            Some(t)
                        } else {
                            Some(r)
                        },
                        None => Some(t),
                    };
                },
                Next::Nothing => {},
            }
            proof {
                assert(!start[i as int].takes_queued(now));
            }
            i = i + 1;
        }
        match wait {
            Some(t) => Next::NotBefore(t),
            None => Next::Nothing,
        }
    }

    /// Cancels what is queued in every association. What is handed back
    /// lists, for each association in order, its address and the tasks that
    /// were queued for it: they are the ones to fail with the run's error.
    pub fn reset(&mut self, err: RunError) -> (r: Vec<(u16, Vec<Task>)>)
        ensures
            after_reset(old(self).associations@, final(self).associations@, r@),
    {
        let mut out: Vec<(u16, Vec<Task>)> = Vec::new();
        let mut i: usize = 0;
        while i < self.associations.len()
            invariant
                0 <= i <= self.associations.len(),
                self.associations@.len() == old(self).associations@.len(),
                out@.len() == i,
                forall|j: int|
                    i <= j < self.associations@.len() ==> self.associations@[j] == old(self).associations@[j],
                forall|j: int|
                    0 <= j < i ==> {
                        let before = #[trigger] old(self).associations@[j];
                        let after = self.associations@[j];
                        &&& after.address == before.address
                        &&& after.seq == before.seq
                        &&& after.pending == before.pending
                        &&& after.config == before.config
                        &&& after.polls == before.polls
                        &&& after.next_poll_id == before.next_poll_id
                        &&& after.queue@.len() == 0
                        &&& out@[j].0 == before.address
                        &&& out@[j].1@ == before.queue@
                    },
            decreases self.associations.len() - i,
        {
            let address: u16 = self.associations[i].address;
            let tasks = self.associations[i].reset(err);
            out.push((address, tasks));
            i = i + 1;
        }
        out
    }
}

/// The associations after a change to the one at `i`, which now has the
/// given sequence number, pending flags and polls; every other association
/// and every other field is as before.
pub open spec fn changed_at(
    before: Seq<Association>,
    after: Seq<Association>,
    i: int,
    seq: Sequence,
    pending: Pending,
    polls: Seq<Poll>,
) -> bool {
    &&& after.len() == before.len()
    &&& 0 <= i < before.len()
    &&& forall|j: int| 0 <= j < before.len() && j != i ==> #[trigger] after[j] == before[j]
    &&& after[i].address == before[i].address
    &&& after[i].config == before[i].config
    &&& after[i].queue == before[i].queue
    &&& after[i].next_poll_id == before[i].next_poll_id
    &&& after[i].seq == seq
    &&& after[i].pending == pending
    &&& after[i].polls@ == polls
}

/// The associations after the next task was picked at `now`: a queued task
/// that was picked has left its queue, and nothing else has changed.
pub open spec fn after_pick(before: Seq<Association>, after: Seq<Association>, now: u64) -> bool {
    &&& after.len() == before.len()
    &&& forall|j: int|
        0 <= j < before.len() ==> {
            let b = #[trigger] before[j];
            let a = after[j];
            &&& a.address == b.address
            &&& a.seq == b.seq
            &&& a.pending == b.pending
            &&& a.config == b.config
            &&& a.polls == b.polls
            &&& a.next_poll_id == b.next_poll_id
            &&& a.queue@ == if first_ready(before, now, before.len() as int) == Some(j)
                && b.takes_queued(now) {
                b.queue@.skip(1)
            } else {
                b.queue@
            }
        }
}

/// The associations after a reset that handed back `canceled`: every queue
/// is empty, what was in it is listed under its association's address, and
/// nothing else has changed.
pub open spec fn after_reset(
    before: Seq<Association>,
    after: Seq<Association>,
    canceled: Seq<(u16, Vec<Task>)>,
) -> bool {
    &&& after.len() == before.len()
    &&& canceled.len() == before.len()
    &&& forall|j: int|
        0 <= j < before.len() ==> {
            let b = #[trigger] before[j];
            let a = after[j];
            &&& a.address == b.address
            &&& a.seq == b.seq
            &&& a.pending == b.pending
            &&& a.config == b.config
            &&& a.polls == b.polls
            &&& a.next_poll_id == b.next_poll_id
            &&& a.queue@.len() == 0
            &&& canceled[j].0 == b.address
            &&& canceled[j].1@ == b.queue@
        }
}

/// How a message changes an association, and what is answered.
pub open spec fn message_applied(
    before: Association,
    after: Association,
    details: AssociationMsgDetails,
    is_connected: bool,
    now: u64,
    r: Result<(), TaskError>,
) -> bool {
    &&& r is Err <==> (details is QueueTask && !is_connected)
    &&& r is Err ==> r == Err::<(), TaskError>(TaskError::NoConnection) && after == before
    &&& after.address == before.address
    &&& after.seq == before.seq
    &&& after.next_poll_id == if details is AddPoll {
        if before.next_poll_id == u64::MAX {
            0
        } else {
            (before.next_poll_id + 1) as u64
        }
    } else {
        before.next_poll_id
    }
    &&& match details {
        AssociationMsgDetails::QueueTask(t) => is_connected ==> after.queue@ == before.queue@.push(t)
            && after.polls == before.polls && after.pending == before.pending && after.config
            == before.config,
        AssociationMsgDetails::AddPoll(request, interval) => after.polls@ == before.polls@.push(
            Poll {
                id: before.next_poll_id,
                interval,
                next_due: if now + interval > u64::MAX {
                    u64::MAX
                } else {
                    (now + interval) as u64
                },
                request,
            },
        ) && after.queue == before.queue && after.pending == before.pending && after.config
            == before.config,
        AssociationMsgDetails::SetUnsolicitedClasses(classes) => after.config == (Configuration {
            enable_unsol_classes: classes,
            ..before.config
        }) && after.pending == (Pending {
            enable_unsolicited: classes.class1 || classes.class2 || classes.class3,
            ..before.pending
        }) && after.queue == before.queue && after.polls == before.polls,
        AssociationMsgDetails::SetIntegrityClasses(classes) => after.config == (Configuration {
            integrity_classes: classes,
            ..before.config
        }) && after.pending == before.pending && after.queue == before.queue && after.polls
            == before.polls,
    }
}

/// The housekeeping task depends on the pending flags and the configuration
/// alone: two associations that agree on both are asked for the same task.
pub proof fn lemma_housekeeping_deterministic(a: Association, b: Association)
    requires
        a.pending == b.pending,
        a.config == b.config,
    ensures
        Association::auto_task(a.pending, a.config) == Association::auto_task(b.pending, b.config),
{
}

/// Housekeeping goes by fixed priority: a pending restart bit is cleared
/// first; unsolicited reporting is disabled before the integrity poll; the
/// integrity poll comes before unsolicited reporting is enabled; and with no
/// flag raised there is no housekeeping task.
pub proof fn lemma_housekeeping_priority(pending: Pending, config: Configuration)
    ensures
        pending.clear_restart ==> Association::auto_task(pending, config) == Some(
            Task::NonRead(NonReadTask::Auto(AutoTask::ClearRestartBit)),
        ),
        !pending.clear_restart && pending.disable_unsolicited ==> Association::auto_task(
            pending,
            config,
        ) == Some(
            Task::NonRead(NonReadTask::Auto(AutoTask::DisableUnsolicited(config.disable_unsol_classes))),
        ),
        !pending.clear_restart && !pending.disable_unsolicited && pending.integrity_poll
            ==> Association::auto_task(pending, config) == Some(
            Task::Read(
                ReadTask {
                    request: ReadRequest::ClassScan(config.integrity_classes),
                    origin: ReadOrigin::Integrity,
                },
            ),
        ),
        !pending.clear_restart && !pending.disable_unsolicited && !pending.integrity_poll
            && pending.enable_unsolicited ==> Association::auto_task(pending, config) == Some(
            Task::NonRead(NonReadTask::Auto(AutoTask::EnableUnsolicited(config.enable_unsol_classes))),
        ),
        Association::auto_task(pending, config) is None <==> !pending.clear_restart
            && !pending.disable_unsolicited && !pending.integrity_poll && !pending.enable_unsolicited,
{
}

/// A housekeeping flag that is raised gives the association a task to run
/// at once, whatever its polls and its queue hold.
pub proof fn lemma_housekeeping_first(a: Association, now: u64)
    requires
        Association::auto_task(a.pending, a.config) is Some,
    ensures
        a.decision(now) == Next::Now(Association::auto_task(a.pending, a.config)->0),
{
}

} // verus!
