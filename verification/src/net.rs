//! Watching file descriptors with the host's kernel event queue (`kqueue`).
//!
//! The library decides which event-queue changes to submit and what to do
//! when a submission fails; submitting them and waiting for events is the
//! caller's part. Events and flags carry their Darwin values.
use vstd::prelude::*;
use crate::ptr::{TaggedPtr, TagData, tag_mask_of, tag_bits_of, ptr_mask_of, packed_word};
use vstd::std_specs::bits::{u64_trailing_zeros, axiom_u64_trailing_zeros};

verus! {

/// Event filter: the descriptor is readable.
pub const EVFILT_READ: i16 = -1;

/// Event filter: the descriptor is writable.
pub const EVFILT_WRITE: i16 = -2;

/// Event flag: add the event to the queue.
pub const EV_ADD: u16 = 0x0001;

/// Event flag: delete the event from the queue.
pub const EV_DELETE: u16 = 0x0002;

/// Event flag: enable the event.
pub const EV_ENABLE: u16 = 0x0004;

/// Event flag: disable the event without removing it.
pub const EV_DISABLE: u16 = 0x0008;

/// Filter flag: use `data` as the low-water mark.
pub const NOTE_LOWAT: u32 = 0x0000_0001;

/// Poll event: data to read.
pub const POLLIN: i16 = 0x0001;

/// Poll event: writing is possible.
pub const POLLOUT: i16 = 0x0004;

/// Poll event: an error occurred.
pub const POLLERR: i16 = 0x0008;

/// Poll event: the peer hung up.
pub const POLLHUP: i16 = 0x0010;

/// Error number: out of memory.
pub const ENOMEM: i32 = 12;

/// A change submitted to, or an event reported by, the kernel event queue.
#[derive(Copy, Clone, Debug, PartialEq, Eq, Structural)]
pub struct KEvent {
    /// The watched identifier (a file descriptor).
    pub ident: usize,
    /// The event filter.
    pub filter: i16,
    /// Action flags.
    pub flags: u16,
    /// Filter-specific flags.
    pub fflags: u32,
    /// Filter-specific data.
    pub data: isize,
    /// The user's word, handed back with each event.
    pub udata: usize,
}

/// A descriptor and the events that it is polled for.
#[derive(Copy, Clone, Debug, PartialEq, Eq, Structural)]
pub struct PollFd {
    /// The descriptor, `-1` for a free slot.
    pub fd: i32,
    /// The events asked for.
    pub events: i16,
    /// The events returned.
    pub revents: i16,
}

/// The kernel event queue and the poll records of its users.
pub struct EventWatch {
    fd: i32,
    pollfd: Vec<PollFd>,
}

/// What to do after a batch of changes was submitted to the queue.
#[derive(Copy, Clone, Debug, PartialEq, Eq, Structural)]
pub enum ApplyAction {
    /// The changes were accepted.
    Applied,
    /// The queue ran out of memory: close the queue descriptor; the queue
    /// is given up.
    CloseQueue(i32),
    /// Another error: report it.
    ReportError,
}

/// The read-filter change for `ident` with action flags `flags`.
pub open spec fn read_change(ident: usize, flags: u16, fflags: u32, data: isize, udata: usize) -> KEvent {
    KEvent { ident, filter: EVFILT_READ, flags, fflags, data, udata }
}

/// The write-filter change for `ident` with action flags `flags`.
pub open spec fn write_change(ident: usize, flags: u16, fflags: u32, data: isize, udata: usize) -> KEvent {
    KEvent { ident, filter: EVFILT_WRITE, flags, fflags, data, udata }
}

/// The read-filter flags that [`EventWatch::add`] submits for a user that
/// is new or whose events change: `EV_ADD | EV_ENABLE` (`0x5`) when the
/// events ask for input, otherwise also `EV_DISABLE` (`0xd`).
pub open spec fn read_flags(events: i16) -> u16 {
    if events & POLLIN != 0 {
        0x5
    } else {
        0xd
    }
}

/// The write-filter flags that [`EventWatch::add`] submits for a new user:
/// `EV_ADD | EV_ENABLE` (`0x5`) when the events ask for output, otherwise
/// `EV_ADD | EV_DISABLE` (`0x9`).
pub open spec fn new_write_flags(events: i16) -> u16 {
    if events & POLLOUT != 0 {
        0x5
    } else {
        0x9
    }
}

/// The write-filter flags that [`EventWatch::add`] submits for a user whose
/// events change: `EV_ENABLE` (`0x4`) when the events ask for output,
/// otherwise `EV_DISABLE` (`0x8`).
pub open spec fn changed_write_flags(events: i16) -> u16 {
    if events & POLLOUT != 0 {
        0x4
    } else {
        0x8
    }
}

/// The changes that [`EventWatch::add`] submits for descriptor `fd` of user
/// `user` and the poll events `events` (`-1`: stop watching). Stopping
/// submits `EV_ADD | EV_ENABLE | EV_DELETE` (`0x7`) for the read filter and
/// `EV_DELETE` (`0x2`) for the write filter.
pub open spec fn add_changes(queue: i32, polls: Seq<PollFd>, fd: i32, user: usize, events: i16) -> Seq<
    KEvent,
> {
    let id = fd as usize;
    if queue == -1 {
        Seq::empty()
    } else if events == -1 {
        if polls[user as int].fd == -1 {
            Seq::empty()
        } else {
            seq![
                read_change(id, 0x7, NOTE_LOWAT, 1, user),
                write_change(id, 0x2, NOTE_LOWAT, 1, user),
            ]
        }
    } else if polls[user as int].fd == -1 {
        seq![
            read_change(id, read_flags(events), NOTE_LOWAT, 1, user),
            write_change(id, new_write_flags(events), NOTE_LOWAT, 1, user),
        ]
    } else if polls[user as int].events == events {
        Seq::empty()
    } else {
        seq![
            read_change(id, read_flags(events), NOTE_LOWAT, 1, user),
            write_change(id, changed_write_flags(events), NOTE_LOWAT, 1, user),
        ]
    }
}

/// The changes that [`EventWatch::remove`] submits for descriptor `fd` of
/// user `user`.
pub open spec fn remove_changes(queue: i32, polls: Seq<PollFd>, fd: i32, user: usize) -> Seq<KEvent> {
    if queue == -1 || polls[user as int].fd == -1 {
        Seq::empty()
    } else {
        seq![
            read_change(fd as usize, EV_DELETE, 0, 0, 0),
            write_change(fd as usize, EV_DELETE, 0, 0, 0),
        ]
    }
}

impl EventWatch {
    /// The queue descriptor, `-1` when there is no queue.
    pub closed spec fn queue(&self) -> i32 {
        self.fd
    }

    /// The poll records of the users.
    pub closed spec fn polls(&self) -> Seq<PollFd> {
        self.pollfd@
    }

    /// A watch without a queue.
    pub fn invalid() -> (w: Self)
        ensures
            w.queue() == -1,
            w.polls().len() == 0,
    {
        EventWatch { fd: -1, pollfd: Vec::new() }
    }

    /// A watch over the queue `fd` that the host has just created.
    pub fn with_queue(fd: i32) -> (w: Self)
        ensures
            w.queue() == fd,
            w.polls().len() == 0,
    {
        EventWatch { fd, pollfd: Vec::new() }
    }

    /// Whether the watch has a queue.
    pub fn is_valid(&self) -> (b: bool)
        ensures
            b == (self.queue() != -1),
    {
        self.fd != -1
    }

    /// The queue descriptor, `-1` when there is no queue.
    pub fn queue_fd(&self) -> (fd: i32)
        ensures
            fd == self.queue(),
    {
        self.fd
    }

    /// Takes the queue `fd` that the host has just created.
    pub fn init(&mut self, fd: i32)
        ensures
            final(self).queue() == fd,
            final(self).polls() == old(self).polls(),
    {
        self.fd = fd;
    }

    /// The change that starts watching a system object for reads: `fd` is
    /// the object's descriptor; the event carries the object's packed
    /// pointer.
    pub fn reads_watch(&self, watcher: SystemWatcher, fd: i32) -> (ev: KEvent)
        ensures
            ev == read_change(
                fd as usize,
                (EV_ADD | EV_ENABLE) as u16,
                NOTE_LOWAT,
                1,
                packed_word(watcher.address(), watcher.tag_spec()),
            ),
    {
        KEvent {
            ident: fd as usize,
            filter: EVFILT_READ,
            flags: EV_ADD | EV_ENABLE,
            fflags: NOTE_LOWAT,
            data: 1,
            udata: watcher.packed().raw(),
        }
    }

    /// The change that stops watching a system object for reads.
    pub fn reads_cancel(&self, watcher: SystemWatcher, fd: i32) -> (ev: KEvent)
        ensures
            ev == read_change(fd as usize, EV_DELETE, NOTE_LOWAT, 0, 0),
    {
        KEvent {
            ident: fd as usize,
            filter: EVFILT_READ,
            flags: EV_DELETE,
            fflags: NOTE_LOWAT,
            data: 0,
            udata: 0,
        }
    }

    /// The changes to submit so that descriptor `fd` of user `user` is
    /// watched for the poll events `events` (`-1`: no longer watched). None
    /// without a queue, when the user is already removed, or when its events
    /// are unchanged.
    pub fn add(&self, fd: i32, user: usize, events: i16) -> (changes: Vec<KEvent>)
        requires
            self.queue() != -1 ==> user < self.polls().len(),
        ensures
            changes@ == add_changes(self.queue(), self.polls(), fd, user, events),
    {
        if self.fd == -1 {
            return Vec::new();
        }
        let mut ev0 = KEvent {
            ident: fd as usize,
            filter: EVFILT_READ,
            flags: EV_ADD | EV_ENABLE,
            fflags: NOTE_LOWAT,
            data: 1,
            udata: user,
        };
        let mut ev1 = KEvent {
            ident: fd as usize,
            filter: EVFILT_WRITE,
            flags: 0,
            fflags: NOTE_LOWAT,
            data: 1,
            udata: user,
        };
        let poll_in = if events & POLLIN != 0 {
            EV_ENABLE
        } else {
            EV_DISABLE
        };
        let poll_out = if events & POLLOUT != 0 {
            EV_ENABLE
        } else {
            EV_DISABLE
        };
        if events == -1 {
            // Stop waiting on this fd completely
            if self.pollfd[user].fd == -1 {
                // Already removed
                return Vec::new();
            }
            ev0.flags = ev0.flags | EV_DELETE;
            ev1.flags = ev1.flags | EV_DELETE;
        } else if self.pollfd[user].fd == -1 {
            ev0.flags = ev0.flags | (EV_ADD | poll_in);
            ev1.flags = ev1.flags | (EV_ADD | poll_out);
        } else {
            if self.pollfd[user].events == events {
                // Nothing to do
                return Vec::new();
            }
            ev0.flags = ev0.flags | poll_in;
            ev1.flags = ev1.flags | poll_out;
        }
        proof {
            assert((1u16 | 4u16) | 2u16 == 7u16) by (bit_vector);
            assert(0u16 | 2u16 == 2u16) by (bit_vector);
            assert((1u16 | 4u16) | (1u16 | 4u16) == 5u16) by (bit_vector);
            assert((1u16 | 4u16) | (1u16 | 8u16) == 13u16) by (bit_vector);
            assert(0u16 | (1u16 | 4u16) == 5u16) by (bit_vector);
            assert(0u16 | (1u16 | 8u16) == 9u16) by (bit_vector);
            assert((1u16 | 4u16) | 4u16 == 5u16) by (bit_vector);
            assert((1u16 | 4u16) | 8u16 == 13u16) by (bit_vector);
            assert(0u16 | 4u16 == 4u16) by (bit_vector);
            assert(0u16 | 8u16 == 8u16) by (bit_vector);
        }
        let mut changes = Vec::new();
        changes.push(ev0);
        changes.push(ev1);
        proof {
            assert(changes@ =~= add_changes(self.fd, self.pollfd@, fd, user, events));
        }
        changes
    }

    /// Decides what follows a submission of changes: `result` is what the
    /// queue call returned, `errno` the error number it left. When the queue
    /// runs out of memory it is given up.
    pub fn apply(&mut self, result: i32, errno: i32) -> (action: ApplyAction)
        ensures
            result == -1 && errno == ENOMEM ==> action == ApplyAction::CloseQueue(
                old(self).queue(),
            ) && final(self).queue() == -1,
            result == -1 && errno != ENOMEM ==> action == ApplyAction::ReportError
                && final(self).queue() == old(self).queue(),
            result != -1 ==> action == ApplyAction::Applied && final(self).queue() == old(self).queue(),
            final(self).polls() == old(self).polls(),
    {
        if result == -1 {
            if errno == ENOMEM {
                // not enough memory, give up on kqueue
                let fd = self.fd;
                self.fd = -1;
                ApplyAction::CloseQueue(fd)
            } else {
                ApplyAction::ReportError
            }
        } else {
            ApplyAction::Applied
        }
    }

    /// The changes to submit so that descriptor `fd` of user `user` is no
    /// longer watched; none without a queue or for a removed user.
    pub fn remove(&self, fd: i32, user: usize) -> (changes: Vec<KEvent>)
        requires
            self.queue() != -1 ==> user < self.polls().len(),
        ensures
            changes@ == remove_changes(self.queue(), self.polls(), fd, user),
    {
        if self.fd == -1 || self.pollfd[user].fd == -1 {
            return Vec::new();
        }
        let mut changes = Vec::new();
        changes.push(
            KEvent {
                ident: fd as usize,
                filter: EVFILT_READ,
                flags: EV_DELETE,
                fflags: 0,
                data: 0,
                udata: 0,
            },
        );
        changes.push(
            KEvent {
                ident: fd as usize,
                filter: EVFILT_WRITE,
                flags: EV_DELETE,
                fflags: 0,
                data: 0,
                udata: 0,
            },
        );
        proof {
            assert(changes@ =~= remove_changes(self.fd, self.pollfd@, fd, user));
        }
        changes
    }
}

/// Once the queue is given up (or was never there), no change is submitted
/// for any user.
pub proof fn lemma_no_queue_no_changes(polls: Seq<PollFd>, fd: i32, user: usize, events: i16)
    ensures
        add_changes(-1i32, polls, fd, user, events).len() == 0,
        remove_changes(-1i32, polls, fd, user).len() == 0,
{
}

/// Asking again for the events that a user is already watched for submits
/// nothing.
pub proof fn lemma_unchanged_events_no_changes(queue: i32, polls: Seq<PollFd>, fd: i32, user: usize)
    requires
        user < polls.len(),
        polls[user as int].fd != -1,
        polls[user as int].events != -1,
    ensures
        add_changes(queue, polls, fd, user, polls[user as int].events).len() == 0,
{
}

/// A system object that the queue watches, by its address.
#[derive(Copy, Clone, Debug, PartialEq, Eq, Structural)]
pub enum SystemWatcher {
    /// A thread.
    Thread(usize),
    /// A process.
    Process(usize),
    /// A file descriptor object.
    Fd(usize),
}

/// A `u8` has no tag bits: its alignment is 1.
pub proof fn lemma_u8_has_no_tag_bits()
    ensures
        tag_bits_of::<u8>() == 0,
        tag_mask_of::<u8>() == 0,
        ptr_mask_of::<u8>() == !0usize,
{
    broadcast use vstd::layout::layout_of_primitives, vstd::layout::group_align_properties;

    let a = vstd::layout::align_of::<u8>();
    assert(vstd::layout::size_of::<u8>() == 1);
    assert(a == 1) by (nonlinear_arith)
        requires
            1nat % a == 0,
            a > 0,
    ;
    axiom_u64_trailing_zeros(1);
    let t = u64_trailing_zeros(1u64);
    if t > 0 {
        assert((1u64 >> 0u64) & 1u64 == 1u64) by (bit_vector);
        assert(false);
    }
    assert((1usize << 0u32) - 1 == 0) by (bit_vector);
}

impl SystemWatcher {
    /// The watched object's address.
    pub open spec fn address(self) -> usize {
        match self {
            SystemWatcher::Thread(p) => p,
            SystemWatcher::Process(p) => p,
            SystemWatcher::Fd(p) => p,
        }
    }

    /// The tag of each kind of object.
    pub open spec fn tag_spec(self) -> u8 {
        match self {
            SystemWatcher::Thread(_) => 0,
            SystemWatcher::Process(_) => 1,
            SystemWatcher::Fd(_) => 2,
        }
    }

    /// Reads a watcher back from the word that an event carries: tag `0` is
    /// a thread, tags `1` and `2` a file descriptor object. A `u8` tag has
    /// no room in the word, so the tag read is always `0`.
    pub fn unpack(ptr: usize) -> (w: SystemWatcher)
        ensures
            w == SystemWatcher::Thread(ptr),
    {
        let tagged = TaggedPtr::<(), u8>::unpack(ptr);
        proof {
            lemma_u8_has_no_tag_bits();
            assert(ptr & 0usize == 0usize) by (bit_vector);
            assert(ptr & !0usize == ptr) by (bit_vector);
        }
        let data = tagged.data();
        if data == 0u8 {
            SystemWatcher::Thread(tagged.ptr())
        } else if data == 1u8 {
            SystemWatcher::Fd(tagged.ptr())
        } else {
            SystemWatcher::Fd(tagged.ptr())
        }
    }

    /// The tag of the watcher's kind: thread `0`, process `1`, file
    /// descriptor object `2`.
    pub fn tag(&self) -> (t: u8)
        ensures
            t == self.tag_spec(),
    {
        match &self {
            SystemWatcher::Thread(_) => 0,
            SystemWatcher::Process(_) => 1,
            SystemWatcher::Fd(_) => 2,
        }
    }

    /// The watched object's address.
    pub fn into_ptr(self) -> (p: usize)
        ensures
            p == self.address(),
    {
        match self {
            SystemWatcher::Thread(t) => t,
            SystemWatcher::Process(t) => t,
            SystemWatcher::Fd(fd) => fd,
        }
    }

    /// The address packed with the tag.
    pub fn packed(self) -> (p: TaggedPtr<(), u8>)
        ensures
            p@ == packed_word(self.address(), self.tag_spec()),
    {
        TaggedPtr::pack(self.into_ptr(), self.tag())
    }
}

/// Packing a watcher and reading it back gives a thread watcher at the same
/// address, whatever the kind: the tag does not survive (a `u8` has no tag
/// bits), so only thread watchers come back as they were.
pub proof fn lemma_watcher_round_trip(w: SystemWatcher)
    ensures
        packed_word(w.address(), w.tag_spec()) == w.address(),
{
    lemma_u8_has_no_tag_bits();
    let a = w.address();
    let b = w.tag_spec().word_of();
    assert(a | (b & 0usize) == a) by (bit_vector);
}

/// The number of events that one wait can report.
pub const EVENT_BUFFER: usize = 128;

/// The events reported by one wait on the queue, read one by one.
pub struct EventIter {
    events: Vec<KEvent>,
    count: i32,
    i: i32,
}

/// The all-zero event.
pub open spec fn zero_event() -> KEvent {
    KEvent { ident: 0, filter: 0, flags: 0, fflags: 0, data: 0, udata: 0 }
}

impl EventIter {
    /// The buffered events.
    pub closed spec fn buffer(&self) -> Seq<KEvent> {
        self.events@
    }

    /// The number of events reported (`-1` for a failed wait).
    pub closed spec fn count(&self) -> i32 {
        self.count
    }

    /// The position of the next event.
    pub closed spec fn position(&self) -> i32 {
        self.i
    }

    /// The iterator's invariant.
    pub open spec fn wf(&self) -> bool {
        &&& self.buffer().len() == EVENT_BUFFER
        &&& -1 <= self.count() <= EVENT_BUFFER
        &&& 0 <= self.position() <= EVENT_BUFFER
        &&& self.count() >= 0 ==> self.position() <= self.count()
    }

    /// No events.
    pub fn empty() -> (it: EventIter)
        ensures
            it.wf(),
            it.count() == 0,
            it.position() == 0,
            it.buffer() == Seq::new(EVENT_BUFFER as nat, |k: int| zero_event()),
    {
        let events = vec![KEvent { ident: 0, filter: 0, flags: 0, fflags: 0, data: 0, udata: 0 }; EVENT_BUFFER];
        proof {
            assert(events@ =~= Seq::new(EVENT_BUFFER as nat, |k: int| zero_event()));
        }
        EventIter { events, count: 0, i: 0 }
    }

    /// The result of one wait: the filled buffer and what the wait returned.
    pub fn from_events(events: Vec<KEvent>, count: i32) -> (it: EventIter)
        requires
            events@.len() == EVENT_BUFFER,
            -1 <= count <= EVENT_BUFFER,
        ensures
            it.wf(),
            it.buffer() == events@,
            it.count() == count,
            it.position() == 0,
    {
        EventIter { events, count, i: 0 }
    }

    /// Starts reading from the first event again.
    pub fn reset(&mut self)
        requires
            old(self).wf(),
        ensures
            final(self).wf(),
            final(self).position() == 0,
            final(self).count() == old(self).count(),
            final(self).buffer() == old(self).buffer(),
    {
        self.i = 0
    }

    /// Whether [`EventIter::next`] may be called: always after a successful
    /// wait; after a failed one, until the end of the buffer.
    pub fn readable(&self) -> (b: bool)
        requires
            self.wf(),
        ensures
            b == (self.count() >= 0 || self.position() < EVENT_BUFFER),
    {
        self.count >= 0 || self.i < EVENT_BUFFER as i32
    }

    /// The next event, if any. After a failed wait (`count == -1`) the
    /// buffer is read to its end.
    pub fn next(&mut self) -> (ev: Option<KEvent>)
        requires
            old(self).wf(),
            old(self).count() >= 0 || old(self).position() < EVENT_BUFFER,
        ensures
            final(self).wf(),
            final(self).count() == old(self).count(),
            final(self).buffer() == old(self).buffer(),
            old(self).position() == old(self).count() ==> ev is None && final(self).position()
                == old(self).position(),
            old(self).position() != old(self).count() ==> ev == Some(
                old(self).buffer()[old(self).position() as int],
            ) && final(self).position() == old(self).position() + 1,
    {
        if self.i == self.count {
            None
        } else {
            let event = self.events[self.i as usize];
            self.i = self.i + 1;
            Some(event)
        }
    }
}

} // verus!
