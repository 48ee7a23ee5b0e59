use wineserver::net::{
    ApplyAction, EventIter, EventWatch, KEvent, SystemWatcher, ENOMEM, EVENT_BUFFER, EVFILT_READ,
    EVFILT_WRITE, EV_ADD, EV_DELETE, EV_DISABLE, EV_ENABLE, NOTE_LOWAT, POLLIN, POLLOUT,
};

fn event(ident: usize, filter: i16, flags: u16, fflags: u32, data: isize, udata: usize) -> KEvent {
    KEvent { ident, filter, flags, fflags, data, udata }
}

#[test]
fn invalid_watch() {
    let w = EventWatch::invalid();
    assert!(!w.is_valid());
    assert!(w.add(3, 0, POLLIN).is_empty());
    assert!(w.remove(3, 0).is_empty());
}

#[test]
fn init_makes_a_watch_valid() {
    let mut w = EventWatch::invalid();
    w.init(7);
    assert!(w.is_valid());
    assert!(EventWatch::with_queue(4).is_valid());
}

#[test]
fn darwin_flag_values() {
    assert_eq!(EV_ADD | EV_ENABLE, 5);
    assert_eq!(EV_ADD | EV_ENABLE | EV_DELETE, 7);
    assert_eq!(EV_ADD | EV_ENABLE | EV_DISABLE, 13);
    assert_eq!((EVFILT_READ, EVFILT_WRITE), (-1, -2));
    assert_eq!((POLLIN, POLLOUT), (1, 4));
    assert_eq!(ENOMEM, 12);
}

#[test]
fn apply_gives_up_the_queue_when_out_of_memory() {
    let mut w = EventWatch::with_queue(9);
    assert_eq!(w.apply(0, 0), ApplyAction::Applied);
    assert!(w.is_valid());
    assert_eq!(w.apply(-1, 9), ApplyAction::ReportError);
    assert!(w.is_valid());
    assert_eq!(w.apply(-1, ENOMEM), ApplyAction::CloseQueue(9));
    assert!(!w.is_valid());
}

#[test]
fn reads_watch_and_cancel() {
    let w = EventWatch::with_queue(9);
    let thread = SystemWatcher::Thread(0x1000);
    assert_eq!(
        w.reads_watch(thread, 12),
        event(12, EVFILT_READ, EV_ADD | EV_ENABLE, NOTE_LOWAT, 1, 0x1000)
    );
    assert_eq!(w.reads_cancel(thread, 12), event(12, EVFILT_READ, EV_DELETE, NOTE_LOWAT, 0, 0));
    // The kind's tag has no room next to the address.
    let fd = SystemWatcher::Fd(0x2000);
    assert_eq!(w.reads_watch(fd, 3).udata, 0x2000);
}

#[test]
fn watcher_tags_and_addresses() {
    assert_eq!(SystemWatcher::Thread(8).tag(), 0);
    assert_eq!(SystemWatcher::Process(8).tag(), 1);
    assert_eq!(SystemWatcher::Fd(8).tag(), 2);
    assert_eq!(SystemWatcher::Process(0x4000).into_ptr(), 0x4000);
    assert_eq!(SystemWatcher::Fd(0x4000).packed().raw(), 0x4000);
    assert_eq!(SystemWatcher::Fd(0x4000).packed().data(), 0);
}

#[test]
fn unpack_reads_every_word_as_a_thread() {
    assert_eq!(SystemWatcher::unpack(0x5000), SystemWatcher::Thread(0x5000));
    assert_eq!(SystemWatcher::unpack(0x5001), SystemWatcher::Thread(0x5001));
    let fd = SystemWatcher::Fd(0x6000);
    assert_eq!(SystemWatcher::unpack(fd.packed().raw()), SystemWatcher::Thread(0x6000));
    let thread = SystemWatcher::Thread(0x7000);
    assert_eq!(SystemWatcher::unpack(thread.packed().raw()), thread);
}

#[test]
fn event_iter_yields_the_reported_events() {
    let mut buffer = vec![event(0, 0, 0, 0, 0, 0); EVENT_BUFFER];
    buffer[0] = event(4, EVFILT_READ, 0, 0, 10, 0x1000);
    buffer[1] = event(5, EVFILT_WRITE, 0, 0, 20, 0x2000);
    let mut it = EventIter::from_events(buffer, 2);
    assert_eq!(it.next(), Some(event(4, EVFILT_READ, 0, 0, 10, 0x1000)));
    assert_eq!(it.next(), Some(event(5, EVFILT_WRITE, 0, 0, 20, 0x2000)));
    assert_eq!(it.next(), None);
    assert_eq!(it.next(), None);
    it.reset();
    assert_eq!(it.next().map(|e| e.ident), Some(4));
}

#[test]
fn empty_event_iter() {
    let mut it = EventIter::empty();
    assert_eq!(it.next(), None);
}

#[test]
fn failed_wait_reads_the_buffer_through() {
    let mut it = EventIter::from_events(vec![event(1, 0, 0, 0, 0, 0); EVENT_BUFFER], -1);
    for _ in 0..EVENT_BUFFER {
        assert_eq!(it.next(), Some(event(1, 0, 0, 0, 0, 0)));
    }
}

#[test]
fn readable_until_the_end_of_a_failed_wait() {
    let mut it = EventIter::from_events(vec![event(1, 0, 0, 0, 0, 0); EVENT_BUFFER], -1);
    for _ in 0..EVENT_BUFFER {
        assert!(it.readable());
        it.next();
    }
    assert!(!it.readable());
    let mut done = EventIter::empty();
    assert!(done.readable());
    assert_eq!(done.next(), None);
    assert!(done.readable());
}
