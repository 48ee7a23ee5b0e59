//! Windows processes hosted by the server.
use vstd::prelude::*;
use std::rc::Rc;
use crate::net::{POLLERR, POLLHUP, POLLIN};
use crate::thread::WindowsThread;

verus! {

/// A Windows process identifier.
#[derive(Copy, Clone, Debug)]
pub struct WindowsPid(pub u32);

/// What polling a process did.
#[derive(Copy, Clone, Debug, PartialEq, Eq, Structural)]
pub enum ProcessAction {
    /// The client hung up or failed: the process was killed; the flag is
    /// whether it was not already terminating.
    Kill(bool),
    /// The client sent data: a descriptor was received.
    ReceiveFd,
    /// Nothing to do.
    Nothing,
}

/// What polling a process with the returned events `revents` does: an error
/// or hang-up kills it (telling whether it was not already terminating),
/// otherwise incoming data is a descriptor to receive.
pub open spec fn poll_action(revents: i16, terminating: bool) -> ProcessAction {
    if revents & (POLLERR | POLLHUP) != 0 {
        ProcessAction::Kill(!terminating)
    } else if revents & POLLIN != 0 {
        ProcessAction::ReceiveFd
    } else {
        ProcessAction::Nothing
    }
}

/// A Windows process and the client connection that hosts it.
pub struct WindowsProcess {
    /// Descriptor of the client connection.
    fd: i32,
    pid: WindowsPid,
    parent: Option<Rc<WindowsProcess>>,
    threads: Vec<Rc<WindowsThread>>,
    is_terminating: bool,
    revents: i16,
}

impl WindowsProcess {
    /// Descriptor of the client connection.
    pub closed spec fn client_fd(&self) -> i32 {
        self.fd
    }

    /// The process identifier.
    pub closed spec fn pid_spec(&self) -> u32 {
        self.pid.0
    }

    /// Whether the process has a parent.
    pub closed spec fn has_parent(&self) -> bool {
        self.parent is Some
    }

    /// The process's threads.
    pub closed spec fn thread_list(&self) -> Seq<Rc<WindowsThread>> {
        self.threads@
    }

    /// Whether the process is being terminated.
    pub closed spec fn terminating(&self) -> bool {
        self.is_terminating
    }

    /// The poll events returned for the client connection.
    pub closed spec fn returned_events(&self) -> i16 {
        self.revents
    }

    /// Clears the returned poll events.
    pub fn revents_reset(&mut self)
        ensures
            final(self).returned_events() == 0,
            final(self).client_fd() == old(self).client_fd(),
            final(self).pid_spec() == old(self).pid_spec(),
            final(self).thread_list() == old(self).thread_list(),
            final(self).terminating() == old(self).terminating(),
    {
        self.revents = 0;
    }

    /// Adds returned poll events.
    pub fn revents_add(&mut self, event: i16)
        ensures
            final(self).returned_events() == old(self).returned_events() | event,
            final(self).client_fd() == old(self).client_fd(),
            final(self).pid_spec() == old(self).pid_spec(),
            final(self).thread_list() == old(self).thread_list(),
            final(self).terminating() == old(self).terminating(),
    {
        self.revents = self.revents | event;
    }

    /// Descriptor of the client connection.
    pub fn as_fd(&self) -> (fd: i32)
        ensures
            fd == self.client_fd(),
    {
        self.fd
    }

    /// Acts on the returned poll events: an error or hang-up kills the
    /// process, otherwise incoming data is a descriptor to receive.
    pub fn poll(&mut self) -> (action: ProcessAction)
        ensures
            action == poll_action(old(self).returned_events(), old(self).terminating()),
            old(self).returned_events() & 0x18 != 0 ==> action == ProcessAction::Kill(
                !old(self).terminating(),
            ),
            old(self).returned_events() & 0x18 == 0 && old(self).returned_events() & 0x1 != 0
                ==> action == ProcessAction::ReceiveFd,
            old(self).returned_events() & 0x19 == 0 ==> action == ProcessAction::Nothing,
            final(self).returned_events() == old(self).returned_events(),
            final(self).client_fd() == old(self).client_fd(),
            final(self).pid_spec() == old(self).pid_spec(),
            final(self).thread_list() == old(self).thread_list(),
            final(self).terminating() == old(self).terminating(),
    {
        proof {
            lemma_poll_reacts_to_bits(self.revents, self.is_terminating);
        }
        if self.revents & (POLLERR | POLLHUP) != 0 {
            let unknown = !self.is_terminating;
            self.kill(unknown);
            ProcessAction::Kill(unknown)
        } else if self.revents & POLLIN != 0 {
            self.receive_fd();
            ProcessAction::ReceiveFd
        } else {
            ProcessAction::Nothing
        }
    }

    /// A new process for a client that has just connected, with no parent,
    /// no threads, not terminating and no returned events.
    pub fn new_from_client(client: i32, pid: WindowsPid) -> (p: WindowsProcess)
        ensures
            p.client_fd() == client,
            p.pid_spec() == pid.0,
            !p.has_parent(),
            p.thread_list().len() == 0,
            !p.terminating(),
            p.returned_events() == 0,
    {
        WindowsProcess {
            fd: client,
            pid,
            parent: None,
            threads: Vec::new(),
            is_terminating: false,
            revents: 0,
        }
    }

    /// Adds a thread to the process; returns the thread's request
    /// descriptor, which the caller sends to the client.
    pub fn add_thread(&mut self, thread: Rc<WindowsThread>) -> (fd: i32)
        ensures
            final(self).thread_list() == old(self).thread_list().push(thread),
            fd == thread.request_fd_spec(),
            final(self).client_fd() == old(self).client_fd(),
            final(self).pid_spec() == old(self).pid_spec(),
            final(self).terminating() == old(self).terminating(),
            final(self).returned_events() == old(self).returned_events(),
    {
        let fd = thread.as_fd();
        self.threads.push(thread);
        fd
    }

    /// Receives a descriptor from the client (nothing is done yet).
    pub fn receive_fd(&self) {
    }

    /// Kills the process (nothing is done yet).
    pub fn kill(&self, unknown: bool) {
    }
}

/// Polling a process right after its returned events were cleared
/// (`revents_reset` leaves them `0`) does nothing.
pub proof fn lemma_poll_after_reset_does_nothing(terminating: bool)
    ensures
        poll_action(0, terminating) == ProcessAction::Nothing,
{
    assert(0i16 & (0x0008i16 | 0x0010i16) == 0) by (bit_vector);
    assert(0i16 & 0x0001i16 == 0) by (bit_vector);
}

/// Polling a process reacts to the returned event bits alone: an error
/// (`0x8`) or a hang-up (`0x10`) kills it, telling whether it was not already
/// terminating; otherwise incoming data (`0x1`) receives a descriptor,
/// whatever other bits are set; with none of these bits it does nothing.
pub proof fn lemma_poll_reacts_to_bits(revents: i16, terminating: bool)
    ensures
        revents & 0x18 != 0 ==> poll_action(revents, terminating) == ProcessAction::Kill(
            !terminating,
        ),
        revents & 0x18 == 0 && revents & 0x1 != 0 ==> poll_action(revents, terminating)
            == ProcessAction::ReceiveFd,
        revents & 0x19 == 0 ==> poll_action(revents, terminating) == ProcessAction::Nothing,
{
    assert(revents & (0x0008i16 | 0x0010i16) == revents & 0x18i16) by (bit_vector);
    assert(revents & 0x19i16 == 0 ==> revents & 0x18i16 == 0 && revents & 0x1i16 == 0)
        by (bit_vector);
}

} // verus!
