//! Windows threads hosted by the server.
use vstd::prelude::*;
use std::rc::Rc;
use crate::process::WindowsProcess;

verus! {

/// A Windows thread identifier.
pub struct WindowsTid(pub u32);

/// A Windows thread and the pipe on which its requests arrive.
pub struct WindowsThread {
    tid: WindowsTid,
    process: Rc<WindowsProcess>,
    /// Read end of the request pipe.
    request: i32,
    revents: i16,
}

impl WindowsThread {
    /// Read end of the request pipe.
    pub closed spec fn request_fd_spec(&self) -> i32 {
        self.request
    }

    /// The thread identifier.
    pub closed spec fn tid_spec(&self) -> u32 {
        self.tid.0
    }

    /// The owning process.
    pub closed spec fn owner(&self) -> Rc<WindowsProcess> {
        self.process
    }

    /// The poll events returned for the request pipe.
    pub closed spec fn returned_events(&self) -> i16 {
        self.revents
    }

    /// Clears the returned poll events.
    pub fn revents_reset(&mut self)
        ensures
            final(self).returned_events() == 0,
            final(self).request_fd_spec() == old(self).request_fd_spec(),
            final(self).tid_spec() == old(self).tid_spec(),
            final(self).owner() == old(self).owner(),
    {
        self.revents = 0;
    }

    /// Adds returned poll events.
    pub fn revents_add(&mut self, event: i16)
        ensures
            final(self).returned_events() == old(self).returned_events() | event,
            final(self).request_fd_spec() == old(self).request_fd_spec(),
            final(self).tid_spec() == old(self).tid_spec(),
            final(self).owner() == old(self).owner(),
    {
        self.revents = self.revents | event;
    }

    /// Read end of the request pipe.
    pub fn as_fd(&self) -> (fd: i32)
        ensures
            fd == self.request_fd_spec(),
    {
        self.request
    }

    /// Acts on the returned poll events (nothing is done yet).
    pub fn poll(&mut self)
        ensures
            final(self).returned_events() == old(self).returned_events(),
            final(self).request_fd_spec() == old(self).request_fd_spec(),
            final(self).tid_spec() == old(self).tid_spec(),
            final(self).owner() == old(self).owner(),
    {
    }

    /// The first thread of `process`, whose requests arrive on the read end
    /// `request` of a new pipe.
    pub fn primary_for(process: Rc<WindowsProcess>, tid: WindowsTid, request: i32) -> (t:
        WindowsThread)
        ensures
            t.owner() == process,
            t.tid_spec() == tid.0,
            t.request_fd_spec() == request,
            t.returned_events() == 0,
    {
        WindowsThread { tid, process, request, revents: 0 }
    }
}

} // verus!
