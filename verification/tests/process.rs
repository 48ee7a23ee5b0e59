use std::rc::Rc;
use wineserver::net::{POLLERR, POLLHUP, POLLIN, POLLOUT};
use wineserver::process::{ProcessAction, WindowsPid, WindowsProcess};
use wineserver::thread::{WindowsThread, WindowsTid};

#[test]
fn new_process_is_quiet() {
    let mut p = WindowsProcess::new_from_client(5, WindowsPid(0));
    assert_eq!(p.as_fd(), 5);
    assert_eq!(p.poll(), ProcessAction::Nothing);
}

#[test]
fn hang_up_kills_the_process() {
    let mut p = WindowsProcess::new_from_client(5, WindowsPid(1));
    p.revents_add(POLLIN);
    p.revents_add(POLLHUP);
    assert_eq!(p.poll(), ProcessAction::Kill(true));
    p.revents_reset();
    p.revents_add(POLLERR);
    assert_eq!(p.poll(), ProcessAction::Kill(true));
}

#[test]
fn incoming_data_is_a_descriptor() {
    let mut p = WindowsProcess::new_from_client(5, WindowsPid(1));
    p.revents_add(POLLOUT);
    assert_eq!(p.poll(), ProcessAction::Nothing);
    p.revents_add(POLLIN);
    assert_eq!(p.poll(), ProcessAction::ReceiveFd);
    p.revents_reset();
    assert_eq!(p.poll(), ProcessAction::Nothing);
}

#[test]
fn add_thread_hands_back_the_request_descriptor() {
    let process = Rc::new(WindowsProcess::new_from_client(5, WindowsPid(2)));
    let thread = Rc::new(WindowsThread::primary_for(process.clone(), WindowsTid(0), 11));
    let mut owner = WindowsProcess::new_from_client(6, WindowsPid(3));
    assert_eq!(owner.add_thread(thread.clone()), 11);
    assert_eq!(owner.as_fd(), 6);
}

#[test]
fn thread_events() {
    let process = Rc::new(WindowsProcess::new_from_client(5, WindowsPid(2)));
    let mut thread = WindowsThread::primary_for(process, WindowsTid(4), 11);
    assert_eq!(thread.as_fd(), 11);
    thread.revents_add(POLLIN);
    thread.poll();
    thread.revents_reset();
    assert_eq!(thread.as_fd(), 11);
}
