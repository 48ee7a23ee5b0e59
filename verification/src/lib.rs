//! A verified core for a Windows NT "kernel" server that runs Windows
//! processes on a Unix host: the client/server protocol values, tagged
//! pointers, the timeout clock, the kernel event queue bookkeeping and the
//! process and thread records.
use vstd::prelude::*;

pub mod clock;
pub mod loader;
pub mod net;
pub mod process;
pub mod protocol;
pub mod ptr;
pub mod thread;

verus! {

} // verus!
