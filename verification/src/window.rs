//! Window presentation settings.
use vstd::prelude::*;

verus! {

/// How frames are presented to the user.
#[derive(Clone, Copy, Debug, PartialEq, Eq, Structural)]
pub enum PresentMode {
    AutoVsync,
    AutoNoVsync,
    Fifo,
    FifoRelaxed,
    Immediate,
    Mailbox,
}

} // verus!
