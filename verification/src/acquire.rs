//! Sequencing of an open.
//!
//! An open is a fixed conversation with the operating system: open or
//! create the file, learn its size, grow it when the negotiated size is
//! larger, map the view, and close the file handle — the handle is not
//! needed to keep the view alive. The system calls themselves live outside
//! this crate; [`OpenFsm`] decides, after each reported outcome, which call
//! comes next. Its contract carries the two facts that matter: the size
//! being arranged is exactly the negotiated one, and a handle, once
//! acquired, is never abandoned — every path out of a handle-holding phase,
//! success and failure alike, passes through an explicit close.

use vstd::prelude::*;

use crate::mapping::Mode;
use crate::size::{compute_open_size, open_size};

verus! {

/// The outcome of the system call the procedure last asked for.
#[derive(Clone, Copy, Debug)]
pub enum OpenEvent {
    /// The file was opened or created; a handle is now held.
    OpenedOk,
    /// The open failed; no handle is held.
    OpenFailed,
    /// The file's current size.
    SizeIs { current: usize },
    /// The size could not be determined.
    SizeFailed,
    /// The file was grown to the target.
    ExtendedOk,
    /// Growing the file failed.
    ExtendFailed,
    /// The view was mapped.
    ViewOk,
    /// Mapping the view failed.
    ViewFailed,
    /// The file handle was closed.
    HandleClosed,
}

/// What the procedure waits on next. Every phase but the two terminal ones
/// names the one system call the caller must perform and report.
#[derive(Clone, Copy, Debug)]
pub enum OpenPhase {
    /// Open (read mode) or open-or-create (write mode) the file.
    Opening,
    /// A handle is held; query the file's size.
    Sizing,
    /// A handle is held; grow the file to exactly `target` bytes.
    Extending { target: usize },
    /// A handle is held; map a view of `len` bytes.
    MappingView { len: usize },
    /// A handle is held and the outcome is decided; close the handle.
    Closing { mapped: Option<usize> },
    /// Terminal: the open succeeded with a view of `len` bytes.
    DoneOk { len: usize },
    /// Terminal: the open failed; nothing is left open.
    DoneErr,
}

impl OpenPhase {
    /// Whether the caller holds an open file handle in this phase.
    pub open spec fn holds_handle(self) -> bool {
        match self {
            OpenPhase::Opening => false,
            OpenPhase::Sizing => true,
            OpenPhase::Extending { .. } => true,
            OpenPhase::MappingView { .. } => true,
            OpenPhase::Closing { .. } => true,
            OpenPhase::DoneOk { .. } => false,
            OpenPhase::DoneErr => false,
        }
    }

    /// Whether the procedure is over.
    pub open spec fn is_done(self) -> bool {
        match self {
            OpenPhase::DoneOk { .. } => true,
            OpenPhase::DoneErr => true,
            _ => false,
        }
    }
}

/// Which outcomes answer which phase. A terminal phase takes no outcome.
pub open spec fn event_fits(phase: OpenPhase, ev: OpenEvent) -> bool {
    match phase {
        OpenPhase::Opening => ev is OpenedOk || ev is OpenFailed,
        OpenPhase::Sizing => ev is SizeIs || ev is SizeFailed,
        OpenPhase::Extending { .. } => ev is ExtendedOk || ev is ExtendFailed,
        OpenPhase::MappingView { .. } => ev is ViewOk || ev is ViewFailed,
        OpenPhase::Closing { .. } => ev is HandleClosed,
        OpenPhase::DoneOk { .. } => false,
        OpenPhase::DoneErr => false,
    }
}

/// The phase that follows `phase` once `ev` is reported.
pub open spec fn next_phase(mode: Mode, requested: int, phase: OpenPhase, ev: OpenEvent) -> OpenPhase {
    match (phase, ev) {
        (OpenPhase::Opening, OpenEvent::OpenedOk) => OpenPhase::Sizing,
        (OpenPhase::Opening, OpenEvent::OpenFailed) => OpenPhase::DoneErr,
        (OpenPhase::Sizing, OpenEvent::SizeIs { current }) => {
            if mode == Mode::ReadWrite {
                let ns = open_size(requested, current as int);
                if ns > current {
                    OpenPhase::Extending { target: ns as usize }
                } else {
                    OpenPhase::MappingView { len: ns as usize }
                }
            } else {
                OpenPhase::MappingView { len: current }
            }
        },
        (OpenPhase::Sizing, OpenEvent::SizeFailed) => OpenPhase::Closing { mapped: None },
        (OpenPhase::Extending { target }, OpenEvent::ExtendedOk) => OpenPhase::MappingView {
            len: target,
        },
        (OpenPhase::Extending { .. }, OpenEvent::ExtendFailed) => OpenPhase::Closing {
            mapped: None,
        },
        (OpenPhase::MappingView { len }, OpenEvent::ViewOk) => OpenPhase::Closing {
            mapped: Some(len),
        },
        (OpenPhase::MappingView { .. }, OpenEvent::ViewFailed) => OpenPhase::Closing {
            mapped: None,
        },
        (OpenPhase::Closing { mapped: Some(len) }, OpenEvent::HandleClosed) => OpenPhase::DoneOk {
            len,
        },
        (OpenPhase::Closing { mapped: None }, OpenEvent::HandleClosed) => OpenPhase::DoneErr,
        _ => OpenPhase::DoneErr,
    }
}

/// The length a view agreed at creation covers, once the file's current
/// size is known: in write mode the negotiated open size, in read mode the
/// file's current size as it stands.
pub open spec fn negotiated_len(mode: Mode, requested: int, current: int) -> int {
    if mode == Mode::ReadWrite {
        open_size(requested, current)
    } else {
        current
    }
}

/// In this phase the procedure is arranging a view of exactly `ns` bytes
/// over a file that held `current`: it grows the file first exactly when
/// the file is smaller than `ns`.
pub open spec fn negotiates(phase: OpenPhase, ns: int, current: int) -> bool {
    match phase {
        OpenPhase::Extending { target } => target == ns && current < ns,
        OpenPhase::MappingView { len } => len == ns && ns <= current,
        _ => false,
    }
}

/// The open procedure: the caller performs the system call the phase names
/// and reports its outcome through [`OpenFsm::step`].
pub struct OpenFsm {
    /// The mode the mapping is being created for.
    pub mode: Mode,
    /// The caller's requested size; `0` asks for the automatic size.
    pub requested: usize,
    /// The file's current size, once the operating system has reported it.
    pub sized: Option<usize>,
    /// What the procedure waits on next.
    pub phase: OpenPhase,
}

impl OpenFsm {
    /// The procedure's phase agrees with what has been learned so far: once
    /// the size is reported, every length a later phase carries — the growth
    /// target, the view being mapped, the outcome awaiting the close, and
    /// the final result — is exactly the negotiated one.
    pub open spec fn consistent(self) -> bool {
        match self.phase {
            OpenPhase::Opening => true,
            OpenPhase::Sizing => true,
            OpenPhase::Extending { target } => self.mode == Mode::ReadWrite
                && (self.sized matches Some(cur) && target == open_size(
                self.requested as int,
                cur as int,
            ) && cur < target),
            OpenPhase::MappingView { len } => (self.sized matches Some(cur) && len
                == negotiated_len(self.mode, self.requested as int, cur as int)),
            OpenPhase::Closing { mapped } => (mapped matches Some(len) ==> (self.sized matches Some(
                cur,
            ) && len == negotiated_len(self.mode, self.requested as int, cur as int))),
            OpenPhase::DoneOk { len } => (self.sized matches Some(cur) && len == negotiated_len(
                self.mode,
                self.requested as int,
                cur as int,
            )),
            OpenPhase::DoneErr => true,
        }
    }

    /// Begins an open: the first call to perform is named by `Opening`.
    pub fn new(mode: Mode, requested: usize) -> (fsm: OpenFsm)
        ensures
            fsm.mode == mode,
            fsm.requested == requested,
            fsm.sized is None,
            fsm.phase == OpenPhase::Opening,
            fsm.consistent(),
    {
        OpenFsm { mode, requested, sized: None, phase: OpenPhase::Opening }
    }

    /// Advances the procedure by one reported outcome.
    ///
    /// The contract states the safety laws beside the transition itself: a
    /// handle is given up only through the explicit close the caller has
    /// just performed; a handle appears only when the operating system
    /// reports a successful open; and, once the size is reported, every
    /// length the procedure goes on to arrange is exactly the negotiated
    /// one.
    pub fn step(&mut self, ev: OpenEvent)
        requires
            event_fits(old(self).phase, ev),
            old(self).consistent(),
        ensures
            final(self).consistent(),
            final(self).mode == old(self).mode,
            final(self).requested == old(self).requested,
            old(self).phase is Sizing ==> (ev matches OpenEvent::SizeIs { current }
                ==> final(self).sized == Some(current)),
            !(old(self).phase is Sizing && ev is SizeIs) ==> final(self).sized == old(self).sized,
            final(self).phase == next_phase(
                old(self).mode,
                old(self).requested as int,
                old(self).phase,
                ev,
            ),
            old(self).phase.holds_handle() && !final(self).phase.holds_handle() ==> old(
                self,
            ).phase is Closing,
            !old(self).phase.holds_handle() && final(self).phase.holds_handle() ==> ev is OpenedOk,
            (old(self).phase is Sizing && old(self).mode == Mode::ReadWrite) ==> (ev matches
                OpenEvent::SizeIs { current } ==> negotiates(
                final(self).phase,
                open_size(old(self).requested as int, current as int),
                current as int,
            )),
            (old(self).phase is Sizing && old(self).mode == Mode::ReadOnly) ==> (ev matches
                OpenEvent::SizeIs { current } ==> final(self).phase == (OpenPhase::MappingView {
                len: current,
            })),
    {
        let ph = self.phase;
        match (ph, ev) {
            (OpenPhase::Opening, OpenEvent::OpenedOk) => {
                self.phase = OpenPhase::Sizing;
            },
            (OpenPhase::Opening, OpenEvent::OpenFailed) => {
                self.phase = OpenPhase::DoneErr;
            },
            (OpenPhase::Sizing, OpenEvent::SizeIs { current }) => {
                self.sized = Some(current);
                match self.mode {
                    Mode::ReadWrite => {
                        let ns = compute_open_size(self.requested, current);
                        if ns > current {
                            self.phase = OpenPhase::Extending { target: ns };
                        } else {
                            self.phase = OpenPhase::MappingView { len: ns };
                        }
                    },
                    Mode::ReadOnly => {
                        self.phase = OpenPhase::MappingView { len: current };
                    },
                }
            },
            (OpenPhase::Sizing, OpenEvent::SizeFailed) => {
                self.phase = OpenPhase::Closing { mapped: None };
            },
            (OpenPhase::Extending { target }, OpenEvent::ExtendedOk) => {
                self.phase = OpenPhase::MappingView { len: target };
            },
            (OpenPhase::Extending { .. }, OpenEvent::ExtendFailed) => {
                self.phase = OpenPhase::Closing { mapped: None };
            },
            (OpenPhase::MappingView { len }, OpenEvent::ViewOk) => {
                self.phase = OpenPhase::Closing { mapped: Some(len) };
            },
            (OpenPhase::MappingView { .. }, OpenEvent::ViewFailed) => {
                self.phase = OpenPhase::Closing { mapped: None };
            },
            (OpenPhase::Closing { mapped }, OpenEvent::HandleClosed) => {
                match mapped {
                    Some(len) => {
                        self.phase = OpenPhase::DoneOk { len };
                    },
                    None => {
                        self.phase = OpenPhase::DoneErr;
                    },
                }
            },
            _ => {
                self.phase = OpenPhase::DoneErr;
            },
        }
    }
}

/// Law: a finished open, successful or not, holds no handle; nothing
/// acquired along the way outlives the procedure.
pub proof fn lemma_done_holds_nothing(phase: OpenPhase)
    requires
        phase.is_done(),
    ensures
        !phase.holds_handle(),
{
}

/// Law: a successful open reports exactly the negotiated length — in write
/// mode the requested size when positive, else the reported size, else the
/// default, and never less than the file held; in read mode the reported
/// size as it stands.
pub proof fn lemma_success_reports_negotiated_len(fsm: OpenFsm)
    requires
        fsm.consistent(),
        fsm.phase is DoneOk,
    ensures
        fsm.phase matches OpenPhase::DoneOk { len } ==> (fsm.sized matches Some(cur) && len
            == negotiated_len(fsm.mode, fsm.requested as int, cur as int)),
{
}

} // verus!
