//! The decisions around the host's configuration calls.
//!
//! Opening a port and changing its settings is a fixed sequence of host
//! calls: open the handle, then for each changed field read the control
//! block, change that field and write the block back, then purge and set
//! the timeouts. A `Configurator` holds such a plan and decides, from each
//! host reply, which call comes next and when the sequence is over. The
//! caller performs the calls on its handle.

use vstd::prelude::*;
use crate::dcb::{DCB, DTR_CONTROL, flags_with_dtr};
use crate::error::{
    CommError, ERROR_FILE_NOT_FOUND, ErrorKind, Operation, error_kind, host_error,
    system_to_io_err,
};
use crate::timeouts::{COMMTIMEOUTS, uniform_timeouts};

verus! {

/// Discard pending output.
pub const PURGE_TXABORT: u32 = 0x0001;
/// Abort pending reads.
pub const PURGE_RXABORT: u32 = 0x0002;
/// Clear the output buffer.
pub const PURGE_TXCLEAR: u32 = 0x0004;
/// Clear the input buffer.
pub const PURGE_RXCLEAR: u32 = 0x0008;

/// The timeout, in milliseconds, that a freshly opened port gets.
pub const DEFAULT_TIMEOUT_MS: u32 = 40;

/// The byte size that a freshly opened port gets.
pub const DEFAULT_BYTE_SIZE: u8 = 8;

/// A change of one field of the control block.
#[derive(Clone, Copy, Debug, PartialEq, Eq, Structural)]
pub enum DcbChange {
    Dtr(DTR_CONTROL),
    BaudRate(u32),
    ByteSize(u8),
    StopBits(u8),
    Parity(u8),
}

pub open spec fn apply_change(d: DCB, c: DcbChange) -> DCB {
    match c {
        DcbChange::Dtr(m) => DCB { flags: flags_with_dtr(d.flags, m), ..d },
        DcbChange::BaudRate(b) => DCB { baud_rate: b, ..d },
        DcbChange::ByteSize(b) => DCB { byte_size: b, ..d },
        DcbChange::StopBits(s) => DCB { stop_bits: s, ..d },
        DcbChange::Parity(p) => DCB { parity: p, ..d },
    }
}

impl DcbChange {
    /// The block `d` with this one field changed and all others kept.
    pub fn apply(&self, d: DCB) -> (r: DCB)
        ensures
            r == apply_change(d, *self),
    {
        match self {
            DcbChange::Dtr(m) => {
                let mut r = d;
                r.set_dtr_control(*m);
                r
            },
            DcbChange::BaudRate(b) => DCB { baud_rate: *b, ..d },
            DcbChange::ByteSize(b) => DCB { byte_size: *b, ..d },
            DcbChange::StopBits(s) => DCB { stop_bits: *s, ..d },
            DcbChange::Parity(p) => DCB { parity: *p, ..d },
        }
    }
}

/// One step of a configuration plan.
#[derive(Clone, Copy, Debug, PartialEq, Eq, Structural)]
pub enum Step {
    /// Open the port's handle.
    Open,
    /// Read the control block, change one field, write it back.
    Change(DcbChange),
    /// Discard buffered data; the host's answer is ignored.
    Purge(u32),
    /// Set all five timeouts to the given milliseconds.
    Timeouts(u32),
}

/// A host call that the caller is asked to make.
#[derive(Clone, Copy, Debug, PartialEq, Eq, Structural)]
pub enum HostRequest {
    Open,
    GetCommState,
    SetCommState(DCB),
    PurgeComm(u32),
    SetCommTimeouts(COMMTIMEOUTS),
    Close,
}

/// What the host answered to the last request.
#[derive(Clone, Copy, Debug, PartialEq, Eq, Structural)]
pub enum HostReply {
    /// The call failed with this status code.
    Failed(i32),
    /// The call succeeded.
    Done,
    /// The control block was read.
    State(DCB),
}

/// What the caller does next.
#[derive(Clone, Copy, Debug, PartialEq, Eq)]
pub enum Action {
    Call(HostRequest),
    Finished(Result<(), CommError>),
}

/// Which request a configurator is waiting on.
#[derive(Clone, Copy, Debug, PartialEq, Eq, Structural)]
pub enum Phase {
    Ready,
    Opening,
    Reading,
    Writing,
    Purging,
    SettingTimeouts,
    /// Closing the handle after `CommError`; the sequence then fails with it.
    Closing(CommError),
    Finished,
}

/// The phase that starts step `pos` of `steps`, and its request.
pub open spec fn begin_spec(steps: Seq<Step>, pos: int) -> (Phase, Action) {
    if pos >= steps.len() {
        (Phase::Finished, Action::Finished(Ok(())))
    } else {
        match steps[pos] {
            Step::Open => (Phase::Opening, Action::Call(HostRequest::Open)),
            Step::Change(_) => (Phase::Reading, Action::Call(HostRequest::GetCommState)),
            Step::Purge(f) => (Phase::Purging, Action::Call(HostRequest::PurgeComm(f))),
            Step::Timeouts(ms) => (
                Phase::SettingTimeouts,
                Action::Call(HostRequest::SetCommTimeouts(uniform_timeouts(ms))),
            ),
        }
    }
}

/// How the sequence ends on `e`: a handle that was opened is closed first.
pub open spec fn fail_spec(opened: bool, e: CommError) -> (Phase, Action) {
    if opened {
        (Phase::Closing(e), Action::Call(HostRequest::Close))
    } else {
        (Phase::Finished, Action::Finished(Err(e)))
    }
}

/// The replies that a phase can be given: a read of the control block
/// succeeds only with the block.
pub open spec fn accepts_spec(phase: Phase, reply: HostReply) -> bool {
    match phase {
        Phase::Ready | Phase::Finished => false,
        Phase::Reading => !(reply is Done),
        _ => true,
    }
}

/// The position, phase, opened flag and action after `reply`.
pub open spec fn resume_spec(
    steps: Seq<Step>,
    pos: int,
    phase: Phase,
    opened: bool,
    reply: HostReply,
) -> (int, Phase, bool, Action) {
    let next = begin_spec(steps, pos + 1);
    match phase {
        Phase::Opening => match reply {
            HostReply::Failed(c) => {
                let f = fail_spec(opened, host_error(Operation::Open, c));
                (pos, f.0, opened, f.1)
            },
            _ => (pos + 1, next.0, true, next.1),
        },
        Phase::Reading => match reply {
            HostReply::Failed(c) => {
                let f = fail_spec(opened, host_error(Operation::GetCommState, c));
                (pos, f.0, opened, f.1)
            },
            HostReply::State(d) => (
                pos,
                Phase::Writing,
                opened,
                Action::Call(HostRequest::SetCommState(apply_change(d, steps[pos]->Change_0))),
            ),
            HostReply::Done => (pos, phase, opened, Action::Finished(Ok(()))),
        },
        Phase::Writing => match reply {
            HostReply::Failed(c) => {
                let f = fail_spec(opened, host_error(Operation::SetCommState, c));
                (pos, f.0, opened, f.1)
            },
            _ => (pos + 1, next.0, opened, next.1),
        },
        Phase::Purging => (pos + 1, next.0, opened, next.1),
        Phase::SettingTimeouts => match reply {
            HostReply::Failed(c) => {
                let f = fail_spec(opened, host_error(Operation::SetCommTimeouts, c));
                (pos, f.0, opened, f.1)
            },
            _ => (pos + 1, next.0, opened, next.1),
        },
        Phase::Closing(e) => (pos, Phase::Finished, opened, Action::Finished(Err(e))),
        _ => (pos, phase, opened, Action::Finished(Ok(()))),
    }
}

/// Whether `phase` is the one that waits on step `s`.
pub open spec fn phase_fits(s: Step, phase: Phase) -> bool {
    match phase {
        Phase::Opening => s is Open,
        Phase::Reading | Phase::Writing => s is Change,
        Phase::Purging => s is Purge,
        Phase::SettingTimeouts => s is Timeouts,
        _ => true,
    }
}

/// The plan that opening a port runs: open, enable DTR, set the baud rate,
/// 8 data bits, one stop bit, no parity, each by its own read-modify-write,
/// then purge both directions and set the default timeout.
pub open spec fn open_plan_spec(baud_rate: u32) -> Seq<Step> {
    seq![
        Step::Open,
        Step::Change(DcbChange::Dtr(DTR_CONTROL::ENABLE)),
        Step::Change(DcbChange::BaudRate(baud_rate)),
        Step::Change(DcbChange::ByteSize(DEFAULT_BYTE_SIZE)),
        Step::Change(DcbChange::StopBits(0)),
        Step::Change(DcbChange::Parity(0)),
        Step::Purge(PURGE_RXCLEAR | PURGE_TXCLEAR),
        Step::Timeouts(DEFAULT_TIMEOUT_MS),
    ]
}

/// Opening a port asks the host to open it before anything else, and when
/// that open fails the sequence ends at once with the translated error (a
/// missing port gives a not-found error): no control-block call is made and
/// there is no handle to close.
pub proof fn lemma_open_fails_first(baud_rate: u32, code: i32)
    ensures
        ({
            let plan = open_plan_spec(baud_rate);
            let first = begin_spec(plan, 0);
            let after = resume_spec(plan, 0, first.0, false, HostReply::Failed(code));
            &&& first.1 == Action::Call(HostRequest::Open)
            &&& after.1 == Phase::Finished
            &&& after.3 == Action::Finished(Err(host_error(Operation::Open, code)))
            &&& code == ERROR_FILE_NOT_FOUND ==> error_kind(host_error(Operation::Open, code))
                == ErrorKind::NotFound
        }),
{
}

/// When a host call fails after the sequence opened the handle, the caller
/// is asked to close it once, and the sequence then ends with the failure,
/// whatever the close answered, accepting no further reply. A sequence that
/// did not open its handle ends at once and asks for no close.
pub proof fn lemma_failure_closes_once(
    steps: Seq<Step>,
    pos: int,
    phase: Phase,
    opened: bool,
    code: i32,
    close_reply: HostReply,
)
    requires
        phase is Opening || phase is Reading || phase is Writing || phase is SettingTimeouts,
    ensures
        ({
            let failed = resume_spec(steps, pos, phase, opened, HostReply::Failed(code));
            let e = match phase {
                Phase::Opening => host_error(Operation::Open, code),
                Phase::Reading => host_error(Operation::GetCommState, code),
                Phase::Writing => host_error(Operation::SetCommState, code),
                _ => host_error(Operation::SetCommTimeouts, code),
            };
            if opened {
                let closed = resume_spec(steps, failed.0, failed.1, failed.2, close_reply);
                &&& failed.3 == Action::Call(HostRequest::Close)
                &&& accepts_spec(failed.1, close_reply)
                &&& closed.3 == Action::Finished(Err(e))
                &&& !accepts_spec(closed.1, close_reply)
            } else {
                &&& failed.3 == Action::Finished(Err(e))
                &&& !accepts_spec(failed.1, close_reply)
            }
        }),
{
}

/// A configuration sequence in progress.
pub struct Configurator {
    pub steps: Vec<Step>,
    pub pos: usize,
    pub phase: Phase,
    /// Whether this sequence opened the handle it works on.
    pub opened: bool,
}

impl Configurator {
    pub open spec fn wf(&self) -> bool {
        &&& self.pos <= self.steps@.len()
        &&& (self.phase is Ready ==> self.pos == 0)
        &&& match self.phase {
            Phase::Opening | Phase::Reading | Phase::Writing | Phase::Purging
            | Phase::SettingTimeouts => self.pos < self.steps@.len() && phase_fits(
                self.steps@[self.pos as int],
                self.phase,
            ),
            _ => true,
        }
    }

    /// A sequence that will run `steps` on a handle opened elsewhere, or
    /// opened by its own `Open` step.
    pub fn new(steps: Vec<Step>) -> (r: Configurator)
        ensures
            r.steps == steps,
            r.pos == 0,
            r.phase == Phase::Ready,
            !r.opened,
            r.wf(),
    {
        Configurator { steps, pos: 0, phase: Phase::Ready, opened: false }
    }

    /// The sequence that opens a port at `baud_rate` and configures it.
    pub fn opening(baud_rate: u32) -> (r: Configurator)
        ensures
            r.steps@ == open_plan_spec(baud_rate),
            r.pos == 0,
            r.phase == Phase::Ready,
            !r.opened,
            r.wf(),
    {
        let mut steps: Vec<Step> = Vec::new();
        steps.push(Step::Open);
        steps.push(Step::Change(DcbChange::Dtr(DTR_CONTROL::ENABLE)));
        steps.push(Step::Change(DcbChange::BaudRate(baud_rate)));
        steps.push(Step::Change(DcbChange::ByteSize(DEFAULT_BYTE_SIZE)));
        steps.push(Step::Change(DcbChange::StopBits(0)));
        steps.push(Step::Change(DcbChange::Parity(0)));
        steps.push(Step::Purge(PURGE_RXCLEAR | PURGE_TXCLEAR));
        steps.push(Step::Timeouts(DEFAULT_TIMEOUT_MS));
        assert(steps@ =~= open_plan_spec(baud_rate));
        Configurator::new(steps)
    }

    /// The sequence that changes one field of an open port's control block.
    pub fn changing(change: DcbChange) -> (r: Configurator)
        ensures
            r.steps@ == seq![Step::Change(change)],
            r.pos == 0,
            r.phase == Phase::Ready,
            !r.opened,
            r.wf(),
    {
        let mut steps: Vec<Step> = Vec::new();
        steps.push(Step::Change(change));
        assert(steps@ =~= seq![Step::Change(change)]);
        Configurator::new(steps)
    }

    /// The sequence that sets all timeouts of an open port to `timeout_ms`.
    pub fn setting_timeout(timeout_ms: u32) -> (r: Configurator)
        ensures
            r.steps@ == seq![Step::Timeouts(timeout_ms)],
            r.pos == 0,
            r.phase == Phase::Ready,
            !r.opened,
            r.wf(),
    {
        let mut steps: Vec<Step> = Vec::new();
        steps.push(Step::Timeouts(timeout_ms));
        assert(steps@ =~= seq![Step::Timeouts(timeout_ms)]);
        Configurator::new(steps)
    }

    fn begin(&mut self, pos: usize) -> (a: Action)
        requires
            pos <= old(self).steps@.len(),
        ensures
            final(self).steps == old(self).steps,
            final(self).opened == old(self).opened,
            final(self).pos == pos,
            (final(self).phase, a) == begin_spec(old(self).steps@, pos as int),
            final(self).wf(),
    {
        self.pos = pos;
        if pos >= self.steps.len() {
            self.phase = Phase::Finished;
            return Action::Finished(Ok(()));
        }
        match self.steps[pos] {
            Step::Open => {
                self.phase = Phase::Opening;
                Action::Call(HostRequest::Open)
            },
            Step::Change(_) => {
                self.phase = Phase::Reading;
                Action::Call(HostRequest::GetCommState)
            },
            Step::Purge(f) => {
                self.phase = Phase::Purging;
                Action::Call(HostRequest::PurgeComm(f))
            },
            Step::Timeouts(ms) => {
                self.phase = Phase::SettingTimeouts;
                Action::Call(HostRequest::SetCommTimeouts(COMMTIMEOUTS::uniform(ms)))
            },
        }
    }

    fn fail(&mut self, e: CommError) -> (a: Action)
        requires
            old(self).wf(),
        ensures
            final(self).steps == old(self).steps,
            final(self).opened == old(self).opened,
            final(self).pos == old(self).pos,
            (final(self).phase, a) == fail_spec(old(self).opened, e),
            final(self).wf(),
    {
        if self.opened {
            self.phase = Phase::Closing(e);
            Action::Call(HostRequest::Close)
        } else {
            self.phase = Phase::Finished;
            Action::Finished(Err(e))
        }
    }

    /// The first request of the sequence.
    pub fn start(&mut self) -> (a: Action)
        requires
            old(self).wf(),
            old(self).phase == Phase::Ready,
        ensures
            final(self).steps == old(self).steps,
            final(self).opened == old(self).opened,
            final(self).pos == 0,
            (final(self).phase, a) == begin_spec(old(self).steps@, 0),
            final(self).wf(),
    {
        self.begin(0)
    }

    /// Whether `reply` can answer the request this sequence waits on.
    pub fn accepts(&self, reply: &HostReply) -> (r: bool)
        ensures
            r == accepts_spec(self.phase, *reply),
    {
        match self.phase {
            Phase::Ready | Phase::Finished => false,
            Phase::Reading => !matches!(reply, HostReply::Done),
            _ => true,
        }
    }

    /// Takes the host's reply to the last request and returns what to do next.
    pub fn resume(&mut self, reply: HostReply) -> (a: Action)
        requires
            old(self).wf(),
            accepts_spec(old(self).phase, reply),
        ensures
            final(self).steps == old(self).steps,
            (final(self).pos as int, final(self).phase, final(self).opened, a) == resume_spec(
                old(self).steps@,
                old(self).pos as int,
                old(self).phase,
                old(self).opened,
                reply,
            ),
            final(self).wf(),
    {
        let pos = self.pos;
        let n = self.steps.len();
        assert(pos <= n);
        match self.phase {
            Phase::Opening => match reply {
                HostReply::Failed(c) => self.fail(system_to_io_err(Operation::Open, c)),
                _ => {
                    self.opened = true;
                    self.begin(pos + 1)
                },
            },
            Phase::Reading => match reply {
                HostReply::Failed(c) => self.fail(system_to_io_err(Operation::GetCommState, c)),
                HostReply::State(d) => {
                    // `wf` puts a `Change` step under `Reading`; the other arm is never taken.
                    let change = match self.steps[pos] {
                        Step::Change(c) => c,
                        _ => DcbChange::BaudRate(d.baud_rate),
                    };
                    self.phase = Phase::Writing;
                    Action::Call(HostRequest::SetCommState(change.apply(d)))
                },
                HostReply::Done => Action::Finished(Ok(())),
            },
            Phase::Writing => match reply {
                HostReply::Failed(c) => self.fail(system_to_io_err(Operation::SetCommState, c)),
                _ => self.begin(pos + 1),
            },
            Phase::Purging => self.begin(pos + 1),
            Phase::SettingTimeouts => match reply {
                HostReply::Failed(c) => self.fail(
                    system_to_io_err(Operation::SetCommTimeouts, c),
                ),
                _ => self.begin(pos + 1),
            },
            Phase::Closing(e) => {
                self.phase = Phase::Finished;
                Action::Finished(Err(e))
            },
            _ => Action::Finished(Ok(())),
        }
    }
}

} // verus!
