use vstd::prelude::*;
use crate::codec::{
    decode, encode, lemma_response_round_trip, request_bytes, response_bytes, response_code,
    response_transient,
};
use crate::request::{DiskSpec, OperationRequest};
use crate::status::{should_retry, spec_should_retry, ExitCode, StatusResult};

verus! {

/// Where one operation stands.
#[derive(Clone, Copy, Debug, PartialEq, Eq, Structural)]
pub enum Phase {
    Idle,
    TargetResolved,
    HandleAcquired,
    RequestSubmitted,
    ResultReady,
    Aborted,
}

/// What the caller reports back after performing an action.
#[derive(Clone, Debug)]
pub enum Event {
    /// Begin the operation.
    Start,
    /// A handle to the device (or to the new device) is open.
    Acquired,
    /// The handle could not be opened; `bool` marks transient contention.
    AcquireFailed(ExitCode, bool),
    /// The request frame was handed to the driver.
    Sent,
    /// The driver answered with these bytes.
    Response(Vec<u8>),
    /// The process is being interrupted.
    Cancelled,
    /// The driver did not answer in time.
    TimedOut,
}

/// What the caller is to do next.
#[derive(Clone, Copy, Debug, PartialEq, Eq, Structural)]
pub enum Action {
    /// Open a handle to the target, or create the device and open it.
    Acquire,
    /// Wait a short, fixed delay, then open the handle again.
    RetryAcquire,
    /// Send `Session::request_frame` over the open handle.
    Submit,
    /// Wait for the driver's answer.
    Wait,
    /// Close the handle; the outcome is then final.
    Release,
    /// Nothing is held: report the outcome.
    Finish,
}

/// The decisions of one operation, from the request to its outcome. The
/// caller performs each returned action and hands back what happened.
#[derive(Clone, Debug)]
pub struct Session {
    pub request: OperationRequest,
    pub phase: Phase,
    /// Whether a handle is open.
    pub held: bool,
    /// How many handles were opened.
    pub acquisitions: u64,
    /// How many handles were closed.
    pub releases: u64,
    /// How many acquisitions were tried again.
    pub attempts: u32,
    pub outcome: ExitCode,
    pub transient: bool,
}

impl Session {
    pub open spec fn is_terminal(self) -> bool {
        self.phase == Phase::ResultReady || self.phase == Phase::Aborted
    }

    /// A handle is held exactly between its acquisition and its release, and
    /// at most one is ever opened.
    pub open spec fn wf(self) -> bool {
        &&& self.releases <= self.acquisitions <= 1
        &&& self.held <==> (self.phase == Phase::HandleAcquired || self.phase
            == Phase::RequestSubmitted)
        &&& self.held <==> self.acquisitions == self.releases + 1
        &&& (self.phase == Phase::Idle || self.phase == Phase::TargetResolved)
            ==> self.acquisitions == 0
        &&& self.phase == Phase::Idle ==> self.attempts == 0
        &&& self.attempts <= 1
        &&& self.request.wf()
        &&& self.outcome == ExitCode::Success ==> self.phase == Phase::ResultReady
        &&& self.phase == Phase::ResultReady ==> self.acquisitions == 1
    }
}

pub open spec fn spec_new(request: OperationRequest) -> Session {
    Session {
        request,
        phase: Phase::Idle,
        held: false,
        acquisitions: 0,
        releases: 0,
        attempts: 0,
        outcome: ExitCode::Fatal,
        transient: false,
    }
}

/// Ends the operation with `code`, closing the handle if one is open.
pub open spec fn spec_abort(s: Session, code: ExitCode) -> Session {
    Session {
        phase: Phase::Aborted,
        held: false,
        releases: if s.held {
            (s.releases + 1) as u64
        } else {
            s.releases
        },
        outcome: code,
        transient: false,
        ..s
    }
}

pub open spec fn abort_action(s: Session) -> Action {
    if s.held {
        Action::Release
    } else {
        Action::Finish
    }
}

/// The kind reported when an event comes that the phase does not expect.
pub open spec fn interruption_code(e: Event) -> ExitCode {
    match e {
        Event::TimedOut => ExitCode::DriverInaccessible,
        _ => ExitCode::Fatal,
    }
}

/// The kind reported for a failed acquisition. A failure that claims
/// `Success` is no classified failure: it is reported as `Fatal`, since
/// nothing reached the driver.
pub open spec fn failure_code(code: ExitCode) -> ExitCode {
    if code == ExitCode::Success {
        ExitCode::Fatal
    } else {
        code
    }
}

/// The state after event `e`.
pub open spec fn next(s: Session, e: Event) -> Session {
    match s.phase {
        Phase::Idle => match e {
            Event::Start => Session { phase: Phase::TargetResolved, ..s },
            _ => spec_abort(s, interruption_code(e)),
        },
        Phase::TargetResolved => match e {
            Event::Acquired => Session {
                phase: Phase::HandleAcquired,
                held: true,
                acquisitions: (s.acquisitions + 1) as u64,
                ..s
            },
            Event::AcquireFailed(code, transient) => if spec_should_retry(
                code,
                transient,
                s.attempts,
            ) {
                Session { attempts: (s.attempts + 1) as u32, ..s }
            } else {
                Session { phase: Phase::Aborted, outcome: failure_code(code), transient, ..s }
            },
            _ => spec_abort(s, interruption_code(e)),
        },
        Phase::HandleAcquired => match e {
            Event::Sent => Session { phase: Phase::RequestSubmitted, ..s },
            _ => spec_abort(s, interruption_code(e)),
        },
        Phase::RequestSubmitted => match e {
            Event::Response(b) => Session {
                phase: Phase::ResultReady,
                held: false,
                releases: (s.releases + 1) as u64,
                outcome: response_code(b@),
                transient: response_transient(b@),
                ..s
            },
            _ => spec_abort(s, interruption_code(e)),
        },
        Phase::ResultReady | Phase::Aborted => s,
    }
}

/// The action asked for after event `e`.
pub open spec fn next_action(s: Session, e: Event) -> Action {
    match s.phase {
        Phase::Idle => match e {
            Event::Start => Action::Acquire,
            _ => abort_action(s),
        },
        Phase::TargetResolved => match e {
            Event::Acquired => Action::Submit,
            Event::AcquireFailed(code, transient) => if spec_should_retry(
                code,
                transient,
                s.attempts,
            ) {
                Action::RetryAcquire
            } else {
                Action::Finish
            },
            _ => abort_action(s),
        },
        Phase::HandleAcquired => match e {
            Event::Sent => Action::Wait,
            _ => abort_action(s),
        },
        Phase::RequestSubmitted => match e {
            Event::Response(_) => Action::Release,
            _ => abort_action(s),
        },
        Phase::ResultReady | Phase::Aborted => Action::Finish,
    }
}

pub proof fn lemma_next_wf(s: Session, e: Event)
    requires
        s.wf(),
    ensures
        next(s, e).wf(),
        next(s, e).request == s.request,
        s.is_terminal() ==> next(s, e) == s,
        next_action(s, e) == Action::Release <==> next(s, e).releases == s.releases + 1,
        next(s, e).releases == s.releases || next(s, e).releases == s.releases + 1,
{
}

impl Session {
    pub fn new(request: OperationRequest) -> (r: Session)
        requires
            request.wf(),
        ensures
            r == spec_new(request),
            r.wf(),
    {
        Session {
            request,
            phase: Phase::Idle,
            held: false,
            acquisitions: 0,
            releases: 0,
            attempts: 0,
            outcome: ExitCode::Fatal,
            transient: false,
        }
    }

    fn abort(&mut self, code: ExitCode) -> (a: Action)
        requires
            old(self).wf(),
        ensures
            *final(self) == spec_abort(*old(self), code),
            a == abort_action(*old(self)),
    {
        let a = if self.held {
            self.releases = self.releases + 1;
            Action::Release
        } else {
            Action::Finish
        };
        self.phase = Phase::Aborted;
        self.held = false;
        self.outcome = code;
        self.transient = false;
        a
    }

    /// Takes the next event and says what to do.
    pub fn step(&mut self, e: Event) -> (a: Action)
        requires
            old(self).wf(),
        ensures
            *final(self) == next(*old(self), e),
            a == next_action(*old(self), e),
            final(self).wf(),
            final(self).outcome == ExitCode::Success ==> final(self).phase == Phase::ResultReady,
    {
        proof {
            lemma_next_wf(*self, e);
        }
        let interrupted = match e {
            Event::TimedOut => ExitCode::DriverInaccessible,
            _ => ExitCode::Fatal,
        };
        match self.phase {
            Phase::Idle => match e {
                Event::Start => {
                    self.phase = Phase::TargetResolved;
                    Action::Acquire
                },
                _ => self.abort(interrupted),
            },
            Phase::TargetResolved => match e {
                Event::Acquired => {
                    self.phase = Phase::HandleAcquired;
                    self.held = true;
                    self.acquisitions = self.acquisitions + 1;
                    Action::Submit
                },
                Event::AcquireFailed(code, transient) => {
                    if should_retry(code, transient, self.attempts) {
                        self.attempts = self.attempts + 1;
                        Action::RetryAcquire
                    } else {
                        self.phase = Phase::Aborted;
                        self.outcome = if code == ExitCode::Success {
                            ExitCode::Fatal
                        } else {
                            code
                        };
                        self.transient = transient;
                        Action::Finish
                    }
                },
                _ => self.abort(interrupted),
            },
            Phase::HandleAcquired => match e {
                Event::Sent => {
                    self.phase = Phase::RequestSubmitted;
                    Action::Wait
                },
                _ => self.abort(interrupted),
            },
            Phase::RequestSubmitted => match e {
                Event::Response(b) => {
                    let st = decode(b.as_slice());
                    self.phase = Phase::ResultReady;
                    self.held = false;
                    self.releases = self.releases + 1;
                    self.outcome = st.code;
                    self.transient = st.transient;
                    Action::Release
                },
                _ => self.abort(interrupted),
            },
            Phase::ResultReady | Phase::Aborted => Action::Finish,
        }
    }

    /// The frame to send when the action is `Submit`.
    pub fn request_frame(&self) -> (r: Vec<u8>)
        requires
            self.wf(),
        ensures
            r@ == request_bytes(self.request),
    {
        match encode(&self.request) {
            Ok(b) => b,
            Err(_) => {
                assert(false);
                Vec::new()
            },
        }
    }

    pub fn is_finished(&self) -> (r: bool)
        ensures
            r == self.is_terminal(),
    {
        self.phase == Phase::ResultReady || self.phase == Phase::Aborted
    }

    /// The outcome, once the operation has ended.
    pub fn status(&self) -> (r: StatusResult)
        ensures
            r.code == self.outcome,
            r.transient == self.transient,
            r.message@ == self.outcome.spec_text(),
    {
        StatusResult::new(self.outcome, self.transient)
    }
}

/// The state after a sequence of events.
pub open spec fn run(s: Session, events: Seq<Event>) -> Session
    decreases events.len(),
{
    if events.len() == 0 {
        s
    } else {
        run(next(s, events[0]), events.drop_first())
    }
}

/// How many times a sequence of events asks the caller to release a handle.
pub open spec fn release_count(s: Session, events: Seq<Event>) -> nat
    decreases events.len(),
{
    if events.len() == 0 {
        0
    } else {
        (if next_action(s, events[0]) == Action::Release {
            1nat
        } else {
            0nat
        }) + release_count(next(s, events[0]), events.drop_first())
    }
}

proof fn lemma_run(s: Session, events: Seq<Event>)
    requires
        s.wf(),
    ensures
        run(s, events).wf(),
        run(s, events).releases == s.releases + release_count(s, events),
    decreases events.len(),
{
    if events.len() > 0 {
        lemma_next_wf(s, events[0]);
        lemma_run(next(s, events[0]), events.drop_first());
    }
}

/// Whatever events come, in whatever order: at most one handle is opened,
/// each release is asked for once, and once the operation has ended every
/// opened handle has been released exactly once.
pub proof fn lemma_release_once(request: OperationRequest, events: Seq<Event>)
    requires
        request.wf(),
    ensures
        run(spec_new(request), events).wf(),
        run(spec_new(request), events).acquisitions <= 1,
        release_count(spec_new(request), events) == run(spec_new(request), events).releases,
        run(spec_new(request), events).is_terminal() ==> release_count(spec_new(request), events)
            == run(spec_new(request), events).acquisitions,
{
    lemma_run(spec_new(request), events);
}

/// An interruption in any phase ends the operation, and the open handle, if
/// any, is released.
pub proof fn lemma_cancel_releases(s: Session)
    requires
        s.wf(),
    ensures
        next(s, Event::Cancelled).is_terminal(),
        next(s, Event::Cancelled).releases == next(s, Event::Cancelled).acquisitions,
        next_action(s, Event::Cancelled) == Action::Release <==> s.held,
{
}

/// Creating a disk: once the handle is open the request frame for the disk is
/// submitted, and a success response from the driver ends the operation in
/// `ResultReady` with `Success`, its handle released.
pub proof fn lemma_create_success(d: DiskSpec, resp: Vec<u8>)
    requires
        d.wf(),
        resp@ == response_bytes(ExitCode::Success, false),
    ensures
        ({
            let s1 = next(spec_new(OperationRequest::Create(d)), Event::Start);
            let s2 = next(s1, Event::Acquired);
            let s3 = next(s2, Event::Sent);
            let s4 = next(s3, Event::Response(resp));
            &&& next_action(s1, Event::Acquired) == Action::Submit
            &&& request_bytes(s2.request) == request_bytes(OperationRequest::Create(d))
            &&& s4.phase == Phase::ResultReady
            &&& s4.outcome == ExitCode::Success
            &&& s4.acquisitions == 1
            &&& s4.releases == 1
        }),
{
    lemma_response_round_trip(ExitCode::Success, false);
}

/// The outcome of a query of all disks, after the usual events.
pub open spec fn query_all_outcome(resp: Vec<u8>) -> Session {
    let s1 = next(spec_new(OperationRequest::Query(None)), Event::Start);
    let s2 = next(s1, Event::Acquired);
    let s3 = next(s2, Event::Sent);
    next(s3, Event::Response(resp))
}

/// Querying all disks twice, with the driver answering the same both times,
/// sends the same frame and reports the same status.
pub proof fn lemma_query_repeatable(first: Vec<u8>, second: Vec<u8>)
    requires
        first@ == second@,
    ensures
        query_all_outcome(first) == query_all_outcome(second),
{
}

/// An operation reports `Success` only after its handle was opened, its
/// request answered by the driver, and the handle released.
pub proof fn lemma_success_needs_driver(request: OperationRequest, events: Seq<Event>)
    requires
        request.wf(),
    ensures
        run(spec_new(request), events).outcome == ExitCode::Success ==> {
            &&& run(spec_new(request), events).phase == Phase::ResultReady
            &&& run(spec_new(request), events).acquisitions == 1
            &&& run(spec_new(request), events).releases == 1
        },
{
    lemma_run(spec_new(request), events);
}

} // verus!
