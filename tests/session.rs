use vdisk_ctl::codec::{encode_response, FLAG_FORCE, OP_REMOVE};
use vdisk_ctl::request::{DeviceTarget, DiskSpec, DiskType, OperationRequest};
use vdisk_ctl::session::{Action, Event, Phase, Session};
use vdisk_ctl::status::ExitCode;

/// A stand-in for the driver: answers each frame, and counts handles.
struct Driver {
    busy: bool,
    acquire_failures: Vec<(ExitCode, bool)>,
    answer: ExitCode,
    acquired: u32,
    released: u32,
}

impl Driver {
    fn new(answer: ExitCode) -> Driver {
        Driver { busy: false, acquire_failures: vec![], answer, acquired: 0, released: 0 }
    }

    fn respond(&self, frame: &[u8]) -> Vec<u8> {
        if frame[0] == OP_REMOVE && self.busy && frame[1] & FLAG_FORCE == 0 {
            encode_response(ExitCode::DeviceInaccessible, false)
        } else {
            encode_response(self.answer, false)
        }
    }
}

/// Runs a session to its end; `interrupt` injects an event after that many steps.
fn drive(req: OperationRequest, driver: &mut Driver, interrupt: Option<(usize, Event)>) -> Session {
    let mut s = Session::new(req);
    let mut ev = Event::Start;
    let mut pending: Vec<u8> = vec![];
    let mut steps = 0usize;
    loop {
        let mut action = s.step(ev);
        if let Some((k, e)) = &interrupt {
            // an interruption arrives before the next action is performed
            if *k == steps && action != Action::Release && action != Action::Finish {
                action = s.step(e.clone());
            }
        }
        steps += 1;
        match action {
            Action::Acquire | Action::RetryAcquire => {
                if driver.acquire_failures.is_empty() {
                    driver.acquired += 1;
                    ev = Event::Acquired;
                } else {
                    let (c, t) = driver.acquire_failures.remove(0);
                    ev = Event::AcquireFailed(c, t);
                }
            }
            Action::Submit => {
                pending = driver.respond(&s.request_frame());
                ev = Event::Sent;
            }
            Action::Wait => ev = Event::Response(pending.clone()),
            Action::Release => {
                driver.released += 1;
                assert!(s.is_finished());
                break;
            }
            Action::Finish => break,
        }
    }
    assert!(s.is_finished());
    s
}

fn vm_disk() -> DiskSpec {
    DiskSpec {
        disk_type: DiskType::Vm,
        file: None,
        size: Some(1048576),
        unit: None,
        mount_point: Some("R:".to_string()),
    }
}

#[test]
fn create_then_success() {
    let mut d = Driver::new(ExitCode::Success);
    let s = drive(OperationRequest::Create(vm_disk()), &mut d, None);
    assert_eq!(s.phase, Phase::ResultReady);
    assert_eq!(s.status().code, ExitCode::Success);
    assert_eq!((d.acquired, d.released), (1, 1));
}

#[test]
fn busy_device_normal_and_forced_detach() {
    let target = DeviceTarget::Unit(0);
    let mut d = Driver::new(ExitCode::Success);
    d.busy = true;
    let s = drive(OperationRequest::Remove(target.clone(), false), &mut d, None);
    assert_eq!(s.status().code, ExitCode::DeviceInaccessible);
    let mut d = Driver::new(ExitCode::Success);
    d.busy = true;
    let s = drive(OperationRequest::Remove(target, true), &mut d, None);
    assert_eq!(s.status().code, ExitCode::Success);
}

#[test]
fn release_once_on_every_path() {
    let kinds = [
        ExitCode::Success,
        ExitCode::DeviceNotFound,
        ExitCode::DeviceInaccessible,
        ExitCode::CreateDevice,
        ExitCode::DriverNotInstalled,
        ExitCode::DriverWrongVersion,
        ExitCode::DriverInaccessible,
        ExitCode::ServiceInaccessible,
        ExitCode::Format,
        ExitCode::BadMountPoint,
        ExitCode::BadSyntax,
        ExitCode::NotEnoughMemory,
        ExitCode::PartitionNotFound,
        ExitCode::WrongSyntax,
        ExitCode::NoFreeDriveLetters,
        ExitCode::Fatal,
    ];
    for k in kinds {
        // the driver answers with each kind
        let mut d = Driver::new(k);
        let s = drive(OperationRequest::Query(Some(DeviceTarget::Unit(1))), &mut d, None);
        assert_eq!(s.status().code, k);
        assert_eq!((d.acquired, d.released), (1, 1));
        // acquisition fails with each kind
        let mut d = Driver::new(ExitCode::Success);
        d.acquire_failures = vec![(k, false)];
        let s = drive(OperationRequest::Query(None), &mut d, None);
        // a failed acquisition never reports success
        let expected = if k == ExitCode::Success { ExitCode::Fatal } else { k };
        assert_eq!(s.status().code, expected);
        assert_eq!((d.acquired, d.released), (0, 0));
    }
    // interrupted or timed out after each number of steps
    for k in 0..6 {
        for e in [Event::Cancelled, Event::TimedOut] {
            let mut d = Driver::new(ExitCode::Success);
            let s = drive(OperationRequest::Query(None), &mut d, Some((k, e.clone())));
            assert_eq!(d.acquired, d.released);
            assert_eq!(s.acquisitions as u32, d.acquired);
            assert_eq!(s.releases as u32, d.released);
        }
    }
}

#[test]
fn cancel_while_holding_reports_fatal() {
    let mut d = Driver::new(ExitCode::Success);
    let s = drive(OperationRequest::Query(None), &mut d, Some((1, Event::Cancelled)));
    assert_eq!(s.phase, Phase::Aborted);
    assert_eq!(s.status().code, ExitCode::Fatal);
    assert_eq!((d.acquired, d.released), (1, 1));
    let mut d = Driver::new(ExitCode::Success);
    let s = drive(OperationRequest::Query(None), &mut d, Some((2, Event::TimedOut)));
    assert_eq!(s.status().code, ExitCode::DriverInaccessible);
    assert_eq!((d.acquired, d.released), (1, 1));
}

#[test]
fn transient_contention_retried_once() {
    let mut d = Driver::new(ExitCode::Success);
    d.acquire_failures = vec![(ExitCode::DeviceInaccessible, true)];
    let s = drive(OperationRequest::Query(None), &mut d, None);
    assert_eq!(s.status().code, ExitCode::Success);
    assert_eq!(s.attempts, 1);

    let mut d = Driver::new(ExitCode::Success);
    d.acquire_failures =
        vec![(ExitCode::DeviceInaccessible, true), (ExitCode::DeviceInaccessible, true)];
    let s = drive(OperationRequest::Query(None), &mut d, None);
    assert_eq!(s.phase, Phase::Aborted);
    assert_eq!(s.status().code, ExitCode::DeviceInaccessible);
    assert!(s.status().transient);
    assert_eq!((d.acquired, d.released), (0, 0));
}

#[test]
fn query_all_twice_same_status() {
    let mut d = Driver::new(ExitCode::Success);
    let a = drive(OperationRequest::Query(None), &mut d, None);
    let b = drive(OperationRequest::Query(None), &mut d, None);
    assert_eq!(a.request_frame(), b.request_frame());
    assert_eq!(a.status().code, b.status().code);
    assert_eq!(a.status().message, b.status().message);
    assert_eq!(a.status().transient, b.status().transient);
}

#[test]
fn unexpected_event_aborts() {
    let mut s = Session::new(OperationRequest::Query(None));
    assert_eq!(s.step(Event::Sent), Action::Finish);
    assert_eq!(s.phase, Phase::Aborted);
    assert_eq!(s.status().code, ExitCode::Fatal);
    assert_eq!(s.step(Event::Start), Action::Finish);
    assert_eq!(s.phase, Phase::Aborted);
}

#[test]
fn failed_acquire_never_succeeds() {
    let mut s = Session::new(OperationRequest::Remove(DeviceTarget::Unit(0), false));
    assert_eq!(s.step(Event::Start), Action::Acquire);
    assert_eq!(s.step(Event::AcquireFailed(ExitCode::Success, false)), Action::Finish);
    assert_eq!(s.phase, Phase::Aborted);
    assert_eq!(s.acquisitions, 0);
    assert_eq!(s.status().code, ExitCode::Fatal);
    assert_eq!(s.status().code.code(), -1);
}
