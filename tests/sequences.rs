use com_serial::dcb::{DCB, DCBF_DTR_MASK, DTR_CONTROL};
use com_serial::error::{CommError, ErrorKind, Operation};
use com_serial::session::{
    Action, Configurator, DcbChange, HostReply, HostRequest, Phase, PURGE_RXCLEAR, PURGE_TXCLEAR,
};
use com_serial::timeouts::COMMTIMEOUTS;

fn initial_block() -> DCB {
    DCB {
        dcb_length: 28,
        baud_rate: 9600,
        flags: 0x0021,
        f_dummy: 0,
        w_reserved: 0,
        xon_lim: 2048,
        xoff_lim: 512,
        byte_size: 7,
        parity: 2,
        stop_bits: 2,
        xon_char: 0x11,
        xoff_char: 0x13,
        error_char: 0,
        eof_char: 0x1A,
        evt_char: 0,
        w_reserved1: 0,
    }
}

/// Runs a sequence against a simulated port; the request numbered `fail_at`
/// (from 0) fails with `code`. Returns the requests made, the outcome and
/// the port's final control block.
fn run(
    mut conf: Configurator,
    fail_at: Option<(usize, i32)>,
) -> (Vec<HostRequest>, Result<(), CommError>, DCB) {
    let mut port = initial_block();
    let mut requests = Vec::new();
    let mut action = conf.start();
    loop {
        let request = match action {
            Action::Finished(r) => return (requests, r, port),
            Action::Call(req) => req,
        };
        let index = requests.len();
        requests.push(request);
        let reply = match fail_at {
            Some((at, code)) if at == index => HostReply::Failed(code),
            _ => match request {
                HostRequest::GetCommState => HostReply::State(port),
                HostRequest::SetCommState(d) => {
                    port = d;
                    HostReply::Done
                }
                _ => HostReply::Done,
            },
        };
        assert!(conf.accepts(&reply));
        action = conf.resume(reply);
    }
}

#[test]
fn open_runs_each_setting_as_its_own_round_trip() {
    let (requests, outcome, port) = run(Configurator::opening(115_200), None);
    assert_eq!(outcome, Ok(()));
    let mut dtr = initial_block();
    dtr.set_dtr_control(DTR_CONTROL::ENABLE);
    let baud = DCB { baud_rate: 115_200, ..dtr };
    let size = DCB { byte_size: 8, ..baud };
    let stop = DCB { stop_bits: 0, ..size };
    let parity = DCB { parity: 0, ..stop };
    assert_eq!(
        requests,
        vec![
            HostRequest::Open,
            HostRequest::GetCommState,
            HostRequest::SetCommState(dtr),
            HostRequest::GetCommState,
            HostRequest::SetCommState(baud),
            HostRequest::GetCommState,
            HostRequest::SetCommState(size),
            HostRequest::GetCommState,
            HostRequest::SetCommState(stop),
            HostRequest::GetCommState,
            HostRequest::SetCommState(parity),
            HostRequest::PurgeComm(PURGE_RXCLEAR | PURGE_TXCLEAR),
            HostRequest::SetCommTimeouts(COMMTIMEOUTS::uniform(40)),
        ]
    );
    assert_eq!(port, parity);
    assert_eq!(port.flags & DCBF_DTR_MASK, 0x0010);
}

#[test]
fn open_of_missing_port_makes_no_other_call() {
    let (requests, outcome, port) = run(Configurator::opening(9600), Some((0, 2)));
    assert_eq!(requests, vec![HostRequest::Open]);
    let e = outcome.unwrap_err();
    assert_eq!(e.kind(), ErrorKind::NotFound);
    assert_eq!(e, CommError::Host { kind: ErrorKind::NotFound, operation: Operation::Open, code: 2 });
    assert_eq!(port, initial_block());
}

#[test]
fn busy_port_fails_open() {
    let (requests, outcome, _) = run(Configurator::opening(9600), Some((0, 5)));
    assert_eq!(requests.len(), 1);
    assert_eq!(outcome.unwrap_err().kind(), ErrorKind::AlreadyExists);
}

#[test]
fn failure_after_open_closes_handle_once() {
    // The write of the baud rate fails: the DTR change stays, nothing after it runs.
    let (requests, outcome, port) = run(Configurator::opening(57_600), Some((4, 31)));
    assert_eq!(requests.len(), 6);
    assert_eq!(requests[5], HostRequest::Close);
    assert_eq!(requests.iter().filter(|r| **r == HostRequest::Close).count(), 1);
    assert_eq!(
        outcome,
        Err(CommError::Host { kind: ErrorKind::Other, operation: Operation::SetCommState, code: 31 })
    );
    assert_eq!(port.baud_rate, 9600);
    assert_eq!(port.flags & DCBF_DTR_MASK, 0x0010);
}

#[test]
fn failed_purge_is_ignored() {
    let (requests, outcome, _) = run(Configurator::opening(9600), Some((11, 6)));
    assert_eq!(outcome, Ok(()));
    assert_eq!(requests.len(), 13);
}

#[test]
fn failed_timeouts_fail_open() {
    let (requests, outcome, _) = run(Configurator::opening(9600), Some((12, 87)));
    assert_eq!(requests.last(), Some(&HostRequest::Close));
    assert_eq!(
        outcome,
        Err(CommError::Host { kind: ErrorKind::Other, operation: Operation::SetCommTimeouts, code: 87 })
    );
}

#[test]
fn setter_changes_one_field() {
    let (requests, outcome, port) = run(Configurator::changing(DcbChange::Parity(3)), None);
    assert_eq!(outcome, Ok(()));
    assert_eq!(requests.len(), 2);
    assert_eq!(port, DCB { parity: 3, ..initial_block() });
    let (_, _, port) = run(Configurator::changing(DcbChange::StopBits(1)), None);
    assert_eq!(port, DCB { stop_bits: 1, ..initial_block() });
    let (_, _, port) = run(Configurator::changing(DcbChange::ByteSize(6)), None);
    assert_eq!(port, DCB { byte_size: 6, ..initial_block() });
    let (_, _, port) = run(Configurator::changing(DcbChange::BaudRate(19_200)), None);
    assert_eq!(port, DCB { baud_rate: 19_200, ..initial_block() });
}

#[test]
fn setter_failure_does_not_close() {
    let (requests, outcome, port) = run(Configurator::changing(DcbChange::BaudRate(1)), Some((0, 6)));
    assert_eq!(requests, vec![HostRequest::GetCommState]);
    assert_eq!(
        outcome,
        Err(CommError::Host { kind: ErrorKind::InvalidInput, operation: Operation::GetCommState, code: 6 })
    );
    assert_eq!(port, initial_block());
}

#[test]
fn set_timeout_sets_all_five_fields() {
    let (requests, outcome, _) = run(Configurator::setting_timeout(250), None);
    assert_eq!(outcome, Ok(()));
    assert_eq!(requests, vec![HostRequest::SetCommTimeouts(COMMTIMEOUTS::uniform(250))]);
    let (_, outcome, _) = run(Configurator::setting_timeout(0), None);
    assert_eq!(outcome, Ok(()));
}

#[test]
fn finished_sequence_accepts_no_reply() {
    let mut conf = Configurator::changing(DcbChange::ByteSize(8));
    assert!(!conf.accepts(&HostReply::Done));
    conf.start();
    assert!(!conf.accepts(&HostReply::Done));
    assert!(conf.accepts(&HostReply::Failed(1)));
    let a = conf.resume(HostReply::Failed(1));
    assert!(matches!(a, Action::Finished(Err(_))));
    assert_eq!(conf.phase, Phase::Finished);
    assert!(!conf.accepts(&HostReply::Failed(1)));
}
