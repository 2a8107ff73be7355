use netif::ifcontrol::IoError;
use netif::overlapped::{
    read_done, read_due, read_poll, read_scheduled, write_done, write_poll, write_scheduled,
    IoState, ReadOutcome, ReadScheduling, WriteNext, ERROR_BROKEN_PIPE, ERROR_PIPE_LISTENING,
};

fn os_error(code: i32) -> IoError {
    IoError { raw_os_error: Some(code), message: String::from("failed") }
}

fn data_of(outcome: ReadOutcome) -> Vec<u8> {
    match outcome {
        ReadOutcome::Data(v) => v,
        other => panic!("expected data, got {:?}", other),
    }
}

#[test]
fn unregistered_handle_would_block() {
    let mut state = IoState::Ready { data: vec![1, 2, 3], cur: 0 };
    let (outcome, again) = read_poll(&mut state, false, 10);
    assert!(matches!(outcome, ReadOutcome::WouldBlock));
    assert!(!again);
    assert!(matches!(state, IoState::Ready { cur: 0, .. }));
    assert!(write_poll(&IoState::Idle, false, &[1, 2]).is_none());
}

#[test]
fn read_in_flight_would_block() {
    let mut state = IoState::Idle;
    read_scheduled(&mut state, Ok(()));
    assert!(matches!(state, IoState::Pending { pos: 0, .. }));
    let (outcome, again) = read_poll(&mut state, true, 4);
    assert!(matches!(outcome, ReadOutcome::WouldBlock));
    assert!(!again);
    assert!(matches!(state, IoState::Pending { .. }));
}

#[test]
fn completed_read_is_handed_out_in_pieces() {
    let mut state = IoState::Idle;
    read_scheduled(&mut state, Ok(()));
    read_done(&mut state, Ok(vec![10, 20, 30, 40, 50]));
    let (first, again) = read_poll(&mut state, true, 2);
    assert_eq!(data_of(first), vec![10, 20]);
    assert!(!again);
    assert!(matches!(state, IoState::Ready { cur: 2, .. }));
    let (second, again) = read_poll(&mut state, true, 2);
    assert_eq!(data_of(second), vec![30, 40]);
    assert!(!again);
    let (third, again) = read_poll(&mut state, true, 8);
    assert_eq!(data_of(third), vec![50]);
    assert!(again);
    assert!(matches!(state, IoState::Idle));
}

#[test]
fn two_reads_give_what_one_read_gives() {
    let mut split = IoState::Ready { data: vec![1, 2, 3, 4, 5, 6], cur: 1 };
    let mut whole = IoState::Ready { data: vec![1, 2, 3, 4, 5, 6], cur: 1 };
    let mut pieces = data_of(read_poll(&mut split, true, 1).0);
    pieces.extend(data_of(read_poll(&mut split, true, 2).0));
    let one = data_of(read_poll(&mut whole, true, 3).0);
    assert_eq!(pieces, one);
    assert_eq!(one, vec![2, 3, 4]);
}

#[test]
fn broken_pipe_reads_as_end_of_stream() {
    let mut state = IoState::Idle;
    read_scheduled(&mut state, Ok(()));
    read_done(&mut state, Err(os_error(ERROR_BROKEN_PIPE)));
    let (outcome, again) = read_poll(&mut state, true, 16);
    assert_eq!(data_of(outcome), Vec::<u8>::new());
    assert!(again);
    assert!(matches!(state, IoState::Idle));
}

#[test]
fn failed_read_is_reported_once() {
    let mut state = IoState::Idle;
    read_scheduled(&mut state, Err(os_error(5)));
    let (outcome, again) = read_poll(&mut state, true, 16);
    match outcome {
        ReadOutcome::Error(e) => assert_eq!(e.raw_os_error, Some(5)),
        other => panic!("expected an error, got {:?}", other),
    }
    assert!(again);
    assert!(matches!(state, IoState::Idle));
}

#[test]
fn write_takes_a_copy_and_finishes_in_parts() {
    let mut state = IoState::Idle;
    let copy = write_poll(&state, true, &[7, 8, 9]).expect("an idle handle accepts a write");
    assert_eq!(copy, vec![7, 8, 9]);
    write_scheduled(&mut state, copy, 0, Ok(()));
    assert!(write_poll(&state, true, &[1]).is_none());
    match write_done(&mut state, Ok(2)) {
        WriteNext::Reschedule { buf, pos } => {
            assert_eq!(buf, vec![7, 8, 9]);
            assert_eq!(pos, 2);
            write_scheduled(&mut state, buf, pos, Ok(()));
        }
        WriteNext::Writable => panic!("the write went out in part"),
    }
    assert!(matches!(write_done(&mut state, Ok(1)), WriteNext::Writable));
    assert!(matches!(state, IoState::Idle));
}

#[test]
fn failed_write_blocks_further_writes() {
    let mut state = IoState::Idle;
    write_scheduled(&mut state, vec![1, 2], 0, Ok(()));
    assert!(matches!(write_done(&mut state, Err(os_error(6))), WriteNext::Writable));
    assert!(matches!(state, IoState::Failed(_)));
    assert!(write_poll(&state, true, &[1]).is_none());
}

#[test]
fn read_on_unconnected_pipe_is_not_scheduled() {
    let mut state = IoState::Idle;
    assert!(read_due(&state));
    let r = read_scheduled(&mut state, Err(os_error(ERROR_PIPE_LISTENING)));
    assert_eq!(r, ReadScheduling::NotConnected);
    assert!(!r.scheduled());
    assert!(matches!(state, IoState::Idle));
}

#[test]
fn read_failing_at_once_is_scheduled_as_an_error() {
    let mut state = IoState::Idle;
    let r = read_scheduled(&mut state, Err(os_error(5)));
    assert_eq!(r, ReadScheduling::FailedNow);
    assert!(r.scheduled());
    assert!(matches!(state, IoState::Failed(_)));
}

#[test]
fn read_is_not_scheduled_twice() {
    let mut state = IoState::Ready { data: vec![1, 2], cur: 1 };
    assert!(!read_due(&state));
    let r = read_scheduled(&mut state, Ok(()));
    assert_eq!(r, ReadScheduling::AlreadyScheduled);
    assert!(r.scheduled());
    assert!(matches!(state, IoState::Ready { cur: 1, .. }));
    let mut started = IoState::Idle;
    assert_eq!(read_scheduled(&mut started, Ok(())), ReadScheduling::InFlight);
    assert!(matches!(started, IoState::Pending { pos: 0, .. }));
}
