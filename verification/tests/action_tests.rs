use nrf70::action::{get_result, Action, ActionState, Item};
use nrf70::error::Error;

#[test]
fn new_state_is_idle() {
    let s = ActionState::new();
    assert_eq!(s.wait_complete(), Some(Ok(None)));
}

#[test]
fn issue_take_answer_round_trip() {
    let mut s = ActionState::new();
    assert_eq!(s.issue(Action::Command((3, true, vec![1, 2, 3], Some(8)))), Ok(()));
    assert_eq!(s.wait_complete(), None);
    let taken = s.wait_pending();
    match taken {
        Some(Action::Command((msg_type, wait, payload, buffer))) => {
            assert_eq!(msg_type, 3);
            assert!(wait);
            assert_eq!(payload, vec![1, 2, 3]);
            assert_eq!(buffer, Some(8));
        }
        other => panic!("unexpected action {:?}", other),
    }
    assert_eq!(s.wait_complete(), None);
    assert!(s.respond(Ok(Some(vec![9, 8, 7, 6]))));
    assert_eq!(s.wait_complete(), Some(Ok(Some(4))));
    assert_eq!(s.take_response(), vec![9, 8, 7, 6]);
    assert_eq!(s.take_response(), Vec::<u8>::new());
    assert_eq!(s.wait_complete(), Some(Ok(Some(4))));
}

#[test]
fn second_issue_is_busy() {
    let mut s = ActionState::new();
    assert_eq!(s.issue(Action::WaitForDone), Ok(()));
    assert_eq!(s.issue(Action::Boot(vec![0; 4])), Err(Error::Busy));
    assert!(s.wait_pending().is_some());
    assert_eq!(s.issue(Action::Boot(vec![0; 4])), Err(Error::Busy));
    assert!(matches!(s.issue_stream(Action::WaitForDone), Err(Error::Busy)));
    s.respond(Ok(None));
    assert_eq!(s.wait_complete(), Some(Ok(None)));
    assert_eq!(s.issue(Action::Boot(vec![0; 4])), Ok(()));
}

#[test]
fn action_is_taken_once() {
    let mut s = ActionState::new();
    assert!(s.wait_pending().is_none());
    s.issue(Action::Get((Item::UmacInfo, 16))).unwrap();
    assert!(matches!(s.wait_pending(), Some(Action::Get((Item::UmacInfo, 16)))));
    assert!(s.wait_pending().is_none());
}

#[test]
fn answer_too_large_for_buffer() {
    let mut s = ActionState::new();
    s.issue(Action::Get((Item::UmacInfo, 2))).unwrap();
    s.wait_pending().unwrap();
    s.respond(Ok(Some(vec![1, 2, 3])));
    assert_eq!(s.wait_complete(), Some(Err(Error::BufferTooSmall)));
    assert_eq!(s.take_response(), Vec::<u8>::new());
}

#[test]
fn answer_that_exactly_fits() {
    let mut s = ActionState::new();
    s.issue(Action::Get((Item::UmacInfo, 3))).unwrap();
    s.wait_pending().unwrap();
    s.respond(Ok(Some(vec![1, 2, 3])));
    assert_eq!(s.wait_complete(), Some(Ok(Some(3))));
    assert_eq!(s.take_response(), vec![1, 2, 3]);
}

#[test]
fn answer_data_without_buffer_is_dropped() {
    let mut s = ActionState::new();
    s.issue(Action::Command((3, false, vec![5], None))).unwrap();
    s.wait_pending().unwrap();
    s.respond(Ok(Some(vec![1, 2, 3])));
    assert_eq!(s.wait_complete(), Some(Ok(None)));
    assert_eq!(s.take_response(), Vec::<u8>::new());
}

#[test]
fn runner_error_is_passed_on() {
    let mut s = ActionState::new();
    s.issue(Action::WaitForDone).unwrap();
    s.wait_pending().unwrap();
    s.respond(Err(Error::InvalidData));
    assert_eq!(s.wait_complete(), Some(Err(Error::InvalidData)));
}

#[test]
fn unrequested_answer_is_ignored() {
    let mut s = ActionState::new();
    assert!(!s.respond(Ok(Some(vec![1]))));
    assert_eq!(s.wait_complete(), Some(Ok(None)));
    s.issue(Action::WaitForDone).unwrap();
    // the runner has not taken the action yet
    assert!(!s.respond(Ok(Some(vec![1]))));
    assert_eq!(s.wait_complete(), None);
    assert!(s.wait_pending().is_some());
}

#[test]
fn cancel_frees_the_state() {
    let mut s = ActionState::new();
    s.issue(Action::WaitForDone).unwrap();
    s.wait_pending().unwrap();
    s.cancel();
    assert_eq!(s.wait_complete(), Some(Ok(None)));
    assert_eq!(s.issue(Action::WaitForDone), Ok(()));
}

#[test]
fn get_result_cases() {
    assert_eq!(get_result(Ok(Some(vec![1, 2])), Some(2)), (Ok(Some(2)), vec![1, 2]));
    assert_eq!(get_result(Ok(Some(vec![1, 2])), Some(1)), (Err(Error::BufferTooSmall), vec![]));
    assert_eq!(get_result(Ok(Some(vec![1, 2])), None), (Ok(None), vec![]));
    assert_eq!(get_result(Ok(None), Some(4)), (Ok(None), vec![]));
    assert_eq!(get_result(Err(Error::Busy), Some(4)), (Err(Error::Busy), vec![]));
    assert_eq!(get_result(Ok(Some(vec![])), Some(0)), (Ok(Some(0)), vec![]));
}

#[test]
fn stream_delivers_chunks_in_order_then_ends() {
    let mut s = ActionState::new();
    let mut stream = s.issue_stream(Action::WaitForDone).unwrap();
    assert!(stream.poll_next(&mut s).is_none());
    s.wait_pending().unwrap();
    assert_eq!(s.respond_stream(&[1, 2, 3]), Ok(()));
    assert_eq!(s.respond_stream(&[4]), Ok(()));
    match stream.poll_next(&mut s) {
        Some(Some(Ok(chunk))) => assert_eq!(chunk.as_slice(), &[1, 2, 3]),
        _ => panic!("expected the first chunk"),
    }
    match stream.poll_next(&mut s) {
        Some(Some(Ok(chunk))) => assert_eq!(chunk.as_slice(), &[4]),
        _ => panic!("expected the second chunk"),
    }
    assert!(stream.poll_next(&mut s).is_none());
    s.finish_stream(Ok(None));
    assert!(matches!(stream.poll_next(&mut s), Some(None)));
    assert!(matches!(stream.poll_next(&mut s), Some(None)));
}

#[test]
fn stream_chunks_before_end() {
    let mut s = ActionState::new();
    let mut stream = s.issue_stream(Action::WaitForDone).unwrap();
    s.wait_pending().unwrap();
    s.respond_stream(&[7]).unwrap();
    s.finish_stream(Err(Error::InvalidData));
    match stream.poll_next(&mut s) {
        Some(Some(Ok(chunk))) => assert_eq!(chunk.as_slice(), &[7]),
        _ => panic!("expected the chunk"),
    }
    assert!(matches!(stream.poll_next(&mut s), Some(Some(Err(Error::InvalidData)))));
    assert!(matches!(stream.poll_next(&mut s), Some(None)));
}

#[test]
fn stream_refusals() {
    let mut s = ActionState::new();
    assert_eq!(s.respond_stream(&[1]), Err(Error::InvalidState));
    let _stream = s.issue_stream(Action::WaitForDone).unwrap();
    assert_eq!(s.respond_stream(&[1]), Err(Error::InvalidState));
    s.wait_pending().unwrap();
    assert_eq!(s.respond_stream(&vec![0u8; 1601]), Err(Error::BufferTooSmall));
    assert_eq!(s.respond_stream(&vec![0u8; 1600]), Ok(()));
    assert_eq!(s.respond_stream(&[2]), Ok(()));
    assert_eq!(s.respond_stream(&[3]), Ok(()));
    assert_eq!(s.respond_stream(&[4]), Ok(()));
    assert_eq!(s.respond_stream(&[5]), Err(Error::StreamTooSmall));
}

#[test]
fn new_stream_drops_old_chunks() {
    let mut s = ActionState::new();
    let _first = s.issue_stream(Action::WaitForDone).unwrap();
    s.wait_pending().unwrap();
    s.respond_stream(&[1]).unwrap();
    s.finish_stream(Ok(None));
    let mut second = s.issue_stream(Action::WaitForDone).unwrap();
    assert!(second.poll_next(&mut s).is_none());
}

#[test]
fn stream_interleaved_chunks_all_arrive_in_order() {
    let mut s = ActionState::new();
    let mut stream = s.issue_stream(Action::WaitForDone).unwrap();
    s.wait_pending().unwrap();
    let mut read: Vec<Vec<u8>> = Vec::new();
    for n in 0..6u8 {
        assert_eq!(s.respond_stream(&[n, n]), Ok(()));
        if n % 2 == 1 {
            match stream.poll_next(&mut s) {
                Some(Some(Ok(chunk))) => read.push(chunk.as_slice().to_vec()),
                _ => panic!("expected a chunk"),
            }
        }
    }
    s.finish_stream(Ok(None));
    loop {
        match stream.poll_next(&mut s) {
            Some(Some(Ok(chunk))) => read.push(chunk.as_slice().to_vec()),
            Some(None) => break,
            _ => panic!("unexpected poll result"),
        }
    }
    let sent: Vec<Vec<u8>> = (0..6u8).map(|n| vec![n, n]).collect();
    assert_eq!(read, sent);
}
