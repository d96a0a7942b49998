use http_writer::session::{CloseStep, WorkerEvent, WorkerState, WriteStep};
use http_writer::{UploadError, UploadSession};
use std::sync::mpsc::channel;

#[test]
fn counter_is_the_sum_of_writes() {
    let (tx, rx) = channel::<Vec<u8>>();
    let mut s = UploadSession::new(tx);
    assert_eq!(s.write(b"hello"), WriteStep::Written(5));
    assert_eq!(s.write(b""), WriteStep::Written(0));
    assert_eq!(s.write(b" world"), WriteStep::Written(6));
    assert_eq!(s.pos, 11);
    assert_eq!(rx.recv().unwrap(), b"hello".to_vec());
    assert_eq!(rx.recv().unwrap(), Vec::<u8>::new());
    assert_eq!(rx.recv().unwrap(), b" world".to_vec());
}

#[test]
fn broken_pipe_asks_to_look_at_the_worker() {
    let (tx, rx) = channel::<Vec<u8>>();
    let mut s = UploadSession::new(tx);
    drop(rx);
    assert!(matches!(s.write(b"x"), WriteStep::CheckWorker(UploadError::BrokenPipe(_))));
    assert_eq!(s.pos, 0);
}

#[test]
fn running_worker_gives_broken_pipe() {
    let (tx, rx) = channel::<Vec<u8>>();
    let mut s = UploadSession::new(tx);
    drop(rx);
    let pipe_err = UploadError::BrokenPipe("gone".to_string());
    assert_eq!(s.after_failed_send(pipe_err.clone(), WorkerEvent::StillRunning), pipe_err);
    assert_eq!(s.worker, WorkerState::Running);
    assert!(matches!(s.write(b"x"), WriteStep::CheckWorker(UploadError::BrokenPipe(_))));
}

#[test]
fn failure_status_surfaces_on_next_write() {
    let (tx, rx) = channel::<Vec<u8>>();
    let mut s = UploadSession::new(tx);
    assert_eq!(s.write(b"abc"), WriteStep::Written(3));
    drop(rx);
    let e = match s.write(b"def") {
        WriteStep::CheckWorker(e) => e,
        other => panic!("unexpected {:?}", other),
    };
    let reported = s.after_failed_send(
        e,
        WorkerEvent::Finished(Err(UploadError::UploadFailed(500))),
    );
    assert_eq!(reported, UploadError::UploadFailed(500));
    assert_eq!(s.write(b"ghi"), WriteStep::Failed(UploadError::UploadFailed(500)));
    assert_eq!(s.begin_close(), CloseStep::Done);
    assert_eq!(s.finish_close(Ok(())), Ok(()));
}

#[test]
fn a_session_write_goes_as_one_chunk() {
    let (tx, rx) = channel::<Vec<u8>>();
    let mut s = UploadSession::new(tx);
    assert_eq!(s.write(b"abc"), WriteStep::Written(3));
    assert_eq!(rx.try_recv(), Ok(vec![97u8, 98, 99]));
    assert!(rx.try_recv().is_err());
}

#[test]
fn failure_status_surfaces_on_close() {
    let (tx, _rx) = channel::<Vec<u8>>();
    let mut s = UploadSession::new(tx);
    assert_eq!(s.write(b"abc"), WriteStep::Written(3));
    assert_eq!(s.begin_close(), CloseStep::JoinWorker);
    assert_eq!(
        s.finish_close(Err(UploadError::UploadFailed(403))),
        Err(UploadError::UploadFailed(403))
    );
}

#[test]
fn finished_worker_without_error_gives_pipe_error() {
    let (tx, rx) = channel::<Vec<u8>>();
    let mut s = UploadSession::new(tx);
    drop(rx);
    let pipe_err = UploadError::BrokenPipe("gone".to_string());
    assert_eq!(s.after_failed_send(pipe_err.clone(), WorkerEvent::Finished(Ok(()))), pipe_err);
    assert_eq!(s.worker, WorkerState::Joined);
    assert_eq!(s.write(b"x"), WriteStep::Failed(pipe_err));
}

#[test]
fn close_closes_the_pipe_and_joins_once() {
    let (tx, rx) = channel::<Vec<u8>>();
    let mut s = UploadSession::new(tx);
    assert_eq!(s.write(b"hello"), WriteStep::Written(5));
    assert_eq!(s.begin_close(), CloseStep::JoinWorker);
    assert_eq!(rx.recv().unwrap(), b"hello".to_vec());
    assert!(rx.recv().is_err());
    assert_eq!(s.finish_close(Err(UploadError::Timeout)), Err(UploadError::Timeout));
    assert_eq!(s.begin_close(), CloseStep::Done);
    assert_eq!(s.finish_close(Err(UploadError::Timeout)), Ok(()));
}

#[test]
fn write_after_close_is_refused() {
    let (tx, _rx) = channel::<Vec<u8>>();
    let mut s = UploadSession::new(tx);
    assert_eq!(s.begin_close(), CloseStep::JoinWorker);
    assert_eq!(s.finish_close(Ok(())), Ok(()));
    assert_eq!(s.write(b"late"), WriteStep::Failed(UploadError::ChannelClosed));
}

#[test]
fn dropped_connection_surfaces_and_close_returns() {
    let (tx, rx) = channel::<Vec<u8>>();
    let mut s = UploadSession::new(tx);
    assert_eq!(s.write(b"part"), WriteStep::Written(4));
    drop(rx);
    let e = match s.write(b"more") {
        WriteStep::CheckWorker(e) => e,
        other => panic!("unexpected {:?}", other),
    };
    let cause = UploadError::Transport("connection reset".to_string());
    assert_eq!(s.after_failed_send(e, WorkerEvent::Finished(Err(cause.clone()))), cause);
    assert_eq!(s.begin_close(), CloseStep::Done);
    assert_eq!(s.finish_close(Ok(())), Ok(()));
}

#[test]
fn rejected_existence_put_opens_no_session() {
    let (tx, rx) = channel::<Vec<u8>>();
    match UploadSession::open(Ok(403), tx) {
        Err(e) => assert_eq!(e, UploadError::UploadFailed(403)),
        Ok(_) => panic!("a session was opened"),
    }
    assert!(rx.recv().is_err());
}

#[test]
fn transport_failure_opens_no_session() {
    let (tx, _rx) = channel::<Vec<u8>>();
    assert!(matches!(UploadSession::open(Err(UploadError::Connect), tx), Err(UploadError::Connect)));
}

#[test]
fn accepted_existence_put_opens_a_fresh_session() {
    let (tx, rx) = channel::<Vec<u8>>();
    let mut s = match UploadSession::open(Ok(201), tx) {
        Ok(s) => s,
        Err(e) => panic!("unexpected {:?}", e),
    };
    assert_eq!(s.pos, 0);
    assert_eq!(s.worker, WorkerState::Running);
    assert!(!s.closed);
    assert_eq!(s.write(b"hello"), WriteStep::Written(5));
    assert_eq!(rx.recv().unwrap(), b"hello".to_vec());
}
