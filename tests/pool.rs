use std::sync::mpsc;

use tesserocr_pool_rs::dispatch::{open, worker_count, Dispatcher, PoolError, Startup};
use tesserocr_pool_rs::engine::{Engine, EngineHandle};
use tesserocr_pool_rs::error::TesserocrError;
use tesserocr_pool_rs::image::{ImageError, Layout, PixBuffer};
use tesserocr_pool_rs::ledger::{LedgerError, TaskLedger};
use tesserocr_pool_rs::startup::InitReport;
use tesserocr_pool_rs::task::{
    ocr, prepare, run_task, task_outcome, Message, Task, TaskError, TaskResult, BLACKLIST_KEY,
};
use tesserocr_pool_rs::worker::{step, Action, Event, WorkerState};

/// An engine that reads back a fixed text and remembers what it was given.
struct MockEngine {
    text: String,
    variables: Vec<(String, String)>,
    images: Vec<(u32, u32, Layout, Vec<u8>)>,
    refuse_variables: bool,
    refuse_images: bool,
}

impl MockEngine {
    fn new(text: &str) -> MockEngine {
        MockEngine {
            text: text.to_string(),
            variables: Vec::new(),
            images: Vec::new(),
            refuse_variables: false,
            refuse_images: false,
        }
    }
}

impl Engine for MockEngine {
    fn set_variable(&mut self, key: &str, value: &str) -> Result<(), TesserocrError> {
        if self.refuse_variables {
            return Err(TesserocrError::from_message("bad variable"));
        }
        self.variables.push((key.to_string(), value.to_string()));
        Ok(())
    }

    fn recognize(&mut self, pix: &PixBuffer) -> Result<String, TesserocrError> {
        if self.refuse_images {
            return Err(TesserocrError::from_message("no text"));
        }
        self.images.push((pix.width, pix.height, pix.layout, pix.data.clone()));
        Ok(self.text.clone())
    }
}

fn task(id: u32, image: Option<(Vec<u8>, u32, u32)>, blacklist: Option<&str>) -> Task {
    Task { id, image, blacklist: blacklist.map(|b| b.to_string()) }
}

#[test]
fn all_workers_started_in_index_order() {
    let mut report = InitReport::new(3);
    assert!(!report.is_complete());
    assert!(report.record(2, Ok(())));
    assert!(report.record(0, Ok(())));
    assert!(report.record(1, Ok(())));
    assert!(report.is_complete());
    assert_eq!(report.worker_count(), 3);
    assert_eq!(report.finish().unwrap(), vec![0usize, 1, 2]);
}

#[test]
fn single_worker_starts() {
    let mut report = InitReport::new(1);
    assert!(report.record(0, Ok(())));
    assert_eq!(report.finish().unwrap(), vec![0usize]);
}

#[test]
fn failed_worker_is_named() {
    let mut report = InitReport::new(4);
    assert!(report.record(3, Ok(())));
    assert!(report.record(1, Err(TesserocrError::from_message("invalid data path"))));
    assert!(report.record(0, Ok(())));
    assert!(report.record(2, Ok(())));
    let err = report.finish().unwrap_err();
    assert_eq!(err.failures.len(), 1);
    assert_eq!(err.failures[0].worker_index, 1);
    assert_eq!(err.failures[0].message, "invalid data path");
}

#[test]
fn silent_worker_counts_as_failed() {
    let mut report = InitReport::new(2);
    assert!(report.record(1, Err(TesserocrError::from_message("no model"))));
    let err = report.finish().unwrap_err();
    assert_eq!(err.failures.len(), 2);
    assert_eq!(err.failures[0].worker_index, 0);
    assert_eq!(err.failures[0].message, "worker did not report");
    assert_eq!(err.failures[1].worker_index, 1);
    assert_eq!(err.failures[1].message, "no model");
}

#[test]
fn slot_is_written_once() {
    let mut report = InitReport::new(2);
    assert!(report.record(0, Ok(())));
    assert!(!report.record(0, Err(TesserocrError::from_message("late"))));
    assert!(!report.record(2, Ok(())));
    assert!(report.record(1, Ok(())));
    assert_eq!(report.finish().unwrap(), vec![0usize, 1]);
}

#[test]
fn worker_life_from_start_to_exit() {
    let (s, a) = step(WorkerState::Initializing, Event::EngineCreated);
    assert_eq!((s, a), (WorkerState::Ready, Action::WaitAtBarrier));
    let (s, a) = step(s, Event::BarrierPassed);
    assert_eq!((s, a), (WorkerState::Idle, Action::Receive));
    let (s, a) = step(s, Event::TaskReceived);
    assert_eq!((s, a), (WorkerState::Running, Action::Recognize));
    let (s, a) = step(s, Event::TaskFinished { failed: false });
    assert_eq!((s, a), (WorkerState::Idle, Action::SendResult));
    let (s, a) = step(s, Event::ShutdownReceived);
    assert_eq!((s, a), (WorkerState::Terminating, Action::ReleaseEngine));
    let (s, a) = step(s, Event::EngineReleased);
    assert_eq!((s, a), (WorkerState::Terminated, Action::Exit));
    assert_eq!(step(s, Event::EngineReleased), (WorkerState::Terminated, Action::Ignore));
}

#[test]
fn failed_init_passes_barrier_then_exits() {
    let (s, a) = step(WorkerState::Initializing, Event::EngineFailed);
    assert_eq!((s, a), (WorkerState::InitFailed, Action::WaitAtBarrier));
    assert_eq!(step(s, Event::TaskReceived), (WorkerState::InitFailed, Action::Ignore));
    assert_eq!(step(s, Event::BarrierPassed), (WorkerState::Terminated, Action::Exit));
}

#[test]
fn failed_task_keeps_worker_running() {
    let (s, a) = step(WorkerState::Running, Event::TaskFinished { failed: true });
    assert_eq!((s, a), (WorkerState::Idle, Action::SendResult));
    assert_eq!(step(s, Event::TaskReceived), (WorkerState::Running, Action::Recognize));
    assert_eq!(
        step(WorkerState::Idle, Event::ChannelClosed),
        (WorkerState::Terminating, Action::ReleaseEngine)
    );
}

#[test]
fn recognize_passes_normalized_buffer_through() {
    let mut handle = EngineHandle::new(MockEngine::new("HELLO"));
    let img = vec![10u8, 20, 30, 40, 50, 60];
    let r = ocr(&mut handle, Some((img, 1, 2)), Some("jJyY"));
    assert_eq!(r.unwrap().unwrap(), "HELLO");
    let engine = handle.into_engine();
    assert_eq!(engine.variables, vec![(BLACKLIST_KEY.to_string(), "jJyY".to_string())]);
    assert_eq!(
        engine.images,
        vec![(1u32, 2u32, Layout::Rgb, vec![10u8, 20, 30, 255, 40, 50, 60, 255])]
    );
}

#[test]
fn no_image_asks_for_no_work() {
    let mut engine = EngineHandle::new(MockEngine::new("x"));
    assert!(ocr(&mut engine, None, Some("a")).is_none());
    assert!(engine.engine().variables.is_empty());
    let r = run_task(&mut engine, task(7, None, None));
    assert_eq!(r.id, 7);
    assert!(matches!(r.outcome, Ok(None)));
}

#[test]
fn invalid_buffer_fails_task_and_next_task_succeeds() {
    let mut engine = EngineHandle::new(MockEngine::new("TEXT"));
    let bad = run_task(&mut engine, task(1, Some((vec![0u8; 5], 2, 2)), None));
    assert_eq!(bad.id, 1);
    assert!(matches!(bad.outcome, Err(TaskError::Image(ImageError::InvalidSize))));
    assert!(engine.engine().images.is_empty());
    let (s, _) = step(WorkerState::Running, Event::TaskFinished { failed: true });
    assert_eq!(step(s, Event::TaskReceived).0, WorkerState::Running);
    let good = run_task(&mut engine, task(2, Some((vec![1u8, 2, 3, 4], 2, 2)), None));
    assert_eq!(good.id, 2);
    assert_eq!(good.outcome.unwrap(), Some("TEXT".to_string()));
}

#[test]
fn engine_failures_are_typed() {
    let mut mock = MockEngine::new("x");
    mock.refuse_variables = true;
    let mut engine = EngineHandle::new(mock);
    let r = run_task(&mut engine, task(3, Some((vec![1u8], 1, 1)), Some("q")));
    match r.outcome {
        Err(TaskError::Config(e)) => assert_eq!(e.message(), "bad variable"),
        other => panic!("unexpected outcome {:?}", other),
    }
    assert!(engine.engine().images.is_empty());
    let mut mock = MockEngine::new("x");
    mock.refuse_images = true;
    let mut engine = EngineHandle::new(mock);
    let r = run_task(&mut engine, task(4, Some((vec![1u8], 1, 1)), None));
    match r.outcome {
        Err(TaskError::Engine(e)) => assert_eq!(e.to_owned().message(), "no text"),
        other => panic!("unexpected outcome {:?}", other),
    }
}

#[test]
fn out_of_bounds_image_is_refused() {
    let mut engine = EngineHandle::new(MockEngine::new("x"));
    let r = ocr(&mut engine, Some((vec![1u8], 0x8000_0000, 1)), None);
    assert!(matches!(r, Some(Err(TaskError::Image(ImageError::OutOfBounds)))));
}

#[test]
fn ledger_matches_each_result_once() {
    let mut ledger = TaskLedger::new();
    assert_eq!(ledger.register(1), Ok(()));
    assert_eq!(ledger.register(2), Ok(()));
    assert_eq!(ledger.register(2), Err(LedgerError::DuplicateTask));
    assert!(!ledger.is_drained());
    assert_eq!(ledger.accept(9), Err(LedgerError::UnknownTask));
    assert_eq!(ledger.accept(2), Ok(()));
    assert_eq!(ledger.accept(2), Err(LedgerError::DuplicateResult));
    assert!(!ledger.is_drained());
    assert_eq!(ledger.accept(1), Ok(()));
    assert!(ledger.is_drained());
}

#[test]
fn empty_ledger_is_drained() {
    assert!(TaskLedger::new().is_drained());
}

#[test]
fn worker_count_defaults_to_cores() {
    assert_eq!(worker_count(Some(3)), 3);
    assert!(worker_count(None) >= 1);
    assert_eq!(worker_count(Some(0)), worker_count(None));
}

#[test]
fn more_tasks_than_workers_all_answered_once() {
    let workers = 2usize;
    let (tx, rx) = spmc::channel::<Message>();
    let (result_tx, result_rx) = mpsc::channel::<TaskResult>();
    let mut dispatcher = Dispatcher::new(tx, result_rx);
    let mut engines: Vec<EngineHandle<MockEngine>> =
        (0..workers).map(|_| EngineHandle::new(MockEngine::new("ok"))).collect();
    for id in 0..5u32 {
        dispatcher.submit(task(id, Some((vec![id as u8; 4], 2, 2)), None)).unwrap();
    }
    assert!(matches!(
        dispatcher.submit(task(3, None, None)),
        Err(PoolError::Ledger(LedgerError::DuplicateTask))
    ));
    dispatcher.shutdown(workers).unwrap();
    let mut finished = 0;
    let mut w = 0;
    while finished < workers {
        match rx.recv().unwrap() {
            Some(t) => result_tx.send(run_task(&mut engines[w % workers], t)).unwrap(),
            None => finished += 1,
        }
        w += 1;
    }
    let mut ids = Vec::new();
    while !dispatcher.is_drained() {
        let r = dispatcher.receive().unwrap();
        assert_eq!(r.outcome.unwrap(), Some("ok".to_string()));
        ids.push(r.id);
    }
    ids.sort();
    assert_eq!(ids, vec![0u32, 1, 2, 3, 4]);
    let images: usize = engines.iter().map(|e| e.engine().images.len()).sum();
    assert_eq!(images, 5);
}

#[test]
fn unknown_and_repeated_results_are_refused() {
    let (tx, _rx) = spmc::channel::<Message>();
    let (result_tx, result_rx) = mpsc::channel::<TaskResult>();
    let mut dispatcher = Dispatcher::new(tx, result_rx);
    dispatcher.submit(task(1, None, None)).unwrap();
    result_tx.send(TaskResult { id: 5, outcome: Ok(None) }).unwrap();
    result_tx.send(TaskResult { id: 1, outcome: Ok(None) }).unwrap();
    result_tx.send(TaskResult { id: 1, outcome: Ok(None) }).unwrap();
    assert!(matches!(dispatcher.receive(), Err(PoolError::Ledger(LedgerError::UnknownTask))));
    assert_eq!(dispatcher.receive().unwrap().id, 1);
    assert!(matches!(dispatcher.receive(), Err(PoolError::Ledger(LedgerError::DuplicateResult))));
    assert!(dispatcher.is_drained());
    drop(result_tx);
    assert!(matches!(dispatcher.receive(), Err(PoolError::Channel)));
}

#[test]
fn submit_without_workers_fails() {
    let (tx, rx) = spmc::channel::<Message>();
    drop(rx);
    let (_result_tx, result_rx) = mpsc::channel::<TaskResult>();
    let mut dispatcher = Dispatcher::new(tx, result_rx);
    assert!(matches!(dispatcher.submit(task(1, None, None)), Err(PoolError::Channel)));
    assert!(matches!(dispatcher.shutdown(1), Err(PoolError::Channel)));
}

#[test]
fn prepare_builds_the_engine_job() {
    let job = prepare(Some((vec![1u8, 2, 3], 1, 1)), Some("xyz")).unwrap().unwrap();
    assert_eq!(job.pix.data, vec![1u8, 2, 3, 255]);
    assert_eq!(job.pix.layout, Layout::Rgb);
    assert_eq!(job.blacklist, Some("xyz".to_string()));
    assert!(prepare(None, Some("xyz")).is_none());
    assert!(matches!(
        prepare(Some((vec![1u8, 2], 1, 1)), None),
        Some(Err(ImageError::InvalidSize))
    ));
}

#[test]
fn error_keeps_its_message() {
    let e = TesserocrError::from("engine gone".to_string());
    assert_eq!(e.message(), "engine gone");
    assert_eq!(TesserocrError::new("a".to_string()).to_owned().0, "a");
}

#[test]
fn open_after_full_start_is_ready_for_tasks() {
    let mut report = InitReport::new(2);
    assert!(report.record(0, Ok(())));
    assert!(report.record(1, Ok(())));
    let (tx, rx) = spmc::channel::<Message>();
    let (_result_tx, result_rx) = mpsc::channel::<TaskResult>();
    match open(&report, tx, result_rx) {
        Startup::Started(mut d) => {
            assert!(d.is_drained());
            d.submit(task(1, None, None)).unwrap();
            assert_eq!(rx.recv().unwrap().unwrap().id, 1);
        }
        Startup::Failed(..) => panic!("every worker started"),
    }
}

#[test]
fn open_after_failed_start_only_stops_workers() {
    let mut report = InitReport::new(3);
    assert!(report.record(0, Ok(())));
    assert!(report.record(1, Ok(())));
    assert!(report.record(2, Err(TesserocrError::from_message("bad tessdata"))));
    let (tx, rx) = spmc::channel::<Message>();
    let (_result_tx, result_rx) = mpsc::channel::<TaskResult>();
    match open(&report, tx, result_rx) {
        Startup::Failed(failed) => {
            assert!(failed.signalled.is_ok());
            let err = failed.error;
            assert_eq!(err.failures.len(), 1);
            assert_eq!(err.failures[0].worker_index, 2);
            assert_eq!(err.failures[0].message, "bad tessdata");
        }
        Startup::Started(_) => panic!("worker 2 failed"),
    }
    for _ in 0..3 {
        assert!(rx.recv().unwrap().is_none());
    }
    assert!(rx.try_recv().is_err());
}

#[test]
fn task_outcome_follows_the_engine_answers() {
    let refused = task_outcome(Some(Err(TesserocrError::from_message("no"))), None);
    assert!(matches!(refused, Err(TaskError::Config(ref e)) if e.message() == "no"));
    assert_eq!(task_outcome(Some(Ok(())), Some(Ok("abc".to_string()))).unwrap(), "abc");
    assert_eq!(task_outcome(None, Some(Ok("xyz".to_string()))).unwrap(), "xyz");
    let failed = task_outcome(None, Some(Err(TesserocrError::from_message("utf8"))));
    assert!(matches!(failed, Err(TaskError::Engine(ref e)) if e.message() == "utf8"));
    assert!(matches!(task_outcome(None, None), Err(TaskError::Aborted(_))));
}

#[test]
fn refused_blacklist_skips_recognition() {
    let mut mock = MockEngine::new("never");
    mock.refuse_variables = true;
    let mut engine = EngineHandle::new(mock);
    let r = ocr(&mut engine, Some((vec![1u8, 2, 3, 4], 4, 1)), Some("q"));
    assert!(matches!(r, Some(Err(TaskError::Config(_)))));
    assert!(engine.engine().images.is_empty());
}

#[test]
fn shutdown_of_no_worker_sends_nothing() {
    let (tx, rx) = spmc::channel::<Message>();
    drop(rx);
    let (_result_tx, result_rx) = mpsc::channel::<TaskResult>();
    let mut dispatcher = Dispatcher::new(tx, result_rx);
    assert!(dispatcher.shutdown(0).is_ok());
}
