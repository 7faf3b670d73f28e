use tester::logger::{LogEvent, LoggerBuilder};
use tester::test_executors::auxboard::AuxBoardTestExecutor;
use tester::test_executors::{variant_of, Next, Observation, Operation, Request, Rotation, Variant};
use tester::TestResult;

fn rotation(i: f32, j: f32, k: f32, w: f32) -> Rotation {
    Rotation {
        i: i.to_bits(),
        j: j.to_bits(),
        k: k.to_bits(),
        w: w.to_bits(),
        text: format!("{:?}", [i, j, k, w]),
    }
}

#[test]
fn sensor_board_that_passes_every_step() {
    let (_, mut logger) = LoggerBuilder::split();
    let mut executor = AuxBoardTestExecutor::new();
    let first = executor.begin_with("id-1".to_string(), 10, &mut logger);
    assert_eq!(first, Request { settle_ms: 1000, operation: Operation::InitSensor });
    assert_eq!(logger.take(), vec![LogEvent::InProgress("Initializing BNO080...".to_string())]);
    assert_eq!(
        executor.advance_at(Observation::Done(Ok(())), 20, &mut logger),
        Next::Perform(Request { settle_ms: 0, operation: Operation::EnableRotationVector(5) })
    );
    assert_eq!(
        executor.advance_at(Observation::Done(Ok(())), 30, &mut logger),
        Next::Perform(Request { settle_ms: 500, operation: Operation::HandleMessages(255) })
    );
    logger.take();
    assert_eq!(
        executor.advance_at(Observation::Count(12), 40, &mut logger),
        Next::Perform(Request { settle_ms: 0, operation: Operation::ReadQuaternion })
    );
    assert_eq!(
        logger.take(),
        vec![
            LogEvent::Success("Processed 12 messages".to_string()),
            LogEvent::InProgress("Reading rotation quaternion...".to_string()),
        ]
    );
    let last = executor.advance_at(
        Observation::Quaternion(Ok(rotation(0.0, 0.5, 0.0, 0.5))),
        50,
        &mut logger,
    );
    assert_eq!(
        logger.take(),
        vec![LogEvent::Success("Quaternion: [0.0, 0.5, 0.0, 0.5]".to_string())]
    );
    let board = match last {
        Next::Finished(TestResult::Passed(board)) => board,
        other => panic!("{:?}", other),
    };
    assert_eq!(board.id, Some("id-1".to_string()));
    assert_eq!(board.values.len(), 4);
    assert_eq!(board.values[2].value, "12");
    assert_eq!(board.values[3].value, "true");
    assert_eq!(board.values[3].logs, Some("[0.0, 0.5, 0.0, 0.5]".to_string()));
    assert_eq!((board.started_at, board.ended_at), (10, 50));
    assert_eq!(
        board.values.iter().map(|v| (v.started_at, v.ended_at)).collect::<Vec<_>>(),
        vec![(10, 20), (20, 30), (30, 40), (40, 50)]
    );
}

#[test]
fn sensor_that_sends_no_message_fails() {
    let (_, mut logger) = LoggerBuilder::split();
    let mut executor = AuxBoardTestExecutor::new();
    executor.begin_with("id-2".to_string(), 0, &mut logger);
    executor.advance_at(Observation::Done(Ok(())), 1, &mut logger);
    executor.advance_at(Observation::Done(Ok(())), 2, &mut logger);
    logger.take();
    let last = executor.advance_at(Observation::Count(0), 3, &mut logger);
    assert_eq!(logger.take(), vec![LogEvent::Error("Processed 0 messages".to_string())]);
    let board = match last {
        Next::Finished(TestResult::Failed(board)) => board,
        other => panic!("{:?}", other),
    };
    assert_eq!(board.values.len(), 3);
    assert!(board.values[2].failed);
    assert_eq!(board.values[2].value, "0");
}

#[test]
fn rotation_of_all_zeros_fails() {
    let (_, mut logger) = LoggerBuilder::split();
    let mut executor = AuxBoardTestExecutor::new();
    executor.begin_with("id-3".to_string(), 0, &mut logger);
    executor.advance_at(Observation::Done(Ok(())), 1, &mut logger);
    executor.advance_at(Observation::Done(Ok(())), 2, &mut logger);
    executor.advance_at(Observation::Count(1), 3, &mut logger);
    let last = executor.advance_at(
        Observation::Quaternion(Ok(rotation(0.0, -0.0, 0.0, 0.0))),
        4,
        &mut logger,
    );
    let board = match last {
        Next::Finished(TestResult::Failed(board)) => board,
        other => panic!("{:?}", other),
    };
    assert_eq!(board.values.len(), 4);
    assert!(board.values[3].failed);
    assert_eq!(board.values[3].value, "false");
}

#[test]
fn link_that_cannot_be_set_up_ends_the_test_at_once() {
    let (_, mut logger) = LoggerBuilder::split();
    let mut executor = AuxBoardTestExecutor::new();
    executor.begin_with("id-4".to_string(), 0, &mut logger);
    logger.take();
    let last = executor.advance_at(Observation::Done(Err("Comm(Nack)".to_string())), 1, &mut logger);
    assert_eq!(
        logger.take(),
        vec![LogEvent::Error("BNO080 failed to initialize: Comm(Nack)".to_string())]
    );
    let board = match last {
        Next::Finished(TestResult::Failed(board)) => board,
        other => panic!("{:?}", other),
    };
    assert_eq!(board.values.len(), 1);
    assert_eq!(board.values[0].logs, Some("Comm(Nack)".to_string()));
    assert!(!executor.is_running());
    assert_eq!(executor.advance_at(Observation::Count(1), 2, &mut logger), Next::Idle);
}

#[test]
fn identity_is_drawn_afresh_for_each_board() {
    let (_, mut logger) = LoggerBuilder::split();
    let mut executor = AuxBoardTestExecutor::new();
    executor.begin(&mut logger);
    let first = match executor.advance(Observation::Done(Err("x".to_string())), &mut logger) {
        Next::Finished(TestResult::Failed(board)) => board,
        other => panic!("{:?}", other),
    };
    executor.begin(&mut logger);
    let second = match executor.advance(Observation::Done(Err("x".to_string())), &mut logger) {
        Next::Finished(TestResult::Failed(board)) => board,
        other => panic!("{:?}", other),
    };
    let a = first.id.unwrap();
    let b = second.id.unwrap();
    assert_eq!(a.chars().count(), 36);
    assert_ne!(a, b);
    assert_ne!(a, "");
}

#[test]
fn report_type_names_the_kind_of_board() {
    assert_eq!(variant_of("mainboard"), Some(Variant::MainBoard));
    assert_eq!(variant_of("auxboard"), Some(Variant::AuxBoard));
    assert_eq!(variant_of("json"), None);
}

#[test]
fn new_pipeline_is_idle_until_a_test_begins() {
    let (_, mut logger) = LoggerBuilder::split();
    let mut executor = AuxBoardTestExecutor::new();
    assert!(!executor.is_running());
    assert_eq!(executor.advance_at(Observation::Done(Ok(())), 1, &mut logger), Next::Idle);
    assert_eq!(logger.take(), vec![]);
    executor.begin_with("id-5".to_string(), 2, &mut logger);
    assert!(executor.is_running());
}
