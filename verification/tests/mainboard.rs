use tester::adc::{Channel, MeasureError};
use tester::esptool::ReadMacAddressResult;
use tester::logger::{LogEvent, LoggerBuilder};
use tester::options::{FlashWith, Options};
use tester::test_executors::mainboard::{MainBoardTestExecutor, PowerPolicy, RailCheck};
use tester::test_executors::{Command, Next, Observation, Operation, Request};
use tester::TestResult;

fn options() -> Options {
    Options {
        no_build: true,
        flash_with: FlashWith::ESPTool,
        flash_baudrate: 921600,
        rpc_url: "http://collector".to_string(),
        rpc_password: "SECRET-REDACTED".to_string(),
        report_type: "mainboard".to_string(),
        tester_name: "bench-1".to_string(),
    }
}

fn perform(operation: Operation) -> Next {
    Next::Perform(Request { settle_ms: 0, operation })
}

fn mac() -> Observation {
    Observation::Identity(Ok(ReadMacAddressResult {
        mac: "AA:BB".to_string(),
        log: "MAC: AA:BB".to_string(),
    }))
}

#[test]
fn board_that_passes_every_step() {
    let (_, mut logger) = LoggerBuilder::split();
    let mut executor = MainBoardTestExecutor::new(&options(), PowerPolicy::standard());
    assert!(!executor.is_running());
    let first = executor.begin_at(100, &mut logger);
    assert_eq!(first, Request { settle_ms: 250, operation: Operation::MeasureVoltage(Channel::A2) });
    assert!(executor.is_running());
    assert_eq!(logger.take(), vec![LogEvent::InProgress("Measuring VOUT...".to_string())]);

    assert_eq!(
        executor.advance_at(Observation::Voltage(Ok(26000)), 110, &mut logger),
        perform(Operation::MeasureVoltage(Channel::A3))
    );
    assert_eq!(
        logger.take(),
        vec![
            LogEvent::Success("VOUT voltage: 4.875V".to_string()),
            LogEvent::InProgress("Measuring B+...".to_string()),
        ]
    );
    assert_eq!(
        executor.advance_at(Observation::Voltage(Ok(22400)), 120, &mut logger),
        perform(Operation::MeasureVoltage(Channel::A0))
    );
    assert_eq!(
        logger.take(),
        vec![
            LogEvent::Success("B+ voltage: 4.2V".to_string()),
            LogEvent::InProgress("Measuring 3V3...".to_string()),
        ]
    );
    assert_eq!(
        executor.advance_at(Observation::Voltage(Ok(16000)), 130, &mut logger),
        perform(Operation::ReadIdentity)
    );
    assert_eq!(
        logger.take(),
        vec![
            LogEvent::Success("3V3 voltage: 3.0V".to_string()),
            LogEvent::InProgress("Reading MAC address...".to_string()),
        ]
    );
    assert_eq!(
        executor.advance_at(mac(), 140, &mut logger),
        perform(Operation::Flash(FlashWith::ESPTool, 921600))
    );
    assert_eq!(
        logger.take(),
        vec![
            LogEvent::Success("Read MAC address: AA:BB".to_string()),
            LogEvent::InProgress("Flashing...".to_string()),
        ]
    );
    assert_eq!(
        executor.advance_at(Observation::Output(Ok("written".to_string())), 150, &mut logger),
        perform(Operation::OpenSerial)
    );
    assert_eq!(
        executor.advance_at(Observation::Done(Ok(())), 160, &mut logger),
        perform(Operation::ResetDevice)
    );
    assert_eq!(
        executor.advance_at(Observation::Done(Ok(())), 170, &mut logger),
        perform(Operation::ReadSerial)
    );
    assert_eq!(
        executor.advance_at(Observation::Chunk(Ok(b"booting\n".to_vec())), 180, &mut logger),
        perform(Operation::ReadSerial)
    );
    logger.take();
    assert_eq!(
        executor.advance_at(
            Observation::Chunk(Ok(
                b"[INFO ] [BNO080Sensor:0] Connected to BNO085 on 0x4a\n".to_vec()
            )),
            190,
            &mut logger
        ),
        Next::Perform(Request { settle_ms: 100, operation: Operation::WriteSerial(Command::GetTest) })
    );
    assert_eq!(
        logger.take(),
        vec![
            LogEvent::Success("I2C to IMU working".to_string()),
            LogEvent::InProgress("Checking IMU via `GET TEST` command...".to_string()),
        ]
    );
    assert_eq!(
        executor.advance_at(Observation::Done(Ok(())), 200, &mut logger),
        perform(Operation::ReadSerial)
    );
    let last = executor.advance_at(
        Observation::Chunk(Ok(b"Sensor 1 sent some data, looks working.\n".to_vec())),
        210,
        &mut logger,
    );
    assert_eq!(logger.take(), vec![LogEvent::Success("IMU test successful".to_string())]);
    assert!(!executor.is_running());
    let board = match last {
        Next::Finished(TestResult::Passed(board)) => board,
        other => panic!("{:?}", other),
    };
    assert_eq!(board.id, Some("AA:BB".to_string()));
    assert_eq!(board.started_at, 100);
    assert_eq!(board.ended_at, 210);
    let names: Vec<&str> = board.values.iter().map(|v| v.step.as_str()).collect();
    assert_eq!(
        names,
        vec![
            "Measure VOUT",
            "Measure B+",
            "Measure 3V3",
            "Read MAC address",
            "Flashing",
            "Serial",
            "I2C to IMU",
            "IMU test"
        ]
    );
    let times: Vec<(i64, i64)> = board.values.iter().map(|v| (v.started_at, v.ended_at)).collect();
    assert_eq!(
        times,
        vec![
            (100, 110),
            (110, 120),
            (120, 130),
            (130, 140),
            (140, 150),
            (150, 160),
            (170, 190),
            (190, 210)
        ]
    );
    assert!(board.values.iter().all(|v| !v.failed));
    assert_eq!(board.values[0].condition, "none");
    assert_eq!(board.values[0].value, "4.875V");
    assert_eq!(board.values[1].condition, "B+ > 4.0V");
    assert_eq!(board.values[1].value, "4.2V");
    assert_eq!(board.values[2].condition, "3V3 > 2.8V < 3.2V");
    assert_eq!(board.values[3].value, "AA:BB");
    assert_eq!(board.values[3].logs, Some("MAC: AA:BB".to_string()));
    assert_eq!(board.values[4].value, "true");
    assert_eq!(board.values[5].logs, None);
    assert_eq!(
        board.values[6].logs,
        Some("booting\n[INFO ] [BNO080Sensor:0] Connected to BNO085 on 0x4a\n".to_string())
    );
    assert_eq!(
        executor.advance_at(Observation::Done(Ok(())), 220, &mut logger),
        Next::Idle
    );
}

#[test]
fn rails_are_measured_as_a_batch_before_a_fault_ends_the_test() {
    let (_, mut logger) = LoggerBuilder::split();
    let mut executor = MainBoardTestExecutor::new(&options(), PowerPolicy::standard());
    executor.begin_at(0, &mut logger);
    logger.take();
    executor.advance_at(Observation::Voltage(Err(MeasureError::WouldBlock)), 1, &mut logger);
    assert_eq!(
        logger.take(),
        vec![
            LogEvent::Success("VOUT voltage: N/A (err: would block)".to_string()),
            LogEvent::InProgress("Measuring B+...".to_string()),
        ]
    );
    assert_eq!(
        executor.advance_at(Observation::Voltage(Ok(21333)), 2, &mut logger),
        perform(Operation::MeasureVoltage(Channel::A0))
    );
    assert_eq!(
        logger.take(),
        vec![
            LogEvent::Error("B+ voltage: 3.9999375V (> 4.0V)".to_string()),
            LogEvent::InProgress("Measuring 3V3...".to_string()),
        ]
    );
    let last = executor.advance_at(
        Observation::Voltage(Err(MeasureError::Bus("nack".to_string()))),
        3,
        &mut logger,
    );
    assert_eq!(
        logger.take(),
        vec![
            LogEvent::Error("3V3 voltage: N/A (err: i2c: nack)".to_string()),
            LogEvent::Error("-> Faulty power circuit".to_string()),
        ]
    );
    let board = match last {
        Next::Finished(TestResult::Failed(board)) => board,
        other => panic!("{:?}", other),
    };
    assert_eq!(board.values.len(), 3);
    assert_eq!(board.id, None);
    assert_eq!(board.ended_at, 3);
    assert!(!board.values[0].failed);
    assert_eq!(board.values[0].value, "N/A");
    assert_eq!(board.values[0].logs, Some("err: would block".to_string()));
    assert!(board.values[1].failed);
    assert_eq!(board.values[1].value, "3.9999375V");
    assert!(board.values[2].failed);
    assert_eq!(board.values[2].logs, Some("err: i2c: nack".to_string()));
}

#[test]
fn reading_outside_the_bounds_is_reported_with_the_bounds() {
    let (_, mut logger) = LoggerBuilder::split();
    let mut executor = MainBoardTestExecutor::new(&options(), PowerPolicy::standard());
    executor.begin_at(0, &mut logger);
    executor.advance_at(Observation::Voltage(Ok(0)), 1, &mut logger);
    executor.advance_at(Observation::Voltage(Ok(22400)), 2, &mut logger);
    logger.take();
    let last = executor.advance_at(Observation::Voltage(Ok(17600)), 3, &mut logger);
    assert_eq!(
        logger.take(),
        vec![
            LogEvent::Error("3V3 voltage: 3.3V (> 2.8V < 3.2V)".to_string()),
            LogEvent::Error("-> Faulty power circuit".to_string()),
        ]
    );
    assert!(matches!(last, Next::Finished(TestResult::Failed(_))));
}

#[test]
fn reading_on_the_bound_passes() {
    let policy = PowerPolicy {
        bplus: RailCheck { channel: Channel::A3, min: Some(1_875_000), max: None, gates: true },
        ..PowerPolicy::standard()
    };
    let (_, mut logger) = LoggerBuilder::split();
    let mut executor = MainBoardTestExecutor::new(&options(), policy);
    executor.begin_at(0, &mut logger);
    executor.advance_at(Observation::Voltage(Ok(0)), 1, &mut logger);
    executor.advance_at(Observation::Voltage(Ok(10)), 2, &mut logger);
    assert_eq!(
        executor.advance_at(Observation::Voltage(Ok(16000)), 3, &mut logger),
        perform(Operation::ReadIdentity)
    );
}

#[test]
fn failed_step_ends_the_test_at_once() {
    let (_, mut logger) = LoggerBuilder::split();
    let mut executor = MainBoardTestExecutor::new(&options(), PowerPolicy::standard());
    executor.begin_at(0, &mut logger);
    executor.advance_at(Observation::Voltage(Ok(26000)), 1, &mut logger);
    executor.advance_at(Observation::Voltage(Ok(22400)), 2, &mut logger);
    executor.advance_at(Observation::Voltage(Ok(16000)), 3, &mut logger);
    executor.advance_at(mac(), 4, &mut logger);
    logger.take();
    let last = executor.advance_at(
        Observation::Output(Err("`esptool` exited with non-zero exit code: x".to_string())),
        5,
        &mut logger,
    );
    assert_eq!(
        logger.take(),
        vec![
            LogEvent::Error("Flashing: `esptool` exited with non-zero exit code: x".to_string()),
            LogEvent::Error("-> Flashing failed".to_string()),
        ]
    );
    let board = match last {
        Next::Finished(TestResult::Failed(board)) => board,
        other => panic!("{:?}", other),
    };
    assert_eq!(board.values.len(), 5);
    assert!(board.values[4].failed);
    assert_eq!(board.values[4].value, "false");
    assert!(board.values[..4].iter().all(|v| !v.failed));
    assert_eq!(board.id, Some("AA:BB".to_string()));
}

#[test]
fn negative_line_in_the_boot_log_fails_the_board() {
    let (_, mut logger) = LoggerBuilder::split();
    let mut executor = MainBoardTestExecutor::new(&options(), PowerPolicy::standard());
    executor.begin_at(0, &mut logger);
    executor.advance_at(Observation::Voltage(Ok(26000)), 1, &mut logger);
    executor.advance_at(Observation::Voltage(Ok(22400)), 2, &mut logger);
    executor.advance_at(Observation::Voltage(Ok(16000)), 3, &mut logger);
    executor.advance_at(mac(), 4, &mut logger);
    executor.advance_at(Observation::Output(Ok("ok".to_string())), 5, &mut logger);
    executor.advance_at(Observation::Done(Ok(())), 6, &mut logger);
    executor.advance_at(Observation::Done(Ok(())), 7, &mut logger);
    logger.take();
    let last = executor.advance_at(
        Observation::Chunk(Ok(b"[FATAL] no sensor\n".to_vec())),
        8,
        &mut logger,
    );
    assert_eq!(
        logger.take(),
        vec![
            LogEvent::Error("I2C to IMU faulty".to_string()),
            LogEvent::Error(
                "[FATAL] no sensor\nnegative match: [FATAL] no sensor".to_string()
            ),
        ]
    );
    let board = match last {
        Next::Finished(TestResult::Failed(board)) => board,
        other => panic!("{:?}", other),
    };
    assert_eq!(board.values.len(), 7);
    assert_eq!(
        board.values[6].logs,
        Some("[FATAL] no sensor\nnegative match: [FATAL] no sensor".to_string())
    );
}

#[test]
fn command_that_cannot_be_sent_and_read_that_fails() {
    let (_, mut logger) = LoggerBuilder::split();
    let mut executor = MainBoardTestExecutor::new(&options(), PowerPolicy::standard());
    executor.begin_at(0, &mut logger);
    executor.advance_at(Observation::Voltage(Ok(26000)), 1, &mut logger);
    executor.advance_at(Observation::Voltage(Ok(22400)), 2, &mut logger);
    executor.advance_at(Observation::Voltage(Ok(16000)), 3, &mut logger);
    executor.advance_at(mac(), 4, &mut logger);
    executor.advance_at(Observation::Output(Ok("ok".to_string())), 5, &mut logger);
    executor.advance_at(Observation::Done(Ok(())), 6, &mut logger);
    executor.advance_at(Observation::Done(Ok(())), 7, &mut logger);
    executor.advance_at(
        Observation::Chunk(Ok(b"[INFO ] [BNO080Sensor:0] Connected to BNO085 on 0x4a\n".to_vec())),
        8,
        &mut logger,
    );
    let last = executor.advance_at(Observation::Done(Err("broken pipe".to_string())), 9, &mut logger);
    let board = match last {
        Next::Finished(TestResult::Failed(board)) => board,
        other => panic!("{:?}", other),
    };
    assert_eq!(board.values.len(), 8);
    assert_eq!(board.values[7].step, "IMU test");
    assert_eq!(
        board.values[7].logs,
        Some("Failed to write to serial port: broken pipe".to_string())
    );

    executor.begin_at(20, &mut logger);
    executor.advance_at(Observation::Voltage(Ok(26000)), 21, &mut logger);
    executor.advance_at(Observation::Voltage(Ok(22400)), 22, &mut logger);
    executor.advance_at(Observation::Voltage(Ok(16000)), 23, &mut logger);
    executor.advance_at(mac(), 24, &mut logger);
    executor.advance_at(Observation::Output(Ok("ok".to_string())), 25, &mut logger);
    executor.advance_at(Observation::Done(Ok(())), 26, &mut logger);
    executor.advance_at(Observation::Done(Ok(())), 27, &mut logger);
    executor.advance_at(Observation::Chunk(Ok(b"partial".to_vec())), 28, &mut logger);
    let last = executor.advance_at(Observation::Chunk(Err("timed out".to_string())), 29, &mut logger);
    let board = match last {
        Next::Finished(TestResult::Failed(board)) => board,
        other => panic!("{:?}", other),
    };
    assert_eq!(board.values[6].logs, Some("Lines: partial\nError: timed out".to_string()));
    assert_eq!(board.started_at, 20);
}

#[test]
fn reply_that_does_not_fit_the_request_fails_the_step() {
    let (_, mut logger) = LoggerBuilder::split();
    let mut executor = MainBoardTestExecutor::new(&options(), PowerPolicy::standard());
    executor.begin_at(0, &mut logger);
    executor.advance_at(Observation::Voltage(Ok(26000)), 1, &mut logger);
    executor.advance_at(Observation::Voltage(Ok(22400)), 2, &mut logger);
    executor.advance_at(Observation::Voltage(Ok(16000)), 3, &mut logger);
    let last = executor.advance_at(Observation::Count(3), 4, &mut logger);
    let board = match last {
        Next::Finished(TestResult::Failed(board)) => board,
        other => panic!("{:?}", other),
    };
    assert_eq!(board.values[3].logs, Some("unexpected reply".to_string()));
}

#[test]
fn clock_readings_come_from_the_clock() {
    let (_, mut logger) = LoggerBuilder::split();
    let mut executor = MainBoardTestExecutor::new(&options(), PowerPolicy::standard());
    executor.begin(&mut logger);
    executor.advance(Observation::Voltage(Ok(26000)), &mut logger);
    executor.advance(Observation::Voltage(Ok(0)), &mut logger);
    let last = executor.advance(Observation::Voltage(Ok(16000)), &mut logger);
    let board = match last {
        Next::Finished(TestResult::Failed(board)) => board,
        other => panic!("{:?}", other),
    };
    assert!(board.started_at > 1_600_000_000_000_000);
    assert!(board.started_at <= board.values[0].started_at);
    assert!(board.values[2].ended_at <= board.ended_at);
}

#[test]
fn every_step_sends_a_progress_report_before_and_an_outcome_after() {
    let (mut renderer, mut logger) = LoggerBuilder::split();
    let mut executor = MainBoardTestExecutor::new(&options(), PowerPolicy::standard());
    executor.begin_at(0, &mut logger);
    executor.advance_at(Observation::Voltage(Ok(26000)), 1, &mut logger);
    executor.advance_at(Observation::Voltage(Ok(22400)), 2, &mut logger);
    executor.advance_at(Observation::Voltage(Ok(16000)), 3, &mut logger);
    let last = executor.advance_at(Observation::Identity(Err("gone".to_string())), 4, &mut logger);
    assert!(matches!(last, Next::Finished(TestResult::Failed(_))));
    let sent = logger.take();
    assert_eq!(
        sent,
        vec![
            LogEvent::InProgress("Measuring VOUT...".to_string()),
            LogEvent::Success("VOUT voltage: 4.875V".to_string()),
            LogEvent::InProgress("Measuring B+...".to_string()),
            LogEvent::Success("B+ voltage: 4.2V".to_string()),
            LogEvent::InProgress("Measuring 3V3...".to_string()),
            LogEvent::Success("3V3 voltage: 3.0V".to_string()),
            LogEvent::InProgress("Reading MAC address...".to_string()),
            LogEvent::Error("Failed to read MAC address: gone".to_string()),
            LogEvent::Error("-> ESP8266 faulty".to_string()),
        ]
    );
    renderer.run(sent);
    assert_eq!(
        renderer.history(),
        vec![
            LogEvent::Success("VOUT voltage: 4.875V".to_string()),
            LogEvent::Success("B+ voltage: 4.2V".to_string()),
            LogEvent::Success("3V3 voltage: 3.0V".to_string()),
            LogEvent::Error("Failed to read MAC address: gone".to_string()),
            LogEvent::Error("-> ESP8266 faulty".to_string()),
        ]
    );
}
