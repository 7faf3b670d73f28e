use tester::logger::{Color, LogEvent};
use tester::test_executors::Observation;
use tester::upload_update::{
    notice, Options, UpdateNext, UpdateOperation, UploadUpdateExecutor, ADDRESS_PATTERN,
};

fn executor() -> UploadUpdateExecutor {
    UploadUpdateExecutor::new(Options::parse(
        Some("no".to_string()),
        Some("lab".to_string()),
        Some("SECRET-REDACTED".to_string()),
    ))
}

fn joined(executor: &mut UploadUpdateExecutor, notices: &mut Vec<LogEvent>) {
    assert_eq!(executor.begin(notices), UpdateNext::Perform(250, UpdateOperation::OpenSerial));
    assert_eq!(
        executor.advance(Observation::Done(Ok(())), notices),
        UpdateNext::Perform(0, UpdateOperation::ClearBuffers)
    );
    assert_eq!(
        executor.advance(Observation::Done(Ok(())), notices),
        UpdateNext::Perform(
            0,
            UpdateOperation::Write("SET WIFI \"lab\" \"SECRET-REDACTED\"\n".to_string())
        )
    );
    assert_eq!(
        executor.advance(Observation::Done(Ok(())), notices),
        UpdateNext::Perform(0, UpdateOperation::ReadSerial)
    );
}

#[test]
fn update_that_goes_through() {
    let mut notices = Vec::new();
    let mut executor = executor();
    joined(&mut executor, &mut notices);
    assert_eq!(
        executor.advance(Observation::Chunk(Ok(b"joining...\n".to_vec())), &mut notices),
        UpdateNext::Perform(0, UpdateOperation::ReadSerial)
    );
    assert_eq!(
        executor.advance(
            Observation::Chunk(Ok(
                b"Connected successfully to SSID 'lab', ip address 192.168.1.57\n".to_vec()
            )),
            &mut notices
        ),
        UpdateNext::Perform(2000, UpdateOperation::Flash("192.168.1.57".to_string()))
    );
    assert_eq!(
        executor.advance(Observation::Done(Ok(())), &mut notices),
        UpdateNext::Perform(2000, UpdateOperation::Write("FRST\n".to_string()))
    );
    assert_eq!(
        executor.advance(Observation::Done(Ok(())), &mut notices),
        UpdateNext::Perform(0, UpdateOperation::ReadSerial)
    );
    assert_eq!(
        executor.advance(Observation::Chunk(Ok(b"SlimeVR starting up\n".to_vec())), &mut notices),
        UpdateNext::Finished(Ok(()))
    );
    assert_eq!(
        notices,
        vec![
            LogEvent::InProgress("Connecting to serial port...".to_string()),
            LogEvent::Success("Serial port opened".to_string()),
            LogEvent::InProgress("Setting WiFi credentials...".to_string()),
            LogEvent::InProgress("Waiting for network connection".to_string()),
            LogEvent::Success("Found network connection message".to_string()),
            LogEvent::InProgress("Flashing...".to_string()),
            LogEvent::Success("Flashing successful".to_string()),
            LogEvent::InProgress("Resetting device to factory defaults...".to_string()),
            LogEvent::InProgress("Waiting for startup message...".to_string()),
        ]
    );
    assert_eq!(executor.advance(Observation::Done(Ok(())), &mut notices), UpdateNext::Idle);
}

#[test]
fn log_without_an_address_fails_the_update() {
    let mut notices = Vec::new();
    let mut executor = executor();
    joined(&mut executor, &mut notices);
    assert_eq!(
        executor.advance(
            Observation::Chunk(Ok(b"Connected successfully to SSID\n".to_vec())),
            &mut notices
        ),
        UpdateNext::Finished(Err("No address found in the log".to_string()))
    );
}

#[test]
fn address_handed_in_decides_what_follows() {
    let mut notices = Vec::new();
    let mut executor = executor();
    assert_eq!(executor.located(Some("10.0.0.1".to_string()), &mut notices), UpdateNext::Idle);
    joined(&mut executor, &mut notices);
    notices.clear();
    assert_eq!(
        executor.located(Some("10.0.0.1".to_string()), &mut notices),
        UpdateNext::Perform(2000, UpdateOperation::Flash("10.0.0.1".to_string()))
    );
    assert_eq!(
        notices,
        vec![
            LogEvent::Success("Found network connection message".to_string()),
            LogEvent::InProgress("Flashing...".to_string()),
        ]
    );
    let mut other = self::executor();
    joined(&mut other, &mut notices);
    assert_eq!(
        other.located(None, &mut notices),
        UpdateNext::Finished(Err("No address found in the log".to_string()))
    );
}

#[test]
fn failures_end_the_update() {
    let mut notices = Vec::new();
    let mut executor = executor();
    executor.begin(&mut notices);
    notices.clear();
    assert_eq!(
        executor.advance(Observation::Done(Err("no such port".to_string())), &mut notices),
        UpdateNext::Finished(Err("no such port".to_string()))
    );
    assert_eq!(
        notices,
        vec![
            LogEvent::Error("Failed to open serial port: no such port".to_string()),
            LogEvent::Error("-> Serial port failed".to_string()),
        ]
    );
    let mut second = self::executor();
    joined(&mut second, &mut notices);
    assert_eq!(
        second.advance(Observation::Chunk(Err("timed out".to_string())), &mut notices),
        UpdateNext::Finished(Err("Lines: \nError: timed out".to_string()))
    );
    let mut third = self::executor();
    joined(&mut third, &mut notices);
    third.located(Some("10.0.0.1".to_string()), &mut notices);
    notices.clear();
    assert_eq!(
        third.advance(Observation::Done(Err("upload failed".to_string())), &mut notices),
        UpdateNext::Finished(Err("upload failed".to_string()))
    );
    assert_eq!(
        notices,
        vec![
            LogEvent::Error("Flashing: upload failed".to_string()),
            LogEvent::Error("-> Flashing failed".to_string()),
        ]
    );
    let mut fourth = self::executor();
    fourth.begin(&mut notices);
    assert_eq!(
        fourth.advance(Observation::Count(1), &mut notices),
        UpdateNext::Finished(Err("unexpected reply".to_string()))
    );
}

#[test]
fn settings_of_the_updater() {
    let options = Options::parse(None, None, None);
    assert!(!options.no_build);
    assert_eq!(options.ssid, "");
    assert_eq!(options.password, "");
    assert!(Options::parse(Some("no".to_string()), None, None).no_build);
    assert!(!Options::parse(Some("No".to_string()), None, None).no_build);
    assert!(ADDRESS_PATTERN.contains("25[0-5]"));
}

#[test]
fn events_are_shown_with_a_mark() {
    assert_eq!(notice(&LogEvent::Error("x".to_string())), Some("❌ x".to_string()));
    assert_eq!(notice(&LogEvent::Success("x".to_string())), Some("✅ x".to_string()));
    assert_eq!(notice(&LogEvent::InProgress("x".to_string())), Some("🕑 x".to_string()));
    assert_eq!(notice(&LogEvent::Action("x".to_string())), Some("❗ x".to_string()));
    assert_eq!(notice(&LogEvent::Fill(Color::Red)), None);
    assert_eq!(notice(&LogEvent::Reset), None);
}
