use tester::api::TestReportValue;
use tester::logger::{copy_of, Color, LogEvent};
use tester::test_executors::mainboard::{MainBoardTestExecutor, PowerPolicy};
use tester::test_executors::{settle, has_failure, Finding, Next, Observation};
use tester::logger::LoggerBuilder;
use tester::options::{FlashWith, Options};
use tester::text::{
    chars_of, contains, contains_any, decimal_text, find, find_from, matches_at, remove_all, same,
    slice_of, text_of,
};
use tester::{Board, TestResult};

fn chars(s: &str) -> Vec<char> {
    s.chars().collect()
}

#[test]
fn substring_search_agrees_with_the_standard_library() {
    let hays = ["", "a", "abcabc", "[ERR] bus", "ααβ", "xMAC: y"];
    let needles = ["", "a", "bc", "abcabcd", "ERR", "αβ", "MAC: "];
    for hay in hays {
        for needle in needles {
            assert_eq!(contains(&chars(hay), &chars(needle)), hay.contains(needle), "{hay} {needle}");
            let at = find(&chars(hay), &chars(needle));
            let expected = hay.find(needle).map(|b| hay[..b].chars().count());
            assert_eq!(at, expected, "{hay} {needle}");
        }
    }
    assert!(matches_at(&chars("abc"), &chars("bc"), 1));
    assert!(!matches_at(&chars("abc"), &chars("bc"), 2));
    assert!(matches_at(&chars("abc"), &chars(""), 3));
    assert!(!matches_at(&chars("abc"), &chars(""), 4));
    assert!(contains_any(&chars("abc"), &vec![chars("x"), chars("c")]));
    assert!(!contains_any(&chars("abc"), &vec![]));
}

#[test]
fn text_conversions_and_slices() {
    assert_eq!(chars_of("héllo"), chars("héllo"));
    assert_eq!(text_of(&chars("héllo")), "héllo");
    assert_eq!(slice_of(&chars("hello"), 1, 3), chars("el"));
    assert_eq!(find_from(&chars("a\nb\n"), '\n', 2), 3);
    assert_eq!(find_from(&chars("a\nb"), '\n', 2), 3);
    assert_eq!(remove_all(&chars("a\0b\0"), '\0'), chars("ab"));
    assert!(same("abc", "abc"));
    assert!(!same("abc", "abd"));
    assert!(!same("abc", "ab"));
    assert_eq!(decimal_text(0), "0");
    assert_eq!(decimal_text(1203), "1203");
    assert_eq!(decimal_text(u64::MAX), "18446744073709551615");
}

#[test]
fn copies_are_equal() {
    for event in [
        LogEvent::Success("a".to_string()),
        LogEvent::Error("b".to_string()),
        LogEvent::InProgress("c".to_string()),
        LogEvent::Action("d".to_string()),
        LogEvent::Fill(Color::Green),
        LogEvent::Reset,
    ] {
        assert_eq!(copy_of(&event), event);
    }
    let record = TestReportValue::new("s", "c", "v", Some("l".to_string()), true, 1, 2);
    assert_eq!(record.copy(), record);
    assert_eq!(record.step, "s");
    assert_eq!(record.condition, "c");
    assert_eq!(record.value, "v");
    assert_eq!(record.logs, Some("l".to_string()));
    assert!(record.failed);
    assert_eq!((record.started_at, record.ended_at), (1, 2));
}

#[test]
fn settling_a_step_records_it_and_takes_over_the_identity() {
    let mut board = Board::new_at(0);
    assert!(!has_failure(&board));
    let failed = settle(
        &mut board,
        "Read MAC address",
        "MAC address should be readable",
        Finding { value: "AA".to_string(), logs: None, failed: false, id: Some("AA".to_string()) },
        3,
        4,
    );
    assert!(!failed);
    assert_eq!(board.id, Some("AA".to_string()));
    settle(
        &mut board,
        "Flashing",
        "Flashing should work",
        Finding { value: "false".to_string(), logs: Some("x".to_string()), failed: true, id: None },
        4,
        9,
    );
    assert_eq!(board.id, Some("AA".to_string()));
    assert!(has_failure(&board));
    assert_eq!(
        board.values[1],
        TestReportValue::new("Flashing", "Flashing should work", "false", Some("x".to_string()), true, 4, 9)
    );
}

#[test]
fn steps_follow_one_another_without_overlap() {
    let options = Options {
        no_build: true,
        flash_with: FlashWith::PlatformIO,
        flash_baudrate: 1,
        rpc_url: String::new(),
        rpc_password: String::new(),
        report_type: String::new(),
        tester_name: String::new(),
    };
    let (_, mut logger) = LoggerBuilder::split();
    let mut executor = MainBoardTestExecutor::new(&options, PowerPolicy::standard());
    executor.begin_at(7, &mut logger);
    executor.advance_at(Observation::Voltage(Ok(26000)), 7, &mut logger);
    executor.advance_at(Observation::Voltage(Ok(22400)), 15, &mut logger);
    executor.advance_at(Observation::Voltage(Ok(16000)), 15, &mut logger);
    let last = executor.advance_at(Observation::Identity(Err("no tool".to_string())), 40, &mut logger);
    let board = match last {
        Next::Finished(TestResult::Failed(board)) => board,
        other => panic!("{:?}", other),
    };
    assert!(board.started_at <= board.values[0].started_at);
    for i in 0..board.values.len() {
        assert!(board.values[i].started_at <= board.values[i].ended_at);
        if i + 1 < board.values.len() {
            assert!(board.values[i].ended_at <= board.values[i + 1].started_at);
        }
    }
    assert!(board.values.last().unwrap().ended_at <= board.ended_at);
    assert_eq!(board.values.len(), 4);
    assert!(board.values[3].failed);
}

#[test]
fn clock_that_runs_backwards_is_recorded_as_it_reads() {
    let options = Options {
        no_build: true,
        flash_with: FlashWith::PlatformIO,
        flash_baudrate: 1,
        rpc_url: String::new(),
        rpc_password: String::new(),
        report_type: String::new(),
        tester_name: String::new(),
    };
    let (_, mut logger) = LoggerBuilder::split();
    let mut executor = MainBoardTestExecutor::new(&options, PowerPolicy::standard());
    executor.begin_at(100, &mut logger);
    executor.advance_at(Observation::Voltage(Ok(26000)), 50, &mut logger);
    executor.advance_at(Observation::Voltage(Ok(0)), 60, &mut logger);
    let last = executor.advance_at(Observation::Voltage(Ok(0)), 70, &mut logger);
    let board = match last {
        Next::Finished(TestResult::Failed(board)) => board,
        other => panic!("{:?}", other),
    };
    assert_eq!((board.values[0].started_at, board.values[0].ended_at), (100, 50));
}
