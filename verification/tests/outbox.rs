use tester::api::TestReportValue;
use tester::outbox::{BoardUploadFailure, Delivery, ReportOutbox, UploadRequest, METHOD};
use tester::Board;

fn board(id: Option<&str>) -> Board {
    let mut board = Board::new_at(5);
    board.id = id.map(|s| s.to_string());
    board.add_value(TestReportValue::new("Init", "should be successful", "true", None, false, 5, 6));
    board.ended_at = 7;
    board
}

#[test]
fn failed_upload_is_kept_and_survives_a_restart() {
    let mut outbox = ReportOutbox::new(vec![]);
    outbox.enqueue(board(Some("AA:BB")));
    assert_eq!(outbox.pending_len(), 1);
    let snapshot = outbox.drain();
    assert_eq!(outbox.pending_len(), 0);
    assert_eq!(snapshot, vec![board(Some("AA:BB"))]);
    for b in snapshot {
        assert!(ReportOutbox::request(&b, "mainboard", "bench-1").is_some());
        assert_eq!(outbox.settle(b, Err("connection refused".to_string())), Delivery::Failed);
    }
    let kept = outbox.failures();
    assert_eq!(
        kept,
        vec![BoardUploadFailure { board: board(Some("AA:BB")), error: "connection refused".to_string() }]
    );
    let restarted = ReportOutbox::new(kept.clone());
    assert_eq!(restarted.failures(), kept);
    assert_eq!(restarted.pending_len(), 0);
}

#[test]
fn board_without_identity_is_neither_uploaded_nor_kept() {
    let mut outbox = ReportOutbox::new(vec![]);
    outbox.enqueue(board(None));
    let snapshot = outbox.drain();
    for b in snapshot {
        assert_eq!(ReportOutbox::request(&b, "mainboard", "bench-1"), None);
        assert_eq!(outbox.settle(b, Err("down".to_string())), Delivery::Skipped);
    }
    assert_eq!(outbox.failures(), vec![]);
}

#[test]
fn status_outside_the_200s_is_a_failure_with_the_body_as_reason() {
    let mut outbox = ReportOutbox::new(vec![]);
    assert_eq!(outbox.settle(board(Some("a")), Ok((200, "ok".to_string()))), Delivery::Delivered);
    assert_eq!(outbox.settle(board(Some("b")), Ok((204, "".to_string()))), Delivery::Delivered);
    assert_eq!(outbox.settle(board(Some("c")), Ok((299, "".to_string()))), Delivery::Delivered);
    assert_eq!(outbox.settle(board(Some("d")), Ok((300, "moved".to_string()))), Delivery::Failed);
    assert_eq!(outbox.settle(board(Some("e")), Ok((199, "early".to_string()))), Delivery::Failed);
    assert_eq!(outbox.settle(board(Some("f")), Ok((500, "boom".to_string()))), Delivery::Failed);
    let kept = outbox.failures();
    assert_eq!(
        kept.iter().map(|f| (f.board.id.clone().unwrap(), f.error.clone())).collect::<Vec<_>>(),
        vec![
            ("d".to_string(), "moved".to_string()),
            ("e".to_string(), "early".to_string()),
            ("f".to_string(), "boom".to_string())
        ]
    );
}

#[test]
fn request_carries_the_board() {
    let request = ReportOutbox::request(&board(Some("AA:BB")), "auxboard", "bench-2").unwrap();
    assert_eq!(
        request,
        UploadRequest {
            report_type: "auxboard".to_string(),
            id: "AA:BB".to_string(),
            tester: "bench-2".to_string(),
            values: board(None).values,
            started_at: 5,
            ended_at: 7,
        }
    );
    assert_eq!(METHOD, "insert_test_report");
}

#[test]
fn queue_keeps_the_order_of_arrival_and_earlier_failures_stay_first() {
    let earlier = BoardUploadFailure { board: board(Some("old")), error: "then".to_string() };
    let mut outbox = ReportOutbox::new(vec![earlier.clone()]);
    outbox.enqueue(board(Some("1")));
    outbox.enqueue(board(None));
    outbox.enqueue(board(Some("2")));
    let snapshot = outbox.drain();
    assert_eq!(
        snapshot.iter().map(|b| b.id.clone()).collect::<Vec<_>>(),
        vec![Some("1".to_string()), None, Some("2".to_string())]
    );
    outbox.enqueue(board(Some("3")));
    for b in snapshot {
        outbox.settle(b, Err("down".to_string()));
    }
    assert_eq!(outbox.pending_len(), 1);
    let kept = outbox.failures();
    assert_eq!(kept.len(), 3);
    assert_eq!(kept[0], earlier);
    assert_eq!(kept[1].board.id, Some("1".to_string()));
    assert_eq!(kept[2].board.id, Some("2".to_string()));
}

#[test]
fn new_board_has_no_steps_and_has_not_ended() {
    let fresh = Board::new_at(42);
    assert_eq!(fresh.id, None);
    assert_eq!(fresh.values, vec![]);
    assert_eq!(fresh.started_at, 42);
    assert_eq!(fresh.ended_at, tester::clock::NOT_ENDED);
    let now = Board::new();
    assert!(now.started_at > 1_600_000_000_000_000);
    assert_eq!(now.copy(), now);
}
