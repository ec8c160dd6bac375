use todo_sync::outcome::SyncResult;

#[test]
fn a_plain_success_has_no_payload() {
    let r = SyncResult::succeeded("done");
    assert!(r.success());
    assert_eq!(r.message().as_str(), "done");
    assert!(r.data().is_none());
}

#[test]
fn a_delivery_carries_the_content_untouched() {
    let r = SyncResult::delivered("read", "{\"todos\":[\"买菜\"]}\n".to_string());
    assert!(r.success());
    assert_eq!(r.message().as_str(), "read");
    assert_eq!(r.data().map(|s| s.as_str()), Some("{\"todos\":[\"买菜\"]}\n"));
}

#[test]
fn a_delivery_of_nothing_is_still_a_payload() {
    let r = SyncResult::delivered("read", String::new());
    assert_eq!(r.data().map(|s| s.as_str()), Some(""));
}

#[test]
fn a_failure_joins_prefix_and_detail() {
    let r = SyncResult::failed("写入失败: ", "disk full");
    assert!(!r.success());
    assert_eq!(r.message().as_str(), "写入失败: disk full");
    assert!(r.data().is_none());
}

#[test]
fn a_refusal_has_exactly_its_message() {
    let r = SyncResult::refused("认证失败");
    assert!(!r.success());
    assert_eq!(r.message().as_str(), "认证失败");
    assert!(r.data().is_none());
}

#[test]
fn a_failure_has_no_room_for_data() {
    let results = [
        SyncResult::failed("a", "b"),
        SyncResult::refused("c"),
        SyncResult::Failure { message: "d".to_string() },
    ];
    for r in results.iter() {
        assert!(!r.success());
        assert!(r.data().is_none());
    }
}

#[test]
fn results_compare_by_their_fields() {
    assert_eq!(SyncResult::succeeded("x"), SyncResult::Success { message: "x".to_string(), data: None });
    assert_ne!(SyncResult::succeeded("x"), SyncResult::refused("x"));
}
