use timer_windows::aspect::Size;
use timer_windows::window::{
    close_outcome, page_url_for, restore_plan, restore_request_for, window_state, Chrome,
    Geometry, Position, WindowError, WindowManager, WindowState, ANCHOR_OFFSET, DEFAULT_HEIGHT,
    DEFAULT_WIDTH, MIN_HEIGHT, MIN_WIDTH,
};

fn saved(id: &str, x: Option<i32>, y: Option<i32>, width: u32, height: u32) -> WindowState {
    WindowState { id: String::from(id), x, y, width, height }
}

fn timer_chrome() -> Chrome {
    Chrome {
        decorations: false,
        transparent: true,
        always_on_top: true,
        resizable: true,
        shadow: false,
        visible: true,
    }
}

#[test]
fn constants_are_as_documented() {
    assert_eq!(DEFAULT_WIDTH, 312);
    assert_eq!(DEFAULT_HEIGHT, 125);
    assert_eq!(MIN_WIDTH, 250);
    assert_eq!(MIN_HEIGHT, 100);
    assert_eq!(ANCHOR_OFFSET, 30);
    assert_eq!(Chrome::timer(), timer_chrome());
}

#[test]
fn create_window_with_anchor() {
    let mut manager = WindowManager::new();
    let request = manager.create_window(Some(100), Some(200)).unwrap();
    assert_eq!(request.label, "timer-1");
    assert_eq!(request.url, "index.html?windowId=timer-1");
    assert_eq!(request.title, "Countdown Timer");
    assert_eq!(request.position, Some(Position { x: 130, y: 230 }));
    assert_eq!(request.inner_size, Size { width: 312, height: 125 });
    assert_eq!(request.min_inner_size, Size { width: 250, height: 100 });
    assert_eq!(request.chrome, timer_chrome());
}

#[test]
fn create_window_without_anchor_leaves_placement_to_host() {
    let mut manager = WindowManager::new();
    assert_eq!(manager.create_window(None, None).unwrap().position, None);
    assert_eq!(manager.create_window(Some(5), None).unwrap().position, None);
    assert_eq!(manager.create_window(None, Some(5)).unwrap().position, None);
}

#[test]
fn create_window_spends_a_label_each_time() {
    let mut manager = WindowManager::new();
    assert_eq!(manager.next_number(), 1);
    assert_eq!(manager.create_window(None, None).unwrap().label, "timer-1");
    assert_eq!(manager.create_window(None, None).unwrap().label, "timer-2");
    assert_eq!(manager.create_window(Some(0), Some(0)).unwrap().label, "timer-3");
    assert_eq!(manager.next_number(), 4);
}

#[test]
fn anchor_at_the_edge_of_the_range_does_not_overflow() {
    let mut manager = WindowManager::new();
    let far = manager.create_window(Some(i32::MAX), Some(i32::MIN)).unwrap();
    assert_eq!(
        far.position,
        Some(Position { x: 2_147_483_677, y: -2_147_483_618 })
    );
    let negative = manager.create_window(Some(-30), Some(-31)).unwrap();
    assert_eq!(negative.position, Some(Position { x: 0, y: -1 }));
}

#[test]
fn create_window_fails_once_labels_run_out() {
    let mut manager = WindowManager::new();
    manager.window_restored("timer-4294967295");
    assert!(manager.create_window(Some(1), Some(2)).is_none());
    assert_eq!(manager.next_number(), 4_294_967_296);
}

#[test]
fn restore_skips_main_and_advances_counter() {
    let mut manager = WindowManager::new();
    let records = vec![
        saved("main", Some(10), Some(20), 312, 125),
        saved("timer-9", Some(40), Some(50), 400, 160),
    ];
    let plan = manager.restore_windows(&records);
    assert_eq!(plan.len(), 1);
    assert_eq!(plan[0].label, "timer-9");
    assert_eq!(plan[0].url, "index.html?windowId=timer-9");
    assert_eq!(plan[0].title, "Countdown Timer");
    assert_eq!(plan[0].position, Some(Position { x: 40, y: 50 }));
    assert_eq!(plan[0].inner_size, Size { width: 400, height: 160 });
    assert_eq!(plan[0].min_inner_size, Size { width: 250, height: 100 });
    assert_eq!(plan[0].chrome, timer_chrome());
    // Planning alone does not move the counter.
    assert_eq!(manager.next_number(), 1);
    for request in &plan {
        manager.window_restored(&request.label);
    }
    assert_eq!(manager.create_window(None, None).unwrap().label, "timer-10");
}

#[test]
fn restore_keeps_order_and_every_other_record() {
    let records = vec![
        saved("timer-3", None, None, 300, 120),
        saved("main", None, None, 312, 125),
        saved("notes", Some(1), None, 10, 20),
        saved("main", Some(1), Some(2), 1, 1),
        saved("timer-1", Some(-5), Some(-6), 250, 100),
        saved("Main", Some(7), Some(8), 9, 10),
        saved("", None, Some(3), 0, 0),
    ];
    let plan = restore_plan(&records);
    let labels: Vec<&str> = plan.iter().map(|r| r.label.as_str()).collect();
    assert_eq!(labels, vec!["timer-3", "notes", "timer-1", "Main", ""]);
    assert_eq!(plan[0].position, None);
    assert_eq!(plan[1].position, None);
    assert_eq!(plan[2].position, Some(Position { x: -5, y: -6 }));
    assert_eq!(plan[3].position, Some(Position { x: 7, y: 8 }));
    assert_eq!(plan[4].position, None);
    assert_eq!(plan[1].inner_size, Size { width: 10, height: 20 });
    assert_eq!(plan[4].url, "index.html?windowId=");
}

#[test]
fn restore_of_nothing_plans_nothing() {
    assert!(restore_plan(&Vec::new()).is_empty());
    assert!(restore_plan(&vec![saved("main", None, None, 1, 1)]).is_empty());
}

#[test]
fn restore_request_keeps_saved_position_without_offset() {
    let request = restore_request_for(&saved("timer-2", Some(100), Some(200), 500, 200));
    assert_eq!(request.label, "timer-2");
    assert_eq!(request.position, Some(Position { x: 100, y: 200 }));
    assert_eq!(request.inner_size, Size { width: 500, height: 200 });
}

#[test]
fn failed_restore_leaves_counter_alone() {
    let mut manager = WindowManager::new();
    let records = vec![
        saved("timer-4", None, None, 312, 125),
        saved("timer-12", None, None, 312, 125),
    ];
    let plan = manager.restore_windows(&records);
    assert_eq!(plan.len(), 2);
    // The host built the first window only.
    manager.window_restored(&plan[0].label);
    assert_eq!(manager.create_window(None, None).unwrap().label, "timer-5");
}

#[test]
fn restored_labels_without_number_leave_counter_alone() {
    let mut manager = WindowManager::new();
    manager.window_restored("notes");
    manager.window_restored("main");
    manager.window_restored("timer-");
    assert_eq!(manager.next_number(), 1);
}

#[test]
fn page_url_names_the_window() {
    assert_eq!(page_url_for("timer-5"), "index.html?windowId=timer-5");
    assert_eq!(page_url_for(""), "index.html?windowId=");
    assert_eq!(page_url_for("a b"), "index.html?windowId=a b");
}

#[test]
fn closing_unknown_window_succeeds() {
    assert_eq!(close_outcome(None), Ok(()));
}

#[test]
fn closing_known_window_reports_the_host() {
    assert_eq!(close_outcome(Some(Ok(()))), Ok(()));
    assert_eq!(
        close_outcome(Some(Err(String::from("event loop closed")))),
        Err(WindowError::Host(String::from("event loop closed")))
    );
}

#[test]
fn window_state_of_unknown_window_is_not_found() {
    let outcome = window_state(String::from("timer-3"), None);
    match outcome {
        Err(error) => {
            assert_eq!(error, WindowError::NotFound(String::from("timer-3")));
            assert_eq!(error.message(), "Window timer-3 not found");
        }
        Ok(state) => panic!("unexpected state {:?}", state),
    }
}

#[test]
fn window_state_reports_host_failure() {
    let outcome = window_state(String::from("timer-3"), Some(Err(String::from("no monitor"))));
    match outcome {
        Err(error) => {
            assert_eq!(error, WindowError::Host(String::from("no monitor")));
            assert_eq!(error.message(), "no monitor");
        }
        Ok(state) => panic!("unexpected state {:?}", state),
    }
}

#[test]
fn window_state_holds_what_the_host_reports() {
    let geometry = Geometry { x: -12, y: 34, width: 500, height: 200 };
    let state = window_state(String::from("timer-8"), Some(Ok(geometry))).unwrap();
    assert_eq!(state.id, "timer-8");
    assert_eq!(state.x, Some(-12));
    assert_eq!(state.y, Some(34));
    assert_eq!(state.width, 500);
    assert_eq!(state.height, 200);
}

#[test]
fn not_found_message_quotes_the_label_as_given() {
    assert_eq!(WindowError::NotFound(String::new()).message(), "Window  not found");
    assert_eq!(WindowError::NotFound(String::from("a b")).message(), "Window a b not found");
    assert_eq!(WindowError::Host(String::new()).message(), "");
}
