use wincat::policy::{decide, Trigger};
use wincat::session::{CaptureResource, CaptureSession};

fn resource() -> CaptureResource {
    CaptureResource { width: 640, height: 480, active: true }
}

fn session_on(window: isize, pid: u32, forced: bool) -> Option<CaptureSession> {
    Some(CaptureSession { resource: resource(), window, process_id: pid, force_update: forced })
}

fn trigger(window: isize, pid: Option<u32>, visible: bool, title: &str) -> Option<Trigger> {
    Some(Trigger { window, process_id: pid, visible, title: title.to_owned() })
}

#[test]
fn refresh_policy_deterministic_and_flag_only() {
    let trig = trigger(2, Some(10), true, "Editor");
    let mut a = session_on(1, 10, false);
    let mut b = session_on(1, 10, false);
    let ra = decide(&mut a, &trig, 1);
    let rb = decide(&mut b, &trig, 1);
    assert_eq!(ra, rb);
    // nothing but the (already clear) flag was touched
    let s = a.unwrap();
    assert_eq!(s.window, 1);
    assert_eq!(s.process_id, 10);
    assert_eq!(s.resource, resource());
    assert!(!s.force_update);
}

#[test]
fn no_session_always_refreshes() {
    let mut none_session = None;
    assert!(decide(&mut none_session, &None, 77));
    let mut none_session = None;
    assert!(decide(&mut none_session, &trigger(5, None, false, ""), -3));
}

#[test]
fn moved_selection_always_refreshes() {
    let mut s = session_on(1, 10, false);
    assert!(decide(&mut s, &None, 2));
    let mut s = session_on(1, 10, false);
    assert!(decide(&mut s, &trigger(9, Some(999), false, ""), 2));
}

#[test]
fn poke_same_window_no_refresh() {
    let mut s = session_on(1, 10, false);
    assert!(!decide(&mut s, &None, 1));
}

#[test]
fn same_process_replacement_window_refreshes() {
    // session bound to window 1 / pid 10; trigger = window 2, pid 10,
    // visible, titled; selection stays 1
    let mut s = session_on(1, 10, false);
    assert!(decide(&mut s, &trigger(2, Some(10), true, "Editor"), 1));
}

#[test]
fn other_process_trigger_no_refresh() {
    let mut s = session_on(1, 10, false);
    assert!(!decide(&mut s, &trigger(2, Some(20), true, "Editor"), 1));
}

#[test]
fn force_update_cleared_by_first_call() {
    let mut s = session_on(1, 10, true);
    assert!(decide(&mut s, &None, 1));
    assert!(!s.as_ref().unwrap().force_update);
    assert!(!decide(&mut s, &None, 1));
}

#[test]
fn trigger_equal_to_selection_no_refresh() {
    let mut s = session_on(1, 10, false);
    assert!(!decide(&mut s, &trigger(1, Some(10), true, "Editor"), 1));
}

#[test]
fn invisible_trigger_no_refresh() {
    let mut s = session_on(1, 10, false);
    assert!(!decide(&mut s, &trigger(2, Some(10), false, "Editor"), 1));
}

#[test]
fn untitled_trigger_no_refresh() {
    let mut s = session_on(1, 10, false);
    assert!(!decide(&mut s, &trigger(2, Some(10), true, ""), 1));
}

#[test]
fn unresolvable_trigger_no_refresh() {
    let mut s = session_on(1, 10, false);
    assert!(!decide(&mut s, &trigger(2, None, true, "Editor"), 1));
}

#[test]
fn flag_not_cleared_when_selection_moves() {
    let mut s = session_on(1, 10, true);
    assert!(decide(&mut s, &None, 2));
    assert!(s.as_ref().unwrap().force_update);
}
