use wincat::config::{CaptureOptions, Settings};
use wincat::event::{EventHandle, EventHolder};
use wincat::session::frame_plan;
use wincat::snapshot::{find_process, record_window, upsert_process, Process, SnapshotCell, Window};

fn win(hwnd: isize, title: &str, visible: bool) -> Window {
    Window {
        title: title.to_owned(),
        class_name: "frame".to_owned(),
        hwnd,
        visible,
        x: 1,
        y: 2,
        width: 3,
        height: 4,
    }
}

#[test]
fn upsert_appends_new_and_resets_known_processes() {
    let mut procs: Vec<Process> = Vec::new();
    upsert_process(&mut procs, 10, "editor.exe".to_owned());
    upsert_process(&mut procs, 20, "term.exe".to_owned());
    assert_eq!(procs.len(), 2);
    assert_eq!(procs[0].pid, 10);
    assert_eq!(procs[1].name, "term.exe");
    record_window(&mut procs, 10, win(1, "Editor", true));
    // re-enumerating the same id starts the record over
    upsert_process(&mut procs, 10, "editor.exe".to_owned());
    assert_eq!(procs.len(), 2);
    assert!(procs[0].windows.is_empty());
    assert!(procs[0].main.is_none());
}

#[test]
fn record_window_picks_first_visible_as_main() {
    let mut procs: Vec<Process> = Vec::new();
    upsert_process(&mut procs, 10, "editor.exe".to_owned());
    record_window(&mut procs, 10, win(1, "Hidden", false));
    record_window(&mut procs, 10, win(2, "First", true));
    record_window(&mut procs, 10, win(3, "Second", true));
    let p = &procs[0];
    assert_eq!(p.windows.len(), 3);
    assert_eq!(p.main.as_ref().unwrap().hwnd, 2);
    assert_eq!(p.main.as_ref().unwrap().title, "First");
}

#[test]
fn record_window_skips_untitled_and_unknown() {
    let mut procs: Vec<Process> = Vec::new();
    upsert_process(&mut procs, 10, "editor.exe".to_owned());
    record_window(&mut procs, 10, win(1, "", true));
    record_window(&mut procs, 99, win(2, "Orphan", true));
    assert!(procs[0].windows.is_empty());
    assert_eq!(procs.len(), 1);
}

#[test]
fn find_process_returns_first_match() {
    let mut procs: Vec<Process> = Vec::new();
    upsert_process(&mut procs, 10, "a".to_owned());
    upsert_process(&mut procs, 20, "b".to_owned());
    assert_eq!(find_process(&procs, 20), Some(1));
    assert_eq!(find_process(&procs, 30), None);
}

#[test]
fn snapshot_is_replaced_whole() {
    let mut cell = SnapshotCell::new();
    assert!(cell.latest().is_empty());
    let mut fresh: Vec<Process> = Vec::new();
    upsert_process(&mut fresh, 10, "a".to_owned());
    cell.publish(fresh);
    assert_eq!(cell.latest().len(), 1);
    cell.publish(Vec::new());
    assert!(cell.latest().is_empty());
}

#[test]
fn frame_plan_packs_four_bytes_per_pixel() {
    let p = frame_plan(100, 50, 1234);
    assert_eq!(p.width, 100);
    assert_eq!(p.height, 50);
    assert_eq!(p.linesize, 400);
    assert_eq!(p.timestamp_ms, 1234);
}

#[test]
fn default_options_and_settings() {
    let o = CaptureOptions::default();
    assert!(o.cursor);
    assert!(!o.border);
    let s = Settings::default();
    assert!(s.script.is_empty());
    assert!(s.cursor);
    assert!(!s.client_area);
    assert!(!s.force_sdr);
}

#[test]
fn signal_lifecycle() {
    let (holder, mut handle) = EventHolder::new();
    let listener = holder.listener();
    assert_eq!(listener.check(&handle), Some(false));
    assert!(holder.signal(&mut handle));
    assert_eq!(listener.check(&handle), Some(true));
    // manual reset: observation does not consume the signal
    assert_eq!(listener.check(&handle), Some(true));
    assert_eq!(listener.wait(&handle, Some(0)), Some(true));
    assert!(holder.reset(&mut handle));
    assert_eq!(listener.check(&handle), Some(false));
}

#[test]
fn weak_observers_report_dead_after_close() {
    let (holder, mut handle) = EventHolder::new();
    let weak = holder.weaken();
    let listener = holder.listener();
    handle.close();
    assert!(!weak.signal(&mut handle));
    assert!(!weak.reset(&mut handle));
    assert_eq!(listener.check(&handle), None);
    assert_eq!(listener.wait(&handle, Some(5)), None);
}
