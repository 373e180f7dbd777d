use wincat::bus::HookBus;
use wincat::config::CaptureOptions;
use wincat::policy::Trigger;
use wincat::session::{CaptureCell, CaptureResource, CaptureSession};
use wincat::worker::{
    apply_script, pass_bind, pass_plan, poll, run_callback, selection_pass, start_worker,
    video_tick_plan, PassOutcome, PassPlan, Polled, ScriptOutcome, TickAction, TickTimer, Worker,
};
use wincat::snapshot::Window;

fn window(hwnd: isize, title: &str) -> Window {
    Window {
        title: title.to_owned(),
        class_name: "frame".to_owned(),
        hwnd,
        visible: true,
        x: 0,
        y: 0,
        width: 800,
        height: 600,
    }
}

fn cell_with_session(window: isize, pid: u32) -> CaptureCell {
    CaptureCell {
        session: Some(CaptureSession {
            resource: CaptureResource { width: 640, height: 480, active: true },
            window,
            process_id: pid,
            force_update: false,
        }),
        options: CaptureOptions::new(true, false),
    }
}

fn running_worker() -> Worker {
    let mut bus = HookBus::new(4);
    start_worker(&mut bus, true)
}

#[test]
fn start_worker_seeds_initial_poke() {
    let mut bus = HookBus::new(4);
    let w = start_worker(&mut bus, true);
    assert_eq!(bus.hook_refs, 1);
    assert!(bus.installed);
    assert!(!w.cancelled);
    assert_eq!(bus.next_event(w.key), Some(None));
    assert_eq!(bus.next_event(w.key), None);
}

#[test]
fn poll_returns_events_in_order() {
    let mut bus = HookBus::new(4);
    let mut w = start_worker(&mut bus, true);
    bus.publish(Some(11));
    assert_eq!(poll(&mut w, &mut bus, false), Polled::Event(None));
    assert_eq!(poll(&mut w, &mut bus, false), Polled::Event(Some(11)));
    assert_eq!(poll(&mut w, &mut bus, false), Polled::Idle);
}

#[test]
fn cancellation_wins_over_pending_events() {
    let mut bus = HookBus::new(4);
    let mut w = start_worker(&mut bus, true);
    bus.publish(Some(11));
    // both inputs are pending: cancellation is acted on first
    assert_eq!(poll(&mut w, &mut bus, true), Polled::Cancelled);
    assert!(w.cancelled);
    assert!(!bus.listeners.contains(w.key));
    assert_eq!(bus.hook_refs, 0);
    assert!(!bus.installed);
    // polling a cancelled worker never yields events
    assert_eq!(poll(&mut w, &mut bus, false), Polled::Cancelled);
}

#[test]
fn deselection_stops_the_session_and_zeroes_dimensions() {
    let w = running_worker();
    let mut cell = cell_with_session(1, 10);
    let out = selection_pass(&w, &mut cell, &None, &ScriptOutcome::NoneSelected, None, None);
    assert_eq!(out, PassOutcome::Deselected);
    assert!(cell.session.is_none());
    assert_eq!(cell.width(), 0);
    assert_eq!(cell.height(), 0);
}

#[test]
fn script_error_leaves_state_untouched() {
    let w = running_worker();
    let mut cell = cell_with_session(1, 10);
    let out = selection_pass(&w, &mut cell, &None, &ScriptOutcome::Failed, None, None);
    assert_eq!(out, PassOutcome::ScriptError);
    let s = cell.session.unwrap();
    assert_eq!(s.window, 1);
    assert_eq!(s.process_id, 10);
}

#[test]
fn refresh_binds_a_new_session() {
    let w = running_worker();
    let mut cell = cell_with_session(1, 10);
    let chosen = ScriptOutcome::Selected(window(2, "Editor"));
    let res = CaptureResource { width: 1024, height: 768, active: true };
    let out = selection_pass(&w, &mut cell, &None, &chosen, Some(77), Some(res));
    assert_eq!(out, PassOutcome::Started);
    let s = cell.session.unwrap();
    assert_eq!(s.window, 2);
    assert_eq!(s.process_id, 77);
    assert!(!s.force_update);
    assert_eq!(cell.width(), 1024);
    assert_eq!(cell.height(), 768);
}

#[test]
fn vanished_window_abandons_the_pass() {
    let w = running_worker();
    let mut cell = cell_with_session(1, 10);
    let chosen = ScriptOutcome::Selected(window(2, "Editor"));
    let out = selection_pass(&w, &mut cell, &None, &chosen, None, None);
    assert_eq!(out, PassOutcome::WindowVanished);
    let s = cell.session.unwrap();
    assert_eq!(s.window, 1);
    assert_eq!(s.process_id, 10);
}

#[test]
fn bind_failure_leaves_no_session() {
    let w = running_worker();
    let mut cell = cell_with_session(1, 10);
    let chosen = ScriptOutcome::Selected(window(2, "Editor"));
    let out = selection_pass(&w, &mut cell, &None, &chosen, Some(77), None);
    assert_eq!(out, PassOutcome::StartFailed);
    assert!(cell.session.is_none());
    assert_eq!(cell.width(), 0);
}

#[test]
fn unchanged_selection_is_kept() {
    let w = running_worker();
    let mut cell = cell_with_session(1, 10);
    let chosen = ScriptOutcome::Selected(window(1, "Editor"));
    let out = selection_pass(&w, &mut cell, &None, &chosen, Some(10), None);
    assert_eq!(out, PassOutcome::NoRefresh);
    assert!(cell.session.is_some());
}

#[test]
fn same_process_trigger_rebuilds_unchanged_selection() {
    let w = running_worker();
    let mut cell = cell_with_session(1, 10);
    let trig = Some(Trigger {
        window: 2,
        process_id: Some(10),
        visible: true,
        title: "Editor".to_owned(),
    });
    let chosen = ScriptOutcome::Selected(window(1, "Editor"));
    let res = CaptureResource { width: 320, height: 200, active: true };
    let out = selection_pass(&w, &mut cell, &trig, &chosen, Some(10), Some(res));
    assert_eq!(out, PassOutcome::Started);
    assert_eq!(cell.width(), 320);
}

#[test]
fn plan_defers_binding_until_a_refresh_is_due() {
    let w = running_worker();
    let mut cell = cell_with_session(1, 10);
    let keep = ScriptOutcome::Selected(window(1, "Editor"));
    assert_eq!(pass_plan(&w, &mut cell, &None, &keep), PassPlan::Done(PassOutcome::NoRefresh));
    let chosen = ScriptOutcome::Selected(window(2, "Editor"));
    assert_eq!(pass_plan(&w, &mut cell, &None, &chosen), PassPlan::Bind(2));
    // the session survives until the bind itself runs
    assert_eq!(cell.session.unwrap().window, 1);
    let res = CaptureResource { width: 1, height: 2, active: true };
    assert_eq!(pass_bind(&w, &mut cell, 2, Some(9), Some(res)), PassOutcome::Started);
    assert_eq!(cell.session.unwrap().window, 2);
    assert_eq!(cell.session.unwrap().process_id, 9);
}

#[test]
fn run_callback_pokes_a_live_worker() {
    let mut bus = HookBus::new(4);
    let mut worker = Some(start_worker(&mut bus, true));
    // drain the seeding poke
    let key = worker.as_ref().unwrap().key;
    assert_eq!(bus.next_event(key), Some(None));
    run_callback(&mut worker, &mut bus, true);
    assert_eq!(worker.as_ref().unwrap().key, key);
    assert_eq!(bus.hook_refs, 1);
    assert_eq!(bus.next_event(key), Some(None));
}

#[test]
fn run_callback_revives_a_gone_worker() {
    let mut bus = HookBus::new(4);
    let mut worker = None;
    run_callback(&mut worker, &mut bus, true);
    let first = worker.as_ref().unwrap().key;
    assert_eq!(bus.hook_refs, 1);
    assert_eq!(bus.next_event(first), Some(None));
    // cancel it, then the next callback brings up a fresh worker
    let mut w = worker.take().unwrap();
    assert_eq!(poll(&mut w, &mut bus, true), Polled::Cancelled);
    worker = Some(w);
    run_callback(&mut worker, &mut bus, true);
    let second = worker.as_ref().unwrap().key;
    assert_ne!(first, second);
    assert!(!worker.as_ref().unwrap().cancelled);
    assert_eq!(bus.hook_refs, 1);
    assert_eq!(bus.next_event(second), Some(None));
}

#[test]
fn apply_script_tracks_registration() {
    let mut w = running_worker();
    apply_script(&mut w, false, true);
    assert!(w.selector_loaded);
    apply_script(&mut w, true, true);
    assert!(!w.selector_loaded);
    apply_script(&mut w, false, false);
    assert!(!w.selector_loaded);
}

#[test]
fn idle_tick_fires_after_the_idle_period() {
    let cell = CaptureCell::new(CaptureOptions::new(true, false));
    let mut timer = TickTimer::new();
    assert_eq!(video_tick_plan(&cell, &mut timer, 1500, 2000, 5000, false), TickAction::Keep);
    assert_eq!(timer.accumulated_ms, 1500);
    assert_eq!(video_tick_plan(&cell, &mut timer, 600, 2000, 5000, false), TickAction::Rerun);
    assert_eq!(timer.accumulated_ms, 0);
}

#[test]
fn inactive_resource_forces_immediate_rebuild() {
    let mut cell = cell_with_session(1, 10);
    if let Some(s) = cell.session.as_mut() {
        s.resource.active = false;
    }
    let mut timer = TickTimer::new();
    assert_eq!(
        video_tick_plan(&cell, &mut timer, 1, 2000, 5000, false),
        TickAction::DropAndRerun
    );
    assert_eq!(timer.accumulated_ms, 1);
}

#[test]
fn title_probe_fires_only_on_a_change() {
    let cell = cell_with_session(1, 10);
    let mut timer = TickTimer::new();
    assert_eq!(video_tick_plan(&cell, &mut timer, 5000, 2000, 5000, false), TickAction::Keep);
    // the probe period reset the accumulator even without a change
    assert_eq!(timer.accumulated_ms, 0);
    assert_eq!(
        video_tick_plan(&cell, &mut timer, 5000, 2000, 5000, true),
        TickAction::DropAndRerun
    );
}

#[test]
fn tick_timer_saturates() {
    let mut timer = TickTimer::new();
    timer.advance(u64::MAX);
    timer.advance(u64::MAX);
    assert_eq!(timer.accumulated_ms, u64::MAX);
    assert!(timer.fire(1));
    assert_eq!(timer.accumulated_ms, 0);
    assert!(!timer.fire(1));
}
