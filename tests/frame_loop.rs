use rust_game_engine::backend::{parse_backend, select_backend, BackendKind};
use rust_game_engine::frame_loop::{
    elapsed_nanos, frames_per_second, terminates, FrameLoop, FrameReport, FrameStep, Key, LoopError,
    WindowEvent,
};

/// Runs the loop over the events of each tick while it runs, counting graph
/// runs, with the clock reading `ns_per_tick * tick` after each tick.
fn drive(ticks: &[Vec<WindowEvent>], ns_per_tick: u128) -> (FrameLoop, u64) {
    let mut fl = FrameLoop::new();
    let mut runs = 0u64;
    let mut n = 0u128;
    for events in ticks {
        if !fl.is_running() {
            break;
        }
        n += 1;
        if fl.tick(events) == FrameStep::Render {
            runs += 1;
        }
        fl.record_elapsed(ns_per_tick * n);
    }
    (fl, runs)
}

#[test]
fn close_and_escape_terminate() {
    assert!(terminates(&WindowEvent::CloseRequested));
    assert!(terminates(&WindowEvent::KeyDown(Key::Escape)));
    assert!(!terminates(&WindowEvent::KeyDown(Key::Other)));
    assert!(!terminates(&WindowEvent::Other));
}

#[test]
fn escape_stops_within_one_tick() {
    let mut fl = FrameLoop::new();
    let step = fl.tick(&vec![WindowEvent::Other, WindowEvent::KeyDown(Key::Escape)]);
    assert_eq!(step, FrameStep::Render);
    assert!(!fl.is_running());
    assert_eq!(fl.frame_count(), 1);
    assert_eq!(fl.tick(&vec![]), FrameStep::Stop);
    assert_eq!(fl.frame_count(), 1);
}

#[test]
fn ordinary_events_keep_running() {
    let mut fl = FrameLoop::new();
    let step = fl.tick(&vec![WindowEvent::Other, WindowEvent::KeyDown(Key::Other)]);
    assert_eq!(step, FrameStep::Render);
    assert!(fl.is_running());
    assert_eq!(fl.frame_count(), 1);
}

#[test]
fn close_on_first_tick_renders_one_frame() {
    let ticks = vec![vec![WindowEvent::CloseRequested], vec![], vec![]];
    let (mut fl, runs) = drive(&ticks, 500);
    assert_eq!(runs, 1);
    assert_eq!(fl.frame_count(), 1);
    let report = fl.finish().unwrap();
    assert_eq!(report.frames, 1);
    assert_eq!(report.elapsed_ns, 500);
    assert_eq!(report.fps, Some(2_000_000));
}

#[test]
fn n_ordinary_ticks_then_close() {
    let n = 7usize;
    let mut ticks: Vec<Vec<WindowEvent>> = (0..n - 1).map(|_| vec![WindowEvent::Other]).collect();
    ticks.push(vec![WindowEvent::Other, WindowEvent::CloseRequested]);
    ticks.push(vec![WindowEvent::Other]);
    let (mut fl, runs) = drive(&ticks, 4_000_000);
    assert_eq!(runs, n as u64);
    let report = fl.finish().unwrap();
    let elapsed = 4_000_000u128 * n as u128;
    assert_eq!(
        report,
        FrameReport {
            elapsed_ns: elapsed,
            frames: n as u64,
            fps: Some(n as u128 * 1_000_000_000 / elapsed),
        }
    );
    assert_eq!(report.fps, Some(250));
}

#[test]
fn finish_while_running_is_refused() {
    let mut fl = FrameLoop::new();
    assert_eq!(fl.finish(), Err(LoopError::StillRunning));
    assert!(!fl.is_disposed());
}

#[test]
fn second_dispose_is_refused() {
    let mut fl = FrameLoop::new();
    fl.tick(&vec![WindowEvent::CloseRequested]);
    assert!(fl.finish().is_ok());
    assert!(fl.is_disposed());
    assert_eq!(fl.finish(), Err(LoopError::AlreadyDisposed));
}

#[test]
fn no_elapsed_time_gives_no_fps() {
    let mut fl = FrameLoop::new();
    fl.tick(&vec![WindowEvent::CloseRequested]);
    let report = fl.finish().unwrap();
    assert_eq!(report, FrameReport { elapsed_ns: 0, frames: 1, fps: None });
}

#[test]
fn fps_formula() {
    assert_eq!(frames_per_second(120, 2_000_000_000), Some(60));
    assert_eq!(frames_per_second(1, 3), Some(333_333_333));
    assert_eq!(frames_per_second(5, 0), None);
    assert_eq!(
        frames_per_second(u64::MAX, 1),
        Some(u64::MAX as u128 * 1_000_000_000)
    );
}

#[test]
fn elapsed_nanos_combines_seconds_and_nanos() {
    assert_eq!(elapsed_nanos(2, 5), 2_000_000_005);
    assert_eq!(elapsed_nanos(0, 999_999_999), 999_999_999);
    assert_eq!(elapsed_nanos(u64::MAX, 0), u64::MAX as u128 * 1_000_000_000);
}

#[test]
fn backend_options() {
    assert_eq!(parse_backend(&"dx12".to_string()), Some(BackendKind::Dx12));
    assert_eq!(parse_backend(&"metal".to_string()), Some(BackendKind::Metal));
    assert_eq!(parse_backend(&"vulkan".to_string()), Some(BackendKind::Vulkan));
    assert_eq!(parse_backend(&"gl".to_string()), Some(BackendKind::Gl));
    assert_eq!(parse_backend(&"GL".to_string()), None);
}

#[test]
fn first_named_backend_is_selected() {
    let args = vec!["--fast".to_string(), "metal".to_string(), "gl".to_string()];
    assert_eq!(select_backend(&args), Some(BackendKind::Metal));
    assert_eq!(select_backend(&vec!["x".to_string()]), None);
    assert_eq!(select_backend(&Vec::new()), None);
}
