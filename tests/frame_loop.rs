use overlay_runtime::frame::{overlays_to_render, FrameLoop, FrameStart, POINTER_COUNT};
use overlay_runtime::interaction::{nearest_hit, ray_length, DEFAULT_RAY_LENGTH, MIN_HIT_DISTANCE};
use overlay_runtime::lines::LinePool;
use overlay_runtime::pacing::FramePacer;
use overlay_runtime::refresh::{DeviceRefreshTimer, RuntimeEvent, DEVICE_REFRESH_INTERVAL_US};
use overlay_runtime::tasks::{find_overlay, Dispatch, Task, TaskQueue};

#[test]
fn ninety_hertz_paces_eleven_milliseconds() {
    let pacer = FramePacer::new(90_000).unwrap();
    assert_eq!(pacer.interval_us, 11_000);
    assert_eq!(pacer.sleep_micros(Some(4_000)), 7_000);
}

#[test]
fn pacing_without_vsync_sleeps_whole_interval() {
    let pacer = FramePacer::new(90_000).unwrap();
    assert_eq!(pacer.sleep_micros(None), 11_000);
}

#[test]
fn pacing_wraps_elapsed_time_into_interval() {
    let pacer = FramePacer::new(120_000).unwrap();
    assert_eq!(pacer.interval_us, 8_000);
    assert_eq!(pacer.sleep_micros(Some(19_000)), 5_000);
    assert_eq!(pacer.sleep_micros(Some(16_000)), 8_000);
    assert_eq!(pacer.sleep_micros(Some(0)), 8_000);
}

#[test]
fn pacing_floors_fractional_rates() {
    // 89.9 Hz: 1000 / 89.9 = 11.12 ms, floored to 11.
    assert_eq!(FramePacer::new(89_900).unwrap().interval_us, 11_000);
    // 144 Hz: 6.94 ms, floored to 6.
    assert_eq!(FramePacer::new(144_000).unwrap().interval_us, 6_000);
}

#[test]
fn pacing_refuses_rates_without_interval() {
    assert!(FramePacer::new(0).is_none());
    assert!(FramePacer::new(2_000_000).is_none());
    assert_eq!(FramePacer::new(1_000_000).unwrap().interval_us, 1_000);
}

#[test]
fn retrieve_due_returns_due_entries_in_submission_order() {
    let mut q: TaskQueue<u32> = TaskQueue::new();
    q.submit(1, 500);
    q.submit(2, 100);
    q.submit(3, 300);
    q.submit(4, 100);
    q.submit(5, 900);
    let mut buf = Vec::new();
    q.retrieve_due(300, &mut buf);
    assert_eq!(buf, vec![2, 3, 4]);
    assert_eq!(q.len(), 2);
}

#[test]
fn retrieve_due_later_delivers_rest_once() {
    let mut q: TaskQueue<u32> = TaskQueue::new();
    q.submit(1, 500);
    q.submit(2, 100);
    q.submit(3, 900);
    let mut buf = Vec::new();
    q.retrieve_due(100, &mut buf);
    assert_eq!(buf, vec![2]);
    buf.clear();
    q.retrieve_due(100, &mut buf);
    assert!(buf.is_empty());
    q.retrieve_due(600, &mut buf);
    assert_eq!(buf, vec![1]);
    buf.clear();
    q.retrieve_due(1_000, &mut buf);
    assert_eq!(buf, vec![3]);
    assert_eq!(q.len(), 0);
}

#[test]
fn retrieve_due_appends_to_buffer() {
    let mut q: TaskQueue<u32> = TaskQueue::new();
    q.submit(7, 10);
    let mut buf = vec![6];
    q.retrieve_due(10, &mut buf);
    assert_eq!(buf, vec![6, 7]);
}

#[test]
fn retrieve_due_on_empty_queue() {
    let mut q: TaskQueue<u32> = TaskQueue::new();
    let mut buf = Vec::new();
    q.retrieve_due(u64::MAX, &mut buf);
    assert!(buf.is_empty());
}

#[test]
fn global_task_dispatches_globally() {
    let ids = vec![4u64, 9];
    assert!(matches!(Task::Global(1u32).into_dispatch(&ids), Some(Dispatch::Global(1))));
}

#[test]
fn overlay_task_finds_its_overlay() {
    let ids = vec![4u64, 9, 12];
    assert!(matches!(Task::Overlay(9, 5u32).into_dispatch(&ids), Some(Dispatch::Overlay(1, 5))));
}

#[test]
fn overlay_task_for_missing_overlay_is_skipped() {
    let ids = vec![4u64, 9];
    assert!(Task::Overlay(7, 5u32).into_dispatch(&ids).is_none());
    assert!(Task::Overlay(7, 5u32).into_dispatch(&Vec::new()).is_none());
}

#[test]
fn find_overlay_takes_first_match() {
    assert_eq!(find_overlay(&vec![3, 8, 8], 8), Some(1));
    assert_eq!(find_overlay(&vec![3, 8, 8], 5), None);
}

#[test]
fn nearest_hit_picks_smallest_positive() {
    let hits = vec![None, Some(0), Some(5_000), Some(3_000), None];
    assert_eq!(nearest_hit(&hits), Some(3_000));
}

#[test]
fn nearest_hit_without_hits() {
    assert_eq!(nearest_hit(&Vec::new()), None);
    assert_eq!(nearest_hit(&vec![None, Some(0)]), None);
}

#[test]
fn interaction_resolution_is_idempotent() {
    let hits = vec![Some(2_500_000), Some(700_000), None];
    let first = nearest_hit(&hits);
    let second = nearest_hit(&hits);
    assert_eq!(first, second);
    assert_eq!(first, Some(700_000));
}

#[test]
fn ray_length_follows_significant_hits() {
    assert_eq!(ray_length(Some(1_500_000)), 1_500_000);
    assert_eq!(ray_length(Some(MIN_HIT_DISTANCE + 1)), 1_001);
}

#[test]
fn ray_length_defaults_without_significant_hit() {
    assert_eq!(ray_length(Some(MIN_HIT_DISTANCE)), 20_000_000);
    assert_eq!(ray_length(Some(0)), DEFAULT_RAY_LENGTH);
    assert_eq!(ray_length(None), DEFAULT_RAY_LENGTH);
}

#[test]
fn topology_event_makes_refresh_due_now() {
    let mut timer = DeviceRefreshTimer::new(0);
    timer.refreshed(0);
    assert_eq!(timer.next_due, 30_000_000);
    let quit = timer.take_events(&vec![RuntimeEvent::Other, RuntimeEvent::DeviceActivated], 5_000);
    assert!(!quit);
    assert_eq!(timer.next_due, 5_000);
    assert!(timer.is_due(5_000));
}

#[test]
fn unrelated_events_keep_schedule() {
    let mut timer = DeviceRefreshTimer::new(0);
    timer.refreshed(1_000);
    assert!(!timer.take_events(&vec![RuntimeEvent::Other], 2_000));
    assert_eq!(timer.next_due, 1_000 + DEVICE_REFRESH_INTERVAL_US);
    assert!(!timer.is_due(2_000));
}

#[test]
fn quit_event_is_reported() {
    let mut timer = DeviceRefreshTimer::new(0);
    let events = vec![RuntimeEvent::DeviceUpdated, RuntimeEvent::Quit, RuntimeEvent::Other];
    assert!(timer.take_events(&events, 10));
}

#[test]
fn quit_ends_frame_before_any_phase() {
    let mut fl: FrameLoop<u8> = FrameLoop::new(90_000, 0).unwrap();
    let events = vec![RuntimeEvent::DeviceDeactivated, RuntimeEvent::Quit];
    assert!(matches!(fl.begin_frame(&events, 100), FrameStart::Quit));
}

#[test]
fn first_frame_refreshes_devices() {
    let mut fl: FrameLoop<u8> = FrameLoop::new(90_000, 0).unwrap();
    assert!(matches!(
        fl.begin_frame(&Vec::new(), 0),
        FrameStart::Continue { refresh_devices: true }
    ));
    assert_eq!(fl.refresh.next_due, 30_000_000);
    assert!(matches!(
        fl.begin_frame(&Vec::new(), 1_000),
        FrameStart::Continue { refresh_devices: false }
    ));
    assert_eq!(fl.refresh.next_due, 30_000_000);
}

#[test]
fn topology_change_overrides_pending_refresh() {
    let mut fl: FrameLoop<u8> = FrameLoop::new(90_000, 0).unwrap();
    fl.begin_frame(&Vec::new(), 0);
    let start = fl.begin_frame(&vec![RuntimeEvent::DeviceUpdated], 2_000_000);
    assert!(matches!(start, FrameStart::Continue { refresh_devices: true }));
    assert_eq!(fl.refresh.next_due, 32_000_000);
}

#[test]
fn scheduled_refresh_comes_after_thirty_seconds() {
    let mut fl: FrameLoop<u8> = FrameLoop::new(90_000, 0).unwrap();
    fl.begin_frame(&Vec::new(), 0);
    assert!(matches!(
        fl.begin_frame(&Vec::new(), 29_999_999),
        FrameStart::Continue { refresh_devices: false }
    ));
    assert!(matches!(
        fl.begin_frame(&Vec::new(), 30_000_000),
        FrameStart::Continue { refresh_devices: true }
    ));
    assert_eq!(fl.refresh.next_due, 60_000_000);
}

#[test]
fn pointers_own_distinct_lines() {
    let fl: FrameLoop<u8> = FrameLoop::new(90_000, 0).unwrap();
    assert_eq!(POINTER_COUNT, 2);
    let left = fl.pointer(0);
    let right = fl.pointer(1);
    assert_eq!(left.hand, 0);
    assert_eq!(right.hand, 1);
    assert_ne!(left.line, right.line);
    assert_eq!(left.hover, None);
}

#[test]
fn pointing_draws_to_hit_or_default_length() {
    let mut fl: FrameLoop<u8> = FrameLoop::new(90_000, 0).unwrap();
    assert_eq!(fl.point(0, 7, &vec![None, Some(1_200_000)]), Some(1_200_000));
    assert_eq!(fl.point(1, 8, &vec![Some(500)]), Some(500));
    assert_eq!(fl.pointer(0).hover, Some(1_200_000));
    let batch = fl.flush_lines();
    assert_eq!(batch.len(), 2);
    assert_eq!(batch[0].0, fl.pointer(0).line);
    assert_eq!(batch[0].1.origin, 7);
    assert_eq!(batch[0].1.length, 1_200_000);
    assert_eq!(batch[1].0, fl.pointer(1).line);
    assert_eq!(batch[1].1.origin, 8);
    assert_eq!(batch[1].1.length, DEFAULT_RAY_LENGTH);
    assert!(fl.flush_lines().is_empty());
}

#[test]
fn pacing_through_frame_loop() {
    let fl: FrameLoop<u8> = FrameLoop::new(90_000, 0).unwrap();
    assert_eq!(fl.pace(Some(4_000)), 7_000);
    assert_eq!(fl.pace(None), 11_000);
    assert!(FrameLoop::<u8>::new(0, 0).is_none());
}

#[test]
fn line_draws_overwrite_until_update() {
    let mut pool: LinePool<u8> = LinePool::new();
    let a = pool.allocate();
    let b = pool.allocate();
    assert_ne!(a, b);
    pool.draw_from(a, 1, 10);
    pool.draw_from(b, 2, 20);
    pool.draw_from(a, 3, 30);
    let batch = pool.update();
    assert_eq!(batch.len(), 2);
    assert_eq!((batch[0].0, batch[0].1.origin, batch[0].1.length), (a, 3, 30));
    assert_eq!((batch[1].0, batch[1].1.origin, batch[1].1.length), (b, 2, 20));
    assert!(pool.update().is_empty());
}

#[test]
fn released_line_handle_is_not_reused() {
    let mut pool: LinePool<u8> = LinePool::new();
    let a = pool.allocate();
    pool.draw_from(a, 1, 10);
    pool.release(a);
    assert!(pool.update().is_empty());
    let b = pool.allocate();
    assert_ne!(a, b);
}

#[test]
fn render_only_visible_overlays() {
    assert_eq!(overlays_to_render(&vec![true, false, true, false]), vec![0, 2]);
    assert!(overlays_to_render(&Vec::new()).is_empty());
}
