use tnap::acquirer::{AcquireStep, Acquirer, StopReason, MAX_IMAGES};
use tnap::launch::{run, select_source, LaunchError, Source};
use tnap::layout::{ascii_target_size, text_area, Area};
use tnap::ready_set::{ReadySet, ReadySetError};
use tnap::renderer::{is_stale, Action, DisplayMode, Key, Renderer, TICK_MS};
use tnap::shutdown::{Shutdown, ShutdownStage, ShutdownStep};

fn s(x: &str) -> String {
    x.to_string()
}

fn items(set: &ReadySet) -> Vec<String> {
    (0..set.len()).map(|i| set.get(i).unwrap()).collect()
}

#[test]
fn placeholder_alone_wraps_to_itself() {
    let set = ReadySet::with_placeholder(s("sample.png"));
    let mut r = Renderer::new(DisplayMode::Image, TICK_MS, 0);
    assert_eq!(r.poll_timeout(0), 3000);
    assert!(!r.tick_due(2999));
    assert!(r.tick_due(3000));
    assert_eq!(r.step(None, set.len(), 3000), Action::Draw);
    assert_eq!(r.cursor(), 0);
    assert_eq!(r.selected(&set), Some(s("sample.png")));
}

#[test]
fn items_visited_in_append_order() {
    let mut set = ReadySet::with_placeholder(s("sample.png"));
    let mut r = Renderer::new(DisplayMode::Image, TICK_MS, 0);
    let mut seen = vec![r.selected(&set).unwrap()];
    let mut now: u64 = 0;
    for name in ["0.png", "1.png", "2.png"] {
        set.append(s(name));
        now += TICK_MS;
        r.step(None, set.len(), now);
        seen.push(r.selected(&set).unwrap());
    }
    now += TICK_MS;
    r.step(None, set.len(), now);
    seen.push(r.selected(&set).unwrap());
    assert_eq!(seen, vec![s("sample.png"), s("0.png"), s("1.png"), s("2.png"), s("0.png")]);
}

#[test]
fn quit_waits_for_in_flight_acquisition() {
    let mut set = ReadySet::with_placeholder(s("sample.png"));
    let mut acq = Acquirer::new(MAX_IMAGES);
    assert_eq!(acq.begin(false), AcquireStep::Fetch(0));
    acq.complete(&mut set, s("0.png"));
    assert_eq!(acq.begin(false), AcquireStep::Fetch(1));
    // The user quits while item 1 is being fetched.
    let mut r = Renderer::new(DisplayMode::Image, TICK_MS, 0);
    assert_eq!(r.step(Some(Key::Quit), set.len(), 100), Action::Exit);
    let mut sd = Shutdown::new();
    assert_eq!(sd.next(acq.is_finished(), false), ShutdownStep::RaiseStop);
    let stop = true;
    assert_eq!(sd.next(acq.is_finished(), false), ShutdownStep::AnnounceWait);
    assert_eq!(sd.next(acq.is_finished(), false), ShutdownStep::Join);
    assert_eq!(sd.stage(), ShutdownStage::Joining);
    // The in-flight call finishes and its item is still appended.
    acq.complete(&mut set, s("1.png"));
    assert_eq!(acq.begin(stop), AcquireStep::Finish);
    assert!(acq.is_finished());
    assert_eq!(acq.outcome(), Some(StopReason::Stopped));
    assert_eq!(acq.produced(), 2);
    assert_eq!(items(&set), vec![s("0.png"), s("1.png")]);
    assert_eq!(sd.next(acq.is_finished(), true), ShutdownStep::Exit);
    assert_eq!(sd.stage(), ShutdownStage::Done);
}

#[test]
fn double_toggle_restores_mode() {
    let set = ReadySet::from_items(vec![s("a.png"), s("b.png")]).unwrap();
    let mut r = Renderer::new(DisplayMode::Ascii, TICK_MS, 0);
    assert_eq!(r.step(Some(Key::Toggle), set.len(), 500), Action::Draw);
    assert_eq!(r.mode(), DisplayMode::Image);
    assert_eq!(r.step(Some(Key::Toggle), set.len(), 600), Action::Draw);
    assert_eq!(r.mode(), DisplayMode::Ascii);
    assert_eq!(r.cursor(), 0);
    assert_eq!(r.poll_timeout(600), 2400);
}

#[test]
fn toggle_keeps_cursor_and_length() {
    let set = ReadySet::from_items(vec![s("a.png"), s("b.png"), s("c.png")]).unwrap();
    let mut r = Renderer::new(DisplayMode::Image, TICK_MS, 0);
    r.step(None, set.len(), 3000);
    assert_eq!(r.cursor(), 1);
    assert_eq!(r.on_key(Key::Toggle), Action::Draw);
    assert_eq!(r.cursor(), 1);
    assert_eq!(r.mode(), DisplayMode::Ascii);
    assert_eq!(set.len(), 3);
    assert_eq!(r.on_key(Key::Other), Action::Draw);
    assert_eq!(r.mode(), DisplayMode::Ascii);
}

#[test]
fn cursor_stays_in_range_while_set_grows() {
    let mut set = ReadySet::with_placeholder(s("p"));
    let mut r = Renderer::new(DisplayMode::Image, 10, 0);
    let mut now: u64 = 0;
    for i in 0..20u64 {
        if i % 3 == 0 {
            set.append(format!("{}.png", i));
        }
        now += 10;
        r.step(None, set.len(), now);
        assert!(r.cursor() < set.len());
        assert!(set.len() > 0);
    }
}

#[test]
fn placeholder_evicted_by_first_append_only() {
    let mut set = ReadySet::with_placeholder(s("p"));
    assert!(set.has_placeholder());
    assert_eq!(set.len(), 1);
    set.append(s("x"));
    assert!(!set.has_placeholder());
    assert_eq!(items(&set), vec![s("x")]);
    set.append(s("y"));
    assert_eq!(items(&set), vec![s("x"), s("y")]);
    assert_eq!(set.get(2), None);
}

#[test]
fn stop_before_iteration_appends_nothing() {
    let mut set = ReadySet::with_placeholder(s("p"));
    let mut acq = Acquirer::new(5);
    assert_eq!(acq.begin(true), AcquireStep::Finish);
    assert!(acq.is_finished());
    acq.complete(&mut set, s("late.png"));
    assert_eq!(acq.begin(false), AcquireStep::Finish);
    assert_eq!(acq.produced(), 0);
    assert!(set.has_placeholder());
    assert_eq!(items(&set), vec![s("p")]);
}

#[test]
fn acquisition_completes_at_target() {
    let mut set = ReadySet::with_placeholder(s("p"));
    let mut acq = Acquirer::new(2);
    for i in 0..2u64 {
        assert_eq!(acq.begin(false), AcquireStep::Fetch(i));
        acq.complete(&mut set, format!("{}.png", i));
    }
    assert_eq!(acq.begin(false), AcquireStep::Finish);
    assert_eq!(acq.outcome(), Some(StopReason::Completed));
    assert_eq!(items(&set), vec![s("0.png"), s("1.png")]);
}

#[test]
fn acquisition_failure_ends_task() {
    let mut acq = Acquirer::new(3);
    assert_eq!(acq.begin(false), AcquireStep::Fetch(0));
    acq.fail();
    assert!(acq.is_finished());
    assert_eq!(acq.outcome(), Some(StopReason::Failed));
    assert_eq!(acq.begin(false), AcquireStep::Finish);
}

#[test]
fn shutdown_without_wait_notice() {
    let mut sd = Shutdown::new();
    assert_eq!(sd.stage(), ShutdownStage::Begun);
    assert_eq!(sd.next(true, false), ShutdownStep::RaiseStop);
    assert_eq!(sd.next(true, false), ShutdownStep::Join);
    assert_eq!(sd.next(true, false), ShutdownStep::Join);
    assert_eq!(sd.next(true, true), ShutdownStep::Exit);
}

#[test]
fn run_refuses_empty_file_list() {
    assert!(matches!(run(vec![], true, 0), Err(ReadySetError::NoItems)));
    assert!(matches!(ReadySet::from_items(vec![]), Err(ReadySetError::NoItems)));
}

#[test]
fn run_starts_at_first_file() {
    let show = run(vec![s("cat_01.png"), s("cat_02.png")], true, 42).unwrap();
    assert_eq!(show.renderer.cursor(), 0);
    assert_eq!(show.renderer.mode(), DisplayMode::Ascii);
    assert_eq!(show.items.len(), 2);
    assert!(!show.items.has_placeholder());
    assert_eq!(show.renderer.poll_timeout(42), TICK_MS);
    assert_eq!(show.renderer.selected(&show.items), Some(s("cat_01.png")));
    let show = run(vec![s("a.png")], false, 0).unwrap();
    assert_eq!(show.renderer.mode(), DisplayMode::Image);
}

#[test]
fn select_source_variants() {
    assert_eq!(select_source(Some(s("dog")), None, None), Ok(Source::Theme(s("dog"))));
    assert_eq!(select_source(None, Some(s("k")), None), Ok(Source::ConfigKey(s("k"))));
    assert_eq!(select_source(None, None, Some(s("a cat"))), Ok(Source::Prompt(s("a cat"))));
    assert_eq!(select_source(None, None, None), Ok(Source::Theme(s("cat"))));
    assert_eq!(
        select_source(Some(s("dog")), None, Some(s("p"))),
        Err(LaunchError::InvalidArguments)
    );
}

#[test]
fn poll_timeout_never_exceeds_remaining_tick() {
    let r = Renderer::new(DisplayMode::Image, TICK_MS, 1000);
    assert_eq!(r.poll_timeout(1000), 3000);
    assert_eq!(r.poll_timeout(2500), 1500);
    assert_eq!(r.poll_timeout(4000), 0);
    assert_eq!(r.poll_timeout(9000), 0);
    assert_eq!(r.poll_timeout(500), 3000);
}

#[test]
fn quit_does_not_tick() {
    let mut r = Renderer::new(DisplayMode::Image, TICK_MS, 0);
    assert_eq!(r.step(Some(Key::Quit), 3, 5000), Action::Exit);
    assert_eq!(r.cursor(), 0);
}

#[test]
fn text_area_centres_text() {
    assert_eq!(text_area(80, 24, 10), Area { x: 0, y: 7, width: 80, height: 10 });
    assert_eq!(text_area(80, 24, 30), Area { x: 0, y: 0, width: 80, height: 24 });
    assert_eq!(text_area(80, 24, 0), Area { x: 0, y: 12, width: 80, height: 0 });
}

#[test]
fn ascii_size_is_twice_smaller_side() {
    assert_eq!(ascii_target_size(80, 24), Some(48));
    assert_eq!(ascii_target_size(10, 40), Some(20));
    assert_eq!(ascii_target_size(0, 40), None);
    assert_eq!(ascii_target_size(65535, 65535), Some(131070));
}

#[test]
fn stale_image_detection() {
    assert!(is_stale(&None, &s("a.png")));
    assert!(is_stale(&Some(s("b.png")), &s("a.png")));
    assert!(!is_stale(&Some(s("a.png")), &s("a.png")));
}

#[test]
fn mode_toggles_both_ways() {
    assert_eq!(DisplayMode::Ascii.toggled(), DisplayMode::Image);
    assert_eq!(DisplayMode::Image.toggled(), DisplayMode::Ascii);
}
