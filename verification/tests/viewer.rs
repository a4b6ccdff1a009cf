use rviv::viewer::{
    command_for, Command, Effect, Event, Key, ViewChange, Viewer, KEY_ZOOM_PERCENT, STEP,
    STEP_BACK, WHEEL_ZOOM_PERCENT,
};

fn typed(text: &str) -> Key {
    Key::Character(text.to_string())
}

fn press(text: &str) -> Event {
    Event::Keyboard { key: typed(text), pressed: true }
}

fn pan(right: i32, down: i32) -> Command {
    Command::Change(ViewChange::Pan { right, down })
}

fn shown(index: usize) -> Vec<Effect> {
    vec![Effect::Show { index }, Effect::SetTitle { index }, Effect::FitView, Effect::Draw]
}

#[test]
fn keys_do_what_the_table_says() {
    let plain = |key: Key| command_for(&key, false);
    assert_eq!(plain(typed("l")), Command::Next);
    assert_eq!(command_for(&Key::ArrowRight, true), Command::Next);
    assert_eq!(plain(typed("h")), Command::Previous);
    assert_eq!(command_for(&Key::ArrowLeft, true), Command::Previous);
    assert_eq!(plain(typed("k")), pan(0, STEP));
    assert_eq!(plain(Key::ArrowUp), pan(0, STEP));
    assert_eq!(plain(typed("j")), pan(0, STEP_BACK));
    assert_eq!(plain(Key::ArrowDown), pan(0, STEP_BACK));
    assert_eq!(plain(Key::ArrowLeft), pan(STEP, 0));
    assert_eq!(plain(Key::ArrowRight), pan(STEP_BACK, 0));
    let closer = Command::Change(ViewChange::ZoomIn { percent: 120 });
    assert_eq!(plain(typed("+")), closer);
    assert_eq!(plain(typed("=")), closer);
    assert_eq!(plain(typed("-")), Command::Change(ViewChange::ZoomOut { percent: 120 }));
    assert_eq!(plain(typed("0")), Command::Change(ViewChange::Reset));
    assert_eq!(plain(typed("f")), Command::ToggleFullscreen);
    assert_eq!(plain(typed("q")), Command::Quit);
    assert_eq!(plain(Key::Escape), Command::Quit);
}

#[test]
fn other_keys_do_nothing() {
    for text in ["", "Q", "L", "ll", "x", "1", "\u{e9}"] {
        assert_eq!(command_for(&typed(text), false), Command::Nothing);
    }
    assert_eq!(command_for(&Key::Other, true), Command::Nothing);
}

#[test]
fn shift_only_changes_the_arrows_to_the_sides() {
    assert_eq!(command_for(&Key::ArrowUp, true), pan(0, STEP));
    assert_eq!(command_for(&Key::ArrowDown, true), pan(0, STEP_BACK));
    assert_eq!(command_for(&typed("l"), true), Command::Next);
    assert_eq!(command_for(&Key::Escape, true), Command::Quit);
}

#[test]
fn a_step_and_a_step_back_cancel_out() {
    assert_eq!(STEP + STEP_BACK, 0);
    assert_eq!(KEY_ZOOM_PERCENT, 120);
    assert_eq!(WHEEL_ZOOM_PERCENT, 110);
}

#[test]
fn a_viewer_starts_without_an_image_on_the_screen() {
    let viewer = Viewer::new(3, 1, None);
    assert_eq!(viewer.current, 1);
    assert!(viewer.needs_update);
    assert_eq!(viewer.displayed, None);
    assert_eq!(viewer.loading, None);
    assert_eq!(viewer.sleep_limit(), None);
    assert_eq!(Viewer::new(3, 1, Some(5)).sleep_limit(), Some(5));
}

#[test]
fn an_image_is_decoded_and_then_shown() {
    let mut viewer = Viewer::new(3, 1, None);
    let redraw = || Event::RedrawRequested { cached: false };
    assert_eq!(viewer.handle(redraw()), vec![Effect::Decode { index: 1 }]);
    assert_eq!(viewer.handle(redraw()), vec![]);
    assert_eq!(viewer.handle(Event::Decoded { index: 1 }), shown(1));
    assert_eq!(viewer.displayed, Some(1));
    assert_eq!(viewer.handle(redraw()), vec![Effect::Draw]);
}

#[test]
fn a_cached_image_is_shown_at_once() {
    let mut viewer = Viewer::new(3, 2, None);
    assert_eq!(viewer.handle(Event::RedrawRequested { cached: true }), shown(2));
    assert!(!viewer.needs_update);
}

#[test]
fn the_old_image_stays_while_the_new_one_is_decoded() {
    let mut viewer = Viewer::new(3, 0, None);
    viewer.handle(Event::RedrawRequested { cached: true });
    assert_eq!(viewer.handle(press("l")), vec![Effect::RestartTimer, Effect::RequestRedraw]);
    assert_eq!(
        viewer.handle(Event::RedrawRequested { cached: false }),
        vec![Effect::Decode { index: 1 }, Effect::Draw]
    );
    assert_eq!(viewer.displayed, Some(0));
    assert_eq!(viewer.handle(Event::RedrawRequested { cached: false }), vec![Effect::Draw]);
}

#[test]
fn an_image_that_is_late_is_not_shown() {
    let mut viewer = Viewer::new(3, 0, None);
    viewer.handle(Event::RedrawRequested { cached: false });
    viewer.handle(press("l"));
    assert_eq!(viewer.handle(Event::Decoded { index: 0 }), vec![]);
    assert_eq!(viewer.displayed, None);
    assert_eq!(
        viewer.handle(Event::RedrawRequested { cached: false }),
        vec![Effect::Decode { index: 1 }]
    );
    assert_eq!(viewer.handle(Event::Decoded { index: 2 }), vec![]);
    assert_eq!(viewer.handle(Event::Decoded { index: 1 }), shown(1));
}

#[test]
fn going_on_and_back_wraps_around() {
    let mut viewer = Viewer::new(3, 2, None);
    viewer.handle(press("l"));
    assert_eq!(viewer.current, 0);
    viewer.handle(press("h"));
    assert_eq!(viewer.current, 2);
    for expected in [0, 1, 2] {
        viewer.handle(press("l"));
        assert_eq!(viewer.current, expected);
    }
    let mut single = Viewer::new(1, 0, None);
    single.handle(press("l"));
    assert_eq!(single.current, 0);
    single.handle(press("h"));
    assert_eq!(single.current, 0);
}

#[test]
fn the_shift_key_is_remembered() {
    let mut viewer = Viewer::new(3, 0, None);
    let right = || Event::Keyboard { key: Key::ArrowRight, pressed: true };
    assert_eq!(
        viewer.handle(right()),
        vec![
            Effect::ChangeView(ViewChange::Pan { right: STEP_BACK, down: 0 }),
            Effect::RequestRedraw,
        ]
    );
    assert_eq!(viewer.handle(Event::ModifiersChanged { shift: true }), vec![]);
    viewer.handle(right());
    assert_eq!(viewer.current, 1);
    viewer.handle(Event::ModifiersChanged { shift: false });
    viewer.handle(right());
    assert_eq!(viewer.current, 1);
}

#[test]
fn a_released_key_does_nothing() {
    let mut viewer = Viewer::new(3, 0, None);
    assert_eq!(viewer.handle(Event::Keyboard { key: typed("q"), pressed: false }), vec![]);
    assert_eq!(viewer.handle(Event::Keyboard { key: typed("l"), pressed: false }), vec![]);
    assert_eq!(viewer.current, 0);
}

#[test]
fn the_window_is_closed_and_resized() {
    let mut viewer = Viewer::new(1, 0, None);
    assert_eq!(viewer.handle(Event::CloseRequested), vec![Effect::Exit]);
    assert_eq!(viewer.handle(press("q")), vec![Effect::Exit]);
    assert_eq!(
        viewer.handle(Event::Resized { width: 5, height: 6 }),
        vec![Effect::Rebuild { width: 5, height: 6 }]
    );
    assert_eq!(viewer.handle(press("f")), vec![Effect::ToggleFullscreen]);
    assert_eq!(viewer.handle(Event::Other), vec![]);
}

#[test]
fn the_wheel_zooms() {
    let mut viewer = Viewer::new(1, 0, None);
    assert_eq!(
        viewer.handle(Event::Wheel { up: true }),
        vec![Effect::ChangeView(ViewChange::ZoomIn { percent: 110 }), Effect::RequestRedraw]
    );
    assert_eq!(
        viewer.handle(Event::Wheel { up: false }),
        vec![Effect::ChangeView(ViewChange::ZoomOut { percent: 110 }), Effect::RequestRedraw]
    );
}

#[test]
fn a_slideshow_goes_on_when_its_time_is_over() {
    let mut viewer = Viewer::new(2, 0, Some(5_000_000_000));
    assert_eq!(viewer.handle(Event::AboutToWait { since_choice: 5_000_000_000 }), vec![]);
    assert_eq!(viewer.current, 0);
    assert_eq!(
        viewer.handle(Event::AboutToWait { since_choice: 5_000_000_001 }),
        vec![Effect::RestartTimer, Effect::RequestRedraw]
    );
    assert_eq!(viewer.current, 1);
    let mut still = Viewer::new(2, 0, None);
    assert_eq!(still.handle(Event::AboutToWait { since_choice: u128::MAX }), vec![]);
    assert_eq!(still.current, 0);
}

#[test]
fn an_image_that_cannot_be_decoded_ends_the_viewer_only_if_it_is_awaited() {
    let mut viewer = Viewer::new(3, 0, None);
    viewer.handle(Event::RedrawRequested { cached: false });
    assert_eq!(viewer.handle(Event::DecodeFailed { index: 2 }), vec![]);
    assert_eq!(viewer.loading, Some(0));
    let mut other = viewer;
    assert_eq!(
        viewer.handle(Event::DecodeFailed { index: 0 }),
        vec![Effect::GiveUp { index: 0 }]
    );
    other.handle(press("l"));
    assert_eq!(other.handle(Event::DecodeFailed { index: 0 }), vec![]);
    assert_eq!(other.loading, None);
}
