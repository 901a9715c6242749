use mavis_lib::dispatch::{click_on_target, find_object, input_text_simulated, is_target_on_image};
use mavis_lib::keyboard::{press_enter, type_unicode_char, type_unicode_text, Key, KeyStroke};
use mavis_lib::matcher::{InputFault, SearchError};
use mavis_lib::ocr::{read_text_from_image, Recognition};
use mavis_lib::pointer::{
    mouse_movement, mouse_movement_complex, mouse_set_position, mouse_set_position_complex,
    mouse_wheel_complex, mouse_wheel_spin, MotionError, MotionPacer, PaceAction, WheelPlan,
};
use mavis_lib::region::DisplayArea;

#[test]
fn click_goes_to_the_center_in_display_coordinates() {
    let active = DisplayArea::from_points(200, 0, 1920, 1080);
    let found = Ok(DisplayArea::from_rectangle(10, 20, 40, 31));
    assert_eq!(click_on_target(&found, &active, None), Some((230, 35)));
    assert_eq!(click_on_target(&found, &active, Some((960, 520))), Some((230, 35)));
    assert_eq!(input_text_simulated(&found, &active), Ok((230, 35)));
}

#[test]
fn failed_search_clicks_the_fallback_only() {
    let active = DisplayArea::from_points(200, 0, 1920, 1080);
    let missing: Result<DisplayArea, SearchError> = Err(SearchError::NotFound);
    assert_eq!(click_on_target(&missing, &active, Some((960, 520))), Some((960, 520)));
    assert_eq!(click_on_target(&missing, &active, None), None);
    assert_eq!(input_text_simulated(&missing, &active), Err(SearchError::NotFound));
    let refused: Result<DisplayArea, SearchError> =
        Err(SearchError::InvalidInput(InputFault::EmptySource));
    assert_eq!(click_on_target(&refused, &active, Some((1, 2))), Some((1, 2)));
    assert_eq!(
        input_text_simulated(&refused, &active),
        Err(SearchError::InvalidInput(InputFault::EmptySource))
    );
}

#[test]
fn located_object_is_given_in_display_coordinates() {
    let active = DisplayArea::from_rectangle(100, 100, 500, 500);
    let found = Ok(DisplayArea::from_points(2, 3, 4, 5));
    assert_eq!(find_object(found, &active).unwrap().get_points(), ((102, 103), (104, 105)));
    assert_eq!(find_object(Err(SearchError::NotFound), &active), Err(SearchError::NotFound));
}

#[test]
fn presence_is_false_on_every_failure() {
    assert!(is_target_on_image(&Ok(DisplayArea::from_points(0, 0, 1, 1))));
    assert!(!is_target_on_image(&Err(SearchError::NotFound)));
    assert!(!is_target_on_image(&Err(SearchError::InvalidInput(InputFault::ThresholdOutOfRange))));
}

#[test]
fn absolute_position_is_normalized() {
    assert_eq!(mouse_set_position(960, 540, 1920, 1080), Some((32768, 32768)));
    assert_eq!(mouse_set_position(0, 0, 1920, 1080), Some((0, 0)));
    assert_eq!(mouse_set_position(1920, 1080, 1920, 1080), Some((65536, 65536)));
    assert_eq!(mouse_set_position(1, 1, 1920, 1080), Some((34, 60)));
    assert_eq!(mouse_set_position(100_000, 70_000, 200_000, 70_000), Some((32768, 65536)));
    assert_eq!(mouse_set_position(u32::MAX, 1, u32::MAX, 3), Some((65536, 21845)));
}

#[test]
fn position_beyond_the_screen_moves_nothing() {
    assert_eq!(mouse_set_position(1921, 540, 1920, 1080), None);
    assert_eq!(mouse_set_position(960, 1081, 1920, 1080), None);
    assert_eq!(mouse_set_position(-5i32 as u32, 10, 1920, 1080), None);
    assert_eq!(mouse_set_position(1, 0, 0, 0), None);
}

#[test]
fn relative_move_carries_signed_offsets() {
    assert_eq!(mouse_movement(0, 0), None);
    assert_eq!(mouse_movement(3, 0), Some((3, 0)));
    assert_eq!(mouse_movement(0, -1), Some((0, u32::MAX)));
    assert_eq!(mouse_movement(-2, 7), Some((-2i32 as u32, 7)));
    assert_eq!(mouse_movement(i32::MIN, i32::MAX), Some((0x8000_0000, 0x7fff_ffff)));
    assert_eq!(mouse_wheel_spin(120), 120);
    assert_eq!(mouse_wheel_spin(-120), -120i32 as u32);
    assert_eq!(mouse_wheel_spin(0), 0);
}

#[test]
fn wheel_turn_is_spread_over_notches() {
    assert_eq!(mouse_wheel_complex(0, 1_000), Err(MotionError::ZeroDelta));
    assert_eq!(
        mouse_wheel_complex(4, 1_000_000_000),
        Ok(WheelPlan { steps: 4, step: 1, pause: 250_000_000 })
    );
    assert_eq!(
        mouse_wheel_complex(-3, 1_000_000_000),
        Ok(WheelPlan { steps: 3, step: u32::MAX, pause: 333_333_333 })
    );
    assert_eq!(
        mouse_wheel_complex(i32::MIN, 0),
        Ok(WheelPlan { steps: 0x8000_0000, step: u32::MAX, pause: 0 })
    );
}

#[test]
fn smooth_motion_is_checked_in_order() {
    assert_eq!(MotionPacer::begin(0, 0, false).err(), Some(MotionError::ZeroDuration));
    assert_eq!(MotionPacer::begin(1, 0, false).err(), Some(MotionError::ZeroRate));
    assert_eq!(MotionPacer::begin(1, 1, false).err(), Some(MotionError::NoMovement));
    assert_eq!(MotionPacer::begin(1, 60, true).unwrap().period(), 16_666_666);
    assert_eq!(
        mouse_set_position_complex((1, 1), (1, 1), 5, 5).err(),
        Some(MotionError::NoMovement)
    );
    assert_eq!(
        mouse_set_position_complex((1, 1), (1, 2), 0, 5).err(),
        Some(MotionError::ZeroDuration)
    );
    assert_eq!(mouse_set_position_complex((1, 1), (1, 2), 5, 0).err(), Some(MotionError::ZeroRate));
    assert_eq!(mouse_set_position_complex((1, 1), (1, 2), 5, 100).unwrap().period(), 10_000_000);
    assert_eq!(mouse_set_position_complex((1, 1), (2, 1), 5, 100).unwrap().period(), 10_000_000);
    assert_eq!(mouse_movement_complex((0, 0), 5, 5).err(), Some(MotionError::NoMovement));
    assert_eq!(mouse_movement_complex((0, 1), 0, 0).err(), Some(MotionError::ZeroDuration));
    assert_eq!(mouse_movement_complex((0, 1), 5, 0).err(), Some(MotionError::ZeroRate));
    assert_eq!(mouse_movement_complex((3, 0), 5, 2_000_000_000).unwrap().period(), 0);
}

#[test]
fn smooth_motion_updates_once_per_period_until_its_time_is_over() {
    const MS: u64 = 1_000_000;
    let mut pacer = mouse_movement_complex((30, 0), 250 * MS, 10).unwrap();
    let mut clock: u64 = 0;
    let mut updates: Vec<u64> = Vec::new();
    let mut action = pacer.action();
    loop {
        action = match action {
            PaceAction::Step => {
                let started = clock;
                updates.push(started);
                clock += MS;
                pacer.stepped(started, clock)
            }
            PaceAction::Yield => {
                clock += MS / 2;
                pacer.yielded(clock)
            }
            PaceAction::Settle => break,
        };
    }
    assert_eq!(updates, vec![0, 100 * MS, 200 * MS]);
    assert_eq!(clock, 300 * MS);
    assert_eq!(pacer.stepped(300 * MS, 301 * MS), PaceAction::Settle);
    assert_eq!(pacer.yielded(400 * MS), PaceAction::Settle);
}

#[test]
fn slow_updates_are_not_throttled() {
    const MS: u64 = 1_000_000;
    let mut pacer = MotionPacer::begin(250 * MS, 100, true).unwrap();
    assert_eq!(pacer.action(), PaceAction::Step);
    assert_eq!(pacer.stepped(0, 9 * MS), PaceAction::Yield);
    assert_eq!(pacer.yielded(10 * MS - 1), PaceAction::Yield);
    assert_eq!(pacer.yielded(10 * MS), PaceAction::Step);
    assert_eq!(pacer.stepped(10 * MS, 40 * MS), PaceAction::Step);
    assert_eq!(pacer.stepped(40 * MS, 250 * MS - 1), PaceAction::Step);
    assert_eq!(pacer.stepped(250 * MS - 1, 250 * MS), PaceAction::Yield);
    assert_eq!(pacer.yielded(260 * MS), PaceAction::Settle);
}

#[test]
fn text_is_typed_as_press_and_release_per_character() {
    assert_eq!(type_unicode_text(""), Vec::<KeyStroke>::new());
    assert_eq!(
        type_unicode_text("a\u{431}"),
        vec![
            KeyStroke { key: Key::Unicode(0x61), release: false },
            KeyStroke { key: Key::Unicode(0x61), release: true },
            KeyStroke { key: Key::Unicode(0x431), release: false },
            KeyStroke { key: Key::Unicode(0x431), release: true },
        ]
    );
    assert_eq!(type_unicode_text("aboba").len(), 10);
    let mut joined = type_unicode_text("ab");
    joined.extend(type_unicode_text("oba"));
    assert_eq!(type_unicode_text("aboba"), joined);
}

#[test]
fn characters_beyond_sixteen_bits_keep_their_low_bits() {
    assert_eq!(
        type_unicode_char('\u{1F600}'),
        [
            KeyStroke { key: Key::Unicode(0xF600), release: false },
            KeyStroke { key: Key::Unicode(0xF600), release: true }
        ]
    );
    assert_eq!(
        type_unicode_char('\u{FFFF}'),
        [
            KeyStroke { key: Key::Unicode(0xFFFF), release: false },
            KeyStroke { key: Key::Unicode(0xFFFF), release: true }
        ]
    );
    assert_eq!(type_unicode_text("\u{10000}")[0].key, Key::Unicode(0));
}

#[test]
fn enter_is_pressed_and_released() {
    assert_eq!(
        press_enter(),
        [KeyStroke { key: Key::Enter, release: false }, KeyStroke { key: Key::Enter, release: true }]
    );
}

#[test]
fn recognizer_failure_is_told_in_the_text() {
    assert_eq!(
        read_text_from_image(Recognition::Read { text: "Привет, world\n".to_string() }),
        "Привет, world\n"
    );
    assert_eq!(read_text_from_image(Recognition::Read { text: String::new() }), "");
    assert_eq!(
        read_text_from_image(Recognition::Failed { complaint: "cannot open input".to_string() }),
        "Tesseract error: cannot open input"
    );
    assert_eq!(
        read_text_from_image(Recognition::NotStarted { reason: "No such file".to_string() }),
        "Ошибка при запуске Tesseract: No such file"
    );
}
