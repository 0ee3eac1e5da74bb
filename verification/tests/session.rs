use waylock::lock::input::{KeyEvent, KeyState, LockInput};
use waylock::lock::surface::{LayerEvent, Phase};
use waylock::lock::{
    classify, AuthAction, Frame, Iteration, Key, KeyAction, LockSession, LockState, Sweep,
    KEY_BACKSPACE, KEY_DELETE, KEY_ESCAPE, KEY_KP_ENTER, KEY_RETURN,
};
use waylock::options::Options;

const INIT: u32 = 0xffff_ffff;
const INPUT: u32 = 0xff00_00ff;
const FAIL: u32 = 0xffff_0000;

fn options(one_way: bool, fail_command: Option<&str>) -> Options {
    Options {
        one_way,
        fail_command: fail_command.map(str::to_owned),
        init_color: INIT,
        input_color: INPUT,
        fail_color: FAIL,
    }
}

fn session(one_way: bool) -> LockSession {
    let mut session = LockSession::new(options(one_way, None));
    session.output_created(1);
    session.output_created(2);
    session
}

fn type_text(session: &mut LockSession, text: &str) {
    for c in text.chars() {
        let mut buffer = [0u8; 4];
        let utf8: &str = c.encode_utf8(&mut buffer);
        assert_eq!(session.handle_key(c as u32, Some(utf8)), KeyAction::Continue);
    }
}

fn colors(session: &LockSession) -> Vec<u32> {
    (0..session.surface_count()).map(|i| session.surface(i).color()).collect()
}

fn unlocked(action: &AuthAction) -> bool {
    matches!(action, AuthAction::Unlock)
}

fn denied_command(action: AuthAction) -> Option<String> {
    match action {
        AuthAction::Deny { command } => command,
        AuthAction::Unlock => panic!("unlocked"),
    }
}

#[test]
fn keys_are_classified() {
    assert_eq!(KEY_RETURN, 0xff0d);
    assert_eq!(KEY_KP_ENTER, 0xff8d);
    assert_eq!(KEY_BACKSPACE, 0xff08);
    assert_eq!(KEY_DELETE, 0xffff);
    assert_eq!(KEY_ESCAPE, 0xff1b);
    assert_eq!(classify(KEY_RETURN), Key::Enter);
    assert_eq!(classify(KEY_KP_ENTER), Key::Enter);
    assert_eq!(classify(KEY_BACKSPACE), Key::Erase);
    assert_eq!(classify(KEY_DELETE), Key::Erase);
    assert_eq!(classify(KEY_ESCAPE), Key::Escape);
    assert_eq!(classify(0x61), Key::Other);
    assert_eq!(classify(0), Key::Other);
}

#[test]
fn new_session_is_at_rest() {
    let session = LockSession::new(options(false, Some("beep")));
    assert_eq!(session.state(), LockState::Init);
    assert_eq!(session.password(), "");
    assert_eq!(session.surface_count(), 0);
    assert_eq!(session.options().fail_command.as_deref(), Some("beep"));
    assert!(!session.options().one_way);
}

#[test]
fn typing_goes_to_input() {
    let mut session = session(false);
    assert_eq!(colors(&session), vec![INIT, INIT]);
    type_text(&mut session, "a");
    assert_eq!(session.state(), LockState::Input);
    assert_eq!(session.password(), "a");
    assert_eq!(colors(&session), vec![INPUT, INPUT]);
    assert!(session.surface(0).needs_redraw());
}

#[test]
fn wrong_password_fails_and_keeps_the_password() {
    let mut session = session(false);
    type_text(&mut session, "abc");
    assert_eq!(session.handle_key(KEY_RETURN, None), KeyAction::Authenticate);
    assert_eq!(session.state(), LockState::Input);
    let action = session.handle_verdict(false);
    assert!(!unlocked(&action));
    assert_eq!(session.state(), LockState::Fail);
    assert_eq!(session.password(), "abc");
    assert_eq!(colors(&session), vec![FAIL, FAIL]);
}

#[test]
fn wrong_password_one_way_stays_failed_after_escape() {
    let mut session = session(true);
    type_text(&mut session, "abc");
    assert_eq!(session.handle_key(KEY_KP_ENTER, None), KeyAction::Authenticate);
    assert!(!unlocked(&session.handle_verdict(false)));
    assert_eq!(session.state(), LockState::Fail);
    assert_eq!(session.password(), "abc");
    assert_eq!(colors(&session), vec![FAIL, FAIL]);
    assert_eq!(session.handle_key(KEY_ESCAPE, None), KeyAction::Continue);
    assert_eq!(session.password(), "");
    assert_eq!(session.state(), LockState::Fail);
    assert_eq!(colors(&session), vec![FAIL, FAIL]);
    type_text(&mut session, "x");
    assert_eq!(session.state(), LockState::Fail);
    assert_eq!(colors(&session), vec![FAIL, FAIL]);
}

#[test]
fn fail_reverts_on_empty_password() {
    let mut session = session(false);
    type_text(&mut session, "ab");
    assert!(!unlocked(&session.handle_verdict(false)));
    assert_eq!(session.state(), LockState::Fail);
    // A further character keeps the failure on the screen.
    type_text(&mut session, "c");
    assert_eq!(session.state(), LockState::Fail);
    assert_eq!(colors(&session), vec![FAIL, FAIL]);
    assert_eq!(session.handle_key(KEY_BACKSPACE, None), KeyAction::Continue);
    assert_eq!(session.handle_key(KEY_DELETE, None), KeyAction::Continue);
    assert_eq!(session.password(), "a");
    assert_eq!(session.state(), LockState::Fail);
    assert_eq!(session.handle_key(KEY_BACKSPACE, None), KeyAction::Continue);
    assert_eq!(session.password(), "");
    assert_eq!(session.state(), LockState::Init);
    assert_eq!(colors(&session), vec![INIT, INIT]);
}

#[test]
fn empty_password_denied_goes_back_to_rest() {
    let mut session = session(false);
    assert!(!unlocked(&session.handle_verdict(false)));
    assert_eq!(session.state(), LockState::Init);
    assert_eq!(colors(&session), vec![INIT, INIT]);

    let mut session = self::session(true);
    assert!(!unlocked(&session.handle_verdict(false)));
    assert_eq!(session.state(), LockState::Fail);
    assert_eq!(colors(&session), vec![FAIL, FAIL]);
}

#[test]
fn escape_clears_and_reverts() {
    let mut session = session(false);
    type_text(&mut session, "secret");
    assert_eq!(session.state(), LockState::Input);
    assert_eq!(session.handle_key(KEY_ESCAPE, None), KeyAction::Continue);
    assert_eq!(session.password(), "");
    assert_eq!(session.state(), LockState::Init);
    assert_eq!(colors(&session), vec![INIT, INIT]);
    // Escape on nothing stays at rest.
    assert_eq!(session.handle_key(KEY_ESCAPE, Some("\u{1b}")), KeyAction::Continue);
    assert_eq!(session.password(), "");
    assert_eq!(session.state(), LockState::Init);
}

#[test]
fn one_way_input_never_reverts() {
    let mut session = session(true);
    type_text(&mut session, "a");
    assert_eq!(session.state(), LockState::Input);
    assert_eq!(session.handle_key(KEY_BACKSPACE, None), KeyAction::Continue);
    assert_eq!(session.password(), "");
    assert_eq!(session.state(), LockState::Input);
    assert_eq!(colors(&session), vec![INPUT, INPUT]);
}

#[test]
fn erase_on_empty_is_a_no_op() {
    let mut session = session(false);
    assert_eq!(session.handle_key(KEY_BACKSPACE, None), KeyAction::Continue);
    assert_eq!(session.handle_key(KEY_DELETE, Some("\u{7f}")), KeyAction::Continue);
    assert_eq!(session.password(), "");
    assert_eq!(session.state(), LockState::Init);
}

#[test]
fn multi_byte_text_is_taken_whole() {
    let mut session = session(false);
    assert_eq!(session.handle_key(0xe4, Some("\u{e4}")), KeyAction::Continue);
    assert_eq!(session.handle_key(0x20ac, Some("\u{20ac}")), KeyAction::Continue);
    assert_eq!(session.password(), "\u{e4}\u{20ac}");
    assert_eq!(session.handle_key(KEY_BACKSPACE, None), KeyAction::Continue);
    assert_eq!(session.password(), "\u{e4}");
    assert_eq!(session.state(), LockState::Input);
    assert_eq!(session.handle_key(KEY_BACKSPACE, None), KeyAction::Continue);
    assert_eq!(session.password(), "");
    assert_eq!(session.state(), LockState::Init);
}

#[test]
fn key_without_text_adds_nothing() {
    let mut session = session(false);
    // Shift.
    assert_eq!(session.handle_key(0xffe1, None), KeyAction::Continue);
    assert_eq!(session.password(), "");
    assert_eq!(session.state(), LockState::Init);
    // A key whose text is several characters.
    assert_eq!(session.handle_key(0x1000000, Some("ab")), KeyAction::Continue);
    assert_eq!(session.password(), "ab");
}

#[test]
fn only_success_unlocks() {
    let mut session = session(false);
    type_text(&mut session, "right");
    assert_eq!(session.handle_key(KEY_RETURN, Some("\r")), KeyAction::Authenticate);
    assert_eq!(session.password(), "right");
    let action = session.handle_verdict(true);
    assert!(unlocked(&action));
    assert_eq!(session.state(), LockState::Input);
    assert_eq!(session.password(), "right");
    assert_eq!(colors(&session), vec![INPUT, INPUT]);
}

#[test]
fn denial_hands_back_the_fail_command() {
    let mut session = LockSession::new(options(false, Some("notify-send failed")));
    type_text(&mut session, "x");
    assert_eq!(
        denied_command(session.handle_verdict(false)),
        Some("notify-send failed".to_owned())
    );
    let mut session = LockSession::new(options(false, None));
    assert_eq!(denied_command(session.handle_verdict(false)), None);
}

#[test]
fn outputs_get_one_surface_each() {
    let mut session = LockSession::new(options(false, None));
    session.output_created(10);
    session.output_created(11);
    session.output_created(10);
    assert_eq!(session.surface_count(), 2);
    assert_eq!(session.surface(0).output(), 10);
    assert_eq!(session.surface(1).output(), 11);
    assert_eq!(session.find_surface(11), Some(1));
    assert_eq!(session.find_surface(12), None);
    session.output_removed(10);
    assert_eq!(session.surface_count(), 1);
    assert_eq!(session.surface(0).output(), 11);
    session.output_removed(10);
    assert_eq!(session.surface_count(), 1);
}

#[test]
fn new_output_starts_in_the_colour_of_rest() {
    let mut session = session(false);
    type_text(&mut session, "a");
    session.output_created(3);
    assert_eq!(colors(&session), vec![INPUT, INPUT, INIT]);
}

#[test]
fn unconfigured_output_is_dropped_without_drawing() {
    let mut session = LockSession::new(options(false, None));
    session.output_created(5);
    session.set_color(FAIL);
    session.handle_surfaces();
    assert_eq!(session.surface_count(), 1);
    assert_eq!(session.surface(0).phase(), Phase::Unconfigured);
    assert_eq!(session.surface(0).pool().capacity(), 0);
    assert!(!session.surface(0).pool().slot(0).is_busy());
    assert!(!session.surface(0).pool().slot(1).is_busy());
    session.output_removed(5);
    assert_eq!(session.surface_count(), 0);
    session.handle_surfaces();
    assert_eq!(session.surface_count(), 0);
}

#[test]
fn surface_events_reach_their_surface() {
    let mut session = session(false);
    let event = LayerEvent::Configure { serial: 3, width: 2, height: 2 };
    assert_eq!(session.surface_event(2, event), Some(3));
    assert_eq!(session.surface_event(9, event), None);
    session.handle_surfaces();
    assert_eq!(session.surface(0).phase(), Phase::Unconfigured);
    assert_eq!(session.surface(1).phase(), Phase::Ready);
    assert_eq!(session.surface(1).pool().slot(0).pixels(), &vec![INIT; 4]);
    assert!(session.surface(1).pool().slot(0).is_busy());
    session.buffer_released(2, 0);
    assert!(!session.surface(1).pool().slot(0).is_busy());
    session.buffer_released(9, 0);
}

#[test]
fn closed_surfaces_are_pruned_in_order() {
    let mut session = LockSession::new(options(false, None));
    for id in 1..=4 {
        session.output_created(id);
    }
    assert_eq!(session.surface_event(1, LayerEvent::Closed), None);
    assert_eq!(
        session.surface_event(2, LayerEvent::Configure { serial: 1, width: 1, height: 1 }),
        Some(1)
    );
    assert_eq!(session.surface_event(3, LayerEvent::Closed), None);
    let sweep = session.handle_surfaces();
    assert_eq!(sweep.closed, vec![1, 3]);
    assert_eq!(sweep.frames, vec![Frame { output: 2, slot: 0, width: 1, height: 1 }]);
    assert_eq!(session.surface_count(), 2);
    assert_eq!(session.surface(0).output(), 2);
    assert_eq!(session.surface(0).phase(), Phase::Ready);
    assert_eq!(session.surface(1).output(), 4);
    assert_eq!(session.surface(1).phase(), Phase::Unconfigured);
}

#[test]
fn wrong_password_reaches_every_screen() {
    let mut session = session(false);
    for id in [1, 2] {
        let event = LayerEvent::Configure { serial: id, width: 3, height: 1 };
        assert_eq!(session.surface_event(id, event), Some(id));
    }
    session.handle_surfaces();
    for id in [1, 2] {
        session.buffer_released(id, 0);
    }
    type_text(&mut session, "abc");
    assert!(!unlocked(&session.handle_verdict(false)));
    session.handle_surfaces();
    for i in 0..2 {
        assert_eq!(session.surface(i).pool().slot(0).pixels(), &vec![FAIL; 3]);
        assert!(session.surface(i).pool().slot(0).is_busy());
    }
}

fn press(keysym: u32, utf8: Option<&str>) -> KeyEvent {
    KeyEvent::Key { keysym, state: KeyState::Pressed, utf8: utf8.map(str::to_owned) }
}

#[test]
fn input_is_drained_up_to_enter() {
    let mut session = session(false);
    let mut input = LockInput::new();
    input.handle_keyboard_event(press(0x61, Some("a")));
    input.handle_keyboard_event(press(0x62, Some("b")));
    input.handle_keyboard_event(press(KEY_RETURN, Some("\r")));
    input.handle_keyboard_event(press(0x63, Some("c")));
    assert_eq!(session.handle_input(&mut input), KeyAction::Authenticate);
    assert_eq!(session.password(), "ab");
    assert_eq!(input.pending(), 1);
    assert!(!unlocked(&session.handle_verdict(false)));
    assert_eq!(session.state(), LockState::Fail);
    assert_eq!(session.handle_input(&mut input), KeyAction::Continue);
    assert_eq!(session.password(), "abc");
    assert_eq!(input.pending(), 0);
    assert_eq!(session.handle_input(&mut input), KeyAction::Continue);
}

#[test]
fn iteration_asks_for_the_verdict_before_it_draws() {
    let mut session = session(false);
    let event = LayerEvent::Configure { serial: 1, width: 2, height: 1 };
    assert_eq!(session.surface_event(1, event), Some(1));
    let mut input = LockInput::new();
    input.handle_keyboard_event(press(0x61, Some("a")));
    input.handle_keyboard_event(press(KEY_KP_ENTER, None));
    assert_eq!(session.iterate(&mut input), Iteration::Authenticate);
    assert_eq!(session.surface(0).phase(), Phase::Unconfigured);
    assert!(!unlocked(&session.handle_verdict(false)));
    assert_eq!(
        session.iterate(&mut input),
        Iteration::Flush(Sweep {
            frames: vec![Frame { output: 1, slot: 0, width: 2, height: 1 }],
            closed: vec![],
        })
    );
    assert_eq!(
        session.iterate(&mut input),
        Iteration::Flush(Sweep { frames: vec![], closed: vec![] })
    );
    assert_eq!(session.surface(0).phase(), Phase::Ready);
    assert_eq!(session.surface(0).pool().slot(0).pixels(), &vec![FAIL; 2]);
    assert_eq!(session.state(), LockState::Fail);
}

#[test]
fn rapid_colour_changes_show_the_last() {
    let mut session = session(false);
    let event = LayerEvent::Configure { serial: 1, width: 2, height: 2 };
    assert_eq!(session.surface_event(1, event), Some(1));
    session.handle_surfaces();
    type_text(&mut session, "a");
    assert!(!unlocked(&session.handle_verdict(false)));
    session.handle_surfaces();
    assert_eq!(session.surface(0).pool().slot(0).pixels(), &vec![INIT; 4]);
    assert_eq!(session.surface(0).pool().slot(1).pixels(), &vec![FAIL; 4]);
}

#[test]
fn frames_are_handed_out_once_and_only_when_drawn() {
    let mut session = session(false);
    for id in [1, 2] {
        let event = LayerEvent::Configure { serial: id, width: 2, height: 3 };
        assert_eq!(session.surface_event(id, event), Some(id));
    }
    let sweep = session.handle_surfaces();
    assert_eq!(
        sweep.frames,
        vec![
            Frame { output: 1, slot: 0, width: 2, height: 3 },
            Frame { output: 2, slot: 0, width: 2, height: 3 },
        ]
    );
    assert_eq!(session.handle_surfaces(), Sweep { frames: vec![], closed: vec![] });
    session.set_color(FAIL);
    assert_eq!(
        session.handle_surfaces().frames,
        vec![
            Frame { output: 1, slot: 1, width: 2, height: 3 },
            Frame { output: 2, slot: 1, width: 2, height: 3 },
        ]
    );
    // Both slots of both surfaces are held now: nothing is drawn.
    session.set_color(INPUT);
    assert_eq!(session.handle_surfaces(), Sweep { frames: vec![], closed: vec![] });
    session.buffer_released(2, 0);
    assert_eq!(
        session.handle_surfaces().frames,
        vec![Frame { output: 2, slot: 0, width: 2, height: 3 }]
    );
    assert_eq!(session.surface(1).pool().slot(0).pixels(), &vec![INPUT; 6]);
    assert!(session.surface(0).needs_redraw());
}
