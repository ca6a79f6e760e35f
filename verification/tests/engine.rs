use keyremap::EV_KEY_TYPE;
use keyremap::Engine;
use keyremap::EventRecord;
use keyremap::KeyEvent;
use keyremap::KeyValue;
use keyremap::KEY_CAPSLOCK_CODE;
use keyremap::KEY_DOWN_CODE;
use keyremap::KEY_I_CODE;
use keyremap::KEY_J_CODE;
use keyremap::KEY_K_CODE;
use keyremap::KEY_L_CODE;
use keyremap::KEY_LEFTCTRL_CODE;
use keyremap::KEY_LEFT_CODE;
use keyremap::KEY_RIGHT_CODE;
use keyremap::KEY_UP_CODE;

const PRESS: i32 = 1;
const RELEASE: i32 = 0;
const REPEAT: i32 = 2;

fn key_record(code: u16, value: i32) -> EventRecord {
    EventRecord { tv_sec: 55, tv_usec: 66, type_: EV_KEY_TYPE, code, value }
}

fn synthesized(code: u16, value: i32) -> EventRecord {
    EventRecord { tv_sec: 0, tv_usec: 0, type_: EV_KEY_TYPE, code, value }
}

fn run(engine: &mut Engine, inputs: &[(u16, i32)]) -> Vec<EventRecord> {
    let mut outputs = Vec::new();
    for &(code, value) in inputs {
        outputs.extend(engine.process_record(&key_record(code, value)).unwrap());
    }
    outputs
}

#[test]
fn ordinary_keys_pass_through_unchanged_while_caps_released() {
    let mut engine = Engine::new();
    for code in [30, 31, 44, KEY_I_CODE, KEY_J_CODE, KEY_K_CODE, KEY_L_CODE] {
        for value in [PRESS, REPEAT, RELEASE] {
            let rec = key_record(code, value);
            let outputs = engine.process_record(&rec).unwrap();
            assert_eq!(outputs, vec![rec]);
        }
    }
}

#[test]
fn capslock_events_are_never_forwarded() {
    let mut engine = Engine::new();
    for value in [PRESS, REPEAT, RELEASE, PRESS, RELEASE] {
        let outputs = engine.process_record(&key_record(KEY_CAPSLOCK_CODE, value)).unwrap();
        assert!(outputs.is_empty());
    }
}

#[test]
fn lctrl_events_are_forwarded_and_tracked() {
    let mut engine = Engine::new();
    assert!(!engine.l_ctrl_pressed());
    let press = key_record(KEY_LEFTCTRL_CODE, PRESS);
    assert_eq!(engine.process_record(&press).unwrap(), vec![press]);
    assert!(engine.l_ctrl_pressed());
    let repeat = key_record(KEY_LEFTCTRL_CODE, REPEAT);
    assert_eq!(engine.process_record(&repeat).unwrap(), vec![repeat]);
    assert!(engine.l_ctrl_pressed());
    let release = key_record(KEY_LEFTCTRL_CODE, RELEASE);
    assert_eq!(engine.process_record(&release).unwrap(), vec![release]);
    assert!(!engine.l_ctrl_pressed());
}

#[test]
fn caps_then_l_press_yields_one_right_arrow_press() {
    let mut engine = Engine::new();
    let outputs = run(&mut engine, &[(KEY_CAPSLOCK_CODE, PRESS), (KEY_L_CODE, PRESS)]);
    assert_eq!(outputs, vec![synthesized(KEY_RIGHT_CODE, PRESS)]);
}

#[test]
fn caps_j_repeat_release_yields_left_arrow_repeat_and_release() {
    let mut engine = Engine::new();
    let outputs = run(
        &mut engine,
        &[
            (KEY_CAPSLOCK_CODE, PRESS),
            (KEY_J_CODE, REPEAT),
            (KEY_J_CODE, RELEASE),
            (KEY_CAPSLOCK_CODE, RELEASE),
        ],
    );
    assert_eq!(
        outputs,
        vec![synthesized(KEY_LEFT_CODE, REPEAT), synthesized(KEY_LEFT_CODE, RELEASE)]
    );
}

#[test]
fn k_press_without_caps_passes_through_unchanged() {
    let mut engine = Engine::new();
    let rec = key_record(KEY_K_CODE, PRESS);
    let outputs = engine.process_record(&rec).unwrap();
    assert_eq!(outputs, vec![rec]);
}

#[test]
fn ctrl_and_caps_layers_combine_without_extra_effect() {
    let mut engine = Engine::new();
    let outputs = run(
        &mut engine,
        &[
            (KEY_LEFTCTRL_CODE, PRESS),
            (KEY_CAPSLOCK_CODE, PRESS),
            (KEY_I_CODE, PRESS),
            (KEY_CAPSLOCK_CODE, RELEASE),
            (KEY_LEFTCTRL_CODE, RELEASE),
        ],
    );
    assert_eq!(
        outputs,
        vec![
            key_record(KEY_LEFTCTRL_CODE, PRESS),
            synthesized(KEY_UP_CODE, PRESS),
            key_record(KEY_LEFTCTRL_CODE, RELEASE),
        ]
    );
}

#[test]
fn all_four_triggers_map_to_their_arrows() {
    let mut engine = Engine::new();
    let _ = engine.process_record(&key_record(KEY_CAPSLOCK_CODE, PRESS)).unwrap();
    for (trigger, arrow) in [
        (KEY_L_CODE, KEY_RIGHT_CODE),
        (KEY_J_CODE, KEY_LEFT_CODE),
        (KEY_I_CODE, KEY_UP_CODE),
        (KEY_K_CODE, KEY_DOWN_CODE),
    ] {
        let outputs = engine.process_record(&key_record(trigger, PRESS)).unwrap();
        assert_eq!(outputs, vec![synthesized(arrow, PRESS)]);
    }
}

#[test]
fn caps_repeat_keeps_the_layer_held() {
    let mut engine = Engine::new();
    let outputs = run(
        &mut engine,
        &[(KEY_CAPSLOCK_CODE, PRESS), (KEY_CAPSLOCK_CODE, REPEAT), (KEY_L_CODE, PRESS)],
    );
    assert_eq!(outputs, vec![synthesized(KEY_RIGHT_CODE, PRESS)]);
    assert!(engine.capslock_pressed());
}

#[test]
fn non_key_records_are_forwarded_untouched() {
    let mut engine = Engine::new();
    for type_ in [0u16, 2, 3, 4, 17] {
        let rec = EventRecord { tv_sec: 99, tv_usec: 7, type_, code: 8, value: 77 };
        let outputs = engine.process_record(&rec).unwrap();
        assert_eq!(outputs, vec![rec]);
    }
}

#[test]
fn non_key_records_do_not_move_the_modifier_state() {
    let mut engine = Engine::new();
    let _ = engine.process_record(&key_record(KEY_CAPSLOCK_CODE, PRESS)).unwrap();
    let rel = EventRecord { tv_sec: 1, tv_usec: 2, type_: 2, code: 0, value: -5 };
    let _ = engine.process_record(&rel).unwrap();
    assert!(engine.capslock_pressed());
    let outputs = engine.process_record(&key_record(KEY_K_CODE, PRESS)).unwrap();
    assert_eq!(outputs, vec![synthesized(KEY_DOWN_CODE, PRESS)]);
}

#[test]
fn invalid_key_value_is_a_fatal_decode_error() {
    let mut engine = Engine::new();
    let r = engine.process_record(&key_record(KEY_L_CODE, 9));
    assert_eq!(r, Err(keyremap::DecodeError::InvalidKeyValue));
    assert!(!engine.capslock_pressed());
    assert!(!engine.l_ctrl_pressed());
}

#[test]
fn handle_mirrors_the_trigger_value_on_the_synthesized_event() {
    let mut engine = Engine::new();
    let mut caps = KeyEvent { code: KEY_CAPSLOCK_CODE, value: KeyValue::Press, bubble: true };
    assert_eq!(engine.handle(&mut caps), None);
    assert!(!caps.bubble);
    let mut evt = KeyEvent { code: KEY_J_CODE, value: KeyValue::Repeat, bubble: true };
    let emitted = engine.handle(&mut evt);
    assert_eq!(
        emitted,
        Some(KeyEvent { code: KEY_LEFT_CODE, value: KeyValue::Repeat, bubble: true })
    );
    assert!(!evt.bubble);
}
