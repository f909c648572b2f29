use utilscord::engine::{CueEngine, EngineEffect, EngineError, SpawnPlan};
use utilscord::fade::{interpolate_value, FadeDirection, FadeJob, FadeStep};
use utilscord::faders::{DMXInput, FaderBank};
use utilscord::gain::{clamp_local, clamp_master, mixed};
use utilscord::library::{IndexError, SoundItem, SoundList};
use utilscord::lighting::Reconnect;
use utilscord::router::{arg_debug_text, CommandRouter, FloatArg, OscMessage, OscType};
use utilscord::session::{MusicState, PlaybackSession, SessionAction, SessionPhase};
use utilscord::text::{chars_eq, chars_of, parse_usize, push_decimal, push_int, split_chars};

fn float_arg(f: f32) -> OscType {
    OscType::Float(FloatArg {
        hundredths: (f * 100.0).round() as i64,
        debug: format!("{:?}", f),
    })
}

fn three_cues() -> SoundList {
    let mut a = SoundItem::new("a.mp3".to_string(), 5000);
    a.fade_in_ms = 2000;
    let b = SoundItem::new("b.wav".to_string(), 8000);
    let mut c = SoundItem::new("c.mp3".to_string(), 3000);
    c.fade_out_ms = 1000;
    SoundList::from_dir("/music".to_string(), vec![a, b, c])
}

fn msg(addr: &str, args: Vec<OscType>) -> OscMessage {
    OscMessage { addr: addr.to_string(), args }
}

#[test]
fn mixed_is_floored_sum() {
    assert_eq!(mixed(50, -100), 0);
    assert_eq!(mixed(0, 0), 0);
    assert_eq!(mixed(150, 100), 250);
    assert_eq!(mixed(200, 200), 400);
    assert_eq!(mixed(200, -50), 150);
}

#[test]
fn gains_are_clamped() {
    assert_eq!(clamp_master(300), 200);
    assert_eq!(clamp_master(-5), 0);
    assert_eq!(clamp_master(120), 120);
    assert_eq!(clamp_local(-300), -200);
    assert_eq!(clamp_local(250), 200);
    assert_eq!(clamp_local(-20), -20);
}

#[test]
fn interpolation_values() {
    assert_eq!(interpolate_value(0, 1000, 0, 100), 0);
    assert_eq!(interpolate_value(500, 1000, 0, 100), 50);
    assert_eq!(interpolate_value(333, 1000, 0, 100), 33);
    assert_eq!(interpolate_value(1000, 1000, 0, 100), 100);
    assert_eq!(interpolate_value(2000, 1000, 0, 100), 100);
    assert_eq!(interpolate_value(250, 1000, 100, 0), 75);
    assert_eq!(interpolate_value(0, 0, 30, 70), 70);
}

#[test]
fn interpolation_is_monotonic() {
    let mut last = interpolate_value(0, 700, 10, 190);
    assert_eq!(last, 10);
    for e in 1..=700u64 {
        let g = interpolate_value(e, 700, 10, 190);
        assert!(g >= last && g <= 190);
        last = g;
    }
    assert_eq!(last, 190);
}

#[test]
fn fade_in_steps() {
    let job = FadeJob::fade_in(100, 1000, 5000);
    assert_eq!(job.direction, FadeDirection::In);
    assert_eq!(job.step(0), FadeStep { emit: Some(0), finished: false });
    assert_eq!(job.step(500), FadeStep { emit: Some(50), finished: false });
    assert_eq!(job.step(1000), FadeStep { emit: Some(100), finished: true });
}

#[test]
fn fade_out_steps() {
    let job = FadeJob::fade_out(100, 1000, 5000);
    assert_eq!(job.out_start(), 4000);
    assert_eq!(job.step(3000), FadeStep { emit: None, finished: false });
    assert_eq!(job.step(4000), FadeStep { emit: Some(100), finished: false });
    assert_eq!(job.step(4500), FadeStep { emit: Some(50), finished: false });
    assert_eq!(job.step(5000), FadeStep { emit: Some(0), finished: true });
    assert_eq!(job.step(6000), FadeStep { emit: Some(0), finished: true });
}

#[test]
fn fade_out_longer_than_cue_starts_at_once() {
    let job = FadeJob::fade_out(200, 8000, 5000);
    assert_eq!(job.out_start(), 0);
    assert_eq!(job.step(0), FadeStep { emit: Some(125), finished: false });
}

#[test]
fn select_out_of_range_keeps_selection() {
    let mut lib = three_cues();
    assert_eq!(lib.select_song(1), Ok(()));
    assert_eq!(lib.select_song(3), Err(IndexError::OutOfRange { index: 3, len: 3 }));
    assert_eq!(lib.selected, Some(1));
    lib.unselect();
    assert_eq!(lib.select_song(7), Err(IndexError::OutOfRange { index: 7, len: 3 }));
    assert_eq!(lib.selected, None);
}

#[test]
fn select_on_empty_library_fails() {
    let mut lib = SoundList::from_dir(String::new(), vec![]);
    assert_eq!(lib.select_song(0), Err(IndexError::OutOfRange { index: 0, len: 0 }));
    assert_eq!(lib.selected, None);
}

#[test]
fn selection_wraps() {
    let mut lib = three_cues();
    lib.next_song();
    assert_eq!(lib.selected, Some(0));
    lib.next_song();
    lib.next_song();
    assert_eq!(lib.selected, Some(2));
    lib.next_song();
    assert_eq!(lib.selected, Some(0));
    lib.previous_song();
    assert_eq!(lib.selected, Some(2));
    lib.unselect();
    lib.previous_song();
    assert_eq!(lib.selected, Some(2));
    lib.prompt_selection();
    assert_eq!(lib.selected, Some(0));
}

#[test]
fn rescan_drops_stale_selection() {
    let mut lib = three_cues();
    lib.select_song(2).unwrap();
    lib.update(vec![SoundItem::new("x.mp3".to_string(), 10)]);
    assert_eq!(lib.selected, None);
    assert_eq!(lib.len(), 1);
}

#[test]
fn local_volume_is_clamped() {
    let mut lib = three_cues();
    assert_eq!(lib.modify_local_volume(1, 350), Ok(()));
    assert_eq!(lib.get_local_volume_of_item_index(1), Ok(200));
    assert_eq!(lib.modify_local_volume(1, -20), Ok(()));
    assert_eq!(lib.get_local_volume_of_item_index(1), Ok(-20));
    assert_eq!(lib.modify_local_volume(3, 10), Err(IndexError::OutOfRange { index: 3, len: 3 }));
    assert_eq!(lib.get_local_volume_of_selected_item(), None);
}

#[test]
fn index_error_message() {
    let e = IndexError::OutOfRange { index: 5, len: 3 };
    assert_eq!(e.message(), "Index : [5] is out of bound \n    => Length : 2\n    5 <= 2");
}

#[test]
fn start_on_empty_library() {
    let mut engine = CueEngine::new(SoundList::from_dir(String::new(), vec![]));
    assert_eq!(engine.start(0, None, None), Err(EngineError::EmptyLibrary));
    assert!(engine.take_effects().is_empty());
}

#[test]
fn start_out_of_range() {
    let mut engine = CueEngine::new(three_cues());
    assert_eq!(engine.start(3, None, None), Err(EngineError::OutOfRange { index: 3, len: 3 }));
}

#[test]
fn start_replaces_the_live_session() {
    let mut engine = CueEngine::new(three_cues());
    assert_eq!(engine.start(1, Some(2000), Some(0)), Ok(()));
    assert_eq!(
        engine.take_effects(),
        vec![EngineEffect::Spawn(SpawnPlan {
            session: 0,
            cue: 1,
            name: "b.wav".to_string(),
            master: 100,
            local: 0,
            trim_in_ms: 0,
            fade_in: Some(FadeJob::fade_in(100, 2000, 8000)),
            fade_out: None,
        })]
    );
    assert_eq!(engine.start(2, None, Some(1000)), Ok(()));
    assert_eq!(
        engine.take_effects(),
        vec![
            EngineEffect::Retire { session: 0 },
            EngineEffect::Spawn(SpawnPlan {
                session: 1,
                cue: 2,
                name: "c.mp3".to_string(),
                master: 100,
                local: 0,
                trim_in_ms: 0,
                fade_in: None,
                fade_out: Some(FadeJob::fade_out(100, 1000, 3000)),
            }),
        ]
    );
    assert_eq!(engine.active_cue(), Some(2));
}

#[test]
fn gain_changes_reach_the_live_session() {
    let mut engine = CueEngine::new(three_cues());
    assert_eq!(engine.set_master_gain(250), 200);
    assert!(engine.take_effects().is_empty());
    engine.start(0, None, None).unwrap();
    engine.take_effects();
    assert_eq!(engine.set_master_gain(-3), 0);
    assert_eq!(engine.master_gain(), 0);
    assert_eq!(engine.set_local_gain(0, 40), Ok(()));
    assert_eq!(engine.set_local_gain(1, 40), Ok(()));
    assert_eq!(engine.set_local_gain(9, 40), Err(IndexError::OutOfRange { index: 9, len: 3 }));
    assert_eq!(
        engine.take_effects(),
        vec![
            EngineEffect::Send { session: 0, command: MusicState::VolumeChanged(0) },
            EngineEffect::Send { session: 0, command: MusicState::LocalVolumeChanged(40) },
        ]
    );
}

#[test]
fn pause_stop_and_finish() {
    let mut engine = CueEngine::new(three_cues());
    engine.toggle_pause();
    engine.stop();
    assert!(engine.take_effects().is_empty());
    engine.start(0, None, None).unwrap();
    engine.toggle_pause();
    assert!(engine.is_paused());
    engine.stop();
    assert_eq!(engine.active_cue(), None);
    let effects = engine.take_effects();
    assert_eq!(effects[1], EngineEffect::Send { session: 0, command: MusicState::PlayResume });
    assert_eq!(effects[2], EngineEffect::Retire { session: 0 });
    engine.start(1, None, None).unwrap();
    engine.session_finished(0);
    assert_eq!(engine.active_cue(), Some(1));
    engine.session_finished(1);
    assert_eq!(engine.active_cue(), None);
    assert!(!engine.is_paused());
}

#[test]
fn session_state_machine() {
    let mut s = PlaybackSession::new(100, -20);
    assert_eq!(s.phase, SessionPhase::Starting);
    assert_eq!(s.opened(), 80);
    assert_eq!(s.handle(MusicState::VolumeChanged(50)), SessionAction::Apply(30));
    assert_eq!(s.handle(MusicState::LocalVolumeChanged(-100)), SessionAction::Apply(0));
    assert_eq!(s.handle(MusicState::VolumeChanged(500)), SessionAction::Apply(100));
    assert_eq!(s.handle(MusicState::PlayResume), SessionAction::Pause);
    assert_eq!(s.phase, SessionPhase::Paused);
    assert_eq!(s.handle(MusicState::PlayResume), SessionAction::Resume);
    assert_eq!(s.handle(MusicState::Remove), SessionAction::Halt(100));
    assert_eq!(s.phase, SessionPhase::Ended);
    assert_eq!(s.handle(MusicState::PlayResume), SessionAction::Idle);
}

#[test]
fn session_ends_without_device() {
    let mut s = PlaybackSession::new(300, 0);
    assert_eq!(s.master, 200);
    s.failed();
    assert_eq!(s.phase, SessionPhase::Ended);
    let mut t = PlaybackSession::new(100, 0);
    t.opened();
    t.media_finished();
    assert_eq!(t.handle(MusicState::VolumeChanged(10)), SessionAction::Idle);
}

#[test]
fn router_volume_and_local_volume() {
    let mut r = CommandRouter::new(CueEngine::new(three_cues()), false);
    assert_eq!(r.osc_message_interaction(msg("/OscControl/Volume", vec![float_arg(1.5)])), Ok(()));
    assert_eq!(r.engine.master_gain(), 150);
    assert_eq!(r.osc_message_interaction(msg("/OscControl/LocalVolume/1", vec![float_arg(0.5)])), Ok(()));
    assert_eq!(r.engine.library.sound_files[1].local_volume, 50);
    assert_eq!(
        r.osc_message_interaction(msg("/OscControl/LocalVolume/7", vec![float_arg(0.5)])),
        Err("Index : [7] is out of bound \n    => Length : 2\n    7 <= 2".to_string())
    );
    assert_eq!(r.osc_message_interaction(msg("/OscControl/LocalVolume/Selected", vec![float_arg(-3.0)])), Ok(()));
    assert_eq!(r.engine.library.selected, Some(0));
    assert_eq!(r.engine.library.sound_files[0].local_volume, -200);
}

#[test]
fn router_play_and_stop() {
    let mut r = CommandRouter::new(CueEngine::new(three_cues()), false);
    assert_eq!(r.osc_message_interaction(msg("/OscControl/Play/Next", vec![])), Ok(()));
    assert_eq!(r.engine.library.selected, Some(0));
    assert_eq!(r.engine.active_cue(), Some(0));
    assert_eq!(r.osc_message_interaction(msg("/OscControl/Play/Previous", vec![])), Ok(()));
    assert_eq!(r.engine.active_cue(), Some(2));
    assert_eq!(r.osc_message_interaction(msg("/OscControl/Play/1", vec![])), Ok(()));
    assert_eq!(r.engine.active_cue(), Some(1));
    assert_eq!(
        r.osc_message_interaction(msg("/OscControl/Play", vec![])),
        Err("Missing OSC path index of item, ex : Next | Previous | 1 <= Sound Index".to_string())
    );
    assert_eq!(r.osc_message_interaction(msg("/OscControl/Stop", vec![])), Ok(()));
    assert_eq!(r.engine.active_cue(), None);
    let effects = r.engine.take_effects();
    assert_eq!(effects.len(), 6);
    assert_eq!(effects[5], EngineEffect::Retire { session: 2 });
}

#[test]
fn router_play_on_empty_library() {
    let mut r = CommandRouter::default();
    assert_eq!(
        r.osc_message_interaction(msg("/OscControl/Play/Next", vec![])),
        Err("No Sound Files in the Sound List".to_string())
    );
}

#[test]
fn router_dmx() {
    let mut r = CommandRouter::default();
    r.set_dmx_connected(true);
    assert_eq!(r.osc_message_interaction(msg("/OscControl/DMXChan/5", vec![OscType::Int(200)])), Ok(()));
    assert_eq!(r.osc_message_interaction(msg("/OscControl/DMXChan/511", vec![OscType::Int(0)])), Ok(()));
    assert_eq!(r.take_dmx_writes(), vec![(5, 200), (511, 0)]);
    assert_eq!(r.osc_message_interaction(msg("/OscControl/DMXChan/512", vec![OscType::Int(10)])), Ok(()));
    assert_eq!(r.take_dmx_writes(), vec![(512, 10)]);
    assert_eq!(
        r.osc_message_interaction(msg("/OscControl/DMXChan/5", vec![float_arg(300.25)])),
        Err("Float(300.25) is not an Int !".to_string())
    );
    assert_eq!(
        r.osc_message_interaction(msg("/OscControl/DMXChan/5", vec![OscType::Int(-1)])),
        Err("-1 is not in range 0..=255".to_string())
    );
    assert_eq!(
        r.osc_message_interaction(msg("/OscControl/DMXChan/5", vec![OscType::String("x".to_string())])),
        Err("String(\"x\") is not an Int !".to_string())
    );
    assert_eq!(
        r.osc_message_interaction(msg("/OscControl/DMXChan/abc", vec![OscType::Other("Bool(true)".to_string())])),
        Err("Invalid channel or value : abc <= This must be between 1 and 512 Bool(true)".to_string())
    );
    assert_eq!(
        r.osc_message_interaction(msg("/OscControl/DMXChan/5", vec![])),
        Err("No DMX Value provided".to_string())
    );
    assert!(r.take_dmx_writes().is_empty());
}

#[test]
fn router_unknown_family() {
    let mut r = CommandRouter::default();
    assert_eq!(r.osc_message_interaction(msg("/a", vec![])), Err("Invalid OSC path : ".to_string()));
    assert_eq!(
        r.osc_message_interaction(msg("/OscControl/Volume", vec![OscType::String("a\"b".to_string())])),
        Err("String(\"a\\\"b\"), is not a float".to_string())
    );
}

#[test]
fn argument_debug_text() {
    assert_eq!(arg_debug_text(&OscType::Int(-7)), "Int(-7)");
    assert_eq!(arg_debug_text(&float_arg(2.0)), "Float(2.0)");
    assert_eq!(arg_debug_text(&OscType::String("q\n".to_string())), "String(\"q\\n\")");
}

#[test]
fn text_helpers() {
    assert_eq!(parse_usize(&chars_of("+12")), Some(12));
    assert_eq!(parse_usize(&chars_of("007")), Some(7));
    assert_eq!(parse_usize(&chars_of("")), None);
    assert_eq!(parse_usize(&chars_of("+")), None);
    assert_eq!(parse_usize(&chars_of("12a")), None);
    assert_eq!(parse_usize(&chars_of("-1")), None);
    assert_eq!(parse_usize(&chars_of("18446744073709551616")), None);
    assert_eq!(parse_usize(&chars_of("18446744073709551615")), Some(usize::MAX));
    let segs = split_chars(&chars_of("/a//bc"), '/');
    assert_eq!(segs, vec![vec![], vec!['a'], vec![], vec!['b', 'c']]);
    assert!(chars_eq(&chars_of("Play"), "Play"));
    assert!(!chars_eq(&chars_of("Pla"), "Play"));
    let mut s = String::new();
    push_int(&mut s, -42);
    push_decimal(&mut s, 0);
    push_int(&mut s, i64::MIN);
    assert_eq!(s, "-420-9223372036854775808");
}

#[test]
fn fades_are_cut_to_the_cue() {
    let mut lib = three_cues();
    assert_eq!(lib.set_fades(2, 1500, 9000, 200), Ok(()));
    assert_eq!(lib.sound_files[2].fade_in_ms, 1500);
    assert_eq!(lib.sound_files[2].fade_out_ms, 3000);
    assert_eq!(lib.sound_files[2].trim_in_ms, 200);
    assert_eq!(lib.set_fades(3, 0, 0, 0), Err(IndexError::OutOfRange { index: 3, len: 3 }));
}

#[test]
fn reconnect_backs_off_up_to_the_cap() {
    let mut retry = Reconnect::new();
    assert!(retry.due(0));
    retry.failed(1000);
    assert_eq!(retry.next_attempt_ms, 1050);
    assert!(!retry.due(1049));
    assert!(retry.due(1050));
    assert_eq!(retry.delay_ms, 100);
    for _ in 0..10 {
        retry.failed(2000);
    }
    assert_eq!(retry.delay_ms, 5000);
    assert_eq!(retry.next_attempt_ms, 7000);
    retry.succeeded();
    assert_eq!(retry, Reconnect { delay_ms: 50, next_attempt_ms: 0 });
    retry.failed(u64::MAX - 10);
    assert_eq!(retry.next_attempt_ms, u64::MAX);
}

#[test]
fn fader_levels_saturate() {
    let mut f = DMXInput { value: 250 };
    f.increment(10);
    assert_eq!(f.value, 255);
    f.decrement(100);
    assert_eq!(f.value, 155);
    f.decrement(200);
    assert_eq!(f.value, 0);
}

#[test]
fn fader_bank_patch_and_focus() {
    let mut bank = FaderBank::new();
    bank.previous_content_element();
    assert_eq!(bank.focus, 3);
    bank.next_content_element();
    assert_eq!(bank.focus, 0);
    bank.next_content_element();
    bank.type_digit(2);
    bank.type_digit(5);
    bank.type_digit(6);
    assert_eq!(bank.faders[1].value, 255);
    bank.set_focused(12);
    bank.type_digit(7);
    assert_eq!(bank.faders[1].value, 127);
    bank.increment_focused(10);
    bank.decrement_focused(1);
    assert_eq!(bank.faders[1].value, 136);
    bank.raise_address();
    bank.raise_address();
    assert_eq!(bank.update_dmx(), vec![(3, 0), (4, 136), (5, 0), (6, 0)]);
    bank.lower_address();
    bank.lower_address();
    bank.lower_address();
    assert_eq!(bank.address, 1);
    for _ in 0..600 {
        bank.raise_address();
    }
    assert_eq!(bank.address, 509);
    assert_eq!(bank.update_dmx()[3], (512, 0));
    bank.reset_address();
    assert_eq!(bank.address, 1);
}

#[test]
fn failed_session_is_reported() {
    let mut engine = CueEngine::new(three_cues());
    engine.start(1, None, None).unwrap();
    assert_eq!(engine.session_failed(0), Err(EngineError::DeviceError { session: 0 }));
    assert_eq!(engine.active_cue(), None);
    assert_eq!(engine.start(0, None, None), Ok(()));
    assert_eq!(engine.session_failed(7), Err(EngineError::DeviceError { session: 7 }));
    assert_eq!(engine.active_cue(), Some(0));
}

#[test]
fn default_router_starts_at_unity() {
    let r = CommandRouter::default();
    assert_eq!(r.engine.master_gain(), 100);
    assert_eq!(r.engine.next_id, 0);
    assert!(!r.dmx_connected);
}
