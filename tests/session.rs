use voice_changer::params::SessionParameters;
use voice_changer::session::{pressed_key, start_requested, Action, Key, Mode, Preset, Session};

fn sample_session() -> Session<u32> {
    let f0: Vec<u64> = vec![0, 100_000, 200_000];
    let sp: Vec<Vec<u32>> = vec![vec![1, 2, 3, 4], vec![5, 6, 7, 8], vec![9, 10, 11, 12]];
    let ap: Vec<Vec<u32>> = vec![vec![0, 0, 0, 0], vec![1, 1, 1, 1], vec![2, 2, 2, 2]];
    Session::new(f0, sp, ap, 50)
}

fn press(s: &mut Session<u32>, k: Key) -> Action {
    s.handle(&vec![k])
}

#[test]
fn start_key_among_others() {
    assert!(start_requested(&vec![Key::W, Key::Space]));
    assert!(!start_requested(&vec![Key::W]));
    assert!(!start_requested(&vec![]));
}

#[test]
fn only_single_key_polls_count() {
    assert_eq!(pressed_key(&vec![Key::P]), Some(Key::P));
    assert_eq!(pressed_key(&vec![Key::P, Key::O]), None);
    assert_eq!(pressed_key(&vec![]), None);
    let mut s = sample_session();
    assert_eq!(s.handle(&vec![Key::P, Key::O]), Action::Nothing);
    assert_eq!(s.mode(), Mode::MainMenu);
}

#[test]
fn pitch_editor_commits_ratio() {
    let mut s = sample_session();
    assert_eq!(press(&mut s, Key::P), Action::Open(Mode::EditPitch));
    assert_eq!(press(&mut s, Key::W), Action::Show(Mode::EditPitch));
    assert_eq!(press(&mut s, Key::W), Action::Show(Mode::EditPitch));
    assert_eq!(press(&mut s, Key::W), Action::Show(Mode::EditPitch));
    assert_eq!(s.params().pitch_ratio, 13);
    assert_eq!(press(&mut s, Key::R), Action::Nothing);
    assert_eq!(press(&mut s, Key::Enter), Action::Committed);
    assert_eq!(s.mode(), Mode::MainMenu);
    assert_eq!(s.f0(), &vec![0, 130_000, 260_000]);
}

#[test]
fn speed_editor_respects_floor() {
    let mut s = sample_session();
    press(&mut s, Key::O);
    for _ in 0..30 {
        press(&mut s, Key::S);
    }
    assert_eq!(s.params().speed, 30);
    press(&mut s, Key::Enter);
    assert_eq!(s.frame_period(), 30);
}

#[test]
fn speed_below_floor_is_not_committed() {
    let f0: Vec<u64> = vec![100_000];
    let mut s: Session<u32> = Session::new(f0, vec![vec![1]], vec![vec![0]], 20);
    press(&mut s, Key::O);
    press(&mut s, Key::S);
    assert_eq!(s.params().speed, 20);
    press(&mut s, Key::Enter);
    assert_eq!(s.frame_period(), 20);
}

#[test]
fn spectral_ratio_stays_at_floor() {
    let mut s = sample_session();
    press(&mut s, Key::I);
    for _ in 0..9 {
        press(&mut s, Key::S);
    }
    assert_eq!(s.params().spectral_ratio, 1);
    press(&mut s, Key::S);
    press(&mut s, Key::S);
    assert_eq!(s.params().spectral_ratio, 1);
}

#[test]
fn envelope_editor_commits_warp() {
    let mut s = sample_session();
    press(&mut s, Key::I);
    for _ in 0..10 {
        press(&mut s, Key::W);
    }
    assert_eq!(s.params().spectral_ratio, 20);
    press(&mut s, Key::Enter);
    assert_eq!(s.spectral_envelope(), &vec![vec![1, 1, 2, 2], vec![5, 5, 6, 6], vec![9, 9, 10, 10]]);
}

#[test]
fn volume_editor_changes_only_volume() {
    let mut s = sample_session();
    press(&mut s, Key::V);
    press(&mut s, Key::W);
    press(&mut s, Key::Enter);
    assert_eq!(s.params().volume, 11);
    assert_eq!(s.f0(), &vec![0, 100_000, 200_000]);
    assert_eq!(s.spectral_envelope(), &vec![vec![1, 2, 3, 4], vec![5, 6, 7, 8], vec![9, 10, 11, 12]]);
}

#[test]
fn reset_restores_analysis() {
    let mut s = sample_session();
    press(&mut s, Key::P);
    press(&mut s, Key::W);
    press(&mut s, Key::Enter);
    press(&mut s, Key::O);
    press(&mut s, Key::W);
    press(&mut s, Key::Enter);
    press(&mut s, Key::Num3);
    assert!(s.is_preset_on(Preset::Female));
    assert_eq!(press(&mut s, Key::R), Action::ResetDone);
    assert_eq!(s.f0(), &vec![0, 100_000, 200_000]);
    assert_eq!(s.spectral_envelope(), &vec![vec![1, 2, 3, 4], vec![5, 6, 7, 8], vec![9, 10, 11, 12]]);
    assert_eq!(s.frame_period(), 50);
    assert!(!s.is_preset_on(Preset::Robot));
    assert!(!s.is_preset_on(Preset::Female));
    assert!(!s.is_preset_on(Preset::Mosaic));
    assert_eq!(
        s.params(),
        SessionParameters { pitch_ratio: 11, speed: 51, spectral_ratio: 10, volume: 10 }
    );
}

#[test]
fn preset_second_press_changes_nothing() {
    let mut s = sample_session();
    assert_eq!(press(&mut s, Key::Num4), Action::PresetOn(Preset::Mosaic));
    let f0 = s.f0().clone();
    let sp = s.spectral_envelope().clone();
    assert_eq!(press(&mut s, Key::Num4), Action::PresetKept);
    assert_eq!(s.f0(), &f0);
    assert_eq!(s.spectral_envelope(), &sp);
    assert_eq!(f0, vec![0, 50_000, 100_000]);
}

#[test]
fn robot_reset_robot_repeats() {
    let mut s = sample_session();
    assert_eq!(press(&mut s, Key::Num2), Action::PresetOn(Preset::Robot));
    let first = s.f0().clone();
    press(&mut s, Key::R);
    assert_eq!(press(&mut s, Key::Num2), Action::PresetOn(Preset::Robot));
    assert_eq!(s.f0(), &first);
    assert_eq!(first, vec![100_000, 100_000, 100_000]);
}

#[test]
fn preset_starts_from_analysed_envelope() {
    let mut s = sample_session();
    press(&mut s, Key::I);
    press(&mut s, Key::S);
    press(&mut s, Key::S);
    press(&mut s, Key::S);
    press(&mut s, Key::S);
    press(&mut s, Key::S);
    press(&mut s, Key::Enter);
    assert_eq!(s.spectral_envelope()[0], vec![1, 3, 3, 4]);
    press(&mut s, Key::Num2);
    assert_eq!(s.spectral_envelope(), &vec![vec![1, 2, 3, 4], vec![5, 6, 7, 8], vec![9, 10, 11, 12]]);
}

#[test]
fn play_and_finish_leave_state() {
    let mut s = sample_session();
    assert_eq!(press(&mut s, Key::Num1), Action::Play);
    assert_eq!(press(&mut s, Key::Escape), Action::Finish);
    assert_eq!(s.f0(), &vec![0, 100_000, 200_000]);
    assert_eq!(s.aperiodicity()[2], vec![2, 2, 2, 2]);
}

#[test]
fn silent_clip_survives_pitch_change() {
    let frames: usize = 601;
    let bins: usize = 1025;
    let f0: Vec<u64> = vec![0; frames];
    let sp: Vec<Vec<f64>> = vec![vec![1.0e-12; bins]; frames];
    let ap: Vec<Vec<f64>> = vec![vec![1.0; bins]; frames];
    let mut s: Session<f64> = Session::new(f0, sp, ap, 50);
    s.handle(&vec![Key::P]);
    for _ in 0..3 {
        s.handle(&vec![Key::W]);
    }
    s.handle(&vec![Key::Enter]);
    assert!(s.f0().iter().all(|x| *x == 0));
    assert_eq!(s.f0().len(), frames);
    assert_eq!(s.spectral_envelope().len(), frames);
    assert!(s.spectral_envelope().iter().all(|r| r.len() == bins));
}
