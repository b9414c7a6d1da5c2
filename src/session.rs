//! The keyboard-driven editing session over one analysed clip.
//!
//! A [`Session`] holds the live representation, the snapshot taken right
//! after analysis, the editing parameters, the three preset flags and the
//! current mode. Each poll of the keyboard is handed to [`Session::handle`],
//! which updates the session and names the [`Action`] the caller performs
//! (printing a menu, resynthesis and playback, leaving the session).
use vstd::prelude::*;
use crate::params::{
    initial_parameters, parameters_valid, step_down, step_up, stepped_down, stepped_up,
    SessionParameters, MIN_RATIO, MIN_SPEED,
};
use crate::transform::{
    change_pitch, change_spectral_envelope, change_speed, constant_contour, matrix_view,
    scaled_contour, to_female, to_mosaic, to_robot, warped, FEMALE_ENVELOPE, FEMALE_PITCH,
    MIN_FRAME_PERIOD, MOSAIC_RATIO, ROBOT_F0,
};

verus! {

/// The keys the session reacts to; every other key is `Other`.
#[derive(Clone, Copy, Debug, PartialEq, Eq, Structural)]
pub enum Key {
    Space,
    P,
    O,
    I,
    V,
    W,
    S,
    Enter,
    Num1,
    Num2,
    Num3,
    Num4,
    R,
    Escape,
    Other,
}

/// Where the session stands: the main menu or one of the four editors.
#[derive(Clone, Copy, Debug, PartialEq, Eq, Structural)]
pub enum Mode {
    MainMenu,
    EditPitch,
    EditSpeed,
    EditEnvelope,
    EditVolume,
}

/// The three voice presets.
#[derive(Clone, Copy, Debug, PartialEq, Eq, Structural)]
pub enum Preset {
    Robot,
    Female,
    Mosaic,
}

/// What the caller does after a poll.
#[derive(Clone, Copy, Debug, PartialEq, Eq, Structural)]
pub enum Action {
    /// No recognised key: poll again.
    Nothing,
    /// An editor was opened: show its menu and its current value.
    Open(Mode),
    /// The editor's value was stepped (or the step refused): show the value.
    Show(Mode),
    /// The editor's value was applied: back at the main menu.
    Committed,
    /// Resynthesise the live representation and play it.
    Play,
    /// The preset was switched on.
    PresetOn(Preset),
    /// The preset was already on: nothing changed.
    PresetKept,
    /// The live representation is back to the analysed one.
    ResetDone,
    /// Leave the session and wait for the next recording.
    Finish,
}

/// The abstract state of a session.
pub struct SessionView<T> {
    pub f0: Seq<u64>,
    pub envelope: Seq<Seq<T>>,
    pub aperiodicity: Seq<Seq<T>>,
    pub frame_period: u64,
    pub original_f0: Seq<u64>,
    pub original_envelope: Seq<Seq<T>>,
    pub original_frame_period: u64,
    pub params: SessionParameters,
    pub robot: bool,
    pub female: bool,
    pub mosaic: bool,
    pub mode: Mode,
}

/// An editing session over one analysed clip.
pub struct Session<T> {
    f0: Vec<u64>,
    spectral_envelope: Vec<Vec<T>>,
    aperiodicity: Vec<Vec<T>>,
    frame_period: u64,
    original_f0: Vec<u64>,
    original_envelope: Vec<Vec<T>>,
    original_frame_period: u64,
    params: SessionParameters,
    robot: bool,
    female: bool,
    mosaic: bool,
    mode: Mode,
}

impl<T> View for Session<T> {
    type V = SessionView<T>;

    closed spec fn view(&self) -> SessionView<T> {
        SessionView {
            f0: self.f0@,
            envelope: matrix_view(self.spectral_envelope@),
            aperiodicity: matrix_view(self.aperiodicity@),
            frame_period: self.frame_period,
            original_f0: self.original_f0@,
            original_envelope: matrix_view(self.original_envelope@),
            original_frame_period: self.original_frame_period,
            params: self.params,
            robot: self.robot,
            female: self.female,
            mosaic: self.mosaic,
            mode: self.mode,
        }
    }
}

/// The key of a poll that saw exactly one key pressed; none otherwise.
pub open spec fn single_key(keys: Seq<Key>) -> Option<Key> {
    if keys.len() == 1 { Some(keys[0]) } else { None }
}

/// The key that switches a preset on.
pub open spec fn preset_key(p: Preset) -> Key {
    match p {
        Preset::Robot => Key::Num2,
        Preset::Female => Key::Num3,
        Preset::Mosaic => Key::Num4,
    }
}

/// Whether preset `p` is on in `v`.
pub open spec fn preset_on<T>(v: SessionView<T>, p: Preset) -> bool {
    match p {
        Preset::Robot => v.robot,
        Preset::Female => v.female,
        Preset::Mosaic => v.mosaic,
    }
}

/// A state that the session keeps throughout: the contour as long as the
/// analysed one, and parameters whose ratios can be applied.
pub open spec fn well_formed<T>(v: SessionView<T>) -> bool {
    &&& v.f0.len() == v.original_f0.len()
    &&& parameters_valid(v.params)
}

/// The state right after analysis gave `f0`, `envelope`, `aperiodicity`
/// and `frame_period`.
pub open spec fn analysed<T>(
    v: SessionView<T>,
    f0: Seq<u64>,
    envelope: Seq<Seq<T>>,
    aperiodicity: Seq<Seq<T>>,
    frame_period: u64,
) -> bool {
    v == (SessionView {
        f0,
        envelope,
        aperiodicity,
        frame_period,
        original_f0: f0,
        original_envelope: envelope,
        original_frame_period: frame_period,
        params: initial_parameters(frame_period),
        robot: false,
        female: false,
        mosaic: false,
        mode: Mode::MainMenu,
    })
}

/// `b` is `a` with the mode changed to `m`.
pub open spec fn moved_to<T>(a: SessionView<T>, b: SessionView<T>, m: Mode) -> bool {
    b == (SessionView { mode: m, ..a })
}

/// `b` is `a` with the parameters changed to `p`.
pub open spec fn edited<T>(a: SessionView<T>, b: SessionView<T>, p: SessionParameters) -> bool {
    b == (SessionView { params: p, ..a })
}

/// `b` is `a` with preset `p` applied. A preset that is already on changes
/// nothing. Otherwise the envelope is first taken back to the analysed one,
/// then the preset's operator runs and its flag is set.
pub open spec fn preset_applied<T>(a: SessionView<T>, b: SessionView<T>, p: Preset) -> bool {
    if preset_on(a, p) {
        b == a
    } else {
        match p {
            Preset::Robot => b == (SessionView {
                f0: constant_contour(a.f0.len(), ROBOT_F0),
                envelope: a.original_envelope,
                robot: true,
                ..a
            }),
            Preset::Female => b == (SessionView {
                f0: scaled_contour(a.f0, FEMALE_PITCH),
                envelope: warped(a.original_envelope, FEMALE_ENVELOPE as int),
                female: true,
                ..a
            }),
            Preset::Mosaic => b == (SessionView {
                f0: scaled_contour(a.f0, MOSAIC_RATIO),
                envelope: warped(a.original_envelope, MOSAIC_RATIO as int),
                mosaic: true,
                ..a
            }),
        }
    }
}

/// `b` is `a` with the live representation taken back to the analysed one
/// and every preset switched off; parameters and mode are kept.
pub open spec fn reset_applied<T>(a: SessionView<T>, b: SessionView<T>) -> bool {
    b == (SessionView {
        f0: a.original_f0,
        envelope: a.original_envelope,
        frame_period: a.original_frame_period,
        robot: false,
        female: false,
        mosaic: false,
        ..a
    })
}

/// `b` is `a` with the value of editor `m` applied and the main menu shown.
pub open spec fn committed<T>(a: SessionView<T>, b: SessionView<T>, m: Mode) -> bool {
    match m {
        Mode::EditPitch => b == (SessionView {
            f0: scaled_contour(a.f0, a.params.pitch_ratio),
            mode: Mode::MainMenu,
            ..a
        }),
        Mode::EditSpeed => b == (SessionView {
            frame_period: if a.params.speed >= MIN_FRAME_PERIOD {
                a.params.speed
            } else {
                a.frame_period
            },
            mode: Mode::MainMenu,
            ..a
        }),
        Mode::EditEnvelope => b == (SessionView {
            envelope: warped(a.envelope, a.params.spectral_ratio as int),
            mode: Mode::MainMenu,
            ..a
        }),
        _ => moved_to(a, b, Mode::MainMenu),
    }
}

/// The parameters after one step of editor `m`, up or down.
pub open spec fn stepped_parameters(p: SessionParameters, m: Mode, up: bool) -> SessionParameters {
    match m {
        Mode::EditPitch => SessionParameters {
            pitch_ratio: if up { stepped_up(p.pitch_ratio) } else { stepped_down(p.pitch_ratio, MIN_RATIO) },
            ..p
        },
        Mode::EditSpeed => SessionParameters {
            speed: if up { stepped_up(p.speed) } else { stepped_down(p.speed, MIN_SPEED) },
            ..p
        },
        Mode::EditEnvelope => SessionParameters {
            spectral_ratio: if up {
                stepped_up(p.spectral_ratio)
            } else {
                stepped_down(p.spectral_ratio, MIN_RATIO)
            },
            ..p
        },
        Mode::EditVolume => SessionParameters {
            volume: if up { stepped_up(p.volume) } else { stepped_down(p.volume, MIN_RATIO) },
            ..p
        },
        Mode::MainMenu => p,
    }
}

/// One poll in which `key` was the only key pressed (`None`: no key, or
/// several) takes the session from `a` to `b`.
pub open spec fn transition<T>(a: SessionView<T>, b: SessionView<T>, key: Option<Key>) -> bool {
    match a.mode {
        Mode::MainMenu => match key {
            Some(Key::P) => moved_to(a, b, Mode::EditPitch),
            Some(Key::O) => moved_to(a, b, Mode::EditSpeed),
            Some(Key::I) => moved_to(a, b, Mode::EditEnvelope),
            Some(Key::V) => moved_to(a, b, Mode::EditVolume),
            Some(Key::Num2) => preset_applied(a, b, Preset::Robot),
            Some(Key::Num3) => preset_applied(a, b, Preset::Female),
            Some(Key::Num4) => preset_applied(a, b, Preset::Mosaic),
            Some(Key::R) => reset_applied(a, b),
            _ => b == a,
        },
        _ => match key {
            Some(Key::W) => edited(a, b, stepped_parameters(a.params, a.mode, true)),
            Some(Key::S) => edited(a, b, stepped_parameters(a.params, a.mode, false)),
            Some(Key::Enter) => committed(a, b, a.mode),
            _ => b == a,
        },
    }
}

/// The action that a poll with `key` in state `a` names.
pub open spec fn action_for<T>(a: SessionView<T>, key: Option<Key>) -> Action {
    match a.mode {
        Mode::MainMenu => match key {
            Some(Key::P) => Action::Open(Mode::EditPitch),
            Some(Key::O) => Action::Open(Mode::EditSpeed),
            Some(Key::I) => Action::Open(Mode::EditEnvelope),
            Some(Key::V) => Action::Open(Mode::EditVolume),
            Some(Key::Num1) => Action::Play,
            Some(Key::Num2) => if a.robot { Action::PresetKept } else { Action::PresetOn(Preset::Robot) },
            Some(Key::Num3) => if a.female { Action::PresetKept } else { Action::PresetOn(Preset::Female) },
            Some(Key::Num4) => if a.mosaic { Action::PresetKept } else { Action::PresetOn(Preset::Mosaic) },
            Some(Key::R) => Action::ResetDone,
            Some(Key::Escape) => Action::Finish,
            _ => Action::Nothing,
        },
        _ => match key {
            Some(Key::W) => Action::Show(a.mode),
            Some(Key::S) => Action::Show(a.mode),
            Some(Key::Enter) => Action::Committed,
            _ => Action::Nothing,
        },
    }
}

/// Whether a poll asks for a new recording: the start key is among those pressed.
pub fn start_requested(keys: &Vec<Key>) -> (r: bool)
    ensures
        r == keys@.contains(Key::Space),
{
    let mut i: usize = 0;
    while i < keys.len()
        invariant
            0 <= i <= keys@.len(),
            forall|k: int| 0 <= k < i ==> keys@[k] != Key::Space,
        decreases keys@.len() - i,
    {
        if keys[i] == Key::Space {
            return true;
        }
        i = i + 1;
    }
    false
}

/// The only key pressed in a poll, if exactly one was.
pub fn pressed_key(keys: &Vec<Key>) -> (r: Option<Key>)
    ensures
        r == single_key(keys@),
{
    if keys.len() == 1 {
        Some(keys[0])
    } else {
        None
    }
}

/// A copy of `v`, element by element.
fn copy_row<T: Copy>(v: &Vec<T>) -> (r: Vec<T>)
    ensures
        r@ == v@,
{
    let mut out: Vec<T> = Vec::with_capacity(v.len());
    let mut i: usize = 0;
    while i < v.len()
        invariant
            0 <= i <= v@.len(),
            out@ == v@.subrange(0, i as int),
        decreases v@.len() - i,
    {
        out.push(v[i]);
        i = i + 1;
    }
    assert(out@ =~= v@);
    out
}

/// A copy of a matrix, row by row.
fn copy_matrix<T: Copy>(m: &Vec<Vec<T>>) -> (r: Vec<Vec<T>>)
    ensures
        matrix_view(r@) == matrix_view(m@),
{
    let mut out: Vec<Vec<T>> = Vec::with_capacity(m.len());
    let mut i: usize = 0;
    while i < m.len()
        invariant
            0 <= i <= m@.len(),
            out@.len() == i,
            forall|k: int| 0 <= k < i ==> out@[k]@ == m@[k]@,
        decreases m@.len() - i,
    {
        out.push(copy_row(&m[i]));
        i = i + 1;
    }
    assert(matrix_view(out@) =~= matrix_view(m@));
    out
}

impl<T: Copy> Session<T> {
    /// Whether the session's state is one it keeps throughout.
    pub open spec fn wf(&self) -> bool {
        well_formed(self@)
    }

    /// A session over a freshly analysed clip, at the main menu, with the
    /// analysis kept as the snapshot that a reset returns to.
    pub fn new(
        f0: Vec<u64>,
        spectral_envelope: Vec<Vec<T>>,
        aperiodicity: Vec<Vec<T>>,
        frame_period: u64,
    ) -> (r: Session<T>)
        ensures
            analysed(r@, f0@, matrix_view(spectral_envelope@), matrix_view(aperiodicity@), frame_period),
            r.wf(),
    {
        let original_f0 = copy_row(&f0);
        let original_envelope = copy_matrix(&spectral_envelope);
        Session {
            f0,
            spectral_envelope,
            aperiodicity,
            frame_period,
            original_f0,
            original_envelope,
            original_frame_period: frame_period,
            params: SessionParameters::new(frame_period),
            robot: false,
            female: false,
            mosaic: false,
            mode: Mode::MainMenu,
        }
    }

    /// The live contour, in millihertz.
    pub fn f0(&self) -> (r: &Vec<u64>)
        ensures
            r@ == self@.f0,
    {
        &self.f0
    }

    /// The live spectral envelope.
    pub fn spectral_envelope(&self) -> (r: &Vec<Vec<T>>)
        ensures
            matrix_view(r@) == self@.envelope,
    {
        &self.spectral_envelope
    }

    /// The aperiodicity, passed through untouched.
    pub fn aperiodicity(&self) -> (r: &Vec<Vec<T>>)
        ensures
            matrix_view(r@) == self@.aperiodicity,
    {
        &self.aperiodicity
    }

    /// The live frame period, in tenths of a millisecond.
    pub fn frame_period(&self) -> (r: u64)
        ensures
            r == self@.frame_period,
    {
        self.frame_period
    }

    /// The editing parameters.
    pub fn params(&self) -> (r: SessionParameters)
        ensures
            r == self@.params,
    {
        self.params
    }

    /// The current mode.
    pub fn mode(&self) -> (r: Mode)
        ensures
            r == self@.mode,
    {
        self.mode
    }

    /// Whether preset `p` is on.
    pub fn is_preset_on(&self, p: Preset) -> (r: bool)
        ensures
            r == preset_on(self@, p),
    {
        match p {
            Preset::Robot => self.robot,
            Preset::Female => self.female,
            Preset::Mosaic => self.mosaic,
        }
    }

    /// Takes the live representation back to the analysed one and switches
    /// every preset off. The editing parameters are kept.
    pub fn reset(&mut self)
        requires
            old(self).wf(),
        ensures
            reset_applied(old(self)@, final(self)@),
            final(self).wf(),
    {
        self.f0 = copy_row(&self.original_f0);
        self.spectral_envelope = copy_matrix(&self.original_envelope);
        self.frame_period = self.original_frame_period;
        self.robot = false;
        self.female = false;
        self.mosaic = false;
    }

    /// Switches preset `p` on, unless it is on already; returns whether it
    /// was applied now.
    pub fn apply_preset(&mut self, p: Preset) -> (applied: bool)
        requires
            old(self).wf(),
        ensures
            preset_applied(old(self)@, final(self)@, p),
            applied == !preset_on(old(self)@, p),
            final(self).wf(),
    {
        let on = match p {
            Preset::Robot => self.robot,
            Preset::Female => self.female,
            Preset::Mosaic => self.mosaic,
        };
        if on {
            return false;
        }
        let mut envelope = copy_matrix(&self.original_envelope);
        match p {
            Preset::Robot => {
                to_robot(&mut self.f0);
                self.robot = true;
            },
            Preset::Female => {
                to_female(&mut self.f0, &mut envelope);
                self.female = true;
            },
            Preset::Mosaic => {
                to_mosaic(&mut self.f0, &mut envelope);
                self.mosaic = true;
            },
        }
        self.spectral_envelope = envelope;
        true
    }

    /// Applies the value of the open editor and returns to the main menu.
    fn commit(&mut self)
        requires
            old(self).wf(),
            old(self)@.mode != Mode::MainMenu,
        ensures
            committed(old(self)@, final(self)@, old(self)@.mode),
            final(self).wf(),
    {
        match self.mode {
            Mode::EditPitch => change_pitch(&mut self.f0, self.params.pitch_ratio),
            Mode::EditSpeed => change_speed(&mut self.frame_period, self.params.speed),
            Mode::EditEnvelope => change_spectral_envelope(
                &mut self.spectral_envelope,
                self.params.spectral_ratio,
            ),
            _ => {},
        }
        self.mode = Mode::MainMenu;
    }

    /// Steps the value of the open editor one tenth up or down.
    fn step(&mut self, up: bool)
        requires
            old(self).wf(),
            old(self)@.mode != Mode::MainMenu,
        ensures
            edited(old(self)@, final(self)@, stepped_parameters(old(self)@.params, old(self)@.mode, up)),
            final(self).wf(),
    {
        match self.mode {
            Mode::EditPitch => {
                self.params.pitch_ratio = if up {
                    step_up(self.params.pitch_ratio)
                } else {
                    step_down(self.params.pitch_ratio, MIN_RATIO)
                };
            },
            Mode::EditSpeed => {
                self.params.speed = if up {
                    step_up(self.params.speed)
                } else {
                    step_down(self.params.speed, MIN_SPEED)
                };
            },
            Mode::EditEnvelope => {
                self.params.spectral_ratio = if up {
                    step_up(self.params.spectral_ratio)
                } else {
                    step_down(self.params.spectral_ratio, MIN_RATIO)
                };
            },
            _ => {
                self.params.volume = if up {
                    step_up(self.params.volume)
                } else {
                    step_down(self.params.volume, MIN_RATIO)
                };
            },
        }
    }

    /// Handles one poll of the keyboard, which saw `keys` pressed. Only a
    /// poll with exactly one key pressed is acted on.
    pub fn handle(&mut self, keys: &Vec<Key>) -> (r: Action)
        requires
            old(self).wf(),
        ensures
            transition(old(self)@, final(self)@, single_key(keys@)),
            r == action_for(old(self)@, single_key(keys@)),
            final(self).wf(),
    {
        let key = pressed_key(keys);
        match self.mode {
            Mode::MainMenu => match key {
                Some(Key::P) => {
                    self.mode = Mode::EditPitch;
                    Action::Open(Mode::EditPitch)
                },
                Some(Key::O) => {
                    self.mode = Mode::EditSpeed;
                    Action::Open(Mode::EditSpeed)
                },
                Some(Key::I) => {
                    self.mode = Mode::EditEnvelope;
                    Action::Open(Mode::EditEnvelope)
                },
                Some(Key::V) => {
                    self.mode = Mode::EditVolume;
                    Action::Open(Mode::EditVolume)
                },
                Some(Key::Num1) => Action::Play,
                Some(Key::Num2) => self.preset_action(Preset::Robot),
                Some(Key::Num3) => self.preset_action(Preset::Female),
                Some(Key::Num4) => self.preset_action(Preset::Mosaic),
                Some(Key::R) => {
                    self.reset();
                    Action::ResetDone
                },
                Some(Key::Escape) => Action::Finish,
                _ => Action::Nothing,
            },
            _ => match key {
                Some(Key::W) => {
                    let m = self.mode;
                    self.step(true);
                    Action::Show(m)
                },
                Some(Key::S) => {
                    let m = self.mode;
                    self.step(false);
                    Action::Show(m)
                },
                Some(Key::Enter) => {
                    self.commit();
                    Action::Committed
                },
                _ => Action::Nothing,
            },
        }
    }

    /// Applies preset `p` and names the matching action.
    fn preset_action(&mut self, p: Preset) -> (r: Action)
        requires
            old(self).wf(),
        ensures
            preset_applied(old(self)@, final(self)@, p),
            r == (if preset_on(old(self)@, p) { Action::PresetKept } else { Action::PresetOn(p) }),
            final(self).wf(),
    {
        if self.apply_preset(p) {
            Action::PresetOn(p)
        } else {
            Action::PresetKept
        }
    }
}

/// No poll changes the snapshot taken at analysis.
pub proof fn transition_keeps_snapshot<T>(a: SessionView<T>, b: SessionView<T>, key: Option<Key>)
    requires
        transition(a, b, key),
    ensures
        b.original_f0 == a.original_f0,
        b.original_envelope == a.original_envelope,
        b.original_frame_period == a.original_frame_period,
{
}

/// Along a run of polls, every state keeps the snapshot of the first.
pub proof fn run_keeps_snapshot<T>(trace: Seq<SessionView<T>>, keys: Seq<Option<Key>>, n: int)
    requires
        trace.len() == keys.len() + 1,
        0 <= n < trace.len(),
        forall|i: int| 0 <= i < keys.len() ==> transition(#[trigger] trace[i], trace[i + 1], keys[i]),
    ensures
        trace[n].original_f0 == trace[0].original_f0,
        trace[n].original_envelope == trace[0].original_envelope,
        trace[n].original_frame_period == trace[0].original_frame_period,
    decreases n,
{
    if n > 0 {
        run_keeps_snapshot(trace, keys, n - 1);
        transition_keeps_snapshot(trace[n - 1], trace[n], keys[n - 1]);
    }
}

/// After any run of polls, a reset brings back exactly the contour, the
/// envelope and the frame period that the run's first state holds as its
/// snapshot, and switches every preset off.
pub proof fn reset_restores_analysis<T>(trace: Seq<SessionView<T>>, keys: Seq<Option<Key>>)
    requires
        trace.len() == keys.len() + 1,
        keys.len() >= 1,
        forall|i: int| 0 <= i < keys.len() ==> transition(#[trigger] trace[i], trace[i + 1], keys[i]),
        trace[keys.len() - 1].mode == Mode::MainMenu,
        keys[keys.len() - 1] == Some(Key::R),
    ensures
        trace.last().f0 == trace[0].original_f0,
        trace.last().envelope == trace[0].original_envelope,
        trace.last().frame_period == trace[0].original_frame_period,
        !trace.last().robot && !trace.last().female && !trace.last().mosaic,
{
    let n = keys.len() - 1;
    run_keeps_snapshot(trace, keys, n);
    assert(transition(trace[n], trace[n + 1], keys[n]));
}

/// Pressing a preset's key a second time, with no reset between, changes
/// nothing.
pub proof fn preset_twice_changes_nothing<T>(
    a: SessionView<T>,
    b: SessionView<T>,
    c: SessionView<T>,
    p: Preset,
)
    requires
        a.mode == Mode::MainMenu,
        transition(a, b, Some(preset_key(p))),
        transition(b, c, Some(preset_key(p))),
    ensures
        c == b,
{
}

/// Robot, then reset, then robot again gives the contour that the first
/// robot gave.
pub proof fn robot_after_reset_repeats<T>(
    a: SessionView<T>,
    b: SessionView<T>,
    c: SessionView<T>,
    d: SessionView<T>,
)
    requires
        well_formed(a),
        a.mode == Mode::MainMenu,
        !a.robot,
        transition(a, b, Some(Key::Num2)),
        transition(b, c, Some(Key::R)),
        transition(c, d, Some(Key::Num2)),
    ensures
        d.f0 == b.f0,
{
}

} // verus!
