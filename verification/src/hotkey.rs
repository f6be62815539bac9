//! The global hotkey daemon: which key presses are the hotkey, how the
//! grabs and the event loop are judged, how the capture program is found
//! and started, and how long to wait for the X display.

use vstd::prelude::*;
use crate::text::{
    contains_str, contains_seq, trim_end_matches_str, trim_end_all, push_decimal, decimal,
    trim_whitespace, trimmed,
};

verus! {

/// The X modifier bit of the Shift key.
pub const SHIFT_MASK: u32 = 1;

/// The X modifier bit of Caps Lock.
pub const LOCK_MASK: u32 = 2;

/// The X modifier bit of the Control key.
pub const CONTROL_MASK: u32 = 4;

/// The X modifier bit of Num Lock.
pub const MOD2_MASK: u32 = 0x10;

/// The X modifier bit of Super.
pub const MOD4_MASK: u32 = 0x40;

/// The X modifier bit of ISO Level 3 (AltGr on some layouts).
pub const MOD5_MASK: u32 = 0x80;

/// The X state bits of the five mouse buttons.
pub const BUTTON_MASKS: u32 = 0x1F00;

/// Ctrl+Shift: the hotkey's modifiers.
pub const CTRL_SHIFT_MASK: u32 = 5;

/// State bits that must not stop a key press from being the hotkey: Num
/// Lock, Caps Lock, ISO Level 3 and held mouse buttons. Alt, Mod3 and Super
/// stay significant.
pub const IGNORABLE_STATE_MASK: u32 = 0x1F92;

/// How long the daemon waits for the X display at start-up, in seconds.
pub const DISPLAY_WAIT_TIMEOUT_SECS: u64 = 60;

/// The modifier combinations that are grabbed: Ctrl+Shift alone, with Num
/// Lock, with Caps Lock, and with both.
pub fn hotkey_modifiers() -> (r: [u32; 4])
    ensures
        r@ == seq![
            CTRL_SHIFT_MASK,
            CTRL_SHIFT_MASK | MOD2_MASK,
            CTRL_SHIFT_MASK | LOCK_MASK,
            CTRL_SHIFT_MASK | MOD2_MASK | LOCK_MASK,
        ],
{
    let r = [
        CTRL_SHIFT_MASK,
        CTRL_SHIFT_MASK | MOD2_MASK,
        CTRL_SHIFT_MASK | LOCK_MASK,
        CTRL_SHIFT_MASK | MOD2_MASK | LOCK_MASK,
    ];
    assert(r@ =~= seq![
        CTRL_SHIFT_MASK,
        CTRL_SHIFT_MASK | MOD2_MASK,
        CTRL_SHIFT_MASK | LOCK_MASK,
        CTRL_SHIFT_MASK | MOD2_MASK | LOCK_MASK,
    ]);
    r
}

/// A key press is the hotkey when it is the hotkey's key and, leaving out
/// the ignorable bits, exactly Ctrl and Shift are held.
pub open spec fn spec_is_hotkey_press(keycode: u32, state: u32, hotkey_keycode: u32) -> bool {
    keycode == hotkey_keycode && state & !IGNORABLE_STATE_MASK == CTRL_SHIFT_MASK
}

/// Whether a key press is Ctrl+Shift with the hotkey's key.
pub fn is_hotkey_press(keycode: u32, state: u32, hotkey_keycode: u32) -> (b: bool)
    ensures
        b == spec_is_hotkey_press(keycode, state, hotkey_keycode),
{
    keycode == hotkey_keycode && state & !IGNORABLE_STATE_MASK == CTRL_SHIFT_MASK
}

proof fn lemma_ignorable_bits(state: u32, extra: u32)
    by (bit_vector)
    requires
        extra & !0x1F92u32 == 0,
    ensures
        (state | extra) & !0x1F92u32 == state & !0x1F92u32,
{
}

proof fn lemma_super_bit(state: u32)
    by (bit_vector)
    ensures
        (state | 0x40u32) & !0x1F92u32 != 5u32,
{
}

/// Num Lock, Caps Lock, ISO Level 3 and held mouse buttons never change
/// whether a key press is the hotkey; Super held with it makes it another
/// combination.
pub proof fn lemma_hotkey_ignores_lock_and_button_bits(
    keycode: u32,
    state: u32,
    hotkey_keycode: u32,
    extra: u32,
)
    requires
        extra & !IGNORABLE_STATE_MASK == 0,
    ensures
        spec_is_hotkey_press(keycode, state | extra, hotkey_keycode) == spec_is_hotkey_press(
            keycode,
            state,
            hotkey_keycode,
        ),
        !spec_is_hotkey_press(keycode, state | MOD4_MASK, hotkey_keycode),
{
    lemma_ignorable_bits(state, extra);
    lemma_super_bit(state);
}

proof fn lemma_clean_state_bits(state: u32)
    by (bit_vector)
    ensures
        (state & !0x1F92u32 == 5u32) <==> (state & 4u32 != 0 && state & 1u32 != 0 && state
            & !(4u32 | 1u32 | 2u32 | 0x10u32 | 0x80u32 | 0x1F00u32) == 0),
{
}

/// The hotkey is Ctrl+Shift with the hotkey's key and nothing else that
/// counts: Control and Shift must both be held, and besides them only Num
/// Lock, Caps Lock, ISO Level 3 and held mouse buttons may be. Shift alone
/// (a capital letter), Ctrl alone, or either with Alt or Super is not the
/// hotkey.
pub proof fn lemma_hotkey_is_exactly_ctrl_shift(keycode: u32, state: u32, hotkey_keycode: u32)
    ensures
        spec_is_hotkey_press(keycode, state, hotkey_keycode) <==> {
            &&& keycode == hotkey_keycode
            &&& state & CONTROL_MASK != 0
            &&& state & SHIFT_MASK != 0
            &&& state & !(CONTROL_MASK | SHIFT_MASK | LOCK_MASK | MOD2_MASK | MOD5_MASK
                | BUTTON_MASKS) == 0
        },
{
    lemma_clean_state_bits(state);
}

/// What the daemon does with a hotkey press.
#[derive(Debug, Clone, Copy, PartialEq, Eq, Structural)]
pub enum PressAction {
    /// A capture is still running (a held key repeats, or a quick second
    /// press): the press is ignored.
    Ignore,
    /// Start the capture program; the press has taken the single-capture
    /// guard, which is released when the capture ends or cannot start.
    StartCapture,
}

/// What a hotkey press does, given the single-capture guard as the press
/// found it when it set the guard.
pub open spec fn press_decision(guard_was_set: bool) -> PressAction {
    if guard_was_set {
        PressAction::Ignore
    } else {
        PressAction::StartCapture
    }
}

/// Decides a hotkey press from the single-capture guard as the press found
/// it when it set the guard: at most one capture runs at a time.
pub fn press_action(guard_was_set: bool) -> (a: PressAction)
    ensures
        a == press_decision(guard_was_set),
{
    if guard_was_set {
        PressAction::Ignore
    } else {
        PressAction::StartCapture
    }
}

/// How the hotkey grabs went.
#[derive(Debug, Clone, Copy, PartialEq, Eq, Structural)]
pub enum GrabOutcome {
    /// Every combination was grabbed.
    AllGranted,
    /// Some combinations belong to another application; the hotkey may not
    /// work with Num Lock or Caps Lock on.
    Partial,
    /// Every combination belongs to another application.
    Conflict,
}

/// Judges the grabs from the number of X errors they caused: none is
/// success, one per combination or more is a conflict, anything between is
/// a partial grab.
pub fn grab_outcome(errors: usize, combinations: usize) -> (g: GrabOutcome)
    ensures
        errors == 0 ==> g == GrabOutcome::AllGranted,
        errors > 0 && errors >= combinations ==> g == GrabOutcome::Conflict,
        0 < errors < combinations ==> g == GrabOutcome::Partial,
{
    if errors == 0 {
        GrabOutcome::AllGranted
    } else if errors >= combinations {
        GrabOutcome::Conflict
    } else {
        GrabOutcome::Partial
    }
}

/// What a wait on the X connection came to.
#[derive(Debug, Clone, Copy, PartialEq, Eq, Structural)]
pub enum PollOutcome {
    /// Nothing arrived within the timeout.
    Timeout,
    /// The connection is readable (or events are already queued); whether
    /// it also reported a hang-up, an error or an invalid descriptor.
    Ready { hangup: bool },
    /// A signal interrupted the wait.
    Interrupted,
    /// The wait failed.
    Failed,
}

/// What the daemon's event loop does after a wait.
#[derive(Debug, Clone, Copy, PartialEq, Eq, Structural)]
pub enum PollDecision {
    /// Check the running flag and wait again.
    Continue,
    /// Handle every queued event.
    DrainEvents,
    /// Leave the loop: the connection is gone or the wait failed.
    Exit,
}

/// Decides what the event loop does after a wait on the X connection.
pub fn poll_decision(outcome: PollOutcome) -> (d: PollDecision)
    ensures
        d == match outcome {
            PollOutcome::Timeout => PollDecision::Continue,
            PollOutcome::Interrupted => PollDecision::Continue,
            PollOutcome::Ready { hangup } => if hangup {
                PollDecision::Exit
            } else {
                PollDecision::DrainEvents
            },
            PollOutcome::Failed => PollDecision::Exit,
        },
{
    match outcome {
        PollOutcome::Timeout => PollDecision::Continue,
        PollOutcome::Interrupted => PollDecision::Continue,
        PollOutcome::Ready { hangup } => if hangup {
            PollDecision::Exit
        } else {
            PollDecision::DrainEvents
        },
        PollOutcome::Failed => PollDecision::Exit,
    }
}

/// Why the hotkey listener stopped with an error.
#[derive(Debug)]
pub enum HotkeyError {
    /// Another application owns the hotkey: an expected condition, not a
    /// failure to restart on.
    Conflict,
    /// Any other failure.
    Other(String),
}

impl HotkeyError {
    /// The error's message.
    pub fn message(&self) -> (s: String)
        ensures
            match self {
                HotkeyError::Conflict => s@ == "hotkey already in use by another application"@,
                HotkeyError::Other(m) => s@ == m@,
            },
    {
        match self {
            HotkeyError::Conflict => String::from_str("hotkey already in use by another application"),
            HotkeyError::Other(m) => m.clone(),
        }
    }
}

// ─── Starting the capture program ────────────────────────────────────────

/// Where a hotkey-triggered start of the capture program stands.
#[derive(Debug)]
pub enum SpawnStage {
    /// Nothing tried yet.
    Start,
    /// The cached path was tried.
    TriedCached(String),
    /// The path was looked up again.
    Resolving,
    /// This freshly found path was tried.
    TriedResolved(String),
    /// Done.
    Finished,
}

/// What the last step of starting the capture program came to.
#[derive(Debug)]
pub enum SpawnEvent {
    /// The hotkey was pressed and no capture is running.
    Begin,
    /// Whether starting the program worked.
    Spawned { ok: bool },
    /// The program's path, if it could be found.
    Resolved { path: Option<String> },
}

/// What to do next to start the capture program.
#[derive(Debug)]
pub enum SpawnAction {
    /// Start the program at this path (with `--capture`).
    Spawn(String),
    /// Look the program's path up again.
    Resolve,
    /// Done: the path to keep for next time, and whether to release the
    /// single-capture guard because no capture is running.
    Done { cache: Option<String>, release_guard: bool },
}

/// Whether an event is one that the starter can receive where it stands.
pub open spec fn spawn_expects(stage: SpawnStage, event: SpawnEvent) -> bool {
    match stage {
        SpawnStage::Start => event is Begin,
        SpawnStage::TriedCached(_) => event is Spawned,
        SpawnStage::Resolving => event is Resolved,
        SpawnStage::TriedResolved(_) => event is Spawned,
        SpawnStage::Finished => false,
    }
}

/// One step of starting the capture program, as `spawn_capture` takes it:
/// from `stage`, with `cached` the path kept from before, `event` leads to
/// the stage `next` and the action `action`.
pub open spec fn spawn_step(
    stage: SpawnStage,
    cached: Option<String>,
    event: SpawnEvent,
    next: SpawnStage,
    action: SpawnAction,
) -> bool {
    match (stage, event) {
        (SpawnStage::Start, _) => match cached {
            Some(p) => {
                &&& (next matches SpawnStage::TriedCached(c) && c@ == p@)
                &&& (action matches SpawnAction::Spawn(q) && q@ == p@)
            },
            None => next is Resolving && action is Resolve,
        },
        (SpawnStage::TriedCached(p), SpawnEvent::Spawned { ok }) => if ok {
            &&& next is Finished
            &&& (action matches SpawnAction::Done { cache: Some(c), release_guard: false }
                && c@ == p@)
        } else {
            next is Resolving && action is Resolve
        },
        (SpawnStage::Resolving, SpawnEvent::Resolved { path }) => match path {
            Some(p) => {
                &&& (next matches SpawnStage::TriedResolved(q) && q@ == p@)
                &&& (action matches SpawnAction::Spawn(r) && r@ == p@)
            },
            None => next is Finished && action matches SpawnAction::Done {
                cache: None,
                release_guard: true,
            },
        },
        (SpawnStage::TriedResolved(p), SpawnEvent::Spawned { ok }) => if ok {
            &&& next is Finished
            &&& (action matches SpawnAction::Done { cache: Some(c), release_guard: false }
                && c@ == p@)
        } else {
            next is Finished && action matches SpawnAction::Done {
                cache: None,
                release_guard: true,
            }
        },
        _ => false,
    }
}

/// Decides the next step of starting the capture program: the cached path
/// first; if there is none or it fails, the path is looked up again and
/// tried once. The path that worked is kept for next time; when nothing
/// worked the cache is cleared and the guard released, so that the next
/// hotkey press is accepted at once.
pub fn spawn_capture(stage: &mut SpawnStage, cached: &Option<String>, event: SpawnEvent) -> (action:
    SpawnAction)
    requires
        spawn_expects(*old(stage), event),
    ensures
        spawn_step(*old(stage), *cached, event, *final(stage), action),
{
    let mut current = SpawnStage::Finished;
    std::mem::swap(stage, &mut current);
    match (current, event) {
        (SpawnStage::Start, _) => match cached {
            Some(p) => {
                *stage = SpawnStage::TriedCached(p.clone());
                SpawnAction::Spawn(p.clone())
            },
            None => {
                *stage = SpawnStage::Resolving;
                SpawnAction::Resolve
            },
        },
        (SpawnStage::TriedCached(p), SpawnEvent::Spawned { ok }) => {
            if ok {
                SpawnAction::Done { cache: Some(p), release_guard: false }
            } else {
                *stage = SpawnStage::Resolving;
                SpawnAction::Resolve
            }
        },
        (SpawnStage::Resolving, SpawnEvent::Resolved { path }) => match path {
            Some(p) => {
                let q = p.clone();
                *stage = SpawnStage::TriedResolved(p);
                SpawnAction::Spawn(q)
            },
            None => SpawnAction::Done { cache: None, release_guard: true },
        },
        (SpawnStage::TriedResolved(p), SpawnEvent::Spawned { ok }) => {
            if ok {
                SpawnAction::Done { cache: Some(p), release_guard: false }
            } else {
                SpawnAction::Done { cache: None, release_guard: true }
            }
        },
        _ => SpawnAction::Done { cache: None, release_guard: true },
    }
}

// ─── At most one capture at a time ───────────────────────────────────────

/// The daemon's single-capture guard as the hotkey listener sees it.
pub struct GuardState {
    /// Whether the guard is set.
    pub guard: bool,
    /// How many capture programs started by the listener are still running.
    pub alive: nat,
    /// The stage of a start under way, if one is.
    pub starting: Option<SpawnStage>,
}

/// What can happen to the guard.
pub enum GuardEvent {
    /// A hotkey press, handled between starts; the press sets the guard and
    /// `press_action` decides from the guard as it found it.
    Press,
    /// One step of a start under way: `spawn_capture` took `event` with the
    /// path `cached` and answered with `next` and `action`. A start that
    /// succeeded (`Spawned { ok: true }`) leaves one more capture running.
    Step { cached: Option<String>, event: SpawnEvent, next: SpawnStage, action: SpawnAction },
    /// A capture program exited; its waiting thread releases the guard.
    ChildExit,
}

/// The guard before any hotkey press: clear, nothing running or starting.
pub open spec fn guard_initial() -> GuardState {
    GuardState { guard: false, alive: 0, starting: None }
}

/// The moves of the guard: `t` may follow `s` by `e`, the decisions taken
/// as `press_action` and `spawn_capture` state them.
pub open spec fn guard_step(s: GuardState, e: GuardEvent, t: GuardState) -> bool {
    match e {
        GuardEvent::Press => {
            &&& s.starting is None
            &&& match press_decision(s.guard) {
                PressAction::Ignore => t == s,
                PressAction::StartCapture => t == GuardState {
                    guard: true,
                    alive: s.alive,
                    starting: Some(SpawnStage::Start),
                },
            }
        },
        GuardEvent::Step { cached, event, next, action } => {
            &&& s.starting matches Some(st)
            &&& spawn_expects(st, event)
            &&& spawn_step(st, cached, event, next, action)
            &&& t.alive == s.alive + (if event matches SpawnEvent::Spawned { ok: true } {
                1nat
            } else {
                0nat
            })
            &&& t.starting == (if action is Done { None } else { Some(next) })
            &&& t.guard == (if action matches SpawnAction::Done { release_guard: true, .. } {
                false
            } else {
                s.guard
            })
        },
        GuardEvent::ChildExit => {
            &&& s.alive > 0
            &&& t == GuardState { guard: false, alive: (s.alive - 1) as nat, starting: s.starting }
        },
    }
}

/// What every reachable state of the guard satisfies: at most one capture
/// runs, the guard is set while one runs or starts, and nothing runs while
/// a start is under way.
pub open spec fn guard_inv(s: GuardState) -> bool {
    &&& s.alive <= 1
    &&& s.alive == 1 ==> s.guard && s.starting is None
    &&& s.starting matches Some(st) ==> {
        &&& s.guard
        &&& s.alive == 0
        &&& !(st is Finished)
    }
}

/// Every move of the guard keeps its invariant.
pub proof fn lemma_guard_step_keeps_invariant(s: GuardState, e: GuardEvent, t: GuardState)
    requires
        guard_inv(s),
        guard_step(s, e, t),
    ensures
        guard_inv(t),
{
}

/// At most one capture program started by the listener runs at any time,
/// and a hotkey press while one runs starts nothing: over every run of
/// presses, start steps and exits from the initial guard.
pub proof fn lemma_single_capture(run: Seq<GuardState>, events: Seq<GuardEvent>)
    requires
        run.len() == events.len() + 1,
        run[0] == guard_initial(),
        forall|i: int| 0 <= i < events.len() ==> guard_step(run[i], #[trigger] events[i], run[i + 1]),
    ensures
        forall|i: int| 0 <= i < run.len() ==> (#[trigger] run[i]).alive <= 1,
        forall|i: int|
            0 <= i < events.len() && #[trigger] events[i] is Press && run[i].alive > 0 ==> run[i
                + 1] == run[i],
{
    lemma_guard_run_invariant(run, events, events.len() as int);
    assert forall|i: int| 0 <= i < run.len() implies (#[trigger] run[i]).alive <= 1 by {
        lemma_guard_run_invariant(run, events, i);
    }
    assert forall|i: int|
        0 <= i < events.len() && #[trigger] events[i] is Press && run[i].alive > 0 implies run[i
        + 1] == run[i] by {
        lemma_guard_run_invariant(run, events, i);
    }
}

/// The invariant holds after the first `n` moves of a run.
proof fn lemma_guard_run_invariant(run: Seq<GuardState>, events: Seq<GuardEvent>, n: int)
    requires
        run.len() == events.len() + 1,
        run[0] == guard_initial(),
        forall|i: int| 0 <= i < events.len() ==> guard_step(run[i], #[trigger] events[i], run[i + 1]),
        0 <= n < run.len(),
    ensures
        guard_inv(run[n]),
    decreases n,
{
    if n > 0 {
        lemma_guard_run_invariant(run, events, n - 1);
        lemma_guard_step_keeps_invariant(run[n - 1], events[n - 1], run[n]);
    }
}

// ─── Finding the capture program ─────────────────────────────────────────

/// What `String::from_utf8_lossy` returns: the bytes decoded as UTF-8, each
/// invalid sequence replaced by U+FFFD.
pub uninterp spec fn utf8_lossy(bytes: Seq<u8>) -> Seq<char>;

/// Calls `String::from_utf8_lossy` and takes the result as a `String`.
#[verifier::external_body]
fn decode_utf8_lossy(bytes: &[u8]) -> (r: String)
    ensures
        r@ == utf8_lossy(bytes@),
{
    String::from_utf8_lossy(bytes).into_owned()
}

/// The suffix that Linux adds to the path of a running program whose file
/// was replaced.
pub open spec fn deleted_suffix() -> Seq<char> {
    " (deleted)"@
}

/// A path is absolute when it starts at the root.
pub open spec fn is_absolute_path(p: Seq<char>) -> bool {
    p.len() > 0 && p[0] == '/'
}

/// `rel` appended to the directory `base`, with a separator between them
/// unless `base` is empty or already ends with one.
pub open spec fn join_path(base: Seq<char>, rel: Seq<char>) -> Seq<char> {
    if base.len() == 0 || base.last() == '/' {
        base + rel
    } else {
        base + "/"@ + rel
    }
}

/// The well-known install locations, in the order they are tried: the
/// user's `~/.local/bin`, then `/usr/bin` and `/usr/local/bin`.
pub open spec fn install_candidates_spec(home: Option<Seq<char>>) -> Seq<Seq<char>> {
    let system = seq!["/usr/bin/mintshot"@, "/usr/local/bin/mintshot"@];
    match home {
        Some(h) => seq![join_path(h, ".local/bin/mintshot"@)] + system,
        None => system,
    }
}

/// Appends `rel` to the directory `base`.
pub fn join_dir(base: &str, rel: &str) -> (r: String)
    ensures
        r@ == join_path(base@, rel@),
{
    let n = base.unicode_len();
    let mut r = String::from_str(base);
    if n > 0 && base.get_char(n - 1) != '/' {
        r.append("/");
    }
    r.append(rel);
    r
}

/// A list of strings taken as text.
pub open spec fn strings_view(v: Seq<String>) -> Seq<Seq<char>> {
    v.map_values(|s: String| s@)
}

/// What `{:?}` prints for a `Vec<PathBuf>` made from these paths: the list
/// in brackets, each path quoted and escaped as `Path`'s `Debug` does it.
pub uninterp spec fn path_list_debug(paths: Seq<Seq<char>>) -> Seq<char>;

/// Prints the paths as a `Vec<PathBuf>` with `{:?}`.
#[verifier::external_body]
fn format_path_list(paths: &Vec<String>) -> (r: String)
    ensures
        r@ == path_list_debug(strings_view(paths@)),
{
    let list: Vec<std::path::PathBuf> = paths.iter().map(std::path::PathBuf::from).collect();
    format!("{:?}", list)
}

/// The error when the capture program is nowhere to be found: the places
/// that were searched, the install locations listed as paths.
pub open spec fn not_found_message(cands: Seq<Seq<char>>) -> Seq<char> {
    "Cannot find mintshot executable. Tried: current_exe, argv[0], "@ + path_list_debug(cands)
        + ", $PATH"@
}

/// The well-known install locations of the capture program.
pub fn install_candidates(home: &Option<String>) -> (r: Vec<String>)
    ensures
        strings_view(r@) == install_candidates_spec(
            match home {
                Some(h) => Some(h@),
                None => None,
            },
        ),
{
    let mut r: Vec<String> = Vec::new();
    match home {
        Some(h) => r.push(join_dir(h.as_str(), ".local/bin/mintshot")),
        None => {},
    }
    r.push(String::from_str("/usr/bin/mintshot"));
    r.push(String::from_str("/usr/local/bin/mintshot"));
    let ghost hv = match home {
        Some(h) => Some(h@),
        None => None,
    };
    assert(strings_view(r@) =~= install_candidates_spec(hv));
    r
}

/// Where a search for the capture program stands.
#[derive(Debug)]
pub enum SearchStage {
    Start,
    /// Checking the path of the running program.
    CurrentExe,
    /// Checking that path without its " (deleted)" suffix.
    CleanedExe(String),
    /// Checking `argv[0]` as an absolute path.
    ArgvAbsolute,
    /// Waiting for `argv[0]` to be made absolute.
    ArgvCanonicalizing,
    /// Checking `argv[0]` made absolute.
    ArgvCanonical(String),
    /// Checking the install location with this index.
    Candidate(usize),
    /// Waiting for the output of `which mintshot`.
    Which,
    /// Checking the path that `which` printed.
    WhichPath(String),
    Finished,
}

/// What the last step of the search came to.
#[derive(Debug)]
pub enum SearchEvent {
    Begin,
    /// Whether the path checked last exists.
    Exists(bool),
    /// The absolute form of `argv[0]`, if it could be made.
    Canonicalized(Option<String>),
    /// The standard output of `which mintshot`, if it ran and succeeded.
    WhichOutput(Option<Vec<u8>>),
}

/// What to do next in the search.
#[derive(Debug)]
pub enum SearchAction {
    CheckExists(String),
    Canonicalize(String),
    RunWhich,
    /// The program is at this path.
    Found(String),
    /// The program was not found anywhere; the message says where it was
    /// looked for.
    NotFound(String),
}

/// The search's stage with its paths taken as text.
pub enum StageModel {
    Start,
    CurrentExe,
    CleanedExe(Seq<char>),
    ArgvAbsolute,
    ArgvCanonicalizing,
    ArgvCanonical(Seq<char>),
    Candidate(int),
    Which,
    WhichPath(Seq<char>),
    Finished,
}

/// A search action with its path taken as text.
pub enum ActionModel {
    CheckExists(Seq<char>),
    Canonicalize(Seq<char>),
    RunWhich,
    Found(Seq<char>),
    NotFound(Seq<char>),
}

pub open spec fn stage_model(s: SearchStage) -> StageModel {
    match s {
        SearchStage::Start => StageModel::Start,
        SearchStage::CurrentExe => StageModel::CurrentExe,
        SearchStage::CleanedExe(p) => StageModel::CleanedExe(p@),
        SearchStage::ArgvAbsolute => StageModel::ArgvAbsolute,
        SearchStage::ArgvCanonicalizing => StageModel::ArgvCanonicalizing,
        SearchStage::ArgvCanonical(p) => StageModel::ArgvCanonical(p@),
        SearchStage::Candidate(i) => StageModel::Candidate(i as int),
        SearchStage::Which => StageModel::Which,
        SearchStage::WhichPath(p) => StageModel::WhichPath(p@),
        SearchStage::Finished => StageModel::Finished,
    }
}

pub open spec fn action_model(a: SearchAction) -> ActionModel {
    match a {
        SearchAction::CheckExists(p) => ActionModel::CheckExists(p@),
        SearchAction::Canonicalize(p) => ActionModel::Canonicalize(p@),
        SearchAction::RunWhich => ActionModel::RunWhich,
        SearchAction::Found(p) => ActionModel::Found(p@),
        SearchAction::NotFound(m) => ActionModel::NotFound(m@),
    }
}

/// Checking the install locations from index `i` on, then `which`.
pub open spec fn candidate_phase(cands: Seq<Seq<char>>, i: int) -> (StageModel, ActionModel) {
    if 0 <= i < cands.len() {
        (StageModel::Candidate(i), ActionModel::CheckExists(cands[i]))
    } else {
        (StageModel::Which, ActionModel::RunWhich)
    }
}

/// Trying `argv[0]`: as is when it is absolute, made absolute when it
/// names a directory, and otherwise going on to the install locations.
pub open spec fn argv_phase(arg0: Option<Seq<char>>, cands: Seq<Seq<char>>) -> (
    StageModel,
    ActionModel,
) {
    match arg0 {
        Some(a) => if is_absolute_path(a) {
            (StageModel::ArgvAbsolute, ActionModel::CheckExists(a))
        } else {
            canonical_phase(a, cands)
        },
        None => candidate_phase(cands, 0),
    }
}

/// Making `argv[0]` absolute, when it holds a `/`.
pub open spec fn canonical_phase(a: Seq<char>, cands: Seq<Seq<char>>) -> (StageModel, ActionModel) {
    if contains_seq(a, "/"@) {
        (StageModel::ArgvCanonicalizing, ActionModel::Canonicalize(a))
    } else {
        candidate_phase(cands, 0)
    }
}

pub open spec fn opt_view(o: Option<String>) -> Option<Seq<char>> {
    match o {
        Some(s) => Some(s@),
        None => None,
    }
}

/// The next stage and action of the search for the capture program.
///
/// The places are tried in order: the running program's own path, then
/// that path without a " (deleted)" suffix (the program's file was
/// replaced by an upgrade), then `argv[0]`, then the install locations,
/// then `which mintshot`. The first path that exists is the answer.
pub open spec fn search_step(
    current_exe: Option<Seq<char>>,
    arg0: Option<Seq<char>>,
    cands: Seq<Seq<char>>,
    stage: StageModel,
    event: SearchEvent,
) -> (StageModel, ActionModel) {
    match (stage, event) {
        (StageModel::Start, _) => match current_exe {
            Some(p) => (StageModel::CurrentExe, ActionModel::CheckExists(p)),
            None => argv_phase(arg0, cands),
        },
        (StageModel::CurrentExe, SearchEvent::Exists(e)) => if e {
            (StageModel::Finished, ActionModel::Found(current_exe->0))
        } else {
            let c = trim_end_all(current_exe->0, deleted_suffix());
            (StageModel::CleanedExe(c), ActionModel::CheckExists(c))
        },
        (StageModel::CleanedExe(c), SearchEvent::Exists(e)) => if e {
            (StageModel::Finished, ActionModel::Found(c))
        } else {
            argv_phase(arg0, cands)
        },
        (StageModel::ArgvAbsolute, SearchEvent::Exists(e)) => if e {
            (StageModel::Finished, ActionModel::Found(arg0->0))
        } else {
            canonical_phase(arg0->0, cands)
        },
        (StageModel::ArgvCanonicalizing, SearchEvent::Canonicalized(abs)) => match abs {
            Some(p) => (StageModel::ArgvCanonical(p@), ActionModel::CheckExists(p@)),
            None => candidate_phase(cands, 0),
        },
        (StageModel::ArgvCanonical(p), SearchEvent::Exists(e)) => if e {
            (StageModel::Finished, ActionModel::Found(p))
        } else {
            candidate_phase(cands, 0)
        },
        (StageModel::Candidate(i), SearchEvent::Exists(e)) => if e {
            (StageModel::Finished, ActionModel::Found(cands[i]))
        } else {
            candidate_phase(cands, i + 1)
        },
        (StageModel::Which, SearchEvent::WhichOutput(out)) => match out {
            Some(bytes) => {
                let t = trimmed(utf8_lossy(bytes@));
                if t.len() > 0 {
                    (StageModel::WhichPath(t), ActionModel::CheckExists(t))
                } else {
                    (StageModel::Finished, ActionModel::NotFound(not_found_message(cands)))
                }
            },
            None => (StageModel::Finished, ActionModel::NotFound(not_found_message(cands))),
        },
        (StageModel::WhichPath(t), SearchEvent::Exists(e)) => if e {
            (StageModel::Finished, ActionModel::Found(t))
        } else {
            (StageModel::Finished, ActionModel::NotFound(not_found_message(cands)))
        },
        _ => (StageModel::Finished, ActionModel::NotFound(not_found_message(cands))),
    }
}

/// The search reports a path as found only right after asking whether that
/// very path exists and hearing that it does, and such an answer always
/// ends the search with that path. So it never reports a place that it
/// has not checked, or one that was reported missing.
pub proof fn lemma_found_is_the_path_just_checked(
    current_exe: Option<Seq<char>>,
    arg0: Option<Seq<char>>,
    cands: Seq<Seq<char>>,
    stage: StageModel,
    first: SearchEvent,
    second: SearchEvent,
)
    ensures
        ({
            let (s1, a1) = search_step(current_exe, arg0, cands, stage, first);
            let (s2, a2) = search_step(current_exe, arg0, cands, s1, second);
            &&& (a2 matches ActionModel::Found(p) ==> a1 == ActionModel::CheckExists(p) && second
                == SearchEvent::Exists(true))
            &&& second == SearchEvent::Exists(true) ==> (a1 matches ActionModel::CheckExists(p)
                ==> a2 == ActionModel::Found(p))
        }),
        stage is Start ==> !(search_step(current_exe, arg0, cands, stage, first).1 is Found),
{
}

/// Whether an event answers the search's last action.
pub open spec fn search_expects(stage: SearchStage, event: SearchEvent) -> bool {
    match stage {
        SearchStage::Start => event is Begin,
        SearchStage::ArgvCanonicalizing => event is Canonicalized,
        SearchStage::Which => event is WhichOutput,
        SearchStage::Finished => false,
        _ => event is Exists,
    }
}

/// A search for the capture program's path, for when the daemon has to
/// start it.
#[derive(Debug)]
pub struct ExecutableSearch {
    /// The path of the running program, if the system gave one.
    pub current_exe: Option<String>,
    /// The program's first argument, if any.
    pub arg0: Option<String>,
    /// The well-known install locations.
    pub candidates: Vec<String>,
    pub stage: SearchStage,
}

impl ExecutableSearch {
    pub open spec fn candidates_model(&self) -> Seq<Seq<char>> {
        strings_view(self.candidates@)
    }

    /// A search from these starting points; `home` is the user's home
    /// directory, if known.
    pub fn new(current_exe: Option<String>, arg0: Option<String>, home: Option<String>) -> (s: Self)
        ensures
            opt_view(s.current_exe) == opt_view(current_exe),
            opt_view(s.arg0) == opt_view(arg0),
            s.candidates_model() == install_candidates_spec(opt_view(home)),
            s.stage is Start,
    {
        let candidates = install_candidates(&home);
        ExecutableSearch { current_exe, arg0, candidates, stage: SearchStage::Start }
    }

    /// The end of a search that found nothing.
    fn not_found(&self) -> (a: SearchAction)
        ensures
            action_model(a) == ActionModel::NotFound(not_found_message(self.candidates_model())),
    {
        let mut m = String::from_str("Cannot find mintshot executable. Tried: current_exe, argv[0], ");
        let list = format_path_list(&self.candidates);
        m.append(list.as_str());
        m.append(", $PATH");
        SearchAction::NotFound(m)
    }

    fn candidate_phase(&mut self, i: usize) -> (a: SearchAction)
        ensures
            (stage_model(final(self).stage), action_model(a)) == candidate_phase(
                old(self).candidates_model(),
                i as int,
            ),
            opt_view(final(self).current_exe) == opt_view(old(self).current_exe),
            opt_view(final(self).arg0) == opt_view(old(self).arg0),
            final(self).candidates_model() == old(self).candidates_model(),
    {
        if i < self.candidates.len() {
            self.stage = SearchStage::Candidate(i);
            SearchAction::CheckExists(self.candidates[i].clone())
        } else {
            self.stage = SearchStage::Which;
            SearchAction::RunWhich
        }
    }

    fn canonical_phase(&mut self, a: String) -> (r: SearchAction)
        ensures
            (stage_model(final(self).stage), action_model(r)) == canonical_phase(
                a@,
                old(self).candidates_model(),
            ),
            opt_view(final(self).current_exe) == opt_view(old(self).current_exe),
            opt_view(final(self).arg0) == opt_view(old(self).arg0),
            final(self).candidates_model() == old(self).candidates_model(),
    {
        if contains_str(a.as_str(), "/") {
            self.stage = SearchStage::ArgvCanonicalizing;
            SearchAction::Canonicalize(a)
        } else {
            self.candidate_phase(0)
        }
    }

    fn argv_phase(&mut self) -> (r: SearchAction)
        ensures
            (stage_model(final(self).stage), action_model(r)) == argv_phase(
                opt_view(old(self).arg0),
                old(self).candidates_model(),
            ),
            opt_view(final(self).current_exe) == opt_view(old(self).current_exe),
            opt_view(final(self).arg0) == opt_view(old(self).arg0),
            final(self).candidates_model() == old(self).candidates_model(),
    {
        match &self.arg0 {
            Some(a) => {
                let a = a.clone();
                let n = a.unicode_len();
                if n > 0 && a.as_str().get_char(0) == '/' {
                    self.stage = SearchStage::ArgvAbsolute;
                    SearchAction::CheckExists(a)
                } else {
                    self.canonical_phase(a)
                }
            },
            None => self.candidate_phase(0),
        }
    }

    /// Decides the next step of the search from what the last one came to.
    pub fn step(&mut self, event: SearchEvent) -> (action: SearchAction)
        requires
            search_expects(old(self).stage, event),
            old(self).stage matches SearchStage::Candidate(i) ==> i < old(self).candidates@.len(),
            old(self).stage is CurrentExe ==> old(self).current_exe is Some,
            old(self).stage is ArgvAbsolute ==> old(self).arg0 is Some,
        ensures
            (stage_model(final(self).stage), action_model(action)) == search_step(
                opt_view(old(self).current_exe),
                opt_view(old(self).arg0),
                old(self).candidates_model(),
                stage_model(old(self).stage),
                event,
            ),
            opt_view(final(self).current_exe) == opt_view(old(self).current_exe),
            opt_view(final(self).arg0) == opt_view(old(self).arg0),
            final(self).candidates_model() == old(self).candidates_model(),
            final(self).stage matches SearchStage::Candidate(i) ==> i < final(self).candidates@.len(),
            final(self).stage is CurrentExe ==> final(self).current_exe is Some,
            final(self).stage is ArgvAbsolute ==> final(self).arg0 is Some,
    {
        let mut stage = SearchStage::Finished;
        std::mem::swap(&mut self.stage, &mut stage);
        match (stage, event) {
            (SearchStage::Start, _) => match &self.current_exe {
                Some(p) => {
                    let p = p.clone();
                    self.stage = SearchStage::CurrentExe;
                    SearchAction::CheckExists(p)
                },
                None => self.argv_phase(),
            },
            (SearchStage::CurrentExe, SearchEvent::Exists(e)) => {
                let p = match &self.current_exe {
                    Some(p) => p.clone(),
                    None => String::new(),
                };
                if e {
                    SearchAction::Found(p)
                } else {
                    let c = trim_end_matches_str(p.as_str(), " (deleted)");
                    let c2 = c.clone();
                    self.stage = SearchStage::CleanedExe(c);
                    SearchAction::CheckExists(c2)
                }
            },
            (SearchStage::CleanedExe(c), SearchEvent::Exists(e)) => {
                if e {
                    SearchAction::Found(c)
                } else {
                    self.argv_phase()
                }
            },
            (SearchStage::ArgvAbsolute, SearchEvent::Exists(e)) => {
                let a = match &self.arg0 {
                    Some(a) => a.clone(),
                    None => String::new(),
                };
                if e {
                    SearchAction::Found(a)
                } else {
                    self.canonical_phase(a)
                }
            },
            (SearchStage::ArgvCanonicalizing, SearchEvent::Canonicalized(abs)) => match abs {
                Some(p) => {
                    let q = p.clone();
                    self.stage = SearchStage::ArgvCanonical(p);
                    SearchAction::CheckExists(q)
                },
                None => self.candidate_phase(0),
            },
            (SearchStage::ArgvCanonical(p), SearchEvent::Exists(e)) => {
                if e {
                    SearchAction::Found(p)
                } else {
                    self.candidate_phase(0)
                }
            },
            (SearchStage::Candidate(i), SearchEvent::Exists(e)) => {
                let count = self.candidates.len();
                assert(i < count);
                if e {
                    SearchAction::Found(self.candidates[i].clone())
                } else {
                    self.candidate_phase(i + 1)
                }
            },
            (SearchStage::Which, SearchEvent::WhichOutput(out)) => match out {
                Some(bytes) => {
                    let text = decode_utf8_lossy(bytes.as_slice());
                    let t = trim_whitespace(text.as_str());
                    if t.unicode_len() > 0 {
                        let path = String::from_str(t);
                        let path2 = path.clone();
                        self.stage = SearchStage::WhichPath(path);
                        SearchAction::CheckExists(path2)
                    } else {
                        self.not_found()
                    }
                },
                None => self.not_found(),
            },
            (SearchStage::WhichPath(t), SearchEvent::Exists(e)) => {
                if e {
                    SearchAction::Found(t)
                } else {
                    self.not_found()
                }
            },
            _ => self.not_found(),
        }
    }
}

// ─── Waiting for the X display ───────────────────────────────────────────

/// What to log while waiting for the display.
#[derive(Debug, Clone, Copy, PartialEq, Eq, Structural)]
pub enum WaitLog {
    /// The first failed attempt: say that the daemon is waiting.
    FirstWait,
    /// Every tenth attempt: say that it is still waiting.
    StillWaiting,
    /// Nothing.
    Quiet,
}

/// What to do after a failed attempt to open the display.
#[derive(Debug, Clone, Copy, PartialEq, Eq, Structural)]
pub enum WaitDecision {
    /// The timeout has passed.
    GiveUp,
    /// Wait this long, then try again.
    Retry { wait_ms: u64, log: WaitLog },
}

/// The back-off after the `attempt`-th failed attempt: 100 ms, doubled
/// after each further failure, and never more than 2 s (100, 200, 400, 800,
/// 1600, 2000, 2000, ... ms).
pub open spec fn backoff_ms(attempt: u32) -> u64 {
    let doublings: nat = if attempt == 0 { 0 } else { (attempt - 1) as nat };
    let ms = 100 * vstd::arithmetic::power2::pow2(doublings);
    (if ms < 2000 { ms } else { 2000 }) as u64
}

/// What to log after the `attempt`-th failed attempt.
pub open spec fn wait_log(attempt: u32) -> WaitLog {
    if attempt == 1 {
        WaitLog::FirstWait
    } else if attempt % 10 == 0 {
        WaitLog::StillWaiting
    } else {
        WaitLog::Quiet
    }
}

/// Decides what follows the `attempt`-th failed attempt to open the
/// display, `elapsed_secs` seconds after the first.
pub fn wait_decision(attempt: u32, elapsed_secs: u64, timeout_secs: u64) -> (d: WaitDecision)
    ensures
        elapsed_secs >= timeout_secs ==> d == WaitDecision::GiveUp,
        elapsed_secs < timeout_secs ==> d == (WaitDecision::Retry {
            wait_ms: backoff_ms(attempt),
            log: wait_log(attempt),
        }),
{
    if elapsed_secs >= timeout_secs {
        return WaitDecision::GiveUp;
    }
    let log = if attempt == 1 {
        WaitLog::FirstWait
    } else if attempt % 10 == 0 {
        WaitLog::StillWaiting
    } else {
        WaitLog::Quiet
    };
    proof {
        vstd::arithmetic::power2::lemma2_to64();
        if attempt > 6 {
            vstd::arithmetic::power2::lemma_pow2_strictly_increases(5, (attempt - 1) as nat);
        }
    }
    let wait_ms: u64 = if attempt <= 1 {
        100
    } else if attempt == 2 {
        200
    } else if attempt == 3 {
        400
    } else if attempt == 4 {
        800
    } else if attempt == 5 {
        1600
    } else {
        2000
    };
    WaitDecision::Retry { wait_ms, log }
}

/// The error when the display never became available.
pub fn display_wait_error(timeout_secs: u64, attempts: u32, display_env: &str) -> (s: String)
    ensures
        s@ == "X display not available after "@ + decimal(timeout_secs as nat)
            + " seconds (attempts: "@ + decimal(attempts as nat) + "). DISPLAY="@ + display_env@
            + ". Is the X server running?"@,
{
    let mut s = String::from_str("X display not available after ");
    push_decimal(&mut s, timeout_secs);
    s.append(" seconds (attempts: ");
    push_decimal(&mut s, attempts as u64);
    s.append("). DISPLAY=");
    s.append(display_env);
    s.append(". Is the X server running?");
    s
}

} // verus!
