use vstd::prelude::*;
use log::LogLevel;
use crate::artifact::{extension_spec, library_prefix, locate_artifact, ArtifactPath, Platform};
use crate::builder::{arguments_spec, build_arguments, BuildProfile, BuildResult};
use crate::watcher::{change_seen, change_seen_spec, Timestamp};

verus! {

/// The name of the entry point that the built library exports.
pub const ENTRY_SYMBOL: &'static str = "dyn_func";

/// Where the reload cycle stands.
#[derive(Clone, Copy, Debug, PartialEq, Eq, Structural)]
pub enum Phase {
    /// No cycle is running; a `Start` begins one.
    Idle,
    /// The build tool runs.
    Building,
    /// The built library is being loaded.
    Loading,
    /// The library is loaded and its entry point is being called.
    Invoking,
    /// A build failed; the watched file's timestamp is being read.
    Capturing,
    /// Polling the watched file against the baseline.
    Waiting { baseline: Timestamp },
    /// A fatal error stopped the supervisor.
    Halted,
}

/// What the caller reports back after performing an action.
#[derive(Debug)]
pub enum Event {
    /// Begin a cycle.
    Start,
    /// The build tool exited.
    BuildFinished(BuildResult),
    /// The library was loaded.
    ModuleLoaded,
    /// The library could not be loaded.
    LoadFailed(String),
    /// The entry point ran and returned this.
    EntryReturned(Result<(), String>),
    /// The entry point could not be resolved.
    EntryMissing(String),
    /// The watched file's timestamp at the moment the wait began.
    BaselineCaptured(Timestamp),
    /// One poll after an interval: the timestamp, where it could be read.
    Polled(Option<Timestamp>),
}

/// What the caller is asked to do next.
#[derive(Debug)]
pub enum Action {
    /// Print a line at a level.
    Log(LogLevel, String),
    /// Run the build tool with these arguments.
    RunBuild(Vec<String>),
    /// Load the library at this path.
    Load(ArtifactPath),
    /// Resolve the entry point in the loaded library and call it.
    Invoke,
    /// Unload the loaded library.
    Unload,
    /// Read the watched file's timestamp.
    CaptureBaseline,
    /// Sleep one poll interval, then read the watched file's timestamp.
    SleepThenPoll,
    /// Stop the process with this message.
    Abort(String),
}

/// An action as a mathematical value.
pub enum ActionView {
    Log(LogLevel, Seq<char>),
    RunBuild(Seq<Seq<char>>),
    Load(Seq<char>, Seq<char>, Seq<char>),
    Invoke,
    Unload,
    CaptureBaseline,
    SleepThenPoll,
    Abort(Seq<char>),
}

impl View for Action {
    type V = ActionView;

    open spec fn view(&self) -> ActionView {
        match self {
            Action::Log(level, text) => ActionView::Log(*level, text@),
            Action::RunBuild(args) => ActionView::RunBuild(args@.map_values(|s: String| s@)),
            Action::Load(p) => ActionView::Load(p.directory@, p.stem@, p.extension@),
            Action::Invoke => ActionView::Invoke,
            Action::Unload => ActionView::Unload,
            Action::CaptureBaseline => ActionView::CaptureBaseline,
            Action::SleepThenPoll => ActionView::SleepThenPoll,
            Action::Abort(m) => ActionView::Abort(m@),
        }
    }
}

pub open spec fn building_line() -> Seq<char> {
    "Building project with `cargo build`"@
}

pub open spec fn calling_line() -> Seq<char> {
    "Calling `fn`: "@ + ENTRY_SYMBOL@
}

pub open spec fn waiting_line() -> Seq<char> {
    "waiting for changes"@
}

/// The phase after `event` arrives in `phase`. An event that does not belong
/// to the phase changes nothing.
pub open spec fn next_phase(phase: Phase, event: Event) -> Phase {
    match (phase, event) {
        (Phase::Idle, Event::Start) => Phase::Building,
        (Phase::Building, Event::BuildFinished(r)) => if r.succeeded {
            Phase::Loading
        } else {
            Phase::Capturing
        },
        (Phase::Loading, Event::ModuleLoaded) => Phase::Invoking,
        (Phase::Loading, Event::LoadFailed(_)) => Phase::Halted,
        (Phase::Invoking, Event::EntryReturned(_)) => Phase::Idle,
        (Phase::Invoking, Event::EntryMissing(_)) => Phase::Idle,
        (Phase::Capturing, Event::BaselineCaptured(t)) => Phase::Waiting { baseline: t },
        (Phase::Waiting { baseline }, Event::Polled(o)) => if change_seen_spec(baseline, o) {
            Phase::Building
        } else {
            phase
        },
        _ => phase,
    }
}

/// The actions that start a build.
pub open spec fn build_actions(profile: BuildProfile) -> Seq<ActionView> {
    seq![ActionView::Log(LogLevel::Info, building_line()), ActionView::RunBuild(arguments_spec(profile))]
}

/// The reload driver: the current phase and the fixed configuration.
#[derive(Debug)]
pub struct Driver {
    pub phase: Phase,
    pub profile: BuildProfile,
    /// The directory that holds the running executable.
    pub directory: String,
    /// The project's package name.
    pub package: String,
    pub platform: Platform,
}

impl Driver {
    /// The actions asked for when `event` arrives.
    pub open spec fn actions_spec(&self, event: Event) -> Seq<ActionView> {
        match (self.phase, event) {
            (Phase::Idle, Event::Start) => build_actions(self.profile),
            (Phase::Building, Event::BuildFinished(r)) => if r.succeeded {
                seq![
                    ActionView::Log(LogLevel::Info, calling_line()),
                    ActionView::Load(self.directory@, library_prefix() + self.package@, extension_spec(self.platform)),
                ]
            } else {
                seq![
                    ActionView::Log(LogLevel::Error, r.report_spec()[0]),
                    ActionView::Log(LogLevel::Error, r.report_spec()[1]),
                    ActionView::Log(LogLevel::Error, r.report_spec()[2]),
                    ActionView::Log(LogLevel::Info, waiting_line()),
                    ActionView::CaptureBaseline,
                ]
            },
            (Phase::Loading, Event::ModuleLoaded) => seq![ActionView::Invoke],
            (Phase::Loading, Event::LoadFailed(m)) => seq![ActionView::Abort(m@)],
            (Phase::Invoking, Event::EntryReturned(Ok(()))) => seq![ActionView::Unload],
            (Phase::Invoking, Event::EntryReturned(Err(m))) => seq![ActionView::Log(LogLevel::Error, m@), ActionView::Unload],
            (Phase::Invoking, Event::EntryMissing(m)) => seq![ActionView::Log(LogLevel::Error, m@), ActionView::Unload],
            (Phase::Capturing, Event::BaselineCaptured(_)) => seq![ActionView::SleepThenPoll],
            (Phase::Waiting { baseline }, Event::Polled(o)) => if change_seen_spec(baseline, o) {
                build_actions(self.profile)
            } else {
                seq![ActionView::SleepThenPoll]
            },
            _ => seq![],
        }
    }

    /// A driver at rest, before its first cycle.
    pub fn new(profile: BuildProfile, directory: String, package: String, platform: Platform) -> (r: Driver)
        ensures
            r.phase == Phase::Idle,
            r.profile == profile,
            r.directory == directory,
            r.package == package,
            r.platform == platform,
    {
        Driver { phase: Phase::Idle, profile, directory, package, platform }
    }

    fn start_build(&self) -> (r: Vec<Action>)
        ensures
            r@.map_values(|a: Action| a@) == build_actions(self.profile),
    {
        let mut r: Vec<Action> = Vec::new();
        r.push(Action::Log(LogLevel::Info, String::from_str("Building project with `cargo build`")));
        let args = build_arguments(self.profile);
        r.push(Action::RunBuild(args));
        assert(args@.map_values(|s: String| s@) =~= arguments_spec(self.profile));
        assert(r@.map_values(|a: Action| a@) =~= build_actions(self.profile));
        r
    }

    /// Takes one event: moves to the next phase and returns what to do.
    pub fn step(&mut self, event: Event) -> (r: Vec<Action>)
        ensures
            final(self).phase == next_phase(old(self).phase, event),
            final(self).profile == old(self).profile,
            final(self).directory == old(self).directory,
            final(self).package == old(self).package,
            final(self).platform == old(self).platform,
            r@.len() == old(self).actions_spec(event).len(),
            forall|i: int| 0 <= i < r@.len() ==> #[trigger] r@[i]@ == old(self).actions_spec(event)[i],
    {
        let ghost before = *self;
        let mut r: Vec<Action> = Vec::new();
        match (self.phase, event) {
            (Phase::Idle, Event::Start) => {
                r = self.start_build();
                self.phase = Phase::Building;
            },
            (Phase::Building, Event::BuildFinished(b)) => {
                if b.succeeded {
                    let line = String::from_str("Calling `fn`: ").concat(ENTRY_SYMBOL);
                    r.push(Action::Log(LogLevel::Info, line));
                    let path = locate_artifact(self.directory.as_str(), self.package.as_str(), self.platform);
                    r.push(Action::Load(path));
                    self.phase = Phase::Loading;
                } else {
                    let mut report = b.failure_report();
                    let err = report.pop().unwrap();
                    let out = report.pop().unwrap();
                    let status = report.pop().unwrap();
                    r.push(Action::Log(LogLevel::Error, status));
                    r.push(Action::Log(LogLevel::Error, out));
                    r.push(Action::Log(LogLevel::Error, err));
                    r.push(Action::Log(LogLevel::Info, String::from_str("waiting for changes")));
                    r.push(Action::CaptureBaseline);
                    self.phase = Phase::Capturing;
                }
            },
            (Phase::Loading, Event::ModuleLoaded) => {
                r.push(Action::Invoke);
                self.phase = Phase::Invoking;
            },
            (Phase::Loading, Event::LoadFailed(m)) => {
                r.push(Action::Abort(m));
                self.phase = Phase::Halted;
            },
            (Phase::Invoking, Event::EntryReturned(outcome)) => {
                match outcome {
                    Ok(()) => {},
                    Err(m) => {
                        r.push(Action::Log(LogLevel::Error, m));
                    },
                }
                r.push(Action::Unload);
                self.phase = Phase::Idle;
            },
            (Phase::Invoking, Event::EntryMissing(m)) => {
                r.push(Action::Log(LogLevel::Error, m));
                r.push(Action::Unload);
                self.phase = Phase::Idle;
            },
            (Phase::Capturing, Event::BaselineCaptured(t)) => {
                r.push(Action::SleepThenPoll);
                self.phase = Phase::Waiting { baseline: t };
            },
            (Phase::Waiting { baseline }, Event::Polled(o)) => {
                if change_seen(baseline, o) {
                    r = self.start_build();
                    self.phase = Phase::Building;
                } else {
                    r.push(Action::SleepThenPoll);
                }
            },
            _ => {},
        }
        assert(r@.map_values(|a: Action| a@) =~= before.actions_spec(event));
        assert forall|i: int| 0 <= i < r@.len() implies #[trigger] r@[i]@ == before.actions_spec(event)[i] by {
            assert(r@.map_values(|a: Action| a@)[i] == r@[i]@);
        }
        r
    }
}

} // verus!
