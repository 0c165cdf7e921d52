//! The thread that runs the auto splitter.
//!
//! [`SplitterSetup`] leads through loading an auto splitter, [`SplitterThread`]
//! through running it. Both decide what is done next; the caller does it and
//! hands back what came of it.

use vstd::prelude::*;

use crate::settings::{
    SettingValueView, SettingsError, SettingsErrorView, SettingsMap, TomlValueView,
};
use crate::shared::SharedStateView;

verus! {

/// How the runtime is to be set up.
#[derive(Copy, Clone, Debug, PartialEq, Eq, Structural)]
pub struct RuntimeOptions {
    /// Generate debug information for the module.
    pub debug_info: bool,
    /// Optimize the module.
    pub optimize: bool,
    /// Collect details for backtraces.
    pub backtrace_details: bool,
}

/// Why an auto splitter could not be set up.
#[derive(Debug)]
pub enum SetupError {
    /// The module could not be read.
    ModuleUnreadable,
    /// The settings file could not be read.
    SettingsUnreadable,
    /// The settings file holds no settings.
    InvalidSettings(SettingsError),
    /// The module could not be compiled.
    CompileFailed,
    /// The module could not be started.
    InstantiateFailed,
}

/// What a [`SetupError`] says.
pub enum SetupErrorView {
    /// The module could not be read.
    ModuleUnreadable,
    /// The settings file could not be read.
    SettingsUnreadable,
    /// The settings file holds no settings.
    InvalidSettings(SettingsErrorView),
    /// The module could not be compiled.
    CompileFailed,
    /// The module could not be started.
    InstantiateFailed,
}

impl View for SetupError {
    type V = SetupErrorView;

    open spec fn view(&self) -> SetupErrorView {
        match self {
            SetupError::ModuleUnreadable => SetupErrorView::ModuleUnreadable,
            SetupError::SettingsUnreadable => SetupErrorView::SettingsUnreadable,
            SetupError::InvalidSettings(error) => SetupErrorView::InvalidSettings(error@),
            SetupError::CompileFailed => SetupErrorView::CompileFailed,
            SetupError::InstantiateFailed => SetupErrorView::InstantiateFailed,
        }
    }
}

impl SetupError {
    /// What the user is told about the step that failed. Errors about the
    /// settings speak for themselves.
    pub fn context(&self) -> (context: Option<&'static str>)
        ensures
            match self@ {
                SetupErrorView::ModuleUnreadable => context matches Some(text) && text@
                    == "Failed loading the auto splitter from the file system."@,
                SetupErrorView::SettingsUnreadable => context is None,
                SetupErrorView::InvalidSettings(_) => context is None,
                SetupErrorView::CompileFailed => context matches Some(text) && text@
                    == "Failed loading the auto splitter."@,
                SetupErrorView::InstantiateFailed => context matches Some(text) && text@
                    == "Failed starting the auto splitter."@,
            },
    {
        match self {
            SetupError::ModuleUnreadable => {
                Some("Failed loading the auto splitter from the file system.")
            },
            SetupError::SettingsUnreadable => None,
            SetupError::InvalidSettings(_) => None,
            SetupError::CompileFailed => Some("Failed loading the auto splitter."),
            SetupError::InstantiateFailed => Some("Failed starting the auto splitter."),
        }
    }
}

/// Where the setup is.
#[derive(Copy, Clone, Debug, PartialEq, Eq, Structural)]
pub enum SetupPhase {
    /// The module is being read.
    ReadingModule {
        /// There is a settings file to be read.
        has_settings: bool,
    },
    /// The settings file is being read.
    ReadingSettings,
    /// The module is being compiled.
    Compiling,
    /// The module is being started.
    Instantiating,
    /// The setup is over.
    Finished,
}

/// What came of what the setup asked for.
#[derive(Debug)]
pub enum SetupEvent {
    /// The module was read, or could not be.
    ModuleRead {
        /// The module was read.
        success: bool,
    },
    /// The settings file was read, or could not be.
    SettingsRead(Option<String>),
    /// The module was compiled, or could not be.
    Compiled {
        /// The module was compiled.
        success: bool,
    },
    /// The module was started, or could not be.
    Instantiated {
        /// The module was started.
        success: bool,
    },
}

/// What the setup asks for.
#[derive(Debug)]
pub enum SetupAction {
    /// Read the module.
    ReadModule,
    /// Read the settings file.
    ReadSettings,
    /// Compile the module.
    Compile(RuntimeOptions),
    /// Start the module with the settings.
    Instantiate,
    /// Run the auto splitter.
    Run,
    /// Give up.
    Fail(SetupError),
}

/// What a [`SetupAction`] says.
pub enum SetupActionView {
    /// Read the module.
    ReadModule,
    /// Read the settings file.
    ReadSettings,
    /// Compile the module.
    Compile(RuntimeOptions),
    /// Start the module with the settings.
    Instantiate,
    /// Run the auto splitter.
    Run,
    /// Give up.
    Fail(SetupErrorView),
}

impl View for SetupAction {
    type V = SetupActionView;

    open spec fn view(&self) -> SetupActionView {
        match self {
            SetupAction::ReadModule => SetupActionView::ReadModule,
            SetupAction::ReadSettings => SetupActionView::ReadSettings,
            SetupAction::Compile(options) => SetupActionView::Compile(*options),
            SetupAction::Instantiate => SetupActionView::Instantiate,
            SetupAction::Run => SetupActionView::Run,
            SetupAction::Fail(error) => SetupActionView::Fail(error@),
        }
    }
}

/// Whether an event is what the setup waits for.
pub open spec fn setup_accepts(phase: SetupPhase, event: SetupEvent) -> bool {
    match phase {
        SetupPhase::ReadingModule { .. } => event is ModuleRead,
        SetupPhase::ReadingSettings => event is SettingsRead,
        SetupPhase::Compiling => event is Compiled,
        SetupPhase::Instantiating => event is Instantiated,
        SetupPhase::Finished => false,
    }
}

/// Auto splitters are optimized, and run without debug information.
pub open spec fn runtime_options() -> RuntimeOptions {
    RuntimeOptions { debug_info: false, optimize: true, backtrace_details: false }
}

/// The setup and its settings.
pub struct SetupView {
    /// Where the setup is.
    pub phase: SetupPhase,
    /// The settings that have been read.
    pub settings: Seq<(Seq<char>, SettingValueView)>,
}

/// How the setup goes on after an event: the module is read, then the settings
/// file if there is one, then the module is compiled and started. The first
/// step that fails ends the setup.
///
/// `parsed` is what parsing the settings file gave, if it was read.
pub open spec fn setup_step(
    setup: SetupView,
    event: SetupEvent,
    parsed: Result<Seq<(Seq<char>, TomlValueView)>, Seq<char>>,
) -> (SetupView, SetupActionView) {
    let compile = SetupActionView::Compile(runtime_options());
    let (phase, action) = match event {
        SetupEvent::ModuleRead { success: false } => (
            SetupPhase::Finished,
            SetupActionView::Fail(SetupErrorView::ModuleUnreadable),
        ),
        SetupEvent::ModuleRead { success: true } => if setup.phase == (
        SetupPhase::ReadingModule { has_settings: true }) {
            (SetupPhase::ReadingSettings, SetupActionView::ReadSettings)
        } else {
            (SetupPhase::Compiling, compile)
        },
        SetupEvent::SettingsRead(None) => (
            SetupPhase::Finished,
            SetupActionView::Fail(SetupErrorView::SettingsUnreadable),
        ),
        SetupEvent::SettingsRead(Some(_)) => match crate::settings::loaded(
            setup.settings,
            parsed,
        ).1 {
            Ok(()) => (SetupPhase::Compiling, compile),
            Err(error) => (
                SetupPhase::Finished,
                SetupActionView::Fail(SetupErrorView::InvalidSettings(error)),
            ),
        },
        SetupEvent::Compiled { success: false } => (
            SetupPhase::Finished,
            SetupActionView::Fail(SetupErrorView::CompileFailed),
        ),
        SetupEvent::Compiled { success: true } => (
            SetupPhase::Instantiating,
            SetupActionView::Instantiate,
        ),
        SetupEvent::Instantiated { success: false } => (
            SetupPhase::Finished,
            SetupActionView::Fail(SetupErrorView::InstantiateFailed),
        ),
        SetupEvent::Instantiated { success: true } => (SetupPhase::Finished, SetupActionView::Run),
    };
    let settings = match event {
        SetupEvent::SettingsRead(Some(_)) => crate::settings::loaded(setup.settings, parsed).0,
        _ => setup.settings,
    };
    (SetupView { phase, settings }, action)
}

/// If a settings file was read, the parsed pairs are those of its text.
pub open spec fn is_parse_of(
    parsed: Result<Seq<(Seq<char>, TomlValueView)>, Seq<char>>,
    event: SetupEvent,
) -> bool {
    event matches SetupEvent::SettingsRead(Some(text)) ==> crate::settings::is_reading(
        parsed,
        crate::settings::toml_document(text@),
    )
}

/// Leads through loading an auto splitter.
#[derive(Debug)]
pub struct SplitterSetup {
    phase: SetupPhase,
    settings: SettingsMap,
}

impl View for SplitterSetup {
    type V = SetupView;

    closed spec fn view(&self) -> SetupView {
        SetupView { phase: self.phase, settings: self.settings@ }
    }
}

impl SplitterSetup {
    /// No setting occurs twice.
    pub open spec fn wf(self) -> bool {
        crate::settings::has_distinct_keys(self@.settings)
    }

    /// A setup without any settings yet. It first asks for the module.
    pub fn new(has_settings: bool) -> (started: (SplitterSetup, SetupAction))
        ensures
            started.0.wf(),
            started.0@.phase == (SetupPhase::ReadingModule { has_settings }),
            started.0@.settings.len() == 0,
            started.1@ == SetupActionView::ReadModule,
    {
        let setup = SplitterSetup {
            phase: SetupPhase::ReadingModule { has_settings },
            settings: SettingsMap::new(),
        };
        (setup, SetupAction::ReadModule)
    }

    /// Whether an event is what the setup waits for.
    pub fn accepts(&self, event: &SetupEvent) -> (accepted: bool)
        ensures
            accepted == setup_accepts(self@.phase, *event),
    {
        match (self.phase, event) {
            (SetupPhase::ReadingModule { .. }, SetupEvent::ModuleRead { .. }) => true,
            (SetupPhase::ReadingSettings, SetupEvent::SettingsRead(_)) => true,
            (SetupPhase::Compiling, SetupEvent::Compiled { .. }) => true,
            (SetupPhase::Instantiating, SetupEvent::Instantiated { .. }) => true,
            _ => false,
        }
    }

    /// Takes in what came of the last action, and says what to do next.
    pub fn step(&mut self, event: SetupEvent) -> (action: SetupAction)
        requires
            old(self).wf(),
            setup_accepts(old(self)@.phase, event),
        ensures
            final(self).wf(),
            exists|parsed: Result<Seq<(Seq<char>, TomlValueView)>, Seq<char>>|
                {
                    &&& #[trigger] is_parse_of(parsed, event)
                    &&& (final(self)@, action@) == setup_step(old(self)@, event, parsed)
                    &&& event is SettingsRead && old(self)@.settings.len() == 0 && action
                        is Compile ==> final(self)@.settings == crate::settings::settings_of(
                        parsed->Ok_0,
                    )
                },
            event matches SetupEvent::SettingsRead(Some(text)) ==> (action@, final(self)@.phase)
                == ({
                let (next, todo) = setup_step(
                    old(self)@,
                    event,
                    crate::settings::toml_document(text@),
                );
                (todo, next.phase)
            }),
    {
        let options = RuntimeOptions { debug_info: false, optimize: true, backtrace_details: false };
        let ghost given = event;
        proof {
            let nothing = Ok::<Seq<(Seq<char>, TomlValueView)>, Seq<char>>(seq![]);
            assert(!(given is SettingsRead && given->SettingsRead_0 is Some) ==> is_parse_of(
                nothing,
                given,
            ));
        }
        match event {
            SetupEvent::ModuleRead { success } => if !success {
                self.fail(SetupError::ModuleUnreadable)
            } else {
                match self.phase {
                    SetupPhase::ReadingModule { has_settings: true } => {
                        self.phase = SetupPhase::ReadingSettings;
                        SetupAction::ReadSettings
                    },
                    _ => {
                        self.phase = SetupPhase::Compiling;
                        SetupAction::Compile(options)
                    },
                }
            },
            SetupEvent::SettingsRead(text) => match text {
                None => self.fail(SetupError::SettingsUnreadable),
                Some(text) => {
                    let ghost before = self.settings@;
                    let result = SplitterThread::load_settings(text.as_str(), &mut self.settings);
                    proof {
                        let document = crate::settings::toml_document(text@);
                        let parsed = choose|
                            parsed: Result<Seq<(Seq<char>, TomlValueView)>, Seq<char>>,
                        |
                            {
                                &&& #[trigger] crate::settings::is_reading(parsed, document)
                                &&& self.settings@ == crate::settings::loaded(before, parsed).0
                                &&& before.len() == 0 && result is Ok ==> self.settings@
                                    == crate::settings::settings_of(parsed->Ok_0)
                            };
                        crate::settings::law_readings_agree(before, parsed, document);
                        assert(is_parse_of(parsed, given));
                    }
                    match result {
                        Ok(()) => {
                            self.phase = SetupPhase::Compiling;
                            SetupAction::Compile(options)
                        },
                        Err(error) => self.fail(SetupError::InvalidSettings(error)),
                    }
                },
            },
            SetupEvent::Compiled { success } => if success {
                self.phase = SetupPhase::Instantiating;
                SetupAction::Instantiate
            } else {
                self.fail(SetupError::CompileFailed)
            },
            SetupEvent::Instantiated { success } => if success {
                self.phase = SetupPhase::Finished;
                SetupAction::Run
            } else {
                self.fail(SetupError::InstantiateFailed)
            },
        }
    }

    /// Ends the setup.
    fn fail(&mut self, error: SetupError) -> (action: SetupAction)
        ensures
            final(self)@ == (SetupView { phase: SetupPhase::Finished, ..old(self)@ }),
            action@ == SetupActionView::Fail(error@),
    {
        self.phase = SetupPhase::Finished;
        SetupAction::Fail(error)
    }

    /// Hands out the settings that have been read, and keeps none.
    pub fn take_settings(&mut self) -> (settings: SettingsMap)
        requires
            old(self).wf(),
        ensures
            settings.wf(),
            settings@ == old(self)@.settings,
            final(self).wf(),
            final(self)@.phase == old(self)@.phase,
            final(self)@.settings.len() == 0,
    {
        let mut settings = SettingsMap::new();
        core::mem::swap(&mut settings, &mut self.settings);
        settings
    }
}

/// The longest time that can be slept, in nanoseconds.
pub const MAX_NANOS: u128 = 18_446_744_073_709_551_615_999_999_999;

/// A time to sleep.
#[derive(Copy, Clone, Debug, PartialEq, Eq, Structural)]
pub struct Pause {
    /// Whole seconds.
    pub seconds: u64,
    /// Nanoseconds past the whole seconds.
    pub nanoseconds: u32,
}

impl Pause {
    /// The length of the pause in nanoseconds.
    pub open spec fn nanos(self) -> int {
        self.seconds * 1_000_000_000 + self.nanoseconds
    }
}

/// Where the thread is.
#[derive(Copy, Clone, Debug, PartialEq, Eq, Structural)]
pub enum TickPhase {
    /// The auto splitter is being updated.
    Updating,
    /// The tick rate and the clock are being read.
    Measuring,
    /// The thread is sleeping.
    Sleeping,
    /// The thread is done.
    Stopped,
}

/// What came of what the thread asked for. Times are nanoseconds on a clock
/// that never goes back.
#[derive(Copy, Clone, Debug, PartialEq, Eq, Structural)]
pub enum TickEvent {
    /// The auto splitter was updated.
    Updated {
        /// The update failed.
        failed: bool,
        /// Commands still reach the timer.
        alive: bool,
    },
    /// The tick rate and the clock were read.
    Measured {
        /// The time between two updates.
        tick_rate: u128,
        /// The current time.
        now: u128,
    },
    /// The thread has slept.
    Slept,
}

/// What the thread asks for.
#[derive(Copy, Clone, Debug, PartialEq, Eq, Structural)]
pub enum TickAction {
    /// Update the auto splitter.
    Update,
    /// Read the tick rate, then the clock.
    Measure,
    /// Sleep.
    Sleep(Pause),
    /// End the thread.
    Stop,
}

/// The state of the thread.
pub struct TickView {
    /// Where the thread is.
    pub phase: TickPhase,
    /// When the auto splitter is due.
    pub next_tick: int,
}

/// Whether an event is what the thread waits for. The next update may not be
/// due later than time can tell.
pub open spec fn tick_accepts(thread: TickView, event: TickEvent) -> bool {
    match thread.phase {
        TickPhase::Updating => event is Updated,
        TickPhase::Measuring => event matches TickEvent::Measured { tick_rate, .. }
            && thread.next_tick + tick_rate <= MAX_NANOS,
        TickPhase::Sleeping => event is Slept,
        TickPhase::Stopped => false,
    }
}

/// When the update after the next is due: one tick later, or at once if that
/// is over already.
pub open spec fn next_deadline(next_tick: int, tick_rate: int, now: int) -> int {
    if now <= next_tick + tick_rate {
        next_tick + tick_rate
    } else {
        now
    }
}

/// What the thread asks for after an event, and its state then: an update ends
/// the thread if commands no longer reach the timer, whether the update failed
/// or not. Otherwise the thread sleeps until the next update is due, and if it
/// is overdue already goes on at once.
pub open spec fn is_tick_step(
    before: TickView,
    event: TickEvent,
    after: TickView,
    action: TickAction,
) -> bool {
    match event {
        TickEvent::Updated { alive, .. } => if alive {
            after == (TickView { phase: TickPhase::Measuring, ..before }) && action
                == TickAction::Measure
        } else {
            after == (TickView { phase: TickPhase::Stopped, ..before }) && action
                == TickAction::Stop
        },
        TickEvent::Measured { tick_rate, now } => {
            &&& after.next_tick == next_deadline(before.next_tick, tick_rate as int, now as int)
            &&& if now <= before.next_tick + tick_rate {
                &&& after.phase == TickPhase::Sleeping
                &&& action matches TickAction::Sleep(pause)
                &&& pause.nanos() == after.next_tick - now
                &&& pause.nanoseconds < 1_000_000_000
            } else {
                &&& after.phase == TickPhase::Updating
                &&& action == TickAction::Update
            }
        },
        TickEvent::Slept => after == (TickView { phase: TickPhase::Updating, ..before })
            && action == TickAction::Update,
    }
}

/// The thread that runs the auto splitter.
#[derive(Debug)]
pub struct SplitterThread {
    phase: TickPhase,
    next_tick: u128,
}

impl View for SplitterThread {
    type V = TickView;

    closed spec fn view(&self) -> TickView {
        TickView { phase: self.phase, next_tick: self.next_tick as int }
    }
}

impl SplitterThread {
    /// A thread whose auto splitter is due now. It first asks for an update.
    pub fn new(now: u128) -> (started: (SplitterThread, TickAction))
        ensures
            started.0@ == (TickView { phase: TickPhase::Updating, next_tick: now as int }),
            started.1 == TickAction::Update,
    {
        (SplitterThread { phase: TickPhase::Updating, next_tick: now }, TickAction::Update)
    }

    /// Whether an event is what the thread waits for.
    pub fn accepts(&self, event: &TickEvent) -> (accepted: bool)
        ensures
            accepted == tick_accepts(self@, *event),
    {
        match (self.phase, event) {
            (TickPhase::Updating, TickEvent::Updated { .. }) => true,
            (TickPhase::Measuring, TickEvent::Measured { tick_rate, .. }) => {
                self.next_tick <= MAX_NANOS && *tick_rate <= MAX_NANOS - self.next_tick
            },
            (TickPhase::Sleeping, TickEvent::Slept) => true,
            _ => false,
        }
    }

    /// Takes in what came of the last action, and says what to do next.
    pub fn step(&mut self, event: TickEvent) -> (action: TickAction)
        requires
            tick_accepts(old(self)@, event),
        ensures
            is_tick_step(old(self)@, event, final(self)@, action),
            action == TickAction::Update <==> final(self)@.phase == TickPhase::Updating,
            action == TickAction::Measure <==> final(self)@.phase == TickPhase::Measuring,
            action is Sleep <==> final(self)@.phase == TickPhase::Sleeping,
            action == TickAction::Stop <==> final(self)@.phase == TickPhase::Stopped,
    {
        match event {
            TickEvent::Updated { alive, .. } => if alive {
                self.phase = TickPhase::Measuring;
                TickAction::Measure
            } else {
                self.phase = TickPhase::Stopped;
                TickAction::Stop
            },
            TickEvent::Measured { tick_rate, now } => {
                self.next_tick = self.next_tick + tick_rate;
                if now <= self.next_tick {
                    let sleep_time: u128 = self.next_tick - now;
                    self.phase = TickPhase::Sleeping;
                    TickAction::Sleep(
                        Pause {
                            seconds: (sleep_time / 1_000_000_000) as u64,
                            nanoseconds: (sleep_time % 1_000_000_000) as u32,
                        },
                    )
                } else {
                    self.next_tick = now;
                    self.phase = TickPhase::Updating;
                    TickAction::Update
                }
            },
            TickEvent::Slept => {
                self.phase = TickPhase::Updating;
                TickAction::Update
            },
        }
    }
}

/// The event reports that a step of the setup failed.
pub open spec fn is_setup_failure(
    setup: SetupView,
    event: SetupEvent,
    parsed: Result<Seq<(Seq<char>, TomlValueView)>, Seq<char>>,
) -> bool {
    match event {
        SetupEvent::ModuleRead { success } => !success,
        SetupEvent::SettingsRead(None) => true,
        SetupEvent::SettingsRead(Some(_)) => crate::settings::loaded(
            setup.settings,
            parsed,
        ).1 is Err,
        SetupEvent::Compiled { success } => !success,
        SetupEvent::Instantiated { success } => !success,
    }
}

/// A setup fails exactly when one of its steps does. It is over when it has
/// failed, or when the auto splitter is to be run, and then waits for nothing.
pub proof fn law_setup_ends(
    setup: SetupView,
    event: SetupEvent,
    parsed: Result<Seq<(Seq<char>, TomlValueView)>, Seq<char>>,
    later: SetupEvent,
)
    requires
        setup_accepts(setup.phase, event),
    ensures
        setup_step(setup, event, parsed).1 is Fail <==> is_setup_failure(setup, event, parsed),
        setup_step(setup, event, parsed).1 == SetupActionView::Run <==> event
            == (SetupEvent::Instantiated { success: true }),
        setup_step(setup, event, parsed).0.phase == SetupPhase::Finished <==> {
            ||| setup_step(setup, event, parsed).1 is Fail
            ||| setup_step(setup, event, parsed).1 == SetupActionView::Run
        },
        !setup_accepts(SetupPhase::Finished, later),
{
}

/// The settings file is read exactly if there is one, after the module is.
pub proof fn law_settings_are_read_if_given(
    setup: SetupView,
    event: SetupEvent,
    parsed: Result<Seq<(Seq<char>, TomlValueView)>, Seq<char>>,
)
    requires
        setup_accepts(setup.phase, event),
    ensures
        setup_step(setup, event, parsed).1 == SetupActionView::ReadSettings <==> {
            &&& setup.phase == (SetupPhase::ReadingModule { has_settings: true })
            &&& event == (SetupEvent::ModuleRead { success: true })
        },
        !(event is SettingsRead) ==> setup_step(setup, event, parsed).0.settings == setup.settings,
{
}

/// When an update is due after a sequence of measurements, each of them the
/// tick rate and the time.
pub open spec fn deadline_after(next_tick: int, measured: Seq<(nat, int)>) -> int
    decreases measured.len(),
{
    if measured.len() == 0 {
        next_tick
    } else {
        let (tick_rate, now) = measured.last();
        next_deadline(deadline_after(next_tick, measured.drop_last()), tick_rate as int, now)
    }
}

/// The sum of the tick rates.
pub open spec fn total_ticks(measured: Seq<(nat, int)>) -> nat
    decreases measured.len(),
{
    if measured.len() == 0 {
        0
    } else {
        total_ticks(measured.drop_last()) + measured.last().0
    }
}

/// As long as no update is late, the deadlines do not drift: each is the start
/// plus the ticks since.
pub proof fn law_deadlines_do_not_drift(next_tick: int, measured: Seq<(nat, int)>)
    requires
        forall|i: int|
            0 <= i < measured.len() ==> (#[trigger] measured[i]).1 <= next_tick + total_ticks(
                measured.take(i + 1),
            ),
    ensures
        deadline_after(next_tick, measured) == next_tick + total_ticks(measured),
    decreases measured.len(),
{
    if measured.len() > 0 {
        let before = measured.drop_last();
        assert forall|i: int| 0 <= i < before.len() implies (#[trigger] before[i]).1 <= next_tick
            + total_ticks(before.take(i + 1)) by {
            assert(before.take(i + 1) =~= measured.take(i + 1));
            assert(before[i] == measured[i]);
        }
        law_deadlines_do_not_drift(next_tick, before);
        assert(measured[measured.len() - 1] == measured.last());
        assert(measured.take(measured.len() as int) =~= measured);
    }
}

/// A deadline is never before the time at which it was set, nor less than one
/// tick after the one before it. It is later than that only if that time was
/// over, and then it is the current time: missed updates are not made up for.
pub proof fn law_late_updates_are_not_made_up_for(next_tick: int, tick_rate: nat, now: int)
    ensures
        next_deadline(next_tick, tick_rate as int, now) >= now,
        next_deadline(next_tick, tick_rate as int, now) >= next_tick + tick_rate,
        next_deadline(next_tick, tick_rate as int, now) > next_tick + tick_rate ==> next_deadline(
            next_tick,
            tick_rate as int,
            now,
        ) == now,
{
}

/// A thread that has reached its deadline sleeps for at most one tick.
pub proof fn law_sleep_is_at_most_one_tick(
    before: TickView,
    tick_rate: u128,
    now: u128,
    after: TickView,
    pause: Pause,
)
    requires
        before.next_tick <= now,
        is_tick_step(
            before,
            (TickEvent::Measured { tick_rate, now }),
            after,
            TickAction::Sleep(pause),
        ),
    ensures
        pause.nanos() <= tick_rate,
{
}

/// After a command could not be handed to the websocket thread, the splitter
/// thread ends with the update that is under way, even if later ones could.
/// As long as all could be, it goes on, even if the update failed.
pub proof fn law_dead_connection_ends_the_thread(
    shared: SharedStateView,
    delivered: Seq<bool>,
    before: TickView,
    failed: bool,
    after: TickView,
    action: TickAction,
)
    requires
        shared.alive,
        is_tick_step(
            before,
            (TickEvent::Updated {
                failed,
                alive: crate::timer::deliveries(shared, delivered).alive,
            }),
            after,
            action,
        ),
    ensures
        action == TickAction::Stop <==> delivered.contains(false),
        after.phase == TickPhase::Stopped <==> delivered.contains(false),
{
    crate::timer::law_alive_until_first_failure(shared, delivered);
}

/// The tick rates and times among the events, in order.
pub open spec fn measurements(events: Seq<TickEvent>) -> Seq<(nat, int)>
    decreases events.len(),
{
    if events.len() == 0 {
        seq![]
    } else {
        let before = measurements(events.drop_last());
        match events.last() {
            TickEvent::Measured { tick_rate, now } => before.push((tick_rate as nat, now as int)),
            _ => before,
        }
    }
}

/// The thread goes through the states by the events, and asks for the actions.
pub open spec fn is_tick_run(
    states: Seq<TickView>,
    events: Seq<TickEvent>,
    actions: Seq<TickAction>,
) -> bool {
    &&& states.len() == events.len() + 1
    &&& actions.len() == events.len()
    &&& forall|i: int|
        0 <= i < events.len() ==> tick_accepts(states[i], #[trigger] events[i]) && is_tick_step(
            states[i],
            events[i],
            states[i + 1],
            actions[i],
        )
}

/// In every run, the deadline is the one that the measurements so far give.
pub proof fn law_deadline_follows_measurements(
    states: Seq<TickView>,
    events: Seq<TickEvent>,
    actions: Seq<TickAction>,
    k: int,
)
    requires
        is_tick_run(states, events, actions),
        0 <= k <= events.len(),
    ensures
        states[k].next_tick == deadline_after(
            states[0].next_tick,
            measurements(events.take(k)),
        ),
    decreases k,
{
    if k > 0 {
        law_deadline_follows_measurements(states, events, actions, k - 1);
        let event = events[k - 1];
        assert(events.take(k).drop_last() =~= events.take(k - 1));
        assert(events.take(k).last() == event);
        if let TickEvent::Measured { tick_rate, now } = event {
            let before = measurements(events.take(k - 1));
            assert(measurements(events.take(k)).drop_last() =~= before);
        }
    } else {
        assert(events.take(0) =~= seq![]);
    }
}

/// In every run, each measurement is answered as the deadline before it
/// demands. If one tick after that deadline is not over yet, the thread sleeps
/// for exactly the time that is left, and that is the next deadline. Otherwise
/// it does not sleep but updates at once, and the next deadline is now.
pub proof fn law_thread_keeps_the_pace(
    states: Seq<TickView>,
    events: Seq<TickEvent>,
    actions: Seq<TickAction>,
    k: int,
    tick_rate: u128,
    now: u128,
)
    requires
        is_tick_run(states, events, actions),
        0 <= k < events.len(),
        events[k] == (TickEvent::Measured { tick_rate, now }),
    ensures
        ({
            let deadline = deadline_after(states[0].next_tick, measurements(events.take(k)));
            if deadline + tick_rate >= now {
                &&& actions[k] matches TickAction::Sleep(pause)
                &&& pause.nanos() == deadline + tick_rate - now
                &&& states[k + 1].next_tick == deadline + tick_rate
            } else {
                &&& actions[k] == TickAction::Update
                &&& states[k + 1].next_tick == now
            }
        }),
{
    law_deadline_follows_measurements(states, events, actions, k);
}

/// In every run, the thread sleeps only after a measurement, and after an
/// update that found the connection alive it measures.
pub proof fn law_thread_sleeps_once_per_update(
    states: Seq<TickView>,
    events: Seq<TickEvent>,
    actions: Seq<TickAction>,
    k: int,
)
    requires
        is_tick_run(states, events, actions),
        0 <= k < events.len(),
    ensures
        actions[k] is Sleep ==> events[k] is Measured && (k + 1 < events.len() ==> events[k + 1]
            == TickEvent::Slept && actions[k + 1] == TickAction::Update),
        events[k] is Updated && k + 1 < events.len() ==> events[k + 1] is Measured,
{
}

/// Each action is what the state after it is about: the thread asks for an
/// update when it waits for one, for the clock when it waits for the time, and
/// so on.
pub proof fn law_tick_actions_fit_the_phase(
    before: TickView,
    event: TickEvent,
    after: TickView,
    action: TickAction,
)
    requires
        tick_accepts(before, event),
        is_tick_step(before, event, after, action),
    ensures
        action == TickAction::Update <==> after.phase == TickPhase::Updating,
        action == TickAction::Measure <==> after.phase == TickPhase::Measuring,
        action is Sleep <==> after.phase == TickPhase::Sleeping,
        action == TickAction::Stop <==> after.phase == TickPhase::Stopped,
{
}

/// An update is answered by whether commands still reach the timer, and by
/// nothing else: not by whether it failed, nor by when it was due. The deadline
/// stays.
pub proof fn law_updates_are_answered_by_the_connection(
    before: TickView,
    failed: bool,
    alive: bool,
    after: TickView,
    action: TickAction,
)
    requires
        is_tick_step(before, (TickEvent::Updated { failed, alive }), after, action),
    ensures
        alive ==> action == TickAction::Measure && after.phase == TickPhase::Measuring,
        !alive ==> action == TickAction::Stop && after.phase == TickPhase::Stopped,
        after.next_tick == before.next_tick,
{
}

/// After a sleep comes an update, and the deadline stays.
pub proof fn law_sleep_ends_in_an_update(before: TickView, after: TickView, action: TickAction)
    requires
        is_tick_step(before, TickEvent::Slept, after, action),
    ensures
        action == TickAction::Update,
        after.phase == TickPhase::Updating,
        after.next_tick == before.next_tick,
{
}

/// A measurement moves the deadline by one tick, or to now if that is over. Up
/// to the deadline the thread sleeps: the seconds and the nanoseconds of the
/// pause together lead from now to the deadline. If it is over, the thread does
/// not sleep.
pub proof fn law_sleep_leads_to_the_deadline(
    before: TickView,
    tick_rate: u128,
    now: u128,
    after: TickView,
    action: TickAction,
)
    requires
        is_tick_step(before, (TickEvent::Measured { tick_rate, now }), after, action),
    ensures
        before.next_tick + tick_rate >= now ==> {
            &&& after.next_tick == before.next_tick + tick_rate
            &&& after.phase == TickPhase::Sleeping
            &&& action matches TickAction::Sleep(pause)
            &&& now + pause.seconds * 1_000_000_000 + pause.nanoseconds == after.next_tick
            &&& pause.nanoseconds < 1_000_000_000
        },
        before.next_tick + tick_rate < now ==> {
            &&& after.next_tick == now
            &&& after.phase == TickPhase::Updating
            &&& action == TickAction::Update
        },
{
}

/// What a thread takes in: an update while it updates, the end of a sleep while
/// it sleeps, and while it measures every measurement after which the deadline
/// is no more than the largest number of seconds and nanoseconds. A thread that
/// is done takes in nothing.
pub proof fn law_what_a_thread_takes_in(thread: TickView, event: TickEvent)
    ensures
        thread.phase == TickPhase::Updating ==> (tick_accepts(thread, event) <==> event is Updated),
        thread.phase == TickPhase::Sleeping ==> (tick_accepts(thread, event) <==> event is Slept),
        thread.phase == TickPhase::Measuring ==> (tick_accepts(thread, event) <==> (
        event matches TickEvent::Measured { tick_rate, now } && thread.next_tick + tick_rate
            < 0x1_0000_0000_0000_0000 * 1_000_000_000)),
        thread.phase == TickPhase::Stopped ==> !tick_accepts(thread, event),
{
}

/// The state and the event decide what comes next.
pub proof fn law_steps_are_determined(
    before: TickView,
    event: TickEvent,
    after: TickView,
    action: TickAction,
    other_after: TickView,
    other_action: TickAction,
)
    requires
        is_tick_step(before, event, after, action),
        is_tick_step(before, event, other_after, other_action),
    ensures
        after == other_after,
        action == other_action,
{
}

/// In every run, every action asks for what the next event tells of, and an
/// update that found the connection alive is followed by a measurement, however
/// late it is.
pub proof fn law_events_answer_the_actions(
    states: Seq<TickView>,
    events: Seq<TickEvent>,
    actions: Seq<TickAction>,
    k: int,
)
    requires
        is_tick_run(states, events, actions),
        0 <= k < events.len(),
    ensures
        events[k] matches TickEvent::Updated { alive, .. } ==> (if alive {
            actions[k] == TickAction::Measure
        } else {
            actions[k] == TickAction::Stop && k + 1 == events.len()
        }),
        k + 1 < events.len() ==> {
            &&& actions[k] == TickAction::Update <==> events[k + 1] is Updated
            &&& actions[k] == TickAction::Measure <==> events[k + 1] is Measured
            &&& actions[k] is Sleep <==> events[k + 1] is Slept
            &&& actions[k] != TickAction::Stop
        },
{
    assert(is_tick_step(states[k], events[k], states[k + 1], actions[k]));
    if k + 1 < events.len() {
        assert(tick_accepts(states[k + 1], events[k + 1]));
    }
}

/// What the setup takes in: in each phase what the phase is about, whether it
/// went well or not.
pub proof fn law_what_a_setup_takes_in(has_settings: bool, event: SetupEvent)
    ensures
        setup_accepts((SetupPhase::ReadingModule { has_settings }), event) <==> event
            is ModuleRead,
        setup_accepts(SetupPhase::ReadingSettings, event) <==> event is SettingsRead,
        setup_accepts(SetupPhase::Compiling, event) <==> event is Compiled,
        setup_accepts(SetupPhase::Instantiating, event) <==> event is Instantiated,
        !setup_accepts(SetupPhase::Finished, event),
{
}

/// Each action of the setup is what the phase after it is about, and a module
/// is always compiled with optimizations, and without debug information and
/// backtraces.
pub proof fn law_setup_actions_fit_the_phase(
    setup: SetupView,
    event: SetupEvent,
    parsed: Result<Seq<(Seq<char>, TomlValueView)>, Seq<char>>,
)
    requires
        setup_accepts(setup.phase, event),
    ensures
        ({
            let (next, action) = setup_step(setup, event, parsed);
            &&& !(next.phase is ReadingModule) && action != SetupActionView::ReadModule
            &&& next.phase == SetupPhase::ReadingSettings <==> action
                == SetupActionView::ReadSettings
            &&& next.phase == SetupPhase::Compiling <==> action is Compile
            &&& next.phase == SetupPhase::Instantiating <==> action == SetupActionView::Instantiate
            &&& next.phase == SetupPhase::Finished <==> action is Fail || action
                == SetupActionView::Run
            &&& action matches SetupActionView::Compile(options) ==> !options.debug_info
                && options.optimize && !options.backtrace_details
        }),
{
}

/// A step of the setup that went well leads to the next: from the module to the
/// settings if there are any, from these to compiling, to starting, to running.
pub proof fn law_setup_goes_on(
    setup: SetupView,
    event: SetupEvent,
    parsed: Result<Seq<(Seq<char>, TomlValueView)>, Seq<char>>,
)
    requires
        setup_accepts(setup.phase, event),
    ensures
        ({
            let (next, action) = setup_step(setup, event, parsed);
            &&& event == (SetupEvent::ModuleRead { success: true }) && setup.phase == (
            SetupPhase::ReadingModule { has_settings: true }) ==> next.phase
                == SetupPhase::ReadingSettings
            &&& event == (SetupEvent::ModuleRead { success: true }) && setup.phase == (
            SetupPhase::ReadingModule { has_settings: false }) ==> next.phase
                == SetupPhase::Compiling
            &&& (event matches SetupEvent::SettingsRead(Some(_))) && crate::settings::loaded(
                setup.settings,
                parsed,
            ).1 is Ok ==> next.phase == SetupPhase::Compiling
            &&& event == (SetupEvent::Compiled { success: true }) ==> next.phase
                == SetupPhase::Instantiating
            &&& event == (SetupEvent::Instantiated { success: true }) ==> action
                == SetupActionView::Run
        }),
{
}

/// A step of the setup that failed is what the error tells of. An error about
/// the settings is the one that reading them gave.
pub proof fn law_setup_errors_name_the_step(
    setup: SetupView,
    event: SetupEvent,
    parsed: Result<Seq<(Seq<char>, TomlValueView)>, Seq<char>>,
    error: SettingsErrorView,
)
    requires
        setup_accepts(setup.phase, event),
    ensures
        ({
            let action = setup_step(setup, event, parsed).1;
            let refused = match parsed {
                Ok(pairs) => crate::settings::filled(setup.settings, pairs).1,
                Err(message) => Err(SettingsErrorView::Toml(message)),
            };
            &&& action == SetupActionView::Fail(SetupErrorView::ModuleUnreadable) <==> event == (
            SetupEvent::ModuleRead { success: false })
            &&& action == SetupActionView::Fail(SetupErrorView::SettingsUnreadable) <==> event
                == SetupEvent::SettingsRead(None)
            &&& action == SetupActionView::Fail(SetupErrorView::CompileFailed) <==> event == (
            SetupEvent::Compiled { success: false })
            &&& action == SetupActionView::Fail(SetupErrorView::InstantiateFailed) <==> event == (
            SetupEvent::Instantiated { success: false })
            &&& action == SetupActionView::Fail(SetupErrorView::InvalidSettings(error)) <==> (
            event matches SetupEvent::SettingsRead(Some(_))) && refused == Err::<(), _>(error)
        }),
{
}

/// Only reading the settings file changes the settings. They are then what the
/// pairs of the file make of those before; a text that is no document changes
/// none.
pub proof fn law_setup_settings_come_from_the_file(
    setup: SetupView,
    event: SetupEvent,
    parsed: Result<Seq<(Seq<char>, TomlValueView)>, Seq<char>>,
)
    requires
        setup_accepts(setup.phase, event),
    ensures
        ({
            let settings = setup_step(setup, event, parsed).0.settings;
            match (event, parsed) {
                (SetupEvent::SettingsRead(Some(_)), Ok(pairs)) => settings
                    == crate::settings::filled(setup.settings, pairs).0,
                _ => settings == setup.settings,
            }
        }),
{
}

/// What is said of errors and actions of the setup says all of them.
pub proof fn law_setup_views_keep_the_contents(error: SetupError, action: SetupAction)
    ensures
        match error {
            SetupError::ModuleUnreadable => error@ == SetupErrorView::ModuleUnreadable,
            SetupError::SettingsUnreadable => error@ == SetupErrorView::SettingsUnreadable,
            SetupError::InvalidSettings(e) => error@ == SetupErrorView::InvalidSettings(e@),
            SetupError::CompileFailed => error@ == SetupErrorView::CompileFailed,
            SetupError::InstantiateFailed => error@ == SetupErrorView::InstantiateFailed,
        },
        match action {
            SetupAction::ReadModule => action@ == SetupActionView::ReadModule,
            SetupAction::ReadSettings => action@ == SetupActionView::ReadSettings,
            SetupAction::Compile(options) => action@ == SetupActionView::Compile(options),
            SetupAction::Instantiate => action@ == SetupActionView::Instantiate,
            SetupAction::Run => action@ == SetupActionView::Run,
            SetupAction::Fail(e) => action@ == SetupActionView::Fail(e@),
        },
{
}

} // verus!
