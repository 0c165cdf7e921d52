use asr_lso_bridge::splitter::{
    Pause, RuntimeOptions, SetupAction, SetupError, SetupEvent, TickAction, TickEvent, MAX_NANOS,
};
use asr_lso_bridge::{
    SettingsError, SharedState, SplitterSetup, SplitterThread, TimerState, WebsocketTimer,
};

const OPTIONS: RuntimeOptions =
    RuntimeOptions { debug_info: false, optimize: true, backtrace_details: false };

fn setup_step(setup: &mut SplitterSetup, event: SetupEvent) -> SetupAction {
    assert!(setup.accepts(&event));
    setup.step(event)
}

fn tick(thread: &mut SplitterThread, event: TickEvent) -> TickAction {
    assert!(thread.accepts(&event));
    thread.step(event)
}

#[test]
fn setup_without_settings() {
    let (mut setup, action) = SplitterSetup::new(false);
    assert!(matches!(action, SetupAction::ReadModule));
    let action = setup_step(&mut setup, SetupEvent::ModuleRead { success: true });
    assert!(matches!(action, SetupAction::Compile(options) if options == OPTIONS));
    let action = setup_step(&mut setup, SetupEvent::Compiled { success: true });
    assert!(matches!(action, SetupAction::Instantiate));
    assert!(setup.take_settings().into_entries().is_empty());
    let action = setup_step(&mut setup, SetupEvent::Instantiated { success: true });
    assert!(matches!(action, SetupAction::Run));
    assert!(!setup.accepts(&SetupEvent::Instantiated { success: true }));
}

#[test]
fn setup_with_settings() {
    let (mut setup, _) = SplitterSetup::new(true);
    let action = setup_step(&mut setup, SetupEvent::ModuleRead { success: true });
    assert!(matches!(action, SetupAction::ReadSettings));
    assert!(!setup.accepts(&SetupEvent::Compiled { success: true }));
    let text = "a = 1\nb = true\n".to_owned();
    let action = setup_step(&mut setup, SetupEvent::SettingsRead(Some(text)));
    assert!(matches!(action, SetupAction::Compile(options) if options == OPTIONS));
    let entries = setup.take_settings().into_entries();
    assert_eq!(entries.len(), 2);
    assert!(setup.take_settings().into_entries().is_empty());
}

#[test]
fn setup_fails_with_the_step_that_failed() {
    let (mut setup, _) = SplitterSetup::new(true);
    let action = setup_step(&mut setup, SetupEvent::ModuleRead { success: false });
    assert!(matches!(action, SetupAction::Fail(SetupError::ModuleUnreadable)));
    assert!(!setup.accepts(&SetupEvent::SettingsRead(None)));

    let (mut setup, _) = SplitterSetup::new(true);
    setup_step(&mut setup, SetupEvent::ModuleRead { success: true });
    let action = setup_step(&mut setup, SetupEvent::SettingsRead(None));
    assert!(matches!(action, SetupAction::Fail(SetupError::SettingsUnreadable)));

    let (mut setup, _) = SplitterSetup::new(true);
    setup_step(&mut setup, SetupEvent::ModuleRead { success: true });
    let action = setup_step(&mut setup, SetupEvent::SettingsRead(Some("a =".to_owned())));
    assert!(matches!(
        action,
        SetupAction::Fail(SetupError::InvalidSettings(SettingsError::Toml(_)))
    ));

    let (mut setup, _) = SplitterSetup::new(true);
    setup_step(&mut setup, SetupEvent::ModuleRead { success: true });
    let action = setup_step(&mut setup, SetupEvent::SettingsRead(Some("a = []".to_owned())));
    assert!(matches!(
        action,
        SetupAction::Fail(SetupError::InvalidSettings(SettingsError::Unsupported(_)))
    ));

    let (mut setup, _) = SplitterSetup::new(false);
    setup_step(&mut setup, SetupEvent::ModuleRead { success: true });
    let action = setup_step(&mut setup, SetupEvent::Compiled { success: false });
    assert!(matches!(action, SetupAction::Fail(SetupError::CompileFailed)));

    let (mut setup, _) = SplitterSetup::new(false);
    setup_step(&mut setup, SetupEvent::ModuleRead { success: true });
    setup_step(&mut setup, SetupEvent::Compiled { success: true });
    let action = setup_step(&mut setup, SetupEvent::Instantiated { success: false });
    assert!(matches!(action, SetupAction::Fail(SetupError::InstantiateFailed)));
}

#[test]
fn failures_are_explained() {
    assert_eq!(
        SetupError::ModuleUnreadable.context(),
        Some("Failed loading the auto splitter from the file system.")
    );
    assert_eq!(SetupError::SettingsUnreadable.context(), None);
    let invalid = SetupError::InvalidSettings(SettingsError::Unsupported("x".to_owned()));
    assert_eq!(invalid.context(), None);
    assert_eq!(SetupError::CompileFailed.context(), Some("Failed loading the auto splitter."));
    assert_eq!(SetupError::InstantiateFailed.context(), Some("Failed starting the auto splitter."));
}

#[test]
fn a_thread_on_time_does_not_drift() {
    let (mut thread, action) = SplitterThread::new(100);
    assert_eq!(action, TickAction::Update);
    for i in 1..=5_u64 {
        let event = TickEvent::Updated { failed: false, alive: true };
        assert_eq!(tick(&mut thread, event), TickAction::Measure);
        let now = 100 + 1_000 * (i as u128) - 400;
        let event = TickEvent::Measured { tick_rate: 1_000, now };
        let pause = Pause { seconds: 0, nanoseconds: 400 };
        assert_eq!(tick(&mut thread, event), TickAction::Sleep(pause));
        assert_eq!(tick(&mut thread, TickEvent::Slept), TickAction::Update);
    }
}

#[test]
fn deadlines_follow_the_measurements() {
    let (mut thread, _) = SplitterThread::new(10);
    let mut deadline: u128 = 10;
    for (tick_rate, now) in [(100_u128, 50_u128), (70, 180), (5, 400), (100, 450), (0, 501)] {
        tick(&mut thread, TickEvent::Updated { failed: false, alive: true });
        let action = tick(&mut thread, TickEvent::Measured { tick_rate, now });
        if deadline + tick_rate >= now {
            deadline += tick_rate;
            let pause = Pause { seconds: 0, nanoseconds: (deadline - now) as u32 };
            assert_eq!(action, TickAction::Sleep(pause));
            assert_eq!(tick(&mut thread, TickEvent::Slept), TickAction::Update);
        } else {
            deadline = now;
            assert_eq!(action, TickAction::Update);
        }
    }
    assert_eq!(deadline, 501);
}

#[test]
fn a_late_thread_goes_on_at_once() {
    let (mut thread, _) = SplitterThread::new(0);
    tick(&mut thread, TickEvent::Updated { failed: false, alive: true });
    let event = TickEvent::Measured { tick_rate: 1_000, now: 5_000 };
    assert_eq!(tick(&mut thread, event), TickAction::Update);
    tick(&mut thread, TickEvent::Updated { failed: false, alive: true });
    let event = TickEvent::Measured { tick_rate: 1_000, now: 5_250 };
    let pause = Pause { seconds: 0, nanoseconds: 750 };
    assert_eq!(tick(&mut thread, event), TickAction::Sleep(pause));
}

#[test]
fn a_deadline_that_is_now_means_no_wait() {
    let (mut thread, _) = SplitterThread::new(0);
    tick(&mut thread, TickEvent::Updated { failed: false, alive: true });
    let event = TickEvent::Measured { tick_rate: 1_000, now: 1_000 };
    let pause = Pause { seconds: 0, nanoseconds: 0 };
    assert_eq!(tick(&mut thread, event), TickAction::Sleep(pause));
}

#[test]
fn long_pauses_have_seconds() {
    let (mut thread, _) = SplitterThread::new(0);
    tick(&mut thread, TickEvent::Updated { failed: false, alive: true });
    let event = TickEvent::Measured { tick_rate: MAX_NANOS, now: 0 };
    let pause = Pause { seconds: u64::MAX, nanoseconds: 999_999_999 };
    assert_eq!(tick(&mut thread, event), TickAction::Sleep(pause));
    tick(&mut thread, TickEvent::Slept);
    tick(&mut thread, TickEvent::Updated { failed: false, alive: true });
    assert!(!thread.accepts(&TickEvent::Measured { tick_rate: 1, now: 0 }));
    assert!(thread.accepts(&TickEvent::Measured { tick_rate: 0, now: 0 }));
}

#[test]
fn a_failed_update_does_not_end_the_thread() {
    let (mut thread, _) = SplitterThread::new(0);
    let event = TickEvent::Updated { failed: true, alive: true };
    assert_eq!(tick(&mut thread, event), TickAction::Measure);
}

#[test]
fn a_dead_connection_ends_the_thread() {
    let mut shared = SharedState::new(TimerState::Running);
    WebsocketTimer::sent(&mut shared, false);
    WebsocketTimer::sent(&mut shared, true);
    let (mut thread, _) = SplitterThread::new(0);
    let event = TickEvent::Updated { failed: false, alive: shared.alive() };
    assert_eq!(tick(&mut thread, event), TickAction::Stop);
    assert!(!thread.accepts(&TickEvent::Updated { failed: false, alive: true }));
    assert!(!thread.accepts(&TickEvent::Slept));
}
