use nzxt_ctl::config::TempSource;
use nzxt_ctl::lcd_worker::{drain_step, supersedes, Command, DrainStep, EnableAction, TickAction, WorkerState};

#[test]
fn worker_opens_and_releases_with_the_setting() {
    let mut w: WorkerState<u32> = WorkerState::new();
    assert_eq!(w.tick(), TickAction::Nothing);
    assert!(matches!(w.set_enabled(true), EnableAction::Open));
    assert!(w.open_failed());
    assert!(!w.open_failed());
    assert_eq!(w.tick(), TickAction::Open);
    w.opened(7);
    assert_eq!(w.tick(), TickAction::Commit);
    assert!(matches!(w.set_enabled(true), EnableAction::Nothing));
    assert!(matches!(w.set_enabled(false), EnableAction::Release(7)));
    assert!(w.ctl.is_none());
}

#[test]
fn worker_renders_only_changed_readings() {
    let mut w: WorkerState<u32> = WorkerState::new();
    assert!(w.show(TempSource::Cpu, Some(41_000)).is_none());
    w.set_enabled(true);
    w.opened(1);
    let f = w.show(TempSource::Cpu, Some(41_000)).unwrap();
    assert_eq!(f.temp_udeg, Some(41_000_000));
    w.rendered(f.key);
    assert!(w.show(TempSource::Cpu, Some(41_400)).is_none());
    let f = w.show(TempSource::Liquid, Some(30_000)).unwrap();
    assert_eq!(f.temp_udeg, Some(30_000_000));
    w.device_failed();
    assert!(w.show(TempSource::Liquid, Some(30_000)).is_none());
}

#[test]
fn only_newer_readings_supersede_a_queued_show() {
    assert!(supersedes(&Command::Show { source: TempSource::Gpu, temp_mdeg: None }));
    assert!(!supersedes(&Command::SetEnabled(false)));
    assert!(!supersedes(&Command::Shutdown));
}

#[test]
fn draining_keeps_the_newest_show_and_holds_back_anything_else() {
    let old = Command::Show { source: TempSource::Cpu, temp_mdeg: Some(40_000) };
    let new = Command::Show { source: TempSource::Cpu, temp_mdeg: Some(41_000) };
    assert_eq!(drain_step(old, Some(new)), DrainStep::Continue(new));
    assert_eq!(drain_step(new, None), DrainStep::Run { cmd: new, held: None });
    assert_eq!(
        drain_step(new, Some(Command::SetEnabled(false))),
        DrainStep::Run { cmd: new, held: Some(Command::SetEnabled(false)) }
    );
    assert_eq!(
        drain_step(old, Some(Command::Shutdown)),
        DrainStep::Run { cmd: old, held: Some(Command::Shutdown) }
    );
}
