//! The rebuild watcher's classification and dedup logic, the module
//! loader's state machine, and the reload controller.

use fk::imports::{load_audio_asset, spawn_empty, Host};
use fk::loader::{FrameDispatch, ModuleState};
use fk::reload::{
    classify_build_output, handle_message, log_mentions_recompiling, BuildOutcome,
    LiveReloadMessage, WatcherState,
};
use fk::store::SceneStore;

#[test]
fn classification_follows_exit_status_and_marker() {
    assert_eq!(
        classify_build_output(false, b"anything at all"),
        BuildOutcome::BuildFailed
    );
    assert_eq!(
        classify_build_output(false, b"   Compiling game v0.1.0"),
        BuildOutcome::BuildFailed
    );
    assert_eq!(
        classify_build_output(true, b"   Compiling game v0.1.0\n    Finished dev"),
        BuildOutcome::RebuildSucceeded
    );
    assert_eq!(
        classify_build_output(true, b"    Finished dev [unoptimized]"),
        BuildOutcome::NoChange
    );
    assert_eq!(classify_build_output(true, b""), BuildOutcome::NoChange);
}

#[test]
fn marker_search_finds_it_anywhere() {
    assert!(log_mentions_recompiling(b"Compiling"));
    assert!(log_mentions_recompiling(b"xxCompiling"));
    assert!(log_mentions_recompiling(b"Compilingxx"));
    assert!(!log_mentions_recompiling(b"Compilin"));
    assert!(!log_mentions_recompiling(b"compiling"));
    assert!(!log_mentions_recompiling(b""));
    assert!(!log_mentions_recompiling(b"CoCompilinCo"));
}

#[test]
fn failure_streak_is_reported_once() {
    let mut w = WatcherState::new();
    assert_eq!(
        w.observe(BuildOutcome::BuildFailed),
        Some(LiveReloadMessage::BuildFailure)
    );
    assert_eq!(w.observe(BuildOutcome::BuildFailed), None);
    assert_eq!(w.observe(BuildOutcome::BuildFailed), None);
    assert_eq!(
        w.observe(BuildOutcome::RebuildSucceeded),
        Some(LiveReloadMessage::Success)
    );
    assert_eq!(
        w.observe(BuildOutcome::BuildFailed),
        Some(LiveReloadMessage::BuildFailure)
    );
}

#[test]
fn no_change_is_silent_and_keeps_the_streak() {
    let mut w = WatcherState::new();
    assert_eq!(w.observe(BuildOutcome::NoChange), None);
    assert_eq!(
        w.observe(BuildOutcome::BuildFailed),
        Some(LiveReloadMessage::BuildFailure)
    );
    assert_eq!(w.observe(BuildOutcome::NoChange), None);
    // the streak survives a silent poll
    assert_eq!(w.observe(BuildOutcome::BuildFailed), None);
}

#[test]
fn every_success_is_reported() {
    let mut w = WatcherState::new();
    assert_eq!(
        w.observe(BuildOutcome::RebuildSucceeded),
        Some(LiveReloadMessage::Success)
    );
    assert_eq!(
        w.observe(BuildOutcome::RebuildSucceeded),
        Some(LiveReloadMessage::Success)
    );
}

#[test]
fn loader_state_machine() {
    let mut m = ModuleState::new();
    assert_eq!(m, ModuleState::Unloaded);
    m.load();
    assert_eq!(m, ModuleState::Loaded { setup_called: false });
    m.unload();
    assert_eq!(m, ModuleState::Unloaded);
    // unloading with nothing live is a no-op
    m.unload();
    assert_eq!(m, ModuleState::Unloaded);
}

#[test]
fn setup_is_dispatched_exactly_once_per_load() {
    let mut m = ModuleState::Unloaded;
    assert_eq!(
        m.frame_dispatch(),
        FrameDispatch { run_setup: false, run_update: false }
    );
    m.load();
    assert_eq!(
        m.frame_dispatch(),
        FrameDispatch { run_setup: true, run_update: true }
    );
    assert_eq!(
        m.frame_dispatch(),
        FrameDispatch { run_setup: false, run_update: true }
    );
    m.unload();
    m.load();
    assert_eq!(
        m.frame_dispatch(),
        FrameDispatch { run_setup: true, run_update: true }
    );
}

#[test]
fn rebuild_success_resets_everything() {
    let mut host = Host::new(SceneStore::new());
    host.lend().unwrap();
    spawn_empty(&mut host).unwrap();
    spawn_empty(&mut host).unwrap();
    load_audio_asset(&mut host, "sounds/a.wav").unwrap();
    host.reclaim().unwrap();
    let mut module = ModuleState::Loaded { setup_called: true };
    handle_message(LiveReloadMessage::Success, &mut module, &mut host);
    assert_eq!(module, ModuleState::Loaded { setup_called: false });
    assert_eq!(host.store_ref().num_entities(), 0);
    assert_eq!(host.registry.num_live(), 0);
    // ids are not reused after the reset
    host.lend().unwrap();
    let e = spawn_empty(&mut host).unwrap();
    assert_eq!(e, fk::abi::Entity(2));
    host.reclaim().unwrap();
}

#[test]
fn build_failure_idles_the_host() {
    let mut host = Host::new(SceneStore::new());
    host.lend().unwrap();
    spawn_empty(&mut host).unwrap();
    host.reclaim().unwrap();
    let mut module = ModuleState::Loaded { setup_called: true };
    handle_message(LiveReloadMessage::BuildFailure, &mut module, &mut host);
    assert_eq!(module, ModuleState::Unloaded);
    // the scene is kept; only the module goes away
    assert_eq!(host.store_ref().num_entities(), 1);
    assert_eq!(
        module.frame_dispatch(),
        FrameDispatch { run_setup: false, run_update: false }
    );
}
