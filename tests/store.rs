use game_mode::store::{
    desktop_mode_plan, game_mode_plan, revert_mode_plan, timed_game_mode_plan, Entry, Profile, ProtocolRun, RevertError,
    SwitchError,
    StoreOp, StoreState,
};

#[test]
fn startup_reset_converges_from_every_prior_state() {
    for pointer in [
        None,
        Some(Entry::LinkTo(Profile::Game)),
        Some(Entry::LinkTo(Profile::Desktop)),
        Some(Entry::CopyOf(Profile::Game)),
        Some(Entry::Unrecognized),
    ] {
        let mut store = StoreState { pointer, backup: None };
        store.apply_all(&desktop_mode_plan());
        assert_eq!(store.pointer, Some(Entry::LinkTo(Profile::Desktop)));
        let once = store;
        store.apply_all(&desktop_mode_plan());
        assert_eq!(store, once);
    }
}

#[test]
fn desktop_plan_relinks_and_restarts() {
    assert_eq!(
        desktop_mode_plan(),
        vec![StoreOp::LinkPointer(Profile::Desktop), StoreOp::RestartService]
    );
}

#[test]
fn timed_switch_backs_up_then_revert_restores() {
    let mut store = StoreState { pointer: Some(Entry::CopyOf(Profile::Desktop)), backup: None };
    store.apply_all(&timed_game_mode_plan(true, false).unwrap());
    assert_eq!(store.pointer, Some(Entry::CopyOf(Profile::Game)));
    assert_eq!(store.backup, Some(Entry::CopyOf(Profile::Desktop)));
    let revert = revert_mode_plan(store.backup.is_some()).unwrap();
    store.apply_all(&revert);
    assert_eq!(store.pointer, Some(Entry::CopyOf(Profile::Desktop)));
    assert_eq!(store.backup, None);
}

#[test]
fn timed_switch_without_pointer_makes_no_backup() {
    assert_eq!(
        timed_game_mode_plan(false, false).unwrap(),
        vec![StoreOp::CopyProfile(Profile::Game), StoreOp::RestartService, StoreOp::ScheduleRevert]
    );
    assert_eq!(timed_game_mode_plan(true, false).unwrap()[0], StoreOp::BackupPointer);
}

#[test]
fn revert_without_backup_is_refused() {
    assert_eq!(revert_mode_plan(false), Err(RevertError::NoBackup));
}

#[test]
fn backup_of_a_link_holds_the_linked_content() {
    let mut store = StoreState { pointer: Some(Entry::LinkTo(Profile::Desktop)), backup: None };
    store.apply(StoreOp::BackupPointer);
    assert_eq!(store.backup, Some(Entry::CopyOf(Profile::Desktop)));
}

#[test]
fn a_failed_step_ends_the_run() {
    let mut run = ProtocolRun::new(timed_game_mode_plan(true, false).unwrap());
    assert_eq!(run.next_op(), Some(StoreOp::BackupPointer));
    run.report(true);
    assert_eq!(run.next_op(), Some(StoreOp::CopyProfile(Profile::Game)));
    run.report(false);
    assert!(run.has_failed());
    assert_eq!(run.next_op(), None);
    run.report(true);
    assert_eq!(run.next_op(), None);
    assert!(!run.is_complete());
}

#[test]
fn a_run_of_successes_completes() {
    let mut run = ProtocolRun::new(desktop_mode_plan());
    let mut performed = Vec::new();
    while let Some(op) = run.next_op() {
        performed.push(op);
        run.report(true);
    }
    assert!(run.is_complete());
    assert_eq!(performed, desktop_mode_plan());
}

#[test]
fn second_timed_switch_is_refused_while_a_revert_is_pending() {
    let mut store = StoreState { pointer: Some(Entry::CopyOf(Profile::Desktop)), backup: None };
    store.apply_all(&timed_game_mode_plan(store.pointer.is_some(), store.backup.is_some()).unwrap());
    assert_eq!(
        timed_game_mode_plan(store.pointer.is_some(), store.backup.is_some()),
        Err(SwitchError::RevertPending)
    );
    store.apply_all(&revert_mode_plan(store.backup.is_some()).unwrap());
    assert_eq!(store.pointer, Some(Entry::CopyOf(Profile::Desktop)));
    assert_eq!(store.backup, None);
}

#[test]
fn relinking_never_leaves_the_pointer_missing() {
    for pointer in [None, Some(Entry::Unrecognized), Some(Entry::LinkTo(Profile::Desktop))] {
        let mut store = StoreState { pointer, backup: None };
        for op in game_mode_plan() {
            store.apply(op);
            assert_eq!(store.pointer, Some(Entry::LinkTo(Profile::Game)));
        }
        for op in desktop_mode_plan() {
            store.apply(op);
            assert_eq!(store.pointer, Some(Entry::LinkTo(Profile::Desktop)));
        }
    }
}
