use reaper_session::session::{
    toggleable, ActionKind, ReaperSession, RegisteredAction, ToggleActionResult, ToggleQuery,
    MAX_AUDIO_THREAD_TASKS, MAX_MAIN_THREAD_TASKS,
};
use reaper_session::misc_newtypes::CommandId;

#[test]
fn audio_queue_rejects_beyond_capacity() {
    let mut session = ReaperSession::new();
    for op in 0..MAX_AUDIO_THREAD_TASKS as u64 {
        assert_eq!(session.execute_asap_in_audio_thread(op), Ok(()));
    }
    // The queue is at capacity now: the next submission fails and is reported.
    assert_eq!(session.execute_asap_in_audio_thread(999_999), Err(()));
    // Every accepted task is still there, in order; the rejected one is not.
    for op in 0..MAX_AUDIO_THREAD_TASKS as u64 {
        let outcome = session.on_audio_buffer(false);
        assert_eq!(outcome.task, Some(op));
    }
    assert_eq!(session.on_audio_buffer(false).task, None);
}

#[test]
fn main_queue_rejects_beyond_capacity() {
    let mut session = ReaperSession::new();
    for op in 0..MAX_MAIN_THREAD_TASKS as u64 {
        assert_eq!(session.execute_asap_in_main_thread(op), Ok(()));
    }
    assert_eq!(session.execute_asap_in_main_thread(42), Err(()));
    assert_eq!(session.execute_in_main_thread(100, 50, 43), Err(()));
}

#[test]
fn audio_buffer_takes_exactly_one_task_per_pre_phase() {
    let mut session = ReaperSession::new();
    session.execute_asap_in_audio_thread(10).unwrap();
    session.execute_asap_in_audio_thread(11).unwrap();
    session.execute_asap_in_audio_thread(12).unwrap();
    // Even with three tasks queued, one pre-phase invocation takes one task.
    let outcome = session.on_audio_buffer(false);
    assert_eq!(outcome.task, Some(10));
    // The post phase does no work at all.
    let outcome = session.on_audio_buffer(true);
    assert_eq!(outcome.task, None);
    assert!(!outcome.read_midi);
    // The next pre phase takes the next task.
    assert_eq!(session.on_audio_buffer(false).task, Some(11));
    assert_eq!(session.on_audio_buffer(false).task, Some(12));
    assert_eq!(session.on_audio_buffer(false).task, None);
}

#[test]
fn audio_buffer_reports_midi_interest_only_with_subscribers() {
    let mut session = ReaperSession::new();
    assert!(!session.on_audio_buffer(false).read_midi);
    session
        .real_time_session
        .midi_message_received()
        .subscribe()
        .unwrap();
    assert!(session.on_audio_buffer(false).read_midi);
}

#[test]
fn reactivation_discards_stale_tasks_and_counts_them() {
    let mut session = ReaperSession::new();
    let counts = session.activate(101, 202);
    assert_eq!(counts, (0, 0));
    // Tasks queued while active but never drained...
    session.execute_asap_in_main_thread(0).unwrap();
    // Deactivate: the still-queued task is drained and discarded, counted
    // exactly once, and the handles come back in reverse order of
    // acquisition.
    let (handles, counts) = session.deactivate();
    assert_eq!(handles, vec![202, 101]);
    assert_eq!(counts, (1, 0));
    // Tasks queued during the inactive period...
    session.execute_asap_in_main_thread(1).unwrap();
    session.execute_asap_in_main_thread(2).unwrap();
    session.execute_asap_in_audio_thread(3).unwrap();
    // ...are discarded on reactivation, each counted exactly once...
    let counts = session.activate(101, 202);
    assert_eq!(counts, (2, 1));
    // ...and never executed.
    assert_eq!(session.on_audio_buffer(false).task, None);
    let due = reaper_session::control_surface::drain_due_main_thread_tasks(
        &mut session.main_thread_task_channel,
        u64::MAX,
    );
    assert!(due.is_empty());
}

#[test]
fn register_dispatch_unregister_cycle() {
    let mut session = ReaperSession::new();
    let id = CommandId::new(1024);
    let operation: u64 = 7;
    let gaccel: u64 = 555;
    let action = session.register_action(id, operation, ActionKind::NotToggleable, gaccel);
    // Dispatch finds the command and hands out its operation handle.
    assert_eq!(session.hook_command(id), Some(operation));
    // A non-toggleable command's toggle query is not relevant.
    assert_eq!(session.toggle_action(id), ToggleQuery::NotRelevant);
    // Unregistration hands back the host-side handle to release.
    assert_eq!(action.unregister(&mut session), Some(gaccel));
    // After unregistration, dispatch reports "not handled" and the toggle
    // query "not relevant".
    assert_eq!(session.hook_command(id), None);
    assert_eq!(session.toggle_action(id), ToggleQuery::NotRelevant);
    // Unregistering again finds nothing.
    assert_eq!(action.unregister(&mut session), None);
}

#[test]
fn double_registration_keeps_first_entry() {
    let mut session = ReaperSession::new();
    let id = CommandId::new(9);
    session.register_action(id, 1, ActionKind::NotToggleable, 10);
    session.register_action(id, 2, ActionKind::NotToggleable, 20);
    assert_eq!(session.hook_command(id), Some(1));
}

#[test]
fn unknown_command_is_not_handled() {
    let session = ReaperSession::new();
    assert_eq!(session.hook_command(CommandId::new(12345)), None);
    assert_eq!(
        session.toggle_action(CommandId::new(12345)),
        ToggleQuery::NotRelevant
    );
}

#[test]
fn toggle_state_reflects_predicate_at_query_time() {
    let mut session = ReaperSession::new();
    let id = CommandId::new(77);
    let predicate_handle: u64 = 3;
    session.register_action(id, 8, toggleable(predicate_handle), 0);
    // The driver resolves the predicate handle to a closure; here its
    // underlying condition is a plain variable.
    let mut condition = false;
    let query = session.toggle_action(id);
    assert_eq!(query, ToggleQuery::AskPredicate(predicate_handle));
    assert_eq!(
        ToggleActionResult::Off,
        reaper_session::session::toggle_action_result(query, condition)
    );
    // Invoking the operation flips the underlying condition; the next query
    // reflects the predicate's value now, not at registration time.
    condition = true;
    let query = session.toggle_action(id);
    assert_eq!(
        ToggleActionResult::On,
        reaper_session::session::toggle_action_result(query, condition)
    );
}

#[test]
fn toggle_result_for_irrelevant_query() {
    assert_eq!(
        ToggleActionResult::NotRelevant,
        reaper_session::session::toggle_action_result(ToggleQuery::NotRelevant, true)
    );
}

#[test]
fn hook_post_command_plans_action_invoked_delivery() {
    let mut session = ReaperSession::new();
    let first = session.action_invoked().subscribe().unwrap();
    let second = session.action_invoked().subscribe().unwrap();
    let plan = session.hook_post_command(CommandId::new(5)).unwrap();
    assert_eq!(plan, vec![first, second]);
    session.action_invoked().end_publish();
}

#[test]
fn undo_block_guard() {
    let mut session = ReaperSession::new();
    assert!(!session.undoable_action_is_running());
    assert!(session.enter_undo_block_internal());
    assert!(session.undoable_action_is_running());
    // A nested enter does not open a second block.
    assert!(!session.enter_undo_block_internal());
    assert!(session.leave_undo_block_internal());
    assert!(!session.undoable_action_is_running());
    assert!(!session.leave_undo_block_internal());
}

#[test]
fn registered_action_carries_id_and_handle() {
    let action = RegisteredAction::new(CommandId::new(3), 44);
    assert_eq!(action.command_id, CommandId::new(3));
    assert_eq!(action.gaccel_handle, 44);
}
