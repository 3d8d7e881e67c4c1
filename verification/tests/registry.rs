use hexchat::{
    add_print_event_listener, add_raw_server_event_listener, add_reply_listener,
    add_reply_listener_once, add_reply_listener_until, add_server_event_listener, add_timer_task,
    add_window_event_listener, deregister_command, end_reply_listener_until, once_reply_step, register_command,
    reply_step, ReplyStep,
    remove_print_event_listener, remove_raw_server_event_listener, remove_reply_listener,
    remove_server_event_listener, remove_timer_task, remove_window_event_listener, EatMode,
    HookKind, HookRegistry,
};

const KINDS: [HookKind; 6] = [
    HookKind::Command,
    HookKind::PrintEvent,
    HookKind::WindowEvent,
    HookKind::RawServerEvent,
    HookKind::TimerTask,
    HookKind::ServerEvent,
];

fn live_count(hooks: &HookRegistry, hook: usize) -> usize {
    KINDS.iter().filter(|k| hooks.is_registered(**k, hook)).count()
}

#[test]
fn new_registry_is_empty() {
    let hooks = HookRegistry::new();
    for kind in KINDS {
        assert!(!hooks.is_registered(kind, 0));
        assert!(!hooks.is_registered(kind, 0x1000));
    }
}

#[test]
fn register_and_deregister_command() {
    let mut hooks = HookRegistry::new();
    let command = register_command(&mut hooks, 0x1000);
    assert_eq!(command.hook(), 0x1000);
    assert!(hooks.is_registered(HookKind::Command, 0x1000));
    assert_eq!(live_count(&hooks, 0x1000), 1);
    deregister_command(&mut hooks, command);
    assert!(!hooks.is_registered(HookKind::Command, 0x1000));
    assert_eq!(live_count(&hooks, 0x1000), 0);
}

#[test]
fn print_event_listener_lives_in_its_own_table() {
    let mut hooks = HookRegistry::new();
    let listener = add_print_event_listener(&mut hooks, 0x2000);
    assert_eq!(listener.hook(), 0x2000);
    assert!(hooks.is_registered(HookKind::PrintEvent, 0x2000));
    assert!(!hooks.is_registered(HookKind::Command, 0x2000));
    remove_print_event_listener(&mut hooks, listener);
    assert!(!hooks.is_registered(HookKind::PrintEvent, 0x2000));
}

#[test]
fn window_event_listener_round_trip() {
    let mut hooks = HookRegistry::new();
    let listener = add_window_event_listener(&mut hooks, 0x3000);
    assert_eq!(listener.hook(), 0x3000);
    assert!(hooks.is_registered(HookKind::WindowEvent, 0x3000));
    assert_eq!(live_count(&hooks, 0x3000), 1);
    remove_window_event_listener(&mut hooks, listener);
    assert_eq!(live_count(&hooks, 0x3000), 0);
}

#[test]
fn raw_server_event_listener_round_trip() {
    let mut hooks = HookRegistry::new();
    let listener = add_raw_server_event_listener(&mut hooks, 0x4000);
    assert_eq!(listener.hook(), 0x4000);
    assert!(hooks.is_registered(HookKind::RawServerEvent, 0x4000));
    assert!(!hooks.is_registered(HookKind::ServerEvent, 0x4000));
    remove_raw_server_event_listener(&mut hooks, listener);
    assert!(!hooks.is_registered(HookKind::RawServerEvent, 0x4000));
}

#[test]
fn timer_task_round_trip() {
    let mut hooks = HookRegistry::new();
    let task = add_timer_task(&mut hooks, 0x5000);
    assert_eq!(task.hook(), 0x5000);
    assert!(hooks.is_registered(HookKind::TimerTask, 0x5000));
    remove_timer_task(&mut hooks, task);
    assert!(!hooks.is_registered(HookKind::TimerTask, 0x5000));
}

#[test]
fn server_event_listener_round_trip() {
    let mut hooks = HookRegistry::new();
    let listener = add_server_event_listener(&mut hooks, 0x6000);
    assert_eq!(listener.hook(), 0x6000);
    assert!(hooks.is_registered(HookKind::ServerEvent, 0x6000));
    remove_server_event_listener(&mut hooks, listener);
    assert!(!hooks.is_registered(HookKind::ServerEvent, 0x6000));
}

#[test]
fn reply_listener_lives_in_the_server_event_table() {
    let mut hooks = HookRegistry::new();
    let listener = add_reply_listener(&mut hooks, 0x7000);
    assert_eq!(listener.hook(), 0x7000);
    assert!(hooks.is_registered(HookKind::ServerEvent, 0x7000));
    assert_eq!(live_count(&hooks, 0x7000), 1);
    remove_reply_listener(&mut hooks, listener);
    assert!(!hooks.is_registered(HookKind::ServerEvent, 0x7000));
}

#[test]
fn reply_listener_once_is_removed_like_any_reply_listener() {
    let mut hooks = HookRegistry::new();
    let once = add_reply_listener_once(&mut hooks, 0x7100);
    assert!(hooks.is_registered(HookKind::ServerEvent, 0x7100));
    remove_reply_listener(&mut hooks, once);
    assert!(!hooks.is_registered(HookKind::ServerEvent, 0x7100));
}

#[test]
fn reply_listener_until_ends_both_listeners() {
    let mut hooks = HookRegistry::new();
    let command = register_command(&mut hooks, 0x10);
    let (listener, guard) = add_reply_listener_until(&mut hooks, 0x8000, 0x8100);
    assert_eq!(listener.hook(), 0x8000);
    assert_eq!(guard.hook(), 0x8100);
    assert!(hooks.is_registered(HookKind::ServerEvent, 0x8000));
    assert!(hooks.is_registered(HookKind::ServerEvent, 0x8100));
    let eat = end_reply_listener_until(&mut hooks, &listener, &guard, false);
    assert_eq!(eat, EatMode::NoOne);
    assert!(hooks.is_registered(HookKind::ServerEvent, 0x8000));
    assert!(hooks.is_registered(HookKind::ServerEvent, 0x8100));
    let eat = end_reply_listener_until(&mut hooks, &listener, &guard, true);
    assert_eq!(eat, EatMode::NoOne);
    assert!(!hooks.is_registered(HookKind::ServerEvent, 0x8000));
    assert!(!hooks.is_registered(HookKind::ServerEvent, 0x8100));
    assert!(hooks.is_registered(HookKind::Command, 0x10));
    deregister_command(&mut hooks, command);
}

#[test]
fn reply_listener_until_runs_the_callback_before_the_end_only() {
    // Listened lines: valid, invalid, valid; then an invalid ending line, a
    // valid listened line, the valid ending line, and a late listened line.
    let mut hooks = HookRegistry::new();
    let (listener, guard) = add_reply_listener_until(&mut hooks, 0x9000, 0x9100);
    let mut runs = 0;
    let listened = |hooks: &HookRegistry, valid: bool, runs: &mut u32| {
        if hooks.is_registered(HookKind::ServerEvent, listener.hook())
            && reply_step(valid) == ReplyStep::Callback
        {
            *runs += 1;
        }
    };
    listened(&hooks, true, &mut runs);
    listened(&hooks, false, &mut runs);
    listened(&hooks, true, &mut runs);
    end_reply_listener_until(&mut hooks, &listener, &guard, false);
    listened(&hooks, true, &mut runs);
    end_reply_listener_until(&mut hooks, &listener, &guard, true);
    listened(&hooks, true, &mut runs);
    assert_eq!(runs, 3);
    assert!(!hooks.is_registered(HookKind::ServerEvent, 0x9000));
    assert!(!hooks.is_registered(HookKind::ServerEvent, 0x9100));
}

#[test]
fn reply_step_runs_the_callback_for_valid_replies_only() {
    assert_eq!(reply_step(true), ReplyStep::Callback);
    assert_eq!(reply_step(false), ReplyStep::Answer(EatMode::NoOne));
}

#[test]
fn once_listener_survives_invalid_lines_and_ends_on_the_first_reply() {
    let mut hooks = HookRegistry::new();
    let once = add_reply_listener_once(&mut hooks, 0xa000);
    assert_eq!(once_reply_step(&mut hooks, &once, false), ReplyStep::Answer(EatMode::NoOne));
    assert!(hooks.is_registered(HookKind::ServerEvent, 0xa000));
    assert_eq!(once_reply_step(&mut hooks, &once, true), ReplyStep::Callback);
    assert!(!hooks.is_registered(HookKind::ServerEvent, 0xa000));
}

#[test]
fn removing_one_hook_leaves_the_others() {
    let mut hooks = HookRegistry::new();
    let a = register_command(&mut hooks, 1);
    let _b = register_command(&mut hooks, 2);
    let _p = add_print_event_listener(&mut hooks, 1);
    deregister_command(&mut hooks, a);
    assert!(!hooks.is_registered(HookKind::Command, 1));
    assert!(hooks.is_registered(HookKind::Command, 2));
    assert!(hooks.is_registered(HookKind::PrintEvent, 1));
}

#[test]
fn registering_twice_keeps_one_entry() {
    let mut hooks = HookRegistry::new();
    let first = register_command(&mut hooks, 9);
    let second = register_command(&mut hooks, 9);
    assert_eq!(first, second);
    deregister_command(&mut hooks, first);
    assert!(!hooks.is_registered(HookKind::Command, 9));
}

#[test]
fn removing_an_unknown_hook_changes_nothing() {
    let mut hooks = HookRegistry::new();
    let _kept = add_timer_task(&mut hooks, 3);
    let stranger = add_timer_task(&mut HookRegistry::new(), 4);
    remove_timer_task(&mut hooks, stranger);
    assert!(hooks.is_registered(HookKind::TimerTask, 3));
    assert!(!hooks.is_registered(HookKind::TimerTask, 4));
}
