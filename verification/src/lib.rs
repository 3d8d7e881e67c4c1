//! Hook bookkeeping for a HexChat plugin: the handles that registrations give
//! back, the tables of live hooks, and what a hook trampoline computes from the
//! raw event before and after the user's callback runs.

pub mod event;
pub mod hook;
pub mod laws;
pub mod message;

pub use hook::{
    add_print_event_listener, add_raw_server_event_listener, add_reply_listener,
    add_reply_listener_once, add_reply_listener_until, add_server_event_listener, add_timer_task,
    add_window_event_listener, deregister_command, eat_code, end_reply_listener_until, once_reply_step, reply_step, ReplyStep,
    register_command, remove_print_event_listener, remove_raw_server_event_listener,
    remove_reply_listener, remove_server_event_listener, remove_timer_task,
    remove_window_event_listener, priority_code, Command, EatMode, Priority, HookKind, HookRegistry, PrintEventListener,
    RawServerEventListener, ReplyListener, ServerEventListener, TimerTask, WindowEventListener,
};
pub use event::{
    collect_words, command_return_code, event_time_in_range, listener_return_code,
    raw_line, timer_interval_ms, timer_return_code,
};
pub use message::{command_error_message, invalid_response_message, panic_message_line};
