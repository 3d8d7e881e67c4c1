use std::collections::HashSet;
use vstd::prelude::*;

verus! {

/// The priority of an event listener or command.
///
/// This represents what order listeners or command handlers will be called in, and earlier
/// listeners or command handlers can prevent later listeners or command handlers from seeing the
/// event or command via `EatMode::Plugin` or `EatMode::All`. `Priority` instances can be
/// constructed from any `i8`, but you are encouraged to use the built-in levels, and especially
/// `Priority::normal()` at that.
#[derive(Copy, Clone, Debug, Ord, PartialOrd, Eq, PartialEq, Structural)]
pub struct Priority(pub i8);

impl Priority {
    /// The highest possible priority.
    pub fn highest() -> (p: Priority)
        ensures
            p.0 == 127,
    {
        Priority(127)
    }

    /// A mediumly high priority.
    pub fn high() -> (p: Priority)
        ensures
            p.0 == 64,
    {
        Priority(64)
    }

    /// Normal priority. Prefer this priority.
    pub fn normal() -> (p: Priority)
        ensures
            p.0 == 0,
    {
        Priority(0)
    }

    /// A mediumly low priority.
    pub fn low() -> (p: Priority)
        ensures
            p.0 == -64,
    {
        Priority(-64)
    }

    /// The lowest possible priority.
    pub fn lowest() -> (p: Priority)
        ensures
            p.0 == -128,
    {
        Priority(-128)
    }
}

/// The priority as HexChat's `int` argument: the same number.
pub fn priority_code(priority: Priority) -> (code: i32)
    ensures
        code == priority.0,
{
    priority.0 as i32
}

/// Represents who to hide an event or command from.
#[derive(Clone, Copy, Debug, PartialEq, Eq, Structural)]
pub enum EatMode {
    /// Do not hide the event or command from anyone. Plugins and HexChat will continue to receive
    /// this event or command, even if you have already processed it.
    NoOne,
    /// Hide this event or command from HexChat. HexChat will not process this event or command
    /// since you clearly already have, but other plugins still can.
    Hexchat,
    /// Hide this event or command from other plugins. Other plugins will not process this event or
    /// command since you clearly already have, but HexChat still will.
    Plugin,
    /// Hide this event or command from both HexChat and other plugins. This effectively says that
    /// you are the intended receiver of this event or command, and is the option you should use
    /// in most cases.
    All,
}

impl EatMode {
    /// Whether HexChat itself stops seeing the event.
    pub open spec fn hides_from_hexchat(self) -> bool {
        self is Hexchat || self is All
    }

    /// Whether the plugins after this one stop seeing the event.
    pub open spec fn hides_from_plugins(self) -> bool {
        self is Plugin || self is All
    }
}

/// The number that HexChat expects back from a hook for `mode`.
pub open spec fn spec_eat_code(mode: EatMode) -> i32 {
    match mode {
        EatMode::NoOne => 0,
        EatMode::Hexchat => 1,
        EatMode::Plugin => 2,
        EatMode::All => 3,
    }
}

/// The code a hook returns to HexChat: bit 0 hides the event from HexChat and
/// bit 1 hides it from the other plugins, so that `All` is `Hexchat | Plugin`.
pub fn eat_code(mode: EatMode) -> (code: i32)
    ensures
        code == spec_eat_code(mode),
        (code & 1 == 1) <==> mode.hides_from_hexchat(),
        (code & 2 == 2) <==> mode.hides_from_plugins(),
        0 <= code <= 3,
{
    let code: i32 = match mode {
        EatMode::NoOne => 0,
        EatMode::Hexchat => 1,
        EatMode::Plugin => 2,
        EatMode::All => 3,
    };
    assert(code == 0 ==> (code & 1 == 0 && code & 2 == 0)) by (bit_vector);
    assert(code == 1 ==> (code & 1 == 1 && code & 2 == 0)) by (bit_vector);
    assert(code == 2 ==> (code & 1 == 0 && code & 2 == 2)) by (bit_vector);
    assert(code == 3 ==> (code & 1 == 1 && code & 2 == 2)) by (bit_vector);
    code
}

/// The six tables in which a plugin keeps its live hooks.
#[derive(Clone, Copy, Debug, PartialEq, Eq, Structural)]
pub enum HookKind {
    /// Commands added by `register_command`.
    Command,
    /// Listeners added by `add_print_event_listener`.
    PrintEvent,
    /// Listeners added by `add_window_event_listener`.
    WindowEvent,
    /// Listeners added by `add_raw_server_event_listener`.
    RawServerEvent,
    /// Tasks added by `add_timer_task`.
    TimerTask,
    /// Typed server event listeners and reply listeners, which share one table.
    ServerEvent,
}

/// A handle to a registered command.
#[derive(Debug, PartialEq, Eq, Hash, Structural)]
pub struct Command(pub(crate) usize);

/// A handle to a registered print event listener.
#[derive(Debug, PartialEq, Eq, Hash, Structural)]
pub struct PrintEventListener(pub(crate) usize);

/// A handle to a registered window event listener.
#[derive(Debug, PartialEq, Eq, Hash, Structural)]
pub struct WindowEventListener(pub(crate) usize);

/// A handle to a registered raw server event listener.
#[derive(Debug, PartialEq, Eq, Hash, Structural)]
pub struct RawServerEventListener(pub(crate) usize);

/// A handle to a registered timer task.
#[derive(Debug, PartialEq, Eq, Hash, Structural)]
pub struct TimerTask(pub(crate) usize);

/// A handle to a registered server event listener.
#[derive(Debug, PartialEq, Eq, Hash, Structural)]
pub struct ServerEventListener(pub(crate) usize);

/// A handle to a registered reply listener.
#[derive(Debug, PartialEq, Eq, Hash, Structural)]
pub struct ReplyListener(pub(crate) usize);

impl View for Command {
    type V = usize;

    /// The address of the `hexchat_hook` behind the handle.
    closed spec fn view(&self) -> usize {
        self.0
    }
}

impl Command {
    /// The address of the `hexchat_hook` behind the handle, for unhooking it.
    pub fn hook(&self) -> (hook: usize)
        ensures
            hook == self@,
    {
        self.0
    }
}

impl View for PrintEventListener {
    type V = usize;

    /// The address of the `hexchat_hook` behind the handle.
    closed spec fn view(&self) -> usize {
        self.0
    }
}

impl PrintEventListener {
    /// The address of the `hexchat_hook` behind the handle, for unhooking it.
    pub fn hook(&self) -> (hook: usize)
        ensures
            hook == self@,
    {
        self.0
    }
}

impl View for WindowEventListener {
    type V = usize;

    /// The address of the `hexchat_hook` behind the handle.
    closed spec fn view(&self) -> usize {
        self.0
    }
}

impl WindowEventListener {
    /// The address of the `hexchat_hook` behind the handle, for unhooking it.
    pub fn hook(&self) -> (hook: usize)
        ensures
            hook == self@,
    {
        self.0
    }
}

impl View for RawServerEventListener {
    type V = usize;

    /// The address of the `hexchat_hook` behind the handle.
    closed spec fn view(&self) -> usize {
        self.0
    }
}

impl RawServerEventListener {
    /// The address of the `hexchat_hook` behind the handle, for unhooking it.
    pub fn hook(&self) -> (hook: usize)
        ensures
            hook == self@,
    {
        self.0
    }
}

impl View for TimerTask {
    type V = usize;

    /// The address of the `hexchat_hook` behind the handle.
    closed spec fn view(&self) -> usize {
        self.0
    }
}

impl TimerTask {
    /// The address of the `hexchat_hook` behind the handle, for unhooking it.
    pub fn hook(&self) -> (hook: usize)
        ensures
            hook == self@,
    {
        self.0
    }
}

impl View for ServerEventListener {
    type V = usize;

    /// The address of the `hexchat_hook` behind the handle.
    closed spec fn view(&self) -> usize {
        self.0
    }
}

impl ServerEventListener {
    /// The address of the `hexchat_hook` behind the handle, for unhooking it.
    pub fn hook(&self) -> (hook: usize)
        ensures
            hook == self@,
    {
        self.0
    }
}

impl View for ReplyListener {
    type V = usize;

    /// The address of the `hexchat_hook` behind the handle.
    closed spec fn view(&self) -> usize {
        self.0
    }
}

impl ReplyListener {
    /// The address of the `hexchat_hook` behind the handle, for unhooking it.
    pub fn hook(&self) -> (hook: usize)
        ensures
            hook == self@,
    {
        self.0
    }
}

/// The live hooks of a plugin, one table per `HookKind`; each table holds the
/// addresses of the `hexchat_hook`s that HexChat handed out.
pub struct HookRegistry {
    commands: HashSet<usize>,
    print_events: HashSet<usize>,
    window_events: HashSet<usize>,
    server_events: HashSet<usize>,
    timer_tasks: HashSet<usize>,
    typed_server_events: HashSet<usize>,
}

impl HookRegistry {
    /// The table of one kind.
    closed spec fn table(self, kind: HookKind) -> Set<usize> {
        match kind {
            HookKind::Command => self.commands@,
            HookKind::PrintEvent => self.print_events@,
            HookKind::WindowEvent => self.window_events@,
            HookKind::RawServerEvent => self.server_events@,
            HookKind::TimerTask => self.timer_tasks@,
            HookKind::ServerEvent => self.typed_server_events@,
        }
    }
}

impl View for HookRegistry {
    type V = Set<(HookKind, usize)>;

    /// The live hooks, each with the table it stands in.
    closed spec fn view(&self) -> Set<(HookKind, usize)> {
        Set::new(|entry: (HookKind, usize)| self.table(entry.0).contains(entry.1))
    }
}

impl HookRegistry {
    /// A registry with no live hooks.
    pub fn new() -> (hooks: Self)
        ensures
            hooks@ == Set::<(HookKind, usize)>::empty(),
    {
        let hooks = HookRegistry {
            commands: HashSet::new(),
            print_events: HashSet::new(),
            window_events: HashSet::new(),
            server_events: HashSet::new(),
            timer_tasks: HashSet::new(),
            typed_server_events: HashSet::new(),
        };
        assert(hooks@ =~= Set::<(HookKind, usize)>::empty());
        hooks
    }

    /// Whether `hook` is live in the table of `kind`.
    pub fn is_registered(&self, kind: HookKind, hook: usize) -> (live: bool)
        ensures
            live == self@.contains((kind, hook)),
    {
        broadcast use vstd::std_specs::hash::group_hash_axioms;
        match kind {
            HookKind::Command => self.commands.contains(&hook),
            HookKind::PrintEvent => self.print_events.contains(&hook),
            HookKind::WindowEvent => self.window_events.contains(&hook),
            HookKind::RawServerEvent => self.server_events.contains(&hook),
            HookKind::TimerTask => self.timer_tasks.contains(&hook),
            HookKind::ServerEvent => self.typed_server_events.contains(&hook),
        }
    }

    /// Records `hook` as live in the table of `kind`.
    fn record(&mut self, kind: HookKind, hook: usize)
        ensures
            final(self)@ == old(self)@.insert((kind, hook)),
    {
        broadcast use vstd::std_specs::hash::group_hash_axioms;
        match kind {
            HookKind::Command => { self.commands.insert(hook); },
            HookKind::PrintEvent => { self.print_events.insert(hook); },
            HookKind::WindowEvent => { self.window_events.insert(hook); },
            HookKind::RawServerEvent => { self.server_events.insert(hook); },
            HookKind::TimerTask => { self.timer_tasks.insert(hook); },
            HookKind::ServerEvent => { self.typed_server_events.insert(hook); },
        }
        assert(self@ =~= old(self)@.insert((kind, hook)));
    }

    /// Drops `hook` from the table of `kind`.
    fn forget(&mut self, kind: HookKind, hook: usize)
        ensures
            final(self)@ == old(self)@.remove((kind, hook)),
    {
        broadcast use vstd::std_specs::hash::group_hash_axioms;
        match kind {
            HookKind::Command => { self.commands.remove(&hook); },
            HookKind::PrintEvent => { self.print_events.remove(&hook); },
            HookKind::WindowEvent => { self.window_events.remove(&hook); },
            HookKind::RawServerEvent => { self.server_events.remove(&hook); },
            HookKind::TimerTask => { self.timer_tasks.remove(&hook); },
            HookKind::ServerEvent => { self.typed_server_events.remove(&hook); },
        }
        assert(self@ =~= old(self)@.remove((kind, hook)));
    }
}

/// The live hooks once `hook` is registered in the table of `kind`.
pub open spec fn after_register(hooks: Set<(HookKind, usize)>, kind: HookKind, hook: usize) -> Set<
    (HookKind, usize),
> {
    hooks.insert((kind, hook))
}

/// The live hooks once `hook` is removed from the table of `kind`.
pub open spec fn after_remove(hooks: Set<(HookKind, usize)>, kind: HookKind, hook: usize) -> Set<
    (HookKind, usize),
> {
    hooks.remove((kind, hook))
}

/// Records the hook that HexChat gave back for a new command. Returns the
/// handle that can be passed to `deregister_command`.
pub fn register_command(hooks: &mut HookRegistry, hook: usize) -> (command: Command)
    ensures
        command@ == hook,
        final(hooks)@ == after_register(old(hooks)@, HookKind::Command, hook),
{
    hooks.record(HookKind::Command, hook);
    Command(hook)
}

/// Deregisters a command registered by `register_command`.
pub fn deregister_command(hooks: &mut HookRegistry, command: Command)
    ensures
        final(hooks)@ == after_remove(old(hooks)@, HookKind::Command, command@),
{
    hooks.forget(HookKind::Command, command.0);
}


/// Records the hook that HexChat gave back for a new print event listener. Returns the handle
/// that can be passed to `remove_print_event_listener`.
pub fn add_print_event_listener(hooks: &mut HookRegistry, hook: usize) -> (listener: PrintEventListener)
    ensures
        listener@ == hook,
        final(hooks)@ == after_register(old(hooks)@, HookKind::PrintEvent, hook),
{
    hooks.record(HookKind::PrintEvent, hook);
    PrintEventListener(hook)
}

/// Removes a listener added by `add_print_event_listener`.
pub fn remove_print_event_listener(hooks: &mut HookRegistry, listener: PrintEventListener)
    ensures
        final(hooks)@ == after_remove(old(hooks)@, HookKind::PrintEvent, listener@),
{
    hooks.forget(HookKind::PrintEvent, listener.0);
}

/// Records the hook that HexChat gave back for a new window event listener. Returns the handle
/// that can be passed to `remove_window_event_listener`.
pub fn add_window_event_listener(hooks: &mut HookRegistry, hook: usize) -> (listener: WindowEventListener)
    ensures
        listener@ == hook,
        final(hooks)@ == after_register(old(hooks)@, HookKind::WindowEvent, hook),
{
    hooks.record(HookKind::WindowEvent, hook);
    WindowEventListener(hook)
}

/// Removes a listener added by `add_window_event_listener`.
pub fn remove_window_event_listener(hooks: &mut HookRegistry, listener: WindowEventListener)
    ensures
        final(hooks)@ == after_remove(old(hooks)@, HookKind::WindowEvent, listener@),
{
    hooks.forget(HookKind::WindowEvent, listener.0);
}

/// Records the hook that HexChat gave back for a new raw server event listener. Returns the
/// handle that can be passed to `remove_raw_server_event_listener`.
pub fn add_raw_server_event_listener(hooks: &mut HookRegistry, hook: usize) -> (listener: RawServerEventListener)
    ensures
        listener@ == hook,
        final(hooks)@ == after_register(old(hooks)@, HookKind::RawServerEvent, hook),
{
    hooks.record(HookKind::RawServerEvent, hook);
    RawServerEventListener(hook)
}

/// Removes a listener added by `add_raw_server_event_listener`.
pub fn remove_raw_server_event_listener(hooks: &mut HookRegistry, listener: RawServerEventListener)
    ensures
        final(hooks)@ == after_remove(old(hooks)@, HookKind::RawServerEvent, listener@),
{
    hooks.forget(HookKind::RawServerEvent, listener.0);
}

/// Records the hook that HexChat gave back for a new timer task. Returns the handle that can
/// be passed to `remove_timer_task`.
pub fn add_timer_task(hooks: &mut HookRegistry, hook: usize) -> (task: TimerTask)
    ensures
        task@ == hook,
        final(hooks)@ == after_register(old(hooks)@, HookKind::TimerTask, hook),
{
    hooks.record(HookKind::TimerTask, hook);
    TimerTask(hook)
}

/// Removes a timer task added by `add_timer_task`.
pub fn remove_timer_task(hooks: &mut HookRegistry, task: TimerTask)
    ensures
        final(hooks)@ == after_remove(old(hooks)@, HookKind::TimerTask, task@),
{
    hooks.forget(HookKind::TimerTask, task.0);
}

/// Records the hook that HexChat gave back for a new server event listener. Returns the handle
/// that can be passed to `remove_server_event_listener`.
pub fn add_server_event_listener(hooks: &mut HookRegistry, hook: usize) -> (listener: ServerEventListener)
    ensures
        listener@ == hook,
        final(hooks)@ == after_register(old(hooks)@, HookKind::ServerEvent, hook),
{
    hooks.record(HookKind::ServerEvent, hook);
    ServerEventListener(hook)
}

/// Removes a server event listener added by `add_server_event_listener`.
pub fn remove_server_event_listener(hooks: &mut HookRegistry, listener: ServerEventListener)
    ensures
        final(hooks)@ == after_remove(old(hooks)@, HookKind::ServerEvent, listener@),
{
    hooks.forget(HookKind::ServerEvent, listener.0);
}

/// Records the hook that HexChat gave back for a new reply listener. Reply
/// listeners live in the table of typed server event listeners. Returns the
/// handle that can be passed to `remove_reply_listener`.
pub fn add_reply_listener(hooks: &mut HookRegistry, hook: usize) -> (listener: ReplyListener)
    ensures
        listener@ == hook,
        final(hooks)@ == after_register(old(hooks)@, HookKind::ServerEvent, hook),
{
    hooks.record(HookKind::ServerEvent, hook);
    ReplyListener(hook)
}

/// Removes a reply listener added by `add_reply_listener`.
pub fn remove_reply_listener(hooks: &mut HookRegistry, listener: ReplyListener)
    ensures
        final(hooks)@ == after_remove(old(hooks)@, HookKind::ServerEvent, listener@),
{
    remove_server_event_listener(hooks, ServerEventListener(listener.0));
}

/// Records the hook of a one-shot reply listener. It stands in the table of
/// typed server event listeners like any reply listener; `once_reply_step`
/// takes it out when its first valid reply comes.
pub fn add_reply_listener_once(hooks: &mut HookRegistry, hook: usize) -> (listener: ReplyListener)
    ensures
        listener@ == hook,
        final(hooks)@ == after_register(old(hooks)@, HookKind::ServerEvent, hook),
{
    add_reply_listener(hooks, hook)
}

/// Records the two hooks of `add_reply_listener_until`: `listener_hook` for the
/// listener of the replies, then `guard_hook` for the one-shot listener that
/// waits for the reply that ends it. Returns their handles in that order.
pub fn add_reply_listener_until(hooks: &mut HookRegistry, listener_hook: usize, guard_hook: usize) -> (listeners: (ReplyListener, ReplyListener))
    ensures
        listeners.0@ == listener_hook,
        listeners.1@ == guard_hook,
        final(hooks)@ == after_register(after_register(old(hooks)@, HookKind::ServerEvent, listener_hook), HookKind::ServerEvent, guard_hook),
{
    let listener = add_reply_listener(hooks, listener_hook);
    let guard = add_reply_listener_once(hooks, guard_hook);
    (listener, guard)
}

/// What a reply listener does with a line that reached its hook: run the
/// user's callback, or answer HexChat without running it.
#[derive(Clone, Copy, Debug, PartialEq, Eq, Structural)]
pub enum ReplyStep {
    /// The line is a valid reply: run the callback and answer what it returns.
    Callback,
    /// The line is not a valid reply: report it and answer this.
    Answer(EatMode),
}

/// A valid reply runs the callback; any other line is let through to
/// everyone without running it.
pub open spec fn spec_reply_step(valid: bool) -> ReplyStep {
    if valid {
        ReplyStep::Callback
    } else {
        ReplyStep::Answer(EatMode::NoOne)
    }
}

/// The step of a reply listener for a line of which `valid` says whether it
/// is a valid reply. The listener stays live either way.
pub fn reply_step(valid: bool) -> (step: ReplyStep)
    ensures
        step == spec_reply_step(valid),
{
    if valid {
        ReplyStep::Callback
    } else {
        ReplyStep::Answer(EatMode::NoOne)
    }
}

/// The live hooks after a one-shot listener has seen a line: it is gone after
/// its first valid reply, and still live after any other line.
pub open spec fn after_once_reply(hooks: Set<(HookKind, usize)>, listener: usize, valid: bool) -> Set<
    (HookKind, usize),
> {
    if valid {
        after_remove(hooks, HookKind::ServerEvent, listener)
    } else {
        hooks
    }
}

/// The step of a listener added by `add_reply_listener_once`: on a valid
/// reply it removes itself before its callback runs, so that the callback runs
/// for that reply only; any other line leaves it live and is let through.
pub fn once_reply_step(hooks: &mut HookRegistry, listener: &ReplyListener, valid: bool) -> (step: ReplyStep)
    ensures
        step == spec_reply_step(valid),
        final(hooks)@ == after_once_reply(old(hooks)@, listener@, valid),
{
    if valid {
        remove_reply_listener(hooks, ReplyListener(listener.0));
    }
    reply_step(valid)
}

/// The live hooks after the guard of `add_reply_listener_until` has seen a
/// line: on a valid ending reply the guard removes itself, then the listener
/// it guards; any other line changes nothing.
pub open spec fn after_until_ending(
    hooks: Set<(HookKind, usize)>,
    listener: usize,
    guard: usize,
    valid: bool,
) -> Set<(HookKind, usize)> {
    if valid {
        after_remove(after_remove(hooks, HookKind::ServerEvent, guard), HookKind::ServerEvent, listener)
    } else {
        hooks
    }
}

/// The step of the guard of `add_reply_listener_until` for a line of which
/// `valid` says whether it is a valid ending reply. The guard never eats the
/// line: it lets it through to everyone whether or not it ends the listener.
pub fn end_reply_listener_until(
    hooks: &mut HookRegistry,
    listener: &ReplyListener,
    guard: &ReplyListener,
    valid: bool,
) -> (eat: EatMode)
    ensures
        eat == EatMode::NoOne,
        final(hooks)@ == after_until_ending(old(hooks)@, listener@, guard@, valid),
{
    match once_reply_step(hooks, guard, valid) {
        ReplyStep::Callback => {
            remove_reply_listener(hooks, ReplyListener(listener.0));
            EatMode::NoOne
        },
        ReplyStep::Answer(eat) => eat,
    }
}

} // verus!
