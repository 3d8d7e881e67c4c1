use vstd::prelude::*;

use crate::hook::{
    after_once_reply, after_register, after_remove, after_until_ending, spec_eat_code,
    spec_reply_step, EatMode, HookKind,
};

verus! {

/// A hook that has just been registered is live in the table of its kind.
pub proof fn lemma_registered_is_live(hooks: Set<(HookKind, usize)>, kind: HookKind, hook: usize)
    ensures
        after_register(hooks, kind, hook).contains((kind, hook)),
{
}

/// A hook that has just been removed is no longer live in the table of its
/// kind.
pub proof fn lemma_removed_is_gone(hooks: Set<(HookKind, usize)>, kind: HookKind, hook: usize)
    ensures
        !after_remove(hooks, kind, hook).contains((kind, hook)),
{
}

/// Removing a hook right after registering it has the effect of removing it
/// alone; so it gives back the tables as they were exactly when that hook was
/// not live before (as a hook HexChat has just handed out is not).
pub proof fn lemma_remove_undoes_register(
    hooks: Set<(HookKind, usize)>,
    kind: HookKind,
    hook: usize,
)
    ensures
        after_remove(after_register(hooks, kind, hook), kind, hook) == hooks.remove((kind, hook)),
        (after_remove(after_register(hooks, kind, hook), kind, hook) == hooks) <==> !hooks.contains(
            (kind, hook),
        ),
{
    assert(after_remove(after_register(hooks, kind, hook), kind, hook) =~= hooks.remove(
        (kind, hook),
    ));
    if hooks.contains((kind, hook)) {
        assert(!hooks.remove((kind, hook)).contains((kind, hook)));
    } else {
        assert(hooks.remove((kind, hook)) =~= hooks);
    }
}

/// Registering and removing touch one entry of one table: every other hook,
/// of the same kind or another, stays live or absent as it was.
pub proof fn lemma_tables_are_independent(
    hooks: Set<(HookKind, usize)>,
    kind: HookKind,
    hook: usize,
    other_kind: HookKind,
    other: usize,
)
    requires
        (other_kind, other) != (kind, hook),
    ensures
        after_register(hooks, kind, hook).contains((other_kind, other)) == hooks.contains(
            (other_kind, other),
        ),
        after_remove(hooks, kind, hook).contains((other_kind, other)) == hooks.contains(
            (other_kind, other),
        ),
{
}

/// A table holds a hook at most once: registering it again changes nothing,
/// so a single removal takes it out.
pub proof fn lemma_register_is_idempotent(
    hooks: Set<(HookKind, usize)>,
    kind: HookKind,
    hook: usize,
)
    ensures
        after_register(after_register(hooks, kind, hook), kind, hook) == after_register(
            hooks,
            kind,
            hook,
        ),
        !after_remove(after_register(after_register(hooks, kind, hook), kind, hook), kind, hook).contains(
            (kind, hook),
        ),
{
    assert(after_register(after_register(hooks, kind, hook), kind, hook) =~= after_register(
        hooks,
        kind,
        hook,
    ));
}

/// A line reaching the hooks of `add_reply_listener_until`: one of the replies
/// it listens for, or one of the replies that end it, with whether the line
/// is a valid reply of that kind.
pub enum UntilLine {
    /// A line that reaches the listener's hook.
    Listened(bool),
    /// A line that reaches the guard's hook.
    Ending(bool),
}

/// Whether the callback runs when a line reaches a reply listener hook that
/// may or may not be live.
pub open spec fn runs_callback(hooks: Set<(HookKind, usize)>, listener: usize, valid: bool) -> bool {
    hooks.contains((HookKind::ServerEvent, listener)) && spec_reply_step(valid) is Callback
}

/// The live hooks and the number of callback runs after `lines` have reached
/// the hooks of a one-shot listener, each line reaching it while it is live.
pub open spec fn once_run(hooks: Set<(HookKind, usize)>, listener: usize, lines: Seq<bool>) -> (
    Set<(HookKind, usize)>,
    nat,
)
    decreases lines.len(),
{
    if lines.len() == 0 {
        (hooks, 0)
    } else {
        let live = hooks.contains((HookKind::ServerEvent, listener));
        let runs: nat = if runs_callback(hooks, listener, lines[0]) { 1 } else { 0 };
        let next = if live { after_once_reply(hooks, listener, lines[0]) } else { hooks };
        let rest = once_run(next, listener, lines.drop_first());
        (rest.0, runs + rest.1)
    }
}

/// Whether some line is a valid reply.
pub open spec fn some_valid(lines: Seq<bool>) -> bool {
    exists|i: int| 0 <= i < lines.len() && lines[i]
}

/// A listener that is not live sees nothing more.
proof fn lemma_once_run_gone(hooks: Set<(HookKind, usize)>, listener: usize, lines: Seq<bool>)
    requires
        !hooks.contains((HookKind::ServerEvent, listener)),
    ensures
        once_run(hooks, listener, lines) == (hooks, 0nat),
    decreases lines.len(),
{
    if lines.len() > 0 {
        lemma_once_run_gone(hooks, listener, lines.drop_first());
    }
}

/// A live one-shot listener runs its callback once if some line is a valid
/// reply, then is gone; otherwise it never runs it and stays live.
proof fn lemma_once_run_live(hooks: Set<(HookKind, usize)>, listener: usize, lines: Seq<bool>)
    requires
        hooks.contains((HookKind::ServerEvent, listener)),
    ensures
        once_run(hooks, listener, lines).1 == (if some_valid(lines) { 1nat } else { 0nat }),
        once_run(hooks, listener, lines).0 == (if some_valid(lines) {
            hooks.remove((HookKind::ServerEvent, listener))
        } else {
            hooks
        }),
    decreases lines.len(),
{
    if lines.len() > 0 {
        let rest = lines.drop_first();
        if lines[0] {
            let next = after_remove(hooks, HookKind::ServerEvent, listener);
            lemma_once_run_gone(next, listener, rest);
            assert(some_valid(lines)) by {
                assert(lines[0]);
            }
        } else {
            lemma_once_run_live(hooks, listener, rest);
            assert(some_valid(lines) == some_valid(rest)) by {
                if some_valid(lines) {
                    let i = choose|i: int| 0 <= i < lines.len() && lines[i];
                    assert(rest[i - 1]);
                }
                if some_valid(rest) {
                    let i = choose|i: int| 0 <= i < rest.len() && rest[i];
                    assert(lines[i + 1]);
                }
            }
        }
    }
}

/// A listener added by `add_reply_listener_once` runs its callback for the
/// first valid reply only, whatever lines reach it: once if some line is a
/// valid reply, never otherwise. After that reply it is no longer live, and
/// the tables are as they were before it was added, where its hook was not
/// live then.
pub proof fn lemma_once_listener_runs_once(
    hooks: Set<(HookKind, usize)>,
    listener: usize,
    lines: Seq<bool>,
)
    requires
        !hooks.contains((HookKind::ServerEvent, listener)),
    ensures
        once_run(after_register(hooks, HookKind::ServerEvent, listener), listener, lines).1 == (
        if some_valid(lines) {
            1nat
        } else {
            0nat
        }),
        some_valid(lines) ==> once_run(
            after_register(hooks, HookKind::ServerEvent, listener),
            listener,
            lines,
        ).0 == hooks,
{
    let start = after_register(hooks, HookKind::ServerEvent, listener);
    lemma_once_run_live(start, listener, lines);
    assert(start.remove((HookKind::ServerEvent, listener)) =~= hooks);
}

/// The live hooks and the number of callback runs after `lines` have reached
/// the hooks of `add_reply_listener_until`: a listened line reaches the
/// listener while it is live, an ending line reaches the guard while it is
/// live.
pub open spec fn until_run(
    hooks: Set<(HookKind, usize)>,
    listener: usize,
    guard: usize,
    lines: Seq<UntilLine>,
) -> (Set<(HookKind, usize)>, nat)
    decreases lines.len(),
{
    if lines.len() == 0 {
        (hooks, 0)
    } else {
        let (next, runs) = match lines[0] {
            UntilLine::Listened(valid) => (
                hooks,
                if runs_callback(hooks, listener, valid) { 1nat } else { 0nat },
            ),
            UntilLine::Ending(valid) => (
                if hooks.contains((HookKind::ServerEvent, guard)) {
                    after_until_ending(hooks, listener, guard, valid)
                } else {
                    hooks
                },
                0nat,
            ),
        };
        let rest = until_run(next, listener, guard, lines.drop_first());
        (rest.0, runs + rest.1)
    }
}

/// The valid listened replies that come before the first valid ending reply.
pub open spec fn listened_before_end(lines: Seq<UntilLine>) -> nat
    decreases lines.len(),
{
    if lines.len() == 0 {
        0
    } else {
        match lines[0] {
            UntilLine::Listened(valid) => (if valid { 1nat } else { 0nat }) + listened_before_end(
                lines.drop_first(),
            ),
            UntilLine::Ending(valid) => if valid {
                0
            } else {
                listened_before_end(lines.drop_first())
            },
        }
    }
}

/// Whether some line is a valid ending reply.
pub open spec fn ends(lines: Seq<UntilLine>) -> bool
    decreases lines.len(),
{
    if lines.len() == 0 {
        false
    } else {
        match lines[0] {
            UntilLine::Ending(valid) => valid || ends(lines.drop_first()),
            UntilLine::Listened(_) => ends(lines.drop_first()),
        }
    }
}

/// Once both hooks are gone, nothing runs and nothing changes.
proof fn lemma_until_run_gone(
    hooks: Set<(HookKind, usize)>,
    listener: usize,
    guard: usize,
    lines: Seq<UntilLine>,
)
    requires
        !hooks.contains((HookKind::ServerEvent, listener)),
        !hooks.contains((HookKind::ServerEvent, guard)),
    ensures
        until_run(hooks, listener, guard, lines) == (hooks, 0nat),
    decreases lines.len(),
{
    if lines.len() > 0 {
        lemma_until_run_gone(hooks, listener, guard, lines.drop_first());
    }
}

/// While both hooks are live, the callback runs for each valid listened reply
/// up to the first valid ending reply, which removes both hooks.
proof fn lemma_until_run_live(
    hooks: Set<(HookKind, usize)>,
    listener: usize,
    guard: usize,
    lines: Seq<UntilLine>,
)
    requires
        hooks.contains((HookKind::ServerEvent, listener)),
        hooks.contains((HookKind::ServerEvent, guard)),
    ensures
        until_run(hooks, listener, guard, lines).1 == listened_before_end(lines),
        until_run(hooks, listener, guard, lines).0 == (if ends(lines) {
            hooks.remove((HookKind::ServerEvent, guard)).remove((HookKind::ServerEvent, listener))
        } else {
            hooks
        }),
    decreases lines.len(),
{
    if lines.len() > 0 {
        let rest = lines.drop_first();
        match lines[0] {
            UntilLine::Listened(valid) => {
                lemma_until_run_live(hooks, listener, guard, rest);
            },
            UntilLine::Ending(valid) => {
                if valid {
                    let next = after_until_ending(hooks, listener, guard, valid);
                    lemma_until_run_gone(next, listener, guard, rest);
                } else {
                    lemma_until_run_live(hooks, listener, guard, rest);
                }
            },
        }
    }
}

/// The law of `add_reply_listener_until`: whatever lines reach its two hooks,
/// its callback runs once for each valid reply that comes before the first
/// valid ending reply and never after it; that ending reply removes both
/// hooks, which gives back the tables as they were before the listener was
/// added, where its two hooks were distinct and not live then. Without an
/// ending reply both hooks stay live.
pub proof fn lemma_reply_listener_until_law(
    hooks: Set<(HookKind, usize)>,
    listener: usize,
    guard: usize,
    lines: Seq<UntilLine>,
)
    requires
        listener != guard,
        !hooks.contains((HookKind::ServerEvent, listener)),
        !hooks.contains((HookKind::ServerEvent, guard)),
    ensures
        until_run(
            after_register(after_register(hooks, HookKind::ServerEvent, listener), HookKind::ServerEvent, guard),
            listener,
            guard,
            lines,
        ).1 == listened_before_end(lines),
        ends(lines) ==> until_run(
            after_register(after_register(hooks, HookKind::ServerEvent, listener), HookKind::ServerEvent, guard),
            listener,
            guard,
            lines,
        ).0 == hooks,
        !ends(lines) ==> until_run(
            after_register(after_register(hooks, HookKind::ServerEvent, listener), HookKind::ServerEvent, guard),
            listener,
            guard,
            lines,
        ).0 == after_register(after_register(hooks, HookKind::ServerEvent, listener), HookKind::ServerEvent, guard),
{
    let start = after_register(after_register(hooks, HookKind::ServerEvent, listener), HookKind::ServerEvent, guard);
    lemma_until_run_live(start, listener, guard, lines);
    assert(start.remove((HookKind::ServerEvent, guard)).remove((HookKind::ServerEvent, listener))
        =~= hooks);
}

/// `EatMode::All` hides an event from HexChat and from the other plugins
/// alike: its code is the union of the codes of `Hexchat` and `Plugin`, and
/// `NoOne` sets neither.
pub proof fn lemma_all_is_hexchat_and_plugin()
    ensures
        spec_eat_code(EatMode::All) == (spec_eat_code(EatMode::Hexchat) | spec_eat_code(
            EatMode::Plugin,
        )),
        spec_eat_code(EatMode::Hexchat) & spec_eat_code(EatMode::Plugin) == 0,
        spec_eat_code(EatMode::NoOne) == 0,
{
    assert((1i32 | 2i32) == 3i32) by (bit_vector);
    assert((1i32 & 2i32) == 0i32) by (bit_vector);
}

} // verus!
