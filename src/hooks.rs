//! Named commands and the hooks that run them after an operation on a key.

use vstd::prelude::*;
use crate::kv::{KV, lookup, opt_view};
use crate::store::{Hook, KVStore, OpType};

verus! {

/// Something to carry out after an operation: spawn a shell command, or
/// warn about a name that leads nowhere.
#[derive(Debug)]
pub enum Action {
    /// Spawn `cmd` through the shell, detached; `cmd_name` is for messages.
    Run { cmd_name: String, cmd: String },
    /// A command was asked for by a name that no command has.
    MissingCommand { cmd_name: String },
    /// The hook `hook_name` names a command that does not exist.
    BadHook { hook_name: String },
}

/// The content of an `Action`.
pub enum ActionView {
    Run { cmd_name: Seq<char>, cmd: Seq<char> },
    MissingCommand { cmd_name: Seq<char> },
    BadHook { hook_name: Seq<char> },
}

impl View for Action {
    type V = ActionView;

    open spec fn view(&self) -> ActionView {
        match self {
            Action::Run { cmd_name, cmd } => ActionView::Run { cmd_name: cmd_name@, cmd: cmd@ },
            Action::MissingCommand { cmd_name } => ActionView::MissingCommand {
                cmd_name: cmd_name@,
            },
            Action::BadHook { hook_name } => ActionView::BadHook { hook_name: hook_name@ },
        }
    }
}

/// The contents of a list of actions.
pub open spec fn actions_view(s: Seq<Action>) -> Seq<ActionView> {
    s.map_values(|a: Action| a@)
}

/// Whether an operation `op` on `key` fires hook `h`.
pub open spec fn fires(h: Hook, op: OpType, key: Seq<char>) -> bool {
    h.run_on == op && h.key@ == key
}

/// What running the command named `name` comes to.
pub open spec fn command_action(cmds: Map<Seq<char>, Seq<char>>, name: Seq<char>) -> ActionView {
    match lookup(cmds, name) {
        Some(cmd) => ActionView::Run { cmd_name: name, cmd },
        None => ActionView::MissingCommand { cmd_name: name },
    }
}

/// What firing hook `h` comes to: its command, resolved by name now.
pub open spec fn hook_action(h: Hook, cmds: Map<Seq<char>, Seq<char>>) -> ActionView {
    match lookup(cmds, h.cmd_name@) {
        Some(cmd) => ActionView::Run { cmd_name: h.cmd_name@, cmd },
        None => ActionView::BadHook { hook_name: h.name@ },
    }
}

/// One action for each hook that `op` on `key` fires, in list order.
pub open spec fn dispatch(
    hooks: Seq<Hook>,
    cmds: Map<Seq<char>, Seq<char>>,
    op: OpType,
    key: Seq<char>,
) -> Seq<ActionView>
    decreases hooks.len(),
{
    if hooks.len() == 0 {
        Seq::empty()
    } else {
        let rest = dispatch(hooks.drop_last(), cmds, op, key);
        if fires(hooks.last(), op, key) {
            rest.push(hook_action(hooks.last(), cmds))
        } else {
            rest
        }
    }
}

/// Whether some hook in `hooks` is called `name`.
pub open spec fn has_hook(hooks: Seq<Hook>, name: Seq<char>) -> bool {
    exists|i: int| 0 <= i < hooks.len() && #[trigger] hooks[i].name@ == name
}


/// Why a hook could not be added or removed.
#[derive(PartialEq, Eq, Structural, Clone, Copy, Debug)]
pub enum HookError {
    /// A hook of that name is already there; it must be deleted first.
    AlreadyExists,
    /// No hook has that name.
    NotFound,
}

/// Adds a hook that runs `cmd_name` after `run_on` touches `key`, unless a
/// hook called `name` already exists. The command is looked up by name only
/// when the hook fires, so it need not exist yet.
pub fn add_hook(name: String, cmd_name: String, run_on: OpType, key: String, store: &mut KVStore) -> (r:
    Result<(), HookError>)
    ensures
        r is Err <==> has_hook(old(store).hooks@, name@),
        r is Err ==> r == Err::<(), HookError>(HookError::AlreadyExists) && *final(store) == *old(
            store),
        r is Ok ==> final(store).hooks@ == old(store).hooks@.push(
            (Hook { name, cmd_name, run_on, key }),
        ) && final(store).kvs == old(store).kvs && final(store).cmds == old(store).cmds,
{
    let mut i: usize = 0;
    while i < store.hooks.len()
        invariant
            i <= store.hooks@.len(),
            forall|j: int| 0 <= j < i ==> store.hooks@[j].name@ != name@,
        decreases store.hooks@.len() - i,
    {
        if store.hooks[i].name == name {
            return Err(HookError::AlreadyExists);
        }
        i = i + 1;
    }
    store.hooks.push(Hook { name, cmd_name, run_on, key });
    Ok(())
}

/// Removes the first hook called `name`; the others, those with the same
/// trigger included, stay as they were.
pub fn rm_hook(name: &str, store: &mut KVStore) -> (r: Result<(), HookError>)
    ensures
        r is Err <==> !has_hook(old(store).hooks@, name@),
        r is Err ==> r == Err::<(), HookError>(HookError::NotFound) && *final(store) == *old(store),
        r is Ok ==> exists|i: int|
            0 <= i < old(store).hooks@.len() && old(store).hooks@[i].name@ == name@ && (forall|j: int|
                0 <= j < i ==> old(store).hooks@[j].name@ != name@) && final(store).hooks@ == old(
                store,
            ).hooks@.remove(i),
        r is Ok ==> final(store).kvs == old(store).kvs && final(store).cmds == old(store).cmds,
{
    let target = name.to_owned();
    let mut i: usize = 0;
    while i < store.hooks.len()
        invariant
            i <= store.hooks@.len(),
            target@ == name@,
            *store == *old(store),
            forall|j: int| 0 <= j < i ==> store.hooks@[j].name@ != name@,
        decreases store.hooks@.len() - i,
    {
        if store.hooks[i].name == target {
            assert(old(store).hooks@[i as int].name@ == name@);
            store.hooks.remove(i);
            return Ok(());
        }
        i = i + 1;
    }
    Err(HookError::NotFound)
}

/// What running the command called `cmd_name` comes to: its command line,
/// or a warning that there is no such command.
pub fn command_to_run(cmd_name: &str, cmds: &KV) -> (r: Action)
    ensures
        r@ == command_action(cmds@, cmd_name@),
{
    let name = cmd_name.to_owned();
    match cmds.get(&name) {
        Some(cmd) => Action::Run { cmd_name: name, cmd },
        None => Action::MissingCommand { cmd_name: name },
    }
}

/// The actions owed after `current_op` on `key_name`: for each hook it
/// fires, in list order, its command looked up in `store.cmds`, or a
/// warning where that command is missing.
pub fn hooks_to_run(key_name: &str, current_op: OpType, store: &KVStore) -> (r: Vec<Action>)
    ensures
        actions_view(r@) == dispatch(store.hooks@, store.cmds@, current_op, key_name@),
{
    let key = key_name.to_owned();
    let mut out: Vec<Action> = Vec::new();
    let mut i: usize = 0;
    while i < store.hooks.len()
        invariant
            i <= store.hooks@.len(),
            key@ == key_name@,
            actions_view(out@) == dispatch(store.hooks@.subrange(0, i as int), store.cmds@, current_op, key_name@),
        decreases store.hooks@.len() - i,
    {
        let ghost pre = store.hooks@.subrange(0, i as int);
        let ghost prev = out@;
        let h = &store.hooks[i];
        assert(store.hooks@.subrange(0, i + 1).drop_last() == pre);
        if h.run_on == current_op && h.key == key {
            let a = match store.cmds.get(&h.cmd_name) {
                Some(cmd) => Action::Run { cmd_name: h.cmd_name.clone(), cmd },
                None => Action::BadHook { hook_name: h.name.clone() },
            };
            out.push(a);
            assert(actions_view(out@) == actions_view(prev).push(a@));
        }
        i = i + 1;
    }
    assert(store.hooks@.subrange(0, i as int) == store.hooks@);
    out
}

/// The shell that commands run through: the one named by the environment,
/// or `bash` where none is.
pub fn shell_or_default(from_env: Option<String>) -> (r: String)
    ensures
        r@ == match from_env {
            Some(s) => s@,
            None => "bash"@,
        },
{
    match from_env {
        Some(s) => s,
        None => "bash".to_owned(),
    }
}

} // verus!
