//! One invocation: a request applied to the store, and what is owed after.

use vstd::prelude::*;
use crate::kv::{lookup, opt_view};
use crate::store::{Hook, KVStore, OpType, get_key, set_key, del_key};
use crate::hooks::{
    Action,
    HookError,
    actions_view,
    add_hook,
    command_action,
    command_to_run,
    dispatch,
    has_hook,
    hooks_to_run,
    rm_hook,
};

verus! {

/// What a single invocation asks for.
#[derive(Debug)]
pub enum Request {
    /// Print the value of `key`.
    Get { key: String },
    /// Set `key` to `val`.
    Put { key: String, val: String },
    /// Delete `key` and print the value it had.
    Del { key: String },
    /// Run the command called `cmd_name`.
    CmdRun { cmd_name: String },
    /// Register `cmd_value` as the command called `cmd_name`.
    CmdAdd { cmd_name: String, cmd_value: String },
    /// Add a hook running `cmd_name` after `trigger` on `key`.
    AddHook { hook_name: String, cmd_name: String, trigger: OpType, key: String },
    /// Remove the hook called `hook_name`.
    DelHook { hook_name: String },
}

/// What is left to do once a request has been applied to the store.
#[derive(Debug)]
pub struct Outcome {
    /// A line to print: the value found, or an empty line for none.
    pub shown: Option<Option<String>>,
    /// Whether the store must be written back.
    pub save: bool,
    /// What to carry out, in order, after the store is saved.
    pub actions: Vec<Action>,
    /// A failure that ends the invocation with a non-zero status.
    pub error: Option<HookError>,
}

/// The characters of the line to print, if any.
pub open spec fn shown_view(o: Option<Option<String>>) -> Option<Option<Seq<char>>> {
    match o {
        Some(v) => Some(opt_view(v)),
        None => None,
    }
}

/// Applies `req` to `store`. Hooks are resolved against the store as it
/// stands after the change.
pub fn execute(store: &mut KVStore, req: Request) -> (r: Outcome)
    ensures
        match req {
            Request::Get { key } => {
                &&& *final(store) == *old(store)
                &&& shown_view(r.shown) == Some(lookup(old(store).kvs@, key@))
                &&& !r.save
                &&& actions_view(r.actions@) == dispatch(
                    old(store).hooks@,
                    old(store).cmds@,
                    OpType::Get,
                    key@,
                )
                &&& r.error is None
            },
            Request::Put { key, val } => {
                &&& final(store).kvs@ == old(store).kvs@.insert(key@, val@)
                &&& final(store).cmds == old(store).cmds
                &&& final(store).hooks == old(store).hooks
                &&& r.shown is None
                &&& r.save
                &&& actions_view(r.actions@) == dispatch(
                    old(store).hooks@,
                    old(store).cmds@,
                    OpType::Put,
                    key@,
                )
                &&& r.error is None
            },
            Request::Del { key } => {
                &&& final(store).kvs@ == old(store).kvs@.remove(key@)
                &&& final(store).cmds == old(store).cmds
                &&& final(store).hooks == old(store).hooks
                &&& shown_view(r.shown) == Some(lookup(old(store).kvs@, key@))
                &&& r.save
                &&& actions_view(r.actions@) == dispatch(
                    old(store).hooks@,
                    old(store).cmds@,
                    OpType::Del,
                    key@,
                )
                &&& r.error is None
            },
            Request::CmdRun { cmd_name } => {
                &&& *final(store) == *old(store)
                &&& r.shown is None
                &&& !r.save
                &&& actions_view(r.actions@) == seq![command_action(old(store).cmds@, cmd_name@)]
                &&& r.error is None
            },
            Request::CmdAdd { cmd_name, cmd_value } => {
                &&& final(store).cmds@ == old(store).cmds@.insert(cmd_name@, cmd_value@)
                &&& final(store).kvs == old(store).kvs
                &&& final(store).hooks == old(store).hooks
                &&& r.shown is None
                &&& r.save
                &&& r.actions@.len() == 0
                &&& r.error is None
            },
            Request::AddHook { hook_name, cmd_name, trigger, key } => {
                &&& r.shown is None
                &&& r.actions@.len() == 0
                &&& r.save == r.error is None
                &&& if has_hook(old(store).hooks@, hook_name@) {
                    &&& r.error == Some(HookError::AlreadyExists)
                    &&& *final(store) == *old(store)
                } else {
                    &&& r.error is None
                    &&& final(store).hooks@ == old(store).hooks@.push(
                        (Hook { name: hook_name, cmd_name, run_on: trigger, key }),
                    )
                    &&& final(store).kvs == old(store).kvs
                    &&& final(store).cmds == old(store).cmds
                }
            },
            Request::DelHook { hook_name } => {
                &&& r.shown is None
                &&& r.actions@.len() == 0
                &&& r.save == r.error is None
                &&& if has_hook(old(store).hooks@, hook_name@) {
                    &&& r.error is None
                    &&& exists|i: int|
                        0 <= i < old(store).hooks@.len() && old(store).hooks@[i].name@
                            == hook_name@ && (forall|j: int|
                            0 <= j < i ==> old(store).hooks@[j].name@ != hook_name@)
                            && final(store).hooks@ == old(store).hooks@.remove(i)
                    &&& final(store).kvs == old(store).kvs
                    &&& final(store).cmds == old(store).cmds
                } else {
                    &&& r.error == Some(HookError::NotFound)
                    &&& *final(store) == *old(store)
                }
            },
        },
{
    match req {
        Request::Get { key } => {
            let value = get_key(key.as_str(), &store.kvs);
            let actions = hooks_to_run(key.as_str(), OpType::Get, store);
            Outcome { shown: Some(value), save: false, actions, error: None }
        },
        Request::Put { key, val } => {
            set_key(key.as_str(), val.as_str(), &mut store.kvs);
            let actions = hooks_to_run(key.as_str(), OpType::Put, store);
            Outcome { shown: None, save: true, actions, error: None }
        },
        Request::Del { key } => {
            let value = del_key(key.as_str(), &mut store.kvs);
            let actions = hooks_to_run(key.as_str(), OpType::Del, store);
            Outcome { shown: Some(value), save: true, actions, error: None }
        },
        Request::CmdRun { cmd_name } => {
            let action = command_to_run(cmd_name.as_str(), &store.cmds);
            let actions = vec![action];
            Outcome { shown: None, save: false, actions, error: None }
        },
        Request::CmdAdd { cmd_name, cmd_value } => {
            set_key(cmd_name.as_str(), cmd_value.as_str(), &mut store.cmds);
            Outcome { shown: None, save: true, actions: Vec::new(), error: None }
        },
        Request::AddHook { hook_name, cmd_name, trigger, key } => {
            match add_hook(hook_name, cmd_name, trigger, key, store) {
                Ok(()) => Outcome { shown: None, save: true, actions: Vec::new(), error: None },
                Err(e) => Outcome { shown: None, save: false, actions: Vec::new(), error: Some(e) },
            }
        },
        Request::DelHook { hook_name } => {
            match rm_hook(hook_name.as_str(), store) {
                Ok(()) => Outcome { shown: None, save: true, actions: Vec::new(), error: None },
                Err(e) => Outcome { shown: None, save: false, actions: Vec::new(), error: Some(e) },
            }
        },
    }
}

} // verus!
