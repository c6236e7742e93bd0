use kv::hooks::{add_hook, command_to_run, hooks_to_run, rm_hook, shell_or_default, Action, HookError};
use kv::store::{set_key, Hook, KVStore, OpType};

fn hook(name: &str, cmd_name: &str, run_on: OpType, key: &str) -> Hook {
    Hook {
        name: name.to_string(),
        cmd_name: cmd_name.to_string(),
        run_on,
        key: key.to_string(),
    }
}

fn runs(actions: &[Action]) -> Vec<String> {
    actions
        .iter()
        .filter_map(|a| match a {
            Action::Run { cmd, .. } => Some(cmd.clone()),
            _ => None,
        })
        .collect()
}

#[test]
fn set_hook_fires_once_on_its_key_only() {
    let mut s = KVStore::new();
    set_key("c1", "echo hi", &mut s.cmds);
    s.hooks.push(hook("H", "c1", OpType::Put, "a"));
    let on_a = hooks_to_run("a", OpType::Put, &s);
    assert_eq!(runs(&on_a), vec!["echo hi".to_string()]);
    assert_eq!(on_a.len(), 1);
    let on_b = hooks_to_run("b", OpType::Put, &s);
    assert!(on_b.is_empty());
}

#[test]
fn hook_does_not_fire_on_other_operation() {
    let mut s = KVStore::new();
    set_key("c1", "echo hi", &mut s.cmds);
    s.hooks.push(hook("H", "c1", OpType::Put, "a"));
    assert!(hooks_to_run("a", OpType::Get, &s).is_empty());
    assert!(hooks_to_run("a", OpType::Del, &s).is_empty());
}

#[test]
fn dangling_hook_warns_and_others_still_run() {
    let mut s = KVStore::new();
    set_key("c1", "echo one", &mut s.cmds);
    set_key("c2", "echo two", &mut s.cmds);
    s.hooks.push(hook("first", "c1", OpType::Del, "k"));
    s.hooks.push(hook("ghost", "gone", OpType::Del, "k"));
    s.hooks.push(hook("third", "c2", OpType::Del, "k"));
    let acts = hooks_to_run("k", OpType::Del, &s);
    assert_eq!(acts.len(), 3);
    assert!(matches!(&acts[0], Action::Run { cmd_name, cmd } if cmd_name == "c1" && cmd == "echo one"));
    assert!(matches!(&acts[1], Action::BadHook { hook_name } if hook_name == "ghost"));
    assert!(matches!(&acts[2], Action::Run { cmd_name, cmd } if cmd_name == "c2" && cmd == "echo two"));
}

#[test]
fn hook_sees_command_updated_after_it_was_added() {
    let mut s = KVStore::new();
    s.hooks.push(hook("H", "c", OpType::Get, "k"));
    set_key("c", "echo v2", &mut s.cmds);
    assert_eq!(runs(&hooks_to_run("k", OpType::Get, &s)), vec!["echo v2".to_string()]);
}

#[test]
fn add_hook_appends() {
    let mut s = KVStore::new();
    let r = add_hook("h".to_string(), "c".to_string(), OpType::Get, "k".to_string(), &mut s);
    assert_eq!(r, Ok(()));
    assert_eq!(s.hooks.len(), 1);
    assert_eq!(s.hooks[0].name, "h");
    assert_eq!(s.hooks[0].cmd_name, "c");
    assert_eq!(s.hooks[0].run_on, OpType::Get);
    assert_eq!(s.hooks[0].key, "k");
}

#[test]
fn add_hook_with_taken_name_is_rejected() {
    let mut s = KVStore::new();
    add_hook("h".to_string(), "c".to_string(), OpType::Get, "k".to_string(), &mut s).unwrap();
    let r = add_hook("h".to_string(), "d".to_string(), OpType::Del, "j".to_string(), &mut s);
    assert_eq!(r, Err(HookError::AlreadyExists));
    assert_eq!(s.hooks.len(), 1);
    assert_eq!(s.hooks[0].cmd_name, "c");
}

#[test]
fn rm_hook_unknown_name_fails() {
    let mut s = KVStore::new();
    s.hooks.push(hook("h", "c", OpType::Get, "k"));
    assert_eq!(rm_hook("other", &mut s), Err(HookError::NotFound));
    assert_eq!(s.hooks.len(), 1);
}

#[test]
fn rm_hook_removes_first_match_only() {
    let mut s = KVStore::new();
    s.hooks.push(hook("x", "c", OpType::Put, "k"));
    s.hooks.push(hook("h", "c1", OpType::Put, "k"));
    s.hooks.push(hook("h", "c2", OpType::Put, "k"));
    s.hooks.push(hook("y", "c", OpType::Put, "k"));
    assert_eq!(rm_hook("h", &mut s), Ok(()));
    let names: Vec<(&str, &str)> = s
        .hooks
        .iter()
        .map(|h| (h.name.as_str(), h.cmd_name.as_str()))
        .collect();
    assert_eq!(names, vec![("x", "c"), ("h", "c2"), ("y", "c")]);
}

#[test]
fn command_lookup() {
    let mut s = KVStore::new();
    set_key("build", "echo building", &mut s.cmds);
    assert!(matches!(command_to_run("build", &s.cmds),
        Action::Run { cmd_name, cmd } if cmd_name == "build" && cmd == "echo building"));
    assert!(matches!(command_to_run("nope", &s.cmds),
        Action::MissingCommand { cmd_name } if cmd_name == "nope"));
}

#[test]
fn shell_choice() {
    assert_eq!(shell_or_default(Some("/bin/zsh".to_string())), "/bin/zsh");
    assert_eq!(shell_or_default(None), "bash");
}
