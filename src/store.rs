//! The persisted aggregate: key-value pairs, named commands and hooks.

use vstd::prelude::*;
use crate::kv::{KV, lookup, opt_view};

verus! {

/// The operation on a key that a hook fires after (`Put` is a set).
#[derive(PartialEq, Eq, Structural, Clone, Copy, Debug)]
pub enum OpType {
    Get,
    Put,
    Del,
}

/// The lower-case name of an operation, as written on the command line.
pub open spec fn op_name(op: OpType) -> Seq<char> {
    match op {
        OpType::Get => "get"@,
        OpType::Put => "set"@,
        OpType::Del => "del"@,
    }
}

impl OpType {
    /// The operation named `s` (`get`, `set` or `del`), if any.
    pub fn from_name(s: &str) -> (r: Option<OpType>)
        ensures
            match r {
                Some(op) => s@ == op_name(op),
                None => forall|op: OpType| s@ != op_name(op),
            },
    {
        let t = s.to_owned();
        if t == "get".to_owned() {
            Some(OpType::Get)
        } else if t == "set".to_owned() {
            Some(OpType::Put)
        } else if t == "del".to_owned() {
            Some(OpType::Del)
        } else {
            None
        }
    }
}

impl std::str::FromStr for OpType {
    type Err = &'static str;

    fn from_str(s: &str) -> Result<OpType, &'static str> {
        match OpType::from_name(s) {
            Some(op) => Ok(op),
            None => Err("No match found!"),
        }
    }
}

/// Runs the command named `cmd_name` after `run_on` touches `key`.
#[derive(Debug)]
pub struct Hook {
    pub name: String,
    pub cmd_name: String,
    pub run_on: OpType,
    pub key: String,
}

/// Everything the store keeps: values by key, shell commands by name, and
/// hooks in the order they were added.
pub struct KVStore {
    pub kvs: KV,
    pub cmds: KV,
    pub hooks: Vec<Hook>,
}

impl KVStore {
    /// A store with no keys, commands or hooks.
    pub fn new() -> (r: KVStore)
        ensures
            r.kvs@ == Map::<Seq<char>, Seq<char>>::empty(),
            r.cmds@ == Map::<Seq<char>, Seq<char>>::empty(),
            r.hooks@ == Seq::<Hook>::empty(),
    {
        KVStore { kvs: KV::new(), cmds: KV::new(), hooks: Vec::new() }
    }
}

/// The store to work on, given what could be read back from disk: the
/// decoded store, or nothing when the file was missing or malformed.
pub fn get_store(loaded: Option<KVStore>) -> (r: KVStore)
    ensures
        match loaded {
            Some(s) => r == s,
            None => r.kvs@ == Map::<Seq<char>, Seq<char>>::empty() && r.cmds@ == Map::<
                Seq<char>,
                Seq<char>,
            >::empty() && r.hooks@ == Seq::<Hook>::empty(),
        },
{
    match loaded {
        Some(s) => s,
        None => KVStore::new(),
    }
}

/// The value stored under `s`.
pub fn get_key(s: &str, map: &KV) -> (r: Option<String>)
    ensures
        opt_view(r) == lookup(map@, s@),
{
    map.get(&s.to_owned())
}

/// Stores `v` under `k`, replacing any earlier value.
pub fn set_key(k: &str, v: &str, map: &mut KV)
    ensures
        final(map)@ == old(map)@.insert(k@, v@),
{
    map.insert(k.to_owned(), v.to_owned());
}

/// Removes `k`, returning the value it had.
pub fn del_key(k: &str, map: &mut KV) -> (r: Option<String>)
    ensures
        final(map)@ == old(map)@.remove(k@),
        opt_view(r) == lookup(old(map)@, k@),
{
    map.remove(&k.to_owned())
}

} // verus!
