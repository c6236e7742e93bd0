//! Facts about the store's operations taken together.

use vstd::prelude::*;
use crate::kv::lookup;
use crate::store::{Hook, OpType};
use crate::hooks::{ActionView, dispatch, fires};

verus! {

/// After `v` is set under `k`, getting `k` gives `v`.
pub proof fn get_after_set(m: Map<Seq<char>, Seq<char>>, k: Seq<char>, v: Seq<char>)
    ensures
        lookup(m.insert(k, v), k) == Some(v),
{
}

/// After `k` is deleted, getting `k` gives nothing, whether or not it was
/// there before.
pub proof fn get_after_del(m: Map<Seq<char>, Seq<char>>, k: Seq<char>)
    ensures
        lookup(m.remove(k), k) == None::<Seq<char>>,
{
}

/// A lone hook whose command exists runs that command exactly once when its
/// operation touches its key, and nothing runs for any other key or
/// operation.
pub proof fn lone_hook_fires_once(
    h: Hook,
    cmds: Map<Seq<char>, Seq<char>>,
    op: OpType,
    key: Seq<char>,
)
    requires
        cmds.contains_key(h.cmd_name@),
    ensures
        dispatch(seq![h], cmds, op, key) == if fires(h, op, key) {
            seq![ActionView::Run { cmd_name: h.cmd_name@, cmd: cmds[h.cmd_name@] }]
        } else {
            Seq::<ActionView>::empty()
        },
{
    assert(seq![h].drop_last() == Seq::<Hook>::empty());
    assert(dispatch(Seq::<Hook>::empty(), cmds, op, key) == Seq::<ActionView>::empty());
    if fires(h, op, key) {
        assert(Seq::<ActionView>::empty().push(
            ActionView::Run { cmd_name: h.cmd_name@, cmd: cmds[h.cmd_name@] },
        ) == seq![ActionView::Run { cmd_name: h.cmd_name@, cmd: cmds[h.cmd_name@] }]);
    }
}

/// Dispatch over two lists of hooks, one after the other, is dispatch over
/// the first followed by dispatch over the second: each hook contributes
/// on its own.
pub proof fn dispatch_append(
    a: Seq<Hook>,
    b: Seq<Hook>,
    cmds: Map<Seq<char>, Seq<char>>,
    op: OpType,
    key: Seq<char>,
)
    ensures
        dispatch(a + b, cmds, op, key) == dispatch(a, cmds, op, key) + dispatch(b, cmds, op, key),
    decreases b.len(),
{
    if b.len() == 0 {
        assert(a + b == a);
        assert(dispatch(a, cmds, op, key) + Seq::<ActionView>::empty() == dispatch(a, cmds, op, key));
    } else {
        dispatch_append(a, b.drop_last(), cmds, op, key);
        assert((a + b).drop_last() == a + b.drop_last());
        assert((a + b).last() == b.last());
        let da = dispatch(a, cmds, op, key);
        let db = dispatch(b.drop_last(), cmds, op, key);
        if fires(b.last(), op, key) {
            let x = crate::hooks::hook_action(b.last(), cmds);
            assert(da + db.push(x) == (da + db).push(x));
        }
    }
}

/// A fired hook whose command does not exist yields one warning naming the
/// hook, in its place, and every other fired hook still runs as it would
/// have without it.
pub proof fn dangling_hook_warns(
    before: Seq<Hook>,
    h: Hook,
    after: Seq<Hook>,
    cmds: Map<Seq<char>, Seq<char>>,
    op: OpType,
    key: Seq<char>,
)
    requires
        fires(h, op, key),
        !cmds.contains_key(h.cmd_name@),
    ensures
        dispatch(before.push(h) + after, cmds, op, key) == dispatch(before, cmds, op, key).push(
            ActionView::BadHook { hook_name: h.name@ },
        ) + dispatch(after, cmds, op, key),
{
    dispatch_append(before.push(h), after, cmds, op, key);
    assert(before.push(h).drop_last() == before);
}

} // verus!
