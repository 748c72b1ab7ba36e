//! The tree of a process and its descendants, built from the process table's
//! (process id, parent id) pairs.
use vstd::prelude::*;

verus! {

/// A process with its child processes.
#[derive(Debug)]
pub struct ProcessNode {
    pub pid: u32,
    pub children: Vec<ProcessNode>,
}

/// The ids of the processes whose parent is `pid`, in table order.
pub open spec fn children_of(procs: Seq<(u32, Option<u32>)>, pid: u32) -> Seq<u32>
    decreases procs.len(),
{
    if procs.len() == 0 {
        Seq::empty()
    } else {
        let prev = children_of(procs.drop_last(), pid);
        if procs.last().1 == Some(pid) {
            prev.push(procs.last().0)
        } else {
            prev
        }
    }
}

/// The descendants of `pid` reach no deeper than `depth` generations: no
/// chain of parents under `pid` loops.
pub open spec fn finite_below(procs: Seq<(u32, Option<u32>)>, pid: u32, depth: nat) -> bool
    decreases depth,
{
    depth > 0 && forall|i: int|
        0 <= i < children_of(procs, pid).len() ==> finite_below(
            procs,
            #[trigger] children_of(procs, pid)[i],
            (depth - 1) as nat,
        )
}

/// `node` is the tree of `pid`: its id is `pid`, and its children are the
/// trees of the children of `pid`, in table order (within `depth`
/// generations).
pub open spec fn is_tree(node: ProcessNode, procs: Seq<(u32, Option<u32>)>, pid: u32, depth: nat) -> bool
    decreases depth,
{
    &&& depth > 0
    &&& node.pid == pid
    &&& node.children@.len() == children_of(procs, pid).len()
    &&& forall|i: int|
        0 <= i < node.children@.len() ==> is_tree(
            #[trigger] node.children@[i],
            procs,
            children_of(procs, pid)[i],
            (depth - 1) as nat,
        )
}

fn children_list(procs: &Vec<(u32, Option<u32>)>, pid: u32) -> (r: Vec<u32>)
    ensures
        r@ == children_of(procs@, pid),
{
    let mut r: Vec<u32> = Vec::new();
    let mut i: usize = 0;
    while i < procs.len()
        invariant
            i <= procs@.len(),
            r@ == children_of(procs@.take(i as int), pid),
        decreases procs@.len() - i,
    {
        assert(procs@.take(i + 1).drop_last() =~= procs@.take(i as int));
        if procs[i].1 == Some(pid) {
            r.push(procs[i].0);
        }
        i = i + 1;
    }
    assert(procs@.take(procs@.len() as int) =~= procs@);
    r
}

fn tree_within(procs: &Vec<(u32, Option<u32>)>, pid: u32, depth: usize) -> (r: ProcessNode)
    requires
        finite_below(procs@, pid, depth as nat),
    ensures
        is_tree(r, procs@, pid, depth as nat),
    decreases depth,
{
    let kids = children_list(procs, pid);
    let mut children: Vec<ProcessNode> = Vec::new();
    let mut i: usize = 0;
    while i < kids.len()
        invariant
            depth > 0,
            kids@ == children_of(procs@, pid),
            finite_below(procs@, pid, depth as nat),
            i <= kids@.len(),
            children@.len() == i,
            forall|j: int|
                0 <= j < i ==> is_tree(#[trigger] children@[j], procs@, kids@[j], (depth - 1) as nat),
        decreases kids@.len() - i,
    {
        assert(finite_below(procs@, children_of(procs@, pid)[i as int], (depth - 1) as nat));
        let child = tree_within(procs, kids[i], depth - 1);
        children.push(child);
        i = i + 1;
    }
    ProcessNode { pid, children }
}

/// The tree of `pid` and its descendants. The process table never holds a
/// loop of parents below a running process; where it did, the tree would
/// have no end, so such tables are left out.
pub fn process_tree(procs: &Vec<(u32, Option<u32>)>, pid: u32) -> (r: ProcessNode)
    requires
        procs@.len() < usize::MAX,
        finite_below(procs@, pid, (procs@.len() + 1) as nat),
    ensures
        is_tree(r, procs@, pid, (procs@.len() + 1) as nat),
{
    tree_within(procs, pid, procs.len() + 1)
}

/// Law: when the table lists each process once, the children of a process
/// are distinct processes, each listed with that process as its parent.
pub proof fn law_children_distinct(procs: Seq<(u32, Option<u32>)>, pid: u32)
    requires
        forall|i: int, j: int| 0 <= i < j < procs.len() ==> #[trigger] procs[i].0 != #[trigger] procs[j].0,
    ensures
        forall|a: int, b: int|
            0 <= a < b < children_of(procs, pid).len() ==> #[trigger] children_of(procs, pid)[a]
                != #[trigger] children_of(procs, pid)[b],
        forall|a: int|
            #![trigger children_of(procs, pid)[a]]
            0 <= a < children_of(procs, pid).len() ==> exists|k: int|
                0 <= k < procs.len() && #[trigger] procs[k] == (children_of(procs, pid)[a], Some(pid)),
    decreases procs.len(),
{
    if procs.len() > 0 {
        let init = procs.drop_last();
        law_children_distinct(init, pid);
        let prev = children_of(init, pid);
        let kids = children_of(procs, pid);
        assert forall|a: int| #![trigger prev[a]] 0 <= a < prev.len() implies exists|k: int|
            0 <= k < procs.len() - 1 && #[trigger] procs[k] == (prev[a], Some(pid)) by {
            let k = choose|k: int| 0 <= k < init.len() && #[trigger] init[k] == (prev[a], Some(pid));
            assert(procs[k] == init[k]);
        }
        if procs.last().1 == Some(pid) {
            assert(kids == prev.push(procs.last().0));
            assert forall|a: int| 0 <= a < prev.len() implies #[trigger] prev[a] != procs.last().0 by {
                let k = choose|k: int| 0 <= k < procs.len() - 1 && #[trigger] procs[k] == (prev[a], Some(pid));
                assert(procs[k].0 != procs[procs.len() - 1].0);
            }
            assert forall|a: int| #![trigger kids[a]] 0 <= a < kids.len() implies exists|k: int|
                0 <= k < procs.len() && #[trigger] procs[k] == (kids[a], Some(pid)) by {
                if a == prev.len() {
                    assert(procs[procs.len() - 1] == (kids[a], Some(pid)));
                } else {
                    assert(kids[a] == prev[a]);
                    let k = choose|k: int| 0 <= k < procs.len() - 1 && #[trigger] procs[k] == (prev[a], Some(pid));
                }
            }
            assert forall|a: int, b: int| 0 <= a < b < kids.len() implies #[trigger] kids[a] != #[trigger] kids[b] by {
                if b == prev.len() {
                    assert(kids[a] == prev[a]);
                } else {
                    assert(kids[a] == prev[a] && kids[b] == prev[b]);
                }
            }
        } else {
            assert(kids == prev);
            assert forall|a: int| #![trigger kids[a]] 0 <= a < kids.len() implies exists|k: int|
                0 <= k < procs.len() && #[trigger] procs[k] == (kids[a], Some(pid)) by {
                let k = choose|k: int| 0 <= k < procs.len() - 1 && #[trigger] procs[k] == (prev[a], Some(pid));
            }
        }
    }
}

} // verus!
