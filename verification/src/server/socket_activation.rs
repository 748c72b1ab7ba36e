//! Socket activation: whether the service manager handed over sockets, which
//! socket each configuration gets, and how the sockets are grouped by name.
use vstd::prelude::*;

verus! {

/// The kind of socket a configuration asks for.
#[derive(Debug, Clone, Copy, PartialEq, Eq, Structural)]
pub enum SocketType {
    Ipc,
    Tcp,
    Udp,
}

/// How the sockets of a service are obtained.
#[derive(Debug, Clone, Copy, PartialEq, Eq, Structural)]
pub enum ActivationPlan {
    /// The service manager passed one descriptor per configuration; the
    /// `i`-th descriptor serves the `i`-th configuration.
    Activated,
    /// No descriptor was passed; every socket is created afresh.
    Fresh,
}

/// Whether the sockets come from the service manager. Descriptors are only
/// usable when there is one for each configuration.
pub fn activation_plan(fd_count: usize, config_count: usize) -> (r: ActivationPlan)
    requires
        fd_count == 0 || fd_count == config_count,
    ensures
        r == if fd_count == 0 { ActivationPlan::Fresh } else { ActivationPlan::Activated },
{
    if fd_count == 0 {
        ActivationPlan::Fresh
    } else {
        ActivationPlan::Activated
    }
}

/// What to do for the next configured socket: its type, and the index of the
/// descriptor to adopt, if the service manager passed one for it.
#[derive(Debug, Clone, Copy, PartialEq, Eq, Structural)]
pub struct SocketPlan {
    pub socket_type: SocketType,
    pub descriptor: Option<usize>,
}

/// Walks through the configured sockets, pairing each with the descriptor at
/// the same position when there is one.
pub struct ActivationSockets {
    socket_types: Vec<SocketType>,
    fd_count: usize,
    pos: usize,
}

impl ActivationSockets {
    pub closed spec fn types(self) -> Seq<SocketType> {
        self.socket_types@
    }

    pub closed spec fn fd_count(self) -> nat {
        self.fd_count as nat
    }

    pub closed spec fn pos(self) -> nat {
        self.pos as nat
    }

    /// Starts at the first configuration.
    pub fn get(socket_types: Vec<SocketType>, fd_count: usize) -> (r: Self)
        ensures
            r.types() == socket_types@,
            r.fd_count() == fd_count,
            r.pos() == 0,
    {
        ActivationSockets { socket_types, fd_count, pos: 0 }
    }

    /// The plan for the configuration at the current position, if there is
    /// one; the position moves on either way.
    pub fn next(&mut self) -> (r: Option<SocketPlan>)
        requires
            old(self).pos() < usize::MAX,
        ensures
            final(self).pos() == old(self).pos() + 1,
            final(self).types() == old(self).types(),
            final(self).fd_count() == old(self).fd_count(),
            r == if old(self).pos() < old(self).types().len() {
                Some(
                    SocketPlan {
                        socket_type: old(self).types()[old(self).pos() as int],
                        descriptor: if old(self).pos() < old(self).fd_count() {
                            Some(old(self).pos() as usize)
                        } else {
                            None
                        },
                    },
                )
            } else {
                None
            },
    {
        let current_pos = self.pos;
        self.pos = self.pos + 1;
        if current_pos < self.socket_types.len() {
            let socket_type = self.socket_types[current_pos];
            let descriptor = if current_pos < self.fd_count {
                Some(current_pos)
            } else {
                None
            };
            return Some(SocketPlan { socket_type, descriptor });
        }
        None
    }
}

/// The items of `s` that carry the name `n`, in order.
pub open spec fn items_named<T>(s: Seq<(Seq<char>, T)>, n: Seq<char>) -> Seq<T>
    decreases s.len(),
{
    if s.len() == 0 {
        Seq::empty()
    } else {
        let prev = items_named(s.drop_last(), n);
        if s.last().0 == n {
            prev.push(s.last().1)
        } else {
            prev
        }
    }
}

pub open spec fn named_view<T>(s: Seq<(String, T)>) -> Seq<(Seq<char>, T)> {
    s.map_values(|p: (String, T)| (p.0@, p.1))
}

/// `groups` holds, once for each name that occurs in `items` and for no other
/// name, that name with the items that carry it, in their order; so no group
/// is empty.
pub open spec fn is_grouping<T>(items: Seq<(Seq<char>, T)>, groups: Seq<(Seq<char>, Seq<T>)>) -> bool {
    &&& forall|i: int, j: int|
        0 <= i < j < groups.len() ==> #[trigger] groups[i].0 != #[trigger] groups[j].0
    &&& forall|i: int| 0 <= i < groups.len() ==> #[trigger] groups[i].1 == items_named(items, groups[i].0)
    &&& forall|i: int| 0 <= i < groups.len() ==> (#[trigger] groups[i].1).len() > 0
    &&& forall|n: Seq<char>|
        #[trigger] items_named(items, n).len() > 0 ==> exists|i: int|
            0 <= i < groups.len() && #[trigger] groups[i].0 == n
}

/// A name has items exactly when some item carries it.
pub proof fn lemma_items_named_nonempty<T>(s: Seq<(Seq<char>, T)>, n: Seq<char>)
    ensures
        items_named(s, n).len() > 0 <==> exists|k: int| 0 <= k < s.len() && #[trigger] s[k].0 == n,
    decreases s.len(),
{
    if s.len() > 0 {
        lemma_items_named_nonempty(s.drop_last(), n);
        if exists|k: int| 0 <= k < s.drop_last().len() && #[trigger] s.drop_last()[k].0 == n {
            let k = choose|k: int| 0 <= k < s.drop_last().len() && #[trigger] s.drop_last()[k].0 == n;
            assert(s[k].0 == n);
        }
        if exists|k: int| 0 <= k < s.len() && #[trigger] s[k].0 == n {
            let k = choose|k: int| 0 <= k < s.len() && #[trigger] s[k].0 == n;
            if k < s.len() - 1 {
                assert(s.drop_last()[k].0 == n);
            }
        }
    }
}

/// Law: the names of a grouping are exactly the names the items carry.
pub proof fn law_grouping_names<T>(items: Seq<(Seq<char>, T)>, groups: Seq<(Seq<char>, Seq<T>)>, n: Seq<char>)
    requires
        is_grouping(items, groups),
    ensures
        (exists|i: int| 0 <= i < groups.len() && #[trigger] groups[i].0 == n) <==> (exists|k: int|
            0 <= k < items.len() && #[trigger] items[k].0 == n),
{
    lemma_items_named_nonempty(items, n);
    if exists|i: int| 0 <= i < groups.len() && #[trigger] groups[i].0 == n {
        let i = choose|i: int| 0 <= i < groups.len() && #[trigger] groups[i].0 == n;
        assert(groups[i].1.len() > 0);
    }
    if exists|k: int| 0 <= k < items.len() && #[trigger] items[k].0 == n {
        assert(items_named(items, n).len() > 0);
    }
}

pub open spec fn groups_view<T>(groups: Seq<(String, Vec<T>)>) -> Seq<(Seq<char>, Seq<T>)> {
    groups.map_values(|g: (String, Vec<T>)| (g.0@, g.1@))
}

proof fn lemma_items_named_step<T>(s: Seq<(Seq<char>, T)>, k: int, n: Seq<char>)
    requires
        0 <= k < s.len(),
    ensures
        items_named(s.take(k + 1), n) == if s[k].0 == n {
            items_named(s.take(k), n).push(s[k].1)
        } else {
            items_named(s.take(k), n)
        },
{
    assert(s.take(k + 1).drop_last() =~= s.take(k));
}

fn find_group<T>(groups: &Vec<(String, Vec<T>)>, name: &String) -> (r: Option<usize>)
    ensures
        match r {
            Some(i) => i < groups@.len() && groups@[i as int].0@ == name@,
            None => forall|i: int| 0 <= i < groups@.len() ==> #[trigger] groups@[i].0@ != name@,
        },
{
    let mut i: usize = 0;
    while i < groups.len()
        invariant
            i <= groups@.len(),
            forall|j: int| 0 <= j < i ==> #[trigger] groups@[j].0@ != name@,
        decreases groups.len() - i,
    {
        if groups[i].0 == *name {
            return Some(i);
        }
        i = i + 1;
    }
    None
}

/// Groups sockets by their configured name, keeping the order in which the
/// sockets of each name were given.
pub fn to_hash_map<T>(sockets: Vec<(String, T)>) -> (r: Vec<(String, Vec<T>)>)
    ensures
        is_grouping(named_view(sockets@), groups_view(r@)),
{
    let ghost items = named_view(sockets@);
    let ghost total = sockets@.len();
    let mut groups: Vec<(String, Vec<T>)> = Vec::new();
    let mut rest = sockets;
    let ghost mut k: int = 0;
    proof {
        assert(items.take(0) =~= Seq::<(Seq<char>, T)>::empty());
        assert forall|n: Seq<char>| #[trigger] items_named(items.take(0), n).len() == 0 by {
            assert(items.take(0).len() == 0);
        }
        assert(rest@ =~= sockets@.skip(0));
    }
    while rest.len() > 0
        invariant
            items == named_view(sockets@),
            total == sockets@.len(),
            0 <= k <= total,
            rest@ == sockets@.skip(k),
            is_grouping(items.take(k), groups_view(groups@)),
        decreases rest@.len(),
    {
        let (name, socket) = rest.remove(0);
        proof {
            assert(sockets@[k] == (name, socket));
            assert(items[k] == (name@, socket));
        }
        let ghost old_groups = groups@;
        let ghost before = groups_view(groups@);
        let ghost prefix = items.take(k);
        let ghost next = items.take(k + 1);
        match find_group(&groups, &name) {
            Some(i) => {
                let (group_name, mut list) = groups.remove(i);
                list.push(socket);
                groups.insert(i, (group_name, list));
                proof {
                    let after = groups_view(groups@);
                    assert forall|j: int| 0 <= j < after.len() implies #[trigger] after[j].1 == items_named(
                        next,
                        after[j].0,
                    ) by {
                        lemma_items_named_step(items, k, after[j].0);
                        assert(before[i as int].0 == old_groups[i as int].0@);
                        if j == i {
                            assert(after[j] == (before[j].0, before[j].1.push(socket)));
                        } else {
                            assert(after[j] == before[j]);
                            if j < i {
                                assert(before[j].0 != before[i as int].0);
                            } else {
                                assert(before[i as int].0 != before[j].0);
                            }
                        }
                    }
                    assert forall|a: int, b: int|
                        0 <= a < b < after.len() implies #[trigger] after[a].0 != #[trigger] after[b].0 by {
                        assert(after[a] == before[a] || a == i);
                        assert(after[a].0 == before[a].0);
                        assert(after[b].0 == before[b].0);
                    }
                    assert forall|j: int| 0 <= j < after.len() implies (#[trigger] after[j].1).len() > 0 by {
                        if j == i {
                            assert(after[j] == (before[j].0, before[j].1.push(socket)));
                        } else {
                            assert(after[j] == before[j]);
                        }
                    }
                    assert forall|n: Seq<char>| #[trigger] items_named(next, n).len() > 0 implies exists|j: int|
                        0 <= j < after.len() && #[trigger] after[j].0 == n by {
                        lemma_items_named_step(items, k, n);
                        if n == name@ {
                            assert(after[i as int].0 == n);
                        } else {
                            let j = choose|j: int| 0 <= j < before.len() && #[trigger] before[j].0 == n;
                            assert(after[j].0 == before[j].0);
                        }
                    }
                }
            },
            None => {
                let mut list: Vec<T> = Vec::new();
                list.push(socket);
                groups.push((name, list));
                proof {
                    let after = groups_view(groups@);
                    let last = before.len() as int;
                    lemma_items_named_step(items, k, name@);
                    if items_named(prefix, name@).len() > 0 {
                        let j = choose|j: int| 0 <= j < before.len() && #[trigger] before[j].0 == name@;
                        assert(groups@[j].0@ == name@);
                    }
                    assert(items_named(prefix, name@) =~= Seq::<T>::empty());
                    assert forall|j: int| 0 <= j < after.len() implies #[trigger] after[j].1 == items_named(
                        next,
                        after[j].0,
                    ) by {
                        lemma_items_named_step(items, k, after[j].0);
                        if j < last {
                            assert(after[j] == before[j]);
                            assert(old_groups[j].0@ != name@);
                            assert(before[j].0 == old_groups[j].0@);
                            assert(items[k].0 != after[j].0);
                            assert(after[j].1 == items_named(next, after[j].0));
                        } else {
                            assert(after[j].0 == name@);
                            assert(items_named(next, name@) == items_named(prefix, name@).push(socket));
                            assert(after[j].1 =~= seq![socket]);
                            assert(items_named(next, name@) =~= seq![socket]);
                            assert(after[j].1 == items_named(next, after[j].0));
                        }
                        assert(after[j].1 == items_named(next, after[j].0));
                    }
                    assert forall|a: int, b: int|
                        0 <= a < b < after.len() implies #[trigger] after[a].0 != #[trigger] after[b].0 by {
                        assert(after[a] == before[a]);
                        if b < last {
                            assert(after[b] == before[b]);
                        } else {
                            assert(groups@[a].0@ != name@);
                        }
                    }
                    assert forall|j: int| 0 <= j < after.len() implies (#[trigger] after[j].1).len() > 0 by {
                        if j < last {
                            assert(after[j] == before[j]);
                        } else {
                            assert(after[j].1 =~= seq![socket]);
                        }
                    }
                    assert forall|n: Seq<char>| #[trigger] items_named(next, n).len() > 0 implies exists|j: int|
                        0 <= j < after.len() && #[trigger] after[j].0 == n by {
                        lemma_items_named_step(items, k, n);
                        if n == name@ {
                            assert(after[last].0 == n);
                        } else {
                            let j = choose|j: int| 0 <= j < before.len() && #[trigger] before[j].0 == n;
                            assert(after[j] == before[j]);
                        }
                    }
                }
            },
        }
        proof {
            k = k + 1;
            assert(rest@ =~= sockets@.skip(k));
        }
    }
    proof {
        assert(items.take(k) =~= items);
    }
    groups
}

/// The sockets of a service, grouped by name, and whether they came from the
/// service manager.
pub struct SocketActivationResult<T> {
    pub sockets: Vec<(String, Vec<T>)>,
    pub is_activated: bool,
}

/// Gathers the sockets made for a plan.
pub fn activation_result<T>(plan: ActivationPlan, sockets: Vec<(String, T)>) -> (r: SocketActivationResult<T>)
    ensures
        r.is_activated == (plan == ActivationPlan::Activated),
        is_grouping(named_view(sockets@), groups_view(r.sockets@)),
{
    SocketActivationResult { sockets: to_hash_map(sockets), is_activated: plan == ActivationPlan::Activated }
}

} // verus!
