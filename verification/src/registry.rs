use vstd::prelude::*;

verus! {

/// What the platform's service manager records under one service name:
/// the executable it launches directly and the arguments handed to it,
/// in order. On the POSIX side the executable is the target program
/// itself; on the Windows side it is the service-host binary and the
/// target program becomes the first launch argument.
#[derive(Debug)]
pub struct Registration {
    pub exec_path: String,
    pub args: Vec<String>,
}

/// Mathematical model of a [`Registration`].
#[verifier::ext_equal]
pub struct RegistrationView {
    pub exec_path: Seq<char>,
    pub args: Seq<Seq<char>>,
}

impl View for Registration {
    type V = RegistrationView;

    open spec fn view(&self) -> RegistrationView {
        RegistrationView { exec_path: self.exec_path@, args: self.args.deep_view() }
    }
}

/// The map a sequence of `(name, registration)` entries stands for.
pub open spec fn entries_map(s: Seq<(String, Registration)>) -> Map<Seq<char>, RegistrationView>
    decreases s.len(),
{
    if s.len() == 0 {
        Map::empty()
    } else {
        entries_map(s.drop_last()).insert(s.last().0@, s.last().1@)
    }
}

/// No two entries carry the same service name.
pub open spec fn names_distinct(s: Seq<(String, Registration)>) -> bool {
    forall|i: int, j: int| 0 <= i < j < s.len() ==> s[i].0@ != s[j].0@
}

/// A name is in the map exactly when some entry carries it.
pub proof fn lemma_entries_map_dom(s: Seq<(String, Registration)>, n: Seq<char>)
    ensures
        entries_map(s).dom().contains(n) <==> (exists|i: int| 0 <= i < s.len() && s[i].0@ == n),
    decreases s.len(),
{
    if s.len() > 0 {
        lemma_entries_map_dom(s.drop_last(), n);
        if s.last().0@ == n {
            assert(s[s.len() - 1].0@ == n);
        } else {
            if exists|i: int| 0 <= i < s.len() && s[i].0@ == n {
                let i = choose|i: int| 0 <= i < s.len() && s[i].0@ == n;
                assert(s.drop_last()[i].0@ == n);
            }
        }
    }
}

/// With distinct names, the map sends each entry's name to that entry's
/// registration.
pub proof fn lemma_entries_map_index(s: Seq<(String, Registration)>, i: int)
    requires
        names_distinct(s),
        0 <= i < s.len(),
    ensures
        entries_map(s).dom().contains(s[i].0@),
        entries_map(s)[s[i].0@] == s[i].1@,
    decreases s.len(),
{
    if i == s.len() - 1 {
    } else {
        assert(names_distinct(s.drop_last()));
        lemma_entries_map_index(s.drop_last(), i);
        assert(s[i].0@ != s.last().0@);
    }
}

/// Distinctness survives removing an entry.
pub proof fn lemma_names_distinct_remove(s: Seq<(String, Registration)>, i: int)
    requires
        names_distinct(s),
        0 <= i < s.len(),
    ensures
        names_distinct(s.remove(i)),
{
    let t = s.remove(i);
    assert forall|p: int, q: int| 0 <= p < q < t.len() implies t[p].0@ != t[q].0@ by {
        let p0: int = if p < i { p } else { p + 1 };
        let q0: int = if q < i { q } else { q + 1 };
        assert(t[p] == s[p0]);
        assert(t[q] == s[q0]);
    }
}

/// Removing the entry that carries a name removes exactly that name from
/// the map.
pub proof fn lemma_entries_map_remove(s: Seq<(String, Registration)>, i: int)
    requires
        names_distinct(s),
        0 <= i < s.len(),
    ensures
        entries_map(s.remove(i)) == entries_map(s).remove(s[i].0@),
    decreases s.len(),
{
    let n = s[i].0@;
    if i == s.len() - 1 {
        assert(s.remove(i) =~= s.drop_last());
        lemma_entries_map_dom(s.drop_last(), n);
        assert(forall|j: int| 0 <= j < s.drop_last().len() ==> s.drop_last()[j] == s[j]);
        assert(!entries_map(s.drop_last()).dom().contains(n));
        assert(entries_map(s.drop_last()).insert(n, s[i].1@).remove(n) =~= entries_map(
            s.drop_last(),
        ));
    } else {
        let t = s.remove(i);
        assert(t.last() == s.last());
        assert(t.drop_last() =~= s.drop_last().remove(i));
        assert(names_distinct(s.drop_last()));
        lemma_entries_map_remove(s.drop_last(), i);
        assert(s.drop_last()[i] == s[i]);
        assert(n != s.last().0@);
        assert(entries_map(s.drop_last()).remove(n).insert(s.last().0@, s.last().1@)
            =~= entries_map(s.drop_last()).insert(s.last().0@, s.last().1@).remove(n));
    }
}

/// Model of the host's service registry: the bookkeeping the operating
/// system's service manager keeps, keyed by service name. One name
/// identifies at most one registration at a time.
#[derive(Debug)]
pub struct ServiceRegistry {
    pub entries: Vec<(String, Registration)>,
}

impl View for ServiceRegistry {
    type V = Map<Seq<char>, RegistrationView>;

    open spec fn view(&self) -> Map<Seq<char>, RegistrationView> {
        entries_map(self.entries@)
    }
}

impl ServiceRegistry {
    /// All entry names are distinct, so the entry list and its map agree.
    pub open spec fn wf(&self) -> bool {
        names_distinct(self.entries@)
    }

    /// A registry with nothing registered.
    pub fn new() -> (r: ServiceRegistry)
        ensures
            r.wf(),
            r@ == Map::<Seq<char>, RegistrationView>::empty(),
    {
        ServiceRegistry { entries: Vec::new() }
    }

    /// Is some service registered under this name?
    pub fn contains(&self, name: &str) -> (r: bool)
        requires
            self.wf(),
        ensures
            r == self@.dom().contains(name@),
    {
        let key: String = name.to_owned();
        let n = self.entries.len();
        let mut i: usize = 0;
        while i < n
            invariant
                i <= n,
                n == self.entries.len(),
                key@ == name@,
                forall|j: int| 0 <= j < i ==> self.entries@[j].0@ != name@,
            decreases n - i,
        {
            if self.entries[i].0 == key {
                proof {
                    lemma_entries_map_dom(self.entries@, name@);
                }
                return true;
            }
            i += 1;
        }
        proof {
            lemma_entries_map_dom(self.entries@, name@);
        }
        false
    }

    /// The registration under this name, if any.
    pub fn get(&self, name: &str) -> (r: Option<&Registration>)
        requires
            self.wf(),
        ensures
            match r {
                Some(reg) => self@.dom().contains(name@) && reg@ == self@[name@],
                None => !self@.dom().contains(name@),
            },
    {
        let key: String = name.to_owned();
        let n = self.entries.len();
        let mut i: usize = 0;
        while i < n
            invariant
                i <= n,
                n == self.entries.len(),
                key@ == name@,
                self.wf(),
                forall|j: int| 0 <= j < i ==> self.entries@[j].0@ != name@,
            decreases n - i,
        {
            if self.entries[i].0 == key {
                proof {
                    lemma_entries_map_index(self.entries@, i as int);
                }
                return Some(&self.entries[i].1);
            }
            i += 1;
        }
        proof {
            lemma_entries_map_dom(self.entries@, name@);
        }
        None
    }

    /// Record a registration under a name not yet taken.
    pub fn register(&mut self, name: String, reg: Registration)
        requires
            old(self).wf(),
            !old(self)@.dom().contains(name@),
        ensures
            final(self).wf(),
            final(self)@ == old(self)@.insert(name@, reg@),
    {
        proof {
            lemma_entries_map_dom(old(self).entries@, name@);
        }
        self.entries.push((name, reg));
        proof {
            assert(self.entries@.drop_last() =~= old(self).entries@);
            assert(self.entries@.last() == (name, reg));
            assert forall|p: int, q: int|
                0 <= p < q < self.entries@.len() implies self.entries@[p].0@
                != self.entries@[q].0@ by {
                if q == self.entries@.len() - 1 {
                    assert(self.entries@[p] == old(self).entries@[p]);
                } else {
                    assert(self.entries@[p] == old(self).entries@[p]);
                    assert(self.entries@[q] == old(self).entries@[q]);
                }
            }
        }
    }

    /// Drop whatever is registered under this name; report whether
    /// anything was.
    pub fn deregister(&mut self, name: &str) -> (removed: bool)
        requires
            old(self).wf(),
        ensures
            final(self).wf(),
            final(self)@ == old(self)@.remove(name@),
            removed == old(self)@.dom().contains(name@),
    {
        let key: String = name.to_owned();
        let n = self.entries.len();
        let mut i: usize = 0;
        while i < n
            invariant
                i <= n,
                n == self.entries.len(),
                key@ == name@,
                self.wf(),
                self == old(self),
                forall|j: int| 0 <= j < i ==> self.entries@[j].0@ != name@,
            decreases n - i,
        {
            if self.entries[i].0 == key {
                proof {
                    lemma_entries_map_dom(self.entries@, name@);
                    lemma_names_distinct_remove(self.entries@, i as int);
                    lemma_entries_map_remove(self.entries@, i as int);
                }
                let _ = self.entries.remove(i);
                return true;
            }
            i += 1;
        }
        proof {
            lemma_entries_map_dom(self.entries@, name@);
            assert(self@.remove(name@) =~= self@);
        }
        false
    }
}

/// What an operation may observe of the host: the invoking user's name as
/// the platform reports it, the service manager's bookkeeping, and the
/// resolved location of the Windows service-host helper binary, if it is
/// configured and present. Lifecycle operations consume no other state.
#[derive(Debug)]
pub struct HostState {
    pub username: String,
    pub registry: ServiceRegistry,
    pub service_host: Option<String>,
}

/// Mathematical model of a [`HostState`].
#[verifier::ext_equal]
pub struct HostStateView {
    pub username: Seq<char>,
    pub registry: Map<Seq<char>, RegistrationView>,
    pub service_host: Option<Seq<char>>,
}

impl View for HostState {
    type V = HostStateView;

    open spec fn view(&self) -> HostStateView {
        HostStateView {
            username: self.username@,
            registry: self.registry@,
            service_host: match self.service_host {
                Some(h) => Some(h@),
                None => None,
            },
        }
    }
}

impl HostState {
    pub open spec fn wf(&self) -> bool {
        self.registry.wf()
    }
}

impl HostStateView {
    /// The same host with its registry replaced: what a lifecycle
    /// operation's side effect looks like in the model.
    pub open spec fn with_registry(self, m: Map<Seq<char>, RegistrationView>) -> HostStateView {
        HostStateView { registry: m, ..self }
    }
}

} // verus!
