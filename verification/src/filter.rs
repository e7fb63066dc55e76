//! Live reconfiguration of the raw-event reader: the set of device paths
//! that are administratively filtered out, and the decision whether a
//! reconfiguration command actually changed that set. Only a real change
//! makes the reader tear down its open handles and set up again.

use vstd::prelude::*;

verus! {

/// A reconfiguration command: filter the named device path out, or let it
/// back in.
#[derive(Debug, Clone)]
pub struct InputFilterCommand {
    pub path: String,
    pub filtered: bool,
}

/// The filtered set after a command is applied.
pub open spec fn applied(s: Set<Seq<char>>, path: Seq<char>, filtered: bool) -> Set<Seq<char>> {
    if filtered {
        s.insert(path)
    } else {
        s.remove(path)
    }
}

/// Whether applying the command changes the filtered set at all.
pub open spec fn changes(s: Set<Seq<char>>, path: Seq<char>, filtered: bool) -> bool {
    if filtered {
        !s.contains(path)
    } else {
        s.contains(path)
    }
}

/// The set of device paths currently filtered out.
pub struct FilterSet {
    paths: Vec<String>,
}

impl FilterSet {
    /// The mathematical set of filtered paths.
    pub closed spec fn view(&self) -> Set<Seq<char>> {
        Set::new(
            |p: Seq<char>|
                exists|i: int| 0 <= i < self.paths@.len() && self.paths@[i]@ == p,
        )
    }

    /// No path is stored twice; established by the constructor and kept
    /// by every command.
    pub closed spec fn wf(&self) -> bool {
        forall|i: int, j: int|
            0 <= i < j < self.paths@.len() ==> self.paths@[i]@ != self.paths@[j]@
    }

    pub fn new() -> (r: FilterSet)
        ensures
            r@ == Set::<Seq<char>>::empty(),
            r.wf(),
    {
        let r = FilterSet { paths: Vec::new() };
        proof {
            assert(r@ =~= Set::<Seq<char>>::empty());
        }
        r
    }

    /// The index of `path` in the backing vector, if it is filtered.
    fn position(&self, path: &String) -> (r: Option<usize>)
        ensures
            match r {
                Some(i) => 0 <= i < self.paths@.len() && self.paths@[i as int]@ == path@,
                None => !self@.contains(path@),
            },
    {
        let n = self.paths.len();
        for i in 0..n
            invariant
                n == self.paths@.len(),
                forall|j: int| 0 <= j < i ==> self.paths@[j]@ != path@,
        {
            if self.paths[i] == *path {
                return Some(i);
            }
        }
        None
    }

    /// Whether `path` is currently filtered out.
    pub fn contains(&self, path: &String) -> (r: bool)
        ensures
            r == self@.contains(path@),
    {
        self.position(path).is_some()
    }

    /// Apply one reconfiguration command. Returns whether the filtered
    /// set actually changed: adding a path already filtered, or removing
    /// one that was not, changes nothing.
    pub fn apply(&mut self, command: &InputFilterCommand) -> (changed: bool)
        requires
            old(self).wf(),
        ensures
            final(self).wf(),
            final(self)@ == applied(old(self)@, command.path@, command.filtered),
            changed == changes(old(self)@, command.path@, command.filtered),
    {
        let pos = self.position(&command.path);
        if command.filtered {
            match pos {
                Some(_) => {
                    proof {
                        assert(final(self)@ =~= applied(self@, command.path@, true));
                    }
                    false
                },
                None => {
                    self.paths.push(command.path.clone());
                    proof {
                        let pre = old(self).paths@;
                        let post = self.paths@;
                        assert(post[pre.len() as int]@ == command.path@);
                        assert forall|p: Seq<char>| final(self)@.contains(p) implies applied(
                            old(self)@,
                            command.path@,
                            true,
                        ).contains(p) by {
                            let k = choose|k: int| 0 <= k < post.len() && post[k]@ == p;
                            if k < pre.len() {
                                assert(pre[k]@ == p);
                            }
                        }
                        assert forall|p: Seq<char>|
                            applied(old(self)@, command.path@, true).contains(p) implies final(self)@.contains(p) by {
                            if old(self)@.contains(p) {
                                let k = choose|k: int| 0 <= k < pre.len() && pre[k]@ == p;
                                assert(post[k]@ == p);
                            } else {
                                assert(post[pre.len() as int]@ == p);
                            }
                        }
                        assert(final(self)@ =~= applied(old(self)@, command.path@, true));
                    }
                    true
                },
            }
        } else {
            match pos {
                Some(i) => {
                    self.paths.remove(i);
                    proof {
                        let pre = old(self).paths@;
                        let post = self.paths@;
                        assert forall|p: Seq<char>| final(self)@.contains(p) implies applied(
                            old(self)@,
                            command.path@,
                            false,
                        ).contains(p) by {
                            let k = choose|k: int| 0 <= k < post.len() && post[k]@ == p;
                            if k < i {
                                assert(pre[k]@ == p);
                            } else {
                                assert(pre[k + 1]@ == p);
                            }
                        }
                        assert forall|p: Seq<char>|
                            applied(old(self)@, command.path@, false).contains(p) implies final(self)@.contains(p) by {
                            let k = choose|k: int| 0 <= k < pre.len() && pre[k]@ == p;
                            if k < i {
                                assert(post[k]@ == p);
                            } else {
                                assert(k != i);
                                assert(post[k - 1]@ == p);
                            }
                        }
                        assert(final(self)@ =~= applied(old(self)@, command.path@, false));
                    }
                    true
                },
                None => {
                    proof {
                        assert(final(self)@ =~= applied(self@, command.path@, false));
                    }
                    false
                },
            }
        }
    }
}

/// The device paths the reader should open: those not filtered out, in
/// the order given.
pub fn active_paths(paths: &Vec<String>, filters: &FilterSet) -> (r: Vec<String>)
    ensures
        r@.map_values(|p: String| p@) == paths@.map_values(|p: String| p@).filter(
            |p: Seq<char>| !filters@.contains(p),
        ),
{
    let mut r: Vec<String> = Vec::new();
    let n = paths.len();
    proof {
        assert(paths@.map_values(|p: String| p@).take(0) =~= Seq::<Seq<char>>::empty());
        assert(r@.map_values(|p: String| p@) =~= Seq::<Seq<char>>::empty().filter(
            |p: Seq<char>| !filters@.contains(p),
        ));
    }
    for i in 0..n
        invariant
            n == paths@.len(),
            r@.map_values(|p: String| p@) == paths@.map_values(|p: String| p@).take(i as int).filter(
                |p: Seq<char>| !filters@.contains(p),
            ),
    {
        let keep = !filters.contains(&paths[i]);
        proof {
            let f = |p: Seq<char>| !filters@.contains(p);
            let views = paths@.map_values(|p: String| p@);
            assert(views.take(i + 1).drop_last() =~= views.take(i as int));
            reveal(Seq::filter);
            if keep {
                assert(r@.push(paths@[i as int])
                    .map_values(|p: String| p@) =~= r@.map_values(|p: String| p@).push(
                    paths@[i as int]@,
                ));
            }
        }
        if keep {
            r.push(paths[i].clone());
        }
    }
    proof {
        assert(paths@.map_values(|p: String| p@).take(n as int) =~= paths@.map_values(
            |p: String| p@,
        ));
    }
    r
}

/// Law: a command that does not change the filtered set, applied again to
/// the set it produced, still changes nothing — in particular, reapplying
/// any command a second time never reports a change, so an identical
/// reconfiguration never triggers a re-setup cycle.
pub proof fn lemma_repeated_command_changes_nothing(
    s: Set<Seq<char>>,
    path: Seq<char>,
    filtered: bool,
)
    ensures
        !changes(applied(s, path, filtered), path, filtered),
{
}

} // verus!
