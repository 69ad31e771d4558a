//! The mutable configuration the polling thread consults: the set of
//! application names for which screenshot capture is taken, and the
//! directory capture files are written to. The host owns one value of
//! this type, guards it with its own lock, and mutates it only through
//! the operations here; each is a total function on the value.

use vstd::prelude::*;

verus! {

/// The allow-list of application names, with the configured save
/// directory. Starts empty and blank.
pub struct ScreenshotStore {
    apps: Vec<String>,
    save_folder: String,
}

impl ScreenshotStore {
    /// The set of allowed application names.
    pub closed spec fn app_set(&self) -> Set<Seq<char>> {
        Set::new(
            |n: Seq<char>| exists|i: int| 0 <= i < self.apps@.len() && self.apps@[i]@ == n,
        )
    }

    /// The configured save directory.
    pub closed spec fn folder(&self) -> Seq<char> {
        self.save_folder@
    }

    /// Each name is stored once.
    pub closed spec fn wf(&self) -> bool {
        forall|i: int, j: int|
            0 <= i < j < self.apps@.len() ==> self.apps@[i]@ != self.apps@[j]@
    }

    /// An empty store: no allowed names, blank save directory.
    pub fn new() -> (r: ScreenshotStore)
        ensures
            r.wf(),
            r.app_set() == Set::<Seq<char>>::empty(),
            r.folder() == Seq::<char>::empty(),
    {
        let r = ScreenshotStore { apps: Vec::new(), save_folder: String::new() };
        proof {
            assert(r.app_set() =~= Set::<Seq<char>>::empty());
        }
        r
    }

    fn position_of(&self, v: &String) -> (r: Option<usize>)
        ensures
            match r {
                Some(i) => i < self.apps@.len() && self.apps@[i as int]@ == v@,
                None => !self.app_set().contains(v@),
            },
    {
        let n = self.apps.len();
        let mut i: usize = 0;
        while i < n
            invariant
                i <= n,
                n == self.apps@.len(),
                forall|k: int| 0 <= k < i ==> self.apps@[k]@ != v@,
            decreases n - i,
        {
            if self.apps[i].eq(v) {
                return Some(i);
            }
            i = i + 1;
        }
        proof {
            assert(!self.app_set().contains(v@));
        }
        None
    }
}

/// Whether captures are taken for the application of this name; an exact
/// match against the stored names, with no normalization.
pub fn is_screenshot_app(store: &ScreenshotStore, v: String) -> (r: bool)
    ensures
        r == store.app_set().contains(v@),
{
    match store.position_of(&v) {
        Some(_) => true,
        None => false,
    }
}

/// Adds one name to the allow-list.
pub fn insert_screenshot_app(store: &mut ScreenshotStore, v: String)
    requires
        old(store).wf(),
    ensures
        final(store).wf(),
        final(store).app_set() == old(store).app_set().insert(v@),
        final(store).folder() == old(store).folder(),
{
    match store.position_of(&v) {
        Some(_) => {
            proof {
                assert(store.app_set().contains(v@));
                assert(store.app_set() =~= store.app_set().insert(v@));
            }
        },
        None => {
            let ghost before = store.apps@;
            store.apps.push(v);
            proof {
                assert forall|n: Seq<char>|
                    final(store).app_set().contains(n)
                        <==> old(store).app_set().insert(v@).contains(n) by {
                    if final(store).app_set().contains(n) {
                        let i = choose|i: int|
                            0 <= i < store.apps@.len() && store.apps@[i]@ == n;
                        if i < before.len() {
                            assert(before[i]@ == n);
                        }
                    }
                    if old(store).app_set().insert(v@).contains(n) {
                        if n == v@ {
                            assert(store.apps@[before.len() as int]@ == n);
                        } else {
                            let i = choose|i: int| 0 <= i < before.len() && before[i]@ == n;
                            assert(store.apps@[i]@ == n);
                        }
                    }
                }
                assert(final(store).app_set() =~= old(store).app_set().insert(v@));
                assert forall|i: int, j: int|
                    0 <= i < j < store.apps@.len() implies store.apps@[i]@ != store.apps@[j]@ by {
                    if j == before.len() {
                        assert(before[i]@ == store.apps@[i]@);
                        assert(!old(store).app_set().contains(v@));
                    }
                }
            }
        },
    }
}

/// Removes one name from the allow-list; a name not present is left as is.
pub fn remove_screenshot_app(store: &mut ScreenshotStore, v: String)
    requires
        old(store).wf(),
    ensures
        final(store).wf(),
        final(store).app_set() == old(store).app_set().remove(v@),
        final(store).folder() == old(store).folder(),
{
    match store.position_of(&v) {
        Some(i) => {
            let ghost before = store.apps@;
            store.apps.remove(i);
            proof {
                assert forall|n: Seq<char>|
                    final(store).app_set().contains(n)
                        <==> old(store).app_set().remove(v@).contains(n) by {
                    if final(store).app_set().contains(n) {
                        let k = choose|k: int|
                            0 <= k < store.apps@.len() && store.apps@[k]@ == n;
                        let ko = if k < i { k } else { k + 1 };
                        assert(before[ko]@ == n);
                        assert(n != v@) by {
                            if n == v@ {
                                assert(before[ko]@ == before[i as int]@);
                            }
                        }
                    }
                    if old(store).app_set().remove(v@).contains(n) {
                        let k = choose|k: int| 0 <= k < before.len() && before[k]@ == n;
                        assert(k != i);
                        let kn = if k < i { k } else { k - 1 };
                        assert(store.apps@[kn]@ == n);
                    }
                }
                assert(final(store).app_set() =~= old(store).app_set().remove(v@));
                assert forall|a: int, b: int|
                    0 <= a < b < store.apps@.len() implies store.apps@[a]@ != store.apps@[b]@ by {
                    let ao = if a < i { a } else { a + 1 };
                    let bo = if b < i { b } else { b + 1 };
                    assert(store.apps@[a]@ == before[ao]@);
                    assert(store.apps@[b]@ == before[bo]@);
                }
            }
        },
        None => {
            proof {
                assert(final(store).app_set() =~= old(store).app_set().remove(v@));
            }
        },
    }
}

/// Adds every given name to the allow-list.
pub fn init_screenshot_apps(store: &mut ScreenshotStore, v: Vec<String>)
    requires
        old(store).wf(),
    ensures
        final(store).wf(),
        final(store).app_set() == old(store).app_set().union(name_set(v@)),
        final(store).folder() == old(store).folder(),
{
    let n = v.len();
    let mut v = v;
    let ghost all = v@;
    let mut k: usize = 0;
    while k < n
        invariant
            k <= n,
            n == v@.len(),
            v@ == all,
            store.wf(),
            store.app_set() == old(store).app_set().union(name_set(all.take(k as int))),
            store.folder() == old(store).folder(),
        decreases n - k,
    {
        let ghost pre = store.app_set();
        let name = v[k].clone();
        insert_screenshot_app(store, name);
        proof {
            assert(all.take(k + 1).drop_last() =~= all.take(k as int));
            assert(all.take(k + 1).last() == all[k as int]);
            lemma_name_set_push(all.take(k + 1));
            assert(store.app_set() =~= old(store).app_set().union(name_set(all.take(k + 1))));
        }
        k = k + 1;
    }
    proof {
        assert(all.take(n as int) =~= all);
    }
}

/// The set of the names a list holds.
pub open spec fn name_set(v: Seq<String>) -> Set<Seq<char>> {
    Set::new(|n: Seq<char>| exists|i: int| 0 <= i < v.len() && v[i]@ == n)
}

proof fn lemma_name_set_push(v: Seq<String>)
    requires
        v.len() > 0,
    ensures
        name_set(v) == name_set(v.drop_last()).insert(v.last()@),
{
    assert forall|n: Seq<char>|
        name_set(v).contains(n) <==> name_set(v.drop_last()).insert(v.last()@).contains(n) by {
        if name_set(v).contains(n) {
            let i = choose|i: int| 0 <= i < v.len() && v[i]@ == n;
            if i < v.len() - 1 {
                assert(v.drop_last()[i]@ == n);
            }
        }
        if name_set(v.drop_last()).insert(v.last()@).contains(n) {
            if n == v.last()@ {
                assert(v[v.len() - 1]@ == n);
            } else {
                let i = choose|i: int| 0 <= i < v.drop_last().len() && v.drop_last()[i]@ == n;
                assert(v[i]@ == n);
            }
        }
    }
    assert(name_set(v) =~= name_set(v.drop_last()).insert(v.last()@));
}

/// Sets the directory capture files are written to.
pub fn init_save_path(store: &mut ScreenshotStore, path: String)
    ensures
        final(store).folder() == path@,
        final(store).app_set() == old(store).app_set(),
        final(store).wf() == old(store).wf(),
{
    store.save_folder = path;
}

/// Reads the configured save directory.
pub fn get_save_path(store: &ScreenshotStore) -> (r: String)
    ensures
        r@ == store.folder(),
{
    store.save_folder.clone()
}

/// Inserting a name makes it allowed; removing it afterwards makes it
/// not allowed, whatever the set held before.
pub proof fn lemma_allow_list_round_trip(s: Set<Seq<char>>, x: Seq<char>)
    ensures
        s.insert(x).contains(x),
        !s.insert(x).remove(x).contains(x),
{
}

} // verus!
