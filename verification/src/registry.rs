//! The user registry and post cache: ordered, deduplicated, lazily
//! materialized stores of remote records.
//!
//! Usernames are case-folded before lookup; the first reference to a new
//! folded name assigns the next sequential index, and indices are stable
//! for the lifetime of the filesystem. A failed fetch never reserves an
//! index or leaves a partial entry, because the caller only hands this
//! module complete records.

use vstd::prelude::*;
use crate::codec::MAX_INDEX;
use crate::profile::{ProfileView, User, UserProfile};

verus! {

/// The ordered map of an outside crate that backs the registry's
/// name-to-index lookup.
#[verifier::external_type_specification]
#[verifier::external_body]
#[verifier::reject_recursive_types(K)]
#[verifier::reject_recursive_types(V)]
#[verifier::reject_recursive_types(S)]
pub struct ExIndexMap<K, V, S>(indexmap::IndexMap<K, V, S>);

/// The entries a name map holds, in insertion order: each key with the
/// value stored under it.
pub uninterp spec fn index_entries(m: &indexmap::IndexMap<String, u64>) -> Seq<(Seq<char>, u64)>;

/// The case-folded form of a sequence of characters: the result of the
/// host language's lowercase conversion, which depends on the characters
/// alone.
pub uninterp spec fn lower_of(s: Seq<char>) -> Seq<char>;

/// Relies on indexmap's `IndexMap::new`: a map with no entries.
#[verifier::external_body]
fn im_new() -> (r: indexmap::IndexMap<String, u64>)
    ensures
        index_entries(&r) == Seq::<(Seq<char>, u64)>::empty(),
{
    indexmap::IndexMap::new()
}

/// Relies on indexmap's `IndexMap::get`: the value stored under a key
/// equal to the one given, if any entry carries one.
#[verifier::external_body]
fn im_get(m: &indexmap::IndexMap<String, u64>, key: &String) -> (r: Option<u64>)
    ensures
        match r {
            Some(v) => exists|j: int|
                0 <= j < index_entries(m).len() && index_entries(m)[j] == (key@, v),
            None => forall|j: int|
                0 <= j < index_entries(m).len() ==> #[trigger] index_entries(m)[j].0 != key@,
        },
{
    m.get(key).copied()
}

/// Relies on indexmap's `IndexMap::insert`: a key no entry equals is
/// inserted last in order.
#[verifier::external_body]
fn im_insert(m: &mut indexmap::IndexMap<String, u64>, key: String, value: u64)
    requires
        forall|j: int|
            0 <= j < index_entries(old(m)).len() ==> #[trigger] index_entries(
                old(m),
            )[j].0 != key@,
    ensures
        index_entries(final(m)) == index_entries(old(m)).push((key@, value)),
    no_unwind
{
    m.insert(key, value);
}

/// Relies on `str::to_lowercase`: the case-folded form of the characters.
#[verifier::external_body]
pub(crate) fn fold_name(s: &String) -> (r: String)
    ensures
        r@ == lower_of(s@),
{
    s.to_lowercase()
}

/// One remote post, retained for a user's posts directory. The record is
/// cached but not yet rendered into entries of its own.
pub struct PostRecord {
    pub title: String,
}

/// The remote-collaborator failures the caller can hand back.
#[derive(Clone, Copy, Debug, PartialEq, Eq, Structural)]
pub enum FetchError {
    /// The remote service knows no such user.
    NotFound,
    /// Any other transport or service failure.
    Transport,
}

struct UserEntry {
    /// The original, non-folded name under which the user was first
    /// referenced: the name its root entry is listed by.
    name: String,
    user: User,
}

struct PostsEntry {
    /// The already-resolved canonical username the posts were fetched for.
    user: String,
    posts: Vec<PostRecord>,
}

/// The filesystem state: the user registry and the post cache, threaded
/// by reference through every callback.
pub struct UserFS {
    names: indexmap::IndexMap<String, u64>,
    users: Vec<UserEntry>,
    posts: Vec<PostsEntry>,
}

impl UserFS {
    /// The registry's model: for each index in insertion order, the
    /// original reference name and the cached profile.
    pub closed spec fn users_model(self) -> Seq<(Seq<char>, ProfileView)> {
        self.users@.map(|i: int, e: UserEntry| (e.name@, e.user.about@))
    }

    /// The post cache's model: canonical username to the titles of the
    /// cached posts, in remote listing order.
    pub closed spec fn posts_model(self) -> Map<Seq<char>, Seq<Seq<char>>> {
        Map::new(
            |u: Seq<char>| exists|i: int| 0 <= i < self.posts@.len() && self.posts@[i].user@ == u,
            |u: Seq<char>|
                {
                    let i = choose|i: int|
                        0 <= i < self.posts@.len() && self.posts@[i].user@ == u;
                    self.posts@[i].posts@.map(|j: int, p: PostRecord| p.title@)
                },
        )
    }

    pub open spec fn user_count(self) -> int {
        self.users_model().len() as int
    }

    /// Whether some registered user's folded reference name is `f`.
    pub open spec fn knows(self, f: Seq<char>) -> bool {
        exists|i: int|
            0 <= i < self.user_count() && lower_of(#[trigger] self.users_model()[i].0) == f
    }

    /// The index assigned to the folded name `f`.
    pub open spec fn name_index(self, f: Seq<char>) -> int {
        choose|i: int|
            0 <= i < self.user_count() && lower_of(#[trigger] self.users_model()[i].0) == f
    }

    /// Room for one more index in the 59 bits a handle reserves, and for
    /// the two synthetic rows every listing of the root carries.
    pub open spec fn can_register(self) -> bool {
        self.user_count() < MAX_INDEX as int && self.user_count() + 3 <= usize::MAX as int
    }

    #[verifier::type_invariant]
    spec fn wf(self) -> bool {
        &&& index_entries(&self.names).len() == self.users@.len()
        &&& self.users@.len() <= MAX_INDEX as int
        &&& self.users@.len() + 2 <= usize::MAX as int
        &&& forall|i: int|
            0 <= i < self.users@.len() ==> #[trigger] index_entries(&self.names)[i] == (
                lower_of(self.users@[i].name@),
                i as u64,
            )
        &&& forall|i: int, j: int|
            0 <= i < j < self.users@.len() ==> lower_of(#[trigger] self.users@[i].name@)
                != lower_of(#[trigger] self.users@[j].name@)
        &&& forall|i: int, j: int|
            0 <= i < j < self.posts@.len() ==> (#[trigger] self.posts@[i].user@)
                != (#[trigger] self.posts@[j].user@)
    }

    /// An adapter with nothing registered and nothing cached.
    pub fn new() -> (r: UserFS)
        ensures
            r.user_count() == 0,
            r.posts_model() == Map::<Seq<char>, Seq<Seq<char>>>::empty(),
    {
        let r = UserFS { names: im_new(), users: Vec::new(), posts: Vec::new() };
        proof {
            assert(r.users_model() =~= Seq::<(Seq<char>, ProfileView)>::empty());
            assert(r.posts_model() =~= Map::<Seq<char>, Seq<Seq<char>>>::empty());
        }
        r
    }

    /// Exactly the folded names already registered have an index: the
    /// lookup issues no remote call and never mutates the registry.
    pub fn find_by_name(&self, name: &String) -> (r: Option<u64>)
        ensures
            match r {
                Some(i) => self.knows(lower_of(name@)) && i as int == self.name_index(
                    lower_of(name@),
                ) && (i as int) < self.user_count(),
                None => !self.knows(lower_of(name@)),
            },
    {
        proof {
            use_type_invariant(self);
        }
        let folded = fold_name(name);
        let found = im_get(&self.names, &folded);
        proof {
            match found {
                Some(v) => {
                    let j = choose|j: int|
                        0 <= j < index_entries(&self.names).len() && index_entries(&self.names)[j]
                            == (folded@, v);
                    assert(index_entries(&self.names)[j] == (
                        lower_of(self.users@[j].name@),
                        j as u64,
                    ));
                    assert(lower_of(self.users_model()[j].0) == lower_of(name@));
                    self.lemma_name_index_unique(lower_of(name@), j);
                },
                None => {
                    if self.knows(lower_of(name@)) {
                        let i = choose|i: int|
                            0 <= i < self.user_count() && lower_of(self.users_model()[i].0)
                                == lower_of(name@);
                        assert(index_entries(&self.names)[i].0 == folded@);
                    }
                },
            }
        }
        found
    }

    /// With distinct folded names, the index of a folded name is the
    /// position that carries it.
    proof fn lemma_name_index_unique(self, f: Seq<char>, i: int)
        requires
            self.wf(),
            0 <= i < self.user_count(),
            lower_of(self.users_model()[i].0) == f,
        ensures
            self.knows(f),
            self.name_index(f) == i,
    {
        let k = self.name_index(f);
        if k != i {
            if k < i {
                assert(lower_of(self.users@[k].name@) != lower_of(self.users@[i].name@));
            } else {
                assert(lower_of(self.users@[i].name@) != lower_of(self.users@[k].name@));
            }
        }
    }

    /// Resolve-or-insert with the fetched record: an already-known folded
    /// name keeps its entry and index untouched; a new one is assigned
    /// the next sequential index. The post cache is never touched.
    pub fn register(&mut self, name: &String, profile: UserProfile) -> (r: u64)
        requires
            old(self).can_register(),
        ensures
            if old(self).knows(lower_of(name@)) {
                *final(self) == *old(self) && r as int == old(self).name_index(lower_of(name@))
                    && (r as int) < old(self).user_count()
            } else {
                final(self).user_count() == old(self).user_count() + 1 && r as int == old(
                    self,
                ).user_count() && final(self).users_model() == old(self).users_model().push(
                    (name@, profile@),
                ) && final(self).posts_model() == old(self).posts_model()
            },
            final(self).knows(lower_of(name@)),
            r as int == final(self).name_index(lower_of(name@)),
            (r as int) < final(self).user_count(),
    {
        proof {
            use_type_invariant(&*self);
        }
        let folded = fold_name(name);
        let found = im_get(&self.names, &folded);
        match found {
            Some(v) => {
                proof {
                    let j = choose|j: int|
                        0 <= j < index_entries(&self.names).len() && index_entries(&self.names)[j]
                            == (folded@, v);
                    assert(index_entries(&self.names)[j] == (
                        lower_of(self.users@[j].name@),
                        j as u64,
                    ));
                    self.lemma_name_index_unique(lower_of(name@), j);
                }
                v
            },
            None => {
                proof {
                    if self.knows(lower_of(name@)) {
                        let i = choose|i: int|
                            0 <= i < self.user_count() && lower_of(self.users_model()[i].0)
                                == lower_of(name@);
                        assert(index_entries(&self.names)[i].0 == folded@);
                    }
                }
                let ghost prior = *self;
                let mut tmp = UserFS { names: im_new(), users: Vec::new(), posts: Vec::new() };
                core::mem::swap(self, &mut tmp);
                let UserFS { mut names, mut users, posts } = tmp;
                let idx = users.len() as u64;
                im_insert(&mut names, folded, idx);
                users.push(UserEntry { name: name.clone(), user: User::new(profile) });
                proof {
                    let pn = prior.users@.len() as int;
                    assert(users@.len() == pn + 1);
                    assert(index_entries(&names) == index_entries(&prior.names).push(
                        (lower_of(name@), pn as u64),
                    ));
                    assert forall|i: int| 0 <= i < users@.len() implies #[trigger] index_entries(
                        &names,
                    )[i] == (lower_of(users@[i].name@), i as u64) by {
                        if i < pn {
                            assert(index_entries(&prior.names)[i] == (
                                lower_of(prior.users@[i].name@),
                                i as u64,
                            ));
                            assert(users@[i] == prior.users@[i]);
                        } else {
                            assert(users@[i].name@ == name@);
                        }
                    }
                    assert forall|i: int, j: int| 0 <= i < j < users@.len() implies lower_of(
                        #[trigger] users@[i].name@,
                    ) != lower_of(#[trigger] users@[j].name@) by {
                        if j < pn {
                            assert(lower_of(prior.users@[i].name@) != lower_of(
                                prior.users@[j].name@,
                            ));
                        } else {
                            assert(index_entries(&prior.names)[i].0 != lower_of(name@));
                            assert(index_entries(&prior.names)[i] == (
                                lower_of(prior.users@[i].name@),
                                i as u64,
                            ));
                        }
                    }
                }
                *self = UserFS { names, users, posts };
                proof {
                    assert(self.users_model() =~= prior.users_model().push((name@, profile@)));
                    assert(self.posts_model() =~= prior.posts_model());
                    assert(lower_of(self.users_model()[idx as int].0) == lower_of(name@));
                    self.lemma_name_index_unique(lower_of(name@), idx as int);
                }
                idx
            },
        }
    }

    /// Total over previously assigned indices; any other index is an
    /// internal-consistency fault and yields no record.
    pub fn get_by_index(&self, idx: u64) -> (r: Option<&User>)
        ensures
            match r {
                Some(u) => (idx as int) < self.user_count() && u.about@ == self.users_model()[
                    idx as int
                ].1,
                None => (idx as int) >= self.user_count(),
            },
    {
        proof {
            use_type_invariant(self);
        }
        if idx < self.users.len() as u64 {
            proof {
                assert(self.users_model()[idx as int] == (
                    self.users@[idx as int].name@,
                    self.users@[idx as int].user.about@,
                ));
            }
            Some(&self.users[idx as usize].user)
        } else {
            None
        }
    }

    /// The original reference name a registered index is listed by.
    pub fn ref_name(&self, idx: u64) -> (r: Option<&String>)
        ensures
            match r {
                Some(n) => (idx as int) < self.user_count() && n@ == self.users_model()[
                    idx as int
                ].0,
                None => (idx as int) >= self.user_count(),
            },
    {
        proof {
            use_type_invariant(self);
        }
        if idx < self.users.len() as u64 {
            proof {
                assert(self.users_model()[idx as int] == (
                    self.users@[idx as int].name@,
                    self.users@[idx as int].user.about@,
                ));
            }
            Some(&self.users[idx as usize].name)
        } else {
            None
        }
    }

    /// The number of registered users.
    pub fn len(&self) -> (r: usize)
        ensures
            r as int == self.user_count(),
            self.user_count() <= MAX_INDEX as int,
            self.user_count() + 2 <= usize::MAX as int,
    {
        proof {
            use_type_invariant(self);
        }
        self.users.len()
    }

    /// The cached posts for an already-resolved canonical username, if
    /// any were cached: no remote call, no mutation.
    pub fn posts_for(&self, user: &String) -> (r: Option<&Vec<PostRecord>>)
        ensures
            match r {
                Some(p) => self.posts_model().contains_key(user@) && p@.map(
                    |j: int, q: PostRecord| q.title@,
                ) == self.posts_model()[user@],
                None => !self.posts_model().contains_key(user@),
            },
    {
        proof {
            use_type_invariant(self);
        }
        let mut i: usize = 0;
        while i < self.posts.len()
            invariant
                0 <= i <= self.posts@.len(),
                forall|j: int| 0 <= j < i ==> (#[trigger] self.posts@[j].user@) != user@,
                self.wf(),
            decreases self.posts@.len() - i,
        {
            if self.posts[i].user == *user {
                proof {
                    let w = choose|w: int|
                        0 <= w < self.posts@.len() && self.posts@[w].user@ == user@;
                    if w != i as int {
                        assert(self.posts@[if w < i as int {
                            w
                        } else {
                            i as int
                        }].user@ != self.posts@[if w < i as int {
                            i as int
                        } else {
                            w
                        }].user@);
                    }
                }
                return Some(&self.posts[i].posts);
            }
            i += 1;
        }
        proof {
            if self.posts_model().contains_key(user@) {
                let w = choose|w: int| 0 <= w < self.posts@.len() && self.posts@[w].user@ == user@;
                assert(self.posts@[w].user@ != user@);
            }
        }
        None
    }

    /// Fetch-once, cache-forever: a username already cached keeps its
    /// listing untouched, a new one is cached exactly as handed in. The
    /// registry is never touched.
    pub fn cache_posts(&mut self, user: &String, posts: Vec<PostRecord>)
        ensures
            final(self).users_model() == old(self).users_model(),
            if old(self).posts_model().contains_key(user@) {
                *final(self) == *old(self)
            } else {
                final(self).posts_model() == old(self).posts_model().insert(
                    user@,
                    posts@.map(|j: int, q: PostRecord| q.title@),
                )
            },
    {
        proof {
            use_type_invariant(&*self);
        }
        let already = match self.posts_for(user) {
            Some(_) => true,
            None => false,
        };
        if !already {
            let ghost prior = *self;
            let ghost postsv = posts@;
            let mut tmp = UserFS { names: im_new(), users: Vec::new(), posts: Vec::new() };
            core::mem::swap(self, &mut tmp);
            let UserFS { names, users, posts: mut cached } = tmp;
            cached.push(PostsEntry { user: user.clone(), posts });
            *self = UserFS { names, users, posts: cached };
            proof {
                let n = prior.posts@.len() as int;
                assert(self.posts@.len() == n + 1);
                assert(self.posts@[n].user@ == user@);
                assert(self.posts@[n].posts@ == postsv);
                assert(forall|w: int| 0 <= w < n ==> self.posts@[w] == prior.posts@[w]);
                assert forall|u: Seq<char>| #[trigger]
                    self.posts_model().contains_key(u) implies self.posts_model()[u] == (
                    if u == user@ {
                        postsv.map(|j: int, q: PostRecord| q.title@)
                    } else {
                        prior.posts_model()[u]
                    }
                ) by {
                    let w = choose|w: int| 0 <= w < self.posts@.len() && self.posts@[w].user@ == u;
                    if u == user@ {
                        if w < n {
                            assert(prior.posts@[w].user@ == user@);
                            assert(prior.posts_model().contains_key(user@));
                        }
                        assert(w == n);
                        assert(self.posts_model()[u] =~= postsv.map(
                            |j: int, q: PostRecord| q.title@,
                        ));
                    } else {
                        assert(self.posts@[w].user@ != user@);
                        assert(w < n);
                        assert(prior.posts@[w].user@ == u);
                        let wa = choose|wa: int|
                            0 <= wa < prior.posts@.len() && prior.posts@[wa].user@ == u;
                        if wa < w {
                            assert(prior.posts@[wa].user@ != prior.posts@[w].user@);
                        } else if w < wa {
                            assert(prior.posts@[w].user@ != prior.posts@[wa].user@);
                        }
                        assert(wa == w);
                        assert(self.posts_model()[u] =~= prior.posts_model()[u]);
                    }
                }
                assert(self.posts_model() =~= prior.posts_model().insert(
                    user@,
                    postsv.map(|j: int, q: PostRecord| q.title@),
                ));
                assert(self.users_model() =~= prior.users_model());
            }
        }
    }

    /// Whether one more user can still be assigned an index.
    pub fn has_capacity(&self) -> (r: bool)
        ensures
            r == self.can_register(),
    {
        proof {
            use_type_invariant(self);
        }
        (self.users.len() as u64) < MAX_INDEX && self.users.len() <= usize::MAX - 3
    }
}

} // verus!
