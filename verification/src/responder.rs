//! The protocol responder: answers the four filesystem callbacks from the
//! cached state, and the directory enumerator it relies on.
//!
//! Callbacks that may need remote data come in two phases: the pure phase
//! inspects the cache and either replies or names the fetch it needs; the
//! caller performs that fetch and hands the outcome to the `_fetched`
//! phase, which completes the reply. A failed fetch never mutates the
//! cache.

use vstd::prelude::*;
use vstd::utf8::encode_utf8;
use crate::codec::{
    spec_from_ino, spec_index, spec_to_ino, EntryKind, FieldKind, FsError, Resource,
};
use crate::profile::{Attributes, UserProfile};
use crate::registry::{lower_of, FetchError, PostRecord, UserFS};
use crate::render::{render_bytes, render_len, spec_render, spec_render_len};

verus! {

/// One row of a directory listing reply.
pub struct DirEntry {
    pub ino: u64,
    pub kind: EntryKind,
    pub name: String,
}

/// The outcome of one name resolution.
pub enum ResolveStep {
    /// The entry exists: its handle and attributes.
    Found { ino: u64, attr: Attributes },
    /// The registry holds nothing under this folded name: the caller must
    /// fetch this user's profile and hand it to the `_fetched` phase.
    Fetch { name: String },
    Fail { err: FsError },
}

/// The outcome of one directory listing.
pub enum ListStep {
    Listing { entries: Vec<DirEntry> },
    /// The posts of this canonical username are not cached yet: the
    /// caller must fetch them and hand them to the `_fetched` phase.
    FetchPosts { name: String },
    Fail { err: FsError },
}

/// The attributes of a resolved resource, as served at time `now`: fixed
/// for the root, timestamped with the account creation time for
/// everything under it, and sized by the content renderer for fields.
pub open spec fn spec_attributes(fs: UserFS, r: Resource, now: int) -> Attributes
    recommends
        r == Resource::Root || spec_index(r) < fs.user_count(),
{
    match r {
        Resource::Root => Attributes {
            ino: 1u64,
            size: 0u64,
            blocks: 0u64,
            kind: EntryKind::Directory,
            perm: 0o755u16,
            sec: 0i64,
        },
        Resource::UserDir(i) => Attributes {
            ino: spec_to_ino(r) as u64,
            size: 0u64,
            blocks: 0u64,
            kind: EntryKind::Directory,
            perm: 0o644u16,
            sec: fs.users_model()[i as int].1.created as i64,
        },
        Resource::PostsDir(i) => Attributes {
            ino: spec_to_ino(r) as u64,
            size: 0u64,
            blocks: 0u64,
            kind: EntryKind::Directory,
            perm: 0o644u16,
            sec: fs.users_model()[i as int].1.created as i64,
        },
        Resource::Field(i, k) => {
            let size = spec_render_len(fs.users_model()[i as int].1, k, now) as u64;
            Attributes {
                ino: spec_to_ino(r) as u64,
                size,
                blocks: size / 512,
                kind: EntryKind::RegularFile,
                perm: 0o644u16,
                sec: fs.users_model()[i as int].1.created as i64,
            }
        },
    }
}

/// The fixed lookup table of a user directory: each child name maps to
/// the resource of that user it denotes.
pub open spec fn spec_child_of(name: Seq<char>, i: u64) -> Option<Resource> {
    if name == "linkkarma"@ {
        Some(Resource::Field(i, FieldKind::LinkKarma))
    } else if name == "commentkarma"@ {
        Some(Resource::Field(i, FieldKind::CommentKarma))
    } else if name == "username"@ {
        Some(Resource::Field(i, FieldKind::Username))
    } else if name == "created"@ {
        Some(Resource::Field(i, FieldKind::Created))
    } else if name == "summary"@ {
        Some(Resource::Field(i, FieldKind::Summary))
    } else if name == "_posts"@ {
        Some(Resource::PostsDir(i))
    } else {
        None
    }
}

/// Maps a child name under a user directory to its resource.
pub fn lookup_user_resource(name: &String, i: u64) -> (r: Option<Resource>)
    ensures
        r == spec_child_of(name@, i),
{
    if *name == String::from_str("linkkarma") {
        Some(Resource::Field(i, FieldKind::LinkKarma))
    } else if *name == String::from_str("commentkarma") {
        Some(Resource::Field(i, FieldKind::CommentKarma))
    } else if *name == String::from_str("username") {
        Some(Resource::Field(i, FieldKind::Username))
    } else if *name == String::from_str("created") {
        Some(Resource::Field(i, FieldKind::Created))
    } else if *name == String::from_str("summary") {
        Some(Resource::Field(i, FieldKind::Summary))
    } else if *name == String::from_str("_posts") {
        Some(Resource::PostsDir(i))
    } else {
        None
    }
}

/// The requested byte window of a file's contents: empty past the end,
/// otherwise the contents from `offset` for at most `len` bytes.
pub open spec fn spec_read_slice(content: Seq<u8>, offset: int, len: int) -> Seq<u8> {
    if offset >= content.len() {
        Seq::empty()
    } else if offset + len <= content.len() {
        content.subrange(offset, offset + len)
    } else {
        content.subrange(offset, content.len() as int)
    }
}

/// The full deterministic listing of a directory resource: the two
/// synthetic entries, then the enumerator's rows in their fixed order.
/// The post cache holds records for a posts directory, but the handle
/// scheme admits no per-post resource, so no row is derived from them.
pub open spec fn spec_listing(fs: UserFS, r: Resource) -> Seq<(int, EntryKind, Seq<char>)> {
    let dots = seq![
        (1int, EntryKind::Directory, "."@),
        (1int, EntryKind::Directory, ".."@),
    ];
    match r {
        Resource::Root => dots + Seq::new(
            fs.user_count() as nat,
            |i: int| (
                spec_to_ino(Resource::UserDir(i as u64)),
                EntryKind::Directory,
                fs.users_model()[i].0,
            ),
        ),
        Resource::UserDir(u) => dots + seq![
            (
                spec_to_ino(Resource::Field(u, FieldKind::LinkKarma)),
                EntryKind::RegularFile,
                "linkkarma"@,
            ),
            (
                spec_to_ino(Resource::Field(u, FieldKind::CommentKarma)),
                EntryKind::RegularFile,
                "commentkarma"@,
            ),
            (
                spec_to_ino(Resource::Field(u, FieldKind::Username)),
                EntryKind::RegularFile,
                "username"@,
            ),
            (
                spec_to_ino(Resource::Field(u, FieldKind::Created)),
                EntryKind::RegularFile,
                "created"@,
            ),
            (
                spec_to_ino(Resource::Field(u, FieldKind::Summary)),
                EntryKind::RegularFile,
                "summary"@,
            ),
            (spec_to_ino(Resource::PostsDir(u)), EntryKind::Directory, "_posts"@),
        ],
        Resource::PostsDir(_) => dots,
        Resource::Field(_, _) => Seq::empty(),
    }
}

/// The rows a listing reply carries: the full listing from `offset` on.
pub open spec fn listing_from(
    v: Seq<DirEntry>,
    full: Seq<(int, EntryKind, Seq<char>)>,
    offset: int,
) -> bool {
    &&& v.len() == if offset <= full.len() {
        full.len() - offset
    } else {
        0
    }
    &&& forall|j: int|
        0 <= j < v.len() ==> (#[trigger] v[j]).ino as int == full[offset + j].0 && v[j].kind
            == full[offset + j].1 && v[j].name@ == full[offset + j].2
}

impl UserFS {
    /// One row of the full listing of a directory resource.
    fn listing_entry(&self, dir: Resource, p: usize) -> (r: DirEntry)
        requires
            dir == Resource::Root || matches!(dir, Resource::UserDir(_)) || matches!(
                dir,
                Resource::PostsDir(_),
            ),
            spec_index(dir) < self.user_count() || dir == Resource::Root,
            p < spec_listing(*self, dir).len(),
            self.user_count() <= crate::codec::MAX_INDEX as int,
        ensures
            r.ino as int == spec_listing(*self, dir)[p as int].0,
            r.kind == spec_listing(*self, dir)[p as int].1,
            r.name@ == spec_listing(*self, dir)[p as int].2,
    {
        if p == 0 {
            DirEntry { ino: 1, kind: EntryKind::Directory, name: String::from_str(".") }
        } else if p == 1 {
            DirEntry { ino: 1, kind: EntryKind::Directory, name: String::from_str("..") }
        } else {
            match dir {
                Resource::Root => {
                    let i = (p - 2) as u64;
                    let res = Resource::UserDir(i);
                    match self.ref_name(i) {
                        Some(n) => DirEntry {
                            ino: res.to_ino(),
                            kind: EntryKind::Directory,
                            name: n.clone(),
                        },
                        None => {
                            proof {
                                assert(false);
                            }
                            DirEntry { ino: 1, kind: EntryKind::Directory, name: String::new() }
                        },
                    }
                },
                Resource::UserDir(u) => {
                    if p == 2 {
                        DirEntry {
                            ino: Resource::Field(u, FieldKind::LinkKarma).to_ino(),
                            kind: EntryKind::RegularFile,
                            name: String::from_str("linkkarma"),
                        }
                    } else if p == 3 {
                        DirEntry {
                            ino: Resource::Field(u, FieldKind::CommentKarma).to_ino(),
                            kind: EntryKind::RegularFile,
                            name: String::from_str("commentkarma"),
                        }
                    } else if p == 4 {
                        DirEntry {
                            ino: Resource::Field(u, FieldKind::Username).to_ino(),
                            kind: EntryKind::RegularFile,
                            name: String::from_str("username"),
                        }
                    } else if p == 5 {
                        DirEntry {
                            ino: Resource::Field(u, FieldKind::Created).to_ino(),
                            kind: EntryKind::RegularFile,
                            name: String::from_str("created"),
                        }
                    } else if p == 6 {
                        DirEntry {
                            ino: Resource::Field(u, FieldKind::Summary).to_ino(),
                            kind: EntryKind::RegularFile,
                            name: String::from_str("summary"),
                        }
                    } else {
                        DirEntry {
                            ino: Resource::PostsDir(u).to_ino(),
                            kind: EntryKind::Directory,
                            name: String::from_str("_posts"),
                        }
                    }
                },
                _ => {
                    proof {
                        assert(false);
                    }
                    DirEntry { ino: 1, kind: EntryKind::Directory, name: String::new() }
                },
            }
        }
    }

    /// The listing rows of a directory resource from `offset` on:
    /// skipping a previously returned position resumes the same
    /// deterministic enumeration.
    fn listing_tail(&self, dir: Resource, offset: usize) -> (r: Vec<DirEntry>)
        requires
            dir == Resource::Root || matches!(dir, Resource::UserDir(_)) || matches!(
                dir,
                Resource::PostsDir(_),
            ),
            spec_index(dir) < self.user_count() || dir == Resource::Root,
            self.user_count() <= crate::codec::MAX_INDEX as int,
            spec_listing(*self, dir).len() <= usize::MAX,
        ensures
            listing_from(r@, spec_listing(*self, dir), offset as int),
    {
        let total: usize = match dir {
            Resource::Root => {
                let n = self.len();
                proof {
                    assert(spec_listing(*self, dir).len() == 2 + self.user_count());
                }
                2 + n
            },
            Resource::UserDir(_) => 8,
            _ => 2,
        };
        let mut out: Vec<DirEntry> = Vec::new();
        let mut p: usize = offset;
        if p > total {
            return out;
        }
        while p < total
            invariant
                offset <= p <= total,
                total == spec_listing(*self, dir).len(),
                dir == Resource::Root || matches!(dir, Resource::UserDir(_)) || matches!(
                    dir,
                    Resource::PostsDir(_),
                ),
                spec_index(dir) < self.user_count() || dir == Resource::Root,
                self.user_count() <= crate::codec::MAX_INDEX as int,
                out@.len() == p - offset,
                forall|j: int|
                    0 <= j < out@.len() ==> (#[trigger] out@[j]).ino as int == spec_listing(
                        *self,
                        dir,
                    )[offset + j].0 && out@[j].kind == spec_listing(*self, dir)[offset + j].1
                        && out@[j].name@ == spec_listing(*self, dir)[offset + j].2,
            decreases total - p,
        {
            let e = self.listing_entry(dir, p);
            out.push(e);
            p += 1;
        }
        out
    }

    /// The handle and attributes of a resolved resource of a registered
    /// user.
    fn found_resource(&self, res: Resource, now: i64) -> (r: ResolveStep)
        requires
            res != Resource::Root,
            spec_index(res) < self.user_count(),
        ensures
            r == (ResolveStep::Found {
                ino: spec_to_ino(res) as u64,
                attr: spec_attributes(*self, res, now as int),
            }),
    {
        let n = self.len();
        let i: u64 = match res {
            Resource::UserDir(i) => i,
            Resource::PostsDir(i) => i,
            Resource::Field(i, _) => i,
            Resource::Root => 0,
        };
        match self.get_by_index(i) {
            None => {
                proof {
                    assert(false);
                }
                ResolveStep::Fail { err: FsError::InvalidHandle }
            },
            Some(user) => {
                let ino = res.to_ino();
                match res {
                    Resource::Field(_, k) => {
                        let size = render_len(user, k, now);
                        ResolveStep::Found {
                            ino,
                            attr: user.attrs(ino, EntryKind::RegularFile, size as u64),
                        }
                    },
                    _ => ResolveStep::Found {
                        ino,
                        attr: user.attrs(ino, EntryKind::Directory, 0),
                    },
                }
            },
        }
    }

    /// Name resolution: under the root, a known folded username resolves
    /// with no remote call and an unknown one names the fetch it needs;
    /// under a user directory, the fixed child table decides; any other
    /// parent, or an unknown child name, is `NotFound`. The cache is
    /// never mutated.
    pub fn resolve_name(&self, parent: u64, name: &String, now: i64) -> (r: ResolveStep)
        ensures
            match spec_from_ino(parent) {
                None => r == (ResolveStep::Fail { err: FsError::InvalidHandle }),
                Some(Resource::Root) => if self.knows(lower_of(name@)) {
                    r == (ResolveStep::Found {
                        ino: spec_to_ino(
                            Resource::UserDir(self.name_index(lower_of(name@)) as u64),
                        ) as u64,
                        attr: spec_attributes(
                            *self,
                            Resource::UserDir(self.name_index(lower_of(name@)) as u64),
                            now as int,
                        ),
                    })
                } else {
                    r matches ResolveStep::Fetch { name: f } && f@ == lower_of(name@)
                },
                Some(Resource::UserDir(i)) => if (i as int) < self.user_count() {
                    match spec_child_of(name@, i) {
                        Some(res) => r == (ResolveStep::Found {
                            ino: spec_to_ino(res) as u64,
                            attr: spec_attributes(*self, res, now as int),
                        }),
                        None => r == (ResolveStep::Fail { err: FsError::NotFound }),
                    }
                } else {
                    r == (ResolveStep::Fail { err: FsError::InvalidHandle })
                },
                Some(_) => r == (ResolveStep::Fail { err: FsError::NotFound }),
            },
    {
        match Resource::from_ino(parent) {
            Err(e) => ResolveStep::Fail { err: e },
            Ok(Resource::Root) => match self.find_by_name(name) {
                Some(i) => self.found_resource(Resource::UserDir(i), now),
                None => ResolveStep::Fetch { name: crate::registry::fold_name(name) },
            },
            Ok(Resource::UserDir(i)) => {
                let n = self.len();
                if i < n as u64 {
                    match lookup_user_resource(name, i) {
                        Some(res) => self.found_resource(res, now),
                        None => ResolveStep::Fail { err: FsError::NotFound },
                    }
                } else {
                    ResolveStep::Fail { err: FsError::InvalidHandle }
                }
            },
            Ok(_) => ResolveStep::Fail { err: FsError::NotFound },
        }
    }

    /// Completes a root resolution with the fetched outcome. A folded
    /// name registered meanwhile keeps its entry, and the record is
    /// discarded; otherwise a successful fetch registers the profile
    /// under the next index, and a failed one leaves the registry
    /// exactly as it was: no partial entry, no reserved index.
    pub fn resolve_name_fetched(
        &mut self,
        name: &String,
        fetched: Result<UserProfile, FetchError>,
        now: i64,
    ) -> (r: ResolveStep)
        requires
            old(self).can_register(),
        ensures
            final(self).posts_model() == old(self).posts_model(),
            if old(self).knows(lower_of(name@)) {
                *final(self) == *old(self) && r == (ResolveStep::Found {
                    ino: spec_to_ino(
                        Resource::UserDir(old(self).name_index(lower_of(name@)) as u64),
                    ) as u64,
                    attr: spec_attributes(
                        *old(self),
                        Resource::UserDir(old(self).name_index(lower_of(name@)) as u64),
                        now as int,
                    ),
                })
            } else {
                match fetched {
                    Ok(p) => final(self).users_model() == old(self).users_model().push(
                        (name@, p@),
                    ) && r == (ResolveStep::Found {
                        ino: spec_to_ino(
                            Resource::UserDir(old(self).user_count() as u64),
                        ) as u64,
                        attr: spec_attributes(
                            *final(self),
                            Resource::UserDir(old(self).user_count() as u64),
                            now as int,
                        ),
                    }),
                    Err(FetchError::NotFound) => *final(self) == *old(self) && r == (
                    ResolveStep::Fail { err: FsError::NotFound }),
                    Err(FetchError::Transport) => *final(self) == *old(self) && r == (
                    ResolveStep::Fail { err: FsError::RemoteUnavailable }),
                }
            },
    {
        match self.find_by_name(name) {
            Some(i) => self.found_resource(Resource::UserDir(i), now),
            None => match fetched {
                Ok(p) => {
                    let i = self.register(name, p);
                    self.found_resource(Resource::UserDir(i), now)
                },
                Err(FetchError::NotFound) => ResolveStep::Fail { err: FsError::NotFound },
                Err(FetchError::Transport) => ResolveStep::Fail {
                    err: FsError::RemoteUnavailable,
                },
            },
        }
    }

    /// The attribute query: fixed directory attributes for the root
    /// whatever the registry holds, creation-timestamped directory
    /// attributes for user and posts directories, and regular-file
    /// attributes sized to the rendered content for fields. A handle the
    /// codec never issued, or an index never assigned, is an
    /// internal-consistency fault.
    pub fn get_attributes(&self, ino: u64, now: i64) -> (r: Result<Attributes, FsError>)
        ensures
            match spec_from_ino(ino) {
                None => r == Err::<Attributes, FsError>(FsError::InvalidHandle),
                Some(Resource::Root) => r == Ok::<Attributes, FsError>(
                    spec_attributes(*self, Resource::Root, now as int),
                ),
                Some(res) => if spec_index(res) < self.user_count() {
                    r == Ok::<Attributes, FsError>(spec_attributes(*self, res, now as int))
                } else {
                    r == Err::<Attributes, FsError>(FsError::InvalidHandle)
                },
            },
    {
        match Resource::from_ino(ino) {
            Err(e) => Err(e),
            Ok(Resource::Root) => Ok(
                Attributes {
                    ino: 1,
                    size: 0,
                    blocks: 0,
                    kind: EntryKind::Directory,
                    perm: 0o755,
                    sec: 0,
                },
            ),
            Ok(res) => {
                let n = self.len();
                let i: u64 = match res {
                    Resource::UserDir(i) => i,
                    Resource::PostsDir(i) => i,
                    Resource::Field(i, _) => i,
                    Resource::Root => 0,
                };
                if i < n as u64 {
                    match self.found_resource(res, now) {
                        ResolveStep::Found { ino: _, attr } => Ok(attr),
                        _ => {
                            proof {
                                assert(false);
                            }
                            Err(FsError::InvalidHandle)
                        },
                    }
                } else {
                    Err(FsError::InvalidHandle)
                }
            },
        }
    }

    /// The read: only fields can be read, a directory is refused, and
    /// the reply is the requested byte window of the rendering — an
    /// offset past the end returns empty, never an error.
    pub fn read_file(&self, ino: u64, offset: u64, size: u32, now: i64) -> (r: Result<
        Vec<u8>,
        FsError,
    >)
        ensures
            match spec_from_ino(ino) {
                None => r == Err::<Vec<u8>, FsError>(FsError::InvalidHandle),
                Some(Resource::Field(i, k)) => if (i as int) < self.user_count() {
                    r matches Ok(v) && v@ == spec_read_slice(
                        encode_utf8(spec_render(self.users_model()[i as int].1, k, now as int)),
                        offset as int,
                        size as int,
                    )
                } else {
                    r == Err::<Vec<u8>, FsError>(FsError::InvalidHandle)
                },
                Some(_) => r == Err::<Vec<u8>, FsError>(FsError::IsADirectory),
            },
    {
        match Resource::from_ino(ino) {
            Err(e) => Err(e),
            Ok(Resource::Field(i, k)) => {
                let n = self.len();
                if i < n as u64 {
                    match self.get_by_index(i) {
                        None => {
                            proof {
                                assert(false);
                            }
                            Err(FsError::InvalidHandle)
                        },
                        Some(user) => {
                            let bytes = render_bytes(user, k, now);
                            let blen = bytes.len();
                            if offset >= blen as u64 {
                                Ok(Vec::new())
                            } else {
                                let off = offset as usize;
                                let remaining = blen - off;
                                let take: usize = if (size as usize) < remaining {
                                    size as usize
                                } else {
                                    remaining
                                };
                                let mut out: Vec<u8> = Vec::new();
                                let mut j: usize = 0;
                                while j < take
                                    invariant
                                        j <= take,
                                        off + take <= bytes@.len(),
                                        off + take <= usize::MAX,
                                        out@.len() == j,
                                        forall|w: int|
                                            0 <= w < j ==> #[trigger] out@[w] == bytes@[off + w],
                                    decreases take - j,
                                {
                                    out.push(bytes[off + j]);
                                    j += 1;
                                }
                                proof {
                                    assert(out@ =~= spec_read_slice(
                                        bytes@,
                                        offset as int,
                                        size as int,
                                    ));
                                }
                                Ok(out)
                            }
                        },
                    }
                } else {
                    Err(FsError::InvalidHandle)
                }
            },
            Ok(_) => Err(FsError::IsADirectory),
        }
    }

    /// The listing: a field is refused, the root and user directories
    /// list from the cache alone, and a posts directory either lists or
    /// names the posts fetch it needs. The cache is never mutated.
    pub fn list_directory(&self, ino: u64, offset: usize) -> (r: ListStep)
        ensures
            match spec_from_ino(ino) {
                None => r == (ListStep::Fail { err: FsError::InvalidHandle }),
                Some(Resource::Field(_, _)) => r == (ListStep::Fail {
                    err: FsError::NotADirectory,
                }),
                Some(Resource::Root) => r matches ListStep::Listing { entries } && listing_from(
                    entries@,
                    spec_listing(*self, Resource::Root),
                    offset as int,
                ),
                Some(res) => if spec_index(res) < self.user_count() {
                    if res matches Resource::PostsDir(i) && !self.posts_model().contains_key(
                        self.users_model()[spec_index(res)].1.name,
                    ) {
                        r matches ListStep::FetchPosts { name: f } && f@ == self.users_model()[
                            spec_index(res)
                        ].1.name
                    } else {
                        r matches ListStep::Listing { entries } && listing_from(
                            entries@,
                            spec_listing(*self, res),
                            offset as int,
                        )
                    }
                } else {
                    r == (ListStep::Fail { err: FsError::InvalidHandle })
                },
            },
    {
        match Resource::from_ino(ino) {
            Err(e) => ListStep::Fail { err: e },
            Ok(Resource::Root) => {
                let n = self.len();
                ListStep::Listing { entries: self.listing_tail(Resource::Root, offset) }
            },
            Ok(Resource::Field(_, _)) => ListStep::Fail { err: FsError::NotADirectory },
            Ok(res) => {
                let n = self.len();
                let i: u64 = match res {
                    Resource::UserDir(i) => i,
                    Resource::PostsDir(i) => i,
                    _ => 0,
                };
                if i < n as u64 {
                    match res {
                        Resource::PostsDir(_) => {
                            let canon = match self.get_by_index(i) {
                                Some(user) => user.about.name.clone(),
                                None => {
                                    proof {
                                        assert(false);
                                    }
                                    String::new()
                                },
                            };
                            match self.posts_for(&canon) {
                                Some(_) => ListStep::Listing {
                                    entries: self.listing_tail(res, offset),
                                },
                                None => ListStep::FetchPosts { name: canon },
                            }
                        },
                        _ => ListStep::Listing { entries: self.listing_tail(res, offset) },
                    }
                } else {
                    ListStep::Fail { err: FsError::InvalidHandle }
                }
            },
        }
    }

    /// Completes a posts-directory listing with the fetched outcome:
    /// posts already cached meanwhile stay as they are and the fetched
    /// ones are discarded; otherwise a successful fetch caches them, and
    /// a failure leaves the cache untouched and reports the remote as
    /// unavailable. The registry itself is never touched.
    pub fn list_directory_fetched(
        &mut self,
        ino: u64,
        offset: usize,
        fetched: Result<Vec<PostRecord>, FetchError>,
    ) -> (r: Result<Vec<DirEntry>, FsError>)
        ensures
            final(self).users_model() == old(self).users_model(),
            match spec_from_ino(ino) {
                None => *final(self) == *old(self) && r == Err::<Vec<DirEntry>, FsError>(
                    FsError::InvalidHandle,
                ),
                Some(Resource::PostsDir(i)) => if (i as int) < old(self).user_count() {
                    {
                        let canon = old(self).users_model()[i as int].1.name;
                        &&& r matches Ok(v) ==> listing_from(
                            v@,
                            spec_listing(*old(self), Resource::PostsDir(i)),
                            offset as int,
                        )
                        &&& if old(self).posts_model().contains_key(canon) {
                            *final(self) == *old(self) && r is Ok
                        } else {
                            match fetched {
                                Ok(p) => final(self).posts_model() == old(
                                    self,
                                ).posts_model().insert(
                                    canon,
                                    p@.map(|j: int, q: PostRecord| q.title@),
                                ) && r is Ok,
                                Err(_) => *final(self) == *old(self) && r
                                    == Err::<Vec<DirEntry>, FsError>(FsError::RemoteUnavailable),
                            }
                        }
                    }
                } else {
                    *final(self) == *old(self) && r == Err::<Vec<DirEntry>, FsError>(
                        FsError::InvalidHandle,
                    )
                },
                Some(Resource::Field(_, _)) => *final(self) == *old(self) && r == Err::<
                    Vec<DirEntry>,
                    FsError,
                >(FsError::NotADirectory),
                Some(Resource::Root) => *final(self) == *old(self) && (r matches Ok(v)
                    && listing_from(v@, spec_listing(*old(self), Resource::Root), offset as int)),
                Some(Resource::UserDir(i)) => if (i as int) < old(self).user_count() {
                    *final(self) == *old(self) && (r matches Ok(v) && listing_from(
                        v@,
                        spec_listing(*old(self), Resource::UserDir(i)),
                        offset as int,
                    ))
                } else {
                    *final(self) == *old(self) && r == Err::<Vec<DirEntry>, FsError>(
                        FsError::InvalidHandle,
                    )
                },
            },
    {
        match Resource::from_ino(ino) {
            Err(e) => Err(e),
            Ok(Resource::Root) => {
                let n = self.len();
                Ok(self.listing_tail(Resource::Root, offset))
            },
            Ok(Resource::Field(_, _)) => Err(FsError::NotADirectory),
            Ok(res) => {
                let n = self.len();
                let i: u64 = match res {
                    Resource::UserDir(i) => i,
                    Resource::PostsDir(i) => i,
                    _ => 0,
                };
                if i < n as u64 {
                    match res {
                        Resource::PostsDir(_) => {
                            let canon = match self.get_by_index(i) {
                                Some(user) => user.about.name.clone(),
                                None => {
                                    proof {
                                        assert(false);
                                    }
                                    String::new()
                                },
                            };
                            let cached = match self.posts_for(&canon) {
                                Some(_) => true,
                                None => false,
                            };
                            if cached {
                                Ok(self.listing_tail(res, offset))
                            } else {
                                match fetched {
                                    Ok(p) => {
                                        self.cache_posts(&canon, p);
                                        Ok(self.listing_tail(res, offset))
                                    },
                                    Err(_) => Err(FsError::RemoteUnavailable),
                                }
                            }
                        },
                        _ => Ok(self.listing_tail(res, offset)),
                    }
                } else {
                    Err(FsError::InvalidHandle)
                }
            },
        }
    }
}

/// Fetch-once: registering a profile under a folded name makes the
/// registry know every username with that folded form, so no later
/// resolution of such a username asks for a fetch again.
pub proof fn lemma_fetch_once(
    pre: UserFS,
    post: UserFS,
    name: Seq<char>,
    p: crate::profile::ProfileView,
    other: Seq<char>,
)
    requires
        post.users_model() == pre.users_model().push((name, p)),
        lower_of(other) == lower_of(name),
    ensures
        post.knows(lower_of(other)),
{
    let n = pre.users_model().len() as int;
    assert(post.users_model()[n].0 == name);
    assert(lower_of(post.users_model()[n].0) == lower_of(other));
}

/// Case-insensitive identity: two usernames with the same folded form
/// are known together and share one index.
pub proof fn lemma_case_insensitive_identity(fs: UserFS, a: Seq<char>, b: Seq<char>)
    requires
        lower_of(a) == lower_of(b),
    ensures
        fs.knows(lower_of(a)) <==> fs.knows(lower_of(b)),
        fs.name_index(lower_of(a)) == fs.name_index(lower_of(b)),
{
}

/// Content/size agreement: the size an attribute query reports for a
/// field equals the byte length of the rendering a read serves, at the
/// same serving time.
pub proof fn lemma_content_size_agreement(fs: UserFS, i: u64, k: FieldKind, now: int)
    requires
        (i as int) < fs.user_count(),
        spec_render_len(fs.users_model()[i as int].1, k, now) <= u64::MAX,
    ensures
        spec_attributes(fs, Resource::Field(i, k), now).size == encode_utf8(
            spec_render(fs.users_model()[i as int].1, k, now),
        ).len(),
{
}

/// Listing completeness: the root listing holds exactly the two
/// synthetic rows and then one row per registered user, in insertion
/// order, each named by its reference name and handled by its index.
pub proof fn lemma_listing_completeness(fs: UserFS)
    ensures
        spec_listing(fs, Resource::Root).len() == 2 + fs.user_count(),
        forall|i: int|
            0 <= i < fs.user_count() ==> #[trigger] spec_listing(fs, Resource::Root)[2 + i] == (
                spec_to_ino(Resource::UserDir(i as u64)),
                EntryKind::Directory,
                fs.users_model()[i].0,
            ),
{
}

} // verus!
