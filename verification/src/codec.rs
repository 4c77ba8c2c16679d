//! The resource codec: a bijection between semantic resources and the
//! numeric handles the host runtime passes back into every callback.
//!
//! A handle's low 5 bits hold a tag, one fixed constant per resource shape;
//! the remaining 59 bits hold the registry index. The root directory's tag
//! equals the host runtime's reserved root identity, so its handle is
//! exactly `1` and the very first attribute query resolves without state.

use vstd::prelude::*;

verus! {

/// The five derived values exposed as regular files under a user directory.
#[derive(Clone, Copy, Debug, PartialEq, Eq, Structural)]
pub enum FieldKind {
    LinkKarma,
    CommentKarma,
    Username,
    Created,
    Summary,
}

/// What kind of directory entry a resource presents as.
#[derive(Clone, Copy, Debug, PartialEq, Eq, Structural)]
pub enum EntryKind {
    Directory,
    RegularFile,
}

/// The semantic identity of every filesystem entry.
///
/// Each `u64` is an index into the user registry; the codec only carries
/// indices the registry produced, it never invents one.
#[derive(Clone, Copy, Debug, PartialEq, Eq, Structural)]
pub enum Resource {
    /// The singleton top-level directory.
    Root,
    /// The directory presenting one registered user.
    UserDir(u64),
    /// The directory presenting that user's recent posts.
    PostsDir(u64),
    /// One derived profile value, a regular file.
    Field(u64, FieldKind),
}

/// Per-call failures of the callback surface.
#[derive(Clone, Copy, Debug, PartialEq, Eq, Structural)]
pub enum FsError {
    /// Unknown username or field name.
    NotFound,
    /// A listing was asked of a regular file.
    NotADirectory,
    /// A read was asked of a directory.
    IsADirectory,
    /// A handle this adapter never issued: an internal-consistency fault.
    InvalidHandle,
    /// The remote collaborator failed for a reason other than not-found.
    RemoteUnavailable,
}

/// Indices fit the 59 bits a handle reserves for them.
pub const MAX_INDEX: u64 = 0x0800_0000_0000_0000;

/// The reserved root identity of the host runtime: the tag of `Root`.
pub const ROOT_TAG: u64 = 1;

pub open spec fn spec_tag(r: Resource) -> int {
    match r {
        Resource::Root => 1,
        Resource::UserDir(_) => 2,
        Resource::Field(_, FieldKind::LinkKarma) => 3,
        Resource::Field(_, FieldKind::CommentKarma) => 4,
        Resource::Field(_, FieldKind::Username) => 5,
        Resource::Field(_, FieldKind::Created) => 6,
        Resource::Field(_, FieldKind::Summary) => 7,
        Resource::PostsDir(_) => 8,
    }
}

pub open spec fn spec_index(r: Resource) -> int {
    match r {
        Resource::Root => 0,
        Resource::UserDir(i) => i as int,
        Resource::PostsDir(i) => i as int,
        Resource::Field(i, _) => i as int,
    }
}

/// A resource whose index fits the 59 index bits of a handle.
pub open spec fn resource_valid(r: Resource) -> bool {
    spec_index(r) < MAX_INDEX as int
}

/// The handle of a valid resource: tag in the low 5 bits, index above them.
pub open spec fn spec_to_ino(r: Resource) -> int {
    spec_tag(r) + 32 * spec_index(r)
}

/// The resource a handle decodes to, or `None` for a handle the codec
/// never issues.
pub open spec fn spec_from_ino(ino: u64) -> Option<Resource> {
    let tag = ino as int % 32;
    let idx = (ino as int / 32) as u64;
    if tag == 1 {
        if idx == 0 {
            Some(Resource::Root)
        } else {
            None
        }
    } else if tag == 2 {
        Some(Resource::UserDir(idx))
    } else if tag == 3 {
        Some(Resource::Field(idx, FieldKind::LinkKarma))
    } else if tag == 4 {
        Some(Resource::Field(idx, FieldKind::CommentKarma))
    } else if tag == 5 {
        Some(Resource::Field(idx, FieldKind::Username))
    } else if tag == 6 {
        Some(Resource::Field(idx, FieldKind::Created))
    } else if tag == 7 {
        Some(Resource::Field(idx, FieldKind::Summary))
    } else if tag == 8 {
        Some(Resource::PostsDir(idx))
    } else {
        None
    }
}

pub open spec fn spec_filetype(r: Resource) -> EntryKind {
    match r {
        Resource::Root => EntryKind::Directory,
        Resource::UserDir(_) => EntryKind::Directory,
        Resource::PostsDir(_) => EntryKind::Directory,
        Resource::Field(_, _) => EntryKind::RegularFile,
    }
}

impl Resource {
    /// Decoding is total over the handles the codec issues and rejects
    /// every other handle as an internal-consistency fault.
    pub fn from_ino(ino: u64) -> (r: Result<Resource, FsError>)
        ensures
            match spec_from_ino(ino) {
                Some(res) => r == Ok::<Resource, FsError>(res),
                None => r == Err::<Resource, FsError>(FsError::InvalidHandle),
            },
    {
        let tag = ino % 32;
        let idx = ino / 32;
        if tag == 1 {
            if idx == 0 {
                Ok(Resource::Root)
            } else {
                Err(FsError::InvalidHandle)
            }
        } else if tag == 2 {
            Ok(Resource::UserDir(idx))
        } else if tag == 3 {
            Ok(Resource::Field(idx, FieldKind::LinkKarma))
        } else if tag == 4 {
            Ok(Resource::Field(idx, FieldKind::CommentKarma))
        } else if tag == 5 {
            Ok(Resource::Field(idx, FieldKind::Username))
        } else if tag == 6 {
            Ok(Resource::Field(idx, FieldKind::Created))
        } else if tag == 7 {
            Ok(Resource::Field(idx, FieldKind::Summary))
        } else if tag == 8 {
            Ok(Resource::PostsDir(idx))
        } else {
            Err(FsError::InvalidHandle)
        }
    }

    /// Encoding is total, deterministic and side-effect-free over valid
    /// resources.
    pub fn to_ino(&self) -> (r: u64)
        requires
            resource_valid(*self),
        ensures
            r as int == spec_to_ino(*self),
    {
        let (tag, idx): (u64, u64) = match *self {
            Resource::Root => (1, 0),
            Resource::UserDir(i) => (2, i),
            Resource::Field(i, FieldKind::LinkKarma) => (3, i),
            Resource::Field(i, FieldKind::CommentKarma) => (4, i),
            Resource::Field(i, FieldKind::Username) => (5, i),
            Resource::Field(i, FieldKind::Created) => (6, i),
            Resource::Field(i, FieldKind::Summary) => (7, i),
            Resource::PostsDir(i) => (8, i),
        };
        tag + 32 * idx
    }

    /// Directories and regular files are fixed by the resource shape alone.
    pub fn filetype(&self) -> (r: EntryKind)
        ensures
            r == spec_filetype(*self),
    {
        match *self {
            Resource::Root => EntryKind::Directory,
            Resource::UserDir(_) => EntryKind::Directory,
            Resource::PostsDir(_) => EntryKind::Directory,
            Resource::Field(_, _) => EntryKind::RegularFile,
        }
    }
}

/// Encoding followed by decoding returns every valid resource unchanged:
/// the handle mapping is a bijection over the domain of valid resources.
pub proof fn lemma_handle_roundtrip(r: Resource)
    requires
        resource_valid(r),
    ensures
        spec_from_ino(spec_to_ino(r) as u64) == Some(r),
{
    let tag = spec_tag(r);
    let idx = spec_index(r);
    let ino = spec_to_ino(r);
    assert(0 <= ino < 0x1_0000_0000_0000_0000) by (nonlinear_arith)
        requires
            1 <= tag <= 8 && 0 <= idx < 0x0800_0000_0000_0000 && ino == tag + 32 * idx,
    ;
    assert(ino % 32 == tag && ino / 32 == idx) by (nonlinear_arith)
        requires
            1 <= tag <= 8 && 0 <= idx && ino == tag + 32 * idx,
    ;
}

/// The root directory encodes to the host runtime's reserved root
/// identity, so the first callback resolves before any state exists.
pub proof fn lemma_root_handle()
    ensures
        spec_to_ino(Resource::Root) == ROOT_TAG as int,
{
}

} // verus!
