//! Cached remote profile records and the file attributes derived from them.

use vstd::prelude::*;
use crate::codec::EntryKind;

verus! {

/// One remote profile record: immutable once fetched, owned by the
/// registry for the lifetime of the filesystem.
pub struct UserProfile {
    /// The canonical display name the remote service reports.
    pub name: String,
    pub link_karma: i64,
    pub comment_karma: i64,
    /// Account creation time, seconds since the epoch.
    pub created: i64,
}

/// The mathematical model of a profile record.
pub ghost struct ProfileView {
    pub name: Seq<char>,
    pub link_karma: int,
    pub comment_karma: int,
    pub created: int,
}

impl View for UserProfile {
    type V = ProfileView;

    open spec fn view(&self) -> ProfileView {
        ProfileView {
            name: self.name@,
            link_karma: self.link_karma as int,
            comment_karma: self.comment_karma as int,
            created: self.created as int,
        }
    }
}

/// The attributes reported for one entry: everything the host runtime is
/// told that the cached state determines. The caller supplies the
/// process-wide owner and group ids itself.
#[derive(Clone, Copy, Debug, PartialEq, Eq, Structural)]
pub struct Attributes {
    pub ino: u64,
    pub size: u64,
    /// 512-byte blocks, as `size / 512`.
    pub blocks: u64,
    pub kind: EntryKind,
    /// Permission bits.
    pub perm: u16,
    /// The timestamp reported for every time field, seconds since the
    /// epoch: the account creation time, or zero for the root.
    pub sec: i64,
}

/// Whole years elapsed from `created` to `now`: days of 86400 seconds,
/// divided by 365, both divisions truncating toward zero.
pub open spec fn spec_age_years(created: int, now: int) -> int {
    if now >= created {
        ((now - created) / 86400) / 365
    } else {
        -(((created - now) / 86400) / 365)
    }
}

/// A profile record as cached by the registry.
pub struct User {
    pub about: UserProfile,
}

impl User {
    pub fn new(about: UserProfile) -> (r: User)
        ensures
            r.about == about,
    {
        User { about }
    }

    /// The timestamp every time field of this user's entries reports.
    pub fn timespec(&self) -> (r: i64)
        ensures
            r as int == self.about@.created,
    {
        self.about.created
    }

    /// The attributes of an entry of this user: sized and typed by the
    /// caller, timestamped with the account creation time.
    pub fn attrs(&self, ino: u64, kind: EntryKind, size: u64) -> (r: Attributes)
        ensures
            r == (Attributes {
                ino,
                size,
                blocks: size / 512,
                kind,
                perm: 0o644,
                sec: self.about.created,
            }),
    {
        Attributes { ino, size, blocks: size / 512, kind, perm: 0o644, sec: self.about.created }
    }
}

/// Whole years elapsed from `created` to `now`, computed without overflow
/// for every pair of timestamps.
pub fn age_years(created: i64, now: i64) -> (r: i64)
    ensures
        r as int == spec_age_years(created as int, now as int),
{
    if now >= created {
        let d: u64 = ((now as i128) - (created as i128)) as u64;
        let years = d / 86400 / 365;
        years as i64
    } else {
        let d: u64 = ((created as i128) - (now as i128)) as u64;
        let years = d / 86400 / 365;
        -(years as i64)
    }
}

} // verus!
