//! The content renderer: the canonical text of every profile field.
//!
//! Attribute queries report exactly the byte length of this rendering, so
//! that reads and attribute replies can never disagree.

use vstd::prelude::*;
use vstd::utf8::encode_utf8;
use crate::codec::FieldKind;
use crate::numfmt::{fmt_i64, spec_decimal_int};
use crate::profile::{spec_age_years, age_years, ProfileView, User};

verus! {

/// The multi-line summary block: display name, both karma counts, and the
/// account age in whole years measured against the time the callback is
/// served.
pub open spec fn spec_summary(p: ProfileView, now: int) -> Seq<char> {
    p.name + "\n"@ + "Link Karma: "@ + spec_decimal_int(p.link_karma) + "\n"@
        + "Comment Karma: "@ + spec_decimal_int(p.comment_karma) + "\n"@ + "A redditor for "@
        + spec_decimal_int(spec_age_years(p.created, now)) + " years\n"@
}

/// The canonical text of one field of one profile.
pub open spec fn spec_render(p: ProfileView, kind: FieldKind, now: int) -> Seq<char> {
    match kind {
        FieldKind::LinkKarma => spec_decimal_int(p.link_karma) + "\n"@,
        FieldKind::CommentKarma => spec_decimal_int(p.comment_karma) + "\n"@,
        FieldKind::Username => p.name + "\n"@,
        FieldKind::Created => spec_decimal_int(p.created) + "\n"@,
        FieldKind::Summary => spec_summary(p, now),
    }
}

/// The byte length of a rendering: what attribute queries must report.
pub open spec fn spec_render_len(p: ProfileView, kind: FieldKind, now: int) -> nat {
    encode_utf8(spec_render(p, kind, now)).len()
}

impl User {
    /// The summary file's contents, as served at time `now`.
    pub fn summary(&self, now: i64) -> (r: String)
        ensures
            r@ == spec_summary(self.about@, now as int),
    {
        let mut s = self.about.name.clone();
        s.append("\n");
        s.append("Link Karma: ");
        let lk = fmt_i64(self.about.link_karma);
        s.append(lk.as_str());
        s.append("\n");
        s.append("Comment Karma: ");
        let ck = fmt_i64(self.about.comment_karma);
        s.append(ck.as_str());
        s.append("\n");
        s.append("A redditor for ");
        let age = fmt_i64(age_years(self.about.created, now));
        s.append(age.as_str());
        s.append(" years\n");
        proof {
            assert(s@ =~= spec_summary(self.about@, now as int));
        }
        s
    }
}

/// Renders one field of one profile, as served at time `now`.
pub fn render_field(user: &User, kind: FieldKind, now: i64) -> (r: String)
    ensures
        r@ == spec_render(user.about@, kind, now as int),
{
    match kind {
        FieldKind::LinkKarma => {
            let mut s = fmt_i64(user.about.link_karma);
            s.append("\n");
            s
        },
        FieldKind::CommentKarma => {
            let mut s = fmt_i64(user.about.comment_karma);
            s.append("\n");
            s
        },
        FieldKind::Username => {
            let mut s = user.about.name.clone();
            s.append("\n");
            s
        },
        FieldKind::Created => {
            let mut s = fmt_i64(user.about.created);
            s.append("\n");
            s
        },
        FieldKind::Summary => user.summary(now),
    }
}

/// The rendered bytes of one field: what a read at offset zero with
/// unbounded length returns.
pub fn render_bytes(user: &User, kind: FieldKind, now: i64) -> (r: Vec<u8>)
    ensures
        r@ == encode_utf8(spec_render(user.about@, kind, now as int)),
{
    let s = render_field(user, kind, now);
    s.as_str().as_bytes_vec()
}

/// The byte length of one rendered field, as reported in attributes.
pub fn render_len(user: &User, kind: FieldKind, now: i64) -> (r: usize)
    ensures
        r as nat == spec_render_len(user.about@, kind, now as int),
{
    let b = render_bytes(user, kind, now);
    b.len()
}

} // verus!
