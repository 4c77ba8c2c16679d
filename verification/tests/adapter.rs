use reddit_fs::codec::{EntryKind, FsError, Resource};
use reddit_fs::numfmt::{fmt_i64, fmt_u64};
use reddit_fs::profile::UserProfile;
use reddit_fs::registry::{FetchError, PostRecord, UserFS};
use reddit_fs::responder::{ListStep, ResolveStep};

const ROOT_INO: u64 = 1;

fn profile(name: &str, link: i64, comment: i64, created: i64) -> UserProfile {
    UserProfile {
        name: name.to_string(),
        link_karma: link,
        comment_karma: comment,
        created,
    }
}

/// Registers a user by the reference name `refname` and returns the
/// handle of its directory.
fn register(fs: &mut UserFS, refname: &str, p: UserProfile) -> u64 {
    match fs.resolve_name(ROOT_INO, &refname.to_string(), 0) {
        ResolveStep::Fetch { name: _ } => {}
        _ => panic!("expected a fetch request for an unknown username"),
    }
    match fs.resolve_name_fetched(&refname.to_string(), Ok(p), 0) {
        ResolveStep::Found { ino, attr: _ } => ino,
        _ => panic!("expected the fetched profile to resolve"),
    }
}

#[test]
fn handle_roundtrip_concrete() {
    let resources = [
        Resource::Root,
        Resource::UserDir(0),
        Resource::UserDir(7),
        Resource::PostsDir(3),
        Resource::Field(0, reddit_fs::codec::FieldKind::LinkKarma),
        Resource::Field(2, reddit_fs::codec::FieldKind::CommentKarma),
        Resource::Field(9, reddit_fs::codec::FieldKind::Username),
        Resource::Field(1, reddit_fs::codec::FieldKind::Created),
        Resource::Field(4, reddit_fs::codec::FieldKind::Summary),
    ];
    for r in resources {
        assert_eq!(Resource::from_ino(r.to_ino()), Ok(r));
    }
}

#[test]
fn root_handle_is_reserved_identity() {
    assert_eq!(Resource::Root.to_ino(), 1);
}

#[test]
fn unrecognized_tags_are_invalid() {
    assert_eq!(Resource::from_ino(0), Err(FsError::InvalidHandle));
    for tag in 9u64..32 {
        assert_eq!(Resource::from_ino(tag), Err(FsError::InvalidHandle));
    }
    // A root tag with a nonzero index was never issued either.
    assert_eq!(Resource::from_ino(1 + 32), Err(FsError::InvalidHandle));
}

#[test]
fn filetypes_by_shape() {
    assert_eq!(Resource::Root.filetype(), EntryKind::Directory);
    assert_eq!(Resource::UserDir(1).filetype(), EntryKind::Directory);
    assert_eq!(Resource::PostsDir(1).filetype(), EntryKind::Directory);
    assert_eq!(
        Resource::Field(1, reddit_fs::codec::FieldKind::Summary).filetype(),
        EntryKind::RegularFile
    );
}

#[test]
fn decimal_rendering_exact() {
    assert_eq!(fmt_u64(0), "0");
    assert_eq!(fmt_u64(10), "10");
    assert_eq!(fmt_u64(90210), "90210");
    assert_eq!(fmt_i64(-5), "-5");
    assert_eq!(fmt_i64(i64::MIN), "-9223372036854775808");
    assert_eq!(fmt_i64(i64::MAX), "9223372036854775807");
}

#[test]
fn first_resolution_fetches_once() {
    let mut fs = UserFS::new();
    let alice = "alice".to_string();
    // Empty registry: resolving asks for exactly one fetch.
    match fs.resolve_name(ROOT_INO, &alice, 0) {
        ResolveStep::Fetch { name } => assert_eq!(name, "alice"),
        _ => panic!("expected a fetch request"),
    }
    let ino = match fs.resolve_name_fetched(&alice, Ok(profile("alice", 1, 2, 0)), 0) {
        ResolveStep::Found { ino, attr } => {
            assert_eq!(attr.kind, EntryKind::Directory);
            assert_eq!(attr.size, 0);
            ino
        }
        _ => panic!("expected the fetched profile to resolve"),
    };
    // The handle decodes to the first user directory.
    assert_eq!(Resource::from_ino(ino), Ok(Resource::UserDir(0)));
    // Resolving again issues no further fetch, however often.
    for _ in 0..3 {
        match fs.resolve_name(ROOT_INO, &alice, 0) {
            ResolveStep::Found { ino: again, attr: _ } => assert_eq!(again, ino),
            _ => panic!("a known username must resolve without a fetch"),
        }
    }
}

#[test]
fn case_insensitive_identity() {
    let mut fs = UserFS::new();
    let ino = register(&mut fs, "Alice", profile("Alice", 1, 2, 3));
    for spelling in ["alice", "ALICE", "aLiCe"] {
        match fs.resolve_name(ROOT_INO, &spelling.to_string(), 0) {
            ResolveStep::Found { ino: got, attr: _ } => assert_eq!(got, ino),
            _ => panic!("equal folded names must share one index"),
        }
    }
}

#[test]
fn user_directory_lists_eight_fixed_entries() {
    let mut fs = UserFS::new();
    let ino = register(&mut fs, "alice", profile("alice", 1, 2, 0));
    let entries = match fs.list_directory(ino, 0) {
        ListStep::Listing { entries } => entries,
        _ => panic!("a user directory lists from the cache"),
    };
    let names: Vec<&str> = entries.iter().map(|e| e.name.as_str()).collect();
    assert_eq!(
        names,
        vec![".", "..", "linkkarma", "commentkarma", "username", "created", "summary", "_posts"]
    );
    assert_eq!(entries.len(), 8);
    for e in &entries[2..7] {
        assert_eq!(e.kind, EntryKind::RegularFile);
    }
    assert_eq!(entries[7].kind, EntryKind::Directory);
    assert_eq!(entries[7].ino, Resource::PostsDir(0).to_ino());
}

#[test]
fn root_listing_is_complete_and_ordered() {
    let mut fs = UserFS::new();
    match fs.list_directory(ROOT_INO, 0) {
        ListStep::Listing { entries } => assert_eq!(entries.len(), 2),
        _ => panic!("the root always lists"),
    }
    register(&mut fs, "alice", profile("alice", 1, 2, 0));
    register(&mut fs, "Bob", profile("bob_display", 3, 4, 5));
    let entries = match fs.list_directory(ROOT_INO, 0) {
        ListStep::Listing { entries } => entries,
        _ => panic!("the root always lists"),
    };
    assert_eq!(entries.len(), 2 + 2);
    assert_eq!(entries[0].name, ".");
    assert_eq!(entries[1].name, "..");
    // Reference names, in insertion order.
    assert_eq!(entries[2].name, "alice");
    assert_eq!(entries[3].name, "Bob");
    assert_eq!(entries[2].ino, Resource::UserDir(0).to_ino());
    assert_eq!(entries[3].ino, Resource::UserDir(1).to_ino());
}

#[test]
fn listing_resumes_at_offset() {
    let mut fs = UserFS::new();
    register(&mut fs, "alice", profile("alice", 1, 2, 0));
    register(&mut fs, "bob", profile("bob", 3, 4, 5));
    let full = match fs.list_directory(ROOT_INO, 0) {
        ListStep::Listing { entries } => entries,
        _ => panic!("the root always lists"),
    };
    for offset in 0..=5 {
        let tail = match fs.list_directory(ROOT_INO, offset) {
            ListStep::Listing { entries } => entries,
            _ => panic!("the root always lists"),
        };
        assert_eq!(tail.len(), full.len().saturating_sub(offset));
        for (j, e) in tail.iter().enumerate() {
            assert_eq!(e.name, full[offset + j].name);
            assert_eq!(e.ino, full[offset + j].ino);
        }
    }
}

#[test]
fn summary_renders_age_in_whole_years() {
    let mut fs = UserFS::new();
    let now: i64 = 730 * 86400;
    let ino = register(&mut fs, "alice", profile("alice", 10, 20, 0));
    let summary_ino = match fs.resolve_name(ino, &"summary".to_string(), now) {
        ResolveStep::Found { ino, attr } => {
            assert_eq!(attr.kind, EntryKind::RegularFile);
            ino
        }
        _ => panic!("summary is a fixed child of every user directory"),
    };
    let bytes = fs.read_file(summary_ino, 0, 4096, now).expect("summary is readable");
    let text = String::from_utf8(bytes).expect("rendering is text");
    assert_eq!(
        text,
        "alice\nLink Karma: 10\nComment Karma: 20\nA redditor for 2 years\n"
    );
}

#[test]
fn attributes_agree_with_content_length() {
    let mut fs = UserFS::new();
    let now: i64 = 1_000_000;
    let ino = register(&mut fs, "Grüße", profile("Grüße", -7, 123456, 999));
    let entries = match fs.list_directory(ino, 2) {
        ListStep::Listing { entries } => entries,
        _ => panic!("a user directory lists from the cache"),
    };
    for e in entries.iter().filter(|e| e.kind == EntryKind::RegularFile) {
        let attr = fs.get_attributes(e.ino, now).expect("fields have attributes");
        let content = fs.read_file(e.ino, 0, u32::MAX, now).expect("fields are readable");
        assert_eq!(attr.size as usize, content.len(), "size mismatch for {}", e.name);
        assert_eq!(attr.blocks, attr.size / 512);
    }
}

#[test]
fn unknown_field_name_is_not_found_and_mutates_nothing() {
    let mut fs = UserFS::new();
    let ino = register(&mut fs, "alice", profile("alice", 1, 2, 0));
    match fs.resolve_name(ino, &"karma".to_string(), 0) {
        ResolveStep::Fail { err } => assert_eq!(err, FsError::NotFound),
        _ => panic!("an unknown child name is NotFound"),
    }
    match fs.list_directory(ROOT_INO, 0) {
        ListStep::Listing { entries } => assert_eq!(entries.len(), 3),
        _ => panic!("the root always lists"),
    }
}

#[test]
fn root_attributes_are_fixed() {
    let mut fs = UserFS::new();
    let before = fs.get_attributes(ROOT_INO, 12345).expect("the root has attributes");
    register(&mut fs, "alice", profile("alice", 1, 2, 3));
    let after = fs.get_attributes(ROOT_INO, 99999).expect("the root has attributes");
    for attr in [before, after] {
        assert_eq!(attr.ino, 1);
        assert_eq!(attr.perm, 0o755);
        assert_eq!(attr.size, 0);
        assert_eq!(attr.kind, EntryKind::Directory);
        assert_eq!(attr.sec, 0);
    }
}

#[test]
fn reads_are_windowed_and_never_fail_past_the_end() {
    let mut fs = UserFS::new();
    let ino = register(&mut fs, "alice", profile("alice", 10, 2, 0));
    let link_ino = match fs.resolve_name(ino, &"linkkarma".to_string(), 0) {
        ResolveStep::Found { ino, attr: _ } => ino,
        _ => panic!("linkkarma is a fixed child of every user directory"),
    };
    assert_eq!(fs.read_file(link_ino, 0, u32::MAX, 0).unwrap(), b"10\n");
    assert_eq!(fs.read_file(link_ino, 0, 2, 0).unwrap(), b"10");
    assert_eq!(fs.read_file(link_ino, 1, 100, 0).unwrap(), b"0\n");
    assert_eq!(fs.read_file(link_ino, 3, 100, 0).unwrap(), b"");
    assert_eq!(fs.read_file(link_ino, 999, 100, 0).unwrap(), b"");
}

#[test]
fn negative_karma_renders_signed() {
    let mut fs = UserFS::new();
    let ino = register(&mut fs, "alice", profile("alice", -5, 2, 0));
    let link_ino = match fs.resolve_name(ino, &"linkkarma".to_string(), 0) {
        ResolveStep::Found { ino, attr: _ } => ino,
        _ => panic!("linkkarma is a fixed child of every user directory"),
    };
    assert_eq!(fs.read_file(link_ino, 0, 100, 0).unwrap(), b"-5\n");
}

#[test]
fn created_field_renders_raw_epoch_seconds() {
    let mut fs = UserFS::new();
    let ino = register(&mut fs, "alice", profile("alice", 1, 2, 1234567890));
    let created_ino = match fs.resolve_name(ino, &"created".to_string(), 0) {
        ResolveStep::Found { ino, attr } => {
            assert_eq!(attr.sec, 1234567890);
            ino
        }
        _ => panic!("created is a fixed child of every user directory"),
    };
    assert_eq!(fs.read_file(created_ino, 0, 100, 0).unwrap(), b"1234567890\n");
}

#[test]
fn kind_mismatches_are_typed_errors() {
    let mut fs = UserFS::new();
    let user_ino = register(&mut fs, "alice", profile("alice", 1, 2, 0));
    let link_ino = Resource::Field(0, reddit_fs::codec::FieldKind::LinkKarma).to_ino();
    assert_eq!(fs.read_file(ROOT_INO, 0, 10, 0), Err(FsError::IsADirectory));
    assert_eq!(fs.read_file(user_ino, 0, 10, 0), Err(FsError::IsADirectory));
    match fs.list_directory(link_ino, 0) {
        ListStep::Fail { err } => assert_eq!(err, FsError::NotADirectory),
        _ => panic!("a regular file cannot be listed"),
    }
    // An index the registry never assigned is an internal fault.
    assert_eq!(
        fs.get_attributes(Resource::UserDir(9).to_ino(), 0),
        Err(FsError::InvalidHandle)
    );
    assert_eq!(fs.get_attributes(0, 0), Err(FsError::InvalidHandle));
}

#[test]
fn resolve_under_a_file_or_posts_directory_is_not_found() {
    let mut fs = UserFS::new();
    register(&mut fs, "alice", profile("alice", 1, 2, 0));
    let posts_ino = Resource::PostsDir(0).to_ino();
    match fs.resolve_name(posts_ino, &"anything".to_string(), 0) {
        ResolveStep::Fail { err } => assert_eq!(err, FsError::NotFound),
        _ => panic!("only the root and user directories resolve children"),
    }
}

#[test]
fn failed_profile_fetches_leave_the_registry_unchanged() {
    let mut fs = UserFS::new();
    let nobody = "nobody".to_string();
    match fs.resolve_name_fetched(&nobody, Err(FetchError::NotFound), 0) {
        ResolveStep::Fail { err } => assert_eq!(err, FsError::NotFound),
        _ => panic!("a not-found fetch propagates NotFound"),
    }
    match fs.resolve_name_fetched(&nobody, Err(FetchError::Transport), 0) {
        ResolveStep::Fail { err } => assert_eq!(err, FsError::RemoteUnavailable),
        _ => panic!("a transport failure is a transient error"),
    }
    match fs.list_directory(ROOT_INO, 0) {
        ListStep::Listing { entries } => assert_eq!(entries.len(), 2),
        _ => panic!("the root always lists"),
    }
    // The name can still be registered afterwards, at index zero.
    let ino = register(&mut fs, "nobody", profile("nobody", 0, 0, 0));
    assert_eq!(Resource::from_ino(ino), Ok(Resource::UserDir(0)));
}

#[test]
fn posts_are_fetched_once_and_cached_forever() {
    let mut fs = UserFS::new();
    register(&mut fs, "alice", profile("Alice_Display", 1, 2, 0));
    let posts_ino = Resource::PostsDir(0).to_ino();
    // First listing asks for the posts of the canonical display name.
    match fs.list_directory(posts_ino, 0) {
        ListStep::FetchPosts { name } => assert_eq!(name, "Alice_Display"),
        _ => panic!("uncached posts require a fetch"),
    }
    let posts = vec![PostRecord { title: "first".to_string() }];
    let entries = fs
        .list_directory_fetched(posts_ino, 0, Ok(posts))
        .expect("a fetched posts listing succeeds");
    // The handle scheme admits no per-post resource, so only the two
    // synthetic rows are listed.
    assert_eq!(entries.len(), 2);
    assert_eq!(entries[0].name, ".");
    assert_eq!(entries[1].name, "..");
    // Cached now: listing no longer asks for a fetch.
    match fs.list_directory(posts_ino, 0) {
        ListStep::Listing { entries } => assert_eq!(entries.len(), 2),
        _ => panic!("cached posts list without a fetch"),
    }
}

#[test]
fn failed_posts_fetches_are_transient_and_cache_nothing() {
    let mut fs = UserFS::new();
    register(&mut fs, "alice", profile("alice", 1, 2, 0));
    let posts_ino = Resource::PostsDir(0).to_ino();
    assert!(matches!(
        fs.list_directory_fetched(posts_ino, 0, Err(FetchError::Transport)),
        Err(FsError::RemoteUnavailable)
    ));
    // Still uncached: the next listing asks again.
    match fs.list_directory(posts_ino, 0) {
        ListStep::FetchPosts { name } => assert_eq!(name, "alice"),
        _ => panic!("a failed fetch must not populate the cache"),
    }
}

#[test]
fn future_creation_times_render_without_panicking() {
    let mut fs = UserFS::new();
    let now: i64 = 0;
    let ino = register(&mut fs, "alice", profile("alice", 0, 0, 400 * 86400));
    let summary_ino = match fs.resolve_name(ino, &"summary".to_string(), now) {
        ResolveStep::Found { ino, attr: _ } => ino,
        _ => panic!("summary is a fixed child of every user directory"),
    };
    let text = String::from_utf8(fs.read_file(summary_ino, 0, 4096, now).unwrap()).unwrap();
    assert!(text.contains("A redditor for -1 years\n"));
}

#[test]
fn user_timestamps_flow_into_attributes() {
    let mut fs = UserFS::new();
    let ino = register(&mut fs, "alice", profile("alice", 1, 2, 777));
    let attr = fs.get_attributes(ino, 0).unwrap();
    assert_eq!(attr.sec, 777);
    assert_eq!(attr.perm, 0o644);
    let posts_attr = fs.get_attributes(Resource::PostsDir(0).to_ino(), 0).unwrap();
    assert_eq!(posts_attr.sec, 777);
    assert_eq!(posts_attr.kind, EntryKind::Directory);
}
