use rdup::hashing::hash_bytes;
use rdup::index::DuplicateIndex;
use rdup::policy::LinkKind;
use rdup::policy::LinkPolicy;
use rdup::replace::ReplaceState;
use rdup::replace::SafeReplace;
use rdup::resolver::plan_all;

// A directory holds x.txt = "hello", y.txt = "hello", z.txt = "world".
// Run destructively with hard links: x and y form one duplicate group with
// the first-discovered path canonical, y is planned to become a link to x,
// and z is untouched.
#[test]
fn three_files_two_identical() {
    let contents: [(&str, &[u8]); 3] = [
        ("/a/x.txt", b"hello"),
        ("/a/y.txt", b"hello"),
        ("/a/z.txt", b"world"),
    ];

    let mut index = DuplicateIndex::new();
    for (path, data) in contents {
        index.insert(hash_bytes(data), path.to_string());
    }
    let groups = index.drain();
    assert_eq!(groups.len(), 2);

    let policy = LinkPolicy { destructive: true, link_kind: LinkKind::Hard };
    let plan = plan_all(&groups, &policy);
    assert_eq!(plan.len(), 1);
    assert_eq!(plan[0].source, "/a/x.txt");
    assert_eq!(plan[0].target, "/a/y.txt");

    // Carry the one replacement out; every filesystem step succeeds.
    let mut sr = SafeReplace::new(
        plan[0].source.clone(),
        plan[0].target.clone(),
        policy.link_kind,
    );
    assert_eq!(sr.backup(), "/a/y.txt.rdup");
    let mut steps = 0;
    while !sr.is_done() {
        assert!(sr.next_action().is_some());
        sr.on_outcome(true);
        steps += 1;
    }
    // Backup made, link created, backup removed: no backup file remains.
    assert_eq!(steps, 3);
    assert_eq!(sr.current_state(), ReplaceState::Linked);
    assert_eq!(sr.error(), None);
}

// A second run over the already-linked result: y (now a hard link to x)
// still carries x's bytes, so the pair is still one group and the same
// single replacement is planned again — a harmless repeat, never a new
// mutation of z or of x.
#[test]
fn second_run_repeats_harmlessly() {
    let mut index = DuplicateIndex::new();
    index.insert(hash_bytes(b"hello"), "/a/x.txt".to_string());
    index.insert(hash_bytes(b"hello"), "/a/y.txt".to_string());
    index.insert(hash_bytes(b"world"), "/a/z.txt".to_string());
    let groups = index.drain();

    let policy = LinkPolicy { destructive: true, link_kind: LinkKind::Hard };
    let plan = plan_all(&groups, &policy);
    assert_eq!(plan.len(), 1);
    assert_eq!(plan[0].source, "/a/x.txt");
    assert_eq!(plan[0].target, "/a/y.txt");
}
