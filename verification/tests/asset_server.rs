use deskvrm::asset::{begin, models_among, resume};
use deskvrm::asset::{Body, FileOp, Outcome, Reply, Request, Step};
use deskvrm::asset::{MAX_UPLOAD_BYTES, MODEL_DIR, SERVER_HOST, SERVER_PORT};
use std::collections::BTreeMap;

/// A model directory held in memory. `faults` lists, by their position in the
/// order of operations, the operations that are to fail from now on.
struct Disk {
    present: bool,
    files: BTreeMap<String, Vec<u8>>,
    performed: Vec<FileOp>,
    faults: Vec<usize>,
}

fn absent() -> Disk {
    Disk { present: false, files: BTreeMap::new(), performed: Vec::new(), faults: Vec::new() }
}

fn empty() -> Disk {
    Disk { present: true, files: BTreeMap::new(), performed: Vec::new(), faults: Vec::new() }
}

fn holding(files: &[(&str, &[u8])]) -> Disk {
    let mut disk = empty();
    for (name, bytes) in files {
        disk.files.insert(name.to_string(), bytes.to_vec());
    }
    disk
}

fn perform(disk: &mut Disk, op: FileOp) -> Outcome {
    let position = disk.performed.len();
    disk.performed.push(op.clone());
    if disk.faults.contains(&position) {
        if let FileOp::Write { name, bytes } = &op {
            if disk.present {
                disk.files.insert(name.clone(), bytes[..bytes.len() / 2].to_vec());
            }
        }
        return Outcome::Failed;
    }
    match op {
        FileOp::ListDir => {
            if disk.present {
                Outcome::Entries(disk.files.keys().cloned().collect())
            } else {
                Outcome::Failed
            }
        }
        FileOp::CreateDir => {
            disk.present = true;
            Outcome::Done
        }
        FileOp::Read { name } => match disk.files.get(&name) {
            Some(bytes) => Outcome::Bytes(bytes.clone()),
            None => Outcome::Failed,
        },
        FileOp::Write { name, bytes } => {
            if disk.present {
                disk.files.insert(name, bytes);
                Outcome::Done
            } else {
                Outcome::Failed
            }
        }
        FileOp::Rename { from, to } => match disk.files.remove(&from) {
            Some(bytes) => {
                disk.files.insert(to, bytes);
                Outcome::Done
            }
            None => Outcome::Failed,
        },
        FileOp::Remove { name } => match disk.files.remove(&name) {
            Some(_) => Outcome::Done,
            None => Outcome::Failed,
        },
    }
}

fn serve(disk: &mut Disk, request: Request) -> Reply {
    let mut step = begin(request);
    loop {
        match step {
            Step::Respond(reply) => return reply,
            Step::Perform { op, then } => {
                let outcome = perform(disk, op);
                step = resume(then, outcome);
            }
        }
    }
}

fn list(disk: &mut Disk) -> Reply {
    serve(disk, Request::List)
}

fn fetch(disk: &mut Disk, name: &str) -> Reply {
    serve(disk, Request::Fetch { name: name.to_string() })
}

fn store(disk: &mut Disk, name: &str, bytes: &[u8], ticket: u64) -> Reply {
    serve(disk, Request::Store { name: name.to_string(), bytes: bytes.to_vec(), ticket })
}

fn names(list: &[&str]) -> Vec<String> {
    list.iter().map(|name| name.to_string()).collect()
}

fn payload(len: usize) -> Vec<u8> {
    (0..len).map(|i| (i * 31 % 251) as u8).collect()
}

/// Whether every name in the operation is the name of a file directly in the
/// model directory.
fn stays_inside(op: &FileOp) -> bool {
    let plain = |name: &String| {
        !name.is_empty() && !name.contains('/') && name != "." && name != ".."
    };
    match op {
        FileOp::ListDir | FileOp::CreateDir => true,
        FileOp::Read { name } | FileOp::Remove { name } | FileOp::Write { name, .. } => plain(name),
        FileOp::Rename { from, to } => plain(from) && plain(to),
    }
}

#[test]
fn server_settings() {
    assert_eq!(MODEL_DIR, "vrm");
    assert_eq!(SERVER_HOST, "127.0.0.1");
    assert_eq!(SERVER_PORT, 8108);
    assert_eq!(MAX_UPLOAD_BYTES, 1024 * 1024 * 1024);
}

#[test]
fn listing_an_absent_directory_creates_it_and_is_empty() {
    let mut disk = absent();
    assert_eq!(list(&mut disk), Reply::Models(Vec::new()));
    assert!(disk.present);
    assert_eq!(disk.performed, vec![FileOp::ListDir, FileOp::CreateDir]);
    assert_eq!(list(&mut disk), Reply::Models(Vec::new()));
    assert!(disk.present);
    assert!(disk.files.is_empty());
    assert_eq!(disk.performed, vec![FileOp::ListDir, FileOp::CreateDir, FileOp::ListDir]);
}

#[test]
fn listing_never_fails_the_caller() {
    let mut disk = absent();
    disk.faults = vec![0, 1];
    let reply = list(&mut disk);
    assert_eq!(reply, Reply::Models(Vec::new()));
    assert_eq!(reply.status(), 200);
    assert!(!disk.present);
}

#[test]
fn listing_names_the_models_only() {
    let mut disk = holding(&[
        ("a.vrm", b"1"),
        ("notes.txt", b"2"),
        ("b.vrm", b"3"),
        ("c.vrm.4.part", b"4"),
        ("d.VRM", b"5"),
        (".vrm", b"6"),
    ]);
    let before = disk.files.clone();
    assert_eq!(list(&mut disk), Reply::Models(names(&[".vrm", "a.vrm", "b.vrm"])));
    assert_eq!(disk.files, before);
}

#[test]
fn models_are_kept_in_the_order_of_the_entries() {
    let entries = names(&["z.vrm", "skip", "a.vrm", "m.vrm", "a.vrm.part", "a.vrm"]);
    assert_eq!(models_among(entries), names(&["z.vrm", "a.vrm", "m.vrm", "a.vrm"]));
    assert_eq!(models_among(Vec::new()), Vec::<String>::new());
    assert_eq!(models_among(names(&["x", "y"])), Vec::<String>::new());
}

#[test]
fn store_then_fetch_returns_the_bytes() {
    let mut disk = empty();
    for (ticket, len) in [0usize, 1, 2, 255, 2048, 70000].iter().enumerate() {
        let bytes = payload(*len);
        let name = format!("model{}.vrm", len);
        let stored = store(&mut disk, &name, &bytes, ticket as u64);
        assert_eq!(stored, Reply::Stored);
        assert_eq!(fetch(&mut disk, &name), Reply::Asset(bytes));
    }
    assert_eq!(disk.files.len(), 6);
}

#[test]
fn store_overwrites_the_last_writer_wins() {
    let mut disk = empty();
    assert_eq!(store(&mut disk, "a.vrm", b"first", 1), Reply::Stored);
    assert_eq!(store(&mut disk, "a.vrm", b"second, longer", 2), Reply::Stored);
    assert_eq!(fetch(&mut disk, "a.vrm"), Reply::Asset(b"second, longer".to_vec()));
    assert_eq!(store(&mut disk, "a.vrm", b"3", 3), Reply::Stored);
    assert_eq!(fetch(&mut disk, "a.vrm"), Reply::Asset(b"3".to_vec()));
    assert_eq!(disk.files.len(), 1);
}

#[test]
fn store_writes_a_staging_file_and_renames_it() {
    let mut disk = empty();
    assert_eq!(store(&mut disk, "avatar1.vrm", b"abc", 17), Reply::Stored);
    assert_eq!(
        disk.performed,
        vec![
            FileOp::Write { name: "avatar1.vrm.17.part".to_string(), bytes: b"abc".to_vec() },
            FileOp::Rename {
                from: "avatar1.vrm.17.part".to_string(),
                to: "avatar1.vrm".to_string()
            },
        ]
    );
    assert_eq!(disk.files.keys().cloned().collect::<Vec<String>>(), names(&["avatar1.vrm"]));
}

#[test]
fn fetch_reads_the_final_component() {
    let mut disk = holding(&[("passwd", b"inside")]);
    assert_eq!(fetch(&mut disk, "../../etc/passwd"), Reply::Asset(b"inside".to_vec()));
    assert_eq!(disk.performed, vec![FileOp::Read { name: "passwd".to_string() }]);
}

#[test]
fn traversal_names_stay_inside_the_directory() {
    let hostile = [
        "../../etc/passwd",
        "/etc/shadow",
        "a/../../b.vrm",
        "./../x.vrm/",
        "..\\..\\boot.ini",
        "vrm/../../../model.vrm/.",
        "....//....//etc/passwd",
    ];
    let mut disk = empty();
    for (ticket, name) in hostile.iter().enumerate() {
        let expected = std::path::Path::new(name)
            .file_name()
            .map(|n| n.to_string_lossy().to_string())
            .unwrap();
        assert_eq!(store(&mut disk, name, b"payload", ticket as u64), Reply::Stored);
        assert_eq!(disk.files.get(&expected), Some(&b"payload".to_vec()));
        assert_eq!(fetch(&mut disk, name), Reply::Asset(b"payload".to_vec()));
        assert_eq!(disk.performed.last(), Some(&FileOp::Read { name: expected }));
    }
    assert!(disk.performed.iter().all(stays_inside));
}

#[test]
fn names_without_a_final_component_touch_no_file() {
    for name in ["", "/", ".", "..", "a/..", "../", "./."] {
        let mut disk = holding(&[("a.vrm", b"kept")]);
        assert_eq!(fetch(&mut disk, name), Reply::NotFound);
        assert_eq!(store(&mut disk, name, b"lost", 1), Reply::StorageFailure);
        assert!(disk.performed.is_empty());
        assert_eq!(disk.files.len(), 1);
    }
}

#[test]
fn fetch_of_a_missing_file_is_not_found() {
    let mut disk = holding(&[("a.vrm", b"1")]);
    let reply = fetch(&mut disk, "missing.vrm");
    assert_eq!(reply, Reply::NotFound);
    assert_eq!(reply.status(), 404);
    assert_eq!(reply.into_body(), Body::Empty);
    let mut nowhere = absent();
    assert_eq!(fetch(&mut nowhere, "a.vrm"), Reply::NotFound);
    assert!(!nowhere.present);
}

#[test]
fn fetch_that_cannot_read_is_not_found() {
    let mut disk = holding(&[("a.vrm", b"1")]);
    disk.faults = vec![0];
    assert_eq!(fetch(&mut disk, "a.vrm"), Reply::NotFound);
}

#[test]
fn store_into_an_absent_directory_fails() {
    let mut disk = absent();
    let reply = store(&mut disk, "a.vrm", b"abc", 1);
    assert_eq!(reply, Reply::StorageFailure);
    assert_eq!(reply.status(), 500);
    assert_eq!(reply.into_body(), Body::Empty);
    assert!(disk.files.is_empty());
    assert_eq!(fetch(&mut disk, "a.vrm"), Reply::NotFound);
}

#[test]
fn failed_write_leaves_the_old_model() {
    let mut disk = holding(&[("a.vrm", b"old content")]);
    disk.faults = vec![0];
    assert_eq!(store(&mut disk, "a.vrm", b"new content", 9), Reply::StorageFailure);
    assert_eq!(
        disk.performed,
        vec![
            FileOp::Write { name: "a.vrm.9.part".to_string(), bytes: b"new content".to_vec() },
            FileOp::Remove { name: "a.vrm.9.part".to_string() },
        ]
    );
    assert_eq!(fetch(&mut disk, "a.vrm"), Reply::Asset(b"old content".to_vec()));
    assert_eq!(list(&mut disk), Reply::Models(names(&["a.vrm"])));
    assert_eq!(disk.files.len(), 1);
}

#[test]
fn failed_rename_leaves_the_old_model() {
    let mut disk = holding(&[("a.vrm", b"old content")]);
    disk.faults = vec![1];
    assert_eq!(store(&mut disk, "a.vrm", b"new content", 9), Reply::StorageFailure);
    assert_eq!(fetch(&mut disk, "a.vrm"), Reply::Asset(b"old content".to_vec()));
    assert_eq!(disk.files.len(), 1);
}

#[test]
fn failed_store_of_a_new_model_shows_nothing() {
    let mut disk = empty();
    disk.faults = vec![0, 1];
    assert_eq!(store(&mut disk, "new.vrm", b"0123456789", 4), Reply::StorageFailure);
    assert_eq!(disk.files.get("new.vrm.4.part"), Some(&b"01234".to_vec()));
    assert_eq!(fetch(&mut disk, "new.vrm"), Reply::NotFound);
    assert_eq!(list(&mut disk), Reply::Models(Vec::new()));
}

#[test]
fn reader_sees_old_or_new_at_every_step_of_a_store() {
    for faults in [vec![], vec![0], vec![1], vec![0, 1], vec![1, 2]] {
        let old = b"the old bytes".to_vec();
        let new = payload(4096);
        let mut disk = holding(&[("a.vrm", &old)]);
        disk.faults = faults;
        let mut step = begin(Request::Store {
            name: "dir/a.vrm".to_string(),
            bytes: new.clone(),
            ticket: 3,
        });
        let reply = loop {
            let seen = disk.files.get("a.vrm").cloned();
            assert!(seen == Some(old.clone()) || seen == Some(new.clone()));
            match step {
                Step::Respond(reply) => break reply,
                Step::Perform { op, then } => {
                    let outcome = perform(&mut disk, op);
                    step = resume(then, outcome);
                }
            }
        };
        let seen = disk.files.get("a.vrm").cloned();
        match reply {
            Reply::Stored => assert_eq!(seen, Some(new)),
            Reply::StorageFailure => assert_eq!(seen, Some(old)),
            other => panic!("a store replied {:?}", other),
        }
    }
}

#[test]
fn every_request_ends_within_three_operations() {
    for faults in [vec![], vec![0], vec![1], vec![2], vec![0, 1, 2]] {
        let requests = [
            Request::List,
            Request::Fetch { name: "a.vrm".to_string() },
            Request::Store { name: "a.vrm".to_string(), bytes: vec![1, 2, 3], ticket: 0 },
        ];
        for request in requests {
            for mut disk in [absent(), holding(&[("a.vrm", b"x")])] {
                disk.faults = faults.clone();
                serve(&mut disk, request.clone());
                assert!(disk.performed.len() <= 3);
                assert!(disk.performed.iter().all(stays_inside));
            }
        }
    }
}

#[test]
fn outcome_of_the_wrong_kind_counts_as_a_failure() {
    let step = begin(Request::Fetch { name: "a.vrm".to_string() });
    let Step::Perform { then, .. } = step else { panic!("a fetch reads first") };
    assert_eq!(resume(then, Outcome::Done), Step::Respond(Reply::NotFound));
    let step = begin(Request::Fetch { name: "a.vrm".to_string() });
    let Step::Perform { then, .. } = step else { panic!("a fetch reads first") };
    assert_eq!(
        resume(then, Outcome::Entries(names(&["a.vrm"]))),
        Step::Respond(Reply::NotFound)
    );
    let step = begin(Request::List);
    let Step::Perform { then, .. } = step else { panic!("a listing lists first") };
    let Step::Perform { op, .. } = resume(then, Outcome::Bytes(vec![1])) else {
        panic!("a listing that got no entries creates the directory")
    };
    assert_eq!(op, FileOp::CreateDir);
}

#[test]
fn replies_as_http_responses() {
    let models = Reply::Models(names(&["a.vrm"]));
    assert_eq!(models.status(), 200);
    assert_eq!(models.into_body(), Body::Models(names(&["a.vrm"])));
    let asset = Reply::Asset(vec![1, 2, 3]);
    assert_eq!(asset.status(), 200);
    assert_eq!(asset.into_body(), Body::Bytes(vec![1, 2, 3]));
    assert_eq!(Reply::Stored.status(), 200);
    assert_eq!(Reply::Stored.into_body(), Body::Empty);
    assert_eq!(Reply::NotFound.status(), 404);
    assert_eq!(Reply::NotFound.into_body(), Body::Empty);
    assert_eq!(Reply::StorageFailure.status(), 500);
    assert_eq!(Reply::StorageFailure.into_body(), Body::Empty);
}

#[test]
fn upload_list_fetch_scenario() {
    let mut disk = empty();
    let content = payload(2048);

    let posted = store(&mut disk, "avatar1.vrm", &content, 1);
    assert_eq!(posted.status(), 200);
    assert_eq!(posted.into_body(), Body::Empty);

    let listed = list(&mut disk);
    assert_eq!(listed.status(), 200);
    assert_eq!(listed.into_body(), Body::Models(names(&["avatar1.vrm"])));

    let fetched = fetch(&mut disk, "avatar1.vrm");
    assert_eq!(fetched.status(), 200);
    assert_eq!(fetched.into_body(), Body::Bytes(content));

    let missing = fetch(&mut disk, "missing.vrm");
    assert_eq!(missing.status(), 404);
    assert_eq!(missing.into_body(), Body::Empty);
}
