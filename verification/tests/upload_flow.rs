use std::collections::HashMap;

use cdn_store::config::Config;
use cdn_store::content::serve;
use cdn_store::error::StoreError;
use cdn_store::path::{storage_path, Target};
use cdn_store::store::{removed, ReadOutcome, RemoveOutcome};
use cdn_store::upload::{advance, begin, ingest, Upload, UploadEvent, UploadRequest, UploadStep};

const ROOT: &str = "/srv/store";

fn config(cap: u64) -> Config {
    Config::from_settings(Some(ROOT.to_string()), Some(cap), Some("secret".to_string()))
}

fn request(directory: Option<&str>, safe: bool, name: Option<&str>) -> UploadRequest {
    UploadRequest {
        token: Some("secret".to_string()),
        directory: directory.map(|d| d.to_string()),
        safe,
        file_name: name.map(|n| n.to_string()),
    }
}

/// Runs an upload to its end against a map that stands for the storage.
fn upload(
    objects: &mut HashMap<String, Vec<u8>>,
    cfg: &Config,
    req: UploadRequest,
    chunks: &[&[u8]],
) -> Result<Target, StoreError> {
    let mut step = begin(cfg, req);
    let mut next_chunk = 0;
    loop {
        let event = match &step {
            UploadStep::Done(_) => break,
            UploadStep::CheckExists(u) => UploadEvent::Exists(objects.contains_key(&u.target.absolute)),
            UploadStep::ReadChunk(_) => {
                if next_chunk < chunks.len() {
                    next_chunk += 1;
                    UploadEvent::Chunk(chunks[next_chunk - 1].to_vec())
                } else {
                    UploadEvent::EndOfBody
                }
            }
            UploadStep::Write(u) => {
                objects.insert(u.target.absolute.clone(), u.buffer.clone());
                UploadEvent::Written(true)
            }
        };
        step = advance(step, event);
    }
    match step {
        UploadStep::Done(r) => r,
        _ => unreachable!(),
    }
}

fn read(objects: &HashMap<String, Vec<u8>>, cfg: &Config, name: &str) -> ReadOutcome {
    match objects.get(&storage_path(&cfg.root, name)) {
        Some(bytes) => ReadOutcome::Found(bytes.clone()),
        None => ReadOutcome::Missing,
    }
}

fn delete(objects: &mut HashMap<String, Vec<u8>>, cfg: &Config, name: &str) -> Result<(), StoreError> {
    let outcome = match objects.remove(&storage_path(&cfg.root, name)) {
        Some(_) => RemoveOutcome::Removed,
        None => RemoveOutcome::Missing,
    };
    removed(outcome)
}

fn sample_upload(cap: u64) -> Upload {
    Upload {
        target: Target {
            filename: "f.bin".to_string(),
            directory: "/".to_string(),
            path: "/f.bin".to_string(),
            absolute: "/srv/store/f.bin".to_string(),
        },
        buffer: Vec::new(),
        cap,
    }
}

#[test]
fn upload_then_download_returns_the_bytes() {
    let cfg = config(1024);
    let mut objects = HashMap::new();
    let target = upload(&mut objects, &cfg, request(Some("docs"), false, Some("x.bin")), &[b"abc", b"", b"defg"])
        .unwrap();
    assert_eq!(target.path, "/docs/x.bin");
    assert_eq!(target.absolute, "/srv/store/docs/x.bin");
    let served = serve("docs/x.bin", read(&objects, &cfg, "docs/x.bin")).unwrap();
    assert_eq!(served.body, b"abcdefg".to_vec());
}

#[test]
fn upload_at_exactly_the_cap_is_accepted() {
    let cfg = config(4);
    let mut objects = HashMap::new();
    let r = upload(&mut objects, &cfg, request(None, false, Some("f")), &[b"ab", b"cd"]);
    assert!(r.is_ok());
    assert_eq!(objects.get("/srv/store/f"), Some(&b"abcd".to_vec()));
}

#[test]
fn upload_beyond_the_cap_is_too_large_and_writes_nothing() {
    let cfg = config(4);
    let mut objects = HashMap::new();
    let r = upload(&mut objects, &cfg, request(None, false, Some("f")), &[b"ab", b"cde", b"f"]);
    assert_eq!(r, Err(StoreError::PayloadTooLarge));
    assert!(objects.is_empty());
}

#[test]
fn too_large_upload_leaves_an_existing_object_alone() {
    let cfg = config(2);
    let mut objects = HashMap::new();
    upload(&mut objects, &cfg, request(None, false, Some("f")), &[b"ok"]).unwrap();
    let r = upload(&mut objects, &cfg, request(None, false, Some("f")), &[b"too long"]);
    assert_eq!(r, Err(StoreError::PayloadTooLarge));
    assert_eq!(objects.get("/srv/store/f"), Some(&b"ok".to_vec()));
}

#[test]
fn directory_with_separator_is_a_bad_request() {
    let cfg = config(1024);
    let mut objects = HashMap::new();
    for dir in ["docs/sub", "/docs", "docs/", "//", "a/b/c"] {
        let r = upload(&mut objects, &cfg, request(Some(dir), false, Some("x.txt")), &[b"hi"]);
        assert_eq!(r, Err(StoreError::BadRequest), "directory {dir:?}");
    }
    assert!(objects.is_empty());
}

#[test]
fn root_marker_directory_is_accepted() {
    let cfg = config(1024);
    let mut objects = HashMap::new();
    let t = upload(&mut objects, &cfg, request(Some("/"), false, Some("x.txt")), &[b"hi"]).unwrap();
    assert_eq!(t.directory, "/");
    assert_eq!(t.path, "/x.txt");
}

#[test]
fn wrong_or_absent_token_is_unauthorized() {
    let cfg = config(1024);
    let mut objects = HashMap::new();
    let mut wrong = request(Some("docs"), false, Some("x.txt"));
    wrong.token = Some("Secret".to_string());
    assert_eq!(upload(&mut objects, &cfg, wrong, &[b"hi"]), Err(StoreError::Unauthorized));
    let mut absent = request(Some("docs"), false, Some("x.txt"));
    absent.token = None;
    assert_eq!(upload(&mut objects, &cfg, absent, &[b"hi"]), Err(StoreError::Unauthorized));
    let mut broken = request(Some("a/b"), true, None);
    broken.token = Some("".to_string());
    assert_eq!(upload(&mut objects, &cfg, broken, &[]), Err(StoreError::Unauthorized));
    assert!(objects.is_empty());
}

#[test]
fn missing_file_name_is_a_bad_request() {
    let cfg = config(1024);
    assert_eq!(begin(&cfg, request(None, false, None)), UploadStep::Done(Err(StoreError::BadRequest)));
}

#[test]
fn safe_mode_refuses_to_replace() {
    let cfg = config(1024);
    let mut objects = HashMap::new();
    upload(&mut objects, &cfg, request(None, true, Some("a.txt")), &[b"first"]).unwrap();
    let r = upload(&mut objects, &cfg, request(None, true, Some("a.txt")), &[b"second"]);
    assert_eq!(r, Err(StoreError::Conflict));
    assert_eq!(objects.get("/srv/store/a.txt"), Some(&b"first".to_vec()));
}

#[test]
fn without_safe_mode_the_upload_overwrites() {
    let cfg = config(1024);
    let mut objects = HashMap::new();
    upload(&mut objects, &cfg, request(None, true, Some("a.txt")), &[b"first"]).unwrap();
    let r = upload(&mut objects, &cfg, request(None, false, Some("a.txt")), &[b"second"]);
    assert!(r.is_ok());
    assert_eq!(objects.get("/srv/store/a.txt"), Some(&b"second".to_vec()));
    assert_eq!(objects.len(), 1);
}

#[test]
fn missing_object_is_not_found() {
    let cfg = config(1024);
    let mut objects: HashMap<String, Vec<u8>> = HashMap::new();
    assert_eq!(serve("nope.txt", read(&objects, &cfg, "nope.txt")), Err(StoreError::NotFound));
    assert_eq!(delete(&mut objects, &cfg, "nope.txt"), Err(StoreError::NotFound));
}

#[test]
fn deleting_twice_is_not_found_the_second_time() {
    let cfg = config(1024);
    let mut objects = HashMap::new();
    upload(&mut objects, &cfg, request(None, false, Some("a.txt")), &[b"hi"]).unwrap();
    assert_eq!(delete(&mut objects, &cfg, "a.txt"), Ok(()));
    assert_eq!(delete(&mut objects, &cfg, "a.txt"), Err(StoreError::NotFound));
}

#[test]
fn example_upload_download_delete() {
    let cfg = config(1024);
    let mut objects = HashMap::new();
    let t = upload(&mut objects, &cfg, request(None, false, Some("a.txt")), &[b"hi"]).unwrap();
    assert_eq!(t.path, "/a.txt");
    assert_eq!(t.directory, "/");
    assert_eq!(t.filename, "a.txt");
    let served = serve("a.txt", read(&objects, &cfg, "a.txt")).unwrap();
    assert_eq!(served.body, b"hi".to_vec());
    assert!(served.content_type.starts_with("text/"));
    assert_eq!(delete(&mut objects, &cfg, "a.txt"), Ok(()));
    let gone = serve("a.txt", read(&objects, &cfg, "a.txt"));
    assert_eq!(gone, Err(StoreError::NotFound));
    assert_eq!(gone.unwrap_err().status(), 404);
}

#[test]
fn example_directory_then_nested_directory() {
    let cfg = config(1024);
    let mut objects = HashMap::new();
    let t = upload(&mut objects, &cfg, request(Some("docs"), false, Some("x.txt")), &[b"hi"]).unwrap();
    assert_eq!(t.path, "/docs/x.txt");
    let r = upload(&mut objects, &cfg, request(Some("docs/sub"), false, Some("x.txt")), &[b"hi"]);
    assert_eq!(r, Err(StoreError::BadRequest));
    assert_eq!(r.unwrap_err().status(), 400);
}

#[test]
fn begin_asks_for_existence_only_in_safe_mode() {
    let cfg = config(9);
    match begin(&cfg, request(None, true, Some("f.bin"))) {
        UploadStep::CheckExists(u) => {
            assert_eq!(u.target.absolute, "/srv/store/f.bin");
            assert!(u.buffer.is_empty());
            assert_eq!(u.cap, 9);
        }
        other => panic!("unexpected step {other:?}"),
    }
    assert!(matches!(begin(&cfg, request(None, false, Some("f.bin"))), UploadStep::ReadChunk(_)));
}

#[test]
fn advance_follows_each_report() {
    let u = sample_upload(3);
    assert_eq!(
        advance(UploadStep::CheckExists(u.clone()), UploadEvent::Exists(false)),
        UploadStep::ReadChunk(u.clone())
    );
    assert_eq!(
        advance(UploadStep::CheckExists(u.clone()), UploadEvent::Exists(true)),
        UploadStep::Done(Err(StoreError::Conflict))
    );
    let mut grown = u.clone();
    grown.buffer = vec![1, 2, 3];
    assert_eq!(
        advance(UploadStep::ReadChunk(u.clone()), UploadEvent::Chunk(vec![1, 2, 3])),
        UploadStep::ReadChunk(grown.clone())
    );
    assert_eq!(
        advance(UploadStep::ReadChunk(grown.clone()), UploadEvent::Chunk(vec![4])),
        UploadStep::Done(Err(StoreError::PayloadTooLarge))
    );
    assert_eq!(
        advance(UploadStep::ReadChunk(grown.clone()), UploadEvent::Chunk(vec![])),
        UploadStep::ReadChunk(grown.clone())
    );
    assert_eq!(
        advance(UploadStep::ReadChunk(grown.clone()), UploadEvent::EndOfBody),
        UploadStep::Write(grown.clone())
    );
    assert_eq!(
        advance(UploadStep::Write(grown.clone()), UploadEvent::Written(true)),
        UploadStep::Done(Ok(grown.target.clone()))
    );
}

#[test]
fn failed_read_or_write_is_an_internal_error() {
    let u = sample_upload(3);
    assert_eq!(
        advance(UploadStep::ReadChunk(u.clone()), UploadEvent::ChunkFailed),
        UploadStep::Done(Err(StoreError::InternalError))
    );
    assert_eq!(
        advance(UploadStep::Write(u.clone()), UploadEvent::Written(false)),
        UploadStep::Done(Err(StoreError::InternalError))
    );
}

#[test]
fn report_that_answers_no_pending_step_is_an_internal_error() {
    let u = sample_upload(3);
    assert_eq!(
        advance(UploadStep::CheckExists(u.clone()), UploadEvent::EndOfBody),
        UploadStep::Done(Err(StoreError::InternalError))
    );
    assert_eq!(
        advance(UploadStep::ReadChunk(u.clone()), UploadEvent::Written(true)),
        UploadStep::Done(Err(StoreError::InternalError))
    );
    assert_eq!(
        advance(UploadStep::Write(u.clone()), UploadEvent::Chunk(vec![1])),
        UploadStep::Done(Err(StoreError::InternalError))
    );
}

#[test]
fn finished_upload_stays_finished() {
    let done = UploadStep::Done(Err(StoreError::Conflict));
    assert_eq!(advance(done, UploadEvent::Written(true)), UploadStep::Done(Err(StoreError::Conflict)));
}

#[test]
fn ingest_joins_chunks_in_order() {
    let chunks = vec![b"ab".to_vec(), Vec::new(), b"cde".to_vec()];
    assert_eq!(ingest(&chunks, 5), Ok(b"abcde".to_vec()));
    assert_eq!(ingest(&Vec::new(), 0), Ok(Vec::new()));
}

#[test]
fn ingest_stops_beyond_the_cap() {
    let chunks = vec![b"ab".to_vec(), b"cde".to_vec()];
    assert_eq!(ingest(&chunks, 4), Err(StoreError::PayloadTooLarge));
    assert_eq!(ingest(&vec![vec![0u8]], 0), Err(StoreError::PayloadTooLarge));
}
