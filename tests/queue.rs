use s3d::flush::{step, EntryState, FlushAction, FlushEvent};
use s3d::write_queue::{WriteQueue, WRITE_QUEUE_DIR};

#[test]
fn put_file_name_is_percent_encoded_bucket_and_key() {
    let q = WriteQueue::new("/root");
    assert_eq!(q.to_file_name("mybucket", "foo.txt"), "/root/mybucket%2Ffoo.txt");
    let q = WriteQueue::new(WRITE_QUEUE_DIR);
    assert_eq!(q.to_file_name("mybucket", "foo.txt"), ".s3d/write_queue/mybucket%2Ffoo.txt");
}

#[test]
fn file_name_escapes_reserved_and_non_ascii_bytes() {
    let q = WriteQueue::new("q");
    assert_eq!(q.to_file_name("b", "a b/c~d-e_f.g"), "q/b%2Fa%20b%2Fc~d-e_f.g");
    assert_eq!(q.to_file_name("b", "é"), "q/b%2F%C3%A9");
    assert_eq!(q.to_file_name("", ""), "q/%2F");
}

#[test]
fn put_and_get_of_one_object_use_one_file() {
    let q = WriteQueue::new("/data");
    assert_eq!(q.to_file_name("mybucket", "foo.txt"), q.to_file_name("mybucket", "foo.txt"));
    assert_ne!(q.to_file_name("mybucket", "foo.txt"), q.to_file_name("mybucket", "foo.tx"));
    assert_ne!(q.to_file_name("a", "bc"), q.to_file_name("ab", "c"));
    assert_ne!(q.to_file_name("a", "b/c"), q.to_file_name("a", "b%2Fc"));
}

#[test]
fn entry_name_decodes_back_to_bucket_and_key() {
    assert_eq!(WriteQueue::parse_entry("mybucket%2Ffoo.txt"), Some(("mybucket".to_string(), "foo.txt".to_string())));
    assert_eq!(WriteQueue::parse_entry("b%2Fdir%2Fa%20b"), Some(("b".to_string(), "dir/a b".to_string())));
    assert_eq!(WriteQueue::parse_entry("b%2F%C3%A9"), Some(("b".to_string(), "é".to_string())));
    assert_eq!(WriteQueue::parse_entry("no-slash-here"), None);
    assert_eq!(WriteQueue::parse_entry("b%2F%FF"), None);
    assert_eq!(WriteQueue::parse_entry("b%2Fx%zz%4"), Some(("b".to_string(), "x%zz%4".to_string())));
}

#[test]
fn entry_round_trips_through_its_file_name() {
    let q = WriteQueue::new("");
    for (b, k) in [("mybucket", "foo.txt"), ("b", "a/b/c"), ("x", "100% é ~"), ("", "k")] {
        let path = q.to_file_name(b, k);
        let name = &path[1..];
        assert_eq!(WriteQueue::parse_entry(name), Some((b.to_string(), k.to_string())));
    }
}

#[test]
fn flush_job_names_file_bucket_and_key() {
    let q = WriteQueue::new("/root");
    let job = q.flush_job("mybucket%2Ffoo.txt").unwrap();
    assert_eq!(job.file, "/root/mybucket%2Ffoo.txt");
    assert_eq!(job.bucket, "mybucket");
    assert_eq!(job.key, "foo.txt");
    assert!(q.flush_job("stray").is_none());
}

#[test]
fn plan_work_skips_names_that_are_not_entries() {
    let q = WriteQueue::new("/q");
    let names = vec!["a%2F1".to_string(), "junk".to_string(), "b%2Fx%2Fy".to_string()];
    let jobs = q.plan_work(&names);
    assert_eq!(jobs.len(), 2);
    assert_eq!((jobs[0].file.as_str(), jobs[0].bucket.as_str(), jobs[0].key.as_str()), ("/q/a%2F1", "a", "1"));
    assert_eq!((jobs[1].file.as_str(), jobs[1].bucket.as_str(), jobs[1].key.as_str()), ("/q/b%2Fx%2Fy", "b", "x/y"));
    assert!(q.plan_work(&vec![]).is_empty());
}

#[test]
fn successful_flush_removes_local_file() {
    let (s, a) = step(EntryState::Absent, FlushEvent::Written);
    assert_eq!((s, a), (EntryState::Buffered, FlushAction::Nothing));
    let (s, a) = step(s, FlushEvent::Scanned);
    assert_eq!((s, a), (EntryState::InFlight, FlushAction::Upload));
    let (s, a) = step(s, FlushEvent::UploadSucceeded);
    assert_eq!((s, a), (EntryState::Absent, FlushAction::RemoveLocal));
}

#[test]
fn failed_flush_keeps_local_file_and_retries() {
    let (s, a) = step(EntryState::InFlight, FlushEvent::UploadFailed);
    assert_eq!((s, a), (EntryState::Buffered, FlushAction::KeepLocal));
    let (s, a) = step(s, FlushEvent::Scanned);
    assert_eq!((s, a), (EntryState::InFlight, FlushAction::Upload));
}

#[test]
fn flushing_absent_entry_is_noop() {
    assert_eq!(step(EntryState::Absent, FlushEvent::Scanned), (EntryState::Absent, FlushAction::Nothing));
    assert_eq!(step(EntryState::Absent, FlushEvent::UploadSucceeded), (EntryState::Absent, FlushAction::Nothing));
}

#[test]
fn write_during_upload_keeps_newer_data() {
    let (s, _) = step(EntryState::InFlight, FlushEvent::Written);
    assert_eq!(s, EntryState::Buffered);
    assert_eq!(step(s, FlushEvent::UploadSucceeded), (EntryState::Buffered, FlushAction::Nothing));
}
