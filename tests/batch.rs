use std::collections::{HashMap, HashSet};

use dwldutil::cas::LinkState;
use dwldutil::indicator::{IndicatorFactory, Silent};
use dwldutil::scheduler::{DEFAULT_MAX_CONCURRENT, DEFAULT_MAX_REDIRECTIONS};
use dwldutil::{Batch, DLFile, DLHashes, Downloader, Slot, TaskAction, TaskEvent, TaskRun};

/// Runs a batch where task `i` takes `durations[i]` ticks and succeeds when
/// `i` is even; returns each task's outcome and the largest number of tasks
/// seen active at once.
fn simulate(batch: &mut Batch, durations: &[u32]) -> (Vec<Option<bool>>, usize) {
    let mut remaining: HashMap<usize, u32> = HashMap::new();
    let mut peak = 0;
    let mut ticks = 0;
    while !batch.is_complete() {
        while let Some(i) = batch.grant() {
            remaining.insert(i, durations[i]);
        }
        peak = peak.max(batch.active());
        assert!(batch.active() <= 3);
        let mut done = Vec::new();
        for (i, left) in remaining.iter_mut() {
            if *left <= 1 {
                done.push(*i);
            } else {
                *left -= 1;
            }
        }
        done.sort();
        for i in done {
            remaining.remove(&i);
            batch.finish(i, i % 2 == 0);
        }
        ticks += 1;
        assert!(ticks < 1000);
    }
    let outcomes = (0..batch.len())
        .map(|i| match batch.slot(i) {
            Slot::Done(ok) => Some(ok),
            _ => None,
        })
        .collect();
    (outcomes, peak)
}

#[test]
fn ten_tasks_three_permits() {
    let durations = [3, 1, 4, 1, 5, 9, 2, 6, 5, 3];
    let mut batch = Batch::new(vec![None; 10], 3);
    let (outcomes, peak) = simulate(&mut batch, &durations);
    assert_eq!(outcomes.iter().filter(|o| o.is_some()).count(), 10);
    assert_eq!(peak, 3);
    assert_eq!(batch.active(), 0);
    for (i, o) in outcomes.iter().enumerate() {
        assert_eq!(*o, Some(i % 2 == 0));
    }
    let reversed: Vec<u32> = durations.iter().rev().cloned().collect();
    let mut again = Batch::new(vec![None; 10], 3);
    let (outcomes2, _) = simulate(&mut again, &reversed);
    assert_eq!(outcomes, outcomes2);
}

#[test]
fn permits_go_in_submission_order() {
    let mut batch = Batch::new(vec![None; 4], 2);
    assert_eq!(batch.grant(), Some(0));
    assert_eq!(batch.grant(), Some(1));
    assert_eq!(batch.grant(), None);
    assert_eq!(batch.active(), 2);
    batch.finish(1, true);
    assert_eq!(batch.grant(), Some(2));
    assert_eq!(batch.slot(1), Slot::Done(true));
    assert_eq!(batch.slot(3), Slot::Waiting);
}

#[test]
fn empty_batch_is_complete() {
    let mut batch = Batch::new(vec![], 3);
    assert!(batch.is_complete());
    assert_eq!(batch.grant(), None);
}

#[test]
fn zero_permits_grant_nothing() {
    let mut batch = Batch::new(vec![None], 0);
    assert_eq!(batch.grant(), None);
    assert!(!batch.is_complete());
}

#[test]
fn same_content_waits_for_the_first() {
    let k = Some("abcd".to_string());
    let mut batch = Batch::new(vec![k.clone(), k.clone(), Some("ffff".to_string())], 3);
    assert_eq!(batch.grant(), Some(0));
    assert_eq!(batch.grant(), Some(2));
    assert_eq!(batch.grant(), None);
    batch.finish(0, true);
    assert_eq!(batch.grant(), Some(1));
}

/// Drives one task against an in-memory store and transport.
fn drive(
    file: &DLFile,
    body: &[u8],
    blobs: &mut HashMap<String, Vec<u8>>,
    links: &mut HashMap<String, String>,
    requests: &mut usize,
    blob_writes: &mut usize,
) -> bool {
    let mut run = TaskRun::new();
    let mut event = TaskEvent::Begin;
    let mut written = Vec::new();
    let mut target = String::new();
    loop {
        event = match run.step(file, event) {
            TaskAction::LookupBlob(p) => {
                let link = match links.get(&file.path) {
                    Some(t) => LinkState::Symlink(t.clone()),
                    None => LinkState::Absent,
                };
                TaskEvent::Lookup(blobs.contains_key(&p), link)
            }
            TaskAction::CreateAlias(b, l) => {
                links.insert(l, b);
                TaskEvent::Aliased(Ok(()))
            }
            TaskAction::Request(_) => {
                *requests += 1;
                TaskEvent::Responded(200)
            }
            TaskAction::OpenOutput(p) => {
                target = p;
                *blob_writes += 1;
                TaskEvent::Opened(Ok(()))
            }
            TaskAction::Progress(n) => {
                if (n as usize) < body.len() {
                    written.push(body[n as usize]);
                    TaskEvent::Chunk(1)
                } else {
                    blobs.insert(target.clone(), written.clone());
                    TaskEvent::BodyEnd
                }
            }
            TaskAction::ReadContent(p) => TaskEvent::Content(blobs[&p].clone()),
            TaskAction::Notify(_) => TaskEvent::Notified,
            TaskAction::Succeed(_) => return true,
            TaskAction::Fail(_) => return false,
            other => panic!("unexpected {:?}", other),
        }
    }
}

#[test]
fn shared_content_is_fetched_once() {
    let sha1_hello = "aaf4c61ddcc5e8a2dabede0f3b482cd9aea9434d";
    let store = dwldutil::cas::DLStorage::new("cas");
    let a = DLFile::new()
        .with_path("a.txt")
        .with_url("http://x/a")
        .with_hashes(DLHashes::new().sha1(sha1_hello))
        .with_cas(store.clone());
    let b = DLFile::new()
        .with_path("b.txt")
        .with_url("http://x/b")
        .with_hashes(DLHashes::new().sha1(sha1_hello))
        .with_cas(store.clone());
    let dl = Downloader::<Silent>::new().add_file(a).add_file(b);
    let mut batch = dl.batch();
    let (mut blobs, mut links) = (HashMap::new(), HashMap::new());
    let (mut requests, mut writes) = (0, 0);
    let mut finished = HashSet::new();
    while !batch.is_complete() {
        let mut granted = Vec::new();
        while let Some(i) = batch.grant() {
            granted.push(i);
        }
        assert_eq!(granted.len(), 1);
        let i = granted[0];
        let ok = drive(&dl.files[i], b"hello", &mut blobs, &mut links, &mut requests, &mut writes);
        batch.finish(i, ok);
        finished.insert(i);
    }
    assert_eq!(finished.len(), 2);
    assert_eq!(requests, 1);
    assert_eq!(writes, 1);
    assert_eq!(blobs.len(), 1);
    let blob = store.path(sha1_hello);
    assert_eq!(links.get("a.txt"), Some(&blob));
    assert_eq!(links.get("b.txt"), Some(&blob));
    assert_eq!(batch.slot(0), Slot::Done(true));
    assert_eq!(batch.slot(1), Slot::Done(true));
}

#[test]
fn downloader_builders() {
    let d = Downloader::<Silent>::new();
    assert!(d.files.is_empty());
    assert_eq!(d.max_concurrent_downloads, DEFAULT_MAX_CONCURRENT);
    assert_eq!(d.max_redirections, DEFAULT_MAX_REDIRECTIONS);
    let d = Downloader::<Silent>::from_files(vec![DLFile::new().with_path("p")])
        .with_files(vec![DLFile::new().with_path("q")])
        .with_max_concurrent_downloads(2)
        .with_max_redirections(7)
        .with_indicator(Silent);
    assert_eq!(d.files.len(), 2);
    assert_eq!(d.files[0].path, "p");
    assert_eq!(d.files[1].path, "q");
    assert_eq!(d.max_concurrent_downloads, 2);
    assert_eq!(d.middleware().max_redirects(), 7);
    assert_eq!(*d.indicator_factory(), Silent);
    let _child = d.indicator_factory().create_task("p", 1);
    let b = d.batch();
    assert_eq!(b.len(), 2);
    assert_eq!(b.slot(0), Slot::Waiting);
}
