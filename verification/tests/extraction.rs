use std::io::Write;

use unzipper::entry::{parent_of, EntryInfo};
use unzipper::extract::{Extractor, Step};
use unzipper::plan::{entry_plan, EntryPlan, FsCommand, Narration};

use zip::write::FileOptions;
use zip::CompressionMethod;

fn stored() -> FileOptions {
    FileOptions::default().compression_method(CompressionMethod::Stored)
}

fn build_zip(build: impl FnOnce(&mut zip::ZipWriter<std::io::Cursor<Vec<u8>>>)) -> Vec<u8> {
    let mut w = zip::ZipWriter::new(std::io::Cursor::new(Vec::new()));
    build(&mut w);
    w.finish().unwrap().into_inner()
}

fn next_plan(ex: &mut Extractor, want_index: usize) -> EntryPlan {
    match ex.next_entry() {
        Step::Entry { index, plan } => {
            assert_eq!(index, want_index);
            plan
        }
        Step::Done => panic!("archive ended at index {}", want_index),
        Step::Aborted => panic!("walk aborted at index {}", want_index),
        Step::ReadError { index } => panic!("read error at index {}", index),
    }
}

#[test]
fn extracts_dir_and_file() {
    let bytes = build_zip(|w| {
        w.add_directory("dir", stored()).unwrap();
        w.start_file("dir/file.txt", stored().unix_permissions(0o644)).unwrap();
        w.write_all(b"hi").unwrap();
    });
    let mut ex = Extractor::open(bytes).expect("valid archive");

    let p0 = next_plan(&mut ex, 0);
    assert_eq!(
        p0.narration,
        vec![Narration::Dir { index: 0, path: b"dir/".to_vec() }]
    );
    assert_eq!(p0.commands.len(), 2);
    assert_eq!(p0.commands[0], FsCommand::MakeDirs { path: b"dir/".to_vec() });
    match &p0.commands[1] {
        FsCommand::SetMode { path, mode } => {
            assert_eq!(path, &b"dir/".to_vec());
            assert_eq!(mode & 0o777, 0o755);
        }
        other => panic!("expected a permission command, got {:?}", other),
    }

    let p1 = next_plan(&mut ex, 1);
    assert_eq!(
        p1.narration,
        vec![Narration::File { index: 1, path: b"dir/file.txt".to_vec(), size: 2 }]
    );
    assert_eq!(p1.commands.len(), 3);
    assert_eq!(p1.commands[0], FsCommand::MakeDirs { path: b"dir".to_vec() });
    assert_eq!(
        p1.commands[1],
        FsCommand::WriteFile { path: b"dir/file.txt".to_vec(), data: b"hi".to_vec() }
    );
    match &p1.commands[2] {
        FsCommand::SetMode { path, mode } => {
            assert_eq!(path, &b"dir/file.txt".to_vec());
            assert_eq!(mode & 0o777, 0o644);
        }
        other => panic!("expected a permission command, got {:?}", other),
    }

    assert!(matches!(ex.next_entry(), Step::Done));
    assert!(matches!(ex.next_entry(), Step::Done));
}

#[test]
fn traversal_entry_is_skipped() {
    let bytes = build_zip(|w| {
        w.start_file("../evil.txt", stored()).unwrap();
        w.write_all(b"bad").unwrap();
        w.start_file("ok.txt", stored()).unwrap();
        w.write_all(b"good").unwrap();
    });
    let mut ex = Extractor::open(bytes).expect("valid archive");

    let p0 = next_plan(&mut ex, 0);
    assert!(p0.narration.is_empty());
    assert!(p0.commands.is_empty());

    let p1 = next_plan(&mut ex, 1);
    assert!(p1
        .commands
        .iter()
        .any(|c| *c == FsCommand::WriteFile { path: b"ok.txt".to_vec(), data: b"good".to_vec() }));

    assert!(matches!(ex.next_entry(), Step::Done));
}

#[test]
fn absolute_entry_is_skipped() {
    let bytes = build_zip(|w| {
        w.start_file("/etc/owned", stored()).unwrap();
        w.write_all(b"bad").unwrap();
    });
    let mut ex = Extractor::open(bytes).expect("valid archive");
    let p0 = next_plan(&mut ex, 0);
    assert!(p0.narration.is_empty());
    assert!(p0.commands.is_empty());
    assert!(matches!(ex.next_entry(), Step::Done));
}

#[test]
fn later_entry_overwrites() {
    let bytes = build_zip(|w| {
        w.start_file("dup.txt", stored()).unwrap();
        w.write_all(b"one").unwrap();
        w.start_file("dup.txt", stored()).unwrap();
        w.write_all(b"twice").unwrap();
    });
    let mut ex = Extractor::open(bytes).expect("valid archive");

    let mut final_contents: Option<Vec<u8>> = None;
    for want in 0..2usize {
        let plan = next_plan(&mut ex, want);
        for cmd in &plan.commands {
            if let FsCommand::WriteFile { path, data } = cmd {
                assert_eq!(path, &b"dup.txt".to_vec());
                final_contents = Some(data.clone());
            }
        }
    }
    assert!(matches!(ex.next_entry(), Step::Done));
    assert_eq!(final_contents, Some(b"twice".to_vec()));
}

#[test]
fn reported_failure_aborts_the_walk() {
    let bytes = build_zip(|w| {
        for (name, body) in [("a.txt", "aa"), ("b.txt", "bb"), ("c.txt", "cc")] {
            w.start_file(name, stored()).unwrap();
            w.write_all(body.as_bytes()).unwrap();
        }
    });
    let mut ex = Extractor::open(bytes).expect("valid archive");

    let _ = next_plan(&mut ex, 0);
    ex.report_failure();
    assert!(matches!(ex.next_entry(), Step::Aborted));
    assert!(matches!(ex.next_entry(), Step::Aborted));
}

#[test]
fn executable_mode_is_restored() {
    let bytes = build_zip(|w| {
        w.start_file("run.sh", stored().unix_permissions(0o755)).unwrap();
        w.write_all(b"#!/bin/sh\n").unwrap();
    });
    let mut ex = Extractor::open(bytes).expect("valid archive");
    let plan = next_plan(&mut ex, 0);
    match plan.commands.last() {
        Some(FsCommand::SetMode { path, mode }) => {
            assert_eq!(path, &b"run.sh".to_vec());
            assert_eq!(mode & 0o777, 0o755);
        }
        other => panic!("expected a permission command last, got {:?}", other),
    }
}

#[test]
fn invalid_bytes_are_rejected() {
    assert!(Extractor::open(b"this is not an archive".to_vec()).is_none());
    assert!(Extractor::open(Vec::new()).is_none());
}

#[test]
fn corrupt_member_stops_the_walk() {
    let mut bytes = build_zip(|w| {
        w.start_file("blob.bin", stored()).unwrap();
        w.write_all(&[7u8; 64]).unwrap();
    });
    // Flip bytes inside the member's stored data, past the local header and
    // its name, so the central directory stays valid but the CRC check on
    // the content fails.
    let data_start = 30 + "blob.bin".len();
    for b in &mut bytes[data_start + 8..data_start + 16] {
        *b ^= 0xff;
    }
    let mut ex = Extractor::open(bytes).expect("central directory is intact");
    match ex.next_entry() {
        Step::ReadError { index } => assert_eq!(index, 0),
        other => panic!("expected a read error, got a different step: {:?}", step_name(&other)),
    }
    assert!(matches!(ex.next_entry(), Step::Aborted));
}

fn step_name(s: &Step) -> &'static str {
    match s {
        Step::Done => "Done",
        Step::Aborted => "Aborted",
        Step::ReadError { .. } => "ReadError",
        Step::Entry { .. } => "Entry",
    }
}

#[test]
fn extraction_plans_are_reproducible() {
    let bytes = build_zip(|w| {
        w.add_directory("d", stored()).unwrap();
        w.start_file("d/x", stored()).unwrap();
        w.write_all(b"payload").unwrap();
    });

    let collect = |mut ex: Extractor| {
        let mut plans = Vec::new();
        loop {
            match ex.next_entry() {
                Step::Entry { plan, .. } => plans.push(plan),
                Step::Done => return plans,
                other => panic!("unexpected step: {}", step_name(&other)),
            }
        }
    };
    let first = collect(Extractor::open(bytes.clone()).unwrap());
    let second = collect(Extractor::open(bytes).unwrap());
    assert_eq!(first, second);
}

#[test]
fn comment_line_comes_before_the_extraction_line() {
    let e = EntryInfo {
        name: b"x.txt".to_vec(),
        resolved: Some(b"x.txt".to_vec()),
        comment: b"a note".to_vec(),
        size: 5,
        mode: None,
        data: b"hello".to_vec(),
    };
    let plan = entry_plan(4, &e);
    assert_eq!(
        plan.narration,
        vec![
            Narration::Comment { index: 4, text: b"a note".to_vec() },
            Narration::File { index: 4, path: b"x.txt".to_vec(), size: 5 },
        ]
    );
    assert_eq!(
        plan.commands,
        vec![FsCommand::WriteFile { path: b"x.txt".to_vec(), data: b"hello".to_vec() }]
    );
}

#[test]
fn unresolved_entry_plans_nothing() {
    let e = EntryInfo {
        name: b"../up".to_vec(),
        resolved: None,
        comment: b"even with a comment".to_vec(),
        size: 2,
        mode: Some(0o644),
        data: b"hi".to_vec(),
    };
    let plan = entry_plan(0, &e);
    assert!(plan.narration.is_empty());
    assert!(plan.commands.is_empty());
}

#[test]
fn directory_plan_creates_then_sets_mode() {
    let e = EntryInfo {
        name: b"sub/dir/".to_vec(),
        resolved: Some(b"sub/dir/".to_vec()),
        comment: Vec::new(),
        size: 0,
        mode: Some(0o40700),
        data: Vec::new(),
    };
    let plan = entry_plan(2, &e);
    assert_eq!(
        plan.narration,
        vec![Narration::Dir { index: 2, path: b"sub/dir/".to_vec() }]
    );
    assert_eq!(
        plan.commands,
        vec![
            FsCommand::MakeDirs { path: b"sub/dir/".to_vec() },
            FsCommand::SetMode { path: b"sub/dir/".to_vec(), mode: 0o40700 },
        ]
    );
}

#[test]
fn parent_paths() {
    assert_eq!(parent_of(&b"a/b/c".to_vec()), Some(b"a/b".to_vec()));
    assert_eq!(parent_of(&b"file".to_vec()), None);
    assert_eq!(parent_of(&b"dir/".to_vec()), Some(b"dir".to_vec()));
    assert_eq!(parent_of(&b"a/x".to_vec()), Some(b"a".to_vec()));
    assert_eq!(parent_of(&Vec::new()), None);
}

#[test]
fn deflated_member_is_decompressed() {
    let body = vec![b'a'; 4096];
    let bytes = build_zip(|w| {
        w.start_file(
            "big.txt",
            FileOptions::default().compression_method(CompressionMethod::Deflated),
        )
        .unwrap();
        w.write_all(&body).unwrap();
    });
    // The archive stores far fewer bytes than the member declares; the plan
    // must carry the decompressed content, not the stored stream.
    assert!(bytes.len() < 1024);
    let mut ex = Extractor::open(bytes).expect("valid archive");
    let plan = next_plan(&mut ex, 0);
    assert_eq!(
        plan.narration,
        vec![Narration::File { index: 0, path: b"big.txt".to_vec(), size: 4096 }]
    );
    assert!(plan
        .commands
        .iter()
        .any(|c| *c == FsCommand::WriteFile { path: b"big.txt".to_vec(), data: body.clone() }));
}

#[test]
fn narration_indices_ascend() {
    let bytes = build_zip(|w| {
        w.add_directory("a", stored()).unwrap();
        w.start_file("a/one", stored()).unwrap();
        w.write_all(b"1").unwrap();
        w.start_file("../skipped", stored()).unwrap();
        w.write_all(b"x").unwrap();
        w.start_file("a/two", stored()).unwrap();
        w.write_all(b"2").unwrap();
    });
    let mut ex = Extractor::open(bytes).expect("valid archive");
    let mut indices = Vec::new();
    loop {
        match ex.next_entry() {
            Step::Entry { plan, .. } => {
                for line in &plan.narration {
                    indices.push(match line {
                        Narration::Comment { index, .. } => *index,
                        Narration::Dir { index, .. } => *index,
                        Narration::File { index, .. } => *index,
                    });
                }
            }
            Step::Done => break,
            other => panic!("unexpected step: {}", step_name(&other)),
        }
    }
    assert_eq!(indices, vec![0, 1, 3]);
}

#[test]
fn unsupported_compression_stops_the_walk() {
    let mut bytes = build_zip(|w| {
        w.start_file("weird.bin", stored()).unwrap();
        w.write_all(b"data").unwrap();
    });
    // Re-mark the member as compressed with a method this build does not
    // decode (bzip2's id), in the central directory entry, which is where
    // the member's metadata is read from. The walk must refuse the member
    // as unreadable instead of panicking inside the decoder.
    let sig = [0x50u8, 0x4b, 0x01, 0x02];
    let pos = bytes.windows(4).position(|w| w == sig).unwrap();
    bytes[pos + 10] = 12;
    bytes[pos + 11] = 0;
    let mut ex = Extractor::open(bytes).expect("central directory is intact");
    assert!(matches!(ex.next_entry(), Step::ReadError { index: 0 }));
    assert!(matches!(ex.next_entry(), Step::Aborted));
}
