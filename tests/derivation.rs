use microblog::images::{image_files, GmImageConvert, UploadJob, UploadStep};
use microblog::text::{join_path, parse_u64};

fn strings(v: &[&str]) -> Vec<String> {
    v.iter().map(|s| s.to_string()).collect()
}

#[test]
fn file_names_of_an_upload() {
    let f = image_files(12345);
    assert_eq!(f.raw, "12345");
    assert_eq!(f.full, "12345_full.jpg");
    assert_eq!(f.medium, "12345_medium.jpg");
    assert_eq!(f.thumbnail, "12345_thumbnail.jpg");
    assert_eq!(image_files(0).full, "0_full.jpg");
    assert_eq!(image_files(u64::MAX).raw, "18446744073709551615");
}

#[test]
fn tool_commands() {
    let tool = GmImageConvert::new("/usr/bin/gm".to_string());
    assert_eq!(tool.program(), "/usr/bin/gm");
    let c = tool.convert_command("a", "b");
    assert_eq!(c.program, "/usr/bin/gm");
    assert_eq!(c.args, strings(&["convert", "a", "b"]));
    let t = tool.thumbnail_command("b", "c", 600, 450);
    assert_eq!(t.args, strings(&["convert", "b", "-thumbnail", "600x450", "c"]));
}

#[test]
fn successful_derivation_runs_three_steps() {
    let tool = GmImageConvert::new("gm".to_string());
    let mut job = UploadJob::new(&tool, "/up", 42);
    assert_eq!(job.raw_path(), "/up/42");
    let mut runs = Vec::new();
    let finish = loop {
        match job.next_step() {
            UploadStep::Run(c) => {
                assert_eq!(c.program, "gm");
                runs.push(c.args);
                job.record(true);
            }
            UploadStep::Finish(f) => break f,
        }
    };
    assert_eq!(
        runs,
        vec![
            strings(&["convert", "/up/42", "/up/42_full.jpg"]),
            strings(&["convert", "/up/42_full.jpg", "-thumbnail", "600x600", "/up/42_medium.jpg"]),
            strings(&["convert", "/up/42_medium.jpg", "-thumbnail", "120x120", "/up/42_thumbnail.jpg"]),
        ]
    );
    let draft = finish.draft.expect("staged");
    assert_eq!(draft.full_path, "42_full.jpg");
    assert_eq!(draft.medium_path, "42_medium.jpg");
    assert_eq!(draft.thumbnail_path, "42_thumbnail.jpg");
    assert_eq!(finish.remove, strings(&["/up/42"]));
}

#[test]
fn failed_step_stages_nothing_and_removes_everything() {
    let tool = GmImageConvert::new("gm".to_string());
    let mut job = UploadJob::new(&tool, "/up/", 7);
    assert!(matches!(job.next_step(), UploadStep::Run(_)));
    job.record(true);
    job.record(false);
    match job.next_step() {
        UploadStep::Finish(f) => {
            assert!(f.draft.is_none());
            assert_eq!(
                f.remove,
                strings(&["/up/7", "/up/7_full.jpg", "/up/7_medium.jpg", "/up/7_thumbnail.jpg"])
            );
        }
        UploadStep::Run(_) => panic!("a failed upload runs nothing more"),
    }
}

#[test]
fn failed_store_of_raw_upload_removes_it() {
    let tool = GmImageConvert::new("gm".to_string());
    let mut job = UploadJob::new(&tool, "up", 1);
    job.record(false);
    match job.next_step() {
        UploadStep::Finish(f) => {
            assert!(f.draft.is_none());
            assert_eq!(f.remove[0], "up/1");
        }
        UploadStep::Run(_) => panic!("a failed upload runs nothing more"),
    }
}

#[test]
fn random_upload_ids_differ() {
    let tool = GmImageConvert::new("gm".to_string());
    let a = UploadJob::start(&tool, "").raw_path();
    let b = UploadJob::start(&tool, "").raw_path();
    assert!(a.chars().all(|c| c.is_ascii_digit()));
    assert_ne!(a, b);
}

#[test]
fn joining_paths() {
    assert_eq!(join_path("/tmp", "x"), "/tmp/x");
    assert_eq!(join_path("/tmp/", "x"), "/tmp/x");
    assert_eq!(join_path("", "x"), "x");
}

#[test]
fn parsing_numbers() {
    assert_eq!(parse_u64("0"), Some(0));
    assert_eq!(parse_u64("50"), Some(50));
    assert_eq!(parse_u64("18446744073709551615"), Some(u64::MAX));
    assert_eq!(parse_u64("18446744073709551616"), None);
    assert_eq!(parse_u64(""), None);
    assert_eq!(parse_u64("12a"), None);
    assert_eq!(parse_u64("-1"), None);
}
