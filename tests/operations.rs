use xtest_data::commit::CommitId;
use xtest_data::diagnosis::{looks_like_no_repository, require_success, Fatal};
use xtest_data::download::{
    artifact_location, classify_status, DlError, Download, ErrorBody, ErrorResponse, StatusClass,
};
use xtest_data::invocation::{Capture, Git, Input, Invocation, Outcome, Step};
use xtest_data::pathspec::PathSpec;
use xtest_data::store::{is_pack_file, select_packs, CheckoutPhase, ShallowBareRepository, UnpackRun};
use xtest_data::workcopy::{check_status_outcome, check_status_report, CrateDir, PackPhase};

const HEX40: &str = "0123456789abcdef0123456789abcdef01234567";

fn lit(p: &str) -> PathSpec {
    PathSpec::Path(p.to_string())
}

fn args(inv: &Invocation) -> Vec<&str> {
    inv.args.iter().map(|a| a.as_str()).collect()
}

fn ok(stdout: &[u8]) -> Outcome {
    Outcome::Exited { success: true, stdout: stdout.to_vec(), stderr: Vec::new() }
}

fn failed(stderr: &[u8]) -> Outcome {
    Outcome::Exited { success: false, stdout: Vec::new(), stderr: stderr.to_vec() }
}

fn run_of(step: Step) -> Invocation {
    match step {
        Step::Run(inv) => inv,
        other => panic!("expected a run, got {:?}", other),
    }
}

fn text_input(inv: &Invocation) -> &str {
    match &inv.input {
        Input::Text(t) => t.as_str(),
        other => panic!("expected text input, got {:?}", other),
    }
}

fn store() -> ShallowBareRepository {
    Git::new("/usr/bin/git").bare("/tmp/s/store", true, &CommitId::parse(HEX40).unwrap()).repo
}

#[test]
fn status_report_without_flags_passes() {
    assert!(check_status_report(&b"1 .M N... 100644 100644 100644 a b testdata/a.bin\0".to_vec()).is_ok());
    assert!(check_status_report(&Vec::new()).is_ok());
}

#[test]
fn status_report_with_ignored_entry_fails() {
    match check_status_report(&b"1 x\0! testdata/c.bin\0? later\0".to_vec()) {
        Err(Fatal::IgnoredFiles { entry }) => assert_eq!(entry, b"! testdata/c.bin".to_vec()),
        other => panic!("{:?}", other),
    }
}

#[test]
fn status_report_with_untracked_entry_fails() {
    match check_status_report(&b"? new.bin".to_vec()) {
        Err(Fatal::UntrackedFiles { entry }) => assert_eq!(entry, b"? new.bin".to_vec()),
        other => panic!("{:?}", other),
    }
}

#[test]
fn status_report_flag_inside_an_entry_is_not_a_flag() {
    assert!(check_status_report(&b"1 a?b!c\0".to_vec()).is_ok());
}

#[test]
fn no_repository_message_is_recognised() {
    let german = "fatal: Kein Git-Repository (oder irgendein Elternverzeichnis bis zum Einhängepunkt /)\nStoppe bei Dateisystemgrenze (GIT_DISCOVERY_ACROSS_FILESYSTEM nicht gesetzt).\n";
    assert!(looks_like_no_repository(&german.as_bytes().to_vec()));
    assert!(!looks_like_no_repository(&b"fatal: bad object".to_vec()));
    assert!(!looks_like_no_repository(&Vec::new()));
}

#[test]
fn require_success_reports_failures() {
    assert!(require_success(ok(b"")).is_ok());
    assert!(matches!(require_success(Outcome::NotRun), Err(Fatal::CouldNotRun)));
    match require_success(failed(b"boom")) {
        Err(Fatal::GitFailed { stderr }) => assert_eq!(stderr, b"boom".to_vec()),
        other => panic!("{:?}", other),
    }
}

#[test]
fn tracked_query_lists_the_displayed_paths() {
    let git = Git::new("git");
    let dir = CrateDir::new("/src/pkg");
    assert!(dir.tracking_status(&git, &vec![]).is_none());
    let inv = dir.tracking_status(&git, &vec![lit("testdata/a.bin")]).unwrap();
    assert_eq!(
        args(&inv),
        vec!["status", "--no-renames", "--ignored=matching", "--porcelain=v2", "--short", "-z", "--", ":(top,literal)testdata/a.bin"]
    );
    assert_eq!(inv.current_dir.as_deref(), Some("/src/pkg"));
    assert_eq!(inv.stdout, Capture::Piped);
    let probe = dir.status_probe(&git);
    assert_eq!(args(&probe), vec!["status", "--short"]);
}

#[test]
fn packing_nothing_is_a_no_op() {
    let (run, step) = CrateDir::new("/src/pkg").pack_objects(&Git::new("git"), &vec![], "out");
    assert!(matches!(step, Step::Finished));
    assert_eq!(run.phase(), PackPhase::Done);
}

#[test]
fn complex_paths_abort_before_anything_runs() {
    let paths = vec![lit("testdata/a.bin"), lit("odd\nname")];
    let (run, step) = CrateDir::new("/src/pkg").pack_objects(&Git::new("git"), &paths, "out");
    assert!(matches!(step, Step::Abort(Fatal::PathsTooComplex)));
    assert_eq!(run.phase(), PackPhase::Done);
}

#[test]
fn packing_two_files_runs_the_fixed_sequence() {
    let git = Git::new("git");
    let paths = vec![lit("testdata/a.bin"), lit("testdata/b.bin")];
    let (mut run, step) = CrateDir::new("/src/pkg").pack_objects(&git, &paths, "out");
    let hash = run_of(step);
    assert_eq!(args(&hash), vec!["hash-object", "-w", "--stdin"]);
    assert_eq!(text_input(&hash), "testdata/a.bin\0testdata/b.bin\0");

    let sparse = run_of(run.advance(ok(format!("{}\n", HEX40).as_bytes())));
    assert_eq!(
        args(&sparse),
        vec!["rev-list", "-n", "1", "--objects", "--no-object-names", &format!("--filter=sparse:oid={}", HEX40), "HEAD"]
    );
    let trees = run_of(run.advance(ok(b"blob1\nblob2\n")));
    assert_eq!(args(&trees)[5], "--filter=blob:none");
    let pack = run_of(run.advance(ok(b"tree1\n")));
    assert_eq!(args(&pack), vec!["pack-objects", "out/xtest-data"]);
    match &pack.input {
        Input::Bytes(b) => assert_eq!(b, &b"blob1\nblob2\ntree1\n".to_vec()),
        other => panic!("{:?}", other),
    }
    assert!(matches!(run.advance(ok(b"")), Step::Finished));
    assert_eq!(run.phase(), PackPhase::Done);
}

#[test]
fn failed_hash_outside_a_repository_gets_the_hint() {
    let paths = vec![lit("a")];
    let (mut run, _) = CrateDir::new("/x").pack_objects(&Git::new("git"), &paths, "out");
    let msg = b"fatal: not a git repository (or any of the parent directories up to mount point /)\nStopping at filesystem boundary (GIT_DISCOVERY_ACROSS_FILESYSTEM not set).";
    assert!(matches!(run.advance(failed(msg)), Step::Abort(Fatal::NoRepository { .. })));
    let (mut run, _) = CrateDir::new("/x").pack_objects(&Git::new("git"), &paths, "out");
    assert!(matches!(run.advance(failed(b"fatal: other")), Step::Abort(Fatal::GitFailed { .. })));
}

#[test]
fn short_object_id_aborts_packing() {
    let (mut run, _) = CrateDir::new("/x").pack_objects(&Git::new("git"), &vec![lit("a")], "out");
    assert!(matches!(run.advance(ok(b"abc\n")), Step::Abort(Fatal::BadObjectId { .. })));
}

#[test]
fn failed_listing_aborts_packing() {
    let (mut run, _) = CrateDir::new("/x").pack_objects(&Git::new("git"), &vec![lit("a")], "out");
    run_of(run.advance(ok(HEX40.as_bytes())));
    assert!(matches!(run.advance(Outcome::NotRun), Step::Abort(Fatal::CouldNotRun)));
    assert_eq!(run.phase(), PackPhase::Done);
}

#[test]
fn bare_store_is_created_or_probed() {
    let git = Git::new("git");
    let head = CommitId::parse(HEX40).unwrap();
    let fresh = git.bare("/c/store", false, &head);
    assert_eq!(args(&fresh.probe), vec!["--git-dir", "/c/store", "init", "--bare", "--", "/c/store"]);
    assert_eq!(fresh.marker_path, "/c/store/shallow");
    assert_eq!(fresh.marker, format!("{}\n", HEX40));
    let reused = git.bare("/c/store", true, &head);
    assert_eq!(args(&reused.probe), vec!["--git-dir", "/c/store", "symbolic-ref", "HEAD"]);
}

#[test]
fn only_pack_streams_are_unpacked() {
    assert!(is_pack_file("/d/x.pack"));
    assert!(!is_pack_file("/d/meta.json"));
    assert!(!is_pack_file("ack"));
    let entries = vec!["/d/a.pack".to_string(), "/d/info.json".to_string(), "/d/b-xtest-data.pack".to_string()];
    assert_eq!(select_packs(&entries), vec!["/d/a.pack".to_string(), "/d/b-xtest-data.pack".to_string()]);
    let runs = store().unpack(&Git::new("git"), &entries);
    assert_eq!(runs.len(), 2);
    assert_eq!(args(&runs[1]), vec!["--git-dir", "/tmp/s/store", "unpack-objects", "-r"]);
    assert!(matches!(&runs[1].input, Input::FileContents(p) if p == "/d/b-xtest-data.pack"));
}

#[test]
fn checkout_with_sparse_support() {
    let git = Git::new("git");
    let head = CommitId::parse(HEX40).unwrap();
    let paths = vec![lit("testdata/a.bin"), lit("odd\nname"), lit("testdata/b.bin")];
    let (mut run, step) = store().checkout(&git, "/w", &head, &paths);
    assert_eq!(
        args(&run_of(step)),
        vec!["--git-dir", "/tmp/s/store", "worktree", "add", "--no-checkout", "/w", HEX40]
    );
    let sparse = run_of(run.advance(ok(b"")));
    assert_eq!(
        args(&sparse),
        vec!["--git-dir", "/tmp/s/store", "--work-tree", "/w", "sparse-checkout", "--no-cone", "set", "--stdin"]
    );
    assert_eq!(text_input(&sparse), "/testdata/a.bin\n/testdata/b.bin\n");
    let force = run_of(run.advance(ok(b"")));
    assert_eq!(args(&force)[4..], ["checkout", "--force", HEX40]);
    let slow = run_of(run.advance(ok(b"")));
    assert_eq!(
        args(&slow)[4..],
        ["checkout", "--no-guess", "--force", "--pathspec-from-file=-", "--pathspec-file-nul", HEX40]
    );
    assert_eq!(text_input(&slow), ":(top,literal)odd\nname\0");
    assert_eq!(run.phase(), CheckoutPhase::SlowForComplex);
    assert!(matches!(run.advance(ok(b"")), Step::Finished));
}

#[test]
fn checkout_without_sparse_support_falls_back_for_all_paths() {
    let git = Git::new("git");
    let head = CommitId::parse(HEX40).unwrap();
    let paths = vec![lit("testdata/a.bin"), lit("odd\nname"), lit("testdata/b.bin")];
    let (mut run, _) = store().checkout(&git, "/w", &head, &paths);
    run_of(run.advance(ok(b"")));
    let slow = match run.advance(failed(b"git: 'sparse-checkout' is not a git command")) {
        Step::Fallback(inv) => inv,
        other => panic!("{:?}", other),
    };
    assert_eq!(
        text_input(&slow),
        ":(top,literal)testdata/a.bin\0:(top,literal)testdata/b.bin\0:(top,literal)odd\nname\0"
    );
    assert_eq!(run.phase(), CheckoutPhase::SlowForAll);
    assert!(matches!(run.advance(ok(b"")), Step::Finished));

    let (mut run, _) = store().checkout(&git, "/w", &head, &paths);
    run_of(run.advance(ok(b"")));
    assert!(matches!(run.advance(Outcome::NotRun), Step::Fallback(_)));
}

#[test]
fn checkout_failures_abort() {
    let git = Git::new("git");
    let head = CommitId::parse(HEX40).unwrap();
    let (mut run, _) = store().checkout(&git, "/w", &head, &vec![lit("a")]);
    assert!(matches!(run.advance(failed(b"exists")), Step::Abort(Fatal::GitFailed { .. })));
    assert_eq!(run.phase(), CheckoutPhase::Done);
    let (mut run, _) = store().checkout(&git, "/w", &head, &vec![lit("a")]);
    run_of(run.advance(ok(b"")));
    run_of(run.advance(ok(b"")));
    assert!(matches!(run.advance(Outcome::NotRun), Step::Abort(Fatal::CouldNotRun)));
}

#[test]
fn status_codes_are_classified() {
    assert_eq!(classify_status(200), StatusClass::Success);
    assert_eq!(classify_status(299), StatusClass::Success);
    assert_eq!(classify_status(301), StatusClass::Redirection);
    assert_eq!(classify_status(404), StatusClass::ClientError);
    assert_eq!(classify_status(500), StatusClass::Other);
    assert_eq!(classify_status(100), StatusClass::Other);
}

fn response(status: u16) -> ErrorResponse {
    ErrorResponse {
        status,
        status_text: "text".to_string(),
        body: ErrorBody::String { body: "b".to_string() },
    }
}

#[test]
fn responses_become_errors() {
    assert!(DlError::for_response("http://x", response(200)).is_none());
    match DlError::for_response("http://x", response(302)) {
        Some(DlError::TooManyRedirects { location, response }) => {
            assert_eq!(location, "http://x");
            assert_eq!(response.status, 302);
        }
        other => panic!("{:?}", other),
    }
    assert!(matches!(DlError::for_response("http://x", response(404)), Some(DlError::BadRequest { .. })));
    assert!(matches!(DlError::for_response("http://x", response(503)), Some(DlError::BadRequest { .. })));
}

#[test]
fn missing_location_is_reported() {
    assert!(matches!(artifact_location(&None), Err(DlError::NoArtifactLocation)));
    assert_eq!(artifact_location(&Some("http://a/b".to_string())).unwrap(), "http://a/b");
}

#[test]
fn download_goes_to_a_fixed_name() {
    assert_eq!(Download::into_dir("/tmp/t").artifact.path, "/tmp/t/_vcs_file.tar.gz");
}

#[test]
fn no_repository_hint_needs_utf8() {
    let mut msg = b"fatal: /) GIT_DISCOVERY_ACROSS_FILESYSTEM".to_vec();
    assert!(looks_like_no_repository(&msg));
    msg.push(0xFF);
    assert!(!looks_like_no_repository(&msg));
    let (mut run, _) = CrateDir::new("/x").pack_objects(&Git::new("git"), &vec![lit("a")], "out");
    assert!(matches!(run.advance(failed(&msg)), Step::Abort(Fatal::GitFailed { .. })));
}

#[test]
fn status_outcome_must_succeed_and_flag_nothing() {
    assert!(check_status_outcome(ok(b"1 x\0")).is_ok());
    assert!(matches!(check_status_outcome(failed(b"bad")), Err(Fatal::GitFailed { .. })));
    assert!(matches!(check_status_outcome(Outcome::NotRun), Err(Fatal::CouldNotRun)));
    assert!(matches!(check_status_outcome(ok(b"? new")), Err(Fatal::UntrackedFiles { .. })));
}

#[test]
fn marker_is_written_only_after_the_probe_succeeds() {
    let git = Git::new("git");
    let head = CommitId::parse(HEX40).unwrap();
    let marker = git.bare("/c/store", false, &head).finish(ok(b"")).unwrap();
    assert_eq!(marker.path, "/c/store/shallow");
    assert_eq!(marker.contents, format!("{}\n", HEX40));
    assert_eq!(marker.repo.path(), "/c/store");
    assert!(matches!(git.bare("/c/store", true, &head).finish(failed(b"not a repo")), Err(Fatal::GitFailed { .. })));
}

#[test]
fn unpacking_runs_each_pack_and_stops_at_a_failure() {
    let git = Git::new("git");
    let entries = vec!["/d/a.pack".to_string(), "/d/b.pack".to_string(), "/d/c.pack".to_string()];
    let (mut run, step) = UnpackRun::new(store().unpack(&git, &entries));
    assert!(matches!(&run_of(step).input, Input::FileContents(p) if p == "/d/a.pack"));
    assert!(matches!(&run_of(run.advance(ok(b""))).input, Input::FileContents(p) if p == "/d/b.pack"));
    assert!(matches!(run.advance(failed(b"corrupt")), Step::Abort(Fatal::GitFailed { .. })));
    assert!(run.is_done());

    let (mut run, _) = UnpackRun::new(store().unpack(&git, &vec!["/d/a.pack".to_string()]));
    assert!(matches!(run.advance(ok(b"")), Step::Finished));
    let (run, step) = UnpackRun::new(Vec::new());
    assert!(matches!(step, Step::Finished));
    assert!(run.is_done());
}

#[test]
fn status_report_that_is_not_text_fails() {
    match check_status_outcome(ok(&[0xFF])) {
        Err(Fatal::StatusNotText { report }) => assert_eq!(report, vec![0xFF]),
        other => panic!("{:?}", other),
    }
    assert!(check_status_outcome(ok("1 ä\0".as_bytes())).is_ok());
}

#[test]
fn slow_checkout_alone_finishes_or_aborts() {
    let git = Git::new("git");
    let head = CommitId::parse(HEX40).unwrap();
    let paths = vec![lit("testdata/a.bin"), lit("odd\nname")];
    let (mut run, step) = store().checkout_fallback_slow(&git, "/w", &head, &paths);
    let slow = run_of(step);
    assert_eq!(
        args(&slow),
        vec!["--git-dir", "/tmp/s/store", "--work-tree", "/w", "checkout", "--no-guess", "--force", "--pathspec-from-file=-", "--pathspec-file-nul", HEX40]
    );
    assert_eq!(text_input(&slow), ":(top,literal)testdata/a.bin\0:(top,literal)odd\nname\0");
    assert_eq!(run.phase(), CheckoutPhase::SlowForAll);
    assert!(matches!(run.advance(ok(b"")), Step::Finished));

    let (mut run, _) = store().checkout_fallback_slow(&git, "/w", &head, &paths);
    assert!(matches!(run.advance(failed(b"bad path")), Step::Abort(Fatal::GitFailed { .. })));
    assert_eq!(run.phase(), CheckoutPhase::Done);
}
