//! The working copy that test data is packed from.
use vstd::prelude::*;
use vstd::utf8::valid_utf8;

use crate::commit::{trimmed, CommitId, CommitIdError};
use crate::diagnosis::{failure_of, is_utf8, looks_like_no_repository, reads_as_no_repository, Fatal, FatalView};
use crate::fspath::{join, joined};
use crate::invocation::{Capture, Git, Input, InputView, Invocation, InvocationView, Outcome, Step, succeeded};
use crate::pathspec::{
    is_simple, lemma_no_complex, sparse_filter_input, terminated, views, PathSpec, PathSpecFilter,
};

verus! {

/// The text of `b` decoded as UTF-8, each invalid sequence replaced.
pub uninterp spec fn lossy_text(b: Seq<u8>) -> Seq<char>;

/// Relies on `String::from_utf8_lossy`: decodes `b` as UTF-8, replacing each
/// invalid sequence by U+FFFD; the text depends on the bytes alone.
#[verifier::external_body]
fn decode_lossy(b: &Vec<u8>) -> (r: String)
    ensures
        r@ == lossy_text(b@),
{
    String::from_utf8_lossy(b).into_owned()
}

/// A run of `bin` in `dir` with no input, both outputs discarded.
pub open spec fn in_dir(bin: Seq<char>, dir: Seq<char>) -> InvocationView {
    InvocationView {
        program: bin,
        current_dir: Some(dir),
        args: Seq::empty(),
        input: InputView::Inherited,
        stdout: Capture::Null,
        stderr: Capture::Null,
    }
}

/// `git status` restricted to `paths`, listing ignored and untracked entries
/// NUL-separated on the captured output.
pub open spec fn status_view(bin: Seq<char>, dir: Seq<char>, paths: Seq<Seq<char>>) -> InvocationView {
    InvocationView {
        args: seq![
            "status"@,
            "--no-renames"@,
            "--ignored=matching"@,
            "--porcelain=v2"@,
            "--short"@,
            "-z"@,
            "--"@,
        ] + paths.map_values(|p: Seq<char>| crate::pathspec::displayed(p)),
        stdout: Capture::Piped,
        ..in_dir(bin, dir)
    }
}

/// `git hash-object` storing the sparse filter for `paths`.
pub open spec fn hash_object_view(bin: Seq<char>, dir: Seq<char>, paths: Seq<Seq<char>>) -> InvocationView {
    InvocationView {
        args: seq!["hash-object"@, "-w"@, "--stdin"@],
        input: InputView::Text(terminated(paths, '\0')),
        stdout: Capture::Piped,
        stderr: Capture::Piped,
        ..in_dir(bin, dir)
    }
}

/// `git rev-list` of the objects of `HEAD` that pass `filter`.
pub open spec fn rev_list_view(bin: Seq<char>, dir: Seq<char>, filter: Seq<char>) -> InvocationView {
    InvocationView {
        args: seq!["rev-list"@, "-n"@, "1"@, "--objects"@, "--no-object-names"@, filter, "HEAD"@],
        stdout: Capture::Piped,
        stderr: Capture::Piped,
        ..in_dir(bin, dir)
    }
}

/// The object identifier that `git hash-object` printed as `stdout`.
pub open spec fn object_id_text(stdout: Seq<u8>) -> Seq<char> {
    trimmed(lossy_text(stdout))
}

/// The filter argument that selects the objects a stored sparse filter names.
pub open spec fn sparse_filter_arg(oid: Seq<char>) -> Seq<char> {
    "--filter=sparse:oid="@ + oid
}

/// The file name of the pack inside the chosen destination.
pub open spec fn pack_file_name() -> Seq<char> {
    "xtest-data"@
}

/// `git pack-objects` writing `objects` into a pack based at `base`.
pub open spec fn pack_objects_view(
    bin: Seq<char>,
    dir: Seq<char>,
    base: Seq<char>,
    objects: Seq<u8>,
) -> InvocationView {
    InvocationView {
        args: seq!["pack-objects"@, base],
        input: InputView::Bytes(objects),
        stderr: Capture::Piped,
        ..in_dir(bin, dir)
    }
}

/// Whether `i` starts an entry of a NUL-separated report.
pub open spec fn starts_entry(report: Seq<u8>, i: int) -> bool {
    0 <= i < report.len() && (i == 0 || report[i - 1] == 0u8)
}

/// Whether an entry starting at `i` reports an ignored (`!`) or untracked
/// (`?`) path.
pub open spec fn flagged_at(report: Seq<u8>, i: int) -> bool {
    starts_entry(report, i) && (report[i] == 33u8 || report[i] == 63u8)
}

/// Where the entry running from `i` ends: at the next NUL, or at the end.
pub open spec fn entry_end(report: Seq<u8>, i: int) -> int
    decreases report.len() - i,
{
    if i < 0 || i >= report.len() || report[i] == 0u8 {
        i
    } else {
        entry_end(report, i + 1)
    }
}

/// The entry starting at `i`.
pub open spec fn entry_at(report: Seq<u8>, i: int) -> Seq<u8> {
    report.subrange(i, entry_end(report, i))
}

/// The fatal condition that a flagged entry at `i` stands for.
pub open spec fn flagged_failure(report: Seq<u8>, i: int) -> FatalView {
    if report[i] == 33u8 {
        FatalView::IgnoredFiles { entry: entry_at(report, i) }
    } else {
        FatalView::UntrackedFiles { entry: entry_at(report, i) }
    }
}

/// Checks the NUL-separated output of `git status --porcelain=v2 -z`: fails
/// on the first entry that reports an ignored or untracked path.
pub fn check_status_report(report: &Vec<u8>) -> (r: Result<(), Fatal>)
    ensures
        r is Ok <==> forall|i: int| !flagged_at(report@, i),
        r matches Err(f) ==> exists|i: int|
            flagged_at(report@, i) && (forall|j: int| 0 <= j < i ==> !flagged_at(report@, j))
                && f@ == flagged_failure(report@, i),
{
    let n = report.len();
    let mut i: usize = 0;
    while i < n
        invariant
            i <= n,
            n == report@.len(),
            forall|j: int| 0 <= j < i ==> !flagged_at(report@, j),
        decreases n - i,
    {
        let start = i == 0 || report[i - 1] == 0u8;
        let b = report[i];
        if start && (b == 33u8 || b == 63u8) {
            assert(flagged_at(report@, i as int));
            let mut end: usize = i;
            let mut entry: Vec<u8> = Vec::new();
            while end < n && report[end] != 0u8
                invariant
                    i <= end <= n,
                    n == report@.len(),
                    entry_end(report@, i as int) == entry_end(report@, end as int),
                    entry@ == report@.subrange(i as int, end as int),
                    flagged_at(report@, i as int),
                    b == report@[i as int],
                    forall|j: int| 0 <= j < i ==> !flagged_at(report@, j),
                decreases n - end,
            {
                entry.push(report[end]);
                assert(entry@ =~= report@.subrange(i as int, end + 1));
                end = end + 1;
            }
            assert(entry@ == entry_at(report@, i as int));
            if b == 33u8 {
                return Err(Fatal::IgnoredFiles { entry });
            } else {
                return Err(Fatal::UntrackedFiles { entry });
            }
        }
        i = i + 1;
    }
    assert forall|j: int| !flagged_at(report@, j) by {
        if 0 <= j < i {
        }
    }
    Ok(())
}

/// Checks the outcome of the run from [`CrateDir::tracking_status`]: it must
/// have exited successfully with a report that is UTF-8 text, and the report
/// must flag no entry.
pub fn check_status_outcome(o: Outcome) -> (r: Result<(), Fatal>)
    ensures
        !succeeded(o) ==> (r matches Err(f) && f@ == failure_of(o)),
        succeeded(o) && !valid_utf8(stdout_of(o)) ==> (r matches Err(f) && f@
            == FatalView::StatusNotText { report: stdout_of(o) }),
        succeeded(o) && valid_utf8(stdout_of(o)) ==> (r is Ok <==> forall|i: int|
            !flagged_at(stdout_of(o), i)),
        succeeded(o) && valid_utf8(stdout_of(o)) ==> (r matches Err(f) ==> exists|i: int|
            flagged_at(stdout_of(o), i) && (forall|j: int|
                0 <= j < i ==> !flagged_at(stdout_of(o), j)) && f@ == flagged_failure(
                stdout_of(o),
                i,
            )),
{
    match o {
        Outcome::NotRun => Err(Fatal::CouldNotRun),
        Outcome::Exited { success, stdout, stderr } => {
            if success {
                assert(stdout_of(o) == stdout@);
                if !is_utf8(&stdout) {
                    return Err(Fatal::StatusNotText { report: stdout });
                }
                check_status_report(&stdout)
            } else {
                Err(Fatal::GitFailed { stderr })
            }
        },
    }
}

/// The working copy that holds the package and its test data.
#[derive(Debug)]
pub struct CrateDir {
    path: String,
}

impl View for CrateDir {
    type V = Seq<char>;

    /// The directory of the working copy.
    closed spec fn view(&self) -> Seq<char> {
        self.path@
    }
}

impl CrateDir {
    /// The working copy at `path`.
    pub fn new(path: &str) -> (r: CrateDir)
        ensures
            r@ == path@,
    {
        CrateDir { path: path.to_owned() }
    }

    /// The directory of the working copy.
    pub fn path(&self) -> (r: &str)
        ensures
            r@ == self@,
    {
        self.path.as_str()
    }

    /// A run of `git` in the working copy, with no arguments yet, no input and
    /// both outputs discarded.
    pub fn exec(&self, git: &Git) -> (r: Invocation)
        ensures
            r@ == in_dir(git@, self@),
    {
        let r = Invocation {
            program: git.bin().to_owned(),
            current_dir: Some(self.path.clone()),
            args: Vec::new(),
            input: Input::Inherited,
            stdout: Capture::Null,
            stderr: Capture::Null,
        };
        assert(crate::pathspec::texts(r.args@) =~= Seq::empty());
        r
    }

    /// `git status --short` in the working copy: a first check that `git`
    /// can be run there.
    pub fn status_probe(&self, git: &Git) -> (r: Invocation)
        ensures
            r@ == (InvocationView { args: seq!["status"@, "--short"@], ..in_dir(git@, self@) }),
    {
        let mut r = self.exec(git);
        r.arg("status");
        r.arg("--short");
        assert(r@.args =~= seq!["status"@, "--short"@]);
        r
    }

    /// `git status` restricted to `paths`, reporting ignored and untracked
    /// entries; `None` when no path is requested, as there is nothing to
    /// check. Its output goes to [`check_status_report`].
    pub fn tracking_status(&self, git: &Git, paths: &Vec<PathSpec>) -> (r: Option<Invocation>)
        ensures
            r is None <==> paths@.len() == 0,
            r matches Some(inv) ==> inv@ == status_view(git@, self@, views(paths@)),
    {
        if paths.len() == 0 {
            return None;
        }
        let mut r = self.exec(git);
        r.stdout = Capture::Piped;
        r.arg("status");
        r.arg("--no-renames");
        r.arg("--ignored=matching");
        r.arg("--porcelain=v2");
        r.arg("--short");
        r.arg("-z");
        r.arg("--");
        let ghost head = seq![
            "status"@,
            "--no-renames"@,
            "--ignored=matching"@,
            "--porcelain=v2"@,
            "--short"@,
            "-z"@,
            "--"@,
        ];
        assert(r@.args =~= head);
        let mut i: usize = 0;
        assert(views(paths@).map_values(|p: Seq<char>| crate::pathspec::displayed(p)).take(0) =~= Seq::<Seq<char>>::empty());
        assert(head + Seq::<Seq<char>>::empty() =~= head);
        while i < paths.len()
            invariant
                i <= paths@.len(),
                r@ == (InvocationView {
                    args: head + views(paths@).map_values(
                        |p: Seq<char>| crate::pathspec::displayed(p),
                    ).take(i as int),
                    ..status_view(git@, self@, views(paths@))
                }),
            decreases paths@.len() - i,
        {
            let d = paths[i].display();
            r.arg(d.as_str());
            assert(r@.args =~= head + views(paths@).map_values(
                |p: Seq<char>| crate::pathspec::displayed(p),
            ).take(i + 1));
            i = i + 1;
        }
        assert(views(paths@).map_values(|p: Seq<char>| crate::pathspec::displayed(p)).take(i as int) =~= views(paths@).map_values(|p: Seq<char>| crate::pathspec::displayed(p)));
        Some(r)
    }

    /// Starts packing the objects that `paths` need at `HEAD` into a pack
    /// based at `pack_name/xtest-data`. Nothing is to be done for no paths;
    /// a path that a sparse filter cannot express ends the operation before
    /// anything runs.
    pub fn pack_objects(&self, git: &Git, paths: &Vec<PathSpec>, pack_name: &str) -> (r: (
        PackRun,
        Step,
    ))
        ensures
            paths@.len() == 0 ==> r.1 is Finished && r.0@.phase == PackPhase::Done,
            paths@.len() > 0 && (exists|i: int|
                0 <= i < paths@.len() && !is_simple(#[trigger] paths@[i]@)) ==> (r.1 matches Step::Abort(f)
                && f@ == FatalView::PathsTooComplex && r.0@.phase == PackPhase::Done),
            paths@.len() > 0 && (forall|i: int|
                0 <= i < paths@.len() ==> is_simple(#[trigger] paths@[i]@)) ==> (r.1 matches Step::Run(inv)
                && inv@ == hash_object_view(git@, self@, views(paths@)) && r.0@ == (PackRunView {
                bin: git@,
                dir: self@,
                pack_base: joined(pack_name@, pack_file_name()),
                objects: Seq::empty(),
                phase: PackPhase::Hashing,
            })),
    {
        let pack_base = join(pack_name, "xtest-data");
        proof {
            reveal_strlit("xtest-data");
        }
        let mut run = PackRun {
            bin: git.bin().to_owned(),
            dir: self.path.clone(),
            pack_base,
            objects: Vec::new(),
            phase: PackPhase::Done,
        };
        assert(run.objects@ =~= Seq::<u8>::empty());
        if paths.len() == 0 {
            return (run, Step::Finished);
        }
        let split = PathSpecFilter::from_paths(paths);
        proof {
            lemma_no_complex(views(paths@));
            assert forall|i: int| 0 <= i < paths@.len() implies #[trigger] views(paths@)[i]
                == paths@[i]@ by {}
        }
        if split.complex_paths.len() > 0 {
            assert(views(split.complex_paths@).len() > 0);
            return (run, Step::Abort(Fatal::PathsTooComplex));
        }
        assert(views(split.complex_paths@).len() == 0);
        assert forall|i: int| 0 <= i < paths@.len() implies is_simple(#[trigger] paths@[i]@) by {
            assert(views(paths@)[i] == paths@[i]@);
        }
        let mut inv = self.exec(git);
        inv.arg("hash-object");
        inv.arg("-w");
        inv.arg("--stdin");
        inv.input = Input::Text(sparse_filter_input(&split.simple_filter));
        inv.stdout = Capture::Piped;
        inv.stderr = Capture::Piped;
        assert(inv@.args =~= seq!["hash-object"@, "-w"@, "--stdin"@]);
        run.phase = PackPhase::Hashing;
        (run, Step::Run(inv))
    }
}

/// The steps of packing, in order.
#[derive(Debug, Clone, Copy, PartialEq, Eq, Structural)]
pub enum PackPhase {
    /// Storing the sparse filter with `git hash-object`.
    Hashing,
    /// Listing the objects the sparse filter selects.
    ListingSparse,
    /// Listing the trees of `HEAD`.
    ListingTrees,
    /// Writing the pack with `git pack-objects`.
    Packing,
    /// Nothing is left to run.
    Done,
}

/// A packing operation in progress, started by [`CrateDir::pack_objects`].
#[derive(Debug)]
pub struct PackRun {
    bin: String,
    dir: String,
    pack_base: String,
    objects: Vec<u8>,
    phase: PackPhase,
}

/// The model of a [`PackRun`].
pub struct PackRunView {
    /// The `git` binary.
    pub bin: Seq<char>,
    /// The working copy.
    pub dir: Seq<char>,
    /// Where the pack is written.
    pub pack_base: Seq<char>,
    /// The object list gathered so far.
    pub objects: Seq<u8>,
    /// The step that the last handed-out run belongs to.
    pub phase: PackPhase,
}

impl View for PackRun {
    type V = PackRunView;

    closed spec fn view(&self) -> PackRunView {
        PackRunView {
            bin: self.bin@,
            dir: self.dir@,
            pack_base: self.pack_base@,
            objects: self.objects@,
            phase: self.phase,
        }
    }
}

/// The fatal condition of a failed `git hash-object`, the first run in a
/// purported working copy: with a hint when it reads as if there is no
/// repository at all.
pub open spec fn hash_failure(o: Outcome) -> FatalView {
    match o {
        Outcome::Exited { success: false, stderr, .. } => if reads_as_no_repository(stderr@) {
            FatalView::NoRepository { stderr: stderr@ }
        } else {
            FatalView::GitFailed { stderr: stderr@ }
        },
        _ => failure_of(o),
    }
}

/// The output captured from a successful run.
pub open spec fn stdout_of(o: Outcome) -> Seq<u8> {
    match o {
        Outcome::Exited { stdout, .. } => stdout@,
        Outcome::NotRun => Seq::empty(),
    }
}

impl PackRun {
    /// The step that the last handed-out run belongs to.
    pub fn phase(&self) -> (r: PackPhase)
        ensures
            r == self@.phase,
    {
        self.phase
    }

    /// `git rev-list` in the working copy of the objects of `HEAD` that pass
    /// `filter`.
    fn rev_list(&self, filter: &str) -> (r: Invocation)
        ensures
            r@ == rev_list_view(self@.bin, self@.dir, filter@),
    {
        let mut inv = Invocation {
            program: self.bin.clone(),
            current_dir: Some(self.dir.clone()),
            args: Vec::new(),
            input: Input::Inherited,
            stdout: Capture::Piped,
            stderr: Capture::Piped,
        };
        assert(crate::pathspec::texts(inv.args@) =~= Seq::empty());
        inv.arg("rev-list");
        inv.arg("-n");
        inv.arg("1");
        inv.arg("--objects");
        inv.arg("--no-object-names");
        inv.arg(filter);
        inv.arg("HEAD");
        assert(inv@.args =~= seq![
            "rev-list"@,
            "-n"@,
            "1"@,
            "--objects"@,
            "--no-object-names"@,
            filter@,
            "HEAD"@,
        ]);
        inv
    }

    /// Takes the outcome of the last handed-out run and decides the next
    /// step. Any failure ends the operation; each success leads to the next
    /// run of the fixed order hash, sparse listing, tree listing, pack.
    pub fn advance(&mut self, outcome: Outcome) -> (r: Step)
        requires
            old(self)@.phase != PackPhase::Done,
        ensures
            final(self)@.bin == old(self)@.bin,
            final(self)@.dir == old(self)@.dir,
            final(self)@.pack_base == old(self)@.pack_base,
            !succeeded(outcome) ==> (r matches Step::Abort(f) && final(self)@.phase == PackPhase::Done
                && f@ == (if old(self)@.phase == PackPhase::Hashing {
                hash_failure(outcome)
            } else {
                failure_of(outcome)
            })),
            succeeded(outcome) && old(self)@.phase == PackPhase::Hashing && object_id_text(
                stdout_of(outcome),
            ).len() < crate::commit::MIN_COMMIT_ID_LEN ==> (r matches Step::Abort(f)
                && final(self)@.phase == PackPhase::Done && f@ == FatalView::BadObjectId {
                error: CommitIdError::TooShort {
                    len: object_id_text(stdout_of(outcome)).len() as usize,
                },
            }),
            succeeded(outcome) && old(self)@.phase == PackPhase::Hashing && object_id_text(
                stdout_of(outcome),
            ).len() >= crate::commit::MIN_COMMIT_ID_LEN ==> (r matches Step::Run(inv)
                && final(self)@.phase == PackPhase::ListingSparse && final(self)@.objects
                == old(self)@.objects && inv@ == rev_list_view(
                old(self)@.bin,
                old(self)@.dir,
                sparse_filter_arg(object_id_text(stdout_of(outcome))),
            )),
            succeeded(outcome) && old(self)@.phase == PackPhase::ListingSparse ==> (r matches Step::Run(inv)
                && final(self)@.phase == PackPhase::ListingTrees && final(self)@.objects
                == stdout_of(outcome) && inv@ == rev_list_view(
                old(self)@.bin,
                old(self)@.dir,
                "--filter=blob:none"@,
            )),
            succeeded(outcome) && old(self)@.phase == PackPhase::ListingTrees ==> (r matches Step::Run(inv)
                && final(self)@.phase == PackPhase::Packing && final(self)@.objects
                == old(self)@.objects + stdout_of(outcome) && inv@ == pack_objects_view(
                old(self)@.bin,
                old(self)@.dir,
                old(self)@.pack_base,
                old(self)@.objects + stdout_of(outcome),
            )),
            succeeded(outcome) && old(self)@.phase == PackPhase::Packing ==> final(self)@.phase
                == PackPhase::Done && r is Finished,
    {
        let phase = self.phase;
        let (success, stdout, stderr) = match outcome {
            Outcome::NotRun => {
                self.phase = PackPhase::Done;
                return Step::Abort(Fatal::CouldNotRun);
            },
            Outcome::Exited { success, stdout, stderr } => (success, stdout, stderr),
        };
        if !success {
            self.phase = PackPhase::Done;
            if phase == PackPhase::Hashing && looks_like_no_repository(&stderr) {
                return Step::Abort(Fatal::NoRepository { stderr });
            }
            return Step::Abort(Fatal::GitFailed { stderr });
        }
        match phase {
            PackPhase::Hashing => {
                let text = decode_lossy(&stdout);
                match CommitId::parse(text.as_str()) {
                    Err(error) => {
                        self.phase = PackPhase::Done;
                        Step::Abort(Fatal::BadObjectId { error })
                    },
                    Ok(oid) => {
                        let mut filter = String::from_str("--filter=sparse:oid=");
                        filter.append(oid.as_str());
                        self.phase = PackPhase::ListingSparse;
                        Step::Run(self.rev_list(filter.as_str()))
                    },
                }
            },
            PackPhase::ListingSparse => {
                self.objects = stdout;
                self.phase = PackPhase::ListingTrees;
                Step::Run(self.rev_list("--filter=blob:none"))
            },
            PackPhase::ListingTrees => {
                let mut more = stdout;
                self.objects.append(&mut more);
                self.phase = PackPhase::Packing;
                let mut inv = Invocation {
                    program: self.bin.clone(),
                    current_dir: Some(self.dir.clone()),
                    args: Vec::new(),
                    input: Input::Bytes(self.objects.clone()),
                    stdout: Capture::Null,
                    stderr: Capture::Piped,
                };
                assert(crate::pathspec::texts(inv.args@) =~= Seq::empty());
                inv.arg("pack-objects");
                inv.arg(self.pack_base.as_str());
                assert(inv@.args =~= seq!["pack-objects"@, self.pack_base@]);
                Step::Run(inv)
            },
            _ => {
                self.phase = PackPhase::Done;
                Step::Finished
            },
        }
    }
}

} // verus!
