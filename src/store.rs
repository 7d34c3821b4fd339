//! The bare object store that packs are unpacked into and worktrees are
//! checked out from.
use vstd::prelude::*;

use crate::commit::CommitId;
use crate::diagnosis::{failure_of, require_success, Fatal, FatalView};
use crate::fspath::{join, joined};
use crate::invocation::{Capture, Git, Input, InputView, Invocation, InvocationView, Outcome, Step, succeeded};
use crate::pathspec::{
    displayed, is_simple, sparse_pattern, lemma_split_keeps_all, pathspec_file_input, sparse_checkout_input,
    terminated, texts, views, PathSpec, PathSpecFilter,
};

verus! {

/// A bare repository, holding objects but no working files.
#[derive(Debug)]
pub struct ShallowBareRepository {
    path: String,
}

impl View for ShallowBareRepository {
    type V = Seq<char>;

    /// The directory of the store.
    closed spec fn view(&self) -> Seq<char> {
        self.path@
    }
}

/// A run of `bin` against the store at `store`, with no input, the output
/// discarded and the error stream captured.
pub open spec fn in_store(bin: Seq<char>, store: Seq<char>) -> InvocationView {
    InvocationView {
        program: bin,
        current_dir: None,
        args: seq!["--git-dir"@, store],
        input: InputView::Inherited,
        stdout: Capture::Null,
        stderr: Capture::Piped,
    }
}

/// `in_store` with `more` appended to the arguments.
pub open spec fn store_run(bin: Seq<char>, store: Seq<char>, more: Seq<Seq<char>>) -> InvocationView {
    InvocationView { args: in_store(bin, store).args + more, ..in_store(bin, store) }
}

/// The name of the pinned-commit marker inside a store.
pub open spec fn marker_name() -> Seq<char> {
    "shallow"@
}

/// Whether a file name ends in `pack`, the suffix of pack streams.
pub open spec fn is_pack_name(name: Seq<char>) -> bool {
    name.len() >= 4 && name.subrange(name.len() - 4, name.len() as int) == seq!['p', 'a', 'c', 'k']
}

/// `git unpack-objects` reading the pack stream at `file`.
pub open spec fn unpack_view(bin: Seq<char>, store: Seq<char>, file: Seq<char>) -> InvocationView {
    InvocationView {
        input: InputView::FileContents(file),
        ..store_run(bin, store, seq!["unpack-objects"@, "-r"@])
    }
}

/// `git worktree add` of `worktree` at `head`, with no files populated.
pub open spec fn worktree_add_view(
    bin: Seq<char>,
    store: Seq<char>,
    worktree: Seq<char>,
    head: Seq<char>,
) -> InvocationView {
    store_run(bin, store, seq!["worktree"@, "add"@, "--no-checkout"@, worktree, head])
}

/// A run against the store and the worktree `worktree`, with `more` as the
/// remaining arguments.
pub open spec fn worktree_run(
    bin: Seq<char>,
    store: Seq<char>,
    worktree: Seq<char>,
    more: Seq<Seq<char>>,
) -> InvocationView {
    store_run(bin, store, seq!["--work-tree"@, worktree] + more)
}

/// `git sparse-checkout set`, in non-cone mode, of the anchored, escaped
/// patterns for `simple`.
pub open spec fn sparse_set_view(
    bin: Seq<char>,
    store: Seq<char>,
    worktree: Seq<char>,
    simple: Seq<Seq<char>>,
) -> InvocationView {
    InvocationView {
        input: InputView::Text(
            terminated(simple.map_values(|p: Seq<char>| sparse_pattern(p)), '\n'),
        ),
        ..worktree_run(
            bin,
            store,
            worktree,
            seq!["sparse-checkout"@, "--no-cone"@, "set"@, "--stdin"@],
        )
    }
}

/// A forced checkout of `head` into the worktree.
pub open spec fn force_checkout_view(
    bin: Seq<char>,
    store: Seq<char>,
    worktree: Seq<char>,
    head: Seq<char>,
) -> InvocationView {
    worktree_run(bin, store, worktree, seq!["checkout"@, "--force"@, head])
}

/// A forced checkout of `head` restricted to exactly `paths`, read as a
/// NUL-separated pathspec file.
pub open spec fn slow_checkout_view(
    bin: Seq<char>,
    store: Seq<char>,
    worktree: Seq<char>,
    head: Seq<char>,
    paths: Seq<Seq<char>>,
) -> InvocationView {
    InvocationView {
        input: InputView::Text(terminated(paths.map_values(|p: Seq<char>| displayed(p)), '\0')),
        ..worktree_run(
            bin,
            store,
            worktree,
            seq![
                "checkout"@,
                "--no-guess"@,
                "--force"@,
                "--pathspec-from-file=-"@,
                "--pathspec-file-nul"@,
                head,
            ],
        )
    }
}

/// What it takes to prepare a bare store pinned to a commit: run `probe`;
/// when it succeeds, write `marker` to the file `marker_path`.
#[derive(Debug)]
pub struct BareInit {
    /// The store being prepared.
    pub repo: ShallowBareRepository,
    /// Creates the store, or checks that `git` recognises the existing one.
    pub probe: Invocation,
    /// Where the pinned-commit marker goes.
    pub marker_path: String,
    /// The marker's content.
    pub marker: String,
}

/// A prepared store whose pinned-commit marker is still to be written.
#[derive(Debug)]
pub struct PinMarker {
    /// The store.
    pub repo: ShallowBareRepository,
    /// Where the marker goes.
    pub path: String,
    /// The marker's content.
    pub contents: String,
}

impl BareInit {
    /// Takes the outcome of `probe`: only a successful one lets the marker be
    /// written; any failure ends the run.
    pub fn finish(self, probe: Outcome) -> (r: Result<PinMarker, Fatal>)
        ensures
            r is Ok <==> succeeded(probe),
            r matches Ok(m) ==> m.repo@ == self.repo@ && m.path@ == self.marker_path@
                && m.contents@ == self.marker@,
            r matches Err(f) ==> f@ == failure_of(probe),
    {
        match require_success(probe) {
            Ok(()) => Ok(PinMarker { repo: self.repo, path: self.marker_path, contents: self.marker }),
            Err(f) => Err(f),
        }
    }
}

impl Git {
    /// Prepares `path` as a bare store pinned to `head`. Where nothing is at
    /// `path` yet (`exists` is false) the store is created; otherwise `git`
    /// must recognise what is there. Either way the marker is written after.
    pub fn bare(&self, path: &str, exists: bool, head: &CommitId) -> (r: BareInit)
        ensures
            r.repo@ == path@,
            !exists ==> r.probe@ == store_run(
                self@,
                path@,
                seq!["init"@, "--bare"@, "--"@, path@],
            ),
            exists ==> r.probe@ == store_run(self@, path@, seq!["symbolic-ref"@, "HEAD"@]),
            r.marker_path@ == joined(path@, marker_name()),
            r.marker@ == head@.push('\n'),
    {
        let repo = ShallowBareRepository { path: path.to_owned() };
        let mut probe = repo.exec(self);
        if !exists {
            probe.arg("init");
            probe.arg("--bare");
            probe.arg("--");
            probe.arg(path);
            assert(probe@.args =~= in_store(self@, path@).args + seq![
                "init"@,
                "--bare"@,
                "--"@,
                path@,
            ]);
        } else {
            probe.arg("symbolic-ref");
            probe.arg("HEAD");
            assert(probe@.args =~= in_store(self@, path@).args + seq!["symbolic-ref"@, "HEAD"@]);
        }
        let marker_path = repo.marker_path();
        BareInit { repo, probe, marker_path, marker: head.shallow_marker() }
    }
}

/// Whether the file name `name` ends in `pack`.
pub fn is_pack_file(name: &str) -> (r: bool)
    ensures
        r == is_pack_name(name@),
{
    let n = name.unicode_len();
    if n < 4 {
        return false;
    }
    let r = name.get_char(n - 4) == 'p' && name.get_char(n - 3) == 'a' && name.get_char(n - 2)
        == 'c' && name.get_char(n - 1) == 'k';
    proof {
        let tail = name@.subrange(n - 4, n as int);
        if r {
            assert(tail =~= seq!['p', 'a', 'c', 'k']);
        } else {
            if tail == seq!['p', 'a', 'c', 'k'] {
                assert(tail[0] == name@[n - 4]);
                assert(tail[1] == name@[n - 3]);
                assert(tail[2] == name@[n - 2]);
                assert(tail[3] == name@[n - 1]);
            }
        }
    }
    r
}

/// The pack streams among the file paths `entries`, in their order; other
/// files are left alone.
pub fn select_packs(entries: &Vec<String>) -> (r: Vec<String>)
    ensures
        texts(r@) == texts(entries@).filter(|n: Seq<char>| is_pack_name(n)),
{
    let mut r: Vec<String> = Vec::new();
    let mut i: usize = 0;
    assert(texts(entries@).take(0).filter(|n: Seq<char>| is_pack_name(n)) =~= Seq::empty()) by {
        reveal(Seq::filter);
    }
    assert(texts(r@) =~= Seq::empty());
    while i < entries.len()
        invariant
            i <= entries@.len(),
            texts(r@) == texts(entries@).take(i as int).filter(|n: Seq<char>| is_pack_name(n)),
        decreases entries@.len() - i,
    {
        let ghost t = texts(entries@);
        assert(t.take(i + 1).drop_last() =~= t.take(i as int));
        assert(t.take(i + 1).last() == entries@[i as int]@);
        assert(t.take(i + 1).len() > 0);
        let keep = is_pack_file(entries[i].as_str());
        if keep {
            let ghost before = r@;
            r.push(entries[i].clone());
            assert(texts(r@) =~= texts(before).push(entries@[i as int]@));
            assert(t.take(i + 1).filter(|n: Seq<char>| is_pack_name(n)) == t.take(i as int).filter(
                |n: Seq<char>| is_pack_name(n),
            ).push(entries@[i as int]@)) by {
                reveal(Seq::filter);
            }
        } else {
            assert(t.take(i + 1).filter(|n: Seq<char>| is_pack_name(n)) == t.take(i as int).filter(
                |n: Seq<char>| is_pack_name(n),
            )) by {
                reveal(Seq::filter);
            }
        }
        i = i + 1;
    }
    assert(texts(entries@).take(i as int) =~= texts(entries@));
    r
}

impl ShallowBareRepository {
    /// The directory of the store.
    pub fn path(&self) -> (r: &str)
        ensures
            r@ == self@,
    {
        self.path.as_str()
    }

    /// A run of `git` against the store, with no input, the output discarded
    /// and the error stream captured.
    pub fn exec(&self, git: &Git) -> (r: Invocation)
        ensures
            r@ == in_store(git@, self@),
    {
        let mut r = Invocation {
            program: git.bin().to_owned(),
            current_dir: None,
            args: Vec::new(),
            input: Input::Inherited,
            stdout: Capture::Null,
            stderr: Capture::Piped,
        };
        assert(texts(r.args@) =~= Seq::empty());
        r.arg("--git-dir");
        r.arg(self.path.as_str());
        assert(r@.args =~= seq!["--git-dir"@, self@]);
        r
    }

    /// The path of the pinned-commit marker.
    pub fn marker_path(&self) -> (r: String)
        ensures
            r@ == joined(self@, marker_name()),
    {
        proof {
            reveal_strlit("shallow");
        }
        join(self.path.as_str(), "shallow")
    }

    /// One `git unpack-objects` for each pack stream among the file paths
    /// `entries` of the artifact directory, in their order.
    pub fn unpack(&self, git: &Git, entries: &Vec<String>) -> (r: Vec<Invocation>)
        ensures
            r@.len() == texts(entries@).filter(|n: Seq<char>| is_pack_name(n)).len(),
            forall|i: int|
                0 <= i < r@.len() ==> (#[trigger] r@[i])@ == unpack_view(
                    git@,
                    self@,
                    texts(entries@).filter(|n: Seq<char>| is_pack_name(n))[i],
                ),
    {
        let packs = select_packs(entries);
        let mut r: Vec<Invocation> = Vec::new();
        let mut i: usize = 0;
        while i < packs.len()
            invariant
                i <= packs@.len(),
                r@.len() == i,
                texts(packs@) == texts(entries@).filter(|n: Seq<char>| is_pack_name(n)),
                forall|k: int| 0 <= k < i ==> (#[trigger] r@[k])@ == unpack_view(git@, self@, packs@[k]@),
            decreases packs@.len() - i,
        {
            let mut inv = self.exec(git);
            inv.arg("unpack-objects");
            inv.arg("-r");
            inv.input = Input::FileContents(packs[i].clone());
            assert(inv@.args =~= in_store(git@, self@).args + seq!["unpack-objects"@, "-r"@]);
            r.push(inv);
            i = i + 1;
        }
        assert forall|k: int| 0 <= k < r@.len() implies (#[trigger] r@[k])@ == unpack_view(
            git@,
            self@,
            texts(entries@).filter(|n: Seq<char>| is_pack_name(n))[k],
        ) by {
            assert(texts(packs@)[k] == packs@[k]@);
        }
        r
    }

    /// Starts a checkout of `head` into the existing worktree `worktree` by
    /// the slow path alone: one forced checkout restricted to exactly `paths`,
    /// read as a NUL-separated pathspec file. Correct for any path, but slow
    /// where objects are fetched lazily. The run holds all of `paths` as the
    /// ones the slow path serves; its failure ends the operation.
    pub fn checkout_fallback_slow(
        &self,
        git: &Git,
        worktree: &str,
        head: &CommitId,
        paths: &Vec<PathSpec>,
    ) -> (r: (CheckoutRun, Step))
        ensures
            r.0@ == (CheckoutRunView {
                bin: git@,
                store: self@,
                worktree: worktree@,
                head: head@,
                simple: Seq::empty(),
                complex: views(paths@),
                phase: CheckoutPhase::SlowForAll,
            }),
            r.1 matches Step::Run(inv) && inv@ == slow_checkout_view(
                git@,
                self@,
                worktree@,
                head@,
                views(paths@),
            ),
    {
        let inv = slow_checkout(git.bin(), self.path.as_str(), worktree, head.as_str(), paths);
        let mut complex: Vec<PathSpec> = Vec::new();
        let mut i: usize = 0;
        while i < paths.len()
            invariant
                i <= paths@.len(),
                views(complex@) == views(paths@).take(i as int),
            decreases paths@.len() - i,
        {
            let ghost before = complex@;
            complex.push(paths[i].duplicate());
            assert(views(complex@) =~= views(before).push(paths@[i as int]@));
            assert(views(complex@) =~= views(paths@).take(i + 1));
            i = i + 1;
        }
        assert(views(paths@).take(i as int) =~= views(paths@));
        let simple: Vec<PathSpec> = Vec::new();
        assert(views(simple@) =~= Seq::empty());
        let run = CheckoutRun {
            bin: git.bin().to_owned(),
            store: self.path.clone(),
            worktree: worktree.to_owned(),
            head: head.as_str().to_owned(),
            simple,
            complex,
            phase: CheckoutPhase::SlowForAll,
        };
        (run, Step::Run(inv))
    }

    /// Starts checking out `paths` at `head` into the new worktree
    /// `worktree`: the worktree is added first, with no files.
    pub fn checkout(&self, git: &Git, worktree: &str, head: &CommitId, paths: &Vec<PathSpec>) -> (r: (
        CheckoutRun,
        Step,
    ))
        ensures
            r.0@ == (CheckoutRunView {
                bin: git@,
                store: self@,
                worktree: worktree@,
                head: head@,
                simple: views(paths@).filter(|p: Seq<char>| is_simple(p)),
                complex: views(paths@).filter(|p: Seq<char>| !is_simple(p)),
                phase: CheckoutPhase::AddingWorktree,
            }),
            r.1 matches Step::Run(inv) && inv@ == worktree_add_view(git@, self@, worktree@, head@),
    {
        let split = PathSpecFilter::from_paths(paths);
        let mut inv = self.exec(git);
        inv.arg("worktree");
        inv.arg("add");
        inv.arg("--no-checkout");
        inv.arg(worktree);
        inv.arg(head.as_str());
        assert(inv@.args =~= in_store(git@, self@).args + seq![
            "worktree"@,
            "add"@,
            "--no-checkout"@,
            worktree@,
            head@,
        ]);
        let run = CheckoutRun {
            bin: git.bin().to_owned(),
            store: self.path.clone(),
            worktree: worktree.to_owned(),
            head: head.as_str().to_owned(),
            simple: split.simple_filter,
            complex: split.complex_paths,
            phase: CheckoutPhase::AddingWorktree,
        };
        (run, Step::Run(inv))
    }
}

/// The slow checkout run, from plain values.
fn slow_checkout(bin: &str, store: &str, worktree: &str, head: &str, paths: &Vec<PathSpec>) -> (r:
    Invocation)
    ensures
        r@ == slow_checkout_view(bin@, store@, worktree@, head@, views(paths@)),
{
    let mut inv = worktree_invocation(bin, store, worktree);
    inv.arg("checkout");
    inv.arg("--no-guess");
    inv.arg("--force");
    inv.arg("--pathspec-from-file=-");
    inv.arg("--pathspec-file-nul");
    inv.arg(head);
    inv.input = Input::Text(pathspec_file_input(paths));
    assert(inv@.args =~= in_store(bin@, store@).args + (seq!["--work-tree"@, worktree@] + seq![
        "checkout"@,
        "--no-guess"@,
        "--force"@,
        "--pathspec-from-file=-"@,
        "--pathspec-file-nul"@,
        head@,
    ]));
    inv
}

/// A run against the store and the worktree, with no further arguments.
fn worktree_invocation(bin: &str, store: &str, worktree: &str) -> (r: Invocation)
    ensures
        r@ == worktree_run(bin@, store@, worktree@, Seq::empty()),
{
    let mut r = Invocation {
        program: bin.to_owned(),
        current_dir: None,
        args: Vec::new(),
        input: Input::Inherited,
        stdout: Capture::Null,
        stderr: Capture::Piped,
    };
    assert(texts(r.args@) =~= Seq::empty());
    r.arg("--git-dir");
    r.arg(store);
    r.arg("--work-tree");
    r.arg(worktree);
    assert(r@.args =~= in_store(bin@, store@).args + (seq!["--work-tree"@, worktree@] + Seq::<
        Seq<char>,
    >::empty()));
    r
}

/// The steps of a checkout, in order.
#[derive(Debug, Clone, Copy, PartialEq, Eq, Structural)]
pub enum CheckoutPhase {
    /// Adding the worktree, with no files.
    AddingWorktree,
    /// Restricting the worktree to the simple paths by sparse checkout.
    SettingSparse,
    /// The forced checkout of the sparse selection.
    CheckingOut,
    /// The slow checkout of the complex paths, after a sparse checkout.
    SlowForComplex,
    /// The slow checkout of every path, as sparse checkout is unavailable.
    SlowForAll,
    /// Nothing is left to run.
    Done,
}

/// A checkout in progress, started by [`ShallowBareRepository::checkout`].
#[derive(Debug)]
pub struct CheckoutRun {
    bin: String,
    store: String,
    worktree: String,
    head: String,
    simple: Vec<PathSpec>,
    complex: Vec<PathSpec>,
    phase: CheckoutPhase,
}

/// The model of a [`CheckoutRun`].
pub struct CheckoutRunView {
    /// The `git` binary.
    pub bin: Seq<char>,
    /// The store.
    pub store: Seq<char>,
    /// The worktree being populated.
    pub worktree: Seq<char>,
    /// The pinned commit.
    pub head: Seq<char>,
    /// The requested paths a sparse filter can express, in order.
    pub simple: Seq<Seq<char>>,
    /// The other requested paths, in order; for a run of the slow path
    /// alone, all of them.
    pub complex: Seq<Seq<char>>,
    /// The step that the last handed-out run belongs to.
    pub phase: CheckoutPhase,
}

impl View for CheckoutRun {
    type V = CheckoutRunView;

    closed spec fn view(&self) -> CheckoutRunView {
        CheckoutRunView {
            bin: self.bin@,
            store: self.store@,
            worktree: self.worktree@,
            head: self.head@,
            simple: views(self.simple@),
            complex: views(self.complex@),
            phase: self.phase,
        }
    }
}

impl CheckoutRun {
    /// The step that the last handed-out run belongs to.
    pub fn phase(&self) -> (r: CheckoutPhase)
        ensures
            r == self@.phase,
    {
        self.phase
    }

    /// Takes the outcome of the last handed-out run and decides the next
    /// step. A sparse checkout that fails or cannot run falls back to the
    /// slow path for every path; any other failure ends the operation. After
    /// a sparse checkout, the complex paths are checked out the slow way.
    pub fn advance(&mut self, outcome: Outcome) -> (r: Step)
        requires
            old(self)@.phase != CheckoutPhase::Done,
        ensures
            final(self)@ == (CheckoutRunView { phase: final(self)@.phase, ..old(self)@ }),
            old(self)@.phase == CheckoutPhase::AddingWorktree && succeeded(outcome) ==> (r matches Step::Run(inv)
                && final(self)@.phase == CheckoutPhase::SettingSparse && inv@ == sparse_set_view(
                old(self)@.bin,
                old(self)@.store,
                old(self)@.worktree,
                old(self)@.simple,
            )),
            old(self)@.phase == CheckoutPhase::SettingSparse && succeeded(outcome) ==> (r matches Step::Run(inv)
                && final(self)@.phase == CheckoutPhase::CheckingOut && inv@ == force_checkout_view(
                old(self)@.bin,
                old(self)@.store,
                old(self)@.worktree,
                old(self)@.head,
            )),
            old(self)@.phase == CheckoutPhase::SettingSparse && !succeeded(outcome) ==> (r matches Step::Fallback(inv)
                && final(self)@.phase == CheckoutPhase::SlowForAll && inv@ == slow_checkout_view(
                old(self)@.bin,
                old(self)@.store,
                old(self)@.worktree,
                old(self)@.head,
                old(self)@.simple + old(self)@.complex,
            )),
            old(self)@.phase == CheckoutPhase::CheckingOut && succeeded(outcome) ==> (r matches Step::Run(inv)
                && final(self)@.phase == CheckoutPhase::SlowForComplex && inv@ == slow_checkout_view(
                old(self)@.bin,
                old(self)@.store,
                old(self)@.worktree,
                old(self)@.head,
                old(self)@.complex,
            )),
            (old(self)@.phase == CheckoutPhase::SlowForComplex || old(self)@.phase
                == CheckoutPhase::SlowForAll) && succeeded(outcome) ==> final(self)@.phase
                == CheckoutPhase::Done && r is Finished,
            old(self)@.phase != CheckoutPhase::SettingSparse && !succeeded(outcome) ==> (r matches Step::Abort(f)
                && final(self)@.phase == CheckoutPhase::Done && f@ == failure_of(outcome)),
    {
        let phase = self.phase;
        if phase == CheckoutPhase::SettingSparse {
            let ok = match &outcome {
                Outcome::Exited { success, .. } => *success,
                Outcome::NotRun => false,
            };
            if !ok {
                let mut all: Vec<PathSpec> = Vec::new();
                let mut i: usize = 0;
                while i < self.simple.len()
                    invariant
                        i <= self.simple@.len(),
                        views(all@) == views(self.simple@).take(i as int),
                    decreases self.simple@.len() - i,
                {
                    let ghost before = all@;
                    all.push(self.simple[i].duplicate());
                    assert(views(all@) =~= views(before).push(self.simple@[i as int]@));
                    assert(views(all@) =~= views(self.simple@).take(i + 1));
                    i = i + 1;
                }
                let mut j: usize = 0;
                assert(views(self.simple@).take(i as int) =~= views(self.simple@));
                assert(views(all@) =~= views(self.simple@) + views(self.complex@).take(0));
                while j < self.complex.len()
                    invariant
                        j <= self.complex@.len(),
                        views(all@) == views(self.simple@) + views(self.complex@).take(j as int),
                    decreases self.complex@.len() - j,
                {
                    let ghost before = all@;
                    all.push(self.complex[j].duplicate());
                    assert(views(all@) =~= views(before).push(self.complex@[j as int]@));
                    assert(views(all@) =~= views(self.simple@) + views(self.complex@).take(j + 1));
                    j = j + 1;
                }
                assert(views(self.complex@).take(j as int) =~= views(self.complex@));
                self.phase = CheckoutPhase::SlowForAll;
                return Step::Fallback(
                    slow_checkout(
                        self.bin.as_str(),
                        self.store.as_str(),
                        self.worktree.as_str(),
                        self.head.as_str(),
                        &all,
                    ),
                );
            }
            let mut inv = worktree_invocation(
                self.bin.as_str(),
                self.store.as_str(),
                self.worktree.as_str(),
            );
            inv.arg("checkout");
            inv.arg("--force");
            inv.arg(self.head.as_str());
            assert(inv@.args =~= in_store(self@.bin, self@.store).args + (seq![
                "--work-tree"@,
                self@.worktree,
            ] + seq!["checkout"@, "--force"@, self@.head]));
            self.phase = CheckoutPhase::CheckingOut;
            return Step::Run(inv);
        }
        match outcome {
            Outcome::NotRun => {
                self.phase = CheckoutPhase::Done;
                return Step::Abort(Fatal::CouldNotRun);
            },
            Outcome::Exited { success, stderr, .. } => {
                if !success {
                    self.phase = CheckoutPhase::Done;
                    return Step::Abort(Fatal::GitFailed { stderr });
                }
            },
        }
        match phase {
            CheckoutPhase::AddingWorktree => {
                let mut inv = worktree_invocation(
                    self.bin.as_str(),
                    self.store.as_str(),
                    self.worktree.as_str(),
                );
                inv.arg("sparse-checkout");
                inv.arg("--no-cone");
                inv.arg("set");
                inv.arg("--stdin");
                inv.input = Input::Text(sparse_checkout_input(&self.simple));
                assert(inv@.args =~= in_store(self@.bin, self@.store).args + (seq![
                    "--work-tree"@,
                    self@.worktree,
                ] + seq!["sparse-checkout"@, "--no-cone"@, "set"@, "--stdin"@]));
                self.phase = CheckoutPhase::SettingSparse;
                Step::Run(inv)
            },
            CheckoutPhase::CheckingOut => {
                self.phase = CheckoutPhase::SlowForComplex;
                Step::Run(
                    slow_checkout(
                        self.bin.as_str(),
                        self.store.as_str(),
                        self.worktree.as_str(),
                        self.head.as_str(),
                        &self.complex,
                    ),
                )
            },
            _ => {
                self.phase = CheckoutPhase::Done;
                Step::Finished
            },
        }
    }
}

/// When sparse checkout is unavailable, the slow path that a checkout falls
/// back to is asked for every requested path, as often as it was requested
/// and for no other.
pub proof fn lemma_fallback_requests_all(run: CheckoutRunView, paths: Seq<Seq<char>>)
    requires
        run.simple == paths.filter(|p: Seq<char>| is_simple(p)),
        run.complex == paths.filter(|p: Seq<char>| !is_simple(p)),
    ensures
        (run.simple + run.complex).to_multiset() == paths.to_multiset(),
{
    lemma_split_keeps_all(paths);
}

/// The models of a sequence of invocations.
pub open spec fn invocation_views(invs: Seq<Invocation>) -> Seq<InvocationView> {
    invs.map_values(|i: Invocation| i@)
}

/// Unpacking in progress: the runs from [`ShallowBareRepository::unpack`],
/// one after the other, stopping at the first failure.
#[derive(Debug)]
pub struct UnpackRun {
    pending: Vec<Invocation>,
    done: bool,
}

/// The model of an [`UnpackRun`].
pub struct UnpackRunView {
    /// The runs not handed out yet, in order.
    pub pending: Seq<InvocationView>,
    /// Whether nothing is left to run.
    pub done: bool,
}

impl View for UnpackRun {
    type V = UnpackRunView;

    closed spec fn view(&self) -> UnpackRunView {
        UnpackRunView { pending: invocation_views(self.pending@), done: self.done }
    }
}

impl UnpackRun {
    /// Starts running `runs` in order.
    pub fn new(runs: Vec<Invocation>) -> (r: (UnpackRun, Step))
        ensures
            runs@.len() == 0 ==> (r.1 is Finished && r.0@.done),
            runs@.len() > 0 ==> (r.1 matches Step::Run(inv) && inv@ == runs@[0]@ && !r.0@.done
                && r.0@.pending == invocation_views(runs@).drop_first()),
    {
        let mut pending = runs;
        if pending.len() == 0 {
            return (UnpackRun { pending, done: true }, Step::Finished);
        }
        let ghost all = pending@;
        let first = pending.remove(0);
        assert(invocation_views(pending@) =~= invocation_views(all).drop_first());
        (UnpackRun { pending, done: false }, Step::Run(first))
    }

    /// Whether nothing is left to run.
    pub fn is_done(&self) -> (r: bool)
        ensures
            r == self@.done,
    {
        self.done
    }

    /// Takes the outcome of the last handed-out run: a failure ends the
    /// operation, a success hands out the next run, if any.
    pub fn advance(&mut self, outcome: Outcome) -> (r: Step)
        requires
            !old(self)@.done,
        ensures
            !succeeded(outcome) ==> (r matches Step::Abort(f) && f@ == failure_of(outcome)
                && final(self)@.done),
            succeeded(outcome) && old(self)@.pending.len() == 0 ==> (r is Finished
                && final(self)@.done),
            succeeded(outcome) && old(self)@.pending.len() > 0 ==> (r matches Step::Run(inv)
                && inv@ == old(self)@.pending[0] && !final(self)@.done && final(self)@.pending
                == old(self)@.pending.drop_first()),
    {
        if let Err(f) = require_success(outcome) {
            self.done = true;
            return Step::Abort(f);
        }
        if self.pending.len() == 0 {
            self.done = true;
            return Step::Finished;
        }
        let ghost all = self.pending@;
        let next = self.pending.remove(0);
        assert(invocation_views(self.pending@) =~= invocation_views(all).drop_first());
        Step::Run(next)
    }
}

} // verus!
