//! What ends a run, and the hint given when the working copy seems to lie
//! outside any repository.
use vstd::prelude::*;
use vstd::utf8::valid_utf8;

use crate::commit::CommitIdError;
use crate::invocation::Outcome;

verus! {

/// A condition that ends the whole run.
#[derive(Debug)]
pub enum Fatal {
    /// A process could not be started, fed or waited for.
    CouldNotRun,
    /// A `git` operation exited unsuccessfully; what it wrote to its error
    /// stream, where that was captured.
    GitFailed { stderr: Vec<u8> },
    /// The first operation on a purported working copy failed with `git`'s
    /// message that no repository was found up to the file system boundary:
    /// the package's record of its commit may be missing.
    NoRepository { stderr: Vec<u8> },
    /// `git status` reported this entry as ignored.
    IgnoredFiles { entry: Vec<u8> },
    /// `git status` reported this entry as untracked.
    UntrackedFiles { entry: Vec<u8> },
    /// Some requested path cannot be expressed by a sparse filter.
    PathsTooComplex,
    /// `git hash-object` printed something that is no object identifier.
    BadObjectId { error: CommitIdError },
    /// `git status` printed a report that is not UTF-8 text.
    StatusNotText { report: Vec<u8> },
}

/// The model of a [`Fatal`] condition.
pub enum FatalView {
    CouldNotRun,
    GitFailed { stderr: Seq<u8> },
    NoRepository { stderr: Seq<u8> },
    IgnoredFiles { entry: Seq<u8> },
    UntrackedFiles { entry: Seq<u8> },
    PathsTooComplex,
    BadObjectId { error: CommitIdError },
    StatusNotText { report: Seq<u8> },
}

impl View for Fatal {
    type V = FatalView;

    open spec fn view(&self) -> FatalView {
        match self {
            Fatal::CouldNotRun => FatalView::CouldNotRun,
            Fatal::GitFailed { stderr } => FatalView::GitFailed { stderr: stderr@ },
            Fatal::NoRepository { stderr } => FatalView::NoRepository { stderr: stderr@ },
            Fatal::IgnoredFiles { entry } => FatalView::IgnoredFiles { entry: entry@ },
            Fatal::UntrackedFiles { entry } => FatalView::UntrackedFiles { entry: entry@ },
            Fatal::PathsTooComplex => FatalView::PathsTooComplex,
            Fatal::BadObjectId { error } => FatalView::BadObjectId { error: *error },
            Fatal::StatusNotText { report } => FatalView::StatusNotText { report: report@ },
        }
    }
}

/// Whether `needle` occurs in `hay` as a contiguous part.
pub open spec fn occurs_in(needle: Seq<u8>, hay: Seq<u8>) -> bool {
    exists|i: int| 0 <= i && i + needle.len() <= hay.len() && #[trigger] hay.subrange(i, i + needle.len()) == needle
}

/// The bytes of `fatal`.
pub open spec fn fatal_word() -> Seq<u8> {
    seq![102u8, 97u8, 116u8, 97u8, 108u8]
}

/// The bytes of `/)`, which end git's naming of the file system root.
pub open spec fn root_close() -> Seq<u8> {
    seq![47u8, 41u8]
}

/// The bytes of `GIT_DISCOVERY_ACROSS_FILESYSTEM`.
pub open spec fn discovery_variable() -> Seq<u8> {
    seq![
        71u8, 73u8, 84u8, 95u8, 68u8, 73u8, 83u8, 67u8, 79u8, 86u8, 69u8, 82u8, 89u8, 95u8,
        65u8, 67u8, 82u8, 79u8, 83u8, 83u8, 95u8, 70u8, 73u8, 76u8, 69u8, 83u8, 89u8, 83u8,
        84u8, 69u8, 77u8,
    ]
}

/// Whether an error stream is UTF-8 text that reads like `git`'s report that
/// no repository was found up to the file system boundary, in whatever
/// language.
pub open spec fn reads_as_no_repository(stderr: Seq<u8>) -> bool {
    valid_utf8(stderr) && occurs_in(fatal_word(), stderr) && occurs_in(root_close(), stderr) && occurs_in(
        discovery_variable(),
        stderr,
    )
}

/// Relies on `std::str::from_utf8`: it succeeds exactly when the bytes are
/// well-formed UTF-8.
#[verifier::external_body]
pub(crate) fn is_utf8(b: &Vec<u8>) -> (r: bool)
    ensures
        r == valid_utf8(b@),
{
    std::str::from_utf8(b).is_ok()
}

/// Whether `needle` occurs in `hay` at `at`.
fn occurs_at(needle: &Vec<u8>, hay: &Vec<u8>, at: usize) -> (r: bool)
    requires
        at + needle@.len() <= hay@.len(),
    ensures
        r == (hay@.subrange(at as int, at + needle@.len()) == needle@),
{
    let hay_len = hay.len();
    let mut j: usize = 0;
    while j < needle.len()
        invariant
            j <= needle@.len(),
            hay_len == hay@.len(),
            at + needle@.len() <= hay@.len(),
            forall|k: int| 0 <= k < j ==> hay@[at + k] == needle@[k],
        decreases needle@.len() - j,
    {
        if hay[at + j] != needle[j] {
            assert(hay@.subrange(at as int, at + needle@.len())[j as int] != needle@[j as int]);
            return false;
        }
        j = j + 1;
    }
    assert(hay@.subrange(at as int, at + needle@.len()) =~= needle@);
    true
}

/// Whether `needle` occurs anywhere in `hay`.
pub fn occurs(needle: &Vec<u8>, hay: &Vec<u8>) -> (r: bool)
    ensures
        r == occurs_in(needle@, hay@),
{
    if needle.len() > hay.len() {
        return false;
    }
    let last = hay.len() - needle.len();
    let mut i: usize = 0;
    loop
        invariant
            i <= last,
            last + needle@.len() == hay@.len(),
            forall|k: int| 0 <= k < i ==> #[trigger] hay@.subrange(k, k + needle@.len()) != needle@,
        decreases last - i,
    {
        if occurs_at(needle, hay, i) {
            assert(hay@.subrange(i as int, i + needle@.len()) == needle@);
            return true;
        }
        if i == last {
            return false;
        }
        i = i + 1;
    }
}

/// Whether `stderr` is UTF-8 text that reads like `git`'s report that no
/// repository was found.
pub fn looks_like_no_repository(stderr: &Vec<u8>) -> (r: bool)
    ensures
        r == reads_as_no_repository(stderr@),
{
    let fatal: Vec<u8> = vec![102u8, 97u8, 116u8, 97u8, 108u8];
    let close: Vec<u8> = vec![47u8, 41u8];
    let variable: Vec<u8> = vec![
        71u8, 73u8, 84u8, 95u8, 68u8, 73u8, 83u8, 67u8, 79u8, 86u8, 69u8, 82u8, 89u8, 95u8,
        65u8, 67u8, 82u8, 79u8, 83u8, 83u8, 95u8, 70u8, 73u8, 76u8, 69u8, 83u8, 89u8, 83u8,
        84u8, 69u8, 77u8,
    ];
    assert(fatal@ =~= fatal_word());
    assert(close@ =~= root_close());
    assert(variable@ =~= discovery_variable());
    is_utf8(stderr) && occurs(&fatal, stderr) && occurs(&close, stderr) && occurs(
        &variable,
        stderr,
    )
}

/// The fatal condition a failed run stands for.
pub open spec fn failure_of(o: Outcome) -> FatalView {
    match o {
        Outcome::NotRun => FatalView::CouldNotRun,
        Outcome::Exited { stderr, .. } => FatalView::GitFailed { stderr: stderr@ },
    }
}

/// `Ok` for a successful exit; otherwise the fatal condition it stands for.
pub fn require_success(o: Outcome) -> (r: Result<(), Fatal>)
    ensures
        r is Ok <==> o matches Outcome::Exited { success: true, .. },
        r matches Err(f) ==> f@ == failure_of(o),
{
    match o {
        Outcome::NotRun => Err(Fatal::CouldNotRun),
        Outcome::Exited { success, stderr, .. } => {
            if success {
                Ok(())
            } else {
                Err(Fatal::GitFailed { stderr })
            }
        },
    }
}

} // verus!
