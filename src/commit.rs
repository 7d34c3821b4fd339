//! Commit identifiers: opaque strings with a minimum length.
use vstd::prelude::*;

verus! {

/// Whether `c` has the Unicode `White_Space` property, the set of characters
/// that `char::is_whitespace` accepts.
pub open spec fn is_white_space(c: char) -> bool {
    let u = c as u32;
    (0x9 <= u <= 0xD) || u == 0x20 || u == 0x85 || u == 0xA0 || u == 0x1680 || (0x2000 <= u
        <= 0x200A) || u == 0x2028 || u == 0x2029 || u == 0x202F || u == 0x205F || u == 0x3000
}

/// Whether `c` has the Unicode `White_Space` property.
pub fn white_space(c: char) -> (r: bool)
    ensures
        r == is_white_space(c),
{
    let u = c as u32;
    (0x9 <= u && u <= 0xD) || u == 0x20 || u == 0x85 || u == 0xA0 || u == 0x1680 || (0x2000 <= u
        && u <= 0x200A) || u == 0x2028 || u == 0x2029 || u == 0x202F || u == 0x205F || u == 0x3000
}

/// `s` without its leading white space.
pub open spec fn trim_start_of(s: Seq<char>) -> Seq<char>
    decreases s.len(),
{
    if s.len() > 0 && is_white_space(s[0]) {
        trim_start_of(s.drop_first())
    } else {
        s
    }
}

/// `s` without its trailing white space.
pub open spec fn trim_end_of(s: Seq<char>) -> Seq<char>
    decreases s.len(),
{
    if s.len() > 0 && is_white_space(s.last()) {
        trim_end_of(s.drop_last())
    } else {
        s
    }
}

/// `s` without leading and trailing white space.
pub open spec fn trimmed(s: Seq<char>) -> Seq<char> {
    trim_end_of(trim_start_of(s))
}

/// Trimming never lengthens a string.
pub proof fn lemma_trimmed_len(s: Seq<char>)
    ensures
        trimmed(s).len() <= s.len(),
{
    lemma_trim_start_len(s);
    lemma_trim_end_len(trim_start_of(s));
}

proof fn lemma_trim_start_len(s: Seq<char>)
    ensures
        trim_start_of(s).len() <= s.len(),
    decreases s.len(),
{
    if s.len() > 0 && is_white_space(s[0]) {
        lemma_trim_start_len(s.drop_first());
    }
}

proof fn lemma_trim_end_len(s: Seq<char>)
    ensures
        trim_end_of(s).len() <= s.len(),
    decreases s.len(),
{
    if s.len() > 0 && is_white_space(s.last()) {
        lemma_trim_end_len(s.drop_last());
    }
}

/// Removes leading and trailing white space.
pub fn trim(s: &str) -> (r: &str)
    ensures
        r@ == trimmed(s@),
{
    let n = s.unicode_len();
    let mut lo: usize = 0;
    assert(s@.subrange(0, n as int) =~= s@);
    while lo < n && white_space(s.get_char(lo))
        invariant
            lo <= n,
            n == s@.len(),
            trim_start_of(s@) == trim_start_of(s@.subrange(lo as int, n as int)),
        decreases n - lo,
    {
        assert(s@.subrange(lo + 1, n as int) =~= s@.subrange(lo as int, n as int).drop_first());
        lo = lo + 1;
    }
    assert(trim_start_of(s@) == s@.subrange(lo as int, n as int));
    let mut hi: usize = n;
    while hi > lo && white_space(s.get_char(hi - 1))
        invariant
            lo <= hi <= n,
            n == s@.len(),
            trim_end_of(s@.subrange(lo as int, n as int)) == trim_end_of(
                s@.subrange(lo as int, hi as int),
            ),
        decreases hi,
    {
        assert(s@.subrange(lo as int, hi - 1) =~= s@.subrange(lo as int, hi as int).drop_last());
        hi = hi - 1;
    }
    assert(trim_end_of(s@.subrange(lo as int, hi as int)) == s@.subrange(lo as int, hi as int));
    s.substring_char(lo, hi)
}

/// The fewest characters a commit identifier may have.
pub const MIN_COMMIT_ID_LEN: usize = 40;

/// Why a string was refused as a commit identifier.
#[derive(Debug, Clone, Copy, PartialEq, Eq)]
pub enum CommitIdError {
    /// After trimming, the identifier has only `len` characters.
    TooShort { len: usize },
}

/// A commit identifier, kept as opaque text of at least
/// [`MIN_COMMIT_ID_LEN`] characters without surrounding white space.
#[derive(Debug)]
pub struct CommitId {
    id: String,
}

impl View for CommitId {
    type V = Seq<char>;

    closed spec fn view(&self) -> Seq<char> {
        self.id@
    }
}

impl CommitId {
    #[verifier::type_invariant]
    spec fn inv(&self) -> bool {
        self.id@.len() >= MIN_COMMIT_ID_LEN
    }

    /// Trims `st` and accepts it as a commit identifier when at least
    /// [`MIN_COMMIT_ID_LEN`] characters remain.
    pub fn parse(st: &str) -> (r: Result<CommitId, CommitIdError>)
        ensures
            r is Ok <==> trimmed(st@).len() >= MIN_COMMIT_ID_LEN,
            r matches Ok(id) ==> id@ == trimmed(st@),
            r matches Err(e) ==> e == (CommitIdError::TooShort { len: trimmed(st@).len() as usize }),
            st@.len() < MIN_COMMIT_ID_LEN ==> r is Err,
    {
        proof {
            lemma_trimmed_len(st@);
        }
        let t = trim(st);
        let len = t.unicode_len();
        if len < MIN_COMMIT_ID_LEN {
            Err(CommitIdError::TooShort { len })
        } else {
            Ok(CommitId { id: t.to_owned() })
        }
    }

    /// The identifier's text.
    pub fn as_str(&self) -> (r: &str)
        ensures
            r@ == self@,
            r@.len() >= MIN_COMMIT_ID_LEN,
    {
        proof {
            use_type_invariant(self);
        }
        self.id.as_str()
    }

    /// The one-line content of the pinned-commit marker of a bare store: the
    /// identifier followed by a newline.
    pub fn shallow_marker(&self) -> (r: String)
        ensures
            r@ == self@.push('\n'),
    {
        let mut s = self.id.clone();
        s.append("\n");
        proof {
            reveal_strlit("\n");
        }
        assert(s@ =~= self@.push('\n'));
        s
    }
}

} // verus!
