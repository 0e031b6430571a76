//! Source files, their identifiers and their line tables.
use vstd::prelude::*;

use std::hash::{Hash, Hasher};
use std::ops::Range;
use std::path::PathBuf;

use crate::text::{byte_len, chars_of};

verus! {

/// Stable identifier for a source file.
#[derive(Debug, Clone, Copy, PartialEq, Eq, Hash, Structural)]
pub struct SourceFileId(pub u32);

impl SourceFileId {
    /// The identifier with the given number.
    pub fn new(id: u32) -> (s: SourceFileId)
        ensures
            s.0 == id,
    {
        SourceFileId(id)
    }

    /// The number of this identifier.
    pub fn as_u32(self) -> (n: u32)
        ensures
            n == self.0,
    {
        self.0
    }

    /// The identifier that names no file.
    pub fn invalid() -> (s: SourceFileId)
        ensures
            s.0 == u32::MAX,
    {
        SourceFileId(u32::MAX)
    }

    /// Whether this is the identifier that names no file.
    pub fn is_invalid(&self) -> (b: bool)
        ensures
            b == (self.0 == u32::MAX),
    {
        self.0 == u32::MAX
    }
}

/// A file-system path, carried through unexamined.
#[verifier::external_type_specification]
#[verifier::external_body]
pub struct ExPathBuf(PathBuf);

/// The byte offsets at which the lines of `bytes` start, considering only the
/// first `n` bytes: `0`, then the offset just after each newline byte, in order.
pub open spec fn line_starts_upto(bytes: Seq<u8>, n: int) -> Seq<usize>
    decreases n,
{
    if n <= 0 {
        seq![0usize]
    } else if bytes[n - 1] == 10u8 {
        line_starts_upto(bytes, n - 1).push(n as usize)
    } else {
        line_starts_upto(bytes, n - 1)
    }
}

/// The byte offsets at which the lines of `bytes` start.
pub open spec fn line_starts_of(bytes: Seq<u8>) -> Seq<usize> {
    line_starts_upto(bytes, bytes.len() as int)
}

/// `starts` begins with 0 and increases strictly.
pub open spec fn is_line_table(starts: Seq<usize>) -> bool {
    &&& starts.len() >= 1
    &&& starts[0] == 0
    &&& forall|a: int, b: int| 0 <= a < b < starts.len() ==> #[trigger] starts[a] < #[trigger] starts[b]
}

/// The zero-based line of `offset` in the table `starts`: the last line that
/// starts at or before it.
pub open spec fn is_line_of(starts: Seq<usize>, offset: int, line: int) -> bool {
    &&& 0 <= line < starts.len()
    &&& starts[line] <= offset
    &&& (line + 1 == starts.len() || offset < starts[line + 1])
}

proof fn lemma_newline_starts_line(bytes: Seq<u8>, n: int, o: int)
    requires
        0 <= o < n <= bytes.len(),
        bytes.len() <= usize::MAX,
        bytes[o] == 10u8,
    ensures
        exists|k: int| 0 <= k < line_starts_upto(bytes, n).len() && line_starts_upto(bytes, n)[k] == o + 1,
    decreases n,
{
    let cur = line_starts_upto(bytes, n);
    if o == n - 1 {
        assert(cur[cur.len() - 1] == o + 1);
    } else {
        lemma_newline_starts_line(bytes, n - 1, o);
        let prev = line_starts_upto(bytes, n - 1);
        let k = choose|k: int| 0 <= k < prev.len() && prev[k] == o + 1;
        if bytes[n - 1] == 10u8 {
            assert(cur[k] == prev[k]);
        }
    }
}

proof fn lemma_line_start_after_newline(bytes: Seq<u8>, n: int, k: int)
    requires
        0 <= n <= bytes.len(),
        bytes.len() <= usize::MAX,
        0 < k < line_starts_upto(bytes, n).len(),
    ensures
        1 <= line_starts_upto(bytes, n)[k] <= n,
        bytes[line_starts_upto(bytes, n)[k] - 1] == 10u8,
    decreases n,
{
    if n > 0 {
        let prev = line_starts_upto(bytes, n - 1);
        if k < prev.len() {
            lemma_line_start_after_newline(bytes, n - 1, k);
            if bytes[n - 1] == 10u8 {
                assert(line_starts_upto(bytes, n)[k] == prev[k]);
            }
        }
    }
}

/// A text of `n` bytes has at most `n + 1` lines.
pub proof fn lemma_line_count(bytes: Seq<u8>, n: int)
    requires
        0 <= n <= bytes.len(),
    ensures
        line_starts_upto(bytes, n).len() <= n + 1,
    decreases n,
{
    if n > 0 {
        lemma_line_count(bytes, n - 1);
    }
}

/// Every line but the first starts just after a newline byte.
pub proof fn law_line_starts_after_newline(bytes: Seq<u8>, k: int)
    requires
        bytes.len() <= usize::MAX,
        0 < k < line_starts_of(bytes).len(),
    ensures
        bytes[line_starts_of(bytes)[k] - 1] == 10u8,
{
    lemma_line_start_after_newline(bytes, bytes.len() as int, k);
}

/// A newline byte ends its line: the byte after it starts the next line.
pub proof fn law_newline_ends_line(bytes: Seq<u8>, offset: int, line: int)
    requires
        bytes.len() <= usize::MAX,
        0 <= offset < bytes.len(),
        bytes[offset] == 10u8,
        is_line_of(line_starts_of(bytes), offset, line),
    ensures
        line + 1 < line_starts_of(bytes).len(),
        line_starts_of(bytes)[line + 1] == offset + 1,
{
    let starts = line_starts_of(bytes);
    LineIndex::lemma_line_starts_upto(bytes, bytes.len() as int);
    lemma_newline_starts_line(bytes, bytes.len() as int, offset);
    let k = choose|k: int| 0 <= k < starts.len() && starts[k] == offset + 1;
    if k <= line {
        if k < line {
            assert(starts[k] < starts[line]);
        }
    }
    assert(k > line);
    if k > line + 1 {
        assert(starts[line + 1] < starts[k]);
    }
}

/// Line table of a source file: the byte offset at which each line starts.
#[derive(Debug)]
pub struct LineIndex {
    line_starts: Vec<usize>,
}

impl LineIndex {
    /// The byte offsets at which the lines start.
    pub closed spec fn starts(&self) -> Seq<usize> {
        self.line_starts@
    }

    /// The table starts at 0 and increases strictly.
    #[verifier::type_invariant]
    closed spec fn table_ok(&self) -> bool {
        is_line_table(self.line_starts@)
    }

    proof fn lemma_line_starts_upto(bytes: Seq<u8>, n: int)
        requires
            0 <= n <= bytes.len(),
            bytes.len() <= usize::MAX,
        ensures
            is_line_table(line_starts_upto(bytes, n)),
            forall|k: int|
                0 <= k < line_starts_upto(bytes, n).len() ==> #[trigger] line_starts_upto(bytes, n)[k]
                    <= n,
        decreases n,
    {
        if n > 0 {
            Self::lemma_line_starts_upto(bytes, n - 1);
            let prev = line_starts_upto(bytes, n - 1);
            if bytes[n - 1] == 10u8 {
                let cur = prev.push(n as usize);
                assert forall|a: int, b: int| 0 <= a < b < cur.len() implies #[trigger] cur[a]
                    < #[trigger] cur[b] by {
                    if b == cur.len() - 1 {
                        assert(cur[a] == prev[a]);
                    } else {
                        assert(cur[a] == prev[a] && cur[b] == prev[b]);
                    }
                }
                assert forall|k: int| 0 <= k < cur.len() implies #[trigger] cur[k] <= n by {
                    if k < prev.len() {
                        assert(cur[k] == prev[k]);
                    }
                }
            }
        }
    }

    /// The line table of `text`.
    pub fn new(text: &str) -> (li: LineIndex)
        ensures
            li.starts() == line_starts_of(vstd::utf8::encode_utf8(text@)),
            is_line_table(li.starts()),
    {
        let bytes = text.as_bytes();
        let mut line_starts: Vec<usize> = Vec::new();
        line_starts.push(0);
        let mut i: usize = 0;
        while i < bytes.len()
            invariant
                i <= bytes@.len(),
                line_starts@ == line_starts_upto(bytes@, i as int),
            decreases bytes@.len() - i,
        {
            if bytes[i] == 10u8 {
                line_starts.push(i + 1);
            }
            i = i + 1;
        }
        proof {
            Self::lemma_line_starts_upto(bytes@, bytes@.len() as int);
        }
        LineIndex { line_starts }
    }

    /// The byte range of line `line_idx`: from its start to the start of the
    /// next line, or to `source_len` for the last line; `None` if there is no
    /// such line.
    pub fn line_range(&self, line_idx: usize, source_len: usize) -> (r: Option<Range<usize>>)
        ensures
            line_idx >= self.starts().len() ==> r is None,
            line_idx < self.starts().len() ==> (r matches Some(range) && range.start
                == self.starts()[line_idx as int] && range.end == (if line_idx + 1
                < self.starts().len() {
                self.starts()[line_idx + 1]
            } else {
                source_len
            })),
    {
        if line_idx >= self.line_starts.len() {
            return None;
        }
        let start = self.line_starts[line_idx];
        let end = if line_idx + 1 < self.line_starts.len() {
            self.line_starts[line_idx + 1]
        } else {
            source_len
        };
        Some(start..end)
    }

    /// The zero-based (line, column) of the byte `offset`: the last line that
    /// starts at or before it, and its distance in bytes from that start.
    pub fn line_col(&self, offset: usize) -> (r: (usize, usize))
        ensures
            is_line_of(self.starts(), offset as int, r.0 as int),
            r.1 == offset - self.starts()[r.0 as int],
    {
        proof {
            use_type_invariant(self);
        }
        let n = self.line_starts.len();
        let mut lo: usize = 0;
        let mut hi: usize = n;
        while hi - lo > 1
            invariant
                is_line_table(self.starts()),
                n == self.starts().len(),
                lo < hi <= n,
                self.starts()[lo as int] <= offset,
                hi == n || offset < self.starts()[hi as int],
            decreases hi - lo,
        {
            let mid = lo + (hi - lo) / 2;
            if self.line_starts[mid] <= offset {
                lo = mid;
            } else {
                hi = mid;
            }
        }
        (lo, offset - self.line_starts[lo])
    }
}

/// The hash that std's `DefaultHasher` gives of `text` through `Hash for str`.
pub uninterp spec fn text_hash(text: Seq<char>) -> u64;

/// Hash of a file's text.
///
/// Calls std's `DefaultHasher::new()` and `Hash for str`. Unlike the
/// hashers of `RandomState`, `DefaultHasher::new()` starts from the same
/// keys in every process, so the value depends on the text alone; the
/// documentation leaves the algorithm itself unspecified (and free to change
/// between releases of std), so the value is only named, not stated.
#[verifier::external_body]
fn calculate_hash(text: &str) -> (h: u64)
    ensures
        h == text_hash(text@),
{
    let mut hasher = std::collections::hash_map::DefaultHasher::new();
    text.hash(&mut hasher);
    hasher.finish()
}

/// An immutable source file: its identifier, path, text, hash and line table.
#[derive(Debug)]
pub struct SourceFile {
    id: SourceFileId,
    path: PathBuf,
    text: String,
    hash: u64,
    line_index: LineIndex,
}

impl SourceFile {
    /// The file's identifier.
    pub closed spec fn id_spec(&self) -> SourceFileId {
        self.id
    }

    /// The file's text, as characters.
    pub closed spec fn text_spec(&self) -> Seq<char> {
        self.text@
    }

    /// The file's path.
    pub closed spec fn path_spec(&self) -> PathBuf {
        self.path
    }

    /// The byte offsets at which the file's lines start.
    pub open spec fn line_starts(&self) -> Seq<usize> {
        line_starts_of(vstd::utf8::encode_utf8(self.text_spec()))
    }

    /// The line table is that of the text.
    #[verifier::type_invariant]
    closed spec fn wf(&self) -> bool {
        &&& self.hash == text_hash(self.text@)
        &&& self.line_index.starts() == line_starts_of(vstd::utf8::encode_utf8(self.text@))
    }

    /// A source file with the given identifier, path and text; its line table
    /// is built from the text.
    pub fn new(id: SourceFileId, path: PathBuf, text: String) -> (f: SourceFile)
        ensures
            f.id_spec() == id,
            f.path_spec() == path,
            f.text_spec() == text@,
    {
        let hash = calculate_hash(text.as_str());
        let line_index = LineIndex::new(text.as_str());
        SourceFile { id, path, text, hash, line_index }
    }

    /// The file's identifier.
    pub fn id(&self) -> (id: SourceFileId)
        ensures
            id == self.id_spec(),
    {
        self.id
    }

    /// The file's path.
    pub fn path(&self) -> (p: &PathBuf)
        ensures
            *p == self.path_spec(),
    {
        &self.path
    }

    /// The file's text.
    pub fn text(&self) -> (t: &str)
        ensures
            t@ == self.text_spec(),
    {
        self.text.as_str()
    }

    /// The hash of the file's text, computed when the file was created.
    pub fn hash(&self) -> (h: u64)
        ensures
            h == text_hash(self.text_spec()),
    {
        proof {
            use_type_invariant(self);
        }
        self.hash
    }

    /// The byte range of line `line`, or `None` if the file has no such line.
    pub fn line_range(&self, line: usize) -> (r: Option<Range<usize>>)
        ensures
            line >= self.line_starts().len() ==> r is None,
            line < self.line_starts().len() ==> (r matches Some(range) && range.start
                == self.line_starts()[line as int] && range.end == (if line + 1
                < self.line_starts().len() {
                self.line_starts()[line + 1] as int
            } else {
                byte_len(self.text_spec()) as int
            })),
    {
        proof {
            use_type_invariant(self);
        }
        let b = self.text.as_str().as_bytes();
        let len = b.len();
        proof {
            assert(b@.len() == b.len());
        }
        self.line_index.line_range(line, len)
    }

    /// The zero-based (line, column) of the byte `offset`.
    pub fn line_col(&self, offset: usize) -> (r: (usize, usize))
        ensures
            is_line_of(self.line_starts(), offset as int, r.0 as int),
            r.1 == offset - self.line_starts()[r.0 as int],
            r.0 <= byte_len(self.text_spec()),
    {
        proof {
            use_type_invariant(self);
            let bytes = vstd::utf8::encode_utf8(self.text@);
            lemma_line_count(bytes, bytes.len() as int);
        }
        self.line_index.line_col(offset)
    }
}

} // verus!
