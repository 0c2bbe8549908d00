//! The decisions of the host-file helpers that go through DuckDB's virtual file system: which
//! paths are accepted, how a write is carried out for each [`WriteMode`], how file contents are
//! decoded and split into lines, and the messages of their errors. The reads and writes themselves
//! happen at the edge.

use vstd::prelude::*;
use crate::error::{DuckError, DuckResult, duck_error_owned};
use crate::text::{chars_of, text_from_chars, u64_text, decimal_text, debug_text, spec_debug_text};

verus! {

/// What to do about an existing file when writing.
#[derive(Debug, Clone, Copy, PartialEq, Eq, Structural)]
pub enum WriteMode {
    /// Replace (the default): even a longer existing file ends up holding exactly the bytes
    /// written this time.
    Replace,
    /// Fail when the file already exists, leaving existing contents untouched.
    FailIfExists,
    /// Append to the end of the file, creating it when missing.
    Append,
}

impl Default for WriteMode {
    /// [`WriteMode::Replace`].
    fn default() -> (m: WriteMode)
        ensures
            m == WriteMode::Replace,
    {
        WriteMode::Replace
    }
}

/// The flags a file is opened with for writing.
#[derive(Debug, Clone, Copy, PartialEq, Eq, Structural)]
pub struct OpenFlags {
    /// Open for writing.
    pub write: bool,
    /// Create the file if it does not exist.
    pub create: bool,
    /// Create the file, failing if it already exists.
    pub create_new: bool,
    /// Write at the end of the file.
    pub append: bool,
}

/// How a write is carried out.
#[derive(Debug, Clone, Copy, PartialEq, Eq, Structural)]
pub struct WritePlan {
    /// Replace the existing file by an empty one first (an existing file longer than the new
    /// contents would otherwise keep its tail: the C API has no truncate).
    pub zero_first: bool,
    /// The flags the file is then opened with.
    pub flags: OpenFlags,
}

/// The message for writing with [`WriteMode::FailIfExists`] to a file that exists.
pub open spec fn already_exists_message(path: Seq<char>) -> Seq<char> {
    "duckfn::duck_vfs::write: '"@ + path
        + "' already exists and WriteMode::FailIfExists was requested; delete it or write to another path"@
}

/// How a write of `new_len` bytes to `path` is carried out: `exists` says whether the file can be
/// opened for reading, and `existing_len` is its size (0 when it cannot be opened).
pub open spec fn write_plan_spec(path: Seq<char>, mode: WriteMode, exists: bool, existing_len: u64, new_len: usize) -> Result<WritePlan, Seq<char>> {
    match mode {
        WriteMode::FailIfExists => if exists {
            Err(already_exists_message(path))
        } else {
            Ok(WritePlan { zero_first: false, flags: OpenFlags { write: true, create: true, create_new: true, append: false } })
        },
        WriteMode::Append => Ok(WritePlan { zero_first: false, flags: OpenFlags { write: true, create: true, create_new: false, append: true } }),
        WriteMode::Replace => Ok(WritePlan {
            zero_first: existing_len > new_len,
            flags: OpenFlags { write: true, create: true, create_new: false, append: false },
        }),
    }
}

/// What each write mode does, whatever the file: every plan opens the file for writing and
/// creates it when missing; appending always succeeds, writes at the end and never truncates;
/// replacing always succeeds, writes from the start, and empties the file first exactly when the
/// old contents are longer than the new; failing-if-exists refuses an existing file and otherwise
/// creates it exclusively.
pub proof fn lemma_write_modes(path: Seq<char>, mode: WriteMode, exists: bool, existing_len: u64, new_len: usize)
    ensures
        write_plan_spec(path, mode, exists, existing_len, new_len) is Err <==> mode == WriteMode::FailIfExists && exists,
        write_plan_spec(path, mode, exists, existing_len, new_len) matches Ok(p) ==> p.flags.write && p.flags.create,
        mode == WriteMode::Append ==> (write_plan_spec(path, mode, exists, existing_len, new_len) matches Ok(p)
            && p.flags.append && !p.flags.create_new && !p.zero_first),
        mode == WriteMode::Replace ==> (write_plan_spec(path, mode, exists, existing_len, new_len) matches Ok(p)
            && !p.flags.append && !p.flags.create_new && (p.zero_first <==> existing_len > new_len)),
        mode == WriteMode::FailIfExists && !exists ==> (write_plan_spec(path, mode, exists, existing_len, new_len) matches Ok(p)
            && p.flags.create_new && !p.flags.append && !p.zero_first),
        mode == WriteMode::Append || mode == WriteMode::Replace
            ==> write_plan_spec(path, mode, true, existing_len, new_len)->Ok_0.flags
                == write_plan_spec(path, mode, false, existing_len, new_len)->Ok_0.flags,
{
}

/// Decides how a write of `new_len` bytes to `path` is carried out in `mode`: `exists` says
/// whether the file can be opened for reading, and `existing_len` is its size (0 when it cannot
/// be opened).
///
/// Replacing zeroes the file first only when the existing file is longer than the new contents
/// (otherwise writing from offset 0 leaves exactly the new bytes); failing-if-exists refuses an
/// existing file and otherwise creates it exclusively; appending writes at the end, creating the
/// file when missing.
pub fn plan_write(path: &str, mode: WriteMode, exists: bool, existing_len: u64, new_len: usize) -> (r: DuckResult<WritePlan>)
    ensures
        match (r, write_plan_spec(path@, mode, exists, existing_len, new_len)) {
            (Ok(p), Ok(q)) => p == q,
            (Err(e), Err(m)) => e.spec_message() == m,
            _ => false,
        },
        r is Err <==> mode == WriteMode::FailIfExists && exists,
        r matches Ok(p) ==> p.flags.write && p.flags.create,
        mode == WriteMode::Append ==> (r matches Ok(p) && p.flags.append && !p.flags.create_new && !p.zero_first),
        mode == WriteMode::Replace ==> (r matches Ok(p) && !p.flags.append && !p.flags.create_new
            && (p.zero_first <==> existing_len > new_len)),
        mode == WriteMode::FailIfExists && !exists ==> (r matches Ok(p) && p.flags.create_new && !p.flags.append && !p.zero_first),
{
    match mode {
        WriteMode::FailIfExists => {
            if exists {
                let mut m = String::from_str("duckfn::duck_vfs::write: '");
                m.append(path);
                m.append("' already exists and WriteMode::FailIfExists was requested; delete it or write to another path");
                Err(duck_error_owned(m))
            } else {
                Ok(WritePlan { zero_first: false, flags: OpenFlags { write: true, create: true, create_new: true, append: false } })
            }
        },
        WriteMode::Append => Ok(WritePlan { zero_first: false, flags: OpenFlags { write: true, create: true, create_new: false, append: true } }),
        WriteMode::Replace => Ok(WritePlan {
            zero_first: existing_len > new_len as u64,
            flags: OpenFlags { write: true, create: true, create_new: false, append: false },
        }),
    }
}

/// A path accepted by the file-system C API: a text without NUL characters.
#[derive(Debug)]
pub struct CPath {
    text: String,
}

impl View for CPath {
    type V = Seq<char>;

    closed spec fn view(&self) -> Seq<char> {
        self.text@
    }
}

impl CPath {
    /// The path, without the terminating NUL the C API adds.
    pub fn as_str(&self) -> (s: &str)
        ensures
            s@ == self@,
    {
        self.text.as_str()
    }
}

/// The message for a path that contains a NUL character.
pub open spec fn nul_path_message(operation: Seq<char>, path: Seq<char>) -> Seq<char> {
    "duckfn::duck_vfs::"@ + operation + ": the path contains a NUL byte: "@ + spec_debug_text(path)
}

/// Accepts a path for the file-system C API, which takes C strings: a path containing a NUL
/// character is refused with an error naming `operation`.
pub fn path_c_string(operation: &str, path: &str) -> (r: DuckResult<CPath>)
    ensures
        r is Ok <==> !path@.contains('\0'),
        r matches Ok(p) ==> p@ == path@,
        r matches Err(e) ==> e.spec_message() == nul_path_message(operation@, path@),
{
    let chars = chars_of(path);
    let mut i: usize = 0;
    while i < chars.len()
        invariant
            0 <= i <= chars@.len(),
            chars@ == path@,
            forall|j: int| 0 <= j < i ==> chars@[j] != '\0',
        decreases chars@.len() - i,
    {
        if chars[i] == '\0' {
            assert(path@.contains('\0')) by {
                assert(path@[i as int] == '\0');
            }
            let mut m = String::from_str("duckfn::duck_vfs::");
            m.append(operation);
            m.append(": the path contains a NUL byte: ");
            m.append(debug_text(path).as_str());
            return Err(duck_error_owned(m));
        }
        i = i + 1;
    }
    Ok(CPath { text: path.to_owned() })
}

/// The message for a failure the file system reports for `operation` on `path`.
pub open spec fn file_error_message(operation: Seq<char>, path: Seq<char>, detail: Option<Seq<char>>) -> Seq<char> {
    "duckfn::duck_vfs::"@ + operation + ": '"@ + path + "': "@ + match detail {
        Some(m) => m,
        None => "unknown file system error"@,
    }
}

/// Turns a failure the file system reports (its message, when it has one) into a query error
/// tagged with the operation and the path.
pub fn file_error(operation: &str, path: &str, detail: Option<String>) -> (e: DuckError)
    ensures
        e.spec_message() == file_error_message(operation@, path@, match detail {
            Some(m) => Some(m@),
            None => None,
        }),
{
    let mut m = String::from_str("duckfn::duck_vfs::");
    m.append(operation);
    m.append(": '");
    m.append(path);
    m.append("': ");
    match &detail {
        Some(d) => m.append(d.as_str()),
        None => m.append("unknown file system error"),
    }
    duck_error_owned(m)
}

/// The message when zeroing a longer existing file before replacing it fails.
pub open spec fn zero_file_message(path: Seq<char>, detail: Seq<char>) -> Seq<char> {
    "duckfn::duck_vfs: cannot replace '"@ + path
        + "': the file already exists and is longer than the new contents, and zeroing it with COPY failed: "@
        + detail
}

/// The error when zeroing a longer existing file before replacing it fails.
pub fn zero_file_error(path: &str, detail: &str) -> (e: DuckError)
    ensures
        e.spec_message() == zero_file_message(path@, detail@),
{
    let mut m = String::from_str("duckfn::duck_vfs: cannot replace '");
    m.append(path);
    m.append("': the file already exists and is longer than the new contents, and zeroing it with COPY failed: ");
    m.append(detail);
    duck_error_owned(m)
}

/// The error of a byte string that is not UTF-8 (`std::str::Utf8Error`).
#[verifier::external_type_specification]
#[verifier::external_body]
pub struct ExUtf8Error(std::str::Utf8Error);

/// How far a byte string is valid UTF-8 (`Utf8Error::valid_up_to`). The bytes the error was made
/// from are not part of the error value Verus sees, so nothing is claimed of the number; the
/// offset is stated where the bytes are at hand, in [`decode_text`].
#[verifier::external_body]
fn utf8_valid_up_to(error: &std::str::Utf8Error) -> (n: usize) {
    error.valid_up_to()
}

/// The message for a file that is not valid UTF-8 from byte `offset` on.
pub open spec fn utf8_error_message(path: Seq<char>, offset: nat) -> Seq<char> {
    "duckfn::duck_vfs::read_string: '"@ + path + "' is not valid UTF-8 (invalid byte at offset "@
        + decimal_text(offset)
        + "); use read_string_lossy to replace it or read for raw bytes"@
}

/// The error for a file whose contents are valid UTF-8 up to byte `offset` only.
pub fn utf8_error_at(path: &str, offset: usize) -> (e: DuckError)
    ensures
        e.spec_message() == utf8_error_message(path@, offset as nat),
{
    let mut m = String::from_str("duckfn::duck_vfs::read_string: '");
    m.append(path);
    m.append("' is not valid UTF-8 (invalid byte at offset ");
    m.append(u64_text(offset as u64).as_str());
    m.append("); use read_string_lossy to replace it or read for raw bytes");
    duck_error_owned(m)
}

/// Turns invalid UTF-8 into a query error that names the path and the offending byte.
pub fn utf8_error(path: &str, error: std::str::Utf8Error) -> (e: DuckError)
    ensures
        exists|n: nat| e.spec_message() == utf8_error_message(path@, n),
{
    let n = utf8_valid_up_to(&error);
    utf8_error_at(path, n)
}

/// The text a byte string decodes to as UTF-8, or `None` when it is not valid UTF-8.
pub uninterp spec fn spec_utf8_decode(bytes: Seq<u8>) -> Option<Seq<char>>;

/// Whether the first `n` bytes are the longest prefix of `bytes` that is valid UTF-8, with
/// `bytes` itself not valid: where decoding stops, as `Utf8Error::valid_up_to` reports it.
pub open spec fn utf8_prefix_end(bytes: Seq<u8>, n: int) -> bool {
    &&& 0 <= n < bytes.len()
    &&& spec_utf8_decode(bytes.take(n)) is Some
    &&& forall|m: int| n < m <= bytes.len() ==> #[trigger] spec_utf8_decode(bytes.take(m)) is None
}

/// Decodes bytes as UTF-8 (`String::from_utf8`), giving back on failure how far the bytes are
/// valid (`FromUtf8Error::utf8_error`, then `Utf8Error::valid_up_to`). Claimed: whether the bytes
/// decode, and to what, is a function of the bytes alone; and, as `valid_up_to` documents, the
/// number is the largest index up to which the bytes decode.
#[verifier::external_body]
fn string_from_utf8(bytes: Vec<u8>) -> (r: Result<String, usize>)
    ensures
        r is Ok <==> spec_utf8_decode(bytes@) is Some,
        r matches Ok(s) ==> spec_utf8_decode(bytes@) == Some(s@),
        r matches Err(n) ==> utf8_prefix_end(bytes@, n as int),
{
    String::from_utf8(bytes).map_err(|error| error.utf8_error().valid_up_to())
}

/// The longest valid prefix is unique.
pub proof fn lemma_utf8_prefix_end_unique(bytes: Seq<u8>, n1: int, n2: int)
    requires
        utf8_prefix_end(bytes, n1),
        utf8_prefix_end(bytes, n2),
    ensures
        n1 == n2,
{
    if n1 < n2 {
        assert(spec_utf8_decode(bytes.take(n2)) is None);
    } else if n2 < n1 {
        assert(spec_utf8_decode(bytes.take(n1)) is None);
    }
}

/// The contents of file `path` as text: the bytes decoded as UTF-8, or an error naming the first
/// byte that is not valid UTF-8 (the end of the longest valid prefix).
pub fn decode_text(path: &str, bytes: Vec<u8>) -> (r: DuckResult<String>)
    ensures
        r is Ok <==> spec_utf8_decode(bytes@) is Some,
        r matches Ok(s) ==> spec_utf8_decode(bytes@) == Some(s@),
        r matches Err(e) ==> exists|n: int| #[trigger] utf8_prefix_end(bytes@, n)
            && e.spec_message() == utf8_error_message(path@, n as nat),
{
    let ghost b = bytes@;
    match string_from_utf8(bytes) {
        Ok(s) => Ok(s),
        Err(n) => {
            let e = utf8_error_at(path, n);
            assert(utf8_prefix_end(b, n as int));
            assert(e.spec_message() == utf8_error_message(path@, (n as int) as nat));
            Err(e)
        },
    }
}

/// The pieces of a text between its `\n` characters (as `str::split('\n')` gives them: one
/// piece for a text without any, an empty piece after a final `\n`).
pub open spec fn split_lf(s: Seq<char>) -> Seq<Seq<char>>
    decreases s.len(),
{
    if s.len() == 0 {
        seq![Seq::<char>::empty()]
    } else if s.last() == '\n' {
        split_lf(s.drop_last()).push(Seq::empty())
    } else {
        let p = split_lf(s.drop_last());
        p.update(p.len() - 1, p.last().push(s.last()))
    }
}

/// A piece without its final `\r`, if it has one.
pub open spec fn strip_cr(line: Seq<char>) -> Seq<char> {
    if line.len() > 0 && line.last() == '\r' {
        line.drop_last()
    } else {
        line
    }
}

/// Every piece without its final `\r`.
pub open spec fn strip_all(pieces: Seq<Seq<char>>) -> Seq<Seq<char>> {
    Seq::new(pieces.len(), |i: int| strip_cr(pieces[i]))
}

/// The lines of a text: split on `\n`, a final `\r` stripped from each line (so CRLF works), a
/// final empty line dropped (so a trailing newline adds none), and no lines at all for an empty
/// text.
pub open spec fn lines_of(s: Seq<char>) -> Seq<Seq<char>> {
    if s.len() == 0 {
        Seq::empty()
    } else {
        let lines = strip_all(split_lf(s));
        if lines.last().len() == 0 {
            lines.drop_last()
        } else {
            lines
        }
    }
}

/// The pieces of a text are never empty as a list, and none holds a `\n`.
pub proof fn lemma_split_lf_pieces(s: Seq<char>)
    ensures
        split_lf(s).len() >= 1,
        forall|i: int| 0 <= i < split_lf(s).len() ==> !(#[trigger] split_lf(s)[i]).contains('\n'),
    decreases s.len(),
{
    if s.len() > 0 {
        lemma_split_lf_pieces(s.drop_last());
        let p = split_lf(s.drop_last());
        if s.last() != '\n' {
            assert forall|i: int| 0 <= i < split_lf(s).len() implies !(#[trigger] split_lf(s)[i]).contains('\n') by {
                if i == p.len() - 1 {
                    let q = p.last().push(s.last());
                    if q.contains('\n') {
                        let j = choose|j: int| 0 <= j < q.len() && q[j] == '\n';
                        if j < p.last().len() {
                            assert(p.last()[j] == '\n');
                        }
                    }
                }
            }
        } else {
            assert forall|i: int| 0 <= i < split_lf(s).len() implies !(#[trigger] split_lf(s)[i]).contains('\n') by {
                if i < p.len() {
                    assert(split_lf(s)[i] == p[i]);
                }
            }
        }
    }
}

/// No line of a text holds a `\n`.
pub proof fn lemma_lines_have_no_newline(s: Seq<char>)
    ensures
        forall|i: int| 0 <= i < lines_of(s).len() ==> !(#[trigger] lines_of(s)[i]).contains('\n'),
{
    lemma_split_lf_pieces(s);
    let p = split_lf(s);
    assert forall|i: int| 0 <= i < lines_of(s).len() implies !(#[trigger] lines_of(s)[i]).contains('\n') by {
        assert(lines_of(s)[i] == strip_cr(p[i]));
        assert(!p[i].contains('\n'));
        if strip_cr(p[i]).contains('\n') {
            let j = choose|j: int| 0 <= j < strip_cr(p[i]).len() && strip_cr(p[i])[j] == '\n';
            assert(p[i][j] == '\n');
        }
    }
}

/// Lines joined with `\n` between them (`[String]::join("\n")`).
pub open spec fn join_lf(lines: Seq<Seq<char>>) -> Seq<char>
    decreases lines.len(),
{
    if lines.len() == 0 {
        Seq::empty()
    } else if lines.len() == 1 {
        lines[0]
    } else {
        join_lf(lines.drop_last()) + seq!['\n'] + lines.last()
    }
}

/// Whether a line can be written and split back unchanged: no `\n` in it, no final `\r`.
pub open spec fn plain_line(line: Seq<char>) -> bool {
    &&& !line.contains('\n')
    &&& !(line.len() > 0 && line.last() == '\r')
}

/// Appending text without a `\n` extends the last piece.
proof fn lemma_split_lf_extend(s: Seq<char>, t: Seq<char>)
    requires
        !t.contains('\n'),
    ensures
        split_lf(s + t) == split_lf(s).update(split_lf(s).len() - 1, split_lf(s).last() + t),
    decreases t.len(),
{
    lemma_split_lf_pieces(s);
    let p = split_lf(s);
    if t.len() == 0 {
        assert(s + t =~= s);
        assert(p.last() + t =~= p.last());
        assert(p.update(p.len() - 1, p.last()) =~= p);
    } else {
        let u = t.drop_last();
        assert(!u.contains('\n')) by {
            if u.contains('\n') {
                let j = choose|j: int| 0 <= j < u.len() && u[j] == '\n';
                assert(t[j] == '\n');
            }
        }
        assert(t.last() != '\n') by {
            assert(t[t.len() - 1] == t.last());
        }
        lemma_split_lf_extend(s, u);
        assert((s + t).drop_last() =~= s + u);
        assert((s + t).last() == t.last());
        assert(p.last() + u + seq![t.last()] =~= p.last() + t);
        assert((p.last() + u).push(t.last()) =~= p.last() + t);
        assert(split_lf(s + t) =~= p.update(p.len() - 1, p.last() + t));
    }
}

/// Splitting lines joined with `\n` gives the lines back.
proof fn lemma_split_join(lines: Seq<Seq<char>>)
    requires
        lines.len() >= 1,
        forall|i: int| 0 <= i < lines.len() ==> !(#[trigger] lines[i]).contains('\n'),
    ensures
        split_lf(join_lf(lines)) == lines,
    decreases lines.len(),
{
    let empty = Seq::<char>::empty();
    if lines.len() == 1 {
        lemma_split_lf_extend(empty, lines[0]);
        assert(empty + lines[0] =~= lines[0]);
        assert(split_lf(empty) == seq![empty]);
        assert(empty + lines[0] =~= lines[0]);
        assert(seq![empty].update(0, empty + lines[0]) =~= lines);
    } else {
        let init = lines.drop_last();
        lemma_split_join(init);
        let s1 = join_lf(init).push('\n');
        assert(s1.drop_last() =~= join_lf(init));
        assert(split_lf(s1) == init.push(empty));
        assert(join_lf(lines) =~= s1 + lines.last());
        assert(!lines.last().contains('\n')) by {
            assert(lines[lines.len() - 1] == lines.last());
        }
        lemma_split_lf_extend(s1, lines.last());
        assert(empty + lines.last() =~= lines.last());
        assert(init.push(empty).update(init.len() as int, empty + lines.last()) =~= lines);
    }
}

/// Lines without `\n` and without a final `\r`, the last one not empty, written joined with
/// `\n` (with or without a final `\n`), split back into themselves.
pub proof fn lemma_lines_of_join(lines: Seq<Seq<char>>)
    requires
        lines.len() >= 1,
        forall|i: int| 0 <= i < lines.len() ==> plain_line(#[trigger] lines[i]),
        lines.last().len() > 0,
    ensures
        lines_of(join_lf(lines)) == lines,
        lines_of(join_lf(lines).push('\n')) == lines,
{
    let empty = Seq::<char>::empty();
    assert forall|i: int| 0 <= i < lines.len() implies !(#[trigger] lines[i]).contains('\n') by {
        assert(plain_line(lines[i]));
    }
    lemma_split_join(lines);
    assert(strip_all(lines) =~= lines) by {
        assert forall|i: int| 0 <= i < lines.len() implies #[trigger] strip_cr(lines[i]) == lines[i] by {
            assert(plain_line(lines[i]));
        }
    }
    assert(lines.last() == lines[lines.len() - 1]);
    assert(join_lf(lines).len() > 0) by {
        if join_lf(lines).len() == 0 {
            assert(join_lf(lines) =~= empty);
            assert(split_lf(empty).len() == 1);
            assert(split_lf(empty)[0] == empty);
        }
    }
    let s2 = join_lf(lines).push('\n');
    assert(s2.drop_last() =~= join_lf(lines));
    assert(split_lf(s2) == lines.push(empty));
    assert(strip_all(lines.push(empty)) =~= lines.push(empty)) by {
        assert forall|i: int| 0 <= i < lines.len() + 1 implies #[trigger] strip_cr(lines.push(empty)[i]) == lines.push(empty)[i] by {
            if i < lines.len() {
                assert(plain_line(lines[i]));
            }
        }
    }
    assert(lines.push(empty).drop_last() =~= lines);
}

/// Splits text into lines: on `\n`, with a final `\r` stripped from each line (so CRLF works); a
/// trailing newline does not produce an empty last line, and an empty text yields no lines.
pub fn split_lines(text: &str) -> (lines: Vec<String>)
    ensures
        lines@.len() == lines_of(text@).len(),
        forall|i: int| 0 <= i < lines@.len() ==> #[trigger] lines@[i]@ == lines_of(text@)[i],
{
    let chars = chars_of(text);
    if chars.len() == 0 {
        return Vec::new();
    }
    let ghost s = text@;
    let mut done: Vec<String> = Vec::new();
    let mut current: Vec<char> = Vec::new();
    let mut i: usize = 0;
    while i < chars.len()
        invariant
            0 <= i <= chars@.len(),
            chars@ == s,
            split_lf(s.take(i as int)).len() == done@.len() + 1,
            forall|j: int| 0 <= j < done@.len() ==> #[trigger] done@[j]@ == strip_cr(split_lf(s.take(i as int))[j]),
            current@ == split_lf(s.take(i as int)).last(),
        decreases chars@.len() - i,
    {
        assert(s.take(i as int + 1).drop_last() =~= s.take(i as int));
        assert(s.take(i as int + 1).last() == s[i as int]);
        let c = chars[i];
        if c == '\n' {
            let line = strip_line(&current);
            done.push(line);
            current = Vec::new();
        } else {
            current.push(c);
        }
        i = i + 1;
    }
    assert(s.take(chars@.len() as int) =~= s);
    let ghost lines = strip_all(split_lf(s));
    let last_is_empty = current.len() == 0 || (current.len() == 1 && current[0] == '\r');
    assert(last_is_empty == (strip_cr(current@).len() == 0));
    assert(lines.last() == strip_cr(current@));
    if !last_is_empty {
        let last = strip_line(&current);
        done.push(last);
        assert forall|j: int| 0 <= j < done@.len() implies #[trigger] done@[j]@ == lines[j] by {}
    } else {
        assert forall|j: int| 0 <= j < done@.len() implies #[trigger] done@[j]@ == lines.drop_last()[j] by {}
    }
    done
}

/// A line without its final `\r`.
fn strip_line(line: &Vec<char>) -> (s: String)
    ensures
        s@ == strip_cr(line@),
{
    let n = line.len();
    if n > 0 && line[n - 1] == '\r' {
        let mut kept: Vec<char> = Vec::new();
        let mut i: usize = 0;
        while i < n - 1
            invariant
                0 <= i <= n - 1,
                n == line@.len(),
                n > 0,
                kept@ == line@.take(i as int),
            decreases n - 1 - i,
        {
            kept.push(line[i]);
            i = i + 1;
            assert(kept@ =~= line@.take(i as int));
        }
        assert(kept@ =~= line@.drop_last());
        text_from_chars(&kept)
    } else {
        text_from_chars(line)
    }
}

} // verus!
