//! The export of the function documentation declared on `#[duck_*]` attributes: which functions
//! are written, the summary of an export, the CSV rows the community-extension doc pages read,
//! and where the file goes.

use vstd::prelude::*;
use crate::text::chars_of;

verus! {

/// The CSV header. `function` is the join key of the community-extension doc pages (matching the
/// function name) and the other three columns override the display columns of the same name.
pub const CSV_HEADER: [&'static str; 4] = ["function", "description", "comment", "example"];

/// The default output file name (under the project root's `target/`).
pub const FILE_NAME: &'static str = "function_descriptions.csv";

/// The output file name when undocumented functions are exported too.
pub const ALL_FILE_NAME: &'static str = "function_descriptions_all.csv";

/// The documentation declared on one `#[duck_*]` function.
#[derive(Debug)]
pub struct FunctionDescription {
    /// The SQL name of the function.
    pub function: String,
    /// `description = "..."`.
    pub description: Option<String>,
    /// `comment = "..."`.
    pub comment: Option<String>,
    /// `example = "..."`, in declaration order.
    pub examples: Vec<String>,
}

/// The mathematical content of a [`FunctionDescription`].
pub struct FunctionDescriptionModel {
    pub function: Seq<char>,
    pub description: Option<Seq<char>>,
    pub comment: Option<Seq<char>>,
    pub examples: Seq<Seq<char>>,
}

/// The model of an optional text.
pub open spec fn text_option_model(t: Option<String>) -> Option<Seq<char>> {
    match t {
        Some(s) => Some(s@),
        None => None,
    }
}

/// The model of a list of texts.
pub open spec fn texts_model(v: Seq<String>) -> Seq<Seq<char>> {
    Seq::new(v.len(), |i: int| v[i]@)
}

impl View for FunctionDescription {
    type V = FunctionDescriptionModel;

    open spec fn view(&self) -> FunctionDescriptionModel {
        FunctionDescriptionModel {
            function: self.function@,
            description: text_option_model(self.description),
            comment: text_option_model(self.comment),
            examples: texts_model(self.examples@),
        }
    }
}

/// The models of a list of function descriptions.
pub open spec fn docs_model(v: Seq<FunctionDescription>) -> Seq<FunctionDescriptionModel> {
    Seq::new(v.len(), |i: int| v[i]@)
}

/// Whether a function carries any documentation: a description, a comment or an example.
pub open spec fn documented(d: FunctionDescriptionModel) -> bool {
    d.description is Some || d.comment is Some || d.examples.len() > 0
}

impl FunctionDescription {
    /// Whether this function carries any documentation: a description, a comment or an example.
    pub fn is_documented(&self) -> (b: bool)
        ensures
            b == documented(self@),
    {
        self.description.is_some() || self.comment.is_some() || self.examples.len() > 0
    }
}

/// The outcome of one export, so the command line can print a one-line summary.
#[derive(Debug, Clone, Copy, PartialEq, Eq, Structural)]
pub struct Summary {
    /// How many rows were written.
    pub written: usize,
    /// How many of them have no `description`.
    pub without_description: usize,
    /// How many functions were skipped because they carry no documentation at all (always 0 when
    /// undocumented functions are exported too).
    pub skipped: usize,
}

/// The functions an export writes: all of them, or only the documented ones, in declaration
/// order.
pub open spec fn exported(declared: Seq<FunctionDescriptionModel>, all: bool) -> Seq<FunctionDescriptionModel>
    decreases declared.len(),
{
    if declared.len() == 0 {
        Seq::empty()
    } else {
        let rest = exported(declared.drop_last(), all);
        if all || documented(declared.last()) {
            rest.push(declared.last())
        } else {
            rest
        }
    }
}

/// How many of some functions have no description.
pub open spec fn count_without_description(rows: Seq<FunctionDescriptionModel>) -> nat
    decreases rows.len(),
{
    if rows.len() == 0 {
        0
    } else {
        count_without_description(rows.drop_last()) + if rows.last().description is None { 1nat } else { 0nat }
    }
}

/// Exporting all functions writes every one of them; exporting only the documented ones writes
/// no undocumented one; either way no more are written than declared.
pub proof fn lemma_exported(declared: Seq<FunctionDescriptionModel>, all: bool)
    ensures
        exported(declared, all).len() <= declared.len(),
        all ==> exported(declared, all) == declared,
        !all ==> forall|i: int| 0 <= i < exported(declared, all).len() ==> documented(#[trigger] exported(declared, all)[i]),
        count_without_description(exported(declared, all)) <= exported(declared, all).len(),
    decreases declared.len(),
{
    if declared.len() > 0 {
        lemma_exported(declared.drop_last(), all);
        if all {
            assert(declared.drop_last().push(declared.last()) =~= declared);
        }
        let rest = exported(declared.drop_last(), all);
        if all || documented(declared.last()) {
            assert(rest.push(declared.last()).drop_last() =~= rest);
        }
    } else {
        if all {
            assert(declared =~= Seq::<FunctionDescriptionModel>::empty());
        }
    }
}

/// Chooses the functions an export writes (`all` writes the undocumented ones too, which makes
/// the file a "still to write" checklist) and counts what happened.
pub fn select_exported(declared: &Vec<FunctionDescription>, all: bool) -> (r: (Vec<FunctionDescription>, Summary))
    ensures
        docs_model(r.0@) == exported(docs_model(declared@), all),
        r.1.written == r.0@.len(),
        r.1.without_description == count_without_description(docs_model(r.0@)),
        r.1.written + r.1.skipped == declared@.len(),
{
    let mut rows: Vec<FunctionDescription> = Vec::new();
    let mut without_description: usize = 0;
    let ghost all_m = docs_model(declared@);
    let mut i: usize = 0;
    assert(all_m.take(0) =~= Seq::<FunctionDescriptionModel>::empty());
    assert(docs_model(rows@) =~= Seq::<FunctionDescriptionModel>::empty());
    while i < declared.len()
        invariant
            0 <= i <= declared@.len(),
            all_m == docs_model(declared@),
            docs_model(rows@) == exported(all_m.take(i as int), all),
            without_description == count_without_description(docs_model(rows@)),
            without_description <= rows@.len(),
            rows@.len() <= i,
        decreases declared@.len() - i,
    {
        let ghost before_rows = rows@;
        assert(all_m.take(i as int + 1).drop_last() =~= all_m.take(i as int));
        assert(all_m.take(i as int + 1).last() == declared@[i as int]@);
        if all || declared[i].is_documented() {
            if declared[i].description.is_none() {
                without_description = without_description + 1;
            }
            rows.push(copy_description(&declared[i]));
            assert(docs_model(rows@).drop_last() =~= docs_model(before_rows));
            assert(docs_model(rows@) =~= docs_model(before_rows).push(declared@[i as int]@));
        }
        i = i + 1;
    }
    assert(all_m.take(declared@.len() as int) =~= all_m);
    let written = rows.len();
    let summary = Summary { written, without_description, skipped: declared.len() - written };
    (rows, summary)
}

/// A copy of a function's documentation.
fn copy_description(d: &FunctionDescription) -> (r: FunctionDescription)
    ensures
        r@ == d@,
{
    FunctionDescription {
        function: d.function.clone(),
        description: copy_text_option(&d.description),
        comment: copy_text_option(&d.comment),
        examples: copy_texts(&d.examples),
    }
}

/// A copy of an optional text.
fn copy_text_option(t: &Option<String>) -> (r: Option<String>)
    ensures
        r == *t,
{
    match t {
        Some(s) => Some(s.clone()),
        None => None,
    }
}

/// A copy of a list of texts.
fn copy_texts(v: &Vec<String>) -> (r: Vec<String>)
    ensures
        texts_model(r@) == texts_model(v@),
{
    let mut out: Vec<String> = Vec::new();
    let mut i: usize = 0;
    while i < v.len()
        invariant
            0 <= i <= v@.len(),
            out@ == v@.take(i as int),
        decreases v@.len() - i,
    {
        out.push(v[i].clone());
        i = i + 1;
        assert(out@ =~= v@.take(i as int));
    }
    assert(v@.take(v@.len() as int) =~= v@);
    assert(texts_model(out@) =~= texts_model(v@));
    out
}

/// Whether a character breaks a line.
pub open spec fn is_line_break(c: char) -> bool {
    c == '\r' || c == '\n'
}

/// A text with every run of `\r` / `\n` characters collapsed into one space.
pub open spec fn flattened(s: Seq<char>) -> Seq<char>
    decreases s.len(),
{
    if s.len() == 0 {
        Seq::empty()
    } else if is_line_break(s.last()) {
        if s.len() >= 2 && is_line_break(s[s.len() - 2]) {
            flattened(s.drop_last())
        } else {
            flattened(s.drop_last()).push(' ')
        }
    } else {
        flattened(s.drop_last()).push(s.last())
    }
}

/// A flattened text holds no line break.
pub proof fn lemma_flattened_has_no_break(s: Seq<char>)
    ensures
        forall|i: int| 0 <= i < flattened(s).len() ==> !is_line_break(#[trigger] flattened(s)[i]),
    decreases s.len(),
{
    if s.len() > 0 {
        lemma_flattened_has_no_break(s.drop_last());
        let prev = flattened(s.drop_last());
        assert forall|i: int| 0 <= i < flattened(s).len() implies !is_line_break(#[trigger] flattened(s)[i]) by {
            if i < prev.len() {
                assert(flattened(s)[i] == prev[i]);
            }
        }
    }
}

/// A text without line breaks is left as it is.
pub proof fn lemma_flattened_keeps_plain_text(s: Seq<char>)
    requires
        forall|i: int| 0 <= i < s.len() ==> !is_line_break(#[trigger] s[i]),
    ensures
        flattened(s) == s,
    decreases s.len(),
{
    if s.len() > 0 {
        assert forall|i: int| 0 <= i < s.drop_last().len() implies !is_line_break(#[trigger] s.drop_last()[i]) by {
            assert(s.drop_last()[i] == s[i]);
        }
        lemma_flattened_keeps_plain_text(s.drop_last());
        assert(!is_line_break(s[s.len() - 1]));
        assert(s.drop_last().push(s.last()) =~= s);
    }
}

/// Collapses each run of newlines (`\r` / `\n`) inside a field into a single space: the doc pages
/// put these fields in a Markdown table, where a newline breaks the row, and DuckDB's CSV reader
/// reads a `\n` inside a quoted field back as `\r\n`.
pub fn flatten_newlines(value: &str) -> (r: String)
    ensures
        r@ == flattened(value@),
{
    let chars = chars_of(value);
    let mut out: Vec<char> = Vec::new();
    let mut in_break = false;
    let mut i: usize = 0;
    assert(value@.take(0) =~= Seq::<char>::empty());
    while i < chars.len()
        invariant
            0 <= i <= chars@.len(),
            chars@ == value@,
            out@ == flattened(value@.take(i as int)),
            in_break == (i > 0 && is_line_break(value@[i - 1])),
        decreases chars@.len() - i,
    {
        let ch = chars[i];
        assert(value@.take(i as int + 1).drop_last() =~= value@.take(i as int));
        assert(value@.take(i as int + 1).last() == ch);
        if i > 0 {
            assert(value@.take(i as int + 1)[i - 1] == value@[i - 1]);
        }
        if ch == '\r' || ch == '\n' {
            if !in_break {
                out.push(' ');
                in_break = true;
            }
        } else {
            out.push(ch);
            in_break = false;
        }
        i = i + 1;
    }
    assert(value@.take(chars@.len() as int) =~= value@);
    crate::text::text_from_chars(&out)
}

/// Texts joined with a separator between each two.
pub open spec fn joined(parts: Seq<Seq<char>>, sep: Seq<char>) -> Seq<char>
    decreases parts.len(),
{
    if parts.len() == 0 {
        Seq::empty()
    } else if parts.len() == 1 {
        parts[0]
    } else {
        joined(parts.drop_last(), sep) + sep + parts.last()
    }
}

/// Joins texts with a separator between each two (`[String]::join`).
pub fn join_texts(parts: &Vec<String>, sep: &str) -> (r: String)
    ensures
        r@ == joined(texts_model(parts@), sep@),
{
    let ghost m = texts_model(parts@);
    let mut out = String::new();
    let mut i: usize = 0;
    assert(m.take(0) =~= Seq::<Seq<char>>::empty());
    while i < parts.len()
        invariant
            0 <= i <= parts@.len(),
            m == texts_model(parts@),
            out@ == joined(m.take(i as int), sep@),
        decreases parts@.len() - i,
    {
        assert(m.take(i as int + 1).drop_last() =~= m.take(i as int));
        assert(m.take(i as int + 1).last() == parts@[i as int]@);
        if i > 0 {
            out.append(sep);
        } else {
            assert(m.take(1) =~= seq![parts@[0]@]);
        }
        out.append(parts[i].as_str());
        i = i + 1;
    }
    assert(m.take(parts@.len() as int) =~= m);
    out
}

/// The four CSV fields of a function: its name, description, comment and examples (joined with
/// `, `, so that the doc pages render them as `[a, b]`), each flattened; a missing description or
/// comment is an empty field.
pub open spec fn csv_fields(d: FunctionDescriptionModel) -> Seq<Seq<char>> {
    seq![
        flattened(d.function),
        flattened(match d.description { Some(t) => t, None => Seq::empty() }),
        flattened(match d.comment { Some(t) => t, None => Seq::empty() }),
        flattened(joined(d.examples, ", "@)),
    ]
}

/// Whether a text holds no line break.
pub open spec fn single_line(s: Seq<char>) -> bool {
    forall|i: int| 0 <= i < s.len() ==> !is_line_break(#[trigger] s[i])
}

/// The CSV row of a function holds, in order, its name, its description, its comment and its
/// examples, each on one line: a field without line breaks is written as it is, a missing
/// description or comment as an empty field, and no field holds a line break.
pub proof fn lemma_csv_fields_are_the_description(d: FunctionDescriptionModel)
    ensures
        csv_fields(d).len() == 4,
        single_line(d.function) ==> csv_fields(d)[0] == d.function,
        d.description matches Some(t) ==> (single_line(t) ==> csv_fields(d)[1] == t),
        d.description is None ==> csv_fields(d)[1] == Seq::<char>::empty(),
        d.comment matches Some(t) ==> (single_line(t) ==> csv_fields(d)[2] == t),
        d.comment is None ==> csv_fields(d)[2] == Seq::<char>::empty(),
        forall|f: int, i: int| 0 <= f < 4 && 0 <= i < csv_fields(d)[f].len() ==> !is_line_break(#[trigger] csv_fields(d)[f][i]),
{
    if single_line(d.function) {
        lemma_flattened_keeps_plain_text(d.function);
    }
    if let Some(t) = d.description {
        if single_line(t) {
            lemma_flattened_keeps_plain_text(t);
        }
    }
    if let Some(t) = d.comment {
        if single_line(t) {
            lemma_flattened_keeps_plain_text(t);
        }
    }
    lemma_flattened_keeps_plain_text(Seq::<char>::empty());
    lemma_flattened_has_no_break(d.function);
    lemma_flattened_has_no_break(match d.description { Some(t) => t, None => Seq::empty() });
    lemma_flattened_has_no_break(match d.comment { Some(t) => t, None => Seq::empty() });
    lemma_flattened_has_no_break(joined(d.examples, ", "@));
    assert forall|f: int, i: int| 0 <= f < 4 && 0 <= i < csv_fields(d)[f].len() implies !is_line_break(#[trigger] csv_fields(d)[f][i]) by {
        if f == 0 {
        } else if f == 1 {
        } else if f == 2 {
        } else {
        }
    }
}

/// The CSV fields of one function: name, description, comment and examples.
pub fn csv_record(d: &FunctionDescription) -> (r: Vec<String>)
    ensures
        texts_model(r@) == csv_fields(d@),
        r@.len() == 4,
        r@[0]@ == flattened(d@.function),
        d@.description matches Some(t) ==> r@[1]@ == flattened(t),
        d@.description is None ==> r@[1]@ == Seq::<char>::empty(),
        d@.comment matches Some(t) ==> r@[2]@ == flattened(t),
        d@.comment is None ==> r@[2]@ == Seq::<char>::empty(),
        r@[3]@ == flattened(joined(d@.examples, ", "@)),
{
    let examples = join_texts(&d.examples, ", ");
    let mut r: Vec<String> = Vec::new();
    r.push(flatten_newlines(d.function.as_str()));
    match &d.description {
        Some(t) => r.push(flatten_newlines(t.as_str())),
        None => r.push(flatten_newlines("")),
    }
    match &d.comment {
        Some(t) => r.push(flatten_newlines(t.as_str())),
        None => r.push(flatten_newlines("")),
    }
    r.push(flatten_newlines(examples.as_str()));
    proof {
        reveal_strlit("");
    }
    assert(texts_model(r@) =~= csv_fields(d@));
    r
}

/// The bytes of a CSV document with the given records, as the `csv` crate writes them.
pub uninterp spec fn spec_csv_document(records: Seq<Seq<Seq<char>>>) -> Seq<u8>;

/// Writes records as CSV into memory with a `csv::Writer` (`Writer::write_record` per record; the
/// crate quotes and escapes fields holding commas, quotes or newlines). Claimed: the bytes are a
/// function of the records alone. Writing into a `Vec` cannot fail, and a writer that is not
/// flexible (the default) refuses a record whose length differs from the first one's, so all
/// records have the same length.
#[verifier::external_body]
fn csv_bytes(records: &Vec<Vec<String>>) -> (r: Vec<u8>)
    requires
        forall|i: int| 0 <= i < records@.len() ==> #[trigger] records@[i]@.len() == records@[0]@.len(),
    ensures
        r@ == spec_csv_document(Seq::new(records@.len(), |i: int| texts_model(records@[i]@))),
{
    let mut writer = csv::Writer::from_writer(Vec::new());
    for record in records {
        writer.write_record(record).expect("writing CSV into memory cannot fail");
    }
    writer.into_inner().expect("flushing CSV into memory cannot fail")
}

/// The records of the CSV: the header, then one row per function.
pub open spec fn csv_records(rows: Seq<FunctionDescriptionModel>) -> Seq<Seq<Seq<char>>> {
    seq![seq!["function"@, "description"@, "comment"@, "example"@]] + Seq::new(rows.len(), |i: int| csv_fields(rows[i]))
}

/// The CSV document of an export: the header, then one row per function.
pub fn csv_document(rows: &Vec<FunctionDescription>) -> (bytes: Vec<u8>)
    ensures
        bytes@ == spec_csv_document(csv_records(docs_model(rows@))),
{
    let mut records: Vec<Vec<String>> = Vec::new();
    let mut header: Vec<String> = Vec::new();
    let mut h: usize = 0;
    while h < 4
        invariant
            0 <= h <= 4,
            header@.len() == h,
            forall|j: int| 0 <= j < h ==> #[trigger] header@[j]@ == CSV_HEADER[j]@,
        decreases 4 - h,
    {
        header.push(String::from_str(CSV_HEADER[h]));
        h = h + 1;
    }
    proof {
        reveal_strlit("function");
        reveal_strlit("description");
        reveal_strlit("comment");
        reveal_strlit("example");
    }
    assert(texts_model(header@) =~= seq!["function"@, "description"@, "comment"@, "example"@]);
    records.push(header);
    let mut i: usize = 0;
    while i < rows.len()
        invariant
            0 <= i <= rows@.len(),
            records@.len() == i + 1,
            texts_model(records@[0]@) == seq!["function"@, "description"@, "comment"@, "example"@],
            forall|j: int| 0 <= j < i ==> #[trigger] texts_model(records@[j + 1]@) == csv_fields(rows@[j]@),
        decreases rows@.len() - i,
    {
        records.push(csv_record(&rows[i]));
        i = i + 1;
    }
    let ghost want = csv_records(docs_model(rows@));
    assert(Seq::new(records@.len(), |i: int| texts_model(records@[i]@)) =~= want) by {
        assert forall|j: int| 0 <= j < records@.len() implies #[trigger] texts_model(records@[j]@) == want[j] by {
            if j > 0 {
                assert(texts_model(records@[(j - 1) + 1]@) == csv_fields(rows@[j - 1]@));
            }
        }
    }
    assert forall|j: int| 0 <= j < records@.len() implies #[trigger] records@[j]@.len() == records@[0]@.len() by {
        if j > 0 {
            assert(texts_model(records@[(j - 1) + 1]@) == csv_fields(rows@[j - 1]@));
        }
        assert(texts_model(records@[j]@).len() == 4);
    }
    csv_bytes(&records)
}

/// The file an export writes: the default name, or the one that lists undocumented functions too.
pub open spec fn output_file_name(all: bool) -> Seq<char> {
    if all {
        "function_descriptions_all.csv"@
    } else {
        "function_descriptions.csv"@
    }
}

/// Whether a text is one plain path component: non-empty, letters, digits, `_`, `-` and `.` only,
/// and neither `.` nor `..`.
pub open spec fn plain_component(s: Seq<char>) -> bool {
    &&& s.len() > 0
    &&& s != "."@
    &&& s != ".."@
    &&& forall|i: int| 0 <= i < s.len() ==> {
        let c = #[trigger] s[i];
        ('a' <= c <= 'z') || ('A' <= c <= 'Z') || ('0' <= c <= '9') || c == '_' || c == '-' || c == '.'
    }
}

/// Whether a path holds no `?`, and so has no verbatim prefix (`\\?\`), the one kind of path on
/// which `PathBuf::push` rewrites what is already there.
pub open spec fn without_verbatim_prefix(s: Seq<char>) -> bool {
    forall|i: int| 0 <= i < s.len() ==> #[trigger] s[i] != '?'
}

/// Whether a character separates path components on some platform (`/`, or `\\` on Windows).
pub open spec fn is_separator(c: char) -> bool {
    c == '/' || c == '\\'
}

/// Whether `PathBuf::push` puts a separator after a path: it is not empty, holds no `?` (no
/// verbatim prefix), and does not already end in a separator or in `:` (which could end a bare
/// drive prefix such as `C:`).
pub open spec fn needs_separator(base: Seq<char>) -> bool {
    &&& base.len() > 0
    &&& without_verbatim_prefix(base)
    &&& !is_separator(base.last())
    &&& base.last() != ':'
}

/// Adjoins a plain component to a path (`Path::join`). Claimed, as `PathBuf::push` documents
/// for a relative component onto a path without a verbatim prefix: the result is the path, at
/// most one separator, then the component; and when the path does not end in a separator (nor
/// is a bare drive), exactly one separator, the platform's (`/`, or `\\` on Windows). A `\\?\`
/// path is normalised by `push`, so nothing is claimed of one.
#[verifier::external_body]
fn join_path(base: &str, part: &str) -> (r: String)
    requires
        plain_component(part@),
    ensures
        without_verbatim_prefix(base@) ==> {
            &&& base@.len() + part@.len() <= r@.len() <= base@.len() + 1 + part@.len()
            &&& r@.subrange(0, base@.len() as int) == base@
            &&& r@.subrange(r@.len() - part@.len(), r@.len() as int) == part@
            &&& without_verbatim_prefix(r@)
        },
        needs_separator(base@) ==> r@.len() == base@.len() + 1 + part@.len() && is_separator(r@[base@.len() as int]),
{
    std::path::Path::new(base).join(part).to_string_lossy().into_owned()
}

/// The output path of an export, fixed at `<project_dir>/target/<file name>` so that later
/// automation can find it: `function_descriptions_all.csv` when undocumented functions are
/// exported too, `function_descriptions.csv` otherwise. For a project directory that does not
/// end in a separator, exactly one separator (the platform's) stands before `target` and one
/// before the file name; otherwise at most one each.
pub fn output_path(project_dir: &str, all: bool) -> (p: String)
    ensures
        without_verbatim_prefix(project_dir@) ==> {
            &&& p@.subrange(0, project_dir@.len() as int) == project_dir@
            &&& p@.subrange(p@.len() - output_file_name(all).len(), p@.len() as int) == output_file_name(all)
            &&& exists|k: int| {
                &&& project_dir@.len() <= k <= project_dir@.len() + 1
                &&& k + 6 <= p@.len() - output_file_name(all).len() <= k + 7
                &&& #[trigger] p@.subrange(k, k + 6) == "target"@
            }
        },
        needs_separator(project_dir@) ==> exists|s1: char, s2: char| is_separator(s1) && is_separator(s2)
            && p@ == project_dir@ + seq![s1] + "target"@ + seq![s2] + output_file_name(all),
{
    proof {
        reveal_strlit("target");
        reveal_strlit("function_descriptions_all.csv");
        reveal_strlit("function_descriptions.csv");
        reveal_strlit(".");
        reveal_strlit("..");
    }
    let target = join_path(project_dir, "target");
    let name = if all { ALL_FILE_NAME } else { FILE_NAME };
    assert(name@ == output_file_name(all));
    let p = join_path(target.as_str(), name);
    proof {
        if without_verbatim_prefix(project_dir@) {
            let k = target@.len() - 6;
            assert(p@.subrange(0, project_dir@.len() as int) == p@.subrange(0, target@.len() as int).subrange(0, project_dir@.len() as int));
            assert(p@.subrange(k, k + 6) == p@.subrange(0, target@.len() as int).subrange(k, k + 6));
            assert(p@.subrange(k, k + 6) == "target"@);
        }
        if needs_separator(project_dir@) {
            let s1 = target@[project_dir@.len() as int];
            assert(target@ =~= project_dir@ + seq![s1] + "target"@) by {
                assert(target@.subrange(0, project_dir@.len() as int) == project_dir@);
                assert(target@.subrange(target@.len() - 6, target@.len() as int) == "target"@);
            }
            assert(target@.last() == 't') by {
                assert(target@[target@.len() - 1] == "target"@[5]);
            }
            assert(needs_separator(target@));
            let s2 = p@[target@.len() as int];
            assert(p@ =~= target@ + seq![s2] + name@) by {
                assert(p@.subrange(0, target@.len() as int) == target@);
                assert(p@.subrange(p@.len() - name@.len(), p@.len() as int) == name@);
            }
            assert(p@ =~= project_dir@ + seq![s1] + "target"@ + seq![s2] + output_file_name(all));
        }
    }
    p
}

} // verus!
