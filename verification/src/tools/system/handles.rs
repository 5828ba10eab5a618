//! The handle scanner: reads the listing that Sysinternals `handle.exe`
//! prints for a process.
//!
//! A listing is a text in UTF-8. Each of its lines is split into words at
//! white space; a line with more than four words describes a handle, unless
//! it is a header line. The first word is the type of the handle, and the
//! words from the fifth on, joined by single spaces, are its name.

use vstd::prelude::*;
use vstd::slice::*;
use vstd::string::*;
use crate::decimal::{decimal, format_decimal};
use crate::tools::failure::ToolFailure;
use crate::tools::schema::{ParamDef, ToolSchema};

verus! {

/// Whether three bytes are the encoding of one of the white-space
/// characters that take three bytes: U+1680, U+2000 to U+200A, U+2028,
/// U+2029, U+202F, U+205F and U+3000.
pub open spec fn is_wide_space(b0: u8, b1: u8, b2: u8) -> bool {
    ||| b0 == 0xE1 && b1 == 0x9A && b2 == 0x80
    ||| b0 == 0xE2 && b1 == 0x80 && (0x80 <= b2 <= 0x8A || b2 == 0xA8 || b2 == 0xA9 || b2
        == 0xAF)
    ||| b0 == 0xE2 && b1 == 0x81 && b2 == 0x9F
    ||| b0 == 0xE3 && b1 == 0x80 && b2 == 0x80
}

/// The length in bytes of the white-space character that starts at `at` and
/// lies before `end`; zero if there is none. White space is U+0009 to
/// U+000D, U+0020, U+0085, U+00A0 and the characters of `is_wide_space`.
pub open spec fn space_len(text: Seq<u8>, at: int, end: int) -> int {
    if at < 0 || at >= end || end > text.len() {
        0
    } else if (0x09 <= text[at] <= 0x0D) || text[at] == 0x20 {
        1
    } else if at + 1 < end && text[at] == 0xC2 && (text[at + 1] == 0x85 || text[at + 1] == 0xA0) {
        2
    } else if at + 2 < end && is_wide_space(text[at], text[at + 1], text[at + 2]) {
        3
    } else {
        0
    }
}

/// The end of the line that starts at `at`: the position of the next line
/// feed, or the end of the text.
pub open spec fn line_end(text: Seq<u8>, at: int) -> int
    decreases text.len() - at,
{
    if at < 0 || at >= text.len() || text[at] == 0x0A {
        at
    } else {
        line_end(text, at + 1)
    }
}

/// The end of the word that is under way at `at`: the first position from
/// `at` on at which white space starts, or `end`.
pub open spec fn word_end(text: Seq<u8>, at: int, end: int) -> int
    decreases end - at,
{
    if at >= end || space_len(text, at, end) > 0 {
        at
    } else {
        word_end(text, at + 1, end)
    }
}

/// The words between `at` and `end`, each as the positions of its first
/// byte and of the byte behind its last.
pub open spec fn words(text: Seq<u8>, at: int, end: int) -> Seq<(int, int)>
    decreases end - at,
{
    if at >= end {
        Seq::empty()
    } else if space_len(text, at, end) > 0 {
        words(text, at + space_len(text, at, end), end)
    } else {
        proof {
            lemma_word_end(text, at + 1, end);
        }
        seq![(at, word_end(text, at + 1, end))] + words(text, word_end(text, at + 1, end), end)
    }
}

/// The bytes of a word.
pub open spec fn word(text: Seq<u8>, range: (int, int)) -> Seq<u8> {
    text.subrange(range.0, range.1)
}

/// The words `ws`, joined by single spaces.
pub open spec fn joined(text: Seq<u8>, ws: Seq<(int, int)>) -> Seq<u8>
    decreases ws.len(),
{
    if ws.len() == 0 {
        Seq::empty()
    } else if ws.len() == 1 {
        word(text, ws[0])
    } else {
        joined(text, ws.drop_last()) + seq![0x20u8] + word(text, ws.last())
    }
}

/// Whether a first word marks a header line: the word `Type`, or a word
/// that starts with three dashes.
pub open spec fn is_header(w: Seq<u8>) -> bool {
    ||| w == seq![0x54u8, 0x79u8, 0x70u8, 0x65u8]
    ||| w.len() >= 3 && w[0] == 0x2D && w[1] == 0x2D && w[2] == 0x2D
}

/// What a handle is, as a mathematical value.
pub struct HandleEntryView {
    pub kind: Seq<u8>,
    pub name: Seq<u8>,
}

/// The handle that a line with the words `ws` describes, if it describes
/// one.
pub open spec fn line_entry(text: Seq<u8>, ws: Seq<(int, int)>) -> Option<HandleEntryView> {
    if ws.len() > 4 && !is_header(word(text, ws[0])) {
        Some(
            HandleEntryView {
                kind: word(text, ws[0]),
                name: joined(text, ws.subrange(4, ws.len() as int)),
            },
        )
    } else {
        None
    }
}

/// The handles that the lines from position `at` on describe, in the order
/// of the lines.
pub open spec fn entries(text: Seq<u8>, at: int) -> Seq<HandleEntryView>
    decreases text.len() - at,
{
    if at < 0 || at >= text.len() {
        Seq::empty()
    } else {
        proof {
            lemma_line_end(text, at);
        }
        let end = line_end(text, at);
        let rest = if end < text.len() {
            entries(text, end + 1)
        } else {
            Seq::empty()
        };
        match line_entry(text, words(text, at, end)) {
            Some(entry) => seq![entry] + rest,
            None => rest,
        }
    }
}

/// The end of a line lies between its start and the end of the text.
pub proof fn lemma_line_end(text: Seq<u8>, at: int)
    requires
        0 <= at <= text.len(),
    ensures
        at <= line_end(text, at) <= text.len(),
        line_end(text, at) < text.len() ==> text[line_end(text, at)] == 0x0A,
    decreases text.len() - at,
{
    if at < text.len() && text[at] != 0x0A {
        lemma_line_end(text, at + 1);
    }
}

/// The end of a word lies between the position it is asked from and the
/// end of the range.
pub proof fn lemma_word_end(text: Seq<u8>, at: int, end: int)
    requires
        at <= end,
    ensures
        at <= word_end(text, at, end) <= end,
    decreases end - at,
{
    if at < end && space_len(text, at, end) == 0 {
        lemma_word_end(text, at + 1, end);
    }
}

/// One handle of a listing.
#[derive(Debug, PartialEq, Eq)]
pub struct HandleEntry {
    /// The type of the handle, such as `File` or `Mutex`.
    pub kind: Vec<u8>,
    /// The name of the object behind the handle.
    pub name: Vec<u8>,
}

impl View for HandleEntry {
    type V = HandleEntryView;

    open spec fn view(&self) -> HandleEntryView {
        HandleEntryView { kind: self.kind@, name: self.name@ }
    }
}

/// The values of a sequence of handles.
pub open spec fn entry_views(handles: Seq<HandleEntry>) -> Seq<HandleEntryView> {
    handles.map_values(|h: HandleEntry| h@)
}

/// The positions of a sequence of words.
pub open spec fn ranges(ws: Seq<(usize, usize)>) -> Seq<(int, int)> {
    ws.map_values(|r: (usize, usize)| (r.0 as int, r.1 as int))
}

/// The length of the white-space character at `at`; see `space_len`.
fn space_len_at(text: &[u8], at: usize, end: usize) -> (n: usize)
    requires
        at < end <= text@.len(),
    ensures
        n == space_len(text@, at as int, end as int),
        at + n <= end,
{
    let b0 = text[at];
    if (0x09 <= b0 && b0 <= 0x0D) || b0 == 0x20 {
        return 1;
    }
    if end - at >= 2 {
        let b1 = text[at + 1];
        if b0 == 0xC2 && (b1 == 0x85 || b1 == 0xA0) {
            return 2;
        }
        if end - at >= 3 {
            let b2 = text[at + 2];
            let wide = (b0 == 0xE1 && b1 == 0x9A && b2 == 0x80) || (b0 == 0xE2 && b1 == 0x80 && ((
            0x80 <= b2 && b2 <= 0x8A) || b2 == 0xA8 || b2 == 0xA9 || b2 == 0xAF)) || (b0 == 0xE2
                && b1 == 0x81 && b2 == 0x9F) || (b0 == 0xE3 && b1 == 0x80 && b2 == 0x80);
            if wide {
                return 3;
            }
        }
    }
    0
}

/// Finds the end of the line that starts at `at`.
fn find_line_end(text: &[u8], at: usize) -> (end: usize)
    requires
        at <= text@.len(),
    ensures
        end == line_end(text@, at as int),
        at <= end <= text@.len(),
{
    let mut end = at;
    while end < text.len() && text[end] != 0x0A
        invariant
            at <= end <= text@.len(),
            line_end(text@, at as int) == line_end(text@, end as int),
        decreases text@.len() - end,
    {
        end += 1;
    }
    end
}

/// Finds the end of the word that is under way at `at`.
fn find_word_end(text: &[u8], at: usize, end: usize) -> (stop: usize)
    requires
        at <= end <= text@.len(),
    ensures
        stop == word_end(text@, at as int, end as int),
        at <= stop <= end,
{
    let mut stop = at;
    while stop < end
        invariant
            at <= stop <= end <= text@.len(),
            word_end(text@, at as int, end as int) == word_end(text@, stop as int, end as int),
        decreases end - stop,
    {
        if space_len_at(text, stop, end) > 0 {
            return stop;
        }
        stop += 1;
    }
    stop
}

/// Splits the bytes between `at` and `end` into words.
fn split_words(text: &[u8], at: usize, end: usize) -> (ws: Vec<(usize, usize)>)
    requires
        at <= end <= text@.len(),
    ensures
        ranges(ws@) == words(text@, at as int, end as int),
        forall|i: int| 0 <= i < ws@.len() ==> (#[trigger] ws@[i]).0 <= ws@[i].1 <= text@.len(),
{
    let mut ws: Vec<(usize, usize)> = Vec::new();
    let mut pos = at;
    assert(ranges(ws@) + words(text@, pos as int, end as int) =~= words(
        text@,
        at as int,
        end as int,
    ));
    while pos < end
        invariant
            at <= pos <= end <= text@.len(),
            ranges(ws@) + words(text@, pos as int, end as int) == words(
                text@,
                at as int,
                end as int,
            ),
            forall|i: int| 0 <= i < ws@.len() ==> (#[trigger] ws@[i]).0 <= ws@[i].1 <= text@.len(),
        decreases end - pos,
    {
        let n = space_len_at(text, pos, end);
        if n > 0 {
            pos += n;
        } else {
            let stop = find_word_end(text, pos + 1, end);
            let ghost before = ws@;
            ws.push((pos, stop));
            proof {
                let found = seq![(pos as int, stop as int)];
                let rest = words(text@, stop as int, end as int);
                assert(ranges(ws@) =~= ranges(before) + found);
                assert((ranges(before) + found) + rest =~= ranges(before) + (found + rest));
            }
            pos = stop;
        }
    }
    assert(ranges(ws@) + Seq::<(int, int)>::empty() =~= ranges(ws@));
    ws
}

/// Whether the word between `from` and `to` marks a header line.
fn is_header_word(text: &[u8], from: usize, to: usize) -> (header: bool)
    requires
        from <= to <= text@.len(),
    ensures
        header == is_header(word(text@, (from as int, to as int))),
{
    let ghost w = word(text@, (from as int, to as int));
    let len = to - from;
    if len >= 3 && text[from] == 0x2D && text[from + 1] == 0x2D && text[from + 2] == 0x2D {
        assert(w[0] == 0x2D && w[1] == 0x2D && w[2] == 0x2D);
        return true;
    }
    if len == 4 && text[from] == 0x54 && text[from + 1] == 0x79 && text[from + 2] == 0x70
        && text[from + 3] == 0x65 {
        assert(w =~= seq![0x54u8, 0x79u8, 0x70u8, 0x65u8]);
        return true;
    }
    proof {
        if w == seq![0x54u8, 0x79u8, 0x70u8, 0x65u8] {
            assert(w.len() == 4);
            assert(w[0] == 0x54 && w[1] == 0x79 && w[2] == 0x70 && w[3] == 0x65);
        }
        if w.len() >= 3 {
            assert(w[0] == text@[from as int] && w[1] == text@[from + 1] && w[2] == text@[from
                + 2]);
        }
    }
    false
}

/// Joins the words of `ws` from the one at `first` on by single spaces.
fn join_words(text: &[u8], ws: &Vec<(usize, usize)>, first: usize) -> (name: Vec<u8>)
    requires
        first <= ws@.len(),
        forall|i: int| 0 <= i < ws@.len() ==> (#[trigger] ws@[i]).0 <= ws@[i].1 <= text@.len(),
    ensures
        name@ == joined(text@, ranges(ws@).subrange(first as int, ws@.len() as int)),
{
    let mut name: Vec<u8> = Vec::new();
    let mut i = first;
    let ghost all = ranges(ws@);
    assert(all.subrange(first as int, i as int) =~= Seq::<(int, int)>::empty());
    while i < ws.len()
        invariant
            first <= i <= ws@.len(),
            all == ranges(ws@),
            forall|k: int| 0 <= k < ws@.len() ==> (#[trigger] ws@[k]).0 <= ws@[k].1 <= text@.len(),
            name@ == joined(text@, all.subrange(first as int, i as int)),
        decreases ws@.len() - i,
    {
        let (from, to) = ws[i];
        let ghost before = name@;
        if i > first {
            name.push(0x20);
        }
        name.extend_from_slice(slice_subrange(text, from, to));
        proof {
            let done = all.subrange(first as int, i as int);
            let next = all.subrange(first as int, i + 1);
            let w = word(text@, (from as int, to as int));
            assert(next.drop_last() =~= done);
            assert(next.last() == (from as int, to as int));
            if i > first {
                assert(name@ =~= before + seq![0x20u8] + w);
            } else {
                assert(name@ =~= w);
            }
        }
        i += 1;
    }
    assert(all.subrange(first as int, i as int) =~= ranges(ws@).subrange(
        first as int,
        ws@.len() as int,
    ));
    name
}

/// How the run of the listing program ended.
#[derive(Debug)]
pub enum ProgramOutcome<'a> {
    /// The program could not be started; the text says why.
    NotStarted(&'a str),
    /// The program ran and reported a failure; the text is what it wrote to
    /// its error stream.
    Failed(&'a str),
    /// The program ran and printed this listing.
    Listed(&'a [u8]),
}

/// Answer of the handle scanner.
#[derive(Debug)]
pub struct HandleReport {
    pub pid: u64,
    pub handle_count: usize,
    pub handles: Vec<HandleEntry>,
}

/// Text of the failure reported when the listing program cannot be started.
pub open spec fn not_started_text(reason: Seq<char>) -> Seq<char> {
    "Failed to run handle.exe. Is it in PATH? Error: "@ + reason
}

/// Text of the failure reported when the listing program fails.
pub open spec fn program_failed_text(errors: Seq<char>) -> Seq<char> {
    "handle.exe failed: "@ + errors
}

/// Scans the open handles of a process.
pub struct HandleScanner;

impl HandleScanner {
    pub fn name(&self) -> (name: &'static str)
        ensures
            name@ == "scan_handles"@,
    {
        "scan_handles"
    }

    pub fn description(&self) -> (text: &'static str)
        ensures
            text@
                == "Scans open handles and mutexes of a process using Sysinternals handle.exe. Args: pid (number)"@,
    {
        "Scans open handles and mutexes of a process using Sysinternals handle.exe. Args: pid (number)"
    }

    /// The tool declares no parameters.
    pub fn schema(&self) -> (schema: ToolSchema)
        ensures
            schema.params@ == Seq::<ParamDef>::empty(),
    {
        ToolSchema::empty()
    }

    /// The program that prints the listing.
    pub fn program(&self) -> (program: &'static str)
        ensures
            program@ == "handle.exe"@,
    {
        "handle.exe"
    }

    /// The arguments with which the program lists every handle of the
    /// process `pid`, without banner and without asking for consent.
    pub fn arguments(&self, pid: u64) -> (args: Vec<String>)
        ensures
            args@.len() == 5,
            args@[0]@ == "-a"@,
            args@[1]@ == "-p"@,
            args@[2]@ == decimal(pid as nat),
            args@[3]@ == "-accepteula"@,
            args@[4]@ == "-nobanner"@,
    {
        let mut args: Vec<String> = Vec::new();
        args.push(String::from_str("-a"));
        args.push(String::from_str("-p"));
        args.push(format_decimal(pid));
        args.push(String::from_str("-accepteula"));
        args.push(String::from_str("-nobanner"));
        args
    }

    /// The handles that a listing describes, in the order of its lines.
    pub fn parse(&self, listing: &[u8]) -> (handles: Vec<HandleEntry>)
        ensures
            entry_views(handles@) == entries(listing@, 0),
    {
        let mut handles: Vec<HandleEntry> = Vec::new();
        let mut pos: usize = 0;
        assert(entry_views(handles@) + entries(listing@, 0) =~= entries(listing@, 0));
        while pos < listing.len()
            invariant
                pos <= listing@.len(),
                entry_views(handles@) + entries(listing@, pos as int) == entries(listing@, 0),
            decreases listing@.len() - pos,
        {
            let end = find_line_end(listing, pos);
            let ws = split_words(listing, pos, end);
            let ghost before = handles@;
            let ghost rest = if end < listing@.len() {
                entries(listing@, end + 1)
            } else {
                Seq::empty()
            };
            if ws.len() > 4 {
                let (from, to) = ws[0];
                assert(ranges(ws@)[0] == (from as int, to as int));
                if !is_header_word(listing, from, to) {
                    let kind = slice_to_vec(slice_subrange(listing, from, to));
                    let name = join_words(listing, &ws, 4);
                    let entry = HandleEntry { kind, name };
                    handles.push(entry);
                    proof {
                        assert(entry_views(handles@) =~= entry_views(before) + seq![entry@]);
                        assert((entry_views(before) + seq![entry@]) + rest =~= entry_views(before)
                            + (seq![entry@] + rest));
                    }
                }
            }
            if end == listing.len() {
                assert(rest =~= Seq::<HandleEntryView>::empty());
                assert(entry_views(handles@) + Seq::<HandleEntryView>::empty() =~= entry_views(
                    handles@,
                ));
                return handles;
            }
            pos = end + 1;
        }
        assert(entry_views(handles@) + Seq::<HandleEntryView>::empty() =~= entry_views(handles@));
        handles
    }

    /// Reports the handles of the process `pid` from the outcome of the
    /// listing program. A missing process id is reported before the outcome
    /// is looked at.
    pub fn run(&self, pid: Option<u64>, outcome: ProgramOutcome<'_>) -> (r: Result<
        HandleReport,
        ToolFailure,
    >)
        ensures
            pid is None ==> r is Err && r->Err_0 == ToolFailure::MissingArgument("Missing pid"),
            pid is Some ==> match outcome {
                ProgramOutcome::NotStarted(reason) => {
                    &&& r is Err
                    &&& r->Err_0 is Program
                    &&& r->Err_0.text() == not_started_text(reason@)
                },
                ProgramOutcome::Failed(errors) => {
                    &&& r is Err
                    &&& r->Err_0 is Program
                    &&& r->Err_0.text() == program_failed_text(errors@)
                },
                ProgramOutcome::Listed(listing) => {
                    &&& r is Ok
                    &&& r->Ok_0.pid == pid->0
                    &&& entry_views(r->Ok_0.handles@) == entries(listing@, 0)
                    &&& r->Ok_0.handle_count == r->Ok_0.handles@.len()
                },
            },
    {
        let pid = match pid {
            Some(pid) => pid,
            None => {
                return Err(ToolFailure::MissingArgument("Missing pid"));
            },
        };
        match outcome {
            ProgramOutcome::NotStarted(reason) => Err(
                ToolFailure::Program(
                    String::from_str("Failed to run handle.exe. Is it in PATH? Error: ").concat(
                        reason,
                    ),
                ),
            ),
            ProgramOutcome::Failed(errors) => Err(
                ToolFailure::Program(String::from_str("handle.exe failed: ").concat(errors)),
            ),
            ProgramOutcome::Listed(listing) => {
                let handles = self.parse(listing);
                Ok(HandleReport { pid, handle_count: handles.len(), handles })
            },
        }
    }
}

} // verus!
