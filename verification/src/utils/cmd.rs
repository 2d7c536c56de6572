//! Running a command and handing on what it prints.
//!
//! A command is run in one of two ways. Buffered, its whole output is the
//! answer to the request. Streamed, its output is read byte by byte while it
//! runs, so that a progress display reaches the user as it is printed, and every
//! line goes to a streaming session as soon as it is complete.
//!
//! The command itself is started by the caller, who hands over the bytes and the
//! exit status.

use vstd::prelude::*;

use crate::errors::FwcError;
use crate::foreign::{lossy_text, lossy_utf8};
use crate::text::{chars_of, same_chars, texts};
use crate::utils::ws::WsData;

verus! {

/// Carriage return.
pub const CR: u8 = 13;

/// Line feed.
pub const LF: u8 = 10;

/// The command whose exit status is part of its answer and no failure.
pub const PASS_THROUGH_COMMAND: &'static str = "systemctl";

/// How long, in milliseconds, a streamed command that failed is kept back
/// before its failure is reported, so that the lines already queued reach the
/// user first.
pub const FAILURE_DELAY: u64 = 300;

/// What is said when a command cannot be started.
pub const POPEN_ERROR: &'static str = "Popen error";

/// Whether `c` ends a line.
pub open spec fn is_break(c: u8) -> bool {
    c == CR || c == LF
}

/// Whether no byte of `s` ends a line.
pub open spec fn no_breaks(s: Seq<u8>) -> bool {
    forall|i: int| 0 <= i < s.len() ==> !is_break(#[trigger] s[i])
}

/// The number of bytes before the first one that ends a line, or the length of
/// `s` where none does.
pub open spec fn line_end(s: Seq<u8>) -> nat
    decreases s.len(),
{
    if s.len() == 0 || is_break(s[0]) {
        0
    } else {
        1 + line_end(s.skip(1))
    }
}

/// The lines of a stream of output. A line ends at a line feed, at a carriage
/// return, or at a carriage return with the line feed that directly follows it,
/// which together end one line and not two. What the stream ends with after
/// its last line end is a line too, unless it is empty.
pub open spec fn stream_lines(s: Seq<u8>) -> Seq<Seq<u8>>
    decreases s.len(),
{
    if s.len() == 0 {
        Seq::<Seq<u8>>::empty()
    } else {
        let end = line_end(s) as int;
        if end >= s.len() {
            seq![s]
        } else {
            let next = if s[end] == CR && end + 1 < s.len() && s[end + 1] == LF {
                end + 2
            } else {
                end + 1
            };
            seq![s.take(end)] + stream_lines(s.skip(next))
        }
    }
}

/// What a line assembler holds between two bytes.
pub struct Assembly {
    /// The bytes of the line that is not complete yet.
    pub pending: Seq<u8>,
    /// Whether the byte before was a carriage return, so that a line feed now
    /// belongs to the line end already seen.
    pub after_cr: bool,
}

/// The assembler before the first byte.
pub open spec fn start() -> Assembly {
    Assembly { pending: Seq::<u8>::empty(), after_cr: false }
}

/// The assembler after the byte `c`, and the line that `c` completes, if it
/// completes one.
pub open spec fn step(st: Assembly, c: u8) -> (Assembly, Option<Seq<u8>>) {
    if !is_break(c) {
        (Assembly { pending: st.pending.push(c), after_cr: false }, None)
    } else if c == LF && st.after_cr {
        (Assembly { pending: st.pending, after_cr: false }, None)
    } else {
        (Assembly { pending: Seq::<u8>::empty(), after_cr: c == CR }, Some(st.pending))
    }
}

/// The line that the end of the stream completes, if it completes one.
pub open spec fn closing(st: Assembly) -> Option<Seq<u8>> {
    if st.pending.len() > 0 {
        Some(st.pending)
    } else {
        None
    }
}

/// The assembler after the bytes `s`, and the lines that they complete.
pub open spec fn run(st: Assembly, s: Seq<u8>) -> (Assembly, Seq<Seq<u8>>)
    decreases s.len(),
{
    if s.len() == 0 {
        (st, Seq::<Seq<u8>>::empty())
    } else {
        let (next, flushed) = step(st, s[0]);
        let (last, rest) = run(next, s.skip(1));
        match flushed {
            Some(line) => (last, seq![line] + rest),
            None => (last, rest),
        }
    }
}

/// The lines that an assembler in state `st` hands on for the bytes `s` and
/// the end of the stream after them.
pub open spec fn assembled(st: Assembly, s: Seq<u8>) -> Seq<Seq<u8>> {
    let (last, lines) = run(st, s);
    match closing(last) {
        Some(line) => lines.push(line),
        None => lines,
    }
}

/// The lines of a stream that a line end has ended: what an assembler hands on
/// for the bytes `s` when the end of the stream is not seen after them.
pub open spec fn ended_lines(s: Seq<u8>) -> Seq<Seq<u8>> {
    run(start(), s).1
}

/// The lines that are queued for the output `output` whose reading ended as
/// `end` says: all its lines where it was read to its end, and the lines that
/// a line end has ended where reading failed.
pub open spec fn lines_read(output: Seq<u8>, end: StreamEnd) -> Seq<Seq<u8>> {
    match end {
        StreamEnd::Eof => stream_lines(output),
        StreamEnd::ReadFailed => ended_lines(output),
    }
}

/// The texts that lines of bytes are handed on as.
pub open spec fn line_texts(lines: Seq<Seq<u8>>) -> Seq<Seq<char>> {
    lines.map_values(|l: Seq<u8>| lossy_utf8(l))
}

/// What becomes of a buffered command: its output is the answer, unless it
/// ended with a status other than 0 and is not the command whose status is
/// part of its answer.
pub open spec fn buffered_fails(cmd: Seq<char>, exit_success: bool) -> bool {
    !exit_success && cmd != PASS_THROUGH_COMMAND@
}

/// Cuts the output of a command into lines as the bytes come in.
pub struct LineAssembler {
    /// The bytes of the line that is not complete yet.
    pub line: Vec<u8>,
    /// Whether the byte before was a carriage return.
    pub previous_char_is_cr: bool,
}

impl View for LineAssembler {
    type V = Assembly;

    open spec fn view(&self) -> Assembly {
        Assembly { pending: self.line@, after_cr: self.previous_char_is_cr }
    }
}

/// How the reading of the output of a command ended.
#[derive(Clone, Copy, Debug, PartialEq, Eq)]
pub enum StreamEnd {
    /// The output was read to its end.
    Eof,
    /// Reading failed before the end was seen.
    ReadFailed,
}

/// What a command that has ended printed, and how it ended.
pub struct CmdRun {
    /// The bytes that were read of its output.
    pub output: Vec<u8>,
    /// How the reading ended.
    pub end: StreamEnd,
    /// Whether its exit status was 0.
    pub exit_success: bool,
}

/// What the caller of a streamed command does after one event of the stream.
pub struct StreamStep {
    /// The line to queue in the session, if one is complete.
    pub line: Option<String>,
    /// Whether to mark the session as over, after the line.
    pub finished: bool,
    /// Whether to stop reading and wait for the command to end.
    pub done: bool,
}

/// The streaming of one command into a session.
pub struct CmdStream {
    pub assembler: LineAssembler,
    /// Whether the session is over when this command is: it is not where
    /// another command follows in the same session.
    pub finish_ws: bool,
}

impl LineAssembler {
    /// An assembler before the first byte.
    pub fn new() -> (assembler: Self)
        ensures
            assembler@ == start(),
    {
        LineAssembler { line: Vec::new(), previous_char_is_cr: false }
    }

    /// Takes the next byte of the stream and gives the line that it
    /// completes, if it completes one.
    pub fn push_byte(&mut self, c: u8) -> (flushed: Option<String>)
        ensures
            final(self)@ == step(old(self)@, c).0,
            flushed is Some == step(old(self)@, c).1 is Some,
            flushed matches Some(text) ==> text@ == lossy_utf8(step(old(self)@, c).1->0),
    {
        if c != CR && c != LF {
            self.line.push(c);
            self.previous_char_is_cr = false;
            return None;
        }
        if c == LF && self.previous_char_is_cr {
            self.previous_char_is_cr = false;
            return None;
        }
        let text = lossy_text(&self.line);
        self.line = Vec::new();
        self.previous_char_is_cr = c == CR;
        Some(text)
    }

    /// Takes the end of the stream and gives the line that it completes, if it
    /// completes one. The assembler is then as before the first byte.
    pub fn finish(&mut self) -> (flushed: Option<String>)
        ensures
            final(self)@ == start(),
            flushed is Some == closing(old(self)@) is Some,
            flushed matches Some(text) ==> text@ == lossy_utf8(closing(old(self)@)->0),
    {
        self.previous_char_is_cr = false;
        if self.line.len() == 0 {
            assert(self.line@ =~= Seq::<u8>::empty());
            return None;
        }
        let text = lossy_text(&self.line);
        self.line = Vec::new();
        Some(text)
    }
}

impl CmdStream {
    /// The streaming of a command that is about to start.
    pub fn new(finish_ws: bool) -> (stream: Self)
        ensures
            stream.assembler@ == start(),
            stream.finish_ws == finish_ws,
    {
        CmdStream { assembler: LineAssembler::new(), finish_ws }
    }

    /// The command has printed the byte `c`.
    pub fn on_byte(&mut self, c: u8) -> (todo: StreamStep)
        ensures
            final(self).finish_ws == old(self).finish_ws,
            final(self).assembler@ == step(old(self).assembler@, c).0,
            todo.line is Some == step(old(self).assembler@, c).1 is Some,
            todo.line matches Some(text) ==> text@ == lossy_utf8(
                step(old(self).assembler@, c).1->0,
            ),
            !todo.finished,
            !todo.done,
    {
        let line = self.assembler.push_byte(c);
        StreamStep { line, finished: false, done: false }
    }

    /// The output of the command has come to its end.
    pub fn on_end(&mut self) -> (todo: StreamStep)
        ensures
            final(self).finish_ws == old(self).finish_ws,
            final(self).assembler@ == start(),
            todo.line is Some == closing(old(self).assembler@) is Some,
            todo.line matches Some(text) ==> text@ == lossy_utf8(
                closing(old(self).assembler@)->0,
            ),
            todo.finished == old(self).finish_ws,
            todo.done,
    {
        let line = self.assembler.finish();
        StreamStep { line, finished: self.finish_ws, done: true }
    }

    /// Reading the output of the command has failed. Nothing more is read;
    /// the session is left open, with the line that was not complete dropped.
    pub fn on_read_error(&mut self) -> (todo: StreamStep)
        ensures
            *final(self) == *old(self),
            todo.line is None,
            !todo.finished,
            todo.done,
    {
        StreamStep { line: None, finished: false, done: true }
    }
}

/// Does to a session what a step of a streamed command asks for.
pub fn deliver(ws_data: &mut WsData, todo: StreamStep)
    ensures
        final(ws_data).created_at == old(ws_data).created_at,
        final(ws_data).finished == (old(ws_data).finished || todo.finished),
        final(ws_data).lines@ == match todo.line {
            Some(line) => old(ws_data).lines@.push(line),
            None => old(ws_data).lines@,
        },
{
    match todo.line {
        Some(line) => ws_data.push_line(line),
        None => {},
    }
    if todo.finished {
        ws_data.finish();
    }
}

/// The answer to a request that ran `cmd` buffered: the output of the
/// command, or the failure of a command that ended with a status other than 0.
/// For `systemctl` the status is part of the answer, and its output is given
/// whatever the status.
pub fn run_cmd(cmd: &str, exit_success: bool, output: String) -> (res: Result<String, FwcError>)
    ensures
        buffered_fails(cmd@, exit_success) ==> res matches Err(FwcError::CmdExitStatusNotZero),
        !buffered_fails(cmd@, exit_success) ==> res == Ok::<String, FwcError>(output),
{
    if !exit_success && !same_chars(&chars_of(cmd), &chars_of(PASS_THROUGH_COMMAND)) {
        return Err(FwcError::CmdExitStatusNotZero);
    }
    Ok(output)
}

/// The failure of a buffered command that could not be started, with what the
/// system says of it.
pub fn spawn_failure(text: String) -> (e: FwcError)
    ensures
        e == FwcError::PopenError(text),
{
    FwcError::PopenError(text)
}

/// The failure of a streamed command that could not be started.
pub fn popen_failure() -> (e: FwcError)
    ensures
        e matches FwcError::Internal(text) && text@ == POPEN_ERROR@,
{
    FwcError::Internal(POPEN_ERROR)
}

/// The answer to a request that streamed a command, once the command has
/// ended. A failure is to be reported `FAILURE_DELAY` milliseconds later.
pub fn stream_result(exit_success: bool) -> (res: Result<(), FwcError>)
    ensures
        exit_success ==> res is Ok,
        !exit_success ==> res matches Err(FwcError::CmdExitStatusNotZero),
{
    if exit_success {
        Ok(())
    } else {
        Err(FwcError::CmdExitStatusNotZero)
    }
}

/// Streams the whole output of a command that has ended into a session. Every
/// line of the output is queued, in order. Where the output was read to its
/// end, the session is marked as over if `finish_ws` says so. Where reading
/// failed, what was read of a line that was not complete is dropped, and the
/// session is left open. The answer is that of `stream_result`.
pub fn run_cmd_ws(
    output: &Vec<u8>,
    end: StreamEnd,
    exit_success: bool,
    ws_data: &mut WsData,
    finish_ws: bool,
) -> (res: Result<(), FwcError>)
    ensures
        texts(final(ws_data).lines@) == texts(old(ws_data).lines@) + line_texts(
            lines_read(output@, end),
        ),
        final(ws_data).finished == (old(ws_data).finished || (finish_ws && end is Eof)),
        final(ws_data).created_at == old(ws_data).created_at,
        exit_success ==> res is Ok,
        !exit_success ==> res matches Err(FwcError::CmdExitStatusNotZero),
{
    let mut stream = CmdStream::new(finish_ws);
    let ghost before = texts(ws_data.lines@);
    let mut i: usize = 0;
    assert(output@.skip(0) =~= output@);
    while i < output.len()
        invariant
            i <= output.len(),
            stream.finish_ws == finish_ws,
            ws_data.created_at == old(ws_data).created_at,
            ws_data.finished == old(ws_data).finished,
            before == texts(old(ws_data).lines@),
            run(stream.assembler@, output@.skip(i as int)).0 == run(start(), output@).0,
            texts(ws_data.lines@) + line_texts(run(stream.assembler@, output@.skip(i as int)).1)
                == before + line_texts(ended_lines(output@)),
        decreases output.len() - i,
    {
        let ghost st = stream.assembler@;
        let ghost rest = output@.skip(i as int);
        let ghost queued = texts(ws_data.lines@);
        assert(rest.skip(1) =~= output@.skip(i + 1));
        assert(rest[0] == output@[i as int]);
        let todo = stream.on_byte(output[i]);
        let ghost asked = todo.line;
        deliver(ws_data, todo);
        proof {
            let tail = run(stream.assembler@, output@.skip(i + 1)).1;
            match asked {
                Some(line) => {
                    assert(texts(ws_data.lines@) =~= queued.push(line@));
                    assert(line_texts(seq![step(st, rest[0]).1->0] + tail) =~= seq![line@]
                        + line_texts(tail));
                    assert(queued.push(line@) + line_texts(tail) =~= queued + (seq![line@]
                        + line_texts(tail)));
                },
                None => {
                    assert(texts(ws_data.lines@) =~= queued);
                },
            }
        }
        i += 1;
    }
    let ghost st = stream.assembler@;
    let ghost queued = texts(ws_data.lines@);
    assert(output@.skip(output.len() as int) =~= Seq::<u8>::empty());
    assert(queued =~= before + line_texts(ended_lines(output@)));
    let todo = match end {
        StreamEnd::Eof => stream.on_end(),
        StreamEnd::ReadFailed => stream.on_read_error(),
    };
    let ghost asked = todo.line;
    deliver(ws_data, todo);
    proof {
        match asked {
            Some(line) => {
                assert(texts(ws_data.lines@) =~= queued.push(line@));
                assert(line_texts(ended_lines(output@).push(closing(st)->0)) =~= line_texts(
                    ended_lines(output@),
                ).push(line@));
            },
            None => {
                assert(texts(ws_data.lines@) =~= queued);
            },
        }
        law_assembler_cuts_stream_lines(output@);
    }
    stream_result(exit_success)
}

/// What an assembler hands on for a stream is the line that the first byte
/// completes, if it completes one, and then what it hands on for the rest.
proof fn lemma_assembled_step(st: Assembly, s: Seq<u8>)
    requires
        s.len() > 0,
    ensures
        assembled(st, s) == match step(st, s[0]).1 {
            Some(line) => seq![line] + assembled(step(st, s[0]).0, s.skip(1)),
            None => assembled(step(st, s[0]).0, s.skip(1)),
        },
{
    let (next, flushed) = step(st, s[0]);
    let (last, rest) = run(next, s.skip(1));
    match flushed {
        Some(line) => {
            match closing(last) {
                Some(end) => {
                    assert((seq![line] + rest).push(end) =~= seq![line] + rest.push(end));
                },
                None => {},
            }
        },
        None => {},
    }
}

/// A line without line ends before a stream puts off the first line end of the
/// whole by its length.
proof fn lemma_line_end_after(p: Seq<u8>, s: Seq<u8>)
    requires
        no_breaks(p),
    ensures
        line_end(p + s) == p.len() + line_end(s),
    decreases p.len(),
{
    if p.len() == 0 {
        assert(p + s =~= s);
    } else {
        assert((p + s)[0] == p[0]);
        assert((p + s).skip(1) =~= p.skip(1) + s);
        lemma_line_end_after(p.skip(1), s);
    }
}

/// What the assembler hands on, in terms of the lines of a stream: with a line
/// under way, the lines of that line followed by the bytes to come; directly
/// after a carriage return, the lines of the bytes to come without the line
/// feed that they may begin with.
proof fn lemma_assembled(st: Assembly, s: Seq<u8>)
    requires
        no_breaks(st.pending),
        st.after_cr ==> st.pending.len() == 0,
    ensures
        !st.after_cr ==> assembled(st, s) == stream_lines(st.pending + s),
        st.after_cr ==> assembled(st, s) == stream_lines(
            if s.len() > 0 && s[0] == LF {
                s.skip(1)
            } else {
                s
            },
        ),
    decreases s.len(),
{
    let p = st.pending;
    if s.len() == 0 {
        assert(p + s =~= p);
        if p.len() > 0 {
            lemma_line_end_after(p, Seq::<u8>::empty());
            assert(p + Seq::<u8>::empty() =~= p);
            assert(Seq::<Seq<u8>>::empty().push(p) =~= seq![p]);
        }
    } else {
        let c = s[0];
        let r = s.skip(1);
        let (next, flushed) = step(st, c);
        lemma_assembled_step(st, s);
        lemma_assembled(next, r);
        if !is_break(c) {
            assert(p.push(c) + r =~= p + s);
            if st.after_cr {
                assert(p.push(c) + r =~= s);
            }
        } else if c == LF && st.after_cr {
            assert(p + r =~= r);
        } else {
            let whole = p + s;
            lemma_line_end_after(p, s);
            let end = p.len() as int;
            assert(line_end(s) == 0);
            assert(whole[end] == c);
            assert(whole.take(end) =~= p);
            assert(Seq::<u8>::empty() + r =~= r);
            if c == CR && r.len() > 0 && r[0] == LF {
                assert(whole[end + 1] == r[0]);
                assert(whole.skip(end + 2) =~= r.skip(1));
            } else {
                if end + 1 < whole.len() {
                    assert(whole[end + 1] == r[0]);
                }
                assert(whole.skip(end + 1) =~= r);
            }
            if st.after_cr {
                assert(whole =~= s);
            }
        }
    }
}

/// Fed a stream byte by byte and then its end, the assembler hands on the
/// lines of the stream: a carriage return with the line feed directly after it
/// ends one line, and no line is handed on twice or left out.
pub proof fn law_assembler_cuts_stream_lines(s: Seq<u8>)
    ensures
        assembled(start(), s) == stream_lines(s),
{
    lemma_assembled(start(), s);
    assert(Seq::<u8>::empty() + s =~= s);
}

/// No line that is handed on holds a carriage return or a line feed.
pub proof fn law_lines_hold_no_line_end(s: Seq<u8>, i: int)
    requires
        0 <= i < stream_lines(s).len(),
    ensures
        no_breaks(stream_lines(s)[i]),
    decreases s.len(),
{
    if s.len() > 0 {
        let end = line_end(s) as int;
        lemma_line_end_bounds(s);
        if end >= s.len() {
            assert(s.take(end) =~= s);
        } else {
            let next = if s[end] == CR && end + 1 < s.len() && s[end + 1] == LF {
                end + 2
            } else {
                end + 1
            };
            let rest = stream_lines(s.skip(next));
            assert(stream_lines(s) == seq![s.take(end)] + rest);
            if i > 0 {
                law_lines_hold_no_line_end(s.skip(next), i - 1);
                assert(stream_lines(s)[i] == rest[i - 1]);
            } else {
                assert(stream_lines(s)[0] == s.take(end));
            }
        }
    }
}

/// Up to its first line end a stream holds none, and that line end is no
/// further than the end of the stream.
proof fn lemma_line_end_bounds(s: Seq<u8>)
    ensures
        line_end(s) <= s.len(),
        no_breaks(s.take(line_end(s) as int)),
        line_end(s) < s.len() ==> is_break(s[line_end(s) as int]),
    decreases s.len(),
{
    if s.len() == 0 || is_break(s[0]) {
    } else {
        lemma_line_end_bounds(s.skip(1));
        let end = line_end(s) as int;
        assert forall|i: int| 0 <= i < end implies !is_break(#[trigger] s.take(end)[i]) by {
            if i > 0 {
                assert(s.take(end)[i] == s.skip(1).take(end - 1)[i - 1]);
            }
        }
    }
}

} // verus!
