//! Supervision of worker processes: how their output is cut into bounded
//! lines, which stderr lines are kept to explain a failure, and which process
//! group a cancellation signals.

use vstd::prelude::*;
use vstd::utf8::{valid_utf8, decode_utf8};
use crate::text::utf8_prefix;
use crate::error::AppError;
use crate::text::concat;
use crate::worker::ProcessResult;

verus! {

/// Longest line, newline included, a worker may print.
pub const MAX_LINE_BYTES: usize = 65536;

/// How many stderr lines are kept to explain a failed process.
pub const ERROR_TAIL_LINES: usize = 20;

/// What one call of `absorb_line_bytes` took from the reader's buffer.
#[derive(Debug, Clone, Copy, PartialEq, Eq, Structural)]
pub struct Absorbed {
    /// Bytes to consume from the reader.
    pub consumed: usize,
    /// Whether they ended in a newline, finishing the line.
    pub complete: bool,
}

/// Whether `k` bytes of `available` are exactly what one step of line reading
/// takes: up to and including the first newline, or everything when there is
/// none.
pub open spec fn takes_line_prefix(available: Seq<u8>, k: int, complete: bool) -> bool {
    &&& 0 <= k <= available.len()
    &&& forall|j: int| 0 <= j < k - 1 ==> available[j] != 10u8
    &&& if complete {
        k >= 1 && available[k - 1] == 10u8
    } else {
        k == available.len() && (forall|j: int| 0 <= j < available.len() ==> available[j] != 10u8)
    }
}

/// Move the next piece of a line from the reader's buffer into `line`.
///
/// A line that would grow past `MAX_LINE_BYTES` is refused before anything is
/// copied, so a worker that never prints a newline cannot grow the buffer
/// without bound.
pub fn absorb_line_bytes(line: &mut Vec<u8>, available: &[u8]) -> (absorbed: Result<Absorbed, AppError>)
    ensures
        match absorbed {
            Ok(a) => {
                &&& takes_line_prefix(available@, a.consumed as int, a.complete)
                &&& old(line)@.len() + a.consumed <= MAX_LINE_BYTES
                &&& final(line)@ == old(line)@ + available@.take(a.consumed as int)
            },
            Err(e) => {
                &&& e.code@ == "WORKER_PROTOCOL_ERROR"@
                &&& *final(line) == *old(line)
                &&& exists|k: int, c: bool| takes_line_prefix(available@, k, c)
                    && old(line)@.len() + k > MAX_LINE_BYTES
            },
        },
{
    let mut k: usize = 0;
    let mut complete = false;
    while k < available.len() && !complete
        invariant
            k <= available.len(),
            forall|j: int| 0 <= j < k - 1 ==> available@[j] != 10u8,
            complete ==> k >= 1 && available@[k - 1] == 10u8,
            !complete ==> forall|j: int| 0 <= j < k ==> available@[j] != 10u8,
        decreases available.len() - k,
    {
        if available[k] == 10u8 {
            complete = true;
        }
        k = k + 1;
    }
    proof {
        assert(takes_line_prefix(available@, k as int, complete));
    }
    if k > MAX_LINE_BYTES || line.len() > MAX_LINE_BYTES - k {
        return Err(AppError::new("WORKER_PROTOCOL_ERROR", "워커 출력 한 줄이 허용 크기를 초과했습니다."));
    }
    let mut i: usize = 0;
    while i < k
        invariant
            i <= k <= available.len(),
            line@ == old(line)@ + available@.take(i as int),
        decreases k - i,
    {
        line.push(available[i]);
        proof {
            assert(available@.take(i + 1) =~= available@.take(i as int).push(available@[i as int]));
        }
        i = i + 1;
    }
    Ok(Absorbed { consumed: k, complete })
}

/// A finished line without its newline and a carriage return before it.
pub open spec fn line_content(bytes: Seq<u8>) -> Seq<u8> {
    let without_newline = if bytes.len() > 0 && bytes.last() == 10u8 {
        bytes.drop_last()
    } else {
        bytes
    };
    if without_newline.len() > 0 && without_newline.last() == 13u8 {
        without_newline.drop_last()
    } else {
        without_newline
    }
}

/// The text of a finished line, which must be valid UTF-8.
pub fn line_text(line: &Vec<u8>) -> (text: Result<String, AppError>)
    ensures
        match text {
            Ok(t) => valid_utf8(line_content(line@)) && t@ == decode_utf8(line_content(line@)),
            Err(e) => !valid_utf8(line_content(line@)) && e.code@ == "WORKER_PROTOCOL_ERROR"@,
        },
{
    let mut len = line.len();
    if len > 0 && line[len - 1] == 10u8 {
        len = len - 1;
    }
    if len > 0 && line[len - 1] == 13u8 {
        len = len - 1;
    }
    proof {
        let b = line@;
        let w = if b.len() > 0 && b.last() == 10u8 { b.drop_last() } else { b };
        assert(w =~= b.take(if b.len() > 0 && b.last() == 10u8 { b.len() - 1 } else { b.len() as int }));
        assert(line_content(b) =~= b.take(len as int));
    }
    match utf8_prefix(line.as_slice(), len) {
        Some(t) => Ok(t),
        None => Err(AppError::new("WORKER_PROTOCOL_ERROR", "워커 출력이 UTF-8 텍스트가 아닙니다.")),
    }
}

/// The last stderr lines of a process, oldest first.
#[derive(Debug, Clone, PartialEq, Eq)]
pub struct StderrTail {
    pub lines: Vec<String>,
}

/// The kept lines after one more: the oldest goes once there are too many.
pub open spec fn tail_after(lines: Seq<Seq<char>>, line: Seq<char>) -> Seq<Seq<char>> {
    if lines.len() + 1 > ERROR_TAIL_LINES {
        lines.push(line).drop_first()
    } else {
        lines.push(line)
    }
}

impl StderrTail {
    pub open spec fn view_lines(self) -> Seq<Seq<char>> {
        self.lines@.map_values(|s: String| s@)
    }

    pub open spec fn wf(self) -> bool {
        self.lines@.len() <= ERROR_TAIL_LINES
    }

    pub fn new() -> (tail: Self)
        ensures
            tail.wf(),
            tail.lines@.len() == 0,
    {
        StderrTail { lines: Vec::new() }
    }

    pub fn push(&mut self, line: String)
        requires
            old(self).wf(),
        ensures
            final(self).wf(),
            final(self).view_lines() == tail_after(old(self).view_lines(), line@),
    {
        self.lines.push(line);
        if self.lines.len() > ERROR_TAIL_LINES {
            let _oldest = self.lines.remove(0);
            proof {
                assert(self.view_lines() =~= old(self).view_lines().push(line@).drop_first());
            }
        } else {
            proof {
                assert(self.view_lines() =~= old(self).view_lines().push(line@));
            }
        }
    }

    /// Why a process failed: its most recent stderr line, or its exit status
    /// when it printed nothing there.
    pub fn failure_detail(&self, exit_status: &str) -> (detail: String)
        ensures
            self.lines@.len() > 0 ==> detail@ == self.lines@.last()@,
            self.lines@.len() == 0 ==> detail@ == "exit status "@ + exit_status@,
    {
        if self.lines.len() > 0 {
            self.lines[self.lines.len() - 1].clone()
        } else {
            concat("exit status ", exit_status)
        }
    }
}

/// Owns a worker's process group until the worker is known to be gone.
#[derive(Debug, Clone, Copy, PartialEq, Eq, Structural)]
pub struct ProcessGroupGuard {
    pub process_id: u32,
    pub armed: bool,
}

impl ProcessGroupGuard {
    pub fn new(process_id: u32) -> (guard: Self)
        ensures
            guard.process_id == process_id,
            guard.armed,
    {
        ProcessGroupGuard { process_id, armed: true }
    }

    /// The process id a signal addresses to reach the whole group: the
    /// negated id, which exists only for ids within the signed range.
    pub fn group_target(&self) -> (target: Result<i32, AppError>)
        ensures
            match target {
                Ok(t) => self.process_id <= i32::MAX && t == -(self.process_id as int),
                Err(e) => self.process_id > i32::MAX && e.code@ == "PROCESS_ERROR"@,
            },
    {
        if self.process_id > 2147483647u32 {
            Err(AppError::new("PROCESS_ERROR", "프로세스 ID 범위를 벗어났습니다."))
        } else {
            let raw = self.process_id as i32;
            Ok(-raw)
        }
    }

    /// The process was reaped; nothing is left to kill.
    pub fn disarm(&mut self)
        ensures
            !final(self).armed,
            final(self).process_id == old(self).process_id,
    {
        self.armed = false;
    }
}

/// How a worker run ends once both its output streams closed and it exited:
/// its result when it succeeded, else a failure explained by its last stderr
/// line, or by its exit status when it printed nothing there.
pub fn conclude(result: ProcessResult, tail: &StderrTail, success: bool, exit_status: &str) -> (concluded: Result<ProcessResult, AppError>)
    ensures
        success ==> concluded == Ok::<ProcessResult, AppError>(result),
        !success ==> (concluded matches Err(e) && e.code@ == "PROCESS_FAILED"@ && e.message@ == if tail.lines@.len() > 0 {
            tail.lines@.last()@
        } else {
            "exit status "@ + exit_status@
        }),
{
    if success {
        Ok(result)
    } else {
        let detail = tail.failure_detail(exit_status);
        Err(AppError { code: "PROCESS_FAILED".to_owned(), message: detail })
    }
}

/// What a run reports when the user cancelled it; its process group has
/// been signalled and reaped by then.
pub fn cancelled() -> (error: AppError)
    ensures
        error.code@ == "CANCELLED"@,
{
    AppError::new("CANCELLED", "사용자가 작업을 취소했습니다.")
}

} // verus!
