//! Shell commands run from the island, with their output streamed to it line
//! by line. A line `ISLAND_CONFIRM:<prompt>` asks the user on the island; the
//! answer (`y` or `n`) is written to the command's standard input.
use crate::text::{
    chars_of, ends_with, ends_with_str, string_from, string_of, strip_prefix, strip_prefix_str, trim,
    trim_chars,
};
use vstd::prelude::*;

verus! {

pub struct CliTaskPayload {
    pub task_id: u64,
    /// `started`, `stdout`, `stderr`, `confirm` or `done`
    pub kind: String,
    pub text: Option<String>,
    pub exit_code: Option<i32>,
}

/// The prompt of a confirmation line: the trimmed line after
/// `ISLAND_CONFIRM:`, trimmed again, when that is not empty.
pub open spec fn confirm_prompt(line: Seq<char>) -> Option<Seq<char>> {
    match strip_prefix(trim(line), "ISLAND_CONFIRM:"@) {
        Some(rest) => if trim(rest).len() > 0 {
            Some(trim(rest))
        } else {
            None
        },
        None => None,
    }
}

pub fn parse_confirm_line(line: &str) -> (r: Option<String>)
    ensures
        match r {
            Some(p) => confirm_prompt(line@) == Some(p@),
            None => confirm_prompt(line@) is None,
        },
{
    let v = chars_of(line);
    let t = trim_chars(v.as_slice());
    if let Some(rest) = strip_prefix_str(&t, "ISLAND_CONFIRM:") {
        let s = trim_chars(rest.as_slice());
        if s.len() > 0 {
            return Some(string_of(s.as_slice()));
        }
    }
    None
}

/// The command to run: trimmed; an empty one is refused.
pub fn prepare_command(command: &str) -> (r: Result<String, String>)
    ensures
        trim(command@).len() == 0 <==> r is Err,
        r matches Ok(c) ==> c@ == trim(command@),
        r matches Err(e) ==> e@ == "命令为空"@,
{
    let v = chars_of(command);
    let t = trim_chars(v.as_slice());
    if t.len() == 0 {
        return Err(string_from("命令为空"));
    }
    Ok(string_of(t.as_slice()))
}

pub fn started_payload(task_id: u64, command: String) -> (p: CliTaskPayload)
    ensures
        p.task_id == task_id,
        p.kind@ == "started"@,
        p.text == Some(command),
        p.exit_code is None,
        event_of(p) == ("started"@, Some(command@), None::<i32>),
{
    CliTaskPayload { task_id, kind: string_from("started"), text: Some(command), exit_code: None }
}

/// The output stream a line came from.
#[derive(PartialEq, Eq, Structural, Clone, Copy)]
pub enum OutputStream {
    Stdout,
    Stderr,
}

pub open spec fn stream_kind(s: OutputStream) -> Seq<char> {
    match s {
        OutputStream::Stdout => "stdout"@,
        OutputStream::Stderr => "stderr"@,
    }
}

/// A payload as a task event: kind, text and exit code.
pub open spec fn event_of(p: CliTaskPayload) -> (Seq<char>, Option<Seq<char>>, Option<i32>) {
    (
        p.kind@,
        match p.text {
            Some(t) => Some(t@),
            None => None,
        },
        p.exit_code,
    )
}

/// The events an output line gives: a confirmation request first, when the
/// line is one, then the line on its stream.
pub open spec fn line_events(stream: OutputStream, line: Seq<char>) -> Seq<
    (Seq<char>, Option<Seq<char>>, Option<i32>),
> {
    let own = (stream_kind(stream), Some(line), None::<i32>);
    match confirm_prompt(line) {
        Some(p) => seq![("confirm"@, Some(p), None::<i32>), own],
        None => seq![own],
    }
}

/// The events of the output lines `lines`, in the order they were read.
pub open spec fn lines_events(lines: Seq<(OutputStream, Seq<char>)>) -> Seq<
    (Seq<char>, Option<Seq<char>>, Option<i32>),
>
    decreases lines.len(),
{
    if lines.len() == 0 {
        Seq::empty()
    } else {
        lines_events(lines.drop_last()) + line_events(lines.last().0, lines.last().1)
    }
}

/// The events of a task that ran `command`, printed `lines` and ended with
/// `exit_code`: `started`, the lines' events, then `done`.
pub open spec fn task_events(
    command: Seq<char>,
    lines: Seq<(OutputStream, Seq<char>)>,
    exit_code: Option<i32>,
) -> Seq<(Seq<char>, Option<Seq<char>>, Option<i32>)> {
    seq![("started"@, Some(command), None::<i32>)] + lines_events(lines) + seq![
        ("done"@, None::<Seq<char>>, exit_code),
    ]
}

proof fn lemma_line_event_kinds(lines: Seq<(OutputStream, Seq<char>)>)
    ensures
        forall|i: int|
            0 <= i < lines_events(lines).len() ==> {
                let k = #[trigger] lines_events(lines)[i].0;
                k == "confirm"@ || k == "stdout"@ || k == "stderr"@
            },
    decreases lines.len(),
{
    if lines.len() > 0 {
        lemma_line_event_kinds(lines.drop_last());
        let a = lines_events(lines.drop_last());
        let b = line_events(lines.last().0, lines.last().1);
        assert forall|i: int| 0 <= i < lines_events(lines).len() implies {
            let k = #[trigger] lines_events(lines)[i].0;
            k == "confirm"@ || k == "stdout"@ || k == "stderr"@
        } by {
            if i < a.len() {
                assert(lines_events(lines)[i] == a[i]);
            } else {
                assert(lines_events(lines)[i] == b[i - a.len()]);
            }
        }
    }
}

/// The events of one task: it starts with `started` and the trimmed command,
/// ends with exactly one `done` carrying the exit code, and in between are the
/// events of its output lines, each line on its stream preceded by its
/// confirmation request when it is one; nothing in between starts or ends it.
pub proof fn law_task_events(
    command: Seq<char>,
    lines: Seq<(OutputStream, Seq<char>)>,
    exit_code: Option<i32>,
)
    ensures
        ({
            let t = task_events(command, lines, exit_code);
            &&& t[0] == ("started"@, Some(command), None::<i32>)
            &&& t.last() == ("done"@, None::<Seq<char>>, exit_code)
            &&& t.subrange(1, t.len() - 1) == lines_events(lines)
            &&& forall|i: int| 0 < i < t.len() - 1 ==> #[trigger] t[i].0 != "done"@ && t[i].0 != "started"@
        }),
{
    reveal_strlit("confirm");
    reveal_strlit("stdout");
    reveal_strlit("stderr");
    reveal_strlit("done");
    reveal_strlit("started");
    assert("confirm"@[0] != "started"@[0]);
    let t = task_events(command, lines, exit_code);
    let m = lines_events(lines);
    lemma_line_event_kinds(lines);
    assert(t.subrange(1, t.len() - 1) =~= m);
    assert forall|i: int| 0 < i < t.len() - 1 implies #[trigger] t[i].0 != "done"@ && t[i].0 != "started"@ by {
        assert(t[i] == m[i - 1]);
        let k = m[i - 1].0;
        assert(k == "confirm"@ || k == "stdout"@ || k == "stderr"@);
    }
}

/// What an output line is sent as: a confirmation request first, when the
/// line is one, then the line itself.
pub fn line_payloads(task_id: u64, stream: OutputStream, line: String) -> (r: Vec<CliTaskPayload>)
    ensures
        r@.len() == if confirm_prompt(line@) is Some {
            2nat
        } else {
            1nat
        },
        confirm_prompt(line@) matches Some(p) ==> r@[0].task_id == task_id && r@[0].kind@
            == "confirm"@ && r@[0].exit_code is None && (r@[0].text matches Some(t) && t@ == p),
        r@.last().task_id == task_id,
        r@.last().kind@ == stream_kind(stream),
        r@.last().text == Some(line),
        r@.last().exit_code is None,
        r@.map_values(|p: CliTaskPayload| event_of(p)) == line_events(stream, line@),
{
    let mut r: Vec<CliTaskPayload> = Vec::new();
    if let Some(prompt) = parse_confirm_line(line.as_str()) {
        r.push(CliTaskPayload { task_id, kind: string_from("confirm"), text: Some(prompt), exit_code: None });
    }
    let kind = match stream {
        OutputStream::Stdout => string_from("stdout"),
        OutputStream::Stderr => string_from("stderr"),
    };
    r.push(CliTaskPayload { task_id, kind, text: Some(line), exit_code: None });
    assert(r@.map_values(|p: CliTaskPayload| event_of(p)) =~= line_events(stream, line@));
    r
}

/// The end of a task, with its exit code when the process gave one.
pub fn done_payload(task_id: u64, exit_code: Option<i32>) -> (p: CliTaskPayload)
    ensures
        p.task_id == task_id,
        p.kind@ == "done"@,
        p.text is None,
        p.exit_code == exit_code,
        event_of(p) == ("done"@, None::<Seq<char>>, exit_code),
{
    CliTaskPayload { task_id, kind: string_from("done"), text: None, exit_code }
}

/// The end of a task stopped by the user: exit code -1.
pub fn aborted_payload(task_id: u64) -> (p: CliTaskPayload)
    ensures
        p.task_id == task_id,
        p.kind@ == "done"@,
        p.text matches Some(t) && t@ == "已中止"@,
        p.exit_code == Some(-1i32),
{
    CliTaskPayload { task_id, kind: string_from("done"), text: Some(string_from("已中止")), exit_code: Some(-1) }
}

/// A line for the command's standard input, ending in a newline.
pub fn stdin_line(line: String) -> (r: String)
    ensures
        r@ == if ends_with(line@, "\n"@) {
            line@
        } else {
            line@.push('\n')
        },
{
    let v = chars_of(line.as_str());
    if ends_with_str(&v, "\n") {
        return line;
    }
    let mut w = v;
    w.push('\n');
    string_of(w.as_slice())
}

/// The answer written for a confirmation.
pub fn confirm_answer(accept: bool) -> (r: &'static str)
    ensures
        r@ == if accept {
            "y"@
        } else {
            "n"@
        },
{
    if accept {
        "y"
    } else {
        "n"
    }
}

/// Task ids and the task that runs (at most one).
pub struct CliRegistry {
    next_id: u64,
    running: Option<u64>,
}

pub struct RegistryView {
    pub next_id: u64,
    pub running: Option<u64>,
}

impl View for CliRegistry {
    type V = RegistryView;

    closed spec fn view(&self) -> RegistryView {
        RegistryView { next_id: self.next_id, running: self.running }
    }
}

/// The id after `id` (ids wrap around at the top of `u64`).
pub open spec fn next_after(id: u64) -> u64 {
    if id == u64::MAX {
        0
    } else {
        (id + 1) as u64
    }
}

/// A task is started: it takes the next id and is the one that runs.
pub open spec fn after_start(v: RegistryView) -> (RegistryView, u64) {
    (RegistryView { next_id: next_after(v.next_id), running: Some(v.next_id) }, v.next_id)
}

/// Task `id` ended by itself: it no longer runs, unless another one took its place.
pub open spec fn after_finish(v: RegistryView, id: u64) -> RegistryView {
    if v.running == Some(id) {
        RegistryView { next_id: v.next_id, running: None }
    } else {
        v
    }
}

/// The running task is stopped.
pub open spec fn after_abort(v: RegistryView) -> (RegistryView, Option<u64>) {
    (RegistryView { next_id: v.next_id, running: None }, v.running)
}

pub const NO_TASK_ERROR: &'static str = "没有运行中的 CLI 任务";

pub const STDIN_CLOSED_ERROR: &'static str = "stdin 不可用";

/// What `begin_spawn` hands back: the command to run and the task to stop first.
pub struct SpawnPlan {
    pub command: String,
    pub stop: Option<u64>,
}

/// The result of writing a line to a task's input: the write's error, else
/// the flush's (`flushed` is `None` only when the write failed and no flush
/// was tried), else success.
pub fn submit_outcome(written: Result<(), String>, flushed: Option<Result<(), String>>) -> (r: Result<
    (),
    String,
>)
    ensures
        written matches Err(e) ==> r == Err::<(), String>(e),
        written is Ok ==> r == match flushed {
            Some(Err(e)) => Err::<(), String>(e),
            _ => Ok::<(), String>(()),
        },
{
    match written {
        Err(e) => Err(e),
        Ok(()) => match flushed {
            Some(Err(e)) => Err(e),
            _ => Ok(()),
        },
    }
}

impl CliRegistry {
    pub fn new() -> (r: Self)
        ensures
            r@.next_id == 1,
            r@.running is None,
    {
        CliRegistry { next_id: 1, running: None }
    }

    /// A task was spawned: it takes the next id and becomes the one that
    /// runs. Returns its id and the task it displaced, if one was still
    /// running (`begin_spawn` stops it first, so there is none after it).
    pub fn start(&mut self) -> (r: (u64, Option<u64>))
        ensures
            (final(self)@, r.0) == after_start(old(self)@),
            r.1 == old(self)@.running,
    {
        let displaced = self.running;
        let id = self.next_id;
        self.next_id = if self.next_id == u64::MAX {
            0
        } else {
            self.next_id + 1
        };
        self.running = Some(id);
        (id, displaced)
    }

    /// The first step of running `command`: the trimmed command, refused when
    /// empty (nothing changes then); otherwise the running task, if any, is
    /// stopped here and returned, to be killed and waited for before the new
    /// command is spawned.
    pub fn begin_spawn(&mut self, command: &str) -> (r: Result<SpawnPlan, String>)
        ensures
            trim(command@).len() == 0 <==> r is Err,
            r matches Err(e) ==> e@ == "命令为空"@ && final(self)@ == old(self)@,
            r matches Ok(plan) ==> plan.command@ == trim(command@) && plan.stop == old(self)@.running
                && final(self)@ == after_abort(old(self)@).0,
    {
        match prepare_command(command) {
            Err(e) => Err(e),
            Ok(c) => {
                let stop = self.abort();
                Ok(SpawnPlan { command: c, stop })
            },
        }
    }

    /// Where a line for the running task's standard input goes: the text to
    /// write (the line with its newline), or the error when no task runs or
    /// its input is closed (`stdin_open` is false).
    pub fn submit_stdin(&self, stdin_open: bool, line: String) -> (r: Result<String, String>)
        ensures
            self@.running is None ==> (r matches Err(e) && e@ == NO_TASK_ERROR@),
            self@.running is Some && !stdin_open ==> (r matches Err(e) && e@ == STDIN_CLOSED_ERROR@),
            self@.running is Some && stdin_open ==> (r matches Ok(t) && t@ == (if ends_with(line@, "\n"@) {
                line@
            } else {
                line@.push('\n')
            })),
    {
        if self.running.is_none() {
            return Err(string_from(NO_TASK_ERROR));
        }
        if !stdin_open {
            return Err(string_from(STDIN_CLOSED_ERROR));
        }
        Ok(stdin_line(line))
    }

    pub fn finish(&mut self, id: u64)
        ensures
            final(self)@ == after_finish(old(self)@, id),
    {
        if self.running == Some(id) {
            self.running = None;
        }
    }

    /// Stops the running task; returns its id, to report it as ended.
    pub fn abort(&mut self) -> (r: Option<u64>)
        ensures
            (final(self)@, r) == after_abort(old(self)@),
    {
        let r = self.running;
        self.running = None;
        r
    }

    /// The task whose input a line goes to; an error when none runs.
    pub fn stdin_target(&self) -> (r: Result<u64, String>)
        ensures
            match self@.running {
                Some(id) => r == Ok::<u64, String>(id),
                None => r matches Err(e) && e@ == NO_TASK_ERROR@,
            },
    {
        match self.running {
            Some(id) => Ok(id),
            None => Err(string_from(NO_TASK_ERROR)),
        }
    }
}

/// The end of an earlier task never stops the one started after it.
pub proof fn law_stale_finish_keeps_newer_task(v: RegistryView, old_id: u64)
    requires
        old_id != v.next_id,
    ensures
        after_finish(after_start(v).0, old_id).running == Some(after_start(v).1),
{
}

/// A task that ends by itself is no longer running, and is not reported again by an abort.
pub proof fn law_finished_task_is_not_aborted(v: RegistryView)
    ensures
        after_abort(after_finish(after_start(v).0, after_start(v).1)).1 is None,
{
}

/// Two tasks started one after the other get different ids.
/// A call on the registry, as a law speaks of sequences of them.
pub enum RegistryOp {
    Start,
    Finish(u64),
    Abort,
}

pub open spec fn apply_op(v: RegistryView, op: RegistryOp) -> RegistryView {
    match op {
        RegistryOp::Start => after_start(v).0,
        RegistryOp::Finish(id) => after_finish(v, id),
        RegistryOp::Abort => after_abort(v).0,
    }
}

/// The registry after the calls `ops`, in order.
pub open spec fn run_ops(v: RegistryView, ops: Seq<RegistryOp>) -> RegistryView
    decreases ops.len(),
{
    if ops.len() == 0 {
        v
    } else {
        apply_op(run_ops(v, ops.drop_last()), ops.last())
    }
}

/// The ids that the starts among `ops` returned, in order.
pub open spec fn started_ids(v: RegistryView, ops: Seq<RegistryOp>) -> Seq<u64>
    decreases ops.len(),
{
    if ops.len() == 0 {
        Seq::empty()
    } else {
        let before = started_ids(v, ops.drop_last());
        match ops.last() {
            RegistryOp::Start => before.push(after_start(run_ops(v, ops.drop_last())).1),
            _ => before,
        }
    }
}

pub open spec fn start_count(ops: Seq<RegistryOp>) -> nat
    decreases ops.len(),
{
    if ops.len() == 0 {
        0
    } else {
        start_count(ops.drop_last()) + if ops.last() is Start {
            1nat
        } else {
            0nat
        }
    }
}

/// Task ids keep growing: over any run of calls in which the counter does not
/// pass the top of `u64`, each started task gets a larger id than every task
/// started before it, the ids count up from the counter one by one, and a
/// started task is the one that runs until it ends or is stopped.
pub proof fn law_task_ids_grow(v: RegistryView, ops: Seq<RegistryOp>)
    requires
        v.next_id + start_count(ops) <= u64::MAX,
    ensures
        ({
            let ids = started_ids(v, ops);
            &&& ids.len() == start_count(ops)
            &&& run_ops(v, ops).next_id == v.next_id + start_count(ops)
            &&& forall|i: int| 0 <= i < ids.len() ==> ids[i] == v.next_id + i
            &&& forall|i: int, j: int| 0 <= i < j < ids.len() ==> ids[i] < ids[j]
            &&& ops.len() > 0 && ops.last() is Start ==> run_ops(v, ops).running == Some(ids.last())
        }),
    decreases ops.len(),
{
    if ops.len() > 0 {
        let rest = ops.drop_last();
        assert(start_count(rest) <= start_count(ops));
        law_task_ids_grow(v, rest);
    }
}

pub proof fn law_task_ids_differ(v: RegistryView)
    ensures
        after_start(after_start(v).0).1 != after_start(v).1,
{
}

} // verus!
