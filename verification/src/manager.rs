//! The process manager: one session handle, at most one live child process.
//!
//! The child CLI is single-turn: it reads one prompt on stdin, answers, and
//! exits.  A conversation therefore lives across many processes, and this
//! manager decides when to write into an existing pipe and when to kill and
//! respawn with a resume directive.  Everything here is the decision and
//! bookkeeping half: the caller performs the actual process I/O and feeds
//! the outcomes back in (a spawn that succeeded, a line that arrived, a
//! stream that closed), and forwards the returned events to listeners.
//!
//! The two registries — process records and discovered conversation
//! identifiers — are modelled by [`ManagerModel`], and every operation's
//! contract says exactly which model it leaves behind and which events it
//! publishes.

use vstd::prelude::*;

use crate::events::{Event, EventV};
use crate::json::{json_of, parse_json};
use crate::parser::{field_str, spec_events_of_line, StreamParser};
use crate::registry::Registry;
use crate::status::ProcessStatus;

verus! {

/// The view of an `Option<String>`.
pub open spec fn opt_view(o: Option<String>) -> Option<Seq<char>> {
    match o {
        Some(s) => Some(s@),
        None => None,
    }
}

/// What one session knows of its current child process.
#[derive(Debug, Clone, PartialEq)]
pub struct ProcessRecord {
    /// Distinguishes this process instance from every earlier and later one.
    pub instance: u64,
    /// Whether the stdin write end is still open.  It is closed after the
    /// turn's message is written and never reused.
    pub stdin_open: bool,
    /// The working directory the process was launched in.
    pub project_path: String,
    pub status: ProcessStatus,
}

/// Mathematical image of a [`ProcessRecord`].
pub struct RecordV {
    pub instance: u64,
    pub stdin_open: bool,
    pub project_path: Seq<char>,
    pub status: ProcessStatus,
}

impl View for ProcessRecord {
    type V = RecordV;

    open spec fn view(&self) -> RecordV {
        RecordV {
            instance: self.instance,
            stdin_open: self.stdin_open,
            project_path: self.project_path@,
            status: self.status,
        }
    }
}

/// What a spawn is asked to do.
#[derive(Debug, Clone, PartialEq)]
pub struct SpawnOptions {
    pub session_id: String,
    pub project_path: String,
    /// An explicitly supplied binary path; the caller probes for one
    /// otherwise.
    pub claude_cli_path: Option<String>,
    /// The external conversation identifier to resume, if any.
    pub resume_session_id: Option<String>,
    /// A model override, if any.
    pub model: Option<String>,
}

/// Mathematical image of [`SpawnOptions`].
pub struct SpawnOptionsV {
    pub session_id: Seq<char>,
    pub project_path: Seq<char>,
    pub claude_cli_path: Option<Seq<char>>,
    pub resume_session_id: Option<Seq<char>>,
    pub model: Option<Seq<char>>,
}

impl View for SpawnOptions {
    type V = SpawnOptionsV;

    open spec fn view(&self) -> SpawnOptionsV {
        SpawnOptionsV {
            session_id: self.session_id@,
            project_path: self.project_path@,
            claude_cli_path: opt_view(self.claude_cli_path),
            resume_session_id: opt_view(self.resume_session_id),
            model: opt_view(self.model),
        }
    }
}

/// How a message must reach a session.
#[derive(Debug, Clone, PartialEq)]
pub enum SendPlan {
    /// The current process has an open input pipe: write there.
    WriteExisting { instance: u64 },
    /// Kill whatever is left and spawn afresh in `project_path`, resuming
    /// the conversation `resume_id`.
    Respawn { project_path: String, resume_id: String },
}

/// Mathematical image of a [`SendPlan`].
pub enum SendPlanV {
    WriteExisting { instance: u64 },
    Respawn { project_path: Seq<char>, resume_id: Seq<char> },
}

impl View for SendPlan {
    type V = SendPlanV;

    open spec fn view(&self) -> SendPlanV {
        match self {
            SendPlan::WriteExisting { instance } => SendPlanV::WriteExisting {
                instance: *instance,
            },
            SendPlan::Respawn { project_path, resume_id } => SendPlanV::Respawn {
                project_path: project_path@,
                resume_id: resume_id@,
            },
        }
    }
}

/// The manager's whole observable state: the process registry, the
/// conversation identifier map, and the next fresh instance number.
pub struct ManagerModel {
    pub procs: Map<Seq<char>, RecordV>,
    pub ids: Map<Seq<char>, Seq<char>>,
    pub next_instance: u64,
}

/// Every recorded instance was handed out before `next_instance`, so a
/// fresh instance number never collides with a recorded one.
pub open spec fn model_wf(m: ManagerModel) -> bool {
    forall|k: Seq<char>| #[trigger]
        m.procs.contains_key(k) ==> m.procs[k].instance < m.next_instance
}

/// The model a fresh manager starts from.
pub open spec fn init_model() -> ManagerModel {
    ManagerModel { procs: Map::empty(), ids: Map::empty(), next_instance: 0 }
}

/// Registering a spawned process: a fresh record in `Starting` with an open
/// pipe; a supplied resume identifier seeds the conversation map at once.
pub open spec fn spec_register(m: ManagerModel, o: SpawnOptionsV) -> (ManagerModel, u64) {
    let inst = m.next_instance;
    let rec = RecordV {
        instance: inst,
        stdin_open: true,
        project_path: o.project_path,
        status: ProcessStatus::Starting,
    };
    let ids = match o.resume_session_id {
        Some(r) => m.ids.insert(o.session_id, r),
        None => m.ids,
    };
    (
        ManagerModel {
            procs: m.procs.insert(o.session_id, rec),
            ids,
            next_instance: (m.next_instance + 1) as u64,
        },
        inst,
    )
}

/// Promoting a session to `Running` once its readers are attached; the
/// status event is published whether or not the record still exists.
pub open spec fn spec_promote(m: ManagerModel, sid: Seq<char>) -> (ManagerModel, Seq<EventV>) {
    let ev = seq![EventV::SessionStatus { session_id: sid, status: ProcessStatus::Running }];
    if m.procs.contains_key(sid) {
        let rec = RecordV { status: ProcessStatus::Running, ..m.procs[sid] };
        (ManagerModel { procs: m.procs.insert(sid, rec), ..m }, ev)
    } else {
        (m, ev)
    }
}

/// A respawn is needed when there is nothing to write to: no record, a
/// pipe already used up, or a process that completed its turn.
pub open spec fn spec_needs_respawn(m: ManagerModel, sid: Seq<char>) -> bool {
    !m.procs.contains_key(sid) || !m.procs[sid].stdin_open || m.procs[sid].status
        == ProcessStatus::Completed
}

/// Where a message must go: the open pipe, or a respawn whose working
/// directory prefers the existing record over the caller's fallback, and
/// whose resume identifier prefers the mapped conversation identifier over
/// the session handle itself (a session discovered from logs was created
/// with its handle equal to that identifier).
pub open spec fn spec_plan(m: ManagerModel, sid: Seq<char>, fallback: Seq<char>) -> SendPlanV {
    if !spec_needs_respawn(m, sid) {
        SendPlanV::WriteExisting { instance: m.procs[sid].instance }
    } else {
        SendPlanV::Respawn {
            project_path: if m.procs.contains_key(sid) {
                m.procs[sid].project_path
            } else {
                fallback
            },
            resume_id: if m.ids.contains_key(sid) {
                m.ids[sid]
            } else {
                sid
            },
        }
    }
}

/// A message was written and the pipe shut down: the write end is gone for
/// good, so the next message re-evaluates the respawn question.
pub open spec fn spec_note_written(m: ManagerModel, sid: Seq<char>) -> ManagerModel {
    if m.procs.contains_key(sid) {
        let rec = RecordV { stdin_open: false, ..m.procs[sid] };
        ManagerModel { procs: m.procs.insert(sid, rec), ..m }
    } else {
        m
    }
}

/// Killing a session: the record goes unconditionally, absence is a no-op,
/// and the caller terminates the returned instance if there was one.
pub open spec fn spec_kill(m: ManagerModel, sid: Seq<char>) -> (ManagerModel, Option<u64>) {
    if m.procs.contains_key(sid) {
        (
            ManagerModel { procs: m.procs.remove(sid), ..m },
            Some(m.procs[sid].instance),
        )
    } else {
        (m, None)
    }
}

/// Seeing the external conversation identifier in the output stream: only
/// the first sighting writes the map and publishes, so the resolved event
/// fires at most once per session.
pub open spec fn spec_observe_id(m: ManagerModel, sid: Seq<char>, ext: Seq<char>) -> (
    ManagerModel,
    Seq<EventV>,
) {
    if m.ids.contains_key(sid) {
        (m, Seq::empty())
    } else {
        (
            ManagerModel { ids: m.ids.insert(sid, ext), ..m },
            seq![EventV::ConversationIdResolved { session_id: sid, external_id: ext }],
        )
    }
}

/// The stdout stream reached its end: the process completed its turn.  The
/// record may already be gone (a kill raced the reader); the completion
/// event is published either way, and a missing record is left missing.
pub open spec fn spec_complete(m: ManagerModel, sid: Seq<char>) -> (ManagerModel, Seq<EventV>) {
    let ev = seq![EventV::SessionStatus { session_id: sid, status: ProcessStatus::Completed }];
    if m.procs.contains_key(sid) {
        let rec = RecordV { status: ProcessStatus::Completed, ..m.procs[sid] };
        (ManagerModel { procs: m.procs.insert(sid, rec), ..m }, ev)
    } else {
        (m, ev)
    }
}

/// One stderr line: always republished raw; if the process was still live
/// (`Starting` or `Running`), its status becomes `Error` and an error
/// status event is published — once, since the status is then no longer
/// live.
pub open spec fn spec_stderr_line(m: ManagerModel, sid: Seq<char>, text: Seq<char>) -> (
    ManagerModel,
    Seq<EventV>,
) {
    let raw = seq![EventV::StderrLine { session_id: sid, text }];
    if m.procs.contains_key(sid) && m.procs[sid].status.spec_is_live() {
        let rec = RecordV { status: ProcessStatus::Error, ..m.procs[sid] };
        (
            ManagerModel { procs: m.procs.insert(sid, rec), ..m },
            raw + seq![
                EventV::SessionStatus { session_id: sid, status: ProcessStatus::Error },
            ],
        )
    } else {
        (m, raw)
    }
}

/// The external conversation identifier a raw output line carries at its
/// top level, if it parses and has one.
pub open spec fn spec_line_ext_id(line: Seq<char>) -> Option<Seq<char>> {
    match json_of(line) {
        Some(v) => field_str(v, "session_id"@),
        None => None,
    }
}

/// One stdout line: capture the conversation identifier if this is its
/// first sighting, then dispatch the line into events.
pub open spec fn spec_stdout_line(m: ManagerModel, sid: Seq<char>, line: Seq<char>) -> (
    ManagerModel,
    Seq<EventV>,
) {
    let step = match spec_line_ext_id(line) {
        Some(ext) => spec_observe_id(m, sid, ext),
        None => (m, Seq::<EventV>::empty()),
    };
    (step.0, step.1 + spec_events_of_line(sid, line))
}

/// The CLI arguments of one spawn: single-turn prompt mode with structured
/// streaming output, then the resume directive and the model override when
/// supplied.
pub open spec fn spec_spawn_args(resume: Option<Seq<char>>, model: Option<Seq<char>>) -> Seq<
    Seq<char>,
> {
    let base = seq![
        "-p"@,
        "--output-format"@,
        "stream-json"@,
        "--verbose"@,
        "--include-partial-messages"@,
    ];
    let r = match resume {
        Some(id) => seq!["--resume"@, id],
        None => Seq::<Seq<char>>::empty(),
    };
    let mo = match model {
        Some(mm) => seq!["--model"@, mm],
        None => Seq::<Seq<char>>::empty(),
    };
    base + r + mo
}

/// The argument list a spawn passes to the child binary.
pub fn spawn_args(opts: &SpawnOptions) -> (r: Vec<String>)
    ensures
        r.deep_view() == spec_spawn_args(opts@.resume_session_id, opts@.model),
{
    let mut r: Vec<String> = Vec::new();
    r.push(String::from_str("-p"));
    r.push(String::from_str("--output-format"));
    r.push(String::from_str("stream-json"));
    r.push(String::from_str("--verbose"));
    r.push(String::from_str("--include-partial-messages"));
    match &opts.resume_session_id {
        Some(id) => {
            r.push(String::from_str("--resume"));
            r.push(id.clone());
        },
        None => {},
    }
    match &opts.model {
        Some(m) => {
            r.push(String::from_str("--model"));
            r.push(m.clone());
        },
        None => {},
    }
    proof {
        assert(r.deep_view() =~~= spec_spawn_args(opts@.resume_session_id, opts@.model));
    }
    r
}

/// The environment variables removed before a spawn, so that the child
/// tool does not refuse to run nested under another of its own sessions.
pub fn suppressed_env_vars() -> (r: Vec<String>)
    ensures
        r.deep_view() == seq!["CLAUDECODE"@, "CLAUDE_CODE_ENTRY_POINT"@],
{
    let mut r: Vec<String> = Vec::new();
    r.push(String::from_str("CLAUDECODE"));
    r.push(String::from_str("CLAUDE_CODE_ENTRY_POINT"));
    proof {
        assert(r.deep_view() =~~= seq!["CLAUDECODE"@, "CLAUDE_CODE_ENTRY_POINT"@]);
    }
    r
}

/// Tracks every session's current child process and the external
/// conversation identifiers discovered for them.
pub struct ProcessManager {
    processes: Registry<ProcessRecord>,
    claude_ids: Registry<String>,
    next_instance: u64,
}

impl ProcessManager {
    /// The manager's observable state.
    pub closed spec fn model(&self) -> ManagerModel {
        ManagerModel {
            procs: self.processes@,
            ids: self.claude_ids@,
            next_instance: self.next_instance,
        }
    }

    pub closed spec fn wf(&self) -> bool {
        self.processes.wf() && self.claude_ids.wf() && model_wf(self.model())
    }

    pub fn new() -> (r: Self)
        ensures
            r.wf(),
            r.model() == init_model(),
    {
        let r = ProcessManager {
            processes: Registry::new(),
            claude_ids: Registry::new(),
            next_instance: 0,
        };
        proof {
            assert(r.model().procs =~= init_model().procs);
            assert(r.model().ids =~= init_model().ids);
        }
        r
    }

    /// Whether every instance number has been handed out;
    /// `register_process` demands headroom, so a caller tests this first.
    pub fn instances_exhausted(&self) -> (r: bool)
        ensures
            r == (self.model().next_instance == u64::MAX),
    {
        self.next_instance == u64::MAX
    }

    /// Record a process the caller has just spawned for `opts`.  Returns
    /// the fresh instance number under which the caller files the child's
    /// handles.
    pub fn register_process(&mut self, opts: &SpawnOptions) -> (inst: u64)
        requires
            old(self).wf(),
            old(self).model().next_instance < u64::MAX,
        ensures
            final(self).wf(),
            final(self).model() == spec_register(old(self).model(), opts@).0,
            inst == spec_register(old(self).model(), opts@).1,
    {
        let inst = self.next_instance;
        match &opts.resume_session_id {
            Some(claude_sid) => {
                self.claude_ids.insert(opts.session_id.clone(), claude_sid.clone());
            },
            None => {},
        }
        let record = ProcessRecord {
            instance: inst,
            stdin_open: true,
            project_path: opts.project_path.clone(),
            status: ProcessStatus::Starting,
        };
        self.processes.insert(opts.session_id.clone(), record);
        self.next_instance = self.next_instance + 1;
        inst
    }

    /// Promote a just-registered session to `Running` and publish its
    /// status.
    pub fn promote_to_running(&mut self, session_id: &str) -> (ev: Vec<Event>)
        requires
            old(self).wf(),
        ensures
            final(self).wf(),
            final(self).model() == spec_promote(old(self).model(), session_id@).0,
            ev.deep_view() == spec_promote(old(self).model(), session_id@).1,
    {
        self.set_status(session_id, ProcessStatus::Running)
    }

    /// Replace the status of an existing record and publish the new status;
    /// a missing record only publishes.
    fn set_status(&mut self, session_id: &str, status: ProcessStatus) -> (ev: Vec<Event>)
        requires
            old(self).wf(),
        ensures
            final(self).wf(),
            final(self).model().ids == old(self).model().ids,
            final(self).model().next_instance == old(self).model().next_instance,
            final(self).model().procs == if old(self).model().procs.contains_key(session_id@) {
                old(self).model().procs.insert(
                    session_id@,
                    RecordV { status, ..old(self).model().procs[session_id@] },
                )
            } else {
                old(self).model().procs
            },
            ev.deep_view() == seq![
                EventV::SessionStatus { session_id: session_id@, status },
            ],
    {
        match self.processes.remove(session_id) {
            Some(rec) => {
                let updated = ProcessRecord { status, ..rec };
                self.processes.insert(session_id.to_owned(), updated);
                proof {
                    assert(self.model().procs =~= old(self).model().procs.insert(
                        session_id@,
                        RecordV { status, ..old(self).model().procs[session_id@] },
                    ));
                }
            },
            None => {},
        }
        let mut ev: Vec<Event> = Vec::new();
        ev.push(Event::SessionStatus { session_id: session_id.to_owned(), status });
        proof {
            assert(ev.deep_view() =~~= seq![
                EventV::SessionStatus { session_id: session_id@, status },
            ]);
        }
        ev
    }

    /// Decide how a message reaches this session, without changing
    /// anything.  A respawn plan can always be formed: a session that never
    /// recorded an identifier is resumed under its own handle.
    pub fn plan_send(&self, session_id: &str, fallback_path: &str) -> (r: SendPlan)
        requires
            self.wf(),
        ensures
            r@ == spec_plan(self.model(), session_id@, fallback_path@),
    {
        match self.processes.get(session_id) {
            Some(rec) => {
                if rec.stdin_open && !(rec.status == ProcessStatus::Completed) {
                    return SendPlan::WriteExisting { instance: rec.instance };
                }
            },
            None => {},
        }
        let project_path = match self.processes.get(session_id) {
            Some(rec) => rec.project_path.clone(),
            None => fallback_path.to_owned(),
        };
        let resume_id = match self.claude_ids.get(session_id) {
            Some(id) => id.clone(),
            None => session_id.to_owned(),
        };
        SendPlan::Respawn { project_path, resume_id }
    }

    /// The message of this turn went out and the pipe was shut down.
    pub fn note_message_written(&mut self, session_id: &str)
        requires
            old(self).wf(),
        ensures
            final(self).wf(),
            final(self).model() == spec_note_written(old(self).model(), session_id@),
    {
        match self.processes.remove(session_id) {
            Some(rec) => {
                let updated = ProcessRecord { stdin_open: false, ..rec };
                self.processes.insert(session_id.to_owned(), updated);
                proof {
                    assert(self.model().procs =~= spec_note_written(
                        old(self).model(),
                        session_id@,
                    ).procs);
                }
            },
            None => {
                proof {
                    assert(self.model().procs =~= old(self).model().procs);
                }
            },
        }
    }

    /// Drop the session's record.  The caller terminates the returned
    /// instance; a session without a record is a successful no-op.
    pub fn kill(&mut self, session_id: &str) -> (r: Option<u64>)
        requires
            old(self).wf(),
        ensures
            final(self).wf(),
            final(self).model() == spec_kill(old(self).model(), session_id@).0,
            r == spec_kill(old(self).model(), session_id@).1,
    {
        match self.processes.remove(session_id) {
            Some(rec) => {
                proof {
                    assert(self.model().procs =~= old(self).model().procs.remove(session_id@));
                }
                Some(rec.instance)
            },
            None => {
                proof {
                    assert(self.model().procs =~= old(self).model().procs);
                }
                None
            },
        }
    }

    /// The status of the session's current process, if it has one.
    pub fn get_status(&self, session_id: &str) -> (r: Option<ProcessStatus>)
        requires
            self.wf(),
        ensures
            r == if self.model().procs.contains_key(session_id@) {
                Some(self.model().procs[session_id@].status)
            } else {
                None::<ProcessStatus>
            },
    {
        match self.processes.get(session_id) {
            Some(rec) => Some(rec.status),
            None => None,
        }
    }

    /// The external conversation identifier known for this session, if any.
    pub fn get_claude_session_id(&self, session_id: &str) -> (r: Option<String>)
        requires
            self.wf(),
        ensures
            match r {
                Some(s) => self.model().ids.contains_key(session_id@) && s@
                    == self.model().ids[session_id@],
                None => !self.model().ids.contains_key(session_id@),
            },
    {
        match self.claude_ids.get(session_id) {
            Some(id) => Some(id.clone()),
            None => None,
        }
    }

    /// Record an external conversation identifier for a session that is
    /// being loaded from storage, overwriting any earlier one.
    pub fn register_claude_session_id(&mut self, session_id: &str, claude_session_id: String)
        requires
            old(self).wf(),
        ensures
            final(self).wf(),
            final(self).model().ids == old(self).model().ids.insert(
                session_id@,
                claude_session_id@,
            ),
            final(self).model().procs == old(self).model().procs,
            final(self).model().next_instance == old(self).model().next_instance,
    {
        self.claude_ids.insert(session_id.to_owned(), claude_session_id);
    }

    /// Whether the session's process may still take a turn.
    pub fn is_active(&self, session_id: &str) -> (r: bool)
        requires
            self.wf(),
        ensures
            r == (self.model().procs.contains_key(session_id@)
                && self.model().procs[session_id@].status.spec_is_active()),
    {
        match self.processes.get(session_id) {
            Some(rec) => rec.status.is_active(),
            None => false,
        }
    }

    /// All session handles that currently hold a process record, each
    /// exactly once.
    pub fn active_sessions(&self) -> (r: Vec<String>)
        requires
            self.wf(),
        ensures
            forall|k: Seq<char>| #[trigger]
                self.model().procs.contains_key(k) <==> r.deep_view().contains(k),
            forall|i: int, j: int| 0 <= i < j < r.deep_view().len() ==> r.deep_view()[i]
                != r.deep_view()[j],
    {
        self.processes.keys()
    }

    /// The output stream carried the external conversation identifier:
    /// record and publish it the first time, do nothing later.
    pub fn observe_conversation_id(&mut self, session_id: &str, ext_id: String) -> (ev: Vec<
        Event,
    >)
        requires
            old(self).wf(),
        ensures
            final(self).wf(),
            final(self).model() == spec_observe_id(old(self).model(), session_id@, ext_id@).0,
            ev.deep_view() == spec_observe_id(old(self).model(), session_id@, ext_id@).1,
    {
        let mut ev: Vec<Event> = Vec::new();
        if !self.claude_ids.contains(session_id) {
            self.claude_ids.insert(session_id.to_owned(), ext_id.clone());
            ev.push(
                Event::ConversationIdResolved {
                    session_id: session_id.to_owned(),
                    external_id: ext_id,
                },
            );
            proof {
                assert(ev.deep_view() =~~= spec_observe_id(
                    old(self).model(),
                    session_id@,
                    ext_id@,
                ).1);
            }
        } else {
            proof {
                assert(ev.deep_view() =~~= Seq::<EventV>::empty());
            }
        }
        ev
    }

    /// The stdout reader saw end of stream: the turn is over.
    pub fn mark_completed(&mut self, session_id: &str) -> (ev: Vec<Event>)
        requires
            old(self).wf(),
        ensures
            final(self).wf(),
            final(self).model() == spec_complete(old(self).model(), session_id@).0,
            ev.deep_view() == spec_complete(old(self).model(), session_id@).1,
    {
        self.set_status(session_id, ProcessStatus::Completed)
    }

    /// The stderr reader saw one line.
    pub fn on_stderr_line(&mut self, session_id: &str, text: &str) -> (ev: Vec<Event>)
        requires
            old(self).wf(),
        ensures
            final(self).wf(),
            final(self).model() == spec_stderr_line(old(self).model(), session_id@, text@).0,
            ev.deep_view() == spec_stderr_line(old(self).model(), session_id@, text@).1,
    {
        let mut ev: Vec<Event> = Vec::new();
        ev.push(Event::StderrLine { session_id: session_id.to_owned(), text: text.to_owned() });
        let live = match self.processes.get(session_id) {
            Some(rec) => rec.status.is_live(),
            None => false,
        };
        if live {
            let mut status_ev = self.set_status(session_id, ProcessStatus::Error);
            ev.append(&mut status_ev);
            proof {
                assert(ev.deep_view() =~~= spec_stderr_line(
                    old(self).model(),
                    session_id@,
                    text@,
                ).1);
            }
        } else {
            proof {
                assert(ev.deep_view() =~~= spec_stderr_line(
                    old(self).model(),
                    session_id@,
                    text@,
                ).1);
            }
        }
        ev
    }

    /// The stdout reader saw one line: capture the conversation identifier
    /// on first sighting, then dispatch the line.
    pub fn handle_stdout_line(&mut self, session_id: &str, line: &str) -> (ev: Vec<Event>)
        requires
            old(self).wf(),
        ensures
            final(self).wf(),
            final(self).model() == spec_stdout_line(old(self).model(), session_id@, line@).0,
            ev.deep_view() == spec_stdout_line(old(self).model(), session_id@, line@).1,
    {
        let mut ev: Vec<Event> = Vec::new();
        match parse_json(line) {
            Some(v) => {
                match crate::parser::get_str(&v, "session_id") {
                    Some(ext) => {
                        let mut obs = self.observe_conversation_id(session_id, ext);
                        ev.append(&mut obs);
                    },
                    None => {},
                }
            },
            None => {},
        }
        let parser = StreamParser::new();
        let mut line_ev = parser.parse_line(session_id, line);
        ev.append(&mut line_ev);
        proof {
            assert(ev.deep_view() =~~= spec_stdout_line(old(self).model(), session_id@, line@).1);
        }
        ev
    }
}

} // verus!
