//! Laws of the manager's transition system and of the dispatcher.
//!
//! Each proof function here states one guarantee of the library over the
//! model transitions that the executable operations are specified against,
//! so the guarantee holds of every run of the executable code.

use vstd::prelude::*;

use crate::events::EventV;
use crate::json::json_of;
use crate::manager::{
    spec_kill, spec_note_written, spec_observe_id, spec_plan, spec_promote, spec_register,
    spec_stderr_line, spec_stdout_line, ManagerModel, SendPlanV, SpawnOptionsV,
};
use crate::parser::spec_events_of_line;
use crate::status::ProcessStatus;
use crate::text::spec_trim;

verus! {

/// A respawn leaves exactly one process record for the handle: the kill
/// step removes whatever record existed, and the registration binds the
/// handle to the single fresh record, with a fresh instance number and no
/// other session touched.
pub proof fn lemma_respawn_single_record(m: ManagerModel, o: SpawnOptionsV)
    ensures
        ({
            let killed = spec_kill(m, o.session_id).0;
            let (m2, inst) = spec_register(killed, o);
            &&& !killed.procs.contains_key(o.session_id)
            &&& m2.procs.contains_key(o.session_id)
            &&& m2.procs[o.session_id].instance == inst
            &&& forall|k: Seq<char>| k != o.session_id ==> (#[trigger] m2.procs.contains_key(k)
                <==> m.procs.contains_key(k))
        }),
{
}

/// Sending a first message to a freshly created session writes to the
/// originally spawned process's input pipe and does not respawn: after
/// registration and promotion to `Running`, the plan for the session is
/// exactly a write to the registered instance.
pub proof fn lemma_first_message_writes_to_spawned_pipe(
    m: ManagerModel,
    o: SpawnOptionsV,
    fallback: Seq<char>,
)
    ensures
        ({
            let (m1, inst) = spec_register(m, o);
            let m2 = spec_promote(m1, o.session_id).0;
            spec_plan(m2, o.session_id, fallback) == SendPlanV::WriteExisting { instance: inst }
        }),
{
}

/// Once a session's input pipe has been used up, the next message plans
/// exactly one kill-then-respawn cycle: the old record's instance is the
/// one to kill, its removal leaves no record behind, and the resume
/// directive equals the recorded conversation identifier — or the session
/// handle itself if none was ever recorded.
pub proof fn lemma_second_message_respawns(m: ManagerModel, sid: Seq<char>, fallback: Seq<char>)
    requires
        m.procs.contains_key(sid),
    ensures
        ({
            let m1 = spec_note_written(m, sid);
            &&& spec_plan(m1, sid, fallback) == SendPlanV::Respawn {
                project_path: m.procs[sid].project_path,
                resume_id: if m.ids.contains_key(sid) {
                    m.ids[sid]
                } else {
                    sid
                },
            }
            &&& spec_kill(m1, sid).1 == Some(m.procs[sid].instance)
            &&& !spec_kill(m1, sid).0.procs.contains_key(sid)
        }),
{
}

/// The conversation-id-resolved event fires at most once per session: after
/// one observation, a later sighting publishes nothing and changes nothing,
/// whatever identifier it carries.
pub proof fn lemma_conversation_id_resolved_once(
    m: ManagerModel,
    sid: Seq<char>,
    e1: Seq<char>,
    e2: Seq<char>,
)
    ensures
        ({
            let (m1, ev1) = spec_observe_id(m, sid, e1);
            let (m2, ev2) = spec_observe_id(m1, sid, e2);
            &&& m1.ids.contains_key(sid)
            &&& ev2 == Seq::<EventV>::empty()
            &&& m2 == m1
        }),
{
}

/// A line that is not valid structured data never emits any event and
/// never changes the manager's state; because the dispatcher is a function
/// of the line alone, later lines are unaffected.  (That it never crashes
/// the reader is the dispatcher's verified freedom from panics.)
pub proof fn lemma_malformed_line_is_inert(m: ManagerModel, sid: Seq<char>, line: Seq<char>)
    requires
        json_of(line) is None,
        json_of(spec_trim(line)) is None,
    ensures
        spec_events_of_line(sid, line) == Seq::<EventV>::empty(),
        spec_stdout_line(m, sid, line) == (m, Seq::<EventV>::empty()),
{
    assert(spec_stdout_line(m, sid, line).1 =~= Seq::<EventV>::empty());
}

/// Standard error while the process is live promotes the status to `Error`
/// and publishes the error status exactly once: a second stderr line only
/// republishes its text, and leaves the state unchanged.
pub proof fn lemma_stderr_error_published_once(
    m: ManagerModel,
    sid: Seq<char>,
    t1: Seq<char>,
    t2: Seq<char>,
)
    requires
        m.procs.contains_key(sid),
        m.procs[sid].status.spec_is_live(),
    ensures
        ({
            let (m1, ev1) = spec_stderr_line(m, sid, t1);
            let (m2, ev2) = spec_stderr_line(m1, sid, t2);
            &&& m1.procs[sid].status == ProcessStatus::Error
            &&& ev1 == seq![
                EventV::StderrLine { session_id: sid, text: t1 },
                EventV::SessionStatus { session_id: sid, status: ProcessStatus::Error },
            ]
            &&& ev2 == seq![EventV::StderrLine { session_id: sid, text: t2 }]
            &&& m2 == m1
        }),
{
    let (m1, ev1) = spec_stderr_line(m, sid, t1);
    assert(ev1 =~= seq![
        EventV::StderrLine { session_id: sid, text: t1 },
        EventV::SessionStatus { session_id: sid, status: ProcessStatus::Error },
    ]);
}

} // verus!
