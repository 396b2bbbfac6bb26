//! The session controller: connect and disconnect, at most one active
//! session, and therefore at most one sampling thread. The controller
//! decides; the caller owns the actual thread handle, running flag and
//! handoff queue, and performs the demanded actions in the order the
//! contracts state — a teardown always runs to completion before a new
//! session's thread may be spawned.

use vstd::prelude::*;
use vstd::string::StringExecFns;
use crate::directory::{
    channel_label, channel_names, matches_query, match_stream, DiscoveredStream,
};

verus! {

/// Why a connect attempt was rejected. Failures after the sampling
/// thread is spawned (a failed re-resolve or inlet open inside it) are
/// logged by the thread and never surface here: the caller has already
/// received success, and the session idles silently until disconnected.
#[derive(Debug)]
pub enum SessionError {
    /// The discovery service itself failed; carries its message.
    Discovery(String),
    /// Discovery answered, but no stream matched the requested display
    /// name and source identifier.
    StreamNotFound { name: String, source_id: String },
}

impl SessionError {
    /// The message shown to the caller for this error.
    pub open spec fn message_text(&self) -> Seq<char> {
        match self {
            SessionError::Discovery(m) => "Resolve failed: "@ + m@,
            SessionError::StreamNotFound { name, source_id } => "Stream '"@ + name@
                + "' with source ID '"@ + source_id@ + "' not found"@,
        }
    }

    pub fn message(&self) -> (r: String)
        ensures
            r@ == self.message_text(),
    {
        match self {
            SessionError::Discovery(m) => {
                let mut out = String::from_str("Resolve failed: ");
                out.append(m.as_str());
                out
            },
            SessionError::StreamNotFound { name, source_id } => {
                let mut out = String::from_str("Stream '");
                out.append(name.as_str());
                out.append("' with source ID '");
                out.append(source_id.as_str());
                out.append("' not found");
                proof {
                    assert(out@ =~= self.message_text());
                }
                out
            },
        }
    }
}

/// What a teardown demands of the caller. The running flag is always
/// stored false, the handoff sender always dropped and the
/// presentation layer always told of the reset; the thread join
/// happens exactly when a sampling thread exists.
pub struct TeardownAction {
    pub join_thread: bool,
}

/// What a successful connect demands of the caller: spawn the
/// forwarding task and the sampling thread, which re-resolves and
/// re-matches the stream by hostname and source identifier (the
/// descriptor itself does not cross the thread boundary).
pub struct LaunchPlan {
    /// Index of the matched stream among those resolved.
    pub stream_index: usize,
    /// Identity the sampling thread re-matches by.
    pub hostname: String,
    pub source_id: String,
    /// Reported to the presentation layer before sampling begins.
    pub channel_count: u32,
    /// Labels shared by every batch of the session.
    pub channel_names: Vec<String>,
}

/// The controller itself. Its one datum is whether a session — and
/// with it a sampling thread — is currently registered.
pub struct SessionController {
    active: bool,
}

/// One thread-accounting step demanded of the caller.
pub enum ThreadAction {
    Join,
    Spawn,
}

/// A complete lifecycle operation, by its outcome.
pub enum SessionOp {
    Connect { launched: bool },
    Disconnect,
}

/// The thread actions a teardown demands.
pub open spec fn teardown_trace(active: bool) -> Seq<ThreadAction> {
    if active {
        seq![ThreadAction::Join]
    } else {
        Seq::<ThreadAction>::empty()
    }
}

/// The spawn a connect demands once it has succeeded.
pub open spec fn spawn_trace(launched: bool) -> Seq<ThreadAction> {
    if launched {
        seq![ThreadAction::Spawn]
    } else {
        Seq::<ThreadAction>::empty()
    }
}

/// The thread actions one operation demands of the caller, in order.
/// A connect demands exactly a disconnect's actions first, and only
/// then — on success — one spawn.
pub open spec fn op_trace(active: bool, op: SessionOp) -> Seq<ThreadAction> {
    match op {
        SessionOp::Disconnect => teardown_trace(active),
        SessionOp::Connect { launched } => teardown_trace(active) + spawn_trace(launched),
    }
}

/// Whether a session is registered after one operation.
pub open spec fn active_after(active: bool, op: SessionOp) -> bool {
    match op {
        SessionOp::Disconnect => false,
        SessionOp::Connect { launched } => launched,
    }
}

/// The threads alive that a registered session stands for.
pub open spec fn count_of(active: bool) -> int {
    if active {
        1int
    } else {
        0int
    }
}

/// How one performed action changes the number of threads alive.
pub open spec fn action_delta(a: ThreadAction) -> int {
    match a {
        ThreadAction::Join => -1,
        ThreadAction::Spawn => 1,
    }
}

/// Threads alive after performing `tr` in order, starting from `init`.
pub open spec fn alive_after(init: int, tr: Seq<ThreadAction>) -> int
    decreases tr.len(),
{
    if tr.len() == 0 {
        init
    } else {
        alive_after(init + action_delta(tr[0]), tr.drop_first())
    }
}

/// The thread actions a whole sequence of operations demands, each
/// operation's in order, from a state where `active` says whether a
/// session is registered.
pub open spec fn ops_trace(active: bool, ops: Seq<SessionOp>) -> Seq<ThreadAction>
    decreases ops.len(),
{
    if ops.len() == 0 {
        Seq::<ThreadAction>::empty()
    } else {
        op_trace(active, ops[0]) + ops_trace(active_after(active, ops[0]), ops.drop_first())
    }
}

/// Whether a session is registered after a whole sequence of
/// operations.
pub open spec fn active_after_ops(active: bool, ops: Seq<SessionOp>) -> bool
    decreases ops.len(),
{
    if ops.len() == 0 {
        active
    } else {
        active_after_ops(active_after(active, ops[0]), ops.drop_first())
    }
}

impl SessionController {
    /// Whether a session — and its sampling thread — is registered.
    pub closed spec fn is_active(&self) -> bool {
        self.active
    }

    pub fn new() -> (c: SessionController)
        ensures
            !c.is_active(),
    {
        SessionController { active: false }
    }

    /// Whether a session is currently registered.
    pub fn has_session(&self) -> (b: bool)
        ensures
            b == self.is_active(),
    {
        self.active
    }

    /// Tears the session down. With no active session this demands no
    /// join and is a no-op that still succeeds — there is no failing
    /// outcome.
    pub fn disconnect(&mut self) -> (act: TeardownAction)
        ensures
            !final(self).is_active(),
            act.join_thread == old(self).is_active(),
            teardown_trace(old(self).is_active()) == op_trace(
                old(self).is_active(),
                SessionOp::Disconnect,
            ),
    {
        let act = TeardownAction { join_thread: self.active };
        self.active = false;
        act
    }

    /// Connects to the stream named `stream_name` with source
    /// identifier `source_id`, given the outcome of discovery. The old
    /// session is torn down first, whatever follows; on a discovery
    /// failure or no matching stream the controller is left idle and
    /// the error says which stream was asked for; on success the first
    /// matching stream is selected and a session is registered.
    pub fn connect(
        &mut self,
        resolved: Result<Vec<DiscoveredStream>, String>,
        stream_name: &String,
        source_id: &String,
    ) -> (r: (TeardownAction, Result<LaunchPlan, SessionError>))
        ensures
            r.0.join_thread == old(self).is_active(),
            final(self).is_active() == (r.1 is Ok),
            op_trace(
                old(self).is_active(),
                SessionOp::Connect { launched: r.1 is Ok },
            ) == teardown_trace(old(self).is_active()) + spawn_trace(r.1 is Ok),
            resolved matches Err(m) ==> (r.1 matches Err(SessionError::Discovery(m2)) && m2 == m),
            resolved matches Ok(streams) ==> match r.1 {
                Ok(plan) => {
                    &&& plan.stream_index < streams@.len()
                    &&& matches_query(
                        streams@[plan.stream_index as int],
                        stream_name@,
                        source_id@,
                    )
                    &&& forall|j: int|
                        0 <= j < plan.stream_index ==> !matches_query(
                            streams@[j],
                            stream_name@,
                            source_id@,
                        )
                    &&& plan.hostname == streams@[plan.stream_index as int].hostname
                    &&& plan.source_id == streams@[plan.stream_index as int].source_id
                    &&& plan.channel_count == streams@[plan.stream_index as int].channel_count
                    &&& plan.channel_names@.len() == plan.channel_count
                    &&& forall|i: int|
                        0 <= i < plan.channel_count ==> (#[trigger] plan.channel_names@[i])@
                            == channel_label(i as nat)
                },
                Err(e) => {
                    &&& (forall|j: int|
                        0 <= j < streams@.len() ==> !matches_query(
                            streams@[j],
                            stream_name@,
                            source_id@,
                        ))
                    &&& (e matches SessionError::StreamNotFound { name, source_id: sid }
                        && name == *stream_name && sid == *source_id)
                },
            },
    {
        let act = self.disconnect();
        match resolved {
            Err(m) => (act, Err(SessionError::Discovery(m))),
            Ok(streams) => match match_stream(&streams, stream_name, source_id) {
                None => (
                    act,
                    Err(
                        SessionError::StreamNotFound {
                            name: stream_name.clone(),
                            source_id: source_id.clone(),
                        },
                    ),
                ),
                Some(i) => {
                    let plan = LaunchPlan {
                        stream_index: i,
                        hostname: streams[i].hostname.clone(),
                        source_id: streams[i].source_id.clone(),
                        channel_count: streams[i].channel_count,
                        channel_names: channel_names(streams[i].channel_count),
                    };
                    self.active = true;
                    (act, Ok(plan))
                },
            },
        }
    }
}

/// A connect demands exactly the actions of a disconnect first, and
/// only then — when a stream was matched — one thread spawn: no new
/// session's thread exists until the old session's thread is joined,
/// so no two sessions' batches can interleave.
pub proof fn lemma_connect_teardown_first(active: bool, launched: bool)
    ensures
        op_trace(active, SessionOp::Connect { launched }) == op_trace(
            active,
            SessionOp::Disconnect,
        ) + spawn_trace(launched),
{
}

/// Performing the actions one operation demands moves the number of
/// threads alive from what the old state stands for to what the new
/// state stands for, and that number stays between zero and one at
/// every intermediate point.
proof fn lemma_op_trace_bounded(active: bool, op: SessionOp, k: int)
    requires
        0 <= k <= op_trace(active, op).len(),
    ensures
        alive_after(count_of(active), op_trace(active, op)) == count_of(active_after(active, op)),
        0 <= alive_after(count_of(active), op_trace(active, op).take(k)) <= 1,
{
    let tr = op_trace(active, op);
    let join = ThreadAction::Join;
    let spawn = ThreadAction::Spawn;
    let launched = active_after(active, op);
    if active && (op matches SessionOp::Disconnect || !launched) {
        assert(tr =~= seq![join]);
        lemma_alive_one(count_of(active), join);
        if k == 0 {
            assert(tr.take(k) =~= Seq::<ThreadAction>::empty());
        } else {
            assert(tr.take(k) =~= tr);
        }
    } else if active {
        assert(tr =~= seq![join, spawn]);
        assert(tr.drop_first() =~= seq![spawn]);
        lemma_alive_one(count_of(active) + action_delta(join), spawn);
        if k == 0 {
            assert(tr.take(k) =~= Seq::<ThreadAction>::empty());
        } else if k == 1 {
            assert(tr.take(k) =~= seq![join]);
            lemma_alive_one(count_of(active), join);
        } else {
            assert(tr.take(k) =~= tr);
        }
    } else if op matches SessionOp::Connect { .. } && launched {
        assert(tr =~= seq![spawn]);
        lemma_alive_one(count_of(active), spawn);
        if k == 0 {
            assert(tr.take(k) =~= Seq::<ThreadAction>::empty());
        } else {
            assert(tr.take(k) =~= tr);
        }
    } else {
        assert(tr =~= Seq::<ThreadAction>::empty());
        assert(tr.take(k) =~= Seq::<ThreadAction>::empty());
    }
}

/// Performing one action changes the count by that action's step.
proof fn lemma_alive_one(init: int, a: ThreadAction)
    ensures
        alive_after(init, seq![a]) == init + action_delta(a),
{
    assert(seq![a].drop_first() =~= Seq::<ThreadAction>::empty());
    assert(seq![a][0] == a);
    assert(alive_after(init + action_delta(a), Seq::<ThreadAction>::empty()) == init
        + action_delta(a));
}

/// Splitting a trace: performing `a + b` is performing `a`, then `b`
/// from where `a` left off.
proof fn lemma_alive_append(init: int, a: Seq<ThreadAction>, b: Seq<ThreadAction>)
    ensures
        alive_after(init, a + b) == alive_after(alive_after(init, a), b),
    decreases a.len(),
{
    if a.len() == 0 {
        assert(a + b =~= b);
    } else {
        assert((a + b).drop_first() =~= a.drop_first() + b);
        lemma_alive_append(init + action_delta(a[0]), a.drop_first(), b);
    }
}

/// For every sequence of connect and disconnect operations performed
/// from a state standing for at most one thread, the number of
/// sampling threads alive stays between zero and one at every point of
/// the demanded actions, and ends as the final state stands for.
proof fn lemma_ops_trace_bounded(active: bool, ops: Seq<SessionOp>, k: int)
    requires
        0 <= k <= ops_trace(active, ops).len(),
    ensures
        alive_after(count_of(active), ops_trace(active, ops)) == count_of(
            active_after_ops(active, ops),
        ),
        0 <= alive_after(count_of(active), ops_trace(active, ops).take(k)) <= 1,
    decreases ops.len(),
{
    if ops.len() == 0 {
        assert(ops_trace(active, ops).take(k) =~= Seq::<ThreadAction>::empty());
    } else {
        let head = op_trace(active, ops[0]);
        let rest = ops_trace(active_after(active, ops[0]), ops.drop_first());
        lemma_op_trace_bounded(active, ops[0], if k <= head.len() { k } else { head.len() as int });
        lemma_alive_append(count_of(active), head, rest);
        lemma_ops_trace_bounded(
            active_after(active, ops[0]),
            ops.drop_first(),
            if k <= head.len() { 0 } else { k - head.len() },
        );
        if k <= head.len() {
            assert((head + rest).take(k) =~= head.take(k));
        } else {
            assert((head + rest).take(k) =~= head + rest.take(k - head.len()));
            lemma_alive_append(count_of(active), head, rest.take(k - head.len()));
        }
    }
}

/// At most one sampling thread is alive at any instant: starting from
/// the initial, idle state, however connect and disconnect calls are
/// sequenced and whatever each connect's outcome, after every prefix
/// of the demanded thread actions the number of threads alive is zero
/// or one.
pub proof fn lemma_at_most_one_thread(ops: Seq<SessionOp>, k: int)
    requires
        0 <= k <= ops_trace(false, ops).len(),
    ensures
        0 <= alive_after(0, ops_trace(false, ops).take(k)) <= 1,
{
    lemma_ops_trace_bounded(false, ops, k);
}

} // verus!
