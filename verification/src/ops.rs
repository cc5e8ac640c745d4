//! The registry of asynchronous wallet operations: submission, state
//! snapshots, filtered listing, and the monotonic state lifecycle.
//!
//! The registry only records what the job substrate reports; running the
//! jobs, scheduling and timeouts are the substrate's business. Queries
//! read a snapshot and never wait on a job.

use vstd::prelude::*;

verus! {

/// The state of one asynchronous operation.
///
/// States advance monotonically along pending, executing, and one of the
/// terminal states; a terminal state never changes again.
#[derive(Debug, PartialEq, Eq)]
pub enum OperationState {
    /// Submitted, not yet started.
    Pending,
    /// Started by the job substrate.
    Executing,
    /// Finished; carries the job's result.
    Success(String),
    /// Finished; carries the job's error.
    Failed(String),
    /// Cancelled before or during execution.
    Cancelled,
}

/// The name of a state, without its payload; what a listing filter
/// selects on.
#[derive(Clone, Copy, Debug, PartialEq, Eq, Structural)]
pub enum StateKind {
    /// Matches `OperationState::Pending`.
    Pending,
    /// Matches `OperationState::Executing`.
    Executing,
    /// Matches `OperationState::Success`.
    Success,
    /// Matches `OperationState::Failed`.
    Failed,
    /// Matches `OperationState::Cancelled`.
    Cancelled,
}

/// The kind of a state.
pub open spec fn state_kind(s: OperationState) -> StateKind {
    match s {
        OperationState::Pending => StateKind::Pending,
        OperationState::Executing => StateKind::Executing,
        OperationState::Success(_) => StateKind::Success,
        OperationState::Failed(_) => StateKind::Failed,
        OperationState::Cancelled => StateKind::Cancelled,
    }
}

/// The kind of a state.
pub fn kind_of(s: &OperationState) -> (r: StateKind)
    ensures
        r == state_kind(*s),
{
    match s {
        OperationState::Pending => StateKind::Pending,
        OperationState::Executing => StateKind::Executing,
        OperationState::Success(_) => StateKind::Success,
        OperationState::Failed(_) => StateKind::Failed,
        OperationState::Cancelled => StateKind::Cancelled,
    }
}

/// Whether a state is terminal: no further transition is permitted out
/// of it.
pub open spec fn is_terminal(s: OperationState) -> bool {
    match s {
        OperationState::Pending => false,
        OperationState::Executing => false,
        OperationState::Success(_) => true,
        OperationState::Failed(_) => true,
        OperationState::Cancelled => true,
    }
}

/// Whether a state is terminal.
pub fn terminal(s: &OperationState) -> (r: bool)
    ensures
        r == is_terminal(*s),
{
    match s {
        OperationState::Pending => false,
        OperationState::Executing => false,
        OperationState::Success(_) => true,
        OperationState::Failed(_) => true,
        OperationState::Cancelled => true,
    }
}

/// A state's position along the lifecycle: pending before executing
/// before the terminal states.
pub open spec fn state_rank(s: OperationState) -> int {
    match s {
        OperationState::Pending => 0,
        OperationState::Executing => 1,
        OperationState::Success(_) => 2,
        OperationState::Failed(_) => 2,
        OperationState::Cancelled => 2,
    }
}

/// One permitted transition: strictly forward along the lifecycle, and
/// never out of a terminal state.
pub open spec fn allowed_step(from: OperationState, to: OperationState) -> bool {
    !is_terminal(from) && state_rank(from) < state_rank(to)
}

/// The reflexive-transitive closure of the permitted transitions: what a
/// later snapshot of an operation's state may look like, given an
/// earlier one.
pub open spec fn evolves(from: OperationState, to: OperationState) -> bool {
    from == to || allowed_step(from, to)
}

/// One permitted transition.
fn allowed_step_exec(from: &OperationState, to: &OperationState) -> (r: bool)
    ensures
        r == allowed_step(*from, *to),
{
    let fr = rank_exec(from);
    let tr = rank_exec(to);
    !terminal(from) && fr < tr
}

/// A state's position along the lifecycle.
fn rank_exec(s: &OperationState) -> (r: u8)
    ensures
        r as int == state_rank(*s),
{
    match s {
        OperationState::Pending => 0,
        OperationState::Executing => 1,
        OperationState::Success(_) => 2,
        OperationState::Failed(_) => 2,
        OperationState::Cancelled => 2,
    }
}

/// One tracked operation: its process-unique identifier, its current
/// state, and whether cooperative cancellation has been requested.
#[derive(Debug)]
pub struct AsyncOperation {
    /// The operation's identifier, unique for the registry's lifetime.
    pub operation_id: u64,
    /// The operation's current state.
    pub state: OperationState,
    /// Whether cancellation was requested while the operation was
    /// executing; the transition to cancelled is confirmed only when the
    /// job substrate honors the request at its next safe checkpoint.
    pub cancel_requested: bool,
}

/// The registry of asynchronous operations, in submission order.
#[derive(Debug)]
pub struct OperationRegistry {
    /// The tracked operations, oldest-submitted first.
    pub ops: Vec<AsyncOperation>,
    /// The identifier the next submission receives.
    pub next_id: u64,
}

/// The first operation in `ops` carrying `id`, if any. Under
/// `OperationRegistry::wf` it is the only one.
pub open spec fn spec_find_op(ops: Seq<AsyncOperation>, id: u64) -> Option<AsyncOperation>
    decreases ops.len(),
{
    if ops.len() == 0 {
        None
    } else if ops[0].operation_id == id {
        Some(ops[0])
    } else {
        spec_find_op(ops.drop_first(), id)
    }
}

impl OperationRegistry {
    /// Well-formedness: identifiers strictly increase in submission
    /// order and all lie below the next one to be assigned.
    pub open spec fn wf(self) -> bool {
        (forall|i: int, j: int|
            0 <= i < j < self.ops@.len() ==> self.ops@[i].operation_id
                < self.ops@[j].operation_id) && (forall|i: int|
            0 <= i < self.ops@.len() ==> (#[trigger] self.ops@[i]).operation_id < self.next_id)
    }

    /// An empty registry.
    pub fn new() -> (r: OperationRegistry)
        ensures
            r.wf(),
            r.ops@.len() == 0,
            r.next_id == 0,
    {
        OperationRegistry { ops: Vec::new(), next_id: 0 }
    }

    /// Records a newly submitted job under a fresh identifier, in state
    /// pending, and returns the identifier. The bound on `next_id` is a
    /// machine limit: identifiers are never reused, so the counter can
    /// only grow.
    pub fn submit(&mut self) -> (id: u64)
        requires
            old(self).wf(),
            old(self).next_id < u64::MAX,
        ensures
            final(self).wf(),
            id == old(self).next_id,
            final(self).next_id == old(self).next_id + 1,
            final(self).ops@ == old(self).ops@.push(
                AsyncOperation {
                    operation_id: id,
                    state: OperationState::Pending,
                    cancel_requested: false,
                },
            ),
            forall|k: int|
                0 <= k < old(self).ops@.len() ==> (#[trigger] old(self).ops@[k]).operation_id
                    != id,
    {
        let id = self.next_id;
        self.ops.push(
            AsyncOperation {
                operation_id: id,
                state: OperationState::Pending,
                cancel_requested: false,
            },
        );
        self.next_id = self.next_id + 1;
        id
    }

    /// A non-blocking snapshot of one operation's state. An unknown
    /// identifier is an absent result, not an error.
    pub fn state(&self, operation_id: u64) -> (r: Option<&OperationState>)
        requires
            self.wf(),
        ensures
            match r {
                Some(s) => spec_find_op(self.ops@, operation_id) matches Some(op) && *s
                    == op.state,
                None => spec_find_op(self.ops@, operation_id) is None,
            },
    {
        match self.find_position(operation_id) {
            Some(pos) => Some(&self.ops[pos].state),
            None => None,
        }
    }

    /// Whether cancellation has been requested for one operation.
    pub fn cancel_requested(&self, operation_id: u64) -> (r: Option<bool>)
        requires
            self.wf(),
        ensures
            match r {
                Some(b) => spec_find_op(self.ops@, operation_id) matches Some(op) && b
                    == op.cancel_requested,
                None => spec_find_op(self.ops@, operation_id) is None,
            },
    {
        match self.find_position(operation_id) {
            Some(pos) => Some(self.ops[pos].cancel_requested),
            None => None,
        }
    }

    /// The position of the operation carrying `operation_id`, if any.
    fn find_position(&self, operation_id: u64) -> (r: Option<usize>)
        ensures
            match r {
                Some(pos) => 0 <= pos < self.ops@.len() && spec_find_op(self.ops@, operation_id)
                    == Some(self.ops@[pos as int]) && self.ops@[pos as int].operation_id
                    == operation_id && (forall|k: int|
                    0 <= k < pos ==> self.ops@[k].operation_id != operation_id),
                None => spec_find_op(self.ops@, operation_id) is None,
            },
    {
        let ghost gops = self.ops@;
        let mut i: usize = 0;
        while i < self.ops.len()
            invariant
                0 <= i <= gops.len(),
                self.ops@ == gops,
                forall|k: int| 0 <= k < i ==> gops[k].operation_id != operation_id,
            decreases gops.len() - i,
        {
            if self.ops[i].operation_id == operation_id {
                proof {
                    lemma_find_op_at(gops, operation_id, i as int);
                }
                return Some(i);
            }
            i += 1;
        }
        proof {
            lemma_find_op_none(gops, operation_id);
        }
        return None;
    }

    /// Applies a state transition reported by the job substrate. A
    /// transition must move strictly forward along the lifecycle; any
    /// other report — in particular one out of a terminal state — is
    /// rejected and changes nothing, as is a report for an unknown
    /// identifier. Returns whether the transition was applied.
    pub fn report_transition(&mut self, operation_id: u64, new_state: OperationState) -> (accepted:
        bool)
        requires
            old(self).wf(),
        ensures
            final(self).wf(),
            final(self).next_id == old(self).next_id,
            final(self).ops@.len() == old(self).ops@.len(),
            forall|k: int|
                0 <= k < old(self).ops@.len() ==> {
                    let o = #[trigger] old(self).ops@[k];
                    let m = final(self).ops@[k];
                    m.operation_id == o.operation_id && m.cancel_requested == o.cancel_requested
                        && evolves(o.state, m.state) && (o.operation_id != operation_id ==> m
                        == o)
                },
            match spec_find_op(old(self).ops@, operation_id) {
                None => !accepted && final(self).ops@ == old(self).ops@,
                Some(op) => if allowed_step(op.state, new_state) {
                    accepted && (spec_find_op(final(self).ops@, operation_id) matches Some(m)
                        && m.state == new_state)
                } else {
                    !accepted && final(self).ops@ == old(self).ops@
                },
            },
    {
        let ghost gops = self.ops@;
        match self.find_position(operation_id) {
            None => false,
            Some(pos) => {
                if allowed_step_exec(&self.ops[pos].state, &new_state) {
                    let op = &mut self.ops[pos];
                    op.state = new_state;
                    proof {
                        assert(self.ops@[pos as int].operation_id == gops[pos as int].operation_id);
                        assert forall|k: int|
                            0 <= k < gops.len() && k != pos implies self.ops@[k] == gops[k] by {}
                        lemma_find_op_at(self.ops@, operation_id, pos as int);
                    }
                    true
                } else {
                    proof {
                        assert(self.ops@ =~= gops);
                    }
                    false
                }
            },
        }
    }

    /// Requests cancellation of one operation. A pending operation is
    /// cancelled immediately — it never starts. An executing operation
    /// only has the request recorded; the transition to cancelled is
    /// confirmed when the job substrate reports it at its next safe
    /// checkpoint. A terminal operation is left as it is.
    pub fn request_cancel(&mut self, operation_id: u64) -> (r: CancelOutcome)
        requires
            old(self).wf(),
        ensures
            final(self).wf(),
            final(self).next_id == old(self).next_id,
            final(self).ops@.len() == old(self).ops@.len(),
            forall|k: int|
                0 <= k < old(self).ops@.len() ==> {
                    let o = #[trigger] old(self).ops@[k];
                    let m = final(self).ops@[k];
                    m.operation_id == o.operation_id && evolves(o.state, m.state) && (
                    o.operation_id != operation_id ==> m == o)
                },
            match spec_find_op(old(self).ops@, operation_id) {
                None => r == CancelOutcome::UnknownOperation && final(self).ops@ == old(
                    self,
                ).ops@,
                Some(op) => match op.state {
                    OperationState::Pending => r == CancelOutcome::CancelledImmediately && (
                    spec_find_op(final(self).ops@, operation_id) matches Some(m) && m.state
                        == OperationState::Cancelled && m.cancel_requested
                        == op.cancel_requested),
                    OperationState::Executing => r == CancelOutcome::CancellationRequested && (
                    spec_find_op(final(self).ops@, operation_id) matches Some(m) && m.state
                        == OperationState::Executing && m.cancel_requested),
                    _ => r == CancelOutcome::AlreadyTerminal && final(self).ops@ == old(
                        self,
                    ).ops@,
                },
            },
    {
        let ghost gops = self.ops@;
        match self.find_position(operation_id) {
            None => CancelOutcome::UnknownOperation,
            Some(pos) => {
                let is_pending = match &self.ops[pos].state {
                    OperationState::Pending => true,
                    _ => false,
                };
                let is_executing = match &self.ops[pos].state {
                    OperationState::Executing => true,
                    _ => false,
                };
                if is_pending {
                    let op = &mut self.ops[pos];
                    op.state = OperationState::Cancelled;
                    proof {
                        assert forall|k: int|
                            0 <= k < gops.len() && k != pos implies self.ops@[k] == gops[k] by {}
                        lemma_find_op_at(self.ops@, operation_id, pos as int);
                    }
                    CancelOutcome::CancelledImmediately
                } else if is_executing {
                    let op = &mut self.ops[pos];
                    op.cancel_requested = true;
                    proof {
                        assert forall|k: int|
                            0 <= k < gops.len() && k != pos implies self.ops@[k] == gops[k] by {}
                        lemma_find_op_at(self.ops@, operation_id, pos as int);
                    }
                    CancelOutcome::CancellationRequested
                } else {
                    proof {
                        assert(self.ops@ =~= gops);
                    }
                    CancelOutcome::AlreadyTerminal
                }
            },
        }
    }

    /// Lists operation identifiers, oldest-submitted first. With no
    /// filter, every known operation is listed. With a filter, each
    /// operation's current snapshot state is compared against the named
    /// state; an unrecognized name matches no operation and yields an
    /// empty list, not an error.
    pub fn list(&self, status: Option<&str>) -> (r: Vec<u64>)
        ensures
            r@ == spec_list_ids(
                self.ops@,
                match status {
                    None => None,
                    Some(s) => Some(spec_parse_state_filter(s@)),
                },
            ),
    {
        let filter: Option<Option<StateKind>> = match status {
            None => None,
            Some(s) => Some(parse_state_filter(s)),
        };
        let ghost gfilter = filter;
        let ghost gops = self.ops@;
        let mut out: Vec<u64> = Vec::new();
        let mut i: usize = 0;
        while i < self.ops.len()
            invariant
                0 <= i <= gops.len(),
                self.ops@ == gops,
                filter == gfilter,
                out@ == spec_list_ids(gops.take(i as int), gfilter),
            decreases gops.len() - i,
        {
            proof {
                assert(gops.take(i as int + 1).drop_last() =~= gops.take(i as int));
                assert(gops.take(i as int + 1).last() == gops[i as int]);
            }
            let included = match &filter {
                None => true,
                Some(f) => match f {
                    None => false,
                    Some(k) => {
                        let kk = kind_of(&self.ops[i].state);
                        kk == *k
                    },
                },
            };
            if included {
                out.push(self.ops[i].operation_id);
            }
            i += 1;
        }
        proof {
            assert(gops.take(gops.len() as int) =~= gops);
        }
        out
    }
}

/// What a cancellation request achieved.
#[derive(Clone, Copy, Debug, PartialEq, Eq, Structural)]
pub enum CancelOutcome {
    /// The operation was pending; it is now cancelled and never starts.
    CancelledImmediately,
    /// The operation is executing; the request was recorded for the job
    /// substrate to honor cooperatively.
    CancellationRequested,
    /// The operation had already reached a terminal state; nothing
    /// changed.
    AlreadyTerminal,
    /// No operation carries the identifier; nothing changed.
    UnknownOperation,
}

/// Whether a listing filter selects an operation in state `s`: no filter
/// selects everything, an unrecognized name selects nothing, and a
/// recognized name selects states of that kind.
pub open spec fn filter_selects(f: Option<Option<StateKind>>, s: OperationState) -> bool {
    match f {
        None => true,
        Some(None) => false,
        Some(Some(k)) => state_kind(s) == k,
    }
}

/// The identifiers of the operations a filter selects, in order.
pub open spec fn spec_list_ids(ops: Seq<AsyncOperation>, f: Option<Option<StateKind>>) -> Seq<u64>
    decreases ops.len(),
{
    if ops.len() == 0 {
        Seq::empty()
    } else {
        let prefix = spec_list_ids(ops.drop_last(), f);
        if filter_selects(f, ops.last().state) {
            prefix.push(ops.last().operation_id)
        } else {
            prefix
        }
    }
}

/// The state kind a filter string names, if it is recognized.
pub open spec fn spec_parse_state_filter(s: Seq<char>) -> Option<StateKind> {
    if s == "pending"@ {
        Some(StateKind::Pending)
    } else if s == "executing"@ {
        Some(StateKind::Executing)
    } else if s == "success"@ {
        Some(StateKind::Success)
    } else if s == "failed"@ {
        Some(StateKind::Failed)
    } else if s == "cancelled"@ {
        Some(StateKind::Cancelled)
    } else {
        None
    }
}

/// Parses a listing-filter string permissively: an unrecognized name is
/// not an error, it simply never matches.
pub fn parse_state_filter(s: &str) -> (r: Option<StateKind>)
    ensures
        r == spec_parse_state_filter(s@),
{
    let owned = s.to_owned();
    if owned == state_name_pending() {
        Some(StateKind::Pending)
    } else if owned == state_name_executing() {
        Some(StateKind::Executing)
    } else if owned == state_name_success() {
        Some(StateKind::Success)
    } else if owned == state_name_failed() {
        Some(StateKind::Failed)
    } else if owned == state_name_cancelled() {
        Some(StateKind::Cancelled)
    } else {
        None
    }
}

/// The filter name of the pending state.
fn state_name_pending() -> (r: String)
    ensures
        r@ == "pending"@,
{
    "pending".to_owned()
}

/// The filter name of the executing state.
fn state_name_executing() -> (r: String)
    ensures
        r@ == "executing"@,
{
    "executing".to_owned()
}

/// The filter name of the success state.
fn state_name_success() -> (r: String)
    ensures
        r@ == "success"@,
{
    "success".to_owned()
}

/// The filter name of the failed state.
fn state_name_failed() -> (r: String)
    ensures
        r@ == "failed"@,
{
    "failed".to_owned()
}

/// The filter name of the cancelled state.
fn state_name_cancelled() -> (r: String)
    ensures
        r@ == "cancelled"@,
{
    "cancelled".to_owned()
}

/// When the first `pos` operations miss `id` and the one at `pos`
/// carries it, the search finds that operation.
proof fn lemma_find_op_at(ops: Seq<AsyncOperation>, id: u64, pos: int)
    requires
        0 <= pos < ops.len(),
        forall|k: int| 0 <= k < pos ==> ops[k].operation_id != id,
        ops[pos].operation_id == id,
    ensures
        spec_find_op(ops, id) == Some(ops[pos]),
    decreases ops.len(),
{
    if pos == 0 {
    } else {
        assert(ops.drop_first()[pos - 1] == ops[pos]);
        assert forall|k: int| 0 <= k < pos - 1 implies ops.drop_first()[k].operation_id != id by {
            assert(ops.drop_first()[k] == ops[k + 1]);
        }
        lemma_find_op_at(ops.drop_first(), id, pos - 1);
    }
}

/// When no operation carries `id`, the search finds nothing.
proof fn lemma_find_op_none(ops: Seq<AsyncOperation>, id: u64)
    requires
        forall|k: int| 0 <= k < ops.len() ==> ops[k].operation_id != id,
    ensures
        spec_find_op(ops, id) is None,
    decreases ops.len(),
{
    if ops.len() == 0 {
    } else {
        assert forall|k: int|
            0 <= k < ops.drop_first().len() implies ops.drop_first()[k].operation_id != id by {
            assert(ops.drop_first()[k] == ops[k + 1]);
        }
        lemma_find_op_none(ops.drop_first(), id);
    }
}

/// Law: snapshots of an operation's state only advance along the
/// lifecycle — whatever a run of permitted evolutions does, a later
/// snapshot is reachable from any earlier one.
pub proof fn lemma_evolution_transitive(a: OperationState, b: OperationState, c: OperationState)
    requires
        evolves(a, b),
        evolves(b, c),
    ensures
        evolves(a, c),
{
}

/// Law: once a snapshot shows a terminal state, every later snapshot
/// shows exactly that state.
pub proof fn lemma_terminal_stable(a: OperationState, b: OperationState)
    requires
        is_terminal(a),
        evolves(a, b),
    ensures
        b == a,
{
}

} // verus!
