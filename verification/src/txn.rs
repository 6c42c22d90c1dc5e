//! The transaction controller: validates the items of a request, plans the
//! entries to execute, and sequences them strictly in order, rolling back
//! on the first failure and committing only when every entry succeeded.
//!
//! The controller is a step machine.  The surrounding process asks it for
//! the next action (run the current entry, commit, roll back, or finish),
//! performs that action against the database, and hands the result back
//! through [`Engine::reply`].  Every decision — what runs next, what the
//! outcome list holds, when to commit and when to abort — is made here.

use vstd::prelude::*;

use crate::bind::{bind_array, bind_params, bound_of_params, params_bindable, BoundParam};
use crate::decode::{rows_shape_ok, rows_shaped, ColumnFetch, ColumnOut};
use crate::json::JsonValue;

verus! {

// ---------------------------------------------------------------------
// Request items and their validation
// ---------------------------------------------------------------------

/// One item of an inbound transaction: one SQL query or statement, an
/// optional parameter source (a single set, or a batch of sets for
/// statements), and an optional correlation tag echoed on its outcomes.
#[derive(Debug)]
pub struct ReqTransactionItem {
    pub query: Option<String>,
    pub statement: Option<String>,
    pub values: Option<JsonValue>,
    pub values_batch: Option<Vec<JsonValue>>,
    pub tag: Option<String>,
}

/// A well-shaped item: exactly one operation kind, at most one parameter
/// form, and no batch on a query.
pub open spec fn item_valid(it: ReqTransactionItem) -> bool {
    &&& (it.query is Some) != (it.statement is Some)
    &&& !(it.values is Some && it.values_batch is Some)
    &&& (it.query is Some ==> it.values_batch is None)
}

/// The SQL text of a valid item.
pub open spec fn item_sql(it: ReqTransactionItem) -> String
    recommends
        it.query is Some || it.statement is Some,
{
    match it.query {
        Option::Some(q) => q,
        Option::None => match it.statement {
            Option::Some(s) => s,
            Option::None => vstd::pervasive::arbitrary(),
        },
    }
}

/// How many entries a valid item plans to: a batch of M non-empty sets
/// repeats its statement M times; everything else, the empty batch
/// included, executes once.
pub open spec fn entry_count(it: ReqTransactionItem) -> int {
    match it.values_batch {
        Option::Some(b) => if b@.len() == 0 {
            1
        } else {
            b@.len() as int
        },
        Option::None => 1,
    }
}

/// The parameter source of the item's `k`-th entry.
pub open spec fn param_source(it: ReqTransactionItem, k: int) -> Option<JsonValue>
    recommends
        0 <= k < entry_count(it),
{
    match it.values_batch {
        Option::Some(b) => if b@.len() == 0 {
            Option::None
        } else {
            Option::Some(b@[k])
        },
        Option::None => it.values,
    }
}

// ---------------------------------------------------------------------
// Planned entries
// ---------------------------------------------------------------------

/// One planned unit of execution.  An item whose parameters failed to bind
/// becomes a `Doomed` entry: it surfaces as a failure outcome when its
/// turn comes, exactly as an execution failure would, and aborts the
/// transaction there.
#[derive(Debug)]
pub enum Entry {
    Runnable { is_query: bool, sql: String, tag: Option<String>, params: Vec<BoundParam> },
    Doomed { tag: Option<String>, message: String },
}

/// The tag an entry's outcome carries.
pub open spec fn entry_tag(e: Entry) -> Option<String> {
    match e {
        Entry::Runnable { tag, .. } => tag,
        Entry::Doomed { tag, .. } => tag,
    }
}

/// Whether the entry runs as a read.
pub open spec fn entry_is_query(e: Entry) -> bool {
    e matches Entry::Runnable { is_query: true, .. }
}

/// The entry planned for the item's `k`-th execution: bound positional
/// parameters when the source binds, a doomed entry otherwise.
pub open spec fn entry_matches(it: ReqTransactionItem, k: int, e: Entry) -> bool {
    let src = param_source(it, k);
    if params_bindable(src) {
        &&& e matches Entry::Runnable { is_query, sql, tag, params }
        &&& is_query == (it.query is Some)
        &&& sql == item_sql(it)
        &&& tag == it.tag
        &&& params@ == bound_of_params(src)
    } else {
        &&& e matches Entry::Doomed { tag, .. }
        &&& tag == it.tag
    }
}

/// The planned entry list of a whole request: each item's entries, in item
/// order, batch entries in set order.
pub open spec fn entries_match(items: Seq<ReqTransactionItem>, es: Seq<Entry>) -> bool
    decreases items.len(),
{
    if items.len() == 0 {
        es.len() == 0
    } else {
        let c = entry_count(items[0]);
        &&& es.len() >= c
        &&& forall|k: int| 0 <= k < c ==> entry_matches(items[0], k, #[trigger] es[k])
        &&& entries_match(items.drop_first(), es.skip(c))
    }
}

/// The number of entries a valid request plans to.
pub open spec fn total_entry_count(items: Seq<ReqTransactionItem>) -> int
    decreases items.len(),
{
    if items.len() == 0 {
        0
    } else {
        entry_count(items[0]) + total_entry_count(items.drop_first())
    }
}

/// A planned entry list is exactly as long as the items call for.
pub proof fn lemma_entries_match_len(items: Seq<ReqTransactionItem>, es: Seq<Entry>)
    requires
        entries_match(items, es),
    ensures
        es.len() == total_entry_count(items),
    decreases items.len(),
{
    if items.len() > 0 {
        lemma_entries_match_len(items.drop_first(), es.skip(entry_count(items[0])));
    }
}

/// Planning one more item extends a planned entry list by that item's
/// entries.
proof fn lemma_entries_match_append(
    items: Seq<ReqTransactionItem>,
    es: Seq<Entry>,
    it: ReqTransactionItem,
    fs: Seq<Entry>,
)
    requires
        entries_match(items, es),
        fs.len() == entry_count(it),
        forall|k: int| 0 <= k < fs.len() ==> entry_matches(it, k, #[trigger] fs[k]),
    ensures
        entries_match(items.push(it), es + fs),
    decreases items.len(),
{
    if items.len() == 0 {
        assert(es + fs =~= fs);
        assert(items.push(it)[0] == it);
        assert(items.push(it).drop_first() =~= Seq::<ReqTransactionItem>::empty());
        assert((es + fs).skip(entry_count(it)) =~= Seq::<Entry>::empty());
        assert(forall|k: int| 0 <= k < fs.len() ==> (es + fs)[k] == #[trigger] fs[k]);
        assert(entries_match(Seq::<ReqTransactionItem>::empty(), Seq::<Entry>::empty()));
        assert(entries_match(items.push(it), es + fs));
    } else {
        let c = entry_count(items[0]);
        assert(items.push(it)[0] == items[0]);
        assert(items.push(it).drop_first() =~= items.drop_first().push(it));
        assert((es + fs).skip(c) =~= es.skip(c) + fs);
        assert(forall|k: int| 0 <= k < c ==> (es + fs)[k] == es[k]);
        lemma_entries_match_append(items.drop_first(), es.skip(c), it, fs);
    }
}

/// Clones an optional tag, preserving its value.
fn clone_tag(t: &Option<String>) -> (r: Option<String>)
    ensures
        r == *t,
{
    match t {
        Option::Some(s) => Option::Some(s.clone()),
        Option::None => Option::None,
    }
}

/// An inbound request: the ordered transaction items, executed in order.
#[derive(Debug)]
pub struct Request {
    pub transaction: Vec<ReqTransactionItem>,
}

/// Validates every item of a request and plans the entry list, before any
/// execution.  Fails — with no entry planned — exactly when some item is
/// not well-shaped; parameter sources that fail to bind do not fail the
/// plan, they plan doomed entries that surface in execution order.
pub fn plan_request(req: &Request) -> (r: Result<Vec<Entry>, String>)
    ensures
        r is Ok <==> (forall|i: int|
            0 <= i < req.transaction@.len() ==> item_valid(#[trigger] req.transaction@[i])),
        r matches Ok(es) ==> entries_match(req.transaction@, es@),
{
    let mut out: Vec<Entry> = Vec::new();
    let mut i: usize = 0;
    while i < req.transaction.len()
        invariant
            0 <= i <= req.transaction@.len(),
            forall|j: int| 0 <= j < i ==> item_valid(#[trigger] req.transaction@[j]),
            entries_match(req.transaction@.take(i as int), out@),
        decreases req.transaction@.len() - i,
    {
        let it = &req.transaction[i];
        if it.query.is_some() && it.statement.is_some() {
            return Err(String::from_str("exactly one of 'query' and 'statement' must be provided"));
        }
        if it.query.is_none() && it.statement.is_none() {
            return Err(String::from_str("exactly one of 'query' and 'statement' must be provided"));
        }
        if it.values.is_some() && it.values_batch.is_some() {
            return Err(
                String::from_str("at most one of 'values' and 'valuesBatch' must be provided"),
            );
        }
        if it.query.is_some() && it.values_batch.is_some() {
            return Err(String::from_str("a query accepts 'values' only, never 'valuesBatch'"));
        }
        let is_query = it.query.is_some();
        let sql: String = match &it.query {
            Option::Some(q) => q.clone(),
            Option::None => match &it.statement {
                Option::Some(s) => s.clone(),
                Option::None => vstd::pervasive::unreached(),
            },
        };
        let ghost pre = out@;
        let mut fs: Vec<Entry> = Vec::new();
        let use_batch: bool = match &it.values_batch {
            Option::Some(b) => b.len() > 0,
            Option::None => false,
        };
        if use_batch {
            match &it.values_batch {
                Option::Some(batch) => {
                    let mut k: usize = 0;
                    while k < batch.len()
                        invariant
                            0 <= k <= batch@.len(),
                            batch@.len() > 0,
                            fs@.len() == k,
                            i < req.transaction@.len(),
                            *it == req.transaction@[i as int],
                            it.values_batch matches Option::Some(bb) && bb@ == batch@,
                            is_query == (it.query is Some),
                            sql == item_sql(*it),
                            forall|j: int|
                                0 <= j < k ==> entry_matches(req.transaction@[i as int], j, #[trigger] fs@[j]),
                        decreases batch@.len() - k,
                    {
                        let src_entry = match bind_array(&batch[k]) {
                            Ok(ps) => Entry::Runnable {
                                is_query,
                                sql: sql.clone(),
                                tag: clone_tag(&it.tag),
                                params: ps,
                            },
                            Err(m) => Entry::Doomed { tag: clone_tag(&it.tag), message: m },
                        };
                        fs.push(src_entry);
                        proof {
                            assert(entry_matches(req.transaction@[i as int], k as int, fs@[k as int]));
                        }
                        k += 1;
                    }
                },
                Option::None => {
                    proof {
                        assert(false);
                    }
                },
            }
        } else {
            match bind_params(&it.values) {
                Ok(ps) => {
                    fs.push(
                        Entry::Runnable {
                            is_query,
                            sql: sql.clone(),
                            tag: clone_tag(&it.tag),
                            params: ps,
                        },
                    );
                },
                Err(m) => {
                    fs.push(Entry::Doomed { tag: clone_tag(&it.tag), message: m });
                },
            }
            proof {
                if it.values_batch is Some {
                    assert(param_source(req.transaction@[i as int], 0) == it.values);
                }
                assert(entry_matches(req.transaction@[i as int], 0, fs@[0]));
            }
        }
        proof {
            lemma_entries_match_append(req.transaction@.take(i as int), pre, req.transaction@[i as int], fs@);
        }
        let ghost fsv = fs@;
        out.append(&mut fs);
        proof {
            assert(out@ == pre + fsv);
        }
        i += 1;
        proof {
            assert(req.transaction@.take(i as int) =~= req.transaction@.take(i as int - 1).push(req.transaction@[i as int - 1]));
        }
    }
    proof {
        assert(req.transaction@.take(i as int) =~= req.transaction@);
    }
    Ok(out)
}

// ---------------------------------------------------------------------
// The engine: a step machine over the planned entries
// ---------------------------------------------------------------------

/// Where the engine stands in a transaction's life.
#[derive(Clone, Copy, PartialEq, Eq, Structural, Debug)]
pub enum Phase {
    /// The current entry awaits execution.
    Running,
    /// Every entry succeeded; the transaction awaits its commit.
    Committing,
    /// A failure was recorded; the transaction awaits its rollback.
    RollingBack,
    /// Nothing is left to do.
    Done,
}

/// The outside work the engine asks for next.
#[derive(Clone, Copy, PartialEq, Eq, Structural, Debug)]
pub enum ActionKind {
    RunQuery,
    RunStatement,
    Commit,
    Rollback,
    Finished,
}

/// What the performed action produced.
#[derive(Debug)]
pub enum Reply {
    /// The fetched rows of a query, column by column.
    Rows(Vec<Vec<ColumnFetch>>),
    /// The engine-reported failure of the current query or statement.
    ExecFailed(String),
    /// The counts a successful statement reported.
    StatementDone { rows_affected: u64, last_insert_id: u64 },
    CommitDone,
    CommitFailed(String),
    RollbackDone,
    RollbackFailed(String),
}

/// One outcome of the transaction, in execution order, carrying the
/// originating item's tag.
#[derive(Debug)]
pub enum Outcome {
    QueryOk { tag: Option<String>, rows: Vec<Vec<ColumnOut>> },
    StatementOk { tag: Option<String>, rows_affected: u64, last_insert_id: u64 },
    Failed { tag: Option<String>, message: String },
}

/// The transaction controller's state: the planned entries, the position
/// of the next entry, the outcomes recorded so far, the phase, and
/// whether the transaction was committed.  The driving process only reads
/// these fields; all mutation goes through the methods.
#[derive(Debug)]
pub struct Engine {
    pub entries: Vec<Entry>,
    pub idx: usize,
    pub outcomes: Vec<Outcome>,
    pub phase: Phase,
    pub committed: bool,
}

/// A success outcome of the right kind, carrying the entry's tag.
pub open spec fn success_for_entry(e: Entry, o: Outcome) -> bool {
    match o {
        Outcome::QueryOk { tag, .. } => entry_is_query(e) && tag == entry_tag(e),
        Outcome::StatementOk { tag, .. } => (e matches Entry::Runnable { is_query: false, .. })
            && tag == entry_tag(e),
        Outcome::Failed { .. } => false,
    }
}

impl Engine {
    /// Every entry before the current position has a matching success
    /// outcome at its own position.
    pub open spec fn outcomes_match_prefix(self) -> bool {
        forall|j: int|
            0 <= j < self.idx ==> success_for_entry(
                self.entries@[j],
                #[trigger] self.outcomes@[j],
            )
    }

    /// The engine's invariant.  It ties the outcome list to the entries:
    /// while anything may still run, the outcomes are exactly the
    /// successes of the completed entries; a failure is recorded at most
    /// once per run (plus at most one commit- or rollback-failure), stands
    /// at the end, and is never followed by further execution; the
    /// committed flag is set only when every entry succeeded.
    pub open spec fn wf(self) -> bool {
        let n = self.entries@.len() as int;
        &&& self.idx <= n
        &&& match self.phase {
            Phase::Running => {
                &&& self.idx < n
                &&& self.entries@[self.idx as int] is Runnable
                &&& self.outcomes@.len() == self.idx
                &&& self.outcomes_match_prefix()
                &&& !self.committed
            },
            Phase::Committing => {
                &&& self.idx == n
                &&& self.outcomes@.len() == n
                &&& self.outcomes_match_prefix()
                &&& !self.committed
            },
            Phase::RollingBack => {
                &&& self.idx < n
                &&& self.outcomes@.len() == self.idx + 1
                &&& self.outcomes_match_prefix()
                &&& (self.outcomes@[self.idx as int] matches Outcome::Failed { tag, .. } && tag
                    == entry_tag(self.entries@[self.idx as int]))
                &&& !self.committed
            },
            Phase::Done => {
                if self.committed {
                    &&& self.idx == n
                    &&& self.outcomes@.len() == n
                    &&& self.outcomes_match_prefix()
                } else {
                    &&& self.outcomes_match_prefix()
                    &&& self.idx < self.outcomes@.len() <= self.idx + 2
                    &&& forall|j: int|
                        self.idx <= j < self.outcomes@.len() ==> (#[trigger] self.outcomes@[j])
                            is Failed
                }
            },
        }
    }

    /// The action the engine asks for in its current state.
    pub open spec fn action_of(self) -> ActionKind {
        match self.phase {
            Phase::Running => if entry_is_query(self.entries@[self.idx as int]) {
                ActionKind::RunQuery
            } else {
                ActionKind::RunStatement
            },
            Phase::Committing => ActionKind::Commit,
            Phase::RollingBack => ActionKind::Rollback,
            Phase::Done => ActionKind::Finished,
        }
    }
}

/// How an engine settles at position `idx` over recorded outcomes `base`:
/// past the last entry it awaits the commit; at a runnable entry it awaits
/// that entry's execution; at a doomed entry it records the binding
/// failure as that entry's outcome and awaits the rollback.
pub open spec fn settle_rel(entries: Seq<Entry>, idx: int, base: Seq<Outcome>, post: Engine) -> bool {
    &&& post.entries@ == entries
    &&& post.idx == idx
    &&& !post.committed
    &&& if idx == entries.len() {
        &&& post.outcomes@ == base
        &&& post.phase is Committing
    } else if entries[idx] is Runnable {
        &&& post.outcomes@ == base
        &&& post.phase is Running
    } else {
        &&& entries[idx] matches Entry::Doomed { tag: dtag, message: dmsg }
        &&& post.outcomes@ == base.push(Outcome::Failed { tag: dtag, message: dmsg })
        &&& post.phase is RollingBack
    }
}

/// How an engine records a failure of the current entry: the failure
/// outcome carries the entry's tag and the given message, and the engine
/// turns to rolling back without advancing.
pub open spec fn fail_current(pre: Engine, message: String, post: Engine) -> bool {
    &&& post.entries@ == pre.entries@
    &&& post.idx == pre.idx
    &&& post.outcomes@ == pre.outcomes@.push(
        Outcome::Failed { tag: entry_tag(pre.entries@[pre.idx as int]), message },
    )
    &&& post.phase is RollingBack
    &&& !post.committed
}

/// The engine's full step relation: what one reply does to the state.
pub open spec fn step_rel(pre: Engine, r: Reply, post: Engine) -> bool {
    &&& post.entries@ == pre.entries@
    &&& match pre.phase {
        Phase::Running => match r {
            Reply::Rows(rows) => if rows_shape_ok(rows@) {
                exists|o: Outcome|
                    {
                        &&& o matches Outcome::QueryOk { tag, rows: shaped }
                        &&& tag == entry_tag(pre.entries@[pre.idx as int])
                        &&& rows_shaped(rows@, shaped@)
                        &&& #[trigger] settle_rel(
                            pre.entries@,
                            pre.idx + 1,
                            pre.outcomes@.push(o),
                            post,
                        )
                    }
            } else {
                exists|m: String| #[trigger] fail_current(pre, m, post)
            },
            Reply::ExecFailed(m) => fail_current(pre, m, post),
            Reply::StatementDone { rows_affected, last_insert_id } => settle_rel(
                pre.entries@,
                pre.idx + 1,
                pre.outcomes@.push(
                    Outcome::StatementOk {
                        tag: entry_tag(pre.entries@[pre.idx as int]),
                        rows_affected,
                        last_insert_id,
                    },
                ),
                post,
            ),
            _ => false,
        },
        Phase::Committing => match r {
            Reply::CommitDone => {
                &&& post.idx == pre.idx
                &&& post.outcomes@ == pre.outcomes@
                &&& post.phase is Done
                &&& post.committed
            },
            Reply::CommitFailed(m) => {
                &&& post.idx == pre.idx
                &&& post.outcomes@ == pre.outcomes@.push(
                    Outcome::Failed { tag: Option::None, message: m },
                )
                &&& post.phase is Done
                &&& !post.committed
            },
            _ => false,
        },
        Phase::RollingBack => match r {
            Reply::RollbackDone => {
                &&& post.idx == pre.idx
                &&& post.outcomes@ == pre.outcomes@
                &&& post.phase is Done
                &&& !post.committed
            },
            Reply::RollbackFailed(m) => {
                &&& post.idx == pre.idx
                &&& post.outcomes@ == pre.outcomes@.push(
                    Outcome::Failed { tag: Option::None, message: m },
                )
                &&& post.phase is Done
                &&& !post.committed
            },
            _ => false,
        },
        Phase::Done => false,
    }
}

impl Engine {
    /// The state a freshly advanced engine settles from.
    pub open spec fn pre_settle(self) -> bool {
        &&& self.phase is Running
        &&& !self.committed
        &&& self.idx <= self.entries@.len()
        &&& self.outcomes@.len() == self.idx
        &&& self.outcomes_match_prefix()
    }

    /// Settles the engine at its position: turns to committing past the
    /// last entry, and records a doomed entry's binding failure.
    fn settle(&mut self)
        requires
            old(self).pre_settle(),
        ensures
            final(self).wf(),
            settle_rel(old(self).entries@, old(self).idx as int, old(self).outcomes@, *final(self)),
    {
        if self.idx == self.entries.len() {
            self.phase = Phase::Committing;
        } else {
            match &self.entries[self.idx] {
                Entry::Runnable { .. } => {},
                Entry::Doomed { tag, message } => {
                    let o = Outcome::Failed { tag: clone_tag(tag), message: message.clone() };
                    self.outcomes.push(o);
                    self.phase = Phase::RollingBack;
                },
            }
        }
    }

    /// Starts a transaction over the planned entries.  An empty plan
    /// settles straight to the commit; a plan whose first entry is doomed
    /// settles straight to the rollback, with that failure recorded.
    pub fn new(entries: Vec<Entry>) -> (e: Engine)
        ensures
            e.wf(),
            settle_rel(entries@, 0, Seq::<Outcome>::empty(), e),
    {
        let mut e = Engine {
            entries,
            idx: 0,
            outcomes: Vec::new(),
            phase: Phase::Running,
            committed: false,
        };
        e.settle();
        e
    }

    /// The next action the driving process must perform.
    pub fn action(&self) -> (a: ActionKind)
        requires
            self.wf(),
        ensures
            a == self.action_of(),
    {
        match self.phase {
            Phase::Running => match &self.entries[self.idx] {
                Entry::Runnable { is_query, .. } => if *is_query {
                    ActionKind::RunQuery
                } else {
                    ActionKind::RunStatement
                },
                Entry::Doomed { .. } => vstd::pervasive::unreached(),
            },
            Phase::Committing => ActionKind::Commit,
            Phase::RollingBack => ActionKind::Rollback,
            Phase::Done => ActionKind::Finished,
        }
    }

    /// The SQL text of the entry awaiting execution.
    pub fn current_sql(&self) -> (s: &String)
        requires
            self.wf(),
            self.phase is Running,
        ensures
            self.entries@[self.idx as int] matches Entry::Runnable { sql, .. } && *s == sql,
    {
        match &self.entries[self.idx] {
            Entry::Runnable { sql, .. } => sql,
            Entry::Doomed { .. } => vstd::pervasive::unreached(),
        }
    }

    /// The bound positional parameters of the entry awaiting execution.
    pub fn current_params(&self) -> (p: &Vec<BoundParam>)
        requires
            self.wf(),
            self.phase is Running,
        ensures
            self.entries@[self.idx as int] matches Entry::Runnable { params, .. } && *p == params,
    {
        match &self.entries[self.idx] {
            Entry::Runnable { params, .. } => params,
            Entry::Doomed { .. } => vstd::pervasive::unreached(),
        }
    }

    /// The replies the engine accepts in its current state: the result of
    /// the action it asked for, whatever that result turned out to be.
    pub open spec fn reply_allowed(self, r: Reply) -> bool {
        match self.phase {
            Phase::Running => if entry_is_query(self.entries@[self.idx as int]) {
                r is Rows || r is ExecFailed
            } else {
                r is StatementDone || r is ExecFailed
            },
            Phase::Committing => r is CommitDone || r is CommitFailed,
            Phase::RollingBack => r is RollbackDone || r is RollbackFailed,
            Phase::Done => false,
        }
    }

    /// Hands the performed action's result back to the engine, which
    /// records the outcome and decides what comes next: advance on
    /// success, roll back on the first failure, finish after the commit
    /// or rollback — exactly as [`step_rel`] states.
    pub fn reply(&mut self, r: Reply)
        requires
            old(self).wf(),
            old(self).reply_allowed(r),
        ensures
            final(self).wf(),
            step_rel(*old(self), r, *final(self)),
    {
        match r {
            Reply::Rows(rows) => {
                let tag = match &self.entries[self.idx] {
                    Entry::Runnable { tag, .. } => clone_tag(tag),
                    Entry::Doomed { .. } => vstd::pervasive::unreached(),
                };
                match crate::decode::shape_rows(&rows) {
                    Ok(shaped) => {
                        let o = Outcome::QueryOk { tag, rows: shaped };
                        let ghost og = o;
                        self.outcomes.push(o);
                        let n = self.entries.len();
                        proof {
                            assert(old(self).phase is Running);
                            assert(self.idx < n);
                        }
                        self.idx = self.idx + 1;
                        self.settle();
                        proof {
                            assert(settle_rel(
                                old(self).entries@,
                                old(self).idx + 1,
                                old(self).outcomes@.push(og),
                                *self,
                            ));
                        }
                    },
                    Err(m) => {
                        self.outcomes.push(Outcome::Failed { tag, message: m });
                        self.phase = Phase::RollingBack;
                        proof {
                            let m2 = (*self).outcomes@.last() -> Failed_message;
                            assert(fail_current(*old(self), m2, *self));
                        }
                    },
                }
            },
            Reply::ExecFailed(m) => {
                let tag = match &self.entries[self.idx] {
                    Entry::Runnable { tag, .. } => clone_tag(tag),
                    Entry::Doomed { .. } => vstd::pervasive::unreached(),
                };
                self.outcomes.push(Outcome::Failed { tag, message: m });
                self.phase = Phase::RollingBack;
            },
            Reply::StatementDone { rows_affected, last_insert_id } => {
                let tag = match &self.entries[self.idx] {
                    Entry::Runnable { tag, .. } => clone_tag(tag),
                    Entry::Doomed { .. } => vstd::pervasive::unreached(),
                };
                self.outcomes.push(Outcome::StatementOk { tag, rows_affected, last_insert_id });
                let n = self.entries.len();
                proof {
                    assert(old(self).phase is Running);
                    assert(self.idx < n);
                }
                self.idx = self.idx + 1;
                self.settle();
            },
            Reply::CommitDone => {
                self.phase = Phase::Done;
                self.committed = true;
            },
            Reply::CommitFailed(m) => {
                self.outcomes.push(Outcome::Failed { tag: Option::None, message: m });
                self.phase = Phase::Done;
            },
            Reply::RollbackDone => {
                self.phase = Phase::Done;
            },
            Reply::RollbackFailed(m) => {
                self.outcomes.push(Outcome::Failed { tag: Option::None, message: m });
                self.phase = Phase::Done;
            },
        }
    }
}


// ---------------------------------------------------------------------
// Laws of a finished run
// ---------------------------------------------------------------------

/// If every entry succeeds, the finished response holds exactly one
/// outcome per planned entry, in order — a success of the entry's kind,
/// carrying the entry's tag, never a failure — and the transaction was
/// committed.
pub proof fn lemma_committed_run(e: Engine)
    requires
        e.wf(),
        e.phase is Done,
        e.committed,
    ensures
        e.outcomes@.len() == e.entries@.len(),
        forall|j: int|
            0 <= j < e.outcomes@.len() ==> success_for_entry(
                e.entries@[j],
                #[trigger] e.outcomes@[j],
            ),
        forall|j: int| 0 <= j < e.outcomes@.len() ==> !((#[trigger] e.outcomes@[j]) is Failed),
{
}

/// If the run aborted — some entry was the first to fail — the finished
/// response holds exactly the outcomes attempted: the completed entries'
/// successes in order, then failures only (the failing entry's own, and
/// at most one more from a failing rollback or commit), the last outcome
/// being a failure.  The transaction was never committed, so none of the
/// reported successes' effects persist.
pub proof fn lemma_aborted_run(e: Engine)
    requires
        e.wf(),
        e.phase is Done,
        !e.committed,
    ensures
        e.idx < e.outcomes@.len() <= e.idx + 2,
        e.outcomes@.last() is Failed,
        forall|j: int|
            0 <= j < e.idx ==> success_for_entry(e.entries@[j], #[trigger] e.outcomes@[j]),
        forall|j: int|
            e.idx <= j < e.outcomes@.len() ==> (#[trigger] e.outcomes@[j]) is Failed,
{
}

/// The engine asks for the commit only when every planned entry has its
/// success recorded: once any failure stands in the outcomes, the next
/// action is never the commit.
pub proof fn lemma_commit_only_clean(e: Engine)
    requires
        e.wf(),
        e.action_of() is Commit,
    ensures
        e.outcomes@.len() == e.entries@.len(),
        forall|j: int|
            0 <= j < e.outcomes@.len() ==> success_for_entry(
                e.entries@[j],
                #[trigger] e.outcomes@[j],
            ),
{
}

/// A committed run over a planned request records exactly as many
/// outcomes as its items call for: one per item, except a non-empty
/// batch, which records one per parameter set.
pub proof fn lemma_committed_outcome_count(items: Seq<ReqTransactionItem>, e: Engine)
    requires
        entries_match(items, e.entries@),
        e.wf(),
        e.phase is Done,
        e.committed,
    ensures
        e.outcomes@.len() == total_entry_count(items),
{
    lemma_entries_match_len(items, e.entries@);
}

/// A statement item carrying a batch of M parameter sets (M >= 1) plans
/// exactly M entries, each a statement execution of its own carrying the
/// item's tag — so a committed run records exactly M outcomes for that
/// one item.
pub proof fn lemma_batch_entry_per_set(it: ReqTransactionItem, b: Vec<JsonValue>, es: Seq<Entry>)
    requires
        item_valid(it),
        it.statement is Some,
        it.values_batch == Option::Some(b),
        b@.len() >= 1,
        entries_match(seq![it], es),
    ensures
        es.len() == b@.len(),
        forall|k: int|
            0 <= k < es.len() ==> !entry_is_query(#[trigger] es[k]) && entry_tag(es[k]) == it.tag,
{
    lemma_entries_match_len(seq![it], es);
    assert(seq![it].drop_first() =~= Seq::<ReqTransactionItem>::empty());
    assert(seq![it][0] == it);
    assert(total_entry_count(Seq::<ReqTransactionItem>::empty()) == 0);
    assert(total_entry_count(seq![it]) == entry_count(it));
    assert(forall|k: int| 0 <= k < es.len() ==> entry_matches(it, k, #[trigger] es[k]));
}

} // verus!
