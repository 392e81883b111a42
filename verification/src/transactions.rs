//! Explicit transaction tracking for an interactive session.
//!
//! The manager knows whether a transaction is open and stands between the
//! user and the database for `BEGIN`, `COMMIT`, `ROLLBACK` and `DROP`: it
//! issues a statement only where the tracked state calls for one, and moves
//! the state only when the database accepted the statement.

use crate::db::{execute_statement, query_count, table_count_query};
use crate::text::{
    chars_are, chars_start_with, lowercase, split_words, strip_trailing, strip_trailing_chars,
    texts, to_chars, to_lowercase, to_text, trim, trim_chars, words,
};
use vstd::prelude::*;
use vstd::string::StringExecFns;

verus! {

/// Whether the session currently has an open transaction.
#[derive(Debug, Clone, Copy, PartialEq, Eq, Structural)]
pub enum TransactionState {
    /// No transaction is open.
    Idle,
    /// A transaction is open and awaits a commit or a rollback.
    Active,
}

/// One of the three transaction-control operations.
#[derive(Debug, Clone, Copy, PartialEq, Eq, Structural)]
pub enum TransactionOp {
    Begin,
    Commit,
    Rollback,
}

impl TransactionOp {
    /// The statement that carries the operation out.
    pub open spec fn spec_statement(self) -> Seq<char> {
        match self {
            TransactionOp::Begin => "BEGIN"@,
            TransactionOp::Commit => "COMMIT"@,
            TransactionOp::Rollback => "ROLLBACK"@,
        }
    }

    /// The state in which the operation has something to do.
    pub open spec fn applies_in(self) -> TransactionState {
        match self {
            TransactionOp::Begin => TransactionState::Idle,
            TransactionOp::Commit => TransactionState::Active,
            TransactionOp::Rollback => TransactionState::Active,
        }
    }

    /// The state that the operation leaves once the database accepted it.
    pub open spec fn leaves(self) -> TransactionState {
        match self {
            TransactionOp::Begin => TransactionState::Active,
            TransactionOp::Commit => TransactionState::Idle,
            TransactionOp::Rollback => TransactionState::Idle,
        }
    }

    /// What the user is told when the operation was carried out.
    pub open spec fn done_notice(self) -> NoticeView {
        match self {
            TransactionOp::Begin => NoticeView::Started,
            TransactionOp::Commit => NoticeView::Committed,
            TransactionOp::Rollback => NoticeView::RolledBack,
        }
    }

    /// What the user is told when the operation had nothing to do.
    pub open spec fn skipped_notice(self) -> NoticeView {
        match self {
            TransactionOp::Begin => NoticeView::AlreadyActive,
            TransactionOp::Commit => NoticeView::NothingToCommit,
            TransactionOp::Rollback => NoticeView::NothingToRollback,
        }
    }

    /// The step that fails when the database refuses the operation.
    pub open spec fn failed_step(self) -> FailedStepView {
        match self {
            TransactionOp::Begin => FailedStepView::Begin,
            TransactionOp::Commit => FailedStepView::Commit,
            TransactionOp::Rollback => FailedStepView::Rollback,
        }
    }

    /// The statement that carries the operation out.
    pub fn statement(&self) -> (r: &'static str)
        ensures
            r@ == self.spec_statement(),
    {
        match self {
            TransactionOp::Begin => "BEGIN",
            TransactionOp::Commit => "COMMIT",
            TransactionOp::Rollback => "ROLLBACK",
        }
    }
}

/// The state after `op` was asked for in the state `before`, where
/// `accepted` says whether the database accepted the statement: the state
/// moves only if the operation had something to do and the database accepted
/// it.
pub open spec fn state_after(before: TransactionState, op: TransactionOp, accepted: bool) -> TransactionState {
    if before == op.applies_in() && accepted {
        op.leaves()
    } else {
        before
    }
}

/// The rules of the two states. A transaction opens only by a `BEGIN` that
/// the database accepted, and closes only by a `COMMIT` or `ROLLBACK` that it
/// accepted. A second `BEGIN` leaves the transaction open; `COMMIT` and
/// `ROLLBACK` outside a transaction leave the session outside, and have no
/// statement to issue.
pub proof fn lemma_transition_rules(before: TransactionState, op: TransactionOp, accepted: bool)
    ensures
        state_after(before, op, accepted) != before ==> accepted && before == op.applies_in(),
        before == TransactionState::Idle && state_after(before, op, accepted)
            == TransactionState::Active ==> op == TransactionOp::Begin && accepted,
        before == TransactionState::Active && state_after(before, op, accepted)
            == TransactionState::Idle ==> (op == TransactionOp::Commit || op
            == TransactionOp::Rollback) && accepted,
        state_after(
            state_after(TransactionState::Idle, TransactionOp::Begin, true),
            TransactionOp::Begin,
            accepted,
        ) == TransactionState::Active,
        state_after(TransactionState::Idle, TransactionOp::Commit, accepted)
            == TransactionState::Idle,
        state_after(TransactionState::Idle, TransactionOp::Rollback, accepted)
            == TransactionState::Idle,
        TransactionOp::Commit.applies_in() != TransactionState::Idle,
        TransactionOp::Rollback.applies_in() != TransactionState::Idle,
        TransactionOp::Begin.applies_in() != TransactionState::Active,
{
}

/// What the guard tells the user.
#[derive(Debug, Clone, PartialEq, Eq)]
pub enum Notice {
    Started,
    /// A warning: `BEGIN` inside a transaction changes nothing.
    AlreadyActive,
    Committed,
    NothingToCommit,
    RolledBack,
    NothingToRollback,
    /// `DROP` without a table name.
    DropUsage,
    /// `DROP TABLE` without a table name.
    DropTableUsage,
    /// The named table is not in the catalog; nothing was dropped.
    TableMissing(String),
    TableDropped(String),
}

/// The mathematical value of a [`Notice`].
pub enum NoticeView {
    Started,
    AlreadyActive,
    Committed,
    NothingToCommit,
    RolledBack,
    NothingToRollback,
    DropUsage,
    DropTableUsage,
    TableMissing(Seq<char>),
    TableDropped(Seq<char>),
}

impl View for Notice {
    type V = NoticeView;

    open spec fn view(&self) -> NoticeView {
        match self {
            Notice::Started => NoticeView::Started,
            Notice::AlreadyActive => NoticeView::AlreadyActive,
            Notice::Committed => NoticeView::Committed,
            Notice::NothingToCommit => NoticeView::NothingToCommit,
            Notice::RolledBack => NoticeView::RolledBack,
            Notice::NothingToRollback => NoticeView::NothingToRollback,
            Notice::DropUsage => NoticeView::DropUsage,
            Notice::DropTableUsage => NoticeView::DropTableUsage,
            Notice::TableMissing(t) => NoticeView::TableMissing(t@),
            Notice::TableDropped(t) => NoticeView::TableDropped(t@),
        }
    }
}

impl NoticeView {
    /// The line shown to the user.
    pub open spec fn message(self) -> Seq<char> {
        match self {
            NoticeView::Started => "Transaction started."@,
            NoticeView::AlreadyActive =>
                "Warning: Transaction already active. Use COMMIT or ROLLBACK first."@,
            NoticeView::Committed => "Transaction committed."@,
            NoticeView::NothingToCommit => "No active transaction to commit."@,
            NoticeView::RolledBack => "Transaction rolled back."@,
            NoticeView::NothingToRollback => "No active transaction to rollback."@,
            NoticeView::DropUsage => "Usage: DROP TABLE table_name; or DROP table_name;"@,
            NoticeView::DropTableUsage => "Usage: DROP TABLE table_name;"@,
            NoticeView::TableMissing(t) => "Table '"@ + t + "' does not exist"@,
            NoticeView::TableDropped(t) => "Table '"@ + t + "' dropped successfully"@,
        }
    }

    /// Whether the notice is a warning rather than a report of work done.
    pub open spec fn is_warning(self) -> bool {
        self is AlreadyActive
    }
}

impl Notice {
    /// The line shown to the user.
    pub fn message(&self) -> (r: String)
        ensures
            r@ == self@.message(),
    {
        match self {
            Notice::Started => String::from_str("Transaction started."),
            Notice::AlreadyActive => String::from_str(
                "Warning: Transaction already active. Use COMMIT or ROLLBACK first.",
            ),
            Notice::Committed => String::from_str("Transaction committed."),
            Notice::NothingToCommit => String::from_str("No active transaction to commit."),
            Notice::RolledBack => String::from_str("Transaction rolled back."),
            Notice::NothingToRollback => String::from_str("No active transaction to rollback."),
            Notice::DropUsage => String::from_str(
                "Usage: DROP TABLE table_name; or DROP table_name;",
            ),
            Notice::DropTableUsage => String::from_str("Usage: DROP TABLE table_name;"),
            Notice::TableMissing(t) => String::from_str("Table '").concat(t.as_str()).concat(
                "' does not exist",
            ),
            Notice::TableDropped(t) => String::from_str("Table '").concat(t.as_str()).concat(
                "' dropped successfully",
            ),
        }
    }

    /// Whether the notice is a warning rather than a report of work done.
    pub fn is_warning(&self) -> (r: bool)
        ensures
            r == self@.is_warning(),
    {
        match self {
            Notice::AlreadyActive => true,
            _ => false,
        }
    }
}

/// The step at which the database refused.
#[derive(Debug, Clone, PartialEq, Eq)]
pub enum FailedStep {
    Begin,
    Commit,
    Rollback,
    /// Looking the named table up in the catalog.
    TableLookup(String),
    /// Dropping the named table.
    DropTable(String),
}

/// The mathematical value of a [`FailedStep`].
pub enum FailedStepView {
    Begin,
    Commit,
    Rollback,
    TableLookup(Seq<char>),
    DropTable(Seq<char>),
}

impl View for FailedStep {
    type V = FailedStepView;

    open spec fn view(&self) -> FailedStepView {
        match self {
            FailedStep::Begin => FailedStepView::Begin,
            FailedStep::Commit => FailedStepView::Commit,
            FailedStep::Rollback => FailedStepView::Rollback,
            FailedStep::TableLookup(t) => FailedStepView::TableLookup(t@),
            FailedStep::DropTable(t) => FailedStepView::DropTable(t@),
        }
    }
}

/// A statement that the database refused, with the step it belonged to.
#[derive(Debug)]
pub struct SqlFailure {
    pub step: FailedStep,
    pub source: rusqlite::Error,
}

/// What a command is to the guard.
#[derive(Debug, Clone, PartialEq, Eq)]
pub enum CommandKind {
    Control(TransactionOp),
    /// `DROP` without a table name.
    DropUsage,
    /// `DROP TABLE` without a table name.
    DropTableUsage,
    /// `DROP` of the named table.
    Drop(String),
    /// Ordinary SQL, not the guard's business.
    Other,
}

/// The mathematical value of a [`CommandKind`].
pub enum CommandKindView {
    Control(TransactionOp),
    DropUsage,
    DropTableUsage,
    Drop(Seq<char>),
    Other,
}

impl View for CommandKind {
    type V = CommandKindView;

    open spec fn view(&self) -> CommandKindView {
        match self {
            CommandKind::Control(op) => CommandKindView::Control(*op),
            CommandKind::DropUsage => CommandKindView::DropUsage,
            CommandKind::DropTableUsage => CommandKindView::DropTableUsage,
            CommandKind::Drop(t) => CommandKindView::Drop(t@),
            CommandKind::Other => CommandKindView::Other,
        }
    }
}

/// What the command whose lowercase form is `lowered` is to the guard. The
/// trimmed text is compared with the six transaction-control phrases; a text
/// that begins with `drop` names its table in the word after `drop`, or after
/// `drop table`, without the semicolons at its end.
pub open spec fn classify(lowered: Seq<char>) -> CommandKindView {
    let t = trim(lowered);
    if t == "begin"@ || t == "begin transaction"@ {
        CommandKindView::Control(TransactionOp::Begin)
    } else if t == "commit"@ || t == "commit transaction"@ {
        CommandKindView::Control(TransactionOp::Commit)
    } else if t == "rollback"@ || t == "rollback transaction"@ {
        CommandKindView::Control(TransactionOp::Rollback)
    } else if "drop"@.is_prefix_of(t) {
        let parts = words(t);
        if parts.len() < 2 {
            CommandKindView::DropUsage
        } else if parts[1] == "table"@ {
            if parts.len() < 3 {
                CommandKindView::DropTableUsage
            } else {
                CommandKindView::Drop(strip_trailing(parts[2], ';'))
            }
        } else {
            CommandKindView::Drop(strip_trailing(parts[1], ';'))
        }
    } else {
        CommandKindView::Other
    }
}

/// Classifies the command whose lowercase form is `lowered`.
pub fn classify_command(lowered: &str) -> (r: CommandKind)
    ensures
        r@ == classify(lowered@),
{
    let t = trim_chars(&to_chars(lowered));
    if chars_are(&t, "begin") || chars_are(&t, "begin transaction") {
        CommandKind::Control(TransactionOp::Begin)
    } else if chars_are(&t, "commit") || chars_are(&t, "commit transaction") {
        CommandKind::Control(TransactionOp::Commit)
    } else if chars_are(&t, "rollback") || chars_are(&t, "rollback transaction") {
        CommandKind::Control(TransactionOp::Rollback)
    } else if chars_start_with(&t, "drop") {
        let parts = split_words(&t);
        if parts.len() < 2 {
            CommandKind::DropUsage
        } else if chars_are(&parts[1], "table") {
            if parts.len() < 3 {
                CommandKind::DropTableUsage
            } else {
                assert(texts(parts@)[2] == parts@[2]@);
                CommandKind::Drop(to_text(&strip_trailing_chars(&parts[2], ';')))
            }
        } else {
            assert(texts(parts@)[1] == parts@[1]@);
            CommandKind::Drop(to_text(&strip_trailing_chars(&parts[1], ';')))
        }
    } else {
        CommandKind::Other
    }
}

/// The statement that drops the table `table`.
pub open spec fn drop_statement(table: Seq<char>) -> Seq<char> {
    "DROP TABLE "@ + table
}

/// What the guard did with a command.
#[derive(Debug, Clone, PartialEq, Eq)]
pub enum Intercept {
    /// The command was the guard's, and this is what to tell the user.
    Handled(Notice),
    /// Ordinary SQL: run it as it is.
    NotMine,
}

/// The mathematical value of an [`Intercept`].
pub enum InterceptView {
    Handled(NoticeView),
    NotMine,
}

impl View for Intercept {
    type V = InterceptView;

    open spec fn view(&self) -> InterceptView {
        match self {
            Intercept::Handled(n) => InterceptView::Handled(n@),
            Intercept::NotMine => InterceptView::NotMine,
        }
    }
}

/// Tracks the transaction state of one session.
pub struct TransactionManager {
    state: TransactionState,
}

impl TransactionManager {
    /// The state that the manager tracks.
    pub closed spec fn state(&self) -> TransactionState {
        self.state
    }

    /// Whether a transaction is open.
    pub open spec fn active(&self) -> bool {
        self.state() == TransactionState::Active
    }

    /// A manager with no open transaction.
    pub fn new() -> (m: Self)
        ensures
            m.state() == TransactionState::Idle,
    {
        TransactionManager { state: TransactionState::Idle }
    }

    /// Whether a transaction is open.
    pub fn is_active(&self) -> (b: bool)
        ensures
            b == self.active(),
    {
        self.state == TransactionState::Active
    }

    /// The statement to issue for `op`, if the tracked state calls for one:
    /// none for `BEGIN` inside a transaction, none for `COMMIT` or `ROLLBACK`
    /// outside.
    pub fn pending_statement(&self, op: TransactionOp) -> (r: Option<&'static str>)
        ensures
            r is Some <==> self.state() == op.applies_in(),
            r matches Some(s) ==> s@ == op.spec_statement(),
    {
        let applies = match op {
            TransactionOp::Begin => self.state == TransactionState::Idle,
            _ => self.state == TransactionState::Active,
        };
        if applies {
            Some(op.statement())
        } else {
            None
        }
    }

    /// Takes in what the database answered to the statement of `op`: on
    /// success the state moves and the user is told so, on failure the state
    /// stays and the error is handed on.
    pub fn conclude(&mut self, op: TransactionOp, outcome: Result<usize, rusqlite::Error>) -> (r:
        Result<Notice, SqlFailure>)
        ensures
            outcome is Ok ==> r is Ok && r->Ok_0@ == op.done_notice() && final(self).state()
                == op.leaves(),
            outcome matches Err(e) ==> r is Err && r->Err_0.step@ == op.failed_step()
                && r->Err_0.source == e && final(self).state() == old(self).state(),
    {
        match outcome {
            Ok(_) => {
                match op {
                    TransactionOp::Begin => {
                        self.state = TransactionState::Active;
                        Ok(Notice::Started)
                    },
                    TransactionOp::Commit => {
                        self.state = TransactionState::Idle;
                        Ok(Notice::Committed)
                    },
                    TransactionOp::Rollback => {
                        self.state = TransactionState::Idle;
                        Ok(Notice::RolledBack)
                    },
                }
            },
            Err(e) => {
                let step = match op {
                    TransactionOp::Begin => FailedStep::Begin,
                    TransactionOp::Commit => FailedStep::Commit,
                    TransactionOp::Rollback => FailedStep::Rollback,
                };
                Err(SqlFailure { step, source: e })
            },
        }
    }

    /// Carries out `op`. Where the tracked state leaves it nothing to do, the
    /// user gets a notice and neither the state nor the database is touched.
    /// Otherwise the statement is issued, and the state moves only if the
    /// database accepted it.
    pub fn perform(&mut self, conn: &rusqlite::Connection, op: TransactionOp) -> (r: Result<
        Notice,
        SqlFailure,
    >)
        ensures
            final(self).state() == state_after(old(self).state(), op, r is Ok),
            old(self).state() != op.applies_in() ==> r is Ok && r->Ok_0@ == op.skipped_notice(),
            old(self).state() == op.applies_in() ==> match r {
                Ok(n) => n@ == op.done_notice(),
                Err(f) => f.step@ == op.failed_step(),
            },
    {
        match self.pending_statement(op) {
            None => {
                match op {
                    TransactionOp::Begin => Ok(Notice::AlreadyActive),
                    TransactionOp::Commit => Ok(Notice::NothingToCommit),
                    TransactionOp::Rollback => Ok(Notice::NothingToRollback),
                }
            },
            Some(sql) => {
                let outcome = execute_statement(conn, sql);
                self.conclude(op, outcome)
            },
        }
    }

    /// Opens a transaction. Inside a transaction this is a warning and
    /// changes nothing.
    pub fn begin_transaction(&mut self, conn: &rusqlite::Connection) -> (r: Result<
        Notice,
        SqlFailure,
    >)
        ensures
            old(self).active() ==> r is Ok && r->Ok_0@ == NoticeView::AlreadyActive && final(self).active(),
            !old(self).active() ==> match r {
                Ok(n) => n@ == NoticeView::Started && final(self).active(),
                Err(f) => f.step@ == FailedStepView::Begin && !final(self).active(),
            },
    {
        self.perform(conn, TransactionOp::Begin)
    }

    /// Commits the open transaction. Outside a transaction this is a notice
    /// and changes nothing; a commit that the database refuses leaves the
    /// transaction open.
    pub fn commit_transaction(&mut self, conn: &rusqlite::Connection) -> (r: Result<
        Notice,
        SqlFailure,
    >)
        ensures
            !old(self).active() ==> r is Ok && r->Ok_0@ == NoticeView::NothingToCommit && !final(self).active(),
            old(self).active() ==> match r {
                Ok(n) => n@ == NoticeView::Committed && !final(self).active(),
                Err(f) => f.step@ == FailedStepView::Commit && final(self).active(),
            },
    {
        self.perform(conn, TransactionOp::Commit)
    }

    /// Rolls the open transaction back. Outside a transaction this is a
    /// notice and changes nothing; a rollback that the database refuses
    /// leaves the transaction open.
    pub fn rollback_transaction(&mut self, conn: &rusqlite::Connection) -> (r: Result<
        Notice,
        SqlFailure,
    >)
        ensures
            !old(self).active() ==> r is Ok && r->Ok_0@ == NoticeView::NothingToRollback
                && !final(self).active(),
            old(self).active() ==> match r {
                Ok(n) => n@ == NoticeView::RolledBack && !final(self).active(),
                Err(f) => f.step@ == FailedStepView::Rollback && final(self).active(),
            },
    {
        self.perform(conn, TransactionOp::Rollback)
    }

    /// The line that reports the transaction status.
    pub fn show_status(&self) -> (r: &'static str)
        ensures
            r@ == (if self.active() {
                "Transaction is active."@
            } else {
                "No active transaction."@
            }),
    {
        match self.state {
            TransactionState::Idle => "No active transaction.",
            TransactionState::Active => "Transaction is active.",
        }
    }

    /// Takes the command whose lowercase form is `lowered` and carries it out
    /// if it is the guard's.
    pub fn handle_lowered(&mut self, conn: &rusqlite::Connection, lowered: &str) -> (r: Result<
        Intercept,
        SqlFailure,
    >)
        ensures
            guard_outcome(classify(lowered@), old(self).state(), r, final(self).state()),
    {
        match classify_command(lowered) {
            CommandKind::Control(op) => {
                match self.perform(conn, op) {
                    Ok(n) => Ok(Intercept::Handled(n)),
                    Err(f) => Err(f),
                }
            },
            CommandKind::DropUsage => Ok(Intercept::Handled(Notice::DropUsage)),
            CommandKind::DropTableUsage => Ok(Intercept::Handled(Notice::DropTableUsage)),
            CommandKind::Drop(table) => {
                let lookup = query_count(conn, table_count_query(), table.as_str());
                match after_lookup(table, lookup) {
                    Err(f) => Err(f),
                    Ok(DropPlan::Missing(table)) => Ok(
                        Intercept::Handled(Notice::TableMissing(table)),
                    ),
                    Ok(DropPlan::Issue { table, statement }) => {
                        let outcome = execute_statement(conn, statement.as_str());
                        match after_drop(table, outcome) {
                            Ok(n) => Ok(Intercept::Handled(n)),
                            Err(f) => Err(f),
                        }
                    },
                }
            },
            CommandKind::Other => Ok(Intercept::NotMine),
        }
    }

    /// Takes a command and carries it out if it is the guard's: the three
    /// transaction-control operations, whatever their case, and `DROP`, which
    /// is issued only for a table that the catalog knows.
    pub fn handle_sql_command(&mut self, conn: &rusqlite::Connection, sql: &str) -> (r: Result<
        Intercept,
        SqlFailure,
    >)
        ensures
            guard_outcome(classify(lowercase(sql@)), old(self).state(), r, final(self).state()),
    {
        let lowered = to_lowercase(sql);
        self.handle_lowered(conn, lowered.as_str())
    }

    /// Ends the session: an open transaction is rolled back, and a rollback
    /// that the database refuses is handed back, not raised. Says whether a
    /// rollback was issued.
    pub fn end_session(&mut self, conn: &rusqlite::Connection) -> (r: (bool, Option<SqlFailure>))
        ensures
            r.0 == old(self).active(),
            !old(self).active() ==> r.1 is None && !final(self).active(),
            old(self).active() ==> (r.1 is None <==> !final(self).active()),
            r.1 matches Some(f) ==> f.step@ == FailedStepView::Rollback,
    {
        if self.is_active() {
            match self.rollback_transaction(conn) {
                Ok(_) => (true, None),
                Err(f) => (true, Some(f)),
            }
        } else {
            (false, None)
        }
    }
}

/// What the guard does once the catalog answered.
#[derive(Debug)]
pub enum DropPlan {
    /// The table is not there: tell the user, issue nothing.
    Missing(String),
    /// The table is there: issue `statement`.
    Issue { table: String, statement: String },
}

/// Takes in what the catalog answered about `table`: a count of zero means
/// that the table is missing and nothing is issued, another count that the
/// drop statement is issued, an error that the lookup failed.
pub fn after_lookup(table: String, lookup: Result<i64, rusqlite::Error>) -> (r: Result<
    DropPlan,
    SqlFailure,
>)
    ensures
        match lookup {
            Ok(count) => if count == 0 {
                r matches Ok(DropPlan::Missing(t)) && t@ == table@
            } else {
                r matches Ok(DropPlan::Issue { table: t, statement: s }) && t@ == table@ && s@
                    == drop_statement(table@)
            },
            Err(e) => r matches Err(f) && f.step@ == FailedStepView::TableLookup(table@)
                && f.source == e,
        },
{
    match lookup {
        Ok(count) => {
            if count == 0 {
                Ok(DropPlan::Missing(table))
            } else {
                let statement = String::from_str("DROP TABLE ").concat(table.as_str());
                Ok(DropPlan::Issue { table, statement })
            }
        },
        Err(e) => Err(SqlFailure { step: FailedStep::TableLookup(table), source: e }),
    }
}

/// Takes in what the database answered to the drop of `table`.
pub fn after_drop(table: String, outcome: Result<usize, rusqlite::Error>) -> (r: Result<
    Notice,
    SqlFailure,
>)
    ensures
        match outcome {
            Ok(_) => r matches Ok(n) && n@ == NoticeView::TableDropped(table@),
            Err(e) => r matches Err(f) && f.step@ == FailedStepView::DropTable(table@) && f.source
                == e,
        },
{
    match outcome {
        Ok(_) => Ok(Notice::TableDropped(table)),
        Err(e) => Err(SqlFailure { step: FailedStep::DropTable(table), source: e }),
    }
}

/// What holds of the guard's answer `r` to a command of kind `kind`, taken
/// in state `before` and left in state `after`, whatever the database said.
pub open spec fn guard_outcome(
    kind: CommandKindView,
    before: TransactionState,
    r: Result<Intercept, SqlFailure>,
    after: TransactionState,
) -> bool {
    match kind {
        CommandKindView::Control(op) => after == state_after(before, op, r is Ok) && if before
            != op.applies_in() {
            r is Ok && r->Ok_0@ == InterceptView::Handled(op.skipped_notice())
        } else {
            match r {
                Ok(i) => i@ == InterceptView::Handled(op.done_notice()),
                Err(f) => f.step@ == op.failed_step(),
            }
        },
        CommandKindView::DropUsage => r is Ok && r->Ok_0@ == InterceptView::Handled(
            NoticeView::DropUsage,
        ) && after == before,
        CommandKindView::DropTableUsage => r is Ok && r->Ok_0@ == InterceptView::Handled(
            NoticeView::DropTableUsage,
        ) && after == before,
        CommandKindView::Drop(table) => after == before && match r {
            Ok(i) => i@ == InterceptView::Handled(NoticeView::TableMissing(table)) || i@
                == InterceptView::Handled(NoticeView::TableDropped(table)),
            Err(f) => f.step@ == FailedStepView::TableLookup(table) || f.step@
                == FailedStepView::DropTable(table),
        },
        CommandKindView::Other => r is Ok && r->Ok_0@ == InterceptView::NotMine && after == before,
    }
}

} // verus!
