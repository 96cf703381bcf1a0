//! Which migrations are pending, how far a rollback goes, and whether the
//! schema is in sync. The migrator and the database are read elsewhere; the
//! decisions are made here.

use vstd::prelude::*;
use vstd::string::*;

use crate::error::AppError;
use crate::text::{parse_u32, parse_u32_spec, str_eq, str_concat, decimal, signed_decimal, i64_to_string, u64_to_string};

verus! {

/// A migration known to the migrator: its version, its description, and
/// whether it is an up migration (as opposed to a reversal).
#[derive(Debug, Clone)]
pub struct Migration {
    pub version: i64,
    pub description: String,
    pub is_up: bool,
}

/// Information about a pending migration.
#[derive(Debug, Clone)]
pub struct PendingMigration {
    pub version: i64,
    pub description: String,
}

/// Information about an applied migration.
#[derive(Debug, Clone)]
pub struct AppliedMigrationStatus {
    pub version: i64,
    pub description: String,
}

/// The up migrations of `available` whose version is not among `applied`,
/// in the migrator's order.
pub open spec fn pending_of(applied: Seq<i64>, available: Seq<Migration>) -> Seq<PendingMigration>
    decreases available.len(),
{
    if available.len() == 0 {
        Seq::empty()
    } else {
        let rest = pending_of(applied, available.drop_last());
        let m = available.last();
        if m.is_up && !applied.contains(m.version) {
            rest.push(PendingMigration { version: m.version, description: m.description })
        } else {
            rest
        }
    }
}

fn contains_version(applied: &[i64], v: i64) -> (r: bool)
    ensures
        r == applied@.contains(v),
{
    let n = applied.len();
    let mut i: usize = 0;
    while i < n
        invariant
            n == applied@.len(),
            0 <= i <= n,
            forall|j: int| 0 <= j < i ==> applied@[j] != v,
        decreases n - i,
    {
        if applied[i] == v {
            return true;
        }
        i = i + 1;
    }
    false
}

/// The pending migrations: those up migrations of `available` that are not
/// applied, in the migrator's order.
pub fn pending_migrations(applied: &[i64], available: &[Migration]) -> (r: Vec<PendingMigration>)
    ensures
        r@ == pending_of(applied@, available@),
{
    let n = available.len();
    let mut out: Vec<PendingMigration> = Vec::new();
    let mut i: usize = 0;
    while i < n
        invariant
            n == available@.len(),
            0 <= i <= n,
            out@ == pending_of(applied@, available@.subrange(0, i as int)),
        decreases n - i,
    {
        let m = &available[i];
        let ghost prefix = available@.subrange(0, i + 1);
        assert(prefix.drop_last() =~= available@.subrange(0, i as int));
        assert(prefix.last() == available@[i as int]);
        if m.is_up && !contains_version(applied, m.version) {
            out.push(PendingMigration { version: m.version, description: m.description.clone() });
        }
        i = i + 1;
    }
    assert(available@.subrange(0, n as int) =~= available@);
    out
}

/// The version a rollback of `steps` migrations returns the schema to, when
/// `applied` lists the applied versions in ascending order: the version
/// applied just before the last `steps`, or 0 when all of them go.
pub open spec fn rollback_target_of(applied: Seq<i64>, steps: nat) -> i64 {
    if steps == applied.len() {
        0
    } else {
        applied[applied.len() - steps - 1]
    }
}

/// The message of a rollback that asks for more steps than were applied.
pub open spec fn rollback_refusal(steps: nat, applied: nat) -> Seq<char> {
    "Cannot rollback "@ + decimal(steps) + " step(s): only "@ + decimal(applied)
        + " migration(s) applied"@
}

/// Decides how far a rollback of `steps` migrations goes. `applied` lists the
/// applied versions in ascending order.
pub fn rollback_target(applied: &[i64], steps: u32) -> (r: Result<i64, AppError>)
    ensures
        steps > applied@.len() ==> (r matches Err(AppError::MigrationFailed(m)) && m@
            == rollback_refusal(steps as nat, applied@.len())),
        steps <= applied@.len() ==> r == Ok::<i64, AppError>(
            rollback_target_of(applied@, steps as nat),
        ),
{
    let n = applied.len();
    if steps as usize > n {
        let mut msg = str_concat("Cannot rollback ", u64_to_string(steps as u64).as_str());
        msg.append(" step(s): only ");
        msg.append(u64_to_string(n as u64).as_str());
        msg.append(" migration(s) applied");
        return Err(AppError::MigrationFailed(msg));
    }
    if steps as usize == n {
        Ok(0)
    } else {
        Ok(applied[n - steps as usize - 1])
    }
}

/// The note that lists pending migrations when the schema is out of sync.
pub open spec fn pending_note(pending: Seq<PendingMigration>) -> Seq<char> {
    "Run: cargo run --bin kbr-migrate -- migrate\nPending: "@ + pending_list(pending)
}

/// `version (description)` for each pending migration, joined with `, `.
pub open spec fn pending_list(pending: Seq<PendingMigration>) -> Seq<char>
    decreases pending.len(),
{
    if pending.len() == 0 {
        Seq::empty()
    } else if pending.len() == 1 {
        pending_entry(pending[0])
    } else {
        pending_list(pending.drop_last()) + ", "@ + pending_entry(pending.last())
    }
}

/// `version (description)` for one pending migration.
pub open spec fn pending_entry(p: PendingMigration) -> Seq<char> {
    signed_decimal(p.version as int) + " ("@ + p.description@ + ")"@
}

/// Fails when migrations are pending: the schema must be in sync before the
/// server starts.
pub fn ensure_schema_in_sync(pending: &[PendingMigration]) -> (r: Result<(), AppError>)
    ensures
        pending@.len() == 0 ==> r is Ok,
        pending@.len() > 0 ==> (r matches Err(AppError::SchemaOutOfSync(n, m)) && n
            == pending@.len() && m@ == pending_note(pending@)),
{
    let n = pending.len();
    if n == 0 {
        return Ok(());
    }
    let mut list = String::new();
    let mut i: usize = 0;
    while i < n
        invariant
            n == pending@.len(),
            0 <= i <= n,
            list@ == pending_list(pending@.subrange(0, i as int)),
        decreases n - i,
    {
        let ghost prefix = pending@.subrange(0, i + 1);
        assert(prefix.drop_last() =~= pending@.subrange(0, i as int));
        if i > 0 {
            list.append(", ");
        }
        list.append(i64_to_string(pending[i].version).as_str());
        list.append(" (");
        list.append(pending[i].description.as_str());
        list.append(")");
        proof {
            if i == 0 {
                assert(prefix.len() == 1);
            }
        }
        assert(list@ =~= pending_list(prefix));
        i = i + 1;
    }
    assert(pending@.subrange(0, n as int) =~= pending@);
    let note = str_concat("Run: cargo run --bin kbr-migrate -- migrate\nPending: ", list.as_str());
    Err(AppError::SchemaOutOfSync(n, note))
}

/// Whether a migration is still to run under `applied`.
pub open spec fn still_to_run(applied: Seq<i64>) -> spec_fn(Migration) -> bool {
    |m: Migration| m.is_up && !applied.contains(m.version)
}

/// What is reported of a pending migration.
pub open spec fn as_pending() -> spec_fn(Migration) -> PendingMigration {
    |m: Migration| PendingMigration { version: m.version, description: m.description }
}

/// The pending migrations are the up migrations not yet applied, each with
/// its version and description, in the migrator's order, and nothing else.
pub proof fn lemma_pending_are_unapplied_up_migrations(applied: Seq<i64>, available: Seq<Migration>)
    ensures
        pending_of(applied, available) == available.filter(still_to_run(applied)).map_values(
            as_pending(),
        ),
    decreases available.len(),
{
    reveal(Seq::filter);
    if available.len() > 0 {
        let init = available.drop_last();
        lemma_pending_are_unapplied_up_migrations(applied, init);
        let f = init.filter(still_to_run(applied));
        let m = available.last();
        if still_to_run(applied)(m) {
            assert(f.push(m).map_values(as_pending()) =~= f.map_values(as_pending()).push(
                as_pending()(m),
            ));
        }
    } else {
        assert(available.filter(still_to_run(applied)) =~= Seq::<Migration>::empty());
        assert(available.filter(still_to_run(applied)).map_values(as_pending()) =~= Seq::<
            PendingMigration,
        >::empty());
    }
}

/// A migration is pending exactly when it is an up migration the migrator
/// knows and its version has not been applied.
pub proof fn lemma_pending_exact(applied: Seq<i64>, available: Seq<Migration>, v: i64)
    ensures
        (exists|i: int| 0 <= i < pending_of(applied, available).len() && #[trigger] pending_of(
            applied,
            available,
        )[i].version == v) <==> (!applied.contains(v) && exists|j: int|
            0 <= j < available.len() && (#[trigger] available[j]).version == v
                && available[j].is_up),
    decreases available.len(),
{
    if available.len() > 0 {
        let init = available.drop_last();
        lemma_pending_exact(applied, init, v);
        let p = pending_of(applied, available);
        let q = pending_of(applied, init);
        if exists|i: int| 0 <= i < p.len() && #[trigger] p[i].version == v {
            let i = choose|i: int| 0 <= i < p.len() && #[trigger] p[i].version == v;
            if i < q.len() {
                assert(p[i] == q[i]);
                let j = choose|j: int|
                    0 <= j < init.len() && (#[trigger] init[j]).version == v && init[j].is_up;
                assert(available[j] == init[j]);
            } else {
                assert(available[available.len() - 1] == available.last());
            }
        }
        if !applied.contains(v) && exists|j: int|
            0 <= j < available.len() && (#[trigger] available[j]).version == v
                && available[j].is_up {
            let j = choose|j: int|
                0 <= j < available.len() && (#[trigger] available[j]).version == v
                    && available[j].is_up;
            if j < init.len() {
                assert(init[j] == available[j]);
                let i = choose|i: int| 0 <= i < q.len() && #[trigger] q[i].version == v;
                assert(p[i] == q[i]);
            } else {
                assert(p[p.len() - 1].version == v);
            }
        }
    }
}

/// How many versions of `s` lie above `t`.
pub open spec fn count_above(s: Seq<i64>, t: i64) -> nat
    decreases s.len(),
{
    if s.len() == 0 {
        0
    } else {
        count_above(s.drop_last(), t) + if s.last() > t { 1nat } else { 0nat }
    }
}

proof fn lemma_count_above_split(s: Seq<i64>, k: int, t: i64)
    requires
        0 <= k <= s.len(),
        forall|i: int| 0 <= i < k ==> s[i] <= t,
        forall|i: int| k <= i < s.len() ==> s[i] > t,
    ensures
        count_above(s, t) == s.len() - k,
    decreases s.len(),
{
    if s.len() > k {
        lemma_count_above_split(s.drop_last(), k, t);
    } else if s.len() > 0 {
        lemma_count_above_split(s.drop_last(), k - 1, t);
        assert(s.last() <= t);
    }
}

/// When the applied versions are positive and ascending, rolling back
/// `steps` of them returns to a version above which exactly `steps` applied
/// versions lie: the rollback undoes exactly the last `steps` migrations.
pub proof fn lemma_rollback_undoes_steps(applied: Seq<i64>, steps: nat)
    requires
        steps <= applied.len(),
        forall|i: int| 0 <= i < applied.len() ==> applied[i] > 0,
        forall|i: int, j: int| 0 <= i < j < applied.len() ==> applied[i] < applied[j],
    ensures
        count_above(applied, rollback_target_of(applied, steps)) == steps,
{
    let t = rollback_target_of(applied, steps);
    let k = applied.len() - steps;
    assert forall|i: int| 0 <= i < k implies applied[i] <= t by {
        if i < k - 1 {
            assert(applied[i] < applied[k - 1]);
        }
    }
    assert forall|i: int| k <= i < applied.len() implies applied[i] > t by {
        if k > 0 {
            assert(applied[k - 1] < applied[i]);
        }
    }
    lemma_count_above_split(applied, k, t);
}

/// A command of the migration tool.
#[derive(Debug, Clone, Copy, PartialEq, Eq, Structural)]
pub enum MigrateCommand {
    /// Print the usage and exit successfully.
    Help,
    /// Run all pending migrations.
    Migrate,
    /// Roll back the last migrations.
    Rollback,
    /// Show applied and pending migrations.
    Status,
    /// Check that the schema is up to date.
    Check,
    /// Anything else: refused, with the usage.
    Unknown,
}

/// The command named by the tool's first argument; none means `help`.
pub open spec fn command_named(arg: Option<Seq<char>>) -> MigrateCommand {
    match arg {
        None => MigrateCommand::Help,
        Some(a) => if a == "help"@ || a == "--help"@ || a == "-h"@ {
            MigrateCommand::Help
        } else if a == "migrate"@ {
            MigrateCommand::Migrate
        } else if a == "rollback"@ {
            MigrateCommand::Rollback
        } else if a == "status"@ {
            MigrateCommand::Status
        } else if a == "check"@ {
            MigrateCommand::Check
        } else {
            MigrateCommand::Unknown
        },
    }
}

/// Reads the migration tool's command from its first argument.
pub fn migrate_command(arg: Option<&str>) -> (r: MigrateCommand)
    ensures
        r == command_named(
            match arg {
                Some(a) => Some(a@),
                None => None,
            },
        ),
{
    match arg {
        None => MigrateCommand::Help,
        Some(a) => {
            if str_eq(a, "help") || str_eq(a, "--help") || str_eq(a, "-h") {
                MigrateCommand::Help
            } else if str_eq(a, "migrate") {
                MigrateCommand::Migrate
            } else if str_eq(a, "rollback") {
                MigrateCommand::Rollback
            } else if str_eq(a, "status") {
                MigrateCommand::Status
            } else if str_eq(a, "check") {
                MigrateCommand::Check
            } else {
                MigrateCommand::Unknown
            }
        },
    }
}

/// How many migrations `rollback` undoes: the number given as its argument,
/// or 1 when none is given or it is not a number.
pub fn rollback_steps(arg: Option<&str>) -> (r: u32)
    ensures
        r == match arg {
            Some(a) => match parse_u32_spec(a@) {
                Some(n) => n,
                None => 1u32,
            },
            None => 1u32,
        },
{
    match arg {
        Some(a) => match parse_u32(a) {
            Some(n) => n,
            None => 1,
        },
        None => 1,
    }
}

} // verus!
