use vstd::prelude::*;

verus! {

/// One schema change, applied once to a database.
#[derive(Clone, Copy, Debug)]
pub struct Migration {
    pub version: i64,
    pub description: &'static str,
    pub statement: &'static str,
}

/// Versions of a registry, in registry order.
pub open spec fn versions(reg: Seq<Migration>) -> Seq<i64> {
    reg.map_values(|m: Migration| m.version)
}

/// Versions strictly increase along the registry, so none appears twice.
pub open spec fn strictly_ascending(reg: Seq<Migration>) -> bool {
    forall|i: int, j: int| 0 <= i < j < reg.len() ==> reg[i].version < reg[j].version
}

/// `v` is above every version already recorded as applied.
pub open spec fn above_all(v: i64, applied: Seq<i64>) -> bool {
    forall|j: int| 0 <= j < applied.len() ==> applied[j] < v
}

/// Index of the first registry entry, from `i` on, above every applied
/// version (`reg.len()` if none is).
pub open spec fn first_pending(reg: Seq<Migration>, applied: Seq<i64>, i: int) -> int
    decreases reg.len() - i,
{
    if i < 0 || i >= reg.len() {
        reg.len() as int
    } else if above_all(reg[i].version, applied) {
        i
    } else {
        first_pending(reg, applied, i + 1)
    }
}

/// Index of the first failing statement in `[i, n)` (`n` if none fails).
pub open spec fn first_failure(succeeds: Seq<bool>, i: int, n: int) -> int
    decreases n - i,
{
    if i < 0 || i >= n {
        n
    } else if !succeeds[i] {
        i
    } else {
        first_failure(succeeds, i + 1, n)
    }
}

/// The applied versions after convergence: the old ones, then each pending
/// version up to the first failing one.
pub open spec fn converged(reg: Seq<Migration>, applied: Seq<i64>, succeeds: Seq<bool>) -> Seq<i64> {
    let p = first_pending(reg, applied, 0);
    let f = first_failure(succeeds, p, reg.len() as int);
    applied + versions(reg).subrange(p, f)
}

/// The version whose statement failed during convergence, if one did.
pub open spec fn failed_version(reg: Seq<Migration>, applied: Seq<i64>, succeeds: Seq<bool>) -> Option<i64> {
    let p = first_pending(reg, applied, 0);
    let f = first_failure(succeeds, p, reg.len() as int);
    if f < reg.len() {
        Some(reg[f].version)
    } else {
        None
    }
}

/// Builds one registry entry.
pub fn migration(version: i64, description: &'static str, statement: &'static str) -> (r: Migration)
    ensures
        r.version == version,
        r.description@ == description@,
        r.statement@ == statement@,
{
    Migration { version, description, statement }
}

/// The application's registry: the initial tables, then the rate history.
pub fn get_migrations(initial_tables: &'static str, rate_history: &'static str) -> (r: Vec<Migration>)
    ensures
        r@.len() == 2,
        r@[0].version == 1,
        r@[0].description@ == "create_initial_tables"@,
        r@[0].statement@ == initial_tables@,
        r@[1].version == 2,
        r@[1].description@ == "add_rate_history"@,
        r@[1].statement@ == rate_history@,
        strictly_ascending(r@),
{
    let mut r: Vec<Migration> = Vec::new();
    r.push(migration(1, "create_initial_tables", initial_tables));
    r.push(migration(2, "add_rate_history", rate_history));
    r
}

/// Whether the versions of a registry strictly increase.
pub fn is_strictly_ascending(reg: &Vec<Migration>) -> (r: bool)
    ensures
        r == strictly_ascending(reg@),
{
    let n = reg.len();
    if n == 0 {
        return true;
    }
    let mut i: usize = 1;
    while i < n
        invariant
            1 <= i <= n,
            n == reg@.len(),
            forall|a: int, b: int| 0 <= a < b < i ==> reg@[a].version < reg@[b].version,
        decreases n - i,
    {
        if reg[i - 1].version >= reg[i].version {
            return false;
        }
        proof {
            assert forall|a: int, b: int| 0 <= a < b < i + 1 implies reg@[a].version < reg@[b].version by {
                if b == i && a < i - 1 {
                    assert(reg@[a].version < reg@[i - 1].version);
                }
            }
        }
        i = i + 1;
    }
    true
}

/// Whether `v` is above every applied version.
fn exceeds_all(v: i64, applied: &Vec<i64>) -> (r: bool)
    ensures
        r == above_all(v, applied@),
{
    let mut j: usize = 0;
    while j < applied.len()
        invariant
            j <= applied@.len(),
            forall|k: int| 0 <= k < j ==> applied@[k] < v,
        decreases applied@.len() - j,
    {
        if applied[j] >= v {
            return false;
        }
        j = j + 1;
    }
    true
}

/// Index of the first migration that is still to be applied: the first whose
/// version is above every applied one.
pub fn pending_start(reg: &Vec<Migration>, applied: &Vec<i64>) -> (r: usize)
    ensures
        r as int == first_pending(reg@, applied@, 0),
        r <= reg@.len(),
{
    let mut i: usize = 0;
    while i < reg.len() && !exceeds_all(reg[i].version, applied)
        invariant
            i <= reg@.len(),
            first_pending(reg@, applied@, 0) == first_pending(reg@, applied@, i as int),
        decreases reg@.len() - i,
    {
        i = i + 1;
    }
    i
}

/// Models the convergence rule of the SQL plugin's migration runner.
///
/// The application hands its registry to that runner, which executes the
/// statements itself; the application does not call this function. Here the
/// outcome of every statement is given up front: `succeeds[i]` tells whether
/// the statement of `reg[i]` would run without error. The migrations above
/// every applied version are taken in registry order. Each success is
/// recorded at once; the first failure stops the run, is not recorded, and its
/// version is returned as the error.
pub fn converge(reg: &Vec<Migration>, applied: &mut Vec<i64>, succeeds: &Vec<bool>) -> (r: Result<(), i64>)
    requires
        strictly_ascending(reg@),
        succeeds@.len() == reg@.len(),
    ensures
        final(applied)@ == converged(reg@, old(applied)@, succeeds@),
        r is Ok <==> failed_version(reg@, old(applied)@, succeeds@) is None,
        r is Err ==> failed_version(reg@, old(applied)@, succeeds@) == Some(r->Err_0),
{
    let ghost start = applied@;
    let p = pending_start(reg, applied);
    let n = reg.len();
    let mut i: usize = p;
    assert(start + versions(reg@).subrange(p as int, p as int) =~= start);
    while i < n
        invariant
            p <= i <= n,
            n == reg@.len(),
            start == old(applied)@,
            succeeds@.len() == n,
            p as int == first_pending(reg@, start, 0),
            first_failure(succeeds@, p as int, n as int) == first_failure(succeeds@, i as int, n as int),
            applied@ == start + versions(reg@).subrange(p as int, i as int),
        decreases n - i,
    {
        if !succeeds[i] {
            assert(first_failure(succeeds@, i as int, n as int) == i as int);
            return Err(reg[i].version);
        }
        applied.push(reg[i].version);
        assert(versions(reg@).subrange(p as int, i + 1) =~= versions(reg@).subrange(p as int, i as int).push(
            reg@[i as int].version,
        ));
        i = i + 1;
    }
    assert(first_failure(succeeds@, n as int, n as int) == n as int);
    Ok(())
}

proof fn lemma_first_pending_bounds(reg: Seq<Migration>, applied: Seq<i64>, i: int)
    requires
        0 <= i <= reg.len(),
    ensures
        i <= first_pending(reg, applied, i) <= reg.len(),
        first_pending(reg, applied, i) < reg.len() ==> above_all(
            reg[first_pending(reg, applied, i)].version,
            applied,
        ),
    decreases reg.len() - i,
{
    if i < reg.len() && !above_all(reg[i].version, applied) {
        lemma_first_pending_bounds(reg, applied, i + 1);
    }
}

proof fn lemma_nothing_pending(reg: Seq<Migration>, applied: Seq<i64>, i: int)
    requires
        0 <= i <= reg.len(),
        forall|j: int| i <= j < reg.len() ==> !above_all(#[trigger] reg[j].version, applied),
    ensures
        first_pending(reg, applied, i) == reg.len(),
    decreases reg.len() - i,
{
    if i < reg.len() {
        lemma_nothing_pending(reg, applied, i + 1);
    }
}

proof fn lemma_first_failure_bounds(succeeds: Seq<bool>, i: int, n: int)
    requires
        0 <= i <= n <= succeeds.len(),
    ensures
        i <= first_failure(succeeds, i, n) <= n,
        first_failure(succeeds, i, n) < n ==> !succeeds[first_failure(succeeds, i, n)],
        forall|j: int| i <= j < first_failure(succeeds, i, n) ==> succeeds[j],
    decreases n - i,
{
    if i < n && succeeds[i] {
        lemma_first_failure_bounds(succeeds, i + 1, n);
    }
}

/// On a fresh database where every statement succeeds, convergence records
/// every registry version, in ascending order, and reports no failure.
pub proof fn lemma_fresh_database_converges(reg: Seq<Migration>, succeeds: Seq<bool>)
    requires
        strictly_ascending(reg),
        succeeds.len() == reg.len(),
        forall|i: int| 0 <= i < succeeds.len() ==> succeeds[i],
    ensures
        converged(reg, Seq::empty(), succeeds) == versions(reg),
        failed_version(reg, Seq::empty(), succeeds) is None,
        forall|i: int, j: int|
            0 <= i < j < reg.len() ==> converged(reg, Seq::empty(), succeeds)[i] < converged(
                reg,
                Seq::empty(),
                succeeds,
            )[j],
{
    let n = reg.len() as int;
    assert(first_pending(reg, Seq::empty(), 0) == 0);
    lemma_first_failure_bounds(succeeds, 0, n);
    assert(Seq::<i64>::empty() + versions(reg).subrange(0, n) =~= versions(reg));
}

/// On a database that already holds every registry version, convergence runs
/// no statement, changes nothing and reports no failure.
pub proof fn lemma_converged_database_unchanged(reg: Seq<Migration>, succeeds: Seq<bool>)
    requires
        strictly_ascending(reg),
        succeeds.len() == reg.len(),
    ensures
        first_pending(reg, versions(reg), 0) == reg.len(),
        converged(reg, versions(reg), succeeds) == versions(reg),
        failed_version(reg, versions(reg), succeeds) is None,
{
    let n = reg.len() as int;
    let applied = versions(reg);
    assert forall|j: int| 0 <= j < n implies !above_all(#[trigger] reg[j].version, applied) by {
        assert(applied[j] == reg[j].version);
    }
    lemma_nothing_pending(reg, applied, 0);
    assert(applied + versions(reg).subrange(n, n) =~= applied);
}

/// When the statement of version `v` fails, the versions recorded before the
/// run stay recorded, every pending version below `v` is recorded after them,
/// and no version from `v` upwards is recorded.
pub proof fn lemma_failure_stops_convergence(reg: Seq<Migration>, applied: Seq<i64>, succeeds: Seq<bool>, v: i64)
    requires
        strictly_ascending(reg),
        succeeds.len() == reg.len(),
        failed_version(reg, applied, succeeds) == Some(v),
    ensures
        converged(reg, applied, succeeds).subrange(0, applied.len() as int) == applied,
        forall|j: int|
            0 <= j < converged(reg, applied, succeeds).len() ==> #[trigger] converged(
                reg,
                applied,
                succeeds,
            )[j] < v,
        forall|j: int|
            0 <= j < reg.len() && above_all(reg[j].version, applied) && reg[j].version < v
                ==> converged(reg, applied, succeeds).contains(#[trigger] reg[j].version),
{
    let n = reg.len() as int;
    let p = first_pending(reg, applied, 0);
    let f = first_failure(succeeds, p, n);
    lemma_first_pending_bounds(reg, applied, 0);
    lemma_first_failure_bounds(succeeds, p, n);
    let c = converged(reg, applied, succeeds);
    let added = versions(reg).subrange(p, f);
    assert(c == applied + added);
    assert(c.subrange(0, applied.len() as int) =~= applied);
    assert(v == reg[f].version);
    assert forall|j: int| 0 <= j < c.len() implies #[trigger] c[j] < v by {
        if j < applied.len() {
            assert(applied[j] < reg[p].version);
            if p < f {
                assert(reg[p].version < reg[f].version);
            }
        } else {
            assert(c[j] == reg[p + j - applied.len()].version);
        }
    }
    assert forall|j: int|
        0 <= j < n && above_all(reg[j].version, applied) && reg[j].version < v implies c.contains(
        #[trigger] reg[j].version,
    ) by {
        if j < p {
            assert(first_pending(reg, applied, 0) <= j) by {
                lemma_pending_is_first(reg, applied, 0, j);
            }
        }
        if j >= f {
            if j > f {
                assert(reg[f].version < reg[j].version);
            }
        }
        assert(c[applied.len() + j - p] == reg[j].version);
    }
}

proof fn lemma_pending_is_first(reg: Seq<Migration>, applied: Seq<i64>, i: int, j: int)
    requires
        0 <= i <= j < reg.len(),
        above_all(reg[j].version, applied),
    ensures
        first_pending(reg, applied, i) <= j,
    decreases j - i,
{
    if !above_all(reg[i].version, applied) {
        lemma_pending_is_first(reg, applied, i + 1, j);
    }
}

} // verus!
