use subly::migration::{converge, get_migrations, is_strictly_ascending, migration, pending_start, Migration};

fn registry() -> Vec<Migration> {
    vec![
        migration(1, "one", "CREATE TABLE a (x INTEGER);"),
        migration(2, "two", "CREATE TABLE b (y INTEGER);"),
        migration(5, "five", "CREATE TABLE c (z INTEGER);"),
        migration(7, "seven", "CREATE TABLE d (w INTEGER);"),
    ]
}

#[test]
fn application_registry() {
    let r = get_migrations("CREATE TABLE s (id INTEGER);", "CREATE TABLE rate_history (id INTEGER);");
    assert_eq!(r.len(), 2);
    assert_eq!(r[0].version, 1);
    assert_eq!(r[0].description, "create_initial_tables");
    assert_eq!(r[0].statement, "CREATE TABLE s (id INTEGER);");
    assert_eq!(r[1].version, 2);
    assert_eq!(r[1].description, "add_rate_history");
    assert_eq!(r[1].statement, "CREATE TABLE rate_history (id INTEGER);");
    assert!(is_strictly_ascending(&r));
}

#[test]
fn duplicate_or_descending_versions_are_rejected() {
    assert!(is_strictly_ascending(&registry()));
    assert!(is_strictly_ascending(&Vec::new()));
    assert!(!is_strictly_ascending(&vec![migration(1, "a", "x"), migration(1, "b", "y")]));
    assert!(!is_strictly_ascending(&vec![migration(2, "a", "x"), migration(3, "b", "y"), migration(1, "c", "z")]));
}

#[test]
fn fresh_database_applies_everything_in_order() {
    let reg = registry();
    let mut applied: Vec<i64> = Vec::new();
    assert_eq!(pending_start(&reg, &applied), 0);
    assert_eq!(converge(&reg, &mut applied, &vec![true; 4]), Ok(()));
    assert_eq!(applied, vec![1, 2, 5, 7]);
}

#[test]
fn converged_database_is_left_alone() {
    let reg = registry();
    let mut applied: Vec<i64> = vec![1, 2, 5, 7];
    assert_eq!(pending_start(&reg, &applied), 4);
    // Even statements that would fail are never run.
    assert_eq!(converge(&reg, &mut applied, &vec![false; 4]), Ok(()));
    assert_eq!(applied, vec![1, 2, 5, 7]);
}

#[test]
fn only_versions_above_the_highest_applied_run() {
    let reg = registry();
    let mut applied: Vec<i64> = vec![1, 2];
    assert_eq!(pending_start(&reg, &applied), 2);
    assert_eq!(converge(&reg, &mut applied, &vec![false, false, true, true]), Ok(()));
    assert_eq!(applied, vec![1, 2, 5, 7]);
}

#[test]
fn failure_stops_and_keeps_earlier_versions() {
    let reg = registry();
    let mut applied: Vec<i64> = Vec::new();
    assert_eq!(converge(&reg, &mut applied, &vec![true, true, false, true]), Err(5));
    assert_eq!(applied, vec![1, 2]);
}

#[test]
fn failure_of_first_pending_records_nothing_new() {
    let reg = registry();
    let mut applied: Vec<i64> = vec![1];
    assert_eq!(converge(&reg, &mut applied, &vec![true, false, true, true]), Err(2));
    assert_eq!(applied, vec![1]);
}

#[test]
fn empty_registry_converges_trivially() {
    let reg: Vec<Migration> = Vec::new();
    let mut applied: Vec<i64> = vec![3];
    assert_eq!(converge(&reg, &mut applied, &Vec::new()), Ok(()));
    assert_eq!(applied, vec![3]);
}
