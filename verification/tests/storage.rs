use tuxwire::storage::migrations::{migrations, pending_migrations, user_version_statement, INIT_SQL};

#[test]
fn a_fresh_database_needs_every_migration() {
    let list = migrations();
    assert_eq!(list.len(), 1);
    assert_eq!(list[0].version, 1);
    assert_eq!(list[0].name, "001_init");
    assert!(list[0].sql.contains("saved_at"));
    assert!(list[0].sql.contains("noted_at"));
    assert_eq!(list[0].sql, INIT_SQL);
    assert_eq!(pending_migrations(0, &list), vec![0]);
}

#[test]
fn an_up_to_date_database_needs_none() {
    let list = migrations();
    assert_eq!(pending_migrations(1, &list), Vec::<usize>::new());
    assert_eq!(pending_migrations(7, &list), Vec::<usize>::new());
}

#[test]
fn user_version_statement_records_the_version() {
    assert_eq!(user_version_statement(0), "PRAGMA user_version = 0");
    assert_eq!(user_version_statement(1), "PRAGMA user_version = 1");
    assert_eq!(user_version_statement(4294967295), "PRAGMA user_version = 4294967295");
}
