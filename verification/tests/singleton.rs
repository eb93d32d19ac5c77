use structures::singleton::Database;
use structures::singleton::SaferDatabase;

#[test]
fn safer_database_counts_all_queries() {
    let mut db = SaferDatabase::new();
    assert_eq!(db.count(), 0);
    db.query_immut("SELECT * from users");
    db.query_mut("INSERT something");
    db.query_immut("SELECT again");
    assert_eq!(db.count(), 3);
    db.reset();
    assert_eq!(db.count(), 0);
}

#[test]
fn database_counts_exclusive_queries_only() {
    let mut db = Database::new();
    db.query_immut("SELECT * from users");
    assert_eq!(db.count_mut(), 0);
    db.query_mut("INSERT something");
    db.query_mut("INSERT more");
    assert_eq!(db.count_mut(), 2);
    db.reset();
    assert_eq!(db.count_mut(), 0);
}
