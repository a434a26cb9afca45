use geoffrey::schema::{migration_down, migration_up, ColumnKind};

#[test]
fn migration_tables() {
    let tables = migration_up();
    let names: Vec<&str> = tables.iter().map(|t| t.name.as_str()).collect();
    assert_eq!(names, vec!["courses", "users", "forum_channels", "posts"]);
    let users = &tables[1];
    let cols: Vec<&str> = users.columns.iter().map(|c| c.name.as_str()).collect();
    assert_eq!(cols, vec!["id", "name", "net_id"]);
    assert!(users.columns[0].primary_key && users.columns[1].unique);
    let posts = &tables[3];
    assert_eq!(posts.columns[5].name, "deleted");
    assert_eq!(posts.columns[5].kind, ColumnKind::Boolean);
    assert!(posts.columns[5].default_false);
    for t in &tables {
        assert_eq!(t.columns.iter().filter(|c| c.primary_key).count(), 1);
        assert!(t.columns.iter().all(|c| c.not_null));
    }
    assert!(tables.iter().all(|t| t.if_not_exists));
    let dropped = migration_down();
    assert_eq!(dropped.len(), 1);
    assert_eq!(dropped[0].name, "users");
    assert!(!dropped[0].if_exists);
}
