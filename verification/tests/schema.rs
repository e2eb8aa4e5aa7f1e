use moat::schema::{key_table, migrations, registration_link_table, user_table, ColumnType};

#[test]
fn migrations_run_in_order() {
    let names: Vec<String> = migrations().into_iter().map(|m| m.name).collect();
    assert_eq!(
        names,
        vec![
            "m20220803_000818_create_user",
            "m20220803_000830_create_key",
            "m20220803_000835_create_registration"
        ]
    );
    let tables: Vec<String> = migrations().into_iter().map(|m| m.table.name).collect();
    assert_eq!(tables, vec!["user", "key", "registration_link"]);
}

#[test]
fn user_table_columns() {
    let t = user_table();
    let cols: Vec<(String, ColumnType, bool, bool)> = t
        .columns
        .into_iter()
        .map(|c| (c.name, c.column_type, c.not_null, c.primary_key))
        .collect();
    assert_eq!(
        cols,
        vec![
            ("id".to_string(), ColumnType::Uuid, true, true),
            ("email".to_string(), ColumnType::Text, true, false),
            ("role".to_string(), ColumnType::Text, true, false),
            ("created_at".to_string(), ColumnType::Timestamp, true, false),
            ("last_authenticated".to_string(), ColumnType::Timestamp, true, false),
        ]
    );
    assert!(t.foreign_keys.is_empty());
}

#[test]
fn key_table_refers_to_users() {
    let t = key_table();
    assert_eq!(t.name, "key");
    assert_eq!(t.columns.len(), 7);
    assert_eq!(t.columns[6].name, "credential");
    assert_eq!(t.columns[6].column_type, ColumnType::Json);
    assert_eq!(t.foreign_keys.len(), 1);
    let f = &t.foreign_keys[0];
    assert_eq!(
        (f.name.as_str(), f.from_table.as_str(), f.from_column.as_str(), f.to_table.as_str(), f.to_column.as_str()),
        ("FK-key-user", "key", "user_id", "user", "id")
    );
}

#[test]
fn registration_link_table_refers_to_keys() {
    let t = registration_link_table();
    assert_eq!(t.name, "registration_link");
    assert!(t.columns[0].auto_increment && t.columns[0].primary_key);
    assert_eq!(t.columns[0].column_type, ColumnType::Integer);
    assert!(!t.columns[2].not_null);
    let f = &t.foreign_keys[0];
    assert_eq!(f.name, "FK-registration_link-key");
    assert_eq!((f.to_table.as_str(), f.to_column.as_str()), ("key", "id"));
}

#[test]
fn tables_are_created_only_where_missing_and_keys_take_no_action() {
    for m in migrations() {
        assert!(m.table.if_not_exists);
        for f in &m.table.foreign_keys {
            assert_eq!(f.on_delete, moat::schema::OnDelete::NoAction);
        }
    }
}
