use schema_admin::metadata::{
    find, position, remove_named, CacheError, Column, ColumnDataType, SchemaSnapshot, TableMeta,
    TableMetadataCache, ViewMeta,
};

fn column(name: &str, data_type: ColumnDataType, primary: bool) -> Column {
    Column { name: name.to_string(), data_type, primary, checks: vec![] }
}

fn table(name: &str, columns: Vec<Column>) -> TableMeta {
    TableMeta { name: name.to_string(), columns }
}

fn view(name: &str) -> ViewMeta {
    ViewMeta { name: name.to_string(), columns: vec![] }
}

fn sample() -> TableMetadataCache {
    let mut cache = TableMetadataCache::new();
    cache
        .invalidate_all(Ok(SchemaSnapshot {
            tables: vec![
                table("users", vec![column("id", ColumnDataType::Blob, true)]),
                table("rooms", vec![]),
                table("users", vec![column("other", ColumnDataType::Text, false)]),
            ],
            views: vec![view("recent"), view("users")],
        }))
        .unwrap();
    cache
}

#[test]
fn a_new_cache_knows_nothing() {
    let cache = TableMetadataCache::new();
    assert!(cache.get("users").is_none());
    assert!(cache.get_view("users").is_none());
}

#[test]
fn get_finds_tables_and_get_view_finds_views() {
    let cache = sample();
    assert_eq!(cache.get("rooms").unwrap().name, "rooms");
    assert!(cache.get("recent").is_none());
    assert_eq!(cache.get_view("recent").unwrap().name, "recent");
    assert!(cache.get_view("rooms").is_none());
    assert!(cache.get("room").is_none());
    assert!(cache.get("").is_none());
}

#[test]
fn get_yields_the_first_of_a_name() {
    let cache = sample();
    let users = cache.get("users").unwrap();
    assert_eq!(users.columns.len(), 1);
    assert_eq!(users.columns[0].name, "id");
}

#[test]
fn position_is_the_first_match() {
    let items = vec![view("a"), view("b"), view("a")];
    assert_eq!(position(&items, "a"), Some(0));
    assert_eq!(position(&items, "b"), Some(1));
    assert_eq!(position(&items, "c"), None);
    assert!(find(&items, "c").is_none());
    assert_eq!(find(&items, "b").unwrap().name, "b");
}

#[test]
fn column_by_name_and_primary() {
    let t = table(
        "t",
        vec![
            column("id", ColumnDataType::Integer, true),
            column("text", ColumnDataType::Text, false),
        ],
    );
    assert!(t.column_by_name("id").unwrap().is_primary());
    assert!(!t.column_by_name("text").unwrap().is_primary());
    assert_eq!(t.column_by_name("text").unwrap().data_type, ColumnDataType::Text);
    assert!(t.column_by_name("missing").is_none());
}

#[test]
fn invalidate_all_replaces_everything() {
    let mut cache = sample();
    cache
        .invalidate_all(Ok(SchemaSnapshot { tables: vec![table("fresh", vec![])], views: vec![] }))
        .unwrap();
    assert!(cache.get("users").is_none());
    assert!(cache.get_view("recent").is_none());
    assert!(cache.get("fresh").is_some());
}

#[test]
fn failed_introspection_keeps_the_cache() {
    let mut cache = sample();
    let r = cache.invalidate_all(Err(CacheError::Introspection("lost".to_string())));
    match r {
        Err(CacheError::Introspection(m)) => assert_eq!(m, "lost"),
        other => panic!("unexpected: {other:?}"),
    }
    assert!(cache.get("users").is_some());
    assert!(cache.get_view("recent").is_some());
}

#[test]
fn invalidate_forgets_one_name() {
    let mut cache = sample();
    cache.invalidate("users");
    assert!(cache.get("users").is_none());
    assert!(cache.get_view("users").is_none());
    assert!(cache.get("rooms").is_some());
    assert!(cache.get_view("recent").is_some());
}

#[test]
fn remove_named_keeps_the_order_of_the_rest() {
    let mut items = vec![view("a"), view("x"), view("b"), view("x"), view("c")];
    remove_named(&mut items, "x");
    let names: Vec<&str> = items.iter().map(|v| v.name.as_str()).collect();
    assert_eq!(names, vec!["a", "b", "c"]);
    remove_named(&mut items, "x");
    assert_eq!(items.len(), 3);
}
