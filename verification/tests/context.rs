use flow::session::context::{
    build_db_string, parse_catalog_and_schema_from_db_string, Channel, ConnInfo, QueryContext,
    QueryContextBuilder, SqlDialect, DEFAULT_CATALOG_NAME, DEFAULT_SCHEMA_NAME,
};

#[test]
fn test_context_db_string() {
    let context = QueryContext::with("a0b1c2d3", "test");
    assert_eq!("a0b1c2d3-test", context.get_db_string());

    let context = QueryContext::with(DEFAULT_CATALOG_NAME, "test");
    assert_eq!("test", context.get_db_string());
}

#[test]
fn db_string_joins_catalog_and_schema() {
    assert_eq!(build_db_string("greptime", "public"), "public");
    assert_eq!(build_db_string("other", "public"), "other-public");
    assert_eq!(build_db_string("", ""), "-");
}

#[test]
fn default_context() {
    let context = QueryContext::arc();
    assert_eq!(context.current_catalog(), DEFAULT_CATALOG_NAME);
    assert_eq!(context.current_catalog(), "greptime");
    assert_eq!(context.current_schema(), DEFAULT_SCHEMA_NAME);
    assert_eq!(context.current_schema(), "public");
    assert_eq!(context.sql_dialect(), SqlDialect::GreptimeDb);
    assert_eq!(context.extension("any"), None);
}

#[test]
fn builder_set_extension() {
    let context = QueryContextBuilder::default()
        .set_extension("k1".to_string(), "v1".to_string())
        .set_extension("k2".to_string(), "v2".to_string())
        .set_extension("k1".to_string(), "v3".to_string())
        .current_schema("s".to_string())
        .sql_dialect(SqlDialect::MySql)
        .build();
    assert_eq!(context.extension("k1"), Some("v3"));
    assert_eq!(context.extension("k2"), Some("v2"));
    assert_eq!(context.extension("k3"), None);
    assert_eq!(context.current_schema(), "s");
    assert_eq!(context.current_catalog(), "greptime");
    assert_eq!(context.sql_dialect(), SqlDialect::MySql);
}

#[test]
fn channel_dialect_and_name() {
    assert_eq!(Channel::Mysql.dialect(), SqlDialect::MySql);
    assert_eq!(Channel::Postgres.dialect(), SqlDialect::PostgreSql);
    assert_eq!(Channel::Mysql.name(), "mysql");
    assert_eq!(Channel::Postgres.name(), "postgres");
}

#[test]
fn quote_style_prefers_double_quote() {
    assert_eq!(QueryContext::quote_style(true, true), '"');
    assert_eq!(QueryContext::quote_style(true, false), '"');
    assert_eq!(QueryContext::quote_style(false, true), '\'');
    assert_eq!(QueryContext::quote_style(false, false), '`');
}

#[test]
fn db_string_parsing() {
    assert_eq!(
        parse_catalog_and_schema_from_db_string("a0b1c2d3-test"),
        ("a0b1c2d3".to_string(), "test".to_string())
    );
    assert_eq!(
        parse_catalog_and_schema_from_db_string("a-b-c"),
        ("a".to_string(), "b-c".to_string())
    );
    assert_eq!(
        parse_catalog_and_schema_from_db_string("test"),
        ("greptime".to_string(), "test".to_string())
    );
    assert_eq!(
        parse_catalog_and_schema_from_db_string("-"),
        (String::new(), String::new())
    );
    let context = QueryContext::with_db_name(Some("c-s"));
    assert_eq!(context.current_catalog(), "c");
    assert_eq!(context.current_schema(), "s");
    let context = QueryContext::with_db_name(None);
    assert_eq!(context.current_catalog(), "greptime");
    assert_eq!(context.current_schema(), "public");
    assert_eq!(context.describe(), "QueryContext{catalog: greptime, schema: public}");
}

#[test]
fn conn_info_display() {
    let info = ConnInfo::new(Some("127.0.0.1:9000".to_string()), Channel::Mysql);
    assert_eq!(info.channel, Channel::Mysql);
    assert_eq!("mysql[127.0.0.1:9000]", info.describe());
    let info = ConnInfo::new(None, Channel::Postgres);
    assert_eq!("postgres[unknown client addr]", info.describe());
}
