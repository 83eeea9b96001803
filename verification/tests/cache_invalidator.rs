use flow::cache_invalidator::{
    cache_keys, CacheIdent, CacheInvalidator, Context, DummyCacheInvalidator,
    DummyKvCacheInvalidator, KvCacheInvalidator,
};

#[test]
fn cache_keys_of_identifiers() {
    assert_eq!(
        cache_keys(&CacheIdent::TableId(1024)),
        vec![b"__table_info/1024".to_vec(), b"__table_route/1024".to_vec()]
    );
    assert_eq!(
        cache_keys(&CacheIdent::TableId(0)),
        vec![b"__table_info/0".to_vec(), b"__table_route/0".to_vec()]
    );
    assert_eq!(
        cache_keys(&CacheIdent::TableId(u32::MAX)),
        vec![
            b"__table_info/4294967295".to_vec(),
            b"__table_route/4294967295".to_vec()
        ]
    );
    assert_eq!(
        cache_keys(&CacheIdent::TableName {
            catalog: "greptime".to_string(),
            schema: "public".to_string(),
            table: "tä".to_string(),
        }),
        vec!["__table_name/greptime/public/tä".as_bytes().to_vec()]
    );
}

#[test]
fn dummy_invalidators() {
    DummyKvCacheInvalidator.invalidate_key(b"key");
    let ctx = Context::default();
    assert!(ctx.subject.is_none());
    assert_eq!(
        DummyCacheInvalidator.invalidate(&ctx, vec![CacheIdent::TableId(1)]),
        Ok(())
    );
}
