//! Invalidation of cached table metadata: which cache keys an identifier
//! stands for, and the interfaces through which they are invalidated.

use vstd::prelude::*;
use vstd::utf8::encode_utf8;

verus! {

/// The context of an invalidation, such as the subject it is made for.
pub struct Context {
    pub subject: Option<String>,
}

impl Default for Context {
    /// The context without subject.
    fn default() -> (r: Context)
        ensures
            r.subject is None,
    {
        Context { subject: None }
    }
}

/// What an invalidation names: a table by its number, or by its name.
#[derive(Debug, PartialEq, Eq)]
pub enum CacheIdent {
    TableId(u32),
    TableName { catalog: String, schema: String, table: String },
}

/// Why an invalidation failed.
#[derive(Debug, PartialEq, Eq)]
pub struct InvalidateError {
    pub reason: String,
}

/// The decimal digits of `n`, most significant first, as ASCII bytes.
pub open spec fn spec_decimal(n: nat) -> Seq<u8>
    decreases n,
{
    if n < 10 {
        seq![(0x30 + n) as u8]
    } else {
        spec_decimal(n / 10).push((0x30 + n % 10) as u8)
    }
}

/// The bytes of a string of ASCII characters.
pub open spec fn ascii_bytes(s: Seq<char>) -> Seq<u8> {
    Seq::new(s.len(), |i: int| s[i] as u8)
}

/// The key under which the information of table `table_id` is cached.
pub open spec fn spec_table_info_key(table_id: u32) -> Seq<u8> {
    ascii_bytes("__table_info/"@) + spec_decimal(table_id as nat)
}

/// The key under which the route of table `table_id` is cached.
pub open spec fn spec_table_route_key(table_id: u32) -> Seq<u8> {
    ascii_bytes("__table_route/"@) + spec_decimal(table_id as nat)
}

/// The key under which the table of the given catalog, schema and name is
/// cached, from the UTF-8 bytes of the three.
pub open spec fn spec_table_name_key(catalog: Seq<u8>, schema: Seq<u8>, table: Seq<u8>) -> Seq<u8> {
    ascii_bytes("__table_name/"@) + catalog + seq![0x2fu8] + schema + seq![0x2fu8] + table
}

/// The cache keys that an identifier stands for, in the order in which they
/// are invalidated: for a table number the key of its information and the
/// key of its route, for a table name the key of the name.
pub open spec fn spec_cache_keys(cache: CacheIdent) -> Seq<Seq<u8>> {
    match cache {
        CacheIdent::TableId(table_id) => seq![
            spec_table_info_key(table_id),
            spec_table_route_key(table_id),
        ],
        CacheIdent::TableName { catalog, schema, table } => seq![
            spec_table_name_key(
                encode_utf8(catalog@),
                encode_utf8(schema@),
                encode_utf8(table@),
            ),
        ],
    }
}

fn append_bytes(out: &mut Vec<u8>, bytes: &[u8])
    ensures
        final(out)@ == old(out)@ + bytes@,
{
    let ghost before = out@;
    let mut i: usize = 0;
    while i < bytes.len()
        invariant
            i <= bytes@.len(),
            out@ == before + bytes@.take(i as int),
        decreases bytes@.len() - i,
    {
        out.push(bytes[i]);
        assert(bytes@.take(i + 1) =~= bytes@.take(i as int).push(bytes@[i as int]));
        i = i + 1;
    }
    assert(bytes@.take(i as int) =~= bytes@);
}

/// Appends the decimal digits of `n` to `out`.
fn append_decimal(out: &mut Vec<u8>, n: u32)
    ensures
        final(out)@ == old(out)@ + spec_decimal(n as nat),
    decreases n,
{
    if n < 10 {
        out.push(0x30 + n as u8);
        assert(out@ =~= old(out)@ + spec_decimal(n as nat));
    } else {
        append_decimal(out, n / 10);
        out.push(0x30 + (n % 10) as u8);
        assert(out@ =~= old(out)@ + spec_decimal(n as nat));
    }
}

fn prefix_bytes(prefix: &str) -> (r: Vec<u8>)
    requires
        prefix.is_ascii(),
    ensures
        r@ == ascii_bytes(prefix@),
{
    let mut out: Vec<u8> = Vec::new();
    let bytes = prefix.as_bytes();
    proof {
        vstd::string::is_ascii_spec_bytes(prefix);
    }
    append_bytes(&mut out, bytes);
    assert(out@ =~= ascii_bytes(prefix@));
    out
}

/// The cache keys that `cache` stands for, in the order in which they are
/// to be invalidated.
pub fn cache_keys(cache: &CacheIdent) -> (r: Vec<Vec<u8>>)
    ensures
        r@.len() == spec_cache_keys(*cache).len(),
        forall|i: int| 0 <= i < r@.len() ==> (#[trigger] r@[i])@ == spec_cache_keys(*cache)[i],
{
    let mut keys: Vec<Vec<u8>> = Vec::new();
    match cache {
        CacheIdent::TableId(table_id) => {
            proof {
                reveal_strlit("__table_info/");
                reveal_strlit("__table_route/");
            }
            let mut info = prefix_bytes("__table_info/");
            append_decimal(&mut info, *table_id);
            let mut route = prefix_bytes("__table_route/");
            append_decimal(&mut route, *table_id);
            keys.push(info);
            keys.push(route);
        },
        CacheIdent::TableName { catalog, schema, table } => {
            proof {
                reveal_strlit("__table_name/");
            }
            let mut key = prefix_bytes("__table_name/");
            append_bytes(&mut key, catalog.as_str().as_bytes());
            key.push(0x2f);
            append_bytes(&mut key, schema.as_str().as_bytes());
            key.push(0x2f);
            append_bytes(&mut key, table.as_str().as_bytes());
            assert(key@ =~= spec_table_name_key(
                encode_utf8(catalog@),
                encode_utf8(schema@),
                encode_utf8(table@),
            ));
            keys.push(key);
        },
    }
    keys
}

/// An invalidator of single cache keys.
pub trait KvCacheInvalidator {
    /// Invalidates what is cached under `key`.
    fn invalidate_key(&self, key: &[u8]);
}

/// The invalidator of single keys that does nothing.
pub struct DummyKvCacheInvalidator;

impl KvCacheInvalidator for DummyKvCacheInvalidator {
    fn invalidate_key(&self, _key: &[u8]) {
    }
}

/// An invalidator of cached table metadata.
pub trait CacheInvalidator {
    /// Invalidates what is cached for each of `caches`.
    fn invalidate(&self, ctx: &Context, caches: Vec<CacheIdent>) -> Result<(), InvalidateError>;
}

/// The invalidator that does nothing, and succeeds.
pub struct DummyCacheInvalidator;

impl CacheInvalidator for DummyCacheInvalidator {
    fn invalidate(&self, _ctx: &Context, _caches: Vec<CacheIdent>) -> (r: Result<
        (),
        InvalidateError,
    >)
        ensures
            r is Ok,
    {
        Ok(())
    }
}

} // verus!
