//! The query context and its builder.

use std::sync::Arc;
use vstd::prelude::*;
use crate::text::split_once_hyphen;
use crate::text::str_eq;

verus! {

/// The catalog of a context that names none.
pub const DEFAULT_CATALOG_NAME: &'static str = "greptime";

/// The schema of a context that names none.
pub const DEFAULT_SCHEMA_NAME: &'static str = "public";

/// The SQL dialect that a connection speaks.
#[derive(Clone, Copy, Debug, PartialEq, Eq, Structural, Hash)]
pub enum SqlDialect {
    GreptimeDb,
    MySql,
    PostgreSql,
}

/// The protocol of a connection.
#[derive(Clone, Copy, Debug, PartialEq, Eq, Structural, Hash)]
pub enum Channel {
    Mysql,
    Postgres,
}

impl Channel {
    /// The dialect that the protocol speaks.
    pub fn dialect(&self) -> (d: SqlDialect)
        ensures
            d == match *self {
                Channel::Mysql => SqlDialect::MySql,
                Channel::Postgres => SqlDialect::PostgreSql,
            },
    {
        match self {
            Channel::Mysql => SqlDialect::MySql,
            Channel::Postgres => SqlDialect::PostgreSql,
        }
    }

    /// The name of the protocol, as it is displayed.
    pub fn name(&self) -> (r: &'static str)
        ensures
            r@ == match *self {
                Channel::Mysql => "mysql"@,
                Channel::Postgres => "postgres"@,
            },
    {
        match self {
            Channel::Mysql => "mysql",
            Channel::Postgres => "postgres",
        }
    }
}

/// The entries of an extension list as a map; of two entries under one key
/// the later one counts.
pub open spec fn entries_map(s: Seq<(String, String)>) -> Map<Seq<char>, Seq<char>>
    decreases s.len(),
{
    if s.len() == 0 {
        Map::empty()
    } else {
        entries_map(s.drop_last()).insert(s.last().0@, s.last().1@)
    }
}

/// Whether no key occurs twice.
pub open spec fn distinct_keys(s: Seq<(String, String)>) -> bool {
    forall|i: int, j: int| 0 <= i < j < s.len() ==> (#[trigger] s[i]).0@ != (#[trigger] s[j]).0@
}

/// A key of the map is the key of an entry.
pub proof fn lemma_entries_dom(s: Seq<(String, String)>, key: Seq<char>)
    ensures
        entries_map(s).dom().contains(key) <==> exists|i: int|
            0 <= i < s.len() && (#[trigger] s[i]).0@ == key,
    decreases s.len(),
{
    if s.len() > 0 {
        let front = s.drop_last();
        lemma_entries_dom(front, key);
        if entries_map(s).dom().contains(key) {
            if s.last().0@ == key {
                assert(s[s.len() - 1].0@ == key);
            } else {
                let i = choose|i: int| 0 <= i < front.len() && (#[trigger] front[i]).0@ == key;
                assert(s[i].0@ == key);
            }
        }
        if exists|i: int| 0 <= i < s.len() && (#[trigger] s[i]).0@ == key {
            let i = choose|i: int| 0 <= i < s.len() && (#[trigger] s[i]).0@ == key;
            if i < front.len() {
                assert(front[i].0@ == key);
            }
        }
    }
}

/// Among distinct keys, the map holds under each key the value of its entry.
pub proof fn lemma_entries_value(s: Seq<(String, String)>, i: int)
    requires
        distinct_keys(s),
        0 <= i < s.len(),
    ensures
        entries_map(s).dom().contains(s[i].0@),
        entries_map(s)[s[i].0@] == s[i].1@,
    decreases s.len(),
{
    let front = s.drop_last();
    if i < s.len() - 1 {
        assert(distinct_keys(front)) by {
            assert forall|a: int, b: int| 0 <= a < b < front.len() implies (#[trigger] front[a]).0@
                != (#[trigger] front[b]).0@ by {
                assert(front[a] == s[a] && front[b] == s[b]);
            }
        }
        lemma_entries_value(front, i);
        assert(front[i] == s[i]);
        assert(s[i].0@ != s[s.len() - 1].0@);
    }
}

/// Among distinct keys, a new value in place of entry `i` is the map's
/// insertion under that key.
pub proof fn lemma_entries_update(s: Seq<(String, String)>, i: int, entry: (String, String))
    requires
        distinct_keys(s),
        0 <= i < s.len(),
        entry.0@ == s[i].0@,
    ensures
        entries_map(s.update(i, entry)) == entries_map(s).insert(entry.0@, entry.1@),
        distinct_keys(s.update(i, entry)),
    decreases s.len(),
{
    let t = s.update(i, entry);
    assert(distinct_keys(t)) by {
        assert forall|a: int, b: int| 0 <= a < b < t.len() implies (#[trigger] t[a]).0@ != (
        #[trigger] t[b]).0@ by {
            assert(s[a].0@ != s[b].0@);
        }
    }
    let front = s.drop_last();
    if i == s.len() - 1 {
        assert(t.drop_last() =~= front);
        assert(entries_map(t) =~= entries_map(s).insert(entry.0@, entry.1@));
    } else {
        assert(distinct_keys(front)) by {
            assert forall|a: int, b: int| 0 <= a < b < front.len() implies (#[trigger] front[a]).0@
                != (#[trigger] front[b]).0@ by {
                assert(front[a] == s[a] && front[b] == s[b]);
            }
        }
        assert(front[i] == s[i]);
        lemma_entries_update(front, i, entry);
        assert(t.drop_last() =~= front.update(i, entry));
        assert(t.last() == s.last());
        assert(s[i].0@ != s[s.len() - 1].0@);
        assert(entries_map(t) =~= entries_map(s).insert(entry.0@, entry.1@));
    }
}

/// The extensions of a query context: values under string keys, each key
/// held once.
#[derive(Debug, PartialEq, Eq)]
pub struct Extensions {
    entries: Vec<(String, String)>,
}

impl View for Extensions {
    type V = Map<Seq<char>, Seq<char>>;

    closed spec fn view(&self) -> Map<Seq<char>, Seq<char>> {
        entries_map(self.entries@)
    }
}

impl Extensions {
    #[verifier::type_invariant]
    spec fn valid(self) -> bool {
        distinct_keys(self.entries@)
    }

    /// No extensions.
    pub fn new() -> (r: Extensions)
        ensures
            r@ == Map::<Seq<char>, Seq<char>>::empty(),
    {
        Extensions { entries: Vec::new() }
    }

    fn position(&self, key: &str) -> (r: Option<usize>)
        ensures
            match r {
                Some(i) => i < self.entries@.len() && self.entries@[i as int].0@ == key@,
                None => forall|j: int|
                    0 <= j < self.entries@.len() ==> (#[trigger] self.entries@[j]).0@ != key@,
            },
    {
        let mut i: usize = 0;
        while i < self.entries.len()
            invariant
                i <= self.entries@.len(),
                forall|j: int| 0 <= j < i ==> (#[trigger] self.entries@[j]).0@ != key@,
            decreases self.entries@.len() - i,
        {
            if str_eq(self.entries[i].0.as_str(), key) {
                return Some(i);
            }
            i = i + 1;
        }
        None
    }

    /// Sets the extension `key` to `value`, in place of any earlier value.
    pub fn insert(&mut self, key: String, value: String)
        ensures
            final(self)@ == old(self)@.insert(key@, value@),
    {
        proof {
            use_type_invariant(&*self);
        }
        let found = self.position(key.as_str());
        let mut entries: Vec<(String, String)> = Vec::new();
        core::mem::swap(&mut entries, &mut self.entries);
        let ghost before = entries@;
        match found {
            Some(i) => {
                proof {
                    lemma_entries_update(before, i as int, (key, value));
                }
                entries.set(i, (key, value));
            },
            None => {
                entries.push((key, value));
                assert(entries@.drop_last() =~= before);
                assert(distinct_keys(entries@));
            },
        }
        core::mem::swap(&mut entries, &mut self.entries);
    }

    /// The value of the extension `key`, if it is set.
    pub fn get(&self, key: &str) -> (r: Option<&str>)
        ensures
            match r {
                Some(v) => self@.dom().contains(key@) && self@[key@] == v@,
                None => !self@.dom().contains(key@),
            },
    {
        proof {
            use_type_invariant(self);
            lemma_entries_dom(self.entries@, key@);
        }
        match self.position(key) {
            Some(i) => {
                proof {
                    lemma_entries_value(self.entries@, i as int);
                }
                Some(self.entries[i].1.as_str())
            },
            None => None,
        }
    }
}

/// The name under which a database is addressed: the schema alone in the
/// default catalog, else the catalog and the schema joined by a hyphen.
pub open spec fn spec_db_string(catalog: Seq<char>, schema: Seq<char>) -> Seq<char> {
    if catalog == DEFAULT_CATALOG_NAME@ {
        schema
    } else {
        catalog + "-"@ + schema
    }
}

/// Builds the name under which the database `schema` of `catalog` is
/// addressed.
pub fn build_db_string(catalog: &str, schema: &str) -> (r: String)
    ensures
        r@ == spec_db_string(catalog@, schema@),
{
    if str_eq(catalog, DEFAULT_CATALOG_NAME) {
        String::from_str(schema)
    } else {
        let mut out = String::from_str(catalog);
        out.append("-");
        out.append(schema);
        out
    }
}

/// Splits the name under which a database is addressed into catalog and
/// schema: the parts before and behind the first hyphen, or, without a
/// hyphen, the default catalog and the whole name.
pub fn parse_catalog_and_schema_from_db_string(db: &str) -> (r: (String, String))
    ensures
        db@.contains('-') ==> db@ == r.0@ + seq!['-'] + r.1@ && !r.0@.contains('-'),
        !db@.contains('-') ==> r.0@ == DEFAULT_CATALOG_NAME@ && r.1@ == db@,
{
    match split_once_hyphen(db) {
        Some((catalog, schema)) => {
            proof {
                let i = catalog@.len() as int;
                assert((catalog@ + seq!['-'] + schema@)[i] == '-');
            }
            (String::from_str(catalog), String::from_str(schema))
        },
        None => (String::from_str(DEFAULT_CATALOG_NAME), String::from_str(db)),
    }
}

/// How a connection is displayed: the name of its protocol, and in square
/// brackets the address of its client, if that is known.
pub open spec fn spec_conn_info(channel: Channel, client_addr: Option<Seq<char>>) -> Seq<char> {
    (match channel {
        Channel::Mysql => "mysql"@,
        Channel::Postgres => "postgres"@,
    }) + "["@ + (match client_addr {
        Some(addr) => addr,
        None => "unknown client addr"@,
    }) + "]"@
}

/// A connection: its protocol, and the address of its client as text.
#[derive(Debug, PartialEq, Eq)]
pub struct ConnInfo {
    pub client_addr: Option<String>,
    pub channel: Channel,
}

impl ConnInfo {
    /// The connection of the given client over the given protocol.
    pub fn new(client_addr: Option<String>, channel: Channel) -> (r: ConnInfo)
        ensures
            r.client_addr == client_addr,
            r.channel == channel,
    {
        ConnInfo { client_addr, channel }
    }

    /// The connection as it is displayed.
    pub fn describe(&self) -> (r: String)
        ensures
            r@ == spec_conn_info(
                self.channel,
                match self.client_addr {
                    Some(addr) => Some(addr@),
                    None => None,
                },
            ),
    {
        let mut out = String::from_str(self.channel.name());
        out.append("[");
        match &self.client_addr {
            Some(addr) => out.append(addr.as_str()),
            None => out.append("unknown client addr"),
        }
        out.append("]");
        out
    }
}

/// The mathematical content of a [`QueryContext`].
pub ghost struct SpecQueryContext {
    pub current_catalog: Seq<char>,
    pub current_schema: Seq<char>,
    pub sql_dialect: SqlDialect,
    pub extension: Map<Seq<char>, Seq<char>>,
}

/// The context of a query.
#[derive(Debug)]
pub struct QueryContext {
    current_catalog: String,
    current_schema: String,
    sql_dialect: SqlDialect,
    extension: Extensions,
}

/// A shared query context.
pub type QueryContextRef = Arc<QueryContext>;

impl View for QueryContext {
    type V = SpecQueryContext;

    closed spec fn view(&self) -> SpecQueryContext {
        SpecQueryContext {
            current_catalog: self.current_catalog@,
            current_schema: self.current_schema@,
            sql_dialect: self.sql_dialect,
            extension: self.extension@,
        }
    }
}

impl QueryContext {
    /// The context of the default catalog and schema.
    pub fn arc() -> (r: QueryContextRef)
        ensures
            r@ == QueryContextBuilder::spec_default().spec_build(),
    {
        QueryContextBuilder::default().build()
    }

    /// The context of the given catalog and schema.
    pub fn with(catalog: &str, schema: &str) -> (r: QueryContextRef)
        ensures
            r@ == (SpecQueryContext {
                current_catalog: catalog@,
                current_schema: schema@,
                sql_dialect: SqlDialect::GreptimeDb,
                extension: Map::empty(),
            }),
    {
        QueryContextBuilder::default().current_catalog(String::from_str(catalog)).current_schema(
            String::from_str(schema),
        ).build()
    }

    /// The context of the database addressed as `db_name`, or of the
    /// default catalog and schema where there is no name.
    pub fn with_db_name(db_name: Option<&str>) -> (r: QueryContextRef)
        ensures
            r@.sql_dialect == SqlDialect::GreptimeDb,
            r@.extension == Map::<Seq<char>, Seq<char>>::empty(),
            match db_name {
                None => r@.current_catalog == DEFAULT_CATALOG_NAME@ && r@.current_schema
                    == DEFAULT_SCHEMA_NAME@,
                Some(db) => if db@.contains('-') {
                    db@ == r@.current_catalog + seq!['-'] + r@.current_schema
                        && !r@.current_catalog.contains('-')
                } else {
                    r@.current_catalog == DEFAULT_CATALOG_NAME@ && r@.current_schema == db@
                },
            },
    {
        let (catalog, schema) = match db_name {
            Some(db) => parse_catalog_and_schema_from_db_string(db),
            None => (
                String::from_str(DEFAULT_CATALOG_NAME),
                String::from_str(DEFAULT_SCHEMA_NAME),
            ),
        };
        QueryContextBuilder::default().current_catalog(catalog).current_schema(schema).build()
    }

    /// The context as it is displayed.
    pub fn describe(&self) -> (r: String)
        ensures
            r@ == "QueryContext{catalog: "@ + self@.current_catalog + ", schema: "@
                + self@.current_schema + "}"@,
    {
        let mut out = String::from_str("QueryContext{catalog: ");
        out.append(self.current_catalog());
        out.append(", schema: ");
        out.append(self.current_schema());
        out.append("}");
        out
    }

    /// The quote character for identifiers: the double quote where the dialect
    /// opens a delimited identifier with it, else the single quote where it
    /// opens one with that, else the back quote.
    pub fn quote_style(double_quote_delimits: bool, single_quote_delimits: bool) -> (c: char)
        ensures
            c == if double_quote_delimits {
                '"'
            } else if single_quote_delimits {
                '\''
            } else {
                '`'
            },
    {
        if double_quote_delimits {
            '"'
        } else if single_quote_delimits {
            '\''
        } else {
            '`'
        }
    }

    /// The schema that the query runs in.
    pub fn current_schema(&self) -> (r: &str)
        ensures
            r@ == self@.current_schema,
    {
        self.current_schema.as_str()
    }

    /// The catalog that the query runs in.
    pub fn current_catalog(&self) -> (r: &str)
        ensures
            r@ == self@.current_catalog,
    {
        self.current_catalog.as_str()
    }

    /// The SQL dialect of the connection.
    pub fn sql_dialect(&self) -> (r: SqlDialect)
        ensures
            r == self@.sql_dialect,
    {
        self.sql_dialect
    }

    /// The name under which the database of the context is addressed.
    pub fn get_db_string(&self) -> (r: String)
        ensures
            r@ == spec_db_string(self@.current_catalog, self@.current_schema),
    {
        let catalog = self.current_catalog();
        let schema = self.current_schema();
        build_db_string(catalog, schema)
    }

    /// Sets the extension `key` to `value`, in place of any earlier value.
    pub fn set_extension(&mut self, key: String, value: String)
        ensures
            final(self)@ == (SpecQueryContext {
                extension: old(self)@.extension.insert(key@, value@),
                ..old(self)@
            }),
    {
        self.extension.insert(key, value);
    }

    /// The value of the extension `key`, if it is set.
    pub fn extension(&self, key: &str) -> (r: Option<&str>)
        ensures
            match r {
                Some(v) => self@.extension.dom().contains(key@) && self@.extension[key@] == v@,
                None => !self@.extension.dom().contains(key@),
            },
    {
        self.extension.get(key)
    }
}

impl Clone for Extensions {
    /// A copy that holds the same extensions.
    fn clone(&self) -> (r: Self)
        ensures
            r@ == self@,
    {
        proof {
            use_type_invariant(self);
        }
        let mut entries: Vec<(String, String)> = Vec::new();
        let mut i: usize = 0;
        while i < self.entries.len()
            invariant
                i <= self.entries@.len(),
                entries@ == self.entries@.take(i as int),
            decreases self.entries@.len() - i,
        {
            entries.push((self.entries[i].0.clone(), self.entries[i].1.clone()));
            assert(self.entries@.take(i + 1) =~= self.entries@.take(i as int).push(
                self.entries@[i as int],
            ));
            i = i + 1;
        }
        assert(self.entries@.take(i as int) =~= self.entries@);
        Extensions { entries }
    }
}

impl Clone for QueryContext {
    /// A copy that stands for the same context.
    fn clone(&self) -> (r: Self)
        ensures
            r@ == self@,
    {
        QueryContext {
            current_catalog: self.current_catalog.clone(),
            current_schema: self.current_schema.clone(),
            sql_dialect: self.sql_dialect,
            extension: self.extension.clone(),
        }
    }
}

/// The mathematical content of a [`QueryContextBuilder`]: what has been set
/// so far.
pub ghost struct SpecQueryContextBuilder {
    pub current_catalog: Option<Seq<char>>,
    pub current_schema: Option<Seq<char>>,
    pub sql_dialect: Option<SqlDialect>,
    pub extension: Option<Map<Seq<char>, Seq<char>>>,
}

impl SpecQueryContextBuilder {
    /// The context that the builder gives: what was set, and the default
    /// in place of what was not.
    pub open spec fn spec_build(self) -> SpecQueryContext {
        SpecQueryContext {
            current_catalog: match self.current_catalog {
                Some(c) => c,
                None => DEFAULT_CATALOG_NAME@,
            },
            current_schema: match self.current_schema {
                Some(s) => s,
                None => DEFAULT_SCHEMA_NAME@,
            },
            sql_dialect: match self.sql_dialect {
                Some(d) => d,
                None => SqlDialect::GreptimeDb,
            },
            extension: match self.extension {
                Some(e) => e,
                None => Map::empty(),
            },
        }
    }
}

/// A builder of query contexts.
#[derive(Debug)]
pub struct QueryContextBuilder {
    current_catalog: Option<String>,
    current_schema: Option<String>,
    sql_dialect: Option<SqlDialect>,
    extension: Option<Extensions>,
}

impl View for QueryContextBuilder {
    type V = SpecQueryContextBuilder;

    closed spec fn view(&self) -> SpecQueryContextBuilder {
        SpecQueryContextBuilder {
            current_catalog: match self.current_catalog {
                Some(c) => Some(c@),
                None => None,
            },
            current_schema: match self.current_schema {
                Some(s) => Some(s@),
                None => None,
            },
            sql_dialect: self.sql_dialect,
            extension: match self.extension {
                Some(e) => Some(e@),
                None => None,
            },
        }
    }
}

impl Default for QueryContextBuilder {
    /// The builder with nothing set.
    fn default() -> (r: QueryContextBuilder)
        ensures
            r@ == QueryContextBuilder::spec_default(),
    {
        QueryContextBuilder {
            current_catalog: None,
            current_schema: None,
            sql_dialect: None,
            extension: None,
        }
    }
}

impl QueryContextBuilder {
    /// The content of the builder with nothing set.
    pub open spec fn spec_default() -> SpecQueryContextBuilder {
        SpecQueryContextBuilder {
            current_catalog: None,
            current_schema: None,
            sql_dialect: None,
            extension: None,
        }
    }

    /// Sets the catalog.
    pub fn current_catalog(self, catalog: String) -> (r: QueryContextBuilder)
        ensures
            r@ == (SpecQueryContextBuilder { current_catalog: Some(catalog@), ..self@ }),
    {
        QueryContextBuilder { current_catalog: Some(catalog), ..self }
    }

    /// Sets the schema.
    pub fn current_schema(self, schema: String) -> (r: QueryContextBuilder)
        ensures
            r@ == (SpecQueryContextBuilder { current_schema: Some(schema@), ..self@ }),
    {
        QueryContextBuilder { current_schema: Some(schema), ..self }
    }

    /// Sets the SQL dialect.
    pub fn sql_dialect(self, dialect: SqlDialect) -> (r: QueryContextBuilder)
        ensures
            r@ == (SpecQueryContextBuilder { sql_dialect: Some(dialect), ..self@ }),
    {
        QueryContextBuilder { sql_dialect: Some(dialect), ..self }
    }

    /// Sets the extension `key` to `value`, in place of any earlier value,
    /// and leaves the other extensions as they are.
    pub fn set_extension(self, key: String, value: String) -> (r: QueryContextBuilder)
        ensures
            r@ == (SpecQueryContextBuilder {
                extension: Some(
                    match self@.extension {
                        Some(e) => e.insert(key@, value@),
                        None => Map::<Seq<char>, Seq<char>>::empty().insert(key@, value@),
                    },
                ),
                ..self@
            }),
    {
        let QueryContextBuilder { current_catalog, current_schema, sql_dialect, extension } = self;
        let mut extension = match extension {
            Some(e) => e,
            None => Extensions::new(),
        };
        extension.insert(key, value);
        QueryContextBuilder {
            current_catalog,
            current_schema,
            sql_dialect,
            extension: Some(extension),
        }
    }

    /// Builds the context: what was set, and the default in place of what
    /// was not.
    pub fn build(self) -> (r: QueryContextRef)
        ensures
            r@ == self@.spec_build(),
    {
        let QueryContextBuilder { current_catalog, current_schema, sql_dialect, extension } = self;
        Arc::new(
            QueryContext {
                current_catalog: match current_catalog {
                    Some(c) => c,
                    None => String::from_str(DEFAULT_CATALOG_NAME),
                },
                current_schema: match current_schema {
                    Some(s) => s,
                    None => String::from_str(DEFAULT_SCHEMA_NAME),
                },
                sql_dialect: match sql_dialect {
                    Some(d) => d,
                    None => SqlDialect::GreptimeDb,
                },
                extension: match extension {
                    Some(e) => e,
                    None => Extensions::new(),
                },
            },
        )
    }
}

} // verus!
