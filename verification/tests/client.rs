//! Names, targets, and other things that a client works out without a server.

use bigtable_rs::cache::{ClientStatementCache, Created, Upgraded};
use bigtable_rs::client::{BigTable, BigTableConnection, Target};
use bigtable_rs::error::{Code, Error, Refusal};
use bigtable_rs::messages::PrepareQueryRequest;
use bigtable_rs::messages::Timestamp;
use bigtable_rs::metadata::request_params;
use bigtable_rs::plan::{CompiledPlanState, PlanCell};
use bigtable_rs::rows::{get_row_range_from_prefix, RowSet};
use bigtable_rs::sql::{SqlType, Type, TypeKind};
use bigtable_rs::statement::{PreparedStatement, PreparedStatementInner};
use bigtable_rs::text;
use bigtable_rs::time::{expiry_timestamp, plan_ttl, refresh_offset, seconds_since, DEFAULT_TTL};
use std::sync::Arc;

const SECOND: u128 = 1_000_000_000;

#[test]
fn a_connection_names_its_instance() {
    let connection = BigTableConnection::new(None, "p-id", "i-id", true, 4);
    assert_eq!(connection.instance_prefix, "projects/p-id/instances/i-id");
    assert_eq!(
        connection.table_prefix,
        "projects/p-id/instances/i-id/tables/"
    );
    assert!(matches!(connection.target, Target::Service));
    assert_eq!(connection.channel_size, 4);
    assert_eq!(
        connection.scope,
        "https://www.googleapis.com/auth/bigtable.data.readonly"
    );
    let client = connection.client(None);
    assert_eq!(client.instance_name(), "projects/p-id/instances/i-id");
    assert_eq!(
        client.get_full_table_name("table-1"),
        "projects/p-id/instances/i-id/tables/table-1"
    );
}

#[test]
fn an_emulator_is_reached_by_http_or_socket() {
    let http = BigTableConnection::new(Some("localhost:8086"), "p", "i", false, 0);
    assert!(matches!(http.target, Target::Http(uri) if uri == "http://localhost:8086"));
    assert_eq!(http.channel_size, 1);
    assert_eq!(
        http.scope,
        "https://www.googleapis.com/auth/bigtable.data"
    );
    let socket = BigTableConnection::new(Some("unix:///tmp/bt.sock"), "p", "i", false, 8);
    assert!(matches!(socket.target, Target::UnixSocket(path) if path == "/tmp/bt.sock"));
    assert_eq!(socket.channel_size, 1);
    assert_eq!(socket.instance_prefix, "projects/p/instances/i");
}

#[test]
fn an_endpoint_must_make_a_uri() {
    for good in ["localhost:8086", "127.0.0.1:9099", "[::1]:80", "unix:///a b", "unix://"] {
        assert!(BigTableConnection::try_new(Some(good), "p", "i", true, 1).is_some());
        let connection =
            BigTableConnection::try_new_with_emulator(good, "p", "i", true, 1).unwrap();
        assert_eq!(connection.instance_prefix, "projects/p/instances/i");
    }
    for bad in ["", "local host", "[::1", "host:80:90", "a\nb"] {
        assert!(BigTableConnection::try_new(Some(bad), "p", "i", true, 1).is_none());
        assert!(BigTableConnection::try_new_with_emulator(bad, "p", "i", true, 1).is_none());
    }
    let service = BigTableConnection::try_new(None, "p", "i", true, 0).unwrap();
    assert!(matches!(service.target, Target::Service));
    assert_eq!(service.channel_size, 1);
}

#[test]
fn tables_file_keys_with_the_same_digest_apart() {
    let mut cache = Cache::new();
    for n in 0..500u64 {
        cache.insert_query(format!("q{}", n % 250), format!("p{}", n / 250), n);
        cache.insert_token(n.to_be_bytes().to_vec(), n);
    }
    // The text of a query and its profile are run together, and still told apart.
    cache.insert_query("ab".to_string(), "c".to_string(), 1000);
    cache.insert_query("a".to_string(), "bc".to_string(), 1001);
    let now = 0;
    for n in 0..500u64 {
        let query = format!("q{}", n % 250);
        let profile = format!("p{}", n / 250);
        let found = cache.lookup_by_query(&query, &profile, now, alive);
        assert_eq!(*found.statement.unwrap(), n);
        let found = cache.lookup_by_token(&n.to_be_bytes().to_vec(), now, alive);
        assert_eq!(*found.statement.unwrap(), n);
    }
    assert_eq!(*cache.lookup_by_query("ab", "c", now, alive).statement.unwrap(), 1000);
    assert_eq!(*cache.lookup_by_query("a", "bc", now, alive).statement.unwrap(), 1001);
    assert!(cache.lookup_by_query("abc", "", now, alive).statement.is_none());
    for n in 0..500u64 {
        cache.remove_token(&n.to_be_bytes().to_vec());
        let found = cache.lookup_by_token(&n.to_be_bytes().to_vec(), now, alive);
        assert!(found.statement.is_none());
    }
}

#[test]
fn only_the_word_true_switches_compiling_off() {
    let connection = BigTableConnection::new(None, "p", "i", false, 1);
    assert!(connection.client(Some("true")).execute_query_with_prepare_disabled);
    for other in [None, Some(""), Some("True"), Some("1"), Some("true ")] {
        assert!(!connection.client(other).execute_query_with_prepare_disabled);
    }
    let mut client = connection.client(Some("true"));
    client.set_execute_query_with_prepare_disabled(false);
    assert!(!client.execute_query_with_prepare_disabled);
}

#[test]
fn prefixes_end_at_the_next_key() {
    let range = get_row_range_from_prefix(b"key".to_vec());
    assert_eq!(range.start_key, b"key");
    assert_eq!(range.end_key.as_deref(), Some(&b"kez"[..]));
    let carried = get_row_range_from_prefix(vec![1, 255, 255]);
    assert_eq!(carried.end_key.as_deref(), Some(&[2u8][..]));
    assert!(get_row_range_from_prefix(vec![255, 255]).end_key.is_none());
    assert!(get_row_range_from_prefix(Vec::new()).end_key.is_none());
    let rows = RowSet::with_prefix(b"ab".to_vec());
    assert!(rows.row_keys.is_empty());
    assert_eq!(rows.row_ranges.len(), 1);
    assert_eq!(rows.row_ranges[0].end_key.as_deref(), Some(&b"ac"[..]));
}

#[test]
fn keys_lie_in_the_range_just_where_they_have_the_prefix() {
    let keys: Vec<Vec<u8>> = vec![
        vec![],
        vec![0],
        vec![1],
        vec![1, 254, 255],
        vec![1, 255],
        vec![1, 255, 0],
        vec![1, 255, 255],
        vec![2],
        vec![255],
        vec![255, 255, 7],
    ];
    let prefixes: Vec<Vec<u8>> = vec![vec![], vec![1], vec![1, 255], vec![255]];
    for prefix in prefixes {
        let range = get_row_range_from_prefix(prefix.clone());
        for key in &keys {
            let inside = *key >= range.start_key
                && match &range.end_key {
                    Some(end) => key < end,
                    None => true,
                };
            assert_eq!(inside, key.starts_with(&prefix));
        }
    }
}

#[test]
fn lifetimes_have_a_floor() {
    let unix_now: u64 = 1_700_000_000 * 1_000_000_000;
    let at = |seconds: i64| {
        Some(Timestamp {
            seconds: 1_700_000_000 + seconds,
            nanos: 0,
        })
    };
    assert_eq!(plan_ttl(at(30), DEFAULT_TTL, unix_now), 30 * SECOND);
    assert_eq!(plan_ttl(at(10), DEFAULT_TTL, unix_now), 10 * SECOND);
    assert_eq!(plan_ttl(at(2), DEFAULT_TTL, unix_now), 10 * SECOND);
    assert_eq!(plan_ttl(at(-5), DEFAULT_TTL, unix_now), 10 * SECOND);
    assert_eq!(plan_ttl(None, DEFAULT_TTL, unix_now), 3600 * SECOND);
    assert_eq!(plan_ttl(None, 3, unix_now), 10 * SECOND);
    let distant = Some(Timestamp {
        seconds: i64::MAX,
        nanos: i32::MAX,
    });
    assert_eq!(
        plan_ttl(distant, DEFAULT_TTL, 0),
        i64::MAX as u128 * SECOND + i32::MAX as u128
    );
}

#[test]
fn renewals_come_before_expiry() {
    assert_eq!(refresh_offset(3600 * SECOND), 60 * SECOND);
    assert_eq!(refresh_offset(301 * SECOND), 60 * SECOND);
    assert_eq!(refresh_offset(300 * SECOND), 60 * SECOND);
    assert_eq!(refresh_offset(30 * SECOND), 6 * SECOND);
    assert_eq!(refresh_offset(10 * SECOND), 2 * SECOND);
}

#[test]
fn clocks_are_read_in_whole_seconds() {
    assert_eq!(seconds_since(5, 5), 0);
    assert_eq!(seconds_since(5, 1_000_000_004), 0);
    assert_eq!(seconds_since(5, 1_000_000_005), 1);
    assert_eq!(seconds_since(7, 3), 0);
    let at = expiry_timestamp(9_500_000_000, 8_000_000_000, 2_000_000_000);
    assert_eq!((at.seconds, at.nanos), (3, 500_000_000));
    let past = expiry_timestamp(1, 8_000_000_000, 2_000_000_007);
    assert_eq!((past.seconds, past.nanos), (2, 7));
}

#[test]
fn a_clock_before_the_base_marks_nothing() {
    let mut statement = PreparedStatement::new("q".to_string(), "p".to_string(), 5_000_000_000);
    statement.mark_used(9_200_000_000);
    assert_eq!(statement.inner.last_executed_seconds, 4);
    statement.mark_used(4_000_000_000);
    assert_eq!(statement.inner.last_executed_seconds, 4);
    let inner: PreparedStatementInner = statement.into_inner();
    let again = PreparedStatement::from_inner(inner);
    assert_eq!(again.inner.query, "q");
    assert_eq!(again.inner.app_profile_id, "p");
}

#[test]
fn routing_headers_name_instance_and_profile() {
    assert_eq!(
        request_params("projects/p/instances/i", "default").unwrap(),
        b"name=projects/p/instances/i&app_profile_id=default"
    );
    assert_eq!(request_params("", "").unwrap(), b"name=&app_profile_id=");
    for bad in ["\n", "\r", "\u{0}", "\u{7f}", "\u{1f}"] {
        assert!(matches!(
            request_params("i", bad),
            Err(Error::MetadataError(_))
        ));
    }
    assert!(request_params("i", "\t ~").is_ok());
}

fn plan(token: &[u8]) -> Option<Arc<CompiledPlanState>> {
    Some(Arc::new(CompiledPlanState {
        plan_token: token.to_vec(),
        expires_at: 10,
    }))
}

#[test]
fn a_plan_cell_gives_back_what_was_stored() {
    let mut cell = PlanCell::empty();
    assert!(cell.load_full().is_none());
    cell.store(plan(b"a"));
    assert_eq!(cell.load_full().unwrap().plan_token, b"a");
    let old = cell.swap(plan(b"b")).unwrap();
    assert_eq!(old.plan_token, b"a");
    let now = cell.load_full().unwrap();
    assert_eq!(now.plan_token, b"b");
    assert_eq!(now.expires_at, 10);
    assert!(now.is_fresh(9));
    assert!(!now.is_fresh(10));
    cell.store(None);
    assert!(cell.load_full().is_none());
    assert!(cell.swap(plan(b"c")).is_none());
}

#[test]
fn eviction_spares_a_newer_plan() {
    let mut statement = PreparedStatement::new("q".to_string(), "p".to_string(), 0);
    statement.inner.plan_state.store(plan(b"new"));
    statement.evict(&b"old".to_vec());
    assert_eq!(
        statement.plan_state().load_full().unwrap().plan_token,
        b"new"
    );
    statement.evict(&b"new".to_vec());
    assert!(statement.plan_state().load_full().is_none());
}

#[test]
fn types_without_a_sql_type_are_declared_as_bytes() {
    let request = PrepareQueryRequest {
        instance_name: "i".to_string(),
        app_profile_id: "p".to_string(),
        query: "q".to_string(),
        param_types: vec![
            ("a".to_string(), Type::of(TypeKind::Int64Type)),
            ("b".to_string(), Type::of(TypeKind::ProtoType)),
            ("c".to_string(), Type { kind: None }),
        ],
        data_format: None,
    };
    let statement = BigTable::statement_for(&request, 7);
    let declared = &statement.inner.param_types;
    assert_eq!(declared.len(), 3);
    assert_eq!(declared[0].0, "a");
    assert!(matches!(declared[0].1, SqlType::Int64));
    assert!(matches!(declared[1].1, SqlType::Bytes));
    assert!(matches!(declared[2].1, SqlType::Bytes));
    assert_eq!(statement.inner.base_instant, 7);
}

fn refusal(code: Code, message: &str) -> Refusal {
    Refusal {
        code,
        message: message.to_string(),
        status: tonic::Status::unknown(message),
    }
}

#[test]
fn expiry_is_told_by_code_and_message() {
    let mark = "oh: PREPARED_QUERY_EXPIRED.";
    assert!(refusal(Code::FailedPrecondition, mark).is_plan_expired());
    assert!(refusal(Code::InvalidArgument, mark).is_plan_expired());
    assert!(!refusal(Code::Internal, mark).is_plan_expired());
    assert!(!refusal(Code::InvalidArgument, "PREPARED_QUERY_EXPIRE").is_plan_expired());
    assert!(!refusal(Code::FailedPrecondition, "").is_plan_expired());
}

#[test]
fn outside_failures_become_errors() {
    let io = Error::from(std::io::Error::new(std::io::ErrorKind::Other, "disk"));
    assert!(matches!(io, Error::IoError(e) if e.to_string() == "disk"));
    let rpc = Error::from(tonic::Status::not_found("row"));
    assert!(matches!(rpc, Error::RpcError(s) if s.message() == "row"));
    let auth = Error::from(gcp_auth::Error::Str("no credentials"));
    assert!(matches!(auth, Error::GCPAuthError(_)));
    let bad_uri = tonic::transport::Endpoint::new("http://[").unwrap_err();
    assert!(matches!(Error::from(bad_uri), Error::TransportError(_)));
}

#[test]
fn text_helpers_find_what_is_there() {
    assert!(text::contains("abcabd", "abd"));
    assert!(text::contains("abc", ""));
    assert!(!text::contains("ab", "abc"));
    assert!(!text::contains("aXbXc", "abc"));
    assert_eq!(text::strip_prefix("unix://x", "unix://").as_deref(), Some("x"));
    assert_eq!(text::strip_prefix("unix:/x", "unix://"), None);
}

type Cache = ClientStatementCache<u64, u64>;

fn alive(weak: &u64) -> Option<Upgraded<u64>> {
    Some(Upgraded {
        id: *weak,
        statement: Arc::new(*weak),
        base_instant: 0,
        last_executed_seconds: 100,
    })
}

fn make(id: u64) -> Created<u64, u64> {
    Created {
        id,
        statement: Arc::new(id),
        weak: id,
    }
}

#[test]
fn queries_are_cached_by_profile() {
    let mut cache = Cache::default();
    cache.insert_query("q".to_string(), "a".to_string(), 1);
    cache.insert_query("q".to_string(), "b".to_string(), 2);
    cache.insert_token(b"t".to_vec(), 3);
    let now = 100_000_000_000;
    assert_eq!(*cache.lookup_by_query("q", "a", now, alive).statement.unwrap(), 1);
    assert_eq!(*cache.lookup_by_query("q", "b", now, alive).statement.unwrap(), 2);
    assert!(cache.lookup_by_query("q", "c", now, alive).statement.is_none());
    assert!(cache.lookup_by_query("r", "a", now, alive).statement.is_none());
    assert_eq!(
        *cache.lookup_by_token(&b"t".to_vec(), now, alive).statement.unwrap(),
        3
    );
    cache.insert_token(b"t".to_vec(), 4);
    assert_eq!(
        *cache.lookup_by_token(&b"t".to_vec(), now, alive).statement.unwrap(),
        4
    );
    cache.remove_token(&b"t".to_vec());
    assert!(cache.lookup_by_token(&b"t".to_vec(), now, alive).statement.is_none());
    assert!(cache.lookup_by_query("q", "a", now, |_| None).statement.is_none());
    assert_eq!(cache.active_lru.len(), 0);
}

#[test]
fn only_idle_statements_are_promoted() {
    let mut cache = Cache::new();
    cache.insert_query("q".to_string(), "a".to_string(), 1);
    let seconds = |s: u64| s * 1_000_000_000;
    cache.lookup_by_query("q", "a", seconds(110), alive);
    assert_eq!(cache.active_lru.len(), 0);
    cache.lookup_by_query("q", "a", seconds(111), alive);
    assert_eq!(cache.active_lru.len(), 1);
    cache.lookup_by_query("q", "a", seconds(111), alive);
    assert_eq!(cache.active_lru.len(), 1);
    cache.lookup_by_query("q", "a", seconds(50), alive);
    assert_eq!(cache.active_lru.len(), 1);
}

#[test]
fn the_least_recently_used_statement_goes_first() {
    let mut cache = Cache::new();
    for id in 0..1000u64 {
        let got = cache.get_or_insert_query(&id.to_string(), "p", 0, alive, || make(id));
        assert_eq!(*got.statement, id);
        assert!(got.evicted.is_none());
    }
    // Statement 0 is found again, and promoted.
    let late = 200_000_000_000;
    let found = cache.lookup_by_query("0", "p", late, alive);
    assert_eq!(*found.statement.unwrap(), 0);
    assert!(found.evicted.is_none());
    let got = cache.get_or_insert_query("1000", "p", late, alive, || make(1000));
    assert_eq!(got.evicted.as_deref(), Some(&1));
    assert_eq!(cache.active_lru.len(), 1000);
    // A token whose statement is not held makes the next one go.
    cache.insert_token(b"t".to_vec(), 5000);
    let found = cache.lookup_by_token(&b"t".to_vec(), late, alive);
    assert_eq!(found.evicted.as_deref(), Some(&2));
    // A cached query does not call for a new statement.
    let got = cache.get_or_insert_query("7", "p", 0, alive, || panic!("no need"));
    assert_eq!(*got.statement, 7);
}

#[test]
fn a_dead_entry_is_replaced() {
    let mut cache = Cache::new();
    cache.insert_query("q".to_string(), "p".to_string(), 1);
    let got = cache.get_or_insert_query("q", "p", 0, |_| None, || make(9));
    assert_eq!(*got.statement, 9);
    assert_eq!(*cache.lookup_by_query("q", "p", 0, alive).statement.unwrap(), 9);
}
