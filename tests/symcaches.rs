use symcaches::cache::{CacheTable, Lookup};
use symcaches::error::{SymCacheError, SymCacheErrorKind};
use symcaches::objects::FetchedObject;
use symcaches::symcaches::{
    build_reply, checked_symcache, choose_source, conversion_result, parse_failure, fetch_reply, pool_size, Choice,
    FetchSymCacheInternal, Selection,
    SymCacheActor, SymCacheWorker,
};
use symcaches::types::{CacheKey, FetchSymCache, FileType, ObjectId, Scope, SourceConfig};

const BREAKPAD: &str = "MODULE Linux x86_64 492E2DD23CC306CA9C494EEF1533A3810 crash\n\
FILE 0 /tmp/crash.c\n\
FUNC 1000 10 0 main\n\
1000 10 5 0\n";

fn request(id: &str, scope: &str) -> FetchSymCache {
    FetchSymCache {
        identifier: ObjectId { debug_id: Some(id.to_string()), code_id: None },
        sources: vec![SourceConfig { id: "S1".to_string() }],
        scope: Scope::Scoped(scope.to_string()),
    }
}

fn internal(id: &str, scope: &str) -> FetchSymCacheInternal {
    FetchSymCacheInternal { request: request(id, scope) }
}

fn object(filetype: FileType, data: Option<Vec<u8>>) -> FetchedObject {
    FetchedObject { filetype, scope: Scope::Scoped("myorg".to_string()), data }
}

fn key(k: &str) -> CacheKey {
    CacheKey { cache_key: k.to_string(), scope: Scope::Global }
}

#[test]
fn cache_key_joins_ids() {
    let id = ObjectId { debug_id: Some("abc".to_string()), code_id: Some("def".to_string()) };
    assert_eq!(id.get_cache_key(), "abc_def");
    let id = ObjectId { debug_id: None, code_id: None };
    assert_eq!(id.get_cache_key(), "_");
    let k = internal("X", "myorg").get_cache_key();
    assert_eq!(k.cache_key, "X_");
    assert!(k.scope.same(&Scope::Scoped("myorg".to_string())));
}

#[test]
fn scopes_compare() {
    assert!(Scope::Global.same(&Scope::Global));
    assert!(!Scope::Global.same(&Scope::Scoped("a".to_string())));
    assert!(!Scope::Scoped("a".to_string()).same(&Scope::Scoped("b".to_string())));
}

#[test]
fn memoization_one_miss_for_many_requests() {
    let mut t: CacheTable<u32> = CacheTable::new();
    assert_eq!(t.begin(key("a")), Lookup::Miss);
    for _ in 0..5 {
        assert_eq!(t.begin(key("a")), Lookup::Attached);
    }
    assert!(t.cached(&key("a")).is_none());
    assert_eq!(t.complete::<()>(key("a"), Ok(7)), Ok(()));
    assert_eq!(t.begin(key("a")), Lookup::Ready);
    assert_eq!(t.cached(&key("a")), Some(&7));
}

#[test]
fn failure_is_not_kept() {
    let mut t: CacheTable<u32> = CacheTable::new();
    assert_eq!(t.begin(key("a")), Lookup::Miss);
    assert_eq!(t.begin(key("a")), Lookup::Attached);
    assert_eq!(t.complete(key("a"), Err::<u32, &str>("boom")), Err("boom"));
    assert!(t.cached(&key("a")).is_none());
    assert_eq!(t.begin(key("a")), Lookup::Miss);
}

#[test]
fn keys_do_not_block_each_other() {
    let mut t: CacheTable<u32> = CacheTable::new();
    assert_eq!(t.begin(key("slow")), Lookup::Miss);
    assert_eq!(t.begin(key("other")), Lookup::Miss);
    assert_eq!(t.complete::<()>(key("other"), Ok(1)), Ok(()));
    assert_eq!(t.begin(key("other")), Lookup::Ready);
    assert_eq!(t.begin(key("slow")), Lookup::Attached);
    let scoped = CacheKey { cache_key: "slow".to_string(), scope: Scope::Scoped("org".to_string()) };
    assert_eq!(t.begin(scoped), Lookup::Miss);
}

#[test]
fn second_request_attaches_to_first() {
    let mut actor = SymCacheActor::with_thread_count(Some(2));
    assert_eq!(actor.thread_count(), 2);
    let (first, req) = actor.handle(request("X", "myorg"));
    assert_eq!(first, Lookup::Miss);
    let (second, _) = actor.handle(request("X", "myorg"));
    assert_eq!(second, Lookup::Attached);
    let (other, _) = actor.handle(request("X", "otherorg"));
    assert_eq!(other, Lookup::Miss);
    let item = req.clone().load(Scope::Global, Vec::new());
    assert!(actor.complete(&req, Ok(item)).is_ok());
    let (third, _) = actor.handle(request("X", "myorg"));
    assert_eq!(third, Lookup::Ready);
}

#[test]
fn not_found_is_kept() {
    let mut actor = SymCacheActor::with_thread_count(Some(1));
    let (l, req) = actor.handle(request("X", "myorg"));
    assert_eq!(l, Lookup::Miss);
    let item = req.clone().load(Scope::Scoped("myorg".to_string()), Vec::new());
    assert!(item.inner.is_none());
    assert!(actor.complete(&req, Ok(item)).is_ok());
    let (again, _) = actor.handle(request("X", "myorg"));
    assert_eq!(again, Lookup::Ready);
    let kept = actor.cached(&req).expect("kept");
    assert_eq!(kept.get_symcache().unwrap_err().kind, SymCacheErrorKind::NotFound);
}

#[test]
fn fetching_failure_is_retried() {
    let mut actor = SymCacheActor::with_thread_count(Some(1));
    let (_, req) = actor.handle(request("X", "myorg"));
    let err = SymCacheError::new(SymCacheErrorKind::Fetching);
    let shared = actor.complete(&req, Err(err)).unwrap_err();
    assert_eq!(shared.kind, SymCacheErrorKind::Fetching);
    assert!(actor.cached(&req).is_none());
    let (again, _) = actor.handle(request("X", "myorg"));
    assert_eq!(again, Lookup::Miss);
}

#[test]
fn selection_policy() {
    assert_eq!(choose_source(true, false), Choice::Debug);
    assert_eq!(choose_source(true, true), Choice::Debug);
    assert_eq!(choose_source(false, true), Choice::Code);
    assert_eq!(choose_source(false, false), Choice::Fallback);
}

#[test]
fn debug_parseable_is_built() {
    let req = internal("X", "myorg");
    let debug = object(FileType::Debug, Some(BREAKPAD.as_bytes().to_vec()));
    let code = object(FileType::Code, None);
    let chosen = match req.select_object(Ok(debug), Ok(code)) {
        Selection::Build(o) => o,
        other => panic!("unexpected {:?}", other),
    };
    assert_eq!(chosen.filetype, FileType::Debug);
    let bytes = SymCacheWorker.handle(&chosen).expect("built");
    assert!(!bytes.is_empty());
    let scope = build_reply(chosen.scope.clone(), Ok(Ok(()))).expect("scope");
    let item = req.load(scope, bytes);
    assert!(item.get_symcache().is_ok());
    assert!(item.scope().same(&Scope::Scoped("myorg".to_string())));
}

#[test]
fn debug_failure_falls_back_then_fetching() {
    let req = internal("X", "myorg");
    let debug = fetch_reply(Ok(Err("no such file".to_string())));
    assert_eq!(debug.as_ref().unwrap_err().kind, SymCacheErrorKind::Fetching);
    let code = fetch_reply(Ok(Ok(object(FileType::Code, Some(b"not an object".to_vec())))));
    let fallback = match req.select_object(debug, code) {
        Selection::Fallback(f) => f,
        other => panic!("unexpected {:?}", other),
    };
    assert_eq!(fallback.filetype, FileType::Breakpad);
    assert_eq!(fallback.sources.len(), 1);
    assert_eq!(fallback.sources[0].id, "S1");
    let reply = fetch_reply(Ok(Err("not there either".to_string())));
    assert_eq!(reply.unwrap_err().kind, SymCacheErrorKind::Fetching);
}

#[test]
fn fallback_object_is_built() {
    let reply = fetch_reply(Ok(Ok(object(FileType::Breakpad, Some(BREAKPAD.as_bytes().to_vec())))));
    let o = reply.expect("fetched");
    assert_eq!(o.filetype, FileType::Breakpad);
    assert!(o.get_object().is_ok());
    assert!(SymCacheWorker.handle(&o).is_ok());
}

#[test]
fn mailbox_failure_stops_selection() {
    let req = internal("X", "myorg");
    let debug = fetch_reply(Err("resolver gone".to_string()));
    let code = Ok(object(FileType::Code, None));
    match req.select_object(debug, code) {
        Selection::Failed(e) => {
            assert_eq!(e.kind, SymCacheErrorKind::Mailbox);
            assert_eq!(e.cause.as_deref(), Some("resolver gone"));
        }
        other => panic!("unexpected {:?}", other),
    }
}

#[test]
fn unparsable_object_is_parse_error() {
    let bad = object(FileType::Debug, Some(b"garbage".to_vec()));
    assert_eq!(SymCacheWorker.handle(&bad).unwrap_err().kind, SymCacheErrorKind::Parse);
    assert_eq!(bad.get_object().unwrap_err().kind, SymCacheErrorKind::Parse);
    let missing = object(FileType::Debug, None);
    assert_eq!(missing.get_object().unwrap_err().kind, SymCacheErrorKind::NotFound);
    assert!(!missing.has_debug_info());
}

#[test]
fn corrupt_symcache_is_parse_error() {
    let item = internal("X", "myorg").load(Scope::Global, b"garbage".to_vec());
    assert_eq!(item.get_symcache().unwrap_err().kind, SymCacheErrorKind::Parse);
}

#[test]
fn build_reply_errors() {
    let e = build_reply(Scope::Global, Err("pool gone".to_string())).unwrap_err();
    assert_eq!(e.kind, SymCacheErrorKind::Mailbox);
    let e = build_reply(Scope::Global, Ok(Err(SymCacheError::new(SymCacheErrorKind::Io)))).unwrap_err();
    assert_eq!(e.kind, SymCacheErrorKind::Io);
}

#[test]
fn pool_size_rules() {
    assert_eq!(pool_size(Some(4), 8), 4);
    assert_eq!(pool_size(None, 8), 8);
    assert_eq!(pool_size(Some(0), 8), 1);
    assert_eq!(pool_size(None, 0), 1);
    assert!(SymCacheActor::new().thread_count() >= 1);
}

#[test]
fn error_from_kind() {
    let e = SymCacheError::from(SymCacheErrorKind::NotFound);
    assert_eq!(e.kind(), SymCacheErrorKind::NotFound);
    assert!(e.cause.is_none());
    let e = SymCacheError::with_cause(SymCacheErrorKind::Io, "disk".to_string());
    assert_eq!(e.cause.as_deref(), Some("disk"));
}

#[test]
fn code_with_debug_info_is_built() {
    let req = internal("X", "myorg");
    let code_object = object(FileType::Code, Some(BREAKPAD.as_bytes().to_vec()));
    assert!(code_object.has_debug_info());
    let debug = fetch_reply(Ok(Err("missing".to_string())));
    match req.select_object(debug, Ok(code_object)) {
        Selection::Build(o) => assert_eq!(o.filetype, FileType::Code),
        other => panic!("unexpected {:?}", other),
    }
}

#[test]
fn select_parsed_follows_policy() {
    let req = internal("X", "myorg");
    let code = || Ok(object(FileType::Code, Some(b"code".to_vec())));
    let debug = || Ok(object(FileType::Debug, Some(b"debug".to_vec())));
    match req.select_parsed(debug(), code(), true, true) {
        Selection::Build(o) => assert_eq!(o.filetype, FileType::Debug),
        other => panic!("unexpected {:?}", other),
    }
    match req.select_parsed(debug(), code(), false, true) {
        Selection::Build(o) => assert_eq!(o.filetype, FileType::Code),
        other => panic!("unexpected {:?}", other),
    }
    match req.select_parsed(debug(), code(), false, false) {
        Selection::Fallback(f) => assert_eq!(f.filetype, FileType::Breakpad),
        other => panic!("unexpected {:?}", other),
    }
    let gone = Err(SymCacheError::new(SymCacheErrorKind::Mailbox));
    match req.select_parsed(debug(), gone, true, false) {
        Selection::Failed(e) => assert_eq!(e.kind, SymCacheErrorKind::Mailbox),
        other => panic!("unexpected {:?}", other),
    }
}

#[test]
fn conversion_failure_is_io_with_cause() {
    let e = conversion_result(Err("bad debug file".to_string())).unwrap_err();
    assert_eq!(e.kind, SymCacheErrorKind::Io);
    assert_eq!(e.cause.as_deref(), Some("bad debug file"));
    assert_eq!(conversion_result(Ok(vec![1, 2])).unwrap(), vec![1, 2]);
}

#[test]
fn parse_errors_keep_cause() {
    let bad = object(FileType::Debug, Some(b"garbage".to_vec()));
    let e = SymCacheWorker.handle(&bad).unwrap_err();
    assert_eq!(e.kind, SymCacheErrorKind::Parse);
    assert!(e.cause.is_some());
    let item = internal("X", "myorg").load(Scope::Global, b"garbage".to_vec());
    assert!(item.get_symcache().unwrap_err().cause.is_some());
}

#[test]
fn checked_symcache_outcomes() {
    let bytes: &[u8] = b"abc";
    assert_eq!(checked_symcache(bytes, Ok(())).unwrap(), b"abc");
    let e = checked_symcache(bytes, Err("bad header".to_string())).unwrap_err();
    assert_eq!(e.kind, SymCacheErrorKind::Parse);
    assert_eq!(e.cause.as_deref(), Some("bad header"));
}

#[test]
fn parse_failure_keeps_cause() {
    let e = parse_failure(SymCacheError::with_cause(SymCacheErrorKind::NotFound, "gone".to_string()));
    assert_eq!(e.kind, SymCacheErrorKind::Parse);
    assert_eq!(e.cause.as_deref(), Some("gone"));
    let missing = object(FileType::Debug, None);
    let e = SymCacheWorker.handle(&missing).unwrap_err();
    assert_eq!(e.kind, SymCacheErrorKind::Parse);
    assert!(e.cause.is_none());
}
