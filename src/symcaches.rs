use crate::cache::{begin_spec, complete_spec, miss_count, lemma_at_most_one_compute, CacheTable, KeyView, Lookup, Slot};
use crate::error::{SymCacheError, SymCacheErrorKind};
use crate::objects::FetchedObject;
use crate::types::{clone_sources, same_sources, CacheKey, FetchObject, FetchSymCache, FileType, Scope};
use std::sync::Arc;
use symbolic::debuginfo::Object as DebugObject;
use symbolic::symcache::SymCacheConverter;
use vstd::prelude::*;

verus! {

#[verifier::external_type_specification]
#[verifier::external_body]
pub struct ExSymCacheConverter<'a>(symbolic::symcache::SymCacheConverter<'a>);

/// Relies on symbolic::symcache::SymCache::parse: it checks the header and decodes the
/// bytes, or fails with an error, kept here in words. Nothing is stated of which: the
/// parser also looks at the alignment of the bytes in memory.
#[verifier::external_body]
fn parse_symcache(data: &[u8]) -> (r: Result<(), String>) {
    symbolic::symcache::SymCache::parse(data).map(|_| ()).map_err(|e| e.to_string())
}

/// Relies on symbolic::symcache::SymCacheConverter::new: an empty converter.
#[verifier::external_body]
fn new_converter<'a>() -> SymCacheConverter<'a> {
    SymCacheConverter::new()
}

/// Relies on symbolic::symcache::SymCacheConverter::process_object: it collects the
/// object's functions, lines and symbols, and fails on a bad debug file.
#[verifier::external_body]
fn process_object(converter: &mut SymCacheConverter<'_>, object: &DebugObject<'_>) -> Result<(), String> {
    converter.process_object(object).map_err(|e| e.to_string())
}

/// Relies on symbolic::symcache::SymCacheConverter::serialize: it writes the symcache
/// into a byte buffer, or reports a write failure.
#[verifier::external_body]
fn serialize_symcache(converter: SymCacheConverter<'_>) -> Result<Vec<u8>, String> {
    let mut out: Vec<u8> = Vec::new();
    match converter.serialize(&mut out) {
        Ok(()) => Ok(out),
        Err(e) => Err(e.to_string()),
    }
}

/// The outcome of a build from what the converter gave: its bytes, or `Io` with the
/// converter's error as the cause.
pub open spec fn conversion_spec(converted: Result<Vec<u8>, String>) -> Result<Vec<u8>, SymCacheError> {
    match converted {
        Ok(v) => Ok(v),
        Err(c) => Err(SymCacheError { kind: SymCacheErrorKind::Io, cause: Some(c) }),
    }
}

/// The outcome of a build whose object did not decode: `Parse`, keeping the cause.
pub open spec fn parse_failure_spec(e: SymCacheError) -> SymCacheError {
    SymCacheError { kind: SymCacheErrorKind::Parse, cause: e.cause }
}

pub fn parse_failure(e: SymCacheError) -> (r: SymCacheError)
    ensures
        r == parse_failure_spec(e),
{
    SymCacheError { kind: SymCacheErrorKind::Parse, cause: e.cause }
}

/// What a stored symcache reads as, from the outcome of parsing its bytes: the bytes, or
/// `Parse` with the parser's error as the cause.
pub open spec fn symcache_checked(bytes: Seq<u8>, parsed: Result<(), String>, r: Result<&[u8], SymCacheError>) -> bool {
    match parsed {
        Ok(()) => r is Ok && r->Ok_0@ == bytes,
        Err(c) => r is Err && r->Err_0 == SymCacheError { kind: SymCacheErrorKind::Parse, cause: Some(c) },
    }
}

pub fn checked_symcache<'a>(bytes: &'a [u8], parsed: Result<(), String>) -> (r: Result<&'a [u8], SymCacheError>)
    ensures
        symcache_checked(bytes@, parsed, r),
{
    match parsed {
        Ok(()) => Ok(bytes),
        Err(c) => Err(SymCacheError::with_cause(SymCacheErrorKind::Parse, c)),
    }
}

pub fn conversion_result(converted: Result<Vec<u8>, String>) -> (r: Result<Vec<u8>, SymCacheError>)
    ensures
        r == conversion_spec(converted),
{
    match converted {
        Ok(v) => Ok(v),
        Err(c) => Err(SymCacheError::with_cause(SymCacheErrorKind::Io, c)),
    }
}

/// The worker that runs the blocking conversion of an object into a symcache.
pub struct SymCacheWorker;

impl SymCacheWorker {
    /// Builds the symcache bytes of `object`: where the object does not decode, what
    /// `parse_failure` makes of that error; else what `conversion_result` makes of the
    /// converter's output.
    pub fn handle(&mut self, object: &FetchedObject) -> (r: Result<Vec<u8>, SymCacheError>)
        ensures
            object.data is None ==> r == Err::<Vec<u8>, SymCacheError>(
                parse_failure_spec((SymCacheError { kind: SymCacheErrorKind::NotFound, cause: None })),
            ),
            object.data is Some ==> (exists|e: SymCacheError|
                e.kind == SymCacheErrorKind::Parse && e.cause is Some && r == Err::<Vec<u8>, SymCacheError>(
                    parse_failure_spec(e),
                )) || (exists|converted: Result<Vec<u8>, String>| r == conversion_spec(converted)),
    {
        let parsed = match object.get_object() {
            Ok(o) => o,
            Err(e) => {
                let ghost g = e;
                let r = parse_failure(e);
                assert(r == parse_failure_spec(g));
                return Err(r);
            },
        };
        let mut converter = new_converter();
        let converted = match process_object(&mut converter, &parsed) {
            Ok(()) => serialize_symcache(converter),
            Err(c) => Err(c),
        };
        let ghost gc = converted;
        let r = conversion_result(converted);
        assert(r == conversion_spec(gc));
        r
    }
}

/// Which candidate object a symcache is built from.
#[derive(Clone, Copy, Debug, PartialEq, Eq, Structural)]
pub enum Choice {
    Debug,
    Code,
    Fallback,
}

/// The selection policy: a usable Debug object is taken, whether or not it carries debug
/// information; else a usable Code object that carries debug information; else the
/// symbol-table fallback.
pub open spec fn choice_spec(debug_usable: bool, code_has_debug_info: bool) -> Choice {
    if debug_usable {
        Choice::Debug
    } else if code_has_debug_info {
        Choice::Code
    } else {
        Choice::Fallback
    }
}

pub fn choose_source(debug_usable: bool, code_has_debug_info: bool) -> (r: Choice)
    ensures
        r == choice_spec(debug_usable, code_has_debug_info),
{
    if debug_usable {
        Choice::Debug
    } else if code_has_debug_info {
        Choice::Code
    } else {
        Choice::Fallback
    }
}

/// The selection is a function of the outcomes: a usable Debug object is chosen whatever
/// became of the Code object.
pub proof fn lemma_debug_preferred(code_a: bool, code_b: bool)
    ensures
        choice_spec(true, code_a) == Choice::Debug,
        choice_spec(true, code_a) == choice_spec(true, code_b),
{
}

/// Selection is deterministic: on equal fetch outcomes and equal parse results, two
/// selections build the same object, or fail with the same error, or both fetch the
/// fallback with the request's identifier, sources and scope.
pub proof fn lemma_selection_deterministic(
    req: FetchSymCacheInternal,
    debug: Result<FetchedObject, SymCacheError>,
    code: Result<FetchedObject, SymCacheError>,
    debug_usable: bool,
    code_has_debug_info: bool,
    r1: Selection,
    r2: Selection,
)
    requires
        req.selects(debug, code, debug_usable, code_has_debug_info, r1),
        req.selects(debug, code, debug_usable, code_has_debug_info, r2),
    ensures
        r1 is Fallback <==> r2 is Fallback,
        !(r1 is Fallback) ==> r1 == r2,
        r1 matches Selection::Fallback(f) ==> req.asks_for(f, FileType::Breakpad),
{
}

/// A candidate that could not be fetched is passed over, not fatal: where the Debug
/// fetch failed with `Fetching` and the Code object brought no debug information, the
/// fallback is fetched.
pub proof fn lemma_fetch_failure_falls_back(
    req: FetchSymCacheInternal,
    debug: Result<FetchedObject, SymCacheError>,
    code: Result<FetchedObject, SymCacheError>,
    r: Selection,
)
    requires
        debug is Err && debug->Err_0.kind == SymCacheErrorKind::Fetching,
        !is_mailbox(code),
        req.selects(debug, code, false, false, r),
    ensures
        r matches Selection::Fallback(f) && req.asks_for(f, FileType::Breakpad),
{
}

/// What follows the candidate fetches.
#[derive(Debug)]
pub enum Selection {
    /// Build the symcache from this object.
    Build(FetchedObject),
    /// Neither candidate is usable: fetch the symbol-table fallback.
    Fallback(FetchObject),
    /// Give up with this error.
    Failed(SymCacheError),
}

pub open spec fn is_mailbox(r: Result<FetchedObject, SymCacheError>) -> bool {
    r is Err && r->Err_0.kind == SymCacheErrorKind::Mailbox
}

fn mailbox_failure(r: &Result<FetchedObject, SymCacheError>) -> (b: bool)
    ensures
        b == is_mailbox(*r),
{
    match r {
        Err(e) => e.kind == SymCacheErrorKind::Mailbox,
        Ok(_) => false,
    }
}

/// Turns the reply of the object resolver into an object or an error: an undelivered
/// request is `Mailbox`, a failed resolution `Fetching`, each with its cause.
pub fn fetch_reply(reply: Result<Result<FetchedObject, String>, String>) -> (r: Result<FetchedObject, SymCacheError>)
    ensures
        match reply {
            Err(c) => r is Err && r->Err_0.kind == SymCacheErrorKind::Mailbox && r->Err_0.cause == Some(c),
            Ok(Err(c)) => r is Err && r->Err_0.kind == SymCacheErrorKind::Fetching && r->Err_0.cause == Some(c),
            Ok(Ok(o)) => r == Ok::<FetchedObject, SymCacheError>(o),
        },
{
    match reply {
        Err(c) => Err(SymCacheError::with_cause(SymCacheErrorKind::Mailbox, c)),
        Ok(Err(c)) => Err(SymCacheError::with_cause(SymCacheErrorKind::Fetching, c)),
        Ok(Ok(o)) => Ok(o),
    }
}

/// Turns the reply of the worker pool into the scope of the built artifact: an
/// undelivered job is `Mailbox`; a failed build keeps its own error.
pub fn build_reply(scope: Scope, reply: Result<Result<(), SymCacheError>, String>) -> (r: Result<Scope, SymCacheError>)
    ensures
        match reply {
            Err(c) => r is Err && r->Err_0.kind == SymCacheErrorKind::Mailbox && r->Err_0.cause == Some(c),
            Ok(Err(e)) => r == Err::<Scope, SymCacheError>(e),
            Ok(Ok(())) => r == Ok::<Scope, SymCacheError>(scope),
        },
{
    match reply {
        Err(c) => Err(SymCacheError::with_cause(SymCacheErrorKind::Mailbox, c)),
        Ok(Err(e)) => Err(e),
        Ok(Ok(())) => Ok(scope),
    }
}

/// A request for one symcache, as the cache coordinator computes it.
#[derive(Clone, Debug)]
pub struct FetchSymCacheInternal {
    pub request: FetchSymCache,
}

impl FetchSymCacheInternal {
    /// The artifact's key: the binary's key string and the request's scope.
    pub open spec fn key_spec(&self) -> KeyView {
        (self.request.identifier.cache_key_spec(), self.request.scope@)
    }

    pub fn get_cache_key(&self) -> (r: CacheKey)
        ensures
            r@ == self.key_spec(),
    {
        CacheKey { cache_key: self.request.identifier.get_cache_key(), scope: self.request.scope.clone() }
    }

    /// `f` asks for the `filetype` variant of this request's binary, from its sources, in its scope.
    pub open spec fn asks_for(&self, f: FetchObject, filetype: FileType) -> bool {
        &&& f.filetype == filetype
        &&& f.identifier@ == self.request.identifier@
        &&& same_sources(f.sources@, self.request.sources@)
        &&& f.scope@ == self.request.scope@
    }

    /// The resolver request for one variant of the binary.
    pub fn fetch_request(&self, filetype: FileType) -> (r: FetchObject)
        ensures
            self.asks_for(r, filetype),
    {
        FetchObject {
            filetype,
            identifier: self.request.identifier.clone(),
            sources: clone_sources(&self.request.sources),
            scope: self.request.scope.clone(),
        }
    }

    /// The two candidate requests, Debug and Code, sent together before either is awaited.
    pub fn candidate_requests(&self) -> (r: (FetchObject, FetchObject))
        ensures
            self.asks_for(r.0, FileType::Debug),
            self.asks_for(r.1, FileType::Code),
    {
        (self.fetch_request(FileType::Debug), self.fetch_request(FileType::Code))
    }

    /// The selection after both candidate fetches, for the given parse results: an
    /// unreachable resolver fails the computation; otherwise `choice_spec` decides.
    pub open spec fn selects(
        &self,
        debug: Result<FetchedObject, SymCacheError>,
        code: Result<FetchedObject, SymCacheError>,
        debug_usable: bool,
        code_has_debug_info: bool,
        r: Selection,
    ) -> bool {
        if is_mailbox(debug) {
            r == Selection::Failed(debug->Err_0)
        } else if is_mailbox(code) {
            r == Selection::Failed(code->Err_0)
        } else {
            match choice_spec(debug_usable, code_has_debug_info) {
                Choice::Debug => r == Selection::Build(debug->Ok_0),
                Choice::Code => r == Selection::Build(code->Ok_0),
                Choice::Fallback => r matches Selection::Fallback(f) && self.asks_for(f, FileType::Breakpad),
            }
        }
    }

    /// Picks the object to build from, given whether the Debug object parsed and whether
    /// the Code object parsed and carries debug information.
    pub fn select_parsed(
        &self,
        debug: Result<FetchedObject, SymCacheError>,
        code: Result<FetchedObject, SymCacheError>,
        debug_usable: bool,
        code_has_debug_info: bool,
    ) -> (r: Selection)
        requires
            debug_usable ==> debug is Ok,
            code_has_debug_info ==> code is Ok,
        ensures
            self.selects(debug, code, debug_usable, code_has_debug_info, r),
    {
        if mailbox_failure(&debug) {
            return Selection::Failed(debug.unwrap_err());
        }
        if mailbox_failure(&code) {
            return Selection::Failed(code.unwrap_err());
        }
        match choose_source(debug_usable, code_has_debug_info) {
            Choice::Debug => match debug {
                Ok(o) => Selection::Build(o),
                Err(e) => Selection::Failed(e),
            },
            Choice::Code => match code {
                Ok(o) => Selection::Build(o),
                Err(e) => Selection::Failed(e),
            },
            Choice::Fallback => Selection::Fallback(self.fetch_request(FileType::Breakpad)),
        }
    }

    /// Picks the object to build from once both candidate fetches resolved: it parses
    /// the Debug object and asks the Code object for debug information, and selects as
    /// `select_parsed` does on those answers. A failed fetch or an object without bytes
    /// counts as unusable.
    pub fn select_object(
        &self,
        debug: Result<FetchedObject, SymCacheError>,
        code: Result<FetchedObject, SymCacheError>,
    ) -> (r: Selection)
        ensures
            exists|debug_usable: bool, code_has_debug_info: bool|
                (debug_usable ==> debug is Ok && debug->Ok_0.data is Some) && (code_has_debug_info
                    ==> code is Ok && code->Ok_0.data is Some) && self.selects(
                    debug,
                    code,
                    debug_usable,
                    code_has_debug_info,
                    r,
                ),
    {
        let debug_usable = match &debug {
            Ok(o) => o.get_object().is_ok(),
            Err(_) => false,
        };
        let code_has_debug_info = match &code {
            Ok(o) => o.has_debug_info(),
            Err(_) => false,
        };
        let r = self.select_parsed(debug, code, debug_usable, code_has_debug_info);
        assert(self.selects(debug, code, debug_usable, code_has_debug_info, r));
        r
    }

    /// The item made from the stored bytes: no bytes means the artifact was not found.
    pub open spec fn loaded(self, scope: Scope, data: Vec<u8>) -> SymCache {
        SymCache { inner: if data@.len() == 0 { None } else { Some(data) }, scope, request: self }
    }

    pub fn load(self, scope: Scope, data: Vec<u8>) -> (r: SymCache)
        ensures
            r == self.loaded(scope, data),
    {
        let inner = if data.len() == 0 { None } else { Some(data) };
        SymCache { inner, scope, request: self }
    }
}

/// A finished symcache: its bytes, absent where none were produced, the scope it belongs
/// to and the request that produced it. It is never changed after it is made.
#[derive(Clone, Debug)]
pub struct SymCache {
    pub inner: Option<Vec<u8>>,
    pub scope: Scope,
    pub request: FetchSymCacheInternal,
}

impl SymCache {
    /// The bytes of the symcache, checked to decode: `NotFound` where no bytes were
    /// produced; else what `checked_symcache` makes of the outcome of parsing them.
    pub fn get_symcache(&self) -> (r: Result<&[u8], SymCacheError>)
        ensures
            match self.inner {
                None => r is Err && r->Err_0 == (SymCacheError { kind: SymCacheErrorKind::NotFound, cause: None }),
                Some(b) => exists|parsed: Result<(), String>| symcache_checked(b@, parsed, r),
            },
    {
        match &self.inner {
            None => Err(SymCacheError::new(SymCacheErrorKind::NotFound)),
            Some(b) => {
                let bytes = b.as_slice();
                let parsed = parse_symcache(bytes);
                let ghost gp = parsed;
                let r = checked_symcache(bytes, parsed);
                assert(symcache_checked(b@, gp, r));
                r
            },
        }
    }

    pub fn scope(&self) -> (r: &Scope)
        ensures
            *r == self.scope,
    {
        &self.scope
    }
}

/// Relies on num_cpus::get: the number of logical cores this process may use, which its
/// documentation promises is at least one. The count itself depends on the machine.
#[verifier::external_body]
fn available_parallelism() -> (r: usize)
    ensures
        r >= 1,
{
    num_cpus::get()
}

/// The size of the worker pool: the configured count, else the detected one, and never
/// fewer than one worker.
pub open spec fn pool_size_spec(configured: Option<usize>, detected: usize) -> usize {
    let n = match configured {
        Some(n) => n,
        None => detected,
    };
    if n == 0 {
        1
    } else {
        n
    }
}

pub fn pool_size(configured: Option<usize>, detected: usize) -> (r: usize)
    ensures
        r == pool_size_spec(configured, detected),
{
    let n = match configured {
        Some(n) => n,
        None => detected,
    };
    if n == 0 {
        1
    } else {
        n
    }
}

/// The entry point of symcache requests: it binds each request to its memoized
/// computation in the table of symcaches, and fixes the size of the worker pool.
pub struct SymCacheActor {
    symcaches: CacheTable<Arc<SymCache>>,
    thread_count: usize,
}

impl SymCacheActor {
    pub closed spec fn wf(&self) -> bool {
        self.symcaches.wf() && self.thread_count >= 1
    }

    /// The table of symcaches, by cache key.
    pub closed spec fn table(&self) -> Map<KeyView, Slot<Arc<SymCache>>> {
        self.symcaches.view()
    }

    pub closed spec fn workers(&self) -> usize {
        self.thread_count
    }

    /// A service with one worker for each core that this process may use.
    pub fn new() -> (r: SymCacheActor)
        ensures
            r.wf(),
            r.workers() >= 1,
            r.table() == Map::<KeyView, Slot<Arc<SymCache>>>::empty(),
    {
        Self::with_thread_count(None)
    }

    /// A service with `configured` workers, or one for each usable core where none is given.
    pub fn with_thread_count(configured: Option<usize>) -> (r: SymCacheActor)
        ensures
            r.wf(),
            r.workers() >= 1,
            r.table() == Map::<KeyView, Slot<Arc<SymCache>>>::empty(),
            configured is Some ==> r.workers() == pool_size_spec(configured, 0),
    {
        let detected = match configured {
            Some(_) => 0,
            None => available_parallelism(),
        };
        SymCacheActor { symcaches: CacheTable::new(), thread_count: pool_size(configured, detected) }
    }

    pub fn thread_count(&self) -> (r: usize)
        ensures
            r == self.workers(),
    {
        self.thread_count
    }

    /// Takes a request: binds it to its internal form and registers it under its cache
    /// key. `Miss` hands the caller the one computation for the key.
    pub fn handle(&mut self, request: FetchSymCache) -> (r: (Lookup, FetchSymCacheInternal))
        requires
            old(self).wf(),
        ensures
            final(self).wf(),
            final(self).workers() == old(self).workers(),
            r.1.request == request,
            final(self).table() == begin_spec(old(self).table(), r.1.key_spec()).0,
            r.0 == begin_spec(old(self).table(), r.1.key_spec()).1,
    {
        let internal = FetchSymCacheInternal { request };
        let key = internal.get_cache_key();
        let lookup = self.symcaches.begin(key);
        (lookup, internal)
    }

    /// The finished symcache of a request, if one is kept.
    pub fn cached(&self, request: &FetchSymCacheInternal) -> (r: Option<&Arc<SymCache>>)
        requires
            self.wf(),
        ensures
            match r {
                Some(v) => self.table().contains_key(request.key_spec()) && self.table()[request.key_spec()]
                    == Slot::Ready(*v),
                None => !self.table().contains_key(request.key_spec()) || self.table()[request.key_spec()] is Pending,
            },
    {
        let key = request.get_cache_key();
        self.symcaches.cached(&key)
    }

    /// Ends the computation of a request: a symcache is kept, also one without bytes; an
    /// error is handed back once, to be shared by every waiter, and is not kept.
    pub fn complete(&mut self, request: &FetchSymCacheInternal, outcome: Result<SymCache, SymCacheError>) -> (r: Result<
        (),
        Arc<SymCacheError>,
    >)
        requires
            old(self).wf(),
        ensures
            final(self).wf(),
            final(self).workers() == old(self).workers(),
            match outcome {
                Ok(v) => r is Ok && final(self).table() == complete_spec(
                    old(self).table(),
                    request.key_spec(),
                    Ok::<Arc<SymCache>, SymCacheError>(Arc::new(v)),
                ),
                Err(e) => r is Err && *r->Err_0 == e && final(self).table() == old(self).table().remove(
                    request.key_spec(),
                ),
            },
    {
        let key = request.get_cache_key();
        let shared = match outcome {
            Ok(v) => Ok(Arc::new(v)),
            Err(e) => Err(Arc::new(e)),
        };
        self.symcaches.complete(key, shared)
    }
}

/// A computation that produced no bytes is kept as not found: later requests for the
/// key find the kept symcache, start no computation, and read `NotFound` from it.
pub proof fn lemma_not_found_is_kept(
    m: Map<KeyView, Slot<Arc<SymCache>>>,
    request: FetchSymCacheInternal,
    scope: Scope,
    data: Vec<u8>,
    n: nat,
)
    requires
        data@.len() == 0,
    ensures
        ({
            let m2 = complete_spec(m, request.key_spec(), Ok::<Arc<SymCache>, SymCacheError>(Arc::new(request.loaded(scope, data))));
            &&& begin_spec(m2, request.key_spec()).1 == Lookup::Ready
            &&& miss_count(m2, request.key_spec(), n) == 0
            &&& m2[request.key_spec()] matches Slot::Ready(v) && v.inner is None
        }),
{
    let m2 = complete_spec(m, request.key_spec(), Ok::<Arc<SymCache>, SymCacheError>(Arc::new(request.loaded(scope, data))));
    lemma_at_most_one_compute(m2, request.key_spec(), n);
}

} // verus!
