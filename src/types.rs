use vstd::prelude::*;

verus! {

/// Visibility tag of a cached artifact: shared by everyone, or private to one tenant.
#[derive(Debug)]
pub enum Scope {
    Global,
    Scoped(String),
}

impl View for Scope {
    type V = Option<Seq<char>>;

    open spec fn view(&self) -> Option<Seq<char>> {
        match self {
            Scope::Global => None,
            Scope::Scoped(s) => Some(s@),
        }
    }
}

impl Clone for Scope {
    fn clone(&self) -> (r: Scope)
        ensures
            r@ == self@,
    {
        match self {
            Scope::Global => Scope::Global,
            Scope::Scoped(s) => Scope::Scoped(s.clone()),
        }
    }
}

impl Scope {
    /// Whether two scopes name the same tenant.
    pub fn same(&self, other: &Scope) -> (r: bool)
        ensures
            r == (self@ == other@),
    {
        match (self, other) {
            (Scope::Global, Scope::Global) => true,
            (Scope::Scoped(a), Scope::Scoped(b)) => *a == *b,
            _ => false,
        }
    }
}

/// A place that binaries are fetched from, named by its identifier.
#[derive(Debug)]
pub struct SourceConfig {
    pub id: String,
}

impl Clone for SourceConfig {
    fn clone(&self) -> (r: SourceConfig)
        ensures
            r.id@ == self.id@,
    {
        SourceConfig { id: self.id.clone() }
    }
}

/// Two lists name the same sources in the same order.
pub open spec fn same_sources(a: Seq<SourceConfig>, b: Seq<SourceConfig>) -> bool {
    a.len() == b.len() && forall|i: int| 0 <= i < a.len() ==> #[trigger] a[i].id@ == b[i].id@
}

/// Copies a list of sources, keeping their order.
pub fn clone_sources(sources: &Vec<SourceConfig>) -> (r: Vec<SourceConfig>)
    ensures
        same_sources(r@, sources@),
{
    let mut r: Vec<SourceConfig> = Vec::new();
    let mut i: usize = 0;
    while i < sources.len()
        invariant
            i <= sources@.len(),
            r@.len() == i,
            forall|j: int| 0 <= j < i ==> #[trigger] r@[j].id@ == sources@[j].id@,
        decreases sources@.len() - i,
    {
        r.push(sources[i].clone());
        i = i + 1;
    }
    r
}

/// The variant of a binary that is asked for.
#[derive(Clone, Copy, Debug, PartialEq, Eq, Structural)]
pub enum FileType {
    /// Debug information.
    Debug,
    /// Executable code.
    Code,
    /// A pre-extracted symbol table in the legacy text format.
    Breakpad,
}

/// The identity of a native binary across its variants.
#[derive(Debug)]
pub struct ObjectId {
    pub debug_id: Option<String>,
    pub code_id: Option<String>,
}

pub open spec fn opt_chars(o: Option<String>) -> Seq<char> {
    match o {
        Some(s) => s@,
        None => Seq::empty(),
    }
}

pub open spec fn opt_view(o: Option<String>) -> Option<Seq<char>> {
    match o {
        Some(s) => Some(s@),
        None => None,
    }
}

fn clone_opt(o: &Option<String>) -> (r: Option<String>)
    ensures
        opt_view(r) == opt_view(*o),
{
    match o {
        Some(s) => Some(s.clone()),
        None => None,
    }
}

impl Clone for ObjectId {
    fn clone(&self) -> (r: ObjectId)
        ensures
            r@ == self@,
    {
        ObjectId { debug_id: clone_opt(&self.debug_id), code_id: clone_opt(&self.code_id) }
    }
}

impl View for ObjectId {
    type V = (Option<Seq<char>>, Option<Seq<char>>);

    open spec fn view(&self) -> (Option<Seq<char>>, Option<Seq<char>>) {
        (opt_view(self.debug_id), opt_view(self.code_id))
    }
}

impl ObjectId {
    /// The key string of this binary: its debug id and its code id, joined by `_`.
    pub open spec fn cache_key_spec(&self) -> Seq<char> {
        opt_chars(self.debug_id) + "_"@ + opt_chars(self.code_id)
    }

    pub fn get_cache_key(&self) -> (r: String)
        ensures
            r@ == self.cache_key_spec(),
    {
        let mut r = String::new();
        match &self.debug_id {
            Some(d) => r.append(d.as_str()),
            None => {},
        }
        r.append("_");
        match &self.code_id {
            Some(c) => r.append(c.as_str()),
            None => {},
        }
        r
    }
}

/// Identifies one artifact: the binary's key string and the scope it is kept for.
#[derive(Debug)]
pub struct CacheKey {
    pub cache_key: String,
    pub scope: Scope,
}

impl View for CacheKey {
    type V = (Seq<char>, Option<Seq<char>>);

    open spec fn view(&self) -> (Seq<char>, Option<Seq<char>>) {
        (self.cache_key@, self.scope@)
    }
}

impl Clone for CacheKey {
    fn clone(&self) -> (r: CacheKey)
        ensures
            r@ == self@,
    {
        CacheKey { cache_key: self.cache_key.clone(), scope: self.scope.clone() }
    }
}

impl CacheKey {
    pub fn same(&self, other: &CacheKey) -> (r: bool)
        ensures
            r == (self@ == other@),
    {
        self.cache_key == other.cache_key && self.scope.same(&other.scope)
    }
}

/// Information for fetching the symbols for this symcache.
#[derive(Debug)]
pub struct FetchSymCache {
    pub identifier: ObjectId,
    pub sources: Vec<SourceConfig>,
    pub scope: Scope,
}

impl Clone for FetchSymCache {
    fn clone(&self) -> (r: FetchSymCache)
        ensures
            r.identifier@ == self.identifier@,
            same_sources(r.sources@, self.sources@),
            r.scope@ == self.scope@,
    {
        FetchSymCache {
            identifier: self.identifier.clone(),
            sources: clone_sources(&self.sources),
            scope: self.scope.clone(),
        }
    }
}

/// A request to the object resolver for one variant of a binary.
#[derive(Debug)]
pub struct FetchObject {
    pub filetype: FileType,
    pub identifier: ObjectId,
    pub sources: Vec<SourceConfig>,
    pub scope: Scope,
}

} // verus!
