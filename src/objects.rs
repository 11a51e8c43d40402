use crate::error::{SymCacheError, SymCacheErrorKind};
use crate::types::{FileType, Scope};
use symbolic::debuginfo::Object as DebugObject;
use vstd::prelude::*;

verus! {

#[verifier::external_type_specification]
#[verifier::external_body]
pub struct ExDebugObject<'data>(symbolic::debuginfo::Object<'data>);

/// Relies on symbolic::debuginfo::Object::parse: it decodes a supported object file
/// from the bytes, or fails with an error, kept here in words. Nothing is stated of
/// which: parsers of some formats also look at where the bytes lie in memory.
#[verifier::external_body]
fn parse_object(data: &[u8]) -> (r: Result<DebugObject<'_>, String>) {
    DebugObject::parse(data).map_err(|e| e.to_string())
}

/// Relies on symbolic::debuginfo::Object::has_debug_info: whether the parsed object
/// carries debug information.
#[verifier::external_body]
fn object_has_debug_info(o: &DebugObject<'_>) -> (r: bool) {
    o.has_debug_info()
}

/// A binary handed back by the object resolver: its variant, the scope it was found
/// in, and its bytes, absent where no source had it.
#[derive(Debug)]
pub struct FetchedObject {
    pub filetype: FileType,
    pub scope: Scope,
    pub data: Option<Vec<u8>>,
}

impl FetchedObject {
    /// A parsed view of the object: `NotFound` without bytes; `Parse`, with the
    /// parser's error as its cause, where they do not decode.
    pub fn get_object(&self) -> (r: Result<DebugObject<'_>, SymCacheError>)
        ensures
            self.data is None ==> r is Err && r->Err_0 == (SymCacheError {
                kind: SymCacheErrorKind::NotFound,
                cause: None,
            }),
            self.data is Some ==> (r is Err ==> r->Err_0.kind == SymCacheErrorKind::Parse
                && r->Err_0.cause is Some),
    {
        match &self.data {
            None => Err(SymCacheError::new(SymCacheErrorKind::NotFound)),
            Some(d) => match parse_object(d.as_slice()) {
                Ok(o) => Ok(o),
                Err(c) => Err(SymCacheError::with_cause(SymCacheErrorKind::Parse, c)),
            },
        }
    }

    /// Whether the object parses and carries debug information.
    pub fn has_debug_info(&self) -> (r: bool)
        ensures
            r ==> self.data is Some,
    {
        match self.get_object() {
            Ok(o) => object_has_debug_info(&o),
            Err(_) => false,
        }
    }

    pub fn scope(&self) -> (r: &Scope)
        ensures
            *r == self.scope,
    {
        &self.scope
    }
}

} // verus!
