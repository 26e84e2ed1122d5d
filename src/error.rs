use vstd::prelude::*;

use crate::registry::{lookup, Handle, HandleRegistry};

verus! {

/// Failure reported by this crate.
#[derive(Debug)]
pub enum Error {
    /// The driver reported a failure; `result` is its status code, passed on unchanged.
    Graphics { result: i32 },
    /// A local precondition failed (a missing parent, an unsupported request), possibly
    /// caused by a lower error.
    Other { message: String, source: Option<Box<Error>> },
}

impl Error {
    /// A local failure described by `message`, with no lower cause.
    pub fn other(message: &str) -> (e: Error)
        ensures
            match e {
                Error::Other { message: m, source } => m@ == message@ && source is None,
                Error::Graphics { .. } => false,
            },
    {
        Error::Other { message: message.to_owned(), source: None }
    }
}

/// The parent object that `key` designates, or a local failure whose message is `missing`
/// when it no longer resolves.
pub fn require_parent<'a, T>(registry: &'a HandleRegistry<T>, key: Handle, missing: &str) -> (r:
    Result<&'a T, Error>)
    ensures
        match r {
            Ok(v) => lookup(registry@, key) == Some(*v),
            Err(e) => lookup(registry@, key) is None && match e {
                Error::Other { message, source } => message@ == missing@ && source is None,
                Error::Graphics { .. } => false,
            },
        },
{
    match registry.get(key) {
        Some(v) => Ok(v),
        None => Err(Error::other(missing)),
    }
}

} // verus!
