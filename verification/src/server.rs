//! The server value: the middleware to run on each request, the cache of
//! compiled templates, and the data shared with every request.

use std::collections::HashMap;
use vstd::prelude::*;

verus! {

#[verifier::external_type_specification]
#[verifier::external_body]
pub struct ExTemplate(mustache::Template);

/// The compiled templates of the server, by name, behind a lock so that
/// requests handled at the same time can share and fill it.
#[verifier::external_body]
pub struct TemplateCache {
    pub templates: std::sync::RwLock<HashMap<String, mustache::Template>>,
}

/// The number of templates in the cache.
pub uninterp spec fn template_count(c: TemplateCache) -> nat;

impl TemplateCache {
    /// The cache holding the templates of `map`, made by
    /// `std::sync::RwLock::new`, which puts `map` behind a new, unlocked lock.
    #[verifier::external_body]
    fn from_map(map: HashMap<String, mustache::Template>) -> (c: TemplateCache)
        ensures
            template_count(c) == map@.len(),
    {
        TemplateCache { templates: std::sync::RwLock::new(map) }
    }
}

/// A server: the stack of middleware `M` that answers each request, the
/// template cache, and the data `D` that it shares with all of them.
pub struct Server<M, D> {
    /// The middleware run on each request.
    pub middleware_stack: M,
    /// The compiled templates, by name.
    pub templates: TemplateCache,
    /// The data shared with every request.
    pub shared_data: D,
}

impl<M, D> Server<M, D> {
    /// A server that runs `middleware_stack` on each request and shares
    /// `data` with all of them; its template cache is empty.
    pub fn new(middleware_stack: M, data: D) -> (s: Server<M, D>)
        ensures
            s.middleware_stack == middleware_stack,
            s.shared_data == data,
            template_count(s.templates) == 0,
    {
        let map: HashMap<String, mustache::Template> = HashMap::new();
        proof {
            assert(map@.dom() =~= Set::empty());
        }
        Server { middleware_stack, templates: TemplateCache::from_map(map), shared_data: data }
    }
}

} // verus!
