//! The outcome of matching a request against a route: the parameters that
//! the route's pattern captured, by name.

use vstd::prelude::*;
use crate::text::str_eq;

verus! {

/// The value bound to `key` by the first pair that names it, if any does.
pub open spec fn lookup(params: Seq<(Seq<char>, Seq<char>)>, key: Seq<char>) -> Option<Seq<char>>
    decreases params.len(),
{
    if params.len() == 0 {
        None
    } else if params[0].0 == key {
        Some(params[0].1)
    } else {
        lookup(params.drop_first(), key)
    }
}

/// When no pair before position `i` names `key`, the lookup is that of the
/// pairs from `i` on.
pub proof fn lemma_lookup_skip(params: Seq<(Seq<char>, Seq<char>)>, key: Seq<char>, i: int)
    requires
        0 <= i <= params.len(),
        forall|j: int| 0 <= j < i ==> params[j].0 != key,
    ensures
        lookup(params, key) == lookup(params.skip(i), key),
    decreases i,
{
    if i > 0 {
        assert(params.skip(i) =~= params.drop_first().skip(i - 1));
        assert forall|j: int| 0 <= j < i - 1 implies params.drop_first()[j].0 != key by {
            assert(params.drop_first()[j] == params[j + 1]);
        }
        lemma_lookup_skip(params.drop_first(), key, i - 1);
    } else {
        assert(params.skip(0) =~= params);
    }
}

/// The lookup finds the value of the first pair that names `key`.
pub proof fn lemma_lookup_first(params: Seq<(Seq<char>, Seq<char>)>, key: Seq<char>, i: int)
    requires
        0 <= i < params.len(),
        forall|j: int| 0 <= j < i ==> params[j].0 != key,
        params[i].0 == key,
    ensures
        lookup(params, key) == Some(params[i].1),
{
    lemma_lookup_skip(params, key, i);
    assert(params.skip(i)[0] == params[i]);
}

/// The lookup finds nothing exactly when no pair names `key`.
pub proof fn lemma_lookup_none(params: Seq<(Seq<char>, Seq<char>)>, key: Seq<char>)
    ensures
        lookup(params, key) is None <==> forall|j: int| 0 <= j < params.len() ==> params[j].0 != key,
    decreases params.len(),
{
    if params.len() > 0 {
        lemma_lookup_none(params.drop_first(), key);
        if params[0].0 != key {
            if lookup(params, key) is None {
                assert forall|j: int| 0 <= j < params.len() implies params[j].0 != key by {
                    if j > 0 {
                        assert(params[j] == params.drop_first()[j - 1]);
                    }
                }
            } else {
                let j0 = choose|j: int| 0 <= j < params.drop_first().len() && params.drop_first()[j].0 == key;
                assert(params[j0 + 1] == params.drop_first()[j0]);
            }
        }
    }
}

/// The parameters captured when a request matched a route.
pub struct RouteResult {
    params: Vec<(String, String)>,
}

impl View for RouteResult {
    type V = Seq<(Seq<char>, Seq<char>)>;

    closed spec fn view(&self) -> Seq<(Seq<char>, Seq<char>)> {
        self.params@.map_values(|p: (String, String)| (p.0@, p.1@))
    }
}

impl RouteResult {
    /// A route result that binds the given names to the given values, in order.
    pub fn new(params: Vec<(String, String)>) -> (r: RouteResult)
        ensures
            r@ == params@.map_values(|p: (String, String)| (p.0@, p.1@)),
    {
        RouteResult { params }
    }

    /// The value that the route bound to `key`, if it bound one.
    pub fn param(&self, key: &str) -> (r: Option<&str>)
        ensures
            match r {
                Some(v) => lookup(self@, key@) == Some(v@),
                None => lookup(self@, key@) is None,
            },
    {
        let n = self.params.len();
        let mut i: usize = 0;
        while i < n
            invariant
                n == self.params@.len(),
                n == self@.len(),
                i <= n,
                forall|j: int| 0 <= j < i ==> self@[j].0 != key@,
            decreases n - i,
        {
            let pair = &self.params[i];
            proof {
                assert(self@[i as int] == (pair.0@, pair.1@));
            }
            if str_eq(pair.0.as_str(), key) {
                proof {
                    lemma_lookup_skip(self@, key@, i as int);
                    assert(self@.skip(i as int)[0] == self@[i as int]);
                }
                return Some(pair.1.as_str());
            }
            i = i + 1;
        }
        proof {
            lemma_lookup_skip(self@, key@, n as int);
        }
        None
    }
}

} // verus!
