use vstd::prelude::*;
use crate::error::ClientError;
use crate::table::Table;

verus! {

/// How long, in milliseconds, a fetched route stays fresh.
pub const FRESHNESS_MS: u64 = 30000;

/// What the cache holds for one topic.
#[derive(Debug)]
pub struct RouteEntry {
    /// The serving endpoints, in the order the server gave them.
    pub endpoints: Vec<String>,
    /// When the last answer was fetched, in milliseconds.
    pub fetched_at_ms: u64,
    /// The last answer listed at least one endpoint, held in `endpoints`.
    pub valid: bool,
    /// The last answer listed no endpoint: the topic has no route.
    pub no_route: bool,
    /// Whether a fetch for this topic is in flight.
    pub refreshing: bool,
}

/// What a caller of `resolve` is to do.
#[derive(Debug, Clone, Copy, PartialEq, Eq, Structural)]
pub enum RouteDecision {
    /// The cached endpoints are fresh: use them, with no network call.
    Fresh,
    /// The topic is known to have no serving endpoint: `NoRouteAvailable`.
    NoRoute,
    /// Fetch the route now and wait for it, then `complete` or `fail`.
    Fetch,
    /// The cached endpoints are stale and a refresh is in flight: use them.
    Stale,
    /// The first fetch is in flight: wait and ask again.
    Wait,
}

pub type Routes = Map<Seq<char>, RouteEntry>;

/// Every entry marked valid lists at least one endpoint, and no entry is
/// both valid and without a route.
pub open spec fn routes_consistent(m: Routes) -> bool {
    forall|t: Seq<char>| #[trigger] m.contains_key(t) ==> (m[t].valid ==> m[t].endpoints@.len() > 0)
        && !(m[t].valid && m[t].no_route)
}

/// The entry holds an answer of the server, with or without endpoints.
pub open spec fn is_answered(e: RouteEntry) -> bool {
    e.valid || e.no_route
}

pub open spec fn is_fresh(e: RouteEntry, now_ms: u64) -> bool {
    is_answered(e) && now_ms < e.fetched_at_ms + FRESHNESS_MS
}

pub open spec fn route_decision(m: Routes, topic: Seq<char>, now_ms: u64) -> RouteDecision {
    if !m.contains_key(topic) {
        RouteDecision::Fetch
    } else if is_fresh(m[topic], now_ms) {
        if m[topic].valid {
            RouteDecision::Fresh
        } else {
            RouteDecision::NoRoute
        }
    } else if m[topic].refreshing {
        if m[topic].valid {
            RouteDecision::Stale
        } else if m[topic].no_route {
            RouteDecision::NoRoute
        } else {
            RouteDecision::Wait
        }
    } else {
        RouteDecision::Fetch
    }
}

/// A topic has a fetch in flight.
pub open spec fn in_flight(m: Routes, topic: Seq<char>) -> bool {
    m.contains_key(topic) && m[topic].refreshing
}

/// The cache after a lookup: a decision to fetch marks the fetch in flight
/// and keeps what was cached; any other decision changes nothing.
pub open spec fn after_resolve(m: Routes, m2: Routes, topic: Seq<char>, now_ms: u64) -> bool {
    if route_decision(m, topic, now_ms) == RouteDecision::Fetch {
        &&& m2.dom() == m.dom().insert(topic)
        &&& forall|t: Seq<char>| #[trigger] m2.contains_key(t) && t != topic ==> m2[t] == m[t]
        &&& m2[topic].refreshing
        &&& m.contains_key(topic) ==> m2[topic].valid == m[topic].valid && m2[topic].no_route
            == m[topic].no_route && m2[topic].endpoints@ == m[topic].endpoints@
            && m2[topic].fetched_at_ms == m[topic].fetched_at_ms
        &&& !m.contains_key(topic) ==> !m2[topic].valid && !m2[topic].no_route
    } else {
        m2 == m
    }
}

/// The cache after a route query for `topic` answered `endpoints` at
/// `now_ms`: an empty answer is kept as a fresh lack of route.
pub open spec fn completed(m: Routes, topic: Seq<char>, endpoints: Vec<String>, now_ms: u64) -> Routes {
    m.insert(
        topic,
        RouteEntry {
            endpoints,
            fetched_at_ms: now_ms,
            valid: endpoints@.len() > 0,
            no_route: endpoints@.len() == 0,
            refreshing: false,
        },
    )
}

/// The resolved endpoints of each topic of one resource namespace, with a
/// freshness window and at most one fetch in flight per topic.
pub struct RouteCache {
    namespace: String,
    routes: Table<RouteEntry>,
}

impl RouteCache {
    pub closed spec fn view(&self) -> Routes {
        self.routes@
    }

    pub closed spec fn namespace(&self) -> Seq<char> {
        self.namespace@
    }

    pub closed spec fn wf(&self) -> bool {
        self.routes.wf() && routes_consistent(self.routes@)
    }

    pub fn new(namespace: &str) -> (r: Self)
        ensures
            r.wf(),
            routes_consistent(r@),
            r@ == Routes::empty(),
            r.namespace() == namespace@,
    {
        RouteCache { namespace: namespace.to_owned(), routes: Table::new() }
    }

    /// The cached entry of `topic`.
    pub fn entry(&self, topic: &str) -> (r: Option<&RouteEntry>)
        requires
            self.wf(),
        ensures
            r is Some <==> self@.contains_key(topic@),
            r matches Some(e) ==> *e == self@[topic@],
    {
        self.routes.get(topic)
    }

    /// Decides how to resolve `topic` at `now_ms`: fresh entries need no
    /// network call, a topic without route is reported as such, and a
    /// refresh is started only where none is in flight.
    pub fn resolve(&mut self, topic: &str, now_ms: u64) -> (r: RouteDecision)
        requires
            old(self).wf(),
        ensures
            final(self).wf(),
            routes_consistent(final(self)@),
            final(self).namespace() == old(self).namespace(),
            r == route_decision(old(self)@, topic@, now_ms),
            after_resolve(old(self)@, final(self)@, topic@, now_ms),
    {
        let fresh;
        let refreshing;
        let valid;
        let no_route;
        match self.routes.get(topic) {
            None => {
                self.routes.insert(
                    topic.to_owned(),
                    RouteEntry {
                        endpoints: Vec::new(),
                        fetched_at_ms: 0,
                        valid: false,
                        no_route: false,
                        refreshing: true,
                    },
                );
                return RouteDecision::Fetch;
            },
            Some(e) => {
                fresh = (e.valid || e.no_route) && (now_ms as u128) < (e.fetched_at_ms as u128) + (
                FRESHNESS_MS as u128);
                refreshing = e.refreshing;
                valid = e.valid;
                no_route = e.no_route;
            },
        }
        if fresh {
            if valid {
                RouteDecision::Fresh
            } else {
                RouteDecision::NoRoute
            }
        } else if refreshing {
            if valid {
                RouteDecision::Stale
            } else if no_route {
                RouteDecision::NoRoute
            } else {
                RouteDecision::Wait
            }
        } else {
            let ghost m = self.routes@;
            let e = self.routes.remove(topic);
            match e {
                Some(e) => {
                    self.routes.insert(
                        topic.to_owned(),
                        RouteEntry {
                            endpoints: e.endpoints,
                            fetched_at_ms: e.fetched_at_ms,
                            valid: e.valid,
                            no_route: e.no_route,
                            refreshing: true,
                        },
                    );
                    assert(self.routes@.dom() =~= m.dom().insert(topic@));
                },
                None => {},
            }
            RouteDecision::Fetch
        }
    }

    /// Stores what a route query returned for `topic` and ends the fetch in
    /// flight. The query does not fail on an empty answer: it is kept, for the
    /// freshness window, as a topic without route.
    pub fn complete(&mut self, topic: &str, endpoints: Vec<String>, now_ms: u64)
        requires
            old(self).wf(),
        ensures
            final(self).wf(),
            routes_consistent(final(self)@),
            final(self).namespace() == old(self).namespace(),
            final(self)@ == completed(old(self)@, topic@, endpoints, now_ms),
    {
        let found = endpoints.len() > 0;
        self.routes.insert(
            topic.to_owned(),
            RouteEntry { endpoints, fetched_at_ms: now_ms, valid: found, no_route: !found, refreshing: false },
        );
    }

    /// Ends a fetch for `topic` that failed in transport: an earlier answer
    /// stays, and the next lookup may fetch again.
    pub fn fail(&mut self, topic: &str)
        requires
            old(self).wf(),
        ensures
            final(self).wf(),
            routes_consistent(final(self)@),
            final(self).namespace() == old(self).namespace(),
            final(self)@ == if old(self)@.contains_key(topic@) && is_answered(old(self)@[topic@]) {
                old(self)@.insert(
                    topic@,
                    RouteEntry {
                        endpoints: old(self)@[topic@].endpoints,
                        fetched_at_ms: old(self)@[topic@].fetched_at_ms,
                        valid: old(self)@[topic@].valid,
                        no_route: old(self)@[topic@].no_route,
                        refreshing: false,
                    },
                )
            } else {
                old(self)@.remove(topic@)
            },
            !in_flight(final(self)@, topic@),
    {
        match self.routes.remove(topic) {
            Some(e) => {
                if e.valid || e.no_route {
                    self.routes.insert(
                        topic.to_owned(),
                        RouteEntry {
                            endpoints: e.endpoints,
                            fetched_at_ms: e.fetched_at_ms,
                            valid: e.valid,
                            no_route: e.no_route,
                            refreshing: false,
                        },
                    );
                }
            },
            None => {},
        }
    }

    /// The endpoints to produce to for `topic`: a route that is not known,
    /// or that lists no endpoint, is `NoRouteAvailable`.
    pub fn endpoints_for_send(&self, topic: &str) -> (r: Result<&Vec<String>, ClientError>)
        requires
            self.wf(),
        ensures
            r is Ok <==> self@.contains_key(topic@) && self@[topic@].valid,
            r matches Ok(v) ==> v@ == self@[topic@].endpoints@ && v@.len() > 0,
            r is Err ==> r->Err_0 == ClientError::NoRouteAvailable,
    {
        match self.routes.get(topic) {
            Some(e) => {
                if e.valid {
                    Ok(&e.endpoints)
                } else {
                    Err(ClientError::NoRouteAvailable)
                }
            },
            None => Err(ClientError::NoRouteAvailable),
        }
    }
}

/// A lookup within the freshness window needs no network call and changes
/// nothing; a lookup after expiry starts exactly one refresh, and every
/// later lookup while it is in flight starts none.
pub proof fn lemma_route_freshness(m: Routes, m2: Routes, topic: Seq<char>, now_ms: u64, later_ms: u64)
    requires
        after_resolve(m, m2, topic, now_ms),
    ensures
        m.contains_key(topic) && is_fresh(m[topic], now_ms) ==> route_decision(m, topic, now_ms)
            != RouteDecision::Fetch && m2 == m,
        m.contains_key(topic) && is_fresh(m[topic], now_ms) && m[topic].valid ==> route_decision(
            m,
            topic,
            now_ms,
        ) == RouteDecision::Fresh,
        route_decision(m, topic, now_ms) == RouteDecision::Fetch ==> in_flight(m2, topic)
            && route_decision(m2, topic, later_ms) != RouteDecision::Fetch,
{
    if route_decision(m, topic, now_ms) == RouteDecision::Fetch {
        assert(m2.dom().contains(topic));
    }
}

/// A route query that answers no endpoint is no error: the cache then holds
/// no valid entry for the topic, and every lookup within the freshness window
/// reports that the topic has no route, with no network call.
pub proof fn lemma_empty_answer_is_no_route(
    m: Routes,
    topic: Seq<char>,
    endpoints: Vec<String>,
    now_ms: u64,
    later_ms: u64,
)
    requires
        endpoints@.len() == 0,
        later_ms < now_ms + FRESHNESS_MS,
    ensures
        !completed(m, topic, endpoints, now_ms)[topic].valid,
        route_decision(completed(m, topic, endpoints, now_ms), topic, later_ms) == RouteDecision::NoRoute,
{
}

} // verus!
