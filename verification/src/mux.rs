//! The service registry and its routing decisions.
//!
//! A [`Mux`] keeps a flat list of `(service, method, handler)` entries —
//! handlers themselves live with the caller and are named here by opaque
//! tokens — plus an ordered list of fallback invokers.  Lookups scan the
//! entries newest first, so a later registration of the same service and
//! method overrides an earlier one.  Routing follows the dispatch rules:
//! an empty service id searches all services for the method, and when no
//! handler matches, only the first fallback is ever tried, because a
//! stream is consumed by the first invocation attempt.

use vstd::prelude::*;

verus! {

use crate::error::Error;
use crate::text::str_eq;

/// One registered method: its service and method ids and the handler token.
pub struct MuxEntry {
    /// Identifier of the service.
    pub service_id: String,
    /// Identifier of the method.
    pub method_id: String,
    /// Opaque token naming the handler with the caller.
    pub handler: u64,
}

/// Mathematical model of one registry entry.
#[verifier::ext_equal]
pub ghost struct MuxEntryV {
    pub service_id: Seq<char>,
    pub method_id: Seq<char>,
    pub handler: u64,
}

impl View for MuxEntry {
    type V = MuxEntryV;

    open spec fn view(&self) -> MuxEntryV {
        MuxEntryV {
            service_id: self.service_id@,
            method_id: self.method_id@,
            handler: self.handler,
        }
    }
}

/// Mathematical model of the registry.
#[verifier::ext_equal]
pub ghost struct MuxV {
    pub entries: Seq<MuxEntryV>,
    pub fallbacks: Seq<u64>,
}

/// The views of a list of registry entries, in order.
pub open spec fn entries_view(es: Seq<MuxEntry>) -> Seq<MuxEntryV> {
    Seq::new(es.len(), |i: int| es[i]@)
}

/// The views of a list of method ids, in order.
pub open spec fn strings_view(ss: Seq<String>) -> Seq<Seq<char>> {
    Seq::new(ss.len(), |i: int| ss[i]@)
}

/// The handler registered for a service and method: the newest matching
/// entry wins.
pub open spec fn spec_lookup_entries(
    es: Seq<MuxEntryV>,
    svc: Seq<char>,
    mid: Seq<char>,
) -> Option<u64>
    decreases es.len(),
{
    if es.len() == 0 {
        None
    } else if es.last().service_id == svc && es.last().method_id == mid {
        Some(es.last().handler)
    } else {
        spec_lookup_entries(es.drop_last(), svc, mid)
    }
}

/// The handler registered for a method under any service: the newest entry
/// defining the method wins.
pub open spec fn spec_lookup_method(es: Seq<MuxEntryV>, mid: Seq<char>) -> Option<u64>
    decreases es.len(),
{
    if es.len() == 0 {
        None
    } else if es.last().method_id == mid {
        Some(es.last().handler)
    } else {
        spec_lookup_method(es.drop_last(), mid)
    }
}

/// Whether a service is registered: a non-empty id with at least one entry.
pub open spec fn spec_has_service(m: MuxV, svc: Seq<char>) -> bool {
    svc.len() > 0 && exists|i: int| 0 <= i < m.entries.len() && m.entries[i].service_id == svc
}

/// Whether a service method is registered: non-empty ids with a matching
/// entry.
pub open spec fn spec_has_service_method(m: MuxV, svc: Seq<char>, mid: Seq<char>) -> bool {
    svc.len() > 0 && mid.len() > 0 && exists|i: int|
        0 <= i < m.entries.len() && m.entries[i].service_id == svc && m.entries[i].method_id == mid
}

/// The entries one registration appends: one per non-empty method id, in
/// the declared order.
pub open spec fn spec_added_entries(sid: Seq<char>, mids: Seq<Seq<char>>, h: u64) -> Seq<MuxEntryV>
    decreases mids.len(),
{
    if mids.len() == 0 {
        Seq::<MuxEntryV>::empty()
    } else {
        (if mids[0].len() > 0 {
            seq![MuxEntryV { service_id: sid, method_id: mids[0], handler: h }]
        } else {
            Seq::<MuxEntryV>::empty()
        }) + spec_added_entries(sid, mids.drop_first(), h)
    }
}

/// Extending the processed prefix of a registration by one method id
/// appends that id's entry, or nothing when the id is empty.
proof fn lemma_added_entries_snoc(sid: Seq<char>, mids: Seq<Seq<char>>, h: u64, i: int)
    requires
        0 <= i < mids.len(),
    ensures
        spec_added_entries(sid, mids.take(i + 1), h) =~= spec_added_entries(sid, mids.take(i), h)
            + (if mids[i].len() > 0 {
            seq![MuxEntryV { service_id: sid, method_id: mids[i], handler: h }]
        } else {
            Seq::<MuxEntryV>::empty()
        }),
    decreases i,
{
    if i == 0 {
        assert(mids.take(1) =~= seq![mids[0]]);
        assert(mids.take(0) =~= Seq::<Seq<char>>::empty());
        assert(seq![mids[0]].drop_first() =~= Seq::<Seq<char>>::empty());
    } else {
        let rest = mids.drop_first();
        lemma_added_entries_snoc(sid, rest, h, i - 1);
        assert(mids.take(i + 1).drop_first() =~= rest.take(i));
        assert(mids.take(i).drop_first() =~= rest.take(i - 1));
        assert(mids.take(i + 1)[0] == mids[0]);
        assert(mids.take(i)[0] == mids[0]);
    }
}

/// Each non-empty declared method id has its entry among the entries a
/// registration appends.
proof fn lemma_added_entries_contains(sid: Seq<char>, mids: Seq<Seq<char>>, h: u64, i: int)
    requires
        0 <= i < mids.len(),
        mids[i].len() > 0,
    ensures
        exists|j: int|
            0 <= j < spec_added_entries(sid, mids, h).len() && spec_added_entries(sid, mids, h)[j]
                == (MuxEntryV { service_id: sid, method_id: mids[i], handler: h }),
    decreases i,
{
    let added = spec_added_entries(sid, mids, h);
    if i == 0 {
        assert(added[0] == (MuxEntryV { service_id: sid, method_id: mids[0], handler: h }));
    } else {
        let rest = mids.drop_first();
        lemma_added_entries_contains(sid, rest, h, i - 1);
        let sub = spec_added_entries(sid, rest, h);
        let j = choose|j: int|
            0 <= j < sub.len() && sub[j] == (MuxEntryV {
                service_id: sid,
                method_id: rest[i - 1],
                handler: h,
            });
        let head = if mids[0].len() > 0 {
            1int
        } else {
            0int
        };
        assert(added[head + j] == sub[j]);
    }
}

/// Registering a handler publishes it: afterwards the service is known,
/// and each of its non-empty declared methods is found under the service.
pub proof fn lemma_register_publishes(m: MuxV, sid: Seq<char>, mids: Seq<Seq<char>>, h: u64)
    requires
        sid.len() > 0,
    ensures
        ({
            let m2 = MuxV { entries: m.entries + spec_added_entries(sid, mids, h), ..m };
            &&& (exists|i: int| 0 <= i < mids.len() && mids[i].len() > 0) ==> spec_has_service(
                m2,
                sid,
            )
            &&& forall|i: int|
                0 <= i < mids.len() && mids[i].len() > 0 ==> spec_has_service_method(
                    m2,
                    sid,
                    mids[i],
                )
        }),
{
    let added = spec_added_entries(sid, mids, h);
    let m2 = MuxV { entries: m.entries + added, ..m };
    assert forall|i: int| 0 <= i < mids.len() && mids[i].len() > 0 implies spec_has_service_method(
        m2,
        sid,
        mids[i],
    ) by {
        lemma_added_entries_contains(sid, mids, h, i);
        let j = choose|j: int|
            0 <= j < added.len() && added[j] == (MuxEntryV {
                service_id: sid,
                method_id: mids[i],
                handler: h,
            });
        assert(m2.entries[m.entries.len() + j] == added[j]);
    }
    if exists|i: int| 0 <= i < mids.len() && mids[i].len() > 0 {
        let i = choose|i: int| 0 <= i < mids.len() && mids[i].len() > 0;
        assert(spec_has_service_method(m2, sid, mids[i]));
        let j = choose|j: int|
            0 <= j < m2.entries.len() && m2.entries[j].service_id == sid && m2.entries[j].method_id
                == mids[i];
        assert(m2.entries[j].service_id == sid);
    }
}

/// Where a routing decision sends one call.
#[derive(Debug)]
pub enum RouteDecision {
    /// A registered handler takes the call.
    Handler(u64),
    /// No handler matches; the first fallback invoker takes the call.
    Fallback(u64),
    /// No handler and no fallback: the method is unimplemented.
    NotFound,
}

/// The routing decision: a registered handler when one matches — under the
/// named service, or under any service when the service id is empty — else
/// the first fallback invoker, else nothing.
pub open spec fn spec_route(m: MuxV, svc: Seq<char>, mid: Seq<char>) -> RouteDecision {
    let handler = if svc.len() == 0 {
        spec_lookup_method(m.entries, mid)
    } else {
        spec_lookup_entries(m.entries, svc, mid)
    };
    match handler {
        Some(h) => RouteDecision::Handler(h),
        None => if m.fallbacks.len() > 0 {
            RouteDecision::Fallback(m.fallbacks[0])
        } else {
            RouteDecision::NotFound
        },
    }
}

/// The service registry.
pub struct Mux {
    entries: Vec<MuxEntry>,
    fallbacks: Vec<u64>,
}

impl View for Mux {
    type V = MuxV;

    closed spec fn view(&self) -> MuxV {
        MuxV { entries: entries_view(self.entries@), fallbacks: self.fallbacks@ }
    }
}

impl Mux {
    /// Builds an empty registry.
    pub fn new() -> (r: Mux)
        ensures
            r@.entries == Seq::<MuxEntryV>::empty(),
            r@.fallbacks == Seq::<u64>::empty(),
    {
        let r = Mux { entries: Vec::new(), fallbacks: Vec::new() };
        proof {
            assert(r@.entries =~= Seq::<MuxEntryV>::empty());
            assert(r@.fallbacks =~= Seq::<u64>::empty());
        }
        r
    }

    /// Builds a registry that starts with the given fallback invokers.
    pub fn with_fallbacks(fallbacks: Vec<u64>) -> (r: Mux)
        ensures
            r@.entries == Seq::<MuxEntryV>::empty(),
            r@.fallbacks == fallbacks@,
    {
        let r = Mux { entries: Vec::new(), fallbacks };
        proof {
            assert(r@.entries =~= Seq::<MuxEntryV>::empty());
        }
        r
    }

    /// Appends a fallback invoker; fallbacks keep their arrival order.
    pub fn add_fallback(&mut self, invoker: u64)
        ensures
            final(self)@.entries == old(self)@.entries,
            final(self)@.fallbacks == old(self)@.fallbacks.push(invoker),
    {
        self.fallbacks.push(invoker);
        proof {
            assert(self@.entries =~= old(self)@.entries);
        }
    }

    /// Registers a handler: its service id, its declared method ids, and
    /// the token the caller knows it by.  An empty service id is rejected;
    /// empty method ids are skipped; the new entries land behind all
    /// earlier ones, so they override older registrations on lookup.
    pub fn register(&mut self, service_id: &str, method_ids: &Vec<String>, handler: u64) -> (r:
        Result<(), Error>)
        ensures
            service_id@.len() == 0 ==> *final(self) == *old(self) && (r matches Err(e) && e
                is EmptyServiceId),
            service_id@.len() > 0 ==> r is Ok && final(self)@ == (MuxV {
                entries: old(self)@.entries + spec_added_entries(
                    service_id@,
                    strings_view(method_ids@),
                    handler,
                ),
                ..old(self)@
            }),
    {
        if service_id.is_empty() {
            return Err(Error::EmptyServiceId);
        }
        let ghost mids = strings_view(method_ids@);
        let ghost orig = self@.entries;
        let mut i: usize = 0;
        proof {
            assert(self@.entries =~= orig + spec_added_entries(service_id@, mids.take(0), handler));
        }
        while i < method_ids.len()
            invariant
                i <= method_ids@.len(),
                mids == strings_view(method_ids@),
                self@.fallbacks == old(self)@.fallbacks,
                self@.entries =~= orig + spec_added_entries(
                    service_id@,
                    mids.take(i as int),
                    handler,
                ),
            decreases method_ids@.len() - i,
        {
            proof {
                lemma_added_entries_snoc(service_id@, mids, handler, i as int);
            }
            let mid = &method_ids[i];
            if !mid.as_str().is_empty() {
                let ghost before = entries_view(self.entries@);
                self.entries.push(
                    MuxEntry {
                        service_id: service_id.to_owned(),
                        method_id: mid.clone(),
                        handler,
                    },
                );
                proof {
                    assert(entries_view(self.entries@) =~= before.push(
                        MuxEntryV {
                            service_id: service_id@,
                            method_id: mids[i as int],
                            handler: handler,
                        },
                    ));
                }
            }
            i += 1;
        }
        proof {
            assert(mids.take(mids.len() as int) =~= mids);
        }
        Ok(())
    }

    /// Whether a service is registered under this non-empty id.
    pub fn has_service(&self, service_id: &str) -> (r: bool)
        ensures
            r == spec_has_service(self@, service_id@),
    {
        if service_id.is_empty() {
            return false;
        }
        let mut i: usize = 0;
        while i < self.entries.len()
            invariant
                service_id@.len() > 0,
                i <= self.entries@.len(),
                forall|k: int| 0 <= k < i ==> self@.entries[k].service_id != service_id@,
            decreases self.entries@.len() - i,
        {
            if str_eq(self.entries[i].service_id.as_str(), service_id) {
                proof {
                    let wi = i as int;
                    assert(exists|k: int|
                        0 <= k < self@.entries.len() && self@.entries[k].service_id
                            == service_id@) by {
                        assert(0 <= wi < self@.entries.len() && self@.entries[wi].service_id
                            == service_id@);
                    }
                }
                return true;
            }
            i += 1;
        }
        false
    }

    /// Whether a method is registered under this non-empty service and
    /// method id pair.
    pub fn has_service_method(&self, service_id: &str, method_id: &str) -> (r: bool)
        ensures
            r == spec_has_service_method(self@, service_id@, method_id@),
    {
        if service_id.is_empty() || method_id.is_empty() {
            return false;
        }
        let mut i: usize = 0;
        while i < self.entries.len()
            invariant
                service_id@.len() > 0,
                method_id@.len() > 0,
                i <= self.entries@.len(),
                forall|k: int|
                    0 <= k < i ==> !(self@.entries[k].service_id == service_id@
                        && self@.entries[k].method_id == method_id@),
            decreases self.entries@.len() - i,
        {
            if str_eq(self.entries[i].service_id.as_str(), service_id) && str_eq(
                self.entries[i].method_id.as_str(),
                method_id,
            ) {
                proof {
                    let wi = i as int;
                    assert(exists|k: int|
                        0 <= k < self@.entries.len() && self@.entries[k].service_id == service_id@
                            && self@.entries[k].method_id == method_id@) by {
                        assert(0 <= wi < self@.entries.len() && self@.entries[wi].service_id
                            == service_id@ && self@.entries[wi].method_id == method_id@);
                    }
                }
                return true;
            }
            i += 1;
        }
        false
    }

    /// The handler registered for this service and method, newest first.
    pub fn get_handler(&self, service_id: &str, method_id: &str) -> (r: Option<u64>)
        ensures
            r == spec_lookup_entries(self@.entries, service_id@, method_id@),
    {
        let ghost es = self@.entries;
        let mut i: usize = self.entries.len();
        proof {
            assert(es.take(i as int) =~= es);
        }
        while i > 0
            invariant
                i <= self.entries@.len(),
                es == self@.entries,
                spec_lookup_entries(es, service_id@, method_id@) == spec_lookup_entries(
                    es.take(i as int),
                    service_id@,
                    method_id@,
                ),
            decreases i,
        {
            i -= 1;
            let entry = &self.entries[i];
            proof {
                assert(es.take(i as int + 1).last() == es[i as int]);
                assert(es.take(i as int + 1).drop_last() =~= es.take(i as int));
            }
            if str_eq(entry.service_id.as_str(), service_id) && str_eq(
                entry.method_id.as_str(),
                method_id,
            ) {
                return Some(entry.handler);
            }
        }
        None
    }

    /// The handler registered for this method under any service, newest
    /// first; used when a call names no service.
    pub fn find_handler_for_method(&self, method_id: &str) -> (r: Option<u64>)
        ensures
            r == spec_lookup_method(self@.entries, method_id@),
    {
        let ghost es = self@.entries;
        let mut i: usize = self.entries.len();
        proof {
            assert(es.take(i as int) =~= es);
        }
        while i > 0
            invariant
                i <= self.entries@.len(),
                es == self@.entries,
                spec_lookup_method(es, method_id@) == spec_lookup_method(
                    es.take(i as int),
                    method_id@,
                ),
            decreases i,
        {
            i -= 1;
            let entry = &self.entries[i];
            proof {
                assert(es.take(i as int + 1).last() == es[i as int]);
                assert(es.take(i as int + 1).drop_last() =~= es.take(i as int));
            }
            if str_eq(entry.method_id.as_str(), method_id) {
                return Some(entry.handler);
            }
        }
        None
    }

    /// Takes the routing decision for one call, as [`spec_route`] lays
    /// down: a matching handler, else only the first fallback — the stream
    /// is consumed by the first attempt, so no second fallback can ever be
    /// tried — else nothing.
    pub fn route_method(&self, service_id: &str, method_id: &str) -> (r: RouteDecision)
        ensures
            r == spec_route(self@, service_id@, method_id@),
    {
        let handler = if service_id.is_empty() {
            self.find_handler_for_method(method_id)
        } else {
            self.get_handler(service_id, method_id)
        };
        match handler {
            Some(h) => RouteDecision::Handler(h),
            None => {
                if self.fallbacks.len() > 0 {
                    RouteDecision::Fallback(self.fallbacks[0])
                } else {
                    RouteDecision::NotFound
                }
            },
        }
    }
}

/// Queries on a registry that answer whether a call could be routed,
/// without routing one.
pub trait QueryableInvoker {
    /// Whether the service is registered.
    fn has_service(&self, service_id: &str) -> bool;

    /// Whether the service method is registered.
    fn has_service_method(&self, service_id: &str, method_id: &str) -> bool;
}

impl QueryableInvoker for Mux {
    fn has_service(&self, service_id: &str) -> bool {
        Mux::has_service(self, service_id)
    }

    fn has_service_method(&self, service_id: &str, method_id: &str) -> bool {
        Mux::has_service_method(self, service_id, method_id)
    }
}

} // verus!
