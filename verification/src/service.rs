//! The redirect service: orchestration of link creation, redirect
//! resolution with best-effort visit accounting, and link metadata.

use vstd::prelude::*;

use crate::errors::LinkError;
use crate::link_visit::{spec_visit_count, LinkVisit, VisitRecorder};
use crate::links::{spec_find_by_code, Link, LinkStore};

verus! {

/// A counter increment that can never overflow: it sticks at the top of
/// the range instead of wrapping, so counts are monotone.
pub open spec fn spec_bump(c: u64) -> u64 {
    if c < u64::MAX {
        (c + 1) as u64
    } else {
        c
    }
}

/// What resolving `code` answers, as a function of the link records and
/// the store's reachability alone: the stored URL when the code is known,
/// `NotFound` when it is not, `StorageUnavailable` only when the store is
/// unreachable. Visit accounting has no say in it.
pub open spec fn spec_resolve(links: Seq<Link>, store_available: bool, code: Seq<char>) -> Result<
    Seq<char>,
    LinkError,
> {
    if !store_available {
        Err(LinkError::StorageUnavailable)
    } else {
        match spec_find_by_code(links, code) {
            Some(l) => Ok(l.url@),
            None => Err(LinkError::NotFound),
        }
    }
}

/// The view of an owned resolution result.
pub open spec fn result_url_view(r: Result<String, LinkError>) -> Result<Seq<char>, LinkError> {
    match r {
        Ok(s) => Ok(s@),
        Err(e) => Err(e),
    }
}

/// Link metadata served to clients: the destination, the code, and the
/// (advisory, best-effort) visit count.
#[derive(Debug)]
pub struct LinkMetaResponse {
    pub url: String,
    pub code: String,
    pub visits: u64,
}

impl From<Link> for LinkMetaResponse {
    /// The metadata of a link before any visit is counted.
    fn from(value: Link) -> (r: LinkMetaResponse) {
        LinkMetaResponse { url: value.url, code: value.code, visits: 0 }
    }
}

impl vstd::std_specs::convert::FromSpecImpl<Link> for LinkMetaResponse {
    open spec fn obeys_from_spec() -> bool {
        true
    }

    open spec fn from_spec(t: Link) -> LinkMetaResponse {
        LinkMetaResponse { url: t.url, code: t.code, visits: 0 }
    }
}

/// The redirect service, composing the link store and the visit
/// recorder, with observability counters for created links and served
/// redirects.
pub struct RedirectService {
    store: LinkStore,
    visits: VisitRecorder,
    created_with_code: u64,
    created_generated: u64,
    links_visited: u64,
}

impl RedirectService {
    /// The persisted link records.
    pub closed spec fn links(self) -> Seq<Link> {
        self.store@
    }

    /// The append-only visit log.
    pub closed spec fn visit_log(self) -> Seq<LinkVisit> {
        self.visits@
    }

    /// Whether the link store is reachable.
    pub closed spec fn store_available(self) -> bool {
        self.store.is_available()
    }

    /// Whether the visit recorder is reachable.
    pub closed spec fn visits_available(self) -> bool {
        self.visits.is_available()
    }

    /// How many links were created with a caller-supplied code.
    pub closed spec fn spec_created_with_code(self) -> u64 {
        self.created_with_code
    }

    /// How many links were created with a generated code.
    pub closed spec fn spec_created_generated(self) -> u64 {
        self.created_generated
    }

    /// How many redirects were served.
    pub closed spec fn spec_links_visited(self) -> u64 {
        self.links_visited
    }

    pub closed spec fn wf(self) -> bool {
        self.store.wf()
    }

    /// A service over an empty, reachable store.
    pub fn new() -> (s: Self)
        ensures
            s.wf(),
            s.links() == Seq::<Link>::empty(),
            s.visit_log() == Seq::<LinkVisit>::empty(),
            s.store_available(),
            s.visits_available(),
            s.spec_created_with_code() == 0,
            s.spec_created_generated() == 0,
            s.spec_links_visited() == 0,
    {
        RedirectService {
            store: LinkStore::new(),
            visits: VisitRecorder::new(),
            created_with_code: 0,
            created_generated: 0,
            links_visited: 0,
        }
    }

    /// How many links were created so far with a caller-supplied code.
    pub fn created_with_code_total(&self) -> (c: u64)
        ensures
            c == self.spec_created_with_code(),
    {
        self.created_with_code
    }

    /// How many links were created so far with a generated code.
    pub fn created_generated_total(&self) -> (c: u64)
        ensures
            c == self.spec_created_generated(),
    {
        self.created_generated
    }

    /// How many redirects were served so far.
    pub fn links_visited_total(&self) -> (c: u64)
        ensures
            c == self.spec_links_visited(),
    {
        self.links_visited
    }

    /// Simulate or repair an outage of the link store.
    pub fn set_store_available(&mut self, available: bool)
        ensures
            final(self).links() == old(self).links(),
            final(self).visit_log() == old(self).visit_log(),
            final(self).store_available() == available,
            final(self).visits_available() == old(self).visits_available(),
            final(self).wf() == old(self).wf(),
            final(self).spec_created_with_code() == old(self).spec_created_with_code(),
            final(self).spec_created_generated() == old(self).spec_created_generated(),
            final(self).spec_links_visited() == old(self).spec_links_visited(),
    {
        self.store.set_available(available);
    }

    /// Simulate or repair an outage of the visit recorder.
    pub fn set_visits_available(&mut self, available: bool)
        ensures
            final(self).links() == old(self).links(),
            final(self).visit_log() == old(self).visit_log(),
            final(self).store_available() == old(self).store_available(),
            final(self).visits_available() == available,
            final(self).wf() == old(self).wf(),
            final(self).spec_created_with_code() == old(self).spec_created_with_code(),
            final(self).spec_created_generated() == old(self).spec_created_generated(),
            final(self).spec_links_visited() == old(self).spec_links_visited(),
    {
        self.visits.set_available(available);
    }

    /// Create a link for `url`, under the caller's code when one is
    /// supplied and under a generated one otherwise. Delegates to the
    /// store's `create` (which enforces code uniqueness) and, on success,
    /// bumps the observability counter that tells caller-supplied from
    /// generated codes apart.
    pub fn create_link(&mut self, url: &str, code: Option<String>) -> (r: Result<Link, LinkError>)
        requires
            old(self).wf(),
        ensures
            final(self).wf(),
            final(self).store_available() == old(self).store_available(),
            final(self).visits_available() == old(self).visits_available(),
            final(self).visit_log() == old(self).visit_log(),
            final(self).spec_links_visited() == old(self).spec_links_visited(),
            r is Err ==> final(self).links() == old(self).links(),
            !old(self).store_available() ==> r == Err::<Link, LinkError>(
                LinkError::StorageUnavailable,
            ),
            old(self).store_available() ==> match r {
                Ok(link) => {
                    &&& final(self).links() == old(self).links().push(link)
                    &&& link.url@ == url@
                    &&& link.link_id == old(self).links().len() + 1
                    &&& spec_find_by_code(old(self).links(), link.code@) is None
                    &&& match code {
                        Some(c) => link.code@ == c@,
                        None => crate::codegen::is_generated_code(link.code@),
                    }
                },
                Err(e) => {
                    &&& e != LinkError::NotFound
                    &&& (e == LinkError::Conflict ==> match code {
                        Some(c) => spec_find_by_code(old(self).links(), c@) is Some,
                        None => true,
                    })
                    &&& (code is Some && old(self).links().len() < i32::MAX as int ==> e
                        == LinkError::Conflict)
                    &&& (e == LinkError::StorageUnavailable ==> old(self).links().len()
                        == i32::MAX as int)
                },
            },
            old(self).store_available() && (match code {
                Some(c) => spec_find_by_code(old(self).links(), c@) is None,
                None => false,
            }) && old(self).links().len() < i32::MAX as int ==> r is Ok,
            final(self).spec_created_with_code() == (if r is Ok && code is Some {
                spec_bump(old(self).spec_created_with_code())
            } else {
                old(self).spec_created_with_code()
            }),
            final(self).spec_created_generated() == (if r is Ok && code is None {
                spec_bump(old(self).spec_created_generated())
            } else {
                old(self).spec_created_generated()
            }),
    {
        let supplied = code.is_some();
        let link = match self.store.create(url, code) {
            Ok(link) => link,
            Err(e) => {
                return Err(e);
            },
        };
        if supplied {
            if self.created_with_code < u64::MAX {
                self.created_with_code = self.created_with_code + 1;
            }
        } else {
            if self.created_generated < u64::MAX {
                self.created_generated = self.created_generated + 1;
            }
        }
        Ok(link)
    }

    /// Resolve `code` to its redirect target. The lookup decides the
    /// response: an unknown code is `NotFound`, an unreachable store
    /// `StorageUnavailable`. On a hit, one visit is recorded best-effort:
    /// the recording runs before the response is returned, but its
    /// failure is swallowed and the redirect is served regardless.
    pub fn follow_link(&mut self, code: &str) -> (r: Result<String, LinkError>)
        ensures
            result_url_view(r) == spec_resolve(
                old(self).links(),
                old(self).store_available(),
                code@,
            ),
            final(self).links() == old(self).links(),
            final(self).store_available() == old(self).store_available(),
            final(self).visits_available() == old(self).visits_available(),
            final(self).wf() == old(self).wf(),
            final(self).spec_created_with_code() == old(self).spec_created_with_code(),
            final(self).spec_created_generated() == old(self).spec_created_generated(),
            final(self).spec_links_visited() == (if r is Ok {
                spec_bump(old(self).spec_links_visited())
            } else {
                old(self).spec_links_visited()
            }),
            r is Ok && old(self).visits_available() ==> {
                &&& final(self).visit_log().drop_last() == old(self).visit_log()
                &&& final(self).visit_log().len() == old(self).visit_log().len() + 1
                &&& final(self).visit_log().last().link_id == spec_find_by_code(
                    old(self).links(),
                    code@,
                )->Some_0.link_id
            },
            !(r is Ok) || !old(self).visits_available() ==> final(self).visit_log() == old(
                self,
            ).visit_log(),
    {
        let link = match self.store.find_by_code(code) {
            Err(e) => {
                return Err(e);
            },
            Ok(None) => {
                return Err(LinkError::NotFound);
            },
            Ok(Some(link)) => link,
        };
        // best-effort: a failure to record the visit is swallowed and
        // must not block the redirect
        let _ = self.visits.mark_visit(link.link_id);
        if self.links_visited < u64::MAX {
            self.links_visited = self.links_visited + 1;
        }
        Ok(link.url)
    }

    /// The metadata of the link behind `code`: destination, code, and
    /// visit count. An unreachable visit recorder degrades gracefully to
    /// a zero count instead of failing the request; only the link lookup
    /// itself can fail.
    pub fn get_link_meta(&self, code: &str) -> (r: Result<LinkMetaResponse, LinkError>)
        ensures
            !self.store_available() ==> r == Err::<LinkMetaResponse, LinkError>(
                LinkError::StorageUnavailable,
            ),
            self.store_available() && spec_find_by_code(self.links(), code@) is None ==> r
                == Err::<LinkMetaResponse, LinkError>(LinkError::NotFound),
            self.store_available() && spec_find_by_code(self.links(), code@) is Some ==> {
                let l = spec_find_by_code(self.links(), code@)->Some_0;
                &&& r is Ok
                &&& r->Ok_0.url@ == l.url@
                &&& r->Ok_0.code@ == l.code@
                &&& r->Ok_0.visits == (if self.visits_available() {
                    spec_visit_count(self.visit_log(), l.link_id) as u64
                } else {
                    0
                })
            },
    {
        let link = match self.store.find_by_code(code) {
            Err(e) => {
                return Err(e);
            },
            Ok(None) => {
                return Err(LinkError::NotFound);
            },
            Ok(Some(link)) => link,
        };
        let link_id = link.link_id;
        let mut resp = LinkMetaResponse::from(link);
        // a failed count degrades to zero rather than failing the request
        resp.visits = match self.visits.count_for_link_id(link_id) {
            Ok(n) => n,
            Err(_) => 0,
        };
        Ok(resp)
    }
}

/// Creating a link and then resolving its code returns the very URL that
/// was stored: a fresh code, once appended with its link, is found as
/// exactly that link.
pub proof fn lemma_create_then_resolve(links: Seq<Link>, link: Link)
    requires
        spec_find_by_code(links, link.code@) is None,
    ensures
        spec_resolve(links.push(link), true, link.code@) == Ok::<Seq<char>, LinkError>(link.url@),
{
    crate::links::lemma_find_after_push(links, link);
}

/// Creating two links with the same caller-supplied code yields
/// `Conflict` on the second: once the first create has stored its link,
/// the code is found in the store, and that is exactly the case in which
/// `create_link` answers `Conflict` for a caller-supplied code and
/// writes nothing.
pub proof fn lemma_create_then_conflict(links: Seq<Link>, link: Link)
    requires
        spec_find_by_code(links, link.code@) is None,
    ensures
        spec_find_by_code(links.push(link), link.code@) is Some,
{
    crate::links::lemma_find_after_push(links, link);
}

/// A failure to record a visit never blocks a redirect: what resolving a
/// code answers is a function of the link records and the store's
/// reachability alone, so two services that agree on those answer alike,
/// however their visit recorders differ (outage included).
pub proof fn lemma_visit_outage_does_not_block_redirect(
    a: RedirectService,
    b: RedirectService,
    code: Seq<char>,
)
    requires
        a.links() == b.links(),
        a.store_available() == b.store_available(),
    ensures
        spec_resolve(a.links(), a.store_available(), code) == spec_resolve(
            b.links(),
            b.store_available(),
            code,
        ),
{
}

} // verus!
