//! Link records and the link store: persistence of code-to-URL mappings
//! with a uniqueness policy for codes and system-assigned ids.

use vstd::prelude::*;

use crate::clock::now_timestamp;
use crate::codegen::{generate, is_generated_code};
use crate::errors::LinkError;
use crate::text::str_eq;

verus! {

/// A persisted mapping from a short code to a destination URL.
///
/// `link_id` is the system-assigned identity, `code` the unique lookup
/// key, `url` arbitrary caller-supplied text, and `created_at` seconds
/// since the Unix epoch, set at creation.
#[derive(Debug)]
pub struct Link {
    pub link_id: i32,
    pub code: String,
    pub url: String,
    pub created_at: i64,
}

impl Link {
    /// An owned copy, equal to `self` field for field.
    pub fn duplicate(&self) -> (r: Link)
        ensures
            r == *self,
    {
        Link {
            link_id: self.link_id,
            code: self.code.clone(),
            url: self.url.clone(),
            created_at: self.created_at,
        }
    }
}

/// No two links share a code.
pub open spec fn codes_unique(links: Seq<Link>) -> bool {
    forall|i: int, j: int|
        0 <= i < links.len() && 0 <= j < links.len() && i != j ==> (#[trigger] links[i].code@)
            != (#[trigger] links[j].code@)
}

/// Ids are assigned in creation order, starting at 1.
pub open spec fn ids_sequential(links: Seq<Link>) -> bool {
    forall|i: int| 0 <= i < links.len() ==> (#[trigger] links[i].link_id) == i + 1
}

/// The first link whose code is `code`, if any.
pub open spec fn spec_find_by_code(links: Seq<Link>, code: Seq<char>) -> Option<Link>
    decreases links.len(),
{
    if links.len() == 0 {
        None
    } else if links[0].code@ == code {
        Some(links[0])
    } else {
        spec_find_by_code(links.drop_first(), code)
    }
}

/// A code misses the store exactly when no link holds it.
pub proof fn lemma_find_none_iff_fresh(links: Seq<Link>, code: Seq<char>)
    ensures
        spec_find_by_code(links, code) is None <==> (forall|i: int|
            0 <= i < links.len() ==> (#[trigger] links[i].code@) != code),
    decreases links.len(),
{
    if links.len() > 0 {
        lemma_find_none_iff_fresh(links.drop_first(), code);
        if spec_find_by_code(links, code) is None {
            assert forall|i: int| 0 <= i < links.len() implies (#[trigger] links[i].code@)
                != code by {
                if i > 0 {
                    assert(links.drop_first()[i - 1] == links[i]);
                }
            }
        } else {
            if links[0].code@ != code {
                let k = choose|k: int|
                    0 <= k < links.drop_first().len() && (#[trigger] links.drop_first()[k].code@)
                        == code;
                assert(links[k + 1].code@ == code);
            }
        }
    }
}

/// A fresh code stays unfound until its own link is appended, and is then
/// found as exactly that link.
pub proof fn lemma_find_after_push(links: Seq<Link>, link: Link)
    requires
        spec_find_by_code(links, link.code@) is None,
    ensures
        spec_find_by_code(links.push(link), link.code@) == Some(link),
    decreases links.len(),
{
    if links.len() == 0 {
        assert(links.push(link)[0] == link);
    } else {
        assert(links.push(link)[0] == links[0]);
        assert(links.push(link).drop_first() =~= links.drop_first().push(link));
        lemma_find_after_push(links.drop_first(), link);
    }
}

/// The store of link records. It owns persistence of links, assigns ids,
/// and enforces the uniqueness of codes. The availability switch stands
/// for the reachability of the backing store: while it is off, every
/// operation fails with `StorageUnavailable` and nothing is written.
pub struct LinkStore {
    links: Vec<Link>,
    available: bool,
}

impl View for LinkStore {
    type V = Seq<Link>;

    closed spec fn view(&self) -> Seq<Link> {
        self.links@
    }
}

impl LinkStore {
    /// Whether the backing store is reachable.
    pub closed spec fn is_available(self) -> bool {
        self.available
    }

    /// Well-formedness: codes unique, ids sequential from 1, and the
    /// number of links within what an `i32` id can address.
    pub open spec fn wf(self) -> bool {
        &&& codes_unique(self@)
        &&& ids_sequential(self@)
        &&& self@.len() <= i32::MAX as int
    }

    /// An empty, reachable store.
    pub fn new() -> (s: Self)
        ensures
            s@ == Seq::<Link>::empty(),
            s.is_available(),
            s.wf(),
    {
        LinkStore { links: Vec::new(), available: true }
    }

    /// Simulate or repair a storage outage; the records are untouched.
    pub fn set_available(&mut self, available: bool)
        ensures
            final(self)@ == old(self)@,
            final(self).is_available() == available,
    {
        self.available = available;
    }

    /// Look a link up by its id. Reads have no side effects and fail only
    /// while the store is unreachable.
    pub fn find_by_id(&self, link_id: i32) -> (r: Result<Option<Link>, LinkError>)
        requires
            self.wf(),
        ensures
            !self.is_available() ==> r == Err::<Option<Link>, LinkError>(
                LinkError::StorageUnavailable,
            ),
            self.is_available() ==> r == Ok::<Option<Link>, LinkError>(
                if 1 <= link_id <= self@.len() {
                    Some(self@[link_id - 1])
                } else {
                    None
                },
            ),
    {
        if !self.available {
            return Err(LinkError::StorageUnavailable);
        }
        if 1 <= link_id && link_id as usize <= self.links.len() {
            let idx = (link_id - 1) as usize;
            Ok(Some(self.links[idx].duplicate()))
        } else {
            Ok(None)
        }
    }

    /// Look a link up by its code. Reads have no side effects and fail
    /// only while the store is unreachable; an unknown code is a valid
    /// `None`, never an error.
    pub fn find_by_code(&self, code: &str) -> (r: Result<Option<Link>, LinkError>)
        ensures
            !self.is_available() ==> r == Err::<Option<Link>, LinkError>(
                LinkError::StorageUnavailable,
            ),
            self.is_available() ==> r == Ok::<Option<Link>, LinkError>(
                spec_find_by_code(self@, code@),
            ),
    {
        if !self.available {
            return Err(LinkError::StorageUnavailable);
        }
        let mut i: usize = 0;
        proof {
            assert(self.links@.skip(0) =~= self.links@);
        }
        while i < self.links.len()
            invariant
                i <= self.links@.len(),
                self.is_available(),
                spec_find_by_code(self.links@, code@) == spec_find_by_code(
                    self.links@.skip(i as int),
                    code@,
                ),
            decreases self.links@.len() - i,
        {
            proof {
                assert(self.links@.skip(i as int)[0] == self.links@[i as int]);
                assert(self.links@.skip(i as int).drop_first() =~= self.links@.skip(i as int + 1));
            }
            if str_eq(self.links[i].code.as_str(), code) {
                return Ok(Some(self.links[i].duplicate()));
            }
            i = i + 1;
        }
        proof {
            assert(self.links@.skip(i as int) =~= Seq::<Link>::empty());
        }
        Ok(None)
    }

    /// Create and persist a new link: exactly one record is appended on
    /// success, holding the caller's code or a generated one, the given
    /// URL, and the next sequential id. Fails with `Conflict` when the
    /// chosen code is already in use (always detectable for a
    /// caller-supplied code; possible for a generated one, which is not
    /// re-rolled), and with `StorageUnavailable` while the store is
    /// unreachable or full.
    pub fn create(&mut self, url: &str, code: Option<String>) -> (r: Result<Link, LinkError>)
        requires
            old(self).wf(),
        ensures
            final(self).wf(),
            final(self).is_available() == old(self).is_available(),
            r is Err ==> final(self)@ == old(self)@,
            !old(self).is_available() ==> r == Err::<Link, LinkError>(
                LinkError::StorageUnavailable,
            ),
            old(self).is_available() ==> match r {
                Ok(link) => {
                    &&& final(self)@ == old(self)@.push(link)
                    &&& link.url@ == url@
                    &&& link.link_id == old(self)@.len() + 1
                    &&& spec_find_by_code(old(self)@, link.code@) is None
                    &&& match code {
                        Some(c) => link.code@ == c@,
                        None => is_generated_code(link.code@),
                    }
                },
                Err(e) => {
                    &&& e != LinkError::NotFound
                    &&& (e == LinkError::Conflict ==> match code {
                        Some(c) => spec_find_by_code(old(self)@, c@) is Some,
                        None => true,
                    })
                    &&& (code is Some && old(self)@.len() < i32::MAX as int ==> e
                        == LinkError::Conflict)
                    &&& (e == LinkError::StorageUnavailable ==> old(self)@.len() == i32::MAX as int)
                },
            },
            old(self).is_available() && (match code {
                Some(c) => spec_find_by_code(old(self)@, c@) is None,
                None => false,
            }) && old(self)@.len() < i32::MAX as int ==> r is Ok,
    {
        if !self.available {
            return Err(LinkError::StorageUnavailable);
        }
        if self.links.len() >= i32::MAX as usize {
            // the id space is exhausted: the insert cannot be performed
            return Err(LinkError::StorageUnavailable);
        }
        let chosen: String = match code {
            Some(c) => c,
            None => generate(),
        };
        match self.find_by_code(chosen.as_str()) {
            Ok(Some(_)) => Err(LinkError::Conflict),
            Ok(None) => {
                let link_id = (self.links.len() + 1) as i32;
                let link = Link {
                    link_id,
                    code: chosen,
                    url: url.to_owned(),
                    created_at: now_timestamp(),
                };
                let stored = link.duplicate();
                proof {
                    lemma_find_none_iff_fresh(self.links@, link.code@);
                }
                self.links.push(stored);
                Ok(link)
            },
            Err(e) => Err(e),
        }
    }
}

} // verus!
