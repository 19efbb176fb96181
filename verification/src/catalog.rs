//! Catalog-driven endpoint resolution.
//!
//! A service catalog is an ordered list of records, one per service type,
//! each carrying an ordered list of endpoints tagged with an interface kind
//! and, optionally, a region.  Resolution deterministically picks the first
//! endpoint in catalog order that matches the requested interface and, when
//! one is requested, the region; when no endpoint matches the region, the
//! region constraint is dropped and the interface alone decides.

use vstd::prelude::*;

use crate::error::{Error, ErrorKind};
use crate::strutil::str_eq;

verus! {

/// The abstract value of an [`Endpoint`].
pub struct EndpointView {
    pub interface: Seq<char>,
    pub region: Option<Seq<char>>,
    pub url: Seq<char>,
}

/// One endpoint of a catalog record: an exposure class (such as `public`,
/// `internal` or `admin`), an optional region tag, and the URL itself.
#[derive(Debug)]
pub struct Endpoint {
    pub interface: String,
    pub region: Option<String>,
    pub url: String,
}

impl View for Endpoint {
    type V = EndpointView;

    open spec fn view(&self) -> EndpointView {
        EndpointView {
            interface: self.interface@,
            region: self.region.deep_view(),
            url: self.url@,
        }
    }
}

impl DeepView for Endpoint {
    type V = EndpointView;

    open spec fn deep_view(&self) -> EndpointView {
        self.view()
    }
}

impl Clone for Endpoint {
    fn clone(&self) -> (r: Endpoint)
        ensures
            r == *self,
    {
        Endpoint {
            interface: self.interface.clone(),
            region: match &self.region {
                Some(s) => Some(s.clone()),
                None => None,
            },
            url: self.url.clone(),
        }
    }
}

/// The abstract value of a [`CatalogRecord`].
pub struct CatalogRecordView {
    pub service_type: Seq<char>,
    pub endpoints: Seq<EndpointView>,
}

/// One record of the service catalog: a service type and its endpoints, in
/// the order the catalog lists them.
#[derive(Debug)]
pub struct CatalogRecord {
    pub service_type: String,
    pub endpoints: Vec<Endpoint>,
}

impl View for CatalogRecord {
    type V = CatalogRecordView;

    open spec fn view(&self) -> CatalogRecordView {
        CatalogRecordView {
            service_type: self.service_type@,
            endpoints: self.endpoints.deep_view(),
        }
    }
}

impl DeepView for CatalogRecord {
    type V = CatalogRecordView;

    open spec fn deep_view(&self) -> CatalogRecordView {
        self.view()
    }
}

impl Clone for CatalogRecord {
    fn clone(&self) -> (r: CatalogRecord)
        ensures
            r@ == self@,
    {
        let mut endpoints: Vec<Endpoint> = Vec::new();
        let mut i: usize = 0;
        while i < self.endpoints.len()
            invariant
                i <= self.endpoints.len(),
                endpoints.len() == i,
                forall|j: int|
                    0 <= j < i ==> endpoints.deep_view()[j] == self.endpoints.deep_view()[j],
            decreases self.endpoints.len() - i,
        {
            let ghost prev = endpoints@;
            let ghost before = endpoints.deep_view();
            endpoints.push(self.endpoints[i].clone());
            proof {
                assert forall|j: int| 0 <= j < i + 1 implies endpoints.deep_view()[j]
                    == self.endpoints.deep_view()[j] by {
                    assert(endpoints.deep_view()[j] == endpoints@[j].deep_view());
                    if j < i as int {
                        assert(endpoints@[j] == prev[j]);
                        assert(before[j] == prev[j].deep_view());
                    }
                }
            }
            i = i + 1;
        }
        proof {
            assert(endpoints.deep_view() =~= self.endpoints.deep_view());
        }
        CatalogRecord { service_type: self.service_type.clone(), endpoints }
    }
}

/// The filter a caller applies when resolving a service: the requested
/// interface kind and an optional region constraint.
#[derive(Debug)]
pub struct EndpointFilters {
    pub interface: String,
    pub region: Option<String>,
}

impl Default for EndpointFilters {
    /// The default filter: the `public` interface, no region constraint.
    fn default() -> (r: EndpointFilters)
        ensures
            r.interface@ == "public"@,
            r.region is None,
    {
        EndpointFilters { interface: "public".to_owned(), region: None }
    }
}

/// Whether an endpoint satisfies the interface filter and, when a region is
/// requested, carries exactly that region.
pub open spec fn ep_matches(e: EndpointView, interface: Seq<char>, region: Option<Seq<char>>) -> bool {
    &&& e.interface == interface
    &&& match region {
        Some(rg) => e.region == Some(rg),
        None => true,
    }
}

/// The first record at or after index `i` whose service type is `st`.
pub open spec fn first_record_from(cat: Seq<CatalogRecordView>, st: Seq<char>, i: int) -> Option<
    CatalogRecordView,
>
    decreases cat.len() - i,
{
    if i < 0 || i >= cat.len() {
        None
    } else if cat[i].service_type == st {
        Some(cat[i])
    } else {
        first_record_from(cat, st, i + 1)
    }
}

/// The first record of the catalog whose service type is `st`.
pub open spec fn first_record(cat: Seq<CatalogRecordView>, st: Seq<char>) -> Option<
    CatalogRecordView,
> {
    first_record_from(cat, st, 0)
}

/// The first endpoint at or after index `i` that matches the filter.
pub open spec fn first_match_from(
    eps: Seq<EndpointView>,
    interface: Seq<char>,
    region: Option<Seq<char>>,
    i: int,
) -> Option<EndpointView>
    decreases eps.len() - i,
{
    if i < 0 || i >= eps.len() {
        None
    } else if ep_matches(eps[i], interface, region) {
        Some(eps[i])
    } else {
        first_match_from(eps, interface, region, i + 1)
    }
}

/// The first endpoint of the list that matches the filter.
pub open spec fn first_match(
    eps: Seq<EndpointView>,
    interface: Seq<char>,
    region: Option<Seq<char>>,
) -> Option<EndpointView> {
    first_match_from(eps, interface, region, 0)
}

/// The endpoint chosen within one record: the first exact interface-and-region
/// match when a region is requested, falling back to the first interface match
/// when no endpoint carries the region; the first interface match otherwise.
pub open spec fn pick_endpoint(
    eps: Seq<EndpointView>,
    interface: Seq<char>,
    region: Option<Seq<char>>,
) -> Option<EndpointView> {
    match region {
        Some(rg) => match first_match(eps, interface, Some(rg)) {
            Some(e) => Some(e),
            None => first_match(eps, interface, None),
        },
        None => first_match(eps, interface, None),
    }
}

/// The endpoint that resolution yields for a catalog, a service type, an
/// interface kind and an optional region; `None` when resolution fails.
pub open spec fn resolve(
    cat: Seq<CatalogRecordView>,
    st: Seq<char>,
    interface: Seq<char>,
    region: Option<Seq<char>>,
) -> Option<EndpointView> {
    match first_record(cat, st) {
        None => None,
        Some(rec) => pick_endpoint(rec.endpoints, interface, region),
    }
}

/// The message carried by an `EndpointNotFound` error.
pub open spec fn not_found_message(st: Seq<char>, interface: Seq<char>) -> Seq<char> {
    "no suitable endpoint for service "@ + st + " with interface "@ + interface
}

fn not_found_error(service_type: &str, interface: &str) -> (r: Error)
    ensures
        r@.kind == ErrorKind::EndpointNotFound,
        r@.status is None,
        r@.message == not_found_message(service_type@, interface@),
{
    let msg = String::new().concat("no suitable endpoint for service ").concat(
        service_type,
    ).concat(" with interface ").concat(interface);
    proof {
        assert(msg@ =~= not_found_message(service_type@, interface@));
    }
    Error::new(ErrorKind::EndpointNotFound, msg)
}

/// The first record of the catalog carrying the given service type.
fn find_record_in<'a>(catalog: &'a Vec<CatalogRecord>, service_type: &str) -> (r: Option<
    &'a CatalogRecord,
>)
    ensures
        match r {
            Some(rec) => first_record(catalog.deep_view(), service_type@) == Some(rec.deep_view()),
            None => first_record(catalog.deep_view(), service_type@) is None,
        },
{
    let ghost cdv = catalog.deep_view();
    let mut i: usize = 0;
    while i < catalog.len()
        invariant
            i <= catalog.len(),
            cdv == catalog.deep_view(),
            cdv.len() == catalog.len(),
            first_record(cdv, service_type@) == first_record_from(cdv, service_type@, i as int),
        decreases catalog.len() - i,
    {
        if str_eq(catalog[i].service_type.as_str(), service_type) {
            return Some(&catalog[i]);
        }
        i = i + 1;
    }
    None
}

/// The first endpoint of the list matching the interface and, when given, the
/// region.
fn find_matching_endpoint<'a>(
    eps: &'a Vec<Endpoint>,
    interface: &str,
    region: Option<&String>,
) -> (r: Option<&'a Endpoint>)
    ensures
        match r {
            Some(e) => first_match(eps.deep_view(), interface@, region.deep_view()) == Some(
                e.deep_view(),
            ),
            None => first_match(eps.deep_view(), interface@, region.deep_view()) is None,
        },
{
    let ghost edv = eps.deep_view();
    let ghost rg = region.deep_view();
    let mut i: usize = 0;
    while i < eps.len()
        invariant
            i <= eps.len(),
            edv == eps.deep_view(),
            rg == region.deep_view(),
            edv.len() == eps.len(),
            first_match(edv, interface@, rg) == first_match_from(edv, interface@, rg, i as int),
        decreases eps.len() - i,
    {
        let e = &eps[i];
        let iface_ok = str_eq(e.interface.as_str(), interface);
        let region_ok = match region {
            Some(want) => match &e.region {
                Some(have) => str_eq(have.as_str(), want.as_str()),
                None => false,
            },
            None => true,
        };
        if iface_ok && region_ok {
            return Some(e);
        }
        i = i + 1;
    }
    None
}

/// Resolve a service endpoint in the catalog.
///
/// The first record whose service type matches exactly is consulted; within
/// it, the first endpoint matching the interface and the requested region is
/// chosen, the region constraint being dropped when nothing carries it.  The
/// call fails with `EndpointNotFound` exactly when the service type is absent
/// or no endpoint of its record matches the interface.
pub fn find_endpoint(
    catalog: &Vec<CatalogRecord>,
    service_type: &str,
    interface: &str,
    region: &Option<String>,
) -> (r: Result<Endpoint, Error>)
    ensures
        match r {
            Ok(e) => resolve(
                catalog.deep_view(),
                service_type@,
                interface@,
                region.deep_view(),
            ) == Some(e@),
            Err(err) => {
                &&& resolve(catalog.deep_view(), service_type@, interface@, region.deep_view())
                    is None
                &&& err@.kind == ErrorKind::EndpointNotFound
                &&& err@.status is None
                &&& err@.message == not_found_message(service_type@, interface@)
            },
        },
{
    match find_record_in(catalog, service_type) {
        None => Err(not_found_error(service_type, interface)),
        Some(rec) => {
            let hit = match region {
                Some(rg) => match find_matching_endpoint(&rec.endpoints, interface, Some(rg)) {
                    Some(e) => Some(e),
                    None => find_matching_endpoint(&rec.endpoints, interface, None),
                },
                None => find_matching_endpoint(&rec.endpoints, interface, None),
            };
            match hit {
                Some(e) => Ok(e.clone()),
                None => Err(not_found_error(service_type, interface)),
            }
        },
    }
}

/// Endpoint resolution is deterministic: two resolutions over equal catalogs
/// with equal service types, interfaces and regions yield equal outcomes.
pub proof fn lemma_resolution_deterministic(
    cat1: Seq<CatalogRecordView>,
    cat2: Seq<CatalogRecordView>,
    st: Seq<char>,
    interface: Seq<char>,
    region: Option<Seq<char>>,
)
    requires
        cat1 == cat2,
    ensures
        resolve(cat1, st, interface, region) == resolve(cat2, st, interface, region),
{
}

} // verus!
