use vstd::prelude::*;

use crate::model::{EngineError, ErrorKind};

verus! {

/// The cause given when some pending objects could not be deleted.
pub const CLEANUP_FAILED: &'static str = "some pending network-exposure objects could not be deleted";

/// Why listing the workload's network-exposure objects failed.
#[derive(Debug)]
pub enum ListingError {
    /// The cluster could not be reached.
    Unreachable(String),
    /// The cluster refused the listing.
    Failed(String),
}

/// The kind of error a failed listing ends a cleanup with.
pub open spec fn listing_error_kind(e: ListingError) -> ErrorKind {
    match e {
        ListingError::Unreachable(_) => ErrorKind::Connectivity,
        ListingError::Failed(_) => ErrorKind::Cleanup,
    }
}

/// The cause a failed listing carries.
pub open spec fn listing_error_message(e: ListingError) -> Seq<char> {
    match e {
        ListingError::Unreachable(m) => m@,
        ListingError::Failed(m) => m@,
    }
}

/// The error that ends a cleanup whose listing failed.
pub fn listing_error(e: ListingError) -> (r: EngineError)
    ensures
        r.kind == listing_error_kind(e),
        r.message@ == listing_error_message(e),
        r.objects@.len() == 0,
{
    match e {
        ListingError::Unreachable(m) => EngineError::new(ErrorKind::Connectivity, m),
        ListingError::Failed(m) => EngineError::new(ErrorKind::Cleanup, m),
    }
}

/// A network-exposure object of the workload, as listed on the cluster.
#[derive(Debug)]
pub struct ServiceState {
    pub name: String,
    /// Whether its provisioning has completed.
    pub ready: bool,
}

/// The names of the objects left pending, in listing order.
pub open spec fn pending_names(services: Seq<ServiceState>) -> Seq<Seq<char>>
    decreases services.len(),
{
    if services.len() == 0 {
        Seq::empty()
    } else {
        let rest = pending_names(services.drop_last());
        if services.last().ready {
            rest
        } else {
            rest.push(services.last().name@)
        }
    }
}

/// The names held by a vector of strings.
pub open spec fn names_view(v: Seq<String>) -> Seq<Seq<char>> {
    v.map_values(|s: String| s@)
}

/// Picks, among the listed objects, those still pending, which are to be deleted.
pub fn pending_services(services: &Vec<ServiceState>) -> (r: Vec<String>)
    ensures
        names_view(r@) == pending_names(services@),
{
    let mut r: Vec<String> = Vec::new();
    let mut i: usize = 0;
    while i < services.len()
        invariant
            i <= services.len(),
            names_view(r@) == pending_names(services@.take(i as int)),
        decreases services.len() - i,
    {
        let s = &services[i];
        proof {
            assert(services@.take(i as int + 1).drop_last() =~= services@.take(i as int));
        }
        if !s.ready {
            r.push(s.name.clone());
            assert(names_view(r@) =~= pending_names(services@.take(i as int + 1)));
        }
        i = i + 1;
    }
    assert(services@.take(i as int) =~= services@);
    r
}

/// The result of a cleanup, given the objects whose deletion failed: an error
/// listing them where there is any.
pub fn cleanup_result(failed: Vec<String>) -> (r: Result<(), EngineError>)
    ensures
        failed@.len() == 0 <==> r is Ok,
        r is Err ==> r->Err_0.kind == ErrorKind::Cleanup && r->Err_0.objects@ == failed@
            && r->Err_0.message@ == CLEANUP_FAILED@,
{
    if failed.len() == 0 {
        Ok(())
    } else {
        Err(EngineError { kind: ErrorKind::Cleanup, message: CLEANUP_FAILED.to_string(), objects: failed })
    }
}

} // verus!
