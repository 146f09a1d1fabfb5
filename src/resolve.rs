use vstd::prelude::*;
use crate::error::{Error, ErrorKind};

verus! {

/// What a search for one external id resolves to, given the internal ids of the
/// users that the search returned: exactly one match is that user's id; no match
/// is `UserNotFound`; more than one is an inconsistency upstream, reported as
/// `InternalServerError` rather than settled by picking one.
pub open spec fn resolution(ids: Seq<String>) -> Result<Seq<char>, ErrorKind> {
    if ids.len() == 0 {
        Err(ErrorKind::UserNotFound)
    } else if ids.len() == 1 {
        Ok(ids[0]@)
    } else {
        Err(ErrorKind::InternalServerError)
    }
}

/// What the outcome of the search call resolves to: a failed search keeps its error.
pub open spec fn listed_resolution(listed: Result<Vec<String>, Error>) -> Result<Seq<char>, ErrorKind> {
    match listed {
        Ok(ids) => resolution(ids@),
        Err(e) => Err(e@),
    }
}

/// The model of a result that holds a string.
pub open spec fn text_result_view(r: Result<String, Error>) -> Result<Seq<char>, ErrorKind> {
    match r {
        Ok(s) => Ok(s@),
        Err(e) => Err(e@),
    }
}

/// Resolves an external id to the service's internal id, from the outcome of the
/// search by that external id (the internal ids of the users it returned, in order).
pub fn resolve_user_id(listed: Result<Vec<String>, Error>) -> (r: Result<String, Error>)
    ensures
        text_result_view(r) == listed_resolution(listed),
{
    match listed {
        Err(e) => Err(e),
        Ok(mut ids) => {
            if ids.len() == 0 {
                Err(Error::UserNotFound)
            } else if ids.len() == 1 {
                Ok(ids.remove(0))
            } else {
                Err(Error::InternalServerError)
            }
        },
    }
}

/// Whatever external id was searched for, a search that reports no user resolves
/// to `UserNotFound`, and one that reports exactly one user resolves to that
/// user's internal id.
pub proof fn lemma_resolution_of_zero_or_one(ids: Vec<String>)
    ensures
        ids@.len() == 0 ==> listed_resolution(Ok(ids)) == Err::<Seq<char>, ErrorKind>(
            ErrorKind::UserNotFound,
        ),
        ids@.len() == 1 ==> listed_resolution(Ok(ids)) == Ok::<Seq<char>, ErrorKind>(ids@[0]@),
{
}

/// A resolution succeeds only on a search that reported exactly one user, and
/// then it is that user's internal id.
pub proof fn lemma_resolution_needs_exactly_one(listed: Result<Vec<String>, Error>)
    ensures
        listed_resolution(listed) is Ok <==> (listed is Ok && listed->Ok_0@.len() == 1),
        listed_resolution(listed) is Ok ==> listed_resolution(listed)->Ok_0
            == listed->Ok_0@[0]@,
{
}

} // verus!
