use vstd::prelude::*;
use crate::error::{Error, ErrorKind};
use crate::request::{no_query, ApiRequest, Configuration, Method, RequestView};
use crate::resolve::{listed_resolution, resolve_user_id};

verus! {

/// The operations on users, each keyed by the application's external id.
///
/// Each operation first searches the service for the external id (see
/// [`User::list_users_request`]), then acts on the one user found. The step from
/// the search's outcome to the acting call is a function here, so that no call is
/// ever made for a user that was not found exactly once.
#[derive(Debug, Clone)]
pub struct User {
    pub configuration: Configuration,
}

/// The model of a result that holds a request.
pub open spec fn request_result_view(r: Result<ApiRequest, Error>) -> Result<RequestView, ErrorKind> {
    match r {
        Ok(q) => Ok(q@),
        Err(e) => Err(e@),
    }
}

/// The segment that an optional part adds to a path.
spec fn part(o: Option<Seq<char>>) -> Seq<Seq<char>> {
    match o {
        Some(s) => seq![s],
        None => Seq::empty(),
    }
}

/// A path of a fixed first segment and up to three more, as a vector.
fn segments(a: &str, b: Option<String>, c: Option<&str>, d: Option<String>) -> (r: Vec<String>)
    ensures
        crate::request::strings_view(r@) == seq![a@] + part(crate::request::opt_view(b)) + part(
            match c {
                Some(s) => Some(s@),
                None => None,
            },
        ) + part(crate::request::opt_view(d)),
{
    let mut r: Vec<String> = Vec::new();
    let ghost bv = crate::request::opt_view(b);
    let ghost dv = crate::request::opt_view(d);
    r.push(String::from_str(a));
    match b {
        Some(s) => r.push(s),
        None => {},
    }
    match c {
        Some(s) => r.push(String::from_str(s)),
        None => {},
    }
    match d {
        Some(s) => r.push(s),
        None => {},
    }
    let ghost cv = match c {
        Some(s) => Some(s@),
        None => None,
    };
    assert(crate::request::strings_view(r@) =~= seq![a@] + part(bv) + part(cv) + part(dv));
    r
}

impl User {
    /// Creates the user operations over `configuration`.
    pub fn new(configuration: Configuration) -> (r: Self)
        ensures
            r.configuration == configuration,
    {
        Self { configuration }
    }

    /// The search for the users whose identifier is `external_id`: one page of size one.
    pub open spec fn list_users_spec(self, external_id: Seq<char>) -> RequestView {
        self.configuration.request(
            Method::Get,
            seq!["users"@],
            seq![("page"@, "1"@), ("limit"@, "1"@), ("identifier"@, external_id)],
            None,
        )
    }

    /// The call that fetches the user whose internal id is `user_id`.
    pub open spec fn get_user_spec(self, user_id: Seq<char>) -> RequestView {
        self.configuration.request(Method::Get, seq!["users"@, user_id], Seq::empty(), None)
    }

    /// The call that lists the passkey devices of the user whose internal id is `user_id`.
    pub open spec fn list_devices_spec(self, user_id: Seq<char>) -> RequestView {
        self.configuration.request(
            Method::Get,
            seq!["users"@, user_id, "devices"@],
            Seq::empty(),
            None,
        )
    }

    /// The call that deletes device `device_id` of the user whose internal id is `user_id`.
    pub open spec fn delete_device_spec(self, user_id: Seq<char>, device_id: Seq<char>) -> RequestView {
        self.configuration.request(
            Method::Delete,
            seq!["users"@, user_id, "devices"@, device_id],
            Seq::empty(),
            None,
        )
    }

    /// What follows the search when fetching a user.
    pub open spec fn get_outcome(self, listed: Result<Vec<String>, Error>) -> Result<RequestView, ErrorKind> {
        match listed_resolution(listed) {
            Ok(id) => Ok(self.get_user_spec(id)),
            Err(e) => Err(e),
        }
    }

    /// What follows the search when listing a user's devices.
    pub open spec fn list_devices_outcome(self, listed: Result<Vec<String>, Error>) -> Result<RequestView, ErrorKind> {
        match listed_resolution(listed) {
            Ok(id) => Ok(self.list_devices_spec(id)),
            Err(e) => Err(e),
        }
    }

    /// What follows the search when revoking one of a user's devices.
    pub open spec fn revoke_device_outcome(
        self,
        listed: Result<Vec<String>, Error>,
        device_id: Seq<char>,
    ) -> Result<RequestView, ErrorKind> {
        match listed_resolution(listed) {
            Ok(id) => Ok(self.delete_device_spec(id, device_id)),
            Err(e) => Err(e),
        }
    }

    /// The search by `external_id` that each user operation starts with. Its
    /// success payload lists the matching users; their internal ids, in order, are
    /// what the next step takes.
    pub fn list_users_request(&self, external_id: String) -> (r: ApiRequest)
        ensures
            r@ == self.list_users_spec(external_id@),
    {
        let mut query: Vec<(String, String)> = Vec::new();
        query.push((String::from_str("page"), String::from_str("1")));
        query.push((String::from_str("limit"), String::from_str("1")));
        query.push((String::from_str("identifier"), external_id));
        assert(crate::json::pairs_view(query@) =~= seq![
            ("page"@, "1"@),
            ("limit"@, "1"@),
            ("identifier"@, external_id@),
        ]);
        let path = segments("users", None, None, None);
        assert(crate::request::strings_view(path@) =~= seq!["users"@]);
        self.configuration.build(Method::Get, path, query, None)
    }

    /// After the search: the call that fetches the user that was found, or the
    /// error that ends the operation (no user, several users, or a failed search).
    pub fn get_request(&self, listed: Result<Vec<String>, Error>) -> (r: Result<ApiRequest, Error>)
        ensures
            request_result_view(r) == self.get_outcome(listed),
    {
        match resolve_user_id(listed) {
            Err(e) => Err(e),
            Ok(id) => {
                let ghost idv = id@;
                let path = segments("users", Some(id), None, None);
                assert(crate::request::strings_view(path@) =~= seq!["users"@, idv]);
                Ok(self.configuration.build(Method::Get, path, no_query(), None))
            },
        }
    }

    /// After the search: the call that lists the devices of the user that was
    /// found, or the error that ends the operation.
    pub fn list_devices_request(&self, listed: Result<Vec<String>, Error>) -> (r: Result<ApiRequest, Error>)
        ensures
            request_result_view(r) == self.list_devices_outcome(listed),
    {
        match resolve_user_id(listed) {
            Err(e) => Err(e),
            Ok(id) => {
                let ghost idv = id@;
                let path = segments("users", Some(id), Some("devices"), None);
                assert(crate::request::strings_view(path@) =~= seq!["users"@, idv, "devices"@]);
                Ok(self.configuration.build(Method::Get, path, no_query(), None))
            },
        }
    }

    /// After the search: the call that deletes device `device_id` of the user that
    /// was found, or the error that ends the operation. A device that is already
    /// gone is reported by that call as `DeviceNotFound`.
    pub fn revoke_device_request(
        &self,
        listed: Result<Vec<String>, Error>,
        device_id: String,
    ) -> (r: Result<ApiRequest, Error>)
        ensures
            request_result_view(r) == self.revoke_device_outcome(listed, device_id@),
    {
        match resolve_user_id(listed) {
            Err(e) => Err(e),
            Ok(id) => {
                let ghost idv = id@;
                let ghost dv = device_id@;
                let path = segments("users", Some(id), Some("devices"), Some(device_id));
                assert(crate::request::strings_view(path@) =~= seq!["users"@, idv, "devices"@, dv]);
                Ok(self.configuration.build(Method::Delete, path, no_query(), None))
            },
        }
    }
}

/// A search that reports two or more users for one external id never leads to a
/// call: fetching the user, listing its devices and revoking a device all end
/// with `InternalServerError`.
pub proof fn lemma_ambiguous_search_stops(user: User, ids: Vec<String>, device_id: Seq<char>)
    requires
        ids@.len() >= 2,
    ensures
        user.get_outcome(Ok(ids)) == Err::<RequestView, ErrorKind>(ErrorKind::InternalServerError),
        user.list_devices_outcome(Ok(ids)) == Err::<RequestView, ErrorKind>(
            ErrorKind::InternalServerError,
        ),
        user.revoke_device_outcome(Ok(ids), device_id) == Err::<RequestView, ErrorKind>(
            ErrorKind::InternalServerError,
        ),
{
}

/// Revoking a device of an external id that resolves to no user fails with
/// `UserNotFound` and makes no delete call.
pub proof fn lemma_unknown_user_is_not_revoked(user: User, ids: Vec<String>, device_id: Seq<char>)
    requires
        ids@.len() == 0,
    ensures
        user.revoke_device_outcome(Ok(ids), device_id) == Err::<RequestView, ErrorKind>(
            ErrorKind::UserNotFound,
        ),
{
}

/// No user operation acts on a record unless the search found exactly one user,
/// and then it acts on that user's internal id.
pub proof fn lemma_calls_follow_exactly_one_match(
    user: User,
    listed: Result<Vec<String>, Error>,
    device_id: Seq<char>,
)
    ensures
        user.get_outcome(listed) is Ok ==> listed is Ok && listed->Ok_0@.len() == 1
            && user.get_outcome(listed)->Ok_0 == user.get_user_spec(listed->Ok_0@[0]@),
        user.list_devices_outcome(listed) is Ok ==> listed is Ok && listed->Ok_0@.len() == 1
            && user.list_devices_outcome(listed)->Ok_0 == user.list_devices_spec(
            listed->Ok_0@[0]@,
        ),
        user.revoke_device_outcome(listed, device_id) is Ok ==> listed is Ok && listed->Ok_0@.len()
            == 1 && user.revoke_device_outcome(listed, device_id)->Ok_0 == user.delete_device_spec(
            listed->Ok_0@[0]@,
            device_id,
        ),
{
}

} // verus!
