use vstd::prelude::*;
use crate::error::{Error, ErrorKind};
use crate::json::{object_text, string_object};
use crate::resolve::{listed_resolution, resolve_user_id};
use crate::request::{no_query, ApiRequest, Configuration, Method, RequestView};

verus! {

/// The ceremonies: registration and authentication transactions, and nonce checks.
#[derive(Debug, Clone)]
pub struct Auth {
    pub configuration: Configuration,
}

/// A path of two fixed segments.
fn two_segments(a: &str, b: &str) -> (r: Vec<String>)
    ensures
        crate::request::strings_view(r@) == seq![a@, b@],
{
    let mut r: Vec<String> = Vec::new();
    r.push(String::from_str(a));
    r.push(String::from_str(b));
    assert(crate::request::strings_view(r@) =~= seq![a@, b@]);
    r
}

/// A list of one string pair.
fn one_pair(k: &str, v: String) -> (r: Vec<(String, String)>)
    ensures
        crate::json::pairs_view(r@) == seq![(k@, v@)],
{
    let mut r: Vec<(String, String)> = Vec::new();
    r.push((String::from_str(k), v));
    assert(crate::json::pairs_view(r@) =~= seq![(k@, v@)]);
    r
}

impl Auth {
    /// Creates the ceremony operations over `configuration`.
    pub fn new(configuration: Configuration) -> (r: Self)
        ensures
            r.configuration == configuration,
    {
        Self { configuration }
    }

    /// The call that creates a registration transaction.
    pub open spec fn register_spec(self, external_id: Seq<char>, display_name: Seq<char>) -> RequestView {
        self.configuration.request(
            Method::Post,
            seq!["transactions"@, "register"@],
            Seq::empty(),
            Some(object_text(seq![("external_id"@, external_id), ("passkey_display_name"@, display_name)])),
        )
    }

    /// The call that creates an authentication transaction.
    pub open spec fn authenticate_spec(self, external_id: Seq<char>) -> RequestView {
        self.configuration.request(
            Method::Post,
            seq!["transactions"@, "authenticate"@],
            Seq::empty(),
            Some(object_text(seq![("external_id"@, external_id)])),
        )
    }

    /// The call that verifies a nonce.
    pub open spec fn verify_nonce_spec(self, nonce: Seq<char>) -> RequestView {
        self.configuration.request(
            Method::Post,
            seq!["authenticate"@, "verify"@],
            Seq::empty(),
            Some(object_text(seq![("nonce"@, nonce)])),
        )
    }

    /// The request that starts a registration for `external_id`, whose passkey the
    /// user will see labelled `passkey_display_name`. Its success payload holds the
    /// transaction id.
    pub fn create_register_transaction_request(
        &self,
        external_id: String,
        passkey_display_name: String,
    ) -> (r: ApiRequest)
        ensures
            r@ == self.register_spec(external_id@, passkey_display_name@),
    {
        let mut members: Vec<(String, String)> = Vec::new();
        members.push((String::from_str("external_id"), external_id));
        members.push((String::from_str("passkey_display_name"), passkey_display_name));
        assert(crate::json::pairs_view(members@) =~= seq![
            ("external_id"@, external_id@),
            ("passkey_display_name"@, passkey_display_name@),
        ]);
        let body = string_object(&members);
        self.configuration.build(
            Method::Post,
            two_segments("transactions", "register"),
            no_query(),
            Some(body),
        )
    }

    /// The request that starts an authentication for `external_id`, sent straight
    /// to the service, which decides whether the user exists. Its success payload
    /// holds the transaction id.
    pub fn create_authenticate_transaction_request(&self, external_id: String) -> (r: ApiRequest)
        ensures
            r@ == self.authenticate_spec(external_id@),
    {
        let members = one_pair("external_id", external_id);
        let body = string_object(&members);
        self.configuration.build(
            Method::Post,
            two_segments("transactions", "authenticate"),
            no_query(),
            Some(body),
        )
    }

    /// What follows the search by `external_id` when an authentication is to start
    /// only for a user that the service holds exactly once.
    pub open spec fn authenticate_checked_outcome(
        self,
        listed: Result<Vec<String>, Error>,
        external_id: Seq<char>,
    ) -> Result<RequestView, ErrorKind> {
        match listed_resolution(listed) {
            Ok(_) => Ok(self.authenticate_spec(external_id)),
            Err(e) => Err(e),
        }
    }

    /// The stricter way to start an authentication: after the search by
    /// `external_id` (see `User::list_users_request`), the request that starts it
    /// when exactly one user was found, else the error that ends it, with no call.
    pub fn create_authenticate_transaction_request_checked(
        &self,
        listed: Result<Vec<String>, Error>,
        external_id: String,
    ) -> (r: Result<ApiRequest, Error>)
        ensures
            crate::user::request_result_view(r) == self.authenticate_checked_outcome(
                listed,
                external_id@,
            ),
    {
        match resolve_user_id(listed) {
            Err(e) => Err(e),
            Ok(_) => Ok(self.create_authenticate_transaction_request(external_id)),
        }
    }

    /// The request that verifies `nonce`. Its success payload holds the external
    /// id of the user who completed the ceremony.
    pub fn verify_nonce_request(&self, nonce: String) -> (r: ApiRequest)
        ensures
            r@ == self.verify_nonce_spec(nonce@),
    {
        let members = one_pair("nonce", nonce);
        let body = string_object(&members);
        self.configuration.build(
            Method::Post,
            two_segments("authenticate", "verify"),
            no_query(),
            Some(body),
        )
    }
}

} // verus!
