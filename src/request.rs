use vstd::prelude::*;

verus! {

/// How the client reaches the service: the base of every path, and the bearer
/// credential that each request carries.
#[derive(Debug, Clone)]
pub struct Configuration {
    /// `<server url>/v1/apps/<app id>`.
    pub base_path: String,
    pub bearer_access_token: Option<String>,
}

/// The HTTP methods that the service's operations use.
#[derive(Debug, Clone, Copy, PartialEq, Eq, Structural)]
pub enum Method {
    Get,
    Post,
    Delete,
}

/// One outbound call, fully decided: the transport only has to send it.
#[derive(Debug, Clone)]
pub struct ApiRequest {
    pub method: Method,
    /// The configuration's base path; `path` is appended to it.
    pub base_path: String,
    /// Path segments after the base path, each to be percent-encoded on its own.
    pub path: Vec<String>,
    /// Query parameters, in order, each to be form-encoded.
    pub query: Vec<(String, String)>,
    /// A JSON body, for the calls that send one.
    pub body: Option<String>,
    pub bearer_access_token: Option<String>,
}

/// The model of an [`ApiRequest`].
pub struct RequestView {
    pub method: Method,
    pub base_path: Seq<char>,
    pub path: Seq<Seq<char>>,
    pub query: Seq<(Seq<char>, Seq<char>)>,
    pub body: Option<Seq<char>>,
    pub bearer_access_token: Option<Seq<char>>,
}

/// The model of a list of strings.
pub open spec fn strings_view(v: Seq<String>) -> Seq<Seq<char>> {
    v.map_values(|s: String| s@)
}

/// The model of an optional string.
pub open spec fn opt_view(o: Option<String>) -> Option<Seq<char>> {
    match o {
        Some(s) => Some(s@),
        None => None,
    }
}

impl View for ApiRequest {
    type V = RequestView;

    open spec fn view(&self) -> RequestView {
        RequestView {
            method: self.method,
            base_path: self.base_path@,
            path: strings_view(self.path@),
            query: crate::json::pairs_view(self.query@),
            body: opt_view(self.body),
            bearer_access_token: opt_view(self.bearer_access_token),
        }
    }
}

/// An empty query.
pub(crate) fn no_query() -> (r: Vec<(String, String)>)
    ensures
        crate::json::pairs_view(r@) == Seq::<(Seq<char>, Seq<char>)>::empty(),
{
    let r: Vec<(String, String)> = Vec::new();
    assert(crate::json::pairs_view(r@) =~= Seq::<(Seq<char>, Seq<char>)>::empty());
    r
}

impl Configuration {
    /// The request that this configuration sends for `method`, `path`, `query` and `body`.
    pub open spec fn request(
        self,
        method: Method,
        path: Seq<Seq<char>>,
        query: Seq<(Seq<char>, Seq<char>)>,
        body: Option<Seq<char>>,
    ) -> RequestView {
        RequestView {
            method,
            base_path: self.base_path@,
            path,
            query,
            body,
            bearer_access_token: opt_view(self.bearer_access_token),
        }
    }

    /// Builds a request to this configuration's service.
    pub fn build(
        &self,
        method: Method,
        path: Vec<String>,
        query: Vec<(String, String)>,
        body: Option<String>,
    ) -> (r: ApiRequest)
        ensures
            r@ == self.request(
                method,
                strings_view(path@),
                crate::json::pairs_view(query@),
                opt_view(body),
            ),
    {
        ApiRequest {
            method,
            base_path: self.base_path.clone(),
            path,
            query,
            body,
            bearer_access_token: self.bearer_access_token.clone(),
        }
    }
}

} // verus!
