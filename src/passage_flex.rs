use vstd::prelude::*;
use crate::auth::Auth;
use crate::request::{no_query, opt_view, ApiRequest, Configuration, Method, RequestView};
use crate::user::User;

verus! {

/// The service's production host.
pub const SERVER_URL: &'static str = "https://api.passage.id";

/// A client of one app of the identity service.
#[derive(Debug, Clone)]
pub struct PassageFlex {
    pub app_id: String,
    pub auth: Auth,
    pub user: User,
}

/// The base path of an app's operations on a server: `<server_url>/v1/apps/<app_id>`.
pub open spec fn base_path_for(server_url: Seq<char>, app_id: Seq<char>) -> Seq<char> {
    server_url + "/v1/apps/"@ + app_id
}

impl PassageFlex {
    /// Both operation groups address this app on `server_url`.
    pub open spec fn serves(self, server_url: Seq<char>) -> bool {
        &&& self.auth.configuration.base_path@ == base_path_for(server_url, self.app_id@)
        &&& self.user.configuration.base_path@ == base_path_for(server_url, self.app_id@)
    }

    /// Both operation groups authenticate with `api_key`.
    pub open spec fn uses_credential(self, api_key: Seq<char>) -> bool {
        &&& opt_view(self.auth.configuration.bearer_access_token) == Some(api_key)
        &&& opt_view(self.user.configuration.bearer_access_token) == Some(api_key)
    }

    /// Creates a client of app `app_id` on the production host, authenticated by
    /// `api_key`. Both must be non-empty.
    pub fn new(app_id: String, api_key: String) -> (r: Self)
        requires
            app_id@.len() > 0,
            api_key@.len() > 0,
        ensures
            r.app_id@ == app_id@,
            r.serves(SERVER_URL@),
            r.uses_credential(api_key@),
    {
        let auth = Auth::new(
            Configuration { base_path: String::new(), bearer_access_token: Some(api_key.clone()) },
        );
        let user = User::new(
            Configuration { base_path: String::new(), bearer_access_token: Some(api_key) },
        );
        let mut client = Self { app_id, auth, user };
        client.set_server_url(String::from_str(SERVER_URL));
        client
    }

    /// Points both operation groups at `server_url` (a local endpoint, in tests),
    /// keeping the app and the credential.
    pub fn set_server_url(&mut self, server_url: String)
        ensures
            final(self).app_id == old(self).app_id,
            final(self).serves(server_url@),
            final(self).auth.configuration.bearer_access_token == old(
                self,
            ).auth.configuration.bearer_access_token,
            final(self).user.configuration.bearer_access_token == old(
                self,
            ).user.configuration.bearer_access_token,
    {
        let mut base_path = server_url;
        base_path.append("/v1/apps/");
        base_path.append(self.app_id.as_str());
        self.auth.configuration.base_path = base_path.clone();
        self.user.configuration.base_path = base_path;
    }

    /// The call that fetches the app's own settings: one empty segment, so the path
    /// ends in a slash.
    pub open spec fn get_app_spec(self) -> RequestView {
        self.auth.configuration.request(Method::Get, seq![Seq::empty()], Seq::empty(), None)
    }

    /// The request that fetches the app's settings (`<base path>/`). Its success
    /// payload holds the app document.
    pub fn get_app_request(&self) -> (r: ApiRequest)
        ensures
            r@ == self.get_app_spec(),
    {
        let mut path: Vec<String> = Vec::new();
        path.push(String::new());
        assert(crate::request::strings_view(path@) =~= seq![Seq::<char>::empty()]);
        self.auth.configuration.build(Method::Get, path, no_query(), None)
    }
}

} // verus!
