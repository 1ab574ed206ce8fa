use vstd::prelude::*;

verus! {

/// The gateway's configuration, read once at start-up and never changed.
pub struct BackendConfig {
    /// The backend's host, or its full endpoint URL once `endpoint_url` has been applied.
    pub hostname: String,
    /// The account that the gateway logs in to the backend with.
    pub user_name: String,
    pub password: String,
    /// Files holding the gateway's TLS certificate chain and private key.
    pub certificate: String,
    pub tls_key: String,
    /// The port the gateway listens on.
    pub restapi_port: i32,
    /// The credentials that callers of the gateway authenticate with.
    pub http_basic_auth_user: String,
    pub http_basic_auth_password: String,
}

/// The query of a request that names a managed host.
pub struct GetServerId {
    pub hostname: String,
}

/// The backend's RPC endpoint on `host`.
pub fn endpoint_url(host: &str) -> (r: String)
    ensures
        r@ == "http://"@ + host@ + "/rpc/api"@,
{
    let mut url = String::from_str("http://");
    url.append(host);
    url.append("/rpc/api");
    url
}

impl BackendConfig {
    /// Whether a caller's basic-auth credentials are the configured ones. A
    /// caller that sends no password is refused.
    pub fn authenticate(&self, user: &str, password: Option<&str>) -> (r: bool)
        ensures
            r == (password is Some && user@ == self.http_basic_auth_user@
                && password->0@ == self.http_basic_auth_password@),
    {
        match password {
            Some(p) => {
                let user = String::from_str(user);
                let p = String::from_str(p);
                user == self.http_basic_auth_user && p == self.http_basic_auth_password
            },
            None => false,
        }
    }
}

} // verus!
