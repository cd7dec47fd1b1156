//! The identity provider's data as the control plane uses it: roles, user
//! records, and the payloads of its token requests.
use vstd::prelude::*;
use vstd::string::{StrSliceExecFns, StringExecFns};

verus! {

/// A role granted to a user.
#[derive(Debug)]
pub struct UserRole {
    id: String,
    name: String,
}

/// Whether a role name marks an administrator: one of its `:`-separated
/// parts begins with `admin`.
pub open spec fn admin_name(name: Seq<char>) -> bool {
    exists|i: int|
        0 <= i && i + 5 <= name.len() && (i == 0 || name[i - 1] == ':') && #[trigger] name.subrange(
            i,
            i + 5,
        ) == seq!['a', 'd', 'm', 'i', 'n']
}

impl UserRole {
    pub fn new(id: String, name: String) -> (r: UserRole)
        ensures
            r.name_view() == name@,
    {
        UserRole { id, name }
    }

    pub closed spec fn name_view(&self) -> Seq<char> {
        self.name@
    }

    /// Whether this role should be considered an administrator's.
    pub fn is_admin(&self) -> (r: bool)
        ensures
            r == admin_name(self.name_view()),
    {
        let s = self.name.as_str();
        let n = s.unicode_len();
        let ghost word = seq!['a', 'd', 'm', 'i', 'n'];
        if n < 5 {
            return false;
        }
        let mut i: usize = 0;
        while i <= n - 5
            invariant
                5 <= n,
                word == seq!['a', 'd', 'm', 'i', 'n'],
                n == s@.len(),
                s@ == self.name@,
                i <= n,
                forall|j: int|
                    0 <= j < i && j + 5 <= n && (j == 0 || s@[j - 1] == ':') ==> #[trigger] s@.subrange(
                        j,
                        j + 5,
                    ) != word,
            decreases n - i,
        {
            if i == 0 || s.get_char(i - 1) == ':' {
                if s.get_char(i) == 'a' && s.get_char(i + 1) == 'd' && s.get_char(i + 2) == 'm'
                    && s.get_char(i + 3) == 'i' && s.get_char(i + 4) == 'n' {
                    assert(s@.subrange(i as int, i + 5) =~= word);
                    return true;
                }
                assert(s@.subrange(i as int, i + 5)[0] == s@[i as int]);
                assert(s@.subrange(i as int, i + 5)[1] == s@[i + 1]);
                assert(s@.subrange(i as int, i + 5)[2] == s@[i + 2]);
                assert(s@.subrange(i as int, i + 5)[3] == s@[i + 3]);
                assert(s@.subrange(i as int, i + 5)[4] == s@[i + 4]);
            }
            i = i + 1;
        }
        false
    }
}

/// What the identity provider tells about the signed-in user.
#[derive(Debug)]
pub struct UserInfo {
    pub sub: String,
    pub nickname: String,
    pub email: String,
    pub picture: String,
    pub email_verified: Option<bool>,
}

/// A token for the provider's management interface.
#[derive(Debug)]
pub struct ManagementTokenResponse {
    pub access_token: String,
}

/// A user record from the provider's management interface.
#[derive(Debug)]
pub struct ManagementUserInfoResponse {
    pub name: Option<String>,
    pub user_id: String,
    pub picture: Option<String>,
    pub email: Option<String>,
    pub nickname: Option<String>,
    pub email_verified: bool,
}

/// The body of a token request.
#[derive(Debug)]
pub struct AuthCodeRequest {
    pub grant_type: String,
    pub client_id: String,
    pub client_secret: String,
    pub redirect_uri: Option<String>,
    pub code: Option<String>,
    pub audience: Option<String>,
}

/// Credentials and addresses of the identity provider.
#[derive(Debug)]
pub struct AuthZeroConfig {
    pub auth_client_id: String,
    pub auth_client_secret: String,
    pub management_client_id: String,
    pub management_client_secret: String,
    pub redirect_uri: String,
    pub domain: String,
}

fn text_of(s: &str) -> (r: String)
    ensures
        r@ == s@,
{
    String::from_str(s)
}

impl AuthZeroConfig {
    /// Where codes are exchanged for tokens.
    pub fn token_uri(&self) -> (r: String)
        ensures
            r@ == self.domain@ + "/oauth/token"@,
    {
        self.domain.clone().concat("/oauth/token")
    }

    /// The request for a management token.
    pub fn manage_token_payload(&self) -> (r: AuthCodeRequest)
        ensures
            r.client_id@ == self.management_client_id@,
            r.client_secret@ == self.management_client_secret@,
            r.grant_type@ == "client_credentials"@,
            r.code is None,
            r.redirect_uri is None,
            r.audience matches Some(a) && a@ == self.domain@ + "/api/v2/"@,
    {
        AuthCodeRequest {
            client_id: self.management_client_id.clone(),
            client_secret: self.management_client_secret.clone(),
            code: None,
            redirect_uri: None,
            grant_type: text_of("client_credentials"),
            audience: Some(self.domain.clone().concat("/api/v2/")),
        }
    }

    /// The request that exchanges an authorization code for a token.
    pub fn auth_token_payload(&self, code: &String) -> (r: AuthCodeRequest)
        ensures
            r.client_id@ == self.auth_client_id@,
            r.client_secret@ == self.auth_client_secret@,
            r.grant_type@ == "authorization_code"@,
            r.code matches Some(c) && c@ == code@,
            r.redirect_uri matches Some(u) && u@ == self.redirect_uri@,
            r.audience is None,
    {
        AuthCodeRequest {
            client_id: self.auth_client_id.clone(),
            client_secret: self.auth_client_secret.clone(),
            code: Some(code.clone()),
            audience: None,
            redirect_uri: Some(self.redirect_uri.clone()),
            grant_type: text_of("authorization_code"),
        }
    }
}

} // verus!
