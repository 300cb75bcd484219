//! Sign-in through outside platforms: their settings, the addresses and
//! parameters of the authorisation step, and the profile that comes back.
use vstd::prelude::*;
use vstd::string::StringExecFns;
use crate::text::{str_eq, trim, trim_seq};

verus! {

/// The Unicode upper-case form of a string (`str::to_uppercase`).
pub uninterp spec fn uppercase(s: Seq<char>) -> Seq<char>;

/// `str::to_uppercase`: claimed to give `uppercase` of its argument.
#[verifier::external_body]
pub(crate) fn to_uppercase(s: &str) -> (r: String)
    ensures
        r@ == uppercase(s@),
{
    s.to_uppercase()
}

/// The platforms the service can sign in through.
pub open spec fn is_supported_platform_spec(p: Seq<char>) -> bool {
    ||| p == "facebook"@
    ||| p == "linkedin"@
    ||| p == "google"@
    ||| p == "google_drive"@
    ||| p == "dropbox"@
    ||| p == "box"@
    ||| p == "shopify"@
}

pub fn is_supported_platform(platform: &str) -> (r: bool)
    ensures
        r == is_supported_platform_spec(platform@),
{
    str_eq(platform, "facebook") || str_eq(platform, "linkedin") || str_eq(platform, "google")
        || str_eq(platform, "google_drive") || str_eq(platform, "dropbox") || str_eq(platform, "box")
        || str_eq(platform, "shopify")
}

/// The environment variable that holds a setting of a platform, such as
/// `GOOGLE_CLIENT_ID`.
pub fn env_key(platform: &str, field: &str) -> (r: String)
    ensures
        r@ == uppercase(platform@ + "_"@ + field@),
{
    let mut k = platform.to_string();
    k.append("_");
    k.append(field);
    to_uppercase(k.as_str())
}

/// The settings of one platform.
#[derive(Debug)]
pub struct OauthConfig {
    pub client_id: String,
    pub client_secret: String,
    pub auth_url: String,
    pub token_url: String,
    pub me_url: String,
    pub redirect_url: String,
}

/// An endpoint of a platform; a Shopify shop serves it under its own host.
pub open spec fn endpoint_spec(shop: Option<Seq<char>>, path: Seq<char>) -> Seq<char> {
    match shop {
        Some(s) => "https://"@ + s + path,
        None => path,
    }
}

pub fn endpoint_url(shop: Option<&str>, path: &str) -> (r: String)
    ensures
        r@ == endpoint_spec(
            match shop {
                Some(s) => Some(s@),
                None => None,
            },
            path@,
        ),
{
    match shop {
        Some(s) => {
            let mut u = "https://".to_string();
            u.append(s);
            u.append(path);
            u
        },
        None => path.to_string(),
    }
}

/// Box and Shopify take the client credentials in the request body.
pub fn uses_request_body_auth(platform: &str) -> (r: bool)
    ensures
        r == (platform@ == "box"@ || platform@ == "shopify"@),
{
    str_eq(platform, "box") || str_eq(platform, "shopify")
}

/// What the authorisation address asks for beside the client's own settings.
pub struct AuthorizeExtras {
    pub scopes: Vec<String>,
    pub params: Vec<(String, String)>,
}

pub open spec fn pairs_view(v: Seq<(String, String)>) -> Seq<(Seq<char>, Seq<char>)> {
    v.map_values(|p: (String, String)| (p.0@, p.1@))
}

pub open spec fn strings_view(v: Seq<String>) -> Seq<Seq<char>> {
    v.map_values(|s: String| s@)
}

/// Google and LinkedIn ask for the profile and e-mail scopes; Dropbox asks
/// for an offline token; the others ask for offline access.
pub open spec fn authorize_extras_spec(platform: Seq<char>) -> (
    Seq<Seq<char>>,
    Seq<(Seq<char>, Seq<char>)>,
) {
    if platform == "google"@ {
        (
            seq![
                "https://www.googleapis.com/auth/userinfo.profile"@,
                "https://www.googleapis.com/auth/userinfo.email"@,
            ],
            Seq::empty(),
        )
    } else if platform == "linkedin"@ {
        (seq!["r_liteprofile"@, "r_emailaddress"@], Seq::empty())
    } else if platform == "dropbox"@ {
        (Seq::empty(), seq![("token_access_type"@, "offline"@)])
    } else {
        (Seq::empty(), seq![("access_type"@, "offline"@)])
    }
}

pub fn authorize_extras(platform: &str) -> (r: AuthorizeExtras)
    ensures
        (strings_view(r.scopes@), pairs_view(r.params@)) == authorize_extras_spec(platform@),
{
    let mut scopes: Vec<String> = Vec::new();
    let mut params: Vec<(String, String)> = Vec::new();
    if str_eq(platform, "google") {
        scopes.push("https://www.googleapis.com/auth/userinfo.profile".to_string());
        scopes.push("https://www.googleapis.com/auth/userinfo.email".to_string());
    } else if str_eq(platform, "linkedin") {
        scopes.push("r_liteprofile".to_string());
        scopes.push("r_emailaddress".to_string());
    } else if str_eq(platform, "dropbox") {
        params.push(("token_access_type".to_string(), "offline".to_string()));
    } else {
        params.push(("access_type".to_string(), "offline".to_string()));
    }
    let r = AuthorizeExtras { scopes, params };
    assert(strings_view(r.scopes@) =~= authorize_extras_spec(platform@).0);
    assert(pairs_view(r.params@) =~= authorize_extras_spec(platform@).1);
    r
}

/// How the profile of the signed-in user is fetched from a platform.
#[derive(Debug, PartialEq, Eq)]
pub enum MeRequest {
    /// Facebook: a GET of the profile address with these query parameters.
    Query(Vec<(String, String)>),
    /// Google: a GET with the token as bearer.
    Bearer,
    /// LinkedIn: a GET with the token as bearer, then one of the e-mail address.
    BearerWithEmail,
}

pub open spec fn facebook_query_spec(access_token: Seq<char>) -> Seq<(Seq<char>, Seq<char>)> {
    seq![
        ("fields"@, "id,name,email"@),
        ("format"@, "json"@),
        ("method"@, "get"@),
        ("access_token"@, access_token),
    ]
}

/// The request for a platform's profile, or `None` for a platform whose
/// profile the service cannot read ("not support platform").
pub fn me_request(platform: &str, access_token: &str) -> (r: Option<MeRequest>)
    ensures
        platform@ == "facebook"@ ==> (r matches Some(MeRequest::Query(q)) && pairs_view(q@)
            == facebook_query_spec(access_token@)),
        platform@ == "google"@ ==> (r matches Some(MeRequest::Bearer)),
        platform@ == "linkedin"@ ==> (r matches Some(MeRequest::BearerWithEmail)),
        platform@ != "facebook"@ && platform@ != "google"@ && platform@ != "linkedin"@ ==> r is None,
{
    proof {
        reveal_strlit("facebook");
        reveal_strlit("google");
        reveal_strlit("linkedin");
        assert("google"@.len() != "facebook"@.len());
        assert("linkedin"@[0] != "facebook"@[0] && "linkedin"@[0] != "google"@[0]);
    }
    if str_eq(platform, "facebook") {
        let mut q: Vec<(String, String)> = Vec::new();
        q.push(("fields".to_string(), "id,name,email".to_string()));
        q.push(("format".to_string(), "json".to_string()));
        q.push(("method".to_string(), "get".to_string()));
        q.push(("access_token".to_string(), access_token.to_string()));
        assert(pairs_view(q@) =~= facebook_query_spec(access_token@));
        Some(MeRequest::Query(q))
    } else if str_eq(platform, "google") {
        Some(MeRequest::Bearer)
    } else if str_eq(platform, "linkedin") {
        Some(MeRequest::BearerWithEmail)
    } else {
        None
    }
}

/// The profile of the signed-in user as a platform reports it.
#[derive(Debug)]
pub struct OauthMe {
    pub id: String,
    pub name: Option<String>,
    pub first_name: Option<String>,
    pub last_name: Option<String>,
    pub given_name: Option<String>,
    pub family_name: Option<String>,
    pub email: Option<String>,
    pub phone: Option<String>,
}

pub open spec fn or_empty(o: Option<String>) -> Seq<char> {
    match o {
        Some(s) => s@,
        None => Seq::empty(),
    }
}

/// The display name: the full name where the platform gave one, else the
/// first (or given) name and the last name joined by a space and trimmed,
/// and none where both are empty.
pub open spec fn full_name_spec(me: OauthMe) -> Option<Seq<char>> {
    match me.name {
        Some(n) => Some(n@),
        None => {
            let first = match me.first_name {
                Some(f) => f@,
                None => or_empty(me.given_name),
            };
            let last = or_empty(me.last_name);
            if first.len() == 0 && last.len() == 0 {
                None
            } else {
                Some(trim_seq(first + seq![' '] + last))
            }
        },
    }
}

impl OauthMe {
    pub fn full_name(&self) -> (r: Option<String>)
        ensures
            match r {
                Some(s) => full_name_spec(*self) == Some(s@),
                None => full_name_spec(*self) is None,
            },
    {
        if let Some(name) = &self.name {
            return Some(name.clone());
        }
        let first: &str = match &self.first_name {
            Some(f) => f.as_str(),
            None => match &self.given_name {
                Some(g) => g.as_str(),
                None => "",
            },
        };
        let last: &str = match &self.last_name {
            Some(l) => l.as_str(),
            None => "",
        };
        proof {
            reveal_strlit("");
            reveal_strlit(" ");
        }
        assert(first@ == match self.first_name {
            Some(f) => f@,
            None => or_empty(self.given_name),
        });
        assert(last@ == or_empty(self.last_name));
        if first.unicode_len() == 0 && last.unicode_len() == 0 {
            None
        } else {
            let mut joined = first.to_string();
            joined.append(" ");
            joined.append(last);
            assert(joined@ =~= first@ + seq![' '] + last@);
            Some(trim(joined.as_str()))
        }
    }
}

/// The profile assembled from LinkedIn's two answers.
pub fn linkedin_me(
    id: String,
    first_name: Option<String>,
    last_name: Option<String>,
    email: String,
) -> (r: OauthMe)
    ensures
        r.id@ == id@,
        r.name is None,
        opt_str_eq(r.first_name, first_name),
        opt_str_eq(r.last_name, last_name),
        r.given_name is None,
        r.family_name is None,
        r.phone is None,
        (r.email matches Some(e) && e@ == email@),
{
    OauthMe {
        id,
        name: None,
        first_name,
        last_name,
        given_name: None,
        family_name: None,
        phone: None,
        email: Some(email),
    }
}

pub open spec fn opt_str_eq(a: Option<String>, b: Option<String>) -> bool {
    match (a, b) {
        (Some(x), Some(y)) => x@ == y@,
        (None, None) => true,
        _ => false,
    }
}

} // verus!
