//! Authentication modes and the headers each mode attaches to a request.

use vstd::prelude::*;

verus! {

/// How outgoing requests authenticate against the forum.
///
/// Exactly one mode is active per client for its whole lifetime; the mode is
/// chosen at construction and never changes.
#[derive(Debug, Clone, PartialEq)]
pub enum AuthType {
    /// Anonymous access: no authentication headers.
    NoAuth,
    /// A server-issued admin credential pair: key plus acting username.
    AdminKey { api_key: String, api_username: String },
    /// A per-user token, with an optional client identifier.
    UserKey { user_api_key: String, user_api_client_id: Option<String> },
}

/// The exact header list a given mode attaches, as (name, value) pairs in
/// the order they are written onto the request.
pub open spec fn spec_auth_headers(a: AuthType) -> Seq<(Seq<char>, Seq<char>)> {
    match a {
        AuthType::NoAuth => Seq::empty(),
        AuthType::AdminKey { api_key, api_username } => seq![
            ("Api-Key"@, api_key@),
            ("Api-Username"@, api_username@),
        ],
        AuthType::UserKey { user_api_key, user_api_client_id } => match user_api_client_id {
            Option::None => seq![("User-Api-Key"@, user_api_key@)],
            Option::Some(cid) => seq![
                ("User-Api-Key"@, user_api_key@),
                ("User-Api-Client-Id"@, cid@),
            ],
        },
    }
}

/// Produce the headers for one request under the given mode: exactly the
/// pairs of `spec_auth_headers`, no others.
pub fn auth_headers(a: &AuthType) -> (r: Vec<(String, String)>)
    ensures
        r.deep_view() == spec_auth_headers(*a),
{
    let mut r: Vec<(String, String)> = Vec::new();
    match a {
        AuthType::NoAuth => {},
        AuthType::AdminKey { api_key, api_username } => {
            r.push(("Api-Key".to_owned(), api_key.clone()));
            r.push(("Api-Username".to_owned(), api_username.clone()));
        },
        AuthType::UserKey { user_api_key, user_api_client_id } => {
            r.push(("User-Api-Key".to_owned(), user_api_key.clone()));
            match user_api_client_id {
                Option::None => {},
                Option::Some(cid) => {
                    r.push(("User-Api-Client-Id".to_owned(), cid.clone()));
                },
            }
        },
    }
    proof {
        assert(r.deep_view() =~= spec_auth_headers(*a));
    }
    r
}

/// Each mode attaches exactly the headers documented for it and no others:
/// none anonymously, the admin pair under an admin key, the user token and
/// at most the client id under a user key.
pub proof fn lemma_auth_headers_exact(a: AuthType)
    ensures
        a is NoAuth ==> spec_auth_headers(a) == Seq::<(Seq<char>, Seq<char>)>::empty(),
        forall|k: String, u: String|
            a == (AuthType::AdminKey { api_key: k, api_username: u }) ==> spec_auth_headers(a)
                == seq![("Api-Key"@, k@), ("Api-Username"@, u@)],
        forall|k: String|
            a == (AuthType::UserKey { user_api_key: k, user_api_client_id: Option::None })
                ==> spec_auth_headers(a) == seq![("User-Api-Key"@, k@)],
        forall|k: String, c: String|
            a == (AuthType::UserKey { user_api_key: k, user_api_client_id: Option::Some(c) })
                ==> spec_auth_headers(a) == seq![("User-Api-Key"@, k@), ("User-Api-Client-Id"@, c@)],
{
}

} // verus!
