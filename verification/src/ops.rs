use vstd::prelude::*;
use vstd::string::*;
use crate::bytes::{bytes_eq, copy_bytes};
use crate::request::{Method, Request, segs_view, query_view};
use crate::session::UserInfo;
use crate::status::ServerReply;
use crate::outcomes::{LoginOutcome, spec_login_outcome, login_outcome, GetMetadataOutcome,
    spec_get_metadata_outcome, get_metadata_outcome};
use crate::metadata::MetaRes;

verus! {

// One constructor per server operation: each pins down the method, the path
// and the query of the one request the operation sends, so the caller's only
// job is to put the assembled URL on the wire.

/// The only check `createUser` makes before talking to the server: the two
/// password entries must agree.  On a mismatch the operation fails here and
/// no request exists to send.
#[derive(Clone, Copy, PartialEq, Eq, Structural, Debug)]
pub enum CreateUserLocalError {
    PasswordMismatch,
}

/// The request that creates an account, owed exactly when the two password
/// entries agree.
pub fn create_user_request(name: Vec<u8>, pass: Vec<u8>, pass2: Vec<u8>) -> (r: Result<
    Request,
    CreateUserLocalError,
>)
    ensures
        pass@ != pass2@ ==> r == Result::<Request, CreateUserLocalError>::Err(
            CreateUserLocalError::PasswordMismatch,
        ),
        pass@ == pass2@ ==> (r matches Result::Ok(req) && req.method == Method::Post && segs_view(
            req.path@,
        ) == seq!["themes".spec_bytes(), "user".spec_bytes(), "create".spec_bytes()] && query_view(
            req.query@,
        ) == seq![("name".spec_bytes(), name@), ("pass".spec_bytes(), pass@)]),
{
    if !bytes_eq(&pass, &pass2) {
        return Result::Err(CreateUserLocalError::PasswordMismatch);
    }
    let mut path: Vec<Vec<u8>> = Vec::new();
    path.push("themes".as_bytes_vec());
    path.push("user".as_bytes_vec());
    path.push("create".as_bytes_vec());
    let mut query: Vec<(Vec<u8>, Vec<u8>)> = Vec::new();
    query.push(("name".as_bytes_vec(), name));
    query.push(("pass".as_bytes_vec(), pass));
    let req = Request { method: Method::Post, path, query };
    proof {
        assert(segs_view(req.path@) =~= seq![
            "themes".spec_bytes(),
            "user".spec_bytes(),
            "create".spec_bytes(),
        ]);
        assert(query_view(req.query@) =~= seq![
            ("name".spec_bytes(), name@),
            ("pass".spec_bytes(), pass@),
        ]);
    }
    Result::Ok(req)
}

/// The request that signs a user in.
pub fn login_request(name: Vec<u8>, pass: Vec<u8>) -> (r: Request)
    ensures
        r.method == Method::Get,
        segs_view(r.path@) == seq!["themes".spec_bytes(), "user".spec_bytes(), "login".spec_bytes()],
        query_view(r.query@) == seq![("name".spec_bytes(), name@), ("pass".spec_bytes(), pass@)],
{
    let mut path: Vec<Vec<u8>> = Vec::new();
    path.push("themes".as_bytes_vec());
    path.push("user".as_bytes_vec());
    path.push("login".as_bytes_vec());
    let mut query: Vec<(Vec<u8>, Vec<u8>)> = Vec::new();
    query.push(("name".as_bytes_vec(), name));
    query.push(("pass".as_bytes_vec(), pass));
    let r = Request { method: Method::Get, path, query };
    proof {
        assert(segs_view(r.path@) =~= seq![
            "themes".spec_bytes(),
            "user".spec_bytes(),
            "login".spec_bytes(),
        ]);
        assert(query_view(r.query@) =~= seq![
            ("name".spec_bytes(), name@),
            ("pass".spec_bytes(), pass@),
        ]);
    }
    r
}

/// The request that deletes the signed-in user's account; it names the user
/// in the path and authenticates with the stored token.
pub fn delete_user_request(user: &UserInfo, pass: Vec<u8>) -> (r: Request)
    ensures
        r.method == Method::Post,
        segs_view(r.path@) == seq![
            "themes".spec_bytes(),
            "users".spec_bytes(),
            "delete".spec_bytes(),
            user.name@,
        ],
        query_view(r.query@) == seq![
            ("token".spec_bytes(), user.token@),
            ("pass".spec_bytes(), pass@),
        ],
{
    let mut path: Vec<Vec<u8>> = Vec::new();
    path.push("themes".as_bytes_vec());
    path.push("users".as_bytes_vec());
    path.push("delete".as_bytes_vec());
    path.push(copy_bytes(&user.name));
    let mut query: Vec<(Vec<u8>, Vec<u8>)> = Vec::new();
    query.push(("token".as_bytes_vec(), copy_bytes(&user.token)));
    query.push(("pass".as_bytes_vec(), pass));
    let r = Request { method: Method::Post, path, query };
    proof {
        assert(segs_view(r.path@) =~= seq![
            "themes".spec_bytes(),
            "users".spec_bytes(),
            "delete".spec_bytes(),
            user.name@,
        ]);
        assert(query_view(r.query@) =~= seq![
            ("token".spec_bytes(), user.token@),
            ("pass".spec_bytes(), pass@),
        ]);
    }
    r
}

/// The request that uploads a packed theme; the archive itself travels as a
/// multipart body under [`upload_field_name`].
pub fn upload_request(name: &Vec<u8>, token: &Vec<u8>) -> (r: Request)
    ensures
        r.method == Method::Post,
        segs_view(r.path@) == seq!["themes".spec_bytes(), "upload".spec_bytes()],
        query_view(r.query@) == seq![("name".spec_bytes(), name@), ("token".spec_bytes(), token@)],
{
    let mut path: Vec<Vec<u8>> = Vec::new();
    path.push("themes".as_bytes_vec());
    path.push("upload".as_bytes_vec());
    let mut query: Vec<(Vec<u8>, Vec<u8>)> = Vec::new();
    query.push(("name".as_bytes_vec(), copy_bytes(name)));
    query.push(("token".as_bytes_vec(), copy_bytes(token)));
    let r = Request { method: Method::Post, path, query };
    proof {
        assert(segs_view(r.path@) =~= seq!["themes".spec_bytes(), "upload".spec_bytes()]);
        assert(query_view(r.query@) =~= seq![
            ("name".spec_bytes(), name@),
            ("token".spec_bytes(), token@),
        ]);
    }
    r
}

/// The fixed multipart field the upload's archive is sent under.
pub fn upload_field_name() -> (r: Vec<u8>)
    ensures
        r@ == "fileupload".spec_bytes(),
{
    "fileupload".as_bytes_vec()
}

/// The request that fetches a theme's archive.
pub fn download_request(name: &Vec<u8>) -> (r: Request)
    ensures
        r.method == Method::Get,
        segs_view(r.path@) == seq!["themes".spec_bytes(), "repo".spec_bytes(), name@],
        query_view(r.query@) == Seq::<(Seq<u8>, Seq<u8>)>::empty(),
{
    let mut path: Vec<Vec<u8>> = Vec::new();
    path.push("themes".as_bytes_vec());
    path.push("repo".as_bytes_vec());
    path.push(copy_bytes(name));
    let r = Request { method: Method::Get, path, query: Vec::new() };
    proof {
        assert(segs_view(r.path@) =~= seq!["themes".spec_bytes(), "repo".spec_bytes(), name@]);
        assert(query_view(r.query@) =~= Seq::<(Seq<u8>, Seq<u8>)>::empty());
    }
    r
}

/// The request that fetches a theme's published metadata.
pub fn get_metadata_request(name: &Vec<u8>) -> (r: Request)
    ensures
        r.method == Method::Get,
        segs_view(r.path@) == seq!["themes".spec_bytes(), "meta".spec_bytes(), name@],
        query_view(r.query@) == Seq::<(Seq<u8>, Seq<u8>)>::empty(),
{
    let mut path: Vec<Vec<u8>> = Vec::new();
    path.push("themes".as_bytes_vec());
    path.push("meta".as_bytes_vec());
    path.push(copy_bytes(name));
    let r = Request { method: Method::Get, path, query: Vec::new() };
    proof {
        assert(segs_view(r.path@) =~= seq!["themes".spec_bytes(), "meta".spec_bytes(), name@]);
        assert(query_view(r.query@) =~= Seq::<(Seq<u8>, Seq<u8>)>::empty());
    }
    r
}

/// The request that publishes one metadata field of a theme.
pub fn publish_metadata_request(name: &Vec<u8>, kind: Vec<u8>, value: Vec<u8>, token: &Vec<u8>) -> (r:
    Request)
    ensures
        r.method == Method::Post,
        segs_view(r.path@) == seq!["themes".spec_bytes(), "meta".spec_bytes(), name@],
        query_view(r.query@) == seq![
            ("typem".spec_bytes(), kind@),
            ("value".spec_bytes(), value@),
            ("token".spec_bytes(), token@),
        ],
{
    let mut path: Vec<Vec<u8>> = Vec::new();
    path.push("themes".as_bytes_vec());
    path.push("meta".as_bytes_vec());
    path.push(copy_bytes(name));
    let mut query: Vec<(Vec<u8>, Vec<u8>)> = Vec::new();
    query.push(("typem".as_bytes_vec(), kind));
    query.push(("value".as_bytes_vec(), value));
    query.push(("token".as_bytes_vec(), copy_bytes(token)));
    let r = Request { method: Method::Post, path, query };
    proof {
        assert(segs_view(r.path@) =~= seq!["themes".spec_bytes(), "meta".spec_bytes(), name@]);
        assert(query_view(r.query@) =~= seq![
            ("typem".spec_bytes(), kind@),
            ("value".spec_bytes(), value@),
            ("token".spec_bytes(), token@),
        ]);
    }
    r
}

/// The request that withdraws a published theme.
pub fn unpublish_request(name: &Vec<u8>, token: &Vec<u8>) -> (r: Request)
    ensures
        r.method == Method::Post,
        segs_view(r.path@) == seq!["themes".spec_bytes(), "delete".spec_bytes(), name@],
        query_view(r.query@) == seq![("token".spec_bytes(), token@)],
{
    let mut path: Vec<Vec<u8>> = Vec::new();
    path.push("themes".as_bytes_vec());
    path.push("delete".as_bytes_vec());
    path.push(copy_bytes(name));
    let mut query: Vec<(Vec<u8>, Vec<u8>)> = Vec::new();
    query.push(("token".as_bytes_vec(), copy_bytes(token)));
    let r = Request { method: Method::Post, path, query };
    proof {
        assert(segs_view(r.path@) =~= seq!["themes".spec_bytes(), "delete".spec_bytes(), name@]);
        assert(query_view(r.query@) =~= seq![("token".spec_bytes(), token@)]);
    }
    r
}

/// How a login attempt ends once the reply and its parsed body are in hand.
#[derive(PartialEq, Eq, Debug)]
pub enum LoginResult {
    /// The credentials were accepted; this identity is to be persisted.
    SignedIn(UserInfo),
    /// The server accepted but the body did not parse as an identity.
    BadResponse,
    /// Wrong name or password.
    BadCredentials,
    /// Any other code.
    ServerError(u16),
    /// The request never completed.
    Transport,
}

pub open spec fn spec_login_result(reply: ServerReply, body: Option<UserInfo>) -> LoginResult {
    match spec_login_outcome(reply) {
        LoginOutcome::Accepted => match body {
            Option::Some(user) => LoginResult::SignedIn(user),
            Option::None => LoginResult::BadResponse,
        },
        LoginOutcome::BadCredentials => LoginResult::BadCredentials,
        LoginOutcome::ServerError(code) => LoginResult::ServerError(code),
        LoginOutcome::Transport => LoginResult::Transport,
    }
}

/// Settles a login from the reply and the identity parsed from its body; a
/// signed-in identity is handed back for the caller to persist.
pub fn login_result(reply: &ServerReply, body: Option<UserInfo>) -> (r: LoginResult)
    ensures
        r == spec_login_result(*reply, body),
{
    match login_outcome(reply) {
        LoginOutcome::Accepted => match body {
            Option::Some(user) => LoginResult::SignedIn(user),
            Option::None => LoginResult::BadResponse,
        },
        LoginOutcome::BadCredentials => LoginResult::BadCredentials,
        LoginOutcome::ServerError(code) => LoginResult::ServerError(code),
        LoginOutcome::Transport => LoginResult::Transport,
    }
}

/// Why no metadata record came back.
#[derive(Clone, Copy, PartialEq, Eq, Structural, Debug)]
pub enum GetMetadataError {
    /// 404: the theme is not on the server.
    ThemeNotFound,
    /// The server accepted but the body did not parse as a record.
    BadResponse,
    /// Any other code.
    ServerError(u16),
    /// The request never completed.
    Transport,
}

pub open spec fn spec_get_metadata_result(reply: ServerReply, body: Option<MetaRes>) -> Result<
    MetaRes,
    GetMetadataError,
> {
    match spec_get_metadata_outcome(reply) {
        GetMetadataOutcome::Found => match body {
            Option::Some(rec) => Result::Ok(rec),
            Option::None => Result::Err(GetMetadataError::BadResponse),
        },
        GetMetadataOutcome::ThemeNotFound => Result::Err(GetMetadataError::ThemeNotFound),
        GetMetadataOutcome::ServerError(code) => Result::Err(GetMetadataError::ServerError(code)),
        GetMetadataOutcome::Transport => Result::Err(GetMetadataError::Transport),
    }
}

/// Settles a metadata fetch from the reply and the record parsed from its
/// body; it mutates nothing, whatever came back.
pub fn get_metadata_result(reply: &ServerReply, body: Option<MetaRes>) -> (r: Result<
    MetaRes,
    GetMetadataError,
>)
    ensures
        r == spec_get_metadata_result(*reply, body),
{
    match get_metadata_outcome(reply) {
        GetMetadataOutcome::Found => match body {
            Option::Some(rec) => Result::Ok(rec),
            Option::None => Result::Err(GetMetadataError::BadResponse),
        },
        GetMetadataOutcome::ThemeNotFound => Result::Err(GetMetadataError::ThemeNotFound),
        GetMetadataOutcome::ServerError(code) => Result::Err(GetMetadataError::ServerError(code)),
        GetMetadataOutcome::Transport => Result::Err(GetMetadataError::Transport),
    }
}

} // verus!
