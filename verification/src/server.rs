//! How requests are answered.

use crate::address::SocketAddress;
use crate::database::{Database, DatabaseView, MetaFile, MetaFileView};
use crate::encoding::{base64_text, is_base64_of};
use crate::filesystem::{DeletionError, DeletionErrorView, ErrorKind, IoError, IoErrorView};
use crate::filesystem::{SaveError, SaveErrorView};
use crate::form::{builder_refusal, outcome, refuse_builder};
use crate::outside::{detectable, formatted_time};
use crate::post::{assembled, bounded_by_ages, is_safe_name, settled, strategy_after};
use crate::post::{BuilderError, PostData, PostDataBuilder, PostDataView, ServerStrategy};
use crate::reply::{headers_in, plain_reply, rejection, Rejection, RejectionView, Reply, ReplyView};
use crate::settings::Settings;
use crate::time::{http_date_format, in_time_range, UtcTime};
use crate::token::{decoded_exactly, UserToken};
use vstd::prelude::*;

verus! {

/// Where a client that came over plain HTTP is sent.
pub open spec fn https_target(name: Seq<char>, path: Option<Seq<char>>) -> Seq<char> {
    "https://"@ + name + match path {
        Some(p) => p,
        None => "/"@,
    }
}

/// Where a client is sent that came over plain HTTP to this path and query.
pub fn redirect_target(fqdn: &str, path_and_query: Option<&str>) -> (target: String)
    ensures
        target@ == https_target(
            fqdn@,
            match path_and_query {
                Some(p) => Some(p@),
                None => None,
            },
        ),
{
    let path = match path_and_query {
        Some(path) => path,
        None => "/",
    };
    "https://".to_owned().concat(fqdn).concat(path)
}

/// Whether a client is turned away, by its address or by its program.
pub open spec fn blocked(db: DatabaseView, user_agent: Seq<char>, addr: SocketAddress) -> bool {
    db.blocklist_ip.contains(addr) || db.blocklist_ua.contains(user_agent)
}

/// The answer to a client that is turned away.
pub open spec fn blocked_refusal() -> RejectionView {
    rejection(403, "You have been blocked. Fuck off."@)
}

/// Turns away those who are to be turned away.
pub fn is_blocked(database: &Database, user_agent: &str, addr: &SocketAddress) -> (pass: Result<
    (),
    Rejection,
>)
    ensures
        outcome(pass) == (if blocked(database@, user_agent@, *addr) {
            Err(blocked_refusal())
        } else {
            Ok(())
        }),
{
    let by_address: bool = database.is_ip_blocked(addr);
    let by_program: bool = database.is_ua_blocked(user_agent);
    if by_address || by_program {
        Err(Rejection::new(403, "You have been blocked. Fuck off."))
    } else {
        Ok(())
    }
}

/// Reads the token that a client presents as its authorization.
pub fn authorize(bearer: &str) -> (token: Result<UserToken, Rejection>)
    ensures
        match token {
            Ok(t) => decoded_exactly(bearer@, 32) is Ok && decoded_exactly(bearer@, 32)->Ok_0 == t@,
            Err(r) => decoded_exactly(bearer@, 32) is Err && r@ == rejection(401, "Invalid token."@),
        },
        token is Ok <==> is_base64_of(bearer@, 32),
        token is Ok ==> bearer@ == base64_text(token->Ok_0@),
{
    match UserToken::from_str(bearer) {
        Ok(token) => Ok(token),
        Err(_) => Err(Rejection::new(401, "Invalid token.")),
    }
}

/// The bytes of the token of a client who asks to change a file, or why the client is
/// refused: a blocked client is turned away before the token is looked at.
pub open spec fn identification(
    db: DatabaseView,
    user_agent: Seq<char>,
    addr: SocketAddress,
    bearer: Seq<char>,
) -> Result<Seq<u8>, RejectionView> {
    if blocked(db, user_agent, addr) {
        Err(blocked_refusal())
    } else if decoded_exactly(bearer, 32) is Err {
        Err(rejection(401, "Invalid token."@))
    } else {
        Ok(decoded_exactly(bearer, 32)->Ok_0)
    }
}

/// Identifies a client who asks to change a file, by the token that the client presents.
pub fn identify(database: &Database, user_agent: &str, addr: &SocketAddress, bearer: &str) -> (token:
    Result<UserToken, Rejection>)
    ensures
        match token {
            Ok(t) => {
                &&& identification(database@, user_agent@, *addr, bearer@) is Ok
                &&& identification(database@, user_agent@, *addr, bearer@)->Ok_0 == t@
            },
            Err(r) => {
                &&& identification(database@, user_agent@, *addr, bearer@) is Err
                &&& identification(database@, user_agent@, *addr, bearer@)->Err_0 == r@
            },
        },
        token is Ok <==> !blocked(database@, user_agent@, *addr) && is_base64_of(bearer@, 32),
        token is Ok ==> bearer@ == base64_text(token->Ok_0@),
{
    match is_blocked(database, user_agent, addr) {
        Ok(_) => authorize(bearer),
        Err(r) => Err(r),
    }
}

/// The upload, or the answer to one that cannot be made.
pub open spec fn prepared(post: Result<PostDataView, BuilderError>) -> Result<
    PostDataView,
    RejectionView,
> {
    match post {
        Ok(p) => Ok(p),
        Err(e) => Err(builder_refusal(e)),
    }
}

/// Makes the upload of what a client has said, or answers that it cannot be made.
/// `scale` is as in [`PostDataBuilder::construct`].
pub fn prepare_upload<S: Fn(i128, usize, usize, i32) -> i128>(
    builder: PostDataBuilder,
    settings: &Settings,
    strategy: &mut ServerStrategy,
    scale: &S,
) -> (post: Result<PostData, Rejection>)
    requires
        forall|d: i128, s: usize, m: usize, p: i32| call_requires(scale, (d, s, m, p)),
    ensures
        exists|
            created: int,
            token: Seq<u8>,
            detected: Seq<char>,
            built: Result<PostDataView, BuilderError>,
        |
            {
                &&& in_time_range(created)
                &&& token.len() == 32
                &&& builder@.file_data is Some ==> detectable(builder@.file_data->0, detected)
                &&& #[trigger] assembled(
                    builder@,
                    settled(old(strategy)@, settings@),
                    settings@.upload_size_limit,
                    created,
                    token,
                    detected,
                    *scale,
                    built,
                )
                &&& bounded_by_ages(
                    builder@,
                    settled(old(strategy)@, settings@),
                    settings@.upload_size_limit,
                    *scale,
                    built,
                )
                &&& prepared(built) == match post {
                    Ok(p) => Ok::<PostDataView, RejectionView>(p@),
                    Err(r) => Err::<PostDataView, RejectionView>(r@),
                }
            },
        final(strategy)@ == strategy_after(builder@, old(strategy)@, settings@),
        post is Ok ==> is_safe_name(post->Ok_0@.file_name),
{
    match builder.construct(settings, strategy, scale) {
        Ok(post) => Ok(post),
        Err(e) => Err(refuse_builder(e)),
    }
}

/// The answer to an upload that is not stored.
pub open spec fn save_refusal(e: SaveErrorView) -> RejectionView {
    match e {
        SaveErrorView::FileRestricted => rejection(422, "File hash restricted."@),
        SaveErrorView::FileSystemError(_) => rejection(500, "Error saving file."@),
    }
}

/// Answers an upload that is not stored.
pub fn refuse_save(e: &SaveError) -> (r: Rejection)
    ensures
        r@ == save_refusal(e@),
{
    match e {
        SaveError::FileRestricted => Rejection::new(422, "File hash restricted."),
        SaveError::FileSystemError(_) => Rejection::new(500, "Error saving file."),
    }
}

/// The answer to a request for a file that cannot be had.
pub open spec fn get_refusal(e: IoErrorView) -> RejectionView {
    match e.kind {
        ErrorKind::ConnectionRefused => rejection(422, "File has been restricted."@),
        ErrorKind::NotFound => rejection(404, "File not found."@),
        _ => rejection(500, "Error opening file."@),
    }
}

/// Answers a request for a file that cannot be had.
pub fn refuse_get(e: &IoError) -> (r: Rejection)
    ensures
        r@ == get_refusal(e@),
{
    match e.kind {
        ErrorKind::ConnectionRefused => Rejection::new(422, "File has been restricted."),
        ErrorKind::NotFound => Rejection::new(404, "File not found."),
        _ => Rejection::new(500, "Error opening file."),
    }
}

/// What the client is told of a stored file.
#[derive(Debug)]
pub struct PostResponseJSON {
    pub location: String,
    pub access_token: String,
    pub expires: String,
}

/// Tells the client of a stored file.
pub fn post_response(uri: &str, token: &UserToken, expires: &UtcTime) -> (r: PostResponseJSON)
    ensures
        r.location@ == seq!['/'] + uri@,
        r.access_token@ == base64_text(token@),
        r.expires@ == formatted_time(expires@, http_date_format()),
{
    proof {
        reveal_strlit("/");
    }
    assert("/"@ =~= seq!['/']);
    PostResponseJSON {
        location: "/".to_owned().concat(uri),
        access_token: token.to_string(),
        expires: expires.http_date(),
    }
}

/// The head of the answer to an upload. Its body is the response as JSON.
pub fn post_reply(response: &PostResponseJSON) -> (r: Reply)
    ensures
        r@ == (ReplyView {
            status: 201,
            headers: seq![
                ("location"@, response.location@),
                ("expires"@, response.expires@),
                ("X-Token"@, response.access_token@),
                ("content-type"@, "application/json"@),
            ],
            body: Seq::empty(),
        }),
{
    let mut headers: Vec<(String, String)> = Vec::new();
    headers.push(("location".to_owned(), response.location.clone()));
    headers.push(("expires".to_owned(), response.expires.clone()));
    headers.push(("X-Token".to_owned(), response.access_token.clone()));
    headers.push(("content-type".to_owned(), "application/json".to_owned()));
    assert(headers_in(headers@) =~= seq![
        ("location"@, response.location@),
        ("expires"@, response.expires@),
        ("X-Token"@, response.access_token@),
        ("content-type"@, "application/json"@),
    ]);
    Reply { status: 201, headers, body: String::new() }
}

/// The head of the answer to a request for a file.
pub open spec fn file_head(meta: MetaFileView) -> ReplyView {
    ReplyView {
        status: 200,
        headers: seq![
            ("content-type"@, meta.mime_type),
            ("expires"@, formatted_time(meta.expiration_date, http_date_format())),
        ],
        body: Seq::empty(),
    }
}

/// The head of the answer to a request for a file. Its body is the data.
pub fn get_reply(meta: &MetaFile) -> (r: Reply)
    ensures
        r@ == file_head(meta@),
{
    let mut headers: Vec<(String, String)> = Vec::new();
    headers.push(("content-type".to_owned(), meta.mime_type.clone()));
    headers.push(("expires".to_owned(), meta.expiration_date.http_date()));
    assert(headers_in(headers@) =~= file_head(meta@).headers);
    Reply { status: 200, headers, body: String::new() }
}

/// The answer to a request to delete a file.
pub open spec fn deletion_answer(deleted: Result<(), DeletionErrorView>) -> ReplyView {
    match deleted {
        Ok(_) => plain_reply(200, Seq::empty()),
        Err(DeletionErrorView::Forbidden) => plain_reply(403, Seq::empty()),
        Err(DeletionErrorView::FileNotFound) => plain_reply(404, Seq::empty()),
        Err(DeletionErrorView::FilesystemError(e)) => plain_reply(
            500,
            "Error deleting file: "@ + e.message,
        ),
    }
}

/// Answers a request to delete a file.
pub fn deletion_reply(deleted: Result<(), DeletionError>) -> (r: Reply)
    ensures
        r@ == deletion_answer(
            match deleted {
                Ok(_) => Ok(()),
                Err(e) => Err(e@),
            },
        ),
{
    match deleted {
        Ok(_) => Reply::plain(200, String::new()),
        Err(DeletionError::Forbidden) => Reply::plain(403, String::new()),
        Err(DeletionError::FileNotFound) => Reply::plain(404, String::new()),
        Err(DeletionError::FilesystemError(e)) => Reply::plain(
            500,
            "Error deleting file: ".to_owned().concat(e.message.as_str()),
        ),
    }
}

/// The answer to a request to modify a file that asks for nothing.
pub fn unmodified_reply() -> (r: Reply)
    ensures
        r@ == plain_reply(200, "Nothing happened."@),
{
    Reply::plain(200, "Nothing happened.".to_owned())
}

/// The answer where the answer to an upload, a deletion or a modification could not be
/// put together.
pub fn refuse_response() -> (r: Rejection)
    ensures
        r@ == rejection(500, "Error creating response."@),
{
    Rejection::new(500, "Error creating response.")
}

/// The answer where the answer to a request for a file could not be put together.
pub fn refuse_file_response() -> (r: Rejection)
    ensures
        r@ == rejection(500, "Internal server error."@),
{
    Rejection::new(500, "Internal server error.")
}

/// The directory is refused for storage if it is none and not read-only either.
pub open spec fn storage_refused(is_dir: bool, readonly: bool) -> bool {
    !is_dir && !readonly
}

/// Checks the directory for storage, given its name in quotes.
pub fn check_storage(dir: &str, is_dir: bool, readonly: bool) -> (check: Result<(), IoError>)
    ensures
        check is Err <==> storage_refused(is_dir, readonly),
        check is Err ==> check->Err_0@ == (IoErrorView {
            kind: ErrorKind::PermissionDenied,
            message: "Only readonly access to dir "@ + dir@,
        }),
{
    if !is_dir && !readonly {
        Err(
            IoError {
                kind: ErrorKind::PermissionDenied,
                message: "Only readonly access to dir ".to_owned().concat(dir),
            },
        )
    } else {
        Ok(())
    }
}

} // verus!
