//! What requests are answered, call by call.

use crate::address::SocketAddress;
use crate::database::{Database, MetaFile};
use crate::encoding::base64_text;
use crate::filesystem::{DeletionError, ErrorKind, IoError, LocalTokenizedFilesystem};
use crate::filesystem::{SaveError, SaveStep};
use crate::outside::{detectable, formatted_time, media_type, sanitised};
use crate::outside::{self_signed_for, xxh3_128_of};
use crate::post::{PostData, PostDataBuilder, ServerStrategy};
use crate::promises::files::is_stored_at;
use crate::promises::uploads::{is_refusal, settles};
use crate::reply::{Rejection, Reply};
use crate::server::{authorize, check_storage, deletion_reply, get_reply, identify, is_blocked};
use crate::server::{post_reply, post_response, prepare_upload, redirect_target};
use crate::server::{refuse_file_response, refuse_get, refuse_response, refuse_save};
use crate::server::{unmodified_reply, PostResponseJSON};
use crate::settings::{certificate_domains, generate_adhoc, AdhocCertificate};
use crate::settings::{CertificateError, Settings};
use crate::time::UtcTime;
use crate::token::UserToken;
use vstd::prelude::*;

verus! {

/// Whether a header of an answer has this name and value.
pub open spec fn is_header(header: (String, String), name: Seq<char>, value: Seq<char>) -> bool {
    header.0@ == name && header.1@ == value
}

/// How dates are written in answers.
pub open spec fn http_text(nanos: int) -> Seq<char> {
    formatted_time(nanos, "%a, %d %b %Y %H:%M:%S GMT"@)
}

proof fn headers_show(reply: Reply, i: int)
    requires
        0 <= i < reply@.headers.len(),
    ensures
        reply.headers@.len() == reply@.headers.len(),
        is_header(reply.headers@[i], reply@.headers[i].0, reply@.headers[i].1),
{
}

/// Every file that is found is served: with success, its own media type and its own date
/// of expiry, whatever else is known of it.
pub proof fn found_files_are_served(meta: MetaFile, reply: Reply)
    requires
        call_ensures(get_reply, (&meta,), reply),
    ensures
        reply.status == 200,
        reply.headers@.len() == 2,
        is_header(reply.headers@[0], "content-type"@, meta.mime_type@),
        is_header(reply.headers@[1], "expires"@, http_text(meta.expiration_date@)),
        reply.body@.len() == 0,
{
    headers_show(reply, 0);
    headers_show(reply, 1);
}

/// A file that has been stored is served from its address with the media type and the
/// date of expiry of its upload, whatever else was said of it.
pub proof fn stored_files_are_served(
    fs: &mut LocalTokenizedFilesystem,
    data: PostData,
    step: Result<SaveStep, SaveError>,
    uri: &str,
    find: Result<MetaFile, IoError>,
    reply: Reply,
)
    requires
        call_ensures(LocalTokenizedFilesystem::save, (fs, data), step),
        is_stored_at(step, uri@),
        call_ensures(LocalTokenizedFilesystem::find, (&*final(fs), uri), find),
        find is Ok ==> call_ensures(get_reply, (&find->Ok_0,), reply),
    ensures
        find is Ok,
        reply.status == 200,
        is_header(reply.headers@[0], "content-type"@, data.file_mime@),
        is_header(reply.headers@[1], "expires"@, http_text(data.expiration_date@)),
{
    found_files_are_served(find->Ok_0, reply);
}

/// Files with the same media type and the same date of expiry are served alike.
pub proof fn files_are_served_by_type_and_date(a: MetaFile, b: MetaFile, ra: Reply, rb: Reply)
    requires
        call_ensures(get_reply, (&a,), ra),
        call_ensures(get_reply, (&b,), rb),
        a.mime_type@ == b.mime_type@,
        a.expiration_date@ == b.expiration_date@,
    ensures
        ra@ == rb@,
{
}

/// The client is told where its file is, under which token and until when.
pub proof fn uploaders_are_told_where_and_how_long(
    uri: &str,
    token: UserToken,
    expires: UtcTime,
    r: PostResponseJSON,
)
    requires
        call_ensures(post_response, (uri, &token, &expires), r),
    ensures
        r.location@ == seq!['/'] + uri@,
        r.access_token@ == base64_text(token@),
        r.expires@ == http_text(expires@),
{
}

/// An upload is answered as created, with what the client is told in the headers.
pub proof fn uploads_are_answered_as_created(response: PostResponseJSON, reply: Reply)
    requires
        call_ensures(post_reply, (&response,), reply),
    ensures
        reply.status == 201,
        reply.headers@.len() == 4,
        is_header(reply.headers@[0], "location"@, response.location@),
        is_header(reply.headers@[1], "expires"@, response.expires@),
        is_header(reply.headers@[2], "X-Token"@, response.access_token@),
        is_header(reply.headers@[3], "content-type"@, "application/json"@),
        reply.body@.len() == 0,
{
    headers_show(reply, 0);
    headers_show(reply, 1);
    headers_show(reply, 2);
    headers_show(reply, 3);
}

/// A client is turned away if and only if its address or its program is blocked.
pub proof fn only_blocked_clients_are_turned_away(
    db: Database,
    user_agent: &str,
    addr: SocketAddress,
    pass: Result<(), Rejection>,
    by_address: bool,
    by_program: bool,
)
    requires
        call_ensures(is_blocked, (&db, user_agent, &addr), pass),
        call_ensures(Database::is_ip_blocked, (&db, &addr), by_address),
        call_ensures(Database::is_ua_blocked, (&db, user_agent), by_program),
    ensures
        pass is Err <==> by_address || by_program,
        pass is Err ==> is_refusal(pass->Err_0, 403, "You have been blocked. Fuck off."@),
{
}

/// A bearer is the text of a token, and that token, or it is refused.
pub proof fn bearers_are_tokens(bearer: &str, token: Result<UserToken, Rejection>)
    requires
        call_ensures(authorize, (bearer,), token),
    ensures
        token is Ok <==> exists|bytes: Seq<u8>|
            bytes.len() == 32 && bearer@ == #[trigger] base64_text(bytes),
        token is Ok ==> base64_text(token->Ok_0@) == bearer@,
        token is Err ==> is_refusal(token->Err_0, 401, "Invalid token."@),
{
}

/// The text that a token writes is a bearer of that token.
pub proof fn own_texts_are_bearers(
    token: UserToken,
    text: String,
    bearer: &str,
    read: Result<UserToken, Rejection>,
)
    requires
        call_ensures(UserToken::to_string, (&token,), text),
        bearer@ == text@,
        call_ensures(authorize, (bearer,), read),
    ensures
        read is Ok,
        read->Ok_0@ == token@,
{
}

/// A client who asks to change a file is identified by its bearer, unless it is blocked:
/// then it is turned away, whatever its bearer is.
pub proof fn blocked_clients_are_not_identified(
    db: Database,
    user_agent: &str,
    addr: SocketAddress,
    bearer: &str,
    token: Result<UserToken, Rejection>,
    pass: Result<(), Rejection>,
    read: Result<UserToken, Rejection>,
)
    requires
        call_ensures(identify, (&db, user_agent, &addr, bearer), token),
        call_ensures(is_blocked, (&db, user_agent, &addr), pass),
        call_ensures(authorize, (bearer,), read),
    ensures
        token is Ok <==> pass is Ok && read is Ok,
        token is Ok ==> token->Ok_0@ == read->Ok_0@,
        pass is Err ==> is_refusal(token->Err_0, pass->Err_0.status, pass->Err_0.message@),
        pass is Ok && read is Err ==> is_refusal(
            token->Err_0,
            read->Err_0.status,
            read->Err_0.message@,
        ),
{
}

/// What is prepared of an upload holds all of its data, under its sanitised name, with a
/// media type detected in it. Without a name or data it is refused as incomplete.
pub proof fn prepared_uploads_are_whole<S: Fn(i128, usize, usize, i32) -> i128>(
    b: PostDataBuilder,
    settings: Settings,
    strategy: &mut ServerStrategy,
    scale: S,
    post: Result<PostData, Rejection>,
)
    requires
        call_ensures(prepare_upload::<S>, (b, &settings, strategy, &scale), post),
    ensures
        b.file_name is None || b.file_data is None ==> post is Err && is_refusal(
            post->Err_0,
            400,
            "Missing file data or file name."@,
        ),
        post is Err && b.file_name is Some && b.file_data is Some ==> {
            ||| is_refusal(post->Err_0, 500, "Error calculating expiration date."@)
            ||| is_refusal(post->Err_0, 500, "Can't determine file type."@) && exists|
                found: Seq<char>,
            | #[trigger]
                detectable(b.file_data->0@, found) && media_type(found) is None
        },
        b.file_name is Some && b.file_data is Some ==> settles(
            *old(strategy),
            settings,
            *final(strategy),
        ),
        b.file_name is None || b.file_data is None ==> final(strategy)@ == old(strategy)@,
        post is Ok ==> {
            let p = post->Ok_0;
            &&& p.file_name@ == sanitised(b.file_name->0@, true)
            &&& p.file_data@ == b.file_data->0@
            &&& p.file_hash@ == xxh3_128_of(b.file_data->0@)
            &&& b.file_size is Some ==> p.file_size == b.file_size->0
            &&& p.secret <==> b.secret == Some(true)
            &&& p.nsfw <==> b.nsfw == Some(true)
            &&& p.uploader_ip == b.uploader_ip
            &&& p.uploader_ua@ == b.uploader_ua@
            &&& exists|found: Seq<char>| #[trigger]
                detectable(b.file_data->0@, found) && media_type(found) == Some(p.file_mime@)
        },
{
}

/// An upload that is not stored is answered by why.
pub proof fn failed_saves_are_answered(e: SaveError, r: Rejection)
    requires
        call_ensures(refuse_save, (&e,), r),
    ensures
        e is FileRestricted ==> is_refusal(r, 422, "File hash restricted."@),
        e is FileSystemError ==> is_refusal(r, 500, "Error saving file."@),
{
}

/// A file that cannot be had is answered by the kind of the error alone.
pub proof fn failed_gets_are_answered(e: IoError, r: Rejection)
    requires
        call_ensures(refuse_get, (&e,), r),
    ensures
        e.kind == ErrorKind::ConnectionRefused ==> is_refusal(r, 422, "File has been restricted."@),
        e.kind == ErrorKind::NotFound ==> is_refusal(r, 404, "File not found."@),
        e.kind != ErrorKind::ConnectionRefused && e.kind != ErrorKind::NotFound ==> is_refusal(
            r,
            500,
            "Error opening file."@,
        ),
{
}

/// A deletion is answered by how it went, without headers.
pub proof fn deletions_are_answered(deleted: Result<(), DeletionError>, reply: Reply)
    requires
        call_ensures(deletion_reply, (deleted,), reply),
    ensures
        reply.headers@.len() == 0,
        deleted is Ok ==> reply.status == 200 && reply.body@.len() == 0,
        deleted is Err && deleted->Err_0 is Forbidden ==> reply.status == 403 && reply.body@.len()
            == 0,
        deleted is Err && deleted->Err_0 is FileNotFound ==> reply.status == 404
            && reply.body@.len() == 0,
        deleted is Err && deleted->Err_0 is FilesystemError ==> reply.status == 500 && reply.body@
            == "Error deleting file: "@ + deleted->Err_0->FilesystemError_0.message@,
{
    assert(reply.headers@.len() == reply@.headers.len());
}

/// A request that asks for nothing is told so.
pub proof fn requests_for_nothing_are_answered(reply: Reply)
    requires
        call_ensures(unmodified_reply, (), reply),
    ensures
        reply.status == 200,
        reply.body@ == "Nothing happened."@,
        reply.headers@.len() == 0,
{
    assert(reply.headers@.len() == reply@.headers.len());
}

/// An answer without headers has the status and the body that it is given.
pub proof fn plain_answers_are_plain(status: u16, body: String, reply: Reply)
    requires
        call_ensures(Reply::plain, (status, body), reply),
    ensures
        reply.status == status,
        reply.body@ == body@,
        reply.headers@.len() == 0,
{
    assert(reply.headers@.len() == reply@.headers.len());
}

/// A refusal has the status and the message that it is given.
pub proof fn refusals_say_what_they_are_told(status: u16, message: &str, r: Rejection)
    requires
        call_ensures(Rejection::new, (status, message), r),
    ensures
        is_refusal(r, status, message@),
{
}

/// Answers that cannot be put together are errors of the server.
pub proof fn broken_answers_are_errors(r: Rejection, f: Rejection)
    requires
        call_ensures(refuse_response, (), r),
        call_ensures(refuse_file_response, (), f),
    ensures
        is_refusal(r, 500, "Error creating response."@),
        is_refusal(f, 500, "Internal server error."@),
{
}

/// A directory is refused for storage if and only if it is none and not read-only.
pub proof fn storage_is_refused_if_no_directory(
    dir: &str,
    is_dir: bool,
    readonly: bool,
    check: Result<(), IoError>,
)
    requires
        call_ensures(check_storage, (dir, is_dir, readonly), check),
    ensures
        check is Err <==> !is_dir && !readonly,
        check is Err ==> {
            &&& check->Err_0.kind == ErrorKind::PermissionDenied
            &&& check->Err_0.message@ == "Only readonly access to dir "@ + dir@
        },
{
}

/// A client is sent to the same path on the server's name, or to its root.
pub proof fn clients_are_sent_to_https(name: &str, path: Option<&str>, target: String)
    requires
        call_ensures(redirect_target, (name, path), target),
    ensures
        path is Some ==> target@ == "https://"@ + name@ + path->0@,
        path is None ==> target@ == "https://"@ + name@ + "/"@,
{
}

/// The server goes by its domain name, or else by its address.
pub proof fn the_server_goes_by_its_domain(settings: Settings, name: String)
    requires
        call_ensures(Settings::fqdn_https, (&settings,), name),
    ensures
        settings.fqdn is Some ==> name@ == settings.fqdn->0@,
        settings.fqdn is None ==> name@ == settings.bind_https@,
{
}

/// A certificate that is made is one for the local names and the domain name, and none is
/// made for a domain name outside of ASCII.
pub proof fn certificates_are_made_for_the_names(
    fqdn: Option<String>,
    certificate: Result<AdhocCertificate, CertificateError>,
)
    requires
        call_ensures(generate_adhoc, (&fqdn,), certificate),
    ensures
        certificate is Ok && fqdn is None ==> self_signed_for(
            seq!["localhost"@, "127.0.0.1"@, "::1"@],
            certificate->Ok_0.cert@,
            certificate->Ok_0.key@,
        ),
        certificate is Ok && fqdn is Some ==> self_signed_for(
            seq!["localhost"@, "127.0.0.1"@, "::1"@, fqdn->0@],
            certificate->Ok_0.cert@,
            certificate->Ok_0.key@,
        ),
        fqdn is Some && (exists|i: int|
            0 <= i < fqdn->0@.len() && #[trigger] fqdn->0@[i] > '\u{7f}') ==> certificate is Err,
{
    if fqdn is Some {
        assert(crate::settings::adhoc_domains(Some(fqdn->0@)) =~= seq![
            "localhost"@,
            "127.0.0.1"@,
            "::1"@,
            fqdn->0@,
        ]);
    }
}

/// A certificate made for this server covers the local names and its domain name.
pub proof fn certificates_cover_local_names(fqdn: Option<String>, domains: Vec<String>)
    requires
        call_ensures(certificate_domains, (&fqdn,), domains),
    ensures
        domains@.len() == (if fqdn is Some {
            4int
        } else {
            3
        }),
        domains@[0]@ == "localhost"@,
        domains@[1]@ == "127.0.0.1"@,
        domains@[2]@ == "::1"@,
        fqdn is Some ==> domains@[3]@ == fqdn->0@,
{
    let names = crate::settings::texts(domains@);
    assert(names.len() == domains@.len());
    assert(names[0] == domains@[0]@ && names[1] == domains@[1]@ && names[2] == domains@[2]@);
    if fqdn is Some {
        assert(names[3] == domains@[3]@);
    }
}

} // verus!
