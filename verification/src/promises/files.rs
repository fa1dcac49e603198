//! What storing, finding and removing files does, call by call.

use crate::address::SocketAddress;
use crate::database::{Database, DatabaseData, MetaFile};
use crate::filesystem::{DeletionError, ErrorKind, IoError, LocalTokenizedFilesystem};
use crate::filesystem::{RemovalStep, SaveError, SaveStep};
use crate::encoding::base64_text;
use crate::outside::form_encoded;
use crate::post::PostData;
use crate::text::decimal;
use crate::token::{big_endian, numbered_token_is_unique, UserToken, XXH3_128Hash};
use vstd::prelude::*;
use vstd::utf8::encode_utf8;

verus! {

broadcast use vstd::std_specs::hash::group_hash_axioms;

/// Whether a file has been stored at this address.
pub open spec fn is_stored_at(step: Result<SaveStep, SaveError>, uri: Seq<char>) -> bool {
    match step {
        Ok(SaveStep::Stored(at)) => at@ == uri,
        Ok(SaveStep::Write(at, _, _)) => at@ == uri,
        Err(_) => false,
    }
}

/// Whether the same is known of both files.
pub open spec fn same_meta(a: MetaFile, b: MetaFile) -> bool {
    &&& a.file_name@ == b.file_name@
    &&& a.file_size == b.file_size
    &&& a.uri_path@ == b.uri_path@
    &&& a.mime_type@ == b.mime_type@
    &&& a.nsfw == b.nsfw
    &&& a.creation_date@ == b.creation_date@
    &&& a.expiration_date@ == b.expiration_date@
    &&& a.restricted == b.restricted
    &&& a.access_token@ == b.access_token@
    &&& a.hash@ == b.hash@
    &&& a.uploader_ua@ == b.uploader_ua@
    &&& a.uploader_ip == b.uploader_ip
}

/// Whether what is known of a file at an address is what an upload brought.
pub open spec fn is_meta_of(meta: MetaFile, data: PostData, uri: Seq<char>) -> bool {
    &&& meta.file_name@ == data.file_name@
    &&& meta.file_size == data.file_size
    &&& meta.uri_path@ == uri
    &&& meta.mime_type@ == data.file_mime@
    &&& meta.nsfw == data.nsfw
    &&& meta.creation_date@ == data.creation_date@
    &&& meta.expiration_date@ == data.expiration_date@
    &&& !meta.restricted
    &&& meta.access_token@ == data.access_token@
    &&& meta.hash@ == data.file_hash@
    &&& meta.uploader_ua@ == data.uploader_ua@
    &&& meta.uploader_ip == data.uploader_ip
}

/// Whether two looks found the same.
pub open spec fn same_find(a: Result<MetaFile, IoError>, b: Result<MetaFile, IoError>) -> bool {
    match (a, b) {
        (Ok(m), Ok(n)) => same_meta(m, n),
        (Err(e), Err(f)) => e.kind == f.kind && e.message@ == f.message@,
        _ => false,
    }
}

/// An upload is refused if and only if its data is restricted, and then nothing changes.
/// Every other upload is stored.
pub proof fn only_restricted_uploads_are_refused(
    fs: &mut LocalTokenizedFilesystem,
    data: PostData,
    step: Result<SaveStep, SaveError>,
    restricted: bool,
)
    requires
        call_ensures(LocalTokenizedFilesystem::save, (fs, data), step),
        call_ensures(Database::is_restricted, (&old(fs).database, &data.file_hash), restricted),
    ensures
        step is Err <==> restricted,
        step is Err <==> old(fs).database@.hash_file_map.contains_key(data.file_hash@),
        step is Err ==> step->Err_0 is FileRestricted,
        step is Err ==> final(fs).database@ == old(fs).database@,
        step is Ok ==> exists|uri: Seq<char>| is_stored_at(step, uri),
{
    match step {
        Ok(SaveStep::Stored(at)) => {
            assert(is_stored_at(step, at@));
        },
        Ok(SaveStep::Write(at, _, _)) => {
            assert(is_stored_at(step, at@));
        },
        Err(_) => {},
    }
}

/// After a save, a look at the address of the file finds all that the upload brought.
/// Before it, the address was empty.
pub proof fn saved_files_are_found_as_uploaded(
    fs: &mut LocalTokenizedFilesystem,
    data: PostData,
    step: Result<SaveStep, SaveError>,
    uri: &str,
    find: Result<MetaFile, IoError>,
    before: Option<&MetaFile>,
)
    requires
        call_ensures(LocalTokenizedFilesystem::save, (fs, data), step),
        is_stored_at(step, uri@),
        call_ensures(LocalTokenizedFilesystem::find, (&*final(fs), uri), find),
        call_ensures(Database::file_at, (&old(fs).database, uri), before),
    ensures
        find is Ok,
        is_meta_of(find->Ok_0, data, uri@),
        before is None,
{
}

/// A save changes nothing at any address but that of the file.
pub proof fn saving_leaves_other_addresses(
    fs: &mut LocalTokenizedFilesystem,
    data: PostData,
    step: Result<SaveStep, SaveError>,
    path: &str,
    before: Result<MetaFile, IoError>,
    after: Result<MetaFile, IoError>,
)
    requires
        call_ensures(LocalTokenizedFilesystem::save, (fs, data), step),
        !is_stored_at(step, path@),
        call_ensures(LocalTokenizedFilesystem::find, (&*old(fs), path), before),
        call_ensures(LocalTokenizedFilesystem::find, (&*final(fs), path), after),
    ensures
        same_find(before, after),
        final(fs).database@.hash_file_map == old(fs).database@.hash_file_map,
        final(fs).database@.blocklist_ip == old(fs).database@.blocklist_ip,
        final(fs).database@.blocklist_ua == old(fs).database@.blocklist_ua,
{
}

/// A file that is not secret gets its name in form encoding as its address. Where that is
/// taken, the least number that makes a free address is put behind it.
pub proof fn public_addresses_tell_the_name(
    fs: &mut LocalTokenizedFilesystem,
    data: PostData,
    step: Result<SaveStep, SaveError>,
    uri: Seq<char>,
    base: &str,
    holder: Option<&MetaFile>,
)
    requires
        call_ensures(LocalTokenizedFilesystem::save, (fs, data), step),
        is_stored_at(step, uri),
        !data.secret,
        base@ == form_encoded(encode_utf8(data.file_name@)),
        call_ensures(Database::file_at, (&old(fs).database, base), holder),
    ensures
        holder is None ==> uri == base@,
        holder is Some ==> exists|n: nat|
            {
                &&& n >= 1
                &&& uri == base@ + seq!['_'] + #[trigger] decimal(n)
                &&& forall|m: nat|
                    1 <= m < n ==> old(fs).database@.url_file_map.contains_key(
                        base@ + seq!['_'] + #[trigger] decimal(m),
                    )
            },
{
    if holder is Some {
        let taken = old(fs).database@.url_file_map.dom();
        let n = choose|n: nat|
            {
                &&& 1 <= n
                &&& uri == #[trigger] crate::text::numbered(base@, n)
                &&& forall|m: nat|
                    1 <= m < n ==> taken.contains(#[trigger] crate::text::numbered(base@, m))
            };
        assert(crate::text::numbered(base@, n) =~= base@ + seq!['_'] + decimal(n));
        assert forall|m: nat| 1 <= m < n implies taken.contains(
            base@ + seq!['_'] + #[trigger] decimal(m),
        ) by {
            assert(taken.contains(crate::text::numbered(base@, m)));
            assert(crate::text::numbered(base@, m) =~= base@ + seq!['_'] + decimal(m));
        }
    }
}

/// A secret file gets the base64 of thirty-two bytes as its address.
pub proof fn secret_addresses_are_tokens(
    fs: &mut LocalTokenizedFilesystem,
    data: PostData,
    step: Result<SaveStep, SaveError>,
    uri: Seq<char>,
)
    requires
        call_ensures(LocalTokenizedFilesystem::save, (fs, data), step),
        is_stored_at(step, uri),
        data.secret,
    ensures
        exists|bytes: Seq<u8>| bytes.len() == 32 && uri == #[trigger] base64_text(bytes),
        uri.len() == 44,
{
}

/// A save counts one more file for the data, and none for other data. The data is to be
/// written if and only if it was not counted, and then it is all of the upload's.
pub proof fn saving_counts_and_writes_once(
    fs: &mut LocalTokenizedFilesystem,
    data: PostData,
    step: Result<SaveStep, SaveError>,
    uri: Seq<char>,
    before: Option<usize>,
    after: Option<usize>,
    other: XXH3_128Hash,
    other_before: Option<usize>,
    other_after: Option<usize>,
)
    requires
        call_ensures(LocalTokenizedFilesystem::save, (fs, data), step),
        is_stored_at(step, uri),
        call_ensures(Database::references, (&old(fs).database, &data.file_hash), before),
        call_ensures(Database::references, (&final(fs).database, &data.file_hash), after),
        before != Some(usize::MAX),
        other@ != data.file_hash@,
        call_ensures(Database::references, (&old(fs).database, &other), other_before),
        call_ensures(Database::references, (&final(fs).database, &other), other_after),
    ensures
        before is None ==> after == Some(1usize),
        before is Some ==> after is Some && after->0 == before->0 + 1,
        other_after == other_before,
        match step->Ok_0 {
            SaveStep::Stored(_) => before is Some,
            SaveStep::Write(_, hash, bytes) => {
                &&& before is None
                &&& hash@ == data.file_hash@
                &&& bytes@ == data.file_data@
            },
        },
{
}

/// A look at an address finds nothing where no file is, a refusal where its data is
/// restricted, and all that is known of the file otherwise.
pub proof fn looks_find_what_is_there(
    fs: LocalTokenizedFilesystem,
    path: &str,
    find: Result<MetaFile, IoError>,
    file: Option<&MetaFile>,
)
    requires
        call_ensures(LocalTokenizedFilesystem::find, (&fs, path), find),
        call_ensures(Database::file_at, (&fs.database, path), file),
    ensures
        file is None ==> {
            &&& find is Err
            &&& find->Err_0.kind == ErrorKind::NotFound
            &&& find->Err_0.message@ == "File not found: "@ + path@
        },
        file is Some ==> {
            let restricted = fs.database@.hash_file_map.contains_key(file->0.hash@);
            &&& restricted ==> {
                &&& find is Err
                &&& find->Err_0.kind == ErrorKind::ConnectionRefused
                &&& find->Err_0.message@ == "File has been restricted."@
            }
            &&& !restricted ==> find is Ok && same_meta(find->Ok_0, *file->0)
        },
{
}

/// Asking for a file finds what a look finds. It changes nothing, but for an address
/// whose data is restricted: that is empty from then on.
pub proof fn getting_finds_what_a_look_finds(
    fs: &mut LocalTokenizedFilesystem,
    path: &str,
    got: Result<MetaFile, IoError>,
    look: Result<MetaFile, IoError>,
    again: Result<MetaFile, IoError>,
    other: &str,
    other_before: Result<MetaFile, IoError>,
    other_after: Result<MetaFile, IoError>,
)
    requires
        call_ensures(LocalTokenizedFilesystem::get, (fs, path), got),
        call_ensures(LocalTokenizedFilesystem::find, (&*old(fs), path), look),
        call_ensures(LocalTokenizedFilesystem::find, (&*final(fs), path), again),
        other@ != path@,
        call_ensures(LocalTokenizedFilesystem::find, (&*old(fs), other), other_before),
        call_ensures(LocalTokenizedFilesystem::find, (&*final(fs), other), other_after),
    ensures
        same_find(got, look),
        got is Ok ==> same_find(again, look) && final(fs).database@ == old(fs).database@,
        got is Err ==> again is Err && again->Err_0.kind == ErrorKind::NotFound,
        got is Err && got->Err_0.kind == ErrorKind::NotFound ==> final(fs).database@ == old(fs).database@,
        same_find(other_before, other_after),
        final(fs).database@.hashes_on_fs == old(fs).database@.hashes_on_fs,
        final(fs).database@.hash_file_map == old(fs).database@.hash_file_map,
        final(fs).database@.blocklist_ip == old(fs).database@.blocklist_ip,
        final(fs).database@.blocklist_ua == old(fs).database@.blocklist_ua,
{
}

/// A removal is refused as forbidden if and only if there is a file and the token is not
/// its own, and as not found if and only if there is no file. The holder of the token
/// always removes the file: its data goes first where no other file is counted for it,
/// and the file goes at once otherwise.
pub proof fn the_holder_removes_the_file(
    fs: &mut LocalTokenizedFilesystem,
    path: &str,
    token: UserToken,
    step: Result<RemovalStep, DeletionError>,
    file: Option<&MetaFile>,
    count: Option<usize>,
)
    requires
        call_ensures(LocalTokenizedFilesystem::remove_file, (fs, path, &token), step),
        call_ensures(Database::file_at, (&old(fs).database, path), file),
        file is Some ==> call_ensures(
            Database::references,
            (&old(fs).database, &file->0.hash),
            count,
        ),
        file is Some && file->0.access_token@ == token@ ==> count is Some && count->0 >= 1,
    ensures
        step is Err && step->Err_0 is FileNotFound <==> file is None,
        step is Err && step->Err_0 is Forbidden <==> file is Some && file->0.access_token@
            != token@,
        step is Ok <==> file is Some && file->0.access_token@ == token@,
        step is Ok ==> match step->Ok_0 {
            RemovalStep::DeleteData(hash) => count == Some(1usize) && hash@ == file->0.hash@,
            RemovalStep::Removed => count->0 > 1,
        },
        step is Err || step->Ok_0 is DeleteData ==> final(fs).database@ == old(fs).database@,
{
}

/// Once a file is removed, its address is empty, one file less is counted for its data,
/// and all other addresses and counts are as they were.
pub proof fn removed_files_are_gone(
    fs: &mut LocalTokenizedFilesystem,
    path: &str,
    token: UserToken,
    file: &MetaFile,
    count: usize,
    gone: Result<MetaFile, IoError>,
    left: Option<usize>,
    other: &str,
    other_before: Result<MetaFile, IoError>,
    other_after: Result<MetaFile, IoError>,
)
    requires
        call_ensures(
            LocalTokenizedFilesystem::remove_file,
            (fs, path, &token),
            Ok::<RemovalStep, DeletionError>(RemovalStep::Removed),
        ),
        call_ensures(Database::file_at, (&old(fs).database, path), Some(file)),
        call_ensures(Database::references, (&old(fs).database, &file.hash), Some(count)),
        count >= 1,
        call_ensures(LocalTokenizedFilesystem::find, (&*final(fs), path), gone),
        call_ensures(Database::references, (&final(fs).database, &file.hash), left),
        other@ != path@,
        call_ensures(LocalTokenizedFilesystem::find, (&*old(fs), other), other_before),
        call_ensures(LocalTokenizedFilesystem::find, (&*final(fs), other), other_after),
    ensures
        gone is Err,
        gone->Err_0.kind == ErrorKind::NotFound,
        left is Some && left->0 == count - 1,
        same_find(other_before, other_after),
        forall|h: u128|
            h != file.hash@ ==> (#[trigger] final(fs).database@.hashes_on_fs.contains_key(h) <==> old(fs).database@.hashes_on_fs.contains_key(h)) && final(fs).database@.hashes_on_fs[h] == old(fs).database@.hashes_on_fs[h],
        final(fs).database@.hash_file_map == old(fs).database@.hash_file_map,
        final(fs).database@.blocklist_ip == old(fs).database@.blocklist_ip,
        final(fs).database@.blocklist_ua == old(fs).database@.blocklist_ua,
{
}

/// Once the data of a file is deleted, its address is empty and its data is counted once
/// less. Where the data could not be deleted, nothing has changed, and the error says why.
pub proof fn deleted_data_takes_the_file_with_it(
    fs: &mut LocalTokenizedFilesystem,
    path: &str,
    deleted: Result<(), IoError>,
    outcome: Result<(), DeletionError>,
    file: Option<&MetaFile>,
    count: Option<usize>,
    gone: Result<MetaFile, IoError>,
    left: Option<usize>,
    other: &str,
    other_before: Result<MetaFile, IoError>,
    other_after: Result<MetaFile, IoError>,
)
    requires
        call_ensures(LocalTokenizedFilesystem::finish_removal, (fs, path, deleted), outcome),
        call_ensures(Database::file_at, (&old(fs).database, path), file),
        file is Some ==> call_ensures(
            Database::references,
            (&old(fs).database, &file->0.hash),
            count,
        ),
        file is Some ==> call_ensures(
            Database::references,
            (&final(fs).database, &file->0.hash),
            left,
        ),
        call_ensures(LocalTokenizedFilesystem::find, (&*final(fs), path), gone),
        other@ != path@,
        call_ensures(LocalTokenizedFilesystem::find, (&*old(fs), other), other_before),
        call_ensures(LocalTokenizedFilesystem::find, (&*final(fs), other), other_after),
    ensures
        outcome is Ok <==> deleted is Ok,
        deleted is Ok ==> gone is Err && gone->Err_0.kind == ErrorKind::NotFound,
        deleted is Ok && file is Some ==> {
            &&& count is None || count->0 <= 1 ==> left is None
            &&& count is Some && count->0 > 1 ==> left is Some && left->0 == count->0 - 1
        },
        file is None ==> final(fs).database@ == old(fs).database@,
        forall|h: u128|
            file is None || h != file->0.hash@ ==> (#[trigger] final(fs).database@.hashes_on_fs.contains_key(h) <==> old(fs).database@.hashes_on_fs.contains_key(h)) && final(fs).database@.hashes_on_fs[h] == old(fs).database@.hashes_on_fs[h],
        deleted is Err ==> {
            &&& final(fs).database@ == old(fs).database@
            &&& outcome->Err_0 is FilesystemError
            &&& outcome->Err_0->FilesystemError_0.kind == deleted->Err_0.kind
            &&& outcome->Err_0->FilesystemError_0.message@ == deleted->Err_0.message@
        },
        same_find(other_before, other_after),
        final(fs).database@.hash_file_map == old(fs).database@.hash_file_map,
        final(fs).database@.blocklist_ip == old(fs).database@.blocklist_ip,
        final(fs).database@.blocklist_ua == old(fs).database@.blocklist_ua,
{
}

/// A save whose data is written is done at its address. One whose data could not be
/// written is an error that says why.
pub proof fn saves_end_as_the_writing_does(
    uri: String,
    written: Result<(), IoError>,
    saved: Result<String, SaveError>,
)
    requires
        call_ensures(LocalTokenizedFilesystem::finish_save, (uri, written), saved),
    ensures
        saved is Ok <==> written is Ok,
        written is Ok ==> saved->Ok_0@ == uri@,
        written is Err ==> {
            &&& saved->Err_0 is FileSystemError
            &&& saved->Err_0->FileSystemError_0.kind == written->Err_0.kind
            &&& saved->Err_0->FileSystemError_0.message@ == written->Err_0.message@
        },
{
}

/// Who has uploaded a file can delete it with the token of the upload, and with no other.
pub proof fn uploaders_can_delete(
    fs: &mut LocalTokenizedFilesystem,
    data: PostData,
    step: Result<SaveStep, SaveError>,
    uri: &str,
    count: Option<usize>,
    later: &mut LocalTokenizedFilesystem,
    token: UserToken,
    removal: Result<RemovalStep, DeletionError>,
)
    requires
        call_ensures(LocalTokenizedFilesystem::save, (fs, data), step),
        is_stored_at(step, uri@),
        call_ensures(Database::references, (&old(fs).database, &data.file_hash), count),
        count != Some(usize::MAX),
        *old(later) == *final(fs),
        call_ensures(LocalTokenizedFilesystem::remove_file, (later, uri, &token), removal),
    ensures
        removal is Ok <==> token@ == data.access_token@,
        token@ != data.access_token@ ==> removal is Err && removal->Err_0 is Forbidden,
        removal is Ok && (count is None || count == Some(0usize)) ==> removal->Ok_0 is DeleteData
            && removal->Ok_0->DeleteData_0@ == data.file_hash@,
        removal is Ok && count is Some && count->0 >= 1 ==> removal->Ok_0 is Removed,
{
}

/// A file can be saved unless its data is counted as often as a count can be.
pub proof fn saving_needs_room_in_the_count(
    fs: LocalTokenizedFilesystem,
    data: PostData,
    can: bool,
    count: Option<usize>,
)
    requires
        call_ensures(LocalTokenizedFilesystem::can_save, (&fs, &data), can),
        call_ensures(Database::references, (&fs.database, &data.file_hash), count),
    ensures
        can <==> count != Some(usize::MAX),
{
}

/// A file can be removed unless the token is its own and its data is not counted.
pub proof fn removing_needs_a_count(
    fs: LocalTokenizedFilesystem,
    path: &str,
    token: UserToken,
    can: bool,
    file: Option<&MetaFile>,
    count: Option<usize>,
)
    requires
        call_ensures(LocalTokenizedFilesystem::can_remove, (&fs, path, &token), can),
        call_ensures(Database::file_at, (&fs.database, path), file),
        file is Some ==> call_ensures(
            Database::references,
            (&fs.database, &file->0.hash),
            count,
        ),
    ensures
        can <==> (file is None || file->0.access_token@ != token@ || (count is Some && count->0
            >= 1)),
{
}

/// Storing puts a file at the address that is given, whatever is there.
pub proof fn storing_puts_the_file_at_its_address(
    fs: &mut LocalTokenizedFilesystem,
    uri: String,
    data: PostData,
    step: SaveStep,
    at: &str,
    file: Option<&MetaFile>,
    before: Option<usize>,
)
    requires
        call_ensures(LocalTokenizedFilesystem::store, (fs, uri, data), step),
        at@ == uri@,
        call_ensures(Database::file_at, (&final(fs).database, at), file),
        call_ensures(Database::references, (&old(fs).database, &data.file_hash), before),
    ensures
        file is Some,
        is_meta_of(*file->0, data, uri@),
        match step {
            SaveStep::Stored(to) => before is Some && to@ == uri@,
            SaveStep::Write(to, hash, bytes) => {
                &&& before is None
                &&& to@ == uri@
                &&& hash@ == data.file_hash@
                &&& bytes@ == data.file_data@
            },
        },
{
}

/// A public address is the name in form encoding, or that with the least number behind it
/// that makes it free.
pub proof fn public_addresses_are_free(fs: LocalTokenizedFilesystem, name: &str, uri: String)
    requires
        call_ensures(LocalTokenizedFilesystem::public_uri, (&fs, name), uri),
    ensures
        !fs.database@.url_file_map.contains_key(uri@),
        ({
            let base = form_encoded(encode_utf8(name@));
            &&& !fs.database@.url_file_map.contains_key(base) ==> uri@ == base
            &&& fs.database@.url_file_map.contains_key(base) ==> exists|n: nat|
                n >= 1 && uri@ == base + seq!['_'] + #[trigger] decimal(n)
        }),
{
    let base = form_encoded(encode_utf8(name@));
    if fs.database@.url_file_map.contains_key(base) {
        let n = choose|n: nat| n >= 1 && uri@ == #[trigger] crate::text::numbered(base, n);
        assert(crate::text::numbered(base, n) =~= base + seq!['_'] + decimal(n));
    }
}

/// A token that is numbered keeps its last sixteen bytes, and different numbers make
/// different tokens.
pub proof fn numbered_tokens_differ(
    token: UserToken,
    m: u64,
    n: u64,
    a: UserToken,
    b: UserToken,
)
    requires
        token@.len() == 32,
        call_ensures(UserToken::numbered, (&token, m), a),
        call_ensures(UserToken::numbered, (&token, n), b),
    ensures
        a@.len() == 32,
        a@[15] == m % 256,
        forall|i: int| 16 <= i < 32 ==> #[trigger] a@[i] == token@[i],
        a@ == b@ <==> m == n,
{
    let front = a@.take(16);
    assert(front.last() == a@[15]);
    assert(big_endian(front) == big_endian(front.drop_last()) * 256 + front.last());
    assert forall|i: int| 16 <= i < 32 implies #[trigger] a@[i] == token@[i] by {
        assert(a@.skip(16)[i - 16] == token@.skip(16)[i - 16]);
    }
    if m == n {
        numbered_token_is_unique(token@, m as nat, a@, b@);
    }
}

/// Drawn and counted addresses are free, and are the base64 of thirty-two bytes. A counted
/// one keeps the last sixteen bytes of its token.
pub proof fn secret_addresses_are_free(
    fs: LocalTokenizedFilesystem,
    token: UserToken,
    drawn: String,
    counted: String,
)
    requires
        call_ensures(LocalTokenizedFilesystem::draw_secret_uri, (&fs,), drawn),
        call_ensures(LocalTokenizedFilesystem::count_secret_uri, (&fs, &token), counted),
    ensures
        !fs.database@.url_file_map.contains_key(drawn@),
        !fs.database@.url_file_map.contains_key(counted@),
        exists|bytes: Seq<u8>| bytes.len() == 32 && drawn@ == #[trigger] base64_text(bytes),
        exists|bytes: Seq<u8>|
            bytes.len() == 32 && bytes.skip(16) == token@.skip(16) && counted@
                == #[trigger] base64_text(bytes),
{
}

/// An upload is parted into what it brought.
pub proof fn uploads_are_parted_whole(
    data: PostData,
    parts: (MetaFile, bool, XXH3_128Hash, Vec<u8>),
)
    requires
        call_ensures(MetaFile::from_post, (data,), parts),
    ensures
        is_meta_of(parts.0, data, Seq::empty()),
        parts.1 == data.secret,
        parts.2@ == data.file_hash@,
        parts.3@ == data.file_data@,
{
}

/// What is entered at an address is there, and every other address is as it was.
pub proof fn entered_files_are_there(
    db: &mut Database,
    uri: String,
    meta: MetaFile,
    at: &str,
    file: Option<&MetaFile>,
    other: &str,
    before: Option<&MetaFile>,
    after: Option<&MetaFile>,
)
    requires
        call_ensures(Database::insert_at, (db, uri, meta), ()),
        at@ == uri@,
        call_ensures(Database::file_at, (&*final(db), at), file),
        other@ != uri@,
        call_ensures(Database::file_at, (&*old(db), other), before),
        call_ensures(Database::file_at, (&*final(db), other), after),
    ensures
        file is Some && same_meta(*file->0, meta),
        before is Some <==> after is Some,
        before is Some ==> same_meta(*before->0, *after->0),
        final(db)@.hashes_on_fs == old(db)@.hashes_on_fs,
        final(db)@.hash_file_map == old(db)@.hash_file_map,
        final(db)@.blocklist_ip == old(db)@.blocklist_ip,
        final(db)@.blocklist_ua == old(db)@.blocklist_ua,
{
}

/// A file is entered at its own address.
pub proof fn files_are_entered_at_their_address(
    db: &mut Database,
    meta: MetaFile,
    at: &str,
    file: Option<&MetaFile>,
    other: &str,
    before: Option<&MetaFile>,
    after: Option<&MetaFile>,
)
    requires
        call_ensures(Database::insert, (db, meta), ()),
        at@ == meta.uri_path@,
        call_ensures(Database::file_at, (&*final(db), at), file),
        other@ != meta.uri_path@,
        call_ensures(Database::file_at, (&*old(db), other), before),
        call_ensures(Database::file_at, (&*final(db), other), after),
    ensures
        file is Some && same_meta(*file->0, meta),
        before is Some <==> after is Some,
        before is Some ==> same_meta(*before->0, *after->0),
        final(db)@.hashes_on_fs == old(db)@.hashes_on_fs,
        final(db)@.hash_file_map == old(db)@.hash_file_map,
        final(db)@.blocklist_ip == old(db)@.blocklist_ip,
        final(db)@.blocklist_ua == old(db)@.blocklist_ua,
{
}

/// What is taken out of an address is not there, and every other address is as it was.
pub proof fn taken_out_files_are_not_there(
    db: &mut Database,
    path: &str,
    file: Option<&MetaFile>,
    other: &str,
    before: Option<&MetaFile>,
    after: Option<&MetaFile>,
)
    requires
        call_ensures(Database::remove_url, (db, path), ()),
        call_ensures(Database::file_at, (&*final(db), path), file),
        other@ != path@,
        call_ensures(Database::file_at, (&*old(db), other), before),
        call_ensures(Database::file_at, (&*final(db), other), after),
    ensures
        file is None,
        before is Some <==> after is Some,
        before is Some ==> same_meta(*before->0, *after->0),
        final(db)@.hashes_on_fs == old(db)@.hashes_on_fs,
        final(db)@.hash_file_map == old(db)@.hash_file_map,
        final(db)@.blocklist_ip == old(db)@.blocklist_ip,
        final(db)@.blocklist_ua == old(db)@.blocklist_ua,
{
}

/// Counting a hash adds one, or begins with one, and tells whether it was counted.
pub proof fn counting_adds_one(
    db: &mut Database,
    key: XXH3_128Hash,
    present: bool,
    before: Option<usize>,
    after: Option<usize>,
    other: XXH3_128Hash,
    other_before: Option<usize>,
    other_after: Option<usize>,
)
    requires
        call_ensures(Database::insert_hash, (db, key), present),
        call_ensures(Database::references, (&*old(db), &key), before),
        before != Some(usize::MAX),
        call_ensures(Database::references, (&*final(db), &key), after),
        other@ != key@,
        call_ensures(Database::references, (&*old(db), &other), other_before),
        call_ensures(Database::references, (&*final(db), &other), other_after),
    ensures
        present <==> before is Some,
        after is Some,
        after->0 == (if before is Some {
            before->0 + 1
        } else {
            1
        }),
        other_after == other_before,
        final(db)@.url_file_map == old(db)@.url_file_map,
        final(db)@.hash_file_map == old(db)@.hash_file_map,
        final(db)@.blocklist_ip == old(db)@.blocklist_ip,
        final(db)@.blocklist_ua == old(db)@.blocklist_ua,
{
}

/// Discounting a hash takes one away, or the whole count where it was not above one, and
/// tells whether it is still counted.
pub proof fn discounting_takes_one_away(
    db: &mut Database,
    key: XXH3_128Hash,
    present: bool,
    before: Option<usize>,
    after: Option<usize>,
    other: XXH3_128Hash,
    other_before: Option<usize>,
    other_after: Option<usize>,
)
    requires
        call_ensures(Database::remove_hash, (db, key), present),
        call_ensures(Database::references, (&*old(db), &key), before),
        call_ensures(Database::references, (&*final(db), &key), after),
        other@ != key@,
        call_ensures(Database::references, (&*old(db), &other), other_before),
        call_ensures(Database::references, (&*final(db), &other), other_after),
    ensures
        present <==> after is Some,
        after is Some <==> before is Some && before->0 > 1,
        after is Some ==> after->0 == before->0 - 1,
        other_after == other_before,
        final(db)@.url_file_map == old(db)@.url_file_map,
        final(db)@.hash_file_map == old(db)@.hash_file_map,
        final(db)@.blocklist_ip == old(db)@.blocklist_ip,
        final(db)@.blocklist_ua == old(db)@.blocklist_ua,
{
}

/// A client that is blocked is turned away from then on, and no other client is.
pub proof fn blocking_blocks_that_client(
    db: &mut Database,
    addr: SocketAddress,
    other: SocketAddress,
    before: bool,
    after: bool,
    ua: &str,
    ua_before: bool,
    ua_after: bool,
)
    requires
        call_ensures(Database::block_ip, (db, addr), ()),
        call_ensures(Database::is_ip_blocked, (&*old(db), &other), before),
        call_ensures(Database::is_ip_blocked, (&*final(db), &other), after),
        call_ensures(Database::is_ua_blocked, (&*old(db), ua), ua_before),
        call_ensures(Database::is_ua_blocked, (&*final(db), ua), ua_after),
    ensures
        after <==> before || other == addr,
        ua_after == ua_before,
        final(db)@.url_file_map == old(db)@.url_file_map,
        final(db)@.hashes_on_fs == old(db)@.hashes_on_fs,
        final(db)@.hash_file_map == old(db)@.hash_file_map,
{
}

/// A program that is blocked is turned away from then on, and no other program is.
pub proof fn blocking_blocks_that_program(
    db: &mut Database,
    ua: String,
    other: &str,
    before: bool,
    after: bool,
    addr: SocketAddress,
    ip_before: bool,
    ip_after: bool,
)
    requires
        call_ensures(Database::block_ua, (db, ua), ()),
        call_ensures(Database::is_ua_blocked, (&*old(db), other), before),
        call_ensures(Database::is_ua_blocked, (&*final(db), other), after),
        call_ensures(Database::is_ip_blocked, (&*old(db), &addr), ip_before),
        call_ensures(Database::is_ip_blocked, (&*final(db), &addr), ip_after),
    ensures
        after <==> before || other@ == ua@,
        ip_after == ip_before,
        final(db)@.url_file_map == old(db)@.url_file_map,
        final(db)@.hashes_on_fs == old(db)@.hashes_on_fs,
        final(db)@.hash_file_map == old(db)@.hash_file_map,
{
}

/// A new database knows of no file, counts nothing, restricts nothing and blocks nobody.
pub proof fn new_databases_are_empty(
    db: Database,
    path: &str,
    file: Option<&MetaFile>,
    key: XXH3_128Hash,
    count: Option<usize>,
    restricted: bool,
    addr: SocketAddress,
    ip_blocked: bool,
    ua: &str,
    ua_blocked: bool,
)
    requires
        call_ensures(Database::new, (), db),
        call_ensures(Database::file_at, (&db, path), file),
        call_ensures(Database::references, (&db, &key), count),
        call_ensures(Database::is_restricted, (&db, &key), restricted),
        call_ensures(Database::is_ip_blocked, (&db, &addr), ip_blocked),
        call_ensures(Database::is_ua_blocked, (&db, ua), ua_blocked),
    ensures
        file is None,
        count is None,
        !restricted,
        !ip_blocked,
        !ua_blocked,
{
}

/// A database answers by its contents.
pub proof fn databases_answer_by_their_contents(
    data: DatabaseData,
    db: Database,
    path: &str,
    file: Option<&MetaFile>,
    key: XXH3_128Hash,
    count: Option<usize>,
    restricted: bool,
    addr: SocketAddress,
    ip_blocked: bool,
    ua: &str,
    ua_blocked: bool,
)
    requires
        call_ensures(Database::from_data, (data,), db),
        call_ensures(Database::file_at, (&db, path), file),
        call_ensures(Database::references, (&db, &key), count),
        call_ensures(Database::is_restricted, (&db, &key), restricted),
        call_ensures(Database::is_ip_blocked, (&db, &addr), ip_blocked),
        call_ensures(Database::is_ua_blocked, (&db, ua), ua_blocked),
    ensures
        file is Some <==> data.url_file_map@.contains_key(path@),
        file is Some ==> same_meta(*file->0, data.url_file_map@[path@]),
        count is Some <==> data.hashes_on_fs@.contains_key(key@),
        count is Some ==> count->0 == data.hashes_on_fs@[key@],
        restricted <==> data.hash_file_map@.contains_key(key@),
        ip_blocked <==> data.blocklist_ip@.contains(addr),
        ua_blocked <==> data.blocklist_ua@.contains_key(ua@),
{
}

/// Whether two contents hold the same.
pub open spec fn same_contents(a: DatabaseData, b: DatabaseData) -> bool {
    &&& forall|k: Seq<char>|
        (#[trigger] a.url_file_map@.contains_key(k) <==> b.url_file_map@.contains_key(k)) && (
        a.url_file_map@.contains_key(k) ==> same_meta(a.url_file_map@[k], b.url_file_map@[k]))
    &&& a.hashes_on_fs@ == b.hashes_on_fs@
    &&& forall|h: u128|
        (#[trigger] a.hash_file_map@.contains_key(h) <==> b.hash_file_map@.contains_key(h)) && (
        a.hash_file_map@.contains_key(h) ==> same_meta(a.hash_file_map@[h], b.hash_file_map@[h]))
    &&& forall|i: SocketAddress| #[trigger]
        a.blocklist_ip@.contains(i) <==> b.blocklist_ip@.contains(i)
    &&& forall|u: Seq<char>| #[trigger]
        a.blocklist_ua@.contains_key(u) <==> b.blocklist_ua@.contains_key(u)
}

proof fn equal_views_hold_the_same(a: DatabaseData, b: DatabaseData)
    requires
        a@ == b@,
    ensures
        same_contents(a, b),
{
    assert forall|k: Seq<char>|
        (#[trigger] a.url_file_map@.contains_key(k) <==> b.url_file_map@.contains_key(k)) && (
        a.url_file_map@.contains_key(k) ==> same_meta(
            a.url_file_map@[k],
            b.url_file_map@[k],
        )) by {
        assert(a@.url_file_map.contains_key(k) <==> a.url_file_map@.contains_key(k));
        assert(b@.url_file_map.contains_key(k) <==> b.url_file_map@.contains_key(k));
        if a.url_file_map@.contains_key(k) {
            assert(a@.url_file_map[k] == a.url_file_map@[k]@);
            assert(b@.url_file_map[k] == b.url_file_map@[k]@);
        }
    }
    assert forall|h: u128|
        (#[trigger] a.hash_file_map@.contains_key(h) <==> b.hash_file_map@.contains_key(h)) && (
        a.hash_file_map@.contains_key(h) ==> same_meta(
            a.hash_file_map@[h],
            b.hash_file_map@[h],
        )) by {
        assert(a@.hash_file_map.contains_key(h) <==> a.hash_file_map@.contains_key(h));
        assert(b@.hash_file_map.contains_key(h) <==> b.hash_file_map@.contains_key(h));
        if a.hash_file_map@.contains_key(h) {
            assert(a@.hash_file_map[h] == a.hash_file_map@[h]@);
            assert(b@.hash_file_map[h] == b.hash_file_map@[h]@);
        }
    }
    assert forall|i: SocketAddress| #[trigger]
        a.blocklist_ip@.contains(i) <==> b.blocklist_ip@.contains(i) by {
        assert(a@.blocklist_ip.contains(i) <==> a.blocklist_ip@.contains(i));
        assert(b@.blocklist_ip.contains(i) <==> b.blocklist_ip@.contains(i));
    }
    assert forall|u: Seq<char>| #[trigger]
        a.blocklist_ua@.contains_key(u) <==> b.blocklist_ua@.contains_key(u) by {
        assert(a@.blocklist_ua.contains(u) <==> b@.blocklist_ua.contains(u));
    }
}

/// A database gives back the contents that it was made of, and a snapshot holds the same.
pub proof fn contents_come_back(
    data: DatabaseData,
    db: Database,
    copy: DatabaseData,
    back: DatabaseData,
)
    requires
        call_ensures(Database::from_data, (data,), db),
        call_ensures(Database::snapshot, (&db,), copy),
        call_ensures(Database::into_data, (db,), back),
    ensures
        same_contents(data, copy),
        same_contents(data, back),
{
    equal_views_hold_the_same(data, copy);
    equal_views_hold_the_same(data, back);
}

/// A copy of what is known of a file is the same in all respects.
pub proof fn copies_are_the_same(meta: MetaFile, copy: MetaFile)
    requires
        call_ensures(MetaFile::clone, (&meta,), copy),
    ensures
        same_meta(meta, copy),
{
}

} // verus!
