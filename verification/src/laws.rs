//! What holds of the library as a whole.

use crate::address::SocketAddress;
use crate::database::{countable, counted, uncounted, DatabaseView, MetaFileView};
use crate::encoding::{base64_is_shaped, base64_text, is_base64_char};
use crate::expire::{decay_ends, decayed, CubicDecayView};
use crate::filesystem::{after_get, found, meta_at, new_uri, removable, removal_outcome, removed};
use crate::filesystem::{restricted_at, save_outcome, stored, DeletionError, RemovalStep};
use crate::filesystem::{ErrorKind, IoErrorView, SaveError, SaveStep};
use crate::form::{after_bytes, after_field, after_text};
use crate::outside::{form_byte, form_encoded, hex_digit, xxh3_128_of};
use crate::post::{chosen_date, BuilderView, PostDataView};
use crate::reply::RejectionView;
use crate::server::blocked;
use crate::text::{decimal, numbered};
use vstd::prelude::*;
use vstd::utf8::encode_utf8;

verus! {

/// The addresses of the files that share the data of this hash.
pub open spec fn sharers(urls: Map<Seq<char>, MetaFileView>, hash: u128) -> Set<Seq<char>> {
    urls.dom().filter(|k: Seq<char>| urls[k].hash == hash)
}

/// The counts are exact: each hash is counted as often as files share its data, and
/// no hash is counted that no file has.
pub open spec fn counts_exact(db: DatabaseView) -> bool {
    forall|h: u128|
        {
            let n = (#[trigger] sharers(db.url_file_map, h)).len();
            &&& db.hashes_on_fs.contains_key(h) <==> n > 0
            &&& n > 0 ==> db.hashes_on_fs[h] == n
        }
}

/// The counts cover the files: each file's hash is counted at least as often as
/// files share its data.
pub open spec fn counts_cover(db: DatabaseView) -> bool {
    forall|h: u128|
        {
            let n = (#[trigger] sharers(db.url_file_map, h)).len();
            n > 0 ==> db.hashes_on_fs.contains_key(h) && db.hashes_on_fs[h] >= n
        }
}

proof fn sharers_after_insert(
    urls: Map<Seq<char>, MetaFileView>,
    uri: Seq<char>,
    meta: MetaFileView,
    h: u128,
)
    requires
        urls.dom().finite(),
        !urls.contains_key(uri),
    ensures
        sharers(urls, h).finite(),
        sharers(urls.insert(uri, meta), h).len() == sharers(urls, h).len() + (if meta.hash == h {
            1int
        } else {
            0
        }),
{
    let before = sharers(urls, h);
    let after = sharers(urls.insert(uri, meta), h);
    assert(before.subset_of(urls.dom()));
    vstd::set_lib::lemma_set_subset_finite(urls.dom(), before);
    if meta.hash == h {
        assert(after =~= before.insert(uri));
    } else {
        assert(after =~= before);
    }
}

proof fn sharers_after_remove(urls: Map<Seq<char>, MetaFileView>, path: Seq<char>, h: u128)
    requires
        urls.dom().finite(),
        urls.contains_key(path),
    ensures
        sharers(urls.remove(path), h).len() == sharers(urls, h).len() - (if urls[path].hash == h {
            1int
        } else {
            0
        }),
{
    let rest = urls.remove(path);
    sharers_after_insert(rest, path, urls[path], h);
    assert(rest.insert(path, urls[path]) =~= urls);
}

/// The address under which a file has been stored, if it has been.
pub open spec fn stored_at(step: Result<SaveStep, SaveError>) -> Option<Seq<char>> {
    match step {
        Ok(SaveStep::Stored(uri)) => Some(uri@),
        Ok(SaveStep::Write(uri, _, _)) => Some(uri@),
        _ => None,
    }
}

/// In an empty database the counts are exact.
pub proof fn empty_counts_are_exact()
    ensures
        counts_exact(crate::database::empty_database()),
{
    let urls = crate::database::empty_database().url_file_map;
    assert forall|h: u128| (#[trigger] sharers(urls, h)).len() == 0 by {
        assert(sharers(urls, h) =~= Set::empty());
    }
}

/// Exact counts cover the files.
pub proof fn exact_counts_cover(db: DatabaseView)
    requires
        counts_exact(db),
    ensures
        counts_cover(db),
{
}

/// Saving a file keeps the counts exact.
pub proof fn saving_keeps_counts_exact(
    before: DatabaseView,
    p: PostDataView,
    after: DatabaseView,
    step: Result<SaveStep, SaveError>,
)
    requires
        before.url_file_map.dom().finite(),
        counts_exact(before),
        countable(before.hashes_on_fs, p.file_hash),
        save_outcome(before, p, after, step),
    ensures
        counts_exact(after),
{
    if let Some(uri) = stored_at(step) {
        if after != before {
            assert forall|h: u128| {
                let n = (#[trigger] sharers(after.url_file_map, h)).len();
                &&& after.hashes_on_fs.contains_key(h) <==> n > 0
                &&& n > 0 ==> after.hashes_on_fs[h] == n
            } by {
                sharers_after_insert(before.url_file_map, uri, meta_at(p, uri), h);
                assert(sharers(before.url_file_map, h).len() >= 0);
            }
        }
    }
}

/// Saving a file keeps the files covered by the counts.
pub proof fn saving_keeps_counts_covering(
    before: DatabaseView,
    p: PostDataView,
    after: DatabaseView,
    step: Result<SaveStep, SaveError>,
)
    requires
        before.url_file_map.dom().finite(),
        counts_cover(before),
        countable(before.hashes_on_fs, p.file_hash),
        save_outcome(before, p, after, step),
    ensures
        counts_cover(after),
{
    if let Some(uri) = stored_at(step) {
        if after != before {
            assert forall|h: u128| {
                let n = (#[trigger] sharers(after.url_file_map, h)).len();
                n > 0 ==> after.hashes_on_fs.contains_key(h) && after.hashes_on_fs[h] >= n
            } by {
                sharers_after_insert(before.url_file_map, uri, meta_at(p, uri), h);
                assert(sharers(before.url_file_map, h).len() >= 0);
            }
        }
    }
}

/// Removing a file keeps the counts exact.
pub proof fn removing_keeps_counts_exact(db: DatabaseView, path: Seq<char>)
    requires
        db.url_file_map.dom().finite(),
        counts_exact(db),
        db.url_file_map.contains_key(path),
    ensures
        counts_exact(removed(db, path)),
{
    let after = removed(db, path);
    assert forall|h: u128| {
        let n = (#[trigger] sharers(after.url_file_map, h)).len();
        &&& after.hashes_on_fs.contains_key(h) <==> n > 0
        &&& n > 0 ==> after.hashes_on_fs[h] == n
    } by {
        sharers_after_remove(db.url_file_map, path, h);
        assert(sharers(db.url_file_map, h).len() >= 0);
    }
}

/// Removing a file keeps the other files covered by the counts.
pub proof fn removing_keeps_counts_covering(db: DatabaseView, path: Seq<char>)
    requires
        db.url_file_map.dom().finite(),
        counts_cover(db),
        db.url_file_map.contains_key(path),
    ensures
        counts_cover(removed(db, path)),
{
    let after = removed(db, path);
    assert forall|h: u128| {
        let n = (#[trigger] sharers(after.url_file_map, h)).len();
        n > 0 ==> after.hashes_on_fs.contains_key(h) && after.hashes_on_fs[h] >= n
    } by {
        sharers_after_remove(db.url_file_map, path, h);
        assert(sharers(db.url_file_map, h).len() >= 0);
    }
}

/// Neither step of a removal leaves the counts less exact, or the files less covered,
/// than they were.
pub proof fn removal_steps_keep_counts(
    before: DatabaseView,
    path: Seq<char>,
    token: Seq<u8>,
    after: DatabaseView,
    step: Result<RemovalStep, DeletionError>,
)
    requires
        before.url_file_map.dom().finite(),
        removal_outcome(before, path, token, after, step),
    ensures
        counts_cover(before) ==> counts_cover(after),
        counts_exact(before) ==> counts_exact(after),
        after == before || after == removed(before, path),
{
    if before.url_file_map.contains_key(path) {
        if counts_cover(before) {
            removing_keeps_counts_covering(before, path);
        }
        if counts_exact(before) {
            removing_keeps_counts_exact(before, path);
        }
    }
}

/// Asking for a file keeps the files covered by the counts, and the counts exact
/// unless an address with restricted data was given up: its data stays counted.
pub proof fn getting_keeps_counts(db: DatabaseView, path: Seq<char>)
    requires
        db.url_file_map.dom().finite(),
        counts_cover(db),
    ensures
        counts_cover(after_get(db, path)),
        counts_exact(db) && !restricted_at(db, path) ==> counts_exact(after_get(db, path)),
{
    if restricted_at(db, path) {
        let after = after_get(db, path);
        assert forall|h: u128| {
            let n = (#[trigger] sharers(after.url_file_map, h)).len();
            n > 0 ==> after.hashes_on_fs.contains_key(h) && after.hashes_on_fs[h] >= n
        } by {
            sharers_after_remove(db.url_file_map, path, h);
            assert(sharers(db.url_file_map, h).len() >= 0);
        }
    }
}

/// While the counts cover the files, every file can be removed: the counts know of
/// its data, whoever asks.
pub proof fn covered_files_are_removable(db: DatabaseView, path: Seq<char>, token: Seq<u8>)
    requires
        db.url_file_map.dom().finite(),
        counts_cover(db),
    ensures
        removable(db, path, token),
{
    if db.url_file_map.contains_key(path) {
        let hash = db.url_file_map[path].hash;
        sharers_after_remove(db.url_file_map, path, hash);
        assert(sharers(db.url_file_map.remove(path), hash).len() >= 0);
        assert(sharers(db.url_file_map, hash).len() > 0);
    }
}

/// While the counts cover the files, data is deleted only with the last file that
/// has it: no file at another address shares it.
pub proof fn shared_data_is_never_deleted(
    before: DatabaseView,
    path: Seq<char>,
    token: Seq<u8>,
    after: DatabaseView,
    step: Result<RemovalStep, DeletionError>,
    other: Seq<char>,
)
    requires
        before.url_file_map.dom().finite(),
        counts_cover(before),
        removal_outcome(before, path, token, after, step),
        step is Ok && step->Ok_0 is DeleteData,
        before.url_file_map.contains_key(other),
        other != path,
    ensures
        before.url_file_map[other].hash != step->Ok_0->DeleteData_0@,
{
    let urls = before.url_file_map;
    let hash = urls[path].hash;
    if urls[other].hash == hash {
        let rest = urls.remove(path);
        sharers_after_remove(urls, path, hash);
        sharers_after_remove(rest, other, hash);
        assert(sharers(rest.remove(other), hash).len() >= 0);
        assert(sharers(urls, hash).len() >= 2);
    }
}

/// While the counts are exact, the data of a file is written if and only if no other
/// file has brought it already.
pub proof fn data_is_written_once(
    before: DatabaseView,
    p: PostDataView,
    after: DatabaseView,
    step: Result<SaveStep, SaveError>,
)
    requires
        counts_exact(before),
        save_outcome(before, p, after, step),
        stored_at(step) is Some,
    ensures
        step->Ok_0 is Write <==> sharers(before.url_file_map, p.file_hash).len() == 0,
{
    assert(sharers(before.url_file_map, p.file_hash).len() >= 0);
}

/// A file that has been saved is found at its address, with all that was said of it.
pub proof fn saved_files_are_found(
    before: DatabaseView,
    p: PostDataView,
    after: DatabaseView,
    step: Result<SaveStep, SaveError>,
)
    requires
        save_outcome(before, p, after, step),
        stored_at(step) is Some,
    ensures
        found(after, stored_at(step)->0) == Ok::<MetaFileView, IoErrorView>(
            meta_at(p, stored_at(step)->0),
        ),
{
}

/// Saving a file never changes what is found at the address of another.
pub proof fn saving_disturbs_no_other_file(
    before: DatabaseView,
    p: PostDataView,
    after: DatabaseView,
    step: Result<SaveStep, SaveError>,
    path: Seq<char>,
)
    requires
        save_outcome(before, p, after, step),
        before.url_file_map.contains_key(path) || stored_at(step) != Some(path),
    ensures
        found(after, path) == found(before, path),
{
}

/// Removing a file leaves its address empty and disturbs no other file.
pub proof fn removing_disturbs_no_other_file(db: DatabaseView, path: Seq<char>, other: Seq<char>)
    ensures
        !removed(db, path).url_file_map.contains_key(path),
        other != path ==> found(removed(db, path), other) == found(db, other),
{
}

/// Whether the disk holds what the database counts: for every hash some data that has
/// this hash.
pub open spec fn disk_matches(db: DatabaseView, disk: Map<u128, Seq<u8>>) -> bool {
    forall|h: u128| #[trigger]
        db.hashes_on_fs.contains_key(h) ==> disk.contains_key(h) && xxh3_128_of(disk[h]) == h
}

/// The data on disk once a save has been carried out.
pub open spec fn disk_after_save(
    disk: Map<u128, Seq<u8>>,
    step: Result<SaveStep, SaveError>,
) -> Map<u128, Seq<u8>> {
    match step {
        Ok(SaveStep::Write(_, hash, bytes)) => disk.insert(hash@, bytes@),
        _ => disk,
    }
}

/// The data on disk once a removal has been carried out.
pub open spec fn disk_after_removal(
    disk: Map<u128, Seq<u8>>,
    step: Result<RemovalStep, DeletionError>,
) -> Map<u128, Seq<u8>> {
    match step {
        Ok(RemovalStep::DeleteData(hash)) => disk.remove(hash@),
        _ => disk,
    }
}

/// The database once a removal has been carried out: where the data was to be deleted
/// first, the file goes after it.
pub open spec fn database_after_removal(
    after: DatabaseView,
    path: Seq<char>,
    step: Result<RemovalStep, DeletionError>,
) -> DatabaseView {
    match step {
        Ok(RemovalStep::DeleteData(_)) => removed(after, path),
        _ => after,
    }
}

/// The data of a saved file is what the client uploaded, and the disk still holds what
/// the database counts. This needs the hash to tell the data from what is on disk
/// already.
pub proof fn saved_data_is_read_back(
    before: DatabaseView,
    disk: Map<u128, Seq<u8>>,
    p: PostDataView,
    after: DatabaseView,
    step: Result<SaveStep, SaveError>,
)
    requires
        disk_matches(before, disk),
        p.file_hash == xxh3_128_of(p.file_data),
        save_outcome(before, p, after, step),
        stored_at(step) is Some,
        disk.contains_key(p.file_hash) && xxh3_128_of(disk[p.file_hash]) == p.file_hash
            ==> disk[p.file_hash] == p.file_data,
    ensures
        found(after, stored_at(step)->0) is Ok,
        ({
            let hash = found(after, stored_at(step)->0)->Ok_0.hash;
            let written = disk_after_save(disk, step);
            written.contains_key(hash) && written[hash] == p.file_data
        }),
        disk_matches(after, disk_after_save(disk, step)),
{
}

/// Saving a file, or failing to, leaves the data of all other files as it is.
pub proof fn saving_keeps_data(
    before: DatabaseView,
    disk: Map<u128, Seq<u8>>,
    p: PostDataView,
    after: DatabaseView,
    step: Result<SaveStep, SaveError>,
    hash: u128,
)
    requires
        disk_matches(before, disk),
        p.file_hash == xxh3_128_of(p.file_data),
        save_outcome(before, p, after, step),
        before.hashes_on_fs.contains_key(hash),
    ensures
        disk_matches(after, disk_after_save(disk, step)),
        disk_after_save(disk, step).contains_key(hash),
        disk_after_save(disk, step)[hash] == disk[hash],
{
}

/// While the counts cover the files, removing a file leaves the data of every file that
/// remains as it is.
pub proof fn removing_keeps_data(
    before: DatabaseView,
    disk: Map<u128, Seq<u8>>,
    path: Seq<char>,
    token: Seq<u8>,
    after: DatabaseView,
    step: Result<RemovalStep, DeletionError>,
    other: Seq<char>,
)
    requires
        before.url_file_map.dom().finite(),
        counts_cover(before),
        disk_matches(before, disk),
        removal_outcome(before, path, token, after, step),
        database_after_removal(after, path, step).url_file_map.contains_key(other),
    ensures
        disk_matches(database_after_removal(after, path, step), disk_after_removal(disk, step)),
        ({
            let hash = before.url_file_map[other].hash;
            let kept = disk_after_removal(disk, step);
            kept.contains_key(hash) && kept[hash] == disk[hash]
        }),
{
    let urls = before.url_file_map;
    let hash = urls[other].hash;
    sharers_after_remove(urls, other, hash);
    assert(sharers(urls.remove(other), hash).len() >= 0);
    assert(sharers(urls, hash).len() > 0);
    assert(before.hashes_on_fs.contains_key(hash));
    if step is Ok && step->Ok_0 is DeleteData {
        shared_data_is_never_deleted(before, path, token, after, step, other);
    }
}

/// Removing what has just been saved brings back the database as it was, provided that
/// it held no count of nothing for the data.
pub proof fn removing_undoes_saving(
    before: DatabaseView,
    p: PostDataView,
    after: DatabaseView,
    step: Result<SaveStep, SaveError>,
)
    requires
        save_outcome(before, p, after, step),
        countable(before.hashes_on_fs, p.file_hash),
        before.hashes_on_fs.contains_key(p.file_hash) ==> before.hashes_on_fs[p.file_hash] >= 1,
        stored_at(step) is Some,
    ensures
        removed(after, stored_at(step)->0) == before,
{
    let uri = stored_at(step)->0;
    assert(removed(after, uri).url_file_map =~= before.url_file_map);
    assert(removed(after, uri).hashes_on_fs =~= before.hashes_on_fs);
}

/// Only the holder of its token removes a file: under any other token the database
/// stays as it is.
pub proof fn only_the_token_removes(
    before: DatabaseView,
    path: Seq<char>,
    token: Seq<u8>,
    after: DatabaseView,
    step: Result<RemovalStep, DeletionError>,
)
    requires
        removal_outcome(before, path, token, after, step),
        before.url_file_map.contains_key(path),
        before.url_file_map[path].access_token != token,
    ensures
        after == before,
        step is Err,
{
}

/// Restricted data is not handed out: the first to ask for the file is told so, and
/// the address is empty from then on.
pub proof fn restricted_files_vanish(db: DatabaseView, path: Seq<char>)
    requires
        restricted_at(db, path),
    ensures
        found(db, path) is Err,
        found(db, path)->Err_0.kind == ErrorKind::ConnectionRefused,
        found(after_get(db, path), path) is Err,
        found(after_get(db, path), path)->Err_0.kind == ErrorKind::NotFound,
{
}

/// Asking for a file a second time changes nothing more.
pub proof fn getting_twice_is_getting_once(db: DatabaseView, path: Seq<char>)
    ensures
        after_get(after_get(db, path), path) == after_get(db, path),
{
}

/// Who has been blocked is turned away, whatever program they use, and so is who uses
/// a blocked program, wherever they come from.
pub proof fn blocked_clients_stay_out(
    db: DatabaseView,
    addr: SocketAddress,
    user_agent: Seq<char>,
    other_addr: SocketAddress,
    other_user_agent: Seq<char>,
)
    ensures
        blocked(
            DatabaseView { blocklist_ip: db.blocklist_ip.insert(addr), ..db },
            other_user_agent,
            addr,
        ),
        blocked(
            DatabaseView { blocklist_ua: db.blocklist_ua.insert(user_agent), ..db },
            user_agent,
            other_addr,
        ),
{
}

/// Counting a file and discounting it again leaves the counts as they were, provided
/// that they held no count of nothing for its data.
pub proof fn discounting_undoes_counting(hashes: Map<u128, usize>, hash: u128)
    requires
        countable(hashes, hash),
        hashes.contains_key(hash) ==> hashes[hash] >= 1,
    ensures
        uncounted(counted(hashes, hash), hash) == hashes,
{
    assert(uncounted(counted(hashes, hash), hash) =~= hashes);
}

/// Whether `scale` falls from the whole of the difference, with its sign turned, to
/// nothing as files grow from nothing to `max_size`.
pub open spec fn falls_with_size<S: Fn(i128, usize, usize, i32) -> i128>(
    scale: S,
    difference: int,
    max_size: usize,
    power: i32,
) -> bool {
    let d = difference as i128;
    &&& forall|a: usize, b: usize, x: i128, y: i128|
        a <= b <= max_size && #[trigger] call_ensures(scale, (d, a, max_size, power), x)
            && #[trigger] call_ensures(scale, (d, b, max_size, power), y) ==> y <= x
    &&& forall|a: usize, x: i128|
        a <= max_size && #[trigger] call_ensures(scale, (d, a, max_size, power), x) ==> {
            &&& 0 <= x <= -difference
            &&& a == 0 ==> x == -difference
            &&& a == max_size && max_size > 0 ==> x == 0
        }
}

/// Of two files that are not too large, the larger one expires no later. Both expire
/// between the two ages after their creation: an empty file at the longest age, one of
/// the largest size at the shortest.
pub proof fn larger_files_expire_no_later<S: Fn(i128, usize, usize, i32) -> i128>(
    decay: CubicDecayView,
    start: int,
    smaller: usize,
    larger: usize,
    max_size: usize,
    scale: S,
    end_of_smaller: int,
    end_of_larger: int,
)
    requires
        smaller <= larger <= max_size,
        decayed(decay, start, smaller, max_size, scale, Some(end_of_smaller)),
        decayed(decay, start, larger, max_size, scale, Some(end_of_larger)),
        ({
            let (earliest, latest) = decay_ends(decay, start)->0;
            falls_with_size(scale, earliest - latest, max_size, decay.power)
        }),
    ensures
        decay_ends(decay, start) is Some,
        ({
            let (earliest, latest) = decay_ends(decay, start)->0;
            &&& earliest <= end_of_larger <= end_of_smaller <= latest
            &&& smaller == 0 ==> end_of_smaller == latest
            &&& larger == max_size && max_size > 0 ==> end_of_larger == earliest
        }),
{
    let (earliest, latest) = decay_ends(decay, start)->0;
    let d = (earliest - latest) as i128;
    let x = choose|x: i128| #[trigger]
        call_ensures(scale, (d, smaller, max_size, decay.power), x) && end_of_smaller == earliest
            + x;
    let y = choose|y: i128| #[trigger]
        call_ensures(scale, (d, larger, max_size, decay.power), y) && end_of_larger == earliest + y;
    assert(call_ensures(scale, (d, smaller, max_size, decay.power), x));
    assert(call_ensures(scale, (d, larger, max_size, decay.power), y));
}

/// No wish of a client puts off the date that the server has set, if that does not lie
/// before the creation. Without a wish it is that date.
pub proof fn no_wish_extends_the_date(created: int, server: int, client: Option<Option<int>>)
    requires
        created <= server,
    ensures
        chosen_date(created, Some(server), client) is Some ==> chosen_date(
            created,
            Some(server),
            client,
        )->0 <= server,
        chosen_date(created, Some(server), None) == Some(server),
{
}

/// An upload that is to be secret stays so, whatever fields follow.
pub proof fn secrecy_is_kept(
    b: BuilderView,
    name: Option<Seq<char>>,
    file_name: Option<Seq<char>>,
    content_type: Option<Seq<char>>,
    data: Option<Seq<u8>>,
    text: Result<Seq<char>, RejectionView>,
)
    requires
        b.secret == Some(true),
    ensures
        after_field(b, name, file_name, content_type).0.secret == Some(true),
        after_bytes(b, data).0.secret == Some(true),
        after_text(b, text).0.secret == Some(true),
{
}

/// Whether `c` may stand in the path of a URL, and in a header, as it is.
pub open spec fn is_path_char(c: char) -> bool {
    ||| 'A' <= c <= 'Z'
    ||| 'a' <= c <= 'z'
    ||| '0' <= c <= '9'
    ||| c == '-' || c == '_' || c == '.' || c == '*' || c == '+' || c == '%' || c == '='
}

/// Whether all characters of `s` may stand in the path of a URL.
pub open spec fn is_path(s: Seq<char>) -> bool {
    forall|i: int| 0 <= i < s.len() ==> is_path_char(#[trigger] s[i])
}

proof fn form_encoding_is_a_path(bytes: Seq<u8>)
    ensures
        is_path(form_encoded(bytes)),
        form_encoded(bytes).len() >= bytes.len(),
    decreases bytes.len(),
{
    if bytes.len() > 0 {
        form_encoding_is_a_path(bytes.drop_last());
        let b = bytes.last();
        assert(is_path(form_byte(b))) by {
            assert(is_path_char(hex_digit(b as int / 16)));
            assert(is_path_char(hex_digit(b as int % 16)));
        }
    }
}

proof fn decimals_are_a_path(n: nat)
    ensures
        is_path(decimal(n)),
    decreases n,
{
    if n >= 10 {
        decimals_are_a_path(n / 10);
    }
}

/// The address of a new file consists of characters that need no escaping in a URL or
/// in a header.
pub proof fn new_addresses_are_paths(db: DatabaseView, p: PostDataView, uri: Seq<char>)
    requires
        new_uri(db, p, uri),
    ensures
        is_path(uri),
{
    if p.secret {
        assert forall|i: int| 0 <= i < uri.len() implies is_path_char(#[trigger] uri[i]) by {
            assert(is_base64_char(uri[i]));
        }
    } else {
        let base = form_encoded(encode_utf8(p.file_name));
        form_encoding_is_a_path(encode_utf8(p.file_name));
        if uri != base {
            let n = choose|n: nat| uri == #[trigger] numbered(base, n);
            decimals_are_a_path(n);
        }
    }
}

/// The data of a file never lies where the database does: no base64 has a full stop.
pub proof fn data_is_apart_from_the_database(hash: Seq<u8>)
    ensures
        base64_text(hash) != ".database.bson"@,
{
    reveal_strlit(".database.bson");
    base64_is_shaped(hash);
    if base64_text(hash) == ".database.bson"@ {
        assert(!is_base64_char(base64_text(hash)[0]));
    }
}

} // verus!
