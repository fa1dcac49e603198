//! What holds through any history of the server.

use crate::database::{countable, DatabaseView, MetaFileView};
use crate::filesystem::{after_get, found, meta_at, removable, removal_outcome, removed};
use crate::filesystem::{save_outcome, DeletionError, IoErrorView, RemovalStep, SaveError, SaveStep};
use crate::laws::{counts_cover, covered_files_are_removable, disk_after_removal, disk_after_save};
use crate::laws::{disk_matches, getting_keeps_counts, removing_keeps_counts_covering};
use crate::laws::{saved_data_is_read_back, saving_keeps_counts_covering};
use crate::laws::{shared_data_is_never_deleted, sharers, stored_at};
use crate::outside::xxh3_128_of;
use crate::post::PostDataView;
use vstd::prelude::*;

verus! {

/// The database and the data on disk, by hash, at one moment.
pub struct Moment {
    pub db: DatabaseView,
    pub disk: Map<u128, Seq<u8>>,
}

/// What happens between two moments.
pub enum Event {
    /// A file is saved, and its data is written if it has to be. Writing may fail.
    Save { post: PostDataView, save: Result<SaveStep, SaveError>, written: bool },
    /// A file is removed, and its data is deleted if it has to be. Deleting may fail.
    Remove {
        path: Seq<char>,
        token: Seq<u8>,
        removal: Result<RemovalStep, DeletionError>,
        deleted: bool,
    },
    /// A file is asked for.
    Get { wanted: Seq<char> },
    /// A client or a program is blocked.
    Block,
}

/// Whether the data is the same but for that of one hash.
pub open spec fn same_elsewhere(
    before: Map<u128, Seq<u8>>,
    after: Map<u128, Seq<u8>>,
    hash: u128,
) -> bool {
    before.remove(hash) == after.remove(hash)
}

/// Whether `b` may follow `a` when this happens.
pub open spec fn follows(a: Moment, event: Event, b: Moment) -> bool {
    match event {
        Event::Save { post, save, written } => {
            &&& countable(a.db.hashes_on_fs, post.file_hash)
            &&& save_outcome(a.db, post, b.db, save)
            &&& if written {
                b.disk == disk_after_save(a.disk, save)
            } else {
                match save {
                    Ok(SaveStep::Write(_, hash, _)) => same_elsewhere(a.disk, b.disk, hash@),
                    _ => b.disk == a.disk,
                }
            }
        },
        Event::Remove { path, token, removal, deleted } => match removal {
            Ok(RemovalStep::DeleteData(_)) => {
                &&& removal_outcome(a.db, path, token, a.db, removal)
                &&& b == if deleted {
                    Moment {
                        db: removed(a.db, path),
                        disk: disk_after_removal(a.disk, removal),
                    }
                } else {
                    a
                }
            },
            _ => removal_outcome(a.db, path, token, b.db, removal) && b.disk == a.disk,
        },
        Event::Get { wanted } => b.db == after_get(a.db, wanted) && b.disk == a.disk,
        Event::Block => {
            &&& b.db.hashes_on_fs == a.db.hashes_on_fs
            &&& b.db.url_file_map == a.db.url_file_map
            &&& b.db.hash_file_map == a.db.hash_file_map
            &&& b.disk == a.disk
        },
    }
}

/// Whether the events lead from each moment to the next.
pub open spec fn is_history(moments: Seq<Moment>, events: Seq<Event>) -> bool {
    &&& moments.len() == events.len() + 1
    &&& forall|i: int|
        0 <= i < events.len() ==> follows(moments[i], #[trigger] events[i], moments[i + 1])
}

/// Whether the database is in order: it has finitely many files, and the counts cover
/// them.
pub open spec fn in_order(db: DatabaseView) -> bool {
    db.url_file_map.dom().finite() && counts_cover(db)
}

/// Whether the file at this address is found as this, with this data.
pub open spec fn readable(m: Moment, uri: Seq<char>, meta: MetaFileView, data: Seq<u8>) -> bool {
    &&& found(m.db, uri) == Ok::<MetaFileView, IoErrorView>(meta)
    &&& m.disk.contains_key(meta.hash)
    &&& m.disk[meta.hash] == data
}

/// Whether the file at this address is removed by the holder of this token.
pub open spec fn removes(event: Event, uri: Seq<char>, holder: Seq<u8>) -> bool {
    match event {
        Event::Remove { path, token, .. } => path == uri && token == holder,
        _ => false,
    }
}

proof fn step_keeps_order(a: Moment, event: Event, b: Moment)
    requires
        in_order(a.db),
        follows(a, event, b),
    ensures
        in_order(b.db),
{
    match event {
        Event::Save { post, save, written } => {
            saving_keeps_counts_covering(a.db, post, b.db, save);
        },
        Event::Remove { path, token, removal, deleted } => {
            if a.db.url_file_map.contains_key(path) {
                removing_keeps_counts_covering(a.db, path);
            }
        },
        Event::Get { wanted } => {
            getting_keeps_counts(a.db, wanted);
        },
        Event::Block => {
            assert(forall|h: u128|
                #[trigger] sharers(b.db.url_file_map, h) == sharers(a.db.url_file_map, h));
        },
    }
}

proof fn step_keeps_file(
    a: Moment,
    event: Event,
    b: Moment,
    uri: Seq<char>,
    meta: MetaFileView,
    data: Seq<u8>,
)
    requires
        in_order(a.db),
        follows(a, event, b),
        readable(a, uri, meta, data),
        !removes(event, uri, meta.access_token),
    ensures
        readable(b, uri, meta, data),
{
    covered_files_are_removable(a.db, uri, meta.access_token);
    assert(a.db.hashes_on_fs.contains_key(meta.hash));
    match event {
        Event::Save { post, save, written } => {
            if let Ok(SaveStep::Write(_, hash, _)) = save {
                assert(a.disk.remove(hash@)[meta.hash] == a.disk[meta.hash]);
                assert(b.disk.remove(hash@).contains_key(meta.hash));
                assert(b.disk.remove(hash@)[meta.hash] == b.disk[meta.hash]);
            }
        },
        Event::Remove { path, token, removal, deleted } => {
            if removal is Ok && removal->Ok_0 is DeleteData && path != uri {
                shared_data_is_never_deleted(a.db, path, token, a.db, removal, uri);
            }
        },
        _ => {},
    }
}

/// A database that is in order stays so through any history, and every file in it can
/// be removed.
pub proof fn order_is_kept(
    moments: Seq<Moment>,
    events: Seq<Event>,
    n: int,
    path: Seq<char>,
    token: Seq<u8>,
)
    requires
        is_history(moments, events),
        in_order(moments[0].db),
        0 <= n < moments.len(),
    ensures
        in_order(moments[n].db),
        removable(moments[n].db, path, token),
    decreases n,
{
    if n > 0 {
        order_is_kept(moments, events, n - 1, path, token);
        assert(follows(moments[n - 1], events[n - 1], moments[n - 1 + 1]));
        step_keeps_order(moments[n - 1], events[n - 1], moments[n]);
    }
    covered_files_are_removable(moments[n].db, path, token);
}

/// A file stays readable, with its own data, through any history in which the holder of
/// its token does not remove it.
pub proof fn files_stay_readable(
    moments: Seq<Moment>,
    events: Seq<Event>,
    n: int,
    uri: Seq<char>,
    meta: MetaFileView,
    data: Seq<u8>,
)
    requires
        is_history(moments, events),
        in_order(moments[0].db),
        readable(moments[0], uri, meta, data),
        forall|i: int|
            0 <= i < events.len() ==> !removes(#[trigger] events[i], uri, meta.access_token),
        0 <= n < moments.len(),
    ensures
        readable(moments[n], uri, meta, data),
    decreases n,
{
    if n > 0 {
        files_stay_readable(moments, events, n - 1, uri, meta, data);
        order_is_kept(moments, events, n - 1, uri, meta.access_token);
        assert(follows(moments[n - 1], events[n - 1], moments[n - 1 + 1]));
        assert(!removes(events[n - 1], uri, meta.access_token));
        step_keeps_file(moments[n - 1], events[n - 1], moments[n], uri, meta, data);
    }
}

/// What a client has uploaded is read back from its address, with all that was said of
/// it, through any history in which the holder of its token does not remove it. This
/// needs the hash to tell the data from what was on disk before.
pub proof fn uploads_are_read_back(
    moments: Seq<Moment>,
    events: Seq<Event>,
    n: int,
    post: PostDataView,
    save: Result<SaveStep, SaveError>,
)
    requires
        is_history(moments, events),
        in_order(moments[0].db),
        disk_matches(moments[0].db, moments[0].disk),
        post.file_hash == xxh3_128_of(post.file_data),
        ({
            let disk = moments[0].disk;
            let hash = post.file_hash;
            disk.contains_key(hash) && xxh3_128_of(disk[hash]) == hash ==> disk[hash]
                == post.file_data
        }),
        events.len() > 0,
        events[0] == (Event::Save { post, save, written: true }),
        stored_at(save) is Some,
        forall|i: int|
            0 < i < events.len() ==> !removes(
                #[trigger] events[i],
                stored_at(save)->0,
                post.access_token,
            ),
        0 < n < moments.len(),
    ensures
        readable(
            moments[n],
            stored_at(save)->0,
            meta_at(post, stored_at(save)->0),
            post.file_data,
        ),
{
    let uri = stored_at(save)->0;
    let meta = meta_at(post, uri);
    assert(follows(moments[0], events[0], moments[1]));
    saved_data_is_read_back(moments[0].db, moments[0].disk, post, moments[1].db, save);
    step_keeps_order(moments[0], events[0], moments[1]);
    let later = moments.skip(1);
    let rest = events.skip(1);
    assert(is_history(later, rest)) by {
        assert forall|i: int| 0 <= i < rest.len() implies follows(
            later[i],
            #[trigger] rest[i],
            later[i + 1],
        ) by {
            assert(follows(moments[i + 1], events[i + 1], moments[i + 1 + 1]));
        }
    }
    assert forall|i: int| 0 <= i < rest.len() implies !removes(
        #[trigger] rest[i],
        uri,
        meta.access_token,
    ) by {
        assert(!removes(events[i + 1], uri, post.access_token));
    }
    files_stay_readable(later, rest, n - 1, uri, meta, post.file_data);
}

} // verus!
