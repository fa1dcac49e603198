//! The files: storing, finding and removing them.
//!
//! The data of a file lies on disk under the text of its hash, once for all files
//! that share it. The functions here decide; reading, writing and deleting data is
//! up to the caller, who is told what to do and reports how it went.

use crate::database::{counted, countable, meta_of, uncounted};
use crate::database::{Database, DatabaseView, MetaFile, MetaFileView};
use crate::encoding::{base64_is_injective, base64_text, is_base64_shaped};
use crate::outside::{form_encode, form_encoded};
use crate::post::{PostData, PostDataView};
use crate::text::{first_free, make_unique};
use crate::token::{decoded_exactly, is_numbered_token, numbered_token_is_unique};
use crate::token::{UserToken, XXH3_128Hash};
use vstd::prelude::*;
use vstd::utf8::encode_utf8;

verus! {

/// The kinds of errors that are told apart.
#[derive(Debug, Clone, Copy, PartialEq, Eq, Structural)]
pub enum ErrorKind {
    ConnectionRefused,
    NotFound,
    PermissionDenied,
    Other,
}

/// An error in reading, writing or deleting data.
#[derive(Debug)]
pub struct IoError {
    pub kind: ErrorKind,
    pub message: String,
}

/// The values in an [`IoError`].
pub struct IoErrorView {
    pub kind: ErrorKind,
    pub message: Seq<char>,
}

impl View for IoError {
    type V = IoErrorView;

    open spec fn view(&self) -> IoErrorView {
        IoErrorView { kind: self.kind, message: self.message@ }
    }
}

/// Why a file is not stored.
#[derive(Debug)]
pub enum SaveError {
    FileRestricted,
    FileSystemError(IoError),
}

/// The values in a [`SaveError`].
pub enum SaveErrorView {
    FileRestricted,
    FileSystemError(IoErrorView),
}

impl View for SaveError {
    type V = SaveErrorView;

    open spec fn view(&self) -> SaveErrorView {
        match *self {
            SaveError::FileRestricted => SaveErrorView::FileRestricted,
            SaveError::FileSystemError(e) => SaveErrorView::FileSystemError(e@),
        }
    }
}

/// Why a file is not removed.
#[derive(Debug)]
pub enum DeletionError {
    Forbidden,
    FileNotFound,
    FilesystemError(IoError),
}

/// The values in a [`DeletionError`].
pub enum DeletionErrorView {
    Forbidden,
    FileNotFound,
    FilesystemError(IoErrorView),
}

impl View for DeletionError {
    type V = DeletionErrorView;

    open spec fn view(&self) -> DeletionErrorView {
        match *self {
            DeletionError::Forbidden => DeletionErrorView::Forbidden,
            DeletionError::FileNotFound => DeletionErrorView::FileNotFound,
            DeletionError::FilesystemError(e) => DeletionErrorView::FilesystemError(e@),
        }
    }
}

/// What remains to be done to store a file.
#[derive(Debug)]
pub enum SaveStep {
    /// Nothing: the file is at this address, and its data is on disk already.
    Stored(String),
    /// The file is at this address. Write its data to a new file under the text of
    /// the hash, and report to `finish_save`.
    Write(String, XXH3_128Hash, Vec<u8>),
}

/// What remains to be done to remove a file.
#[derive(Debug)]
pub enum RemovalStep {
    /// Nothing: the file is gone. Other files still share its data.
    Removed,
    /// No other file shares its data: delete the data of this hash, and report to
    /// `finish_removal`.
    DeleteData(XXH3_128Hash),
}

/// What is known of a file at its address.
pub open spec fn meta_at(p: PostDataView, uri: Seq<char>) -> MetaFileView {
    MetaFileView { uri_path: uri, ..meta_of(p) }
}

/// The database after a file has been stored at an address.
pub open spec fn stored(db: DatabaseView, uri: Seq<char>, p: PostDataView) -> DatabaseView {
    DatabaseView {
        url_file_map: db.url_file_map.insert(uri, meta_at(p, uri)),
        hashes_on_fs: counted(db.hashes_on_fs, p.file_hash),
        ..db
    }
}

/// The database after the file at an address has been removed.
pub open spec fn removed(db: DatabaseView, path: Seq<char>) -> DatabaseView {
    DatabaseView {
        url_file_map: db.url_file_map.remove(path),
        hashes_on_fs: uncounted(db.hashes_on_fs, db.url_file_map[path].hash),
        ..db
    }
}

/// What a look at an address finds.
pub open spec fn found(db: DatabaseView, path: Seq<char>) -> Result<MetaFileView, IoErrorView> {
    if !db.url_file_map.contains_key(path) {
        Err(IoErrorView { kind: ErrorKind::NotFound, message: "File not found: "@ + path })
    } else if db.hash_file_map.contains_key(db.url_file_map[path].hash) {
        Err(
            IoErrorView {
                kind: ErrorKind::ConnectionRefused,
                message: "File has been restricted."@,
            },
        )
    } else {
        Ok(db.url_file_map[path])
    }
}

/// Whether the file at an address is one whose data is restricted.
pub open spec fn restricted_at(db: DatabaseView, path: Seq<char>) -> bool {
    db.url_file_map.contains_key(path) && db.hash_file_map.contains_key(db.url_file_map[path].hash)
}

/// The database after the file at an address has been asked for: an address with
/// restricted data is given up.
pub open spec fn after_get(db: DatabaseView, path: Seq<char>) -> DatabaseView {
    if restricted_at(db, path) {
        DatabaseView { url_file_map: db.url_file_map.remove(path), ..db }
    } else {
        db
    }
}

/// The values in a find.
pub open spec fn find_in(find: Result<MetaFile, IoError>) -> Result<MetaFileView, IoErrorView> {
    match find {
        Ok(m) => Ok(m@),
        Err(e) => Err(e@),
    }
}

/// Whether `text` is the text of a token, which `UserToken::from_str` reads.
pub open spec fn is_token_text(text: Seq<char>) -> bool {
    is_base64_shaped(text) && text.len() == 44 && decoded_exactly(text, 32) is Ok
}

/// Whether `uri` is the text of a token with a number, the first that is not taken.
pub open spec fn first_free_number(
    token: Seq<u8>,
    taken: Set<Seq<char>>,
    uri: Seq<char>,
) -> bool {
    exists|n: nat, bytes: Seq<u8>|
        {
            &&& #[trigger] is_numbered_token(token, n, bytes)
            &&& uri == base64_text(bytes)
            &&& !taken.contains(uri)
            &&& forall|m: nat, b: Seq<u8>|
                m < n && #[trigger] is_numbered_token(token, m, b) ==> taken.contains(
                    base64_text(b),
                )
        }
}

/// If the texts of a token are taken under so many numbers, at least so many texts are.
proof fn taken_numbers_bound(token: Seq<u8>, taken: Set<Seq<char>>, tried: Seq<Seq<u8>>)
    requires
        taken.finite(),
        forall|m: int|
            0 <= m < tried.len() ==> is_numbered_token(token, m as nat, #[trigger] tried[m])
                && taken.contains(base64_text(tried[m])),
    ensures
        tried.len() <= taken.len(),
{
    let names = tried.map_values(|b: Seq<u8>| base64_text(b));
    assert forall|i: int, j: int| 0 <= i < names.len() && 0 <= j < names.len() && i != j implies names[i]
        != names[j] by {
        if names[i] == names[j] {
            base64_is_injective(tried[i], tried[j]);
            assert(is_numbered_token(token, i as nat, tried[i]));
            assert(is_numbered_token(token, j as nat, tried[j]));
        }
    }
    names.unique_seq_to_set();
    assert(names.to_set().subset_of(taken)) by {
        assert forall|k: Seq<char>| names.to_set().contains(k) implies taken.contains(k) by {
            let i = choose|i: int| 0 <= i < names.len() && names[i] == k;
            assert(taken.contains(base64_text(tried[i])));
        }
    }
    vstd::set_lib::lemma_len_subset(names.to_set(), taken);
}

/// The files and what is known of them.
pub struct LocalTokenizedFilesystem {
    pub database: Database,
}

impl LocalTokenizedFilesystem {
    /// What is known of the file at this address. The data is to be read under the
    /// text of the hash.
    pub fn find(&self, path: &str) -> (find: Result<MetaFile, IoError>)
        requires
            self.database.wf(),
        ensures
            find_in(find) == found(self.database@, path@),
    {
        match self.database.file_at(path) {
            Some(meta_file) => if self.database.is_restricted(&meta_file.hash) {
                Err(
                    IoError {
                        kind: ErrorKind::ConnectionRefused,
                        message: "File has been restricted.".to_owned(),
                    },
                )
            } else {
                Ok(meta_file.clone())
            },
            None => Err(
                IoError {
                    kind: ErrorKind::NotFound,
                    message: "File not found: ".to_owned().concat(path),
                },
            ),
        }
    }

    /// Finds the file at this address like `find`. If its data is restricted, the
    /// address is given up.
    pub fn get(&mut self, path: &str) -> (find: Result<MetaFile, IoError>)
        requires
            old(self).database.wf(),
        ensures
            final(self).database.wf(),
            find_in(find) == found(old(self).database@, path@),
            final(self).database@ == after_get(old(self).database@, path@),
    {
        let find = self.find(path);
        if let Err(e) = &find {
            if e.kind == ErrorKind::ConnectionRefused {
                self.database.remove_url(path);
            }
        }
        find
    }

    /// The address of a file that is not secret: its name in form encoding, with a
    /// number behind it if that is taken.
    pub fn public_uri(&self, file_name: &str) -> (uri: String)
        requires
            self.database.wf(),
        ensures
            first_free(
                form_encoded(encode_utf8(file_name@)),
                self.database@.url_file_map.dom(),
                uri@,
            ),
            !self.database@.url_file_map.contains_key(uri@),
    {
        let urls = self.database.urls();
        assert(urls@.dom() =~= self.database@.url_file_map.dom());
        make_unique(form_encode(file_name.as_bytes()), urls)
    }

    /// The address that a secret file would have under this random token, unless it
    /// is taken.
    pub fn secret_uri(&self, random: &UserToken) -> (uri: Option<String>)
        requires
            self.database.wf(),
        ensures
            uri is None <==> self.database@.url_file_map.contains_key(base64_text(random@)),
            uri is Some ==> uri->0@ == base64_text(random@),
            uri is Some ==> is_token_text(uri->0@),
    {
        let text = random.to_string();
        if self.database.file_at(text.as_str()).is_none() {
            Some(text)
        } else {
            None
        }
    }

    /// An address for a secret file that is not taken: the text of a token, drawn at
    /// random until one is free. Should none be in more draws than a machine can make,
    /// the last token is counted up instead.
    pub fn draw_secret_uri(&self) -> (uri: String)
        requires
            self.database.wf(),
        ensures
            !self.database@.url_file_map.contains_key(uri@),
            exists|random: Seq<u8>| random.len() == 32 && uri@ == #[trigger] base64_text(random),
            is_token_text(uri@),
    {
        let mut random = UserToken::generate();
        let mut draws: u64 = 0;
        while draws < u64::MAX
            invariant
                self.database.wf(),
                random@.len() == 32,
            decreases u64::MAX - draws,
        {
            if let Some(uri) = self.secret_uri(&random) {
                return uri;
            }
            random = UserToken::generate();
            draws = draws + 1;
        }
        self.count_secret_uri(&random)
    }

    /// The first address that is not taken among the texts of this token with the
    /// numbers from zero on.
    pub fn count_secret_uri(&self, token: &UserToken) -> (uri: String)
        requires
            self.database.wf(),
        ensures
            first_free_number(token@, self.database@.url_file_map.dom(), uri@),
            !self.database@.url_file_map.contains_key(uri@),
            exists|bytes: Seq<u8>| bytes.len() == 32 && uri@ == #[trigger] base64_text(bytes),
            is_token_text(uri@),
    {
        let ghost taken = self.database@.url_file_map.dom();
        let ghost mut tried: Seq<Seq<u8>> = Seq::empty();
        let urls = self.database.urls();
        assert(urls@.dom() =~= taken);
        let len: usize = urls.len();
        let mut n: u64 = 0;
        loop
            invariant
                self.database.wf(),
                taken == self.database@.url_file_map.dom(),
                taken.finite(),
                len == taken.len(),
                n <= len,
                tried.len() == n,
                forall|m: int|
                    0 <= m < tried.len() ==> is_numbered_token(token@, m as nat, #[trigger] tried[m])
                        && taken.contains(base64_text(tried[m])),
                forall|m: nat, b: Seq<u8>|
                    m < n && #[trigger] is_numbered_token(token@, m, b) ==> taken.contains(
                        base64_text(b),
                    ),
            decreases len - n,
        {
            let numbered = token.numbered(n);
            if let Some(uri) = self.secret_uri(&numbered) {
                return uri;
            }
            proof {
                tried = tried.push(numbered@);
                taken_numbers_bound(token@, taken, tried);
                assert forall|m: nat, b: Seq<u8>|
                    m < n + 1 && #[trigger] is_numbered_token(
                        token@,
                        m,
                        b,
                    ) implies taken.contains(base64_text(b)) by {
                    if m == n {
                        numbered_token_is_unique(token@, m, b, numbered@);
                    }
                }
            }
            n = n + 1;
        }
    }

    /// Stores a file at this address.
    pub fn store(&mut self, uri: String, data: PostData) -> (step: SaveStep)
        requires
            old(self).database.wf(),
            countable(old(self).database@.hashes_on_fs, data@.file_hash),
        ensures
            final(self).database.wf(),
            final(self).database@ == stored(old(self).database@, uri@, data@),
            match step {
                SaveStep::Stored(at) => {
                    &&& old(self).database@.hashes_on_fs.contains_key(data@.file_hash)
                    &&& at@ == uri@
                },
                SaveStep::Write(at, hash, bytes) => {
                    &&& !old(self).database@.hashes_on_fs.contains_key(data@.file_hash)
                    &&& at@ == uri@
                    &&& hash@ == data@.file_hash
                    &&& bytes@ == data@.file_data
                },
            },
    {
        let (mut meta_file, _secret, hash, file_data) = MetaFile::from_post(data);
        meta_file.uri_path = uri.clone();
        assert(meta_file@ == meta_at(data@, uri@));
        self.database.insert_at(uri.clone(), meta_file);
        if self.database.insert_hash(hash) {
            SaveStep::Stored(uri)
        } else {
            SaveStep::Write(uri, hash, file_data)
        }
    }

    /// Whether `save` can count the file.
    pub fn can_save(&self, data: &PostData) -> (can: bool)
        ensures
            can == countable(self.database@.hashes_on_fs, data@.file_hash),
    {
        match self.database.references(&data.file_hash) {
            Some(count) => count < usize::MAX,
            None => true,
        }
    }

    /// Stores a file: at an address that tells its name, or at a random one if it is
    /// secret. Files with restricted data are refused.
    pub fn save(&mut self, data: PostData) -> (step: Result<SaveStep, SaveError>)
        requires
            old(self).database.wf(),
            countable(old(self).database@.hashes_on_fs, data@.file_hash),
        ensures
            final(self).database.wf(),
            save_outcome(old(self).database@, data@, final(self).database@, step),
    {
        if self.database.is_restricted(&data.file_hash) {
            return Err(SaveError::FileRestricted);
        }
        let uri = if !data.secret {
            self.public_uri(data.file_name.as_str())
        } else {
            self.draw_secret_uri()
        };
        Ok(self.store(uri, data))
    }

    /// The outcome of storing a file at this address, once its data is written or has
    /// failed to be. The file keeps its address in either case.
    pub fn finish_save(uri: String, written: Result<(), IoError>) -> (saved: Result<
        String,
        SaveError,
    >)
        ensures
            match written {
                Ok(_) => saved is Ok && saved->Ok_0@ == uri@,
                Err(e) => saved is Err && saved->Err_0@ == SaveErrorView::FileSystemError(e@),
            },
    {
        match written {
            Ok(_) => Ok(uri),
            Err(e) => Err(SaveError::FileSystemError(e)),
        }
    }

    /// Whether the counts know of the file that `remove_file` would remove.
    pub fn can_remove(&self, path: &str, credentials: &UserToken) -> (can: bool)
        requires
            self.database.wf(),
        ensures
            can == removable(self.database@, path@, credentials@),
    {
        match self.database.file_at(path) {
            Some(meta) => if meta.access_token.equals(credentials) {
                match self.database.references(&meta.hash) {
                    Some(count) => count >= 1,
                    None => false,
                }
            } else {
                true
            },
            None => true,
        }
    }

    /// Removes the file at this address for a client who holds its token. Where its
    /// data is to be deleted first, nothing changes yet.
    pub fn remove_file(&mut self, path: &str, credentials: &UserToken) -> (step: Result<
        RemovalStep,
        DeletionError,
    >)
        requires
            old(self).database.wf(),
            removable(old(self).database@, path@, credentials@),
        ensures
            final(self).database.wf(),
            removal_outcome(
                old(self).database@,
                path@,
                credentials@,
                final(self).database@,
                step,
            ),
    {
        let hash = match self.database.file_at(path) {
            Some(meta) => {
                if !meta.access_token.equals(credentials) {
                    return Err(DeletionError::Forbidden);
                }
                meta.hash
            },
            None => return Err(DeletionError::FileNotFound),
        };
        let last: bool = match self.database.references(&hash) {
            Some(count) => count == 1,
            None => false,
        };
        if last {
            Ok(RemovalStep::DeleteData(hash))
        } else {
            self.forget(path, hash);
            Ok(RemovalStep::Removed)
        }
    }

    /// The outcome of removing the file at this address, once its data is deleted or
    /// has failed to be. In the latter case the file stays.
    pub fn finish_removal(&mut self, path: &str, deleted: Result<(), IoError>) -> (gone: Result<
        (),
        DeletionError,
    >)
        requires
            old(self).database.wf(),
        ensures
            final(self).database.wf(),
            match deleted {
                Ok(_) => {
                    &&& gone is Ok
                    &&& final(self).database@ == (if old(
                        self,
                    ).database@.url_file_map.contains_key(path@) {
                        removed(old(self).database@, path@)
                    } else {
                        old(self).database@
                    })
                },
                Err(e) => {
                    &&& gone is Err
                    &&& gone->Err_0@ == DeletionErrorView::FilesystemError(e@)
                    &&& final(self).database@ == old(self).database@
                },
            },
    {
        match deleted {
            Ok(_) => {
                let hash = match self.database.file_at(path) {
                    Some(meta) => meta.hash,
                    None => return Ok(()),
                };
                self.forget(path, hash);
                Ok(())
            },
            Err(e) => Err(DeletionError::FilesystemError(e)),
        }
    }

    fn forget(&mut self, path: &str, hash: XXH3_128Hash)
        requires
            old(self).database.wf(),
            old(self).database@.url_file_map.contains_key(path@),
            old(self).database@.url_file_map[path@].hash == hash@,
        ensures
            final(self).database.wf(),
            final(self).database@ == removed(old(self).database@, path@),
    {
        self.database.remove_hash(hash);
        self.database.remove_url(path);
        assert(self.database@ =~= removed(old(self).database@, path@));
    }
}

/// Whether `uri` is an address that a new file may get: one that is not taken, made
/// of the file's name or, if the file is secret, of random bytes.
pub open spec fn new_uri(db: DatabaseView, p: PostDataView, uri: Seq<char>) -> bool {
    &&& !db.url_file_map.contains_key(uri)
    &&& if p.secret {
        &&& exists|random: Seq<u8>| random.len() == 32 && uri == #[trigger] base64_text(random)
        &&& is_token_text(uri)
    } else {
        first_free(form_encoded(encode_utf8(p.file_name)), db.url_file_map.dom(), uri)
    }
}

/// What may come of storing a file.
pub open spec fn save_outcome(
    before: DatabaseView,
    p: PostDataView,
    after: DatabaseView,
    step: Result<SaveStep, SaveError>,
) -> bool {
    if before.hash_file_map.contains_key(p.file_hash) {
        &&& after == before
        &&& step is Err
        &&& step->Err_0@ == SaveErrorView::FileRestricted
    } else {
        match step {
            Err(_) => false,
            Ok(SaveStep::Stored(uri)) => {
                &&& before.hashes_on_fs.contains_key(p.file_hash)
                &&& new_uri(before, p, uri@)
                &&& after == stored(before, uri@, p)
            },
            Ok(SaveStep::Write(uri, hash, bytes)) => {
                &&& !before.hashes_on_fs.contains_key(p.file_hash)
                &&& hash@ == p.file_hash
                &&& bytes@ == p.file_data
                &&& new_uri(before, p, uri@)
                &&& after == stored(before, uri@, p)
            },
        }
    }
}

/// Whether the counts know of the file at `path`, if `token` is the one to remove it.
pub open spec fn removable(db: DatabaseView, path: Seq<char>, token: Seq<u8>) -> bool {
    let meta = db.url_file_map[path];
    db.url_file_map.contains_key(path) && meta.access_token == token
        ==> db.hashes_on_fs.contains_key(meta.hash) && db.hashes_on_fs[meta.hash] >= 1
}

/// What comes of removing a file.
pub open spec fn removal_outcome(
    before: DatabaseView,
    path: Seq<char>,
    token: Seq<u8>,
    after: DatabaseView,
    step: Result<RemovalStep, DeletionError>,
) -> bool {
    let meta = before.url_file_map[path];
    if !before.url_file_map.contains_key(path) {
        &&& after == before
        &&& step is Err
        &&& step->Err_0@ == DeletionErrorView::FileNotFound
    } else if meta.access_token != token {
        &&& after == before
        &&& step is Err
        &&& step->Err_0@ == DeletionErrorView::Forbidden
    } else if before.hashes_on_fs[meta.hash] == 1 {
        &&& after == before
        &&& step matches Ok(RemovalStep::DeleteData(hash)) && hash@ == meta.hash
    } else {
        &&& after == removed(before, path)
        &&& step == Ok::<RemovalStep, DeletionError>(RemovalStep::Removed)
    }
}

} // verus!
