//! What the server knows of its files and of its clients.

use crate::address::SocketAddress;
use crate::post::{PostData, PostDataView};
use crate::table::TextTable;
use crate::time::UtcTime;
use crate::token::{UserToken, XXH3_128Hash};
use std::collections::HashMap;
use vstd::prelude::*;

verus! {

broadcast use vstd::std_specs::hash::group_hash_axioms;

/// What is known of a stored file.
#[derive(Debug)]
pub struct MetaFile {
    pub file_name: String,
    pub file_size: usize,
    pub uri_path: String,
    pub mime_type: String,
    pub nsfw: bool,
    pub creation_date: UtcTime,
    pub expiration_date: UtcTime,
    pub restricted: bool,
    pub access_token: UserToken,
    pub hash: XXH3_128Hash,
    pub uploader_ua: String,
    pub uploader_ip: SocketAddress,
}

/// The values in a [`MetaFile`].
#[verifier::ext_equal]
pub struct MetaFileView {
    pub file_name: Seq<char>,
    pub file_size: usize,
    pub uri_path: Seq<char>,
    pub mime_type: Seq<char>,
    pub nsfw: bool,
    pub creation_date: int,
    pub expiration_date: int,
    pub restricted: bool,
    pub access_token: Seq<u8>,
    pub hash: u128,
    pub uploader_ua: Seq<char>,
    pub uploader_ip: SocketAddress,
}

impl View for MetaFile {
    type V = MetaFileView;

    open spec fn view(&self) -> MetaFileView {
        MetaFileView {
            file_name: self.file_name@,
            file_size: self.file_size,
            uri_path: self.uri_path@,
            mime_type: self.mime_type@,
            nsfw: self.nsfw,
            creation_date: self.creation_date@,
            expiration_date: self.expiration_date@,
            restricted: self.restricted,
            access_token: self.access_token@,
            hash: self.hash@,
            uploader_ua: self.uploader_ua@,
            uploader_ip: self.uploader_ip,
        }
    }
}

impl Clone for MetaFile {
    fn clone(&self) -> (copy: Self)
        ensures
            copy@ == self@,
    {
        MetaFile {
            file_name: self.file_name.clone(),
            file_size: self.file_size,
            uri_path: self.uri_path.clone(),
            mime_type: self.mime_type.clone(),
            nsfw: self.nsfw,
            creation_date: self.creation_date,
            expiration_date: self.expiration_date,
            restricted: self.restricted,
            access_token: self.access_token,
            hash: self.hash,
            uploader_ua: self.uploader_ua.clone(),
            uploader_ip: self.uploader_ip,
        }
    }
}

/// What is known of an uploaded file before it has an address.
pub open spec fn meta_of(p: PostDataView) -> MetaFileView {
    MetaFileView {
        file_name: p.file_name,
        file_size: p.file_size,
        uri_path: Seq::empty(),
        mime_type: p.file_mime,
        nsfw: p.nsfw,
        creation_date: p.creation_date,
        expiration_date: p.expiration_date,
        restricted: false,
        access_token: p.access_token,
        hash: p.file_hash,
        uploader_ua: p.uploader_ua,
        uploader_ip: p.uploader_ip,
    }
}

impl MetaFile {
    /// Parts an upload into what is known of the file, whether its address is to be
    /// secret, its hash and its data.
    pub fn from_post(value: PostData) -> (parts: (Self, bool, XXH3_128Hash, Vec<u8>))
        ensures
            parts.0@ == meta_of(value@),
            parts.1 == value@.secret,
            parts.2@ == value@.file_hash,
            parts.3@ == value@.file_data,
    {
        (
            Self {
                file_name: value.file_name,
                file_size: value.file_size,
                mime_type: value.file_mime,
                nsfw: value.nsfw,
                creation_date: value.creation_date,
                expiration_date: value.expiration_date,
                restricted: false,
                access_token: value.access_token,
                hash: value.file_hash,
                uploader_ua: value.uploader_ua,
                uploader_ip: value.uploader_ip,
                uri_path: String::new(),
            },
            value.secret,
            value.file_hash,
            value.file_data,
        )
    }
}

/// The contents of a database.
pub struct DatabaseData {
    /// Clients that are turned away.
    pub blocklist_ip: Vec<SocketAddress>,
    /// Client programs that are turned away.
    pub blocklist_ua: TextTable<()>,
    /// The number of files that share the data of each hash.
    pub hashes_on_fs: HashMap<u128, usize>,
    /// The files by their addresses.
    pub url_file_map: TextTable<MetaFile>,
    /// The files whose data is restricted, by hash.
    pub hash_file_map: HashMap<u128, MetaFile>,
}

/// The contents of a database, as sets and maps.
#[verifier::ext_equal]
pub struct DatabaseView {
    pub blocklist_ip: Set<SocketAddress>,
    pub blocklist_ua: Set<Seq<char>>,
    pub hashes_on_fs: Map<u128, usize>,
    pub url_file_map: Map<Seq<char>, MetaFileView>,
    pub hash_file_map: Map<u128, MetaFileView>,
}

impl View for DatabaseData {
    type V = DatabaseView;

    open spec fn view(&self) -> DatabaseView {
        DatabaseView {
            blocklist_ip: self.blocklist_ip@.to_set(),
            blocklist_ua: self.blocklist_ua@.dom(),
            hashes_on_fs: self.hashes_on_fs@,
            url_file_map: self.url_file_map@.map_values(|m: MetaFile| m@),
            hash_file_map: self.hash_file_map@.map_values(|m: MetaFile| m@),
        }
    }
}

impl DatabaseData {
    /// The tables are in order.
    pub open spec fn wf(&self) -> bool {
        self.blocklist_ua.wf() && self.url_file_map.wf()
    }
}

/// The database: who is turned away, and which files there are.
pub struct Database {
    data: DatabaseData,
}

impl View for Database {
    type V = DatabaseView;

    closed spec fn view(&self) -> DatabaseView {
        self.data@
    }
}

/// A database that holds nothing.
pub open spec fn empty_database() -> DatabaseView {
    DatabaseView {
        blocklist_ip: Set::empty(),
        blocklist_ua: Set::empty(),
        hashes_on_fs: Map::empty(),
        url_file_map: Map::empty(),
        hash_file_map: Map::empty(),
    }
}

impl Database {
    /// The tables are in order.
    pub closed spec fn wf(&self) -> bool {
        self.data.wf()
    }

    /// A database has finitely many files.
    pub proof fn urls_are_finite(&self)
        requires
            self.wf(),
        ensures
            self@.url_file_map.dom().finite(),
    {
        self.data.url_file_map.keys_are_finite();
        assert(self@.url_file_map.dom() =~= self.data.url_file_map@.dom());
    }

    /// The database of these contents.
    pub fn from_data(value: DatabaseData) -> (db: Self)
        requires
            value.wf(),
        ensures
            db.wf(),
            db@ == value@,
    {
        Database { data: value }
    }

    /// The contents of the database.
    pub fn into_data(self) -> (data: DatabaseData)
        requires
            self.wf(),
        ensures
            data.wf(),
            data@ == self@,
    {
        self.data
    }

    /// An empty database.
    pub fn new() -> (db: Self)
        ensures
            db.wf(),
            db@ == empty_database(),
    {
        let data = DatabaseData {
            blocklist_ip: Vec::new(),
            blocklist_ua: TextTable::new(),
            hashes_on_fs: HashMap::new(),
            url_file_map: TextTable::new(),
            hash_file_map: HashMap::new(),
        };
        assert(data@ =~= empty_database());
        Database { data }
    }

    /// Enters a file under its address.
    pub fn insert(&mut self, meta_file: MetaFile)
        requires
            old(self).wf(),
        ensures
            final(self).wf(),
            final(self)@ == (DatabaseView {
                url_file_map: old(self)@.url_file_map.insert(meta_file@.uri_path, meta_file@),
                ..old(self)@
            }),
    {
        let uri = meta_file.uri_path.clone();
        self.insert_at(uri, meta_file);
    }

    /// Enters a file under this address.
    pub fn insert_at(&mut self, uri: String, meta_file: MetaFile)
        requires
            old(self).wf(),
        ensures
            final(self).wf(),
            final(self)@ == (DatabaseView {
                url_file_map: old(self)@.url_file_map.insert(uri@, meta_file@),
                ..old(self)@
            }),
    {
        self.data.url_file_map.insert(uri, meta_file);
        assert(self@.url_file_map =~= old(self)@.url_file_map.insert(uri@, meta_file@));
    }

    /// Turns a client away from now on.
    pub fn block_ip(&mut self, addr: SocketAddress)
        requires
            old(self).wf(),
        ensures
            final(self).wf(),
            final(self)@ == (DatabaseView {
                blocklist_ip: old(self)@.blocklist_ip.insert(addr),
                ..old(self)@
            }),
    {
        if !self.is_ip_blocked(&addr) {
            self.data.blocklist_ip.push(addr);
            assert(self.data.blocklist_ip@ == old(self).data.blocklist_ip@.push(addr));
            assert(self@.blocklist_ip =~= old(self)@.blocklist_ip.insert(addr)) by {
                broadcast use vstd::seq_lib::group_seq_properties;
            }
        } else {
            assert(self@.blocklist_ip =~= old(self)@.blocklist_ip.insert(addr));
        }
    }

    /// Whether a client is turned away.
    pub fn is_ip_blocked(&self, addr: &SocketAddress) -> (blocked: bool)
        ensures
            blocked == self@.blocklist_ip.contains(*addr),
    {
        let mut i: usize = 0;
        while i < self.data.blocklist_ip.len()
            invariant
                i <= self.data.blocklist_ip.len(),
                forall|j: int| 0 <= j < i ==> self.data.blocklist_ip@[j] != *addr,
            decreases self.data.blocklist_ip.len() - i,
        {
            if self.data.blocklist_ip[i] == *addr {
                assert(self.data.blocklist_ip@.contains(*addr));
                return true;
            }
            i = i + 1;
        }
        false
    }

    /// Turns a client program away from now on.
    pub fn block_ua(&mut self, ua: String)
        requires
            old(self).wf(),
        ensures
            final(self).wf(),
            final(self)@ == (DatabaseView {
                blocklist_ua: old(self)@.blocklist_ua.insert(ua@),
                ..old(self)@
            }),
    {
        self.data.blocklist_ua.insert(ua, ());
        assert(self@.blocklist_ua =~= old(self)@.blocklist_ua.insert(ua@));
    }

    /// Whether a client program is turned away.
    pub fn is_ua_blocked(&self, ua: &str) -> (blocked: bool)
        ensures
            blocked == self@.blocklist_ua.contains(ua@),
    {
        self.data.blocklist_ua.contains_key(ua)
    }

    /// The number of files that share the data of this hash, if there is any.
    pub fn references(&self, key: &XXH3_128Hash) -> (count: Option<usize>)
        ensures
            count is Some <==> self@.hashes_on_fs.contains_key(key@),
            count is Some ==> count->0 == self@.hashes_on_fs[key@],
    {
        match self.data.hashes_on_fs.get(&key.number()) {
            Some(count) => Some(*count),
            None => None,
        }
    }

    /// Counts one more file that has the data of this hash, and tells whether there
    /// was one already.
    pub fn insert_hash(&mut self, key: XXH3_128Hash) -> (present: bool)
        requires
            old(self).wf(),
            countable(old(self)@.hashes_on_fs, key@),
        ensures
            final(self).wf(),
            present == old(self)@.hashes_on_fs.contains_key(key@),
            final(self)@ == (DatabaseView {
                hashes_on_fs: counted(old(self)@.hashes_on_fs, key@),
                ..old(self)@
            }),
    {
        let number: u128 = key.number();
        match self.references(&key) {
            Some(count) => {
                self.data.hashes_on_fs.insert(number, count + 1);
                true
            },
            None => {
                self.data.hashes_on_fs.insert(number, 1);
                false
            },
        }
    }

    /// Counts one file less that has the data of this hash, and tells whether there
    /// is still one.
    pub fn remove_hash(&mut self, key: XXH3_128Hash) -> (present: bool)
        requires
            old(self).wf(),
        ensures
            final(self).wf(),
            present == final(self)@.hashes_on_fs.contains_key(key@),
            final(self)@ == (DatabaseView {
                hashes_on_fs: uncounted(old(self)@.hashes_on_fs, key@),
                ..old(self)@
            }),
    {
        let number: u128 = key.number();
        if let Some(count) = self.references(&key) {
            if count > 1 {
                self.data.hashes_on_fs.insert(number, count - 1);
                return true;
            }
        }
        self.data.hashes_on_fs.remove(&number);
        false
    }

    /// Whether the data of this hash is restricted.
    pub fn is_restricted(&self, key: &XXH3_128Hash) -> (restricted: bool)
        ensures
            restricted == self@.hash_file_map.contains_key(key@),
    {
        self.data.hash_file_map.contains_key(&key.number())
    }

    /// What is known of the file at this address, if there is one.
    pub fn file_at(&self, path: &str) -> (file: Option<&MetaFile>)
        requires
            self.wf(),
        ensures
            file is Some <==> self@.url_file_map.contains_key(path@),
            file is Some ==> file->0@ == self@.url_file_map[path@],
    {
        self.data.url_file_map.get(path)
    }

    /// Takes the file at this address out.
    pub fn remove_url(&mut self, path: &str)
        requires
            old(self).wf(),
        ensures
            final(self).wf(),
            final(self)@ == (DatabaseView {
                url_file_map: old(self)@.url_file_map.remove(path@),
                ..old(self)@
            }),
    {
        self.data.url_file_map.remove(path);
        assert(self@.url_file_map =~= old(self)@.url_file_map.remove(path@));
    }

    /// The files by their addresses.
    pub fn urls(&self) -> (urls: &TextTable<MetaFile>)
        requires
            self.wf(),
        ensures
            urls.wf(),
            urls@.map_values(|m: MetaFile| m@) == self@.url_file_map,
    {
        &self.data.url_file_map
    }

    /// A copy of the contents.
    pub fn snapshot(&self) -> (data: DatabaseData)
        requires
            self.wf(),
        ensures
            data.wf(),
            data@ == self@,
    {
        let data = DatabaseData {
            blocklist_ip: copy_addresses(&self.data.blocklist_ip),
            blocklist_ua: copy_names(&self.data.blocklist_ua),
            hashes_on_fs: self.data.hashes_on_fs.clone(),
            url_file_map: copy_files(&self.data.url_file_map),
            hash_file_map: copy_restricted(&self.data.hash_file_map),
        };
        assert(data@ =~= self@);
        data
    }
}

/// Whether one more file with the data of this hash can be counted.
pub open spec fn countable(hashes: Map<u128, usize>, hash: u128) -> bool {
    hashes.contains_key(hash) ==> hashes[hash] < usize::MAX
}

/// The counts with one more file that has the data of this hash.
pub open spec fn counted(hashes: Map<u128, usize>, hash: u128) -> Map<u128, usize> {
    if hashes.contains_key(hash) {
        hashes.insert(hash, (hashes[hash] + 1) as usize)
    } else {
        hashes.insert(hash, 1)
    }
}

/// The counts with one file less that has the data of this hash. The last one takes
/// the count with it.
pub open spec fn uncounted(hashes: Map<u128, usize>, hash: u128) -> Map<u128, usize> {
    if hashes.contains_key(hash) && hashes[hash] > 1 {
        hashes.insert(hash, (hashes[hash] - 1) as usize)
    } else {
        hashes.remove(hash)
    }
}

fn copy_addresses(addresses: &Vec<SocketAddress>) -> (copy: Vec<SocketAddress>)
    ensures
        copy@ == addresses@,
{
    let mut copy: Vec<SocketAddress> = Vec::new();
    let mut i: usize = 0;
    while i < addresses.len()
        invariant
            i <= addresses.len(),
            copy@ == addresses@.take(i as int),
        decreases addresses.len() - i,
    {
        copy.push(addresses[i]);
        assert(copy@ =~= addresses@.take(i + 1));
        i = i + 1;
    }
    assert(addresses@.take(i as int) =~= addresses@);
    copy
}

fn copy_names(names: &TextTable<()>) -> (copy: TextTable<()>)
    requires
        names.wf(),
    ensures
        copy.wf(),
        copy@.dom() == names@.dom(),
{
    let entries = names.entries();
    let mut copy: TextTable<()> = TextTable::new();
    let mut i: usize = 0;
    while i < entries.len()
        invariant
            i <= entries.len(),
            copy.wf(),
            forall|k: Seq<char>| #[trigger]
                copy@.contains_key(k) <==> exists|j: int|
                    0 <= j < i && (#[trigger] entries@[j]).0@ == k,
        decreases entries.len() - i,
    {
        let ghost before = copy@;
        copy.insert(entries[i].0.clone(), ());
        assert forall|k: Seq<char>| #[trigger]
            copy@.contains_key(k) <==> exists|j: int|
                0 <= j < i + 1 && (#[trigger] entries@[j]).0@ == k by {
            if k == entries@[i as int].0@ {
                assert(copy@.contains_key(k));
            } else {
                assert(copy@.contains_key(k) == before.contains_key(k));
            }
        }
        i = i + 1;
    }
    assert(copy@.dom() =~= names@.dom());
    copy
}

fn copy_files(files: &TextTable<MetaFile>) -> (copy: TextTable<MetaFile>)
    requires
        files.wf(),
    ensures
        copy.wf(),
        copy@.map_values(|m: MetaFile| m@) == files@.map_values(|m: MetaFile| m@),
{
    let entries = files.entries();
    let mut copy: TextTable<MetaFile> = TextTable::new();
    let mut i: usize = 0;
    while i < entries.len()
        invariant
            i <= entries.len(),
            copy.wf(),
            forall|k: Seq<char>| #[trigger]
                copy@.contains_key(k) <==> exists|j: int|
                    0 <= j < i && (#[trigger] entries@[j]).0@ == k,
            forall|j: int| 0 <= j < i ==> copy@[(#[trigger] entries@[j]).0@]@ == entries@[j].1@,
            forall|i: int, j: int|
                0 <= i < j < entries@.len() ==> (#[trigger] entries@[i]).0@ != (
                #[trigger] entries@[j]).0@,
        decreases entries.len() - i,
    {
        let ghost before = copy@;
        copy.insert(entries[i].0.clone(), entries[i].1.clone());
        assert forall|k: Seq<char>| #[trigger]
            copy@.contains_key(k) <==> exists|j: int|
                0 <= j < i + 1 && (#[trigger] entries@[j]).0@ == k by {
            if k == entries@[i as int].0@ {
                assert(copy@.contains_key(k));
            } else {
                assert(copy@.contains_key(k) == before.contains_key(k));
            }
        }
        i = i + 1;
    }
    assert(copy@.map_values(|m: MetaFile| m@) =~= files@.map_values(|m: MetaFile| m@)) by {
        assert forall|k: Seq<char>| files@.contains_key(k) implies copy@.contains_key(k) && copy@[k]@
            == files@[k]@ by {
            let j = choose|j: int| 0 <= j < entries@.len() && (#[trigger] entries@[j]).0@ == k;
            assert(entries@[j].0@ == k);
        }
        assert forall|k: Seq<char>| copy@.contains_key(k) implies files@.contains_key(k) by {
            let j = choose|j: int| 0 <= j < entries@.len() && (#[trigger] entries@[j]).0@ == k;
            assert(files@.contains_key(entries@[j].0@));
        }
    }
    copy
}

fn copy_restricted(files: &HashMap<u128, MetaFile>) -> (copy: HashMap<u128, MetaFile>)
    ensures
        copy@.map_values(|m: MetaFile| m@) == files@.map_values(|m: MetaFile| m@),
{
    let mut copy: HashMap<u128, MetaFile> = HashMap::new();
    for entry in it: files.iter()
        invariant
            forall|k: u128| #[trigger]
                copy@.contains_key(k) <==> exists|j: int|
                    0 <= j < it.index() && *(#[trigger] it.seq()[j]).0 == k,
            forall|k: u128| #[trigger] copy@.contains_key(k) ==> copy@[k]@ == files@[k]@,
            forall|j: int| 0 <= j < it.seq().len() ==> files@.contains_key(*(#[trigger] it.seq()[j]).0) && files@[*it.seq()[j].0] == *it.seq()[j].1,
    {
        copy.insert(*entry.0, entry.1.clone());
    }
    copy
}

} // verus!
