//! The index of the file cache: which identifiers are taken, what is stored
//! under each, and until when. The bytes themselves are written, read and
//! removed by whoever owns the disk; the index says where, and when.
//!
//! Time is counted in whole seconds since the Unix epoch and is handed in by
//! the caller.
use vstd::prelude::*;
use crate::bindings::{
    fresh_id, is_simple_uuid, percent_encode, percent_encoded, sanitize_file_name, sanitized_name,
};
use crate::text::{
    append, ends_with, ends_with_seq, opt_str_view, opt_view, same_text, views,
};
use crate::upload_server::config::SanitizedConfig;
use crate::upload_server::error::{UploadServerError, UploadServerErrorView};
use vstd::string::StringSliceAdditionalSpecFns;

verus! {

/// What is said of a name that is empty once it is sanitized.
pub const TEXT_EMPTY_NAME: &'static str = "文件名不能为空";

/// What the index holds of one file.
pub struct EntryView {
    pub file_name: Seq<char>,
    pub content_type: Option<Seq<char>>,
    pub size: u64,
    pub expires_at: u64,
}

/// What `save` reports of the file it stored.
#[derive(Debug, Clone)]
pub struct SavedFile {
    pub id: String,
    pub file_name: String,
    pub size: u64,
    pub content_type: Option<String>,
    pub expires_at: u64,
}

/// What `get` reports of a stored file.
#[derive(Debug, Clone)]
pub struct StoredFile {
    pub file_name: String,
    pub content_type: Option<String>,
    pub size: u64,
    pub path: String,
    pub expires_at: u64,
}

/// What a `StoredFile` is in contracts: its strings are sequences of characters.
pub struct StoredFileView {
    pub entry: EntryView,
    pub path: Seq<char>,
}

impl View for StoredFile {
    type V = StoredFileView;

    open spec fn view(&self) -> StoredFileView {
        StoredFileView {
            entry: EntryView {
                file_name: self.file_name@,
                content_type: opt_view(self.content_type),
                size: self.size,
                expires_at: self.expires_at,
            },
            path: self.path@,
        }
    }
}

impl StoredFile {
    /// Where the bytes of the file lie.
    pub fn path(&self) -> (r: &str)
        ensures
            r@ == self.path@,
    {
        self.path.as_str()
    }

    /// The name under which the file is shown.
    pub fn file_name(&self) -> (r: &str)
        ensures
            r@ == self.file_name@,
    {
        self.file_name.as_str()
    }

    /// The content type that the file was stored with, where it was stored with one.
    pub fn content_type(&self) -> (r: Option<&str>)
        ensures
            opt_str_view(r) == opt_view(self.content_type),
    {
        match &self.content_type {
            Some(t) => Some(t.as_str()),
            None => None,
        }
    }

    /// The number of bytes of the file.
    pub fn size(&self) -> (r: u64)
        ensures
            r == self.size,
    {
        self.size
    }

    /// The second at which the file expires.
    pub fn expires_at(&self) -> (r: u64)
        ensures
            r == self.expires_at,
    {
        self.expires_at
    }
}

/// How long a file lives, in seconds: the lifetime asked for, or the default
/// one where none is asked for, but never less than the shortest one.
pub open spec fn lifetime(ttl: Option<u64>, default_ttl: u64, min_ttl: u64) -> u64 {
    let asked = match ttl {
        Some(t) => t,
        None => default_ttl,
    };
    if asked >= min_ttl {
        asked
    } else {
        min_ttl
    }
}

/// The second at which a file stored at `now` expires.
pub open spec fn expiry(ttl: Option<u64>, default_ttl: u64, min_ttl: u64, now: u64) -> int {
    now + lifetime(ttl, default_ttl, min_ttl)
}

/// The second at which a file stored at `now` expires. The sum must be a
/// second that can be counted.
pub fn compute_expiry(ttl: Option<u64>, default_ttl: u64, min_ttl: u64, now: u64) -> (r: u64)
    requires
        expiry(ttl, default_ttl, min_ttl, now) <= u64::MAX,
    ensures
        r == expiry(ttl, default_ttl, min_ttl, now),
{
    let asked = match ttl {
        Some(t) => t,
        None => default_ttl,
    };
    let lasting = if asked >= min_ttl {
        asked
    } else {
        min_ttl
    };
    now + lasting
}

/// Where the bytes stored under `id` lie: directly in the storage
/// directory, under the identifier and nothing else. The identifier is
/// joined to the directory as a path is: with a slash between them, unless
/// the directory is empty, which stands for the working directory, or ends
/// in a slash itself.
pub open spec fn location(root: Seq<char>, id: Seq<char>) -> Seq<char> {
    if root.len() == 0 || ends_with_seq(root, "/"@) {
        root + id
    } else {
        root + "/"@ + id
    }
}

/// The percent-encoded form of a file name, for use in a URL: every byte of
/// its UTF-8 form that is no ASCII letter or digit is written as a percent
/// sign and two hexadecimal digits.
pub fn percent_encode_filename(name: &str) -> (r: String)
    ensures
        r@ == percent_encoded(name.spec_bytes()),
{
    percent_encode(name)
}

struct FileRecord {
    id: String,
    file_name: String,
    content_type: Option<String>,
    size: u64,
    expires_at: u64,
}

impl FileRecord {
    spec fn entry(self) -> EntryView {
        EntryView {
            file_name: self.file_name@,
            content_type: opt_view(self.content_type),
            size: self.size,
            expires_at: self.expires_at,
        }
    }
}

spec fn distinct(rs: Seq<FileRecord>) -> bool {
    forall|i: int, j: int| 0 <= i < j < rs.len() ==> (#[trigger] rs[i]).id@ != (#[trigger] rs[j]).id@
}

spec fn safe(rs: Seq<FileRecord>) -> bool {
    forall|i: int| 0 <= i < rs.len() ==> is_simple_uuid((#[trigger] rs[i]).id@)
}

proof fn lemma_safe(rs: Seq<FileRecord>)
    requires
        safe(rs),
    ensures
        forall|id: Seq<char>| index_of(rs).contains_key(id) ==> is_simple_uuid(id),
{
}

spec fn taken(rs: Seq<FileRecord>, id: Seq<char>) -> bool {
    exists|i: int| 0 <= i < rs.len() && (#[trigger] rs[i]).id@ == id
}

spec fn at(rs: Seq<FileRecord>, id: Seq<char>) -> FileRecord {
    rs[choose|i: int| 0 <= i < rs.len() && (#[trigger] rs[i]).id@ == id]
}

spec fn index_of(rs: Seq<FileRecord>) -> Map<Seq<char>, EntryView> {
    Map::new(|id: Seq<char>| taken(rs, id), |id: Seq<char>| at(rs, id).entry())
}

proof fn lemma_at(rs: Seq<FileRecord>, i: int)
    requires
        distinct(rs),
        0 <= i < rs.len(),
    ensures
        taken(rs, rs[i].id@),
        at(rs, rs[i].id@) == rs[i],
{
}

proof fn lemma_push(rs: Seq<FileRecord>, r: FileRecord)
    requires
        distinct(rs),
        !taken(rs, r.id@),
    ensures
        distinct(rs.push(r)),
        index_of(rs.push(r)) == index_of(rs).insert(r.id@, r.entry()),
{
    let next = rs.push(r);
    assert forall|id: Seq<char>| taken(next, id) <==> (id == r.id@ || taken(rs, id)) by {
        if id == r.id@ {
            assert(next[rs.len() as int].id@ == id);
        }
        if taken(rs, id) {
            let k = choose|k: int| 0 <= k < rs.len() && (#[trigger] rs[k]).id@ == id;
            assert(next[k].id@ == id);
        }
    }
    assert forall|id: Seq<char>| taken(next, id) implies #[trigger] at(next, id).entry() == index_of(
        rs,
    ).insert(r.id@, r.entry())[id] by {
        let k = choose|k: int| 0 <= k < next.len() && (#[trigger] next[k]).id@ == id;
        lemma_at(next, k);
        if k < rs.len() {
            lemma_at(rs, k);
        }
    }
}

proof fn lemma_remove(rs: Seq<FileRecord>, i: int)
    requires
        distinct(rs),
        0 <= i < rs.len(),
    ensures
        distinct(rs.remove(i)),
        !taken(rs.remove(i), rs[i].id@),
        index_of(rs.remove(i)) == index_of(rs).remove(rs[i].id@),
{
    let next = rs.remove(i);
    let gone = rs[i].id@;
    assert forall|a: int| 0 <= a < next.len() implies #[trigger] next[a] == rs[if a < i {
        a
    } else {
        a + 1
    }] by {}
    assert forall|id: Seq<char>| taken(next, id) <==> (id != gone && taken(rs, id)) by {
        if id != gone && taken(rs, id) {
            let k = choose|k: int| 0 <= k < rs.len() && (#[trigger] rs[k]).id@ == id;
            let x = if k < i {
                k
            } else {
                k - 1
            };
            assert(next[x].id@ == id);
        }
    }
    assert forall|id: Seq<char>| taken(next, id) implies #[trigger] at(next, id).entry() == index_of(
        rs,
    )[id] by {
        let k = choose|k: int| 0 <= k < next.len() && (#[trigger] next[k]).id@ == id;
        lemma_at(next, k);
        let x = if k < i {
            k
        } else {
            k + 1
        };
        lemma_at(rs, x);
    }
}

/// What a lookup finds.
#[derive(Debug)]
pub enum Lookup {
    /// The file is stored and has not expired.
    Found(StoredFile),
    /// The file was stored but has expired. Its entry has just left the
    /// index; its bytes are still where it says and are to be removed.
    Expired(StoredFile),
    /// Nothing is stored under the identifier.
    Missing,
}

/// What a `Lookup` is in contracts: its strings are sequences of characters.
pub enum LookupView {
    Found(StoredFileView),
    Expired(StoredFileView),
    Missing,
}

impl View for Lookup {
    type V = LookupView;

    open spec fn view(&self) -> LookupView {
        match self {
            Lookup::Found(file) => LookupView::Found(file@),
            Lookup::Expired(file) => LookupView::Expired(file@),
            Lookup::Missing => LookupView::Missing,
        }
    }
}

impl Lookup {
    /// The answer that the lookup is to whoever asked for the file: the file
    /// where it was found, and in every other case that there is none.
    pub fn into_result(self) -> (r: Result<StoredFile, UploadServerError>)
        ensures
            match r {
                Ok(file) => self@ == LookupView::Found(file@),
                Err(e) => !(self is Found) && e@ == UploadServerErrorView::NotFound,
            },
    {
        match self {
            Lookup::Found(file) => Ok(file),
            _ => Err(UploadServerError::NotFound),
        }
    }
}

/// A file that the store has accepted: the name under which it is shown,
/// which is the sanitized one, its size, and the identifier that the store
/// has chosen for it. Only `FileStore::reserve` makes one.
#[derive(Debug)]
pub struct Reservation {
    id: String,
    file_name: String,
    size: u64,
}

impl Reservation {
    #[verifier::type_invariant]
    spec fn well_formed(self) -> bool {
        is_simple_uuid(self.id@)
    }

    /// The identifier under which the bytes are to be written.
    pub closed spec fn spec_id(&self) -> Seq<char> {
        self.id@
    }

    /// The name under which the file is shown.
    pub closed spec fn spec_file_name(&self) -> Seq<char> {
        self.file_name@
    }

    /// The number of bytes of the file.
    pub closed spec fn spec_size(&self) -> u64 {
        self.size
    }

    /// The identifier under which the bytes are to be written.
    pub fn id(&self) -> (r: &str)
        ensures
            r@ == self.spec_id(),
            is_simple_uuid(r@),
    {
        proof {
            use_type_invariant(self);
        }
        self.id.as_str()
    }

    /// The name under which the file is shown.
    pub fn file_name(&self) -> (r: &str)
        ensures
            r@ == self.spec_file_name(),
    {
        self.file_name.as_str()
    }

    /// The number of bytes of the file.
    pub fn size(&self) -> (r: u64)
        ensures
            r == self.spec_size(),
    {
        self.size
    }
}

/// The index of the file cache with its limits.
pub struct FileStore {
    records: Vec<FileRecord>,
    root: String,
    max_file_bytes: u64,
    default_ttl: u64,
    min_ttl: u64,
    windows_names: bool,
}

/// What a `FileStore` is in contracts: its strings are sequences of characters.
pub struct FileStoreView {
    /// What is stored, by identifier.
    pub index: Map<Seq<char>, EntryView>,
    /// The storage directory.
    pub root: Seq<char>,
    pub max_file_bytes: u64,
    pub default_ttl: u64,
    pub min_ttl: u64,
    /// Whether names are sanitized by the rules for Windows too.
    pub windows_names: bool,
}

impl View for FileStore {
    type V = FileStoreView;

    closed spec fn view(&self) -> FileStoreView {
        FileStoreView {
            index: index_of(self.records@),
            root: self.root@,
            max_file_bytes: self.max_file_bytes,
            default_ttl: self.default_ttl,
            min_ttl: self.min_ttl,
            windows_names: self.windows_names,
        }
    }
}

impl FileStoreView {
    /// Whether every identifier in the index has the shape of a UUID in
    /// simple form. This holds of every store at all times.
    pub open spec fn ids_are_safe(self) -> bool {
        forall|id: Seq<char>| self.index.contains_key(id) ==> is_simple_uuid(id)
    }

    /// Whether a file of this name and size is accepted: a payload above the
    /// ceiling is refused first, then a name of which sanitizing leaves
    /// nothing.
    pub open spec fn admits(self, file_name: Seq<char>, size: u64) -> Result<(), UploadServerErrorView> {
        if size > self.max_file_bytes {
            Err(UploadServerErrorView::FileTooLarge { max_bytes: self.max_file_bytes })
        } else if sanitized_name(file_name, self.windows_names).len() == 0 {
            Err(UploadServerErrorView::BadRequest(TEXT_EMPTY_NAME@))
        } else {
            Ok(())
        }
    }

    /// What `get` reports of the entry under `id`.
    pub open spec fn file(self, id: Seq<char>) -> StoredFileView {
        StoredFileView { entry: self.index[id], path: location(self.root, id) }
    }

    /// The store with `entry` under `id`.
    pub open spec fn with(self, id: Seq<char>, entry: EntryView) -> FileStoreView {
        FileStoreView { index: self.index.insert(id, entry), ..self }
    }

    /// The store without an entry under `id`.
    pub open spec fn without(self, id: Seq<char>) -> FileStoreView {
        FileStoreView { index: self.index.remove(id), ..self }
    }

    /// Whether the entry under `id` is there and has expired at `now`.
    pub open spec fn expired(self, id: Seq<char>, now: u64) -> bool {
        self.index.contains_key(id) && self.index[id].expires_at <= now
    }

    /// What a lookup of `id` at `now` finds.
    pub open spec fn lookup(self, id: Seq<char>, now: u64) -> LookupView {
        if !self.index.contains_key(id) {
            LookupView::Missing
        } else if self.expired(id, now) {
            LookupView::Expired(self.file(id))
        } else {
            LookupView::Found(self.file(id))
        }
    }

    /// The store after a lookup of `id` at `now`: an expired entry leaves
    /// the index, everything else stays.
    pub open spec fn after_lookup(self, id: Seq<char>, now: u64) -> FileStoreView {
        if self.expired(id, now) {
            self.without(id)
        } else {
            self
        }
    }

    /// The store after a sweep at `now`: the entries that have not expired.
    pub open spec fn swept(self, now: u64) -> FileStoreView {
        FileStoreView {
            index: Map::new(
                |id: Seq<char>| self.index.contains_key(id) && self.index[id].expires_at > now,
                |id: Seq<char>| self.index[id],
            ),
            ..self
        }
    }
}

/// The bytes of a stored file lie directly in the storage directory, under
/// a name that is the identifier and holds no separator and no dot: nothing
/// that a caller names takes part in where the bytes lie.
pub proof fn lemma_location_is_in_the_root(root: Seq<char>, id: Seq<char>)
    requires
        is_simple_uuid(id),
    ensures
        location(root, id) == root + id || location(root, id) == root + "/"@ + id,
        ends_with_seq(location(root, id), id),
        root.len() == 0 ==> location(root, id) == id,
        root.len() > 0 ==> ends_with_seq(location(root, id), "/"@ + id),
        forall|i: int| 0 <= i < id.len() ==> id[i] != '/' && id[i] != '\\' && id[i] != '.',
{
    reveal_strlit("/");
    let place = location(root, id);
    assert(place.subrange(place.len() - id.len(), place.len() as int) =~= id);
    if root.len() > 0 {
        let tail = "/"@ + id;
        if ends_with_seq(root, "/"@) {
            assert(root.subrange(root.len() - 1, root.len() as int) == "/"@);
            assert(root[root.len() - 1] == "/"@[0]);
        }
        assert(place.subrange(place.len() - tail.len(), place.len() as int) =~= tail);
    }
}

/// What was just stored is found: a lookup of a fresh entry before its
/// expiry reports that entry and leaves the store as it is; a lookup at or
/// after its expiry reports it as expired, and the index no longer holds the
/// identifier afterwards, nor after any sweep from then on.
pub proof fn lemma_save_then_get(store: FileStoreView, id: Seq<char>, entry: EntryView, now: u64)
    ensures
        now < entry.expires_at ==> store.with(id, entry).lookup(id, now) == LookupView::Found(
            StoredFileView { entry, path: location(store.root, id) },
        ) && store.with(id, entry).after_lookup(id, now) == store.with(id, entry),
        now >= entry.expires_at ==> store.with(id, entry).lookup(id, now) == LookupView::Expired(
            StoredFileView { entry, path: location(store.root, id) },
        ) && !store.with(id, entry).after_lookup(id, now).index.contains_key(id)
            && !store.with(id, entry).swept(now).index.contains_key(id),
{
}

/// Deleting is idempotent: an identifier that is not stored can be deleted
/// and the store stays as it is, and to delete twice is to delete once.
pub proof fn lemma_delete_is_idempotent(store: FileStoreView, id: Seq<char>)
    ensures
        !store.index.contains_key(id) ==> store.without(id) == store,
        store.without(id).without(id) == store.without(id),
        !store.without(id).index.contains_key(id),
{
    assert(store.without(id).index.remove(id) =~= store.without(id).index);
    if !store.index.contains_key(id) {
        assert(store.index.remove(id) =~= store.index);
    }
}

/// Sweeping and looking up agree: after a sweep at `now` nothing that had
/// expired by then is left, nothing else is lost, and a second sweep at the
/// same time changes nothing.
pub proof fn lemma_sweep(store: FileStoreView, id: Seq<char>, now: u64)
    ensures
        store.swept(now).index.contains_key(id) <==> store.index.contains_key(id) && !store.expired(
            id,
            now,
        ),
        store.swept(now).index.contains_key(id) ==> store.swept(now).index[id] == store.index[id],
        store.swept(now).swept(now) == store.swept(now),
        store.expired(id, now) ==> store.after_lookup(id, now).swept(now) == store.swept(now),
{
    assert(store.swept(now).swept(now).index =~= store.swept(now).index);
    if store.expired(id, now) {
        assert(store.after_lookup(id, now).swept(now).index =~= store.swept(now).index);
    }
}

impl FileStore {
    #[verifier::type_invariant]
    spec fn well_formed(self) -> bool {
        distinct(self.records@) && safe(self.records@)
    }

    /// An empty store with the limits of `config`. `windows_names` says
    /// whether names are sanitized by the rules for Windows too.
    pub fn new(config: &SanitizedConfig, windows_names: bool) -> (r: Self)
        ensures
            r@ == (FileStoreView {
                index: Map::empty(),
                root: config@.storage_dir,
                max_file_bytes: config@.max_file_bytes,
                default_ttl: config@.default_ttl,
                min_ttl: config@.min_ttl,
                windows_names,
            }),
            r@.ids_are_safe(),
    {
        let r = FileStore {
            records: Vec::new(),
            root: config.storage_dir.clone(),
            max_file_bytes: config.max_file_bytes,
            default_ttl: config.default_ttl,
            min_ttl: config.min_ttl,
            windows_names,
        };
        assert(index_of(r.records@) =~= Map::<Seq<char>, EntryView>::empty());
        r
    }

    /// How many files are stored.
    pub fn len(&self) -> (r: usize)
        ensures
            r == self@.index.dom().len(),
            self@.index.dom().finite(),
            self@.ids_are_safe(),
    {
        proof {
            use_type_invariant(self);
            lemma_count(self.records@);
            lemma_safe(self.records@);
        }
        self.records.len()
    }

    /// Where the bytes stored under `id` lie.
    pub fn location(&self, id: &str) -> (r: String)
        ensures
            r@ == location(self@.root, id@),
    {
        if self.root.as_str().unicode_len() == 0 || ends_with(self.root.as_str(), "/") {
            append(self.root.as_str(), id)
        } else {
            append(append(self.root.as_str(), "/").as_str(), id)
        }
    }

    spec fn same_limits(self, other: FileStore) -> bool {
        &&& self.root == other.root
        &&& self.max_file_bytes == other.max_file_bytes
        &&& self.default_ttl == other.default_ttl
        &&& self.min_ttl == other.min_ttl
        &&& self.windows_names == other.windows_names
    }

    /// Takes the records out of the store, to work on them.
    fn take_records(&mut self) -> (r: Vec<FileRecord>)
        ensures
            r@ == old(self).records@,
            distinct(r@),
            safe(r@),
            final(self).records@.len() == 0,
            final(self).same_limits(*old(self)),
    {
        proof {
            use_type_invariant(&*self);
        }
        let mut records: Vec<FileRecord> = Vec::new();
        std::mem::swap(&mut self.records, &mut records);
        records
    }

    /// Puts records back into the store.
    fn put_records(&mut self, records: Vec<FileRecord>)
        requires
            distinct(records@),
            safe(records@),
        ensures
            final(self).records@ == records@,
            final(self).same_limits(*old(self)),
            final(self)@.ids_are_safe(),
    {
        let mut records = records;
        proof {
            lemma_safe(records@);
        }
        std::mem::swap(&mut self.records, &mut records);
    }

    fn file_of(&self, record: &FileRecord) -> (r: StoredFile)
        ensures
            r@ == (StoredFileView {
                entry: record.entry(),
                path: location(self.root@, record.id@),
            }),
    {
        StoredFile {
            file_name: record.file_name.clone(),
            content_type: record.content_type.clone(),
            size: record.size,
            path: self.location(record.id.as_str()),
            expires_at: record.expires_at,
        }
    }

    /// Accepts or refuses a file before any of its bytes are written, and
    /// chooses the identifier under which an accepted one is written. The
    /// name given is sanitized; it is kept for show and takes no part in
    /// where the bytes lie.
    pub fn reserve(&self, file_name: &str, bytes: &[u8]) -> (r: Result<Reservation, UploadServerError>)
        ensures
            match r {
                Ok(reservation) => self@.admits(file_name@, bytes@.len() as u64) is Ok
                    && reservation.spec_file_name() == sanitized_name(
                    file_name@,
                    self@.windows_names,
                ) && reservation.spec_size() == bytes@.len(),
                Err(e) => self@.admits(file_name@, bytes@.len() as u64) == Err::<
                    (),
                    UploadServerErrorView,
                >(e@),
            },
    {
        let size = bytes.len() as u64;
        if size > self.max_file_bytes {
            return Err(UploadServerError::FileTooLarge { max_bytes: self.max_file_bytes });
        }
        let safe_name = sanitize_file_name(file_name, self.windows_names);
        if safe_name.as_str().unicode_len() == 0 {
            return Err(UploadServerError::BadRequest(TEXT_EMPTY_NAME.to_string()));
        }
        Ok(Reservation { id: fresh_id(), file_name: safe_name, size })
    }

    /// Whether a file stored at `now` with the lifetime `ttl` expires at a
    /// second that can be counted, so that it can be saved.
    pub fn can_save_at(&self, ttl: Option<u64>, now: u64) -> (r: bool)
        ensures
            r == (expiry(ttl, self@.default_ttl, self@.min_ttl, now) <= u64::MAX),
    {
        let asked = match ttl {
            Some(t) => t,
            None => self.default_ttl,
        };
        let lasting = if asked >= self.min_ttl {
            asked
        } else {
            self.min_ttl
        };
        lasting <= u64::MAX - now
    }

    /// Enters a file, whose bytes have been written, into the index. It
    /// expires `lifetime` seconds after `now`, which must be a second that
    /// can be counted.
    pub fn save(
        &mut self,
        reservation: Reservation,
        content_type: Option<String>,
        ttl: Option<u64>,
        now: u64,
    ) -> (r: SavedFile)
        requires
            expiry(ttl, old(self)@.default_ttl, old(self)@.min_ttl, now) <= u64::MAX,
        ensures
            r.id@ == reservation.spec_id(),
            r.file_name@ == reservation.spec_file_name(),
            r.size == reservation.spec_size(),
            opt_view(r.content_type) == opt_view(content_type),
            r.expires_at == expiry(ttl, old(self)@.default_ttl, old(self)@.min_ttl, now),
            final(self)@ == old(self)@.with(
                r.id@,
                EntryView {
                    file_name: r.file_name@,
                    content_type: opt_view(content_type),
                    size: r.size,
                    expires_at: r.expires_at,
                },
            ),
            final(self)@.ids_are_safe(),
    {
        proof {
            use_type_invariant(&*self);
            use_type_invariant(&reservation);
        }
        let expires_at = compute_expiry(ttl, self.default_ttl, self.min_ttl, now);
        let saved = SavedFile {
            id: reservation.id.clone(),
            file_name: reservation.file_name.clone(),
            size: reservation.size,
            content_type: content_type.clone(),
            expires_at,
        };
        let record = FileRecord {
            id: reservation.id,
            file_name: reservation.file_name,
            content_type,
            size: reservation.size,
            expires_at,
        };
        let mut records = self.take_records();
        let ghost before = records@;
        let found = find(&records, record.id.as_str());
        match found {
            Some(i) => {
                proof {
                    lemma_remove(before, i as int);
                    lemma_push(before.remove(i as int), record);
                    assert(index_of(before).remove(record.id@).insert(record.id@, record.entry())
                        =~= index_of(before).insert(record.id@, record.entry()));
                }
                records.remove(i);
                records.push(record);
            },
            None => {
                proof {
                    lemma_push(before, record);
                }
                records.push(record);
            },
        }
        self.put_records(records);
        saved
    }

    /// Looks `id` up at `now`. An entry that has expired leaves the index.
    pub fn get(&mut self, id: &str, now: u64) -> (r: Lookup)
        ensures
            r@ == old(self)@.lookup(id@, now),
            final(self)@ == old(self)@.after_lookup(id@, now),
            final(self)@.ids_are_safe(),
    {
        proof {
            use_type_invariant(&*self);
        }
        let mut records = self.take_records();
        let found = find(&records, id);
        let r = match found {
            Some(i) => {
                proof {
                    lemma_at(records@, i as int);
                    lemma_remove(records@, i as int);
                }
                let file = self.file_of(&records[i]);
                if records[i].expires_at <= now {
                    records.remove(i);
                    Lookup::Expired(file)
                } else {
                    Lookup::Found(file)
                }
            },
            None => Lookup::Missing,
        };
        self.put_records(records);
        r
    }

    /// Takes `id` out of the index. Where it was stored, the path of its
    /// bytes is handed back for removal; where it was not, nothing changes.
    pub fn delete(&mut self, id: &str) -> (r: Option<String>)
        ensures
            final(self)@ == old(self)@.without(id@),
            match r {
                Some(path) => old(self)@.index.contains_key(id@) && path@ == location(
                    old(self)@.root,
                    id@,
                ),
                None => !old(self)@.index.contains_key(id@) && final(self)@ == old(self)@,
            },
            final(self)@.ids_are_safe(),
    {
        proof {
            use_type_invariant(&*self);
        }
        let mut records = self.take_records();
        let found = find(&records, id);
        let r = match found {
            Some(i) => {
                proof {
                    lemma_at(records@, i as int);
                    lemma_remove(records@, i as int);
                }
                records.remove(i);
                Some(self.location(id))
            },
            None => {
                assert(index_of(records@).remove(id@) =~= index_of(records@));
                None
            },
        };
        self.put_records(records);
        r
    }
}

spec fn among(rs: Seq<FileRecord>, from: int, r: FileRecord) -> bool {
    exists|m: int| from <= m < rs.len() && #[trigger] rs[m] == r
}

spec fn expired_among(rs: Seq<FileRecord>, from: int, now: u64, id: Seq<char>) -> bool {
    exists|m: int| from <= m < rs.len() && (#[trigger] rs[m]).expires_at <= now && rs[m].id@ == id
}

impl FileStore {
    /// Takes every entry that has expired at `now` out of the index and
    /// hands back their identifiers, so that their bytes can be removed.
    pub fn cleanup_expired(&mut self, now: u64) -> (removed: Vec<String>)
        ensures
            final(self)@ == old(self)@.swept(now),
            forall|id: Seq<char>| views(removed@).contains(id) <==> old(self)@.expired(id, now),
            final(self)@.ids_are_safe(),
    {
        let mut rest = self.take_records();
        let ghost all = rest@;
        let mut kept: Vec<FileRecord> = Vec::new();
        let mut removed: Vec<String> = Vec::new();
        while rest.len() > 0
            invariant
                distinct(all),
                rest@ == all.take(rest.len() as int),
                rest.len() <= all.len(),
                distinct(kept@),
                forall|j: int|
                    0 <= j < kept.len() ==> (#[trigger] kept@[j]).expires_at > now && among(
                        all,
                        rest.len() as int,
                        kept@[j],
                    ),
                forall|m: int|
                    rest.len() <= m < all.len() && (#[trigger] all[m]).expires_at > now ==> among(
                        kept@,
                        0,
                        all[m],
                    ),
                forall|a: int|
                    0 <= a < removed.len() ==> expired_among(
                        all,
                        rest.len() as int,
                        now,
                        #[trigger] views(removed@)[a],
                    ),
                forall|m: int|
                    rest.len() <= m < all.len() && (#[trigger] all[m]).expires_at <= now ==> views(
                        removed@,
                    ).contains(all[m].id@),
            decreases rest.len(),
        {
            let ghost n = rest.len() - 1;
            let ghost kept_before = kept@;
            let ghost removed_before = views(removed@);
            let record = rest.pop().unwrap();
            if record.expires_at <= now {
                removed.push(record.id);
                proof {
                    let removed_now = views(removed@);
                    assert forall|a: int| 0 <= a < removed.len() implies expired_among(
                        all,
                        n,
                        now,
                        #[trigger] removed_now[a],
                    ) by {
                        if a < removed_before.len() {
                            let m = choose|m: int|
                                n + 1 <= m < all.len() && (#[trigger] all[m]).expires_at <= now
                                    && all[m].id@ == removed_before[a];
                            assert(all[m].id@ == removed_now[a]);
                        }
                    }
                    assert forall|m: int|
                        n <= m < all.len() && (#[trigger] all[m]).expires_at <= now implies removed_now.contains(
                        all[m].id@,
                    ) by {
                        if m == n {
                            assert(removed_now[removed_before.len() as int] == all[n].id@);
                        } else {
                            let a = choose|a: int|
                                0 <= a < removed_before.len() && removed_before[a] == all[m].id@;
                            assert(removed_now[a] == all[m].id@);
                        }
                    }
                }
            } else {
                proof {
                    lemma_push(kept_before, all[n]);
                }
                kept.push(record);
                proof {
                    assert forall|m: int|
                        n <= m < all.len() && (#[trigger] all[m]).expires_at > now implies among(
                        kept@,
                        0,
                        all[m],
                    ) by {
                        if m == n {
                            assert(kept@[kept_before.len() as int] == all[n]);
                        } else {
                            let j = choose|j: int|
                                0 <= j < kept_before.len() && #[trigger] kept_before[j] == all[m];
                            assert(kept@[j] == all[m]);
                        }
                    }
                }
            }
        }
        proof {
            let gone = views(removed@);
            assert forall|id: Seq<char>| taken(kept@, id) <==> (taken(all, id) && at(
                all,
                id,
            ).expires_at > now) by {
                if taken(kept@, id) {
                    let j = choose|j: int| 0 <= j < kept.len() && (#[trigger] kept@[j]).id@ == id;
                    let m = choose|m: int| 0 <= m < all.len() && #[trigger] all[m] == kept@[j];
                    lemma_at(all, m);
                }
                if taken(all, id) && at(all, id).expires_at > now {
                    let m = choose|m: int| 0 <= m < all.len() && (#[trigger] all[m]).id@ == id;
                    lemma_at(all, m);
                }
            }
            assert forall|id: Seq<char>| taken(kept@, id) implies #[trigger] at(kept@, id) == at(
                all,
                id,
            ) by {
                let j = choose|j: int| 0 <= j < kept.len() && (#[trigger] kept@[j]).id@ == id;
                lemma_at(kept@, j);
                let m = choose|m: int| 0 <= m < all.len() && #[trigger] all[m] == kept@[j];
                lemma_at(all, m);
            }
            assert(index_of(kept@) =~= old(self)@.swept(now).index);
            assert forall|id: Seq<char>| gone.contains(id) <==> old(self)@.expired(id, now) by {
                if gone.contains(id) {
                    let a = choose|a: int| 0 <= a < gone.len() && gone[a] == id;
                    let m = choose|m: int|
                        0 <= m < all.len() && (#[trigger] all[m]).expires_at <= now && all[m].id@
                            == gone[a];
                    lemma_at(all, m);
                }
                if old(self)@.expired(id, now) {
                    let m = choose|m: int| 0 <= m < all.len() && (#[trigger] all[m]).id@ == id;
                    lemma_at(all, m);
                }
            }
        }
        self.put_records(kept);
        removed
    }
}

fn find(records: &Vec<FileRecord>, id: &str) -> (r: Option<usize>)
    ensures
        match r {
            Some(i) => i < records.len() && records@[i as int].id@ == id@,
            None => !taken(records@, id@),
        },
{
    let mut i: usize = 0;
    while i < records.len()
        invariant
            i <= records.len(),
            forall|k: int| 0 <= k < i ==> (#[trigger] records@[k]).id@ != id@,
        decreases records.len() - i,
    {
        if same_text(records[i].id.as_str(), id) {
            return Some(i);
        }
        i += 1;
    }
    None
}

proof fn lemma_count(rs: Seq<FileRecord>)
    requires
        distinct(rs),
    ensures
        index_of(rs).dom().finite(),
        index_of(rs).dom().len() == rs.len(),
    decreases rs.len(),
{
    if rs.len() == 0 {
        assert(index_of(rs).dom() =~= Set::<Seq<char>>::empty());
    } else {
        let last = rs.len() - 1;
        let front = rs.remove(last);
        lemma_remove(rs, last);
        lemma_count(front);
        lemma_at(rs, last);
    }
}

} // verus!
