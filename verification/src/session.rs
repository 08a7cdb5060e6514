//! A session: a backend and a configuration, and the records of the store
//! that the configuration names.
//!
//! The store is a directory that holds one file for each record, named by
//! the label of the record. Nothing here touches the directory: the caller
//! lists, reads, writes and removes, and the session says what and decides
//! what comes of it.

use vstd::prelude::*;
use vstd::string::*;

use crate::backend::{decrypt_error, decrypted, decrypts_to, encrypt_failure, sealed_for, Backend,
    RageLib};
use crate::config::{join_path, joined_path, Config};
use crate::error::{outcome, Error, ErrorKind};
use crate::record::{Record, RecordView};
use crate::agent::Client;
use crate::backend::{encrypt_refusal, public_key_checked};
use crate::protocol::{FailureView, Request, RequestBodyView, RequestView, Response, ResponseView,
    PROTOCOL_VERSION};
use crate::text::{join, texts, wipe};

verus! {

/// An entry of the store directory, as a listing of the directory gives it.
#[derive(Debug)]
pub struct StoreEntry {
    /// The name of the entry; where it is not UTF-8, the name as `Debug`
    /// prints it.
    pub name: Result<String, String>,
    /// Whether the entry is a regular file.
    pub is_file: bool,
}

/// What reading a file came to.
#[derive(Debug)]
pub enum FileRead {
    /// The file was read: its contents.
    Found(String),
    /// There is no such file.
    Missing,
    /// Reading failed otherwise: the message of the error.
    Failed(String),
}

/// What removing a file came to.
#[derive(Debug)]
pub enum Removal {
    /// The file was removed.
    Removed,
    /// There is no such file.
    Missing,
    /// Removing failed otherwise: the message of the error.
    Failed(String),
}

/// A file to write to the store, in a single write.
#[derive(Debug)]
pub struct StoreWrite {
    /// The label of the record, which is the name of the file.
    pub label: String,
    /// The path of the file.
    pub path: String,
    /// What the file is to hold: the encrypted record.
    pub contents: String,
}

/// What renaming a record asks of the store: first the write, then the
/// removal.
#[derive(Debug)]
pub struct Rename {
    /// The file to write.
    pub write: StoreWrite,
    /// The label of the record to remove.
    pub remove: String,
}

/// A store, as a mathematical value: the encrypted record under each label.
pub type Store = Map<Seq<char>, Seq<char>>;

/// The labels of the regular files among `entries[from..]`, in order; or,
/// where one of these has a name that is not UTF-8, that name.
pub open spec fn labels_of(entries: Seq<StoreEntry>, from: int) -> Result<Seq<Seq<char>>, Seq<char>>
    decreases entries.len() - from,
{
    if from < 0 || from >= entries.len() {
        Ok(Seq::empty())
    } else if !entries[from].is_file {
        labels_of(entries, from + 1)
    } else {
        match entries[from].name {
            Err(raw) => Err(raw@),
            Ok(name) => match labels_of(entries, from + 1) {
                Ok(rest) => Ok(seq![name@] + rest),
                Err(raw) => Err(raw),
            },
        }
    }
}

impl StoreEntry {
    /// Whether this entry is a regular file named `label`.
    pub open spec fn is_record(&self, label: Seq<char>) -> bool {
        self.is_file && self.name is Ok && self.name->Ok_0@ == label
    }
}

/// Whether `entries` holds a regular file named `label`.
pub open spec fn has_label(entries: Seq<StoreEntry>, label: Seq<char>) -> bool {
    exists|i: int| 0 <= i < entries.len() && #[trigger] entries[i].is_record(label)
}

/// Whether no two regular files of `entries` have the same name, as holds
/// of the entries of one directory.
pub open spec fn distinct_files(entries: Seq<StoreEntry>) -> bool {
    forall|i: int, j: int|
        0 <= i < j < entries.len() && (#[trigger] entries[i]).is_file && (
        #[trigger] entries[j]).is_file && entries[i].name is Ok && entries[j].name is Ok
            ==> entries[i].name->Ok_0@ != entries[j].name->Ok_0@
}

/// Whether `entries` is a listing of the directory of `store`: its regular
/// files are the records of the store, each under its label, and each
/// listed once.
pub open spec fn lists(store: Store, entries: Seq<StoreEntry>) -> bool {
    &&& forall|label: Seq<char>| #[trigger] store.contains_key(label) ==> has_label(entries, label)
    &&& forall|i: int|
        0 <= i < entries.len() && (#[trigger] entries[i]).is_file ==> entries[i].name is Ok
            && store.contains_key(entries[i].name->Ok_0@)
    &&& distinct_files(entries)
}

/// The store after the writes `writes`, each a label and what is written
/// under it, were made in order.
pub open spec fn written(store: Store, writes: Seq<(Seq<char>, Seq<char>)>) -> Store
    decreases writes.len(),
{
    if writes.len() == 0 {
        store
    } else {
        written(store, writes.drop_last()).insert(writes.last().0, writes.last().1)
    }
}

/// The store after a record was renamed: the write is made, then the old
/// label is removed.
pub open spec fn renamed(store: Store, old: Seq<char>, new: Seq<char>, contents: Seq<char>) -> Store {
    store.insert(new, contents).remove(old)
}

/// What is needed to work with records.
pub struct Session<'a> {
    /// The backend that encrypts and decrypts records.
    pub backend: RageLib,
    /// The configuration.
    pub config: &'a Config,
}

impl<'a> Session<'a> {
    /// The path of the file of the record `label`.
    pub fn record_path(&self, label: &str) -> (path: String)
        ensures
            path@ == joined_path(self.config.store@, label@),
    {
        join_path(self.config.store.as_str(), label)
    }

    /// The labels of the records, from a listing of the store directory;
    /// `listing` is `None` where the store is no directory.
    ///
    /// Entries that are not regular files are passed over. Fails, with an
    /// error of kind `Config`, where the store is no directory, or a regular
    /// file has a name that is not UTF-8.
    pub fn record_labels(&self, listing: Option<Vec<StoreEntry>>) -> (labels: Result<
        Vec<String>,
        Error,
    >)
        ensures
            listing is None ==> (labels matches Err(e) && e@ == (
                ErrorKind::Config,
                "secret store is not a directory"@,
            )),
            listing matches Some(entries) ==> match labels_of(entries@, 0) {
                Ok(names) => labels matches Ok(l) && texts(l@) == names,
                Err(raw) => labels matches Err(e) && e@ == (
                    ErrorKind::Config,
                    "unrepresentable record label: "@ + raw,
                ),
            },
    {
        let mut entries = match listing {
            Some(entries) => entries,
            None => return Err(Error::new(ErrorKind::Config, "secret store is not a directory")),
        };
        let ghost all = entries@;
        let mut labels: Vec<String> = Vec::new();
        // The entries are taken from the end, so that each name is moved
        // out of the listing; the labels are put in order afterwards.
        let mut reversed: Vec<String> = Vec::new();
        let mut bad: Option<String> = None;
        assert(texts(reversed@) =~= Seq::<Seq<char>>::empty());
        while entries.len() > 0
            invariant
                entries@.len() <= all.len(),
                entries@ == all.take(entries@.len() as int),
                match labels_of(all, entries@.len() as int) {
                    Ok(names) => bad is None && texts(reversed@).reverse() == names,
                    Err(raw) => bad matches Some(b) && b@ == raw,
                },
            decreases entries.len(),
        {
            let ghost before = entries@;
            let entry = entries.pop().unwrap();
            proof {
                assert(entry == before.last());
                assert(entries@ =~= all.take(entries@.len() as int));
            }
            if entry.is_file {
                match entry.name {
                    Err(raw) => {
                        bad = Some(raw);
                    },
                    Ok(name) => {
                        proof {
                            let before = texts(reversed@);
                            assert(texts(reversed@.push(name)) =~= before.push(name@));
                            assert(before.push(name@).reverse() =~= seq![name@] + before.reverse());
                        }
                        reversed.push(name);
                    },
                }
            }
        }
        match bad {
            Some(raw) => Err(
                Error {
                    kind: ErrorKind::Config,
                    message: join("unrepresentable record label: ", raw.as_str()),
                },
            ),
            None => {
                let ghost wanted = texts(reversed@).reverse();
                assert(texts(labels@) =~= Seq::<Seq<char>>::empty());
                while reversed.len() > 0
                    invariant
                        texts(labels@) + texts(reversed@).reverse() == wanted,
                    decreases reversed.len(),
                {
                    let ghost before = reversed@;
                    let name = reversed.pop().unwrap();
                    proof {
                        assert(before == reversed@.push(name));
                        assert(texts(before) =~= texts(reversed@).push(name@));
                        assert(texts(before).reverse() =~= seq![name@] + texts(reversed@).reverse());
                        assert(texts(labels@.push(name)) =~= texts(labels@).push(name@));
                        assert(texts(labels@).push(name@) + texts(reversed@).reverse() =~= texts(
                            labels@,
                        ) + (seq![name@] + texts(reversed@).reverse()));
                    }
                    labels.push(name);
                }
                proof {
                    assert(texts(reversed@).reverse() =~= Seq::<Seq<char>>::empty());
                    assert(texts(labels@) + Seq::<Seq<char>>::empty() =~= texts(labels@));
                }
                Ok(labels)
            },
        }
    }

    /// Whether the store holds the record `label`, from a listing of the
    /// store directory: it does exactly where a regular file has that name.
    pub fn has_record(&self, label: &str, entries: &Vec<StoreEntry>) -> (has: bool)
        ensures
            has == has_label(entries@, label@),
    {
        let mut i: usize = 0;
        while i < entries.len()
            invariant
                i <= entries.len(),
                forall|j: int| 0 <= j < i ==> !(#[trigger] entries@[j].is_record(label@)),
            decreases entries.len() - i,
        {
            if entries[i].is_file {
                match &entries[i].name {
                    Ok(name) => {
                        if name.as_str().eq(label) {
                            assert(entries@[i as int].is_record(label@));
                            return true;
                        }
                    },
                    Err(_) => {},
                }
            }
            i += 1;
        }
        false
    }

    /// The record `label`, from what reading its file came to.
    ///
    /// Fails with `NoSuchRecord` where there is no such file, with `Io`
    /// where reading failed otherwise, and as `decrypt` does on what the
    /// file holds.
    pub fn get_record(&self, label: &str, read: FileRead) -> (record: Result<Record, Error>)
        ensures
            match read {
                FileRead::Found(contents) => decrypts_to(
                    self.backend.identity@,
                    contents@,
                    outcome(record),
                ),
                FileRead::Missing => record matches Err(e) && e@ == (
                    ErrorKind::NoSuchRecord,
                    "no such record: "@ + label@,
                ),
                FileRead::Failed(why) => record matches Err(e) && e@ == (ErrorKind::Io, why@),
            },
    {
        match read {
            FileRead::Found(contents) => self.backend.decrypt(contents.as_str()),
            FileRead::Missing => Err(
                Error { kind: ErrorKind::NoSuchRecord, message: join("no such record: ", label) },
            ),
            FileRead::Failed(why) => Err(Error { kind: ErrorKind::Io, message: why }),
        }
    }

    /// The file to write for `record`: it is named by the label of the
    /// record, and holds the record encrypted to the public key of the
    /// backend, so that `get_record` gives the record again. Fails as
    /// `encrypt` does.
    pub fn add_record(&self, record: &Record) -> (write: Result<StoreWrite, Error>)
        ensures
            write matches Ok(w) ==> {
                &&& w.label@ == record.label@
                &&& w.path@ == joined_path(self.config.store@, record.label@)
                &&& self.backend.keeps(record@, w.contents@)
                &&& sealed_for(self.backend.pubkey@, record@.json(), w.contents@)
            },
            write matches Err(e) ==> encrypt_failure(self.backend.pubkey@, e@),
            encrypt_refusal(self.backend.pubkey@) matches Some(refusal) ==> (write matches Err(e)
                && e@ == refusal),
    {
        let contents = self.backend.encrypt(record)?;
        Ok(self.store_write(record, contents))
    }

    /// The file to write for `record`, from the envelope that holds it: it
    /// is named by the label of the record, lies in the store directory, and
    /// holds the envelope.
    pub fn store_write(&self, record: &Record, contents: String) -> (write: StoreWrite)
        ensures
            write.label@ == record.label@,
            write.path@ == joined_path(self.config.store@, record.label@),
            write.contents@ == contents@,
    {
        StoreWrite {
            label: record.label.clone(),
            path: self.record_path(record.label.as_str()),
            contents,
        }
    }

    /// What renaming the record `old` asks of the store, from the file to
    /// write for it under its new label: that write, then the removal of
    /// `old`.
    pub fn rename_of(old: &str, write: StoreWrite) -> (rename: Rename)
        ensures
            rename.remove@ == old@,
            rename.write == write,
    {
        Rename { write, remove: old.to_owned() }
    }

    /// Takes in what removing the file of the record `label` came to.
    ///
    /// Fails with `NoSuchRecord` where there was no such file, and with `Io`
    /// where removing failed otherwise.
    pub fn delete_record(&self, label: &str, removal: Removal) -> (done: Result<(), Error>)
        ensures
            match removal {
                Removal::Removed => done is Ok,
                Removal::Missing => done matches Err(e) && e@ == (
                    ErrorKind::NoSuchRecord,
                    "no such record: "@ + label@,
                ),
                Removal::Failed(why) => done matches Err(e) && e@ == (ErrorKind::Io, why@),
            },
    {
        match removal {
            Removal::Removed => Ok(()),
            Removal::Missing => Err(
                Error { kind: ErrorKind::NoSuchRecord, message: join("no such record: ", label) },
            ),
            Removal::Failed(why) => Err(Error { kind: ErrorKind::Io, message: why }),
        }
    }

    /// Whether `rename` is what renaming the record `old` to `new` comes
    /// to, where reading the file of `old` came to `read`.
    pub open spec fn renames(
        &self,
        old: Seq<char>,
        new: Seq<char>,
        read: FileRead,
        rename: Result<Rename, Error>,
    ) -> bool {
        if old == new {
            rename matches Err(e) && e@ == (
                ErrorKind::Usage,
                "refusing to rename a record to its own label"@,
            )
        } else {
            match read {
                FileRead::Found(contents) => match decrypted(self.backend.identity@, contents@) {
                    Ok(record) => match encrypt_refusal(self.backend.pubkey@) {
                        Some(refusal) => rename matches Err(e) && e@ == refusal,
                        None => match rename {
                            Ok(r) => {
                                &&& r.remove@ == old
                                &&& r.write.label@ == new
                                &&& r.write.path@ == joined_path(self.config.store@, new)
                                &&& self.backend.keeps(record.relabeled(new), r.write.contents@)
                                &&& sealed_for(
                                    self.backend.pubkey@,
                                    record.relabeled(new).json(),
                                    r.write.contents@,
                                )
                            },
                            Err(e) => encrypt_failure(self.backend.pubkey@, e@),
                        },
                    },
                    Err(_) => rename matches Err(e) && decrypt_error(
                        self.backend.identity@,
                        contents@,
                        e@,
                    ),
                },
                FileRead::Missing => rename matches Err(e) && e@ == (
                    ErrorKind::NoSuchRecord,
                    "no such record: "@ + old,
                ),
                FileRead::Failed(why) => rename matches Err(e) && e@ == (ErrorKind::Io, why@),
            }
        }
    }

    /// What renaming the record `old` to `new` asks of the store, from what
    /// reading the file of `old` came to: the record is written under the
    /// new label, with the new label in it and all else as it was, and the
    /// old file is removed after that.
    ///
    /// Fails, with an error of kind `Usage`, where the two labels are the
    /// same: the record would be written and then removed. Else it fails as
    /// `get_record` does for `old`, and as `encrypt` does.
    pub fn rename_record(&self, old: &str, new: &str, read: FileRead) -> (rename: Result<
        Rename,
        Error,
    >)
        ensures
            self.renames(old@, new@, read, rename),
    {
        if old.eq(new) {
            return Err(
                Error::new(ErrorKind::Usage, "refusing to rename a record to its own label"),
            );
        }
        let record = self.get_record(old, read)?;
        let mut record = record.relabel(new);
        let write = self.add_record(&record);
        record.zeroize();
        match write {
            Ok(write) => Ok(Self::rename_of(old, write)),
            Err(e) => Err(e),
        }
    }
}

/// Refuses to overwrite a record: fails, with an error of kind `Usage`,
/// exactly where the record is there and overwriting was not allowed.
pub fn guard_overwrite(exists: bool, force: bool) -> (allowed: Result<(), Error>)
    ensures
        exists && !force ==> (allowed matches Err(e) && e@ == (
            ErrorKind::Usage,
            "refusing to overwrite a record without --force"@,
        )),
        !(exists && !force) ==> allowed is Ok,
{
    if exists && !force {
        Err(Error::new(ErrorKind::Usage, "refusing to overwrite a record without --force"))
    } else {
        Ok(())
    }
}


/// The labels that were written to.
pub open spec fn written_labels(writes: Seq<(Seq<char>, Seq<char>)>) -> Set<Seq<char>> {
    Set::new(|label: Seq<char>| exists|i: int| 0 <= i < writes.len() && (#[trigger] writes[i]).0 == label)
}

proof fn lemma_written_labels(writes: Seq<(Seq<char>, Seq<char>)>)
    ensures
        written(Map::empty(), writes).dom() == written_labels(writes),
    decreases writes.len(),
{
    if writes.len() == 0 {
        assert(written(Map::empty(), writes).dom() =~= written_labels(writes));
    } else {
        let front = writes.drop_last();
        lemma_written_labels(front);
        assert forall|label: Seq<char>|
            written(Map::empty(), writes).dom().contains(label) <==> written_labels(
                writes,
            ).contains(label) by {
            if written_labels(writes).contains(label) {
                let i = choose|i: int| 0 <= i < writes.len() && (#[trigger] writes[i]).0 == label;
                if i < front.len() {
                    assert(front[i].0 == label);
                    assert(written_labels(front).contains(label));
                }
            }
            if written(Map::empty(), writes).dom().contains(label) {
                if label != writes.last().0 {
                    assert(written_labels(front).contains(label));
                    let i = choose|i: int| 0 <= i < front.len() && (#[trigger] front[i]).0 == label;
                    assert(writes[i].0 == label);
                } else {
                    assert(writes[writes.len() - 1].0 == label);
                }
            }
        }
        assert(written(Map::empty(), writes).dom() =~= written_labels(writes));
    }
}

proof fn lemma_labels_of(entries: Seq<StoreEntry>, from: int)
    requires
        0 <= from <= entries.len(),
        forall|i: int| from <= i < entries.len() && (#[trigger] entries[i]).is_file ==> entries[i].name is Ok,
    ensures
        labels_of(entries, from) is Ok,
        forall|label: Seq<char>|
            labels_of(entries, from)->Ok_0.contains(label) <==> exists|i: int|
                from <= i < entries.len() && #[trigger] entries[i].is_record(label),
    decreases entries.len() - from,
{
    if from < entries.len() {
        lemma_labels_of(entries, from + 1);
        let rest = labels_of(entries, from + 1)->Ok_0;
        let all = labels_of(entries, from)->Ok_0;
        assert forall|label: Seq<char>|
            all.contains(label) <==> exists|i: int|
                from <= i < entries.len() && #[trigger] entries[i].is_record(label) by {
            if entries[from].is_file {
                let name = entries[from].name->Ok_0@;
                assert(all == seq![name] + rest);
                if all.contains(label) {
                    let k = choose|k: int| 0 <= k < all.len() && all[k] == label;
                    if k == 0 {
                        assert(entries[from].is_record(label));
                    } else {
                        assert(rest[k - 1] == label);
                        assert(rest.contains(label));
                    }
                }
                if exists|i: int| from <= i < entries.len() && #[trigger] entries[i].is_record(label) {
                    let i = choose|i: int|
                        from <= i < entries.len() && #[trigger] entries[i].is_record(label);
                    if i == from {
                        assert(all[0] == label);
                    } else {
                        assert(rest.contains(label));
                        let k = choose|k: int| 0 <= k < rest.len() && rest[k] == label;
                        assert(all[k + 1] == label);
                    }
                }
            } else {
                assert(all == rest);
                if exists|i: int| from <= i < entries.len() && #[trigger] entries[i].is_record(label) {
                    let i = choose|i: int|
                        from <= i < entries.len() && #[trigger] entries[i].is_record(label);
                    assert(i != from);
                }
            }
        }
    } else {
        assert(labels_of(entries, from)->Ok_0 =~= Seq::<Seq<char>>::empty());
    }
}

proof fn lemma_names_read(entries: Seq<StoreEntry>, from: int)
    requires
        0 <= from <= entries.len(),
        labels_of(entries, from) is Ok,
    ensures
        forall|i: int|
            from <= i < entries.len() && (#[trigger] entries[i]).is_file ==> entries[i].name is Ok,
    decreases entries.len() - from,
{
    if from < entries.len() {
        lemma_names_read(entries, from + 1);
    }
}

proof fn lemma_labels_once(entries: Seq<StoreEntry>, from: int)
    requires
        0 <= from <= entries.len(),
        labels_of(entries, from) is Ok,
        distinct_files(entries),
    ensures
        labels_of(entries, from)->Ok_0.no_duplicates(),
    decreases entries.len() - from,
{
    if from < entries.len() {
        lemma_names_read(entries, from);
        lemma_labels_of(entries, from + 1);
        lemma_labels_once(entries, from + 1);
        let rest = labels_of(entries, from + 1)->Ok_0;
        let all = labels_of(entries, from)->Ok_0;
        if entries[from].is_file {
            let name = entries[from].name->Ok_0@;
            assert(all == seq![name] + rest);
            if rest.contains(name) {
                let i = choose|i: int|
                    from + 1 <= i < entries.len() && #[trigger] entries[i].is_record(name);
                assert(entries[from].is_file && entries[i].is_file);
            }
            assert forall|i: int, j: int|
                0 <= i < all.len() && 0 <= j < all.len() && i != j implies all[i] != all[j] by {
                if i > 0 {
                    assert(all[i] == rest[i - 1]);
                }
                if j > 0 {
                    assert(all[j] == rest[j - 1]);
                }
            }
        }
    }
}

/// The two readings of a listing agree: where `record_labels` gives the
/// labels of a listing, `has_record` finds a label in the listing exactly
/// where it is one of them.
pub proof fn lemma_has_record_agrees(entries: Seq<StoreEntry>, label: Seq<char>)
    requires
        labels_of(entries, 0) is Ok,
    ensures
        has_label(entries, label) <==> labels_of(entries, 0)->Ok_0.contains(label),
{
    lemma_names_read(entries, 0);
    lemma_labels_of(entries, 0);
}

/// Enumeration of the store: after records were written under some labels
/// to a store that was empty, and none was removed, a listing of the store
/// gives those labels and no others, each once; so where each write had a
/// label of its own, it gives as many labels as there were writes.
pub proof fn lemma_store_enumeration(writes: Seq<(Seq<char>, Seq<char>)>, entries: Seq<StoreEntry>)
    requires
        lists(written(Map::empty(), writes), entries),
    ensures
        labels_of(entries, 0) matches Ok(labels) && labels.to_set() == written_labels(writes)
            && labels.no_duplicates(),
        (forall|i: int, j: int| 0 <= i < j < writes.len() ==> writes[i].0 != writes[j].0)
            ==> labels_of(entries, 0)->Ok_0.len() == writes.len(),
{
    let store = written(Map::empty(), writes);
    lemma_written_labels(writes);
    lemma_labels_of(entries, 0);
    lemma_labels_once(entries, 0);
    let labels = labels_of(entries, 0)->Ok_0;
    if forall|i: int, j: int| 0 <= i < j < writes.len() ==> writes[i].0 != writes[j].0 {
        let names = writes.map_values(|w: (Seq<char>, Seq<char>)| w.0);
        assert forall|i: int, j: int|
            0 <= i < names.len() && 0 <= j < names.len() && i != j implies names[i]
            != names[j] by {
            if i < j {
                assert(writes[i].0 != writes[j].0);
            } else {
                assert(writes[j].0 != writes[i].0);
            }
        }
        assert forall|label: Seq<char>| names.to_set().contains(label) <==> written_labels(
            writes,
        ).contains(label) by {
            if names.contains(label) {
                let k = choose|k: int| 0 <= k < names.len() && names[k] == label;
                assert(writes[k].0 == label);
            }
            if written_labels(writes).contains(label) {
                let k = choose|k: int| 0 <= k < writes.len() && (#[trigger] writes[k]).0 == label;
                assert(names[k] == label);
            }
        }
        assert(names.to_set() =~= written_labels(writes));
        names.unique_seq_to_set();
        labels.unique_seq_to_set();
    }
    assert forall|label: Seq<char>| labels.to_set().contains(label) <==> written_labels(
        writes,
    ).contains(label) by {
        if labels.contains(label) {
            let i = choose|i: int| 0 <= i < entries.len() && #[trigger] entries[i].is_record(label);
            assert(entries[i].is_file);
            assert(store.contains_key(label));
        }
        if written_labels(writes).contains(label) {
            assert(store.contains_key(label));
            assert(has_label(entries, label));
        }
    }
    assert(labels.to_set() =~= written_labels(writes));
}

/// Renaming: after the record under `old` was renamed to another label
/// `new`, by a session whose identity belongs to its public key, the store
/// holds nothing under `old`, and what it holds under `new` decrypts to the
/// record with the label `new` and all else as it was.
pub proof fn lemma_rename(
    store: Store,
    old: Seq<char>,
    new: Seq<char>,
    backend: RageLib,
    record: RecordView,
    contents: Seq<char>,
)
    requires
        old != new,
        store.contains_key(old),
        backend.matched(),
        decrypted(backend.identity@, store[old]) == Ok::<RecordView, ErrorKind>(record),
        backend.keeps(record.relabeled(new), contents),
    ensures
        !renamed(store, old, new, contents).contains_key(old),
        renamed(store, old, new, contents).contains_key(new),
        decrypted(backend.identity@, renamed(store, old, new, contents)[new]) == Ok::<
            RecordView,
            ErrorKind,
        >(record.relabeled(new)),
{
}

/// How far the start of a session has come.
#[derive(Debug, Clone, Copy, PartialEq, Eq, Structural)]
pub enum Phase {
    /// An agent is being made sure of.
    Spawning,
    /// The store directory is being made.
    MakingStore,
    /// The bare key file is being read.
    ReadingKey,
    /// The agent is being asked whether it holds the key.
    Querying,
    /// The user is being asked for the passphrase.
    Prompting,
    /// The agent is being asked to unwrap the key.
    Adding,
    /// The agent is being asked for the key.
    Fetching,
    /// The session is ready.
    Done,
}

/// What the caller is to do next while a session starts. A failure of what
/// is asked here ends the start with the error of that failure.
pub enum Step<'a> {
    /// Make sure that an agent runs, as `Agent::spawn` decides, then hand
    /// back `Event::AgentReady`.
    EnsureAgent,
    /// Create the directory at the path, with its parents, if it is not
    /// there; then hand back `Event::StoreReady`.
    CreateStore(String),
    /// Read the file at the path as text, and hand it back in
    /// `Event::Keyfile`.
    ReadKeyfile(String),
    /// Send the request to the agent, and hand its response back in
    /// `Event::Answer`.
    Ask(Request),
    /// Ask the user for the passphrase, and hand it back in
    /// `Event::Password`.
    Prompt,
    /// The session.
    Ready(Session<'a>),
}

/// What the caller hands back while a session starts.
pub enum Event {
    AgentReady,
    StoreReady,
    Keyfile(String),
    Answer(Response),
    Password(String),
}

/// The start of a session: which step comes after which.
pub struct Startup<'a> {
    config: &'a Config,
    phase: Phase,
}

/// The phase that follows `phase` once `event` was handed back, for a
/// configuration with the public key `public_key` of which `wrapped` says
/// whether its key is wrapped; `None` where the start ends with an error.
pub open spec fn next_phase(public_key: Seq<char>, wrapped: bool, phase: Phase, event: Event) -> Option<
    Phase,
> {
    match (phase, event) {
        (Phase::Spawning, Event::AgentReady) => Some(Phase::MakingStore),
        (Phase::MakingStore, Event::StoreReady) => if public_key_checked(public_key) is Err {
            None
        } else if wrapped {
            Some(Phase::Querying)
        } else {
            Some(Phase::ReadingKey)
        },
        (Phase::ReadingKey, Event::Keyfile(text)) => if RageLib::made(public_key, text@) is Ok {
            Some(Phase::Done)
        } else {
            None
        },
        (Phase::Querying, Event::Answer(response)) => match response@ {
            ResponseView::Success(_) => Some(Phase::Fetching),
            ResponseView::Failure(FailureView::Query) => Some(Phase::Prompting),
            _ => None,
        },
        (Phase::Prompting, Event::Password(_)) => Some(Phase::Adding),
        (Phase::Adding, Event::Answer(response)) => match response@ {
            ResponseView::Success(_) => Some(Phase::Fetching),
            _ => None,
        },
        (Phase::Fetching, Event::Answer(response)) => match response@ {
            ResponseView::Success(key) => if RageLib::made(public_key, key) is Ok {
                Some(Phase::Done)
            } else {
                None
            },
            _ => None,
        },
        _ => None,
    }
}

/// The error that the start of a session ends with where `next_phase` gives
/// no phase.
pub open spec fn startup_failure(config: &Config, phase: Phase, event: Event) -> (
    ErrorKind,
    Seq<char>,
) {
    let unexpected = (ErrorKind::Usage, "unexpected event while starting a session"@);
    match (phase, event) {
        (Phase::MakingStore, Event::StoreReady) => match public_key_checked(config.public_key@) {
            Err(failure) => failure,
            Ok(_) => unexpected,
        },
        (Phase::ReadingKey, Event::Keyfile(text)) => match RageLib::made(
            config.public_key@,
            text@,
        ) {
            Err(failure) => failure,
            Ok(_) => unexpected,
        },
        (Phase::Querying, Event::Answer(response)) => match response@ {
            ResponseView::Failure(k) => (
                k.error_kind(),
                "querying key from agent failed: "@ + k.debug(),
            ),
            _ => unexpected,
        },
        (Phase::Adding, Event::Answer(response)) => match response@ {
            ResponseView::Failure(k) => (k.error_kind(), "adding key to agent failed: "@ + k.debug()),
            _ => unexpected,
        },
        (Phase::Fetching, Event::Answer(response)) => match response@ {
            ResponseView::Failure(k) => (
                k.error_kind(),
                "agent has no unwrapped key for "@ + config.keyfile@,
            ),
            ResponseView::Success(key) => match RageLib::made(config.public_key@, key) {
                Err(failure) => failure,
                Ok(_) => unexpected,
            },
        },
        _ => unexpected,
    }
}

/// Whether `step` is the step that leads into `phase`, after `event`, for
/// the configuration `config`.
pub open spec fn step_fits(config: &Config, phase: Phase, event: Event, step: Step) -> bool {
    match phase {
        Phase::Spawning => step is EnsureAgent,
        Phase::MakingStore => step is CreateStore && step->CreateStore_0@ == config.store@,
        Phase::ReadingKey => step is ReadKeyfile && step->ReadKeyfile_0@ == config.keyfile@,
        Phase::Querying => step is Ask && step->Ask_0@ == (RequestView {
            protocol: PROTOCOL_VERSION,
            body: RequestBodyView::QueryUnwrappedKey(config.public_key@),
        }),
        Phase::Prompting => step is Prompt,
        Phase::Adding => step is Ask && event is Password && step->Ask_0@ == (RequestView {
            protocol: PROTOCOL_VERSION,
            body: RequestBodyView::UnwrapKey(
                config.public_key@,
                config.keyfile@,
                event->Password_0@,
            ),
        }),
        Phase::Fetching => step is Ask && step->Ask_0@ == (RequestView {
            protocol: PROTOCOL_VERSION,
            body: RequestBodyView::GetUnwrappedKey(config.public_key@),
        }),
        Phase::Done => step is Ready && step->Ready_0.config == config && (event is Keyfile
            || event is Answer) && RageLib::made(
            config.public_key@,
            if event is Keyfile {
                event->Keyfile_0@
            } else {
                match event->Answer_0@ {
                    ResponseView::Success(key) => key,
                    _ => Seq::empty(),
                }
            },
        ) == Ok::<(Seq<char>, Seq<char>), (ErrorKind, Seq<char>)>(
            (step->Ready_0.backend.pubkey@, step->Ready_0.backend.identity@),
        ),
    }
}

impl<'a> Startup<'a> {
    /// The configuration that the session is started for.
    pub closed spec fn config(&self) -> &'a Config {
        self.config
    }

    /// How far the start has come.
    pub closed spec fn phase(&self) -> Phase {
        self.phase
    }

    /// Begins the start of a session for `config`, and gives the first
    /// step: an agent is made sure of first where the key is wrapped and
    /// the configuration asks for it, else the store directory is made.
    pub fn new(config: &'a Config) -> (begun: (Startup<'a>, Step<'a>))
        ensures
            begun.0.config() == config,
            begun.0.phase() == (if config.wrapped && config.agent_autostart {
                Phase::Spawning
            } else {
                Phase::MakingStore
            }),
            step_fits(config, begun.0.phase(), Event::AgentReady, begun.1),
    {
        if config.wrapped && config.agent_autostart {
            (Startup { config, phase: Phase::Spawning }, Step::EnsureAgent)
        } else {
            (Startup { config, phase: Phase::MakingStore }, Step::CreateStore(config.store.clone()))
        }
    }

    fn ask(&self, body: crate::protocol::RequestBody) -> (request: Request)
        ensures
            request@ == (RequestView { protocol: PROTOCOL_VERSION, body: body@ }),
    {
        Request { protocol: PROTOCOL_VERSION, body }
    }

    /// Takes in what the caller hands back, and gives the next step.
    ///
    /// Fails, and stays in its phase, exactly where `next_phase` gives
    /// none: the public key is none, the key holds no identity or more than
    /// one, the agent answered with a failure, or the event is not the one
    /// that the last step asked for.
    pub fn advance(&mut self, event: Event) -> (step: Result<Step<'a>, Error>)
        ensures
            final(self).config() == old(self).config(),
            match next_phase(
                old(self).config().public_key@,
                old(self).config().wrapped,
                old(self).phase(),
                event,
            ) {
                Some(phase) => final(self).phase() == phase && step is Ok && step_fits(
                    old(self).config(),
                    phase,
                    event,
                    step->Ok_0,
                ),
                None => final(self).phase() == old(self).phase() && step is Err && step->Err_0@
                    == startup_failure(old(self).config(), old(self).phase(), event),
            },
    {
        let config = self.config;
        match (self.phase, event) {
            (Phase::Spawning, Event::AgentReady) => {
                self.phase = Phase::MakingStore;
                Ok(Step::CreateStore(config.store.clone()))
            },
            (Phase::MakingStore, Event::StoreReady) => {
                // The public key is looked at before anything is asked of
                // the agent or read from the key file.
                crate::backend::check_public_key(config.public_key.as_str())?;
                if config.wrapped {
                    self.phase = Phase::Querying;
                    Ok(
                        Step::Ask(
                            self.ask(
                                crate::protocol::RequestBody::QueryUnwrappedKey(
                                    config.public_key.clone(),
                                ),
                            ),
                        ),
                    )
                } else {
                    self.phase = Phase::ReadingKey;
                    Ok(Step::ReadKeyfile(config.keyfile.clone()))
                }
            },
            (Phase::ReadingKey, Event::Keyfile(text)) => {
                let mut text = text;
                let made = RageLib::new(config.public_key.as_str(), text.as_str());
                wipe(&mut text);
                let backend = made?;
                self.phase = Phase::Done;
                Ok(Step::Ready(Session { backend, config }))
            },
            (Phase::Querying, Event::Answer(response)) => {
                if Client::query_key_reply(response)? {
                    self.phase = Phase::Fetching;
                    Ok(
                        Step::Ask(
                            self.ask(
                                crate::protocol::RequestBody::GetUnwrappedKey(
                                    config.public_key.clone(),
                                ),
                            ),
                        ),
                    )
                } else {
                    self.phase = Phase::Prompting;
                    Ok(Step::Prompt)
                }
            },
            (Phase::Prompting, Event::Password(password)) => {
                self.phase = Phase::Adding;
                Ok(
                    Step::Ask(
                        self.ask(
                            crate::protocol::RequestBody::UnwrapKey(
                                config.public_key.clone(),
                                config.keyfile.clone(),
                                password,
                            ),
                        ),
                    ),
                )
            },
            (Phase::Adding, Event::Answer(response)) => {
                Client::add_key_reply(response)?;
                self.phase = Phase::Fetching;
                Ok(
                    Step::Ask(
                        self.ask(
                            crate::protocol::RequestBody::GetUnwrappedKey(
                                config.public_key.clone(),
                            ),
                        ),
                    ),
                )
            },
            (Phase::Fetching, Event::Answer(response)) => {
                let mut key = match Client::get_key_reply(response) {
                    Ok(key) => key,
                    Err(e) => {
                        return Err(
                            Error {
                                kind: e.kind,
                                message: join(
                                    "agent has no unwrapped key for ",
                                    config.keyfile.as_str(),
                                ),
                            },
                        );
                    },
                };
                let made = RageLib::new(config.public_key.as_str(), key.as_str());
                wipe(&mut key);
                let backend = made?;
                self.phase = Phase::Done;
                Ok(Step::Ready(Session { backend, config }))
            },
            _ => Err(Error::new(ErrorKind::Usage, "unexpected event while starting a session")),
        }
    }
}

} // verus!
