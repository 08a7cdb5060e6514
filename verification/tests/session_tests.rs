use kbs2::backend::{Backend, RageLib};
use kbs2::config::{CommandConfigs, Config, GeneratorConfig, Pinentry};
use kbs2::error::ErrorKind;
use kbs2::protocol::{FailureKind, Request, RequestBody, Response};
use kbs2::record::Record;
use kbs2::session::{
    guard_overwrite, Event, FileRead, Removal, Session, Startup, Step, StoreEntry, StoreWrite,
};

/// A directory, as far as a session deals with one.
struct Directory {
    files: Vec<(String, String)>,
}

impl Directory {
    fn new() -> Self {
        Directory { files: vec![] }
    }

    fn listing(&self) -> Vec<StoreEntry> {
        let mut entries = vec![StoreEntry { name: Ok("a-directory".into()), is_file: false }];
        for (name, _) in &self.files {
            entries.push(StoreEntry { name: Ok(name.clone()), is_file: true });
        }
        entries
    }

    fn read(&self, label: &str) -> FileRead {
        match self.files.iter().find(|(name, _)| name == label) {
            Some((_, contents)) => FileRead::Found(contents.clone()),
            None => FileRead::Missing,
        }
    }

    fn write(&mut self, write: StoreWrite) {
        assert_eq!(write.path, format!("/store/{}", write.label));
        self.files.retain(|(name, _)| name != &write.label);
        self.files.push((write.label, write.contents));
    }

    fn remove(&mut self, label: &str) -> Removal {
        let before = self.files.len();
        self.files.retain(|(name, _)| name != label);
        if self.files.len() < before {
            Removal::Removed
        } else {
            Removal::Missing
        }
    }
}

fn dummy_config() -> Config {
    Config {
        config_dir: "/not/a/real/dir".into(),
        // NOTE: We create the backend manually, so the public_key and keyfile
        // here are dummy values that shouldn't need to be interacted with.
        public_key: "not a real public key".into(),
        keyfile: "not a real private key file".into(),
        agent_autostart: false,
        wrapped: false,
        store: "/store".into(),
        pinentry: Default::default(),
        pre_hook: None,
        post_hook: None,
        error_hook: None,
        reentrant_hooks: false,
        generators: vec![GeneratorConfig::Internal(Default::default())],
        commands: Default::default(),
    }
}

fn dummy_session(config: &Config) -> Session<'_> {
    let backend = {
        let key = RageLib::create_keypair().unwrap();

        RageLib { pubkey: key.public_key, identity: key.identity }
    };

    Session { backend, config }
}

fn add(session: &Session, store: &mut Directory, record: &Record) {
    store.write(session.add_record(record).unwrap());
}

fn labels(session: &Session, store: &Directory) -> Vec<String> {
    session.record_labels(Some(store.listing())).unwrap()
}

#[test]
fn test_record_labels() {
    {
        let store = Directory::new();
        let config = dummy_config();
        let session = dummy_session(&config);

        assert_eq!(labels(&session, &store), Vec::<String>::new());
    }

    {
        let mut store = Directory::new();
        let config = dummy_config();
        let session = dummy_session(&config);
        let record = Record::login("foo", "bar", "baz");

        add(&session, &mut store, &record);
        assert_eq!(labels(&session, &store), vec!["foo"]);
    }
}

#[test]
fn test_has_record() {
    {
        let mut store = Directory::new();
        let config = dummy_config();
        let session = dummy_session(&config);
        let record = Record::login("foo", "bar", "baz");

        add(&session, &mut store, &record);
        assert!(session.has_record("foo", &store.listing()));
    }

    {
        let store = Directory::new();
        let config = dummy_config();
        let session = dummy_session(&config);

        assert!(!session.has_record("does-not-exist", &store.listing()));
    }
}

#[test]
fn test_get_record() {
    {
        let mut store = Directory::new();
        let config = dummy_config();
        let session = dummy_session(&config);
        let record = Record::login("foo", "bar", "baz");

        add(&session, &mut store, &record);

        let retrieved_record = session.get_record("foo", store.read("foo")).unwrap();

        assert_eq!(record, retrieved_record);
    }

    {
        let store = Directory::new();
        let config = dummy_config();
        let session = dummy_session(&config);

        let err = session.get_record("foo", store.read("foo")).unwrap_err();
        assert_eq!(err.to_string(), "no such record: foo");
        assert_eq!(err.kind, ErrorKind::NoSuchRecord);
    }
}

#[test]
fn test_add_record() {
    {
        let mut store = Directory::new();
        let config = dummy_config();
        let session = dummy_session(&config);

        let record1 = Record::login("foo", "bar", "baz");
        add(&session, &mut store, &record1);

        let record2 = Record::login("a", "b", "c");
        add(&session, &mut store, &record2);

        assert_eq!(labels(&session, &store).len(), 2);
        assert!(labels(&session, &store).contains(&"foo".into()));
        assert!(labels(&session, &store).contains(&"a".into()));

        // Overwrite foo; still only two records.
        let record3 = Record::login("foo", "quux", "zap");
        add(&session, &mut store, &record3);

        assert_eq!(labels(&session, &store).len(), 2);
        assert!(labels(&session, &store).contains(&"foo".into()));
        assert!(labels(&session, &store).contains(&"a".into()));
        assert_eq!(session.get_record("foo", store.read("foo")).unwrap(), record3);
    }
}

#[test]
fn test_delete_record() {
    {
        let mut store = Directory::new();
        let config = dummy_config();
        let session = dummy_session(&config);
        let record = Record::login("foo", "bar", "baz");

        add(&session, &mut store, &record);

        assert!(session.delete_record("foo", store.remove("foo")).is_ok());
        assert!(!session.has_record("foo", &store.listing()));
        assert_eq!(labels(&session, &store), Vec::<String>::new());
    }

    {
        let mut store = Directory::new();
        let config = dummy_config();
        let session = dummy_session(&config);

        let record1 = Record::login("foo", "bar", "baz");
        add(&session, &mut store, &record1);

        let record2 = Record::login("a", "b", "c");
        add(&session, &mut store, &record2);

        assert!(session.delete_record("foo", store.remove("foo")).is_ok());
        assert_eq!(labels(&session, &store), vec!["a"]);
    }

    {
        let mut store = Directory::new();
        let config = dummy_config();
        let session = dummy_session(&config);

        let err = session
            .delete_record("does-not-exist", store.remove("does-not-exist"))
            .unwrap_err();
        assert_eq!(err.to_string(), "no such record: does-not-exist");
    }
}

#[test]
fn test_kbs2_rm() {
    let config = dummy_config();
    let session = dummy_session(&config);
    let mut store = Directory::new();

    // Removing a nonexistent record fails.
    let err = session
        .delete_record("does-not-exist", store.remove("does-not-exist"))
        .unwrap_err();
    assert_eq!(err.to_string(), "no such record: does-not-exist");
    assert_eq!(err.kind, ErrorKind::NoSuchRecord);

    // Removing works as expected with a record that exists.
    add(&session, &mut store, &Record::login("test-record", "fakeuser", "fakepass"));
    assert!(session.delete_record("test-record", store.remove("test-record")).is_ok());
    assert!(session.get_record("test-record", store.read("test-record")).is_err());

    // Removing works as expected with multiple records.
    add(&session, &mut store, &Record::login("test-record-1", "fakeuser", "fakepass"));
    add(&session, &mut store, &Record::login("test-record-2", "fakeuser", "fakepass"));
    for label in ["test-record-1", "test-record-2"] {
        assert!(session.delete_record(label, store.remove(label)).is_ok());
    }
    for label in ["test-record-1", "test-record-2"] {
        assert!(session.get_record(label, store.read(label)).is_err());
    }
}

#[test]
fn test_kbs2_rename() {
    let config = dummy_config();
    let session = dummy_session(&config);
    let mut store = Directory::new();

    // Renaming deletes the old record.
    let record = Record::login("test-record", "fakeuser", "fakepass");
    add(&session, &mut store, &record);

    let rename = session
        .rename_record("test-record", "test-record-1", store.read("test-record"))
        .unwrap();
    assert_eq!(rename.remove, "test-record");
    store.write(rename.write);
    assert!(session.delete_record(&rename.remove, store.remove(&rename.remove)).is_ok());

    assert!(session.get_record("test-record", store.read("test-record")).is_err());
    assert!(!session.has_record("test-record", &store.listing()));

    let renamed = session.get_record("test-record-1", store.read("test-record-1")).unwrap();
    assert_eq!(renamed.label, "test-record-1");
    assert_eq!(renamed.body, record.body);
    assert_eq!(renamed.timestamp, record.timestamp);
}

#[test]
fn rename_fails_as_reading_the_old_record_does() {
    let config = dummy_config();
    let session = dummy_session(&config);
    let err = session.rename_record("a", "b", FileRead::Missing).unwrap_err();
    assert_eq!((err.kind, err.to_string().as_str()), (ErrorKind::NoSuchRecord, "no such record: a"));
    let err = session.rename_record("a", "b", FileRead::Failed("denied".into())).unwrap_err();
    assert_eq!((err.kind, err.to_string().as_str()), (ErrorKind::Io, "denied"));
    let err = session.rename_record("a", "b", FileRead::Found("garbage".into())).unwrap_err();
    assert_eq!(err.kind, ErrorKind::Decrypt);
}

#[test]
fn a_record_is_not_renamed_to_its_own_label() {
    let config = dummy_config();
    let session = dummy_session(&config);
    let mut store = Directory::new();
    let record = Record::login("same", "fakeuser", "fakepass");
    add(&session, &mut store, &record);

    let refused = (ErrorKind::Usage, "refusing to rename a record to its own label");
    let err = session.rename_record("same", "same", store.read("same")).unwrap_err();
    assert_eq!((err.kind, err.to_string().as_str()), refused);
    let err = session.rename_record("none", "none", FileRead::Missing).unwrap_err();
    assert_eq!((err.kind, err.to_string().as_str()), refused);
    // Forcing does not change that, and the record stays.
    let err = kbs2::command::rename(&session, "same", "same", true, true, store.read("same"))
        .unwrap_err();
    assert_eq!((err.kind, err.to_string().as_str()), refused);
    assert_eq!(session.get_record("same", store.read("same")).unwrap(), record);
}

#[test]
fn renaming_is_refused_where_encrypting_is() {
    let config = dummy_config();
    let session = dummy_session(&config);
    let mut store = Directory::new();
    add(&session, &mut store, &Record::login("old", "fakeuser", "fakepass"));

    let weak = Session {
        backend: RageLib {
            pubkey: "age1qqqqqqqqqqqqqqqqqqqqqqqqqqqqqqqqqqqqqqqqqqqqqqqqqqqq5cu47z".into(),
            identity: session.backend.identity.clone(),
        },
        config: &config,
    };
    let err = weak.rename_record("old", "new", store.read("old")).err().unwrap();
    assert_eq!(
        (err.kind, err.to_string().as_str()),
        (ErrorKind::Config, "public key is of small order")
    );
    let unread = Session {
        backend: RageLib { pubkey: "nonsense".into(), identity: session.backend.identity.clone() },
        config: &config,
    };
    let err = unread.rename_record("old", "new", store.read("old")).err().unwrap();
    assert_eq!(err.kind, ErrorKind::Io);
}

#[test]
fn after_adding_labels_the_store_lists_just_those() {
    let config = dummy_config();
    let session = dummy_session(&config);
    let mut store = Directory::new();
    let wanted = vec!["one", "two", "three", "four"];
    for label in &wanted {
        add(&session, &mut store, &Record::unstructured(label, "contents"));
    }
    let mut listed = labels(&session, &store);
    listed.sort();
    let mut wanted: Vec<String> = wanted.into_iter().map(String::from).collect();
    wanted.sort();
    assert_eq!(listed, wanted);
}

#[test]
fn listing_passes_over_what_is_no_file_and_fails_on_odd_names() {
    let config = dummy_config();
    let session = dummy_session(&config);

    let err = session.record_labels(None).unwrap_err();
    assert_eq!(
        (err.kind, err.to_string().as_str()),
        (ErrorKind::Config, "secret store is not a directory")
    );

    let entries = vec![
        StoreEntry { name: Ok("b".into()), is_file: true },
        StoreEntry { name: Err("\"dir\\xff\"".into()), is_file: false },
        StoreEntry { name: Ok("sub".into()), is_file: false },
        StoreEntry { name: Ok("a".into()), is_file: true },
    ];
    assert!(session.has_record("a", &entries));
    assert!(!session.has_record("sub", &entries));
    assert_eq!(session.record_labels(Some(entries)).unwrap(), vec!["b", "a"]);

    let entries = vec![
        StoreEntry { name: Ok("b".into()), is_file: true },
        StoreEntry { name: Err("\"first\\xff\"".into()), is_file: true },
        StoreEntry { name: Err("\"second\\xff\"".into()), is_file: true },
    ];
    let err = session.record_labels(Some(entries)).unwrap_err();
    assert_eq!(
        (err.kind, err.to_string().as_str()),
        (ErrorKind::Config, "unrepresentable record label: \"first\\xff\"")
    );
}

#[test]
fn reading_and_removing_report_other_failures_as_io() {
    let config = dummy_config();
    let session = dummy_session(&config);
    let err = session.get_record("l", FileRead::Failed("Permission denied".into())).unwrap_err();
    assert_eq!((err.kind, err.to_string().as_str()), (ErrorKind::Io, "Permission denied"));
    let err = session.delete_record("l", Removal::Failed("Permission denied".into())).unwrap_err();
    assert_eq!((err.kind, err.to_string().as_str()), (ErrorKind::Io, "Permission denied"));
    assert_eq!(session.record_path("l"), "/store/l");
}

#[test]
fn overwriting_wants_force() {
    assert!(guard_overwrite(false, false).is_ok());
    assert!(guard_overwrite(false, true).is_ok());
    assert!(guard_overwrite(true, true).is_ok());
    let err = guard_overwrite(true, false).unwrap_err();
    assert_eq!(
        (err.kind, err.to_string().as_str()),
        (ErrorKind::Usage, "refusing to overwrite a record without --force")
    );
}

fn wrapped_config(public_key: &str, autostart: bool) -> Config {
    Config {
        public_key: public_key.into(),
        keyfile: "/config/key".into(),
        wrapped: true,
        agent_autostart: autostart,
        pinentry: Pinentry::default(),
        commands: CommandConfigs::default(),
        ..dummy_config()
    }
}

fn asked(step: Step) -> Request {
    match step {
        Step::Ask(request) => request,
        _ => panic!("a request was expected"),
    }
}

#[test]
fn a_session_with_a_bare_key_reads_the_key_file() {
    let pair = RageLib::create_keypair().unwrap();
    let config = Config {
        public_key: pair.public_key.clone(),
        keyfile: "/config/key".into(),
        ..dummy_config()
    };
    let (mut startup, step) = Startup::new(&config);
    assert!(matches!(step, Step::CreateStore(path) if path == "/store"));
    let step = startup.advance(Event::StoreReady).unwrap();
    assert!(matches!(step, Step::ReadKeyfile(path) if path == "/config/key"));
    match startup.advance(Event::Keyfile(pair.identity.clone())).unwrap() {
        Step::Ready(session) => {
            assert_eq!(session.backend.identity, pair.identity);
            assert_eq!(session.backend.pubkey, pair.public_key);
            let record = Record::login("foo", "bar", "baz");
            let sealed = session.backend.encrypt(&record).unwrap();
            assert_eq!(session.backend.decrypt(&sealed).unwrap(), record);
        }
        _ => panic!("a session was expected"),
    }
    // Nothing follows.
    assert!(startup.advance(Event::StoreReady).is_err());
}

#[test]
fn a_session_with_a_wrapped_key_asks_the_agent() {
    let pair = RageLib::create_keypair().unwrap();
    let config = wrapped_config(&pair.public_key, true);
    let pubkey = pair.public_key.clone();

    // The agent does not hold the key yet.
    let (mut startup, step) = Startup::new(&config);
    assert!(matches!(step, Step::EnsureAgent));
    let step = startup.advance(Event::AgentReady).unwrap();
    assert!(matches!(step, Step::CreateStore(path) if path == "/store"));
    let request = asked(startup.advance(Event::StoreReady).unwrap());
    assert_eq!(
        request,
        Request { protocol: 1, body: RequestBody::QueryUnwrappedKey(pubkey.clone()) }
    );
    let step = startup.advance(Event::Answer(Response::Failure(FailureKind::Query))).unwrap();
    assert!(matches!(step, Step::Prompt));
    let request = asked(startup.advance(Event::Password("secret".into())).unwrap());
    assert_eq!(
        request,
        Request {
            protocol: 1,
            body: RequestBody::UnwrapKey(pubkey.clone(), "/config/key".into(), "secret".into())
        }
    );
    let request =
        asked(startup.advance(Event::Answer(Response::Success("OK".into()))).unwrap());
    assert_eq!(
        request,
        Request { protocol: 1, body: RequestBody::GetUnwrappedKey(pubkey.clone()) }
    );
    let step = startup.advance(Event::Answer(Response::Success(pair.identity.clone()))).unwrap();
    assert!(matches!(step, Step::Ready(session) if session.backend.identity == pair.identity));

    // The agent holds the key: no passphrase is asked for.
    let config = wrapped_config(&pair.public_key, false);
    let (mut startup, step) = Startup::new(&config);
    assert!(matches!(step, Step::CreateStore(_)));
    asked(startup.advance(Event::StoreReady).unwrap());
    let request =
        asked(startup.advance(Event::Answer(Response::Success("OK".into()))).unwrap());
    assert_eq!(request, Request { protocol: 1, body: RequestBody::GetUnwrappedKey(pubkey) });
}

#[test]
fn a_session_does_not_start_on_a_failure() {
    let pair = RageLib::create_keypair().unwrap();

    let config = dummy_config();
    let (mut startup, _) = Startup::new(&config);
    let err = startup.advance(Event::StoreReady).err().unwrap();
    assert_eq!(err.kind, ErrorKind::Config);
    assert!(err.to_string().starts_with("unable to parse public key (backend reports: "));

    let config = wrapped_config(&pair.public_key, false);
    let (mut startup, _) = Startup::new(&config);
    // An event that was not asked for.
    let err = startup.advance(Event::AgentReady).err().unwrap();
    assert_eq!(err.kind, ErrorKind::Usage);
    asked(startup.advance(Event::StoreReady).unwrap());
    let err = startup.advance(Event::Answer(Response::Failure(FailureKind::Auth))).err().unwrap();
    assert_eq!(
        (err.kind, err.to_string().as_str()),
        (ErrorKind::Auth, "querying key from agent failed: Auth")
    );
    // The start stays where it was, and may go on.
    assert!(matches!(
        startup.advance(Event::Answer(Response::Failure(FailureKind::Query))).unwrap(),
        Step::Prompt
    ));
    asked(startup.advance(Event::Password("pw".into())).unwrap());
    let err = startup
        .advance(Event::Answer(Response::Failure(FailureKind::Unwrap("bad".into()))))
        .err()
        .unwrap();
    assert_eq!(
        (err.kind, err.to_string().as_str()),
        (ErrorKind::Decrypt, "adding key to agent failed: Unwrap(\"bad\")")
    );
    asked(startup.advance(Event::Answer(Response::Success("OK".into()))).unwrap());
    let err = startup.advance(Event::Answer(Response::Failure(FailureKind::Query))).err().unwrap();
    assert_eq!(
        (err.kind, err.to_string().as_str()),
        (ErrorKind::Query, "agent has no unwrapped key for /config/key")
    );
    let err = startup.advance(Event::Answer(Response::Success("no key".into()))).err().unwrap();
    assert_eq!(err.kind, ErrorKind::Config);
}

#[test]
fn a_write_is_named_by_the_label_of_its_record() {
    let config = dummy_config();
    let session = dummy_session(&config);
    let write = session.store_write(&Record::login("foo", "bar", "baz"), "envelope".into());
    assert_eq!(write.label, "foo");
    assert_eq!(write.path, "/store/foo");
    assert_eq!(write.contents, "envelope");

    let rename = Session::rename_of("old", write);
    assert_eq!(rename.remove, "old");
    assert_eq!(rename.write.label, "foo");
    assert_eq!(rename.write.path, "/store/foo");
    assert_eq!(rename.write.contents, "envelope");
}
