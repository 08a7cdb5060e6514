use kbs2::backend::{Backend, RageLib};
use kbs2::command;
use kbs2::backend::WrappedKeypair;
use kbs2::command::{
    agent_query, agent_unwrap, backup_path, dump, edit, edit_at, editor, generate, init, list, new,
    pass, rekey, rekey_backup, rekey_keys, rekey_records, rekeyed, rename, rewrap, Backup, Init,
    Rekey,
};
use kbs2::config::{Config, GeneratorConfig};
use kbs2::error::ErrorKind;
use kbs2::input::{needs_secret, take_terse_fields, with_secret, Input, TERSE_IFS};
use kbs2::protocol::{Request, RequestBody};
use kbs2::record::{
    EnvironmentFields, LoginFields, Record, RecordBody, UnstructuredFields,
};
use kbs2::session::{FileRead, Session};

fn config(wrapped: bool) -> Config {
    Config {
        config_dir: "/config".into(),
        public_key: "not a real public key".into(),
        keyfile: "/config/key".into(),
        agent_autostart: false,
        wrapped,
        store: "/store".into(),
        pinentry: Default::default(),
        pre_hook: None,
        post_hook: None,
        error_hook: None,
        reentrant_hooks: false,
        generators: vec![GeneratorConfig::Internal(Default::default())],
        commands: Default::default(),
    }
}

fn session(config: &Config) -> Session<'_> {
    let key = RageLib::create_keypair().unwrap();
    Session { backend: RageLib { pubkey: key.public_key, identity: key.identity }, config }
}

fn fields_of(dumped: &str) -> serde_json::Value {
    let value: serde_json::Value = serde_json::from_str(dumped).unwrap();
    value.get("body").unwrap().get("fields").unwrap().clone()
}

fn object(pairs: &[(&str, &str)]) -> serde_json::Value {
    let mut map = serde_json::Map::new();
    for (key, value) in pairs {
        map.insert((*key).into(), serde_json::Value::String((*value).into()));
    }
    serde_json::Value::Object(map)
}

#[test]
fn test_kbs2_init() {
    // A fresh setup: no configuration yet, and an empty store.
    let plan = init(false, false, false, true).unwrap();
    assert_eq!(plan, Init { warn_store_exists: false, wrapped: false });
    let made = kbs2::config::initialize("/config", "/store", None).unwrap();
    assert_eq!(made.config.config_dir, "/config");
    assert_eq!(made.config.store, "/store");
    assert_eq!(
        kbs2::config::join_path(&made.config.config_dir, kbs2::config::CONFIG_BASENAME),
        "/config/config.toml"
    );
    assert!(!made.config.wrapped);
}

#[test]
fn test_kbs2_new_login() {
    let record = new("test-record", "login", false, false, "fakeuser\x01fakepass".into()).unwrap();

    let fields = fields_of(&dump("test-record", &record, true));

    assert_eq!(fields, object(&[("username", "fakeuser"), ("password", "fakepass")]));
}

#[test]
fn test_kbs2_new_environment() {
    let record =
        new("test-record", "environment", false, false, "fakevariable\x01fakevalue".into())
            .unwrap();

    let fields = fields_of(&dump("test-record", &record, true));

    assert_eq!(fields, object(&[("variable", "fakevariable"), ("value", "fakevalue")]));
}

#[test]
fn test_kbs2_new_unstructured() {
    let record = new("test-record", "unstructured", false, false, "fakevalue".into()).unwrap();

    let fields = fields_of(&dump("test-record", &record, true));

    assert_eq!(fields, object(&[("contents", "fakevalue")]));
}

#[test]
fn an_environment_prints_as_asked() {
    let record = new("env1", "environment", false, false, "MYVAR\x01myvalue".into()).unwrap();
    assert_eq!(record.label, "env1");
    let again = || Record::environment("env1", "MYVAR", "myvalue");
    assert_eq!(record.body, again().body);
    assert_eq!(command::env("env1", again(), false, true).unwrap(), "MYVAR=myvalue\n");
    assert_eq!(command::env("env1", again(), false, false).unwrap(), "export MYVAR=myvalue\n");
    assert_eq!(command::env("env1", again(), true, false).unwrap(), "myvalue\n");
    assert_eq!(command::env("env1", again(), true, true).unwrap(), "myvalue\n");
    let err = command::env("l", Record::login("l", "u", "p"), false, false).unwrap_err();
    assert_eq!(
        (err.kind, err.to_string().as_str()),
        (ErrorKind::Usage, "not an environment record: l")
    );
}

#[test]
fn a_password_prints_with_a_line_feed_on_a_terminal() {
    assert_eq!(pass("l", Record::login("l", "u", "p w"), true).unwrap(), "p w\n");
    assert_eq!(pass("l", Record::login("l", "u", "p w"), false).unwrap(), "p w");
    for record in [Record::environment("l", "a", "b"), Record::unstructured("l", "c")] {
        let err = pass("l", record, true).unwrap_err();
        assert_eq!((err.kind, err.to_string().as_str()), (ErrorKind::Usage, "not a login record: l"));
    }
}

#[test]
fn new_refuses_to_overwrite_and_checks_its_input() {
    let err = new("l", "login", true, false, "u\x01p".into()).unwrap_err();
    assert_eq!(
        (err.kind, err.to_string().as_str()),
        (ErrorKind::Usage, "refusing to overwrite a record without --force")
    );
    assert!(new("l", "login", true, true, "u\x01p".into()).is_ok());
    let err = new("l", "login", false, false, "only-one".into()).unwrap_err();
    assert_eq!(
        (err.kind, err.to_string().as_str()),
        (ErrorKind::Usage, "field count mismatch: expected 2, got 1")
    );
    for label in ["", "a/b", "..", "nul\0"] {
        let err = new(label, "login", false, true, "u\x01p".into()).unwrap_err();
        assert_eq!(err.kind, ErrorKind::Usage);
        assert_eq!(err.to_string(), format!("invalid record label: {label}"));
    }
    let err = new("l", "secret", false, false, "x".into()).unwrap_err();
    assert_eq!((err.kind, err.to_string().as_str()), (ErrorKind::Usage, "unknown record kind: secret"));
}

#[test]
fn terse_fields_split_at_the_separator() {
    assert_eq!(TERSE_IFS, '\u{1}');
    assert_eq!(take_terse_fields("a\x01b\n".into(), 2).unwrap(), vec!["a", "b"]);
    assert_eq!(take_terse_fields("a\x01b\n\n".into(), 2).unwrap(), vec!["a", "b\n"]);
    // The last field takes all that is left.
    assert_eq!(take_terse_fields("a\x01b\x01c".into(), 2).unwrap(), vec!["a", "b\x01c"]);
    assert_eq!(take_terse_fields("a\x01b\x01c".into(), 3).unwrap(), vec!["a", "b", "c"]);
    assert_eq!(take_terse_fields("\x01".into(), 2).unwrap(), vec!["", ""]);
    assert_eq!(take_terse_fields("".into(), 1).unwrap(), vec![""]);
    assert_eq!(take_terse_fields("a\x01b".into(), 1).unwrap(), vec!["a\x01b"]);
    assert_eq!(take_terse_fields("anything".into(), 0).unwrap(), Vec::<String>::new());
    let err = take_terse_fields("a\x01b".into(), 3).unwrap_err();
    assert_eq!(
        (err.kind, err.to_string().as_str()),
        (ErrorKind::Usage, "field count mismatch: expected 3, got 2")
    );
    let err = take_terse_fields("".into(), 12).unwrap_err();
    assert_eq!(err.to_string(), "field count mismatch: expected 12, got 1");
}

#[test]
fn bodies_are_read_from_terse_input() {
    assert_eq!(LoginFields::field_count(), 2);
    assert_eq!(EnvironmentFields::field_count(), 2);
    assert_eq!(UnstructuredFields::field_count(), 1);
    assert_eq!(
        LoginFields::from_terse("u\x01p\n".into()).unwrap(),
        RecordBody::Login(LoginFields { username: "u".into(), password: "p".into() })
    );
    assert_eq!(
        EnvironmentFields::from_terse("A\x01b\x01c".into()).unwrap(),
        RecordBody::Environment(EnvironmentFields { variable: "A".into(), value: "b\x01c".into() })
    );
    assert_eq!(
        UnstructuredFields::from_terse("x\x01y\n".into()).unwrap(),
        RecordBody::Unstructured(UnstructuredFields { contents: "x\x01y".into() })
    );
    assert!(LoginFields::from_terse("nothing".into()).is_err());
    assert!(EnvironmentFields::from_terse("".into()).is_err());
}

#[test]
fn an_empty_sensitive_field_is_filled_with_a_secret() {
    let body = LoginFields::from_terse("u\x01".into()).unwrap();
    assert!(needs_secret(&body));
    assert_eq!(
        with_secret(body, "generated".into()),
        RecordBody::Login(LoginFields { username: "u".into(), password: "generated".into() })
    );
    let body = EnvironmentFields::from_terse("V\x01".into()).unwrap();
    assert!(needs_secret(&body));
    assert_eq!(
        with_secret(body, "generated".into()),
        RecordBody::Environment(EnvironmentFields { variable: "V".into(), value: "generated".into() })
    );
    assert!(!needs_secret(&LoginFields::from_terse("u\x01p".into()).unwrap()));
    let body = UnstructuredFields::from_terse("".into()).unwrap();
    assert!(!needs_secret(&body));
    assert_eq!(
        with_secret(body, "generated".into()),
        RecordBody::Unstructured(UnstructuredFields { contents: "".into() })
    );
}

#[test]
fn records_are_listed_with_or_without_details() {
    let record = Record { timestamp: 1600000000, ..Record::login("foo", "u", "p") };
    assert_eq!(list("foo", None, false, None).unwrap(), "foo");
    assert_eq!(list("foo", Some(&record), false, None).unwrap(), "foo");
    assert_eq!(list("foo", Some(&record), true, None).unwrap(), "foo login 1600000000");
    assert_eq!(list("foo", Some(&record), false, Some("login")).unwrap(), "foo");
    assert_eq!(list("foo", Some(&record), true, Some("login")).unwrap(), "foo login 1600000000");
    assert_eq!(list("foo", Some(&record), true, Some("environment")), None);
    assert_eq!(list("foo", Some(&record), false, Some("unstructured")), None);
}

#[test]
fn records_are_dumped_field_by_field() {
    assert_eq!(
        dump("l", &Record::login("l", "u", "p"), false),
        "Label l\nKind login\nUsername u\nPassword p\n"
    );
    assert_eq!(
        dump("l", &Record::environment("l", "A", "b"), false),
        "Label l\nKind environment\nVariable A\nValue b\n"
    );
    assert_eq!(
        dump("l", &Record::unstructured("l", "c"), false),
        "Label l\nKind unstructured\nContents c\n"
    );
    let record = Record::unstructured("l", "c");
    assert_eq!(dump("l", &record, true), format!("{}\n", record.to_json()));
}

#[test]
fn init_refuses_to_overwrite_a_configuration() {
    let err = init(true, false, false, false).unwrap_err();
    assert_eq!(
        (err.kind, err.to_string().as_str()),
        (ErrorKind::Usage, "refusing to overwrite your current config without --force")
    );
    assert_eq!(
        init(true, true, true, false).unwrap(),
        Init { warn_store_exists: true, wrapped: true }
    );
    assert_eq!(
        init(false, false, true, true).unwrap(),
        Init { warn_store_exists: true, wrapped: false }
    );
}

#[test]
fn the_query_exits_with_its_codes() {
    assert_eq!(agent_query(false, None), 2);
    assert_eq!(agent_query(false, Some(true)), 2);
    assert_eq!(agent_query(true, None), 3);
    assert_eq!(agent_query(true, Some(false)), 1);
    assert_eq!(agent_query(true, Some(true)), 0);
}

#[test]
fn a_bare_key_is_not_unwrapped_by_the_agent() {
    let err = agent_unwrap(false, false).unwrap_err();
    assert_eq!(
        (err.kind, err.to_string().as_str()),
        (ErrorKind::Usage, "config specifies a bare key; nothing to do")
    );
    assert!(agent_unwrap(true, false).unwrap());
    assert!(!agent_unwrap(true, true).unwrap());
}

#[test]
fn rename_wants_force_to_overwrite() {
    let config = config(false);
    let session = session(&config);
    let sealed = session.backend.encrypt(&Record::login("r1", "u", "p")).unwrap();
    let err =
        rename(&session, "r1", "r2", true, false, FileRead::Found(sealed.clone())).unwrap_err();
    assert_eq!(
        (err.kind, err.to_string().as_str()),
        (ErrorKind::Usage, "refusing to overwrite a record without --force")
    );
    for (exists, force) in [(true, true), (false, false)] {
        let plan =
            rename(&session, "r1", "r2", exists, force, FileRead::Found(sealed.clone())).unwrap();
        assert_eq!(plan.remove, "r1");
        assert_eq!(plan.write.label, "r2");
        assert_eq!(plan.write.path, "/store/r2");
        let record = session.backend.decrypt(&plan.write.contents).unwrap();
        assert_eq!(record.label, "r2");
        assert_eq!(
            record.body,
            RecordBody::Login(LoginFields { username: "u".into(), password: "p".into() })
        );
    }
    let err =
        rename(&session, "r1", "../r2", false, true, FileRead::Found(sealed.clone())).unwrap_err();
    assert_eq!(
        (err.kind, err.to_string().as_str()),
        (ErrorKind::Usage, "invalid record label: ../r2")
    );
    let err = rename(&session, "r1", "r2", false, false, FileRead::Missing).unwrap_err();
    assert_eq!(err.to_string(), "no such record: r1");
}

#[test]
fn an_edited_record_keeps_its_label() {
    let before = Record { timestamp: 5, ..Record::login("mine", "u", "p") };
    let edited = before.to_json().replace("\"mine\"", "\"theirs\"").replace("\"p\"", "\"q\"");
    let record = edit("mine", &edited).unwrap();
    assert_eq!(record.label, "mine");
    assert!(record.timestamp > 5);
    assert_eq!(
        record.body,
        RecordBody::Login(LoginFields { username: "u".into(), password: "q".into() })
    );
    assert_eq!(edit("mine", "{}").unwrap_err().kind, ErrorKind::Malformed);
}

#[test]
fn the_editor_comes_from_the_configuration_first() {
    let (command, args) = editor(Some("vim -u NONE".into()), Some("nano".into())).unwrap();
    assert_eq!((command.as_str(), args), ("vim", vec!["-u".to_string(), "NONE".to_string()]));
    let (command, args) = editor(None, Some("nano".into())).unwrap();
    assert_eq!((command.as_str(), args.len()), ("nano", 0));
    let err = editor(None, None).unwrap_err();
    assert_eq!(
        (err.kind, err.to_string().as_str()),
        (ErrorKind::Usage, "no editor configured to edit with")
    );
    assert!(editor(Some("'open".into()), Some("nano".into())).is_err());
}

#[test]
fn generate_finds_the_generator_or_says_so() {
    let config = config(false);
    assert_eq!(generate(&config, "default").unwrap().name(), "default");
    let err = generate(&config, "pwgen").unwrap_err();
    assert_eq!(
        (err.kind, err.to_string().as_str()),
        (ErrorKind::Config, "couldn't find a generator named pwgen")
    );
}

#[test]
fn rewrap_backs_the_key_file_up_first() {
    assert_eq!(backup_path("/config/key"), "/config/key.old");
    let bare = config(false);
    let err = rewrap(&bare, false, false, false).unwrap_err();
    assert_eq!(
        (err.kind, err.to_string().as_str()),
        (ErrorKind::Usage, "config specifies a bare key; nothing to rewrap")
    );
    let wrapped = config(true);
    assert_eq!(rewrap(&wrapped, true, false, true).unwrap(), None);
    assert_eq!(rewrap(&wrapped, false, false, false).unwrap().unwrap(), "/config/key.old");
    assert_eq!(rewrap(&wrapped, false, true, true).unwrap().unwrap(), "/config/key.old");
    let err = rewrap(&wrapped, false, false, true).unwrap_err();
    assert_eq!(
        (err.kind, err.to_string().as_str()),
        (ErrorKind::Usage, "refusing to overwrite a previous key backup without --force")
    );
}

#[test]
fn rekeying_begins_with_backups() {
    let err = rekey(&config(false), true, true).err().unwrap();
    assert_eq!(
        (err.kind, err.to_string().as_str()),
        (ErrorKind::Usage, "rekeying is only supported on wrapped keys")
    );
    let wrapped = config(true);
    assert!(matches!(rekey(&wrapped, false, false).unwrap(), Rekey::Abandon));
    assert!(matches!(rekey(&wrapped, true, true).unwrap(), Rekey::Proceed(None)));
    match rekey(&wrapped, true, false).unwrap() {
        Rekey::Proceed(Some(backups)) => {
            assert_eq!(backups.keyfile, "/config/key.old");
            assert_eq!(backups.config, "/config/config.toml.old");
            assert_eq!(backups.store, "/store.old");
        }
        _ => panic!("backups were expected"),
    }
    for (which, word) in [(Backup::Keyfile, "key"), (Backup::Config, "config"), (Backup::Store, "store")]
    {
        assert!(rekey_backup(which, false).is_ok());
        let err = rekey_backup(which, true).unwrap_err();
        assert_eq!(err.kind, ErrorKind::Usage);
        assert_eq!(
            err.to_string(),
            format!("refusing to overwrite a previous {word} backup during rekeying; resolve manually")
        );
    }
}

#[test]
fn rekeying_encrypts_every_record_to_the_new_key() {
    let old_config = config(true);
    let old = session(&old_config);
    let records = vec![
        Record::login("a", "u", "p"),
        Record::environment("b", "V", "v"),
        Record::unstructured("c", "text"),
    ];
    let sealed: Vec<String> = records.iter().map(|r| old.backend.encrypt(r).unwrap()).collect();

    let made = rekey_keys(config(true), "new password").unwrap();
    assert_ne!(made.config.public_key, "not a real public key");
    assert_eq!(made.config.keyfile, "/config/key");
    assert_eq!(made.config.store, "/store");
    assert!(made.config.wrapped);
    assert_eq!(made.flush, Request { protocol: 1, body: RequestBody::FlushKeys });
    assert_eq!(
        made.add,
        Request {
            protocol: 1,
            body: RequestBody::UnwrapKey(
                made.config.public_key.clone(),
                "/config/key".into(),
                "new password".into()
            )
        }
    );

    let identity = RageLib::unwrap_keyfile(&made.keyfile, "new password").unwrap();
    let backend = RageLib::new(&made.config.public_key, &identity).unwrap();
    let new = Session { backend, config: &made.config };
    let decrypted: Vec<Record> = sealed.iter().map(|s| old.backend.decrypt(s).unwrap()).collect();
    let writes = rekey_records(&new, &decrypted).unwrap();
    assert_eq!(writes.len(), 3);
    for (write, record) in writes.iter().zip(&records) {
        assert_eq!(write.label, record.label);
        assert_eq!(write.path, format!("/store/{}", record.label));
        assert_eq!(&new.backend.decrypt(&write.contents).unwrap(), record);
        assert!(old.backend.decrypt(&write.contents).is_err());
    }
    assert_eq!(rekey_records(&new, &vec![]).unwrap().len(), 0);

    // To a public key that is refused, no record is encrypted; yet with no
    // record there is nothing to refuse.
    let weak = Session {
        backend: RageLib {
            pubkey: "age1qqqqqqqqqqqqqqqqqqqqqqqqqqqqqqqqqqqqqqqqqqqqqqqqqqqq5cu47z".into(),
            identity: new.backend.identity.clone(),
        },
        config: &made.config,
    };
    let err = rekey_records(&weak, &decrypted).err().unwrap();
    assert_eq!(
        (err.kind, err.to_string().as_str()),
        (ErrorKind::Config, "public key is of small order")
    );
    assert_eq!(rekey_records(&weak, &vec![]).unwrap().len(), 0);
}

#[test]
fn an_edited_record_takes_the_time_of_the_edit() {
    let before = Record { timestamp: 5, ..Record::unstructured("mine", "text") };
    let edited = before.to_json().replace("\"mine\"", "\"theirs\"").replace("text", "more");
    let record = edit_at("mine", &edited, 77).unwrap();
    assert_eq!(record, Record { timestamp: 77, ..Record::unstructured("mine", "more") });
    let err = edit_at("mine", "[]", 77).unwrap_err();
    assert_eq!(
        (err.kind, err.to_string().as_str()),
        (ErrorKind::Malformed, "malformed record: no timestamp")
    );
}

#[test]
fn rekeying_takes_the_new_pair_into_the_configuration() {
    let pair = WrappedKeypair { keyfile: b"wrapped".to_vec(), public_key: "age1new".into() };
    let made = rekeyed(config(true), "new password", pair);
    assert_eq!(made.keyfile, b"wrapped");
    assert_eq!(made.config.public_key, "age1new");
    assert_eq!(made.config.keyfile, "/config/key");
    assert_eq!(made.config.config_dir, "/config");
    assert_eq!(made.config.store, "/store");
    assert!(made.config.wrapped);
    assert_eq!(made.config.generators.len(), 1);
    assert_eq!(made.flush, Request { protocol: 1, body: RequestBody::FlushKeys });
    assert_eq!(
        made.add,
        Request {
            protocol: 1,
            body: RequestBody::UnwrapKey(
                "age1new".into(),
                "/config/key".into(),
                "new password".into()
            )
        }
    );
}
