//! What each command decides and prints, apart from what it reads and
//! writes.

use vstd::prelude::*;
use vstd::string::*;

use crate::backend::{encrypt_failure, encrypt_refusal, sealed_for, wrap_failure, wraps_fresh_key,
    Backend, RageLib,
    WrappedKeypair};
use crate::config::{generator_index, join_path, joined_path, Config, GeneratorConfig};
use crate::error::{Error, ErrorKind};
use crate::input::{field_count_mismatch, split_fields, Input};
use crate::protocol::{Request, RequestBodyView, RequestView, PROTOCOL_VERSION};
use crate::record::{decode_record, is_valid_label, valid_label, BodyView, EnvironmentFields,
    LoginFields, Record, RecordBody, RecordView, UnstructuredFields};
use crate::session::{guard_overwrite, FileRead, Rename, Session, StoreWrite};
use crate::text::{decimal, decimal_string, join, texts};
use crate::util::{chomped, current_timestamp, parse_and_split_args, shell_words};

verus! {

/// What initializing asks for.
#[derive(Debug, Clone, Copy, PartialEq, Eq, Structural)]
pub struct Init {
    /// Whether to warn that the store directory is there already.
    pub warn_store_exists: bool,
    /// Whether to ask for a passphrase and wrap the key with it.
    pub wrapped: bool,
}

/// Decides what initializing does. Fails, with an error of kind `Usage`,
/// exactly where a configuration is there and overwriting it was not asked
/// for.
pub fn init(config_exists: bool, force: bool, store_exists: bool, insecure_not_wrapped: bool) -> (plan:
    Result<Init, Error>)
    ensures
        config_exists && !force ==> (plan matches Err(e) && e@ == (
            ErrorKind::Usage,
            "refusing to overwrite your current config without --force"@,
        )),
        !(config_exists && !force) ==> plan == Ok::<Init, Error>(
            Init { warn_store_exists: store_exists, wrapped: !insecure_not_wrapped },
        ),
{
    if config_exists && !force {
        return Err(
            Error::new(ErrorKind::Usage, "refusing to overwrite your current config without --force"),
        );
    }
    Ok(Init { warn_store_exists: store_exists, wrapped: !insecure_not_wrapped })
}

/// The exit code of the query whether the agent holds the key of the
/// configuration: 2 where the key is bare, 3 where no agent was reached, 1
/// where the agent does not hold the key, and 0 where it does. `held` is
/// what the agent said, or `None` where none was reached.
pub fn agent_query(wrapped: bool, held: Option<bool>) -> (code: u8)
    ensures
        code == (if !wrapped {
            2u8
        } else {
            match held {
                None => 3u8,
                Some(false) => 1u8,
                Some(true) => 0u8,
            }
        }),
{
    if !wrapped {
        2
    } else {
        match held {
            None => 3,
            Some(false) => 1,
            Some(true) => 0,
        }
    }
}

/// Decides whether the agent is to be asked to unwrap the key of the
/// configuration: it is unless it holds the key already. Fails, with an
/// error of kind `Usage`, exactly where the key is bare.
pub fn agent_unwrap(wrapped: bool, held: bool) -> (ask: Result<bool, Error>)
    ensures
        !wrapped ==> (ask matches Err(e) && e@ == (
            ErrorKind::Usage,
            "config specifies a bare key; nothing to do"@,
        )),
        wrapped ==> ask == Ok::<bool, Error>(!held),
{
    if !wrapped {
        Err(Error::new(ErrorKind::Usage, "config specifies a bare key; nothing to do"))
    } else {
        Ok(!held)
    }
}

/// Checks that `label` can name a record. Fails, with an error of kind
/// `Usage`, exactly where it cannot.
pub fn check_label(label: &str) -> (checked: Result<(), Error>)
    ensures
        valid_label(label@) ==> checked is Ok,
        !valid_label(label@) ==> (checked matches Err(e) && e@ == (
            ErrorKind::Usage,
            "invalid record label: "@ + label@,
        )),
{
    if is_valid_label(label) {
        Ok(())
    } else {
        Err(Error { kind: ErrorKind::Usage, message: join("invalid record label: ", label) })
    }
}

/// The body that terse input of the kind `kind` holds, or the message of
/// the error.
pub open spec fn terse_body(kind: Seq<char>, input: Seq<char>) -> Result<BodyView, Seq<char>> {
    if kind == "login"@ {
        let found = split_fields(chomped(input), 0, 2);
        if found.len() == 2 {
            Ok(BodyView::Login { username: found[0], password: found[1] })
        } else {
            Err(field_count_mismatch(2, found.len()))
        }
    } else if kind == "environment"@ {
        let found = split_fields(chomped(input), 0, 2);
        if found.len() == 2 {
            Ok(BodyView::Environment { variable: found[0], value: found[1] })
        } else {
            Err(field_count_mismatch(2, found.len()))
        }
    } else if kind == "unstructured"@ {
        Ok(BodyView::Unstructured { contents: chomped(input) })
    } else {
        Err("unknown record kind: "@ + kind)
    }
}

/// Makes the record that the command for new records was given in terse
/// form: its label, its kind, and its fields in `input`.
///
/// Fails, with an error of kind `Usage`, where the label cannot name a
/// record, where a record is there under the label and overwriting was not
/// asked for, where the kind is not one of `login`, `environment` and
/// `unstructured`, and where the input holds too few fields.
pub fn new(label: &str, kind: &str, exists: bool, force: bool, input: String) -> (record: Result<
    Record,
    Error,
>)
    ensures
        !valid_label(label@) ==> (record matches Err(e) && e@ == (
            ErrorKind::Usage,
            "invalid record label: "@ + label@,
        )),
        valid_label(label@) && exists && !force ==> (record matches Err(e) && e@ == (
            ErrorKind::Usage,
            "refusing to overwrite a record without --force"@,
        )),
        valid_label(label@) && !(exists && !force) ==> match terse_body(kind@, input@) {
            Ok(body) => record matches Ok(r) && r.label@ == label@ && r.body@ == body,
            Err(why) => record matches Err(e) && e@ == (ErrorKind::Usage, why),
        },
{
    check_label(label)?;
    guard_overwrite(exists, force)?;
    let body = if kind.eq("login") {
        LoginFields::from_terse(input)?
    } else if kind.eq("environment") {
        EnvironmentFields::from_terse(input)?
    } else if kind.eq("unstructured") {
        UnstructuredFields::from_terse(input)?
    } else {
        return Err(Error { kind: ErrorKind::Usage, message: join("unknown record kind: ", kind) });
    };
    Ok(Record::new(label, body))
}

/// The line that lists a record, or `None` where the record is of another
/// kind than the one asked for.
pub open spec fn listed(label: Seq<char>, record: RecordView, details: bool, kind: Option<Seq<char>>) -> Option<
    Seq<char>,
> {
    if kind is Some && kind->0 != record.body.kind() {
        None
    } else if details {
        Some(label + " "@ + record.body.kind() + " "@ + decimal(record.timestamp as nat))
    } else {
        Some(label)
    }
}

/// The line that lists the record under `label`: the label, and with
/// `details` the kind and the time stamp after it. `record` is read only
/// where details or a kind are asked for. Gives `None` where a kind is
/// asked for and the record is of another.
pub fn list(label: &str, record: Option<&Record>, details: bool, kind: Option<&str>) -> (line: Option<
    String,
>)
    ensures
        match record {
            None => line matches Some(l) && l@ == label@,
            Some(r) => match listed(
                label@,
                r@,
                details,
                match kind {
                    Some(k) => Some(k@),
                    None => None,
                },
            ) {
                Some(text) => line matches Some(l) && l@ == text,
                None => line is None,
            },
        },
{
    let record = match record {
        Some(r) => r,
        None => return Some(label.to_owned()),
    };
    if let Some(k) = kind {
        if !record.body.kind().eq(k) {
            return None;
        }
    }
    let mut line = label.to_owned();
    if details {
        line.append(" ");
        line.append(record.body.kind());
        line.append(" ");
        line.append(decimal_string(record.timestamp).as_str());
    }
    Some(line)
}

/// Decides what renaming asks of the store, as `Session::rename_record`
/// does, after refusing a new label that cannot name a record, and
/// refusing to overwrite a record under the new label unless that was asked
/// for. A record is never renamed to its own label, asked for or not.
pub fn rename(
    session: &Session,
    old: &str,
    new: &str,
    new_exists: bool,
    force: bool,
    read: FileRead,
) -> (rename: Result<Rename, Error>)
    ensures
        !valid_label(new@) ==> (rename matches Err(e) && e@ == (
            ErrorKind::Usage,
            "invalid record label: "@ + new@,
        )),
        valid_label(new@) && new_exists && !force ==> (rename matches Err(e) && e@ == (
            ErrorKind::Usage,
            "refusing to overwrite a record without --force"@,
        )),
        valid_label(new@) && !(new_exists && !force) ==> session.renames(old@, new@, read, rename),
{
    check_label(new)?;
    guard_overwrite(new_exists, force)?;
    session.rename_record(old, new, read)
}

/// What dumping a record prints when JSON is not asked for.
pub open spec fn dumped(label: Seq<char>, record: RecordView) -> Seq<char> {
    "Label "@ + label + "\nKind "@ + record.body.kind() + "\n"@ + (match record.body {
        BodyView::Login { username, password } => "Username "@ + username + "\nPassword "@
            + password,
        BodyView::Environment { variable, value } => "Variable "@ + variable + "\nValue "@ + value,
        BodyView::Unstructured { contents } => "Contents "@ + contents,
    }) + "\n"@
}

/// What dumping the record under `label` prints: the JSON of the record on
/// one line, or its label, its kind and its fields, each on a line.
pub fn dump(label: &str, record: &Record, json: bool) -> (text: String)
    ensures
        text@ == (if json {
            record@.json() + "\n"@
        } else {
            dumped(label@, record@)
        }),
{
    if json {
        let mut text = record.to_json();
        text.append("\n");
        return text;
    }
    let fields = match &record.body {
        RecordBody::Login(l) => {
            let mut s = "Username ".to_owned();
            s.append(l.username.as_str());
            s.append("\nPassword ");
            s.append(l.password.as_str());
            s
        },
        RecordBody::Environment(e) => {
            let mut s = "Variable ".to_owned();
            s.append(e.variable.as_str());
            s.append("\nValue ");
            s.append(e.value.as_str());
            s
        },
        RecordBody::Unstructured(u) => join("Contents ", u.contents.as_str()),
    };
    let mut text = "Label ".to_owned();
    text.append(label);
    text.append("\nKind ");
    text.append(record.body.kind());
    text.append("\n");
    text.append(fields.as_str());
    text.append("\n");
    text
}

/// What asking for the password of the login under `label` prints: the
/// password, and a line feed after it where the output is a terminal.
/// Fails, with an error of kind `Usage`, exactly where the record is no
/// login.
pub fn pass(label: &str, record: Record, terminal: bool) -> (text: Result<String, Error>)
    ensures
        match record@.body {
            BodyView::Login { password, .. } => text matches Ok(t) && t@ == (if terminal {
                password + "\n"@
            } else {
                password
            }),
            _ => text matches Err(e) && e@ == (ErrorKind::Usage, "not a login record: "@ + label@),
        },
{
    match record.body {
        RecordBody::Login(l) => {
            let mut text = l.password;
            if terminal {
                text.append("\n");
            }
            Ok(text)
        },
        _ => Err(Error { kind: ErrorKind::Usage, message: join("not a login record: ", label) }),
    }
}

/// What asking for an environment prints.
pub open spec fn exported(variable: Seq<char>, value: Seq<char>, value_only: bool, no_export: bool) -> Seq<
    char,
> {
    if value_only {
        value + "\n"@
    } else if no_export {
        variable + "="@ + value + "\n"@
    } else {
        "export "@ + variable + "="@ + value + "\n"@
    }
}

/// What asking for the environment under `label` prints: the value alone,
/// or the variable and the value, with `export` before them unless that is
/// not wanted. Fails, with an error of kind `Usage`, exactly where the
/// record is no environment.
pub fn env(label: &str, record: Record, value_only: bool, no_export: bool) -> (text: Result<
    String,
    Error,
>)
    ensures
        match record@.body {
            BodyView::Environment { variable, value } => text matches Ok(t) && t@ == exported(
                variable,
                value,
                value_only,
                no_export,
            ),
            _ => text matches Err(e) && e@ == (
                ErrorKind::Usage,
                "not an environment record: "@ + label@,
            ),
        },
{
    match record.body {
        RecordBody::Environment(e) => {
            if value_only {
                let mut text = e.value;
                text.append("\n");
                Ok(text)
            } else {
                let mut text = if no_export {
                    String::new()
                } else {
                    "export ".to_owned()
                };
                proof {
                    assert(Seq::<char>::empty() + e.variable@ =~= e.variable@);
                }
                text.append(e.variable.as_str());
                text.append("=");
                text.append(e.value.as_str());
                text.append("\n");
                Ok(text)
            }
        },
        _ => Err(
            Error { kind: ErrorKind::Usage, message: join("not an environment record: ", label) },
        ),
    }
}

/// The editor to run, and its arguments: the one that the configuration
/// names, else the one that the environment names. Fails, with an error of
/// kind `Usage`, where neither names one, and as `parse_and_split_args`
/// does on the one that is named.
pub fn editor(configured: Option<String>, environment: Option<String>) -> (parsed: Result<
    (String, Vec<String>),
    Error,
>)
    ensures
        configured is None && environment is None ==> (parsed matches Err(e) && e@ == (
            ErrorKind::Usage,
            "no editor configured to edit with"@,
        )),
        ({
            let named = if configured is Some {
                configured
            } else {
                environment
            };
            named matches Some(line) ==> match shell_words(line@) {
                Some(words) => if words.len() > 0 {
                    parsed matches Ok(p) && p.0@ == words[0] && texts(p.1@) == words.skip(1)
                } else {
                    parsed is Err
                },
                None => parsed is Err,
            }
        }),
{
    let line = match configured {
        Some(line) => line,
        None => match environment {
            Some(line) => line,
            None => return Err(Error::new(ErrorKind::Usage, "no editor configured to edit with")),
        },
    };
    parse_and_split_args(line.as_str())
}

/// The record to store after the record under `label` was edited: what the
/// edited JSON holds, but under `label` as before, and with the time of
/// now. Fails, with an error of kind `Malformed`, exactly where what was
/// edited is no record.
pub fn edit(label: &str, edited: &str) -> (record: Result<Record, Error>)
    ensures
        match decode_record(edited@) {
            Ok(read) => record matches Ok(r) && r.label@ == label@ && r.body@ == read.body,
            Err(why) => record matches Err(e) && e@ == (ErrorKind::Malformed, why),
        },
{
    edit_at(label, edited, current_timestamp())
}

/// The record to store after the record under `label` was edited at the
/// time `now`: what the edited JSON holds, but under `label` as before, and
/// with the time stamp `now`. Fails, with an error of kind `Malformed`,
/// exactly where what was edited is no record.
pub fn edit_at(label: &str, edited: &str, now: u64) -> (record: Result<Record, Error>)
    ensures
        match decode_record(edited@) {
            Ok(read) => record matches Ok(r) && r@ == (RecordView {
                timestamp: now,
                label: label@,
                body: read.body,
            }),
            Err(why) => record matches Err(e) && e@ == (ErrorKind::Malformed, why),
        },
{
    let mut record = Record::from_json(edited)?;
    record.label = label.to_owned();
    record.timestamp = now;
    Ok(record)
}

/// The generator named `name`. Fails, with an error of kind `Config`,
/// exactly where there is none.
pub fn generate<'a>(config: &'a Config, name: &str) -> (found: Result<&'a GeneratorConfig, Error>)
    ensures
        match found {
            Ok(g) => generator_index(config.generators@, name@) matches Some(i)
                && config.generators@[i] == *g,
            Err(e) => generator_index(config.generators@, name@) is None && e@ == (
                ErrorKind::Config,
                "couldn't find a generator named "@ + name@,
            ),
        },
{
    match config.generator(name) {
        Some(g) => Ok(g),
        None => Err(
            Error { kind: ErrorKind::Config, message: join("couldn't find a generator named ", name) },
        ),
    }
}

/// The path of the backup of `path`.
pub fn backup_path(path: &str) -> (backup: String)
    ensures
        backup@ == path@ + ".old"@,
{
    join(path, ".old")
}

/// Decides what changing the passphrase of the key does before the
/// passphrases are asked for: the path to copy the key file to first, if a
/// backup is wanted.
///
/// Fails, with an error of kind `Usage`, where the key is bare, and where
/// a backup is wanted, one is there already, and overwriting it was not
/// asked for.
pub fn rewrap(config: &Config, no_backup: bool, force: bool, backup_exists: bool) -> (backup: Result<
    Option<String>,
    Error,
>)
    ensures
        !config.wrapped ==> (backup matches Err(e) && e@ == (
            ErrorKind::Usage,
            "config specifies a bare key; nothing to rewrap"@,
        )),
        config.wrapped && no_backup ==> backup matches Ok(None),
        config.wrapped && !no_backup && backup_exists && !force ==> (backup matches Err(e) && e@
            == (ErrorKind::Usage, "refusing to overwrite a previous key backup without --force"@)),
        config.wrapped && !no_backup && !(backup_exists && !force) ==> (backup matches Ok(Some(p))
            && p@ == config.keyfile@ + ".old"@),
{
    if !config.wrapped {
        return Err(Error::new(ErrorKind::Usage, "config specifies a bare key; nothing to rewrap"));
    }
    if no_backup {
        return Ok(None);
    }
    if backup_exists && !force {
        return Err(
            Error::new(
                ErrorKind::Usage,
                "refusing to overwrite a previous key backup without --force",
            ),
        );
    }
    Ok(Some(backup_path(config.keyfile.as_str())))
}

/// What is backed up before the store is rekeyed.
#[derive(Debug, Clone, Copy, PartialEq, Eq, Structural)]
pub enum Backup {
    Keyfile,
    Config,
    Store,
}

/// The paths that the backups before a rekeying go to.
#[derive(Debug)]
pub struct Backups {
    /// The copy of the key file.
    pub keyfile: String,
    /// The copy of the configuration file.
    pub config: String,
    /// The directory of the copies of the records.
    pub store: String,
}

/// What rekeying does first.
#[derive(Debug)]
pub enum Rekey {
    /// The user did not confirm: nothing is done.
    Abandon,
    /// Go on, after making the backups if there are any to make.
    Proceed(Option<Backups>),
}

/// Decides how rekeying begins. Fails, with an error of kind `Usage`,
/// exactly where the key is bare.
pub fn rekey(config: &Config, confirmed: bool, no_backup: bool) -> (plan: Result<Rekey, Error>)
    ensures
        !config.wrapped ==> (plan matches Err(e) && e@ == (
            ErrorKind::Usage,
            "rekeying is only supported on wrapped keys"@,
        )),
        config.wrapped && !confirmed ==> plan matches Ok(Rekey::Abandon),
        config.wrapped && confirmed && no_backup ==> plan matches Ok(Rekey::Proceed(None)),
        config.wrapped && confirmed && !no_backup ==> (plan matches Ok(Rekey::Proceed(Some(b)))
            && b.keyfile@ == config.keyfile@ + ".old"@ && b.config@ == joined_path(
            config.config_dir@,
            "config.toml.old"@,
        ) && b.store@ == config.store@ + ".old"@),
{
    if !config.wrapped {
        return Err(Error::new(ErrorKind::Usage, "rekeying is only supported on wrapped keys"));
    }
    if !confirmed {
        return Ok(Rekey::Abandon);
    }
    if no_backup {
        return Ok(Rekey::Proceed(None));
    }
    Ok(
        Rekey::Proceed(
            Some(
                Backups {
                    keyfile: backup_path(config.keyfile.as_str()),
                    config: join_path(config.config_dir.as_str(), "config.toml.old"),
                    store: backup_path(config.store.as_str()),
                },
            ),
        ),
    )
}

/// The message that refuses to overwrite a backup during a rekeying.
pub open spec fn backup_refusal(which: Backup) -> Seq<char> {
    match which {
        Backup::Keyfile => "refusing to overwrite a previous key backup during rekeying; resolve manually"@,
        Backup::Config => "refusing to overwrite a previous config backup during rekeying; resolve manually"@,
        Backup::Store => "refusing to overwrite a previous store backup during rekeying; resolve manually"@,
    }
}

/// Refuses to overwrite a backup during a rekeying: fails, with an error
/// of kind `Usage`, exactly where the backup is there.
pub fn rekey_backup(which: Backup, exists: bool) -> (allowed: Result<(), Error>)
    ensures
        exists ==> (allowed matches Err(e) && e@ == (ErrorKind::Usage, backup_refusal(which))),
        !exists ==> allowed is Ok,
{
    if !exists {
        return Ok(());
    }
    let message = match which {
        Backup::Keyfile => "refusing to overwrite a previous key backup during rekeying; resolve manually",
        Backup::Config => "refusing to overwrite a previous config backup during rekeying; resolve manually",
        Backup::Store => "refusing to overwrite a previous store backup during rekeying; resolve manually",
    };
    Err(Error::new(ErrorKind::Usage, message))
}

/// The new keys of a rekeying, and what is to be done with them.
pub struct Rekeyed {
    /// The configuration to write, which holds the new public key.
    pub config: Config,
    /// What to write to the key file.
    pub keyfile: Vec<u8>,
    /// The request that makes the agent forget the old key.
    pub flush: Request,
    /// The request that makes the agent unwrap the new key. The connection
    /// on which it is sent is to be closed before a session is started.
    pub add: Request,
}

/// Makes the new keys of a rekeying: a fresh pair, wrapped with
/// `new_password`; the configuration with the new public key and all else
/// as it was; and the requests that bring the agent up to date.
///
/// Fails only where the keys cannot be made, as `create_wrapped_keypair`
/// does.
pub fn rekey_keys(config: Config, new_password: &str) -> (made: Result<Rekeyed, Error>)
    ensures
        made matches Err(e) ==> e.kind == ErrorKind::Config || wrap_failure(e@),
        made matches Ok(r) ==> {
            &&& wraps_fresh_key(
                new_password@,
                WrappedKeypair { keyfile: r.keyfile, public_key: r.config.public_key },
            )
            &&& r.config.config_dir == config.config_dir
            &&& r.config.keyfile == config.keyfile
            &&& r.config.store == config.store
            &&& r.config.wrapped == config.wrapped
            &&& r.config.agent_autostart == config.agent_autostart
            &&& r.config.pinentry == config.pinentry
            &&& r.config.pre_hook == config.pre_hook
            &&& r.config.post_hook == config.post_hook
            &&& r.config.error_hook == config.error_hook
            &&& r.config.reentrant_hooks == config.reentrant_hooks
            &&& r.config.commands == config.commands
            &&& r.config.generators == config.generators
            &&& r.flush@ == (RequestView {
                protocol: PROTOCOL_VERSION,
                body: RequestBodyView::FlushKeys,
            })
            &&& r.add@ == (RequestView {
                protocol: PROTOCOL_VERSION,
                body: RequestBodyView::UnwrapKey(
                    r.config.public_key@,
                    config.keyfile@,
                    new_password@,
                ),
            })
        },
{
    let pair = RageLib::create_wrapped_keypair(new_password)?;
    Ok(rekeyed(config, new_password, pair))
}

/// The new keys of a rekeying and what is to be done with them, from the
/// pair of keys that was made: the configuration with the new public key and
/// all else as it was, the new key file, and the requests that make the
/// agent forget the old key and unwrap the new one.
pub fn rekeyed(config: Config, new_password: &str, pair: WrappedKeypair) -> (r: Rekeyed)
    ensures
        r.keyfile == pair.keyfile,
        r.config.public_key == pair.public_key,
        r.config.config_dir == config.config_dir,
        r.config.keyfile == config.keyfile,
        r.config.store == config.store,
        r.config.wrapped == config.wrapped,
        r.config.agent_autostart == config.agent_autostart,
        r.config.pinentry == config.pinentry,
        r.config.pre_hook == config.pre_hook,
        r.config.post_hook == config.post_hook,
        r.config.error_hook == config.error_hook,
        r.config.reentrant_hooks == config.reentrant_hooks,
        r.config.commands == config.commands,
        r.config.generators == config.generators,
        r.flush@ == (RequestView { protocol: PROTOCOL_VERSION, body: RequestBodyView::FlushKeys }),
        r.add@ == (RequestView {
            protocol: PROTOCOL_VERSION,
            body: RequestBodyView::UnwrapKey(pair.public_key@, config.keyfile@, new_password@),
        }),
{
    let flush = Request { protocol: PROTOCOL_VERSION, body: crate::protocol::RequestBody::FlushKeys };
    let add = Request {
        protocol: PROTOCOL_VERSION,
        body: crate::protocol::RequestBody::UnwrapKey(
            pair.public_key.clone(),
            config.keyfile.clone(),
            new_password.to_owned(),
        ),
    };
    let config = config.with_public_key(pair.public_key);
    Rekeyed { config, keyfile: pair.keyfile, flush, add }
}

/// Encrypts the records of a rekeying anew, for the session that was
/// started with the new keys: one file to write for each record, in order,
/// named by its label and encrypted to the new public key, so that the
/// session reads each record from its file again.
///
/// Fails, as `encrypt` does, at the first record that cannot be encrypted.
pub fn rekey_records(session: &Session, records: &Vec<Record>) -> (writes: Result<
    Vec<StoreWrite>,
    Error,
>)
    ensures
        writes matches Ok(w) ==> w@.len() == records@.len() && forall|i: int|
            0 <= i < w@.len() ==> (#[trigger] w@[i]).label@ == records@[i].label@ && w@[i].path@
                == joined_path(session.config.store@, records@[i].label@)
                && session.backend.keeps(records@[i]@, w@[i].contents@) && sealed_for(
                session.backend.pubkey@,
                records@[i]@.json(),
                w@[i].contents@,
            ),
        writes matches Err(e) ==> encrypt_failure(session.backend.pubkey@, e@),
        records@.len() == 0 ==> writes is Ok,
        records@.len() > 0 ==> (encrypt_refusal(session.backend.pubkey@) matches Some(refusal)
            ==> (writes matches Err(e) && e@ == refusal)),
{
    let mut writes: Vec<StoreWrite> = Vec::new();
    let mut i: usize = 0;
    while i < records.len()
        invariant
            i <= records.len(),
            writes@.len() == i,
            i > 0 ==> encrypt_refusal(session.backend.pubkey@) is None,
            forall|k: int|
                0 <= k < i ==> (#[trigger] writes@[k]).label@ == records@[k].label@
                    && writes@[k].path@ == joined_path(
                    session.config.store@,
                    records@[k].label@,
                ) && session.backend.keeps(records@[k]@, writes@[k].contents@) && sealed_for(
                    session.backend.pubkey@,
                    records@[k]@.json(),
                    writes@[k].contents@,
                ),
        decreases records.len() - i,
    {
        let write = session.add_record(&records[i])?;
        writes.push(write);
        i += 1;
    }
    Ok(writes)
}

} // verus!
