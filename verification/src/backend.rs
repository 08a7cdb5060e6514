//! The cryptographic backend: key pairs, passphrase-wrapped keys, and the
//! encryption of records, all by way of the age format.

use secrecy::ExposeSecret;
use std::io::Read;
use vstd::prelude::*;
use vstd::string::*;

use crate::error::{outcome, Error, ErrorKind};
use crate::record::{decode_record, Record, RecordView};
use crate::text::{chars_of, join3, string_of, texts, wipe};

verus! {

/// The largest wrapped key file that is read, in bytes.
pub const MAX_WRAPPED_KEY_FILESIZE: u64 = 4096;

/// The highest scrypt work factor that unwrapping a key will accept.
pub const MAX_WORK_FACTOR: u8 = 22;

/// The step at which opening an envelope stopped.
#[derive(Debug, Clone, Copy, PartialEq, Eq, Structural)]
pub enum Stage {
    /// The identity could not be parsed.
    Identity,
    /// The envelope could not be read as an age file.
    Envelope,
    /// The file key could not be recovered with the key at hand.
    Keys,
    /// The payload could not be decrypted, or is not UTF-8 text.
    Payload,
}

/// A failure reported by age: the step that failed, and the error in the
/// form that `Debug` prints.
#[derive(Debug)]
pub struct Fault {
    pub stage: Stage,
    pub detail: String,
}

impl View for Fault {
    type V = (Stage, Seq<char>);

    open spec fn view(&self) -> (Stage, Seq<char>) {
        (self.stage, self.detail@)
    }
}

/// The public key of the X25519 identity written as `identity`, as age
/// prints it; or, where `identity` is no such identity, the error as
/// `Debug` prints it.
pub uninterp spec fn age_public_key(identity: Seq<char>) -> Result<Seq<char>, Seq<char>>;

/// The X25519 public key that age reads `recipient` as, as age prints it;
/// or, where it reads none, the error as `Debug` prints it.
pub uninterp spec fn age_recipient(recipient: Seq<char>) -> Result<Seq<char>, Seq<char>>;

/// Whether `key`, a public key as age prints it, is a point of small order:
/// one of the values 0, 1, the two coordinates of order 8, p - 1, p and
/// p + 1, where p is 2^255 - 19, written with the top bit clear or with it
/// set. X25519 passes over the top bit and counts modulo p, so these are all
/// the ways to write a point of order 1, 2, 4 or 8 of the curve or of its
/// twist. With such a key every shared secret is zero, whatever the other
/// side brings.
pub open spec fn small_order(key: Seq<char>) -> bool {
    ||| key == "age1qqqqqqqqqqqqqqqqqqqqqqqqqqqqqqqqqqqqqqqqqqqqqqqqqqqq5cu47z"@
    ||| key == "age1qqqqqqqqqqqqqqqqqqqqqqqqqqqqqqqqqqqqqqqqqqqqqqqqqzqqsuwj9m"@
    ||| key == "age1qyqqqqqqqqqqqqqqqqqqqqqqqqqqqqqqqqqqqqqqqqqqqqqqqqqqj7vrya"@
    ||| key == "age1qyqqqqqqqqqqqqqqqqqqqqqqqqqqqqqqqqqqqqqqqqqqqqqqqzqqk67yly"@
    ||| key == "age1ur4h5lpmgxu2u9jku0a0r87ydtdqnr0tnsetrlvxvgz3vh6fhqqqzyt4v9"@
    ||| key == "age1ur4h5lpmgxu2u9jku0a0r87ydtdqnr0tnsetrlvxvgz3vh6fhzqqxqejhu"@
    ||| key == "age1t7wft09r2zxzfvwsk92eeql0tvzyghxytqwgapkcyf8dm5ylz9ts6wm9s8"@
    ||| key == "age1t7wft09r2zxzfvwsk92eeql0tvzyghxytqwgapkcyf8dm5ylz8ts72fzt7"@
    ||| key == "age1anlllllllllllllllllllllllllllllllllllllllllllllllals4n2t7m"@
    ||| key == "age1anllllllllllllllllllllllllllllllllllllllllllllllllls3hcv9z"@
    ||| key == "age1ahlllllllllllllllllllllllllllllllllllllllllllllllalsn46ayy"@
    ||| key == "age1ahlllllllllllllllllllllllllllllllllllllllllllllllllsh3g6la"@
    ||| key == "age1amlllllllllllllllllllllllllllllllllllllllllllllllalselrwrv"@
    ||| key == "age1amlllllllllllllllllllllllllllllllllllllllllllllllllsam3fc4"@
}

/// Whether age encrypts to `recipient`: it reads it as a public key, and
/// the key is not of small order.
pub open spec fn seals(recipient: Seq<char>) -> bool {
    age_recipient(recipient) is Ok && !small_order(age_recipient(recipient)->Ok_0)
}

/// Whether `identity` is an identity of the public key that age reads
/// `recipient` as.
pub open spec fn belongs(identity: Seq<char>, recipient: Seq<char>) -> bool {
    age_recipient(recipient) matches Ok(key) && age_public_key(identity) == Ok::<
        Seq<char>,
        Seq<char>,
    >(key)
}

/// Whether `envelope` holds `plain` for `recipient`: every identity of that
/// public key decrypts `envelope` to `plain`.
pub open spec fn sealed_for(recipient: Seq<char>, plain: Seq<char>, envelope: Seq<char>) -> bool {
    forall|identity: Seq<char>|
        belongs(identity, recipient) ==> #[trigger] age_opened(identity, envelope) == Ok::<
            Seq<char>,
            (Stage, Seq<char>),
        >(plain)
}

/// What comes of decrypting the age file `envelope`, armored or not, with the
/// X25519 identity written as `identity`: the plaintext, or the failure. Of
/// a failure on the payload only the stage is named: what age says of one
/// may be worded for the language of the machine.
pub uninterp spec fn age_opened(identity: Seq<char>, envelope: Seq<char>) -> Result<
    Seq<char>,
    (Stage, Seq<char>),
>;

/// Whether the age file `envelope` is encrypted to a passphrase; or, where
/// age cannot read `envelope`, the error as `Debug` prints it.
pub uninterp spec fn age_passphrase_wrapped(envelope: Seq<u8>) -> Result<bool, Seq<char>>;

/// What comes of decrypting the age file `envelope` with `passphrase`, at a
/// work factor of at most `ceiling`: the plaintext, or the step that failed.
pub uninterp spec fn age_unwrapped(passphrase: Seq<char>, envelope: Seq<u8>, ceiling: u8) -> Result<
    Seq<char>,
    Stage,
>;

/// A fresh X25519 identity, as text.
///
/// Trusted: calls `age::x25519::Identity::generate` and `to_string`.
/// Nothing is claimed of the result: the key is random.
#[verifier::external_body]
fn generate_identity() -> (identity: String) {
    age::x25519::Identity::generate().to_string().expose_secret().to_owned()
}

/// The public key that belongs to `identity`.
///
/// Trusted: parses with `FromStr for age::x25519::Identity` and prints
/// `Identity::to_public`. Claims only that the outcome is the value named
/// `age_public_key`.
#[verifier::external_body]
fn public_key_of(identity: &str) -> (key: Result<String, String>)
    ensures
        key matches Ok(k) ==> (age_public_key(identity@) matches Ok(pk) && pk == k@),
        key matches Err(e) ==> (age_public_key(identity@) matches Err(why) && why == e@),
{
    match identity.parse::<age::x25519::Identity>() {
        Ok(key) => Ok(key.to_public().to_string()),
        Err(e) => Err(format!("{:?}", e)),
    }
}

/// The public key that `recipient` is read as.
///
/// Trusted: parses with `FromStr for age::x25519::Recipient` and prints
/// the key with its `Display`. Claims only that the outcome is the value
/// named `age_recipient`.
#[verifier::external_body]
fn read_recipient(recipient: &str) -> (read: Result<String, String>)
    ensures
        read matches Ok(k) ==> (age_recipient(recipient@) matches Ok(key) && key == k@),
        read matches Err(e) ==> (age_recipient(recipient@) matches Err(why) && why == e@),
{
    match recipient.parse::<age::x25519::Recipient>() {
        Ok(key) => Ok(key.to_string()),
        Err(e) => Err(format!("{:?}", e)),
    }
}

/// Encrypts `plain` to `recipient`, in ASCII armor.
///
/// Trusted: parses the recipient and calls `age::encrypt_and_armor`. The
/// envelope is random, and one thing is claimed of it, which is what age
/// is for: whoever holds the identity of the recipient decrypts the
/// envelope to `plain`. age gives up, and does
/// not return, where the secret that it shares with the recipient comes
/// out all zero; X25519 gives that for the public keys of small order and
/// for no others, and `requires` leaves those out.
#[verifier::external_body]
fn seal(recipient: &str, plain: &str) -> (sealed: Result<String, String>)
    requires
        seals(recipient@),
    ensures
        sealed matches Ok(envelope) ==> sealed_for(recipient@, plain@, envelope@),
{
    let key = recipient.parse::<age::x25519::Recipient>().map_err(|e| format!("{:?}", e))?;
    age::encrypt_and_armor(&key, plain.as_bytes()).map_err(|e| format!("{:?}", e))
}

/// Decrypts `envelope` with `identity`.
///
/// Trusted: parses the identity, reads the header with
/// `age::Decryptor::new` over an `ArmoredReader`, recovers the file key with
/// `Decryptor::decrypt`, and reads the payload as UTF-8. Claims only that the
/// outcome is the value named `age_opened`: the plaintext; or the stage of
/// the failure and, but for a failure on the payload, what age said of it.
#[verifier::external_body]
fn open(identity: &str, envelope: &str) -> (opened: Result<String, Fault>)
    ensures
        opened matches Ok(plain) ==> (age_opened(identity@, envelope@) matches Ok(p) && p == plain@),
        opened matches Err(fault) ==> (age_opened(identity@, envelope@) matches Err(f) && f.0
            == fault.stage && (fault.stage != Stage::Payload ==> f.1 == fault.detail@)),
{
    let at = |stage: Stage, e: &dyn std::fmt::Debug| Fault { stage, detail: format!("{:?}", e) };
    let key: age::x25519::Identity = identity.parse().map_err(|e| at(Stage::Identity, &e))?;
    let armor = age::armor::ArmoredReader::new(envelope.as_bytes());
    let file = age::Decryptor::new(armor).map_err(|e| at(Stage::Envelope, &e))?;
    let mut payload = file.decrypt(std::iter::once(&key as _)).map_err(|e| at(Stage::Keys, &e))?;
    let mut plain = String::new();
    payload.read_to_string(&mut plain).map_err(|e| at(Stage::Payload, &e))?;
    Ok(plain)
}

/// Encrypts `key` under `passphrase`, in ASCII armor.
///
/// Trusted: calls `age::scrypt::Recipient::new`, which picks a work factor
/// by timing this machine, and `age::encrypt_and_armor`. Nothing is claimed
/// of the envelope: it is random, and so is its work factor.
#[verifier::external_body]
fn wrap(key: &str, passphrase: &str) -> (wrapped: Result<Vec<u8>, String>) {
    let recipient = age::scrypt::Recipient::new(secrecy::SecretString::from(passphrase));
    match age::encrypt_and_armor(&recipient, key.as_bytes()) {
        Ok(envelope) => Ok(envelope.into_bytes()),
        Err(e) => Err(format!("{:?}", e)),
    }
}

/// Whether `envelope` is encrypted to a passphrase.
///
/// Trusted: reads the header with `age::Decryptor::new` over an
/// `ArmoredReader` and asks `Decryptor::is_scrypt`. Claims only that the
/// outcome is the value named `age_passphrase_wrapped`.
#[verifier::external_body]
fn passphrase_wrapped(envelope: &Vec<u8>) -> (kind: Result<bool, String>)
    ensures
        kind matches Ok(b) ==> (age_passphrase_wrapped(envelope@) matches Ok(k) && k == b),
        kind matches Err(e) ==> (age_passphrase_wrapped(envelope@) matches Err(why) && why == e@),
{
    match age::Decryptor::new(age::armor::ArmoredReader::new(envelope.as_slice())) {
        Ok(file) => Ok(file.is_scrypt()),
        Err(e) => Err(format!("{:?}", e)),
    }
}

/// Decrypts `envelope` with `passphrase`, at a work factor of at most
/// `ceiling`.
///
/// Trusted: builds an `age::scrypt::Identity`, caps its work factor with
/// `set_max_work_factor`, reads the header, recovers the file key and reads
/// the payload as UTF-8. Claims that the plaintext, or else the step that
/// failed, is the value named `age_unwrapped`. The detail of a failure is
/// not named: for an excessive work factor it holds a figure that age
/// measured on this machine.
#[verifier::external_body]
fn unwrap(passphrase: &str, envelope: &Vec<u8>, ceiling: u8) -> (opened: Result<String, Fault>)
    ensures
        opened matches Ok(key) ==> (age_unwrapped(passphrase@, envelope@, ceiling) matches Ok(k)
            && k == key@),
        opened matches Err(fault) ==> (age_unwrapped(passphrase@, envelope@, ceiling) matches Err(
            stage,
        ) && stage == fault.stage),
{
    let at = |stage: Stage, e: &dyn std::fmt::Debug| Fault { stage, detail: format!("{:?}", e) };
    let mut key = age::scrypt::Identity::new(secrecy::SecretString::from(passphrase));
    key.set_max_work_factor(ceiling);
    let armor = age::armor::ArmoredReader::new(envelope.as_slice());
    let file = age::Decryptor::new(armor).map_err(|e| at(Stage::Envelope, &e))?;
    let mut payload = file.decrypt(std::iter::once(&key as _)).map_err(|e| at(Stage::Keys, &e))?;
    let mut plain = String::new();
    payload.read_to_string(&mut plain).map_err(|e| at(Stage::Payload, &e))?;
    Ok(plain)
}


/// Where the line that starts at `from` ends: at the next line feed, or at
/// the end of `s`.
pub open spec fn line_end(s: Seq<char>, from: int) -> int
    decreases s.len() - from,
{
    if from < 0 || from >= s.len() || s[from] == '\n' {
        from
    } else {
        line_end(s, from + 1)
    }
}

/// A line that holds no identity: an empty one, or a comment.
pub open spec fn ignored(line: Seq<char>) -> bool {
    line.len() == 0 || line[0] == '#'
}

/// Where the text of the line from `from` to `end` stops: before the
/// carriage return, where the line ends in a carriage return and a line
/// feed; else at `end`.
pub open spec fn line_stop(s: Seq<char>, from: int, end: int) -> int {
    if from < end < s.len() && s[end - 1] == '\r' {
        end - 1
    } else {
        end
    }
}

/// The lines of `s` from `from` on that are neither empty nor comments.
pub open spec fn identity_lines(s: Seq<char>, from: int) -> Seq<Seq<char>>
    decreases s.len() - from,
{
    if from < 0 || from >= s.len() {
        Seq::empty()
    } else {
        let end = line_end(s, from);
        if end < from || end > s.len() {
            Seq::empty()
        } else {
            let rest = if end >= s.len() {
                Seq::empty()
            } else {
                identity_lines(s, end + 1)
            };
            let line = s.subrange(from, line_stop(s, from, end));
            if ignored(line) {
                rest
            } else {
                seq![line] + rest
            }
        }
    }
}

/// A line ends at or after its start, and within the text.
proof fn lemma_line_end_bounds(s: Seq<char>, from: int)
    requires
        0 <= from <= s.len(),
    ensures
        from <= line_end(s, from) <= s.len(),
        forall|i: int| from <= i < line_end(s, from) ==> s[i] != '\n',
        line_end(s, from) < s.len() ==> s[line_end(s, from)] == '\n',
    decreases s.len() - from,
{
    if from < s.len() && s[from] != '\n' {
        lemma_line_end_bounds(s, from + 1);
    }
}

/// The lines of a key file that hold identities.
pub fn key_lines(text: &str) -> (lines: Vec<String>)
    ensures
        texts(lines@) == identity_lines(text@, 0),
{
    let chars = chars_of(text);
    let mut lines: Vec<String> = Vec::new();
    let mut from: usize = 0;
    let mut done = false;
    assert(texts(lines@) =~= Seq::<Seq<char>>::empty());
    while !done
        invariant
            chars@ == text@,
            from <= chars.len(),
            identity_lines(text@, 0) == texts(lines@) + (if done {
                Seq::<Seq<char>>::empty()
            } else {
                identity_lines(text@, from as int)
            }),
        decreases
            (if done {
                0
            } else {
                chars.len() - from + 1
            }),
    {
        if from >= chars.len() {
            done = true;
        } else {
            let mut end: usize = from;
            while end < chars.len() && chars[end] != '\n'
                invariant
                    chars@ == text@,
                    from <= end <= chars.len(),
                    line_end(text@, from as int) == line_end(text@, end as int),
                decreases chars.len() - end,
            {
                end += 1;
            }
            proof {
                lemma_line_end_bounds(text@, from as int);
                assert(line_end(text@, from as int) == end);
            }
            let ghost rest = if end >= chars.len() {
                Seq::<Seq<char>>::empty()
            } else {
                identity_lines(text@, end + 1)
            };
            let stop = if from < end && end < chars.len() && chars[end - 1] == '\r' {
                end - 1
            } else {
                end
            };
            if !(stop == from || chars[from] == '#') {
                let line = string_of(&chars, from, stop);
                proof {
                    assert(texts(lines@.push(line)) =~= texts(lines@).push(line@));
                    assert(texts(lines@) + (seq![line@] + rest) =~= texts(lines@).push(line@)
                        + rest);
                }
                lines.push(line);
            }
            if end < chars.len() {
                from = end + 1;
            } else {
                done = true;
            }
        }
    }
    proof {
        assert(texts(lines@) + Seq::<Seq<char>>::empty() =~= texts(lines@));
    }
    lines
}

/// The one identity that the key text `text` holds, where it holds one.
pub open spec fn sole_identity(text: Seq<char>) -> Option<Seq<char>> {
    if identity_lines(text, 0).len() == 1 {
        Some(identity_lines(text, 0)[0])
    } else {
        None
    }
}

/// A pair of keys: the identity, which is secret, and its public key.
pub struct Keypair {
    /// The identity, as the text that a bare key file holds.
    pub identity: String,
    /// The public key, as the text that the configuration holds.
    pub public_key: String,
}

/// A pair of keys of which the identity is wrapped with a passphrase.
pub struct WrappedKeypair {
    /// The wrapped identity, as the bytes that a wrapped key file holds.
    pub keyfile: Vec<u8>,
    /// The public key, as the text that the configuration holds.
    pub public_key: String,
}

/// Whether `pair` holds a public key and a key file that `passphrase`
/// unwraps to the identity that the public key belongs to.
pub open spec fn wraps_fresh_key(passphrase: Seq<char>, pair: WrappedKeypair) -> bool {
    exists|identity: Seq<char>|
        #[trigger] age_public_key(identity) == Ok::<Seq<char>, Seq<char>>(pair.public_key@)
            && unwrapped(passphrase, pair.keyfile@) == Ok::<Seq<char>, ErrorKind>(identity)
}

/// Whether `e` is an error that wrapping a key fails with: age failed to
/// encrypt, or what it made does not unwrap to the key again.
pub open spec fn wrap_failure(e: (ErrorKind, Seq<char>)) -> bool {
    is_seal_failure(e) || e == (
        ErrorKind::Decrypt,
        "wrapped key does not unwrap with its passphrase"@,
    )
}

/// What unwrapping the key file `keyfile` with `passphrase` comes to, at a
/// work factor of at most 22: the identity, or the kind of the error.
pub open spec fn unwrapped(passphrase: Seq<char>, keyfile: Seq<u8>) -> Result<Seq<char>, ErrorKind> {
    if keyfile.len() > MAX_WRAPPED_KEY_FILESIZE {
        Err(ErrorKind::Io)
    } else {
        match age_passphrase_wrapped(keyfile) {
            Err(_) => Err(ErrorKind::Decrypt),
            Ok(false) => Err(ErrorKind::NotPassphraseWrapped),
            Ok(true) => match age_unwrapped(passphrase, keyfile, MAX_WORK_FACTOR) {
                Ok(key) => Ok(key),
                Err(_) => Err(ErrorKind::Decrypt),
            },
        }
    }
}

/// Whether `e` is the error that unwrapping the key file `keyfile` with
/// `passphrase` fails with. Where age turns the passphrase away or cannot
/// read the payload, the error quotes what age said, which is not pinned
/// down here.
pub open spec fn unwrap_error(passphrase: Seq<char>, keyfile: Seq<u8>, e: (ErrorKind, Seq<char>)) -> bool {
    if keyfile.len() > MAX_WRAPPED_KEY_FILESIZE {
        e == (ErrorKind::Io, "requested file is suspiciously large, refusing"@)
    } else {
        match age_passphrase_wrapped(keyfile) {
            Err(why) => e == unwrap_failure((Stage::Envelope, why)),
            Ok(false) => e == (
                ErrorKind::NotPassphraseWrapped,
                "key unwrap failed: not a password-wrapped keyfile?"@,
            ),
            Ok(true) => match age_unwrapped(passphrase, keyfile, MAX_WORK_FACTOR) {
                Err(stage) => exists|detail: Seq<char>|
                    e == #[trigger] unwrap_failure((stage, detail)),
                Ok(_) => false,
            },
        }
    }
}

/// What a failure to open an envelope is reported as.
pub open spec fn open_failure(fault: (Stage, Seq<char>)) -> (ErrorKind, Seq<char>) {
    match fault.0 {
        Stage::Identity => (ErrorKind::Config, "failed to parse unwrapped key ("@ + fault.1 + ")"@),
        Stage::Envelope => (
            ErrorKind::Decrypt,
            "unable to load private key (backend reports: "@ + fault.1 + ")"@,
        ),
        Stage::Keys => (ErrorKind::Decrypt, "unable to decrypt (backend reports: "@ + fault.1 + ")"@),
        Stage::Payload => (ErrorKind::Decrypt, "i/o error while decrypting: "@ + fault.1),
    }
}

/// Reports a failure to open an envelope.
pub fn report_open_failure(fault: Fault) -> (err: Error)
    ensures
        err@ == open_failure(fault@),
{
    match fault.stage {
        Stage::Identity => Error {
            kind: ErrorKind::Config,
            message: join3("failed to parse unwrapped key (", fault.detail.as_str(), ")"),
        },
        Stage::Envelope => Error {
            kind: ErrorKind::Decrypt,
            message: join3(
                "unable to load private key (backend reports: ",
                fault.detail.as_str(),
                ")",
            ),
        },
        Stage::Keys => Error {
            kind: ErrorKind::Decrypt,
            message: join3("unable to decrypt (backend reports: ", fault.detail.as_str(), ")"),
        },
        Stage::Payload => Error {
            kind: ErrorKind::Decrypt,
            message: crate::text::join("i/o error while decrypting: ", fault.detail.as_str()),
        },
    }
}

/// What decrypting `envelope` with `identity` comes to: the record, or the
/// kind of the error.
pub open spec fn decrypted(identity: Seq<char>, envelope: Seq<char>) -> Result<
    RecordView,
    ErrorKind,
> {
    match age_opened(identity, envelope) {
        Err(fault) => Err(open_failure(fault).0),
        Ok(plain) => match decode_record(plain) {
            Ok(record) => Ok(record),
            Err(_) => Err(ErrorKind::Malformed),
        },
    }
}

/// Whether `e` is the error that decrypting `envelope` with `identity`
/// fails with. Where age fails on the payload, the error ends in what age
/// said of it, which is not pinned down here.
pub open spec fn decrypt_error(identity: Seq<char>, envelope: Seq<char>, e: (
    ErrorKind,
    Seq<char>,
)) -> bool {
    match age_opened(identity, envelope) {
        Err(fault) => if fault.0 == Stage::Payload {
            exists|detail: Seq<char>| e == #[trigger] open_failure((Stage::Payload, detail))
        } else {
            e == open_failure(fault)
        },
        Ok(plain) => match decode_record(plain) {
            Ok(_) => false,
            Err(msg) => e == (ErrorKind::Malformed, msg),
        },
    }
}

/// Whether `result` is what decrypting `envelope` with `identity` comes
/// to: the record, or the error.
pub open spec fn decrypts_to(
    identity: Seq<char>,
    envelope: Seq<char>,
    result: Result<RecordView, (ErrorKind, Seq<char>)>,
) -> bool {
    match result {
        Ok(record) => decrypted(identity, envelope) == Ok::<RecordView, ErrorKind>(record),
        Err(e) => decrypted(identity, envelope) == Err::<RecordView, ErrorKind>(e.0)
            && decrypt_error(identity, envelope, e),
    }
}

/// Whether `e` is an error that encrypting a record to `pubkey` fails
/// with: the refusal, where encrypting to `pubkey` is refused; else, age
/// failed to encrypt, or what it made does not decrypt to the record again.
pub open spec fn encrypt_failure(pubkey: Seq<char>, e: (ErrorKind, Seq<char>)) -> bool {
    match encrypt_refusal(pubkey) {
        Some(refusal) => e == refusal,
        None => is_seal_failure(e) || e == (
            ErrorKind::Decrypt,
            "record does not decrypt with its own key"@,
        ),
    }
}

/// Whether `a` and `b` hold the same bytes.
pub fn same_bytes(a: &Vec<u8>, b: &Vec<u8>) -> (same: bool)
    ensures
        same == (a@ == b@),
{
    if a.len() != b.len() {
        return false;
    }
    let mut i: usize = 0;
    while i < a.len()
        invariant
            i <= a.len(),
            a.len() == b.len(),
            forall|j: int| 0 <= j < i ==> a@[j] == b@[j],
        decreases a.len() - i,
    {
        if a[i] != b[i] {
            return false;
        }
        i += 1;
    }
    assert(a@ =~= b@);
    true
}

/// The pair of keys of the identity `identity`: the identity and the
/// public key that belongs to it. Fails, with an error of kind `Config`,
/// exactly where age does not read `identity` as an identity.
pub fn keypair_of(identity: String) -> (pair: Result<Keypair, Error>)
    ensures
        match age_public_key(identity@) {
            Ok(public_key) => pair matches Ok(p) && p.identity@ == identity@ && p.public_key@
                == public_key,
            Err(why) => pair matches Err(e) && e@ == open_failure((Stage::Identity, why)),
        },
{
    let mut identity = identity;
    match public_key_of(identity.as_str()) {
        Ok(public_key) => Ok(Keypair { identity, public_key }),
        Err(why) => {
            wipe(&mut identity);
            Err(report_open_failure(Fault { stage: Stage::Identity, detail: why }))
        },
    }
}

/// What wrapping `key` with `password` comes to, from what age made of it:
/// the envelope, where it unwraps to `key` again; the failure of age, where
/// it gave none; and an error of kind `Decrypt`, where the envelope does
/// not unwrap to `key`.
pub fn checked_wrap(key: &str, password: &str, wrapped: Result<Vec<u8>, String>) -> (out: Result<
    Vec<u8>,
    Error,
>)
    ensures
        match wrapped {
            Err(why) => out matches Err(e) && e@ == seal_failure(why@),
            Ok(envelope) => if unwrapped(password@, envelope@) == Ok::<Seq<char>, ErrorKind>(key@) {
                out matches Ok(w) && w@ == envelope@
            } else {
                out matches Err(e) && e@ == (
                    ErrorKind::Decrypt,
                    "wrapped key does not unwrap with its passphrase"@,
                )
            },
        },
{
    let envelope = match wrapped {
        Ok(envelope) => envelope,
        Err(why) => return Err(report_seal_failure(why)),
    };
    let same = match RageLib::unwrap_keyfile(&envelope, password) {
        Ok(mut back) => {
            let same = back.as_str().eq(key);
            wipe(&mut back);
            same
        },
        Err(_) => false,
    };
    if same {
        Ok(envelope)
    } else {
        Err(Error::new(ErrorKind::Decrypt, "wrapped key does not unwrap with its passphrase"))
    }
}

/// The wrapped pair of keys, from a pair of keys and what wrapping its
/// identity came to: the key file and the public key, or the error of the
/// wrapping. The identity is wiped.
pub fn wrapped_keypair_of(pair: Keypair, wrapped: Result<Vec<u8>, Error>) -> (out: Result<
    WrappedKeypair,
    Error,
>)
    ensures
        match wrapped {
            Ok(keyfile) => out matches Ok(w) && w.keyfile@ == keyfile@ && w.public_key@
                == pair.public_key@,
            Err(e) => out matches Err(o) && o@ == e@,
        },
{
    let mut pair = pair;
    wipe(&mut pair.identity);
    match wrapped {
        Ok(keyfile) => Ok(WrappedKeypair { keyfile, public_key: pair.public_key }),
        Err(e) => Err(e),
    }
}

/// What rewrapping the key file `keyfile` comes to, from what wrapping its
/// key anew came to: the new envelope, where it differs from the old one;
/// an error of kind `Decrypt`, where it does not; and the error of the
/// wrapping.
pub fn fresh_envelope(keyfile: &Vec<u8>, rewrapped: Result<Vec<u8>, Error>) -> (out: Result<
    Vec<u8>,
    Error,
>)
    ensures
        match rewrapped {
            Ok(envelope) => if envelope@ == keyfile@ {
                out matches Err(e) && e@ == (
                    ErrorKind::Decrypt,
                    "rewrapped key does not differ from the old one"@,
                )
            } else {
                out matches Ok(w) && w@ == envelope@
            },
            Err(e) => out matches Err(o) && o@ == e@,
        },
{
    match rewrapped {
        Ok(envelope) => if same_bytes(&envelope, keyfile) {
            Err(Error::new(ErrorKind::Decrypt, "rewrapped key does not differ from the old one"))
        } else {
            Ok(envelope)
        },
        Err(e) => Err(e),
    }
}

/// Whether `e` is an error that rewrapping fails with once the old key
/// file is unwrapped: the wrapping failed, or the new envelope does not
/// differ from the old one.
pub open spec fn rewrap_failure(e: (ErrorKind, Seq<char>)) -> bool {
    wrap_failure(e) || e == (ErrorKind::Decrypt, "rewrapped key does not differ from the old one"@)
}

/// What the backend is able to do.
pub trait Backend: Sized {
    /// Makes a pair of keys.
    fn create_keypair() -> Result<Keypair, Error>;

    /// Makes a pair of keys and wraps the identity with `password`.
    fn create_wrapped_keypair(password: &str) -> Result<WrappedKeypair, Error>;

    /// Unwraps the contents of a wrapped key file with `password`.
    fn unwrap_keyfile(keyfile: &Vec<u8>, password: &str) -> Result<String, Error>;

    /// Wraps `key` with `password`.
    fn wrap_key(key: &str, password: &str) -> Result<Vec<u8>, Error>;

    /// Unwraps the contents of a wrapped key file with `old` and wraps the
    /// key again with `new`.
    fn rewrap_keyfile(keyfile: &Vec<u8>, old: &str, new: &str) -> Result<Vec<u8>, Error>;

    /// Encrypts `record`, in ASCII armor.
    fn encrypt(&self, record: &Record) -> Result<String, Error>;

    /// Decrypts an encrypted record.
    fn decrypt(&self, encrypted: &str) -> Result<Record, Error>;
}

/// The backend that goes by the age library.
pub struct RageLib {
    /// The public key that records are encrypted to.
    pub pubkey: String,
    /// The identity that records are decrypted with.
    pub identity: String,
}

impl RageLib {
    /// Whether the identity of this backend belongs to its public key:
    /// age reads the public key, however it is written, as the key that it
    /// derives from the identity.
    pub open spec fn matched(&self) -> bool {
        belongs(self.identity@, self.pubkey@)
    }

    /// Whether `envelope` keeps `record` for this backend: where the
    /// identity belongs to the public key, decrypting the envelope gives the
    /// record.
    pub open spec fn keeps(&self, record: RecordView, envelope: Seq<char>) -> bool {
        self.matched() ==> decrypted(self.identity@, envelope) == Ok::<RecordView, ErrorKind>(
            record,
        )
    }

    /// What making a backend of `public_key` and the key text `key` comes
    /// to: the public key and the identity that it holds, or the error.
    pub open spec fn made(public_key: Seq<char>, key: Seq<char>) -> Result<
        (Seq<char>, Seq<char>),
        (ErrorKind, Seq<char>),
    > {
        match public_key_checked(public_key) {
            Err(failure) => Err(failure),
            Ok(_) => match sole_identity(key) {
                None => Err((ErrorKind::Config, "expected exactly one identity in the key"@)),
                Some(identity) => match age_public_key(identity) {
                    Err(why) => Err(
                        (ErrorKind::Config, "failed to parse unwrapped key ("@ + why + ")"@),
                    ),
                    Ok(_) => Ok((public_key, identity)),
                },
            },
        }
    }

    /// Makes a backend of the public key of the configuration and of the
    /// text of the key: that of a bare key file, or what the agent unwrapped.
    ///
    /// The text must hold exactly one identity, on a line of its own; empty
    /// lines and lines that start with `#` are passed over. Lines end in a
    /// line feed, or in a carriage return and a line feed.
    pub fn new(public_key: &str, key: &str) -> (made: Result<RageLib, Error>)
        ensures
            match made {
                Ok(backend) => RageLib::made(public_key@, key@) == Ok::<
                    (Seq<char>, Seq<char>),
                    (ErrorKind, Seq<char>),
                >((backend.pubkey@, backend.identity@)),
                Err(e) => RageLib::made(public_key@, key@) == Err::<
                    (Seq<char>, Seq<char>),
                    (ErrorKind, Seq<char>),
                >(e@),
            },
    {
        check_public_key(public_key)?;
        let mut lines = key_lines(key);
        if lines.len() != 1 {
            return Err(Error::new(ErrorKind::Config, "expected exactly one identity in the key"));
        }
        let identity = lines.pop().unwrap();
        let derived = public_key_of(identity.as_str());
        Self::with_identity(public_key, identity, derived)
    }

    /// The backend of the public key `public_key` and the identity
    /// `identity`, from what age derived of the identity: its public key, or
    /// what age said against the identity. Fails, with an error of kind
    /// `Config`, exactly where age read no identity.
    pub fn with_identity(public_key: &str, identity: String, derived: Result<String, String>) -> (made:
        Result<RageLib, Error>)
        ensures
            match derived {
                Ok(_) => made matches Ok(b) && b.pubkey@ == public_key@ && b.identity@
                    == identity@,
                Err(why) => made matches Err(e) && e@ == (
                    ErrorKind::Config,
                    "failed to parse unwrapped key ("@ + why@ + ")"@,
                ),
            },
    {
        match derived {
            Err(why) => Err(
                Error {
                    kind: ErrorKind::Config,
                    message: join3("failed to parse unwrapped key (", why.as_str(), ")"),
                },
            ),
            Ok(_) => Ok(RageLib { pubkey: public_key.to_owned(), identity }),
        }
    }

    /// Says whether the identity of this backend belongs to its public
    /// key.
    pub fn is_matched(&self) -> (matched: bool)
        ensures
            matched == self.matched(),
    {
        match read_recipient(self.pubkey.as_str()) {
            Ok(key) => match public_key_of(self.identity.as_str()) {
                Ok(public_key) => public_key.as_str().eq(key.as_str()),
                Err(_) => false,
            },
            Err(_) => false,
        }
    }

    /// Looks at the public key before anything is encrypted to it. Fails
    /// exactly where encrypting is refused: age reads no public key, or the
    /// key is of small order.
    pub fn sealable(&self) -> (checked: Result<(), Error>)
        ensures
            match encrypt_refusal(self.pubkey@) {
                Some(refusal) => checked matches Err(e) && e@ == refusal,
                None => checked is Ok && seals(self.pubkey@),
            },
    {
        recipient_check_of(read_recipient(self.pubkey.as_str()))
    }

    /// What encrypting `record` comes to, from what age made of its JSON:
    /// the envelope; the failure of age, where it gave none; and an error
    /// of kind `Decrypt`, where the identity of this backend belongs to its
    /// public key and yet does not decrypt the envelope to `record`.
    pub fn checked_seal(&self, record: &Record, sealed: Result<String, String>) -> (out: Result<
        String,
        Error,
    >)
        ensures
            match sealed {
                Err(why) => out matches Err(e) && e@ == seal_failure(why@),
                Ok(envelope) => if !self.matched() || decrypted(self.identity@, envelope@) == Ok::<
                    RecordView,
                    ErrorKind,
                >(record@) {
                    out matches Ok(s) && s@ == envelope@
                } else {
                    out matches Err(e) && e@ == (
                        ErrorKind::Decrypt,
                        "record does not decrypt with its own key"@,
                    )
                },
            },
    {
        let envelope = match sealed {
            Ok(envelope) => envelope,
            Err(why) => return Err(report_seal_failure(why)),
        };
        if self.is_matched() {
            let kept = match self.decrypt(envelope.as_str()) {
                Ok(mut back) => {
                    let same = back.same_as(record);
                    back.zeroize();
                    same
                },
                Err(_) => false,
            };
            if !kept {
                return Err(
                    Error::new(ErrorKind::Decrypt, "record does not decrypt with its own key"),
                );
            }
        }
        Ok(envelope)
    }
}

impl Backend for RageLib {
    /// The identity is fresh, and the public key is the one that belongs to
    /// it. Fails, with an error of kind `Config`, only where age does not
    /// read the identity that it made.
    fn create_keypair() -> (pair: Result<Keypair, Error>)
        ensures
            pair matches Ok(p) ==> age_public_key(p.identity@) == Ok::<Seq<char>, Seq<char>>(
                p.public_key@,
            ),
            pair matches Err(e) ==> exists|why: Seq<char>|
                e@ == #[trigger] open_failure((Stage::Identity, why)),
    {
        let identity = generate_identity();
        let ghost text = identity@;
        let pair = keypair_of(identity);
        proof {
            if pair is Err {
                assert(pair->Err_0@ == open_failure((Stage::Identity, age_public_key(text)->Err_0)));
            }
        }
        pair
    }

    /// Fails as `create_keypair` and `wrap_key` do. The key file unwraps,
    /// with `password`, to a fresh identity, and the public key is the one
    /// that belongs to that identity.
    fn create_wrapped_keypair(password: &str) -> (made: Result<WrappedKeypair, Error>)
        ensures
            made matches Ok(pair) ==> wraps_fresh_key(password@, pair),
            made matches Err(e) ==> e.kind == ErrorKind::Config || wrap_failure(e@),
    {
        let pair = Self::create_keypair()?;
        let wrapped = Self::wrap_key(pair.identity.as_str(), password);
        let ghost identity = pair.identity@;
        let made = wrapped_keypair_of(pair, wrapped);
        proof {
            if made is Ok {
                assert(age_public_key(identity) == Ok::<Seq<char>, Seq<char>>(
                    made->Ok_0.public_key@,
                ) && unwrapped(password@, made->Ok_0.keyfile@) == Ok::<Seq<char>, ErrorKind>(
                    identity,
                ));
            }
        }
        made
    }

    /// Gives the identity that `keyfile` wraps, or fails: with `Io` where
    /// `keyfile` is longer than 4096 bytes, with `NotPassphraseWrapped`
    /// where it is an age file of another kind, and with `Decrypt` where it
    /// is no age file, the passphrase is wrong, the work factor is above 22
    /// or the contents are corrupt.
    fn unwrap_keyfile(keyfile: &Vec<u8>, password: &str) -> (key: Result<String, Error>)
        ensures
            key matches Ok(k) ==> unwrapped(password@, keyfile@) == Ok::<Seq<char>, ErrorKind>(k@),
            key matches Err(e) ==> unwrapped(password@, keyfile@) == Err::<Seq<char>, ErrorKind>(
                e.kind,
            ) && unwrap_error(password@, keyfile@, e@),
    {
        if keyfile.len() as u64 > MAX_WRAPPED_KEY_FILESIZE {
            return Err(
                Error::new(ErrorKind::Io, "requested file is suspiciously large, refusing"),
            );
        }
        match passphrase_wrapped(keyfile) {
            Err(why) => Err(report_unwrap_failure(Fault { stage: Stage::Envelope, detail: why })),
            Ok(false) => Err(
                Error::new(
                    ErrorKind::NotPassphraseWrapped,
                    "key unwrap failed: not a password-wrapped keyfile?",
                ),
            ),
            Ok(true) => match unwrap(password, keyfile, MAX_WORK_FACTOR) {
                Ok(key) => Ok(key),
                Err(fault) => {
                    let err = report_unwrap_failure(fault);
                    assert(err@ == unwrap_failure((fault.stage, fault.detail@)));
                    Err(err)
                },
            },
        }
    }

    /// What comes out unwraps, with `password`, to `key`: it is unwrapped
    /// once before it is handed out, and not handed out where that fails,
    /// as it does where age picked a work factor above the ceiling, or where
    /// the envelope is longer than a key file may be.
    ///
    /// Fails with an error of kind `Io` where age fails to encrypt, and of
    /// kind `Decrypt` where what it made does not unwrap to `key`.
    fn wrap_key(key: &str, password: &str) -> (wrapped: Result<Vec<u8>, Error>)
        ensures
            wrapped matches Ok(envelope) ==> unwrapped(password@, envelope@) == Ok::<
                Seq<char>,
                ErrorKind,
            >(key@),
            wrapped matches Err(e) ==> wrap_failure(e@),
    {
        let made = wrap(key, password);
        let ghost why = made->Err_0@;
        let wrapped = checked_wrap(key, password, made);
        proof {
            if wrapped is Err && made is Err {
                assert(wrapped->Err_0@ == seal_failure(why));
            }
        }
        wrapped
    }

    /// Fails as `unwrap_keyfile` does with `old`, or as `wrap_key` does, or
    /// with an error of kind `Decrypt` where the new envelope is the old
    /// one. What comes out differs from `keyfile` and unwraps, with `new`,
    /// to the identity that `keyfile` unwraps to with `old`.
    fn rewrap_keyfile(keyfile: &Vec<u8>, old: &str, new: &str) -> (rewrapped: Result<
        Vec<u8>,
        Error,
    >)
        ensures
            rewrapped matches Ok(envelope) ==> envelope@ != keyfile@ && unwrapped(old@, keyfile@)
                is Ok && unwrapped(new@, envelope@) == unwrapped(old@, keyfile@),
            unwrapped(old@, keyfile@) matches Err(kind) ==> (rewrapped matches Err(e) && e.kind
                == kind),
            rewrapped matches Err(e) ==> (if unwrapped(old@, keyfile@) is Ok {
                rewrap_failure(e@)
            } else {
                unwrap_error(old@, keyfile@, e@)
            }),
    {
        let mut key = Self::unwrap_keyfile(keyfile, old)?;
        let wrapped = Self::wrap_key(key.as_str(), new);
        wipe(&mut key);
        fresh_envelope(keyfile, wrapped)
    }

    /// Encrypts the JSON of `record` to the public key: whoever holds the
    /// identity of that key decrypts the envelope to that JSON.
    ///
    /// Where the identity of this backend belongs to its public key, what
    /// was encrypted is decrypted once before it is handed out, and not
    /// handed out unless the record comes back as it went in. So what
    /// `encrypt` gives, `decrypt` turns into the record again.
    ///
    /// Before anything is encrypted, it fails with an error of kind `Io`
    /// where age reads no public key, and of kind `Config` where the public
    /// key is of small order. After that it fails with an error of kind
    /// `Io` where age fails to encrypt, and of kind `Decrypt` where the
    /// record does not come back.
    fn encrypt(&self, record: &Record) -> (encrypted: Result<String, Error>)
        ensures
            encrypt_refusal(self.pubkey@) matches Some(refusal) ==> (encrypted matches Err(e)
                && e@ == refusal),
            encrypted matches Ok(envelope) ==> self.keeps(record@, envelope@) && sealed_for(
                self.pubkey@,
                record@.json(),
                envelope@,
            ),
            encrypted matches Err(e) ==> encrypt_failure(self.pubkey@, e@),
    {
        self.sealable()?;
        let mut plain = record.to_json();
        let sealed = seal(self.pubkey.as_str(), plain.as_str());
        assert(sealed matches Ok(envelope) ==> sealed_for(
            self.pubkey@,
            record@.json(),
            envelope@,
        ));
        wipe(&mut plain);
        let ghost why = sealed->Err_0@;
        let encrypted = self.checked_seal(record, sealed);
        proof {
            if encrypted is Err && sealed is Err {
                assert(encrypted->Err_0@ == seal_failure(why));
            }
        }
        encrypted
    }

    /// Gives the record that `encrypted` holds for this identity, or fails:
    /// with `Decrypt` where age does not open the envelope, and with
    /// `Malformed` where what it holds is no record.
    fn decrypt(&self, encrypted: &str) -> (record: Result<Record, Error>)
        ensures
            decrypts_to(self.identity@, encrypted@, outcome(record)),
    {
        match open(self.identity.as_str(), encrypted) {
            Err(fault) => Err(report_open_failure(fault)),
            Ok(mut plain) => {
                let record = Record::from_json(plain.as_str());
                wipe(&mut plain);
                record
            },
        }
    }
}

/// Says whether `key`, a public key as age prints it, is of small order.
pub fn is_small_order(key: &str) -> (weak: bool)
    ensures
        weak == small_order(key@),
{
    key.eq("age1qqqqqqqqqqqqqqqqqqqqqqqqqqqqqqqqqqqqqqqqqqqqqqqqqqqq5cu47z")
        || key.eq("age1qqqqqqqqqqqqqqqqqqqqqqqqqqqqqqqqqqqqqqqqqqqqqqqqqzqqsuwj9m")
        || key.eq("age1qyqqqqqqqqqqqqqqqqqqqqqqqqqqqqqqqqqqqqqqqqqqqqqqqqqqj7vrya")
        || key.eq("age1qyqqqqqqqqqqqqqqqqqqqqqqqqqqqqqqqqqqqqqqqqqqqqqqqzqqk67yly")
        || key.eq("age1ur4h5lpmgxu2u9jku0a0r87ydtdqnr0tnsetrlvxvgz3vh6fhqqqzyt4v9")
        || key.eq("age1ur4h5lpmgxu2u9jku0a0r87ydtdqnr0tnsetrlvxvgz3vh6fhzqqxqejhu")
        || key.eq("age1t7wft09r2zxzfvwsk92eeql0tvzyghxytqwgapkcyf8dm5ylz9ts6wm9s8")
        || key.eq("age1t7wft09r2zxzfvwsk92eeql0tvzyghxytqwgapkcyf8dm5ylz8ts72fzt7")
        || key.eq("age1anlllllllllllllllllllllllllllllllllllllllllllllllals4n2t7m")
        || key.eq("age1anllllllllllllllllllllllllllllllllllllllllllllllllls3hcv9z")
        || key.eq("age1ahlllllllllllllllllllllllllllllllllllllllllllllllalsn46ayy")
        || key.eq("age1ahlllllllllllllllllllllllllllllllllllllllllllllllllsh3g6la")
        || key.eq("age1amlllllllllllllllllllllllllllllllllllllllllllllllalselrwrv")
        || key.eq("age1amlllllllllllllllllllllllllllllllllllllllllllllllllsam3fc4")
}

/// What checking the public key `public_key` comes to.
pub open spec fn public_key_checked(public_key: Seq<char>) -> Result<(), (ErrorKind, Seq<char>)> {
    match age_recipient(public_key) {
        Err(why) => Err(
            (ErrorKind::Config, "unable to parse public key (backend reports: "@ + why + ")"@),
        ),
        Ok(key) => if small_order(key) {
            Err((ErrorKind::Config, "public key is of small order"@))
        } else {
            Ok(())
        },
    }
}

/// What checking a public key comes to, from what age read it as: the
/// public key as age prints it, or what age said against it.
pub fn public_key_check_of(read: Result<String, String>) -> (checked: Result<(), Error>)
    ensures
        match read {
            Err(why) => checked matches Err(e) && e@ == (
                ErrorKind::Config,
                "unable to parse public key (backend reports: "@ + why@ + ")"@,
            ),
            Ok(key) => if small_order(key@) {
                checked matches Err(e) && e@ == (ErrorKind::Config, "public key is of small order"@)
            } else {
                checked is Ok
            },
        },
{
    match read {
        Err(why) => Err(
            Error {
                kind: ErrorKind::Config,
                message: join3("unable to parse public key (backend reports: ", why.as_str(), ")"),
            },
        ),
        Ok(key) => if is_small_order(key.as_str()) {
            Err(Error::new(ErrorKind::Config, "public key is of small order"))
        } else {
            Ok(())
        },
    }
}

/// Checks that age reads `public_key` as a public key, and that the key is
/// not of small order. Fails, with an error of kind `Config`, exactly where
/// either is not so.
pub fn check_public_key(public_key: &str) -> (checked: Result<(), Error>)
    ensures
        match checked {
            Ok(()) => public_key_checked(public_key@) is Ok,
            Err(e) => public_key_checked(public_key@) == Err::<(), (ErrorKind, Seq<char>)>(e@),
        },
{
    public_key_check_of(read_recipient(public_key))
}

/// The error that encrypting to `pubkey` is refused with before anything
/// is encrypted, where it is refused: age reads no public key, or the key
/// is of small order.
pub open spec fn encrypt_refusal(pubkey: Seq<char>) -> Option<(ErrorKind, Seq<char>)> {
    match age_recipient(pubkey) {
        Err(why) => Some(seal_failure(why)),
        Ok(key) => if small_order(key) {
            Some((ErrorKind::Config, "public key is of small order"@))
        } else {
            None
        },
    }
}

/// Whether encrypting goes ahead, from what age read the public key as:
/// fails where age read none, with what it said, and where the key is of
/// small order.
pub fn recipient_check_of(read: Result<String, String>) -> (checked: Result<(), Error>)
    ensures
        match read {
            Err(why) => checked matches Err(e) && e@ == seal_failure(why@),
            Ok(key) => if small_order(key@) {
                checked matches Err(e) && e@ == (ErrorKind::Config, "public key is of small order"@)
            } else {
                checked is Ok
            },
        },
{
    match read {
        Err(why) => Err(report_seal_failure(why)),
        Ok(key) => if is_small_order(key.as_str()) {
            Err(Error::new(ErrorKind::Config, "public key is of small order"))
        } else {
            Ok(())
        },
    }
}

/// What a failure to unwrap a key is reported as.
pub open spec fn unwrap_failure(fault: (Stage, Seq<char>)) -> (ErrorKind, Seq<char>) {
    match fault.0 {
        Stage::Payload => (ErrorKind::Decrypt, "i/o error while decrypting"@),
        Stage::Envelope => (
            ErrorKind::Decrypt,
            "unable to load private key (backend reports: "@ + fault.1 + ")"@,
        ),
        _ => (ErrorKind::Decrypt, "unable to decrypt (backend reports: "@ + fault.1 + ")"@),
    }
}

/// Reports a failure to unwrap a key.
pub fn report_unwrap_failure(fault: Fault) -> (err: Error)
    ensures
        err@ == unwrap_failure(fault@),
{
    match fault.stage {
        Stage::Payload => Error::new(ErrorKind::Decrypt, "i/o error while decrypting"),
        Stage::Envelope => Error {
            kind: ErrorKind::Decrypt,
            message: join3(
                "unable to load private key (backend reports: ",
                fault.detail.as_str(),
                ")",
            ),
        },
        _ => Error {
            kind: ErrorKind::Decrypt,
            message: join3("unable to decrypt (backend reports: ", fault.detail.as_str(), ")"),
        },
    }
}

/// What a failure to encrypt is reported as: an error of kind `Io` that
/// quotes what age said.
pub open spec fn seal_failure(why: Seq<char>) -> (ErrorKind, Seq<char>) {
    (ErrorKind::Io, "wrap_output failed (backend report: "@ + why + ")"@)
}

/// Whether `e` reports a failure to encrypt, whatever age said.
pub open spec fn is_seal_failure(e: (ErrorKind, Seq<char>)) -> bool {
    exists|why: Seq<char>| e == #[trigger] seal_failure(why)
}

/// Reports a failure to encrypt.
pub fn report_seal_failure(why: String) -> (err: Error)
    ensures
        err@ == seal_failure(why@),
        is_seal_failure(err@),
{
    let err = Error {
        kind: ErrorKind::Io,
        message: join3("wrap_output failed (backend report: ", why.as_str(), ")"),
    };
    assert(err@ == seal_failure(why@));
    err
}


/// Round trip of encryption: where the identity of a backend belongs to its
/// public key, decrypting an envelope that `encrypt` made of a record gives
/// that record.
pub proof fn lemma_encrypt_decrypt_round_trip(
    backend: RageLib,
    record: RecordView,
    envelope: Seq<char>,
)
    requires
        backend.matched(),
        backend.keeps(record, envelope),
    ensures
        decrypted(backend.identity@, envelope) == Ok::<RecordView, ErrorKind>(record),
{
}

/// Where age finds that the identity fits none of the recipients of an
/// envelope, `decrypt` fails with the kind `Decrypt` and says so in these
/// words.
pub proof fn lemma_no_matching_key(identity: Seq<char>, envelope: Seq<char>)
    requires
        age_opened(identity, envelope) == Err::<Seq<char>, (Stage, Seq<char>)>(
            (Stage::Keys, "NoMatchingKeys"@),
        ),
    ensures
        decrypted(identity, envelope) == Err::<RecordView, ErrorKind>(ErrorKind::Decrypt),
        forall|e: (ErrorKind, Seq<char>)|
            decrypt_error(identity, envelope, e) <==> e == (
                ErrorKind::Decrypt,
                "unable to decrypt (backend reports: NoMatchingKeys)"@,
            ),
{
    reveal_strlit("unable to decrypt (backend reports: ");
    reveal_strlit("NoMatchingKeys");
    reveal_strlit(")");
    reveal_strlit("unable to decrypt (backend reports: NoMatchingKeys)");
    assert("unable to decrypt (backend reports: "@ + "NoMatchingKeys"@ + ")"@
        =~= "unable to decrypt (backend reports: NoMatchingKeys)"@);
}

/// A key file of more than 4096 bytes is never unwrapped.
pub proof fn lemma_oversized_keyfile(passphrase: Seq<char>, keyfile: Seq<u8>)
    requires
        keyfile.len() > MAX_WRAPPED_KEY_FILESIZE,
    ensures
        unwrapped(passphrase, keyfile) == Err::<Seq<char>, ErrorKind>(ErrorKind::Io),
{
}

} // verus!
