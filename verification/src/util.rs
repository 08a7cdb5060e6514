//! Small helpers: command lines, the output of commands, warnings.

use vstd::prelude::*;
use vstd::string::*;
use vstd::utf8::{decode_utf8, valid_utf8};

use crate::backend::{unwrap_error, unwrapped, wrap_failure, Backend, RageLib};
use crate::error::{Error, ErrorKind};
use crate::text::{chars_of, join, join3, string_of, texts};

verus! {

/// The seconds since the Unix epoch, now.
///
/// Trusted: calls `SystemTime::now` and `duration_since(UNIX_EPOCH)`, and
/// gives 0 for a clock set before the epoch. Nothing is claimed of the
/// result: it is the time.
#[verifier::external_body]
pub fn current_timestamp() -> u64 {
    std::time::SystemTime::now().duration_since(std::time::UNIX_EPOCH).map_or(0, |d| d.as_secs())
}

/// The home directory of the current user, where there is one and its path
/// is UTF-8.
///
/// Trusted: calls `home::home_dir` and `Path::to_str`. Nothing is claimed
/// of the result: it is read from the environment.
#[verifier::external_body]
fn find_home() -> Option<String> {
    home::home_dir().and_then(|dir| dir.to_str().map(|s| s.to_owned()))
}

/// The home directory of the current user. Fails, with an error of kind
/// `Config`, where none is found.
pub fn home_dir() -> (home: Result<String, Error>)
    ensures
        home matches Err(e) ==> e@ == (
            ErrorKind::Config,
            "couldn't find the user's home directory"@,
        ),
{
    found_home_dir(find_home())
}

/// What looking for the home directory comes to, from what was found: the
/// directory itself, or an error of kind `Config` where none was found.
pub fn found_home_dir(found: Option<String>) -> (home: Result<String, Error>)
    ensures
        match found {
            Some(dir) => home matches Ok(h) && h@ == dir@,
            None => home matches Err(e) && e@ == (
                ErrorKind::Config,
                "couldn't find the user's home directory"@,
            ),
        },
{
    match found {
        Some(dir) => Ok(dir),
        None => Err(Error::new(ErrorKind::Config, "couldn't find the user's home directory")),
    }
}

/// The words that `argv` splits into by the quoting rules of the shell;
/// `None` where a quote is left open.
pub uninterp spec fn shell_words(argv: Seq<char>) -> Option<Seq<Seq<char>>>;

/// Splits `argv` into words.
///
/// Trusted: calls `shell_words::split`. Claims only that the outcome is the
/// value named `shell_words`.
#[verifier::external_body]
fn split_words(argv: &str) -> (words: Option<Vec<String>>)
    ensures
        words matches Some(w) ==> shell_words(argv@) == Some(texts(w@)),
        words is None ==> shell_words(argv@) is None,
{
    shell_words::split(argv).ok()
}

/// Splits a command line into the command and its arguments.
///
/// Fails, with an error of kind `Usage`, where a quote is left open, and
/// where the line holds no word.
pub fn parse_and_split_args(argv: &str) -> (parsed: Result<(String, Vec<String>), Error>)
    ensures
        match shell_words(argv@) {
            None => parsed matches Err(e) && e@ == (
                ErrorKind::Usage,
                "failed to split command-line arguments: "@ + argv@,
            ),
            Some(words) => if words.len() == 0 {
                parsed matches Err(e) && e@ == (
                    ErrorKind::Usage,
                    "missing one or more arguments in command"@,
                )
            } else {
                parsed matches Ok(p) && p.0@ == words[0] && texts(p.1@) == words.skip(1)
            },
        },
{
    command_of(argv, split_words(argv))
}

/// The command and its arguments, from the words that the command line
/// `argv` was split into; `words` is `None` where it could not be split.
/// The first word is the command, the others are its arguments.
///
/// Fails, with an error of kind `Usage`, where the line could not be
/// split, and where it holds no word.
pub fn command_of(argv: &str, words: Option<Vec<String>>) -> (parsed: Result<
    (String, Vec<String>),
    Error,
>)
    ensures
        match words {
            None => parsed matches Err(e) && e@ == (
                ErrorKind::Usage,
                "failed to split command-line arguments: "@ + argv@,
            ),
            Some(w) => if w@.len() == 0 {
                parsed matches Err(e) && e@ == (
                    ErrorKind::Usage,
                    "missing one or more arguments in command"@,
                )
            } else {
                parsed matches Ok(p) && p.0@ == w@[0]@ && texts(p.1@) == texts(w@).skip(1)
            },
        },
{
    let mut words = match words {
        Some(words) => words,
        None => {
            return Err(
                Error {
                    kind: ErrorKind::Usage,
                    message: join("failed to split command-line arguments: ", argv),
                },
            );
        },
    };
    if words.len() == 0 {
        return Err(Error::new(ErrorKind::Usage, "missing one or more arguments in command"));
    }
    let ghost all = texts(words@);
    let command = words.remove(0);
    proof {
        assert(texts(words@) =~= all.skip(1));
    }
    Ok((command, words))
}

/// What `String::from_utf8` says of `bytes` that are not UTF-8.
pub uninterp spec fn utf8_fault(bytes: Seq<u8>) -> Seq<char>;

/// Reads `bytes` as UTF-8.
///
/// Trusted: calls `String::from_utf8`, which fails exactly where the bytes
/// are not UTF-8, and hands back the message of its error, which is the
/// value named `utf8_fault`.
#[verifier::external_body]
fn utf8_string(bytes: Vec<u8>) -> (text: Result<String, String>)
    ensures
        text is Ok <==> valid_utf8(bytes@),
        text matches Ok(s) ==> s@ == decode_utf8(bytes@),
        text matches Err(why) ==> why@ == utf8_fault(bytes@),
{
    String::from_utf8(bytes).map_err(|e| e.to_string())
}

/// `s` without one line feed at its end, if it ends in one.
pub open spec fn chomped(s: Seq<char>) -> Seq<char> {
    if s.len() > 0 && s.last() == '\n' {
        s.drop_last()
    } else {
        s
    }
}

/// Takes one line feed off the end of `s`, if it ends in one.
pub fn chomp(s: String) -> (out: String)
    ensures
        out@ == chomped(s@),
{
    let chars = chars_of(s.as_str());
    if chars.len() > 0 && chars[chars.len() - 1] == '\n' {
        let out = string_of(&chars, 0, chars.len() - 1);
        assert(out@ =~= s@.drop_last());
        out
    } else {
        s
    }
}

/// What a command printed, from what running it with no input came to.
/// `stdout` is what it wrote, or `None` where it could not be run.
///
/// Fails with `Io` where the command could not be run, with `Usage` where
/// it wrote nothing, and with `Malformed` where it wrote what is not UTF-8.
/// One line feed at the end is taken off.
pub fn run_with_output(command: &str, stdout: Option<Vec<u8>>) -> (output: Result<String, Error>)
    ensures
        match stdout {
            None => output matches Err(e) && e@ == (
                ErrorKind::Io,
                "failed to execute command: "@ + command@,
            ),
            Some(bytes) => if bytes@.len() == 0 {
                output matches Err(e) && e@ == (
                    ErrorKind::Usage,
                    "expected output from "@ + command@ + ", but none given"@,
                )
            } else if valid_utf8(bytes@) {
                output matches Ok(s) && s@ == chomped(decode_utf8(bytes@))
            } else {
                output matches Err(e) && e@ == (ErrorKind::Malformed, utf8_fault(bytes@))
            },
        },
{
    let bytes = match stdout {
        Some(bytes) => bytes,
        None => {
            return Err(
                Error { kind: ErrorKind::Io, message: join("failed to execute command: ", command) },
            );
        },
    };
    if bytes.len() == 0 {
        return Err(
            Error {
                kind: ErrorKind::Usage,
                message: join3("expected output from ", command, ", but none given"),
            },
        );
    }
    match utf8_string(bytes) {
        Ok(text) => Ok(chomp(text)),
        Err(why) => Err(Error { kind: ErrorKind::Malformed, message: why }),
    }
}

/// The line that warns of `msg`.
pub fn warn(msg: &str) -> (line: String)
    ensures
        line@ == "Warn: "@ + msg@,
{
    join("Warn: ", msg)
}

/// Checks the size of a file before it is read. Fails, with an error of
/// kind `Io`, exactly where the file is longer than `limit` bytes.
pub fn read_guarded(size: u64, limit: u64) -> (allowed: Result<(), Error>)
    ensures
        size > limit ==> (allowed matches Err(e) && e@ == (
            ErrorKind::Io,
            "requested file is suspiciously large, refusing"@,
        )),
        size <= limit ==> allowed is Ok,
{
    if size > limit {
        Err(Error::new(ErrorKind::Io, "requested file is suspiciously large, refusing"))
    } else {
        Ok(())
    }
}

/// Unwraps the contents of a wrapped key file with `password`, as
/// `Backend::unwrap_keyfile` does.
pub fn unwrap_keyfile(keyfile: &Vec<u8>, password: &str) -> (key: Result<String, Error>)
    ensures
        key matches Ok(k) ==> unwrapped(password@, keyfile@) == Ok::<Seq<char>, ErrorKind>(k@),
        key matches Err(e) ==> unwrapped(password@, keyfile@) == Err::<Seq<char>, ErrorKind>(e.kind)
            && unwrap_error(password@, keyfile@, e@),
{
    RageLib::unwrap_keyfile(keyfile, password)
}

/// Wraps `key` with `password`, as `Backend::wrap_key` does.
pub fn wrap_key(key: &str, password: &str) -> (wrapped: Result<Vec<u8>, Error>)
    ensures
        wrapped matches Ok(envelope) ==> unwrapped(password@, envelope@) == Ok::<Seq<char>, ErrorKind>(
            key@,
        ),
        wrapped matches Err(e) ==> wrap_failure(e@),
{
    RageLib::wrap_key(key, password)
}

} // verus!
