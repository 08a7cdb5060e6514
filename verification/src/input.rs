//! Input of the fields of a record in terse form: all fields in one text,
//! with a separator between them.

use vstd::prelude::*;
use vstd::string::*;

use crate::error::{Error, ErrorKind};
use crate::record::{BodyView, EnvironmentFields, LoginFields, RecordBody, UnstructuredFields};
use crate::text::{chars_of, decimal, decimal_string, find_char, first_at, lemma_first_at, string_of,
    texts};
use crate::util::{chomp, chomped};

verus! {

/// The character that separates fields in terse input.
pub const TERSE_IFS: char = '\x01';

/// The fields that `s` splits into from `from` on, at most `count` of them:
/// each ends before the next separator, but for the last, which takes what
/// is left.
pub open spec fn split_fields(s: Seq<char>, from: int, count: nat) -> Seq<Seq<char>>
    decreases count,
{
    if count == 0 || from < 0 || from > s.len() {
        Seq::empty()
    } else {
        let end = first_at(s, '\x01', from);
        if count == 1 || end >= s.len() {
            seq![s.subrange(from, s.len() as int)]
        } else {
            seq![s.subrange(from, end)] + split_fields(s, end + 1, (count - 1) as nat)
        }
    }
}

/// Splits `text` into at most `count` fields.
fn split(text: &str, count: usize) -> (fields: Vec<String>)
    ensures
        texts(fields@) == split_fields(text@, 0, count as nat),
        fields@.len() <= count,
{
    let chars = chars_of(text);
    let mut fields: Vec<String> = Vec::new();
    assert(texts(fields@) =~= Seq::<Seq<char>>::empty());
    if count == 0 {
        return fields;
    }
    let mut from: usize = 0;
    loop
        invariant_except_break
            chars@ == text@,
            from <= chars.len(),
            fields@.len() < count,
            split_fields(text@, 0, count as nat) == texts(fields@) + split_fields(
                text@,
                from as int,
                (count - fields@.len()) as nat,
            ),
        ensures
            texts(fields@) == split_fields(text@, 0, count as nat),
            fields@.len() <= count,
        decreases chars.len() - from,
    {
        let end = find_char(&chars, TERSE_IFS, from);
        proof {
            lemma_first_at(text@, '\x01', from as int);
        }
        let ghost before = texts(fields@);
        if fields.len() + 1 == count || end >= chars.len() {
            let last = string_of(&chars, from, chars.len());
            proof {
                assert(texts(fields@.push(last)) =~= before.push(last@));
                assert(before + seq![last@] =~= before.push(last@));
            }
            fields.push(last);
            break ;
        }
        let field = string_of(&chars, from, end);
        proof {
            let rest = split_fields(text@, end + 1, (count - fields@.len() - 1) as nat);
            assert(texts(fields@.push(field)) =~= before.push(field@));
            assert(before + (seq![field@] + rest) =~= before.push(field@) + rest);
        }
        fields.push(field);
        from = end + 1;
    }
    fields
}

/// The message that says that `found` fields were found where `count` were
/// expected.
pub open spec fn field_count_mismatch(count: nat, found: nat) -> Seq<char> {
    "field count mismatch: expected "@ + decimal(count) + ", got "@ + decimal(found)
}

/// The fields of terse input, `count` of them: one line feed at the end of
/// the input is taken off, and what is left is split at the separators,
/// the last field taking all that is left.
///
/// Fails, with an error of kind `Usage`, exactly where the input holds
/// fewer fields than `count`.
pub fn take_terse_fields(input: String, count: usize) -> (fields: Result<Vec<String>, Error>)
    ensures
        ({
            let found = split_fields(chomped(input@), 0, count as nat);
            if found.len() == count {
                fields matches Ok(f) && texts(f@) == found
            } else {
                fields matches Err(e) && e@ == (
                    ErrorKind::Usage,
                    field_count_mismatch(count as nat, found.len()),
                )
            }
        }),
{
    let text = chomp(input);
    let fields = split(text.as_str(), count);
    if fields.len() != count {
        let mut message = "field count mismatch: expected ".to_owned();
        message.append(decimal_string(count as u64).as_str());
        message.append(", got ");
        message.append(decimal_string(fields.len() as u64).as_str());
        return Err(Error { kind: ErrorKind::Usage, message });
    }
    Ok(fields)
}

/// What terse input reads as the body of a record of some kind.
pub trait Input {
    /// How many fields a body of this kind has.
    fn field_count() -> usize;

    /// The body that the terse input `input` holds.
    fn from_terse(input: String) -> Result<RecordBody, Error>;
}

impl Input for LoginFields {
    fn field_count() -> (count: usize)
        ensures
            count == 2,
    {
        2
    }

    /// The username, then the password.
    fn from_terse(input: String) -> (body: Result<RecordBody, Error>)
        ensures
            ({
                let found = split_fields(chomped(input@), 0, 2);
                if found.len() == 2 {
                    body matches Ok(b) && b@ == (BodyView::Login {
                        username: found[0],
                        password: found[1],
                    })
                } else {
                    body matches Err(e) && e@ == (
                        ErrorKind::Usage,
                        field_count_mismatch(2, found.len()),
                    )
                }
            }),
    {
        let mut fields = take_terse_fields(input, 2)?;
        let ghost found = texts(fields@);
        let password = fields.pop().unwrap();
        let username = fields.pop().unwrap();
        proof {
            assert(found[1] == password@);
            assert(found[0] == username@);
        }
        Ok(RecordBody::Login(LoginFields { username, password }))
    }
}

impl Input for EnvironmentFields {
    fn field_count() -> (count: usize)
        ensures
            count == 2,
    {
        2
    }

    /// The variable, then the value.
    fn from_terse(input: String) -> (body: Result<RecordBody, Error>)
        ensures
            ({
                let found = split_fields(chomped(input@), 0, 2);
                if found.len() == 2 {
                    body matches Ok(b) && b@ == (BodyView::Environment {
                        variable: found[0],
                        value: found[1],
                    })
                } else {
                    body matches Err(e) && e@ == (
                        ErrorKind::Usage,
                        field_count_mismatch(2, found.len()),
                    )
                }
            }),
    {
        let mut fields = take_terse_fields(input, 2)?;
        let ghost found = texts(fields@);
        let value = fields.pop().unwrap();
        let variable = fields.pop().unwrap();
        proof {
            assert(found[1] == value@);
            assert(found[0] == variable@);
        }
        Ok(RecordBody::Environment(EnvironmentFields { variable, value }))
    }
}

impl Input for UnstructuredFields {
    fn field_count() -> (count: usize)
        ensures
            count == 1,
    {
        1
    }

    /// The contents: all of the input but one line feed at its end.
    fn from_terse(input: String) -> (body: Result<RecordBody, Error>)
        ensures
            body matches Ok(b) && b@ == (BodyView::Unstructured { contents: chomped(input@) }),
    {
        proof {
            let s = chomped(input@);
            assert(split_fields(s, 0, 1) =~= seq![s.subrange(0, s.len() as int)]);
            assert(s.subrange(0, s.len() as int) =~= s);
        }
        let taken = take_terse_fields(input, 1);
        match taken {
            Ok(mut fields) => {
                let ghost found = texts(fields@);
                let contents = fields.pop().unwrap();
                proof {
                    assert(found[0] == contents@);
                }
                Ok(RecordBody::Unstructured(UnstructuredFields { contents }))
            },
            Err(e) => {
                proof {
                    assert(false);
                }
                Err(e)
            },
        }
    }
}

impl BodyView {
    /// Whether the sensitive field of a login or of an environment is
    /// empty, so that a secret is to be generated for it.
    pub open spec fn lacks_secret(self) -> bool {
        match self {
            BodyView::Login { password, .. } => password.len() == 0,
            BodyView::Environment { value, .. } => value.len() == 0,
            BodyView::Unstructured { .. } => false,
        }
    }

    /// The body with `secret` as the sensitive field of a login or of an
    /// environment.
    pub open spec fn filled(self, secret: Seq<char>) -> BodyView {
        match self {
            BodyView::Login { username, .. } => BodyView::Login { username, password: secret },
            BodyView::Environment { variable, .. } => BodyView::Environment {
                variable,
                value: secret,
            },
            BodyView::Unstructured { contents } => BodyView::Unstructured { contents },
        }
    }
}

/// Says whether a secret is to be generated for `body`.
pub fn needs_secret(body: &RecordBody) -> (needs: bool)
    ensures
        needs == body@.lacks_secret(),
{
    match body {
        RecordBody::Login(l) => l.password.as_str().is_empty(),
        RecordBody::Environment(e) => e.value.as_str().is_empty(),
        RecordBody::Unstructured(_) => false,
    }
}

/// Puts a generated secret into `body`.
pub fn with_secret(body: RecordBody, secret: String) -> (filled: RecordBody)
    ensures
        filled@ == body@.filled(secret@),
{
    match body {
        RecordBody::Login(l) => RecordBody::Login(
            LoginFields { username: l.username, password: secret },
        ),
        RecordBody::Environment(e) => RecordBody::Environment(
            EnvironmentFields { variable: e.variable, value: secret },
        ),
        RecordBody::Unstructured(u) => RecordBody::Unstructured(u),
    }
}

} // verus!
