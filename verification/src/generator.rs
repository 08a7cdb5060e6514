//! Generators of secrets.

use vstd::prelude::*;
use vstd::string::*;
use vstd::utf8::is_ascii_chars;

use crate::config::{ExternalGeneratorConfig, InternalGeneratorConfig, LegacyInternalGeneratorConfig};
use crate::error::{Error, ErrorKind};
use crate::text::{chars_of, string_of};
use rand::seq::{IteratorRandom, SliceRandom};

verus! {

/// What every generator is able to do.
pub trait Generator {
    /// The name of the generator.
    fn name(&self) -> &str;

    /// A secret made by the generator.
    fn secret(&self) -> Result<String, Error>;
}

/// One of `pool`, at random.
///
/// Trusted: calls `IteratorRandom::choose` with the thread's generator,
/// which gives `None` exactly for an empty iterator, and else one of its
/// items.
#[verifier::external_body]
fn pick(pool: &Vec<char>) -> (picked: Option<char>)
    ensures
        picked is None <==> pool@.len() == 0,
        picked matches Some(c) ==> pool@.contains(c),
{
    pool.iter().copied().choose(&mut rand::thread_rng())
}

/// `amount` of `pool`, at random.
///
/// Trusted: calls `IteratorRandom::choose_multiple` with the thread's
/// generator, which gives `amount` of the items where there are as many.
/// It makes room for `amount` items before it picks any, so no more may be
/// asked for than the pool holds.
#[verifier::external_body]
fn pick_some(pool: &Vec<char>, amount: usize) -> (picked: Vec<char>)
    requires
        amount <= pool@.len(),
    ensures
        picked@.len() == amount,
        forall|i: int| 0 <= i < picked@.len() ==> pool@.contains(#[trigger] picked@[i]),
{
    pool.iter().copied().choose_multiple(&mut rand::thread_rng(), amount)
}

/// Puts `v` in a random order.
///
/// Trusted: calls `SliceRandom::shuffle` with the thread's generator, which
/// moves the items about in place.
#[verifier::external_body]
fn shuffle(v: &mut Vec<char>)
    ensures
        final(v)@.to_multiset() == old(v)@.to_multiset(),
{
    v.shuffle(&mut rand::thread_rng())
}

/// What is wrong with the first alphabet among `alphabets[from..]` that is
/// empty or not ASCII.
pub open spec fn alphabet_fault(alphabets: Seq<String>, from: int) -> Option<Seq<char>>
    decreases alphabets.len() - from,
{
    if from < 0 || from >= alphabets.len() {
        None
    } else if alphabets[from]@.len() == 0 {
        Some("generator alphabet(s) must not be empty"@)
    } else if !is_ascii_chars(alphabets[from]@) {
        Some("generator alphabet(s) contain non-ascii characters"@)
    } else {
        alphabet_fault(alphabets, from + 1)
    }
}

/// The characters of `alphabets[..upto]`, one alphabet after the other.
pub open spec fn combined(alphabets: Seq<String>, upto: int) -> Seq<char>
    decreases upto,
{
    if upto <= 0 {
        Seq::empty()
    } else {
        combined(alphabets, upto - 1) + alphabets[upto - 1]@
    }
}

/// Whether one of `alphabets` holds `c`.
pub open spec fn in_alphabets(alphabets: Seq<String>, c: char) -> bool {
    exists|j: int| 0 <= j < alphabets.len() && (#[trigger] alphabets[j])@.contains(c)
}

impl InternalGeneratorConfig {
    /// Why this generator can make no secret, if it cannot.
    pub open spec fn fault(&self) -> Option<Seq<char>> {
        if self.alphabets@.len() == 0 {
            Some("generator must have at least one alphabet"@)
        } else if self.length == 0 {
            Some("generator length is invalid (must be nonzero)"@)
        } else if alphabet_fault(self.alphabets@, 0) is Some {
            alphabet_fault(self.alphabets@, 0)
        } else if self.alphabets@.len() >= self.length {
            Some("generator invariant failure (too many separate alphabets for length?)"@)
        } else {
            None
        }
    }

    /// Whether `secret` is one that this generator may make: it holds a
    /// character of each alphabet and none that is in no alphabet, and it
    /// has the length asked for, or is as long as the alphabets allow.
    pub open spec fn makes(&self, secret: Seq<char>) -> bool {
        let pool = combined(self.alphabets@, self.alphabets@.len() as int);
        let rest = self.length - self.alphabets@.len();
        &&& secret.len() == self.alphabets@.len() + (if rest <= pool.len() {
            rest
        } else {
            pool.len() as int
        })
        &&& forall|i: int| 0 <= i < secret.len() ==> in_alphabets(self.alphabets@, #[trigger] secret[i])
        &&& forall|j: int|
            0 <= j < self.alphabets@.len() ==> exists|i: int|
                0 <= i < secret.len() && (#[trigger] self.alphabets@[j])@.contains(secret[i])
    }
}

proof fn lemma_combined(alphabets: Seq<String>, upto: int, c: char)
    requires
        0 <= upto <= alphabets.len(),
        combined(alphabets, upto).contains(c),
    ensures
        in_alphabets(alphabets, c),
    decreases upto,
{
    if upto > 0 {
        let front = combined(alphabets, upto - 1);
        let last = alphabets[upto - 1]@;
        let k = choose|k: int| 0 <= k < (front + last).len() && (front + last)[k] == c;
        if k < front.len() {
            assert(front[k] == c);
            lemma_combined(alphabets, upto - 1, c);
        } else {
            assert(last[k - front.len()] == c);
            assert(alphabets[upto - 1]@.contains(c));
        }
    }
}

impl Generator for InternalGeneratorConfig {
    fn name(&self) -> (name: &str)
        ensures
            name@ == self.name@,
    {
        self.name.as_str()
    }

    /// Makes a secret: one character of each alphabet, then characters of
    /// all alphabets together up to the length asked for, all in a random
    /// order.
    ///
    /// Fails, with an error of kind `Config`, exactly where there is no
    /// alphabet, the length is 0, an alphabet is empty or not ASCII, or
    /// there are as many alphabets as the length or more.
    fn secret(&self) -> (secret: Result<String, Error>)
        ensures
            match self.fault() {
                Some(why) => secret matches Err(e) && e@ == (ErrorKind::Config, why),
                None => secret matches Ok(s) && self.makes(s@),
            },
    {
        if self.alphabets.len() == 0 {
            return Err(Error::new(ErrorKind::Config, "generator must have at least one alphabet"));
        }
        if self.length == 0 {
            return Err(
                Error::new(ErrorKind::Config, "generator length is invalid (must be nonzero)"),
            );
        }
        let mut picks: Vec<char> = Vec::new();
        let mut pool: Vec<char> = Vec::new();
        let mut j: usize = 0;
        while j < self.alphabets.len()
            invariant
                j <= self.alphabets.len(),
                self.alphabets@.len() > 0,
                self.length != 0,
                picks@.len() == j,
                pool@ == combined(self.alphabets@, j as int),
                alphabet_fault(self.alphabets@, 0) == alphabet_fault(self.alphabets@, j as int),
                forall|k: int| 0 <= k < j ==> (#[trigger] self.alphabets@[k])@.contains(picks@[k]),
            decreases self.alphabets.len() - j,
        {
            let alphabet = self.alphabets[j].as_str();
            let chars = chars_of(alphabet);
            if chars.len() == 0 {
                return Err(
                    Error::new(ErrorKind::Config, "generator alphabet(s) must not be empty"),
                );
            }
            if !alphabet.is_ascii() {
                return Err(
                    Error::new(
                        ErrorKind::Config,
                        "generator alphabet(s) contain non-ascii characters",
                    ),
                );
            }
            let picked = match pick(&chars) {
                Some(c) => c,
                None => {
                    proof {
                        assert(false);
                    }
                    ' '
                },
            };
            picks.push(picked);
            let mut i: usize = 0;
            while i < chars.len()
                invariant
                    i <= chars.len(),
                    j < self.alphabets.len(),
                    chars@ == self.alphabets@[j as int]@,
                    pool@ == combined(self.alphabets@, j as int) + chars@.take(i as int),
                decreases chars.len() - i,
            {
                pool.push(chars[i]);
                proof {
                    assert(chars@.take(i + 1) =~= chars@.take(i as int).push(chars@[i as int]));
                }
                i += 1;
            }
            proof {
                assert(chars@.take(chars@.len() as int) =~= chars@);
            }
            j += 1;
        }
        if picks.len() >= self.length {
            return Err(
                Error::new(
                    ErrorKind::Config,
                    "generator invariant failure (too many separate alphabets for length?)",
                ),
            );
        }
        // No more is asked for than the pool holds: room is made for as many
        // as are asked for.
        let rest: usize = self.length - picks.len();
        let amount: usize = if rest <= pool.len() {
            rest
        } else {
            pool.len()
        };
        let mut remainder = pick_some(&pool, amount);
        let ghost first = picks@;
        let ghost more = remainder@;
        picks.append(&mut remainder);
        let ghost unshuffled = picks@;
        assert(unshuffled == first + more);
        shuffle(&mut picks);
        let secret = string_of(&picks, 0, picks.len());
        proof {
            let alphabets = self.alphabets@;
            assert(secret@ =~= picks@);
            unshuffled.to_multiset_ensures();
            picks@.to_multiset_ensures();
            assert forall|i: int| 0 <= i < secret@.len() implies in_alphabets(
                alphabets,
                #[trigger] secret@[i],
            ) by {
                let c = secret@[i];
                assert(picks@.contains(c));
                assert(picks@.to_multiset().count(c) > 0);
                assert(unshuffled.to_multiset().count(c) > 0);
                assert(unshuffled.contains(c));
                let k = choose|k: int| 0 <= k < unshuffled.len() && unshuffled[k] == c;
                if k < first.len() {
                    assert(alphabets[k]@.contains(first[k]));
                } else {
                    assert(more[k - first.len()] == c);
                    assert(pool@.contains(c));
                    lemma_combined(alphabets, alphabets.len() as int, c);
                }
            }
            assert forall|j: int| 0 <= j < alphabets.len() implies exists|i: int|
                0 <= i < secret@.len() && (#[trigger] alphabets[j])@.contains(secret@[i]) by {
                let c = first[j];
                assert(unshuffled[j] == c);
                assert(unshuffled.contains(c));
                assert(unshuffled.to_multiset().count(c) > 0);
                assert(picks@.to_multiset().count(c) > 0);
                assert(picks@.contains(c));
                let i = choose|i: int| 0 <= i < picks@.len() && picks@[i] == c;
                assert(alphabets[j]@.contains(secret@[i]));
            }
        }
        Ok(secret)
    }
}

impl Generator for LegacyInternalGeneratorConfig {
    fn name(&self) -> (name: &str)
        ensures
            name@ == self.name@,
    {
        self.name.as_str()
    }

    /// Makes a secret of the length asked for out of characters of the
    /// alphabet, each drawn at random.
    ///
    /// Fails, with an error of kind `Config`, exactly where the alphabet is
    /// empty or the length is 0.
    fn secret(&self) -> (secret: Result<String, Error>)
        ensures
            self.alphabet@.len() == 0 ==> (secret matches Err(e) && e@ == (
                ErrorKind::Config,
                "generator alphabet(s) must not be empty"@,
            )),
            self.alphabet@.len() > 0 && self.length == 0 ==> (secret matches Err(e) && e@ == (
                ErrorKind::Config,
                "generator length is invalid (must be nonzero)"@,
            )),
            self.alphabet@.len() > 0 && self.length > 0 ==> (secret matches Ok(s) && s@.len()
                == self.length && forall|i: int|
                0 <= i < s@.len() ==> self.alphabet@.contains(#[trigger] s@[i])),
    {
        let chars = chars_of(self.alphabet.as_str());
        if chars.len() == 0 {
            return Err(Error::new(ErrorKind::Config, "generator alphabet(s) must not be empty"));
        }
        if self.length == 0 {
            return Err(
                Error::new(ErrorKind::Config, "generator length is invalid (must be nonzero)"),
            );
        }
        let mut picks: Vec<char> = Vec::new();
        let mut n: u32 = 0;
        while n < self.length
            invariant
                n <= self.length,
                picks@.len() == n,
                chars@ == self.alphabet@,
                chars@.len() > 0,
                forall|i: int| 0 <= i < picks@.len() ==> chars@.contains(#[trigger] picks@[i]),
            decreases self.length - n,
        {
            let picked = match pick(&chars) {
                Some(c) => c,
                None => {
                    proof {
                        assert(false);
                    }
                    ' '
                },
            };
            picks.push(picked);
            n += 1;
        }
        let secret = string_of(&picks, 0, picks.len());
        assert(secret@ =~= picks@);
        Ok(secret)
    }
}

impl ExternalGeneratorConfig {
    /// The name of the generator.
    pub fn name(&self) -> (name: &str)
        ensures
            name@ == self.name@,
    {
        self.name.as_str()
    }

    /// The command to run for a secret, and its arguments. Fails as
    /// `parse_and_split_args` does on the command line of the generator.
    pub fn command_line(&self) -> (parsed: Result<(String, Vec<String>), Error>)
        ensures
            crate::util::shell_words(self.command@) matches Some(words) && words.len() > 0
                <==> parsed is Ok,
            parsed matches Ok(p) ==> crate::util::shell_words(self.command@) matches Some(words)
                && p.0@ == words[0] && crate::text::texts(p.1@) == words.skip(1),
    {
        crate::util::parse_and_split_args(self.command.as_str())
    }
}

} // verus!
