//! The configuration: what the configuration file holds, where it lies, and
//! how a fresh one is made.

use vstd::prelude::*;
use vstd::string::*;

use crate::backend::{age_public_key, wrap_failure, wraps_fresh_key, Backend, RageLib,
    WrappedKeypair};
use crate::error::{Error, ErrorKind};
use crate::text::{chars_of, join, join3};

verus! {

/// The name of the configuration directory, under the directory for
/// configurations of the user.
pub const CONFIG_BASEDIR: &'static str = "kbs2";

/// The name of the configuration file, in the configuration directory.
pub const CONFIG_BASENAME: &'static str = "config.toml";

/// An older name of the configuration file.
pub const LEGACY_CONFIG_BASENAME: &'static str = "kbs2.conf";

/// The name of the key file, in the configuration directory.
pub const DEFAULT_KEY_BASENAME: &'static str = "key";

/// The name of the store directory, under the directory for data of the user.
pub const STORE_BASEDIR: &'static str = "kbs2";

/// The program that asks for passphrases.
#[derive(Clone, Debug)]
pub struct Pinentry(pub String);

impl Default for Pinentry {
    fn default() -> (pinentry: Pinentry)
        ensures
            pinentry.0@ == "pinentry"@,
    {
        Pinentry("pinentry".to_owned())
    }
}

impl Pinentry {
    /// The name of the program.
    pub fn as_str(&self) -> (name: &str)
        ensures
            name@ == self.0@,
    {
        self.0.as_str()
    }
}

/// A generator that runs a command and takes what it prints.
#[derive(Clone, Debug)]
pub struct ExternalGeneratorConfig {
    /// The name of the generator.
    pub name: String,
    /// The command to run to generate a secret.
    pub command: String,
}

/// A generator that draws characters from alphabets.
#[derive(Clone, Debug)]
pub struct InternalGeneratorConfig {
    /// The name of the generator.
    pub name: String,
    /// The alphabets used by the generator.
    pub alphabets: Vec<String>,
    /// The length of the secrets generated.
    pub length: usize,
}

impl Default for InternalGeneratorConfig {
    fn default() -> (generator: InternalGeneratorConfig)
        ensures
            generator.name@ == "default"@,
            generator.length == 16,
            generator.alphabets@.len() == 4,
            generator.alphabets@[0]@ == "abcdefghijklmnopqrstuvwxyz"@,
            generator.alphabets@[1]@ == "ABCDEFGHIJKLMNOPQRSTUVWXYZ"@,
            generator.alphabets@[2]@ == "0123456789"@,
            generator.alphabets@[3]@ == "(){}[]-_+="@,
    {
        let mut alphabets: Vec<String> = Vec::new();
        alphabets.push("abcdefghijklmnopqrstuvwxyz".to_owned());
        alphabets.push("ABCDEFGHIJKLMNOPQRSTUVWXYZ".to_owned());
        alphabets.push("0123456789".to_owned());
        alphabets.push("(){}[]-_+=".to_owned());
        InternalGeneratorConfig { name: "default".to_owned(), alphabets, length: 16 }
    }
}

/// A generator of an older form, with one alphabet.
#[derive(Clone, Debug)]
pub struct LegacyInternalGeneratorConfig {
    /// The name of the generator.
    pub name: String,
    /// The alphabet to sample from when generating a secret.
    pub alphabet: String,
    /// The length of the secrets generated.
    pub length: u32,
}

/// The kinds of generators.
#[derive(Clone, Debug)]
pub enum GeneratorConfig {
    Command(ExternalGeneratorConfig),
    Internal(InternalGeneratorConfig),
    InternalLegacy(LegacyInternalGeneratorConfig),
}

impl Default for GeneratorConfig {
    fn default() -> (generator: GeneratorConfig)
        ensures
            generator is Internal,
            generator.name_text() == "default"@,
    {
        GeneratorConfig::Internal(InternalGeneratorConfig::default())
    }
}

impl GeneratorConfig {
    /// The name of the generator, as a sequence of characters.
    pub open spec fn name_text(&self) -> Seq<char> {
        match self {
            GeneratorConfig::Command(g) => g.name@,
            GeneratorConfig::Internal(g) => g.name@,
            GeneratorConfig::InternalLegacy(g) => g.name@,
        }
    }

    /// The name of the generator.
    pub fn name(&self) -> (name: &str)
        ensures
            name@ == self.name_text(),
    {
        match self {
            GeneratorConfig::Command(g) => g.name.as_str(),
            GeneratorConfig::Internal(g) => g.name.as_str(),
            GeneratorConfig::InternalLegacy(g) => g.name.as_str(),
        }
    }
}

/// Settings for making records.
#[derive(Clone, Debug)]
pub struct NewConfig {
    /// The username that a prompt offers.
    pub default_username: Option<String>,
    pub pre_hook: Option<String>,
    pub post_hook: Option<String>,
}

impl Default for NewConfig {
    fn default() -> (config: NewConfig)
        ensures
            config.default_username is None,
            config.pre_hook is None,
            config.post_hook is None,
    {
        NewConfig { default_username: None, pre_hook: None, post_hook: None }
    }
}

/// The selection of the X11 clipboard that a password is copied to.
#[derive(Copy, Clone, Debug, PartialEq, Eq, Structural)]
pub enum X11Clipboard {
    Clipboard,
    Primary,
}

/// Settings for handing out passwords.
#[derive(Clone, Debug)]
pub struct PassConfig {
    /// For how many seconds a password stays on the clipboard.
    pub clipboard_duration: u64,
    /// Whether the clipboard is cleared after that time.
    pub clear_after: bool,
    pub x11_clipboard: X11Clipboard,
    pub pre_hook: Option<String>,
    pub post_hook: Option<String>,
    pub clear_hook: Option<String>,
}

impl Default for PassConfig {
    fn default() -> (config: PassConfig)
        ensures
            config.clipboard_duration == 10,
            config.clear_after,
            config.x11_clipboard == X11Clipboard::Clipboard,
            config.pre_hook is None,
            config.post_hook is None,
            config.clear_hook is None,
    {
        PassConfig {
            clipboard_duration: 10,
            clear_after: true,
            x11_clipboard: X11Clipboard::Clipboard,
            pre_hook: None,
            post_hook: None,
            clear_hook: None,
        }
    }
}

/// Settings for editing records.
#[derive(Clone, Debug)]
pub struct EditConfig {
    pub editor: Option<String>,
    pub post_hook: Option<String>,
}

impl Default for EditConfig {
    fn default() -> (config: EditConfig)
        ensures
            config.editor is None,
            config.post_hook is None,
    {
        EditConfig { editor: None, post_hook: None }
    }
}

/// Settings for removing records.
#[derive(Clone, Debug)]
pub struct RmConfig {
    pub post_hook: Option<String>,
}

impl Default for RmConfig {
    fn default() -> (config: RmConfig)
        ensures
            config.post_hook is None,
    {
        RmConfig { post_hook: None }
    }
}

/// Settings for renaming records.
#[derive(Clone, Debug)]
pub struct RenameConfig {
    pub post_hook: Option<String>,
}

impl Default for RenameConfig {
    fn default() -> (config: RenameConfig)
        ensures
            config.post_hook is None,
    {
        RenameConfig { post_hook: None }
    }
}

/// The settings of the single commands.
#[derive(Clone, Debug)]
pub struct CommandConfigs {
    pub new: NewConfig,
    pub pass: PassConfig,
    pub edit: EditConfig,
    pub rm: RmConfig,
    pub rename: RenameConfig,
}

impl CommandConfigs {
    /// Whether these are the settings of a fresh configuration: no hook, no
    /// editor and no default username; passwords stay on the clipboard for
    /// 10 seconds and are then cleared.
    pub open spec fn is_default(&self) -> bool {
        &&& self.new.default_username is None
        &&& self.new.pre_hook is None
        &&& self.new.post_hook is None
        &&& self.pass.clipboard_duration == 10
        &&& self.pass.clear_after
        &&& self.pass.x11_clipboard == X11Clipboard::Clipboard
        &&& self.pass.pre_hook is None
        &&& self.pass.post_hook is None
        &&& self.pass.clear_hook is None
        &&& self.edit.editor is None
        &&& self.edit.post_hook is None
        &&& self.rm.post_hook is None
        &&& self.rename.post_hook is None
    }
}

impl Default for CommandConfigs {
    fn default() -> (config: CommandConfigs)
        ensures
            config.is_default(),
    {
        CommandConfigs {
            new: NewConfig::default(),
            pass: PassConfig::default(),
            edit: EditConfig::default(),
            rm: RmConfig::default(),
            rename: RenameConfig::default(),
        }
    }
}

/// The configuration, as the configuration file gives it.
#[derive(Clone, Debug)]
pub struct Config {
    /// The directory that this configuration was loaded from. The file does
    /// not hold it.
    pub config_dir: String,
    /// The public key.
    pub public_key: String,
    /// The path of the key file, which may be wrapped with a passphrase.
    pub keyfile: String,
    /// Whether a session launches the agent where none is running.
    pub agent_autostart: bool,
    /// Whether the key file is wrapped with a passphrase.
    pub wrapped: bool,
    /// The path of the directory that holds the records.
    pub store: String,
    /// The program that asks for passphrases.
    pub pinentry: Pinentry,
    /// A command to run before each command.
    pub pre_hook: Option<String>,
    /// A command to run after each command that succeeded.
    pub post_hook: Option<String>,
    /// A command to run after each command that failed.
    pub error_hook: Option<String>,
    /// Whether hooks run while a hook is running.
    pub reentrant_hooks: bool,
    /// The generators of secrets.
    pub generators: Vec<GeneratorConfig>,
    /// The settings of the single commands.
    pub commands: CommandConfigs,
}

/// What is to be done about a hook.
#[derive(Debug, Clone, Copy, PartialEq, Eq, Structural)]
pub enum Hook {
    /// Run the command in the store directory, with `KBS2_HOOK=1` and the
    /// configuration directory in `KBS2_CONFIG_DIR`.
    Run,
    /// Run nothing, and warn that a nested hook was passed over.
    Skip,
}

/// Where the first generator named `name` stands in `generators`.
pub open spec fn generator_index(generators: Seq<GeneratorConfig>, name: Seq<char>) -> Option<int> {
    if exists|i: int| 0 <= i < generators.len() && generators[i].name_text() == name {
        Some(
            choose|i: int|
                0 <= i < generators.len() && generators[i].name_text() == name && forall|j: int|
                    0 <= j < i ==> generators[j].name_text() != name,
        )
    } else {
        None
    }
}

impl Config {
    /// Decides whether a hook runs: it does unless this process runs inside
    /// a hook already and hooks are not reentrant.
    pub fn call_hook(&self, inside_hook: bool) -> (hook: Hook)
        ensures
            hook == (if self.reentrant_hooks || !inside_hook {
                Hook::Run
            } else {
                Hook::Skip
            }),
    {
        if self.reentrant_hooks || !inside_hook {
            Hook::Run
        } else {
            Hook::Skip
        }
    }

    /// What running the hook `cmd` came to. `succeeded` says whether it
    /// exited with success; it is `None` where it could not be run.
    pub fn hook_result(cmd: &str, succeeded: Option<bool>) -> (result: Result<(), Error>)
        ensures
            succeeded == Some(true) ==> result is Ok,
            succeeded == Some(false) ==> (result matches Err(e) && e@ == (
                ErrorKind::Usage,
                "hook exited with an error code: "@ + cmd@,
            )),
            succeeded is None ==> (result matches Err(e) && e@ == (
                ErrorKind::Io,
                "failed to run hook: "@ + cmd@,
            )),
    {
        match succeeded {
            Some(true) => Ok(()),
            Some(false) => Err(
                Error {
                    kind: ErrorKind::Usage,
                    message: join("hook exited with an error code: ", cmd),
                },
            ),
            None => Err(Error { kind: ErrorKind::Io, message: join("failed to run hook: ", cmd) }),
        }
    }

    /// The first generator named `name`, if there is one.
    pub fn generator(&self, name: &str) -> (found: Option<&GeneratorConfig>)
        ensures
            match found {
                Some(g) => generator_index(self.generators@, name@) matches Some(i)
                    && self.generators@[i] == *g && g.name_text() == name@,
                None => generator_index(self.generators@, name@) is None,
            },
    {
        let mut i: usize = 0;
        while i < self.generators.len()
            invariant
                i <= self.generators.len(),
                forall|j: int| 0 <= j < i ==> self.generators@[j].name_text() != name@,
            decreases self.generators.len() - i,
        {
            if self.generators[i].name().eq(name) {
                proof {
                    let k = generator_index(self.generators@, name@)->0;
                    assert(k == i) by {
                        if k < i {
                            assert(self.generators@[k].name_text() != name@);
                        }
                    }
                }
                return Some(&self.generators[i]);
            }
            i += 1;
        }
        None
    }

    /// This configuration with what the command line gave.
    pub fn with_matches<'a>(
        &'a self,
        generator: Option<String>,
        terse_flag: bool,
        stdin_is_terminal: bool,
    ) -> (runtime: RuntimeConfig<'a>)
        ensures
            runtime.config == self,
            runtime.generator == generator,
            runtime.terse_flag == terse_flag,
            runtime.stdin_is_terminal == stdin_is_terminal,
    {
        RuntimeConfig { config: self, generator, terse_flag, stdin_is_terminal }
    }

    /// This configuration with another public key.
    pub fn with_public_key(self, public_key: String) -> (config: Config)
        ensures
            config.public_key == public_key,
            config.config_dir == self.config_dir,
            config.keyfile == self.keyfile,
            config.agent_autostart == self.agent_autostart,
            config.wrapped == self.wrapped,
            config.store == self.store,
            config.pinentry == self.pinentry,
            config.pre_hook == self.pre_hook,
            config.post_hook == self.post_hook,
            config.error_hook == self.error_hook,
            config.reentrant_hooks == self.reentrant_hooks,
            config.generators == self.generators,
            config.commands == self.commands,
    {
        let mut config = self;
        config.public_key = public_key;
        config
    }
}

/// A configuration together with what the command line gave.
#[derive(Debug)]
pub struct RuntimeConfig<'a> {
    pub config: &'a Config,
    /// The generator that the command line names, if it names one.
    pub generator: Option<String>,
    /// Whether the command line asks for terse input.
    pub terse_flag: bool,
    /// Whether the standard input is a terminal.
    pub stdin_is_terminal: bool,
}

impl<'a> RuntimeConfig<'a> {
    /// The generator to use: the one that the command line names, else the
    /// one named `default`. Fails, with an error of kind `Config`, exactly
    /// where there is no generator of that name.
    pub fn generator(&self) -> (found: Result<&GeneratorConfig, Error>)
        ensures
            match self.generator {
                Some(name) => match found {
                    Ok(g) => generator_index(self.config.generators@, name@) matches Some(i)
                        && self.config.generators@[i] == *g,
                    Err(e) => generator_index(self.config.generators@, name@) is None && e@ == (
                        ErrorKind::Config,
                        "no generator named "@ + name@,
                    ),
                },
                None => match found {
                    Ok(g) => generator_index(self.config.generators@, "default"@) matches Some(i)
                        && self.config.generators@[i] == *g,
                    Err(e) => generator_index(self.config.generators@, "default"@) is None && e@
                        == (ErrorKind::Config, "missing default generator?"@),
                },
            },
    {
        match &self.generator {
            Some(name) => match self.config.generator(name.as_str()) {
                Some(g) => Ok(g),
                None => Err(
                    Error {
                        kind: ErrorKind::Config,
                        message: join("no generator named ", name.as_str()),
                    },
                ),
            },
            None => match self.config.generator("default") {
                Some(g) => Ok(g),
                None => Err(Error::new(ErrorKind::Config, "missing default generator?")),
            },
        }
    }

    /// Whether fields are read tersely, from the standard input: they are
    /// where it is no terminal, or the command line asks for it.
    pub fn terse(&self) -> (terse: bool)
        ensures
            terse == (!self.stdin_is_terminal || self.terse_flag),
    {
        !self.stdin_is_terminal || self.terse_flag
    }
}

/// The path of `name` in the directory `dir`, as `Path::join` gives it on
/// Unix: `name` itself where it is absolute or `dir` is empty, else `dir`,
/// a separator unless `dir` ends in one, and `name`.
pub open spec fn joined_path(dir: Seq<char>, name: Seq<char>) -> Seq<char> {
    if (name.len() > 0 && name[0] == '/') || dir.len() == 0 {
        name
    } else if dir.last() == '/' {
        dir + name
    } else {
        dir + "/"@ + name
    }
}

/// The path of `name` in the directory `dir`.
pub fn join_path(dir: &str, name: &str) -> (path: String)
    ensures
        path@ == joined_path(dir@, name@),
{
    let d = chars_of(dir);
    let n = chars_of(name);
    if (n.len() > 0 && n[0] == '/') || d.len() == 0 {
        name.to_owned()
    } else if d[d.len() - 1] == '/' {
        join(dir, name)
    } else {
        join3(dir, "/", name)
    }
}

/// The configuration directory of a user whose home directory is `home`.
pub fn default_config_dir(home: &str) -> (dir: String)
    ensures
        dir@ == joined_path(joined_path(home@, ".config"@), "kbs2"@),
{
    join_path(join_path(home, ".config").as_str(), "kbs2")
}

/// The store directory of a user whose home directory is `home`.
pub fn default_store_dir(home: &str) -> (dir: String)
    ensures
        dir@ == joined_path(joined_path(home@, ".local/share"@), "kbs2"@),
{
    join_path(join_path(home, ".local/share").as_str(), "kbs2")
}

/// What a fresh key file is to hold.
pub enum KeyMaterial {
    /// The identity, as text.
    Bare(String),
    /// The identity wrapped with a passphrase, in ASCII armor.
    Wrapped(Vec<u8>),
}

/// What `initialize` made: the configuration to write to the configuration
/// file, and what to write to the key file that it names.
pub struct Initialized {
    pub config: Config,
    pub key: KeyMaterial,
}

/// Makes a configuration and a pair of keys for the configuration directory
/// `config_dir` and the store directory `store_dir`. The key is wrapped
/// with `password` where there is one.
///
/// The configuration names the key file `key` in the configuration
/// directory, starts the agent by itself, has no hooks, and has the default
/// generator as its only one. Fails only where the keys cannot be made, as
/// `create_keypair` and `create_wrapped_keypair` do.
pub fn initialize(config_dir: &str, store_dir: &str, password: Option<&str>) -> (made: Result<
    Initialized,
    Error,
>)
    ensures
        made matches Err(e) ==> e.kind == ErrorKind::Config || (password is Some && wrap_failure(
            e@,
        )),
        made matches Ok(init) ==> {
            &&& init.config.config_dir@ == config_dir@
            &&& init.config.store@ == store_dir@
            &&& init.config.keyfile@ == joined_path(config_dir@, "key"@)
            &&& init.config.wrapped == password is Some
            &&& init.config.agent_autostart
            &&& !init.config.reentrant_hooks
            &&& init.config.pre_hook is None
            &&& init.config.post_hook is None
            &&& init.config.error_hook is None
            &&& init.config.pinentry.0@ == "pinentry"@
            &&& init.config.commands.is_default()
            &&& init.config.generators@.len() == 1
            &&& init.config.generators@[0].name_text() == "default"@
            &&& match init.key {
                KeyMaterial::Bare(identity) => password is None && age_public_key(identity@) == Ok::<
                    Seq<char>,
                    Seq<char>,
                >(init.config.public_key@),
                KeyMaterial::Wrapped(keyfile) => password matches Some(p) && wraps_fresh_key(
                    p@,
                    WrappedKeypair { keyfile, public_key: init.config.public_key },
                ),
            }
        },
{
    let (public_key, key) = match password {
        Some(p) => {
            let pair = RageLib::create_wrapped_keypair(p)?;
            (pair.public_key, KeyMaterial::Wrapped(pair.keyfile))
        },
        None => {
            let pair = RageLib::create_keypair()?;
            (pair.public_key, KeyMaterial::Bare(pair.identity))
        },
    };
    Ok(initialized(config_dir, store_dir, public_key, key))
}

/// The configuration of a fresh setup, from the keys that were made for it:
/// it holds the public key, names the key file `key` in the configuration
/// directory, says that the key is wrapped exactly where it is, starts the
/// agent by itself, has no hooks, and has the default generator as its only
/// one.
pub fn initialized(config_dir: &str, store_dir: &str, public_key: String, key: KeyMaterial) -> (init:
    Initialized)
    ensures
        init.key == key,
        init.config.public_key == public_key,
        init.config.config_dir@ == config_dir@,
        init.config.store@ == store_dir@,
        init.config.keyfile@ == joined_path(config_dir@, "key"@),
        init.config.wrapped == key is Wrapped,
        init.config.agent_autostart,
        !init.config.reentrant_hooks,
        init.config.pre_hook is None,
        init.config.post_hook is None,
        init.config.error_hook is None,
        init.config.pinentry.0@ == "pinentry"@,
        init.config.commands.is_default(),
        init.config.generators@.len() == 1,
        init.config.generators@[0].name_text() == "default"@,
{
    let wrapped = match &key {
        KeyMaterial::Wrapped(_) => true,
        KeyMaterial::Bare(_) => false,
    };
    let mut generators: Vec<GeneratorConfig> = Vec::new();
    generators.push(GeneratorConfig::default());
    let config = Config {
        config_dir: config_dir.to_owned(),
        public_key,
        keyfile: join_path(config_dir, "key"),
        agent_autostart: true,
        wrapped,
        store: store_dir.to_owned(),
        pinentry: Pinentry::default(),
        pre_hook: None,
        post_hook: None,
        error_hook: None,
        reentrant_hooks: false,
        generators,
        commands: CommandConfigs::default(),
    };
    Initialized { config, key }
}

/// Which configuration file to read, and what to warn of.
#[derive(Debug)]
pub struct ConfigFile {
    /// The name of the file, in the configuration directory.
    pub basename: String,
    /// The warnings to print.
    pub warnings: Vec<String>,
}

/// Chooses the configuration file: the one of the current name where it is
/// there, else the one of the older name, with two warnings.
pub fn config_file(current_exists: bool) -> (choice: ConfigFile)
    ensures
        current_exists ==> choice.basename@ == "config.toml"@ && choice.warnings@.len() == 0,
        !current_exists ==> {
            &&& choice.basename@ == "kbs2.conf"@
            &&& choice.warnings@.len() == 2
            &&& choice.warnings@[0]@ == "config.toml not found in config dir; trying kbs2.conf"@
            &&& choice.warnings@[1]@
                == "note: this behavior will be removed in a future stable release"@
        },
{
    let mut warnings: Vec<String> = Vec::new();
    if current_exists {
        ConfigFile { basename: "config.toml".to_owned(), warnings }
    } else {
        warnings.push("config.toml not found in config dir; trying kbs2.conf".to_owned());
        warnings.push("note: this behavior will be removed in a future stable release".to_owned());
        ConfigFile { basename: "kbs2.conf".to_owned(), warnings }
    }
}

/// The names of the generators of the older form among `generators[..upto]`.
pub open spec fn legacy_names(generators: Seq<GeneratorConfig>, upto: int) -> Seq<Seq<char>>
    decreases upto,
{
    if upto <= 0 {
        Seq::empty()
    } else if generators[upto - 1] is InternalLegacy {
        legacy_names(generators, upto - 1).push(generators[upto - 1].name_text())
    } else {
        legacy_names(generators, upto - 1)
    }
}

/// A configuration that was loaded, and the names of its generators of the
/// older form, each of which calls for a warning.
#[derive(Debug)]
pub struct Loaded {
    pub config: Config,
    pub legacy_generators: Vec<String>,
}

/// Completes a configuration that was parsed from the file in
/// `config_dir`: it records the directory, and puts the default generator
/// in where the file names none.
pub fn load(config_dir: &str, parsed: Config) -> (loaded: Loaded)
    ensures
        loaded.config.config_dir@ == config_dir@,
        loaded.config.public_key == parsed.public_key,
        loaded.config.keyfile == parsed.keyfile,
        loaded.config.wrapped == parsed.wrapped,
        loaded.config.agent_autostart == parsed.agent_autostart,
        loaded.config.store == parsed.store,
        loaded.config.reentrant_hooks == parsed.reentrant_hooks,
        loaded.config.pinentry == parsed.pinentry,
        loaded.config.pre_hook == parsed.pre_hook,
        loaded.config.post_hook == parsed.post_hook,
        loaded.config.error_hook == parsed.error_hook,
        loaded.config.commands == parsed.commands,
        parsed.generators@.len() > 0 ==> loaded.config.generators == parsed.generators,
        parsed.generators@.len() == 0 ==> loaded.config.generators@.len() == 1
            && loaded.config.generators@[0].name_text() == "default"@,
        crate::text::texts(loaded.legacy_generators@) == legacy_names(
            loaded.config.generators@,
            loaded.config.generators@.len() as int,
        ),
{
    let mut config = parsed;
    config.config_dir = config_dir.to_owned();
    if config.generators.len() == 0 {
        config.generators.push(GeneratorConfig::default());
    }
    let mut legacy: Vec<String> = Vec::new();
    let mut i: usize = 0;
    assert(crate::text::texts(legacy@) =~= Seq::<Seq<char>>::empty());
    while i < config.generators.len()
        invariant
            i <= config.generators.len(),
            crate::text::texts(legacy@) == legacy_names(config.generators@, i as int),
        decreases config.generators.len() - i,
    {
        match &config.generators[i] {
            GeneratorConfig::InternalLegacy(g) => {
                let name = g.name.clone();
                proof {
                    assert(crate::text::texts(legacy@.push(name)) =~= crate::text::texts(
                        legacy@,
                    ).push(name@));
                }
                legacy.push(name);
            },
            _ => {},
        }
        i += 1;
    }
    Loaded { config, legacy_generators: legacy }
}

} // verus!
