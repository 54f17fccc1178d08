//! Where the configuration comes from: the command line, the home directory, and the
//! settings read from the configuration file.

use vstd::prelude::*;

use configparser::ini::Ini;

use crate::path::{join_segments, join_segments_spec};
use crate::text::{has_char, lacks, push_char, replace_char, replace_char_spec, same_text};
use crate::vim_commit::texts;

verus! {

/// Why the configuration could not be had.
#[derive(Debug)]
pub enum ConfigError {
    /// The command line was refused; the text is the parser's message.
    Arguments(String),
    /// The home directory is unknown, or its path is not valid Unicode.
    HomeDirUnavailable,
    /// The configuration file was refused; the text says why.
    Parse(String),
    /// The configuration holds this many sections instead of two.
    WrongSectionCount(usize),
    /// The configuration holds a section other than "obsidian" and "templates".
    UnsupportedSection(String),
    /// A setting is missing: its key.
    MissingKey(String),
}

/// The texts of a sequence of string slices.
pub open spec fn arg_texts(args: Seq<&str>) -> Seq<Seq<char>> {
    args.map_values(|a: &str| a@)
}

/// The text of an optional string.
pub open spec fn opt_text(o: Option<String>) -> Option<Seq<char>> {
    match o {
        Some(s) => Some(s@),
        None => None,
    }
}

/// What clap makes of `args` (the program name first) for a command whose one option
/// takes a value and is named `-<short>` and `--<long>`: `None` when it refuses them,
/// else the option's value if it was given.
pub uninterp spec fn cli_value(args: Seq<Seq<char>>, short: char, long: Seq<char>) -> Option<
    Option<Seq<char>>,
>;

/// Relies on clap's `Command::try_get_matches_from` for a command with one option that
/// takes a value, read back with `ArgMatches::get_one`: the outcome depends on the
/// arguments and the option's names alone; the program name and the description shape
/// only the help and error texts. Requests for help are refused like errors, with clap's
/// rendered text. clap's checks of the command panic when the option's names clash with
/// its own `-h`/`--help` or start with `-`; `requires` leaves those names out.
#[verifier::external_body]
fn parse_single_option(args: &Vec<&str>, program: &str, about: &str, short: char, long: &str) -> (r:
    Result<Option<String>, String>)
    requires
        short != 'h',
        short != '-',
        long@ != "help"@,
        long@.len() == 0 || long@[0] != '-',
    ensures
        match r {
            Ok(v) => cli_value(arg_texts(args@), short, long@) == Some(opt_text(v)),
            Err(_) => cli_value(arg_texts(args@), short, long@) is None,
        },
{
    let option = clap::Arg::new(long.to_string()).short(short).long(long.to_string());
    let command = clap::Command::new(program.to_string()).about(about.to_string()).arg(option);
    match command.try_get_matches_from(args.iter()) {
        Ok(matches) => Ok(matches.get_one::<String>(long).cloned()),
        Err(e) => Err(e.to_string()),
    }
}

/// The command line of the program.
#[derive(Debug)]
pub struct UserInput {
    /// The path of the configuration file, given with `-c` or `--config-ini`.
    pub config_ini: Option<String>,
}

impl UserInput {
    /// Reads the command line `args`, the program name first.
    pub fn try_parse_from(args: Vec<&str>) -> (r: Result<UserInput, ConfigError>)
        ensures
            match cli_value(arg_texts(args@), 'c', "config-ini"@) {
                Some(v) => r is Ok && opt_text(r->Ok_0.config_ini) == v,
                None => r is Err && r->Err_0 is Arguments,
            },
    {
        proof {
            reveal_strlit("config-ini");
            reveal_strlit("help");
        }
        assert("config-ini"@ != "help"@) by {
            assert("config-ini"@.len() != "help"@.len());
        }
        match parse_single_option(
            &args,
            "rusty-commit-saver",
            "Rusty Commit Saver config",
            'c',
            "config-ini",
        ) {
            Ok(config_ini) => Ok(UserInput { config_ini }),
            Err(message) => Err(ConfigError::Arguments(message)),
        }
    }
}

/// Relies on `dirs::home_dir`: the user's home directory, when the platform reports one;
/// `None` also when its path is not valid Unicode. It depends on the environment, so
/// nothing is stated.
#[verifier::external_body]
fn home_directory() -> (r: Option<String>) {
    dirs::home_dir().and_then(|p| p.into_os_string().into_string().ok())
}

/// `s` with every `~` replaced by the home directory `home`.
pub open spec fn with_home(s: Seq<char>, home: Seq<char>) -> Seq<char> {
    replace_char_spec(s, '~', home)
}

/// Replaces every `~` of `cfg_str` with `home`.
pub fn expand_home_dir(cfg_str: &str, home: &str) -> (r: String)
    ensures
        r@ == with_home(cfg_str@, home@),
{
    replace_char(cfg_str, '~', home)
}

/// Replaces every `~` of `cfg_str` with the user's home directory.
pub fn set_proper_home_dir(cfg_str: &str) -> (r: Result<String, ConfigError>)
    ensures
        match r {
            Ok(p) => exists|home: Seq<char>| p@ == with_home(cfg_str@, home),
            Err(e) => e is HomeDirUnavailable,
        },
{
    match home_directory() {
        Some(home) => Ok(expand_home_dir(cfg_str, home.as_str())),
        None => Err(ConfigError::HomeDirUnavailable),
    }
}

/// Where the configuration file is when the command line names none, `~` standing for
/// the home directory.
pub open spec fn default_ini_path_spec() -> Seq<char> {
    "~/.config/rusty-commit-saver/rusty-commit-saver.ini"@
}

/// The default path of the configuration file, in the user's home directory.
pub fn get_default_ini_path() -> (r: Result<String, ConfigError>)
    ensures
        match r {
            Ok(p) => exists|home: Seq<char>| p@ == with_home(default_ini_path_spec(), home),
            Err(e) => e is HomeDirUnavailable,
        },
{
    let r = set_proper_home_dir("~/.config/rusty-commit-saver/rusty-commit-saver.ini");
    proof {
        if r is Ok {
            let home = choose|home: Seq<char>|
                r->Ok_0@ == with_home("~/.config/rusty-commit-saver/rusty-commit-saver.ini"@, home);
            assert(r->Ok_0@ == with_home(default_ini_path_spec(), home));
        }
    }
    r
}

/// The path of the configuration file for a command line, `home` being the home
/// directory: the path given, with `~` expanded, or else the default path.
pub open spec fn config_ini_path_spec(config_ini: Option<Seq<char>>, home: Seq<char>) -> Seq<
    char,
> {
    match config_ini {
        Some(p) => with_home(p, home),
        None => with_home(default_ini_path_spec(), home),
    }
}

/// The path of the configuration file for a command line, given the home directory.
pub fn config_ini_path_for_home(user_input: &UserInput, home: &str) -> (r: String)
    ensures
        r@ == config_ini_path_spec(opt_text(user_input.config_ini), home@),
{
    match &user_input.config_ini {
        Some(p) => expand_home_dir(p.as_str(), home),
        None => {
            let d = "~/.config/rusty-commit-saver/rusty-commit-saver.ini";
            expand_home_dir(d, home)
        },
    }
}

/// The path of the configuration file for a command line. The home directory is looked
/// up only when the path holds a `~`; a path without one is taken as it is.
pub fn get_or_default_config_ini_path(user_input: &UserInput) -> (r: Result<String, ConfigError>)
    ensures
        match r {
            Ok(p) => exists|home: Seq<char>|
                p@ == config_ini_path_spec(opt_text(user_input.config_ini), home),
            Err(e) => e is HomeDirUnavailable,
        },
        match user_input.config_ini {
            Some(p) => lacks(p@, '~') ==> r is Ok && r->Ok_0@ == p@,
            None => true,
        },
{
    match &user_input.config_ini {
        Some(p) => {
            if has_char(p.as_str(), '~') {
                let r = set_proper_home_dir(p.as_str());
                proof {
                    if r is Ok {
                        let home = choose|home: Seq<char>| r->Ok_0@ == with_home(p@, home);
                        assert(r->Ok_0@ == config_ini_path_spec(opt_text(user_input.config_ini), home));
                    }
                }
                r
            } else {
                proof {
                    lemma_with_home_without_tilde(p@, Seq::empty());
                    assert(p@ == config_ini_path_spec(opt_text(user_input.config_ini), Seq::empty()));
                }
                Ok(p.clone())
            }
        },
        None => {
            let r = get_default_ini_path();
            proof {
                if r is Ok {
                    let home = choose|home: Seq<char>| r->Ok_0@ == with_home(default_ini_path_spec(), home);
                    assert(r->Ok_0@ == config_ini_path_spec(opt_text(user_input.config_ini), home));
                }
            }
            r
        },
    }
}

/// Text without `~` is its own expansion.
pub proof fn lemma_with_home_without_tilde(s: Seq<char>, home: Seq<char>)
    requires
        lacks(s, '~'),
    ensures
        with_home(s, home) == s,
    decreases s.len(),
{
    if s.len() > 0 {
        lemma_with_home_without_tilde(s.drop_last(), home);
        assert(s.drop_last().push(s.last()) =~= s);
    }
}


/// configparser's `Ini`, carried as an opaque value; what it holds is `ini_entries`.
#[verifier::external_type_specification]
#[verifier::external_body]
pub struct ExIni(configparser::ini::Ini);

/// Settings by section and key; a key may stand without a value.
pub type IniEntries = Map<Seq<char>, Map<Seq<char>, Option<Seq<char>>>>;

/// The settings that a configuration holds, section and key names lowercased.
pub uninterp spec fn ini_entries(ini: Ini) -> IniEntries;

/// The settings that configparser reads from `content`; `None` when it refuses it.
pub uninterp spec fn ini_read(content: Seq<char>) -> Option<IniEntries>;

/// Relies on configparser's `Ini::new` and `Ini::read`: a case-insensitive configuration
/// (section and key names lowercased) that holds what was read from the text, or the
/// parser's message when it refuses the text.
#[verifier::external_body]
fn read_ini(content: &str) -> (r: Result<Ini, String>)
    ensures
        match r {
            Ok(ini) => ini_read(content@) == Some(ini_entries(ini)),
            Err(_) => ini_read(content@) is None,
        },
{
    let mut ini = Ini::new();
    ini.read(content.to_string()).map(|_| ini)
}

/// A configuration read from text by `parse_ini_content`, the one way to build it: a
/// case-insensitive configparser `Ini` made by `Ini::new`, which never falls back to a
/// default section.
#[derive(Debug)]
pub struct ParsedIni {
    ini: Ini,
}

impl ParsedIni {
    /// The settings it holds.
    pub closed spec fn entries(&self) -> IniEntries {
        ini_entries(self.ini)
    }

    /// The configparser value, to read.
    pub fn as_ini(&self) -> (r: &Ini)
        ensures
            ini_entries(*r) == self.entries(),
    {
        &self.ini
    }
}

/// `s` is unchanged by configparser's lowercasing: ASCII without capital letters.
pub open spec fn is_folded(s: Seq<char>) -> bool {
    forall|i: int| 0 <= i < s.len() ==> (#[trigger] s[i] as u32) < 128 && !(65 <= (s[i] as u32) && (s[i] as u32) <= 90)
}

/// The value of `key` in `section`, if both are there and the key has a value.
pub open spec fn ini_lookup(e: IniEntries, section: Seq<char>, key: Seq<char>) -> Option<Seq<char>> {
    if e.contains_key(section) && e[section].contains_key(key) {
        e[section][key]
    } else {
        None
    }
}

/// Relies on configparser's `Ini::get`: it lowercases both names, which leaves folded
/// names as they are, and returns the stored value of the key in the section. It falls
/// back to the default section only when cascading defaults are on, which `Ini::new`, the
/// only maker of a `ParsedIni`, leaves off.
#[verifier::external_body]
fn ini_get(config: &ParsedIni, section: &str, key: &str) -> (r: Option<String>)
    requires
        is_folded(section@),
        is_folded(key@),
    ensures
        opt_text(r) == ini_lookup(config.entries(), section@, key@),
{
    config.ini.get(section, key)
}

/// Relies on configparser's `Ini::sections`: the names of the sections, each once, in no
/// particular order.
#[verifier::external_body]
fn ini_sections(config: &ParsedIni) -> (r: Vec<String>)
    ensures
        texts(r@).no_duplicates(),
        texts(r@).to_set() == config.entries().dom(),
{
    config.ini.sections()
}

/// Reads the text of a configuration file.
pub fn parse_ini_content(content: &str) -> (r: Result<ParsedIni, ConfigError>)
    ensures
        match ini_read(content@) {
            Some(e) => r is Ok && r->Ok_0.entries() == e,
            None => r is Err && r->Err_0 is Parse,
        },
{
    match read_ini(content) {
        Ok(ini) => Ok(ParsedIni { ini }),
        Err(message) => {
            let mut text = String::from_str("Failed to parse INI: ");
            text.append(message.as_str());
            Err(ConfigError::Parse(text))
        },
    }
}

/// The two sections that a configuration holds.
pub open spec fn section_names() -> Set<Seq<char>> {
    set!["obsidian"@, "templates"@]
}

/// The vault root for its configured text: `/`, then each `/`-separated segment.
pub open spec fn root_path_spec(s: Seq<char>) -> Seq<char> {
    join_segments_spec(seq!['/'], s)
}

/// The commit directory for its configured text: each `/`-separated segment in turn.
pub open spec fn commit_path_spec(s: Seq<char>) -> Seq<char> {
    join_segments_spec(Seq::empty(), s)
}

/// The configured vault root.
pub open spec fn root_setting(e: IniEntries) -> Option<Seq<char>> {
    ini_lookup(e, "obsidian"@, "root_path_dir"@)
}

/// The configured commit directory inside the vault.
pub open spec fn commit_setting(e: IniEntries) -> Option<Seq<char>> {
    ini_lookup(e, "obsidian"@, "commit_path"@)
}

/// The configured template of the diary path.
pub open spec fn date_path_setting(e: IniEntries) -> Option<Seq<char>> {
    ini_lookup(e, "templates"@, "commit_date_path"@)
}

/// The configured template of the commit time.
pub open spec fn datetime_setting(e: IniEntries) -> Option<Seq<char>> {
    ini_lookup(e, "templates"@, "commit_datetime"@)
}

/// All four settings that a configuration must hold have values.
pub open spec fn settings_present(e: IniEntries) -> bool {
    root_setting(e) is Some && commit_setting(e) is Some && date_path_setting(e) is Some
        && datetime_setting(e) is Some
}

/// The settings of the configuration file of `g`.
pub open spec fn config_entries(g: GlobalVars) -> IniEntries {
    g.config->Some_0.entries()
}

/// The configuration of a run: the settings file and the values taken from it.
#[derive(Debug)]
pub struct GlobalVars {
    pub config: Option<ParsedIni>,
    pub obsidian_root_path_dir: Option<String>,
    pub obsidian_commit_path: Option<String>,
    pub template_commit_date_path: Option<String>,
    pub template_commit_datetime: Option<String>,
}

impl Default for GlobalVars {
    /// A configuration with nothing set.
    fn default() -> (r: GlobalVars)
        ensures
            r.config is None,
            r.obsidian_root_path_dir is None,
            r.obsidian_commit_path is None,
            r.template_commit_date_path is None,
            r.template_commit_datetime is None,
    {
        GlobalVars::new()
    }
}

/// The value of a setting, or the error that names its key.
fn setting(ini: &ParsedIni, section: &str, key: &str) -> (r: Result<String, ConfigError>)
    requires
        is_folded(section@),
        is_folded(key@),
    ensures
        match ini_lookup(ini.entries(), section@, key@) {
            Some(v) => r is Ok && r->Ok_0@ == v,
            None => r is Err && r->Err_0 is MissingKey,
        },
{
    match ini_get(ini, section, key) {
        Some(v) => Ok(v),
        None => Err(ConfigError::MissingKey(key.to_owned())),
    }
}

/// `s` with `~` replaced by the home directory, looked up only when `s` holds a `~`.
fn expand_if_home(s: String) -> (r: Result<String, ConfigError>)
    ensures
        match r {
            Ok(p) => exists|home: Seq<char>| p@ == with_home(s@, home),
            Err(e) => e is HomeDirUnavailable,
        },
        lacks(s@, '~') ==> r is Ok,
{
    if has_char(s.as_str(), '~') {
        set_proper_home_dir(s.as_str())
    } else {
        proof {
            lemma_with_home_without_tilde(s@, Seq::empty());
        }
        Ok(s)
    }
}

impl GlobalVars {
    /// A configuration with nothing set.
    pub fn new() -> (r: GlobalVars)
        ensures
            r.config is None,
            r.obsidian_root_path_dir is None,
            r.obsidian_commit_path is None,
            r.template_commit_date_path is None,
            r.template_commit_datetime is None,
    {
        GlobalVars {
            config: None,
            obsidian_root_path_dir: None,
            obsidian_commit_path: None,
            template_commit_date_path: None,
            template_commit_datetime: None,
        }
    }

    /// The vault root, once set.
    pub fn get_obsidian_root_path_dir(&self) -> (r: Option<String>)
        ensures
            r == self.obsidian_root_path_dir,
    {
        self.obsidian_root_path_dir.clone()
    }

    /// The commit directory inside the vault, once set.
    pub fn get_obsidian_commit_path(&self) -> (r: Option<String>)
        ensures
            r == self.obsidian_commit_path,
    {
        self.obsidian_commit_path.clone()
    }

    /// The template of the diary path, once set.
    pub fn get_template_commit_date_path(&self) -> (r: Option<String>)
        ensures
            r == self.template_commit_date_path,
    {
        self.template_commit_date_path.clone()
    }

    /// The template of the commit time, once set.
    pub fn get_template_commit_datetime(&self) -> (r: Option<String>)
        ensures
            r == self.template_commit_datetime,
    {
        self.template_commit_datetime.clone()
    }

    /// Takes the four settings from the configuration: it must hold exactly the sections
    /// "obsidian" and "templates", and in them the keys `root_path_dir`, `commit_path`,
    /// `commit_date_path` and `commit_datetime`. A `~` in the two paths stands for the
    /// home directory; each path is rebuilt from its `/`-separated segments, the vault
    /// root from `/`. On an error nothing is set.
    pub fn set_obsidian_vars(&mut self) -> (r: Result<(), ConfigError>)
        requires
            old(self).config is Some,
        ensures
            final(self).config == old(self).config,
            config_entries(*old(self)).dom().len() != 2 <==> (r is Err && r->Err_0 is WrongSectionCount),
            (config_entries(*old(self)).dom().len() == 2 && config_entries(*old(self)).dom() != section_names())
                <==> (r is Err && r->Err_0 is UnsupportedSection),
            config_entries(*old(self)).dom() == section_names() && !settings_present(config_entries(*old(self)))
                ==> r is Err && r->Err_0 is MissingKey,
            r is Err && r->Err_0 is MissingKey ==> !settings_present(config_entries(*old(self))),
            r is Err ==> *final(self) == *old(self),
            r is Err ==> (r->Err_0 is WrongSectionCount || r->Err_0 is UnsupportedSection
                || r->Err_0 is MissingKey || r->Err_0 is HomeDirUnavailable),
            r is Err && r->Err_0 is HomeDirUnavailable ==> {
                &&& config_entries(*old(self)).dom() == section_names()
                &&& settings_present(config_entries(*old(self)))
                &&& (!lacks(root_setting(config_entries(*old(self)))->Some_0, '~') || !lacks(
                    commit_setting(config_entries(*old(self)))->Some_0,
                    '~',
                ))
            },
            config_entries(*old(self)).dom() == section_names() && settings_present(config_entries(*old(self)))
                && lacks(root_setting(config_entries(*old(self)))->Some_0, '~') && lacks(
                commit_setting(config_entries(*old(self)))->Some_0,
                '~',
            ) ==> r is Ok,
            r is Ok ==> config_entries(*old(self)).dom() == section_names() && settings_present(
                config_entries(*old(self)),
            ),
            r is Ok ==> exists|home: Seq<char>|
                opt_text(final(self).obsidian_root_path_dir) == Some(
                    root_path_spec(with_home(root_setting(config_entries(*old(self)))->Some_0, home)),
                ),
            r is Ok ==> exists|home: Seq<char>|
                opt_text(final(self).obsidian_commit_path) == Some(
                    commit_path_spec(with_home(commit_setting(config_entries(*old(self)))->Some_0, home)),
                ),
            r is Ok ==> opt_text(final(self).template_commit_date_path) == date_path_setting(
                config_entries(*old(self)),
            ),
            r is Ok ==> opt_text(final(self).template_commit_datetime) == datetime_setting(
                config_entries(*old(self)),
            ),
    {
        let ini = self.config.as_ref().unwrap();
        let ghost e = ini.entries();
        let sections = ini_sections(ini);
        proof {
            texts(sections@).unique_seq_to_set();
            reveal_strlit("obsidian");
            reveal_strlit("templates");
            reveal_strlit("root_path_dir");
            reveal_strlit("commit_path");
            reveal_strlit("commit_date_path");
            reveal_strlit("commit_datetime");
        }
        assert("obsidian"@ != "templates"@) by {
            assert("obsidian"@.len() != "templates"@.len());
        }
        let n = sections.len();
        if n != 2 {
            return Err(ConfigError::WrongSectionCount(n));
        }
        let mut i: usize = 0;
        while i < 2
            invariant
                n == 2,
                sections@.len() == 2,
                i <= 2,
                forall|k: int| 0 <= k < i ==> section_names().contains(#[trigger] texts(sections@)[k]),
                e == ini.entries(),
                e == config_entries(*old(self)),
                texts(sections@).to_set() == e.dom(),
                e.dom().len() == 2,
            decreases 2 - i,
        {
            let name = sections[i].as_str();
            if !same_text(name, "obsidian") && !same_text(name, "templates") {
                proof {
                    let t = texts(sections@);
                    assert(t[i as int] == sections@[i as int]@);
                    assert(t.contains(t[i as int]));
                    assert(t.to_set().contains(t[i as int]));
                    assert(!section_names().contains(texts(sections@)[i as int]));
                }
                return Err(ConfigError::UnsupportedSection(sections[i].clone()));
            }
            i = i + 1;
        }
        proof {
            let t = texts(sections@);
            assert(t[0] != t[1]);
            assert(e.dom() =~= section_names()) by {
                assert forall|x: Seq<char>| e.dom().contains(x) <==> section_names().contains(x) by {
                    if e.dom().contains(x) {
                        assert(t.contains(x));
                    }
                    if section_names().contains(x) {
                        assert(section_names().contains(t[0]));
                        assert(section_names().contains(t[1]));
                        if x == t[0] {
                            assert(t.contains(t[0]));
                        } else {
                            assert(x == t[1]);
                            assert(t.contains(t[1]));
                        }
                    }
                }
            }
        }
        let root = match setting(ini, "obsidian", "root_path_dir") {
            Ok(v) => v,
            Err(err) => {
                return Err(err);
            },
        };
        let commit = match setting(ini, "obsidian", "commit_path") {
            Ok(v) => v,
            Err(err) => {
                return Err(err);
            },
        };
        let date_path = match setting(ini, "templates", "commit_date_path") {
            Ok(v) => v,
            Err(err) => {
                return Err(err);
            },
        };
        let datetime = match setting(ini, "templates", "commit_datetime") {
            Ok(v) => v,
            Err(err) => {
                return Err(err);
            },
        };
        let root_home = match expand_if_home(root) {
            Ok(v) => v,
            Err(err) => {
                return Err(err);
            },
        };
        let commit_home = match expand_if_home(commit) {
            Ok(v) => v,
            Err(err) => {
                return Err(err);
            },
        };
        let mut root_base = String::new();
        push_char(&mut root_base, '/');
        let root_path = join_segments(root_base.as_str(), root_home.as_str());
        let commit_path = join_segments("", commit_home.as_str());
        proof {
            reveal_strlit("");
            assert(root_base@ =~= seq!['/']);
            assert(""@ =~= Seq::<char>::empty());
        }
        self.obsidian_root_path_dir = Some(root_path);
        self.obsidian_commit_path = Some(commit_path);
        self.template_commit_date_path = Some(date_path);
        self.template_commit_datetime = Some(datetime);
        Ok(())
    }
}

} // verus!
