//! What the mint daemon decides when it starts: where its files are and what it is keyed by.
use std::path::PathBuf;
use std::str::FromStr;

use bip39::Mnemonic;
use vstd::prelude::*;
use vstd::string::*;

use crate::quote_state::{MintQuoteState, StateUpdate, StateUpdateView};
use crate::router::PaidInvoiceView;

verus! {

/// Why the daemon does not start.
#[derive(Clone, Copy, Debug, PartialEq, Eq, Structural)]
pub enum StartupError {
    UnknownHomeDir,
    ClnSocketUndefined,
}

impl StartupError {
    /// The error in words.
    pub fn message(&self) -> (r: &'static str)
        ensures
            r@ == match *self {
                StartupError::UnknownHomeDir => "Unknown home dir"@,
                StartupError::ClnSocketUndefined => "cln socket not defined"@,
            },
    {
        match self {
            StartupError::UnknownHomeDir => "Unknown home dir",
            StartupError::ClnSocketUndefined => "cln socket not defined",
        }
    }
}

/// A path of the operating system.
#[verifier::external_type_specification]
#[verifier::external_body]
pub struct ExPathBuf(PathBuf);

/// Calls `home::home_dir`. Which directory it gives, and whether it gives one, is the
/// environment's matter: nothing is believed of it.
#[verifier::external_body]
fn home_dir() -> (r: Option<PathBuf>) {
    home::home_dir()
}

/// Whether a call of `home_dir` can return this. A caller learns it only of what such a call
/// returned to it.
pub closed spec fn home_dir_gives(home: Option<PathBuf>) -> bool {
    call_ensures(home_dir, (), home)
}

/// What `home_dir` gives is what a call of it returned, and nothing else.
proof fn lemma_home_dir_gives_what_it_returned(home: Option<PathBuf>)
    ensures
        home_dir_gives(home) <==> call_ensures(home_dir, (), home),
{
}

/// Makes a call.
fn call<T, F: FnOnce() -> T>(f: F) -> (r: T)
    requires
        call_requires(f, ()),
    ensures
        call_ensures(f, (), r),
{
    f()
}

/// Asks the operating system for the home directory.
fn ask_home_dir() -> (r: Option<PathBuf>)
    ensures
        home_dir_gives(r),
{
    call(home_dir)
}

/// A path below a home directory: the directory, and the parts to append to it, in order.
#[derive(Debug, PartialEq, Eq)]
pub struct HomePath<H> {
    pub home: H,
    pub parts: Vec<String>,
}

/// A [`HomePath`] by its parts' texts.
pub struct HomePathView<H> {
    pub home: H,
    pub parts: Seq<Seq<char>>,
}

impl<H> View for HomePath<H> {
    type V = HomePathView<H>;

    open spec fn view(&self) -> HomePathView<H> {
        HomePathView { home: self.home, parts: self.parts@.map_values(|part: String| part@) }
    }
}

/// Where a file is.
#[derive(Debug, PartialEq, Eq)]
pub enum Location<H> {
    /// At this path, as it was written.
    Verbatim(String),
    /// Below the home directory.
    InHome(HomePath<H>),
}

/// A [`Location`] by its texts.
pub enum LocationView<H> {
    Verbatim(Seq<char>),
    InHome(HomePathView<H>),
}

impl<H> View for Location<H> {
    type V = LocationView<H>;

    open spec fn view(&self) -> LocationView<H> {
        match *self {
            Location::Verbatim(path) => LocationView::Verbatim(path@),
            Location::InHome(path) => LocationView::InHome(path@),
        }
    }
}

/// Whether a path is written relative to the home directory.
pub open spec fn is_tilde_path(path: Seq<char>) -> bool {
    path.len() > 0 && path[0] == '~'
}

/// Whether what follows the first two bytes of a path is a text: a path that begins with a tilde
/// is expanded by cutting these off.
pub open spec fn can_cut(path: &str) -> bool {
    vstd::utf8::is_char_boundary(path.spec_bytes(), 2)
}

/// Where a path points to. After a tilde, the second character is taken for the separator and
/// dropped, whatever it is.
pub open spec fn expanded<H>(path: Seq<char>, home: Option<H>) -> Option<LocationView<H>> {
    if !is_tilde_path(path) {
        Some(LocationView::Verbatim(path))
    } else {
        match home {
            Some(home) => Some(
                LocationView::InHome(HomePathView { home, parts: seq![path.skip(2)] }),
            ),
            None => None,
        }
    }
}

/// A location, where there is one, by its texts.
pub open spec fn location_of<H>(location: Option<Location<H>>) -> Option<LocationView<H>> {
    match location {
        Some(location) => Some(location@),
        None => None,
    }
}

/// A text that begins with a tilde and can be cut after two bytes has at least two characters,
/// and the cut leaves all but these.
proof fn lemma_cut(path: Seq<char>)
    requires
        is_tilde_path(path),
        vstd::utf8::is_char_boundary(vstd::utf8::encode_utf8(path), 2),
    ensures
        path.len() >= 2,
        vstd::utf8::encode_utf8(path).subrange(2, vstd::utf8::encode_utf8(path).len() as int)
            == vstd::utf8::encode_utf8(path.skip(2)),
{
    broadcast use vstd::utf8::encode_utf8_valid_utf8;

    let bytes = vstd::utf8::encode_utf8(path);
    let rest = path.drop_first();
    vstd::utf8::encode_utf8_first_scalar(path);
    assert(vstd::utf8::pop_first_scalar(bytes) =~= vstd::utf8::encode_utf8(rest));
    assert(vstd::utf8::is_char_boundary(vstd::utf8::encode_utf8(rest), 1));
    if rest.len() > 0 {
        let rest_bytes = vstd::utf8::encode_utf8(rest);
        vstd::utf8::encode_utf8_first_scalar(rest);
        assert(vstd::utf8::length_of_first_scalar(rest_bytes) == 1) by {
            reveal_with_fuel(vstd::utf8::is_char_boundary, 2);
        }
        assert(vstd::utf8::pop_first_scalar(rest_bytes) =~= vstd::utf8::encode_utf8(
            rest.drop_first(),
        ));
        assert(rest.drop_first() =~= path.skip(2));
        assert(bytes.subrange(2, bytes.len() as int) =~= vstd::utf8::pop_first_scalar(rest_bytes));
    }
}

/// Expands a path, given the home directory.
pub fn expand_path_in<H>(path: &str, home: Option<H>) -> (r: Option<Location<H>>)
    requires
        is_tilde_path(path@) && home is Some ==> can_cut(path),
    ensures
        location_of(r) == expanded(path@, home),
        if path@.len() == 0 || path@[0] != '~' {
            r matches Some(Location::Verbatim(text)) && text@ == path@
        } else {
            match home {
                Some(home) => {
                    &&& r matches Some(Location::InHome(below))
                    &&& below.home == home
                    &&& below.parts.len() == 1
                    &&& below.parts[0]@ == path@.skip(2)
                },
                None => r is None,
            }
        },
{
    if path.is_empty() || path.get_char(0) != '~' {
        return Some(Location::Verbatim(path.to_owned()));
    }
    match home {
        Some(home) => {
            proof {
                lemma_cut(path@);
            }
            let remainder = path.split_at(2).1;
            proof {
                vstd::utf8::encode_utf8_decode_utf8(remainder@);
                vstd::utf8::encode_utf8_decode_utf8(path@.skip(2));
            }
            let mut parts: Vec<String> = Vec::new();
            parts.push(remainder.to_owned());
            let path = HomePath { home, parts };
            assert(path@.parts =~= seq![remainder@]);
            Some(Location::InHome(path))
        },
        None => None,
    }
}

/// Expands a path: a leading tilde stands for the home directory.
pub fn expand_path(path: &str) -> (r: Option<Location<PathBuf>>)
    requires
        is_tilde_path(path@) ==> can_cut(path),
    ensures
        path@.len() == 0 || path@[0] != '~' ==> {
            &&& r matches Some(Location::Verbatim(text))
            &&& text@ == path@
        },
        exists|home: Option<PathBuf>|
            {
                &&& #[trigger] home_dir_gives(home)
                &&& location_of(r) == expanded(path@, home)
                &&& path@.len() > 0 && path@[0] == '~' ==> match home {
                    Some(home) => {
                        &&& r matches Some(Location::InHome(below))
                        &&& below.home == home
                        &&& below.parts.len() == 1
                        &&& below.parts[0]@ == path@.skip(2)
                    },
                    None => r is None,
                }
            },
{
    expand_path_in(path, ask_home_dir())
}

/// The socket of the Lightning node: the configured path expanded. It is undefined where no path
/// is configured and where the path needs a home directory that is not known.
pub open spec fn socket<H>(configured: Option<Seq<char>>, home: Option<H>) -> Result<
    LocationView<H>,
    StartupError,
> {
    match configured {
        Some(path) => match expanded(path, home) {
            Some(location) => Ok(location),
            None => Err(StartupError::ClnSocketUndefined),
        },
        None => Err(StartupError::ClnSocketUndefined),
    }
}

/// The text of an optional path.
pub open spec fn configured_path(path: Option<&str>) -> Option<Seq<char>> {
    match path {
        Some(path) => Some(path@),
        None => None,
    }
}

/// Finds the socket of the Lightning node, given the home directory.
pub fn cln_socket_in<H>(configured: Option<&str>, home: Option<H>) -> (r: Result<
    Location<H>,
    StartupError,
>)
    requires
        configured matches Some(path) ==> is_tilde_path(path@) && home is Some ==> can_cut(path),
    ensures
        crate::response::viewed(r) == socket(configured_path(configured), home),
        match configured {
            Some(path) => if path@.len() == 0 || path@[0] != '~' {
                r matches Ok(Location::Verbatim(text)) && text@ == path@
            } else {
                match home {
                    Some(home) => {
                        &&& r matches Ok(Location::InHome(below))
                        &&& below.home == home
                        &&& below.parts.len() == 1
                        &&& below.parts[0]@ == path@.skip(2)
                    },
                    None => r matches Err(error) && error is ClnSocketUndefined,
                }
            },
            None => r matches Err(error) && error is ClnSocketUndefined,
        },
{
    match configured {
        Some(path) => match expand_path_in(path, home) {
            Some(location) => Ok(location),
            None => Err(StartupError::ClnSocketUndefined),
        },
        None => Err(StartupError::ClnSocketUndefined),
    }
}

/// Finds the socket of the Lightning node.
pub fn cln_socket(configured: Option<&str>) -> (r: Result<Location<PathBuf>, StartupError>)
    requires
        configured matches Some(path) ==> is_tilde_path(path@) ==> can_cut(path),
    ensures
        configured is None ==> (r matches Err(error) && error is ClnSocketUndefined),
        configured matches Some(path) ==> (path@.len() == 0 || path@[0] != '~') ==> {
            &&& r matches Ok(Location::Verbatim(text))
            &&& text@ == path@
        },
        exists|home: Option<PathBuf>|
            {
                &&& #[trigger] home_dir_gives(home)
                &&& crate::response::viewed(r) == socket(configured_path(configured), home)
                &&& configured matches Some(path) ==> path@.len() > 0 && path@[0] == '~'
                    ==> match home {
                    Some(home) => {
                        &&& r matches Ok(Location::InHome(below))
                        &&& below.home == home
                        &&& below.parts.len() == 1
                        &&& below.parts[0]@ == path@.skip(2)
                    },
                    None => r matches Err(error) && error is ClnSocketUndefined,
                }
            },
{
    cln_socket_in(configured, ask_home_dir())
}

/// The daemon's directory, below the home directory.
pub open spec fn work_dir_of<H>(home: Option<H>) -> Result<HomePathView<H>, StartupError> {
    match home {
        Some(home) => Ok(HomePathView { home, parts: seq![".cdk-mintd"@] }),
        None => Err(StartupError::UnknownHomeDir),
    }
}

/// Finds the daemon's directory, given the home directory.
pub fn work_dir_in<H>(home: Option<H>) -> (r: Result<HomePath<H>, StartupError>)
    ensures
        crate::response::viewed(r) == work_dir_of(home),
        match home {
            Some(home) => {
                &&& r matches Ok(dir)
                &&& dir.home == home
                &&& dir.parts.len() == 1
                &&& dir.parts[0]@ == ".cdk-mintd"@
            },
            None => r matches Err(error) && error is UnknownHomeDir,
        },
{
    match home {
        Some(home) => {
            let mut parts: Vec<String> = Vec::new();
            parts.push(".cdk-mintd".to_owned());
            let path = HomePath { home, parts };
            assert(path@.parts =~= seq![".cdk-mintd"@]);
            Ok(path)
        },
        None => Err(StartupError::UnknownHomeDir),
    }
}

/// Finds the daemon's directory.
pub fn work_dir() -> (r: Result<HomePath<PathBuf>, StartupError>)
    ensures
        exists|home: Option<PathBuf>|
            {
                &&& #[trigger] home_dir_gives(home)
                &&& crate::response::viewed(r) == work_dir_of(home)
                &&& match home {
                    Some(home) => {
                        &&& r matches Ok(dir)
                        &&& dir.home == home
                        &&& dir.parts.len() == 1
                        &&& dir.parts[0]@ == ".cdk-mintd"@
                    },
                    None => r matches Err(error) && error is UnknownHomeDir,
                }
            },
{
    work_dir_in(ask_home_dir())
}

/// The file that the daemon is configured by.
#[derive(Debug, PartialEq, Eq)]
pub enum ConfigFile<H> {
    /// The file named on the command line.
    Given(H),
    /// The file in the daemon's directory.
    InWorkDir(HomePath<H>),
}

/// A [`ConfigFile`] by its texts.
pub enum ConfigFileView<H> {
    Given(H),
    InWorkDir(HomePathView<H>),
}

impl<H> View for ConfigFile<H> {
    type V = ConfigFileView<H>;

    open spec fn view(&self) -> ConfigFileView<H> {
        match *self {
            ConfigFile::Given(path) => ConfigFileView::Given(path),
            ConfigFile::InWorkDir(path) => ConfigFileView::InWorkDir(path@),
        }
    }
}

/// The configuration file: the one named on the command line, else `config.toml` in the daemon's
/// directory.
pub open spec fn config_of<H>(arg: Option<H>, home: Option<H>) -> Result<
    ConfigFileView<H>,
    StartupError,
> {
    match arg {
        Some(path) => Ok(ConfigFileView::Given(path)),
        None => match work_dir_of(home) {
            Ok(dir) => Ok(
                ConfigFileView::InWorkDir(
                    HomePathView { home: dir.home, parts: dir.parts.push("config.toml"@) },
                ),
            ),
            Err(error) => Err(error),
        },
    }
}

/// Finds the configuration file, given the home directory.
pub fn config_file_in<H>(arg: Option<H>, home: Option<H>) -> (r: Result<
    ConfigFile<H>,
    StartupError,
>)
    ensures
        crate::response::viewed(r) == config_of(arg, home),
        match (arg, home) {
            (Some(path), _) => r matches Ok(ConfigFile::Given(file)) && file == path,
            (None, Some(home)) => {
                &&& r matches Ok(ConfigFile::InWorkDir(file))
                &&& file.home == home
                &&& file.parts.len() == 2
                &&& file.parts[0]@ == ".cdk-mintd"@
                &&& file.parts[1]@ == "config.toml"@
            },
            (None, None) => r matches Err(error) && error is UnknownHomeDir,
        },
{
    match arg {
        Some(path) => Ok(ConfigFile::Given(path)),
        None => match work_dir_in(home) {
            Ok(dir) => {
                let ghost before = dir@;
                let mut dir = dir;
                dir.parts.push("config.toml".to_owned());
                assert(dir@.parts =~= before.parts.push("config.toml"@));
                Ok(ConfigFile::InWorkDir(dir))
            },
            Err(error) => Err(error),
        },
    }
}

/// Finds the configuration file. The home directory matters only where no file was named; it is
/// then the one that the operating system gives.
pub fn config_file(arg: Option<PathBuf>) -> (r: Result<ConfigFile<PathBuf>, StartupError>)
    ensures
        arg matches Some(path) ==> (r matches Ok(ConfigFile::Given(file)) && file == path),
        exists|home: Option<PathBuf>|
            {
                &&& #[trigger] home_dir_gives(home)
                &&& crate::response::viewed(r) == config_of(arg, home)
                &&& arg is None ==> match home {
                    Some(home) => {
                        &&& r matches Ok(ConfigFile::InWorkDir(file))
                        &&& file.home == home
                        &&& file.parts.len() == 2
                        &&& file.parts[0]@ == ".cdk-mintd"@
                        &&& file.parts[1]@ == "config.toml"@
                    },
                    None => r matches Err(error) && error is UnknownHomeDir,
                }
            },
{
    config_file_in(arg, ask_home_dir())
}

/// The database: the one named on the command line, else the configured one.
pub fn database_path<P>(arg: Option<P>, configured: P) -> (r: P)
    ensures
        r == match arg {
            Some(path) => path,
            None => configured,
        },
{
    match arg {
        Some(path) => path,
        None => configured,
    }
}

/// The seed that a mnemonic and a passphrase give, or the reason why the text is no mnemonic.
pub uninterp spec fn bip39_seed(mnemonic: Seq<char>, passphrase: Seq<char>) -> Result<
    Seq<u8>,
    Seq<char>,
>;

/// Reads a mnemonic with `Mnemonic::from_str` and hands out its `to_seed_normalized`, or the text
/// of the error. Believed of them: they do not panic, and what they give depends on the two texts
/// alone.
#[verifier::external_body]
fn mnemonic_seed(mnemonic: &str, passphrase: &str) -> (r: Result<[u8; 64], String>)
    ensures
        match r {
            Ok(seed) => bip39_seed(mnemonic@, passphrase@) == Ok::<Seq<u8>, Seq<char>>(seed@),
            Err(reason) => bip39_seed(mnemonic@, passphrase@) == Err::<Seq<u8>, Seq<char>>(reason@),
        },
{
    match Mnemonic::from_str(mnemonic) {
        Ok(words) => Ok(words.to_seed_normalized(passphrase)),
        Err(error) => Err(error.to_string()),
    }
}

/// Derives the mint's seed from the configured mnemonic, with an empty passphrase.
pub fn mint_seed(mnemonic: &str) -> (r: Result<[u8; 64], String>)
    ensures
        match r {
            Ok(seed) => bip39_seed(mnemonic@, ""@) == Ok::<Seq<u8>, Seq<char>>(seed@),
            Err(reason) => bip39_seed(mnemonic@, ""@) == Err::<Seq<u8>, Seq<char>>(reason@),
        },
{
    mnemonic_seed(mnemonic, "")
}

/// What the daemon does when an invoice is paid: where the mint could be asked, the same as the
/// HTTP interface; where it could not, nothing.
pub open spec fn due_quietly<E>(found: Result<Option<Seq<char>>, E>) -> Option<StateUpdateView> {
    match crate::router::due(found) {
        PaidInvoiceView::MarkPaid(update) => Some(update),
        PaidInvoiceView::NoQuote => None,
        PaidInvoiceView::Failed(_) => None,
    }
}

/// Says which update is due when an invoice is paid, given the id of the quote that the mint
/// found for its payment request.
pub fn handle_paid_invoice<E>(found: Result<Option<String>, E>) -> (r: Option<StateUpdate>)
    ensures
        match r {
            Some(update) => due_quietly(crate::router::search(found)) == Some(update@),
            None => due_quietly(crate::router::search(found)) is None,
        },
        match found {
            Ok(Some(quote_id)) => {
                &&& r matches Some(update)
                &&& update.quote_id@ == quote_id@
                &&& update.state is Paid
            },
            _ => r is None,
        },
{
    match found {
        Ok(Some(quote_id)) => Some(StateUpdate { quote_id, state: MintQuoteState::Paid }),
        _ => None,
    }
}

/// A paid invoice marks a quote as paid exactly where the mint found one for it. The daemon and
/// the HTTP interface mark the same quotes; they differ only in that the HTTP interface reports a
/// search that failed.
pub proof fn law_daemon_and_router_agree<E>(found: Result<Option<Seq<char>>, E>)
    ensures
        due_quietly(found) is Some <==> found matches Ok(Some(_)),
        due_quietly(found) matches Some(update) ==> update.state == MintQuoteState::Paid && found
            == Ok::<Option<Seq<char>>, E>(Some(update.quote_id)),
        due_quietly(found) matches Some(update) ==> crate::router::due(found)
            == PaidInvoiceView::<E>::MarkPaid(update),
        due_quietly(found) is None ==> !(crate::router::due(found) is MarkPaid),
        found matches Err(error) ==> crate::router::due(found) == PaidInvoiceView::Failed(error),
{
}

/// A path that begins with a tilde and a separator is the home directory with the rest of the path
/// as the one part appended to it. Where the rest is relative this is a path below the home
/// directory; a rest that begins with a separator takes the home directory's place when it is
/// appended.
pub proof fn law_tilde_stands_for_home<H>(rest: Seq<char>, home: H)
    ensures
        expanded("~/"@ + rest, Some(home)) == Some(
            LocationView::InHome(HomePathView { home, parts: seq![rest] }),
        ),
        expanded("~/"@ + rest, None::<H>) is None,
{
    reveal_strlit("~/");
    assert(("~/"@ + rest).skip(2) =~= rest);
}

/// Whatever character follows the tilde, it is dropped, and what follows it is the one part that is
/// appended to the home directory.
pub proof fn law_second_character_is_dropped<H>(second: char, rest: Seq<char>, home: H)
    ensures
        expanded(seq!['~', second] + rest, Some(home)) matches Some(LocationView::InHome(path))
            && path.home == home && path.parts == seq![rest],
{
    assert((seq!['~', second] + rest).skip(2) =~= rest);
}

/// A path is expanded wherever it has no leading tilde or the home directory is known, and nowhere
/// else; it depends on the home directory exactly where it has a leading tilde.
pub proof fn law_only_tilde_needs_home<H>(path: Seq<char>, home: Option<H>, other: H)
    ensures
        expanded(path, home) is None <==> path.len() > 0 && path[0] == '~' && home is None,
        home matches Some(home) ==> home != other ==> (expanded(path, Some(home)) != expanded(
            path,
            Some(other),
        ) <==> path.len() > 0 && path[0] == '~'),
{
}

/// A path without a leading tilde is left as it was written, whatever the home directory is and
/// whether or not it is known.
pub proof fn law_other_paths_are_left_as_written<H>(path: Seq<char>, home: Option<H>)
    requires
        path.len() == 0 || path[0] != '~',
    ensures
        expanded(path, home) == Some(LocationView::<H>::Verbatim(path)),
{
}

/// The socket of the Lightning node is where the configured path points to; it is undefined exactly
/// where no path is configured or the path needs a home directory that is not known.
pub proof fn law_socket_is_the_configured_path<H>(configured: Option<Seq<char>>, home: Option<H>)
    ensures
        match socket(configured, home) {
            Ok(location) => {
                &&& configured matches Some(path)
                &&& expanded(path, home) == Some(location)
            },
            Err(error) => {
                &&& error == StartupError::ClnSocketUndefined
                &&& configured matches Some(path) ==> path.len() > 0 && path[0] == '~' && home
                    is None
            },
        },
{
}

/// The daemon's directory is `.cdk-mintd` in the home directory, and is unknown exactly where the
/// home directory is. Different home directories give different directories.
pub proof fn law_daemon_lives_in_the_home_directory<H>(home: H, other: H)
    ensures
        work_dir_of(Some(home)) matches Ok(dir) && dir.home == home && dir.parts
            == seq![".cdk-mintd"@],
        work_dir_of(None::<H>) == Err::<HomePathView<H>, StartupError>(
            StartupError::UnknownHomeDir,
        ),
        work_dir_of(Some(home)) == work_dir_of(Some(other)) <==> home == other,
{
}

/// Where no file is named and the home directory is known, the configuration file is `config.toml`
/// in the daemon's directory, below that very home directory; where neither is, there is none.
pub proof fn law_config_is_in_the_home_directory<H>(home: Option<H>)
    ensures
        match home {
            Some(dir) => {
                &&& config_of(None, home) matches Ok(ConfigFileView::InWorkDir(file))
                &&& file.home == dir
                &&& file.parts.len() == 2
                &&& file.parts[0] == ".cdk-mintd"@
                &&& file.parts[1] == "config.toml"@
            },
            None => config_of(None, home) == Err::<ConfigFileView<H>, StartupError>(
                StartupError::UnknownHomeDir,
            ),
        },
{
}

/// The path that a location comes to, where `read` reads a path from its text and `append` appends
/// a part to a path.
pub open spec fn path_at<H>(
    location: LocationView<H>,
    read: spec_fn(Seq<char>) -> H,
    append: spec_fn(H, Seq<char>) -> H,
) -> H {
    match location {
        LocationView::Verbatim(text) => read(text),
        LocationView::InHome(path) => path.parts.fold_left(path.home, append),
    }
}

/// A path `~/rest` comes to the home directory with the rest appended to it, and to expand the
/// text of that path changes nothing: it comes to the same path, whatever the home directory then
/// is. The text is one from which the path is read again, and has no leading tilde, as that of an
/// absolute path has none.
pub proof fn law_expanding_twice_changes_nothing<H>(
    rest: Seq<char>,
    home: H,
    later: Option<H>,
    text: Seq<char>,
    read: spec_fn(Seq<char>) -> H,
    append: spec_fn(H, Seq<char>) -> H,
)
    requires
        read(text) == append(home, rest),
        text.len() == 0 || text[0] != '~',
    ensures
        expanded("~/"@ + rest, Some(home)) is Some,
        path_at(expanded("~/"@ + rest, Some(home))->0, read, append) == append(home, rest),
        expanded(text, later) is Some,
        path_at(expanded(text, later)->0, read, append) == append(home, rest),
{
    law_tilde_stands_for_home(rest, home);
    reveal_with_fuel(Seq::fold_left, 2);
    assert(seq![rest].drop_last() =~= seq![]);
}

/// A file named on the command line is used whatever the home directory is.
pub proof fn law_named_config_needs_no_home<H>(path: H, home: Option<H>)
    ensures
        config_of(Some(path), home) == Ok::<ConfigFileView<H>, StartupError>(
            ConfigFileView::Given(path),
        ),
{
}

} // verus!
