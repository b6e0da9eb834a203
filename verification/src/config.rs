//! The store of remote configurations, the options of a run, and what the
//! program decides while it starts.

use crate::errors::{ErrorView, GalionError};
use crate::rclone::Rclone;
use crate::remote::{ConfigOrigin, RemoteConfiguration, RemoteView};
use crate::text::{clone_option, joined, option_text, push_char};
use rand::Rng;
use vstd::prelude::*;
use vstd::string::*;

verus! {

/// Name of the program.
pub const APP_NAME: &'static str = "galion";

/// The ship of the banner.
pub const GALION: &'static str = "    _~\n _~ )_)_~\n )_))_))_)\n _!__!__!_\n \\______t/";

/// The sea of the banner.
pub const WAVES: &'static str = "~~~~~~~~~~~~";

/// The mathematical values of a list of remote configurations.
pub open spec fn remote_views(remotes: Seq<RemoteConfiguration>) -> Seq<RemoteView> {
    Seq::new(remotes.len(), |i: int| remotes[i]@)
}

/// The user-defined configurations among `remotes`, in order.
pub open spec fn user_defined(remotes: Seq<RemoteView>) -> Seq<RemoteView>
    decreases remotes.len(),
{
    if remotes.len() == 0 {
        Seq::empty()
    } else if remotes.last().origin == ConfigOrigin::GalionConfig {
        user_defined(remotes.drop_last()).push(remotes.last())
    } else {
        user_defined(remotes.drop_last())
    }
}

/// Whether a configuration named `name` is among `remotes`.
pub open spec fn has_name(remotes: Seq<RemoteView>, name: Seq<char>) -> bool {
    exists|i: int| 0 <= i < remotes.len() && (#[trigger] remotes[i]).name == name
}

/// The store of remote configurations and the path of the file that keeps
/// it.
#[derive(Debug, PartialEq, Eq)]
pub struct GalionConfig {
    /// The remote configurations, in the order in which they are shown.
    pub remote_configurations: Vec<RemoteConfiguration>,
    /// Path of the configuration file.
    pub config_path: String,
}

/// The mathematical value of a [`GalionConfig`].
pub struct ConfigView {
    pub remotes: Seq<RemoteView>,
    pub path: Seq<char>,
}

impl View for GalionConfig {
    type V = ConfigView;

    open spec fn view(&self) -> ConfigView {
        ConfigView { remotes: remote_views(self.remote_configurations@), path: self.config_path@ }
    }
}

impl Default for GalionConfig {
    fn default() -> (config: Self)
        ensures
            config@.remotes == Seq::<RemoteView>::empty(),
            config@.path == Seq::<char>::empty(),
    {
        let config = GalionConfig { remote_configurations: Vec::new(), config_path: String::new() };
        assert(config@.remotes =~= Seq::<RemoteView>::empty());
        config
    }
}

impl Clone for GalionConfig {
    fn clone(&self) -> (copy: Self)
        ensures
            copy@ == self@,
    {
        let mut remotes: Vec<RemoteConfiguration> = Vec::new();
        let mut i: usize = 0;
        while i < self.remote_configurations.len()
            invariant
                i <= self.remote_configurations.len(),
                remotes.len() == i,
                forall|j: int| 0 <= j < i ==> (#[trigger] remotes@[j])@ == self.remote_configurations@[j]@,
            decreases self.remote_configurations.len() - i,
        {
            remotes.push(self.remote_configurations[i].clone());
            i = i + 1;
        }
        let copy = GalionConfig {
            remote_configurations: remotes,
            config_path: self.config_path.clone(),
        };
        assert(copy@.remotes =~= self@.remotes);
        copy
    }
}

impl GalionConfig {
    /// The remote configurations.
    pub fn remotes(&self) -> (remotes: &[RemoteConfiguration])
        ensures
            remote_views(remotes@) == self@.remotes,
    {
        self.remote_configurations.as_slice()
    }

    /// The configurations that are written to the configuration file: the
    /// user-defined ones, in order.
    pub fn remotes_to_save(&self) -> (kept: Vec<RemoteConfiguration>)
        ensures
            remote_views(kept@) == user_defined(self@.remotes),
    {
        let mut kept: Vec<RemoteConfiguration> = Vec::new();
        let mut i: usize = 0;
        assert(self@.remotes.take(0) =~= Seq::<RemoteView>::empty());
        assert(remote_views(kept@) =~= Seq::<RemoteView>::empty());
        while i < self.remote_configurations.len()
            invariant
                i <= self.remote_configurations.len(),
                remote_views(kept@) == user_defined(self@.remotes.take(i as int)),
            decreases self.remote_configurations.len() - i,
        {
            let ghost before = remote_views(kept@);
            proof {
                let next = self@.remotes.take(i + 1);
                assert(next.drop_last() =~= self@.remotes.take(i as int));
                assert(next.last() == self.remote_configurations@[i as int]@);
            }
            if self.remote_configurations[i].config_origin == ConfigOrigin::GalionConfig {
                kept.push(self.remote_configurations[i].clone());
                assert(remote_views(kept@) =~= before.push(self.remote_configurations@[i as int]@));
            }
            i = i + 1;
        }
        assert(self@.remotes.take(self@.remotes.len() as int) =~= self@.remotes);
        kept
    }

    /// Whether a configuration named `name` is in the store.
    pub fn has_remote_named(&self, name: &str) -> (found: bool)
        ensures
            found == has_name(self@.remotes, name@),
    {
        let wanted = String::from_str(name);
        let mut i: usize = 0;
        while i < self.remote_configurations.len()
            invariant
                i <= self.remote_configurations.len(),
                wanted@ == name@,
                forall|j: int| 0 <= j < i ==> (#[trigger] self@.remotes[j]).name != name@,
            decreases self.remote_configurations.len() - i,
        {
            if self.remote_configurations[i].remote_name == wanted {
                assert(self@.remotes[i as int].name == name@);
                return true;
            }
            i = i + 1;
        }
        false
    }
}

/// The options of a run.
#[derive(Debug, PartialEq, Eq)]
pub struct GalionArgs {
    /// Path of the configuration file.
    pub config: Option<String>,
    /// Path of the engine's configuration file.
    pub rclone_config: Option<String>,
    /// Whether the engine may ask for a password.
    pub rclone_ask_password: bool,
    /// Whether the banner stays hidden.
    pub hide_banner: bool,
    /// Whether the configuration file is rewritten at start.
    pub auto_update_config: bool,
    /// Whether a remote of the engine is skipped when the store has one of
    /// that name.
    pub ignore_duplicate_remote: bool,
}

impl Clone for GalionArgs {
    fn clone(&self) -> (copy: Self)
        ensures
            option_text(copy.config) == option_text(self.config),
            option_text(copy.rclone_config) == option_text(self.rclone_config),
            copy.rclone_ask_password == self.rclone_ask_password,
            copy.hide_banner == self.hide_banner,
            copy.auto_update_config == self.auto_update_config,
            copy.ignore_duplicate_remote == self.ignore_duplicate_remote,
    {
        GalionArgs {
            config: clone_option(&self.config),
            rclone_config: clone_option(&self.rclone_config),
            rclone_ask_password: self.rclone_ask_password,
            hide_banner: self.hide_banner,
            auto_update_config: self.auto_update_config,
            ignore_duplicate_remote: self.ignore_duplicate_remote,
        }
    }
}

impl Default for GalionArgs {
    fn default() -> (args: Self)
        ensures
            args.config is None,
            args.rclone_config is None,
            !args.rclone_ask_password,
            !args.hide_banner,
            !args.auto_update_config,
            !args.ignore_duplicate_remote,
    {
        GalionArgs {
            config: None,
            rclone_config: None,
            rclone_ask_password: false,
            hide_banner: false,
            auto_update_config: false,
            ignore_duplicate_remote: false,
        }
    }
}

/// The program: its options, its store, and the engine.
#[derive(Debug)]
pub struct GalionApp {
    /// The options of the run.
    pub galion_args: GalionArgs,
    /// The store.
    pub config: GalionConfig,
    /// The engine.
    pub rclone: Rclone,
}

/// The banner: the ship above `waves`.
pub open spec fn spec_logo(waves: Seq<char>) -> Seq<char> {
    GALION@ + seq!['\n'] + waves
}

/// The sea with a ripple of three characters that starts at `at`.
pub open spec fn rippled(waves: Seq<char>, at: int) -> Seq<char> {
    waves.update(at, '-').update(at + 1, '=').update(at + 2, '-')
}

/// The sea of the banner for a roll of the die and a place: a roll above 5
/// puts a ripple at the place.
pub open spec fn spec_waves(roll: int, at: int) -> Seq<char> {
    if roll > 5 {
        rippled(WAVES@, at)
    } else {
        WAVES@
    }
}

/// The error raised when the engine's configuration cannot be read.
pub open spec fn spec_dump_config_error(ask_password: bool, cause: ErrorView) -> ErrorView {
    ErrorView::plain(
        "Failed to get the rclone configuration. Most likely the configuration is encrypted "@
            + (if ask_password {
            " and the decryption failed"@
        } else {
            "and you can retry with the --rclone-ask-password flag"@
        }) + " - "@ + cause.text(),
    )
}

/// The error raised when there is no remote at all.
pub open spec fn spec_no_remote_error(path: Seq<char>) -> ErrorView {
    ErrorView::plain(
        "No remote found in rclone 'config/listremotes' and in the galion config at "@ + path
            + " - please add remote with rclone CLI"@,
    )
}

/// `Rng::random_range` on the thread's generator: some number from `low` up
/// to, not including, `high`. The generator panics on an empty range, which
/// is excluded here.
#[verifier::external_body]
fn random_between(low: usize, high: usize) -> (drawn: usize)
    requires
        low < high,
    ensures
        low <= drawn < high,
{
    rand::rng().random_range(low..high)
}

impl GalionApp {
    /// The program with its options and its store; the engine is not
    /// started.
    pub fn new(galion_args: GalionArgs, config: GalionConfig) -> (app: Self)
        ensures
            app.galion_args == galion_args,
            app.config == config,
            !app.rclone.is_initialized(),
    {
        GalionApp { galion_args, config, rclone: Rclone::new() }
    }

    /// The path of the configuration file: the one given in the options,
    /// otherwise the default one. Without a default path, because the home
    /// directory is unknown, there is none, whatever the options say.
    pub fn config_path(galion_args: &GalionArgs, default_path: Option<String>) -> (path: Result<
        String,
        GalionError,
    >)
        ensures
            match path {
                Ok(found) => default_path is Some && found@ == (match galion_args.config {
                    Some(given) => given@,
                    None => default_path->0@,
                }),
                Err(error) => default_path is None && error@ == ErrorView::plain(
                    "Unable to get home directory"@,
                ),
            },
    {
        match default_path {
            None => Err(GalionError::new("Unable to get home directory")),
            Some(default) => match &galion_args.config {
                Some(given) => Ok(given.clone()),
                None => Ok(default),
            },
        }
    }

    /// The banner.
    pub fn logo() -> (banner: String)
        ensures
            banner@ == spec_logo(WAVES@),
    {
        let mut banner = String::from_str(GALION);
        push_char(&mut banner, '\n');
        banner.append(WAVES);
        assert(GALION@.push('\n') =~= GALION@ + seq!['\n']);
        banner
    }

    /// The banner with calm waves.
    pub fn logo_waves() -> (banner: String)
        ensures
            banner@ == spec_logo(WAVES@),
    {
        GalionApp::logo()
    }

    /// The banner for a roll of the die and a place in the sea.
    pub fn logo_rolled(roll: usize, at: usize) -> (banner: String)
        requires
            roll > 5 ==> 2 <= at < 9,
        ensures
            banner@ == spec_logo(spec_waves(roll as int, at as int)),
    {
        proof {
            reveal_strlit("~~~~~~~~~~~~");
        }
        let mut banner = String::from_str(GALION);
        push_char(&mut banner, '\n');
        assert(GALION@.push('\n') =~= GALION@ + seq!['\n']);
        if roll > 5 {
            let ghost head = banner@;
            let mut i: usize = 0;
            while i < 12
                invariant
                    i <= 12,
                    2 <= at < 9,
                    WAVES@.len() == 12,
                    banner@ == head + rippled(WAVES@, at as int).take(i as int),
                    forall|j: int| 0 <= j < 12 ==> WAVES@[j] == '~',
                decreases 12 - i,
            {
                let ghost before = banner@;
                let c = if i == at || i == at + 2 {
                    '-'
                } else if i == at + 1 {
                    '='
                } else {
                    '~'
                };
                push_char(&mut banner, c);
                proof {
                    let sea = rippled(WAVES@, at as int);
                    assert(sea[i as int] == c);
                    assert(sea.take(i + 1) =~= sea.take(i as int).push(c));
                    assert(banner@ =~= head + sea.take(i + 1));
                }
                i = i + 1;
            }
            proof {
                let sea = rippled(WAVES@, at as int);
                assert(sea.take(12) =~= sea);
            }
        } else {
            banner.append(WAVES);
        }
        banner
    }

    /// The banner with waves as chance has them: mostly calm, at times with
    /// a ripple somewhere off the ends.
    pub fn logo_random_waves() -> (banner: String)
        ensures
            banner@ == spec_logo(WAVES@) || exists|at: int|
                2 <= at < 9 && banner@ == spec_logo(#[trigger] rippled(WAVES@, at)),
    {
        let roll = random_between(0, 10);
        if roll > 5 {
            let at = random_between(2, 9);
            let banner = GalionApp::logo_rolled(roll, at);
            assert(banner@ == spec_logo(rippled(WAVES@, at as int)));
            banner
        } else {
            GalionApp::logo_rolled(roll, 0)
        }
    }

    /// The banner to print at start, unless it is hidden.
    pub fn banner(&self) -> (banner: Option<String>)
        ensures
            match banner {
                Some(text) => !self.galion_args.hide_banner && text@ == spec_logo(WAVES@),
                None => self.galion_args.hide_banner,
            },
    {
        if self.galion_args.hide_banner {
            None
        } else {
            Some(GalionApp::logo())
        }
    }

    /// The options that the engine is given at start, each a JSON object
    /// as text: it logs critical messages only and, unless it is allowed to
    /// ask for a password, never asks for one.
    pub fn engine_options(&self) -> (options: Vec<String>)
        ensures
            options@.len() == (if self.galion_args.rclone_ask_password {
                1nat
            } else {
                2nat
            }),
            options@[0]@ == "{\"main\":{\"LogLevel\":\"CRITICAL\"}}"@,
            !self.galion_args.rclone_ask_password ==> options@[1]@
                == "{\"main\":{\"AskPassword\":false}}"@,
    {
        let mut options: Vec<String> = Vec::new();
        options.push(String::from_str("{\"main\":{\"LogLevel\":\"CRITICAL\"}}"));
        if !self.galion_args.rclone_ask_password {
            options.push(String::from_str("{\"main\":{\"AskPassword\":false}}"));
        }
        options
    }

    /// The error raised when the engine's configuration cannot be read
    /// because of `cause`.
    pub fn dump_config_error(&self, cause: &GalionError) -> (error: GalionError)
        ensures
            error@ == spec_dump_config_error(self.galion_args.rclone_ask_password, cause@),
    {
        let mut text = String::from_str(
            "Failed to get the rclone configuration. Most likely the configuration is encrypted ",
        );
        if self.galion_args.rclone_ask_password {
            text.append(" and the decryption failed");
        } else {
            text.append("and you can retry with the --rclone-ask-password flag");
        }
        text.append(" - ");
        let cause_text = cause.to_string();
        text.append(cause_text.as_str());
        GalionError::new(text.as_str())
    }

    /// Whether a remote of the engine named `name` is taken into the store:
    /// it is, unless duplicates are ignored and the store has a
    /// configuration of that name.
    pub fn wants_remote(&self, name: &str) -> (wanted: bool)
        ensures
            wanted == !(self.galion_args.ignore_duplicate_remote && has_name(
                self.config@.remotes,
                name@,
            )),
    {
        !(self.config.has_remote_named(name) && self.galion_args.ignore_duplicate_remote)
    }

    /// Takes a remote of the engine into the store, at its end: it has no
    /// source, the destination given, and the engine as its origin.
    pub fn add_rclone_remote(&mut self, name: String, remote_dest: Option<String>)
        ensures
            final(self).config@.remotes == old(self).config@.remotes.push(
                RemoteView {
                    name: name@,
                    src: None,
                    dest: option_text(remote_dest),
                    origin: ConfigOrigin::RcloneConfig,
                },
            ),
            final(self).config@.path == old(self).config@.path,
            final(self).galion_args == old(self).galion_args,
            final(self).rclone == old(self).rclone,
    {
        let remote = RemoteConfiguration {
            remote_name: name,
            remote_src: None,
            remote_dest,
            config_origin: ConfigOrigin::RcloneConfig,
        };
        let ghost before = self.config@.remotes;
        self.config.remote_configurations.push(remote);
        assert(self.config@.remotes =~= before.push(remote@));
    }

    /// Whether the store is written to its file at the end of the start.
    pub fn saves_at_start(&self) -> (saves: bool)
        ensures
            saves == self.galion_args.auto_update_config,
    {
        self.galion_args.auto_update_config
    }

    /// Ends the start of the program: fails if the store holds no remote.
    pub fn check_remotes(&self) -> (checked: Result<(), GalionError>)
        ensures
            checked is Ok <==> self.config@.remotes.len() > 0,
            checked matches Err(error) ==> error@ == spec_no_remote_error(self.config@.path),
    {
        if self.config.remote_configurations.len() == 0 {
            let mut text = joined(
                "No remote found in rclone 'config/listremotes' and in the galion config at ",
                self.config.config_path.as_str(),
            );
            text.append(" - please add remote with rclone CLI");
            Err(GalionError::new(text.as_str()))
        } else {
            Ok(())
        }
    }
}

} // verus!
