//! Server settings: the application and database configuration, and the
//! command-line overrides laid over the configuration sources.

use vstd::prelude::*;


verus! {

/// All settings of the server.
#[derive(Clone, Debug)]
pub struct Settings {
    /// Log level
    pub log_level: String,
    /// Application settings
    pub app: AppConfig,
    /// Database settings
    pub db: DatabaseConfig,
}

/// Application settings.
#[derive(Clone, Debug)]
pub struct AppConfig {
    /// Address the server listens on
    pub host: String,
    /// Port the server listens on
    pub port: u16,
    /// Address of the web frontend
    pub frontend_url: String,
    /// Origins allowed to call the server
    pub allowed_origins: Vec<String>,
}

/// Which database to use, and where it is.
#[derive(Clone, Debug)]
pub enum DatabaseConfig {
    /// SQLite database
    Sqlite {
        /// Connection URL
        url: String,
    },
    /// PostgreSQL database
    Postgresql {
        /// Connection URL
        url: String,
    },
}

/// Command-line arguments of the server.
#[derive(Clone, Debug)]
pub struct Cli {
    /// Configuration file path
    pub config: Option<String>,
    /// Server address (override configuration file)
    pub host: Option<String>,
    /// Server port (override configuration file)
    pub port: Option<u16>,
    /// Log level
    pub log_level: String,
}

impl DatabaseConfig {
    /// The connection URL held by either kind of database.
    pub open spec fn url_view(&self) -> Seq<char> {
        match self {
            DatabaseConfig::Sqlite { url } => url@,
            DatabaseConfig::Postgresql { url } => url@,
        }
    }

    /// The connection URL of the configured database.
    pub fn url(&self) -> (u: String)
        ensures
            u@ == self.url_view(),
    {
        match self {
            DatabaseConfig::Sqlite { url } => url.clone(),
            DatabaseConfig::Postgresql { url } => url.clone(),
        }
    }
}

/// The URL used for SQLite when the configuration names none.
pub open spec fn sqlite_default_url() -> Seq<char> {
    "sqlite://./data.db"@
}

/// The URL used for SQLite when the configuration names none.
pub fn default_sqlite_url() -> (u: String)
    ensures
        u@ == sqlite_default_url(),
{
    String::from_str("sqlite://./data.db")
}

/// A value laid over a configuration key.
#[derive(Clone, Debug)]
pub enum OverrideValue {
    /// A string
    Text(String),
    /// A 64-bit signed integer
    Integer(i64),
}

/// A configuration key together with the value laid over it.
#[derive(Clone, Debug)]
pub struct ConfigOverride {
    /// Dotted configuration key
    pub key: String,
    /// Value laid over the key
    pub value: OverrideValue,
}

/// An override value as the contracts see it.
pub enum OverrideView {
    /// A string
    Text(Seq<char>),
    /// A 64-bit signed integer
    Integer(i64),
}

impl OverrideValue {
    /// The value as the contracts see it.
    pub open spec fn view_value(&self) -> OverrideView {
        match self {
            OverrideValue::Text(s) => OverrideView::Text(s@),
            OverrideValue::Integer(n) => OverrideView::Integer(*n),
        }
    }
}

impl ConfigOverride {
    /// The key and value as the contracts see them.
    pub open spec fn view_pair(&self) -> (Seq<char>, OverrideView) {
        (self.key@, self.value.view_value())
    }
}

/// The views of a list of overrides, in order.
pub open spec fn override_views(list: Seq<ConfigOverride>) -> Seq<(Seq<char>, OverrideView)> {
    list.map_values(|o: ConfigOverride| o.view_pair())
}

/// The overrides the command line asks for, in the order they are laid: the
/// server address (`app.host`) where it was given, the server port
/// (`app.port`) where it was given, and the log level always.
pub open spec fn cli_override_list(cli: Cli) -> Seq<(Seq<char>, OverrideView)> {
    let host = match cli.host {
        Some(host) => seq![("app.host"@, OverrideView::Text(host@))],
        None => Seq::empty(),
    };
    let port = match cli.port {
        Some(port) => seq![("app.port"@, OverrideView::Integer(port as i64))],
        None => Seq::empty(),
    };
    host + port + seq![("log_level"@, OverrideView::Text(cli.log_level@))]
}

/// Lays the command-line arguments over a list of configuration overrides:
/// the server address and port of the application settings where they were
/// given, and the log level. Later overrides of a key win over earlier ones.
pub fn apply_cli_args(overrides: Vec<ConfigOverride>, cli: &Cli) -> (r: Vec<ConfigOverride>)
    ensures
        override_views(r@) == override_views(overrides@) + cli_override_list(*cli),
{
    let mut overrides = overrides;
    let ghost before = override_views(overrides@);
    // Override the server address and port of the application settings
    if let Some(host) = &cli.host {
        overrides.push(
            ConfigOverride {
                key: String::from_str("app.host"),
                value: OverrideValue::Text(host.clone()),
            },
        );
    }
    if let Some(port) = cli.port {
        overrides.push(
            ConfigOverride {
                key: String::from_str("app.port"),
                value: OverrideValue::Integer(port as i64),
            },
        );
    }
    overrides.push(
        ConfigOverride {
            key: String::from_str("log_level"),
            value: OverrideValue::Text(cli.log_level.clone()),
        },
    );
    assert(override_views(overrides@) =~= before + cli_override_list(*cli));
    overrides
}

/// A configuration file to load, by name without extension.
#[derive(Clone, Debug)]
pub struct ConfigFile {
    /// File name; the format is found from the extension on disk
    pub name: String,
    /// Whether loading fails when the file is missing
    pub required: bool,
}

/// The run mode: the one given, or `development` when none is.
pub open spec fn run_mode_name(run_mode: Option<String>) -> Seq<char> {
    match run_mode {
        Some(mode) => mode@,
        None => "development"@,
    }
}

/// The configuration files to load, in increasing priority: the optional
/// defaults `config/default`, the optional file of the run mode
/// `config/<run mode>`, and the file given on the command line, which must
/// exist.
pub open spec fn config_file_list(run_mode: Option<String>, custom: Option<String>) -> Seq<(Seq<char>, bool)> {
    let given = match custom {
        Some(path) => seq![(path@, true)],
        None => Seq::empty(),
    };
    seq![("config/default"@, false), ("config/"@ + run_mode_name(run_mode), false)] + given
}

/// The configuration files to load, in increasing priority, for the run
/// mode `run_mode` (`development` when none is set) and the configuration
/// file given on the command line, if any.
pub fn config_files(run_mode: Option<String>, custom: Option<String>) -> (files: Vec<ConfigFile>)
    ensures
        files@.map_values(|f: ConfigFile| (f.name@, f.required)) == config_file_list(run_mode, custom),
{
    let mut files: Vec<ConfigFile> = Vec::new();
    // Default configuration file
    files.push(ConfigFile { name: String::from_str("config/default"), required: false });
    // Environment-specific configuration
    let mut name = String::from_str("config/");
    match &run_mode {
        Some(mode) => name.append(mode.as_str()),
        None => name.append("development"),
    }
    files.push(ConfigFile { name, required: false });
    // Custom configuration file
    if let Some(path) = custom {
        files.push(ConfigFile { name: path, required: true });
    }
    assert(files@.map_values(|f: ConfigFile| (f.name@, f.required)) =~= config_file_list(run_mode, custom));
    files
}

/// Whatever else is given, the command line lays its host at `app.host`
/// when one is given, its port at `app.port` when one is given, and its log
/// level at `log_level` always, last; it lays nothing else, so the number of
/// overrides is one plus one for each of host and port given.
pub proof fn lemma_cli_overrides_follow_the_arguments(cli: Cli)
    ensures
        cli_override_list(cli).len() == 1 + (if cli.host is Some { 1int } else { 0 }) + (if cli.port is Some { 1int } else { 0 }),
        cli_override_list(cli).last() == ("log_level"@, OverrideView::Text(cli.log_level@)),
        cli.host matches Some(host) ==> cli_override_list(cli)[0] == ("app.host"@, OverrideView::Text(host@)),
        cli.port matches Some(port) ==> cli_override_list(cli)[cli_override_list(cli).len() - 2] == ("app.port"@, OverrideView::Integer(port as i64)),
        cli.host is None && cli.port is None ==> cli_override_list(cli) == seq![("log_level"@, OverrideView::Text(cli.log_level@))],
{
}

/// The host and the port are laid independently of each other: changing the
/// port leaves the host override as it was, and changing the host leaves the
/// port override as it was; the configuration file argument lays nothing.
pub proof fn lemma_cli_host_and_port_are_independent(cli: Cli, port: Option<u16>, host: Option<String>, config: Option<String>)
    ensures
        cli_override_list(cli).contains(("app.host"@, OverrideView::Text(cli.host->Some_0@))) <==> cli.host is Some,
        cli.host is Some ==> cli_override_list(Cli { port, ..cli }).contains(("app.host"@, OverrideView::Text(cli.host->Some_0@))),
        cli.port is Some ==> cli_override_list(Cli { host, ..cli }).contains(("app.port"@, OverrideView::Integer(cli.port->Some_0 as i64))),
        cli_override_list(Cli { config, ..cli }) == cli_override_list(cli),
{
    let h = ("app.host"@, OverrideView::Text(cli.host->Some_0@));
    reveal_strlit("app.host");
    reveal_strlit("app.port");
    reveal_strlit("log_level");
    if cli.host is Some {
        assert(cli_override_list(cli)[0] == h);
        assert(cli_override_list(Cli { port, ..cli })[0] == h);
    } else {
        assert forall|i: int| 0 <= i < cli_override_list(cli).len() implies cli_override_list(cli)[i] != h by {
            assert("app.port"@[4] != "app.host"@[4]);
            assert("log_level"@.len() != "app.host"@.len());
            assert(cli_override_list(cli)[i].0 != "app.host"@);
        }
    }
    if cli.port is Some {
        let c2 = Cli { host, ..cli };
        let pp = ("app.port"@, OverrideView::Integer(cli.port->Some_0 as i64));
        assert(cli_override_list(c2)[cli_override_list(c2).len() - 2] == pp);
    }
}

/// The files are the defaults, then the file of the run mode (the one given,
/// `development` when none is), both optional, whatever the configuration
/// file argument is; a configuration file given on the command line only
/// adds a third file, which must exist.
pub proof fn lemma_config_files_follow_the_arguments(run_mode: Option<String>, custom: Option<String>)
    ensures
        config_file_list(run_mode, custom).len() == 2 + (if custom is Some { 1int } else { 0 }),
        config_file_list(run_mode, custom)[0] == ("config/default"@, false),
        run_mode matches Some(mode) ==> config_file_list(run_mode, custom)[1] == ("config/"@ + mode@, false),
        run_mode is None ==> config_file_list(run_mode, custom)[1] == ("config/development"@, false),
        custom matches Some(path) ==> config_file_list(run_mode, custom)[2] == (path@, true),
        config_file_list(run_mode, custom).take(2) == config_file_list(run_mode, None),
{
    reveal_strlit("config/");
    reveal_strlit("development");
    reveal_strlit("config/development");
    assert("config/"@ + "development"@ =~= "config/development"@);
    assert(config_file_list(run_mode, custom).take(2) =~= config_file_list(run_mode, None));
}

} // verus!
