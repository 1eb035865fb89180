//! Configuration: the settings of the service and how they are read from the
//! values of its environment variables.

use vstd::prelude::*;
use vstd::string::*;

use crate::text;

verus! {

/// PostgreSQL connection settings.
#[derive(Debug, Clone, PartialEq, Eq)]
pub struct DatabaseConfig {
    pub user: String,
    pub password: String,
    pub host: String,
    pub port: u16,
    pub database: String,
}

/// HTTP server settings.
#[derive(Debug, Clone, PartialEq, Eq)]
pub struct ServerConfig {
    pub host: String,
    pub port: u16,
    /// Whether to expose the Swagger UI at /api/docs.
    pub enable_docs: bool,
    /// Log filter used when `RUST_LOG` gives none the logger accepts.
    pub log_level: String,
    /// Directory of the frontend's static files.
    pub static_dir: String,
}

/// Application behaviour settings.
#[derive(Debug, Clone, PartialEq, Eq)]
pub struct AppSettings {
    /// Default board canvas width used when placing new boxes (pixels), as the
    /// configured text; it is always a literal that `str::parse::<f64>` accepts.
    pub default_canvas_width: String,
    /// Default board canvas height, in the same form as the width.
    pub default_canvas_height: String,
    /// How many taps/clicks are required to delete a box (1 to 255).
    pub delete_tap_count: u8,
    /// Maximum number of boards the user can create.
    pub max_boards: u32,
    /// Move the Add/Manage controls to a dedicated tab.
    pub separate_add_tab: bool,
}

/// Top-level application configuration.
#[derive(Debug, Clone, PartialEq, Eq)]
pub struct AppConfig {
    pub database: DatabaseConfig,
    pub server: ServerConfig,
    pub app: AppSettings,
}

/// The values of the environment variables that configure the service; `None` where a
/// variable is unset (or not valid Unicode), which selects its default.
#[derive(Debug, Clone, PartialEq, Eq)]
pub struct ConfigSource {
    /// `DB_USER`, default `postgres`.
    pub db_user: Option<String>,
    /// `DB_PASSWORD`, default `postgres`.
    pub db_password: Option<String>,
    /// `DB_HOST`, default `localhost`.
    pub db_host: Option<String>,
    /// `DB_PORT`, default `5432`.
    pub db_port: Option<String>,
    /// `DB_NAME`, default `taskboard`.
    pub db_name: Option<String>,
    /// `SERVER_HOST`, default `0.0.0.0`.
    pub server_host: Option<String>,
    /// `SERVER_PORT`, default `8080`.
    pub server_port: Option<String>,
    /// `ENABLE_DOCS`, default `true`.
    pub enable_docs: Option<String>,
    /// `DEFAULT_CANVAS_WIDTH`, default `1280`.
    pub default_canvas_width: Option<String>,
    /// `DEFAULT_CANVAS_HEIGHT`, default `800`.
    pub default_canvas_height: Option<String>,
    /// `DELETE_TAP_COUNT`, default `3`.
    pub delete_tap_count: Option<String>,
    /// `MAX_BOARDS`, default `5`.
    pub max_boards: Option<String>,
    /// `SEPARATE_ADD_TAB`, default `false`.
    pub separate_add_tab: Option<String>,
    /// `RUST_LOG`, default `info`.
    pub rust_log: Option<String>,
    /// `STATIC_DIR`, default `./static`.
    pub static_dir: Option<String>,
}

/// Why a configuration was refused; each names the first variable that is wrong.
#[derive(Debug, Clone, Copy, PartialEq, Eq)]
pub enum ConfigError {
    InvalidDbPort,
    InvalidServerPort,
    InvalidCanvasWidth,
    InvalidCanvasHeight,
    InvalidDeleteTapCount,
    InvalidMaxBoards,
}

impl ConfigError {
    /// The text that explains the error.
    pub fn message(&self) -> (m: &'static str)
        ensures
            m@ == match self {
                ConfigError::InvalidDbPort => "DB_PORT must be a valid port"@,
                ConfigError::InvalidServerPort => "SERVER_PORT must be a valid port"@,
                ConfigError::InvalidCanvasWidth => "DEFAULT_CANVAS_WIDTH must be a number"@,
                ConfigError::InvalidCanvasHeight => "DEFAULT_CANVAS_HEIGHT must be a number"@,
                ConfigError::InvalidDeleteTapCount => "DELETE_TAP_COUNT must be 1-255"@,
                ConfigError::InvalidMaxBoards => "MAX_BOARDS must be a non-negative integer"@,
            },
    {
        match self {
            ConfigError::InvalidDbPort => "DB_PORT must be a valid port",
            ConfigError::InvalidServerPort => "SERVER_PORT must be a valid port",
            ConfigError::InvalidCanvasWidth => "DEFAULT_CANVAS_WIDTH must be a number",
            ConfigError::InvalidCanvasHeight => "DEFAULT_CANVAS_HEIGHT must be a number",
            ConfigError::InvalidDeleteTapCount => "DELETE_TAP_COUNT must be 1-255",
            ConfigError::InvalidMaxBoards => "MAX_BOARDS must be a non-negative integer",
        }
    }
}

/// The text of a variable: its value if it is set, else `default`.
pub open spec fn value_or(v: Option<String>, default: Seq<char>) -> Seq<char> {
    match v {
        Some(s) => s@,
        None => default,
    }
}

/// The connection URL of `c`; with `redact`, user and password read `***`.
pub open spec fn spec_connection_string(c: DatabaseConfig, redact: bool) -> Seq<char> {
    let user = if redact { "***"@ } else { c.user@ };
    let password = if redact { "***"@ } else { c.password@ };
    "postgres://"@ + user + ":"@ + password + "@"@ + c.host@ + ":"@ + text::decimal_text(c.port as nat)
        + "/"@ + c.database@
}

impl DatabaseConfig {
    /// The PostgreSQL connection URL; with `redact`, the credentials are masked so
    /// that the URL can be logged.
    pub fn connection_string(&self, redact: bool) -> (s: String)
        ensures
            s@ == spec_connection_string(*self, redact),
    {
        let mut s = String::from_str("postgres://");
        if redact {
            s.append("***");
            s.append(":");
            s.append("***");
        } else {
            s.append(self.user.as_str());
            s.append(":");
            s.append(self.password.as_str());
        }
        s.append("@");
        s.append(self.host.as_str());
        s.append(":");
        text::push_decimal(&mut s, self.port as u64);
        s.append("/");
        s.append(self.database.as_str());
        s
    }
}

/// Redaction hides the credentials: two configurations that differ only in user and
/// password give the same redacted connection URL.
pub proof fn lemma_redaction_hides_credentials(a: DatabaseConfig, b: DatabaseConfig)
    requires
        a.host@ == b.host@,
        a.port == b.port,
        a.database@ == b.database@,
    ensures
        spec_connection_string(a, true) == spec_connection_string(b, true),
{
}

/// The first variable of `src` whose value is refused, checked in the order
/// `DB_PORT`, `SERVER_PORT`, `DEFAULT_CANVAS_WIDTH`, `DEFAULT_CANVAS_HEIGHT`,
/// `DELETE_TAP_COUNT`, `MAX_BOARDS`.
pub open spec fn config_error(src: ConfigSource) -> Option<ConfigError> {
    if text::unsigned_value(value_or(src.db_port, "5432"@), 65535) is None {
        Some(ConfigError::InvalidDbPort)
    } else if text::unsigned_value(value_or(src.server_port, "8080"@), 65535) is None {
        Some(ConfigError::InvalidServerPort)
    } else if !text::is_float_literal(value_or(src.default_canvas_width, "1280"@)) {
        Some(ConfigError::InvalidCanvasWidth)
    } else if !text::is_float_literal(value_or(src.default_canvas_height, "800"@)) {
        Some(ConfigError::InvalidCanvasHeight)
    } else if !(text::unsigned_value(value_or(src.delete_tap_count, "3"@), 255) matches Some(n) && n >= 1) {
        Some(ConfigError::InvalidDeleteTapCount)
    } else if text::unsigned_value(value_or(src.max_boards, "5"@), u32::MAX as nat) is None {
        Some(ConfigError::InvalidMaxBoards)
    } else {
        None
    }
}

/// `s` holds the application settings that `src` gives.
pub open spec fn settings_from(src: ConfigSource, s: AppSettings) -> bool {
    &&& s.default_canvas_width@ == value_or(src.default_canvas_width, "1280"@)
    &&& s.default_canvas_height@ == value_or(src.default_canvas_height, "800"@)
    &&& text::unsigned_value(value_or(src.delete_tap_count, "3"@), 255) == Some(s.delete_tap_count as nat)
    &&& text::unsigned_value(value_or(src.max_boards, "5"@), u32::MAX as nat) == Some(s.max_boards as nat)
    &&& s.separate_add_tab == text::ascii_ci_eq(value_or(src.separate_add_tab, "false"@), "true"@)
}

/// `cfg` is the configuration that `src` gives.
pub open spec fn config_from(src: ConfigSource, cfg: AppConfig) -> bool {
    &&& cfg.database.user@ == value_or(src.db_user, "postgres"@)
    &&& cfg.database.password@ == value_or(src.db_password, "postgres"@)
    &&& cfg.database.host@ == value_or(src.db_host, "localhost"@)
    &&& text::unsigned_value(value_or(src.db_port, "5432"@), 65535) == Some(cfg.database.port as nat)
    &&& cfg.database.database@ == value_or(src.db_name, "taskboard"@)
    &&& cfg.server.host@ == value_or(src.server_host, "0.0.0.0"@)
    &&& text::unsigned_value(value_or(src.server_port, "8080"@), 65535) == Some(cfg.server.port as nat)
    &&& cfg.server.enable_docs == !text::ascii_ci_eq(value_or(src.enable_docs, "true"@), "false"@)
    &&& cfg.server.log_level@ == value_or(src.rust_log, "info"@)
    &&& cfg.server.static_dir@ == value_or(src.static_dir, "./static"@)
    &&& settings_from(src, cfg.app)
}

/// The text of a variable, or `default` when it is unset.
fn env_or(v: &Option<String>, default: &str) -> (s: String)
    ensures
        s@ == value_or(*v, default@),
{
    match v {
        Some(s) => s.clone(),
        None => String::from_str(default),
    }
}

/// Builds the configuration from the environment's values, with the documented
/// defaults for unset variables. It is refused, naming the first bad variable, when a
/// port is not a number from 0 to 65535, a canvas size is not a number, the tap count is
/// not from 1 to 255, or the board limit is not an unsigned 32-bit number.
/// `ENABLE_DOCS` is off only for `false` (in any case); `SEPARATE_ADD_TAB` is on only for
/// `true` (in any case).
pub fn load_config(src: &ConfigSource) -> (r: Result<AppConfig, ConfigError>)
    ensures
        match r {
            Ok(cfg) => config_error(*src) is None && config_from(*src, cfg),
            Err(e) => config_error(*src) == Some(e),
        },
{
    let user = env_or(&src.db_user, "postgres");
    let password = env_or(&src.db_password, "postgres");
    let db_host = env_or(&src.db_host, "localhost");
    let db_port_text = env_or(&src.db_port, "5432");
    let db_port = match text::parse_unsigned(db_port_text.as_str(), 65535) {
        Some(p) => p as u16,
        None => return Err(ConfigError::InvalidDbPort),
    };
    let database = env_or(&src.db_name, "taskboard");

    let server_host = env_or(&src.server_host, "0.0.0.0");
    let server_port_text = env_or(&src.server_port, "8080");
    let server_port = match text::parse_unsigned(server_port_text.as_str(), 65535) {
        Some(p) => p as u16,
        None => return Err(ConfigError::InvalidServerPort),
    };
    let docs_text = env_or(&src.enable_docs, "true");
    let enable_docs = !text::equals_ignoring_ascii_case(docs_text.as_str(), "false");
    let log_level = env_or(&src.rust_log, "info");
    let static_dir = env_or(&src.static_dir, "./static");

    let width = env_or(&src.default_canvas_width, "1280");
    if !text::is_float_text(width.as_str()) {
        return Err(ConfigError::InvalidCanvasWidth);
    }
    let height = env_or(&src.default_canvas_height, "800");
    if !text::is_float_text(height.as_str()) {
        return Err(ConfigError::InvalidCanvasHeight);
    }
    let taps_text = env_or(&src.delete_tap_count, "3");
    let delete_tap_count = match text::parse_unsigned(taps_text.as_str(), 255) {
        Some(n) => {
            if n == 0 {
                return Err(ConfigError::InvalidDeleteTapCount);
            }
            n as u8
        },
        None => return Err(ConfigError::InvalidDeleteTapCount),
    };
    let max_text = env_or(&src.max_boards, "5");
    let max_boards = match text::parse_unsigned(max_text.as_str(), 4294967295) {
        Some(n) => n as u32,
        None => return Err(ConfigError::InvalidMaxBoards),
    };
    let tab_text = env_or(&src.separate_add_tab, "false");
    let separate_add_tab = text::equals_ignoring_ascii_case(tab_text.as_str(), "true");

    Ok(AppConfig {
        database: DatabaseConfig { user, password, host: db_host, port: db_port, database },
        server: ServerConfig { host: server_host, port: server_port, enable_docs, log_level, static_dir },
        app: AppSettings {
            default_canvas_width: width,
            default_canvas_height: height,
            delete_tap_count,
            max_boards,
            separate_add_tab,
        },
    })
}


/// The documented default application settings.
pub open spec fn default_settings(s: AppSettings) -> bool {
    &&& s.default_canvas_width@ == "1280"@
    &&& s.default_canvas_height@ == "800"@
    &&& s.delete_tap_count == 3
    &&& s.max_boards == 5
    &&& !s.separate_add_tab
}

impl Default for AppSettings {
    fn default() -> (s: Self)
        ensures
            default_settings(s),
    {
        AppSettings {
            default_canvas_width: String::from_str("1280"),
            default_canvas_height: String::from_str("800"),
            delete_tap_count: 3,
            max_boards: 5,
            separate_add_tab: false,
        }
    }
}

/// An environment in which none of the variables is set.
pub open spec fn unset_source() -> ConfigSource {
    ConfigSource {
        db_user: None,
        db_password: None,
        db_host: None,
        db_port: None,
        db_name: None,
        server_host: None,
        server_port: None,
        enable_docs: None,
        default_canvas_width: None,
        default_canvas_height: None,
        delete_tap_count: None,
        max_boards: None,
        separate_add_tab: None,
        rust_log: None,
        static_dir: None,
    }
}

/// What the default texts hold as values.
proof fn lemma_default_texts()
    ensures
        text::unsigned_value("5432"@, 65535) == Some(5432nat),
        text::unsigned_value("8080"@, 65535) == Some(8080nat),
        text::unsigned_value("3"@, 255) == Some(3nat),
        text::unsigned_value("5"@, u32::MAX as nat) == Some(5nat),
        text::is_float_literal("1280"@),
        text::is_float_literal("800"@),
        !text::ascii_ci_eq("false"@, "true"@),
        !text::ascii_ci_eq("true"@, "false"@),
{
    reveal_strlit("5432");
    reveal_strlit("8080");
    reveal_strlit("1280");
    reveal_strlit("800");
    reveal_strlit("3");
    reveal_strlit("5");
    reveal_strlit("false");
    reveal_strlit("true");
    assert("5432"@ =~= text::decimal_text(5432)) by { reveal_with_fuel(text::decimal_text, 5); }
    assert("8080"@ =~= text::decimal_text(8080)) by { reveal_with_fuel(text::decimal_text, 5); }
    assert("1280"@ =~= text::decimal_text(1280)) by { reveal_with_fuel(text::decimal_text, 5); }
    assert("800"@ =~= text::decimal_text(800)) by { reveal_with_fuel(text::decimal_text, 4); }
    assert("3"@ =~= text::decimal_text(3));
    assert("5"@ =~= text::decimal_text(5));
    text::lemma_decimal_round_trip(5432, 65535);
    text::lemma_decimal_round_trip(8080, 65535);
    text::lemma_decimal_round_trip(3, 255);
    text::lemma_decimal_round_trip(5, u32::MAX as nat);
    text::lemma_decimal_text_digits(1280);
    text::lemma_digits_are_float_literal("1280"@);
    text::lemma_decimal_text_digits(800);
    text::lemma_digits_are_float_literal("800"@);
}

/// Every default is valid, and an environment with no variable set loads exactly the
/// default application settings that `AppSettings::default` gives.
pub proof fn lemma_unset_environment_loads_defaults(s: AppSettings)
    ensures
        config_error(unset_source()) is None,
        settings_from(unset_source(), s) ==> default_settings(s),
{
    lemma_default_texts();
}

/// Each setting is read from its own variable and from no other: a set variable gives
/// its own text (or, for a number, the number it spells), an unset one gives the
/// documented default, whatever the other variables hold.
pub proof fn lemma_each_setting_reads_its_own_variable(src: ConfigSource, cfg: AppConfig)
    requires
        config_from(src, cfg),
    ensures
        src.db_user matches Some(v) ==> cfg.database.user@ == v@,
        src.db_user is None ==> cfg.database.user@ == "postgres"@,
        src.db_password matches Some(v) ==> cfg.database.password@ == v@,
        src.db_password is None ==> cfg.database.password@ == "postgres"@,
        src.db_host matches Some(v) ==> cfg.database.host@ == v@,
        src.db_host is None ==> cfg.database.host@ == "localhost"@,
        src.db_name matches Some(v) ==> cfg.database.database@ == v@,
        src.db_name is None ==> cfg.database.database@ == "taskboard"@,
        src.server_host matches Some(v) ==> cfg.server.host@ == v@,
        src.server_host is None ==> cfg.server.host@ == "0.0.0.0"@,
        src.rust_log matches Some(v) ==> cfg.server.log_level@ == v@,
        src.rust_log is None ==> cfg.server.log_level@ == "info"@,
        src.static_dir matches Some(v) ==> cfg.server.static_dir@ == v@,
        src.static_dir is None ==> cfg.server.static_dir@ == "./static"@,
        src.default_canvas_width matches Some(v) ==> cfg.app.default_canvas_width@ == v@,
        src.default_canvas_width is None ==> cfg.app.default_canvas_width@ == "1280"@,
        src.default_canvas_height matches Some(v) ==> cfg.app.default_canvas_height@ == v@,
        src.default_canvas_height is None ==> cfg.app.default_canvas_height@ == "800"@,
        src.db_port matches Some(v) ==> text::unsigned_value(v@, 65535) == Some(cfg.database.port as nat),
        src.db_port is None ==> cfg.database.port == 5432,
        src.server_port matches Some(v) ==> text::unsigned_value(v@, 65535) == Some(cfg.server.port as nat),
        src.server_port is None ==> cfg.server.port == 8080,
        src.delete_tap_count matches Some(v) ==> text::unsigned_value(v@, 255) == Some(cfg.app.delete_tap_count as nat),
        src.delete_tap_count is None ==> cfg.app.delete_tap_count == 3,
        src.max_boards matches Some(v) ==> text::unsigned_value(v@, u32::MAX as nat) == Some(cfg.app.max_boards as nat),
        src.max_boards is None ==> cfg.app.max_boards == 5,
        src.enable_docs matches Some(v) ==> (cfg.server.enable_docs <==> !text::ascii_ci_eq(v@, "false"@)),
        src.enable_docs is None ==> cfg.server.enable_docs,
        src.separate_add_tab matches Some(v) ==> (cfg.app.separate_add_tab <==> text::ascii_ci_eq(v@, "true"@)),
        src.separate_add_tab is None ==> !cfg.app.separate_add_tab,
{
    lemma_default_texts();
}

/// A number variable set to the decimal text of a number in its range loads as that
/// number.
pub proof fn lemma_numbers_load_as_written(src: ConfigSource, cfg: AppConfig, n: nat)
    requires
        config_from(src, cfg),
    ensures
        (src.db_port matches Some(v) && v@ == text::decimal_text(n) && n <= 65535) ==> cfg.database.port == n,
        (src.server_port matches Some(v) && v@ == text::decimal_text(n) && n <= 65535) ==> cfg.server.port == n,
        (src.delete_tap_count matches Some(v) && v@ == text::decimal_text(n) && n <= 255) ==> cfg.app.delete_tap_count == n,
        (src.max_boards matches Some(v) && v@ == text::decimal_text(n) && n <= u32::MAX) ==> cfg.app.max_boards == n,
{
    if n <= 65535 {
        text::lemma_decimal_round_trip(n, 65535);
    }
    if n <= 255 {
        text::lemma_decimal_round_trip(n, 255);
    }
    if n <= u32::MAX {
        text::lemma_decimal_round_trip(n, u32::MAX as nat);
    }
}

/// A loaded configuration asks for at least one tap to delete a box.
pub proof fn lemma_loaded_tap_count_is_positive(src: ConfigSource, cfg: AppConfig)
    requires
        config_error(src) is None,
        config_from(src, cfg),
    ensures
        1 <= cfg.app.delete_tap_count,
{
}

/// The layout of the connection URL, for every configuration: the user, then `:` and
/// the password, then `@`, the host, `:`, the port in decimal, `/` and the database;
/// redacted, both credentials read `***`.
pub proof fn lemma_connection_url_layout(c: DatabaseConfig)
    ensures
        spec_connection_string(c, false) == "postgres://"@ + c.user@ + ":"@ + c.password@ + "@"@
            + c.host@ + ":"@ + text::decimal_text(c.port as nat) + "/"@ + c.database@,
        spec_connection_string(c, true) == "postgres://"@ + "***"@ + ":"@ + "***"@ + "@"@
            + c.host@ + ":"@ + text::decimal_text(c.port as nat) + "/"@ + c.database@,
{
}

/// Which variable a refusal names: a bad `DB_PORT` is reported whatever the others
/// hold; each later variable is reported only when every earlier one is good; an
/// environment whose variables are all good (unset ones taking their defaults) loads.
pub proof fn lemma_errors_name_the_first_bad_variable(src: ConfigSource)
    ensures
        (src.db_port matches Some(v) && text::unsigned_value(v@, 65535) is None)
            ==> config_error(src) == Some(ConfigError::InvalidDbPort),
        config_error(src) == Some(ConfigError::InvalidDbPort)
            ==> (src.db_port matches Some(v) && text::unsigned_value(v@, 65535) is None),
        config_error(src) == Some(ConfigError::InvalidServerPort)
            ==> (src.server_port matches Some(v) && text::unsigned_value(v@, 65535) is None),
        config_error(src) == Some(ConfigError::InvalidCanvasWidth)
            ==> (src.default_canvas_width matches Some(v) && !text::is_float_literal(v@)),
        config_error(src) == Some(ConfigError::InvalidCanvasHeight)
            ==> (src.default_canvas_height matches Some(v) && !text::is_float_literal(v@)),
        config_error(src) == Some(ConfigError::InvalidDeleteTapCount)
            ==> (src.delete_tap_count matches Some(v) && !(text::unsigned_value(v@, 255) matches Some(n) && n >= 1)),
        config_error(src) == Some(ConfigError::InvalidMaxBoards)
            ==> (src.max_boards matches Some(v) && text::unsigned_value(v@, u32::MAX as nat) is None),
        config_error(src) is Some && config_error(src) != Some(ConfigError::InvalidDbPort)
            ==> !(src.db_port matches Some(v) && text::unsigned_value(v@, 65535) is None),
        (config_error(src) is Some && config_error(src) != Some(ConfigError::InvalidDbPort)
            && config_error(src) != Some(ConfigError::InvalidServerPort))
            ==> !(src.server_port matches Some(v) && text::unsigned_value(v@, 65535) is None),
        (config_error(src) == Some(ConfigError::InvalidCanvasHeight)
            || config_error(src) == Some(ConfigError::InvalidDeleteTapCount)
            || config_error(src) == Some(ConfigError::InvalidMaxBoards))
            ==> !(src.default_canvas_width matches Some(v) && !text::is_float_literal(v@)),
        (config_error(src) == Some(ConfigError::InvalidDeleteTapCount)
            || config_error(src) == Some(ConfigError::InvalidMaxBoards))
            ==> !(src.default_canvas_height matches Some(v) && !text::is_float_literal(v@)),
        config_error(src) == Some(ConfigError::InvalidMaxBoards)
            ==> !(src.delete_tap_count matches Some(v) && !(text::unsigned_value(v@, 255) matches Some(n) && n >= 1)),
        config_error(src) is None <==> {
            &&& !(src.db_port matches Some(v) && text::unsigned_value(v@, 65535) is None)
            &&& !(src.server_port matches Some(v) && text::unsigned_value(v@, 65535) is None)
            &&& !(src.default_canvas_width matches Some(v) && !text::is_float_literal(v@))
            &&& !(src.default_canvas_height matches Some(v) && !text::is_float_literal(v@))
            &&& !(src.delete_tap_count matches Some(v) && !(text::unsigned_value(v@, 255) matches Some(n) && n >= 1))
            &&& !(src.max_boards matches Some(v) && text::unsigned_value(v@, u32::MAX as nat) is None)
        },
{
    lemma_default_texts();
}

} // verus!
