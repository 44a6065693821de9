//! The application's configuration and how it is resolved from environment
//! variables.
//!
//! A configuration is built once, when the process starts, and only read
//! afterwards. Resolution from the environment never fails: a variable that is
//! unset, or whose value cannot be read as the setting's type, leaves the
//! setting at its default.

use vstd::prelude::*;
use crate::decimal::{parse_u16, parse_u32, parse_unsigned};
use crate::flag::{flag_value, is_falsy, is_truthy, lemma_flag_words_disjoint, parse_flag};

verus! {

/// Default window title.
pub const DEFAULT_TITLE: &'static str = "TauPy App";

/// Default port of the asset server.
pub const DEFAULT_PORT: u16 = 8000;

/// Default window width, in logical pixels.
pub const DEFAULT_WIDTH: u32 = 800;

/// Default window height, in logical pixels.
pub const DEFAULT_HEIGHT: u32 = 600;

/// Everything that parameterizes the asset server and the window.
#[derive(Debug, Clone)]
pub struct AppConfig {
    /// Window title.
    pub title: String,
    /// Port of the asset server, and the port that the window loads from.
    pub port: u16,
    /// Window width, in logical pixels.
    pub width: u32,
    /// Window height, in logical pixels.
    pub height: u32,
    /// Directory to serve in place of `dist` under the working directory.
    pub dist: Option<String>,
    /// The assets are served by someone else.
    pub external: bool,
    /// The window has no frame.
    pub frameless: bool,
    /// The window is transparent.
    pub transparent: bool,
    /// The window stays above the others.
    pub always_on_top: bool,
    /// The window can be resized.
    pub resizable: bool,
    /// Least width of the window, if bounded.
    pub min_width: Option<u32>,
    /// Least height of the window, if bounded.
    pub min_height: Option<u32>,
    /// Greatest width of the window, if bounded.
    pub max_width: Option<u32>,
    /// Greatest height of the window, if bounded.
    pub max_height: Option<u32>,
    /// The developer tools open with the window.
    pub open_devtools: bool,
}

/// A configuration as a mathematical value.
pub struct ConfigView {
    pub title: Seq<char>,
    pub port: u16,
    pub width: u32,
    pub height: u32,
    pub dist: Option<Seq<char>>,
    pub external: bool,
    pub frameless: bool,
    pub transparent: bool,
    pub always_on_top: bool,
    pub resizable: bool,
    pub min_width: Option<u32>,
    pub min_height: Option<u32>,
    pub max_width: Option<u32>,
    pub max_height: Option<u32>,
    pub open_devtools: bool,
}

impl View for AppConfig {
    type V = ConfigView;

    open spec fn view(&self) -> ConfigView {
        ConfigView {
            title: self.title@,
            port: self.port,
            width: self.width,
            height: self.height,
            dist: match self.dist {
                Some(d) => Some(d@),
                None => None,
            },
            external: self.external,
            frameless: self.frameless,
            transparent: self.transparent,
            always_on_top: self.always_on_top,
            resizable: self.resizable,
            min_width: self.min_width,
            min_height: self.min_height,
            max_width: self.max_width,
            max_height: self.max_height,
            open_devtools: self.open_devtools,
        }
    }
}

/// The configuration in which every setting has its default.
pub open spec fn default_config() -> ConfigView {
    ConfigView {
        title: "TauPy App"@,
        port: 8000,
        width: 800,
        height: 600,
        dist: None,
        external: false,
        frameless: false,
        transparent: false,
        always_on_top: false,
        resizable: true,
        min_width: None,
        min_height: None,
        max_width: None,
        max_height: None,
        open_devtools: false,
    }
}

/// The names of the variables that a configuration is resolved from, in the
/// order of the settings.
pub open spec fn variable_names() -> Seq<Seq<char>> {
    seq![
        "TAUPY_WINDOW_TITLE"@,
        "TAUPY_WINDOW_PORT"@,
        "TAUPY_WINDOW_WIDTH"@,
        "TAUPY_WINDOW_HEIGHT"@,
        "TAUPY_WINDOW_DIST"@,
        "TAUPY_WINDOW_EXTERNAL"@,
        "TAUPY_WINDOW_FRAMELESS"@,
        "TAUPY_WINDOW_TRANSPARENT"@,
        "TAUPY_WINDOW_ALWAYS_ON_TOP"@,
        "TAUPY_WINDOW_RESIZABLE"@,
        "TAUPY_WINDOW_MIN_WIDTH"@,
        "TAUPY_WINDOW_MIN_HEIGHT"@,
        "TAUPY_WINDOW_MAX_WIDTH"@,
        "TAUPY_WINDOW_MAX_HEIGHT"@,
        "TAUPY_WINDOW_OPEN_DEVTOOLS"@,
    ]
}

/// The value of the first variable called `name`, if there is one.
pub open spec fn env_value(vars: Seq<(String, String)>, name: Seq<char>) -> Option<Seq<char>>
    decreases vars.len(),
{
    if vars.len() == 0 {
        None
    } else if vars[0].0@ == name {
        Some(vars[0].1@)
    } else {
        env_value(vars.drop_first(), name)
    }
}

/// A text setting: the value as it is, or the default where there is none.
pub open spec fn text_or(value: Option<Seq<char>>, default: Seq<char>) -> Seq<char> {
    match value {
        Some(v) => v,
        None => default,
    }
}

/// An optional text setting: the value where there is one and it is not empty.
pub open spec fn text_if_any(value: Option<Seq<char>>) -> Option<Seq<char>> {
    match value {
        Some(v) if v.len() > 0 => Some(v),
        _ => None,
    }
}

/// An optional numeric setting: the number that the value spells, if there is a
/// value and it spells a number up to `max`.
pub open spec fn number_if_any(value: Option<Seq<char>>, max: nat) -> Option<nat> {
    match value {
        Some(v) => parse_unsigned(v, max),
        None => None,
    }
}

/// A numeric setting: the number that the value spells, or the default.
pub open spec fn number_or(value: Option<Seq<char>>, max: nat, default: nat) -> nat {
    match number_if_any(value, max) {
        Some(n) => n,
        None => default,
    }
}

/// A flag setting: the flag that the value spells, or the default.
pub open spec fn flag_or(value: Option<Seq<char>>, default: bool) -> bool {
    match value {
        Some(v) => match flag_value(v) {
            Some(b) => b,
            None => default,
        },
        None => default,
    }
}

/// An optional 32-bit setting, as [`number_if_any`] gives it.
pub open spec fn u32_if_any(value: Option<Seq<char>>) -> Option<u32> {
    match number_if_any(value, u32::MAX as nat) {
        Some(n) => Some(n as u32),
        None => None,
    }
}

/// The configuration that the environment `vars` describes.
pub open spec fn config_from_env(vars: Seq<(String, String)>) -> ConfigView {
    ConfigView {
        title: text_or(env_value(vars, "TAUPY_WINDOW_TITLE"@), "TauPy App"@),
        port: number_or(env_value(vars, "TAUPY_WINDOW_PORT"@), u16::MAX as nat, 8000) as u16,
        width: number_or(env_value(vars, "TAUPY_WINDOW_WIDTH"@), u32::MAX as nat, 800) as u32,
        height: number_or(env_value(vars, "TAUPY_WINDOW_HEIGHT"@), u32::MAX as nat, 600) as u32,
        dist: text_if_any(env_value(vars, "TAUPY_WINDOW_DIST"@)),
        external: flag_or(env_value(vars, "TAUPY_WINDOW_EXTERNAL"@), false),
        frameless: flag_or(env_value(vars, "TAUPY_WINDOW_FRAMELESS"@), false),
        transparent: flag_or(env_value(vars, "TAUPY_WINDOW_TRANSPARENT"@), false),
        always_on_top: flag_or(env_value(vars, "TAUPY_WINDOW_ALWAYS_ON_TOP"@), false),
        resizable: flag_or(env_value(vars, "TAUPY_WINDOW_RESIZABLE"@), true),
        min_width: u32_if_any(env_value(vars, "TAUPY_WINDOW_MIN_WIDTH"@)),
        min_height: u32_if_any(env_value(vars, "TAUPY_WINDOW_MIN_HEIGHT"@)),
        max_width: u32_if_any(env_value(vars, "TAUPY_WINDOW_MAX_WIDTH"@)),
        max_height: u32_if_any(env_value(vars, "TAUPY_WINDOW_MAX_HEIGHT"@)),
        open_devtools: flag_or(env_value(vars, "TAUPY_WINDOW_OPEN_DEVTOOLS"@), false),
    }
}

/// A flag setting is true for a word for true and false for a word for false,
/// whatever the case of its letters; where the variable is unset or its value
/// is neither, the setting has its default.
pub proof fn lemma_flag_setting(value: Option<Seq<char>>, default: bool)
    ensures
        value matches Some(v) && is_truthy(v) ==> flag_or(value, default),
        value matches Some(v) && is_falsy(v) ==> !flag_or(value, default),
        value is None ==> flag_or(value, default) == default,
        value matches Some(v) && !is_truthy(v) && !is_falsy(v) ==> flag_or(value, default)
            == default,
{
    if let Some(v) = value {
        lemma_flag_words_disjoint(v);
    }
}

/// With no variable set, every setting has its default.
pub proof fn lemma_empty_env()
    ensures
        config_from_env(Seq::empty()) == default_config(),
{
}

/// Only the named variables count: two environments that give every named
/// variable the same value, or both none, describe the same configuration.
pub proof fn lemma_only_named_variables(a: Seq<(String, String)>, b: Seq<(String, String)>)
    requires
        forall|i: int|
            0 <= i < variable_names().len() ==> env_value(a, #[trigger] variable_names()[i])
                == env_value(b, variable_names()[i]),
    ensures
        config_from_env(a) == config_from_env(b),
{
    let names = variable_names();
    assert(names[0] == "TAUPY_WINDOW_TITLE"@);
    assert(names[1] == "TAUPY_WINDOW_PORT"@);
    assert(names[2] == "TAUPY_WINDOW_WIDTH"@);
    assert(names[3] == "TAUPY_WINDOW_HEIGHT"@);
    assert(names[4] == "TAUPY_WINDOW_DIST"@);
    assert(names[5] == "TAUPY_WINDOW_EXTERNAL"@);
    assert(names[6] == "TAUPY_WINDOW_FRAMELESS"@);
    assert(names[7] == "TAUPY_WINDOW_TRANSPARENT"@);
    assert(names[8] == "TAUPY_WINDOW_ALWAYS_ON_TOP"@);
    assert(names[9] == "TAUPY_WINDOW_RESIZABLE"@);
    assert(names[10] == "TAUPY_WINDOW_MIN_WIDTH"@);
    assert(names[11] == "TAUPY_WINDOW_MIN_HEIGHT"@);
    assert(names[12] == "TAUPY_WINDOW_MAX_WIDTH"@);
    assert(names[13] == "TAUPY_WINDOW_MAX_HEIGHT"@);
    assert(names[14] == "TAUPY_WINDOW_OPEN_DEVTOOLS"@);
}

/// The view of an optional string.
pub open spec fn text_view(value: Option<&String>) -> Option<Seq<char>> {
    match value {
        Some(v) => Some(v@),
        None => None,
    }
}

/// The names of the variables that a configuration is resolved from: what a
/// caller has to read from the environment.
pub fn variables() -> (out: Vec<String>)
    ensures
        out@.len() == variable_names().len(),
        forall|i: int| 0 <= i < out@.len() ==> (#[trigger] out@[i])@ == variable_names()[i],
{
    let mut out: Vec<String> = Vec::new();
    out.push(String::from_str("TAUPY_WINDOW_TITLE"));
    out.push(String::from_str("TAUPY_WINDOW_PORT"));
    out.push(String::from_str("TAUPY_WINDOW_WIDTH"));
    out.push(String::from_str("TAUPY_WINDOW_HEIGHT"));
    out.push(String::from_str("TAUPY_WINDOW_DIST"));
    out.push(String::from_str("TAUPY_WINDOW_EXTERNAL"));
    out.push(String::from_str("TAUPY_WINDOW_FRAMELESS"));
    out.push(String::from_str("TAUPY_WINDOW_TRANSPARENT"));
    out.push(String::from_str("TAUPY_WINDOW_ALWAYS_ON_TOP"));
    out.push(String::from_str("TAUPY_WINDOW_RESIZABLE"));
    out.push(String::from_str("TAUPY_WINDOW_MIN_WIDTH"));
    out.push(String::from_str("TAUPY_WINDOW_MIN_HEIGHT"));
    out.push(String::from_str("TAUPY_WINDOW_MAX_WIDTH"));
    out.push(String::from_str("TAUPY_WINDOW_MAX_HEIGHT"));
    out.push(String::from_str("TAUPY_WINDOW_OPEN_DEVTOOLS"));
    out
}

/// Finds the value of the first variable called `name`.
pub fn lookup<'a>(vars: &'a Vec<(String, String)>, name: &str) -> (out: Option<&'a String>)
    ensures
        text_view(out) == env_value(vars@, name@),
{
    let key = String::from_str(name);
    let n = vars.len();
    let mut i: usize = 0;
    assert(vars@.skip(0) == vars@);
    while i < n
        invariant
            i <= n,
            n == vars@.len(),
            key@ == name@,
            env_value(vars@, name@) == env_value(vars@.skip(i as int), name@),
        decreases n - i,
    {
        let ghost rest = vars@.skip(i as int);
        assert(rest[0] == vars@[i as int]);
        assert(rest.drop_first() == vars@.skip(i + 1));
        if vars[i].0 == key {
            return Some(&vars[i].1);
        }
        i = i + 1;
    }
    assert(vars@.skip(n as int).len() == 0);
    None
}

/// Resolves a text setting.
pub fn read_text(value: Option<&String>, default: &str) -> (out: String)
    ensures
        out@ == text_or(text_view(value), default@),
{
    match value {
        Some(v) => v.clone(),
        None => String::from_str(default),
    }
}

/// Resolves an optional text setting.
pub fn read_opt_text(value: Option<&String>) -> (out: Option<String>)
    ensures
        (match out {
            Some(v) => Some(v@),
            None => None,
        }) == text_if_any(text_view(value)),
{
    match value {
        Some(v) => {
            if v.as_str().unicode_len() > 0 {
                Some(v.clone())
            } else {
                None
            }
        },
        None => None,
    }
}

/// Resolves a 16-bit numeric setting.
pub fn read_u16(value: Option<&String>, default: u16) -> (out: u16)
    ensures
        out == number_or(text_view(value), u16::MAX as nat, default as nat),
{
    match value {
        Some(v) => match parse_u16(v.as_str()) {
            Some(n) => n,
            None => default,
        },
        None => default,
    }
}

/// Resolves a 32-bit numeric setting.
pub fn read_u32(value: Option<&String>, default: u32) -> (out: u32)
    ensures
        out == number_or(text_view(value), u32::MAX as nat, default as nat),
{
    match value {
        Some(v) => match parse_u32(v.as_str()) {
            Some(n) => n,
            None => default,
        },
        None => default,
    }
}

/// Resolves an optional 32-bit numeric setting.
pub fn read_opt_u32(value: Option<&String>) -> (out: Option<u32>)
    ensures
        out == u32_if_any(text_view(value)),
{
    match value {
        Some(v) => parse_u32(v.as_str()),
        None => None,
    }
}

/// Resolves a flag setting.
pub fn read_flag(value: Option<&String>, default: bool) -> (out: bool)
    ensures
        out == flag_or(text_view(value), default),
{
    match value {
        Some(v) => match parse_flag(v.as_str()) {
            Some(b) => b,
            None => default,
        },
        None => default,
    }
}

impl AppConfig {
    /// Resolves the configuration from the environment variables `vars`, given
    /// as pairs of name and value. Of two variables with one name the first
    /// counts.
    pub fn from_env(vars: &Vec<(String, String)>) -> (cfg: AppConfig)
        ensures
            cfg@ == config_from_env(vars@),
    {
        AppConfig {
            title: read_text(lookup(vars, "TAUPY_WINDOW_TITLE"), DEFAULT_TITLE),
            port: read_u16(lookup(vars, "TAUPY_WINDOW_PORT"), DEFAULT_PORT),
            width: read_u32(lookup(vars, "TAUPY_WINDOW_WIDTH"), DEFAULT_WIDTH),
            height: read_u32(lookup(vars, "TAUPY_WINDOW_HEIGHT"), DEFAULT_HEIGHT),
            dist: read_opt_text(lookup(vars, "TAUPY_WINDOW_DIST")),
            external: read_flag(lookup(vars, "TAUPY_WINDOW_EXTERNAL"), false),
            frameless: read_flag(lookup(vars, "TAUPY_WINDOW_FRAMELESS"), false),
            transparent: read_flag(lookup(vars, "TAUPY_WINDOW_TRANSPARENT"), false),
            always_on_top: read_flag(lookup(vars, "TAUPY_WINDOW_ALWAYS_ON_TOP"), false),
            resizable: read_flag(lookup(vars, "TAUPY_WINDOW_RESIZABLE"), true),
            min_width: read_opt_u32(lookup(vars, "TAUPY_WINDOW_MIN_WIDTH")),
            min_height: read_opt_u32(lookup(vars, "TAUPY_WINDOW_MIN_HEIGHT")),
            max_width: read_opt_u32(lookup(vars, "TAUPY_WINDOW_MAX_WIDTH")),
            max_height: read_opt_u32(lookup(vars, "TAUPY_WINDOW_MAX_HEIGHT")),
            open_devtools: read_flag(lookup(vars, "TAUPY_WINDOW_OPEN_DEVTOOLS"), false),
        }
    }
}

impl Default for AppConfig {
    /// The configuration in which every setting has its default.
    fn default() -> (cfg: AppConfig)
        ensures
            cfg@ == default_config(),
    {
        AppConfig {
            title: String::from_str(DEFAULT_TITLE),
            port: DEFAULT_PORT,
            width: DEFAULT_WIDTH,
            height: DEFAULT_HEIGHT,
            dist: None,
            external: false,
            frameless: false,
            transparent: false,
            always_on_top: false,
            resizable: true,
            min_width: None,
            min_height: None,
            max_width: None,
            max_height: None,
            open_devtools: false,
        }
    }
}

} // verus!
