//! Release-tooling configuration and its defaults.
use vstd::prelude::*;

verus! {

/// Schema metadata.
#[derive(Clone, Debug)]
pub struct MetaConfig {
    pub config_version: u32,
}

/// Which sources the code oracle indexes, and where its model lives.
#[derive(Clone, Debug)]
pub struct OracleConfig {
    pub include_globs: Vec<String>,
    pub exclude_globs: Vec<String>,
    pub model_path: String,
}

/// Self-healing settings.
#[derive(Clone, Debug)]
pub struct HealConfig {
    pub max_attempts: u32,
    pub model_id: String,
    pub enabled: bool,
}

/// Release settings.
#[derive(Clone, Debug)]
pub struct ShipConfig {
    pub require_branches: Vec<String>,
    pub version_scheme: String,
}

/// The whole release-tooling configuration.
#[derive(Clone, Debug)]
pub struct Config {
    pub meta: MetaConfig,
    pub oracle: OracleConfig,
    pub heal: HealConfig,
    pub ship: ShipConfig,
}

/// Views of a list of strings.
pub open spec fn string_views(v: Seq<String>) -> Seq<Seq<char>> {
    Seq::new(v.len(), |i: int| v[i]@)
}

/// Whether `c` holds the default settings.
pub open spec fn is_default_config(c: Config) -> bool {
    &&& c.meta.config_version == 1
    &&& string_views(c.oracle.include_globs@) == seq!["src/**/*.rs"@, "src/**/*.py"@]
    &&& string_views(c.oracle.exclude_globs@) == seq!["target/"@, "venv/"@, ".git/"@]
    &&& c.oracle.model_path@ == "~/.arqon/models/"@
    &&& c.heal.max_attempts == 2
    &&& c.heal.model_id@ == "deepseek-coder-1.3b-instruct"@
    &&& c.heal.enabled
    &&& string_views(c.ship.require_branches@) == seq!["main"@]
    &&& c.ship.version_scheme@ == "semver"@
}

impl Default for Config {
    fn default() -> (r: Self)
        ensures
            is_default_config(r),
    {
        let include_globs = vec!["src/**/*.rs".to_owned(), "src/**/*.py".to_owned()];
        let exclude_globs = vec!["target/".to_owned(), "venv/".to_owned(), ".git/".to_owned()];
        let require_branches = vec!["main".to_owned()];
        let r = Config {
            meta: MetaConfig { config_version: 1 },
            oracle: OracleConfig {
                include_globs,
                exclude_globs,
                model_path: "~/.arqon/models/".to_owned(),
            },
            heal: HealConfig {
                max_attempts: 2,
                model_id: "deepseek-coder-1.3b-instruct".to_owned(),
                enabled: true,
            },
            ship: ShipConfig { require_branches, version_scheme: "semver".to_owned() },
        };
        assert(string_views(r.oracle.include_globs@) =~= seq!["src/**/*.rs"@, "src/**/*.py"@]);
        assert(string_views(r.oracle.exclude_globs@) =~= seq!["target/"@, "venv/"@, ".git/"@]);
        assert(string_views(r.ship.require_branches@) =~= seq!["main"@]);
        r
    }
}

impl Config {
    /// The default configuration.
    pub fn load_default() -> (r: Self)
        ensures
            is_default_config(r),
    {
        Self::default()
    }
}

} // verus!
