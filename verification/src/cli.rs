//! The command surface: the parsed shape of an invocation, the plugin
//! `name@version` token, and the small decisions the front-end takes before
//! dispatching (verbosity and version aliasing).

use vstd::prelude::*;

use crate::strutil;
use crate::strutil::find_char;

verus! {

/// One parsed invocation.
pub struct Cli {
    pub command: Commands,
    pub verbose: bool,
    pub quiet: bool,
}

pub enum Commands {
    /// Install the runtime at a version.
    Install {
        version: String,
        path: String,
        tmpdir: String,
        os: Option<String>,
        arch: Option<String>,
    },
    /// List available runtime versions.
    List,
    /// Remove a runtime installation.
    Remove { path: String },
    /// Manage plugins.
    Plugin { command: PluginCommands },
}

pub enum PluginCommands {
    Install { plugins: Vec<String> },
    List,
    Remove { plugins: Vec<String> },
}

/// The version that the alias `latest` currently stands for.
pub open spec fn latest_version() -> Seq<char> {
    "0.14.1"@
}

/// Replaces the `latest` alias by the version it stands for; any other
/// version string is kept as given.
pub fn resolve_version(version: &str) -> (r: String)
    ensures
        r@ == if version@ == "latest"@ {
            latest_version()
        } else {
            version@
        },
{
    if strutil::str_eq(version, "latest") {
        let r = String::new();
        r.concat("0.14.1")
    } else {
        version.to_owned()
    }
}

impl Cli {
    /// Splits a plugin token at the first `@` into a name and an optional
    /// version; a token without `@` is all name.
    pub fn parse_plugin_name_version(plugin_spec: &str) -> (r: (String, Option<String>))
        ensures
            ({
                let i = find_char(plugin_spec@, '@');
                if i >= 0 {
                    r.0@ == plugin_spec@.take(i) && match r.1 {
                        Some(v) => v@ == plugin_spec@.skip(i + 1),
                        None => false,
                    }
                } else {
                    r.0@ == plugin_spec@ && r.1 is None
                }
            }),
    {
        match strutil::find_in_str(plugin_spec, '@') {
            Some(i) => {
                let name = plugin_spec.substring_char(0, i);
                let n = plugin_spec.unicode_len();
                let version = plugin_spec.substring_char(i + 1, n);
                (name.to_owned(), Some(version.to_owned()))
            },
            None => (plugin_spec.to_owned(), None),
        }
    }

    /// The log filter the front-end selects: `debug` when verbose, `warn`
    /// when quiet, `info` otherwise; verbosity wins over quietness.
    pub fn log_filter(&self) -> (r: &'static str)
        ensures
            r@ == if self.verbose {
                "debug"@
            } else if !self.quiet {
                "info"@
            } else {
                "warn"@
            },
    {
        if self.verbose {
            "debug"
        } else if !self.quiet {
            "info"
        } else {
            "warn"
        }
    }
}

} // verus!
