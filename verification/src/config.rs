//! Launcher configuration and its merge semantics.

use vstd::prelude::*;

verus! {

/// Launcher configuration.
#[derive(Debug, Clone)]
pub struct Config {
    /// Release channel: stable, beta, nightly
    pub channel: String,
    /// Application version or "latest"
    pub karate_version: String,
    /// Explicit path to a runtime directory, overriding discovery.
    pub jre_path: Option<String>,
    /// Explicit path to the directory holding application archives.
    pub dist_path: Option<String>,
    /// Additional JVM options.
    pub jvm_opts: Option<String>,
    /// Check for updates on run.
    pub check_updates: bool,
}

/// A configuration holding only the built-in defaults.
pub open spec fn spec_is_default_config(c: Config) -> bool {
    &&& c.channel@ == "stable"@
    &&& c.karate_version@ == "latest"@
    &&& c.jre_path is None
    &&& c.dist_path is None
    &&& c.jvm_opts is None
    &&& c.check_updates == true
}

/// The result of merging `other` into `base`: every field of `other` that
/// differs from its default takes precedence.
pub open spec fn spec_merge(base: Config, other: Config) -> Config {
    Config {
        channel: if other.channel@ != "stable"@ {
            other.channel
        } else {
            base.channel
        },
        karate_version: if other.karate_version@ != "latest"@ {
            other.karate_version
        } else {
            base.karate_version
        },
        jre_path: if other.jre_path is Some {
            other.jre_path
        } else {
            base.jre_path
        },
        dist_path: if other.dist_path is Some {
            other.dist_path
        } else {
            base.dist_path
        },
        jvm_opts: if other.jvm_opts is Some {
            other.jvm_opts
        } else {
            base.jvm_opts
        },
        check_updates: base.check_updates && other.check_updates,
    }
}

impl Default for Config {
    /// The built-in defaults: stable channel, latest version, no explicit
    /// paths, update checks on.
    fn default() -> (r: Config)
        ensures
            spec_is_default_config(r),
    {
        Config {
            channel: "stable".to_owned(),
            karate_version: "latest".to_owned(),
            jre_path: None,
            dist_path: None,
            jvm_opts: None,
            check_updates: true,
        }
    }
}

impl Config {
    /// Merge another configuration into this one; non-default fields of
    /// `other` take precedence.
    pub fn merge(&mut self, other: &Config)
        ensures
            *final(self) == spec_merge(*old(self), *other),
    {
        if !crate::text::eq_str(other.channel.as_str(), "stable") {
            self.channel = other.channel.clone();
        }
        if !crate::text::eq_str(other.karate_version.as_str(), "latest") {
            self.karate_version = other.karate_version.clone();
        }
        match &other.jre_path {
            Some(p) => { self.jre_path = Some(p.clone()); },
            None => {},
        }
        match &other.dist_path {
            Some(p) => { self.dist_path = Some(p.clone()); },
            None => {},
        }
        match &other.jvm_opts {
            Some(p) => { self.jvm_opts = Some(p.clone()); },
            None => {},
        }
        if !other.check_updates {
            self.check_updates = false;
        }
    }
}

/// The channel that layering `local` over `global` over the defaults yields.
pub open spec fn spec_layered_channel(global: Option<&Config>, local: Option<&Config>) -> Seq<
    char,
> {
    let g = if global is Some && global->0.channel@ != "stable"@ {
        global->0.channel@
    } else {
        "stable"@
    };
    if local is Some && local->0.channel@ != "stable"@ {
        local->0.channel@
    } else {
        g
    }
}

/// The version that layering `local` over `global` over the defaults yields.
pub open spec fn spec_layered_version(global: Option<&Config>, local: Option<&Config>) -> Seq<
    char,
> {
    let g = if global is Some && global->0.karate_version@ != "latest"@ {
        global->0.karate_version@
    } else {
        "latest"@
    };
    if local is Some && local->0.karate_version@ != "latest"@ {
        local->0.karate_version@
    } else {
        g
    }
}

/// An optional field layered in the same precedence order.
pub open spec fn spec_layered_opt(g: Option<String>, l: Option<String>) -> Option<String> {
    if l is Some {
        l
    } else {
        g
    }
}

/// Merge all applicable configurations: the global one (when present) is
/// layered over the defaults, and the project-local one (when present) is
/// layered over the result. Precedence: local over global over defaults.
pub fn load_merged_config(global: Option<&Config>, local: Option<&Config>) -> (r: Config)
    ensures
        r.channel@ == spec_layered_channel(global, local),
        r.karate_version@ == spec_layered_version(global, local),
        r.jre_path == spec_layered_opt(
            if global is Some { global->0.jre_path } else { None },
            if local is Some { local->0.jre_path } else { None },
        ),
        r.dist_path == spec_layered_opt(
            if global is Some { global->0.dist_path } else { None },
            if local is Some { local->0.dist_path } else { None },
        ),
        r.jvm_opts == spec_layered_opt(
            if global is Some { global->0.jvm_opts } else { None },
            if local is Some { local->0.jvm_opts } else { None },
        ),
        r.check_updates == ((global is Some ==> global->0.check_updates) && (local is Some
            ==> local->0.check_updates)),
{
    let mut config = Config::default();
    match global {
        Some(g) => config.merge(g),
        None => {},
    }
    match local {
        Some(l) => config.merge(l),
        None => {},
    }
    config
}

} // verus!
