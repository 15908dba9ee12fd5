//! Persistent applet settings.

use vstd::prelude::*;

verus! {

/// Versioned applet config (stored under the app id, version 1).
#[derive(Debug, Clone, PartialEq, Eq)]
pub struct Config {
    /// Placeholder value until real sensor settings are added.
    demo: String,
}

impl Config {
    /// The stored placeholder text.
    pub closed spec fn demo_view(&self) -> Seq<char> {
        self.demo@
    }

    /// Builds a config holding `demo`.
    pub fn new(demo: String) -> (c: Config)
        ensures
            c.demo_view() == demo@,
    {
        Config { demo }
    }

    /// The stored placeholder text.
    pub fn demo(&self) -> (s: &str)
        ensures
            s@ == self.demo_view(),
    {
        self.demo.as_str()
    }
}

/// What reading the stored config produced.
pub enum ConfigLoad {
    /// No config context could be opened for the app id.
    Unavailable,
    /// Every key was read cleanly.
    Complete(Config),
    /// Some keys failed to read; the value holds what did load, with
    /// defaults for the rest.
    Partial(Config),
}

impl Config {
    /// The config the applet starts with: whatever loaded (cleanly or in
    /// part), or the defaults when no config context exists.
    pub fn from_load(outcome: ConfigLoad) -> (c: Config)
        ensures
            match outcome {
                ConfigLoad::Unavailable => c.demo_view() == Seq::<char>::empty(),
                ConfigLoad::Complete(loaded) => c == loaded,
                ConfigLoad::Partial(loaded) => c == loaded,
            },
    {
        match outcome {
            ConfigLoad::Unavailable => Config::default(),
            ConfigLoad::Complete(loaded) => loaded,
            ConfigLoad::Partial(loaded) => loaded,
        }
    }
}

impl Default for Config {
    fn default() -> (c: Config)
        ensures
            c.demo_view() == Seq::<char>::empty(),
    {
        Config { demo: String::new() }
    }
}

} // verus!
