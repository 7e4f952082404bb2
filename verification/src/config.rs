use vstd::prelude::*;

verus! {

/// The citation rendering rule in force.
///
/// `Ieee` and `Apa` are declared members of the set of standards but have no
/// rendering rule: asking to format under them yields an "unsupported
/// standard" error rather than a fallback.
#[derive(Clone, Copy, PartialEq, Eq, Structural, Debug)]
pub enum FormatStandard {
    Default,
    Custom,
    Ieee,
    Apa,
}

/// A configuration failure, reported to the caller instead of ending the
/// process.
#[derive(Clone, Copy, PartialEq, Eq, Structural, Debug)]
pub enum ConfigError {
    LoadFailure,
    SaveFailure,
}

/// The persistent settings: the active format standard and the custom
/// template, plus the two interface language codes.
#[derive(Debug)]
pub struct Config {
    pub ui_lang: String,
    pub source_lang: String,
    pub format_standard: FormatStandard,
    pub custom_format: String,
}

/// The template a fresh configuration starts from.
pub open spec fn spec_default_template() -> Seq<char> {
    "{AUTHOR}: {TITLE}, {URL}"@
}

impl Clone for Config {
    fn clone(&self) -> (r: Self)
        ensures
            r.ui_lang@ == self.ui_lang@,
            r.source_lang@ == self.source_lang@,
            r.format_standard == self.format_standard,
            r.custom_format@ == self.custom_format@,
    {
        Config {
            ui_lang: self.ui_lang.clone(),
            source_lang: self.source_lang.clone(),
            format_standard: self.format_standard,
            custom_format: self.custom_format.clone(),
        }
    }
}

impl Default for Config {
    fn default() -> (c: Config)
        ensures
            c.ui_lang@ == "en"@,
            c.source_lang@ == "en"@,
            c.format_standard is Default,
            c.custom_format@ == spec_default_template(),
    {
        Config {
            ui_lang: String::from_str("en"),
            source_lang: String::from_str("en"),
            format_standard: FormatStandard::Default,
            custom_format: String::from_str("{AUTHOR}: {TITLE}, {URL}"),
        }
    }
}

/// What an attempt to read the persistent configuration reported.
pub enum ConfigLoadOutcome {
    /// A configuration was read.
    Loaded(Config),
    /// The stored data was unreadable as a configuration.
    BadData,
    /// The store could not be reached at all.
    Failed,
}

/// Decides what a configuration load attempt amounts to: a loaded
/// configuration is used as is; unreadable data falls back to the default
/// configuration, which should also be written back (the boolean); a store
/// failure is reported as a load error.
pub fn resolve_config_load(outcome: ConfigLoadOutcome) -> (r: Result<(Config, bool), ConfigError>)
    ensures
        outcome is Loaded ==> r is Ok && r->Ok_0.0.ui_lang@ == outcome->Loaded_0.ui_lang@
            && r->Ok_0.0.source_lang@ == outcome->Loaded_0.source_lang@
            && r->Ok_0.0.format_standard == outcome->Loaded_0.format_standard
            && r->Ok_0.0.custom_format@ == outcome->Loaded_0.custom_format@
            && r->Ok_0.1 == false,
        outcome is BadData ==> r is Ok && r->Ok_0.0.format_standard is Default
            && r->Ok_0.0.custom_format@ == spec_default_template() && r->Ok_0.1 == true,
        outcome is Failed ==> r is Err && r->Err_0 == ConfigError::LoadFailure,
{
    match outcome {
        ConfigLoadOutcome::Loaded(c) => Ok((c, false)),
        ConfigLoadOutcome::BadData => Ok((Config::default(), true)),
        ConfigLoadOutcome::Failed => Err(ConfigError::LoadFailure),
    }
}

} // verus!
