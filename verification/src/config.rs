//! The settings of the program, and how those of the version before are taken
//! over.

use vstd::prelude::*;
use vstd::string::*;

use crate::agents::BaseCodingAgent;
use crate::profile;
use crate::profile::setting_laws;
use crate::profile::{canonical_variant_key, ExecutorProfileId, ProfileIdView};
use crate::text;

verus! {

/// The language of the user interface.
#[derive(Debug, Clone, Copy, PartialEq, Eq, Structural)]
pub enum UiLanguage {
    /// The one that the browser asks for.
    Browser,
    En,
    Fr,
    Ja,
    Es,
    Ko,
    ZhHans,
    ZhHant,
}

impl Default for UiLanguage {
    fn default() -> (res: Self)
        ensures
            res == UiLanguage::Browser,
    {
        UiLanguage::Browser
    }
}

/// The settings that are taken over as they are, each in its JSON form.
#[derive(Debug)]
pub struct CarriedSettings {
    pub theme: String,
    pub notifications: String,
    pub editor: String,
    pub github: String,
}

/// A profile as it was named before, in kebab case.
#[derive(Debug)]
pub struct ProfileVariantLabel {
    pub profile: String,
    pub variant: Option<String>,
}

impl ProfileVariantLabel {
    /// A profile without a variant.
    pub fn default(profile: String) -> (res: Self)
        ensures
            res.profile == profile,
            res.variant is None,
    {
        ProfileVariantLabel { profile, variant: None }
    }

    /// A variant of a profile.
    pub fn with_variant(profile: String, variant: String) -> (res: Self)
        ensures
            res.profile == profile,
            res.variant == Some(variant),
    {
        ProfileVariantLabel { profile, variant: Some(variant) }
    }
}

/// The settings of the version before.
#[derive(Debug)]
pub struct PreviousConfig {
    pub profile: ProfileVariantLabel,
    pub disclaimer_acknowledged: bool,
    pub onboarding_acknowledged: bool,
    pub github_login_acknowledged: bool,
    pub telemetry_acknowledged: bool,
    pub settings: CarriedSettings,
    pub analytics_enabled: Option<bool>,
    pub workspace_dir: Option<String>,
    pub last_app_version: Option<String>,
    pub show_release_notes: bool,
}

/// The settings of the program.
#[derive(Debug)]
pub struct Config {
    pub config_version: String,
    pub executor_profile: ExecutorProfileId,
    pub disclaimer_acknowledged: bool,
    pub onboarding_acknowledged: bool,
    pub github_login_acknowledged: bool,
    pub telemetry_acknowledged: bool,
    pub settings: CarriedSettings,
    pub analytics_enabled: Option<bool>,
    pub workspace_dir: Option<String>,
    pub last_app_version: Option<String>,
    pub show_release_notes: bool,
    pub language: UiLanguage,
}

/// The agent that a profile of the version before stands for. A name that is not
/// known stands for `ClaudeCode`.
pub open spec fn migrated_agent(profile: Seq<char>) -> BaseCodingAgent {
    match BaseCodingAgent::named(text::unicode_upper(text::replaced(profile, '-', '_'))) {
        Some(agent) => agent,
        None => BaseCodingAgent::ClaudeCode,
    }
}

/// The profile that one of the version before stands for.
pub open spec fn migrated_profile(label: ProfileVariantLabel) -> ProfileIdView {
    ProfileIdView {
        executor: migrated_agent(label.profile@),
        variant: match label.variant {
            Some(variant) => Some(profile::canonical_key(variant@)),
            None => None,
        },
    }
}

/// The agent that a name in uppercase stands for, with `ClaudeCode` for one that
/// is not known.
pub fn agent_of_name(upper_name: &str) -> (res: BaseCodingAgent)
    ensures
        res == match BaseCodingAgent::named(upper_name@) {
            Some(agent) => agent,
            None => BaseCodingAgent::ClaudeCode,
        },
{
    match BaseCodingAgent::from_name(upper_name) {
        Some(agent) => agent,
        None => BaseCodingAgent::ClaudeCode,
    }
}

/// The profile that one of the version before stands for.
pub fn executor_profile_from_v5(label: &ProfileVariantLabel) -> (res: ExecutorProfileId)
    ensures
        res@ == migrated_profile(*label),
        text::all_ascii(label.profile@) ==> res.executor == match BaseCodingAgent::named(
            profile::modern_name(label.profile@),
        ) {
            Some(agent) => agent,
            None => BaseCodingAgent::ClaudeCode,
        },
{
    let underscored = text::replace_char(label.profile.as_str(), '-', '_');
    assert(text::all_ascii(label.profile@) ==> text::all_ascii(underscored@));
    let normalized = text::to_uppercase(underscored.as_str());
    let executor = agent_of_name(normalized.as_str());
    match &label.variant {
        Some(variant) => ExecutorProfileId::with_variant(
            executor,
            canonical_variant_key(variant.as_str()),
        ),
        None => ExecutorProfileId::new(executor),
    }
}

/// The name under which the profiles of the version before are kept.
pub fn profiles_backup_name(seconds_since_epoch: u64) -> (res: String)
    ensures
        res@ == "profiles_v5_backup_"@ + text::decimal(seconds_since_epoch as nat) + ".json"@,
{
    let number = text::decimal_of(seconds_since_epoch);
    text::concat3("profiles_v5_backup_", number.as_str(), ".json")
}

impl Config {
    /// Whether settings are those of the version before, taken over.
    pub open spec fn is_migration_of(self, old: PreviousConfig) -> bool {
        &&& self.config_version@ == "v6"@
        &&& self.executor_profile@ == migrated_profile(old.profile)
        &&& self.disclaimer_acknowledged == old.disclaimer_acknowledged
        &&& self.onboarding_acknowledged == old.onboarding_acknowledged
        &&& self.github_login_acknowledged == old.github_login_acknowledged
        &&& self.telemetry_acknowledged == old.telemetry_acknowledged
        &&& self.settings == old.settings
        &&& self.analytics_enabled == old.analytics_enabled
        &&& self.workspace_dir == old.workspace_dir
        &&& self.last_app_version == old.last_app_version
        &&& self.show_release_notes == old.show_release_notes
        &&& self.language == UiLanguage::Browser
    }

    /// Whether settings are those that a user starts with.
    pub open spec fn is_initial(self, settings: CarriedSettings) -> bool {
        &&& self.config_version@ == "v6"@
        &&& self.executor_profile@ == (ProfileIdView {
            executor: BaseCodingAgent::ClaudeCode,
            variant: None,
        })
        &&& !self.disclaimer_acknowledged
        &&& !self.onboarding_acknowledged
        &&& !self.github_login_acknowledged
        &&& !self.telemetry_acknowledged
        &&& self.settings == settings
        &&& self.analytics_enabled is None
        &&& self.workspace_dir is None
        &&& self.last_app_version is None
        &&& !self.show_release_notes
        &&& self.language == UiLanguage::Browser
    }

    /// Takes over the settings of the version before.
    pub fn from_previous_version(old: PreviousConfig) -> (res: Self)
        ensures
            res.is_migration_of(old),
    {
        Config {
            config_version: "v6".to_owned(),
            executor_profile: executor_profile_from_v5(&old.profile),
            disclaimer_acknowledged: old.disclaimer_acknowledged,
            onboarding_acknowledged: old.onboarding_acknowledged,
            github_login_acknowledged: old.github_login_acknowledged,
            telemetry_acknowledged: old.telemetry_acknowledged,
            settings: old.settings,
            analytics_enabled: old.analytics_enabled,
            workspace_dir: old.workspace_dir,
            last_app_version: old.last_app_version,
            show_release_notes: old.show_release_notes,
            language: UiLanguage::Browser,
        }
    }

    /// The settings that a user starts with.
    pub fn initial(settings: CarriedSettings) -> (res: Self)
        ensures
            res.is_initial(settings),
    {
        Config {
            config_version: "v6".to_owned(),
            executor_profile: ExecutorProfileId::new(BaseCodingAgent::ClaudeCode),
            disclaimer_acknowledged: false,
            onboarding_acknowledged: false,
            github_login_acknowledged: false,
            telemetry_acknowledged: false,
            settings,
            analytics_enabled: None,
            workspace_dir: None,
            last_app_version: None,
            show_release_notes: false,
            language: UiLanguage::Browser,
        }
    }

    /// The settings to use, from what the stored ones were read as: settings of
    /// this version, those of the version before, or neither.
    pub fn from_stored(
        current: Option<Config>,
        previous: Option<PreviousConfig>,
        initial_settings: CarriedSettings,
    ) -> (res: Self)
        ensures
            match (current, previous) {
                (Some(config), _) if config.config_version@ == "v6"@ => res == config,
                (_, Some(old)) => res.is_migration_of(old),
                (_, None) => res.is_initial(initial_settings),
            },
    {
        if let Some(config) = current {
            if *config.config_version.as_str() == *"v6" {
                return config;
            }
        }
        match previous {
            Some(old) => Self::from_previous_version(old),
            None => Self::initial(initial_settings),
        }
    }
}

/// Settings of the version before are taken over, each under its own name; what
/// that version did not have is as at the start.
pub proof fn law_settings_are_taken_over(old: PreviousConfig, new: Config)
    requires
        call_ensures(Config::from_previous_version, (old,), new),
    ensures
        new.config_version@ == "v6"@,
        new.disclaimer_acknowledged == old.disclaimer_acknowledged,
        new.onboarding_acknowledged == old.onboarding_acknowledged,
        new.github_login_acknowledged == old.github_login_acknowledged,
        new.telemetry_acknowledged == old.telemetry_acknowledged,
        new.settings.theme@ == old.settings.theme@,
        new.settings.notifications@ == old.settings.notifications@,
        new.settings.editor@ == old.settings.editor@,
        new.settings.github@ == old.settings.github@,
        new.analytics_enabled == old.analytics_enabled,
        new.workspace_dir == old.workspace_dir,
        new.last_app_version == old.last_app_version,
        new.show_release_notes == old.show_release_notes,
        new.language == UiLanguage::Browser,
{
}

/// The profile of the version before is taken over as it is read alone.
pub proof fn law_profile_is_taken_over(
    old: PreviousConfig,
    new: Config,
    profile: ExecutorProfileId,
)
    requires
        call_ensures(Config::from_previous_version, (old,), new),
        call_ensures(executor_profile_from_v5, (&old.profile,), profile),
    ensures
        new.executor_profile.executor == profile.executor,
        new.executor_profile.variant.deep_view() == profile.variant.deep_view(),
{
    assert(new.executor_profile@ == profile@);
}

/// A profile that was named in kebab case is of the agent of that name, with the
/// canonical name of its variant.
pub proof fn law_named_profile_is_of_its_agent(
    label: ProfileVariantLabel,
    agent: BaseCodingAgent,
    name: &str,
    variant: &str,
    key: String,
    profile: ExecutorProfileId,
)
    requires
        call_ensures(executor_profile_from_v5, (&label,), profile),
        call_ensures(BaseCodingAgent::as_str, (&agent,), name),
        call_ensures(canonical_variant_key, (variant,), key),
        setting_laws::is_kebab_of(label.profile@, name@),
        label.variant matches Some(given) ==> given@ == variant@,
    ensures
        profile.executor == agent,
        profile.variant is Some <==> label.variant is Some,
        label.variant is Some ==> profile.variant->0@ == key@,
{
    crate::agents::law_name_stands_for_its_agent(agent);
    setting_laws::lemma_kebab_is_modern(agent, label.profile@);
    assert(profile@.variant == profile.variant.deep_view());
    if label.variant is Some {
        assert(profile@.variant == Some(key@));
        assert(profile.variant.deep_view() == Some(profile.variant->0@));
    } else {
        assert(profile@.variant is None);
    }
}

/// A user starts with nothing acknowledged, the default profile, and the given
/// settings.
pub proof fn law_first_settings_acknowledge_nothing(settings: CarriedSettings, new: Config)
    requires
        call_ensures(Config::initial, (settings,), new),
    ensures
        new.config_version@ == "v6"@,
        new.executor_profile.executor == BaseCodingAgent::ClaudeCode,
        new.executor_profile.variant is None,
        !new.disclaimer_acknowledged,
        !new.onboarding_acknowledged,
        !new.github_login_acknowledged,
        !new.telemetry_acknowledged,
        new.settings == settings,
        new.analytics_enabled is None,
        new.workspace_dir is None,
        new.last_app_version is None,
        !new.show_release_notes,
        new.language == UiLanguage::Browser,
{
    assert(new.executor_profile@.variant is None);
}

/// Stored settings of this version are used as they are.
pub proof fn law_stored_settings_are_used(
    stored: Config,
    previous: Option<PreviousConfig>,
    initial_settings: CarriedSettings,
    used: Config,
)
    requires
        call_ensures(Config::from_stored, (Some(stored), previous, initial_settings), used),
        stored.config_version@ == "v6"@,
    ensures
        used == stored,
{
}

/// Where there are no settings of this version, those of the version before are
/// taken over.
pub proof fn law_older_settings_are_taken_over(
    stored: Option<Config>,
    old: PreviousConfig,
    initial_settings: CarriedSettings,
    used: Config,
)
    requires
        call_ensures(Config::from_stored, (stored, Some(old), initial_settings), used),
        stored is Some ==> stored->0.config_version@ != "v6"@,
    ensures
        used.config_version@ == "v6"@,
        used.disclaimer_acknowledged == old.disclaimer_acknowledged,
        used.onboarding_acknowledged == old.onboarding_acknowledged,
        used.github_login_acknowledged == old.github_login_acknowledged,
        used.telemetry_acknowledged == old.telemetry_acknowledged,
        used.settings == old.settings,
        used.analytics_enabled == old.analytics_enabled,
        used.workspace_dir == old.workspace_dir,
        used.last_app_version == old.last_app_version,
        used.show_release_notes == old.show_release_notes,
{
}

/// Where nothing was stored that can be read, a user starts anew.
pub proof fn law_unreadable_settings_start_anew(
    stored: Option<Config>,
    initial_settings: CarriedSettings,
    used: Config,
)
    requires
        call_ensures(Config::from_stored, (stored, None, initial_settings), used),
        stored is Some ==> stored->0.config_version@ != "v6"@,
    ensures
        !used.disclaimer_acknowledged,
        !used.onboarding_acknowledged,
        used.executor_profile.executor == BaseCodingAgent::ClaudeCode,
        used.executor_profile.variant is None,
        used.settings == initial_settings,
        used.workspace_dir is None,
{
    assert(used.executor_profile@.variant is None);
}

/// Profiles that were put aside at different times have different names.
pub proof fn law_backups_have_names_of_their_own(
    a: u64,
    b: u64,
    a_digits: String,
    a_name: String,
    b_name: String,
)
    requires
        call_ensures(text::decimal_of, (a,), a_digits),
        call_ensures(profiles_backup_name, (a,), a_name),
        call_ensures(profiles_backup_name, (b,), b_name),
    ensures
        a_name@ == "profiles_v5_backup_"@ + a_digits@ + ".json"@,
        a != b ==> a_name@ != b_name@,
{
    if a_name@ == b_name@ {
        let start = "profiles_v5_backup_"@;
        let end = ".json"@;
        let x = text::decimal(a as nat);
        let y = text::decimal(b as nat);
        assert(a_name@.len() == start.len() + x.len() + end.len());
        assert(b_name@.len() == start.len() + y.len() + end.len());
        assert(x =~= a_name@.subrange(start.len() as int, start.len() + x.len() as int));
        assert(y =~= b_name@.subrange(start.len() as int, start.len() + y.len() as int));
        crate::text_laws::lemma_decimal(a as nat);
        crate::text_laws::lemma_decimal(b as nat);
    }
}

/// A name in uppercase is of the agent that has it, and a name that none has is
/// of the default one.
pub proof fn law_unknown_names_are_of_the_default(
    name: &str,
    agent: BaseCodingAgent,
    own: &str,
    res: BaseCodingAgent,
)
    requires
        call_ensures(agent_of_name, (name,), res),
        call_ensures(BaseCodingAgent::as_str, (&agent,), own),
    ensures
        name@ == own@ ==> res == agent,
        res != BaseCodingAgent::ClaudeCode && res == agent ==> name@ == own@ || (agent
            == BaseCodingAgent::CursorAgent && name@ == "CURSOR"@),
{
    crate::agents::law_name_stands_for_its_agent(agent);
}

/// A label has the profile and the variant that it is made with.
pub proof fn law_label_is_what_it_is_made_of(
    profile: String,
    variant: String,
    plain: ProfileVariantLabel,
    named: ProfileVariantLabel,
)
    requires
        call_ensures(ProfileVariantLabel::default, (profile,), plain),
        call_ensures(ProfileVariantLabel::with_variant, (profile, variant), named),
    ensures
        plain.profile@ == profile@,
        plain.variant is None,
        named.profile@ == profile@,
        named.variant is Some,
        named.variant->0@ == variant@,
{
}

} // verus!
