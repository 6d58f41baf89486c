//! The configuration: named profiles and the address of the control plane.

use vstd::prelude::*;
use vstd::string::*;

verus! {

/// The name of the profile that a fresh configuration holds.
pub const DEFAULT_PROFILE: &'static str = "ubuntu";

/// The image of the profile that a fresh configuration holds.
pub const DEFAULT_IMAGE: &'static str = "ubuntu:latest";

/// The control plane's address in a fresh configuration.
pub const DEFAULT_HOSTNAME: &'static str = "localhost:2375";

/// The scheme under which the control plane is reached.
pub const ENDPOINT_SCHEME: &'static str = "http://";

/// A template for environments: an image and what the environment may use.
#[derive(Debug, PartialEq, Eq)]
pub struct Profile {
    /// The reference of the template image.
    pub image: String,
    /// Whether environments made from this profile get the GPU.
    pub gpu: bool,
}

/// What a profile is, for the contracts.
pub ghost struct ProfileView {
    /// The reference of the template image.
    pub image: Seq<char>,
    /// Whether environments made from this profile get the GPU.
    pub gpu: bool,
}

impl View for Profile {
    type V = ProfileView;

    open spec fn view(&self) -> ProfileView {
        ProfileView { image: self.image@, gpu: self.gpu }
    }
}

impl Clone for Profile {
    fn clone(&self) -> (copy: Self)
        ensures
            copy == *self,
    {
        Profile { image: self.image.clone(), gpu: self.gpu }
    }
}

/// A profile under its name.
#[derive(Debug, PartialEq, Eq)]
struct ProfileEntry {
    name: String,
    profile: Profile,
}

/// The configuration. A name stands for at most one profile.
#[derive(Debug)]
pub struct MdkConfig {
    profiles: Vec<ProfileEntry>,
    hostname: String,
}

/// What a configuration is, for the contracts.
pub ghost struct MdkConfigView {
    /// The profiles by name.
    pub profiles: Map<Seq<char>, ProfileView>,
    /// The address of the control plane, as host and port.
    pub hostname: Seq<char>,
}

/// Whether the entry at index `i` carries `name`.
spec fn names(entries: Seq<ProfileEntry>, i: int, name: Seq<char>) -> bool {
    0 <= i < entries.len() && entries[i].name@ == name
}

/// Whether no two entries carry the same name.
spec fn distinct(entries: Seq<ProfileEntry>) -> bool {
    forall|i: int, j: int|
        0 <= i < j < entries.len() ==> #[trigger] entries[i].name@ != #[trigger] entries[j].name@
}

/// The index of an entry that carries `name`, if there is one.
spec fn position(entries: Seq<ProfileEntry>, name: Seq<char>) -> int {
    choose|i: int| names(entries, i, name)
}

/// The profiles that `entries` hold, by name.
spec fn profiles_of(entries: Seq<ProfileEntry>) -> Map<Seq<char>, ProfileView> {
    Map::new(
        |name: Seq<char>| exists|i: int| names(entries, i, name),
        |name: Seq<char>| entries[position(entries, name)].profile@,
    )
}

/// Among distinct entries, the entry that carries a name is the one that
/// stands for it.
proof fn lemma_profile_at(entries: Seq<ProfileEntry>, i: int)
    requires
        distinct(entries),
        0 <= i < entries.len(),
    ensures
        profiles_of(entries).contains_key(entries[i].name@),
        profiles_of(entries)[entries[i].name@] == entries[i].profile@,
{
    let name = entries[i].name@;
    assert(names(entries, i, name));
    let chosen = position(entries, name);
    assert(names(entries, chosen, name));
    if chosen < i {
        assert(entries[chosen].name@ != entries[i].name@);
    } else if i < chosen {
        assert(entries[i].name@ != entries[chosen].name@);
    }
}

impl View for MdkConfig {
    type V = MdkConfigView;

    closed spec fn view(&self) -> MdkConfigView {
        MdkConfigView { profiles: profiles_of(self.profiles@), hostname: self.hostname@ }
    }
}

impl MdkConfig {
    #[verifier::type_invariant]
    spec fn well_formed(self) -> bool {
        distinct(self.profiles@)
    }

    /// A configuration without profiles, for the control plane at
    /// `hostname`.
    pub fn new(hostname: String) -> (config: MdkConfig)
        ensures
            config@.profiles == Map::<Seq<char>, ProfileView>::empty(),
            config@.hostname == hostname@,
    {
        let config = MdkConfig { profiles: Vec::new(), hostname };
        assert(config@.profiles =~= Map::<Seq<char>, ProfileView>::empty());
        config
    }

    /// The index of the entry that carries `name`.
    fn find(&self, name: &str) -> (found: Option<usize>)
        ensures
            match found {
                Some(i) => names(self.profiles@, i as int, name@),
                None => forall|i: int| !names(self.profiles@, i, name@),
            },
    {
        let wanted = name.to_owned();
        let mut i: usize = 0;
        while i < self.profiles.len()
            invariant
                i <= self.profiles.len(),
                wanted@ == name@,
                forall|k: int| 0 <= k < i ==> !names(self.profiles@, k, name@),
            decreases self.profiles.len() - i,
        {
            if self.profiles[i].name == wanted {
                return Some(i);
            }
            i += 1;
        }
        None
    }

    /// The address of the control plane, as host and port.
    pub fn hostname(&self) -> (hostname: &String)
        ensures
            hostname@ == self@.hostname,
    {
        &self.hostname
    }

    /// The address under which the control plane is reached: the scheme
    /// followed by the host and port.
    pub fn endpoint(&self) -> (address: String)
        ensures
            address@ == ENDPOINT_SCHEME@ + self@.hostname,
    {
        String::from_str(ENDPOINT_SCHEME).concat(self.hostname.as_str())
    }

    /// Whether a profile stands under `name`.
    pub fn contains(&self, name: &str) -> (found: bool)
        ensures
            found == self@.profiles.contains_key(name@),
    {
        self.find(name).is_some()
    }

    /// The profile that stands under `name`, if there is one.
    pub fn get(&self, name: &str) -> (found: Option<&Profile>)
        ensures
            match found {
                Some(profile) => self@.profiles.contains_key(name@) && profile@
                    == self@.profiles[name@],
                None => !self@.profiles.contains_key(name@),
            },
    {
        proof {
            use_type_invariant(self);
        }
        match self.find(name) {
            Some(i) => {
                proof {
                    lemma_profile_at(self.profiles@, i as int);
                }
                Some(&self.profiles[i].profile)
            },
            None => None,
        }
    }

    /// Puts `profile` under `name`, in place of the profile that stood there,
    /// if one did.
    pub fn insert(&mut self, name: String, profile: Profile)
        ensures
            final(self)@.profiles == old(self)@.profiles.insert(name@, profile@),
            final(self)@.hostname == old(self)@.hostname,
    {
        proof {
            use_type_invariant(&*self);
        }
        let ghost before = self.profiles@;
        let found = self.find(name.as_str());
        let mut entries: Vec<ProfileEntry> = Vec::new();
        core::mem::swap(&mut entries, &mut self.profiles);
        let entry = ProfileEntry { name, profile };
        match found {
            Some(i) => {
                entries.set(i, entry);
            },
            None => {
                entries.push(entry);
            },
        }
        proof {
            let after = entries@;
            assert forall|a: int, b: int| 0 <= a < b < after.len() implies #[trigger] after[a].name@
                != #[trigger] after[b].name@ by {
                match found {
                    Some(i) => {
                        assert(after[a].name@ == before[a].name@);
                        assert(after[b].name@ == before[b].name@);
                    },
                    None => {
                        if b == after.len() - 1 {
                            assert(!names(before, a, name@));
                        }
                    },
                }
            }
            assert forall|i: int| 0 <= i < before.len() implies profiles_of(before).contains_key(
                #[trigger] before[i].name@,
            ) && profiles_of(before)[before[i].name@] == before[i].profile@ by {
                lemma_profile_at(before, i);
            }
            assert forall|i: int| 0 <= i < after.len() implies profiles_of(after).contains_key(
                #[trigger] after[i].name@,
            ) && profiles_of(after)[after[i].name@] == after[i].profile@ by {
                lemma_profile_at(after, i);
            }
            let wanted = profiles_of(before).insert(name@, profile@);
            assert forall|key: Seq<char>| profiles_of(after).contains_key(key) implies
                wanted.contains_key(key) && wanted[key] == profiles_of(after)[key] by {
                let k = choose|k: int| names(after, k, key);
                assert(names(after, k, key));
                if key != name@ {
                    assert(names(before, k, key));
                }
            }
            assert forall|key: Seq<char>| wanted.contains_key(key) implies profiles_of(
                after,
            ).contains_key(key) by {
                if key != name@ {
                    let k = choose|k: int| names(before, k, key);
                    assert(names(before, k, key));
                    assert(names(after, k, key));
                } else {
                    match found {
                        Some(i) => {
                            assert(names(after, i as int, key));
                        },
                        None => {
                            assert(names(after, after.len() - 1, key));
                        },
                    }
                }
            }
            assert(profiles_of(after) =~= wanted);
        }
        self.profiles = entries;
    }

    /// The names under which profiles stand, each once.
    pub fn profile_names(&self) -> (listed: Vec<String>)
        ensures
            forall|i: int, j: int|
                0 <= i < j < listed@.len() ==> #[trigger] listed@[i]@ != #[trigger] listed@[j]@,
            forall|i: int|
                0 <= i < listed@.len() ==> self@.profiles.contains_key(#[trigger] listed@[i]@),
            forall|name: Seq<char>|
                self@.profiles.contains_key(name) ==> exists|i: int|
                    0 <= i < listed@.len() && #[trigger] listed@[i]@ == name,
    {
        proof {
            use_type_invariant(self);
        }
        let mut listed: Vec<String> = Vec::new();
        let mut i: usize = 0;
        while i < self.profiles.len()
            invariant
                i <= self.profiles.len(),
                listed@.len() == i,
                forall|k: int| 0 <= k < i ==> #[trigger] listed@[k]@ == self.profiles@[k].name@,
            decreases self.profiles.len() - i,
        {
            listed.push(self.profiles[i].name.clone());
            i += 1;
        }
        proof {
            let entries = self.profiles@;
            assert forall|k: int| 0 <= k < listed@.len() implies self@.profiles.contains_key(
                #[trigger] listed@[k]@,
            ) by {
                assert(names(entries, k, listed@[k]@));
            }
            assert forall|name: Seq<char>| self@.profiles.contains_key(name) implies exists|i: int|
                0 <= i < listed@.len() && #[trigger] listed@[i]@ == name by {
                let k = choose|k: int| names(entries, k, name);
                assert(names(entries, k, name));
                assert(listed@[k]@ == name);
            }
        }
        listed
    }
}

impl MdkConfigView {
    /// The configuration that is written where none exists: the default
    /// profile alone, without the GPU, and the control plane on the local
    /// host.
    pub open spec fn fresh() -> MdkConfigView {
        MdkConfigView {
            profiles: Map::<Seq<char>, ProfileView>::empty().insert(
                DEFAULT_PROFILE@,
                ProfileView { image: DEFAULT_IMAGE@, gpu: false },
            ),
            hostname: DEFAULT_HOSTNAME@,
        }
    }
}

impl Default for MdkConfig {
    /// The configuration that is written where none exists.
    fn default() -> (config: MdkConfig)
        ensures
            config@ == MdkConfigView::fresh(),
    {
        let mut config = MdkConfig::new(String::from_str(DEFAULT_HOSTNAME));
        config.insert(
            String::from_str(DEFAULT_PROFILE),
            Profile { image: String::from_str(DEFAULT_IMAGE), gpu: false },
        );
        config
    }
}

/// The name of the configuration file in the user's home directory.
pub const CONFIG_FILE_NAME: &'static str = ".mdk";

/// Why no configuration could be had.
#[derive(Debug, PartialEq, Eq)]
pub enum ConfigError {
    /// The user's home directory is not known.
    HomeNotFound,
    /// The configuration file could not be read, for this cause.
    Read(String),
    /// The configuration file does not hold a configuration, for this cause.
    Parse(String),
    /// The fresh configuration could not be put into text, for this cause.
    Render(String),
    /// The configuration file could not be written, for this cause.
    Write(String),
}

impl ConfigError {
    /// A copy of this error.
    pub fn duplicate(&self) -> (copy: ConfigError)
        ensures
            copy == *self,
    {
        match self {
            ConfigError::HomeNotFound => ConfigError::HomeNotFound,
            ConfigError::Read(cause) => ConfigError::Read(cause.clone()),
            ConfigError::Parse(cause) => ConfigError::Parse(cause.clone()),
            ConfigError::Render(cause) => ConfigError::Render(cause.clone()),
            ConfigError::Write(cause) => ConfigError::Write(cause.clone()),
        }
    }
}

/// What the loader is told: the outcome of the action it asked for last.
/// `C` is the configuration: [`MdkConfig`] where the loader runs,
/// [`MdkConfigView`] in its contracts.
#[derive(Debug)]
pub enum ConfigEvent<C> {
    /// The caller wants the configuration.
    Begin,
    /// The user's home directory is known.
    HomeFound,
    /// The user's home directory is not known.
    HomeMissing,
    /// The configuration file exists.
    FileExists,
    /// There is no configuration file.
    FileMissing,
    /// The configuration file holds this text.
    FileRead(String),
    /// The configuration file could not be read, for this cause.
    ReadFailed(String),
    /// The text holds this configuration.
    Parsed(C),
    /// The text does not hold a configuration, for this cause.
    ParseFailed(String),
    /// The configuration reads like this as text.
    Rendered(String),
    /// The configuration could not be put into text, for this cause.
    RenderFailed(String),
    /// The configuration file was written.
    FileWritten,
    /// The configuration file could not be written, for this cause.
    WriteFailed(String),
}

/// What the loader asks for. `C` is the configuration, as in
/// [`ConfigEvent`].
#[derive(Debug)]
pub enum ConfigAction<C> {
    /// Find the user's home directory.
    FindHome,
    /// Find out whether the home directory holds a file of this name.
    ProbeFile(&'static str),
    /// Read the configuration file as text.
    ReadFile,
    /// Take the configuration out of this text.
    Parse(String),
    /// Put this configuration into text.
    Render(C),
    /// Write this text to the configuration file.
    WriteFile(String),
    /// Return this result to the caller.
    Finish(Result<C, ConfigError>),
}

impl View for ConfigEvent<MdkConfig> {
    type V = ConfigEvent<MdkConfigView>;

    open spec fn view(&self) -> ConfigEvent<MdkConfigView> {
        match *self {
            ConfigEvent::Begin => ConfigEvent::Begin,
            ConfigEvent::HomeFound => ConfigEvent::HomeFound,
            ConfigEvent::HomeMissing => ConfigEvent::HomeMissing,
            ConfigEvent::FileExists => ConfigEvent::FileExists,
            ConfigEvent::FileMissing => ConfigEvent::FileMissing,
            ConfigEvent::FileRead(text) => ConfigEvent::FileRead(text),
            ConfigEvent::ReadFailed(cause) => ConfigEvent::ReadFailed(cause),
            ConfigEvent::Parsed(config) => ConfigEvent::Parsed(config@),
            ConfigEvent::ParseFailed(cause) => ConfigEvent::ParseFailed(cause),
            ConfigEvent::Rendered(text) => ConfigEvent::Rendered(text),
            ConfigEvent::RenderFailed(cause) => ConfigEvent::RenderFailed(cause),
            ConfigEvent::FileWritten => ConfigEvent::FileWritten,
            ConfigEvent::WriteFailed(cause) => ConfigEvent::WriteFailed(cause),
        }
    }
}

impl View for ConfigAction<MdkConfig> {
    type V = ConfigAction<MdkConfigView>;

    open spec fn view(&self) -> ConfigAction<MdkConfigView> {
        match *self {
            ConfigAction::FindHome => ConfigAction::FindHome,
            ConfigAction::ProbeFile(name) => ConfigAction::ProbeFile(name),
            ConfigAction::ReadFile => ConfigAction::ReadFile,
            ConfigAction::Parse(text) => ConfigAction::Parse(text),
            ConfigAction::Render(config) => ConfigAction::Render(config@),
            ConfigAction::WriteFile(text) => ConfigAction::WriteFile(text),
            ConfigAction::Finish(Ok(config)) => ConfigAction::Finish(Ok(config@)),
            ConfigAction::Finish(Err(error)) => ConfigAction::Finish(Err(error)),
        }
    }
}

/// The step a loader is at.
#[derive(Debug, PartialEq, Eq)]
pub enum LoadPhase {
    /// Nothing was asked for yet.
    Idle,
    /// The home directory is being looked for.
    FindingHome,
    /// The configuration file is being looked for.
    Probing,
    /// The configuration file is being read.
    Reading,
    /// The file's text is being taken apart.
    Parsing,
    /// There is no file; the fresh configuration is being put into text.
    Rendering,
    /// The fresh configuration is being written to the file.
    Writing,
    /// The configuration came from the file.
    Loaded,
    /// The fresh configuration was written and returned.
    Created,
    /// No configuration could be had.
    Failed(ConfigError),
}

impl LoadPhase {
    /// Whether the loader has returned its result.
    pub open spec fn finished(self) -> bool {
        self is Loaded || self is Created || self is Failed
    }

    /// The step and the action with which a loader gives up for `error`.
    pub open spec fn failure(error: ConfigError) -> (LoadPhase, ConfigAction<MdkConfigView>) {
        (LoadPhase::Failed(error), ConfigAction::Finish(Err(error)))
    }

    /// The transition table: the step that follows and the action asked for,
    /// or `None` where `event` cannot follow the action that is outstanding.
    ///
    /// A file that exists is read and taken apart, and what it holds is
    /// returned. Where there is none, the fresh configuration is put into
    /// text, written, and returned. The first failure ends the load.
    pub open spec fn transition(self, event: ConfigEvent<MdkConfigView>) -> Option<
        (LoadPhase, ConfigAction<MdkConfigView>),
    > {
        match (self, event) {
            (LoadPhase::Idle, ConfigEvent::Begin) => Some(
                (LoadPhase::FindingHome, ConfigAction::FindHome),
            ),
            (LoadPhase::FindingHome, ConfigEvent::HomeFound) => Some(
                (LoadPhase::Probing, ConfigAction::ProbeFile(CONFIG_FILE_NAME)),
            ),
            (LoadPhase::FindingHome, ConfigEvent::HomeMissing) => Some(
                Self::failure(ConfigError::HomeNotFound),
            ),
            (LoadPhase::Probing, ConfigEvent::FileExists) => Some(
                (LoadPhase::Reading, ConfigAction::ReadFile),
            ),
            (LoadPhase::Probing, ConfigEvent::FileMissing) => Some(
                (LoadPhase::Rendering, ConfigAction::Render(MdkConfigView::fresh())),
            ),
            (LoadPhase::Reading, ConfigEvent::FileRead(text)) => Some(
                (LoadPhase::Parsing, ConfigAction::Parse(text)),
            ),
            (LoadPhase::Reading, ConfigEvent::ReadFailed(cause)) => Some(
                Self::failure(ConfigError::Read(cause)),
            ),
            (LoadPhase::Parsing, ConfigEvent::Parsed(config)) => Some(
                (LoadPhase::Loaded, ConfigAction::Finish(Ok(config))),
            ),
            (LoadPhase::Parsing, ConfigEvent::ParseFailed(cause)) => Some(
                Self::failure(ConfigError::Parse(cause)),
            ),
            (LoadPhase::Rendering, ConfigEvent::Rendered(text)) => Some(
                (LoadPhase::Writing, ConfigAction::WriteFile(text)),
            ),
            (LoadPhase::Rendering, ConfigEvent::RenderFailed(cause)) => Some(
                Self::failure(ConfigError::Render(cause)),
            ),
            (LoadPhase::Writing, ConfigEvent::FileWritten) => Some(
                (LoadPhase::Created, ConfigAction::Finish(Ok(MdkConfigView::fresh()))),
            ),
            (LoadPhase::Writing, ConfigEvent::WriteFailed(cause)) => Some(
                Self::failure(ConfigError::Write(cause)),
            ),
            _ => None,
        }
    }

    /// The step after `event`, and the action asked for. A refused event
    /// changes nothing and asks for nothing.
    pub open spec fn next(self, event: ConfigEvent<MdkConfigView>) -> (
        LoadPhase,
        Option<ConfigAction<MdkConfigView>>,
    ) {
        match self.transition(event) {
            Some((phase, action)) => (phase, Some(action)),
            None => (self, None),
        }
    }
}

/// The loader of the configuration.
#[derive(Debug)]
pub struct ConfigLoader {
    phase: LoadPhase,
}

impl View for ConfigLoader {
    type V = LoadPhase;

    closed spec fn view(&self) -> LoadPhase {
        self.phase
    }
}

/// A loader that gets the configuration from the file in the user's home
/// directory, and writes the fresh configuration there if there is no file.
/// Nothing has been asked for yet.
pub fn get_or_create_config() -> (loader: ConfigLoader)
    ensures
        loader@ == LoadPhase::Idle,
{
    ConfigLoader { phase: LoadPhase::Idle }
}

/// The view of what a loader answered.
pub open spec fn answer_view(action: Option<ConfigAction<MdkConfig>>) -> Option<
    ConfigAction<MdkConfigView>,
> {
    match action {
        Some(action) => Some(action@),
        None => None,
    }
}

impl ConfigLoader {
    /// The step the loader is at.
    pub fn phase(&self) -> (phase: &LoadPhase)
        ensures
            *phase == self@,
    {
        &self.phase
    }

    /// Takes `event` and returns the action to perform next. An event that
    /// cannot follow the outstanding action is refused: the loader stays as
    /// it is and `None` is returned.
    pub fn step(&mut self, event: ConfigEvent<MdkConfig>) -> (action: Option<
        ConfigAction<MdkConfig>,
    >)
        ensures
            (final(self)@, answer_view(action)) == old(self)@.next(event@),
    {
        let mut phase = LoadPhase::Idle;
        core::mem::swap(&mut phase, &mut self.phase);
        let (after, action) = match (phase, event) {
            (LoadPhase::Idle, ConfigEvent::Begin) => (
                LoadPhase::FindingHome,
                Some(ConfigAction::FindHome),
            ),
            (LoadPhase::FindingHome, ConfigEvent::HomeFound) => (
                LoadPhase::Probing,
                Some(ConfigAction::ProbeFile(CONFIG_FILE_NAME)),
            ),
            (LoadPhase::FindingHome, ConfigEvent::HomeMissing) => abandon(
                ConfigError::HomeNotFound,
            ),
            (LoadPhase::Probing, ConfigEvent::FileExists) => (
                LoadPhase::Reading,
                Some(ConfigAction::ReadFile),
            ),
            (LoadPhase::Probing, ConfigEvent::FileMissing) => (
                LoadPhase::Rendering,
                Some(ConfigAction::Render(MdkConfig::default())),
            ),
            (LoadPhase::Reading, ConfigEvent::FileRead(text)) => (
                LoadPhase::Parsing,
                Some(ConfigAction::Parse(text)),
            ),
            (LoadPhase::Reading, ConfigEvent::ReadFailed(cause)) => abandon(
                ConfigError::Read(cause),
            ),
            (LoadPhase::Parsing, ConfigEvent::Parsed(config)) => (
                LoadPhase::Loaded,
                Some(ConfigAction::Finish(Ok(config))),
            ),
            (LoadPhase::Parsing, ConfigEvent::ParseFailed(cause)) => abandon(
                ConfigError::Parse(cause),
            ),
            (LoadPhase::Rendering, ConfigEvent::Rendered(text)) => (
                LoadPhase::Writing,
                Some(ConfigAction::WriteFile(text)),
            ),
            (LoadPhase::Rendering, ConfigEvent::RenderFailed(cause)) => abandon(
                ConfigError::Render(cause),
            ),
            (LoadPhase::Writing, ConfigEvent::FileWritten) => (
                LoadPhase::Created,
                Some(ConfigAction::Finish(Ok(MdkConfig::default()))),
            ),
            (LoadPhase::Writing, ConfigEvent::WriteFailed(cause)) => abandon(
                ConfigError::Write(cause),
            ),
            (unchanged, _) => (unchanged, None),
        };
        self.phase = after;
        action
    }
}

/// The step and the action with which a loader gives up for `error`.
fn abandon(error: ConfigError) -> (answer: (LoadPhase, Option<ConfigAction<MdkConfig>>))
    ensures
        answer.0 == LoadPhase::failure(error).0,
        answer_view(answer.1) == Some(LoadPhase::failure(error).1),
{
    let reported = error.duplicate();
    (LoadPhase::Failed(error), Some(ConfigAction::Finish(Err(reported))))
}

} // verus!
