//! The configuration: general settings, paths, and the profiles under their
//! names.

use crate::error::{failure, FailureClass, RuntimeError, RuntimeErrorView};
use crate::process::optional_view;
use crate::text::{same_text, string_views};
use vstd::prelude::*;
use vstd::string::StringExecFns;

verus! {

/// The settings that do not belong to one profile.
#[derive(Debug)]
pub struct ConfigSection {
    pub default_profile: String,
}

/// Where the managed source trees and the models are kept.
#[derive(Debug)]
pub struct PathsSection {
    pub llama_dir: String,
    pub models_dir: String,
}

/// A named way to configure the build.
#[derive(Debug, PartialEq, Eq)]
pub struct Profile {
    pub cmake_args: Vec<String>,
    pub cmake_generator: Option<String>,
}

/// What a [`Profile`] holds, as plain values.
pub struct ProfileView {
    pub cmake_args: Seq<Seq<char>>,
    pub cmake_generator: Option<Seq<char>>,
}

impl View for Profile {
    type V = ProfileView;

    open spec fn view(&self) -> ProfileView {
        ProfileView {
            cmake_args: string_views(self.cmake_args@),
            cmake_generator: optional_view(self.cmake_generator),
        }
    }
}

/// The map that a sequence of named profiles stands for; of two entries with one
/// name the later counts.
spec fn map_of(entries: Seq<(String, Profile)>) -> Map<Seq<char>, ProfileView>
    decreases entries.len(),
{
    if entries.len() == 0 {
        Map::empty()
    } else {
        map_of(entries.drop_last()).insert(entries.last().0@, entries.last().1@)
    }
}

/// Whether no name occurs twice.
spec fn distinct_names(entries: Seq<(String, Profile)>) -> bool {
    forall|i: int, j: int|
        0 <= i < j < entries.len() ==> (#[trigger] entries[i]).0@ != (#[trigger] entries[j]).0@
}

proof fn lemma_map_of_keys(entries: Seq<(String, Profile)>, name: Seq<char>)
    ensures
        map_of(entries).contains_key(name) <==> exists|i: int|
            0 <= i < entries.len() && (#[trigger] entries[i]).0@ == name,
    decreases entries.len(),
{
    if entries.len() > 0 {
        let before = entries.drop_last();
        lemma_map_of_keys(before, name);
        if map_of(entries).contains_key(name) {
            if entries.last().0@ == name {
            } else {
                let i = choose|i: int| 0 <= i < before.len() && (#[trigger] before[i]).0@ == name;
            }
        }
        if exists|i: int| 0 <= i < entries.len() && (#[trigger] entries[i]).0@ == name {
            let i = choose|i: int| 0 <= i < entries.len() && (#[trigger] entries[i]).0@ == name;
            if i < entries.len() - 1 {
                assert(before[i].0@ == name);
            }
        }
    }
}

proof fn lemma_map_of_entry(entries: Seq<(String, Profile)>, at: int)
    requires
        distinct_names(entries),
        0 <= at < entries.len(),
    ensures
        map_of(entries).contains_key(entries[at].0@),
        map_of(entries)[entries[at].0@] == entries[at].1@,
    decreases entries.len(),
{
    let before = entries.drop_last();
    if at < entries.len() - 1 {
        lemma_map_of_entry(before, at);
    }
}

proof fn lemma_map_of_replace(entries: Seq<(String, Profile)>, at: int, entry: (String, Profile))
    requires
        distinct_names(entries),
        0 <= at < entries.len(),
        entries[at].0@ == entry.0@,
    ensures
        distinct_names(entries.update(at, entry)),
        map_of(entries.update(at, entry)) == map_of(entries).insert(entry.0@, entry.1@),
    decreases entries.len(),
{
    let after = entries.update(at, entry);
    let before = entries.drop_last();
    if at == entries.len() - 1 {
        assert(after.drop_last() =~= before);
    } else {
        lemma_map_of_replace(before, at, entry);
        assert(after.drop_last() =~= before.update(at, entry));
    }
}

/// The profiles of a configuration, each under its name.
#[derive(Debug)]
pub struct Profiles {
    entries: Vec<(String, Profile)>,
}

impl View for Profiles {
    type V = Map<Seq<char>, ProfileView>;

    closed spec fn view(&self) -> Map<Seq<char>, ProfileView> {
        map_of(self.entries@)
    }
}

impl Profiles {
    #[verifier::type_invariant]
    spec fn well_formed(&self) -> bool {
        distinct_names(self.entries@)
    }

    /// No profiles.
    pub fn new() -> (profiles: Profiles)
        ensures
            profiles@ == Map::<Seq<char>, ProfileView>::empty(),
    {
        Profiles { entries: Vec::new() }
    }

    fn position(&self, name: &str) -> (found: Option<usize>)
        ensures
            match found {
                Some(at) => at < self.entries.len() && self.entries@[at as int].0@ == name@,
                None => forall|i: int|
                    0 <= i < self.entries.len() ==> (#[trigger] self.entries@[i]).0@ != name@,
            },
    {
        let mut i: usize = 0;
        while i < self.entries.len()
            invariant
                i <= self.entries.len(),
                forall|j: int| 0 <= j < i ==> (#[trigger] self.entries@[j]).0@ != name@,
            decreases self.entries.len() - i,
        {
            if same_text(self.entries[i].0.as_str(), name) {
                return Some(i);
            }
            i += 1;
        }
        None
    }

    /// Puts `profile` under `name`, in place of the profile that was there, if any.
    pub fn insert(&mut self, name: String, profile: Profile)
        ensures
            final(self)@ == old(self)@.insert(name@, profile@),
    {
        proof {
            use_type_invariant(&*self);
        }
        let found = self.position(name.as_str());
        let ghost before = self.entries@;
        let mut entries: Vec<(String, Profile)> = Vec::new();
        std::mem::swap(&mut entries, &mut self.entries);
        match found {
            Some(at) => {
                proof {
                    lemma_map_of_replace(before, at as int, (name, profile));
                }
                entries.set(at, (name, profile));
            },
            None => {
                entries.push((name, profile));
                proof {
                    assert(entries@.drop_last() =~= before);
                }
            },
        }
        self.entries = entries;
    }

    /// The profile under `name`, if there is one.
    pub fn get(&self, name: &str) -> (found: Option<&Profile>)
        ensures
            match found {
                Some(profile) => self@.contains_key(name@) && self@[name@] == profile@,
                None => !self@.contains_key(name@),
            },
    {
        proof {
            use_type_invariant(self);
            lemma_map_of_keys(self.entries@, name@);
        }
        match self.position(name) {
            Some(at) => {
                proof {
                    lemma_map_of_entry(self.entries@, at as int);
                }
                Some(&self.entries[at].1)
            },
            None => None,
        }
    }

    /// The names of the profiles, each once.
    pub fn names(&self) -> (names: Vec<String>)
        ensures
            forall|name: Seq<char>|
                self@.contains_key(name) <==> string_views(names@).contains(name),
            string_views(names@).no_duplicates(),
    {
        proof {
            use_type_invariant(self);
        }
        let mut names: Vec<String> = Vec::new();
        let mut i: usize = 0;
        while i < self.entries.len()
            invariant
                i <= self.entries.len(),
                names.len() == i,
                forall|j: int| 0 <= j < i ==> (#[trigger] names@[j])@ == self.entries@[j].0@,
            decreases self.entries.len() - i,
        {
            names.push(self.entries[i].0.clone());
            i += 1;
        }
        proof {
            let views = string_views(names@);
            assert forall|name: Seq<char>| self@.contains_key(name) <==> views.contains(name) by {
                lemma_map_of_keys(self.entries@, name);
                if self@.contains_key(name) {
                    let i = choose|i: int|
                        0 <= i < self.entries@.len() && (#[trigger] self.entries@[i]).0@ == name;
                    assert(views[i] == name);
                }
                if views.contains(name) {
                    let i = choose|i: int| 0 <= i < views.len() && views[i] == name;
                }
            }
        }
        names
    }
}

/// The configuration: general settings, paths, and the profiles.
#[derive(Debug)]
pub struct Config {
    pub config: ConfigSection,
    pub paths: PathsSection,
    pub profiles: Profiles,
}

/// The profile that switches `feature` on, with link-time optimisation and the
/// default generator.
pub open spec fn stock_profile(feature: Seq<char>) -> ProfileView {
    ProfileView { cmake_args: seq![feature, "-DGGML_LTO=ON"@], cmake_generator: None }
}

fn make_stock_profile(feature: &str) -> (profile: Profile)
    ensures
        profile@ == stock_profile(feature@),
{
    let mut cmake_args: Vec<String> = Vec::new();
    cmake_args.push(feature.to_owned());
    cmake_args.push("-DGGML_LTO=ON".to_owned());
    let profile = Profile { cmake_args, cmake_generator: None };
    assert(profile@.cmake_args =~= seq![feature@, "-DGGML_LTO=ON"@]);
    profile
}

impl Default for Config {
    /// The configuration that is written where none exists: the profiles `cpu` and
    /// `vulkan`, the latter as the default, and paths below the current directory.
    fn default() -> (config: Config)
        ensures
            config.config.default_profile@ == "vulkan"@,
            config.paths.llama_dir@ == "./llama"@,
            config.paths.models_dir@ == "./models"@,
            config.profiles@ == Map::<Seq<char>, ProfileView>::empty().insert(
                "cpu"@,
                stock_profile("-DGGML_CPU=ON"@),
            ).insert("vulkan"@, stock_profile("-DGGML_VULKAN=ON"@)),
    {
        let mut profiles = Profiles::new();
        profiles.insert("cpu".to_owned(), make_stock_profile("-DGGML_CPU=ON"));
        profiles.insert("vulkan".to_owned(), make_stock_profile("-DGGML_VULKAN=ON"));
        Config {
            config: ConfigSection { default_profile: "vulkan".to_owned() },
            paths: PathsSection {
                llama_dir: "./llama".to_owned(),
                models_dir: "./models".to_owned(),
            },
            profiles,
        }
    }
}

impl Config {
    /// The name under which [`Config::get_profile`] looks: `name`, or the default
    /// profile's where none is given.
    pub open spec fn selected_name(&self, name: Option<&str>) -> Seq<char> {
        match name {
            Some(name) => name@,
            None => self.config.default_profile@,
        }
    }

    /// The profile called `name`, or the default profile where no name is given.
    pub fn get_profile(&self, name: Option<&str>) -> (found: Option<&Profile>)
        ensures
            match found {
                Some(profile) => self.profiles@.contains_key(self.selected_name(name))
                    && self.profiles@[self.selected_name(name)] == profile@,
                None => !self.profiles@.contains_key(self.selected_name(name)),
            },
    {
        match name {
            Some(n) => self.profiles.get(n),
            None => self.profiles.get(self.config.default_profile.as_str()),
        }
    }
}

/// What a result that holds a profile or a failure stands for.
pub open spec fn profile_result_view(r: Result<&Profile, RuntimeError>) -> Result<
    ProfileView,
    RuntimeErrorView,
> {
    match r {
        Ok(profile) => Ok(profile@),
        Err(e) => Err(e@),
    }
}

impl Config {
    /// The profile called `name`; where the configuration has none of that name,
    /// the failure that says so.
    pub open spec fn required_profile(&self, name: Seq<char>) -> Result<
        ProfileView,
        RuntimeErrorView,
    > {
        if self.profiles@.contains_key(name) {
            Ok(self.profiles@[name])
        } else {
            Err(
                failure(
                    FailureClass::Unavailable,
                    "Profile '"@ + name + "' not found in configuration"@,
                ),
            )
        }
    }

    /// The profile called `name`: see [`Config::required_profile`].
    pub fn require_profile(&self, name: &str) -> (r: Result<&Profile, RuntimeError>)
        ensures
            profile_result_view(r) == self.required_profile(name@),
    {
        match self.profiles.get(name) {
            Some(profile) => Ok(profile),
            None => {
                let mut message = "Profile '".to_owned();
                message.append(name);
                message.append("' not found in configuration");
                Err(RuntimeError::of(FailureClass::Unavailable, message))
            },
        }
    }
}

/// What can go wrong when the default configuration is written where none exists.
#[derive(Debug, Clone, Copy, PartialEq, Eq, Structural)]
pub enum ConfigFileFault {
    /// There is a file already.
    AlreadyExists,
    /// The directory of the file could not be created.
    DirectoryNotCreated,
    /// The configuration could not be put into text.
    NotSerialized,
    /// The file could not be written.
    NotWritten,
}

impl ConfigFileFault {
    /// The class of the failure that the fault causes.
    pub open spec fn class(self) -> FailureClass {
        match self {
            ConfigFileFault::AlreadyExists => FailureClass::CannotCreate,
            ConfigFileFault::DirectoryNotCreated => FailureClass::CannotCreate,
            ConfigFileFault::NotSerialized => FailureClass::Software,
            ConfigFileFault::NotWritten => FailureClass::Io,
        }
    }

    /// How the message of the failure starts.
    pub open spec fn prefix(self) -> Seq<char> {
        match self {
            ConfigFileFault::AlreadyExists => "Config file already exists at: "@,
            ConfigFileFault::DirectoryNotCreated => "Failed to create config directory: "@,
            ConfigFileFault::NotSerialized => "Failed to serialize default config: "@,
            ConfigFileFault::NotWritten => "Failed to write config file: "@,
        }
    }

    /// The failure that the fault causes. `detail` is the path of the file where
    /// there is one already, else the reason that the system gave.
    pub fn failure(self, detail: &str) -> (error: RuntimeError)
        ensures
            error@ == failure(self.class(), self.prefix() + detail@),
    {
        let (class, prefix) = match self {
            ConfigFileFault::AlreadyExists => (
                FailureClass::CannotCreate,
                "Config file already exists at: ",
            ),
            ConfigFileFault::DirectoryNotCreated => (
                FailureClass::CannotCreate,
                "Failed to create config directory: ",
            ),
            ConfigFileFault::NotSerialized => (
                FailureClass::Software,
                "Failed to serialize default config: ",
            ),
            ConfigFileFault::NotWritten => (FailureClass::Io, "Failed to write config file: "),
        };
        let mut message = prefix.to_owned();
        message.append(detail);
        RuntimeError::of(class, message)
    }
}

} // verus!
