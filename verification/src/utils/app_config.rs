//! The effective configuration: the user's, the project's distributed and the
//! project's local configuration file, merged key by key.

use crate::utils::failure::{Failure, Layer};
use crate::utils::name_map::{bindings, named, NameMap};
use crate::utils::text::{join, joined};
use crate::{CONFIG_FILE_NAME_LOCAL, CONFIG_FILE_NAME_PROJECT};
use vstd::prelude::*;
use vstd::string::*;

verus! {

/// The directory of this tool below the user's configuration directory.
pub const CONFIG_DIR_NAME: &'static str = "dev-cli";

/// A YAML value, as `serde_yaml` holds it.
#[verifier::external_type_specification]
#[verifier::external_body]
pub struct ExValue(serde_yaml::Value);

/// The error of `serde_yaml`.
#[verifier::external_type_specification]
#[verifier::external_body]
pub struct ExYamlError(serde_yaml::Error);

/// What `serde_yaml::from_str` makes of `text` as a mapping with string keys:
/// its keys with their values, or nothing where the text is no such mapping.
pub uninterp spec fn yaml_mapping(text: Seq<char>) -> Option<Seq<(Seq<char>, serde_yaml::Value)>>;

/// `serde_yaml::from_str` at the type `BTreeMap<String, Value>`, handed out
/// as pairs. The result depends on the text alone.
#[verifier::external_body]
fn parse_mapping(text: &str) -> (r: Result<Vec<(String, serde_yaml::Value)>, serde_yaml::Error>)
    ensures
        match r {
            Ok(pairs) => yaml_mapping(text@) == Some(named(pairs@)),
            Err(_) => yaml_mapping(text@) is None,
        },
{
    match serde_yaml::from_str::<std::collections::BTreeMap<String, serde_yaml::Value>>(text) {
        Ok(mapping) => Ok(mapping.into_iter().collect()),
        Err(error) => Err(error),
    }
}

/// The `Display` text of a `serde_yaml::Error`; nothing is claimed of it.
#[verifier::external_body]
fn yaml_error_text(error: &serde_yaml::Error) -> String {
    error.to_string()
}

/// The settings of one layer; a layer without a file has none.
pub type Settings = NameMap<serde_yaml::Value>;

/// The file of a layer is missing or holds a mapping.
pub open spec fn layer_is_sound(text: Option<Seq<char>>) -> bool {
    text matches Some(t) ==> yaml_mapping(t) is Some
}

/// The settings that the file of a layer holds.
pub open spec fn layer_settings(text: Option<Seq<char>>) -> Map<Seq<char>, serde_yaml::Value> {
    match text {
        Some(t) => match yaml_mapping(t) {
            Some(pairs) => bindings(pairs),
            None => Map::empty(),
        },
        None => Map::empty(),
    }
}

/// The first layer, from the weakest to the strongest, whose file is no mapping.
pub open spec fn first_unsound_layer(
    global: Option<Seq<char>>,
    distributed: Option<Seq<char>>,
    local: Option<Seq<char>>,
) -> Option<Layer> {
    if !layer_is_sound(global) {
        Some(Layer::Global)
    } else if !layer_is_sound(distributed) {
        Some(Layer::Distributed)
    } else if !layer_is_sound(local) {
        Some(Layer::Local)
    } else {
        None
    }
}

/// The settings in force: those of the local layer, then for every other key
/// those of the distributed layer, then those of the global layer.
pub open spec fn effective<V>(
    global: Map<Seq<char>, V>,
    distributed: Map<Seq<char>, V>,
    local: Map<Seq<char>, V>,
) -> Map<Seq<char>, V> {
    global.union_prefer_right(distributed).union_prefer_right(local)
}

/// A key takes its value from the strongest layer that sets it: the local
/// one before the distributed one before the global one. A key that no layer
/// sets is not set.
pub proof fn lemma_stronger_layer_wins<V>(
    global: Map<Seq<char>, V>,
    distributed: Map<Seq<char>, V>,
    local: Map<Seq<char>, V>,
    key: Seq<char>,
)
    ensures
        local.contains_key(key) ==> effective(global, distributed, local).contains_key(key)
            && effective(global, distributed, local)[key] == local[key],
        !local.contains_key(key) && distributed.contains_key(key) ==> effective(
            global,
            distributed,
            local,
        ).contains_key(key) && effective(global, distributed, local)[key] == distributed[key],
        !local.contains_key(key) && !distributed.contains_key(key) && global.contains_key(key)
            ==> effective(global, distributed, local).contains_key(key) && effective(
            global,
            distributed,
            local,
        )[key] == global[key],
        !local.contains_key(key) && !distributed.contains_key(key) && !global.contains_key(key)
            ==> !effective(global, distributed, local).contains_key(key),
{
}

/// The three files that the configuration is read from.
#[derive(Debug)]
pub struct ConfigFiles {
    /// The user's configuration, shared by all projects.
    pub global: String,
    /// The configuration that the project distributes.
    pub distributed: String,
    /// The developer's own configuration of the project.
    pub local: String,
}

/// The effective configuration.
#[derive(Debug)]
pub struct AppConfig {
    /// What each key is set to.
    pub settings: Settings,
}

impl View for AppConfig {
    type V = Map<Seq<char>, serde_yaml::Value>;

    /// What each key is set to.
    open spec fn view(&self) -> Map<Seq<char>, serde_yaml::Value> {
        self.settings@
    }
}

impl AppConfig {
    /// The files that the configuration of the project at `project_root` is
    /// read from, for a user whose configuration directory is `config_dir`.
    pub fn files(config_dir: &str, project_root: &str) -> (files: ConfigFiles)
        ensures
            files.global@ == joined(joined(config_dir@, CONFIG_DIR_NAME@), CONFIG_FILE_NAME_LOCAL@),
            files.distributed@ == joined(project_root@, CONFIG_FILE_NAME_PROJECT@),
            files.local@ == joined(project_root@, CONFIG_FILE_NAME_LOCAL@),
    {
        let own_dir = join(config_dir, CONFIG_DIR_NAME);
        ConfigFiles {
            global: join(own_dir.as_str(), CONFIG_FILE_NAME_LOCAL),
            distributed: join(project_root, CONFIG_FILE_NAME_PROJECT),
            local: join(project_root, CONFIG_FILE_NAME_LOCAL),
        }
    }

    /// Judges the attempt to read the file of `layer`: the text of a file, and
    /// that no file is there, are handed on; a file that is there and cannot
    /// be read is a failure that names the layer.
    pub fn source(layer: Layer, read: Result<Option<String>, String>) -> (r: Result<
        Option<String>,
        Failure,
    >)
        ensures
            match read {
                Ok(text) => r == Ok::<Option<String>, Failure>(text),
                Err(reason) => r == Err::<Option<String>, Failure>(
                    Failure::Config { layer, reason },
                ),
            },
    {
        match read {
            Ok(text) => Ok(text),
            Err(reason) => Err(Failure::Config { layer, reason }),
        }
    }

    /// Reads the settings of `layer` from the text of its file; a layer
    /// without a file has no settings, and a file that is no mapping is a
    /// failure that names the layer.
    pub fn layer(layer: Layer, text: Option<&str>) -> (r: Result<Settings, Failure>)
        ensures
            match r {
                Ok(settings) => layer_is_sound(text_of(text)) && settings@ == layer_settings(
                    text_of(text),
                ),
                Err(failure) => !layer_is_sound(text_of(text)) && failure.blames(layer),
            },
    {
        match text {
            None => Ok(NameMap::new()),
            Some(text) => match parse_mapping(text) {
                Ok(pairs) => Ok(NameMap::from_pairs(pairs)),
                Err(error) => Err(Failure::Config { layer, reason: yaml_error_text(&error) }),
            },
        }
    }

    /// Merges the settings of the three layers into the settings in force.
    pub fn merge(global: Settings, distributed: Settings, local: Settings) -> (config: Self)
        ensures
            config@ == effective(global@, distributed@, local@),
    {
        AppConfig { settings: global.merge(distributed).merge(local) }
    }

    /// Reads the three layers from the texts of their files, where there are
    /// files, and merges them. The first layer whose file is no mapping ends
    /// the reading with a failure that names it.
    pub fn merge_from_project_root(
        global: Option<&str>,
        distributed: Option<&str>,
        local: Option<&str>,
    ) -> (r: Result<Self, Failure>)
        ensures
            match first_unsound_layer(text_of(global), text_of(distributed), text_of(local)) {
                Some(layer) => r matches Err(failure) && failure.blames(layer),
                None => r matches Ok(config) && config@ == effective(
                    layer_settings(text_of(global)),
                    layer_settings(text_of(distributed)),
                    layer_settings(text_of(local)),
                ),
            },
    {
        let global = match Self::layer(Layer::Global, global) {
            Ok(settings) => settings,
            Err(failure) => {
                return Err(failure);
            },
        };
        let distributed = match Self::layer(Layer::Distributed, distributed) {
            Ok(settings) => settings,
            Err(failure) => {
                return Err(failure);
            },
        };
        let local = match Self::layer(Layer::Local, local) {
            Ok(settings) => settings,
            Err(failure) => {
                return Err(failure);
            },
        };
        Ok(Self::merge(global, distributed, local))
    }

    /// The value that `key` is set to, if it is set.
    pub fn get(&self, key: &str) -> (r: Option<&serde_yaml::Value>)
        ensures
            match r {
                Some(value) => self@.contains_key(key@) && *value == self@[key@],
                None => !self@.contains_key(key@),
            },
    {
        self.settings.get(key)
    }
}

/// The text of a file, where there is a file.
pub open spec fn text_of(text: Option<&str>) -> Option<Seq<char>> {
    match text {
        Some(t) => Some(t@),
        None => None,
    }
}

} // verus!
