//! The plugin descriptor and the fixed names of the plugin ABI.

use vstd::prelude::*;

verus! {

/// Directory, below the host's data directory, that holds the installed plugins.
pub const PLUGIN_DIR: &'static str = "plugins";

/// Name of the descriptor file inside a plugin archive and a plugin directory.
pub const PLUGIN_METADATA_FILE_NAME: &'static str = "metadata.json";

/// Name of the configuration file shared by all plugins.
pub const PLUGIN_CONFIG_FILE_NAME: &'static str = "config.json";

/// Entry point that a backend library exports for its initialisation.
pub const PLUGIN_INIT_FUNCTION_NAME: &'static str = "plugin_init";

/// Suffix that, behind the backend library's name, names its cleanup entry point.
pub const PLUGIN_CLEANUP_SUFFIX: &'static str = "_cleanup";

/// The category a plugin declares for itself.
#[derive(Debug, Clone, Copy, PartialEq, Eq, Structural)]
pub enum PluginType {
    Tool,
    System,
    Ai,
}

/// Another plugin that a plugin needs, by id and version.
#[derive(Debug, PartialEq, Eq)]
pub struct PluginDependency {
    pub id: String,
    pub version: String,
}

/// Mathematical value of a [`PluginDependency`].
pub struct PluginDependencyView {
    pub id: Seq<char>,
    pub version: Seq<char>,
}

impl View for PluginDependency {
    type V = PluginDependencyView;

    open spec fn view(&self) -> PluginDependencyView {
        PluginDependencyView { id: self.id@, version: self.version@ }
    }
}

impl DeepView for PluginDependency {
    type V = PluginDependencyView;

    open spec fn deep_view(&self) -> PluginDependencyView {
        self@
    }
}

impl Clone for PluginDependency {
    fn clone(&self) -> (copy: Self)
        ensures
            copy@ == self@,
    {
        PluginDependency { id: self.id.clone(), version: self.version.clone() }
    }
}

/// How a plugin wants to appear in the host's menu.
#[derive(Debug, PartialEq, Eq)]
pub struct MenuOptions {
    pub show_in_menu: bool,
    pub menu_icon: Option<String>,
    pub menu_title: Option<String>,
    pub menu_order: Option<i32>,
    pub menu_group: Option<String>,
}

/// Mathematical value of a [`MenuOptions`].
pub struct MenuOptionsView {
    pub show_in_menu: bool,
    pub menu_icon: Option<Seq<char>>,
    pub menu_title: Option<Seq<char>>,
    pub menu_order: Option<i32>,
    pub menu_group: Option<Seq<char>>,
}

impl View for MenuOptions {
    type V = MenuOptionsView;

    open spec fn view(&self) -> MenuOptionsView {
        MenuOptionsView {
            show_in_menu: self.show_in_menu,
            menu_icon: self.menu_icon.deep_view(),
            menu_title: self.menu_title.deep_view(),
            menu_order: self.menu_order,
            menu_group: self.menu_group.deep_view(),
        }
    }
}

impl DeepView for MenuOptions {
    type V = MenuOptionsView;

    open spec fn deep_view(&self) -> MenuOptionsView {
        self@
    }
}

impl Clone for MenuOptions {
    fn clone(&self) -> (copy: Self)
        ensures
            copy@ == self@,
    {
        MenuOptions {
            show_in_menu: self.show_in_menu,
            menu_icon: clone_text(&self.menu_icon),
            menu_title: clone_text(&self.menu_title),
            menu_order: self.menu_order,
            menu_group: clone_text(&self.menu_group),
        }
    }
}

/// One configuration option that a plugin declares.
#[derive(Debug, PartialEq, Eq)]
pub struct ConfigOptions {
    pub name: String,
    pub description: Option<String>,
    pub default_value: Option<String>,
    pub options: Option<Vec<String>>,
    pub required: bool,
}

/// Mathematical value of a [`ConfigOptions`].
pub struct ConfigOptionsView {
    pub name: Seq<char>,
    pub description: Option<Seq<char>>,
    pub default_value: Option<Seq<char>>,
    pub options: Option<Seq<Seq<char>>>,
    pub required: bool,
}

impl View for ConfigOptions {
    type V = ConfigOptionsView;

    open spec fn view(&self) -> ConfigOptionsView {
        ConfigOptionsView {
            name: self.name@,
            description: self.description.deep_view(),
            default_value: self.default_value.deep_view(),
            options: self.options.deep_view(),
            required: self.required,
        }
    }
}

impl DeepView for ConfigOptions {
    type V = ConfigOptionsView;

    open spec fn deep_view(&self) -> ConfigOptionsView {
        self@
    }
}

impl Clone for ConfigOptions {
    fn clone(&self) -> (copy: Self)
        ensures
            copy@ == self@,
    {
        let options = match &self.options {
            Some(values) => Some(clone_texts(values)),
            None => None,
        };
        ConfigOptions {
            name: self.name.clone(),
            description: clone_text(&self.description),
            default_value: clone_text(&self.default_value),
            options,
            required: self.required,
        }
    }
}

/// The descriptor of a plugin: who it is, and whether it brings a native
/// backend. A descriptor may say `has_backend` without naming `backend_lib`;
/// that inconsistency is found when the plugin is loaded, not when the
/// descriptor is built.
#[derive(Debug, PartialEq, Eq)]
pub struct PluginMetadata {
    pub id: String,
    pub name: String,
    pub version: String,
    pub origin: Option<String>,
    pub plugin_type: Option<PluginType>,
    pub description: Option<String>,
    pub author: Option<String>,
    pub has_backend: bool,
    pub backend_lib: Option<String>,
    pub dependencies: Option<Vec<PluginDependency>>,
    pub menu_options: Option<MenuOptions>,
    pub config_options: Option<Vec<ConfigOptions>>,
}

/// Mathematical value of a [`PluginMetadata`].
pub struct PluginMetadataView {
    pub id: Seq<char>,
    pub name: Seq<char>,
    pub version: Seq<char>,
    pub origin: Option<Seq<char>>,
    pub plugin_type: Option<PluginType>,
    pub description: Option<Seq<char>>,
    pub author: Option<Seq<char>>,
    pub has_backend: bool,
    pub backend_lib: Option<Seq<char>>,
    pub dependencies: Option<Seq<PluginDependencyView>>,
    pub menu_options: Option<MenuOptionsView>,
    pub config_options: Option<Seq<ConfigOptionsView>>,
}

impl View for PluginMetadata {
    type V = PluginMetadataView;

    open spec fn view(&self) -> PluginMetadataView {
        PluginMetadataView {
            id: self.id@,
            name: self.name@,
            version: self.version@,
            origin: self.origin.deep_view(),
            plugin_type: self.plugin_type,
            description: self.description.deep_view(),
            author: self.author.deep_view(),
            has_backend: self.has_backend,
            backend_lib: self.backend_lib.deep_view(),
            dependencies: self.dependencies.deep_view(),
            menu_options: self.menu_options.deep_view(),
            config_options: self.config_options.deep_view(),
        }
    }
}

impl DeepView for PluginMetadata {
    type V = PluginMetadataView;

    open spec fn deep_view(&self) -> PluginMetadataView {
        self@
    }
}

impl PluginMetadata {
    /// The descriptor keeps its promise about the backend: one that declares
    /// a backend also names the library.
    pub open spec fn consistent(&self) -> bool {
        self.has_backend ==> self.backend_lib is Some
    }

    /// Tells whether a descriptor that declares a backend also names it.
    pub fn is_consistent(&self) -> (ok: bool)
        ensures
            ok == self.consistent(),
    {
        !self.has_backend || self.backend_lib.is_some()
    }
}

impl Clone for PluginMetadata {
    fn clone(&self) -> (copy: Self)
        ensures
            copy@ == self@,
    {
        let dependencies = match &self.dependencies {
            Some(values) => Some(clone_dependencies(values)),
            None => None,
        };
        let menu_options = match &self.menu_options {
            Some(menu) => Some(menu.clone()),
            None => None,
        };
        let config_options = match &self.config_options {
            Some(values) => Some(clone_config_options(values)),
            None => None,
        };
        PluginMetadata {
            id: self.id.clone(),
            name: self.name.clone(),
            version: self.version.clone(),
            origin: clone_text(&self.origin),
            plugin_type: self.plugin_type,
            description: clone_text(&self.description),
            author: clone_text(&self.author),
            has_backend: self.has_backend,
            backend_lib: clone_text(&self.backend_lib),
            dependencies,
            menu_options,
            config_options,
        }
    }
}

/// Copies an optional text.
fn clone_text(text: &Option<String>) -> (copy: Option<String>)
    ensures
        copy.deep_view() == text.deep_view(),
{
    match text {
        Some(value) => Some(value.clone()),
        None => None,
    }
}

/// Copies a list of texts, keeping their order.
fn clone_texts(texts: &Vec<String>) -> (copy: Vec<String>)
    ensures
        copy.deep_view() == texts.deep_view(),
{
    let mut copy: Vec<String> = Vec::new();
    let mut i: usize = 0;
    while i < texts.len()
        invariant
            i <= texts.len(),
            copy.len() == i,
            forall|j: int| 0 <= j < i ==> copy[j]@ == texts[j]@,
        decreases texts.len() - i,
    {
        copy.push(texts[i].clone());
        i += 1;
    }
    copy
}

/// Copies a list of dependencies, keeping their order.
fn clone_dependencies(items: &Vec<PluginDependency>) -> (copy: Vec<PluginDependency>)
    ensures
        copy.deep_view() == items.deep_view(),
{
    let mut copy: Vec<PluginDependency> = Vec::new();
    let mut i: usize = 0;
    while i < items.len()
        invariant
            i <= items.len(),
            copy.len() == i,
            forall|j: int| 0 <= j < i ==> copy[j]@ == items[j]@,
        decreases items.len() - i,
    {
        copy.push(items[i].clone());
        i += 1;
    }
    copy
}

/// Copies a list of configuration options, keeping their order.
fn clone_config_options(items: &Vec<ConfigOptions>) -> (copy: Vec<ConfigOptions>)
    ensures
        copy.deep_view() == items.deep_view(),
{
    let mut copy: Vec<ConfigOptions> = Vec::new();
    let mut i: usize = 0;
    while i < items.len()
        invariant
            i <= items.len(),
            copy.len() == i,
            forall|j: int| 0 <= j < i ==> copy[j]@ == items[j]@,
        decreases items.len() - i,
    {
        copy.push(items[i].clone());
        i += 1;
    }
    copy
}

} // verus!
