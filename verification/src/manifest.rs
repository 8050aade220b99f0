//! The manifest model: the typed form of a plugin descriptor.
//!
//! These are plain data. Each type has a view, written `@`, that holds its
//! contents as mathematical values; two manifests describe the same plugin
//! exactly when their views are equal. `clone` keeps the view.

use vstd::prelude::*;

verus! {

/// One parameter of a plugin method.
#[derive(Debug)]
pub struct MethodParam {
    /// Parameter name.
    pub name: String,
    /// Name of the parameter's type; the manifest key is `type`.
    pub param_type: String,
    /// Whether callers must supply the parameter.
    pub required: bool,
}

/// The contents of a [`MethodParam`] as mathematical values.
pub struct MethodParamView {
    pub name: Seq<char>,
    pub param_type: Seq<char>,
    pub required: bool,
}

impl View for MethodParam {
    type V = MethodParamView;

    open spec fn view(&self) -> MethodParamView {
        MethodParamView {
            name: self.name@,
            param_type: self.param_type@,
            required: self.required,
        }
    }
}

impl DeepView for MethodParam {
    type V = MethodParamView;

    open spec fn deep_view(&self) -> MethodParamView {
        self@
    }
}

impl Clone for MethodParam {
    fn clone(&self) -> (copy: Self)
        ensures
            copy@ == self@,
    {
        let name = self.name.clone();
        let param_type = self.param_type.clone();
        let required = self.required;
        MethodParam { name, param_type, required }
    }
}

/// One method of a plugin's API surface.
#[derive(Debug)]
pub struct PluginMethod {
    /// Method name, as sent in a request.
    pub name: String,
    /// Human-readable description.
    pub description: String,
    /// Parameters, in declaration order.
    pub params: Vec<MethodParam>,
    /// Name of the type the method gives back; the manifest key is `returns`.
    pub return_type: String,
}

/// The contents of a [`PluginMethod`] as mathematical values.
pub struct PluginMethodView {
    pub name: Seq<char>,
    pub description: Seq<char>,
    pub params: Seq<MethodParamView>,
    pub return_type: Seq<char>,
}

impl View for PluginMethod {
    type V = PluginMethodView;

    open spec fn view(&self) -> PluginMethodView {
        PluginMethodView {
            name: self.name@,
            description: self.description@,
            params: self.params.deep_view(),
            return_type: self.return_type@,
        }
    }
}

impl DeepView for PluginMethod {
    type V = PluginMethodView;

    open spec fn deep_view(&self) -> PluginMethodView {
        self@
    }
}

impl Clone for PluginMethod {
    fn clone(&self) -> (copy: Self)
        ensures
            copy@ == self@,
    {
        let name = self.name.clone();
        let description = self.description.clone();
        let params = self.params.clone();
        let return_type = self.return_type.clone();
        assert(params.deep_view() =~= self.params.deep_view());
        PluginMethod { name, description, params, return_type }
    }
}

/// The API a plugin offers and the transport it declares for it.
#[derive(Debug)]
pub struct PluginApi {
    /// Declared transport: `jsonrpc`, `http` or `grpc`. Only the pipe transport is dispatched; the others are kept as data.
    pub protocol: String,
    /// Port for network transports, if any.
    pub port: Option<u16>,
    /// Methods, in declaration order.
    pub methods: Vec<PluginMethod>,
}

/// The contents of a [`PluginApi`] as mathematical values.
pub struct PluginApiView {
    pub protocol: Seq<char>,
    pub port: Option<u16>,
    pub methods: Seq<PluginMethodView>,
}

impl View for PluginApi {
    type V = PluginApiView;

    open spec fn view(&self) -> PluginApiView {
        PluginApiView {
            protocol: self.protocol@,
            port: self.port,
            methods: self.methods.deep_view(),
        }
    }
}

impl DeepView for PluginApi {
    type V = PluginApiView;

    open spec fn deep_view(&self) -> PluginApiView {
        self@
    }
}

impl Clone for PluginApi {
    fn clone(&self) -> (copy: Self)
        ensures
            copy@ == self@,
    {
        let protocol = self.protocol.clone();
        let port = self.port;
        let methods = self.methods.clone();
        assert(methods.deep_view() =~= self.methods.deep_view());
        PluginApi { protocol, port, methods }
    }
}

/// What a plugin declares it depends on. Recorded, never enforced.
#[derive(Debug)]
pub struct PluginDependencies {
    /// Ids of other plugins.
    pub plugins: Vec<String>,
    /// Package specs; empty when the manifest leaves the key out.
    pub npm_packages: Vec<String>,
}

/// The contents of a [`PluginDependencies`] as mathematical values.
pub struct PluginDependenciesView {
    pub plugins: Seq<Seq<char>>,
    pub npm_packages: Seq<Seq<char>>,
}

impl View for PluginDependencies {
    type V = PluginDependenciesView;

    open spec fn view(&self) -> PluginDependenciesView {
        PluginDependenciesView {
            plugins: self.plugins.deep_view(),
            npm_packages: self.npm_packages.deep_view(),
        }
    }
}

impl DeepView for PluginDependencies {
    type V = PluginDependenciesView;

    open spec fn deep_view(&self) -> PluginDependenciesView {
        self@
    }
}

impl Clone for PluginDependencies {
    fn clone(&self) -> (copy: Self)
        ensures
            copy@ == self@,
    {
        let plugins = self.plugins.clone();
        let npm_packages = self.npm_packages.clone();
        assert(plugins.deep_view() =~= self.plugins.deep_view());
        assert(npm_packages.deep_view() =~= self.npm_packages.deep_view());
        PluginDependencies { plugins, npm_packages }
    }
}

/// Identity of a plugin.
#[derive(Debug)]
pub struct PluginMetadata {
    /// Unique identifier; also the name of the plugin's install directory.
    pub id: String,
    /// Display name.
    pub name: String,
    /// Version string.
    pub version: String,
    /// Author.
    pub author: String,
    /// Human-readable description.
    pub description: String,
    /// Category the plugin files itself under.
    pub category: String,
}

/// The contents of a [`PluginMetadata`] as mathematical values.
pub struct PluginMetadataView {
    pub id: Seq<char>,
    pub name: Seq<char>,
    pub version: Seq<char>,
    pub author: Seq<char>,
    pub description: Seq<char>,
    pub category: Seq<char>,
}

impl View for PluginMetadata {
    type V = PluginMetadataView;

    open spec fn view(&self) -> PluginMetadataView {
        PluginMetadataView {
            id: self.id@,
            name: self.name@,
            version: self.version@,
            author: self.author@,
            description: self.description@,
            category: self.category@,
        }
    }
}

impl DeepView for PluginMetadata {
    type V = PluginMetadataView;

    open spec fn deep_view(&self) -> PluginMetadataView {
        self@
    }
}

impl Clone for PluginMetadata {
    fn clone(&self) -> (copy: Self)
        ensures
            copy@ == self@,
    {
        let id = self.id.clone();
        let name = self.name.clone();
        let version = self.version.clone();
        let author = self.author.clone();
        let description = self.description.clone();
        let category = self.category.clone();
        PluginMetadata { id, name, version, author, description, category }
    }
}

/// A menu entry contributed by a plugin.
#[derive(Debug)]
pub struct MenuItem {
    /// Text of the entry.
    pub label: String,
    /// Action the entry triggers.
    pub action: String,
    /// Keyboard shortcut, if any.
    pub shortcut: Option<String>,
}

/// The contents of a [`MenuItem`] as mathematical values.
pub struct MenuItemView {
    pub label: Seq<char>,
    pub action: Seq<char>,
    pub shortcut: Option<Seq<char>>,
}

impl View for MenuItem {
    type V = MenuItemView;

    open spec fn view(&self) -> MenuItemView {
        MenuItemView {
            label: self.label@,
            action: self.action@,
            shortcut: self.shortcut.deep_view(),
        }
    }
}

impl DeepView for MenuItem {
    type V = MenuItemView;

    open spec fn deep_view(&self) -> MenuItemView {
        self@
    }
}

impl Clone for MenuItem {
    fn clone(&self) -> (copy: Self)
        ensures
            copy@ == self@,
    {
        let label = self.label.clone();
        let action = self.action.clone();
        let shortcut = self.shortcut.clone();
        MenuItem { label, action, shortcut }
    }
}

/// A settings page contributed by a plugin.
#[derive(Debug)]
pub struct SettingsPage {
    /// Page title.
    pub title: String,
    /// Front-end component that renders the page.
    pub component: String,
}

/// The contents of a [`SettingsPage`] as mathematical values.
pub struct SettingsPageView {
    pub title: Seq<char>,
    pub component: Seq<char>,
}

impl View for SettingsPage {
    type V = SettingsPageView;

    open spec fn view(&self) -> SettingsPageView {
        SettingsPageView {
            title: self.title@,
            component: self.component@,
        }
    }
}

impl DeepView for SettingsPage {
    type V = SettingsPageView;

    open spec fn deep_view(&self) -> SettingsPageView {
        self@
    }
}

impl Clone for SettingsPage {
    fn clone(&self) -> (copy: Self)
        ensures
            copy@ == self@,
    {
        let title = self.title.clone();
        let component = self.component.clone();
        SettingsPage { title, component }
    }
}

/// A toolbar button contributed by a plugin.
#[derive(Debug)]
pub struct ToolbarButton {
    /// Icon name.
    pub icon: String,
    /// Tooltip text.
    pub tooltip: String,
    /// Action the button triggers.
    pub action: String,
}

/// The contents of a [`ToolbarButton`] as mathematical values.
pub struct ToolbarButtonView {
    pub icon: Seq<char>,
    pub tooltip: Seq<char>,
    pub action: Seq<char>,
}

impl View for ToolbarButton {
    type V = ToolbarButtonView;

    open spec fn view(&self) -> ToolbarButtonView {
        ToolbarButtonView {
            icon: self.icon@,
            tooltip: self.tooltip@,
            action: self.action@,
        }
    }
}

impl DeepView for ToolbarButton {
    type V = ToolbarButtonView;

    open spec fn deep_view(&self) -> ToolbarButtonView {
        self@
    }
}

impl Clone for ToolbarButton {
    fn clone(&self) -> (copy: Self)
        ensures
            copy@ == self@,
    {
        let icon = self.icon.clone();
        let tooltip = self.tooltip.clone();
        let action = self.action.clone();
        ToolbarButton { icon, tooltip, action }
    }
}

/// User-interface contributions of a plugin. Passed through; the manager never interprets them.
#[derive(Debug)]
pub struct PluginUI {
    /// Menu entries.
    pub menu_items: Option<Vec<MenuItem>>,
    /// Settings page.
    pub settings_page: Option<SettingsPage>,
    /// Toolbar buttons.
    pub toolbar_buttons: Option<Vec<ToolbarButton>>,
}

/// The contents of a [`PluginUI`] as mathematical values.
pub struct PluginUIView {
    pub menu_items: Option<Seq<MenuItemView>>,
    pub settings_page: Option<SettingsPageView>,
    pub toolbar_buttons: Option<Seq<ToolbarButtonView>>,
}

impl View for PluginUI {
    type V = PluginUIView;

    open spec fn view(&self) -> PluginUIView {
        PluginUIView {
            menu_items: self.menu_items.deep_view(),
            settings_page: self.settings_page.deep_view(),
            toolbar_buttons: self.toolbar_buttons.deep_view(),
        }
    }
}

impl DeepView for PluginUI {
    type V = PluginUIView;

    open spec fn deep_view(&self) -> PluginUIView {
        self@
    }
}

impl Clone for PluginUI {
    fn clone(&self) -> (copy: Self)
        ensures
            copy@ == self@,
    {
        let menu_items = self.menu_items.clone();
        let settings_page = self.settings_page.clone();
        let toolbar_buttons = self.toolbar_buttons.clone();
        assert(menu_items.deep_view() =~= self.menu_items.deep_view());
        assert(toolbar_buttons.deep_view() =~= self.toolbar_buttons.deep_view());
        PluginUI { menu_items, settings_page, toolbar_buttons }
    }
}

/// Auto-update settings of a plugin. Passed through; the manager never interprets them.
#[derive(Debug)]
pub struct AutoUpdate {
    /// Whether updates are applied automatically.
    pub enabled: bool,
    /// Release channel.
    pub channel: String,
    /// Where updates come from.
    pub source: String,
    /// Package name at the source, if any.
    pub package: Option<String>,
}

/// The contents of a [`AutoUpdate`] as mathematical values.
pub struct AutoUpdateView {
    pub enabled: bool,
    pub channel: Seq<char>,
    pub source: Seq<char>,
    pub package: Option<Seq<char>>,
}

impl View for AutoUpdate {
    type V = AutoUpdateView;

    open spec fn view(&self) -> AutoUpdateView {
        AutoUpdateView {
            enabled: self.enabled,
            channel: self.channel@,
            source: self.source@,
            package: self.package.deep_view(),
        }
    }
}

impl DeepView for AutoUpdate {
    type V = AutoUpdateView;

    open spec fn deep_view(&self) -> AutoUpdateView {
        self@
    }
}

impl Clone for AutoUpdate {
    fn clone(&self) -> (copy: Self)
        ensures
            copy@ == self@,
    {
        let enabled = self.enabled;
        let channel = self.channel.clone();
        let source = self.source.clone();
        let package = self.package.clone();
        AutoUpdate { enabled, channel, source, package }
    }
}

/// The descriptor a plugin ships with: who it is, what it can do, what it needs and what it offers.
#[derive(Debug)]
pub struct PluginManifest {
    /// Identity.
    pub metadata: PluginMetadata,
    /// Capabilities the plugin claims. Order carries no meaning.
    pub capabilities: Vec<String>,
    /// Declared dependencies.
    pub dependencies: PluginDependencies,
    /// API surface.
    pub api: PluginApi,
    /// User-interface contributions, if any.
    pub ui: Option<PluginUI>,
    /// Auto-update settings, if any.
    pub auto_update: Option<AutoUpdate>,
}

/// The contents of a [`PluginManifest`] as mathematical values.
pub struct PluginManifestView {
    pub metadata: PluginMetadataView,
    pub capabilities: Seq<Seq<char>>,
    pub dependencies: PluginDependenciesView,
    pub api: PluginApiView,
    pub ui: Option<PluginUIView>,
    pub auto_update: Option<AutoUpdateView>,
}

impl View for PluginManifest {
    type V = PluginManifestView;

    open spec fn view(&self) -> PluginManifestView {
        PluginManifestView {
            metadata: self.metadata@,
            capabilities: self.capabilities.deep_view(),
            dependencies: self.dependencies@,
            api: self.api@,
            ui: self.ui.deep_view(),
            auto_update: self.auto_update.deep_view(),
        }
    }
}

impl DeepView for PluginManifest {
    type V = PluginManifestView;

    open spec fn deep_view(&self) -> PluginManifestView {
        self@
    }
}

impl Clone for PluginManifest {
    fn clone(&self) -> (copy: Self)
        ensures
            copy@ == self@,
    {
        let metadata = self.metadata.clone();
        let capabilities = self.capabilities.clone();
        let dependencies = self.dependencies.clone();
        let api = self.api.clone();
        let ui = self.ui.clone();
        let auto_update = self.auto_update.clone();
        assert(capabilities.deep_view() =~= self.capabilities.deep_view());
        PluginManifest { metadata, capabilities, dependencies, api, ui, auto_update }
    }
}

} // verus!
