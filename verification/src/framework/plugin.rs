//! Plugins: what a plugin is, what it may do, and the registry that knows
//! every plugin by its name.

use vstd::prelude::*;
use vstd::string::*;
use crate::framework::error::Error;
use crate::framework::message::Message;
use crate::json::json_null;
use crate::string_map::StringMap;
use crate::text::str_eq;

verus! {

/// Plugin permission
#[derive(Debug, Clone, Copy, PartialEq, Eq, Hash, Structural)]
pub enum Permission {
    /// Read messages
    ReadMessages,
    /// Write messages
    WriteMessages,
    /// Access context
    AccessContext,
    /// Modify context
    ModifyContext,
    /// Make network requests
    NetworkAccess,
    /// Access filesystem
    FileSystemAccess,
    /// Execute commands
    ExecuteCommands,
    /// Access database
    DatabaseAccess,
    /// All permissions
    All,
}

/// Type of capability
#[derive(Debug, Clone)]
pub enum CapabilityType {
    /// Message processing
    MessageProcessor,
    /// Command handler
    CommandHandler,
    /// Event listener
    EventListener,
    /// Tool provider
    ToolProvider,
    /// Middleware
    Middleware,
    /// Custom capability
    Custom(String),
}

/// Hook type for plugin registration
#[derive(Debug, Clone)]
pub enum HookType {
    /// Message processor hook
    MessageProcessor,
    /// Command handler hook
    CommandHandler,
    /// Event listener hook
    EventListener,
    /// Tool provider hook
    ToolProvider,
    /// Middleware hook
    Middleware,
    /// Custom hook
    Custom(String),
}

impl HookType {
    /// The key under which the registry keeps the plugins of a hook.
    pub open spec fn key(&self) -> Seq<char> {
        match self {
            HookType::MessageProcessor => "message_processor"@,
            HookType::CommandHandler => "command_handler"@,
            HookType::EventListener => "event_listener"@,
            HookType::ToolProvider => "tool_provider"@,
            HookType::Middleware => "middleware"@,
            HookType::Custom(name) => "custom:"@ + name@,
        }
    }

    /// The hook that a capability of the given type registers for.
    pub open spec fn spec_for_capability(capability_type: CapabilityType) -> HookType {
        match capability_type {
            CapabilityType::MessageProcessor => HookType::MessageProcessor,
            CapabilityType::CommandHandler => HookType::CommandHandler,
            CapabilityType::EventListener => HookType::EventListener,
            CapabilityType::ToolProvider => HookType::ToolProvider,
            CapabilityType::Middleware => HookType::Middleware,
            CapabilityType::Custom(name) => HookType::Custom(name),
        }
    }

    /// The hook that a capability of the given type registers for.
    pub fn for_capability(capability_type: &CapabilityType) -> (h: Self)
        ensures
            h == Self::spec_for_capability(*capability_type),
    {
        match capability_type {
            CapabilityType::MessageProcessor => HookType::MessageProcessor,
            CapabilityType::CommandHandler => HookType::CommandHandler,
            CapabilityType::EventListener => HookType::EventListener,
            CapabilityType::ToolProvider => HookType::ToolProvider,
            CapabilityType::Middleware => HookType::Middleware,
            CapabilityType::Custom(name) => HookType::Custom(name.clone()),
        }
    }

    /// The key under which the registry keeps the plugins of the hook.
    pub fn to_key(&self) -> (k: String)
        ensures
            k@ == self.key(),
    {
        match self {
            HookType::MessageProcessor => String::from_str("message_processor"),
            HookType::CommandHandler => String::from_str("command_handler"),
            HookType::EventListener => String::from_str("event_listener"),
            HookType::ToolProvider => String::from_str("tool_provider"),
            HookType::Middleware => String::from_str("middleware"),
            HookType::Custom(name) => {
                let mut k = String::from_str("custom:");
                k.append(name.as_str());
                k
            },
        }
    }
}

/// Plugin capability
#[derive(Debug, Clone)]
pub struct Capability {
    /// Capability name
    pub name: String,
    /// Capability type
    pub capability_type: CapabilityType,
    /// Description
    pub description: String,
    /// Required permissions
    pub required_permissions: Vec<Permission>,
}

/// Resource limits for plugins. The processor share is in percent.
#[derive(Debug, Clone, Copy, PartialEq, Eq, Structural)]
pub struct ResourceLimits {
    /// Maximum memory in bytes
    pub max_memory: Option<usize>,
    /// Maximum CPU percentage
    pub max_cpu_percent: Option<u32>,
    /// Maximum execution time in milliseconds
    pub max_execution_time_ms: Option<u64>,
    /// Maximum concurrent operations
    pub max_concurrent_ops: Option<usize>,
}

impl Default for ResourceLimits {
    fn default() -> (l: Self)
        ensures
            l.max_memory == Some(104_857_600usize),
            l.max_cpu_percent == Some(50u32),
            l.max_execution_time_ms == Some(30_000u64),
            l.max_concurrent_ops == Some(10usize),
    {
        ResourceLimits {
            max_memory: Some(104_857_600),
            max_cpu_percent: Some(50),
            max_execution_time_ms: Some(30_000),
            max_concurrent_ops: Some(10),
        }
    }
}

/// Plugin configuration
#[derive(Debug)]
pub struct PluginConfig {
    /// Plugin-specific settings
    pub settings: StringMap<serde_json::Value>,
    /// Enabled features
    pub enabled_features: Vec<String>,
    /// Granted permissions
    pub permissions: Vec<Permission>,
    /// Resource limits
    pub resource_limits: ResourceLimits,
}

impl Default for PluginConfig {
    fn default() -> (c: Self)
        ensures
            c.settings@ == Map::<Seq<char>, serde_json::Value>::empty(),
            c.enabled_features@.len() == 0,
            c.permissions@.len() == 0,
            c.resource_limits.max_concurrent_ops == Some(10usize),
    {
        PluginConfig {
            settings: StringMap::new(),
            enabled_features: Vec::new(),
            permissions: Vec::new(),
            resource_limits: ResourceLimits::default(),
        }
    }
}

/// Request type
#[derive(Debug, Clone)]
pub enum RequestType {
    /// Process a message
    ProcessMessage,
    /// Execute a command
    ExecuteCommand,
    /// Handle an event
    HandleEvent,
    /// Invoke a tool
    InvokeTool,
    /// Custom request
    Custom(String),
}

/// Plugin request
#[derive(Debug)]
pub struct PluginRequest {
    /// Request ID
    pub id: String,
    /// Request type
    pub request_type: RequestType,
    /// Request data
    pub data: serde_json::Value,
    /// Request metadata
    pub metadata: StringMap<serde_json::Value>,
}

/// Plugin response
#[derive(Debug)]
pub struct PluginResponse {
    /// Response ID
    pub id: String,
    /// Success status
    pub success: bool,
    /// Response data
    pub data: serde_json::Value,
    /// Error message if failed
    pub error: Option<String>,
    /// Response metadata
    pub metadata: StringMap<serde_json::Value>,
}

impl PluginResponse {
    /// Create a successful response
    pub fn success(id: &str, data: serde_json::Value) -> (r: Self)
        ensures
            r.id@ == id@,
            r.success,
            r.data == data,
            r.error is None,
            r.metadata@ == Map::<Seq<char>, serde_json::Value>::empty(),
    {
        PluginResponse {
            id: String::from_str(id),
            success: true,
            data,
            error: None,
            metadata: StringMap::new(),
        }
    }

    /// Create an error response
    pub fn error(id: &str, error: &str) -> (r: Self)
        ensures
            r.id@ == id@,
            !r.success,
            r.error is Some,
            r.error->0@ == error@,
            r.metadata@ == Map::<Seq<char>, serde_json::Value>::empty(),
    {
        PluginResponse {
            id: String::from_str(id),
            success: false,
            data: json_null(),
            error: Some(String::from_str(error)),
            metadata: StringMap::new(),
        }
    }
}

/// Plugin metadata
#[derive(Debug, Clone)]
pub struct PluginMetadata {
    /// Plugin name
    pub name: String,
    /// Plugin version
    pub version: String,
    /// Plugin description
    pub description: String,
    /// Plugin author
    pub author: Option<String>,
    /// Plugin homepage
    pub homepage: Option<String>,
    /// Plugin license
    pub license: Option<String>,
}

/// Plugin interface for extending bot functionality
pub trait Plugin {
    /// Get the plugin name
    fn name(&self) -> &str;

    /// Get the plugin version
    fn version(&self) -> &str;

    /// Get plugin description
    fn description(&self) -> &str;

    /// Get plugin capabilities
    fn capabilities(&self) -> Vec<Capability>;

    /// Check if the plugin can handle a message
    fn can_handle(&self, message: &Message) -> bool;

    /// Get plugin metadata
    fn metadata(&self) -> PluginMetadata;
}

/// Whether the permissions grant the given one: it is among them, or all are granted.
pub open spec fn grants(permissions: Seq<Permission>, permission: Permission) -> bool {
    permissions.contains(permission) || permissions.contains(Permission::All)
}

/// Plugin registry for managing plugins
#[derive(Debug)]
pub struct PluginRegistry {
    plugins: StringMap<PluginMetadata>,
    hooks: StringMap<Vec<String>>,
    permissions: StringMap<Vec<Permission>>,
}

impl PluginRegistry {
    /// The registered plugins under their names.
    pub closed spec fn spec_plugins(&self) -> Map<Seq<char>, PluginMetadata> {
        self.plugins@
    }

    /// The names of the plugins of each hook, under the hook's key.
    pub closed spec fn spec_hooks(&self) -> Map<Seq<char>, Vec<String>> {
        self.hooks@
    }

    /// The permissions of each plugin, under its name.
    pub closed spec fn spec_permissions(&self) -> Map<Seq<char>, Vec<Permission>> {
        self.permissions@
    }

    /// The registered plugins in the order in which they were registered.
    pub closed spec fn spec_listed(&self) -> Seq<PluginMetadata> {
        self.plugins.spec_values()
    }

    /// Whether a plugin has a permission.
    pub open spec fn permits(&self, plugin_name: Seq<char>, permission: Permission) -> bool {
        self.spec_permissions().contains_key(plugin_name) && grants(
            self.spec_permissions()[plugin_name]@,
            permission,
        )
    }

    /// Create a new plugin registry
    pub fn new() -> (r: Self)
        ensures
            r.spec_plugins() == Map::<Seq<char>, PluginMetadata>::empty(),
            r.spec_hooks() == Map::<Seq<char>, Vec<String>>::empty(),
            r.spec_permissions() == Map::<Seq<char>, Vec<Permission>>::empty(),
            r.spec_listed().len() == 0,
    {
        let r = PluginRegistry {
            plugins: StringMap::new(),
            hooks: StringMap::new(),
            permissions: StringMap::new(),
        };
        proof {
            assert(r.plugins.listed());
        }
        r
    }

    /// Whether `after` is the registry `before` once a plugin of the given
    /// metadata and capabilities asked to be registered, with `r` as the answer:
    /// a name that is taken is refused and changes nothing; otherwise the plugin
    /// is known under its name, is on the hook of every capability, and has
    /// every permission.
    pub open spec fn registered(
        before: PluginRegistry,
        after: PluginRegistry,
        metadata: PluginMetadata,
        capabilities: Seq<Capability>,
        r: Result<(), Error>,
    ) -> bool {
        &&& r is Err <==> before.spec_plugins().contains_key(metadata.name@)
        &&& r is Err ==> {
            &&& r->Err_0 is Plugin
            &&& r->Err_0.spec_detail() == Some(
                "Plugin '"@ + metadata.name@ + "' already registered"@,
            )
            &&& after.spec_plugins() == before.spec_plugins()
            &&& after.spec_permissions() == before.spec_permissions()
            &&& after.spec_hooks() == before.spec_hooks()
        }
        &&& r is Ok ==> {
            &&& after.spec_plugins() == before.spec_plugins().insert(metadata.name@, metadata)
            &&& after.spec_permissions().dom() == before.spec_permissions().dom().insert(
                metadata.name@,
            )
            &&& after.spec_permissions()[metadata.name@]@ == seq![Permission::All]
            &&& forall|k: Seq<char>|
                k != metadata.name@ && before.spec_permissions().contains_key(k)
                    ==> after.spec_permissions()[k] == before.spec_permissions()[k]
            &&& forall|p: Permission| after.permits(metadata.name@, p)
            &&& forall|k: Seq<char>|
                #![trigger after.spec_hooks().contains_key(k)]
                #![trigger hook_additions(capabilities, k, metadata.name@)]
                after.spec_hooks().contains_key(k) <==> (before.spec_hooks().contains_key(k)
                    || hook_additions(capabilities, k, metadata.name@).len() > 0)
            &&& forall|k: Seq<char>| #[trigger]
                names_on(after.spec_hooks(), k) == names_on(before.spec_hooks(), k)
                    + hook_additions(capabilities, k, metadata.name@)
        }
    }

    /// Register a plugin by its metadata and capabilities: it is known under
    /// its name, put on the hook of every capability, and given every
    /// permission. A name that is taken is refused.
    pub fn register(&mut self, metadata: PluginMetadata, capabilities: &Vec<Capability>) -> (r:
        Result<(), Error>)
        ensures
            Self::registered(*old(self), *final(self), metadata, capabilities@, r),
    {
        if self.plugins.contains_key(metadata.name.as_str()) {
            let mut msg = String::from_str("Plugin '");
            msg.append(metadata.name.as_str());
            msg.append("' already registered");
            return Err(Error::Plugin(msg));
        }
        let name = metadata.name.clone();
        // Register capabilities
        let mut i: usize = 0;
        assert(capabilities@.take(0) =~= Seq::<Capability>::empty());
        assert forall|k: Seq<char>| #[trigger]
            names_on(self.hooks@, k) == names_on(old(self).hooks@, k) + hook_additions(
                capabilities@.take(0),
                k,
                name@,
            ) by {
            assert(names_on(self.hooks@, k) =~= names_on(self.hooks@, k) + Seq::<Seq<char>>::empty());
        }
        while i < capabilities.len()
            invariant
                i <= capabilities.len(),
                self.plugins == old(self).plugins,
                self.permissions == old(self).permissions,
                name@ == metadata.name@,
                forall|k: Seq<char>|
                    #![trigger self.hooks@.contains_key(k)]
                    #![trigger hook_additions(capabilities@.take(i as int), k, name@)]
                    self.hooks@.contains_key(k) <==> (old(self).hooks@.contains_key(k)
                        || hook_additions(capabilities@.take(i as int), k, name@).len() > 0),
                forall|k: Seq<char>| #[trigger]
                    names_on(self.hooks@, k) == names_on(old(self).hooks@, k) + hook_additions(
                        capabilities@.take(i as int),
                        k,
                        name@,
                    ),
            decreases capabilities.len() - i,
        {
            let ghost before = self.hooks@;
            let ghost key = hook_key_of(capabilities@[i as int]);
            self.register_hook(name.as_str(), &capabilities[i]);
            proof {
                assert(capabilities@.take(i + 1).drop_last() =~= capabilities@.take(i as int));
                assert(capabilities@.take(i + 1).last() == capabilities@[i as int]);
                assert forall|k: Seq<char>|
                    #![trigger self.hooks@.contains_key(k)]
                    #![trigger hook_additions(capabilities@.take(i + 1), k, name@)]
                    self.hooks@.contains_key(k) <==> (old(self).hooks@.contains_key(k)
                        || hook_additions(capabilities@.take(i + 1), k, name@).len() > 0) by {
                    assert(before.contains_key(k) <==> (old(self).hooks@.contains_key(k)
                        || hook_additions(capabilities@.take(i as int), k, name@).len() > 0));
                    assert(self.hooks@.contains_key(k) <==> (before.contains_key(k) || k == key));
                }
                assert forall|k: Seq<char>| #[trigger]
                    names_on(self.hooks@, k) == names_on(old(self).hooks@, k) + hook_additions(
                        capabilities@.take(i + 1),
                        k,
                        name@,
                    ) by {
                    let earlier = hook_additions(capabilities@.take(i as int), k, name@);
                    assert(names_on(before, k) == names_on(old(self).hooks@, k) + earlier);
                    if k == key {
                        assert(names_on(self.hooks@, k) == names_on(before, k).push(name@));
                        assert((names_on(old(self).hooks@, k) + earlier).push(name@) =~= names_on(
                            old(self).hooks@,
                            k,
                        ) + earlier.push(name@));
                    } else {
                        assert(names_on(self.hooks@, k) == names_on(before, k));
                    }
                }
            }
            i = i + 1;
        }
        assert(capabilities@.take(capabilities@.len() as int) =~= capabilities@);
        self.plugins.insert(name.clone(), metadata);
        let mut all: Vec<Permission> = Vec::new();
        all.push(Permission::All);
        assert(all@ =~= seq![Permission::All]);
        let ghost before_permissions = self.permissions@;
        self.permissions.insert(name, all);
        proof {
            assert(self.permissions@.dom() =~= before_permissions.dom().insert(metadata.name@));
            assert(seq![Permission::All][0] == Permission::All);
            assert(seq![Permission::All].contains(Permission::All));
        }
        Ok(())
    }

    /// Register a plugin as it describes itself: it is asked for its metadata
    /// and its capabilities, and registered by them.
    pub fn register_plugin<P: Plugin>(&mut self, plugin: &P) -> (r: Result<(), Error>)
        ensures
            exists|metadata: PluginMetadata, capabilities: Seq<Capability>| #[trigger]
                Self::registered(*old(self), *final(self), metadata, capabilities, r),
    {
        let metadata = plugin.metadata();
        let capabilities = plugin.capabilities();
        let ghost described = metadata;
        let r = self.register(metadata, &capabilities);
        assert(Self::registered(*old(self), *self, described, capabilities@, r));
        r
    }

    /// Unregister a plugin: it leaves the registry, every hook and the
    /// permissions. A name that is not registered is refused.
    pub fn unregister(&mut self, name: &str) -> (r: Result<(), Error>)
        ensures
            r is Ok <==> old(self).spec_plugins().contains_key(name@),
            r matches Err(e) ==> e is NotFound && e.spec_detail() == Some(
                "Plugin '"@ + name@ + "' not found"@,
            ) && final(self).spec_plugins() == old(self).spec_plugins() && final(self).spec_permissions() == old(self).spec_permissions() && final(self).spec_hooks() == old(self).spec_hooks(),
            r is Ok ==> {
                &&& final(self).spec_plugins() == old(self).spec_plugins().remove(name@)
                &&& final(self).spec_permissions() == old(self).spec_permissions().remove(name@)
                &&& final(self).spec_hooks().dom() == old(self).spec_hooks().dom()
                &&& forall|k: Seq<char>|
                    old(self).spec_hooks().contains_key(k) ==> (#[trigger] final(self).spec_hooks()[k])@ == names_without(old(self).spec_hooks()[k]@, name@)
            },
    {
        match self.plugins.remove(name) {
            None => {
                let mut msg = String::from_str("Plugin '");
                msg.append(name);
                msg.append("' not found");
                Err(Error::NotFound(msg))
            },
            Some(_) => {
                // Remove from hooks
                let n = self.hooks.len();
                let ghost start = self.hooks@;
                let mut keys: Vec<String> = Vec::new();
                let mut i: usize = 0;
                while i < n
                    invariant
                        i <= n,
                        n == self.hooks.spec_keys().len(),
                        self.hooks.listed(),
                        keys@.len() == i,
                        forall|j: int|
                            0 <= j < i ==> (#[trigger] keys@[j])@ == self.hooks.spec_keys()[j],
                    decreases n - i,
                {
                    keys.push(self.hooks.key_at_index(i).clone());
                    i = i + 1;
                }
                proof {
                    assert forall|d: int| 0 <= d < keys@.len() implies start.contains_key(
                        (#[trigger] keys@[d])@,
                    ) by {
                        assert(self.hooks@.contains_key(self.hooks.spec_keys()[d]));
                    }
                    assert forall|k: Seq<char>| start.contains_key(k) implies (exists|d: int|
                        0 <= d < keys@.len() && (#[trigger] keys@[d])@ == k) by {
                        let d = choose|d: int|
                            0 <= d < self.hooks.spec_keys().len() && #[trigger] self.hooks.spec_keys()[d]
                                == k;
                        assert(keys@[d]@ == k);
                    }
                    assert forall|a: int, b: int| 0 <= a < b < keys@.len() implies (
                    #[trigger] keys@[a])@ != (#[trigger] keys@[b])@ by {
                        assert(self.hooks.spec_keys()[a] != self.hooks.spec_keys()[b]);
                    }
                }
                let mut j: usize = 0;
                while j < keys.len()
                    invariant
                        j <= keys.len(),
                        self.plugins@ == old(self).plugins@.remove(name@),
                        self.permissions == old(self).permissions,
                        self.hooks@.dom() == start.dom(),
                        forall|d: int| 0 <= d < keys@.len() ==> start.contains_key(
                            (#[trigger] keys@[d])@,
                        ),
                        forall|k: Seq<char>|
                            start.contains_key(k) ==> (exists|d: int|
                                0 <= d < keys@.len() && (#[trigger] keys@[d])@ == k),
                        forall|a: int, b: int|
                            0 <= a < b < keys@.len() ==> (#[trigger] keys@[a])@ != (
                            #[trigger] keys@[b])@,
                        forall|d: int|
                            0 <= d < j ==> self.hooks@[(#[trigger] keys@[d])@]@ == names_without(
                                start[keys@[d]@]@,
                                name@,
                            ),
                        forall|d: int|
                            j <= d < keys@.len() ==> self.hooks@[(#[trigger] keys@[d])@]
                                == start[keys@[d]@],
                    decreases keys.len() - j,
                {
                    let kept: Vec<String> = match self.hooks.get(keys[j].as_str()) {
                        Some(names) => without_name(names, name),
                        None => Vec::new(),
                    };
                    let ghost before = self.hooks@;
                    self.hooks.insert(keys[j].clone(), kept);
                    proof {
                        assert(before.contains_key(keys@[j as int]@));
                        assert(self.hooks@.dom() =~= before.dom());
                        assert forall|d: int| 0 <= d < j + 1 implies self.hooks@[(
                        #[trigger] keys@[d])@]@ == names_without(start[keys@[d]@]@, name@) by {
                            if d < j {
                                assert(keys@[d]@ != keys@[j as int]@);
                                assert(self.hooks@[keys@[d]@] == before[keys@[d]@]);
                            }
                        }
                        assert forall|d: int| j + 1 <= d < keys@.len() implies self.hooks@[(
                        #[trigger] keys@[d])@] == start[keys@[d]@] by {
                            assert(keys@[j as int]@ != keys@[d]@);
                            assert(self.hooks@[keys@[d]@] == before[keys@[d]@]);
                        }
                    }
                    j = j + 1;
                }
                let _ = self.permissions.remove(name);
                proof {
                    assert forall|k: Seq<char>| start.contains_key(k) implies (#[trigger] self.hooks@[k])@
                        == names_without(start[k]@, name@) by {
                        let d = choose|d: int| 0 <= d < keys@.len() && (#[trigger] keys@[d])@ == k;
                        assert(self.hooks@[keys@[d]@]@ == names_without(start[keys@[d]@]@, name@));
                    }
                }
                Ok(())
            },
        }
    }

    /// Get the metadata of a plugin by name
    pub fn get(&self, name: &str) -> (r: Option<&PluginMetadata>)
        ensures
            match r {
                Some(m) => self.spec_plugins().contains_key(name@) && *m == self.spec_plugins()[name@],
                None => !self.spec_plugins().contains_key(name@),
            },
    {
        self.plugins.get(name)
    }

    /// List all registered plugins, in the order in which they were registered
    pub fn list(&self) -> (r: Vec<&PluginMetadata>)
        ensures
            r@.len() == self.spec_listed().len(),
            forall|i: int| 0 <= i < r@.len() ==> *(#[trigger] r@[i]) == self.spec_listed()[i],
    {
        let n = self.plugins.len();
        let mut r: Vec<&PluginMetadata> = Vec::new();
        let mut i: usize = 0;
        while i < n
            invariant
                i <= n,
                n == self.plugins.spec_keys().len(),
                self.plugins.listed(),
                r@.len() == i,
                forall|j: int| 0 <= j < i ==> *(#[trigger] r@[j]) == self.plugins.spec_values()[j],
            decreases n - i,
        {
            r.push(self.plugins.value_at_index(i));
            i = i + 1;
        }
        r
    }

    /// Check if a plugin has permission: the permission was granted to it, or
    /// all permissions were
    pub fn has_permission(&self, plugin_name: &str, permission: &Permission) -> (b: bool)
        ensures
            b == self.permits(plugin_name@, *permission),
    {
        match self.permissions.get(plugin_name) {
            None => false,
            Some(granted) => {
                let mut i: usize = 0;
                while i < granted.len()
                    invariant
                        i <= granted.len(),
                        self.permissions@.contains_key(plugin_name@),
                        *granted == self.permissions@[plugin_name@],
                        forall|j: int|
                            0 <= j < i ==> (#[trigger] granted@[j]) != *permission && granted@[j]
                                != Permission::All,
                    decreases granted.len() - i,
                {
                    if granted[i] == *permission || granted[i] == Permission::All {
                        proof {
                            if granted@[i as int] == *permission {
                                assert(granted@.contains(*permission));
                            } else {
                                assert(granted@.contains(Permission::All));
                            }
                        }
                        return true;
                    }
                    i = i + 1;
                }
                proof {
                    assert(!granted@.contains(*permission));
                    assert(!granted@.contains(Permission::All));
                }
                false
            },
        }
    }

    /// Put a plugin on the hook of one of its capabilities: its name goes to
    /// the end of the hook's names, and no other hook changes.
    fn register_hook(&mut self, plugin_name: &str, capability: &Capability)
        ensures
            final(self).plugins == old(self).plugins,
            final(self).permissions == old(self).permissions,
            final(self).hooks@.dom() == old(self).hooks@.dom().insert(hook_key_of(*capability)),
            names_on(final(self).hooks@, hook_key_of(*capability)) == names_on(
                old(self).hooks@,
                hook_key_of(*capability),
            ).push(plugin_name@),
            forall|k: Seq<char>|
                k != hook_key_of(*capability) && old(self).hooks@.contains_key(k) ==> (
                #[trigger] final(self).hooks@[k]) == old(self).hooks@[k],
    {
        let hook = HookType::for_capability(&capability.capability_type);
        let key = hook.to_key();
        let mut names: Vec<String> = match self.hooks.get(key.as_str()) {
            Some(existing) => copy_names(existing),
            None => Vec::new(),
        };
        let ghost earlier = names@;
        names.push(String::from_str(plugin_name));
        let ghost before = self.hooks@;
        self.hooks.insert(key, names);
        proof {
            assert(self.hooks@.dom() =~= before.dom().insert(hook_key_of(*capability)));
            assert(texts_of(earlier.push(self.hooks@[key@]@.last())) =~= texts_of(earlier).push(
                plugin_name@,
            ));
            assert(texts_of(Seq::<String>::empty()) =~= Seq::<Seq<char>>::empty());
        }
    }

    /// The names of the plugins on a hook, in the order in which they registered
    pub fn plugins_for_hook(&self, hook: &HookType) -> (r: Option<&Vec<String>>)
        ensures
            match r {
                Some(names) => self.spec_hooks().contains_key(hook.key()) && *names
                    == self.spec_hooks()[hook.key()] && texts_of(names@) == names_on(
                    self.spec_hooks(),
                    hook.key(),
                ),
                None => !self.spec_hooks().contains_key(hook.key()),
            },
    {
        let key = hook.to_key();
        self.hooks.get(key.as_str())
    }
}

impl Default for PluginRegistry {
    fn default() -> (r: Self)
        ensures
            r.spec_plugins() == Map::<Seq<char>, PluginMetadata>::empty(),
    {
        PluginRegistry::new()
    }
}

/// The names as texts.
pub open spec fn texts_of(names: Seq<String>) -> Seq<Seq<char>> {
    Seq::new(names.len(), |i: int| names[i]@)
}

/// The names on a hook, in the order in which they registered; none where
/// the hook is not known.
pub open spec fn names_on(hooks: Map<Seq<char>, Vec<String>>, key: Seq<char>) -> Seq<Seq<char>> {
    if hooks.contains_key(key) {
        texts_of(hooks[key]@)
    } else {
        Seq::empty()
    }
}

/// The key of the hook that a capability registers for.
pub open spec fn hook_key_of(capability: Capability) -> Seq<char> {
    HookType::spec_for_capability(capability.capability_type).key()
}

/// What the capabilities of a plugin add to a hook: the plugin's name, once
/// for every capability that registers for the hook.
pub open spec fn hook_additions(
    capabilities: Seq<Capability>,
    key: Seq<char>,
    name: Seq<char>,
) -> Seq<Seq<char>>
    decreases capabilities.len(),
{
    if capabilities.len() == 0 {
        Seq::empty()
    } else if hook_key_of(capabilities.last()) == key {
        hook_additions(capabilities.drop_last(), key, name).push(name)
    } else {
        hook_additions(capabilities.drop_last(), key, name)
    }
}

/// A copy of the names.
fn copy_names(names: &Vec<String>) -> (r: Vec<String>)
    ensures
        r@ == names@,
{
    let mut r: Vec<String> = Vec::new();
    let mut i: usize = 0;
    while i < names.len()
        invariant
            i <= names.len(),
            r@ == names@.take(i as int),
        decreases names.len() - i,
    {
        r.push(names[i].clone());
        i = i + 1;
        assert(r@ =~= names@.take(i as int));
    }
    assert(names@.take(names.len() as int) =~= names@);
    r
}

/// The names without the given one, in their order.
pub open spec fn names_without(names: Seq<String>, name: Seq<char>) -> Seq<String>
    decreases names.len(),
{
    if names.len() == 0 {
        Seq::empty()
    } else if names.last()@ == name {
        names_without(names.drop_last(), name)
    } else {
        names_without(names.drop_last(), name).push(names.last())
    }
}

/// What is left once a name was taken out does not hold the name.
pub proof fn lemma_names_without(names: Seq<String>, name: Seq<char>)
    ensures
        forall|i: int|
            0 <= i < names_without(names, name).len() ==> (#[trigger] names_without(
                names,
                name,
            )[i])@ != name,
    decreases names.len(),
{
    if names.len() > 0 {
        lemma_names_without(names.drop_last(), name);
        let before = names_without(names.drop_last(), name);
        let all = names_without(names, name);
        assert forall|i: int| 0 <= i < all.len() implies (#[trigger] all[i])@ != name by {
            if i < before.len() {
                assert(all[i] == before[i]);
            }
        }
    }
}

/// The names without the given one, in their order.
pub fn without_name(names: &Vec<String>, name: &str) -> (r: Vec<String>)
    ensures
        r@ == names_without(names@, name@),
{
    let mut r: Vec<String> = Vec::new();
    let mut i: usize = 0;
    assert(names@.take(0) =~= Seq::<String>::empty());
    while i < names.len()
        invariant
            i <= names.len(),
            r@ == names_without(names@.take(i as int), name@),
        decreases names.len() - i,
    {
        proof {
            assert(names@.take(i + 1).drop_last() =~= names@.take(i as int));
            assert(names@.take(i + 1).last() == names@[i as int]);
        }
        if !str_eq(names[i].as_str(), name) {
            r.push(names[i].clone());
        }
        i = i + 1;
    }
    assert(names@.take(names.len() as int) =~= names@);
    r
}

/// Example plugin implementation
#[derive(Debug)]
pub struct EchoPlugin {
    name: String,
    version: String,
}

impl EchoPlugin {
    /// The plugin's name.
    pub closed spec fn spec_name(&self) -> Seq<char> {
        self.name@
    }

    /// The plugin's version.
    pub closed spec fn spec_version(&self) -> Seq<char> {
        self.version@
    }

    /// Create a new echo plugin
    pub fn new() -> (p: Self)
        ensures
            p.spec_name() == "echo"@,
            p.spec_version() == "1.0.0"@,
    {
        EchoPlugin { name: String::from_str("echo"), version: String::from_str("1.0.0") }
    }

    /// The message that echoes the given one.
    pub fn echo(&self, message: &Message) -> (m: Message)
        ensures
            m.content@ == "Echo: "@ + message.content@,
    {
        let mut content = String::from_str("Echo: ");
        content.append(message.content.as_str());
        Message::text(content.as_str())
    }

    /// Answer a request: a message to process is echoed, anything else is refused.
    pub fn respond(&self, request_type: &RequestType, message: Option<&Message>) -> (r: Result<
        Message,
        &'static str,
    >)
        ensures
            r is Ok <==> *request_type is ProcessMessage && message is Some,
            r matches Ok(m) ==> m.content@ == "Echo: "@ + message->0.content@,
            r matches Err(e) ==> e@ == (if *request_type is ProcessMessage {
                "Invalid message data"@
            } else {
                "Unsupported request type"@
            }),
    {
        match request_type {
            RequestType::ProcessMessage => match message {
                Some(m) => Ok(self.echo(m)),
                None => Err("Invalid message data"),
            },
            _ => Err("Unsupported request type"),
        }
    }
}

impl Default for EchoPlugin {
    fn default() -> (p: Self)
        ensures
            p.spec_name() == "echo"@,
    {
        EchoPlugin::new()
    }
}

impl Plugin for EchoPlugin {
    fn name(&self) -> (n: &str)
        ensures
            n@ == self.spec_name(),
    {
        self.name.as_str()
    }

    fn version(&self) -> (v: &str)
        ensures
            v@ == self.spec_version(),
    {
        self.version.as_str()
    }

    fn description(&self) -> (d: &str)
        ensures
            d@ == "Simple echo plugin for testing"@,
    {
        "Simple echo plugin for testing"
    }

    fn capabilities(&self) -> (c: Vec<Capability>)
        ensures
            c@.len() == 1,
            c@[0].name@ == "echo"@,
            c@[0].capability_type is MessageProcessor,
            c@[0].description@ == "Echoes messages back"@,
            c@[0].required_permissions@ == seq![Permission::ReadMessages, Permission::WriteMessages],
    {
        let mut permissions: Vec<Permission> = Vec::new();
        permissions.push(Permission::ReadMessages);
        permissions.push(Permission::WriteMessages);
        assert(permissions@ =~= seq![Permission::ReadMessages, Permission::WriteMessages]);
        let mut c: Vec<Capability> = Vec::new();
        c.push(
            Capability {
                name: String::from_str("echo"),
                capability_type: CapabilityType::MessageProcessor,
                description: String::from_str("Echoes messages back"),
                required_permissions: permissions,
            },
        );
        c
    }

    fn can_handle(&self, message: &Message) -> (b: bool)
        ensures
            b,
    {
        true
    }

    fn metadata(&self) -> (m: PluginMetadata)
        ensures
            m.name@ == self.spec_name(),
            m.version@ == self.spec_version(),
            m.description@ == "Simple echo plugin for testing"@,
            m.author is None,
            m.homepage is None,
            m.license is None,
    {
        PluginMetadata {
            name: self.name.clone(),
            version: self.version.clone(),
            description: String::from_str(self.description()),
            author: None,
            homepage: None,
            license: None,
        }
    }
}

} // verus!
