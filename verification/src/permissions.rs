//! What a component may do with each capability. Plain data: the
//! capability that holds a configuration enforces it.

use vstd::prelude::*;

use crate::capability::CapabilityKind;

verus! {

/// Limits on message passing.
#[derive(Clone, Debug)]
pub struct MessageServerPermissions {
    /// The largest message, in bytes, that is delivered.
    pub max_message_bytes: usize,
}

/// Limits on reading the host's environment.
#[derive(Clone, Debug)]
pub struct EnvironmentPermissions {
    /// The variables that may be read.
    pub allowed_vars: Vec<String>,
}

/// Limits on filesystem access.
#[derive(Clone, Debug)]
pub struct FileSystemPermissions {
    /// The directories below which files may be opened.
    pub allowed_paths: Vec<String>,
    /// Whether files may be written as well as read.
    pub write: bool,
}

/// Limits on outbound HTTP requests.
#[derive(Clone, Debug)]
pub struct HttpClientPermissions {
    /// The hosts that may be reached.
    pub allowed_hosts: Vec<String>,
}

/// Limits on the HTTP servers a component runs.
#[derive(Clone, Debug)]
pub struct HttpFrameworkPermissions {
    /// The addresses on which a server may be created.
    pub allowed_addresses: Vec<String>,
}

/// Limits on spawning processes.
#[derive(Clone, Debug)]
pub struct ProcessPermissions {
    /// The programs that may be run.
    pub allowed_programs: Vec<String>,
    /// The most processes that may run at once.
    pub max_processes: usize,
}

/// Limits on calls into the runtime itself.
#[derive(Clone, Debug)]
pub struct RuntimePermissions {
    /// Whether the component may ask for its own shutdown.
    pub allow_shutdown: bool,
}

/// Limits on supervising child actors.
#[derive(Clone, Debug)]
pub struct SupervisorPermissions {
    /// The most children that may be alive at once.
    pub max_children: usize,
}

/// Limits on the key-value store.
#[derive(Clone, Debug)]
pub struct StorePermissions {
    /// The most bytes that may be stored.
    pub max_bytes: u64,
}

/// Limits on timing calls.
#[derive(Clone, Debug)]
pub struct TimingPermissions {
    /// The longest sleep, in milliseconds.
    pub max_sleep_millis: u64,
}

/// Limits on random data.
#[derive(Clone, Debug)]
pub struct RandomPermissions {
    /// The most random bytes handed out by one call.
    pub max_bytes: usize,
}

/// What the grant source says of one capability.
#[derive(Clone, Debug)]
pub enum Grant<P> {
    NotGranted,
    /// Granted, with the defaults of the capability.
    Unrestricted,
    /// Granted within the given configuration.
    Configured(P),
}

impl<P> Grant<P> {
    /// Whether the capability is granted at all.
    pub open spec fn is_granted_spec(&self) -> bool {
        !(self is NotGranted)
    }

    #[verifier::when_used_as_spec(is_granted_spec)]
    pub fn is_granted(&self) -> (r: bool)
        ensures
            r == self.is_granted_spec(),
    {
        match self {
            Grant::NotGranted => false,
            _ => true,
        }
    }

    /// The configuration that a handler built from this grant carries.
    pub open spec fn config_spec(self) -> Option<P> {
        match self {
            Grant::Configured(p) => Some(p),
            _ => None,
        }
    }

    /// The grant once its configuration has been handed over: still a
    /// grant, `Unrestricted` where it had a configuration.
    pub open spec fn without_config(self) -> Grant<P> {
        match self {
            Grant::Configured(_) => Grant::Unrestricted,
            other => other,
        }
    }

    /// Hands over the configuration that a handler built from this grant
    /// carries: the grant's own, or none. The grant stays a grant: one
    /// that had a configuration is `Unrestricted` afterwards.
    pub fn take_config(&mut self) -> (r: Option<P>)
        ensures
            r == old(self).config_spec(),
            *final(self) == old(self).without_config(),
    {
        let mut taken = Grant::Unrestricted;
        match self {
            Grant::Configured(_) => {
                core::mem::swap(self, &mut taken);
            },
            _ => {},
        }
        match taken {
            Grant::Configured(p) => Some(p),
            _ => None,
        }
    }
}

/// The grants of one component, one per capability kind.
#[derive(Clone, Debug)]
pub struct PermissionGrants {
    pub message_server: Grant<MessageServerPermissions>,
    pub environment: Grant<EnvironmentPermissions>,
    pub file_system: Grant<FileSystemPermissions>,
    pub http_client: Grant<HttpClientPermissions>,
    pub http_framework: Grant<HttpFrameworkPermissions>,
    pub process: Grant<ProcessPermissions>,
    pub runtime: Grant<RuntimePermissions>,
    pub supervisor: Grant<SupervisorPermissions>,
    pub store: Grant<StorePermissions>,
    pub timing: Grant<TimingPermissions>,
    pub random: Grant<RandomPermissions>,
}

impl PermissionGrants {
    /// Whether the grant source grants the capability.
    pub open spec fn granted_spec(&self, kind: CapabilityKind) -> bool {
        match kind {
            CapabilityKind::MessageServer => self.message_server.is_granted_spec(),
            CapabilityKind::Environment => self.environment.is_granted_spec(),
            CapabilityKind::FileSystem => self.file_system.is_granted_spec(),
            CapabilityKind::HttpClient => self.http_client.is_granted_spec(),
            CapabilityKind::HttpFramework => self.http_framework.is_granted_spec(),
            CapabilityKind::Process => self.process.is_granted_spec(),
            CapabilityKind::Runtime => self.runtime.is_granted_spec(),
            CapabilityKind::Supervisor => self.supervisor.is_granted_spec(),
            CapabilityKind::Store => self.store.is_granted_spec(),
            CapabilityKind::Timing => self.timing.is_granted_spec(),
            CapabilityKind::Random => self.random.is_granted_spec(),
        }
    }

    #[verifier::when_used_as_spec(granted_spec)]
    pub fn granted(&self, kind: CapabilityKind) -> (r: bool)
        ensures
            r == self.granted_spec(kind),
    {
        match kind {
            CapabilityKind::MessageServer => self.message_server.is_granted(),
            CapabilityKind::Environment => self.environment.is_granted(),
            CapabilityKind::FileSystem => self.file_system.is_granted(),
            CapabilityKind::HttpClient => self.http_client.is_granted(),
            CapabilityKind::HttpFramework => self.http_framework.is_granted(),
            CapabilityKind::Process => self.process.is_granted(),
            CapabilityKind::Runtime => self.runtime.is_granted(),
            CapabilityKind::Supervisor => self.supervisor.is_granted(),
            CapabilityKind::Store => self.store.is_granted(),
            CapabilityKind::Timing => self.timing.is_granted(),
            CapabilityKind::Random => self.random.is_granted(),
        }
    }

    /// Whether a component with these grants may have the capability:
    /// it is granted, or it is one that needs no grant.
    pub open spec fn admits_spec(&self, kind: CapabilityKind) -> bool {
        self.granted_spec(kind) || !kind.requires_grant_spec()
    }

    #[verifier::when_used_as_spec(admits_spec)]
    pub fn admits(&self, kind: CapabilityKind) -> (r: bool)
        ensures
            r == self.admits_spec(kind),
    {
        self.granted(kind) || !kind.requires_grant()
    }

    /// The grants once the configuration of one kind has been handed
    /// over to its handler.
    pub open spec fn without_config(self, kind: CapabilityKind) -> PermissionGrants {
        match kind {
            CapabilityKind::MessageServer => PermissionGrants {
                message_server: self.message_server.without_config(),
                ..self
            },
            CapabilityKind::Environment => PermissionGrants {
                environment: self.environment.without_config(),
                ..self
            },
            CapabilityKind::FileSystem => PermissionGrants {
                file_system: self.file_system.without_config(),
                ..self
            },
            CapabilityKind::HttpClient => PermissionGrants {
                http_client: self.http_client.without_config(),
                ..self
            },
            CapabilityKind::HttpFramework => PermissionGrants {
                http_framework: self.http_framework.without_config(),
                ..self
            },
            CapabilityKind::Process => PermissionGrants {
                process: self.process.without_config(),
                ..self
            },
            CapabilityKind::Runtime => PermissionGrants {
                runtime: self.runtime.without_config(),
                ..self
            },
            CapabilityKind::Supervisor => PermissionGrants {
                supervisor: self.supervisor.without_config(),
                ..self
            },
            CapabilityKind::Store => PermissionGrants {
                store: self.store.without_config(),
                ..self
            },
            CapabilityKind::Timing => PermissionGrants {
                timing: self.timing.without_config(),
                ..self
            },
            CapabilityKind::Random => PermissionGrants {
                random: self.random.without_config(),
                ..self
            },
        }
    }

    /// The grants of a component that was granted nothing.
    pub fn none() -> (grants: PermissionGrants)
        ensures
            forall|kind: CapabilityKind| !grants.granted_spec(kind),
    {
        PermissionGrants {
            message_server: Grant::NotGranted,
            environment: Grant::NotGranted,
            file_system: Grant::NotGranted,
            http_client: Grant::NotGranted,
            http_framework: Grant::NotGranted,
            process: Grant::NotGranted,
            runtime: Grant::NotGranted,
            supervisor: Grant::NotGranted,
            store: Grant::NotGranted,
            timing: Grant::NotGranted,
            random: Grant::NotGranted,
        }
    }
}

} // verus!
