//! The catalogue of protected roots: locations that no plan may ever touch.

use vstd::prelude::*;
use crate::classify::matcher::{ctx_inside, ctx_inside_exec, ctx_is, ctx_is_exec, MatchContext};
use crate::paths::{join, path_eq, path_join, path_starts_with, paths_equal, starts_with};
use crate::text::owned;

verus! {

/// Structured explanation of why an item is protected.
#[derive(Debug, Clone, PartialEq, Eq)]
pub struct ProtectedReason {
    pub root_id: String,
    pub root_name: String,
    pub description: String,
}

/// Category of protected path in the macOS operating environment.
#[derive(Debug, Clone, Copy, PartialEq, Eq, Hash, Structural)]
pub enum ProtectedCategory {
    SystemVolume,
    SystemDirectory,
    LibrarySystemComponent,
    CredentialStore,
    CryptoMaterial,
    SourceControl,
    CloudSync,
    TimeMachineSnapshot,
    DurableAppState,
}

/// Declarative description of a protected root path or scope.
#[derive(Debug, Clone, Copy, PartialEq, Eq)]
pub struct ProtectedRootDescriptor {
    pub id: &'static str,
    pub name: &'static str,
    pub category: ProtectedCategory,
    pub description: &'static str,
    /// Exact canonical path if fixed on system.
    pub exact_system_path: Option<&'static str>,
    /// System path prefix (matches all subpaths).
    pub system_prefix: Option<&'static str>,
    /// Path relative to user home directory.
    pub home_relative_prefix: Option<&'static str>,
    /// Exact path relative to user home directory.
    pub home_relative_exact: Option<&'static str>,
}

/// The home directory with links resolved, falling back to the home directory as given.
pub open spec fn home_canonical(ctx: MatchContext) -> Option<Seq<char>> {
    match ctx.home_dir {
        Some(h) => Some(
            match ctx.home_dir_canonical {
                Some(c) => c@,
                None => h@,
            },
        ),
        None => None,
    }
}

impl ProtectedRootDescriptor {
    /// The item's own path falls under this descriptor.
    pub open spec fn spec_matches_path(self, ctx: MatchContext) -> bool {
        ||| (match self.exact_system_path {
            Some(exact) => ctx_is(ctx, exact@),
            None => false,
        })
        ||| (match self.system_prefix {
            Some(prefix) => ctx_inside(ctx, prefix@),
            None => false,
        })
        ||| (match (ctx.home_dir, home_canonical(ctx), self.home_relative_prefix) {
            (Some(home), Some(canon), Some(rel)) => ctx_inside(ctx, path_join(home@, rel@))
                || ctx_inside(ctx, path_join(canon, rel@)),
            _ => false,
        })
        ||| (match (ctx.home_dir, home_canonical(ctx), self.home_relative_exact) {
            (Some(home), Some(canon), Some(rel)) => ctx_is(ctx, path_join(home@, rel@)) || ctx_is(
                ctx,
                path_join(canon, rel@),
            ),
            _ => false,
        })
    }

    /// A symlink target `t` falls under this descriptor.
    pub open spec fn spec_matches_target(self, ctx: MatchContext, t: Seq<char>) -> bool {
        ||| (match self.exact_system_path {
            Some(exact) => path_eq(t, exact@),
            None => false,
        })
        ||| (match self.system_prefix {
            Some(prefix) => path_starts_with(t, prefix@),
            None => false,
        })
        ||| (match (ctx.home_dir, home_canonical(ctx), self.home_relative_prefix) {
            (Some(home), Some(canon), Some(rel)) => path_starts_with(t, path_join(home@, rel@))
                || path_starts_with(t, path_join(canon, rel@)),
            _ => false,
        })
        ||| (match (ctx.home_dir, home_canonical(ctx), self.home_relative_exact) {
            (Some(home), Some(canon), Some(rel)) => path_eq(t, path_join(home@, rel@)) || path_eq(
                t,
                path_join(canon, rel@),
            ),
            _ => false,
        })
    }

    /// The item is covered by this descriptor: by its path, by being Git-internal state for
    /// the source-control category, or as a symlink whose target is covered.
    pub open spec fn spec_matches(self, ctx: MatchContext) -> bool {
        ||| self.spec_matches_path(ctx)
        ||| (self.category == ProtectedCategory::SourceControl && ctx.is_git_internal)
        ||| (match ctx.symlink_target_canonical {
            Some(t) => ctx.is_symlink && self.spec_matches_target(ctx, t@),
            None => false,
        })
    }

    fn matches_path(&self, ctx: &MatchContext) -> (b: bool)
        ensures
            b == self.spec_matches_path(*ctx),
    {
        if let Some(exact) = self.exact_system_path {
            if ctx_is_exec(ctx, exact) {
                return true;
            }
        }
        if let Some(prefix) = self.system_prefix {
            if ctx_inside_exec(ctx, prefix) {
                return true;
            }
        }
        if let Some(home) = &ctx.home_dir {
            let home_canon = match &ctx.home_dir_canonical {
                Some(c) => c.clone(),
                None => home.clone(),
            };
            if let Some(rel) = self.home_relative_prefix {
                let full = join(home.as_str(), rel);
                let full_canon = join(home_canon.as_str(), rel);
                if ctx_inside_exec(ctx, full.as_str()) || ctx_inside_exec(ctx, full_canon.as_str()) {
                    return true;
                }
            }
            if let Some(rel) = self.home_relative_exact {
                let full = join(home.as_str(), rel);
                let full_canon = join(home_canon.as_str(), rel);
                if ctx_is_exec(ctx, full.as_str()) || ctx_is_exec(ctx, full_canon.as_str()) {
                    return true;
                }
            }
        }
        false
    }

    fn matches_target(&self, ctx: &MatchContext, t: &str) -> (b: bool)
        ensures
            b == self.spec_matches_target(*ctx, t@),
    {
        if let Some(exact) = self.exact_system_path {
            if paths_equal(t, exact) {
                return true;
            }
        }
        if let Some(prefix) = self.system_prefix {
            if starts_with(t, prefix) {
                return true;
            }
        }
        if let Some(home) = &ctx.home_dir {
            let home_canon = match &ctx.home_dir_canonical {
                Some(c) => c.clone(),
                None => home.clone(),
            };
            if let Some(rel) = self.home_relative_prefix {
                let full = join(home.as_str(), rel);
                let full_canon = join(home_canon.as_str(), rel);
                if starts_with(t, full.as_str()) || starts_with(t, full_canon.as_str()) {
                    return true;
                }
            }
            if let Some(rel) = self.home_relative_exact {
                let full = join(home.as_str(), rel);
                let full_canon = join(home_canon.as_str(), rel);
                if paths_equal(t, full.as_str()) || paths_equal(t, full_canon.as_str()) {
                    return true;
                }
            }
        }
        false
    }

    /// Whether the item in `ctx` is covered by this protected root.
    pub fn matches(&self, ctx: &MatchContext) -> (b: bool)
        ensures
            b == self.spec_matches(*ctx),
    {
        if self.matches_path(ctx) {
            return true;
        }
        let source_control = match self.category {
            ProtectedCategory::SourceControl => true,
            _ => false,
        };
        if source_control && ctx.is_git_internal {
            return true;
        }
        if ctx.is_symlink {
            if let Some(target) = &ctx.symlink_target_canonical {
                if self.matches_target(ctx, target.as_str()) {
                    return true;
                }
            }
        }
        false
    }
}

/// The standard protected roots, in the order they are consulted.
pub open spec fn protected_root_table() -> Seq<ProtectedRootDescriptor> {
    seq![
        ProtectedRootDescriptor {
            id: "protected.system.root",
            name: "macOS System Root Volume",
            category: ProtectedCategory::SystemVolume,
            description: "Read-only root filesystem sealed by APFS snapshot integrity verification.",
            exact_system_path: Some("/"),
            system_prefix: None,
            home_relative_prefix: None,
            home_relative_exact: None,
        },
        ProtectedRootDescriptor {
            id: "protected.system.preboot",
            name: "System Preboot Volume",
            category: ProtectedCategory::SystemVolume,
            description: "Firmware boot assets and bootloader payloads.",
            exact_system_path: None,
            system_prefix: Some("/System/Volumes/Preboot"),
            home_relative_prefix: None,
            home_relative_exact: None,
        },
        ProtectedRootDescriptor {
            id: "protected.system.update",
            name: "System Update Volume",
            category: ProtectedCategory::SystemVolume,
            description: "Operating system staging volume for system updates.",
            exact_system_path: None,
            system_prefix: Some("/System/Volumes/Update"),
            home_relative_prefix: None,
            home_relative_exact: None,
        },
        ProtectedRootDescriptor {
            id: "protected.system.vm",
            name: "Virtual Memory Swap Volume",
            category: ProtectedCategory::SystemVolume,
            description: "macOS system swap and encrypted paging files.",
            exact_system_path: None,
            system_prefix: Some("/System/Volumes/VM"),
            home_relative_prefix: None,
            home_relative_exact: None,
        },
        ProtectedRootDescriptor {
            id: "protected.system.hardware",
            name: "Hardware and Secure Enclave Volume",
            category: ProtectedCategory::SystemVolume,
            description: "Platform secure enclave and hardware support data.",
            exact_system_path: None,
            system_prefix: Some("/System/Volumes/Hardware"),
            home_relative_prefix: None,
            home_relative_exact: None,
        },
        ProtectedRootDescriptor {
            id: "protected.system.recovery",
            name: "macOS Recovery Volume",
            category: ProtectedCategory::SystemVolume,
            description: "Recovery operating system and diagnostic tools.",
            exact_system_path: None,
            system_prefix: Some("/System/Volumes/Recovery"),
            home_relative_prefix: None,
            home_relative_exact: None,
        },
        ProtectedRootDescriptor {
            id: "protected.system.xarts",
            name: "Apple Silicon xarts Volume",
            category: ProtectedCategory::SystemVolume,
            description: "Secure Enclave cross-architecture runtime storage.",
            exact_system_path: None,
            system_prefix: Some("/System/Volumes/xarts"),
            home_relative_prefix: None,
            home_relative_exact: None,
        },
        ProtectedRootDescriptor {
            id: "protected.system.iscpreboot",
            name: "iSC Preboot Volume",
            category: ProtectedCategory::SystemVolume,
            description: "Apple Silicon secondary boot and recovery descriptors.",
            exact_system_path: None,
            system_prefix: Some("/System/Volumes/iSCPreboot"),
            home_relative_prefix: None,
            home_relative_exact: None,
        },
        ProtectedRootDescriptor {
            id: "protected.system.directory",
            name: "/System Directory",
            category: ProtectedCategory::SystemDirectory,
            description: "Sealed core macOS operating system components and binaries.",
            exact_system_path: None,
            system_prefix: Some("/System"),
            home_relative_prefix: None,
            home_relative_exact: None,
        },
        ProtectedRootDescriptor {
            id: "protected.library.system_extensions",
            name: "System Extensions",
            category: ProtectedCategory::LibrarySystemComponent,
            description: "Installed macOS driver and network system extensions.",
            exact_system_path: None,
            system_prefix: Some("/Library/SystemExtensions"),
            home_relative_prefix: None,
            home_relative_exact: None,
        },
        ProtectedRootDescriptor {
            id: "protected.library.kernel_extensions",
            name: "Kernel Extensions",
            category: ProtectedCategory::LibrarySystemComponent,
            description: "System kernel extensions and low-level drivers.",
            exact_system_path: None,
            system_prefix: Some("/Library/KernelExtensions"),
            home_relative_prefix: None,
            home_relative_exact: None,
        },
        ProtectedRootDescriptor {
            id: "protected.library.preferences",
            name: "System Preferences",
            category: ProtectedCategory::LibrarySystemComponent,
            description: "Machine-wide system configuration property lists.",
            exact_system_path: None,
            system_prefix: Some("/Library/Preferences"),
            home_relative_prefix: None,
            home_relative_exact: None,
        },
        ProtectedRootDescriptor {
            id: "protected.library.security",
            name: "System Security Components",
            category: ProtectedCategory::LibrarySystemComponent,
            description: "Security authorization plugins, trust evaluation, and certificates.",
            exact_system_path: None,
            system_prefix: Some("/Library/Security"),
            home_relative_prefix: None,
            home_relative_exact: None,
        },
        ProtectedRootDescriptor {
            id: "protected.library.keychains",
            name: "System Keychains",
            category: ProtectedCategory::LibrarySystemComponent,
            description: "System-wide cryptographic trust store and root certificates.",
            exact_system_path: None,
            system_prefix: Some("/Library/Keychains"),
            home_relative_prefix: None,
            home_relative_exact: None,
        },
        ProtectedRootDescriptor {
            id: "protected.library.apple",
            name: "Apple Platform Support",
            category: ProtectedCategory::LibrarySystemComponent,
            description: "Critical vendor system support files.",
            exact_system_path: None,
            system_prefix: Some("/Library/Apple"),
            home_relative_prefix: None,
            home_relative_exact: None,
        },
        ProtectedRootDescriptor {
            id: "protected.library.directory_services",
            name: "Directory Services",
            category: ProtectedCategory::LibrarySystemComponent,
            description: "Local directory node and user account database components.",
            exact_system_path: None,
            system_prefix: Some("/Library/DirectoryServices"),
            home_relative_prefix: None,
            home_relative_exact: None,
        },
        ProtectedRootDescriptor {
            id: "protected.user.keychains",
            name: "User Keychain Store",
            category: ProtectedCategory::CredentialStore,
            description: "Encrypted passwords, secrets, private keys, and application credentials.",
            exact_system_path: None,
            system_prefix: None,
            home_relative_prefix: Some("Library/Keychains"),
            home_relative_exact: None,
        },
        ProtectedRootDescriptor {
            id: "protected.user.aws_credentials",
            name: "AWS Credentials",
            category: ProtectedCategory::CredentialStore,
            description: "AWS cloud access keys, session tokens, and account configuration.",
            exact_system_path: None,
            system_prefix: None,
            home_relative_prefix: Some(".aws"),
            home_relative_exact: None,
        },
        ProtectedRootDescriptor {
            id: "protected.user.azure_credentials",
            name: "Azure Credentials",
            category: ProtectedCategory::CredentialStore,
            description: "Microsoft Azure authentication tokens and service principal profiles.",
            exact_system_path: None,
            system_prefix: None,
            home_relative_prefix: Some(".azure"),
            home_relative_exact: None,
        },
        ProtectedRootDescriptor {
            id: "protected.user.gcloud_credentials",
            name: "Google Cloud Credentials",
            category: ProtectedCategory::CredentialStore,
            description: "Google Cloud SDK application default credentials and authentication tokens.",
            exact_system_path: None,
            system_prefix: None,
            home_relative_prefix: Some(".config/gcloud"),
            home_relative_exact: None,
        },
        ProtectedRootDescriptor {
            id: "protected.user.docker_credentials",
            name: "Docker Authentication Store",
            category: ProtectedCategory::CredentialStore,
            description: "Container registry authentication tokens and credentials.",
            exact_system_path: None,
            system_prefix: None,
            home_relative_prefix: None,
            home_relative_exact: Some(".docker/config.json"),
        },
        ProtectedRootDescriptor {
            id: "protected.user.kube_credentials",
            name: "Kubernetes Credentials",
            category: ProtectedCategory::CredentialStore,
            description: "Cluster configuration, client certificates, and bearer tokens.",
            exact_system_path: None,
            system_prefix: None,
            home_relative_prefix: Some(".kube"),
            home_relative_exact: None,
        },
        ProtectedRootDescriptor {
            id: "protected.user.npmrc",
            name: "npm Configuration and Auth Tokens",
            category: ProtectedCategory::CredentialStore,
            description: "Package registry access tokens and private registry credentials.",
            exact_system_path: None,
            system_prefix: None,
            home_relative_prefix: None,
            home_relative_exact: Some(".npmrc"),
        },
        ProtectedRootDescriptor {
            id: "protected.user.netrc",
            name: "Network Credentials (.netrc)",
            category: ProtectedCategory::CredentialStore,
            description: "Plaintext network login credentials and machine authentication records.",
            exact_system_path: None,
            system_prefix: None,
            home_relative_prefix: None,
            home_relative_exact: Some(".netrc"),
        },
        ProtectedRootDescriptor {
            id: "protected.user.git_credentials",
            name: "Git Credential Store",
            category: ProtectedCategory::CredentialStore,
            description: "Cached passwords and personal access tokens for remote repositories.",
            exact_system_path: None,
            system_prefix: None,
            home_relative_prefix: None,
            home_relative_exact: Some(".git-credentials"),
        },
        ProtectedRootDescriptor {
            id: "protected.user.cargo_credentials",
            name: "Cargo Registry Tokens",
            category: ProtectedCategory::CredentialStore,
            description: "Crates.io and private registry publishing tokens.",
            exact_system_path: None,
            system_prefix: None,
            home_relative_prefix: None,
            home_relative_exact: Some(".cargo/credentials.toml"),
        },
        ProtectedRootDescriptor {
            id: "protected.crypto.ssh",
            name: "SSH Key Material",
            category: ProtectedCategory::CryptoMaterial,
            description: "Secure Shell private keys, identity files, and known host signatures.",
            exact_system_path: None,
            system_prefix: None,
            home_relative_prefix: Some(".ssh"),
            home_relative_exact: None,
        },
        ProtectedRootDescriptor {
            id: "protected.crypto.gnupg",
            name: "GnuPG Keyrings and Trust Database",
            category: ProtectedCategory::CryptoMaterial,
            description: "PGP secret keys, public keyrings, and trust database.",
            exact_system_path: None,
            system_prefix: None,
            home_relative_prefix: Some(".gnupg"),
            home_relative_exact: None,
        },
        ProtectedRootDescriptor {
            id: "protected.source_control.git_internal",
            name: "Git Repository Internal State",
            category: ProtectedCategory::SourceControl,
            description: "Git object database, commit history, branch refs, and HEAD pointer.",
            exact_system_path: None,
            system_prefix: None,
            home_relative_prefix: None,
            home_relative_exact: None,
        },
        ProtectedRootDescriptor {
            id: "protected.cloud_sync.icloud_drive",
            name: "iCloud Drive Document Root",
            category: ProtectedCategory::CloudSync,
            description: "Local cache and synchronization container for Apple iCloud Drive.",
            exact_system_path: None,
            system_prefix: None,
            home_relative_prefix: Some("Library/Mobile Documents/com~apple~CloudDocs"),
            home_relative_exact: None,
        },
        ProtectedRootDescriptor {
            id: "protected.cloud_sync.dropbox",
            name: "Dropbox Sync Root",
            category: ProtectedCategory::CloudSync,
            description: "User synchronized cloud storage managed by Dropbox.",
            exact_system_path: None,
            system_prefix: None,
            home_relative_prefix: Some("Dropbox"),
            home_relative_exact: None,
        },
        ProtectedRootDescriptor {
            id: "protected.cloud_sync.onedrive",
            name: "OneDrive Sync Root",
            category: ProtectedCategory::CloudSync,
            description: "User synchronized cloud storage managed by Microsoft OneDrive.",
            exact_system_path: None,
            system_prefix: None,
            home_relative_prefix: Some("OneDrive"),
            home_relative_exact: None,
        },
        ProtectedRootDescriptor {
            id: "protected.cloud_sync.google_drive",
            name: "Google Drive Sync Root",
            category: ProtectedCategory::CloudSync,
            description: "User synchronized cloud storage managed by Google Drive.",
            exact_system_path: None,
            system_prefix: None,
            home_relative_prefix: Some("Google Drive"),
            home_relative_exact: None,
        },
        ProtectedRootDescriptor {
            id: "protected.cloud_sync.nextcloud",
            name: "Nextcloud Sync Root",
            category: ProtectedCategory::CloudSync,
            description: "User synchronized cloud storage managed by Nextcloud.",
            exact_system_path: None,
            system_prefix: None,
            home_relative_prefix: Some("Nextcloud"),
            home_relative_exact: None,
        },
        ProtectedRootDescriptor {
            id: "protected.cloud_sync.box",
            name: "Box Sync Root",
            category: ProtectedCategory::CloudSync,
            description: "User synchronized cloud storage managed by Box.",
            exact_system_path: None,
            system_prefix: None,
            home_relative_prefix: Some("Box"),
            home_relative_exact: None,
        },
        ProtectedRootDescriptor {
            id: "protected.time_machine.snapshots",
            name: "Time Machine Local Snapshots",
            category: ProtectedCategory::TimeMachineSnapshot,
            description: "APFS local snapshots created for Time Machine incremental recovery.",
            exact_system_path: None,
            system_prefix: Some("/.MobileBackups"),
            home_relative_prefix: None,
            home_relative_exact: None,
        },
        ProtectedRootDescriptor {
            id: "protected.time_machine.volumes",
            name: "Time Machine Volume Snapshots",
            category: ProtectedCategory::TimeMachineSnapshot,
            description: "Mounted Time Machine volume backup chains and catalogs.",
            exact_system_path: None,
            system_prefix: Some("/Volumes/.timemachine"),
            home_relative_prefix: None,
            home_relative_exact: None,
        },
        ProtectedRootDescriptor {
            id: "protected.durable.apple_notes",
            name: "Apple Notes Database",
            category: ProtectedCategory::DurableAppState,
            description: "User notes, attachments, and non-rebuildable local SQLite databases.",
            exact_system_path: None,
            system_prefix: None,
            home_relative_prefix: Some("Library/Group Containers/group.com.apple.notes"),
            home_relative_exact: None,
        },
        ProtectedRootDescriptor {
            id: "protected.durable.mail",
            name: "Apple Mail Local Store",
            category: ProtectedCategory::DurableAppState,
            description: "Local mailboxes, cached drafts, and email messages.",
            exact_system_path: None,
            system_prefix: None,
            home_relative_prefix: Some("Library/Mail"),
            home_relative_exact: None,
        },
        ProtectedRootDescriptor {
            id: "protected.durable.messages",
            name: "Apple Messages Database",
            category: ProtectedCategory::DurableAppState,
            description: "iMessage chat history, attachments, and conversation threads.",
            exact_system_path: None,
            system_prefix: None,
            home_relative_prefix: Some("Library/Messages"),
            home_relative_exact: None,
        },
    ]
}

/// The declarative collection of all standard protected roots.
pub fn protected_roots() -> (roots: Vec<ProtectedRootDescriptor>)
    ensures
        roots@ == protected_root_table(),
{
    let roots = vec![
        ProtectedRootDescriptor {
            id: "protected.system.root",
            name: "macOS System Root Volume",
            category: ProtectedCategory::SystemVolume,
            description: "Read-only root filesystem sealed by APFS snapshot integrity verification.",
            exact_system_path: Some("/"),
            system_prefix: None,
            home_relative_prefix: None,
            home_relative_exact: None,
        },
        ProtectedRootDescriptor {
            id: "protected.system.preboot",
            name: "System Preboot Volume",
            category: ProtectedCategory::SystemVolume,
            description: "Firmware boot assets and bootloader payloads.",
            exact_system_path: None,
            system_prefix: Some("/System/Volumes/Preboot"),
            home_relative_prefix: None,
            home_relative_exact: None,
        },
        ProtectedRootDescriptor {
            id: "protected.system.update",
            name: "System Update Volume",
            category: ProtectedCategory::SystemVolume,
            description: "Operating system staging volume for system updates.",
            exact_system_path: None,
            system_prefix: Some("/System/Volumes/Update"),
            home_relative_prefix: None,
            home_relative_exact: None,
        },
        ProtectedRootDescriptor {
            id: "protected.system.vm",
            name: "Virtual Memory Swap Volume",
            category: ProtectedCategory::SystemVolume,
            description: "macOS system swap and encrypted paging files.",
            exact_system_path: None,
            system_prefix: Some("/System/Volumes/VM"),
            home_relative_prefix: None,
            home_relative_exact: None,
        },
        ProtectedRootDescriptor {
            id: "protected.system.hardware",
            name: "Hardware and Secure Enclave Volume",
            category: ProtectedCategory::SystemVolume,
            description: "Platform secure enclave and hardware support data.",
            exact_system_path: None,
            system_prefix: Some("/System/Volumes/Hardware"),
            home_relative_prefix: None,
            home_relative_exact: None,
        },
        ProtectedRootDescriptor {
            id: "protected.system.recovery",
            name: "macOS Recovery Volume",
            category: ProtectedCategory::SystemVolume,
            description: "Recovery operating system and diagnostic tools.",
            exact_system_path: None,
            system_prefix: Some("/System/Volumes/Recovery"),
            home_relative_prefix: None,
            home_relative_exact: None,
        },
        ProtectedRootDescriptor {
            id: "protected.system.xarts",
            name: "Apple Silicon xarts Volume",
            category: ProtectedCategory::SystemVolume,
            description: "Secure Enclave cross-architecture runtime storage.",
            exact_system_path: None,
            system_prefix: Some("/System/Volumes/xarts"),
            home_relative_prefix: None,
            home_relative_exact: None,
        },
        ProtectedRootDescriptor {
            id: "protected.system.iscpreboot",
            name: "iSC Preboot Volume",
            category: ProtectedCategory::SystemVolume,
            description: "Apple Silicon secondary boot and recovery descriptors.",
            exact_system_path: None,
            system_prefix: Some("/System/Volumes/iSCPreboot"),
            home_relative_prefix: None,
            home_relative_exact: None,
        },
        ProtectedRootDescriptor {
            id: "protected.system.directory",
            name: "/System Directory",
            category: ProtectedCategory::SystemDirectory,
            description: "Sealed core macOS operating system components and binaries.",
            exact_system_path: None,
            system_prefix: Some("/System"),
            home_relative_prefix: None,
            home_relative_exact: None,
        },
        ProtectedRootDescriptor {
            id: "protected.library.system_extensions",
            name: "System Extensions",
            category: ProtectedCategory::LibrarySystemComponent,
            description: "Installed macOS driver and network system extensions.",
            exact_system_path: None,
            system_prefix: Some("/Library/SystemExtensions"),
            home_relative_prefix: None,
            home_relative_exact: None,
        },
        ProtectedRootDescriptor {
            id: "protected.library.kernel_extensions",
            name: "Kernel Extensions",
            category: ProtectedCategory::LibrarySystemComponent,
            description: "System kernel extensions and low-level drivers.",
            exact_system_path: None,
            system_prefix: Some("/Library/KernelExtensions"),
            home_relative_prefix: None,
            home_relative_exact: None,
        },
        ProtectedRootDescriptor {
            id: "protected.library.preferences",
            name: "System Preferences",
            category: ProtectedCategory::LibrarySystemComponent,
            description: "Machine-wide system configuration property lists.",
            exact_system_path: None,
            system_prefix: Some("/Library/Preferences"),
            home_relative_prefix: None,
            home_relative_exact: None,
        },
        ProtectedRootDescriptor {
            id: "protected.library.security",
            name: "System Security Components",
            category: ProtectedCategory::LibrarySystemComponent,
            description: "Security authorization plugins, trust evaluation, and certificates.",
            exact_system_path: None,
            system_prefix: Some("/Library/Security"),
            home_relative_prefix: None,
            home_relative_exact: None,
        },
        ProtectedRootDescriptor {
            id: "protected.library.keychains",
            name: "System Keychains",
            category: ProtectedCategory::LibrarySystemComponent,
            description: "System-wide cryptographic trust store and root certificates.",
            exact_system_path: None,
            system_prefix: Some("/Library/Keychains"),
            home_relative_prefix: None,
            home_relative_exact: None,
        },
        ProtectedRootDescriptor {
            id: "protected.library.apple",
            name: "Apple Platform Support",
            category: ProtectedCategory::LibrarySystemComponent,
            description: "Critical vendor system support files.",
            exact_system_path: None,
            system_prefix: Some("/Library/Apple"),
            home_relative_prefix: None,
            home_relative_exact: None,
        },
        ProtectedRootDescriptor {
            id: "protected.library.directory_services",
            name: "Directory Services",
            category: ProtectedCategory::LibrarySystemComponent,
            description: "Local directory node and user account database components.",
            exact_system_path: None,
            system_prefix: Some("/Library/DirectoryServices"),
            home_relative_prefix: None,
            home_relative_exact: None,
        },
        ProtectedRootDescriptor {
            id: "protected.user.keychains",
            name: "User Keychain Store",
            category: ProtectedCategory::CredentialStore,
            description: "Encrypted passwords, secrets, private keys, and application credentials.",
            exact_system_path: None,
            system_prefix: None,
            home_relative_prefix: Some("Library/Keychains"),
            home_relative_exact: None,
        },
        ProtectedRootDescriptor {
            id: "protected.user.aws_credentials",
            name: "AWS Credentials",
            category: ProtectedCategory::CredentialStore,
            description: "AWS cloud access keys, session tokens, and account configuration.",
            exact_system_path: None,
            system_prefix: None,
            home_relative_prefix: Some(".aws"),
            home_relative_exact: None,
        },
        ProtectedRootDescriptor {
            id: "protected.user.azure_credentials",
            name: "Azure Credentials",
            category: ProtectedCategory::CredentialStore,
            description: "Microsoft Azure authentication tokens and service principal profiles.",
            exact_system_path: None,
            system_prefix: None,
            home_relative_prefix: Some(".azure"),
            home_relative_exact: None,
        },
        ProtectedRootDescriptor {
            id: "protected.user.gcloud_credentials",
            name: "Google Cloud Credentials",
            category: ProtectedCategory::CredentialStore,
            description: "Google Cloud SDK application default credentials and authentication tokens.",
            exact_system_path: None,
            system_prefix: None,
            home_relative_prefix: Some(".config/gcloud"),
            home_relative_exact: None,
        },
        ProtectedRootDescriptor {
            id: "protected.user.docker_credentials",
            name: "Docker Authentication Store",
            category: ProtectedCategory::CredentialStore,
            description: "Container registry authentication tokens and credentials.",
            exact_system_path: None,
            system_prefix: None,
            home_relative_prefix: None,
            home_relative_exact: Some(".docker/config.json"),
        },
        ProtectedRootDescriptor {
            id: "protected.user.kube_credentials",
            name: "Kubernetes Credentials",
            category: ProtectedCategory::CredentialStore,
            description: "Cluster configuration, client certificates, and bearer tokens.",
            exact_system_path: None,
            system_prefix: None,
            home_relative_prefix: Some(".kube"),
            home_relative_exact: None,
        },
        ProtectedRootDescriptor {
            id: "protected.user.npmrc",
            name: "npm Configuration and Auth Tokens",
            category: ProtectedCategory::CredentialStore,
            description: "Package registry access tokens and private registry credentials.",
            exact_system_path: None,
            system_prefix: None,
            home_relative_prefix: None,
            home_relative_exact: Some(".npmrc"),
        },
        ProtectedRootDescriptor {
            id: "protected.user.netrc",
            name: "Network Credentials (.netrc)",
            category: ProtectedCategory::CredentialStore,
            description: "Plaintext network login credentials and machine authentication records.",
            exact_system_path: None,
            system_prefix: None,
            home_relative_prefix: None,
            home_relative_exact: Some(".netrc"),
        },
        ProtectedRootDescriptor {
            id: "protected.user.git_credentials",
            name: "Git Credential Store",
            category: ProtectedCategory::CredentialStore,
            description: "Cached passwords and personal access tokens for remote repositories.",
            exact_system_path: None,
            system_prefix: None,
            home_relative_prefix: None,
            home_relative_exact: Some(".git-credentials"),
        },
        ProtectedRootDescriptor {
            id: "protected.user.cargo_credentials",
            name: "Cargo Registry Tokens",
            category: ProtectedCategory::CredentialStore,
            description: "Crates.io and private registry publishing tokens.",
            exact_system_path: None,
            system_prefix: None,
            home_relative_prefix: None,
            home_relative_exact: Some(".cargo/credentials.toml"),
        },
        ProtectedRootDescriptor {
            id: "protected.crypto.ssh",
            name: "SSH Key Material",
            category: ProtectedCategory::CryptoMaterial,
            description: "Secure Shell private keys, identity files, and known host signatures.",
            exact_system_path: None,
            system_prefix: None,
            home_relative_prefix: Some(".ssh"),
            home_relative_exact: None,
        },
        ProtectedRootDescriptor {
            id: "protected.crypto.gnupg",
            name: "GnuPG Keyrings and Trust Database",
            category: ProtectedCategory::CryptoMaterial,
            description: "PGP secret keys, public keyrings, and trust database.",
            exact_system_path: None,
            system_prefix: None,
            home_relative_prefix: Some(".gnupg"),
            home_relative_exact: None,
        },
        ProtectedRootDescriptor {
            id: "protected.source_control.git_internal",
            name: "Git Repository Internal State",
            category: ProtectedCategory::SourceControl,
            description: "Git object database, commit history, branch refs, and HEAD pointer.",
            exact_system_path: None,
            system_prefix: None,
            home_relative_prefix: None,
            home_relative_exact: None,
        },
        ProtectedRootDescriptor {
            id: "protected.cloud_sync.icloud_drive",
            name: "iCloud Drive Document Root",
            category: ProtectedCategory::CloudSync,
            description: "Local cache and synchronization container for Apple iCloud Drive.",
            exact_system_path: None,
            system_prefix: None,
            home_relative_prefix: Some("Library/Mobile Documents/com~apple~CloudDocs"),
            home_relative_exact: None,
        },
        ProtectedRootDescriptor {
            id: "protected.cloud_sync.dropbox",
            name: "Dropbox Sync Root",
            category: ProtectedCategory::CloudSync,
            description: "User synchronized cloud storage managed by Dropbox.",
            exact_system_path: None,
            system_prefix: None,
            home_relative_prefix: Some("Dropbox"),
            home_relative_exact: None,
        },
        ProtectedRootDescriptor {
            id: "protected.cloud_sync.onedrive",
            name: "OneDrive Sync Root",
            category: ProtectedCategory::CloudSync,
            description: "User synchronized cloud storage managed by Microsoft OneDrive.",
            exact_system_path: None,
            system_prefix: None,
            home_relative_prefix: Some("OneDrive"),
            home_relative_exact: None,
        },
        ProtectedRootDescriptor {
            id: "protected.cloud_sync.google_drive",
            name: "Google Drive Sync Root",
            category: ProtectedCategory::CloudSync,
            description: "User synchronized cloud storage managed by Google Drive.",
            exact_system_path: None,
            system_prefix: None,
            home_relative_prefix: Some("Google Drive"),
            home_relative_exact: None,
        },
        ProtectedRootDescriptor {
            id: "protected.cloud_sync.nextcloud",
            name: "Nextcloud Sync Root",
            category: ProtectedCategory::CloudSync,
            description: "User synchronized cloud storage managed by Nextcloud.",
            exact_system_path: None,
            system_prefix: None,
            home_relative_prefix: Some("Nextcloud"),
            home_relative_exact: None,
        },
        ProtectedRootDescriptor {
            id: "protected.cloud_sync.box",
            name: "Box Sync Root",
            category: ProtectedCategory::CloudSync,
            description: "User synchronized cloud storage managed by Box.",
            exact_system_path: None,
            system_prefix: None,
            home_relative_prefix: Some("Box"),
            home_relative_exact: None,
        },
        ProtectedRootDescriptor {
            id: "protected.time_machine.snapshots",
            name: "Time Machine Local Snapshots",
            category: ProtectedCategory::TimeMachineSnapshot,
            description: "APFS local snapshots created for Time Machine incremental recovery.",
            exact_system_path: None,
            system_prefix: Some("/.MobileBackups"),
            home_relative_prefix: None,
            home_relative_exact: None,
        },
        ProtectedRootDescriptor {
            id: "protected.time_machine.volumes",
            name: "Time Machine Volume Snapshots",
            category: ProtectedCategory::TimeMachineSnapshot,
            description: "Mounted Time Machine volume backup chains and catalogs.",
            exact_system_path: None,
            system_prefix: Some("/Volumes/.timemachine"),
            home_relative_prefix: None,
            home_relative_exact: None,
        },
        ProtectedRootDescriptor {
            id: "protected.durable.apple_notes",
            name: "Apple Notes Database",
            category: ProtectedCategory::DurableAppState,
            description: "User notes, attachments, and non-rebuildable local SQLite databases.",
            exact_system_path: None,
            system_prefix: None,
            home_relative_prefix: Some("Library/Group Containers/group.com.apple.notes"),
            home_relative_exact: None,
        },
        ProtectedRootDescriptor {
            id: "protected.durable.mail",
            name: "Apple Mail Local Store",
            category: ProtectedCategory::DurableAppState,
            description: "Local mailboxes, cached drafts, and email messages.",
            exact_system_path: None,
            system_prefix: None,
            home_relative_prefix: Some("Library/Mail"),
            home_relative_exact: None,
        },
        ProtectedRootDescriptor {
            id: "protected.durable.messages",
            name: "Apple Messages Database",
            category: ProtectedCategory::DurableAppState,
            description: "iMessage chat history, attachments, and conversation threads.",
            exact_system_path: None,
            system_prefix: None,
            home_relative_prefix: Some("Library/Messages"),
            home_relative_exact: None,
        },
    ];
    assert(roots@ =~= protected_root_table());
    roots
}

/// The position of the first root from `i` on that covers the item, if any.
pub open spec fn first_protecting_root(roots: Seq<ProtectedRootDescriptor>, i: int, ctx: MatchContext) -> Option<int>
    decreases roots.len() - i,
{
    if i < 0 || i >= roots.len() {
        None
    } else if roots[i].spec_matches(ctx) {
        Some(i)
    } else {
        first_protecting_root(roots, i + 1, ctx)
    }
}

proof fn lemma_first_protecting_root(roots: Seq<ProtectedRootDescriptor>, i: int, ctx: MatchContext)
    requires
        0 <= i,
    ensures
        match first_protecting_root(roots, i, ctx) {
            Some(k) => i <= k < roots.len() && roots[k].spec_matches(ctx) && forall|j: int|
                i <= j < k ==> !roots[j].spec_matches(ctx),
            None => forall|j: int| i <= j < roots.len() ==> !roots[j].spec_matches(ctx),
        },
    decreases roots.len() - i,
{
    if i < roots.len() && !roots[i].spec_matches(ctx) {
        lemma_first_protecting_root(roots, i + 1, ctx);
    }
}

/// The item is covered by some standard protected root.
pub open spec fn is_protected_item(ctx: MatchContext) -> bool {
    exists|j: int| 0 <= j < protected_root_table().len() && protected_root_table()[j].spec_matches(ctx)
}

/// Protection does not depend on the path as it was given, only on how it resolved and on
/// the rest of the context.
pub proof fn lemma_protection_ignores_original_path(a: MatchContext, b: MatchContext)
    requires
        a == (MatchContext { original_path: a.original_path, ..b }),
    ensures
        is_protected_item(a) == is_protected_item(b),
{
    assert forall|j: int| 0 <= j < protected_root_table().len() implies #[trigger] protected_root_table()[j].spec_matches(a)
        == protected_root_table()[j].spec_matches(b) by {
        let d = protected_root_table()[j];
        assert(d.spec_matches_path(a) == d.spec_matches_path(b));
        assert(home_canonical(a) == home_canonical(b));
    }
}

/// Returns the reason of the first protected root that covers the item, or `None` when no
/// protected root covers it.
pub fn evaluate_protected_roots(ctx: &MatchContext) -> (r: Option<ProtectedReason>)
    ensures
        r is Some <==> is_protected_item(*ctx),
        match r {
            Some(reason) => {
                let k = first_protecting_root(protected_root_table(), 0, *ctx)->0;
                &&& first_protecting_root(protected_root_table(), 0, *ctx) is Some
                &&& reason.root_id@ == protected_root_table()[k].id@
                &&& reason.root_name@ == protected_root_table()[k].name@
                &&& reason.description@ == protected_root_table()[k].description@
            },
            None => first_protecting_root(protected_root_table(), 0, *ctx) is None,
        },
{
    let roots = protected_roots();
    proof {
        lemma_first_protecting_root(roots@, 0, *ctx);
    }
    let mut i: usize = 0;
    while i < roots.len()
        invariant
            roots@ == protected_root_table(),
            i <= roots@.len(),
            first_protecting_root(roots@, 0, *ctx) == first_protecting_root(roots@, i as int, *ctx),
            forall|j: int| 0 <= j < i ==> !roots@[j].spec_matches(*ctx),
        decreases roots@.len() - i,
    {
        let root = roots[i];
        if root.matches(ctx) {
            return Some(
                ProtectedReason {
                    root_id: owned(root.id),
                    root_name: owned(root.name),
                    description: owned(root.description),
                },
            );
        }
        i = i + 1;
    }
    None
}

/// A symbolic link whose resolved target is, or lies inside, the location of a protected
/// root (its exact system path or system prefix, or its path relative to the home
/// directory) is covered by that root, wherever the link itself sits.
pub proof fn law_symlink_into_protected_root_is_protected(ctx: MatchContext, j: int)
    requires
        0 <= j < protected_root_table().len(),
        ctx.is_symlink,
        ctx.symlink_target_canonical is Some,
        ({
            let d = protected_root_table()[j];
            let t = ctx.symlink_target_canonical->0@;
            ||| d.exact_system_path matches Some(e) && path_eq(t, e@)
            ||| d.system_prefix matches Some(p) && path_starts_with(t, p@)
            ||| ctx.home_dir matches Some(h) && d.home_relative_prefix matches Some(rel)
                && path_starts_with(t, path_join(h@, rel@))
            ||| ctx.home_dir matches Some(h) && d.home_relative_exact matches Some(rel) && path_eq(
                t,
                path_join(h@, rel@),
            )
        }),
    ensures
        protected_root_table()[j].spec_matches(ctx),
        is_protected_item(ctx),
{
    assert(protected_root_table()[j].spec_matches(ctx));
}

} // verus!
