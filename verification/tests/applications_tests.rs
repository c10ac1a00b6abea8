use std::collections::BTreeMap;
use std::sync::Arc;

use diskclearance::applications::adapter::{ApplicationPlatform, FootprintTally};
use diskclearance::applications::associate::{associations_for_application, shared_component_association, usage_count};
use diskclearance::applications::inventory::{application_entry, discover_inventory, related_footprint};
use diskclearance::applications::model::{
    ApplicationEntry, Association, Candidate, MatchReason, MatchStrength, RelatedFile, RelatedLocationKind,
    RemovalState,
};
use diskclearance::applications::names::{
    candidate_name, developer_name, has_ancestor_name, identity_names, is_bundle_identifier,
    is_exact_identity_candidate, is_sensitive_path, is_top_level_path, names_are_similar, normalize_name,
};
use diskclearance::applications::related::{finish_related_file, related_file_for};
use diskclearance::classify::class::SafetyClass;
use diskclearance::keyed::sort_dedup_keyed;
use diskclearance::platform::{
    ApplicationDataRoot, ApplicationDataRootKind, ApplicationMetadata, DiscoveredPath, EntryMetadata, EntryType,
    FileIdentity, MountBoundary, PathKind, PlatformAdapter, PlatformError, ResolvedPath, ScanRoot, ScopePermission,
    SettingsDestination, TrashedItem, TrashedItemStatus,
};

/// An in-memory file tree standing in for a disposable directory on disk.
#[derive(Default)]
struct FixtureTree {
    base: String,
    entries: BTreeMap<String, (bool, u64, u64)>,
}

impl FixtureTree {
    fn new(name: &str) -> Self {
        let mut tree = FixtureTree { base: format!("/fixture/{name}"), entries: BTreeMap::new() };
        tree.insert_dir(&tree.base.clone());
        tree
    }

    fn path(&self, relative: &str) -> String {
        format!("{}/{}", self.base, relative)
    }

    fn insert_dir(&mut self, path: &str) {
        let inode = self.entries.len() as u64 + 1;
        self.entries.entry(path.to_string()).or_insert((true, 0, inode));
    }

    fn create_parents(&mut self, path: &str) {
        let mut current = String::new();
        for part in path.trim_start_matches('/').split('/') {
            current.push('/');
            current.push_str(part);
            if current.len() < path.len() {
                self.insert_dir(&current.clone());
            }
        }
    }

    fn create_dir(&mut self, relative: &str) -> String {
        let path = self.path(relative);
        self.create_parents(&path);
        self.insert_dir(&path);
        path
    }

    fn create_file(&mut self, relative: &str, contents: &[u8]) -> String {
        let path = if relative.starts_with('/') { relative.to_string() } else { self.path(relative) };
        self.create_parents(&path);
        let inode = self.entries.len() as u64 + 1;
        self.entries.insert(path.clone(), (false, contents.len() as u64, inode));
        path
    }

    fn children(&self, path: &str) -> Vec<String> {
        let prefix = format!("{path}/");
        self.entries
            .keys()
            .filter(|p| p.starts_with(&prefix) && !p[prefix.len()..].contains('/'))
            .cloned()
            .collect()
    }

    fn metadata(&self, path: &str) -> Option<EntryMetadata> {
        self.entries.get(path).map(|(dir, size, inode)| EntryMetadata {
            identity: FileIdentity { device_id: 1, inode: *inode },
            entry_type: if *dir { EntryType::Directory } else { EntryType::File },
            apparent_size: *size,
            allocated_size: size.div_ceil(4096) * 4096,
            modified_ms: None,
            nlink: 1,
        })
    }

    fn footprint(&self, path: &str) -> Result<u64, PlatformError> {
        let mut tally = FootprintTally::new();
        let mut pending = vec![path.to_string()];
        while let Some(next) = pending.pop() {
            let metadata = self.metadata(&next).ok_or_else(|| PlatformError::NotFound(next.clone()))?;
            if tally.visit(&metadata) {
                pending.extend(self.children(&next));
            }
        }
        Ok(tally.total)
    }
}

/// A scripted platform over an in-memory tree: bundles carry the metadata their
/// `Info.plist` would give, and the frameworks inside a bundle are its shared components.
struct ApplicationAdapter {
    tree: FixtureTree,
    home: String,
    bundles: Vec<String>,
    bundle_info: BTreeMap<String, ApplicationMetadata>,
    roots: Vec<ApplicationDataRoot>,
    running: Vec<String>,
}

impl ApplicationAdapter {
    fn with_running_applications(mut self, running: Vec<String>) -> Self {
        self.running = running;
        self
    }
}

fn create_application_bundle(
    fixture: &mut FixtureTree,
    info: &mut BTreeMap<String, ApplicationMetadata>,
    relative_path: &str,
    name: &str,
    bundle_identifier: &str,
    version: &str,
    developer_name: &str,
) -> String {
    let bundle = fixture.create_dir(relative_path);
    fixture.create_file(&format!("{relative_path}/Contents/Info.plist"), b"<plist/>");
    fixture.create_file(&format!("{relative_path}/Contents/MacOS/{name}"), b"fixture executable");
    fixture.create_file(&format!("{relative_path}/Contents/Resources/app-data.bin"), &[7_u8; 4097]);
    info.insert(
        bundle.clone(),
        ApplicationMetadata {
            bundle_identifier: Some(bundle_identifier.to_string()),
            name: name.to_string(),
            version: Some(version.to_string()),
            developer_name: Some(developer_name.to_string()),
            install_location: bundle.clone(),
            measured_footprint_bytes: 0,
            is_system_application: false,
        },
    );
    bundle
}

fn data_root(fixture: &mut FixtureTree, relative_path: &str, kind: ApplicationDataRootKind) -> ApplicationDataRoot {
    ApplicationDataRoot { path: fixture.create_dir(relative_path), kind }
}

fn application_adapter(
    mut fixture: FixtureTree,
    info: BTreeMap<String, ApplicationMetadata>,
    bundles: Vec<String>,
    roots: Vec<ApplicationDataRoot>,
) -> ApplicationAdapter {
    let home = fixture.create_dir("home");
    ApplicationAdapter { tree: fixture, home, bundles, bundle_info: info, roots, running: Vec::new() }
}

impl PlatformAdapter for ApplicationAdapter {
    fn platform_name(&self) -> &'static str {
        "test"
    }
    fn home_directory(&self) -> Result<DiscoveredPath, PlatformError> {
        Ok(DiscoveredPath { path: self.home.clone(), kind: PathKind::Home })
    }
    fn application_support_directory(&self) -> Result<DiscoveredPath, PlatformError> {
        Ok(DiscoveredPath { path: format!("{}/Library/Application Support", self.home), kind: PathKind::ApplicationSupport })
    }
    fn caches_directory(&self) -> Result<DiscoveredPath, PlatformError> {
        Ok(DiscoveredPath { path: format!("{}/Library/Caches", self.home), kind: PathKind::Caches })
    }
    fn trash_directory(&self) -> Result<DiscoveredPath, PlatformError> {
        Ok(DiscoveredPath { path: format!("{}/.Trash", self.home), kind: PathKind::Trash })
    }
    fn application_directories(&self) -> Result<Vec<DiscoveredPath>, PlatformError> {
        Ok(Vec::new())
    }
    fn default_scan_roots(&self) -> Result<Vec<ScanRoot>, PlatformError> {
        Ok(Vec::new())
    }
    fn check_read_permission(&self, scope: &str) -> Result<ScopePermission, PlatformError> {
        Ok(ScopePermission { scope: scope.to_string(), is_readable: true, required_settings: None })
    }
    fn settings_destination_for_scope(&self, _scope: &str) -> Result<SettingsDestination, PlatformError> {
        Ok(SettingsDestination::SystemSettings)
    }
    fn move_to_trash(&self, path: &str) -> Result<TrashedItem, PlatformError> {
        Err(PlatformError::NotFound(path.to_string()))
    }
    fn enumerate_trash(&self) -> Result<Vec<TrashedItem>, PlatformError> {
        Ok(Vec::new())
    }
    fn check_trashed_item_exists(&self, item: &TrashedItem) -> Result<TrashedItemStatus, PlatformError> {
        Ok(TrashedItemStatus::Missing(item.trashed_path.clone()))
    }
    fn restore_from_trash(&self, _t: &str, _d: &str) -> Result<(), PlatformError> {
        Ok(())
    }
    fn application_metadata(&self, path: &str) -> Result<ApplicationMetadata, PlatformError> {
        let mut metadata =
            self.bundle_info.get(path).cloned().ok_or_else(|| PlatformError::NotFound(path.to_string()))?;
        metadata.measured_footprint_bytes = self.tree.footprint(path)?;
        Ok(metadata)
    }
    fn file_identity(&self, path: &str) -> Result<FileIdentity, PlatformError> {
        self.tree.metadata(path).map(|m| m.identity).ok_or_else(|| PlatformError::NotFound(path.to_string()))
    }
    fn canonicalize_and_normalize(&self, path: &str) -> Result<ResolvedPath, PlatformError> {
        if self.tree.metadata(path).is_none() {
            return Err(PlatformError::NotFound(path.to_string()));
        }
        Ok(ResolvedPath {
            original: path.to_string(),
            canonical: path.to_string(),
            normalized: path.to_string(),
            is_firmlink_alias: false,
        })
    }
    fn check_mount_boundary(&self, _base: &str, _target: &str) -> Result<MountBoundary, PlatformError> {
        Ok(MountBoundary { root_device_id: 1, path_device_id: 1, crosses_boundary: false })
    }
    fn read_entry_metadata(&self, path: &str) -> Result<EntryMetadata, PlatformError> {
        self.tree.metadata(path).ok_or_else(|| PlatformError::NotFound(path.to_string()))
    }
}

impl ApplicationPlatform for ApplicationAdapter {
    fn installed_application_bundles(&self) -> Result<Vec<String>, PlatformError> {
        Ok(self.bundles.clone())
    }
    fn application_data_roots(&self) -> Result<Vec<ApplicationDataRoot>, PlatformError> {
        Ok(self.roots.clone())
    }
    fn application_shared_components(&self, path: &str) -> Result<Vec<String>, PlatformError> {
        Ok(self
            .tree
            .children(&format!("{path}/Contents/Frameworks"))
            .into_iter()
            .map(|p| p.rsplit('/').next().unwrap().to_string())
            .collect())
    }
    fn is_application_running(&self, path: &str) -> bool {
        self.running.iter().any(|p| p == path)
    }
    fn path_is_owned_by_current_user(&self, _path: &str) -> bool {
        true
    }
    fn entry_exists(&self, path: &str) -> bool {
        self.tree.metadata(path).is_some()
    }
    fn list_directory(&self, path: &str) -> Result<Vec<String>, PlatformError> {
        if self.tree.metadata(path).is_none() {
            return Err(PlatformError::NotFound(path.to_string()));
        }
        Ok(self.tree.children(path))
    }
    fn measure_footprint(&self, path: &str) -> Result<u64, PlatformError> {
        self.tree.footprint(path)
    }
}

fn related_item<'a>(entry: &'a ApplicationEntry, path: &str) -> &'a RelatedFile {
    entry
        .related_files
        .iter()
        .find(|item| item.path == path)
        .unwrap_or_else(|| panic!("missing related item {path}"))
}

#[test]
fn two_applications_sharing_a_developer_directory_have_no_selected_cross_association() {
    let mut fixture = FixtureTree::new("application-shared-developer");
    let mut info = BTreeMap::new();
    let alpha = create_application_bundle(&mut fixture, &mut info, "Applications/Alpha.app", "Alpha", "com.acme.alpha", "1.0", "Acme");
    let beta = create_application_bundle(&mut fixture, &mut info, "Applications/Beta.app", "Beta", "com.acme.beta", "1.0", "Acme");
    fixture.create_file("home/Library/Application Support/Acme/profile.json", b"{}");
    let root = data_root(&mut fixture, "home/Library/Application Support", ApplicationDataRootKind::ApplicationSupport);
    let developer_path = fixture.path("home/Library/Application Support/Acme");
    let adapter = application_adapter(fixture, info, vec![alpha, beta], vec![root]);

    let inventory = discover_inventory(&adapter).unwrap();
    let alpha_entry = inventory.applications.iter().find(|entry| entry.bundle_id.as_deref() == Some("com.acme.alpha")).unwrap();
    let beta_entry = inventory.applications.iter().find(|entry| entry.bundle_id.as_deref() == Some("com.acme.beta")).unwrap();
    let alpha_match = related_item(alpha_entry, &developer_path);
    let beta_match = related_item(beta_entry, &developer_path);

    assert_eq!(alpha_match.evidence.reason, MatchReason::DeveloperDirectory);
    assert_eq!(alpha_match.evidence.strength, MatchStrength::Weak);
    assert_eq!(beta_match.evidence, alpha_match.evidence);
    assert_eq!(alpha_match.safety_class, SafetyClass::Review);
    assert_eq!(beta_match.safety_class, SafetyClass::Review);
    assert!(!alpha_match.selected_by_default);
    assert!(!beta_match.selected_by_default);
}

#[test]
fn licence_file_and_auth_token_near_application_support_are_protected() {
    let mut fixture = FixtureTree::new("application-credentials");
    let mut info = BTreeMap::new();
    let bundle = create_application_bundle(&mut fixture, &mut info, "Applications/Alpha.app", "Alpha", "com.acme.alpha", "1.0", "Acme");
    fixture.create_file("home/Library/Application Support/com.acme.alpha/Alpha.licence", b"licence");
    fixture.create_file("home/Library/Application Support/com.acme.alpha/Alpha.auth-token", b"token");
    let root = data_root(&mut fixture, "home/Library/Application Support", ApplicationDataRootKind::ApplicationSupport);
    let support = fixture.path("home/Library/Application Support/com.acme.alpha");
    let licence = fixture.path("home/Library/Application Support/com.acme.alpha/Alpha.licence");
    let token = fixture.path("home/Library/Application Support/com.acme.alpha/Alpha.auth-token");
    let adapter = application_adapter(fixture, info, vec![bundle], vec![root]);

    let inventory = discover_inventory(&adapter).unwrap();
    let entry = &inventory.applications[0];

    assert_eq!(related_item(entry, &support).safety_class, SafetyClass::Protected);
    assert_eq!(related_item(entry, &licence).safety_class, SafetyClass::Protected);
    assert_eq!(related_item(entry, &token).safety_class, SafetyClass::Protected);
    assert!(!related_item(entry, &licence).selected_by_default);
    assert!(!related_item(entry, &token).selected_by_default);
}

#[test]
fn shared_framework_used_by_two_installed_applications_is_not_offered_for_removal() {
    let mut fixture = FixtureTree::new("application-shared-framework");
    let mut info = BTreeMap::new();
    let alpha = create_application_bundle(&mut fixture, &mut info, "Applications/Alpha.app", "Alpha", "com.acme.alpha", "1.0", "Acme");
    let beta = create_application_bundle(&mut fixture, &mut info, "Applications/Beta.app", "Beta", "com.acme.beta", "1.0", "Acme");
    for bundle in [&alpha, &beta] {
        fixture.create_file(&format!("{bundle}/Contents/Frameworks/Shared.framework/Shared"), b"shared component");
    }
    fixture.create_file("home/Library/Frameworks/Shared.framework/Shared", b"shared component");
    let root = data_root(&mut fixture, "home/Library/Frameworks", ApplicationDataRootKind::Frameworks);
    let shared_path = fixture.path("home/Library/Frameworks/Shared.framework");
    let adapter = application_adapter(fixture, info, vec![alpha, beta], vec![root]);

    let inventory = discover_inventory(&adapter).unwrap();
    assert!(inventory.applications.iter().all(|entry| {
        related_item(entry, &shared_path).evidence.reason == MatchReason::SharedComponent
            && !related_item(entry, &shared_path).offered_for_removal
            && !related_item(entry, &shared_path).selected_by_default
    }));
}

#[test]
fn orphan_leftovers_with_absent_owning_application_are_discoverable() {
    let mut fixture = FixtureTree::new("application-orphan");
    let leftover = fixture.create_file("home/Library/Caches/com.gone.editor/cache.bin", &[0_u8; 2048]);
    let root = data_root(&mut fixture, "home/Library/Caches", ApplicationDataRootKind::Caches);
    let adapter = application_adapter(fixture, BTreeMap::new(), Vec::new(), vec![root]);

    let inventory = discover_inventory(&adapter).unwrap();
    assert!(inventory.applications.is_empty());
    let orphan = inventory.orphans.iter().find(|item| item.path == leftover).unwrap();

    assert_eq!(orphan.evidence.reason, MatchReason::ExactBundleIdentifier);
    assert_eq!(orphan.evidence.strength, MatchStrength::Strong);
    assert_eq!(orphan.safety_class, SafetyClass::Review);
    assert!(!orphan.selected_by_default);
}

#[test]
fn running_application_cannot_be_removed_and_explains_that_it_must_quit() {
    let mut fixture = FixtureTree::new("application-running");
    let mut info = BTreeMap::new();
    let alpha = create_application_bundle(&mut fixture, &mut info, "Applications/Alpha.app", "Alpha", "com.acme.alpha", "1.0", "Acme");
    let root = data_root(&mut fixture, "home/Library/Caches", ApplicationDataRootKind::Caches);
    let adapter =
        application_adapter(fixture, info, vec![alpha.clone()], vec![root]).with_running_applications(vec![alpha]);
    let adapter = Arc::new(adapter);

    let inventory = discover_inventory(adapter.as_ref()).unwrap();
    assert_eq!(inventory.applications[0].removal_state, RemovalState::QuitRequired);
    assert!(!inventory.applications[0].can_remove);
    assert!(!inventory.applications[0].bundle_selected_by_default);
    assert!(inventory.applications[0].removal_explanation.contains("Quit"));
}

#[test]
fn user_documents_are_never_discovered_as_application_state() {
    let mut fixture = FixtureTree::new("application-documents");
    let mut info = BTreeMap::new();
    let bundle = create_application_bundle(&mut fixture, &mut info, "Applications/Alpha.app", "Alpha", "com.acme.alpha", "1.0", "Acme");
    fixture.create_file("home/Documents/Alpha Project/source.txt", b"user work");
    let root = data_root(&mut fixture, "home/Library/Application Support", ApplicationDataRootKind::ApplicationSupport);
    let adapter = application_adapter(fixture, info, vec![bundle], vec![root]);

    let inventory = discover_inventory(&adapter).unwrap();
    assert!(inventory.applications[0].related_files.iter().all(|item| !item.path.contains("Documents")));
}

#[test]
fn application_not_running_is_ready_and_footprints_add_up() {
    let mut fixture = FixtureTree::new("application-ready");
    let mut info = BTreeMap::new();
    let alpha = create_application_bundle(&mut fixture, &mut info, "Applications/Alpha.app", "Alpha", "com.acme.alpha", "1.0", "Acme");
    fixture.create_file("home/Library/Caches/com.acme.alpha/cache.db", &[1_u8; 5000]);
    let root = data_root(&mut fixture, "home/Library/Caches", ApplicationDataRootKind::Caches);
    let cache_dir = fixture.path("home/Library/Caches/com.acme.alpha");
    let adapter = application_adapter(fixture, info, vec![alpha], vec![root]);

    let inventory = discover_inventory(&adapter).unwrap();
    let entry = &inventory.applications[0];
    assert_eq!(entry.removal_state, RemovalState::Ready);
    assert!(entry.can_remove);
    assert!(entry.bundle_selected_by_default);
    assert_eq!(entry.removal_explanation, "Application is not running and can enter a reviewed removal plan.");
    assert_eq!(entry.related_files.len(), 1);
    let cache = related_item(entry, &cache_dir);
    assert_eq!(cache.location, RelatedLocationKind::Caches);
    assert_eq!(cache.evidence.reason, MatchReason::ExactBundleIdentifier);
    assert_eq!(cache.evidence.explanation, "Matched by bundle identifier com.acme.alpha");
    assert_eq!(cache.measured_footprint_bytes, 8192);
    assert_eq!(entry.related_files_footprint_bytes, 8192);
    assert_eq!(entry.combined_footprint_bytes, entry.bundle_footprint_bytes + 8192);
    assert!(inventory.orphans.is_empty());
}

#[test]
fn system_applications_are_left_out() {
    let mut fixture = FixtureTree::new("application-system");
    let mut info = BTreeMap::new();
    let alpha = create_application_bundle(&mut fixture, &mut info, "Applications/Alpha.app", "Alpha", "com.acme.alpha", "1.0", "Acme");
    info.get_mut(&alpha).unwrap().is_system_application = true;
    let root = data_root(&mut fixture, "home/Library/Caches", ApplicationDataRootKind::Caches);
    let adapter = application_adapter(fixture, info, vec![alpha], vec![root]);

    let inventory = discover_inventory(&adapter).unwrap();
    assert!(inventory.applications.is_empty());
}

#[test]
fn unreadable_bundle_fails_the_inventory() {
    let mut fixture = FixtureTree::new("application-unreadable");
    let root = data_root(&mut fixture, "home/Library/Caches", ApplicationDataRootKind::Caches);
    let missing = fixture.path("Applications/Gone.app");
    let adapter = application_adapter(fixture, BTreeMap::new(), vec![missing.clone()], vec![root]);

    assert_eq!(discover_inventory(&adapter), Err(PlatformError::NotFound(missing)));
}

#[test]
fn names_are_reduced_to_lowercase_letters_and_digits() {
    assert_eq!(normalize_name("Alpha Editor-2!"), "alphaeditor2");
    assert_eq!(normalize_name("..."), "");
}

#[test]
fn similar_names_need_four_characters_and_containment() {
    assert!(names_are_similar("Alpha Support", "Alpha"));
    assert!(names_are_similar("alpha", "ALPHA"));
    assert!(names_are_similar("Alph", "Alphabet"));
    assert!(!names_are_similar("Alp", "Alp"));
    assert!(!names_are_similar("Beta", "Alpha"));
}

#[test]
fn bundle_identifiers_have_at_least_two_clean_segments() {
    assert!(is_bundle_identifier("com.acme.alpha"));
    assert!(is_bundle_identifier("com.acme-corp"));
    assert!(!is_bundle_identifier("alpha"));
    assert!(!is_bundle_identifier("com..alpha"));
    assert!(!is_bundle_identifier(".com.alpha"));
    assert!(!is_bundle_identifier("com.alpha."));
    assert!(!is_bundle_identifier("com.al pha"));
}

#[test]
fn developer_name_falls_back_to_the_bundle_identifier() {
    let mut metadata = ApplicationMetadata {
        bundle_identifier: Some("com.acme.alpha".to_string()),
        name: "Alpha".to_string(),
        version: None,
        developer_name: Some("Acme Inc".to_string()),
        install_location: "/Applications/Alpha.app".to_string(),
        measured_footprint_bytes: 0,
        is_system_application: false,
    };
    assert_eq!(developer_name(&metadata), "Acme Inc");
    metadata.developer_name = None;
    assert_eq!(developer_name(&metadata), "acme");
    metadata.bundle_identifier = Some("alpha".to_string());
    assert_eq!(developer_name(&metadata), "");
    metadata.bundle_identifier = None;
    assert_eq!(developer_name(&metadata), "");
}

#[test]
fn identity_names_strip_suffixes_and_group_prefixes() {
    let root = "/u/Library/Preferences";
    assert_eq!(
        identity_names("/u/Library/Preferences/com.acme.alpha.plist", root),
        vec!["com.acme.alpha".to_string(), "group.com.acme.alpha".to_string(), "com.acme.alpha".to_string()]
    );
    assert_eq!(
        identity_names("/u/Library/Preferences/group.com.acme.savedState", root),
        vec!["group.com.acme".to_string(), "group.group.com.acme".to_string(), "com.acme".to_string()]
    );
    assert!(identity_names(root, root).is_empty());
    assert!(identity_names("/elsewhere/com.acme.alpha", root).is_empty());
}

#[test]
fn exact_identity_looks_at_every_ancestor_below_the_root() {
    let root = "/u/Library/Caches";
    assert!(is_exact_identity_candidate("/u/Library/Caches/com.acme.alpha/a/b.bin", root, Some("com.acme.alpha")));
    assert!(!is_exact_identity_candidate("/u/Library/Caches/com.acme.beta/b.bin", root, Some("com.acme.alpha")));
    assert!(is_exact_identity_candidate("/u/Library/Caches/com.gone.editor/x", root, None));
    assert!(is_exact_identity_candidate("/u/Library/Caches/Editor/x", root, None));
    assert!(!is_exact_identity_candidate("/u/Library/Caches/My Editor/a b", root, None));
    assert!(!is_exact_identity_candidate("/u/Library/Caches", root, None));
}

#[test]
fn ancestor_name_is_the_entry_own_name_below_the_root() {
    let root = "/u/Library/Application Support";
    assert!(has_ancestor_name("/u/Library/Application Support/Acme", root, "ACME"));
    assert!(!has_ancestor_name("/u/Library/Application Support/Acme/profile.json", root, "Acme"));
    assert!(!has_ancestor_name(root, root, "Support"));
    assert!(!has_ancestor_name("/u/Library/Application Support/Acme", root, "--"));
}

#[test]
fn top_level_paths_sit_directly_under_the_root() {
    assert!(is_top_level_path("/u/Caches/com.acme", "/u/Caches"));
    assert!(is_top_level_path("/u/Caches/com.acme/", "/u/Caches/"));
    assert!(!is_top_level_path("/u/Caches/com.acme/x", "/u/Caches"));
    assert!(!is_top_level_path("/", ""));
}

#[test]
fn sensitive_names_mark_credentials() {
    assert!(is_sensitive_path("/u/x/Alpha.LICENSE"));
    assert!(is_sensitive_path("/u/x/session-token.json"));
    assert!(!is_sensitive_path("/u/x/cache.db"));
    assert_eq!(candidate_name("/u/x/cache.db"), "cache.db");
    assert_eq!(candidate_name("/"), "");
}

fn candidate(path: &str, root: &str, kind: ApplicationDataRootKind) -> Candidate {
    Candidate { path: path.to_string(), root: ApplicationDataRoot { path: root.to_string(), kind } }
}

#[test]
fn shared_components_need_two_users() {
    let c = candidate("/u/Library/Frameworks/Shared.framework", "/u/Library/Frameworks", ApplicationDataRootKind::Frameworks);
    let one = vec![vec!["Shared.framework".to_string()], vec![]];
    let two = vec![vec!["Shared.framework".to_string()], vec!["Shared.framework".to_string(), "Other.framework".to_string()]];
    let shared = vec!["Shared.framework".to_string()];
    assert_eq!(usage_count(&two, "Shared.framework"), 2);
    assert!(shared_component_association(&c, &one, &shared).is_none());
    let association = shared_component_association(&c, &two, &shared).unwrap();
    assert_eq!(association.reason, MatchReason::SharedComponent);
    assert_eq!(association.strength, MatchStrength::Excluded);
    assert_eq!(
        association.explanation,
        "Shared.framework is used by 2 installed applications and is excluded from removal"
    );
    let caches = candidate("/u/Library/Caches/Shared.framework", "/u/Library/Caches", ApplicationDataRootKind::Caches);
    assert!(shared_component_association(&caches, &two, &shared).is_none());
}

#[test]
fn associations_take_the_first_reason_that_applies() {
    let metadata = ApplicationMetadata {
        bundle_identifier: Some("com.acme.alpha".to_string()),
        name: "Alpha".to_string(),
        version: None,
        developer_name: None,
        install_location: "/Applications/Alpha.app".to_string(),
        measured_footprint_bytes: 0,
        is_system_application: false,
    };
    let root = "/u/Library/Application Support";
    let kind = ApplicationDataRootKind::ApplicationSupport;
    let candidates = vec![
        candidate("/u/Library/Application Support/com.acme.alpha", root, kind),
        candidate("/u/Library/Application Support/acme", root, kind),
        candidate("/u/Library/Application Support/Alpha Helper", root, kind),
        candidate("/u/Library/Application Support/Unrelated", root, kind),
    ];
    let associations = associations_for_application(&metadata, &candidates, &vec![], &vec![]);
    let reasons: Vec<MatchReason> = associations.iter().map(|a| a.reason).collect();
    assert_eq!(reasons, vec![MatchReason::ExactBundleIdentifier, MatchReason::DeveloperDirectory, MatchReason::SimilarName]);
    assert_eq!(associations[1].explanation, "Path is inside a directory named after developer derived from the bundle identifier");
    assert_eq!(associations[2].strength, MatchStrength::Guess);

    let anonymous = ApplicationMetadata { bundle_identifier: None, ..metadata };
    assert!(associations_for_application(&anonymous, &candidates, &vec![], &vec![]).is_empty());
}

#[test]
fn credentials_protect_the_entry_that_holds_them() {
    let c = candidate("/u/Support/com.acme.alpha", "/u/Support", ApplicationDataRootKind::ApplicationSupport);
    let related = related_file_for(&c, 4096);
    assert_eq!(related.location, RelatedLocationKind::ApplicationSupport);
    assert_eq!(related.name, "com.acme.alpha");
    assert_eq!(related.safety_class, SafetyClass::Review);
    let association = Association {
        candidate: c.clone(),
        reason: MatchReason::ExactBundleIdentifier,
        strength: MatchStrength::Strong,
        explanation: "Matched by bundle identifier com.acme.alpha".to_string(),
    };
    let plain = finish_related_file(related.clone(), &association, &vec![]);
    assert_eq!(plain.safety_class, SafetyClass::Review);
    assert_eq!(plain.evidence.explanation, "Matched by bundle identifier com.acme.alpha");
    assert!(!plain.selected_by_default);
    let holder = finish_related_file(related, &association, &vec!["/u/Support/com.acme.alpha/key.licence".to_string()]);
    assert_eq!(holder.safety_class, SafetyClass::Protected);
    assert_eq!(holder.evidence.reason, MatchReason::SensitiveCredential);
    assert_eq!(holder.evidence.explanation, "Contains or is a licence, authentication token, or account credential");
}

#[test]
fn footprint_tally_counts_each_identity_once() {
    let mut tally = FootprintTally::new();
    let file = EntryMetadata {
        identity: FileIdentity { device_id: 1, inode: 9 },
        entry_type: EntryType::File,
        apparent_size: 10,
        allocated_size: 4096,
        modified_ms: None,
        nlink: 2,
    };
    let dir = EntryMetadata { identity: FileIdentity { device_id: 1, inode: 3 }, entry_type: EntryType::Directory, ..file };
    assert!(!tally.visit(&file));
    assert!(!tally.visit(&file));
    assert!(tally.visit(&dir));
    assert!(!tally.visit(&dir));
    assert_eq!(tally.total, 8192);
    let huge = EntryMetadata { identity: FileIdentity { device_id: 2, inode: 1 }, allocated_size: u64::MAX, ..file };
    tally.visit(&huge);
    assert_eq!(tally.total, u64::MAX);
}

#[test]
fn entry_footprints_saturate() {
    let metadata = ApplicationMetadata {
        bundle_identifier: None,
        name: "Big".to_string(),
        version: Some("2".to_string()),
        developer_name: None,
        install_location: "/Applications/Big.app".to_string(),
        measured_footprint_bytes: u64::MAX - 1,
        is_system_application: false,
    };
    let c = candidate("/u/Caches/big", "/u/Caches", ApplicationDataRootKind::Caches);
    let files = vec![related_file_for(&c, 5), related_file_for(&c, 7)];
    assert_eq!(related_footprint(&files), 12);
    let entry = application_entry(&metadata, files, true);
    assert_eq!(entry.related_files_footprint_bytes, 12);
    assert_eq!(entry.combined_footprint_bytes, u64::MAX);
    assert_eq!(entry.removal_state, RemovalState::QuitRequired);
    assert_eq!(entry.removal_explanation, "Quit this application before removing its bundle or related files.");
    assert!(!entry.can_remove);
}

#[test]
fn sorting_by_key_keeps_the_first_of_equal_keys() {
    let items = vec!["b1", "a1", "b2", "c1"];
    let keys = vec![vec![2u64], vec![1u64], vec![2u64], vec![3u64]];
    let (sorted, sorted_keys) = sort_dedup_keyed(items, keys);
    assert_eq!(sorted, vec!["a1", "b1", "c1"]);
    assert_eq!(sorted_keys, vec![vec![1u64], vec![2u64], vec![3u64]]);
}
