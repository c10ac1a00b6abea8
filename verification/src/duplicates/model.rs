//! The duplicate-group data model and the rules for selecting copies to delete.

use vstd::prelude::*;
use crate::classify::class::SafetyClass;
use crate::text::{concat3, str_eq};

verus! {

/// Whether a duplicate copy shares underlying physical storage with another copy.
#[derive(Debug, Clone, Copy, PartialEq, Eq, Hash, Structural)]
pub enum StorageSharingKind {
    /// Independent copy consuming separate storage blocks.
    Independent,
    /// Shares the filesystem inode with another copy; freeing it reclaims 0 bytes.
    Hardlink,
    /// Shares physical extents with another copy (copy-on-write clone); freeing it reclaims 0 bytes.
    ApfsClone,
}

/// Deterministic rule used to select the retained original within a duplicate group.
#[derive(Debug, Clone, Copy, PartialEq, Eq, Hash, Structural)]
pub enum RetainedRule {
    /// Oldest copy by mtime; ties broken by shortest path, then canonical path order.
    OldestByModified,
    /// Newest copy by mtime; ties broken by shortest path, then canonical path order.
    NewestByModified,
    /// Shortest path; ties broken by oldest mtime, then canonical path order.
    ShortestPath,
}

impl Default for RetainedRule {
    fn default() -> (r: Self)
        ensures
            r == RetainedRule::OldestByModified,
    {
        RetainedRule::OldestByModified
    }
}

/// Individual item within a duplicate group.
#[derive(Debug, Clone, PartialEq, Eq)]
pub struct DuplicateItem {
    pub id: String,
    pub path: String,
    pub canonical_path: String,
    pub size_bytes: u64,
    pub modified_ms: Option<u64>,
    pub inode: u64,
    pub device_id: u64,
    pub is_retained: bool,
    /// Selection status; false whenever the library builds an item.
    pub is_selected: bool,
    pub sharing_kind: StorageSharingKind,
}

impl DuplicateItem {
    pub fn new(
        id: String,
        path: String,
        canonical_path: String,
        size_bytes: u64,
        modified_ms: Option<u64>,
        inode: u64,
        device_id: u64,
        is_retained: bool,
        sharing_kind: StorageSharingKind,
    ) -> (item: Self)
        ensures
            item == (DuplicateItem {
                id,
                path,
                canonical_path,
                size_bytes,
                modified_ms,
                inode,
                device_id,
                is_retained,
                is_selected: false,
                sharing_kind,
            }),
    {
        DuplicateItem {
            id,
            path,
            canonical_path,
            size_bytes,
            modified_ms,
            inode,
            device_id,
            is_retained,
            is_selected: false,
            sharing_kind,
        }
    }

    /// An exact copy.
    pub fn duplicate(&self) -> (r: Self)
        ensures
            r == *self,
    {
        DuplicateItem {
            id: self.id.clone(),
            path: self.path.clone(),
            canonical_path: self.canonical_path.clone(),
            size_bytes: self.size_bytes,
            modified_ms: self.modified_ms,
            inode: self.inode,
            device_id: self.device_id,
            is_retained: self.is_retained,
            is_selected: self.is_selected,
            sharing_kind: self.sharing_kind,
        }
    }
}

/// Errors returned during duplicate review plan construction and selection validation.
#[derive(Debug, Clone, PartialEq, Eq)]
pub enum DuplicatePlanError {
    RetainedItemProtected { group_id: String, path: String },
    EntireGroupSelected { group_id: String },
    StorageSharingItemNotDeletable { group_id: String, path: String },
    ItemNotFound { group_id: String, item_id: String },
    NoItemsSelected { group_id: String },
}

impl DuplicatePlanError {
    /// The human-readable description of the error.
    pub open spec fn spec_message(&self) -> Seq<char> {
        match self {
            DuplicatePlanError::RetainedItemProtected { group_id, path } => "Retained original '"@ + path@
                + "' in group '"@ + group_id@ + "' is structurally protected from deletion"@,
            DuplicatePlanError::EntireGroupSelected { group_id } => "Cannot select all copies in group '"@
                + group_id@ + "'; at least the retained original must remain"@,
            DuplicatePlanError::StorageSharingItemNotDeletable { group_id, path } => "Item '"@ + path@
                + "' in group '"@ + group_id@
                + "' shares storage with another copy and contributes zero reclaimable bytes"@,
            DuplicatePlanError::ItemNotFound { group_id, item_id } => "Item '"@ + item_id@
                + "' was not found in group '"@ + group_id@ + "'"@,
            DuplicatePlanError::NoItemsSelected { group_id } => "No items were selected in group '"@
                + group_id@ + "'"@,
        }
    }

    pub fn message(&self) -> (m: String)
        ensures
            m@ == self.spec_message(),
    {
        match self {
            DuplicatePlanError::RetainedItemProtected { group_id, path } => {
                let m = concat3("Retained original '", path, "' in group '");
                concat3(&m, group_id, "' is structurally protected from deletion")
            },
            DuplicatePlanError::EntireGroupSelected { group_id } => concat3(
                "Cannot select all copies in group '",
                group_id,
                "'; at least the retained original must remain",
            ),
            DuplicatePlanError::StorageSharingItemNotDeletable { group_id, path } => {
                let m = concat3("Item '", path, "' in group '");
                concat3(&m, group_id, "' shares storage with another copy and contributes zero reclaimable bytes")
            },
            DuplicatePlanError::ItemNotFound { group_id, item_id } => {
                let m = concat3("Item '", item_id, "' was not found in group '");
                concat3(&m, group_id, "'")
            },
            DuplicatePlanError::NoItemsSelected { group_id } => concat3("No items were selected in group '", group_id, "'"),
        }
    }
}

/// Group of byte-identical regular files.
#[derive(Debug, Clone, PartialEq, Eq)]
pub struct DuplicateGroup {
    pub group_id: String,
    pub size_bytes: u64,
    pub content_hash: String,
    /// Duplicates always classify as Review to require explicit user decision.
    pub safety_class: SafetyClass,
    /// The designated retained copy.
    pub retained: DuplicateItem,
    /// Independent candidate copies that can be chosen for deletion.
    pub candidates: Vec<DuplicateItem>,
    /// Copies that share storage, contributing zero reclaimable bytes.
    pub shared_storage_items: Vec<DuplicateItem>,
    /// Net reclaimable bytes: independent candidates only.
    pub reclaimable_bytes: u64,
    /// Total apparent bytes across all copies in the group.
    pub total_group_bytes: u64,
}

/// The item with its flags reset to not retained and not selected.
pub open spec fn unmarked(i: DuplicateItem) -> DuplicateItem {
    DuplicateItem { is_retained: false, is_selected: false, ..i }
}

/// The first position in `items`, from `i` on, whose identifier is `id`.
pub open spec fn index_of_id_from(items: Seq<DuplicateItem>, id: Seq<char>, i: int) -> Option<int>
    decreases items.len() - i,
{
    if i < 0 || i >= items.len() {
        None
    } else if items[i].id@ == id {
        Some(i)
    } else {
        index_of_id_from(items, id, i + 1)
    }
}

/// The first position in `items` whose identifier is `id`.
pub open spec fn index_of_id(items: Seq<DuplicateItem>, id: Seq<char>) -> Option<int> {
    index_of_id_from(items, id, 0)
}

/// `item` is the candidate copy whose identifier is `id`, the first one with it.
pub open spec fn picks_candidate(candidates: Seq<DuplicateItem>, id: String, item: DuplicateItem) -> bool {
    match index_of_id(candidates, id@) {
        Some(k) => item == candidates[k],
        None => false,
    }
}

/// `ids` holds `id`.
pub open spec fn ids_contain(ids: Seq<String>, id: Seq<char>) -> bool {
    exists|j: int| 0 <= j < ids.len() && ids[j]@ == id
}

impl DuplicateGroup {
    /// Every copy in the group is unselected.
    pub open spec fn spec_no_preselection(&self) -> bool {
        &&& !self.retained.is_selected
        &&& forall|i: int| 0 <= i < self.candidates@.len() ==> !(#[trigger] self.candidates@[i]).is_selected
        &&& forall|i: int|
            0 <= i < self.shared_storage_items@.len() ==> !(#[trigger] self.shared_storage_items@[i]).is_selected
    }

    pub open spec fn spec_total_item_count(&self) -> int {
        (1 + self.candidates@.len() + self.shared_storage_items@.len()) as int
    }

    /// The first safety invariant the group breaks, or `Ok` when it keeps them all.
    pub open spec fn spec_invariant_check(&self) -> Result<(), &'static str> {
        if !self.retained.is_retained {
            Err("retained item must have is_retained = true")
        } else if self.retained.is_selected {
            Err("retained item must not be preselected")
        } else if self.safety_class != SafetyClass::Review {
            Err("duplicate group safety class must be Review")
        } else {
            match candidate_violation_from(self.candidates@, 0) {
                Some(msg) => Err(msg),
                None => match shared_violation_from(self.shared_storage_items@, 0) {
                    Some(msg) => Err(msg),
                    None => if self.reclaimable_bytes != self.candidates@.len() * self.size_bytes {
                        Err("reclaimable bytes must strictly equal independent candidate count * size")
                    } else {
                        Ok(())
                    },
                },
            }
        }
    }
}

/// The first problem with a candidate copy from position `i` on.
pub open spec fn candidate_violation_from(cs: Seq<DuplicateItem>, i: int) -> Option<&'static str>
    decreases cs.len() - i,
{
    if i < 0 || i >= cs.len() {
        None
    } else if cs[i].is_retained {
        Some("candidate cannot be marked retained")
    } else if cs[i].is_selected {
        Some("candidate must not be preselected")
    } else if cs[i].sharing_kind != StorageSharingKind::Independent {
        Some("candidate must have Independent storage sharing kind")
    } else {
        candidate_violation_from(cs, i + 1)
    }
}

/// The first problem with a shared-storage copy from position `i` on.
pub open spec fn shared_violation_from(ss: Seq<DuplicateItem>, i: int) -> Option<&'static str>
    decreases ss.len() - i,
{
    if i < 0 || i >= ss.len() {
        None
    } else if ss[i].is_retained {
        Some("shared storage item cannot be marked retained")
    } else if ss[i].is_selected {
        Some("shared storage item must not be preselected")
    } else if ss[i].sharing_kind == StorageSharingKind::Independent {
        Some("shared storage item must not have Independent storage sharing kind")
    } else {
        shared_violation_from(ss, i + 1)
    }
}

/// The error for the first selected identifier, from position `i` on, that is a shared
/// storage copy or no candidate at all.
pub open spec fn selection_error_from(g: DuplicateGroup, sel: Seq<String>, i: int) -> Option<
    DuplicatePlanError,
>
    decreases sel.len() - i,
{
    if i < 0 || i >= sel.len() {
        None
    } else {
        match index_of_id(g.shared_storage_items@, sel[i]@) {
            Some(k) => Some(
                DuplicatePlanError::StorageSharingItemNotDeletable {
                    group_id: g.group_id,
                    path: g.shared_storage_items@[k].path,
                },
            ),
            None => match index_of_id(g.candidates@, sel[i]@) {
                Some(_) => selection_error_from(g, sel, i + 1),
                None => Some(DuplicatePlanError::ItemNotFound { group_id: g.group_id, item_id: sel[i] }),
            },
        }
    }
}

/// The outcome of validating a selection, when it fails.
pub open spec fn selection_error(g: DuplicateGroup, sel: Seq<String>) -> Option<DuplicatePlanError> {
    if sel.len() == 0 {
        Some(DuplicatePlanError::NoItemsSelected { group_id: g.group_id })
    } else if ids_contain(sel, g.retained.id@) {
        Some(DuplicatePlanError::RetainedItemProtected { group_id: g.group_id, path: g.retained.path })
    } else if sel.len() >= g.spec_total_item_count() {
        Some(DuplicatePlanError::EntireGroupSelected { group_id: g.group_id })
    } else {
        selection_error_from(g, sel, 0)
    }
}

impl DuplicateGroup {
    /// Builds a group: the retained copy is marked retained, no copy is selected, the group
    /// is `Review`, and the byte counts follow from the copy counts.
    pub fn new(
        group_id: String,
        size_bytes: u64,
        content_hash: String,
        retained: DuplicateItem,
        candidates: Vec<DuplicateItem>,
        shared_storage_items: Vec<DuplicateItem>,
    ) -> (g: Self)
        requires
            1 + candidates@.len() + shared_storage_items@.len() <= usize::MAX,
            (1 + candidates@.len() + shared_storage_items@.len()) * size_bytes <= u64::MAX,
        ensures
            g.group_id == group_id,
            g.size_bytes == size_bytes,
            g.content_hash == content_hash,
            g.safety_class == SafetyClass::Review,
            g.retained == (DuplicateItem { is_retained: true, is_selected: false, ..retained }),
            g.candidates@ == candidates@.map_values(|c: DuplicateItem| unmarked(c)),
            g.shared_storage_items@ == shared_storage_items@.map_values(|c: DuplicateItem| unmarked(c)),
            g.reclaimable_bytes == candidates@.len() * size_bytes,
            g.total_group_bytes == (1 + candidates@.len() + shared_storage_items@.len()) * size_bytes,
            g.spec_no_preselection(),
    {
        let mut retained = retained;
        retained.is_retained = true;
        retained.is_selected = false;
        let cs = unmark_all(candidates);
        let ss = unmark_all(shared_storage_items);
        let c = cs.len() as u64;
        let total = (1 + cs.len() + ss.len()) as u64;
        assert(c * size_bytes <= total * size_bytes) by (nonlinear_arith)
            requires
                c <= total,
        ;
        let reclaimable_bytes = c * size_bytes;
        let total_group_bytes = total * size_bytes;
        DuplicateGroup {
            group_id,
            size_bytes,
            content_hash,
            safety_class: SafetyClass::Review,
            retained,
            candidates: cs,
            shared_storage_items: ss,
            reclaimable_bytes,
            total_group_bytes,
        }
    }

    /// Total count of all copies in the group.
    pub fn total_item_count(&self) -> (n: usize)
        requires
            self.spec_total_item_count() <= usize::MAX,
        ensures
            n == self.spec_total_item_count(),
    {
        1 + self.candidates.len() + self.shared_storage_items.len()
    }

    /// Checks the safety invariants of the group and names the first one broken.
    pub fn assert_invariants(&self) -> (r: Result<(), &'static str>)
        ensures
            r == self.spec_invariant_check(),
    {
        if !self.retained.is_retained {
            return Err("retained item must have is_retained = true");
        }
        if self.retained.is_selected {
            return Err("retained item must not be preselected");
        }
        if self.safety_class != SafetyClass::Review {
            return Err("duplicate group safety class must be Review");
        }
        let mut i: usize = 0;
        while i < self.candidates.len()
            invariant
                self.retained.is_retained,
                !self.retained.is_selected,
                self.safety_class == SafetyClass::Review,
                i <= self.candidates@.len(),
                candidate_violation_from(self.candidates@, 0) == candidate_violation_from(
                    self.candidates@,
                    i as int,
                ),
            decreases self.candidates@.len() - i,
        {
            let c = &self.candidates[i];
            if c.is_retained {
                return Err("candidate cannot be marked retained");
            }
            if c.is_selected {
                return Err("candidate must not be preselected");
            }
            if c.sharing_kind != StorageSharingKind::Independent {
                return Err("candidate must have Independent storage sharing kind");
            }
            i = i + 1;
        }
        let mut k: usize = 0;
        while k < self.shared_storage_items.len()
            invariant
                self.retained.is_retained,
                !self.retained.is_selected,
                self.safety_class == SafetyClass::Review,
                candidate_violation_from(self.candidates@, 0) is None,
                k <= self.shared_storage_items@.len(),
                shared_violation_from(self.shared_storage_items@, 0) == shared_violation_from(
                    self.shared_storage_items@,
                    k as int,
                ),
            decreases self.shared_storage_items@.len() - k,
        {
            let s = &self.shared_storage_items[k];
            if s.is_retained {
                return Err("shared storage item cannot be marked retained");
            }
            if s.is_selected {
                return Err("shared storage item must not be preselected");
            }
            if s.sharing_kind == StorageSharingKind::Independent {
                return Err("shared storage item must not have Independent storage sharing kind");
            }
            k = k + 1;
        }
        let n = self.candidates.len() as u64;
        let expected = n.checked_mul(self.size_bytes);
        match expected {
            Some(v) => {
                if self.reclaimable_bytes != v {
                    return Err(
                        "reclaimable bytes must strictly equal independent candidate count * size",
                    );
                }
            },
            None => {
                return Err(
                    "reclaimable bytes must strictly equal independent candidate count * size",
                );
            },
        }
        Ok(())
    }

    /// Whether no copy in this group is selected.
    pub fn no_preselection(&self) -> (b: bool)
        ensures
            b == self.spec_no_preselection(),
    {
        if self.retained.is_selected {
            return false;
        }
        let mut i: usize = 0;
        while i < self.candidates.len()
            invariant
                i <= self.candidates@.len(),
                forall|j: int| 0 <= j < i ==> !(#[trigger] self.candidates@[j]).is_selected,
            decreases self.candidates@.len() - i,
        {
            if self.candidates[i].is_selected {
                return false;
            }
            i = i + 1;
        }
        let mut k: usize = 0;
        while k < self.shared_storage_items.len()
            invariant
                k <= self.shared_storage_items@.len(),
                forall|j: int| 0 <= j < k ==> !(#[trigger] self.shared_storage_items@[j]).is_selected,
            decreases self.shared_storage_items@.len() - k,
        {
            if self.shared_storage_items[k].is_selected {
                return false;
            }
            k = k + 1;
        }
        true
    }

    /// Validates an explicit user selection: something must be selected, the retained copy
    /// never, not every copy of the group, no copy that shares storage, and only copies of
    /// this group. On success, returns the selected candidate copies in selection order.
    pub fn validate_deletion_selection(&self, selected_ids: &[String]) -> (r: Result<
        Vec<DuplicateItem>,
        DuplicatePlanError,
    >)
        requires
            self.spec_total_item_count() <= usize::MAX,
        ensures
            match selection_error(*self, selected_ids@) {
                Some(e) => r == Err::<Vec<DuplicateItem>, DuplicatePlanError>(e),
                None => r matches Ok(v) && v@.len() == selected_ids@.len() && forall|j: int|
                    0 <= j < v@.len() ==> picks_candidate(self.candidates@, selected_ids@[j], #[trigger] v@[j]),
            },
    {
        if selected_ids.len() == 0 {
            return Err(DuplicatePlanError::NoItemsSelected { group_id: self.group_id.clone() });
        }
        let has_retained = ids_contain_exec(selected_ids, self.retained.id.as_str());
        if has_retained {
            return Err(
                DuplicatePlanError::RetainedItemProtected {
                    group_id: self.group_id.clone(),
                    path: self.retained.path.clone(),
                },
            );
        }
        if selected_ids.len() >= self.total_item_count() {
            return Err(DuplicatePlanError::EntireGroupSelected { group_id: self.group_id.clone() });
        }
        let mut validated: Vec<DuplicateItem> = Vec::new();
        let mut i: usize = 0;
        while i < selected_ids.len()
            invariant
                i <= selected_ids@.len(),
                selection_error(*self, selected_ids@) == selection_error_from(
                    *self,
                    selected_ids@,
                    i as int,
                ),
                selected_ids@.len() > 0,
                !ids_contain(selected_ids@, self.retained.id@),
                selected_ids@.len() < self.spec_total_item_count(),
                validated@.len() == i,
                forall|j: int|
                    0 <= j < i ==> picks_candidate(self.candidates@, selected_ids@[j], #[trigger] validated@[j]),
            decreases selected_ids@.len() - i,
        {
            let id = &selected_ids[i];
            match find_by_id(&self.shared_storage_items, id.as_str()) {
                Some(k) => {
                    return Err(
                        DuplicatePlanError::StorageSharingItemNotDeletable {
                            group_id: self.group_id.clone(),
                            path: self.shared_storage_items[k].path.clone(),
                        },
                    );
                },
                None => {},
            }
            match find_by_id(&self.candidates, id.as_str()) {
                Some(k) => {
                    let item = self.candidates[k].duplicate();
                    let ghost old_validated = validated@;
                    validated.push(item);
                    assert(picks_candidate(self.candidates@, selected_ids@[i as int], validated@[i as int]));
                    assert forall|j: int| 0 <= j < i implies picks_candidate(self.candidates@, selected_ids@[j], #[trigger] validated@[j]) by {
                        assert(validated@[j] == old_validated[j]);
                    }
                },
                None => {
                    return Err(
                        DuplicatePlanError::ItemNotFound {
                            group_id: self.group_id.clone(),
                            item_id: id.clone(),
                        },
                    );
                },
            }
            i = i + 1;
        }
        Ok(validated)
    }
}

fn unmark_all(items: Vec<DuplicateItem>) -> (out: Vec<DuplicateItem>)
    ensures
        out@ == items@.map_values(|c: DuplicateItem| unmarked(c)),
{
    let mut out: Vec<DuplicateItem> = Vec::new();
    let mut i: usize = 0;
    while i < items.len()
        invariant
            i <= items@.len(),
            out@ == items@.subrange(0, i as int).map_values(|c: DuplicateItem| unmarked(c)),
        decreases items@.len() - i,
    {
        let mut c = items[i].duplicate();
        c.is_retained = false;
        c.is_selected = false;
        out.push(c);
        i = i + 1;
        assert(out@ =~= items@.subrange(0, i as int).map_values(|c: DuplicateItem| unmarked(c)));
    }
    assert(items@.subrange(0, items@.len() as int) =~= items@);
    out
}

/// Whether some identifier in `ids` equals `id`.
fn ids_contain_exec(ids: &[String], id: &str) -> (b: bool)
    ensures
        b == ids_contain(ids@, id@),
{
    let mut i: usize = 0;
    while i < ids.len()
        invariant
            i <= ids@.len(),
            forall|j: int| 0 <= j < i ==> ids@[j]@ != id@,
        decreases ids@.len() - i,
    {
        if str_eq(ids[i].as_str(), id) {
            return true;
        }
        i = i + 1;
    }
    false
}

/// The first position of an item with identifier `id`.
fn find_by_id(items: &Vec<DuplicateItem>, id: &str) -> (r: Option<usize>)
    ensures
        r matches Some(k) ==> index_of_id(items@, id@) == Some(k as int) && k < items@.len(),
        r is None ==> index_of_id(items@, id@) is None,
{
    let mut i: usize = 0;
    while i < items.len()
        invariant
            i <= items@.len(),
            index_of_id(items@, id@) == index_of_id_from(items@, id@, i as int),
        decreases items@.len() - i,
    {
        if str_eq(items[i].id.as_str(), id) {
            return Some(i);
        }
        i = i + 1;
    }
    None
}

/// A selection that validates never names the retained copy, never takes every copy of
/// the group, and yields only candidate copies, which are independent of the retained one
/// whenever the group keeps its invariants.
pub proof fn law_valid_selection_keeps_an_original(g: DuplicateGroup, sel: Seq<String>)
    requires
        selection_error(g, sel) is None,
    ensures
        !ids_contain(sel, g.retained.id@),
        sel.len() < g.spec_total_item_count(),
        0 < sel.len(),
        forall|j: int| 0 <= j < sel.len() ==> index_of_id(g.candidates@, #[trigger] sel[j]@) is Some,
{
    assert forall|j: int| 0 <= j < sel.len() implies index_of_id(g.candidates@, #[trigger] sel[j]@) is Some by {
        lemma_selection_ok_from(g, sel, 0, j);
    }
}

proof fn lemma_selection_ok_from(g: DuplicateGroup, sel: Seq<String>, i: int, j: int)
    requires
        0 <= i <= j < sel.len(),
        selection_error_from(g, sel, i) is None,
    ensures
        index_of_id(g.candidates@, sel[j]@) is Some,
    decreases j - i,
{
    if i < j {
        lemma_selection_ok_from(g, sel, i + 1, j);
    }
}

/// A group built with independent candidates and sharing copies keeps every invariant.
pub proof fn law_new_group_keeps_invariants(g: DuplicateGroup, candidates: Seq<DuplicateItem>, shared: Seq<DuplicateItem>, retained: DuplicateItem, size: u64)
    requires
        g.safety_class == SafetyClass::Review,
        g.size_bytes == size,
        g.retained == (DuplicateItem { is_retained: true, is_selected: false, ..retained }),
        g.candidates@ == candidates.map_values(|c: DuplicateItem| unmarked(c)),
        g.shared_storage_items@ == shared.map_values(|c: DuplicateItem| unmarked(c)),
        g.reclaimable_bytes == candidates.len() * size,
        forall|i: int| 0 <= i < candidates.len() ==> (#[trigger] candidates[i]).sharing_kind == StorageSharingKind::Independent,
        forall|i: int| 0 <= i < shared.len() ==> (#[trigger] shared[i]).sharing_kind != StorageSharingKind::Independent,
    ensures
        g.spec_invariant_check() == Ok::<(), &'static str>(()),
{
    lemma_no_candidate_violation(g.candidates@, 0);
    lemma_no_shared_violation(g.shared_storage_items@, 0);
}

proof fn lemma_no_candidate_violation(cs: Seq<DuplicateItem>, i: int)
    requires
        0 <= i,
        forall|j: int| 0 <= j < cs.len() ==> !(#[trigger] cs[j]).is_retained && !cs[j].is_selected
            && cs[j].sharing_kind == StorageSharingKind::Independent,
    ensures
        candidate_violation_from(cs, i) is None,
    decreases cs.len() - i,
{
    if i < cs.len() {
        lemma_no_candidate_violation(cs, i + 1);
    }
}

proof fn lemma_no_shared_violation(ss: Seq<DuplicateItem>, i: int)
    requires
        0 <= i,
        forall|j: int| 0 <= j < ss.len() ==> !(#[trigger] ss[j]).is_retained && !ss[j].is_selected
            && ss[j].sharing_kind != StorageSharingKind::Independent,
    ensures
        shared_violation_from(ss, i) is None,
    decreases ss.len() - i,
{
    if i < ss.len() {
        lemma_no_shared_violation(ss, i + 1);
    }
}

/// What the first position of an identifier tells: it holds the identifier; without one,
/// no position holds it.
proof fn lemma_index_of_id_from(items: Seq<DuplicateItem>, id: Seq<char>, i: int)
    requires
        0 <= i,
    ensures
        match index_of_id_from(items, id, i) {
            Some(k) => i <= k < items.len() && items[k].id@ == id,
            None => forall|j: int| i <= j < items.len() ==> (#[trigger] items[j]).id@ != id,
        },
    decreases items.len() - i,
{
    if i < items.len() {
        lemma_index_of_id_from(items, id, i + 1);
    }
}

proof fn lemma_selection_ok_when_candidates(g: DuplicateGroup, sel: Seq<String>, i: int)
    requires
        0 <= i,
        forall|j: int| i <= j < sel.len() ==> index_of_id(g.candidates@, #[trigger] sel[j]@) is Some,
        forall|a: int, b: int|
            0 <= a < g.candidates@.len() && 0 <= b < g.shared_storage_items@.len() ==> (#[trigger] g.candidates@[a]).id@
                != (#[trigger] g.shared_storage_items@[b]).id@,
    ensures
        selection_error_from(g, sel, i) is None,
    decreases sel.len() - i,
{
    if i < sel.len() {
        lemma_index_of_id_from(g.candidates@, sel[i]@, 0);
        lemma_index_of_id_from(g.shared_storage_items@, sel[i]@, 0);
        let k = index_of_id(g.candidates@, sel[i]@)->0;
        if index_of_id(g.shared_storage_items@, sel[i]@) is Some {
            let b = index_of_id(g.shared_storage_items@, sel[i]@)->0;
            assert(g.candidates@[k].id@ != g.shared_storage_items@[b].id@);
        }
        lemma_selection_ok_when_candidates(g, sel, i + 1);
    }
}

/// Selection validation, exactly: where no copy of the group is both a candidate and a
/// copy that shares storage, a selection validates if and only if it is not empty, does
/// not name the retained copy, leaves at least one copy, and names only candidates.
pub proof fn law_selection_validates_exactly(g: DuplicateGroup, sel: Seq<String>)
    requires
        forall|a: int, b: int|
            0 <= a < g.candidates@.len() && 0 <= b < g.shared_storage_items@.len() ==> (#[trigger] g.candidates@[a]).id@
                != (#[trigger] g.shared_storage_items@[b]).id@,
    ensures
        selection_error(g, sel) is None <==> {
            &&& sel.len() > 0
            &&& !ids_contain(sel, g.retained.id@)
            &&& sel.len() < g.spec_total_item_count()
            &&& forall|j: int| 0 <= j < sel.len() ==> index_of_id(g.candidates@, #[trigger] sel[j]@) is Some
        },
{
    if selection_error(g, sel) is None {
        law_valid_selection_keeps_an_original(g, sel);
    }
    if sel.len() > 0 && !ids_contain(sel, g.retained.id@) && sel.len() < g.spec_total_item_count() && (forall|j: int|
        0 <= j < sel.len() ==> index_of_id(g.candidates@, #[trigger] sel[j]@) is Some) {
        lemma_selection_ok_when_candidates(g, sel, 0);
    }
}

proof fn lemma_candidates_clean(cs: Seq<DuplicateItem>, i: int)
    requires
        0 <= i,
        candidate_violation_from(cs, i) is None,
    ensures
        forall|j: int| i <= j < cs.len() ==> !(#[trigger] cs[j]).is_retained && !cs[j].is_selected
            && cs[j].sharing_kind == StorageSharingKind::Independent,
    decreases cs.len() - i,
{
    if i < cs.len() {
        lemma_candidates_clean(cs, i + 1);
    }
}

proof fn lemma_shared_clean(ss: Seq<DuplicateItem>, i: int)
    requires
        0 <= i,
        shared_violation_from(ss, i) is None,
    ensures
        forall|j: int| i <= j < ss.len() ==> !(#[trigger] ss[j]).is_retained && !ss[j].is_selected
            && ss[j].sharing_kind != StorageSharingKind::Independent,
    decreases ss.len() - i,
{
    if i < ss.len() {
        lemma_shared_clean(ss, i + 1);
    }
}

/// A group that keeps its invariants preselects nothing, is for review, counts as
/// reclaimable exactly its candidate copies, and none of its candidates shares storage,
/// while every copy that shares storage is kept apart from the candidates.
pub proof fn law_invariants_make_group_safe(g: DuplicateGroup)
    requires
        g.spec_invariant_check() is Ok,
    ensures
        g.spec_no_preselection(),
        g.safety_class == SafetyClass::Review,
        g.retained.is_retained,
        g.reclaimable_bytes == g.candidates@.len() * g.size_bytes,
        forall|i: int|
            0 <= i < g.candidates@.len() ==> (#[trigger] g.candidates@[i]).sharing_kind == StorageSharingKind::Independent,
        forall|i: int|
            0 <= i < g.shared_storage_items@.len() ==> (#[trigger] g.shared_storage_items@[i]).sharing_kind
                != StorageSharingKind::Independent,
{
    lemma_candidates_clean(g.candidates@, 0);
    lemma_shared_clean(g.shared_storage_items@, 0);
}

} // verus!
