//! Execution of an approved plan: refusal of a plan that holds a protected item, the
//! outcome of each item, and the tally of outcomes.

use vstd::prelude::*;
use crate::boundary::error::CommandError;
use crate::boundary::plan::{PlanItemDetail, Staleness};
use crate::platform::{EntryMetadata, EntryType, PlatformError, TrashedItem};
use crate::text::{concat2, concat3, decimal, eq_ignore_ascii_case, owned, str_eq_ignore_ascii_case, u64_to_decimal};

verus! {

/// What execution does with each item.
#[derive(Debug, Clone, Copy, PartialEq, Eq, Structural)]
pub enum ActionMode {
    Trash,
    PermanentDelete,
}

#[derive(Debug, Clone, PartialEq, Eq)]
pub struct ExecutePlanArgs {
    pub plan_id: String,
    pub action_mode: ActionMode,
}

/// What happened to one plan item.
#[derive(Debug, Clone, Copy, PartialEq, Eq, Structural)]
pub enum ItemOutcomeStatus {
    Succeeded,
    Failed,
    SkippedProtected,
    BlockedChanged,
    Vanished,
    PermissionDenied,
    Unattempted,
}

#[derive(Debug, Clone, PartialEq, Eq)]
pub struct ItemOutcomeRecord {
    pub item_id: String,
    pub original_path: String,
    pub status: ItemOutcomeStatus,
    pub bytes_reclaimed: u64,
    pub bytes_pending_trash: u64,
    pub error_message: Option<String>,
    pub trashed_path: Option<String>,
}

#[derive(Debug, Clone, PartialEq, Eq)]
pub struct ExecutionSummary {
    pub plan_id: String,
    pub action_mode: ActionMode,
    pub succeeded_items: u64,
    pub failed_items: u64,
    pub bytes_freed: u64,
    pub bytes_pending_trash: u64,
    pub skipped_protected: u64,
    pub blocked_changed: u64,
    pub vanished_items: u64,
    pub permission_denied_items: u64,
    pub item_outcomes: Vec<ItemOutcomeRecord>,
    pub operation_id: Option<String>,
}

// ---------------------------------------------------------------------------
// The plan-level gate
// ---------------------------------------------------------------------------

pub open spec fn protected_class() -> Seq<char> {
    "Protected"@
}

/// The first plan item that is protected: of protected class, or covered by a protected
/// root now (`protected_now[i]`, evaluated by the caller).
pub open spec fn first_protected(items: Seq<PlanItemDetail>, protected_now: Seq<bool>, i: int) -> Option<int>
    decreases items.len() - i,
{
    if i < 0 || i >= items.len() || i >= protected_now.len() {
        None
    } else if protected_now[i] || eq_ignore_ascii_case(items[i].class_name@, protected_class()) {
        Some(i)
    } else {
        first_protected(items, protected_now, i + 1)
    }
}

pub open spec fn gate_reason(path: Seq<char>) -> Seq<char> {
    "Plan contains protected root '"@ + path + "'; execution aborted before any modification"@
}

/// Refuses the whole plan, before anything is modified, when any item is protected.
pub fn plan_protection_gate(items: &Vec<PlanItemDetail>, protected_now: &Vec<bool>) -> (r: Result<(), CommandError>)
    requires
        items@.len() == protected_now@.len(),
    ensures
        match first_protected(items@, protected_now@, 0) {
            None => r is Ok,
            Some(k) => r matches Err(CommandError::PermissionDenied { path: Some(p), reason }) && p
                == items@[k].original_path && reason@ == gate_reason(items@[k].original_path@),
        },
{
    let mut i: usize = 0;
    while i < items.len()
        invariant
            items@.len() == protected_now@.len(),
            i <= items@.len(),
            first_protected(items@, protected_now@, 0) == first_protected(items@, protected_now@, i as int),
        decreases items@.len() - i,
    {
        if protected_now[i] || str_eq_ignore_ascii_case(items[i].class_name.as_str(), "Protected") {
            let path = &items[i].original_path;
            let reason = concat3(
                "Plan contains protected root '",
                path.as_str(),
                "'; execution aborted before any modification",
            );
            return Err(CommandError::PermissionDenied { path: Some(path.clone()), reason });
        }
        i = i + 1;
    }
    Ok(())
}

// ---------------------------------------------------------------------------
// Item outcomes
// ---------------------------------------------------------------------------

/// An outcome that neither reclaimed nor moved anything.
pub open spec fn no_bytes(o: ItemOutcomeRecord, item: PlanItemDetail, status: ItemOutcomeStatus, message: Seq<char>) -> bool {
    &&& o.item_id == item.item_id
    &&& o.original_path == item.original_path
    &&& o.status == status
    &&& o.bytes_reclaimed == 0
    &&& o.bytes_pending_trash == 0
    &&& o.error_message matches Some(m) && m@ == message
    &&& o.trashed_path is None
}

pub open spec fn identity_message(item: PlanItemDetail, found_device: u64, found_inode: u64) -> Seq<char> {
    "Identity changed: expected device "@ + decimal(item.device_id as nat) + " inode "@ + decimal(
        item.inode as nat,
    ) + ", got device "@ + decimal(found_device as nat) + " inode "@ + decimal(found_inode as nat)
}

/// The outcome recorded for an item that failed the checks before execution.
pub open spec fn stale_outcome(o: ItemOutcomeRecord, item: PlanItemDetail, s: Staleness) -> bool {
    match s {
        Staleness::Unreadable(PlatformError::NotFound(_)) => no_bytes(
            o,
            item,
            ItemOutcomeStatus::Vanished,
            "Path vanished before execution"@,
        ),
        Staleness::Unreadable(PlatformError::PermissionDenied { reason, .. }) => no_bytes(
            o,
            item,
            ItemOutcomeStatus::PermissionDenied,
            reason@,
        ),
        Staleness::Unreadable(e) => no_bytes(o, item, ItemOutcomeStatus::Failed, e.spec_message()),
        Staleness::IdentityChanged(found) => no_bytes(
            o,
            item,
            ItemOutcomeStatus::BlockedChanged,
            identity_message(item, found.device_id, found.inode),
        ),
        Staleness::Unresolvable(e) => no_bytes(o, item, ItemOutcomeStatus::Failed, e.spec_message()),
        Staleness::CanonicalShifted(found) => no_bytes(
            o,
            item,
            ItemOutcomeStatus::BlockedChanged,
            "Canonical path shifted from '"@ + item.canonical_path@ + "' to '"@ + found@ + "'"@,
        ),
        Staleness::BecameSymlink => no_bytes(
            o,
            item,
            ItemOutcomeStatus::BlockedChanged,
            "Target was replaced by a symlink after review"@,
        ),
        Staleness::Protected => no_bytes(
            o,
            item,
            ItemOutcomeStatus::SkippedProtected,
            "Target matched a protected root descriptor"@,
        ),
    }
}

fn failed_record(item: &PlanItemDetail, status: ItemOutcomeStatus, message: String) -> (o: ItemOutcomeRecord)
    ensures
        no_bytes(o, *item, status, message@),
{
    ItemOutcomeRecord {
        item_id: item.item_id.clone(),
        original_path: item.original_path.clone(),
        status,
        bytes_reclaimed: 0,
        bytes_pending_trash: 0,
        error_message: Some(message),
        trashed_path: None,
    }
}

/// The outcome of an item that failed the checks made just before execution.
pub fn stale_item_outcome(item: &PlanItemDetail, staleness: &Staleness) -> (o: ItemOutcomeRecord)
    ensures
        stale_outcome(o, *item, *staleness),
{
    match staleness {
        Staleness::Unreadable(PlatformError::NotFound(_)) => failed_record(
            item,
            ItemOutcomeStatus::Vanished,
            owned("Path vanished before execution"),
        ),
        Staleness::Unreadable(PlatformError::PermissionDenied { reason, .. }) => failed_record(
            item,
            ItemOutcomeStatus::PermissionDenied,
            reason.clone(),
        ),
        Staleness::Unreadable(e) => failed_record(item, ItemOutcomeStatus::Failed, e.message()),
        Staleness::IdentityChanged(found) => {
            let a = concat3("Identity changed: expected device ", u64_to_decimal(item.device_id).as_str(), " inode ");
            let b = concat3(a.as_str(), u64_to_decimal(item.inode).as_str(), ", got device ");
            let c = concat3(b.as_str(), u64_to_decimal(found.device_id).as_str(), " inode ");
            let m = concat2(c.as_str(), u64_to_decimal(found.inode).as_str());
            failed_record(item, ItemOutcomeStatus::BlockedChanged, m)
        },
        Staleness::Unresolvable(e) => failed_record(item, ItemOutcomeStatus::Failed, e.message()),
        Staleness::CanonicalShifted(found) => {
            let a = concat3("Canonical path shifted from '", item.canonical_path.as_str(), "' to '");
            let m = concat3(a.as_str(), found.as_str(), "'");
            failed_record(item, ItemOutcomeStatus::BlockedChanged, m)
        },
        Staleness::BecameSymlink => failed_record(
            item,
            ItemOutcomeStatus::BlockedChanged,
            owned("Target was replaced by a symlink after review"),
        ),
        Staleness::Protected => failed_record(
            item,
            ItemOutcomeStatus::SkippedProtected,
            owned("Target matched a protected root descriptor"),
        ),
    }
}

/// The outcome of an item that was not attempted because the operation was cancelled.
pub fn unattempted_outcome(item: &PlanItemDetail) -> (o: ItemOutcomeRecord)
    ensures
        no_bytes(o, *item, ItemOutcomeStatus::Unattempted, "Operation cancelled before item execution"@),
{
    failed_record(item, ItemOutcomeStatus::Unattempted, owned("Operation cancelled before item execution"))
}

/// The outcome of moving an item to the Trash: on success the item's bytes are pending in
/// the Trash and nothing is reclaimed; a refusal for permission is told apart from other
/// failures.
pub fn trash_outcome(item: &PlanItemDetail, result: &Result<TrashedItem, PlatformError>) -> (o: ItemOutcomeRecord)
    ensures
        match *result {
            Ok(t) => {
                &&& o.item_id == item.item_id
                &&& o.original_path == item.original_path
                &&& o.status == ItemOutcomeStatus::Succeeded
                &&& o.bytes_reclaimed == 0
                &&& o.bytes_pending_trash == item.size_bytes
                &&& o.error_message is None
                &&& o.trashed_path == Some(t.trashed_path)
            },
            Err(PlatformError::PermissionDenied { reason, .. }) => no_bytes(
                o,
                *item,
                ItemOutcomeStatus::PermissionDenied,
                reason@,
            ),
            Err(e) => no_bytes(o, *item, ItemOutcomeStatus::Failed, e.spec_message()),
        },
{
    match result {
        Ok(t) => ItemOutcomeRecord {
            item_id: item.item_id.clone(),
            original_path: item.original_path.clone(),
            status: ItemOutcomeStatus::Succeeded,
            bytes_reclaimed: 0,
            bytes_pending_trash: item.size_bytes,
            error_message: None,
            trashed_path: Some(t.trashed_path.clone()),
        },
        Err(PlatformError::PermissionDenied { reason, .. }) => failed_record(
            item,
            ItemOutcomeStatus::PermissionDenied,
            reason.clone(),
        ),
        Err(e) => failed_record(item, ItemOutcomeStatus::Failed, e.message()),
    }
}

/// Why a permanent deletion failed: whether the filesystem refused it for permission,
/// and its message.
#[derive(Debug, Clone, PartialEq, Eq)]
pub struct DeleteFailure {
    pub permission_denied: bool,
    pub message: String,
}

/// The outcome of permanently deleting an item: on success its bytes are reclaimed.
pub fn delete_outcome(item: &PlanItemDetail, result: &Result<(), DeleteFailure>) -> (o: ItemOutcomeRecord)
    ensures
        match *result {
            Ok(()) => {
                &&& o.item_id == item.item_id
                &&& o.original_path == item.original_path
                &&& o.status == ItemOutcomeStatus::Succeeded
                &&& o.bytes_reclaimed == item.size_bytes
                &&& o.bytes_pending_trash == 0
                &&& o.error_message is None
                &&& o.trashed_path is None
            },
            Err(f) => no_bytes(
                o,
                *item,
                if f.permission_denied {
                    ItemOutcomeStatus::PermissionDenied
                } else {
                    ItemOutcomeStatus::Failed
                },
                f.message@,
            ),
        },
{
    match result {
        Ok(()) => ItemOutcomeRecord {
            item_id: item.item_id.clone(),
            original_path: item.original_path.clone(),
            status: ItemOutcomeStatus::Succeeded,
            bytes_reclaimed: item.size_bytes,
            bytes_pending_trash: 0,
            error_message: None,
            trashed_path: None,
        },
        Err(f) => failed_record(
            item,
            if f.permission_denied {
                ItemOutcomeStatus::PermissionDenied
            } else {
                ItemOutcomeStatus::Failed
            },
            f.message.clone(),
        ),
    }
}

// ---------------------------------------------------------------------------
// The ledger
// ---------------------------------------------------------------------------

/// How many outcomes have one of the given statuses.
pub open spec fn count_with(outs: Seq<ItemOutcomeRecord>, a: ItemOutcomeStatus, b: ItemOutcomeStatus) -> nat
    decreases outs.len(),
{
    if outs.len() == 0 {
        0
    } else {
        count_with(outs.drop_last(), a, b) + if outs.last().status == a || outs.last().status == b {
            1nat
        } else {
            0nat
        }
    }
}

pub open spec fn count_of(outs: Seq<ItemOutcomeRecord>, a: ItemOutcomeStatus) -> nat {
    count_with(outs, a, a)
}

pub open spec fn reclaimed_sum(outs: Seq<ItemOutcomeRecord>) -> nat
    decreases outs.len(),
{
    if outs.len() == 0 {
        0
    } else {
        reclaimed_sum(outs.drop_last()) + (outs.last().bytes_reclaimed as nat)
    }
}

pub open spec fn pending_sum(outs: Seq<ItemOutcomeRecord>) -> nat
    decreases outs.len(),
{
    if outs.len() == 0 {
        0
    } else {
        pending_sum(outs.drop_last()) + (outs.last().bytes_pending_trash as nat)
    }
}

/// The tally of item outcomes, in the order items were handled.
pub struct ExecutionLedger {
    pub succeeded_items: u64,
    pub failed_items: u64,
    pub bytes_freed: u64,
    pub bytes_pending_trash: u64,
    pub skipped_protected: u64,
    pub blocked_changed: u64,
    pub vanished_items: u64,
    pub permission_denied_items: u64,
    pub item_outcomes: Vec<ItemOutcomeRecord>,
}

impl ExecutionLedger {
    /// Every count and total is exactly what the recorded outcomes say.
    pub open spec fn wf(&self) -> bool {
        let outs = self.item_outcomes@;
        &&& self.succeeded_items == count_of(outs, ItemOutcomeStatus::Succeeded)
        &&& self.failed_items == count_with(outs, ItemOutcomeStatus::Failed, ItemOutcomeStatus::PermissionDenied)
        &&& self.permission_denied_items == count_of(outs, ItemOutcomeStatus::PermissionDenied)
        &&& self.skipped_protected == count_of(outs, ItemOutcomeStatus::SkippedProtected)
        &&& self.blocked_changed == count_of(outs, ItemOutcomeStatus::BlockedChanged)
        &&& self.vanished_items == count_of(outs, ItemOutcomeStatus::Vanished)
        &&& self.bytes_freed == reclaimed_sum(outs)
        &&& self.bytes_pending_trash == pending_sum(outs)
    }

    pub fn new() -> (l: Self)
        ensures
            l.wf(),
            l.item_outcomes@.len() == 0,
    {
        ExecutionLedger {
            succeeded_items: 0,
            failed_items: 0,
            bytes_freed: 0,
            bytes_pending_trash: 0,
            skipped_protected: 0,
            blocked_changed: 0,
            vanished_items: 0,
            permission_denied_items: 0,
            item_outcomes: Vec::new(),
        }
    }

    /// Records one item's outcome.
    pub fn record(&mut self, outcome: ItemOutcomeRecord)
        requires
            old(self).wf(),
            old(self).item_outcomes@.len() < u64::MAX,
            old(self).bytes_freed + outcome.bytes_reclaimed <= u64::MAX,
            old(self).bytes_pending_trash + outcome.bytes_pending_trash <= u64::MAX,
        ensures
            final(self).wf(),
            final(self).item_outcomes@ == old(self).item_outcomes@.push(outcome),
    {
        let ghost before = self.item_outcomes@;
        proof {
            lemma_count_bounded(before, ItemOutcomeStatus::Succeeded, ItemOutcomeStatus::Succeeded);
            lemma_count_bounded(before, ItemOutcomeStatus::Failed, ItemOutcomeStatus::PermissionDenied);
            lemma_count_bounded(before, ItemOutcomeStatus::PermissionDenied, ItemOutcomeStatus::PermissionDenied);
            lemma_count_bounded(before, ItemOutcomeStatus::SkippedProtected, ItemOutcomeStatus::SkippedProtected);
            lemma_count_bounded(before, ItemOutcomeStatus::BlockedChanged, ItemOutcomeStatus::BlockedChanged);
            lemma_count_bounded(before, ItemOutcomeStatus::Vanished, ItemOutcomeStatus::Vanished);
        }
        match outcome.status {
            ItemOutcomeStatus::Succeeded => {
                self.succeeded_items = self.succeeded_items + 1;
            },
            ItemOutcomeStatus::Failed => {
                self.failed_items = self.failed_items + 1;
            },
            ItemOutcomeStatus::PermissionDenied => {
                self.failed_items = self.failed_items + 1;
                self.permission_denied_items = self.permission_denied_items + 1;
            },
            ItemOutcomeStatus::SkippedProtected => {
                self.skipped_protected = self.skipped_protected + 1;
            },
            ItemOutcomeStatus::BlockedChanged => {
                self.blocked_changed = self.blocked_changed + 1;
            },
            ItemOutcomeStatus::Vanished => {
                self.vanished_items = self.vanished_items + 1;
            },
            ItemOutcomeStatus::Unattempted => {},
        }
        self.bytes_freed = self.bytes_freed + outcome.bytes_reclaimed;
        self.bytes_pending_trash = self.bytes_pending_trash + outcome.bytes_pending_trash;
        self.item_outcomes.push(outcome);
        assert(self.item_outcomes@.drop_last() =~= before);
    }

    /// The execution summary. Under Trash nothing is reported as freed; under permanent
    /// deletion nothing is reported as pending in the Trash.
    pub fn summary(self, plan_id: String, mode: ActionMode, operation_id: Option<String>) -> (s: ExecutionSummary)
        requires
            self.wf(),
        ensures
            s.plan_id == plan_id,
            s.action_mode == mode,
            s.succeeded_items == self.succeeded_items,
            s.failed_items == self.failed_items,
            s.bytes_freed == (if mode == ActionMode::Trash { 0 } else { self.bytes_freed }),
            s.bytes_pending_trash == (if mode == ActionMode::Trash { self.bytes_pending_trash } else { 0 }),
            s.skipped_protected == self.skipped_protected,
            s.blocked_changed == self.blocked_changed,
            s.vanished_items == self.vanished_items,
            s.permission_denied_items == self.permission_denied_items,
            s.item_outcomes@ == self.item_outcomes@,
            s.operation_id == operation_id,
    {
        ExecutionSummary {
            plan_id,
            action_mode: mode,
            succeeded_items: self.succeeded_items,
            failed_items: self.failed_items,
            bytes_freed: match mode {
                ActionMode::Trash => 0,
                ActionMode::PermanentDelete => self.bytes_freed,
            },
            bytes_pending_trash: match mode {
                ActionMode::Trash => self.bytes_pending_trash,
                ActionMode::PermanentDelete => 0,
            },
            skipped_protected: self.skipped_protected,
            blocked_changed: self.blocked_changed,
            vanished_items: self.vanished_items,
            permission_denied_items: self.permission_denied_items,
            item_outcomes: self.item_outcomes,
            operation_id,
        }
    }
}

proof fn lemma_count_bounded(outs: Seq<ItemOutcomeRecord>, a: ItemOutcomeStatus, b: ItemOutcomeStatus)
    ensures
        count_with(outs, a, b) <= outs.len(),
    decreases outs.len(),
{
    if outs.len() > 0 {
        lemma_count_bounded(outs.drop_last(), a, b);
    }
}

// ---------------------------------------------------------------------------
// The run over a plan's items
// ---------------------------------------------------------------------------

/// The outcomes recorded so far belong to the plan's items, one each, in plan order.
pub open spec fn outcomes_follow(items: Seq<PlanItemDetail>, outs: Seq<ItemOutcomeRecord>) -> bool {
    &&& outs.len() <= items.len()
    &&& forall|k: int|
        0 <= k < outs.len() ==> (#[trigger] outs[k]).item_id == items[k].item_id && outs[k].original_path
            == items[k].original_path
}

/// The execution of a plan's items, one after the other: each item gets exactly one
/// outcome, in plan order; a cancellation records every item not yet handled as
/// unattempted.
pub struct ExecutionRun {
    pub items: Vec<PlanItemDetail>,
    pub ledger: ExecutionLedger,
}

impl ExecutionRun {
    /// The ledger is consistent and its outcomes follow the items.
    pub open spec fn wf(&self) -> bool {
        &&& self.ledger.wf()
        &&& self.items@.len() < u64::MAX
        &&& outcomes_follow(self.items@, self.ledger.item_outcomes@)
    }

    /// The number of items handled so far.
    pub open spec fn handled(&self) -> int {
        self.ledger.item_outcomes@.len() as int
    }

    /// A run over `items` that has handled none of them.
    pub fn new(items: Vec<PlanItemDetail>) -> (r: Self)
        requires
            items@.len() < u64::MAX,
        ensures
            r.wf(),
            r.items@ == items@,
            r.handled() == 0,
    {
        ExecutionRun { items, ledger: ExecutionLedger::new() }
    }

    /// The position of the next item to handle, if any is left.
    pub fn next(&self) -> (n: Option<usize>)
        requires
            self.wf(),
        ensures
            match n {
                Some(k) => k == self.handled() && k < self.items@.len(),
                None => self.handled() == self.items@.len(),
            },
    {
        let k = self.ledger.item_outcomes.len();
        if k < self.items.len() {
            Some(k)
        } else {
            None
        }
    }

    /// Records the outcome of the next item.
    pub fn record(&mut self, outcome: ItemOutcomeRecord)
        requires
            old(self).wf(),
            old(self).handled() < old(self).items@.len(),
            outcome.item_id == old(self).items@[old(self).handled()].item_id,
            outcome.original_path == old(self).items@[old(self).handled()].original_path,
            old(self).ledger.bytes_freed + outcome.bytes_reclaimed <= u64::MAX,
            old(self).ledger.bytes_pending_trash + outcome.bytes_pending_trash <= u64::MAX,
        ensures
            final(self).wf(),
            final(self).items == old(self).items,
            final(self).ledger.item_outcomes@ == old(self).ledger.item_outcomes@.push(outcome),
    {
        self.ledger.record(outcome);
        assert forall|k: int| 0 <= k < self.ledger.item_outcomes@.len() implies (#[trigger] self.ledger.item_outcomes@[k]).item_id
            == self.items@[k].item_id && self.ledger.item_outcomes@[k].original_path == self.items@[k].original_path by {
            if k < self.ledger.item_outcomes@.len() - 1 {
                assert(self.ledger.item_outcomes@[k] == old(self).ledger.item_outcomes@[k]);
            }
        }
    }

    /// The operation was cancelled: every item not yet handled is recorded as
    /// unattempted, in plan order, and nothing more is counted or reclaimed.
    pub fn cancel_rest(&mut self)
        requires
            old(self).wf(),
        ensures
            final(self).wf(),
            final(self).items == old(self).items,
            final(self).handled() == final(self).items@.len(),
            final(self).ledger.item_outcomes@.subrange(0, old(self).handled()) == old(self).ledger.item_outcomes@,
            forall|k: int|
                old(self).handled() <= k < final(self).items@.len() ==> no_bytes(
                    #[trigger] final(self).ledger.item_outcomes@[k],
                    final(self).items@[k],
                    ItemOutcomeStatus::Unattempted,
                    "Operation cancelled before item execution"@,
                ),
            final(self).ledger.succeeded_items == old(self).ledger.succeeded_items,
            final(self).ledger.failed_items == old(self).ledger.failed_items,
            final(self).ledger.bytes_freed == old(self).ledger.bytes_freed,
            final(self).ledger.bytes_pending_trash == old(self).ledger.bytes_pending_trash,
    {
        let ghost start = self.ledger.item_outcomes@;
        let ghost start_ledger = self.ledger;
        while self.ledger.item_outcomes.len() < self.items.len()
            invariant
                self.wf(),
                self.items == old(self).items,
                start == old(self).ledger.item_outcomes@,
                start_ledger == old(self).ledger,
                self.ledger.item_outcomes@.len() >= start.len(),
                self.ledger.item_outcomes@.subrange(0, start.len() as int) == start,
                forall|k: int|
                    start.len() <= k < self.ledger.item_outcomes@.len() ==> no_bytes(
                        #[trigger] self.ledger.item_outcomes@[k],
                        self.items@[k],
                        ItemOutcomeStatus::Unattempted,
                        "Operation cancelled before item execution"@,
                    ),
                self.ledger.succeeded_items == start_ledger.succeeded_items,
                self.ledger.failed_items == start_ledger.failed_items,
                self.ledger.bytes_freed == start_ledger.bytes_freed,
                self.ledger.bytes_pending_trash == start_ledger.bytes_pending_trash,
            decreases self.items@.len() - self.ledger.item_outcomes@.len(),
        {
            let k = self.ledger.item_outcomes.len();
            let o = unattempted_outcome(&self.items[k]);
            let ghost before = self.ledger;
            self.record(o);
            proof {
                assert(self.ledger.item_outcomes@.drop_last() == before.item_outcomes@);
                assert(self.ledger.item_outcomes@.subrange(0, start.len() as int) =~= before.item_outcomes@.subrange(
                    0,
                    start.len() as int,
                ));
                assert forall|j: int|
                    start.len() <= j < self.ledger.item_outcomes@.len() implies no_bytes(
                        #[trigger] self.ledger.item_outcomes@[j],
                        self.items@[j],
                        ItemOutcomeStatus::Unattempted,
                        "Operation cancelled before item execution"@,
                    ) by {
                    if j < before.item_outcomes@.len() {
                        assert(self.ledger.item_outcomes@[j] == before.item_outcomes@[j]);
                    }
                }
            }
        }
    }

    /// The summary of a run that handled every item: one outcome per item, in plan order.
    pub fn finish(self, plan_id: String, mode: ActionMode, operation_id: Option<String>) -> (s: ExecutionSummary)
        requires
            self.wf(),
            self.handled() == self.items@.len(),
        ensures
            s.item_outcomes@ == self.ledger.item_outcomes@,
            s.item_outcomes@.len() == self.items@.len(),
            forall|k: int|
                0 <= k < self.items@.len() ==> (#[trigger] s.item_outcomes@[k]).item_id == self.items@[k].item_id,
            s.plan_id == plan_id,
            s.action_mode == mode,
            s.operation_id == operation_id,
            s.succeeded_items == count_of(s.item_outcomes@, ItemOutcomeStatus::Succeeded),
            s.failed_items == count_with(s.item_outcomes@, ItemOutcomeStatus::Failed, ItemOutcomeStatus::PermissionDenied),
            s.permission_denied_items == count_of(s.item_outcomes@, ItemOutcomeStatus::PermissionDenied),
            s.skipped_protected == count_of(s.item_outcomes@, ItemOutcomeStatus::SkippedProtected),
            s.blocked_changed == count_of(s.item_outcomes@, ItemOutcomeStatus::BlockedChanged),
            s.vanished_items == count_of(s.item_outcomes@, ItemOutcomeStatus::Vanished),
            s.bytes_freed == (if mode == ActionMode::Trash { 0 } else { reclaimed_sum(s.item_outcomes@) }),
            s.bytes_pending_trash == (if mode == ActionMode::Trash { pending_sum(s.item_outcomes@) } else { 0 }),
    {
        assert(forall|k: int| 0 <= k < self.items@.len() ==> (#[trigger] self.ledger.item_outcomes@[k]).item_id == self.items@[k].item_id);
        self.ledger.summary(plan_id, mode, operation_id)
    }
}

/// A plan cancelled before any item was handled does nothing: every item is recorded as
/// unattempted, in plan order, and nothing succeeds, fails or is reclaimed.
pub proof fn law_cancelled_plan_touches_nothing(before: ExecutionRun, after: ExecutionRun)
    requires
        before.wf(),
        before.handled() == 0,
        before.ledger.succeeded_items == 0,
        before.ledger.failed_items == 0,
        before.ledger.bytes_freed == 0,
        before.ledger.bytes_pending_trash == 0,
        after.items == before.items,
        after.handled() == after.items@.len(),
        forall|k: int|
            0 <= k < after.items@.len() ==> no_bytes(
                #[trigger] after.ledger.item_outcomes@[k],
                after.items@[k],
                ItemOutcomeStatus::Unattempted,
                "Operation cancelled before item execution"@,
            ),
        after.ledger.succeeded_items == before.ledger.succeeded_items,
        after.ledger.failed_items == before.ledger.failed_items,
        after.ledger.bytes_freed == before.ledger.bytes_freed,
        after.ledger.bytes_pending_trash == before.ledger.bytes_pending_trash,
    ensures
        after.ledger.item_outcomes@.len() == before.items@.len(),
        forall|k: int|
            0 <= k < after.items@.len() ==> (#[trigger] after.ledger.item_outcomes@[k]).status
                == ItemOutcomeStatus::Unattempted && after.ledger.item_outcomes@[k].bytes_reclaimed == 0
                && after.ledger.item_outcomes@[k].bytes_pending_trash == 0,
        after.ledger.succeeded_items == 0,
        after.ledger.failed_items == 0,
        after.ledger.bytes_freed == 0,
        after.ledger.bytes_pending_trash == 0,
{
}

// ---------------------------------------------------------------------------
// Permanent deletion of a directory tree
// ---------------------------------------------------------------------------

/// What permanent deletion does with one entry found inside a directory being emptied.
#[derive(Debug, Clone, Copy, PartialEq, Eq, Structural)]
pub enum DeletionAction {
    /// Remove the link itself; it is never followed.
    RemoveLink,
    /// Remove the file.
    RemoveFile,
    /// Empty the directory one level deeper, then remove it.
    Descend,
    /// Stop: the entry lies on another device than the item being deleted.
    RefuseMountBoundary,
    /// Stop: descending would go deeper than the depth limit.
    RefuseDepth,
}

/// The action for `entry`, found in a directory `depth` levels below the item being
/// deleted, whose device is `root_device`: another device is refused, a link is removed
/// without being followed, a directory is emptied unless that would pass `max_depth`, and
/// anything else is removed as a file.
pub open spec fn deletion_action(entry: EntryMetadata, root_device: u64, depth: usize, max_depth: usize) -> DeletionAction {
    if entry.identity.device_id != root_device {
        DeletionAction::RefuseMountBoundary
    } else if entry.entry_type == EntryType::Symlink {
        DeletionAction::RemoveLink
    } else if entry.entry_type == EntryType::Directory {
        if depth >= max_depth {
            DeletionAction::RefuseDepth
        } else {
            DeletionAction::Descend
        }
    } else {
        DeletionAction::RemoveFile
    }
}

/// Decides what permanent deletion does with one entry of a directory being emptied.
pub fn deletion_step(entry: &EntryMetadata, root_device: u64, depth: usize, max_depth: usize) -> (a: DeletionAction)
    ensures
        a == deletion_action(*entry, root_device, depth, max_depth),
{
    if entry.identity.device_id != root_device {
        DeletionAction::RefuseMountBoundary
    } else {
        match entry.entry_type {
            EntryType::Symlink => DeletionAction::RemoveLink,
            EntryType::Directory => if depth >= max_depth {
                DeletionAction::RefuseDepth
            } else {
                DeletionAction::Descend
            },
            _ => DeletionAction::RemoveFile,
        }
    }
}

/// Permanent deletion never follows a link and never leaves the device of the item: it
/// only descends into a real directory on that device, within the depth limit.
pub proof fn law_deletion_stays_on_device(entry: EntryMetadata, root_device: u64, depth: usize, max_depth: usize)
    ensures
        deletion_action(entry, root_device, depth, max_depth) == DeletionAction::Descend ==> {
            &&& entry.entry_type == EntryType::Directory
            &&& entry.identity.device_id == root_device
            &&& depth < max_depth
        },
        entry.entry_type == EntryType::Symlink && entry.identity.device_id == root_device ==> deletion_action(
            entry,
            root_device,
            depth,
            max_depth,
        ) == DeletionAction::RemoveLink,
{
}

/// Every outcome is counted once: the counts of the statuses add up to the number of
/// items handled, so a partial failure is never reported as overall success.
pub proof fn law_every_outcome_counted_once(outs: Seq<ItemOutcomeRecord>)
    ensures
        count_of(outs, ItemOutcomeStatus::Succeeded) + count_with(
            outs,
            ItemOutcomeStatus::Failed,
            ItemOutcomeStatus::PermissionDenied,
        ) + count_of(outs, ItemOutcomeStatus::SkippedProtected) + count_of(
            outs,
            ItemOutcomeStatus::BlockedChanged,
        ) + count_of(outs, ItemOutcomeStatus::Vanished) + count_of(outs, ItemOutcomeStatus::Unattempted)
            == outs.len(),
    decreases outs.len(),
{
    if outs.len() > 0 {
        law_every_outcome_counted_once(outs.drop_last());
    }
}

/// Moving items to the Trash never claims reclaimed space: every Trash outcome reclaims
/// nothing, so a ledger of them reports nothing freed.
pub proof fn law_trash_never_claims_freed_space(outs: Seq<ItemOutcomeRecord>)
    requires
        forall|i: int| 0 <= i < outs.len() ==> (#[trigger] outs[i]).bytes_reclaimed == 0,
    ensures
        reclaimed_sum(outs) == 0,
    decreases outs.len(),
{
    if outs.len() > 0 {
        assert forall|i: int| 0 <= i < outs.drop_last().len() implies (#[trigger] outs.drop_last()[i]).bytes_reclaimed == 0 by {
            assert(outs.drop_last()[i] == outs[i]);
        }
        law_trash_never_claims_freed_space(outs.drop_last());
    }
}

} // verus!
