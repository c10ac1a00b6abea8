//! Safety classes and the plannable subset that excludes `Protected`.

use vstd::prelude::*;

verus! {

/// Primary safety classification for scanned filesystem findings.
#[derive(Debug, Clone, Copy, PartialEq, Eq, Hash, Structural)]
pub enum SafetyClass {
    /// Generated data with a verified owner and declarative rule.
    Rebuildable,
    /// User files, downloads, duplicates, leftovers and heuristic matches.
    /// Never selected by default.
    Review,
    /// System and user-critical assets that cannot enter a plan at all.
    Protected,
}

impl SafetyClass {
    pub open spec fn spec_is_default_selected(&self) -> bool {
        *self == SafetyClass::Rebuildable
    }

    pub fn as_str(&self) -> (s: &'static str)
        ensures
            s@ == match *self {
                SafetyClass::Rebuildable => "rebuildable"@,
                SafetyClass::Review => "review"@,
                SafetyClass::Protected => "protected"@,
            },
    {
        match self {
            SafetyClass::Rebuildable => "rebuildable",
            SafetyClass::Review => "review",
            SafetyClass::Protected => "protected",
        }
    }

    /// Only `Rebuildable` may be selected by default; `Review` and `Protected` never are.
    pub fn is_default_selected(&self) -> (b: bool)
        ensures
            b == self.spec_is_default_selected(),
    {
        match self {
            SafetyClass::Rebuildable => true,
            SafetyClass::Review => false,
            SafetyClass::Protected => false,
        }
    }

    /// Whether this finding is barred from any plan.
    pub fn is_protected(&self) -> (b: bool)
        ensures
            b == (*self == SafetyClass::Protected),
    {
        match self {
            SafetyClass::Protected => true,
            _ => false,
        }
    }

    /// The plannable class of this safety class; a typed rejection for `Protected`.
    pub fn to_plannable(&self) -> (r: Result<PlannableClass, ProtectedClassRejection>)
        ensures
            r == match *self {
                SafetyClass::Rebuildable => Ok(PlannableClass::Rebuildable),
                SafetyClass::Review => Ok(PlannableClass::Review),
                SafetyClass::Protected => Err(ProtectedClassRejection),
            },
            r matches Ok(p) ==> p.spec_safety_class() == *self,
    {
        match self {
            SafetyClass::Rebuildable => Ok(PlannableClass::Rebuildable),
            SafetyClass::Review => Ok(PlannableClass::Review),
            SafetyClass::Protected => Err(ProtectedClassRejection),
        }
    }
}

/// A safety class that may be included in a review plan. `Protected` has no variant here.
#[derive(Debug, Clone, Copy, PartialEq, Eq, Hash, Structural)]
pub enum PlannableClass {
    Rebuildable,
    Review,
}

impl PlannableClass {
    pub open spec fn spec_safety_class(&self) -> SafetyClass {
        match *self {
            PlannableClass::Rebuildable => SafetyClass::Rebuildable,
            PlannableClass::Review => SafetyClass::Review,
        }
    }

    pub fn safety_class(&self) -> (c: SafetyClass)
        ensures
            c == self.spec_safety_class(),
            c != SafetyClass::Protected,
    {
        match self {
            PlannableClass::Rebuildable => SafetyClass::Rebuildable,
            PlannableClass::Review => SafetyClass::Review,
        }
    }

    pub fn as_str(&self) -> (s: &'static str)
        ensures
            s@ == match *self {
                PlannableClass::Rebuildable => "rebuildable"@,
                PlannableClass::Review => "review"@,
            },
    {
        match self {
            PlannableClass::Rebuildable => "rebuildable",
            PlannableClass::Review => "review",
        }
    }
}

/// The rejection returned when a `Protected` class is asked for a plannable class.
#[derive(Debug, Clone, Copy, PartialEq, Eq, Structural)]
pub struct ProtectedClassRejection;

impl ProtectedClassRejection {
    /// The explanation shown for the rejection.
    pub fn message(&self) -> (s: &'static str)
        ensures
            s@ == "Protected items are structurally barred from entering a deletion plan"@,
    {
        "Protected items are structurally barred from entering a deletion plan"
    }
}

/// Zero-sized marker for the Rebuildable class.
#[derive(Debug, Clone, Copy, PartialEq, Eq, Default)]
pub struct RebuildableMarker;

/// Zero-sized marker for the Review class.
#[derive(Debug, Clone, Copy, PartialEq, Eq, Default)]
pub struct ReviewMarker;

/// Zero-sized marker for the Protected class. It has no `PlannableSafetyMarker` impl, so
/// a statically classified protected finding cannot be admitted to a plan.
#[derive(Debug, Clone, Copy, PartialEq, Eq, Default)]
pub struct ProtectedMarker;

/// Implemented only by the markers of classes that can be represented in a plan.
pub trait PlannableSafetyMarker: Sized {
    spec fn spec_plannable_class() -> PlannableClass;

    fn plannable_class() -> (c: PlannableClass)
        ensures
            c == Self::spec_plannable_class(),
    ;

    fn safety_class() -> (c: SafetyClass)
        ensures
            c == Self::spec_plannable_class().spec_safety_class(),
    ;
}

impl PlannableSafetyMarker for RebuildableMarker {
    open spec fn spec_plannable_class() -> PlannableClass {
        PlannableClass::Rebuildable
    }

    fn plannable_class() -> (c: PlannableClass) {
        PlannableClass::Rebuildable
    }

    fn safety_class() -> (c: SafetyClass) {
        SafetyClass::Rebuildable
    }
}

impl PlannableSafetyMarker for ReviewMarker {
    open spec fn spec_plannable_class() -> PlannableClass {
        PlannableClass::Review
    }

    fn plannable_class() -> (c: PlannableClass) {
        PlannableClass::Review
    }

    fn safety_class() -> (c: SafetyClass) {
        SafetyClass::Review
    }
}

/// The identifiers of the items whose class is selected by default, in order.
pub open spec fn default_selected<T>(items: Seq<(T, SafetyClass)>) -> Seq<T>
    decreases items.len(),
{
    if items.len() == 0 {
        Seq::empty()
    } else {
        let prev = default_selected(items.drop_last());
        if items.last().1.spec_is_default_selected() {
            prev.push(items.last().0)
        } else {
            prev
        }
    }
}

/// Returns clones of the identifiers whose safety class is selected by default, in order:
/// `Review` and `Protected` items never are.
pub fn filter_default_selected<T: Clone>(items: &[(T, SafetyClass)]) -> (out: Vec<T>)
    ensures
        out@.len() == default_selected(items@).len(),
        forall|j: int|
            0 <= j < out@.len() ==> cloned::<T>(#[trigger] default_selected(items@)[j], out@[j]),
{
    let mut out: Vec<T> = Vec::new();
    let mut i: usize = 0;
    while i < items.len()
        invariant
            i <= items@.len(),
            out@.len() == default_selected(items@.subrange(0, i as int)).len(),
            forall|j: int|
                0 <= j < out@.len() ==> cloned::<T>(
                    #[trigger] default_selected(items@.subrange(0, i as int))[j],
                    out@[j],
                ),
        decreases items@.len() - i,
    {
        let ghost before = items@.subrange(0, i as int);
        let ghost after = items@.subrange(0, i + 1);
        proof {
            assert(after.drop_last() =~= before);
            assert(after.last() == items@[i as int]);
        }
        let (id, class) = &items[i];
        if class.is_default_selected() {
            let c = id.clone();
            out.push(c);
            proof {
                assert(default_selected(after) == default_selected(before).push(items@[i as int].0));
                assert forall|j: int| 0 <= j < out@.len() implies cloned::<T>(
                    #[trigger] default_selected(after)[j],
                    out@[j],
                ) by {
                    if j < out@.len() - 1 {
                        assert(default_selected(after)[j] == default_selected(before)[j]);
                    }
                }
            }
        } else {
            proof {
                assert(default_selected(after) == default_selected(before));
            }
        }
        i = i + 1;
    }
    proof {
        assert(items@.subrange(0, items@.len() as int) =~= items@);
    }
    out
}

/// Nothing that is not `Rebuildable` is ever selected by default: every identifier that
/// default selection keeps came from a `Rebuildable` entry.
pub proof fn lemma_default_selection_only_rebuildable<T>(items: Seq<(T, SafetyClass)>, j: int)
    requires
        0 <= j < default_selected(items).len(),
    ensures
        exists|i: int|
            0 <= i < items.len() && items[i].1 == SafetyClass::Rebuildable && items[i].0
                == default_selected(items)[j],
    decreases items.len(),
{
    let prev = default_selected(items.drop_last());
    if items.last().1.spec_is_default_selected() && j == prev.len() {
        assert(items[items.len() - 1].1 == SafetyClass::Rebuildable);
    } else {
        lemma_default_selection_only_rebuildable(items.drop_last(), j);
        let i = choose|i: int|
            0 <= i < items.drop_last().len() && items.drop_last()[i].1 == SafetyClass::Rebuildable
                && items.drop_last()[i].0 == default_selected(items.drop_last())[j];
        assert(items[i] == items.drop_last()[i]);
    }
}

/// A list made only of `Review` and `Protected` items selects nothing by default.
pub proof fn lemma_no_default_selection_without_rebuildable<T>(items: Seq<(T, SafetyClass)>)
    requires
        forall|i: int| 0 <= i < items.len() ==> items[i].1 != SafetyClass::Rebuildable,
    ensures
        default_selected(items).len() == 0,
{
    if default_selected(items).len() > 0 {
        lemma_default_selection_only_rebuildable(items, 0);
    }
}

} // verus!
