//! Declarative rule matchers and their evaluation against an item's context.

use vstd::prelude::*;
use crate::classify::evidence::{Confidence, Recoverability, RecoverabilityView};
use crate::paths::{file_name, file_name_of, join, path_eq, path_join, path_starts_with, paths_equal, starts_with};
use crate::platform::{EntryType, FileIdentity};
use crate::text::{concat2, opt_view, owned, str_eq};

verus! {

/// Everything a rule may inspect about a filesystem item, held as plain values.
#[derive(Debug, Clone)]
pub struct MatchContext {
    pub original_path: String,
    pub canonical_path: String,
    pub normalized_path: String,
    pub entry_type: EntryType,
    pub identity: FileIdentity,
    pub apparent_size: u64,
    pub allocated_size: u64,
    pub modified_ms: Option<u64>,
    pub is_symlink: bool,
    pub symlink_target_canonical: Option<String>,
    pub home_dir: Option<String>,
    /// The home directory with its links resolved, where the caller could resolve it.
    pub home_dir_canonical: Option<String>,
    pub app_support_dir: Option<String>,
    pub caches_dir: Option<String>,
    pub crosses_mount_boundary: bool,
    pub inside_git_repo: bool,
    pub is_git_internal: bool,
}

/// The item's canonical or normalised path starts with `base`.
pub open spec fn ctx_inside(ctx: MatchContext, base: Seq<char>) -> bool {
    path_starts_with(ctx.canonical_path@, base) || path_starts_with(ctx.normalized_path@, base)
}

/// The item's canonical or normalised path equals `p`.
pub open spec fn ctx_is(ctx: MatchContext, p: Seq<char>) -> bool {
    path_eq(ctx.canonical_path@, p) || path_eq(ctx.normalized_path@, p)
}

pub fn ctx_inside_exec(ctx: &MatchContext, base: &str) -> (b: bool)
    ensures
        b == ctx_inside(*ctx, base@),
{
    starts_with(ctx.canonical_path.as_str(), base) || starts_with(ctx.normalized_path.as_str(), base)
}

pub fn ctx_is_exec(ctx: &MatchContext, p: &str) -> (b: bool)
    ensures
        b == ctx_is(*ctx, p@),
{
    paths_equal(ctx.canonical_path.as_str(), p) || paths_equal(ctx.normalized_path.as_str(), p)
}

/// Result of evaluating a rule matcher against a filesystem item.
#[derive(Debug, Clone, PartialEq, Eq)]
pub struct MatchResult {
    pub matched: bool,
    pub explanation: String,
    pub confidence: Confidence,
    pub regenerator: Option<String>,
    pub recoverability: Recoverability,
}

/// Mathematical model of a `MatchResult`.
pub struct MatchResultView {
    pub matched: bool,
    pub explanation: Seq<char>,
    pub confidence: Confidence,
    pub regenerator: Option<Seq<char>>,
    pub recoverability: RecoverabilityView,
}

impl View for MatchResult {
    type V = MatchResultView;

    open spec fn view(&self) -> MatchResultView {
        MatchResultView {
            matched: self.matched,
            explanation: self.explanation@,
            confidence: self.confidence,
            regenerator: opt_view(self.regenerator),
            recoverability: self.recoverability@,
        }
    }
}

pub open spec fn matched_view(
    explanation: Seq<char>,
    confidence: Confidence,
    regenerator: Option<Seq<char>>,
    recoverability: RecoverabilityView,
) -> MatchResultView {
    MatchResultView { matched: true, explanation, confidence, regenerator, recoverability }
}

pub open spec fn no_match_view() -> MatchResultView {
    MatchResultView {
        matched: false,
        explanation: Seq::empty(),
        confidence: Confidence::Definite,
        regenerator: None,
        recoverability: RecoverabilityView::Irrecoverable,
    }
}

impl MatchResult {
    pub fn matched(
        explanation: String,
        confidence: Confidence,
        regenerator: Option<String>,
        recoverability: Recoverability,
    ) -> (r: Self)
        ensures
            r@ == matched_view(explanation@, confidence, opt_view(regenerator), recoverability@),
    {
        MatchResult { matched: true, explanation, confidence, regenerator, recoverability }
    }

    pub fn no_match() -> (r: Self)
        ensures
            r@ == no_match_view(),
    {
        MatchResult {
            matched: false,
            explanation: String::new(),
            confidence: Confidence::Definite,
            regenerator: None,
            recoverability: Recoverability::Irrecoverable,
        }
    }
}

/// Declarative matcher for filesystem rules.
#[derive(Debug, PartialEq, Eq)]
pub enum RuleMatcher {
    /// Exact canonical path match.
    ExactPath(String),
    /// Canonical path starts with this prefix (including all subpaths).
    PrefixPath(String),
    /// Path relative to user home directory.
    HomeRelativePrefix(String),
    /// Path relative to user Caches directory.
    CachesRelativePrefix(String),
    /// Path relative to user Application Support directory.
    AppSupportRelativePrefix(String),
    /// Matches any file or directory inside a .git directory.
    GitInternal,
    /// Matches user working tree items inside a git repository (excluding .git).
    GitWorkingTreeUserFile,
    /// Matches entries where traversal crosses a filesystem mount boundary.
    MountBoundaryCrossed,
    /// Matches a symlink pointing into a protected location or outside allowed boundaries.
    SymlinkPointingToProtected,
    /// Matches durable local AI model storage directories.
    DurableModelStorage,
    /// Matches conventional project build output directories.
    BuildOutput,
    /// Composite matcher requiring all inner matchers to match.
    All(Vec<RuleMatcher>),
    /// Composite matcher requiring at least one inner matcher to match.
    Any(Vec<RuleMatcher>),
}

/// Directory names that conventionally hold project build output.
pub open spec fn is_build_output_name(n: Seq<char>) -> bool {
    n == "target"@ || n == "build"@ || n == "dist"@ || n == "out"@ || n == ".next"@
}

/// The item sits in one of the durable model stores under the home directory.
pub open spec fn in_durable_model_store(ctx: MatchContext) -> bool {
    match ctx.home_dir {
        Some(home) => ctx_inside(ctx, path_join(home@, ".ollama/models"@)) || ctx_inside(
            ctx,
            path_join(home@, "models"@),
        ) || ctx_inside(ctx, path_join(home@, ".cache/huggingface/hub"@)),
        None => false,
    }
}

/// The item sits inside `rel` below the optional base directory.
pub open spec fn inside_relative(ctx: MatchContext, base: Option<String>, rel: Seq<char>) -> bool {
    match base {
        Some(b) => ctx_inside(ctx, path_join(b@, rel)),
        None => false,
    }
}

impl RuleMatcher {
    /// What `evaluate` returns: the matcher's verdict, explanation and recoverability.
    pub open spec fn spec_evaluate(self, ctx: MatchContext) -> MatchResultView
        decreases self, 0int,
    {
        match self {
            RuleMatcher::ExactPath(expected) => if ctx_is(ctx, expected@) {
                matched_view(
                    "Exact canonical path matches "@ + expected@,
                    Confidence::Definite,
                    None,
                    RecoverabilityView::Irrecoverable,
                )
            } else {
                no_match_view()
            },
            RuleMatcher::PrefixPath(prefix) => if ctx_inside(ctx, prefix@) {
                matched_view(
                    "Canonical path sits inside "@ + prefix@,
                    Confidence::Definite,
                    None,
                    RecoverabilityView::Irrecoverable,
                )
            } else {
                no_match_view()
            },
            RuleMatcher::HomeRelativePrefix(rel) => if inside_relative(ctx, ctx.home_dir, rel@) {
                matched_view(
                    "Path sits inside user directory ~/"@ + rel@,
                    Confidence::Definite,
                    None,
                    RecoverabilityView::Irrecoverable,
                )
            } else {
                no_match_view()
            },
            RuleMatcher::CachesRelativePrefix(rel) => if inside_relative(
                ctx,
                ctx.caches_dir,
                rel@,
            ) {
                matched_view(
                    "Path sits inside cache directory "@ + rel@,
                    Confidence::Definite,
                    None,
                    RecoverabilityView::TrashRecoverable,
                )
            } else {
                no_match_view()
            },
            RuleMatcher::AppSupportRelativePrefix(rel) => if inside_relative(
                ctx,
                ctx.app_support_dir,
                rel@,
            ) {
                matched_view(
                    "Path sits inside Application Support directory "@ + rel@,
                    Confidence::Definite,
                    None,
                    RecoverabilityView::TrashRecoverable,
                )
            } else {
                no_match_view()
            },
            RuleMatcher::GitInternal => if ctx.is_git_internal {
                matched_view(
                    "Internal Git repository state (.git directory)"@,
                    Confidence::Definite,
                    None,
                    RecoverabilityView::Irrecoverable,
                )
            } else {
                no_match_view()
            },
            RuleMatcher::GitWorkingTreeUserFile => if ctx.inside_git_repo && !ctx.is_git_internal {
                matched_view(
                    "User working tree file inside source-controlled git repository"@,
                    Confidence::Definite,
                    None,
                    RecoverabilityView::SourceControlled { remote: None },
                )
            } else {
                no_match_view()
            },
            RuleMatcher::MountBoundaryCrossed => if ctx.crosses_mount_boundary {
                matched_view(
                    "Filesystem mount boundary crossed during traversal"@,
                    Confidence::Definite,
                    None,
                    RecoverabilityView::Irrecoverable,
                )
            } else {
                no_match_view()
            },
            RuleMatcher::SymlinkPointingToProtected => match ctx.symlink_target_canonical {
                Some(target) if ctx.is_symlink => matched_view(
                    "Symlink points to external or protected path: "@ + target@,
                    Confidence::Definite,
                    None,
                    RecoverabilityView::Irrecoverable,
                ),
                _ => no_match_view(),
            },
            RuleMatcher::BuildOutput => if ctx.entry_type == EntryType::Directory && (match file_name(
                ctx.canonical_path@,
            ) {
                Some(n) => is_build_output_name(n),
                None => false,
            }) {
                matched_view(
                    "Conventional project build output directory"@,
                    Confidence::Definite,
                    None,
                    RecoverabilityView::RebuildableByTool { command: "project build command"@ },
                )
            } else {
                no_match_view()
            },
            RuleMatcher::DurableModelStorage => if in_durable_model_store(ctx) {
                matched_view(
                    "Durable machine learning model weights or local checkpoint store"@,
                    Confidence::Definite,
                    None,
                    RecoverabilityView::Irrecoverable,
                )
            } else {
                no_match_view()
            },
            RuleMatcher::All(ms) => if all_match_from(ms@, 0, ctx) {
                matched_view(
                    "All rule conditions satisfied"@,
                    Confidence::Definite,
                    None,
                    RecoverabilityView::TrashRecoverable,
                )
            } else {
                no_match_view()
            },
            RuleMatcher::Any(ms) => first_match_from(ms@, 0, ctx),
        }
    }
}

/// Every matcher of `ms` from position `i` on matches.
pub open spec fn all_match_from(ms: Seq<RuleMatcher>, i: int, ctx: MatchContext) -> bool
    decreases ms, ms.len() - i,
{
    if i < 0 || i >= ms.len() {
        true
    } else {
        ms[i].spec_evaluate(ctx).matched && all_match_from(ms, i + 1, ctx)
    }
}

/// The result of the first matcher of `ms` from position `i` on that matches, or no match.
pub open spec fn first_match_from(ms: Seq<RuleMatcher>, i: int, ctx: MatchContext) -> MatchResultView
    decreases ms, ms.len() - i,
{
    if i < 0 || i >= ms.len() {
        no_match_view()
    } else {
        let r = ms[i].spec_evaluate(ctx);
        if r.matched {
            r
        } else {
            first_match_from(ms, i + 1, ctx)
        }
    }
}

/// Whether the item sits inside `rel` below the optional base directory.
fn inside_relative_exec(ctx: &MatchContext, base: &Option<String>, rel: &str) -> (b: bool)
    ensures
        b == inside_relative(*ctx, *base, rel@),
{
    match base {
        Some(b) => {
            let full = join(b.as_str(), rel);
            ctx_inside_exec(ctx, full.as_str())
        },
        None => false,
    }
}

fn is_build_output_name_exec(n: &str) -> (b: bool)
    ensures
        b == is_build_output_name(n@),
{
    str_eq(n, "target") || str_eq(n, "build") || str_eq(n, "dist") || str_eq(n, "out") || str_eq(
        n,
        ".next",
    )
}

fn in_durable_model_store_exec(ctx: &MatchContext) -> (b: bool)
    ensures
        b == in_durable_model_store(*ctx),
{
    match &ctx.home_dir {
        Some(home) => {
            let ollama = join(home.as_str(), ".ollama/models");
            let user_models = join(home.as_str(), "models");
            let hub = join(home.as_str(), ".cache/huggingface/hub");
            ctx_inside_exec(ctx, ollama.as_str()) || ctx_inside_exec(ctx, user_models.as_str())
                || ctx_inside_exec(ctx, hub.as_str())
        },
        None => false,
    }
}

impl RuleMatcher {
    /// Evaluates whether this matcher matches the given item context.
    pub fn evaluate(&self, ctx: &MatchContext) -> (r: MatchResult)
        ensures
            r@ == self.spec_evaluate(*ctx),
        decreases self,
    {
        match self {
            RuleMatcher::ExactPath(expected) => {
                if ctx_is_exec(ctx, expected.as_str()) {
                    MatchResult::matched(
                        concat2("Exact canonical path matches ", expected.as_str()),
                        Confidence::Definite,
                        None,
                        Recoverability::Irrecoverable,
                    )
                } else {
                    MatchResult::no_match()
                }
            },
            RuleMatcher::PrefixPath(prefix) => {
                if ctx_inside_exec(ctx, prefix.as_str()) {
                    MatchResult::matched(
                        concat2("Canonical path sits inside ", prefix.as_str()),
                        Confidence::Definite,
                        None,
                        Recoverability::Irrecoverable,
                    )
                } else {
                    MatchResult::no_match()
                }
            },
            RuleMatcher::HomeRelativePrefix(rel) => {
                if inside_relative_exec(ctx, &ctx.home_dir, rel.as_str()) {
                    MatchResult::matched(
                        concat2("Path sits inside user directory ~/", rel.as_str()),
                        Confidence::Definite,
                        None,
                        Recoverability::Irrecoverable,
                    )
                } else {
                    MatchResult::no_match()
                }
            },
            RuleMatcher::CachesRelativePrefix(rel) => {
                if inside_relative_exec(ctx, &ctx.caches_dir, rel.as_str()) {
                    MatchResult::matched(
                        concat2("Path sits inside cache directory ", rel.as_str()),
                        Confidence::Definite,
                        None,
                        Recoverability::TrashRecoverable,
                    )
                } else {
                    MatchResult::no_match()
                }
            },
            RuleMatcher::AppSupportRelativePrefix(rel) => {
                if inside_relative_exec(ctx, &ctx.app_support_dir, rel.as_str()) {
                    MatchResult::matched(
                        concat2("Path sits inside Application Support directory ", rel.as_str()),
                        Confidence::Definite,
                        None,
                        Recoverability::TrashRecoverable,
                    )
                } else {
                    MatchResult::no_match()
                }
            },
            RuleMatcher::GitInternal => {
                if ctx.is_git_internal {
                    MatchResult::matched(
                        owned("Internal Git repository state (.git directory)"),
                        Confidence::Definite,
                        None,
                        Recoverability::Irrecoverable,
                    )
                } else {
                    MatchResult::no_match()
                }
            },
            RuleMatcher::GitWorkingTreeUserFile => {
                if ctx.inside_git_repo && !ctx.is_git_internal {
                    MatchResult::matched(
                        owned("User working tree file inside source-controlled git repository"),
                        Confidence::Definite,
                        None,
                        Recoverability::SourceControlled { remote: None },
                    )
                } else {
                    MatchResult::no_match()
                }
            },
            RuleMatcher::MountBoundaryCrossed => {
                if ctx.crosses_mount_boundary {
                    MatchResult::matched(
                        owned("Filesystem mount boundary crossed during traversal"),
                        Confidence::Definite,
                        None,
                        Recoverability::Irrecoverable,
                    )
                } else {
                    MatchResult::no_match()
                }
            },
            RuleMatcher::SymlinkPointingToProtected => {
                if ctx.is_symlink {
                    match &ctx.symlink_target_canonical {
                        Some(target) => MatchResult::matched(
                            concat2(
                                "Symlink points to external or protected path: ",
                                target.as_str(),
                            ),
                            Confidence::Definite,
                            None,
                            Recoverability::Irrecoverable,
                        ),
                        None => MatchResult::no_match(),
                    }
                } else {
                    MatchResult::no_match()
                }
            },
            RuleMatcher::BuildOutput => {
                let is_dir = match ctx.entry_type {
                    EntryType::Directory => true,
                    _ => false,
                };
                let name_matches = if is_dir {
                    match file_name_of(ctx.canonical_path.as_str()) {
                        Some(n) => is_build_output_name_exec(n.as_str()),
                        None => false,
                    }
                } else {
                    false
                };
                if is_dir && name_matches {
                    MatchResult::matched(
                        owned("Conventional project build output directory"),
                        Confidence::Definite,
                        None,
                        Recoverability::RebuildableByTool {
                            command: owned("project build command"),
                        },
                    )
                } else {
                    MatchResult::no_match()
                }
            },
            RuleMatcher::DurableModelStorage => {
                if in_durable_model_store_exec(ctx) {
                    MatchResult::matched(
                        owned("Durable machine learning model weights or local checkpoint store"),
                        Confidence::Definite,
                        None,
                        Recoverability::Irrecoverable,
                    )
                } else {
                    MatchResult::no_match()
                }
            },
            RuleMatcher::All(matchers) => {
                let mut i: usize = 0;
                while i < matchers.len()
                    invariant
                        i <= matchers@.len(),
                        all_match_from(matchers@, 0, *ctx) == all_match_from(matchers@, i as int, *ctx),
                        *self == RuleMatcher::All(*matchers),
                    decreases matchers@.len() - i,
                {
                    proof {
                        assert(decreases_to!(*self => *matchers));
                        assert(decreases_to!(*matchers => matchers@));
                        assert(decreases_to!(matchers@ => matchers@[i as int]));
                    }
                    let res = matchers[i].evaluate(ctx);
                    if !res.matched {
                        return MatchResult::no_match();
                    }
                    i = i + 1;
                }
                MatchResult::matched(
                    owned("All rule conditions satisfied"),
                    Confidence::Definite,
                    None,
                    Recoverability::TrashRecoverable,
                )
            },
            RuleMatcher::Any(matchers) => {
                let mut i: usize = 0;
                while i < matchers.len()
                    invariant
                        i <= matchers@.len(),
                        first_match_from(matchers@, 0, *ctx) == first_match_from(matchers@, i as int, *ctx),
                        *self == RuleMatcher::Any(*matchers),
                    decreases matchers@.len() - i,
                {
                    proof {
                        assert(decreases_to!(*self => *matchers));
                        assert(decreases_to!(*matchers => matchers@));
                        assert(decreases_to!(matchers@ => matchers@[i as int]));
                    }
                    let res = matchers[i].evaluate(ctx);
                    if res.matched {
                        return res;
                    }
                    i = i + 1;
                }
                MatchResult::no_match()
            },
        }
    }
}

/// The build-output matcher recognises exactly the directories whose own name is
/// `target`, `build`, `dist`, `out` or `.next`, and calls them rebuildable by the
/// project's build.
pub proof fn law_build_output_directories(ctx: MatchContext)
    ensures
        RuleMatcher::BuildOutput.spec_evaluate(ctx).matched <==> (ctx.entry_type == EntryType::Directory
            && match file_name(ctx.canonical_path@) {
            Some(n) => n == "target"@ || n == "build"@ || n == "dist"@ || n == "out"@ || n == ".next"@,
            None => false,
        }),
        RuleMatcher::BuildOutput.spec_evaluate(ctx).matched ==> {
            &&& RuleMatcher::BuildOutput.spec_evaluate(ctx).explanation
                == "Conventional project build output directory"@
            &&& RuleMatcher::BuildOutput.spec_evaluate(ctx).recoverability
                == (RecoverabilityView::RebuildableByTool { command: "project build command"@ })
        },
{
}

} // verus!
