//! Choosing the prebuilt archive for a target, and planning how it and the
//! linker script are staged into the build's output directory.
//!
//! Nothing here touches a file: the plan is data, and whoever runs the build
//! carries it out step by step.

use vstd::prelude::*;
use vstd::string::*;
use crate::text::{join2, join3, starts_with};

verus! {

/// A prebuilt archive of the routines, for one family of targets.
#[derive(Debug, PartialEq, Eq)]
pub struct TargetArtifact {
    /// The target-triple prefix that the archive's family is known by.
    pub prefix: String,
    /// Whether this is the variant built for linker-plugin LTO.
    pub lto: bool,
    /// Where the archive lies, relative to the package's root.
    pub path: String,
}

/// An archive as plain text.
pub struct ArtifactView {
    pub prefix: Seq<char>,
    pub lto: bool,
    pub path: Seq<char>,
}

impl View for TargetArtifact {
    type V = ArtifactView;

    open spec fn view(&self) -> ArtifactView {
        ArtifactView { prefix: self.prefix@, lto: self.lto, path: self.path@ }
    }
}

/// The prefix of the one family of targets that has archives.
pub open spec fn family_prefix_spec() -> Seq<char> {
    "mips"@
}

/// Whether archives exist for `target`.
pub open spec fn supported_spec(target: Seq<char>) -> bool {
    family_prefix_spec().is_prefix_of(target)
}

/// What the LTO variant adds to an archive's name.
pub open spec fn variant_suffix_spec(lto: bool) -> Seq<char> {
    if lto {
        "-lto"@
    } else {
        ""@
    }
}

/// The path of the archive for `target` in the given variant.
pub open spec fn archive_path_spec(target: Seq<char>, lto: bool) -> Seq<char> {
    "bin/"@ + target + variant_suffix_spec(lto) + ".a"@
}

/// The name under which an archive is staged for the package `name`.
pub open spec fn staged_name_spec(name: Seq<char>) -> Seq<char> {
    "lib"@ + name + ".a"@
}

/// The name under which the linker script is staged.
pub open spec fn linker_script_name_spec() -> Seq<char> {
    "link.ld"@
}

/// The directive that makes the build link the staged archive statically.
pub open spec fn link_lib_directive_spec(name: Seq<char>) -> Seq<char> {
    "cargo:rustc-link-lib=static="@ + name
}

/// The directive that adds the output directory to the linker's search path.
pub open spec fn link_search_directive_spec(out_dir: Seq<char>) -> Seq<char> {
    "cargo:rustc-link-search="@ + out_dir
}

/// Whether archives exist for `target`: they do for the MIPS family, which
/// is known by the start of its triple.
pub fn is_supported(target: &str) -> (b: bool)
    ensures
        b == supported_spec(target@),
{
    starts_with(target, "mips")
}

/// The archive to stage for `target` in the given variant, or `None` for a
/// target outside the family.
pub open spec fn select_spec(target: Seq<char>, lto: bool) -> Option<ArtifactView> {
    if supported_spec(target) {
        Some(
            ArtifactView {
                prefix: family_prefix_spec(),
                lto,
                path: archive_path_spec(target, lto),
            },
        )
    } else {
        None
    }
}

/// A selection as plain text.
pub open spec fn selection_view(artifact: Option<TargetArtifact>) -> Option<ArtifactView> {
    match artifact {
        Some(a) => Some(a@),
        None => None,
    }
}

/// The archive to stage for `target`: the LTO variant where `lto` is set, the
/// plain one where it is not, and none for a target outside the family.
pub fn select_artifact(target: &str, lto: bool) -> (artifact: Option<TargetArtifact>)
    ensures
        selection_view(artifact) == select_spec(target@, lto),
{
    if !is_supported(target) {
        return None;
    }
    let suffix: &str = if lto {
        "-lto"
    } else {
        ""
    };
    let mut path = join3("bin/", target, suffix);
    path.append(".a");
    Some(TargetArtifact { prefix: String::from_str("mips"), lto, path })
}

/// Selection is total on the supported targets and empty elsewhere, the two
/// variants of a target are two different files, and a plan copies the very
/// archive that selection names.
pub proof fn lemma_selection(target: Seq<char>, lto: bool, name: Seq<char>, out_dir: Seq<char>)
    ensures
        select_spec(target, lto) is Some <==> supported_spec(target),
        select_spec(target, lto) matches Some(artifact) ==> {
            &&& artifact.lto == lto
            &&& artifact.prefix.is_prefix_of(target)
            &&& archive_steps_spec(target, lto, name, out_dir)[0] == (StepView::CopyArchive {
                source: artifact.path,
                file_name: staged_name_spec(name),
            })
        },
        archive_path_spec(target, true) != archive_path_spec(target, false),
{
    reveal_strlit("-lto");
    reveal_strlit("");
    assert(archive_path_spec(target, true).len() == archive_path_spec(target, false).len() + 4);
}

/// One thing for the build to do, in the order in which the plan lists it.
#[derive(Debug, PartialEq, Eq)]
pub enum BuildStep {
    /// Copy the archive at `source`, relative to the package's root, into the
    /// output directory as `file_name`. A source that cannot be read ends the
    /// build.
    CopyArchive { source: String, file_name: String },
    /// Write the linker script into the output directory as `file_name`.
    WriteLinkerScript { file_name: String },
    /// Hand `line` to the surrounding build system.
    Directive { line: String },
}

/// A build step as plain text.
pub enum StepView {
    CopyArchive { source: Seq<char>, file_name: Seq<char> },
    WriteLinkerScript { file_name: Seq<char> },
    Directive { line: Seq<char> },
}

impl View for BuildStep {
    type V = StepView;

    open spec fn view(&self) -> StepView {
        match self {
            BuildStep::CopyArchive { source, file_name } => StepView::CopyArchive {
                source: source@,
                file_name: file_name@,
            },
            BuildStep::WriteLinkerScript { file_name } => StepView::WriteLinkerScript {
                file_name: file_name@,
            },
            BuildStep::Directive { line } => StepView::Directive { line: line@ },
        }
    }
}

/// The steps of a plan as plain text, in order.
pub open spec fn plan_view(steps: Seq<BuildStep>) -> Seq<StepView> {
    steps.map_values(|step: BuildStep| step@)
}

/// The steps that stage the archive: copy it, have it linked, and make the
/// output directory known to the linker. Empty for an unsupported target.
pub open spec fn archive_steps_spec(
    target: Seq<char>,
    lto: bool,
    name: Seq<char>,
    out_dir: Seq<char>,
) -> Seq<StepView> {
    if supported_spec(target) {
        seq![
            StepView::CopyArchive {
                source: archive_path_spec(target, lto),
                file_name: staged_name_spec(name),
            },
            StepView::Directive { line: link_lib_directive_spec(name) },
            StepView::Directive { line: link_search_directive_spec(out_dir) },
        ]
    } else {
        Seq::empty()
    }
}

/// The steps that stage the linker script and make it known to the linker.
pub open spec fn script_steps_spec(out_dir: Seq<char>) -> Seq<StepView> {
    seq![
        StepView::WriteLinkerScript { file_name: linker_script_name_spec() },
        StepView::Directive { line: link_search_directive_spec(out_dir) },
    ]
}

/// The whole plan of one build: the archive first, where the target has one,
/// then the linker script.
pub open spec fn staging_plan_spec(
    target: Seq<char>,
    lto: bool,
    name: Seq<char>,
    out_dir: Seq<char>,
) -> Seq<StepView> {
    archive_steps_spec(target, lto, name, out_dir) + script_steps_spec(out_dir)
}

/// Plans one build for `target`, of the package `name`, whose output directory
/// prints as `out_dir`; `lto` says whether the LTO variant is asked for.
///
/// For a supported target the archive is copied under the package's canonical
/// library name and two directives make the build link it and find it. For
/// any other target those steps are left out, which is no failure. The linker
/// script is staged in every case.
pub fn staging_plan(target: &str, lto: bool, name: &str, out_dir: &str) -> (steps: Vec<BuildStep>)
    ensures
        plan_view(steps@) == staging_plan_spec(target@, lto, name@, out_dir@),
{
    let mut steps: Vec<BuildStep> = Vec::new();
    match select_artifact(target, lto) {
        Some(artifact) => {
            steps.push(
                BuildStep::CopyArchive { source: artifact.path, file_name: join3("lib", name, ".a") },
            );
            steps.push(
                BuildStep::Directive { line: join2("cargo:rustc-link-lib=static=", name) },
            );
            steps.push(
                BuildStep::Directive { line: join2("cargo:rustc-link-search=", out_dir) },
            );
        },
        None => {},
    }
    steps.push(BuildStep::WriteLinkerScript { file_name: String::from_str("link.ld") });
    steps.push(BuildStep::Directive { line: join2("cargo:rustc-link-search=", out_dir) });
    proof {
        assert(plan_view(steps@) =~= staging_plan_spec(target@, lto, name@, out_dir@));
    }
    steps
}

} // verus!
