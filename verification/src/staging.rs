//! What carrying out a plan does to the output directory.
//!
//! The output directory is a map from file names to contents. The package's
//! own files, from which archives are copied, are a second map that staging
//! only reads.

use vstd::prelude::*;
use crate::artifact::{
    archive_path_spec, linker_script_name_spec, staged_name_spec, staging_plan_spec,
    supported_spec, StepView,
};

verus! {

/// The files of a directory: contents by name.
pub type Files = Map<Seq<char>, Seq<u8>>;

/// The file in the output directory that `step` writes, if it writes one.
pub open spec fn written_file(step: StepView) -> Option<Seq<char>> {
    match step {
        StepView::CopyArchive { file_name, .. } => Some(file_name),
        StepView::WriteLinkerScript { file_name } => Some(file_name),
        StepView::Directive { .. } => None,
    }
}

/// Whether some step of `steps` writes the file `name`.
pub open spec fn writes(steps: Seq<StepView>, name: Seq<char>) -> bool {
    exists|i: int| 0 <= i < steps.len() && written_file(#[trigger] steps[i]) == Some(name)
}

/// The output directory after `step`, or `None` where the step ends the
/// build: a copy whose source is not among the package's files.
pub open spec fn apply_spec(out: Files, step: StepView, package: Files, script: Seq<u8>) -> Option<
    Files,
> {
    match step {
        StepView::CopyArchive { source, file_name } => if package.contains_key(source) {
            Some(out.insert(file_name, package[source]))
        } else {
            None
        },
        StepView::WriteLinkerScript { file_name } => Some(out.insert(file_name, script)),
        StepView::Directive { .. } => Some(out),
    }
}

/// The output directory after all of `steps`, in order, or `None` where one
/// of them ends the build.
pub open spec fn stage_spec(
    out: Files,
    steps: Seq<StepView>,
    package: Files,
    script: Seq<u8>,
) -> Option<Files>
    decreases steps.len(),
{
    if steps.len() == 0 {
        Some(out)
    } else {
        match stage_spec(out, steps.drop_last(), package, script) {
            Some(before) => apply_spec(before, steps.last(), package, script),
            None => None,
        }
    }
}

/// Whether staging succeeds does not depend on what the output directory
/// held before.
pub proof fn lemma_success_ignores_output(
    out1: Files,
    out2: Files,
    steps: Seq<StepView>,
    package: Files,
    script: Seq<u8>,
)
    ensures
        stage_spec(out1, steps, package, script) is Some <==> stage_spec(
            out2,
            steps,
            package,
            script,
        ) is Some,
    decreases steps.len(),
{
    if steps.len() > 0 {
        lemma_success_ignores_output(out1, out2, steps.drop_last(), package, script);
    }
}

/// Staging leaves alone every file that no step writes.
pub proof fn lemma_untouched_files_stay(
    out: Files,
    steps: Seq<StepView>,
    package: Files,
    script: Seq<u8>,
    name: Seq<char>,
)
    requires
        stage_spec(out, steps, package, script) is Some,
        !writes(steps, name),
    ensures
        stage_spec(out, steps, package, script)->0.contains_key(name) == out.contains_key(name),
        out.contains_key(name) ==> stage_spec(out, steps, package, script)->0[name] == out[name],
    decreases steps.len(),
{
    if steps.len() > 0 {
        let earlier = steps.drop_last();
        assert(written_file(steps[steps.len() - 1]) != Some(name));
        assert forall|i: int| 0 <= i < earlier.len() implies written_file(#[trigger] earlier[i])
            != Some(name) by {
            assert(earlier[i] == steps[i]);
        }
        lemma_untouched_files_stay(out, earlier, package, script, name);
    }
}

/// A file that some step writes is there after staging, with contents that
/// do not depend on what the output directory held before.
pub proof fn lemma_written_files_are_fixed(
    out1: Files,
    out2: Files,
    steps: Seq<StepView>,
    package: Files,
    script: Seq<u8>,
    name: Seq<char>,
)
    requires
        stage_spec(out1, steps, package, script) is Some,
        stage_spec(out2, steps, package, script) is Some,
        writes(steps, name),
    ensures
        stage_spec(out1, steps, package, script)->0.contains_key(name),
        stage_spec(out2, steps, package, script)->0.contains_key(name),
        stage_spec(out1, steps, package, script)->0[name] == stage_spec(
            out2,
            steps,
            package,
            script,
        )->0[name],
    decreases steps.len(),
{
    let earlier = steps.drop_last();
    let i = choose|i: int| 0 <= i < steps.len() && written_file(#[trigger] steps[i]) == Some(name);
    if written_file(steps.last()) != Some(name) {
        assert(earlier[i] == steps[i]);
        assert(writes(earlier, name));
        lemma_written_files_are_fixed(out1, out2, earlier, package, script, name);
    }
}

/// Staging is idempotent: where it succeeds, staging the same plan again,
/// from the same package files and the same linker script, succeeds and
/// leaves every file of the output directory as it was, byte for byte.
pub proof fn lemma_staging_idempotent(
    out: Files,
    steps: Seq<StepView>,
    package: Files,
    script: Seq<u8>,
)
    requires
        stage_spec(out, steps, package, script) is Some,
    ensures
        stage_spec(stage_spec(out, steps, package, script)->0, steps, package, script)
            == stage_spec(out, steps, package, script),
{
    let once = stage_spec(out, steps, package, script)->0;
    lemma_success_ignores_output(out, once, steps, package, script);
    let twice = stage_spec(once, steps, package, script)->0;
    assert forall|name: Seq<char>|
        #![trigger twice.dom().contains(name)]
        #![trigger once.dom().contains(name)]
        twice.dom().contains(name) == once.dom().contains(name) && (once.dom().contains(name)
            ==> twice[name] == once[name]) by {
        if writes(steps, name) {
            lemma_written_files_are_fixed(once, out, steps, package, script, name);
        } else {
            lemma_untouched_files_stay(once, steps, package, script, name);
        }
    }
    assert(twice =~= once);
}

/// What one build stages. The linker script is staged for every target. The
/// archive is staged exactly for a supported target, and the build ends early
/// exactly where such a target's archive is not among the package's files.
pub proof fn lemma_plan_outcome(
    out: Files,
    target: Seq<char>,
    lto: bool,
    name: Seq<char>,
    out_dir: Seq<char>,
    package: Files,
    script: Seq<u8>,
)
    ensures
        ({
            let staged = stage_spec(
                out,
                staging_plan_spec(target, lto, name, out_dir),
                package,
                script,
            );
            let source = archive_path_spec(target, lto);
            if !supported_spec(target) {
                staged == Some(out.insert(linker_script_name_spec(), script))
            } else if package.contains_key(source) {
                staged == Some(
                    out.insert(staged_name_spec(name), package[source]).insert(
                        linker_script_name_spec(),
                        script,
                    ),
                )
            } else {
                staged is None
            }
        }),
{
    let plan = staging_plan_spec(target, lto, name, out_dir);
    reveal_with_fuel(stage_spec, 6);
    if supported_spec(target) {
        let four = plan.drop_last();
        let three = four.drop_last();
        let two = three.drop_last();
        let one = two.drop_last();
        assert(one.drop_last().len() == 0);
        assert(one.last() == plan[0] && two.last() == plan[1] && three.last() == plan[2]
            && four.last() == plan[3]);
    } else {
        let one = plan.drop_last();
        assert(one.drop_last().len() == 0);
        assert(one.last() == plan[0]);
    }
}

} // verus!
