use std::collections::HashMap;

use mips_rt::artifact::{staging_plan, BuildStep};

type Files = HashMap<String, Vec<u8>>;

/// Carries out `plan` on an output directory held in memory. Gives `false`
/// where a copy's source is missing, which ends the build.
fn carry_out(plan: &[BuildStep], package: &Files, script: &[u8], out: &mut Files) -> bool {
    for step in plan {
        match step {
            BuildStep::CopyArchive { source, file_name } => match package.get(source) {
                Some(bytes) => {
                    out.insert(file_name.clone(), bytes.clone());
                }
                None => return false,
            },
            BuildStep::WriteLinkerScript { file_name } => {
                out.insert(file_name.clone(), script.to_vec());
            }
            BuildStep::Directive { .. } => {}
        }
    }
    true
}

fn package() -> Files {
    let mut files = Files::new();
    files.insert("bin/mipsel-unknown-none.a".to_string(), vec![1, 2, 3]);
    files.insert("bin/mipsel-unknown-none-lto.a".to_string(), vec![4, 5, 6, 7]);
    files
}

const SCRIPT: &[u8] = b"SECTIONS { }";

#[test]
fn staging_a_mips_target_puts_archive_and_script_in_place() {
    let plan = staging_plan("mipsel-unknown-none", false, "mips-rt", "out");
    let mut out = Files::new();
    assert!(carry_out(&plan, &package(), SCRIPT, &mut out));
    let mut expected = Files::new();
    expected.insert("libmips-rt.a".to_string(), vec![1, 2, 3]);
    expected.insert("link.ld".to_string(), SCRIPT.to_vec());
    assert_eq!(out, expected);
}

#[test]
fn staging_with_lto_puts_the_lto_archive_in_place() {
    let plan = staging_plan("mipsel-unknown-none", true, "mips-rt", "out");
    let mut out = Files::new();
    assert!(carry_out(&plan, &package(), SCRIPT, &mut out));
    assert_eq!(out.get("libmips-rt.a"), Some(&vec![4, 5, 6, 7]));
    assert_eq!(out.get("link.ld"), Some(&SCRIPT.to_vec()));
    assert_eq!(out.len(), 2);
}

#[test]
fn staging_another_target_puts_only_the_script_in_place() {
    let plan = staging_plan("thumbv7m-none-eabi", true, "mips-rt", "out");
    let mut out = Files::new();
    assert!(carry_out(&plan, &Files::new(), SCRIPT, &mut out));
    let mut expected = Files::new();
    expected.insert("link.ld".to_string(), SCRIPT.to_vec());
    assert_eq!(out, expected);
}

#[test]
fn staging_twice_leaves_the_same_bytes() {
    for lto in [false, true] {
        let plan = staging_plan("mipsel-unknown-none", lto, "mips-rt", "out");
        let mut out = Files::new();
        out.insert("unrelated.txt".to_string(), vec![9]);
        assert!(carry_out(&plan, &package(), SCRIPT, &mut out));
        let once = out.clone();
        let again = staging_plan("mipsel-unknown-none", lto, "mips-rt", "out");
        assert!(carry_out(&again, &package(), SCRIPT, &mut out));
        assert_eq!(out, once);
        assert_eq!(out.get("unrelated.txt"), Some(&vec![9]));
    }
}

#[test]
fn staged_files_do_not_depend_on_what_was_there() {
    let plan = staging_plan("mipsel-unknown-none", false, "mips-rt", "out");
    let mut fresh = Files::new();
    let mut stale = Files::new();
    stale.insert("libmips-rt.a".to_string(), vec![0; 16]);
    stale.insert("link.ld".to_string(), b"old".to_vec());
    assert!(carry_out(&plan, &package(), SCRIPT, &mut fresh));
    assert!(carry_out(&plan, &package(), SCRIPT, &mut stale));
    assert_eq!(fresh, stale);
}

#[test]
fn missing_archive_ends_the_build_before_the_script_is_staged() {
    let plan = staging_plan("mips-unknown-linux-gnu", false, "mips-rt", "out");
    let mut out = Files::new();
    assert!(!carry_out(&plan, &package(), SCRIPT, &mut out));
    assert!(out.is_empty());
}
