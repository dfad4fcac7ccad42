use v_customizer::batch::CompileBatch;
use v_customizer::catalog::Sca;
use v_customizer::class::Class;
use v_customizer::error::ScaError;
use v_customizer::origin::Origin;
use v_customizer::patch::find_qc;
use v_customizer::patch::name_is_qc;
use v_customizer::patch::patched_content;
use v_customizer::staging::ClassEntry;
use v_customizer::staging::CopyAction;
use v_customizer::staging::EntryKind;
use v_customizer::staging::VariantEntry;

fn o(x: &str, y: &str, z: &str, z_rot: &str) -> Origin {
    Origin { x: x.to_owned(), y: y.to_owned(), z: z.to_owned(), z_rot: z_rot.to_owned() }
}

fn listings(per_class: [&[&str]; 9]) -> Vec<Vec<String>> {
    per_class
        .iter()
        .map(|names| names.iter().map(|n| n.to_string()).collect())
        .collect()
}

fn names(ns: &[&str]) -> Vec<String> {
    ns.iter().map(|n| n.to_string()).collect()
}

fn file(name: &str) -> ClassEntry {
    ClassEntry { name: name.to_owned(), kind: EntryKind::File }
}

fn folder(name: &str, subs: &[(&str, bool)]) -> ClassEntry {
    ClassEntry {
        name: name.to_owned(),
        kind: EntryKind::Folder(
            subs.iter()
                .map(|(n, d)| VariantEntry { name: n.to_string(), is_dir: *d })
                .collect(),
        ),
    }
}

fn path(parts: &[&str]) -> Vec<String> {
    parts.iter().map(|p| p.to_string()).collect()
}

#[test]
fn patching_prepends_exactly_one_directive_line() {
    let out = patched_content(&o("1", "2", "3", "4"), "modeldata\n");
    assert_eq!(out, "$origin 1 2 3 4\nmodeldata\n");
}

#[test]
fn patching_keeps_original_text_untouched() {
    let original = "// header\n$body\nline three";
    let out = patched_content(&o("-1.5", "0", "0.25", "90"), original);
    assert_eq!(out, format!("$origin -1.5 0 0.25 90\n{}", original));
}

#[test]
fn qc_names_are_recognised_by_extension() {
    assert!(name_is_qc(&"model.qc".to_owned()));
    assert!(!name_is_qc(&"model.smd".to_owned()));
    assert!(!name_is_qc(&"modelqc".to_owned()));
    assert!(!name_is_qc(&".qc".to_owned()));
    assert!(!name_is_qc(&"model.QC".to_owned()));
}

#[test]
fn find_qc_takes_the_first_match() {
    let r = find_qc(&names(&["readme.txt", "b.qc", "c.qc"]));
    assert_eq!(r.unwrap(), "b.qc");
}

#[test]
fn find_qc_without_script_reports_script_not_found() {
    let r = find_qc(&names(&["readme.txt", "model.smd"]));
    assert_eq!(r.unwrap_err(), ScaError::ScriptNotFound);
}

#[test]
fn staging_with_nested_directory_fails_with_unexpected_nesting() {
    let mut sca = Sca::new(listings([
        &["v1"],
        &[],
        &[],
        &[],
        &[],
        &[],
        &[],
        &[],
        &[],
    ]));
    sca.folders[0].animations[0].origin = o("1", "0", "0", "0");
    let listing = vec![vec![folder("v1", &[("v1.qc", false), ("deeper", true)])]];
    let err = sca.copy_sca(&listing).unwrap_err();
    match err {
        ScaError::UnexpectedNesting(p) => {
            assert_eq!(p, path(&["Scout", "v1", "deeper"]));
        }
        other => panic!("expected UnexpectedNesting, got {:?}", other),
    }
}

#[test]
fn staging_plan_mirrors_the_selected_class_exactly() {
    let mut sca = Sca::new(listings([
        &["v1"],
        &["w1"],
        &[],
        &[],
        &[],
        &[],
        &[],
        &[],
        &[],
    ]));
    sca.folders[0].animations[0].origin = o("0", "0", "1", "0");
    let listing = vec![vec![
        file("Scout.qc"),
        folder("v1", &[("v1.qc", false), ("v1.smd", false)]),
    ]];
    let plan = sca.copy_sca(&listing).unwrap();
    assert_eq!(
        plan,
        vec![
            CopyAction::CreateDir(path(&["Scout"])),
            CopyAction::CopyFile(path(&["Scout", "Scout.qc"])),
            CopyAction::CreateDir(path(&["Scout", "v1"])),
            CopyAction::CopyFile(path(&["Scout", "v1", "v1.qc"])),
            CopyAction::CopyFile(path(&["Scout", "v1", "v1.smd"])),
        ]
    );
}

#[test]
fn single_selected_variant_drives_the_whole_pipeline() {
    // Only Scout's single variant v1 carries transform (0, 0, 1, 0).
    let mut sca = Sca::new(listings([
        &["v1"],
        &["w1"],
        &[],
        &[],
        &[],
        &[],
        &[],
        &[],
        &[],
    ]));
    sca.folders[0].animations[0].origin = o("0", "0", "1", "0");

    // Selection: exactly Scout, with exactly v1.
    let selected = sca.get_selected_classes();
    assert_eq!(selected.len(), 1);
    assert!(selected[0].class == Class::Scout);
    let anims = selected[0].get_selected_animations();
    assert_eq!(anims.len(), 1);
    assert_eq!(anims[0].name, "v1");

    // Staging copies only Scout's folder.
    let plan = sca
        .copy_sca(&vec![vec![folder("v1", &[("v1.qc", false)])]])
        .unwrap();
    assert_eq!(
        plan,
        vec![
            CopyAction::CreateDir(path(&["Scout"])),
            CopyAction::CreateDir(path(&["Scout", "v1"])),
            CopyAction::CopyFile(path(&["Scout", "v1", "v1.qc"])),
        ]
    );

    // Patching writes the directive at the top of v1's script.
    let jobs = sca.append_origins();
    assert_eq!(jobs.len(), 1);
    assert!(jobs[0].class == Class::Scout);
    assert_eq!(jobs[0].animation, "v1");
    let patched = patched_content(&jobs[0].origin, "modeldata\n");
    assert_eq!(patched, "$origin 0 0 1 0\nmodeldata\n");

    // The compile queue holds exactly v1's script and Scout's aggregate
    // script: two items in all.
    let anim_qcs = sca
        .get_temp_folder_qcs(false, &vec![names(&["v1.qc"])])
        .unwrap();
    assert_eq!(anim_qcs, vec![path(&["Scout", "v1", "v1.qc"])]);
    let class_qcs = sca
        .get_selected_class_qcs(&vec![names(&["Scout.qc", "notes.txt"])])
        .unwrap();
    assert_eq!(class_qcs, vec![path(&["Scout", "Scout.qc"])]);
    let mut items = anim_qcs;
    items.extend(class_qcs);
    let batch = CompileBatch::new(items);
    assert_eq!(batch.total, 2);
}

#[test]
fn missing_script_in_a_staged_folder_stops_queue_building() {
    let mut sca = Sca::new(listings([
        &["v1"],
        &[],
        &[],
        &[],
        &[],
        &[],
        &[],
        &[],
        &[],
    ]));
    sca.folders[0].animations[0].origin = o("1", "0", "0", "0");
    let err = sca
        .get_temp_folder_qcs(true, &vec![names(&["v1.smd"])])
        .unwrap_err();
    assert_eq!(err, ScaError::ScriptNotFound);
}

#[test]
fn compiler_failure_reports_and_halts_the_batch() {
    let items = vec![path(&["Scout", "v1", "v1.qc"]), path(&["Scout", "Scout.qc"])];
    let mut batch = CompileBatch::new(items);
    let first = batch.next_item().unwrap();
    assert_eq!(first, path(&["Scout", "Scout.qc"]));
    // The compiler exits with status 1: the batch fails and stops before
    // the remaining queued item.
    let err = batch.record_result(false).unwrap_err();
    assert_eq!(err, ScaError::CompilerExitedNonZero);
    assert!(batch.failed);
    assert!(batch.next_item().is_none());
    assert_eq!(batch.completed, 0);
}

#[test]
fn successful_batch_counts_progress_one_item_at_a_time() {
    let items = vec![path(&["a.qc"]), path(&["b.qc"])];
    let mut batch = CompileBatch::new(items);
    assert_eq!((batch.completed, batch.total), (0, 2));
    let _ = batch.next_item().unwrap();
    batch.record_result(true).unwrap();
    assert_eq!((batch.completed, batch.total), (1, 2));
    let _ = batch.next_item().unwrap();
    batch.record_result(true).unwrap();
    assert_eq!((batch.completed, batch.total), (2, 2));
    assert!(batch.next_item().is_none());
    assert!(!batch.failed);
}
