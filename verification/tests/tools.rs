use v_customizer::catalog::Sca;
use v_customizer::class::Class;
use v_customizer::error::ScaError;
use v_customizer::toolpath::temp_folder_name;
use v_customizer::workarea::FolderAction;
use v_customizer::workarea::Phase;
use v_customizer::workarea::PhaseEvent;
use v_customizer::workarea::WorkArea;
use v_customizer::workarea::advance;
use v_customizer::workarea::temp_models_name;

fn path(parts: &[&str]) -> Vec<String> {
    parts.iter().map(|p| p.to_string()).collect()
}

#[test]
fn check_folders_rejects_a_missing_root() {
    let present = vec![true; 9];
    let err = Sca::check_folders(false, &present).unwrap_err();
    assert_eq!(err, ScaError::MissingLibraryRoot);
}

#[test]
fn check_folders_names_the_first_missing_class() {
    let mut present = vec![true; 9];
    present[2] = false;
    present[5] = false;
    let err = Sca::check_folders(true, &present).unwrap_err();
    assert_eq!(err, ScaError::MissingCategoryFolder(Class::Pyro));
}

#[test]
fn check_folders_accepts_a_complete_layout() {
    let present = vec![true; 9];
    assert!(Sca::check_folders(true, &present).is_ok());
}

#[test]
fn studiomdl_path_is_three_levels_up_in_bin() {
    let exe = path(&["C:", "tf", "custom", "program"]);
    let p = Sca::studiomdl_exe(&exe, true).unwrap();
    assert_eq!(p, path(&["C:", "bin", "studiomdl.exe"]));
}

#[test]
fn missing_compiler_is_tool_not_found() {
    let exe = path(&["C:", "tf", "custom", "program"]);
    let err = Sca::studiomdl_exe(&exe, false).unwrap_err();
    assert_eq!(err, ScaError::ToolNotFound);
}

#[test]
fn tf_folder_is_two_levels_up() {
    let exe = path(&["C:", "tf", "custom", "program"]);
    let p = Sca::tf_folder(&exe, true).unwrap();
    assert_eq!(p, path(&["C:", "tf"]));
}

#[test]
fn missing_content_root_is_content_root_not_found() {
    let exe = path(&["C:", "tf", "custom", "program"]);
    let err = Sca::tf_folder(&exe, false).unwrap_err();
    assert_eq!(err, ScaError::ContentRootNotFound);
}

#[test]
fn library_root_sits_beside_the_program() {
    let exe = path(&["C:", "tf", "custom", "program"]);
    assert_eq!(Sca::sca_folder(&exe), path(&["C:", "tf", "custom", "program", "SCA"]));
}

#[test]
fn compiler_arguments_carry_the_fixed_flags_in_order() {
    let args = Sca::compile(&"C:/tf".to_owned(), &"C:/stage/Scout/v1/v1.qc".to_owned());
    assert_eq!(
        args,
        vec!["-game", "C:/tf", "-nop4", "-verbose", "C:/stage/Scout/v1/v1.qc"]
    );
}

#[test]
fn packaging_plan_names_executable_target_and_relocation() {
    let studiomdl = path(&["C:", "bin", "studiomdl.exe"]);
    let tf = path(&["C:", "tf"]);
    let plan = Sca::convert_to_vpk(&studiomdl, &tf);
    assert_eq!(plan.vpk_exe, path(&["C:", "bin", "vpk.exe"]));
    assert_eq!(
        plan.target_folder,
        path(&["C:", "tf", "models", "__TEMP", "0_ViewmodelCustomized"])
    );
    assert_eq!(
        plan.archive_source,
        path(&["C:", "tf", "models", "__TEMP", "0_ViewmodelCustomized.vpk"])
    );
    assert_eq!(
        plan.archive_dest,
        path(&["C:", "tf", "custom", "0_ViewmodelCustomized.vpk"])
    );
}

#[test]
fn working_folder_names_are_fixed() {
    assert_eq!(temp_folder_name(), "__v_customizer_temp__");
    assert_eq!(temp_models_name(), "__TEMP_MODELS");
}

#[test]
fn divert_then_restore_gives_back_the_live_folder() {
    let mut area: WorkArea<String> = WorkArea {
        live: Some("live folder bytes".to_owned()),
        aside: None,
        staging: false,
    };
    let actions = area.create_temp_models_folder(String::new()).unwrap();
    assert_eq!(actions, vec![FolderAction::RenameLiveToAside]);
    assert!(area.live.is_none());
    // no intervening writes
    let actions = area.delete_temp_models_folder();
    assert_eq!(actions, vec![FolderAction::RenameAsideToLive]);
    assert_eq!(area.live.as_deref(), Some("live folder bytes"));
    assert!(area.aside.is_none());
}

#[test]
fn diverting_a_missing_live_folder_creates_an_empty_one_first() {
    let mut area: WorkArea<String> = WorkArea { live: None, aside: None, staging: false };
    let actions = area.create_temp_models_folder(String::new()).unwrap();
    assert_eq!(
        actions,
        vec![FolderAction::CreateEmptyLive, FolderAction::RenameLiveToAside]
    );
    let actions = area.delete_temp_models_folder();
    assert_eq!(actions, vec![FolderAction::RenameAsideToLive]);
    assert_eq!(area.live.as_deref(), Some(""));
}

#[test]
fn a_second_diversion_is_refused() {
    let mut area: WorkArea<String> = WorkArea {
        live: Some("a".to_owned()),
        aside: None,
        staging: true,
    };
    area.create_temp_models_folder(String::new()).unwrap();
    let err = area.create_temp_models_folder(String::new()).unwrap_err();
    assert_eq!(err, ScaError::DiversionExists);
}

#[test]
fn restore_after_compiler_output_discards_the_live_path() {
    let mut area: WorkArea<String> = WorkArea {
        live: Some("original".to_owned()),
        aside: None,
        staging: false,
    };
    area.create_temp_models_folder(String::new()).unwrap();
    // the compiler wrote fresh output into the live path
    area.live = Some("fresh output".to_owned());
    let actions = area.delete_temp_models_folder();
    assert_eq!(
        actions,
        vec![FolderAction::DeleteLive, FolderAction::RenameAsideToLive]
    );
    assert_eq!(area.live.as_deref(), Some("original"));
}

#[test]
fn restore_without_diversion_is_a_no_op() {
    let mut area: WorkArea<String> = WorkArea {
        live: Some("a".to_owned()),
        aside: None,
        staging: false,
    };
    let actions = area.delete_temp_models_folder();
    assert!(actions.is_empty());
    assert_eq!(area.live.as_deref(), Some("a"));
}

#[test]
fn clear_staging_is_idempotent() {
    let mut area: WorkArea<String> = WorkArea { live: None, aside: None, staging: true };
    assert_eq!(area.clear_staging(), vec![FolderAction::DeleteStaging]);
    assert!(area.clear_staging().is_empty());
    assert!(!area.staging);
}

#[test]
fn phase_machine_follows_the_success_path() {
    let p = Phase::Clean;
    let p = advance(p, PhaseEvent::Stage).unwrap();
    assert!(p == Phase::Staged);
    let p = advance(p, PhaseEvent::Divert).unwrap();
    assert!(p == Phase::Diverted);
    let p = advance(p, PhaseEvent::BeginCompile).unwrap();
    assert!(p == Phase::Compiling);
    let p = advance(p, PhaseEvent::FinishPackage).unwrap();
    assert!(p == Phase::Packaged);
    let p = advance(p, PhaseEvent::Restore).unwrap();
    assert!(p == Phase::Clean);
}

#[test]
fn phase_machine_refuses_out_of_order_steps() {
    assert!(advance(Phase::Clean, PhaseEvent::Divert).is_none());
    assert!(advance(Phase::Staged, PhaseEvent::FinishPackage).is_none());
    assert!(advance(Phase::Clean, PhaseEvent::ErrorCleanup).is_none());
}

#[test]
fn error_cleanup_returns_any_started_run_to_clean() {
    assert!(advance(Phase::Staged, PhaseEvent::ErrorCleanup).unwrap() == Phase::Clean);
    assert!(advance(Phase::Diverted, PhaseEvent::ErrorCleanup).unwrap() == Phase::Clean);
    assert!(advance(Phase::Compiling, PhaseEvent::ErrorCleanup).unwrap() == Phase::Clean);
    assert!(advance(Phase::Packaged, PhaseEvent::ErrorCleanup).unwrap() == Phase::Clean);
}
