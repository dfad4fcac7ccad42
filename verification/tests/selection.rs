use v_customizer::catalog::Sca;
use v_customizer::class::Class;
use v_customizer::class::all_classes;
use v_customizer::origin::Origin;

fn o(x: &str, y: &str, z: &str, z_rot: &str) -> Origin {
    Origin { x: x.to_owned(), y: y.to_owned(), z: z.to_owned(), z_rot: z_rot.to_owned() }
}

fn listings(per_class: [&[&str]; 9]) -> Vec<Vec<String>> {
    per_class
        .iter()
        .map(|names| names.iter().map(|n| n.to_string()).collect())
        .collect()
}

#[test]
fn zero_transform_is_not_modified() {
    let t = o("0", "0", "0", "0");
    assert!(!t.is_modified());
}

#[test]
fn each_nonzero_field_makes_modified() {
    assert!(o("1", "0", "0", "0").is_modified());
    assert!(o("0", "2", "0", "0").is_modified());
    assert!(o("0", "0", "3", "0").is_modified());
    assert!(o("0", "0", "0", "4").is_modified());
    assert!(o("1", "2", "3", "4").is_modified());
}

#[test]
fn default_transform_is_zero() {
    let t = Origin::default();
    assert_eq!(t.x, "0");
    assert_eq!(t.y, "0");
    assert_eq!(t.z, "0");
    assert_eq!(t.z_rot, "0");
    assert!(!t.is_modified());
}

#[test]
fn reset_zeroes_all_fields() {
    let mut t = o("1", "-2.5", "3", "4");
    t.reset();
    assert!(!t.is_modified());
    assert_eq!(t.x, "0");
    assert_eq!(t.z_rot, "0");
}

#[test]
fn class_names_match_path_segments() {
    for c in all_classes() {
        assert_eq!(c.to_string(), c.as_ref());
    }
}

#[test]
fn class_order_is_fixed() {
    let names: Vec<String> = all_classes().iter().map(|c| c.to_string()).collect();
    assert_eq!(
        names,
        vec![
            "Scout", "Soldier", "Pyro", "Demo", "Heavy", "Engineer", "Medic", "Sniper", "Spy"
        ]
    );
}

#[test]
fn default_class_is_scout() {
    assert!(Class::default() == Class::Scout);
}

#[test]
fn new_builds_one_folder_per_class_with_zero_transforms() {
    let sca = Sca::new(listings([
        &["Bat", "Pistol"],
        &["Shovel"],
        &[],
        &[],
        &[],
        &[],
        &[],
        &[],
        &["Knife"],
    ]));
    assert_eq!(sca.folders.len(), 9);
    assert!(sca.folders[0].class == Class::Scout);
    assert_eq!(sca.folders[0].animations.len(), 2);
    assert_eq!(sca.folders[0].animations[0].name, "Bat");
    assert_eq!(sca.folders[0].animations[1].name, "Pistol");
    assert!(!sca.folders[0].animations[0].origin.is_modified());
    assert!(sca.folders[8].class == Class::Spy);
    assert_eq!(sca.folders[8].animations[0].name, "Knife");
    assert_eq!(sca.folders[2].animations.len(), 0);
}

#[test]
fn nothing_is_selected_in_a_fresh_catalog() {
    let sca = Sca::new(listings([
        &["Bat"],
        &["Shovel"],
        &[],
        &[],
        &[],
        &[],
        &[],
        &[],
        &[],
    ]));
    assert!(sca.get_selected_classes().is_empty());
}

#[test]
fn reset_all_clears_every_selection() {
    let mut sca = Sca::new(listings([
        &["Bat", "Pistol"],
        &["Shovel"],
        &[],
        &[],
        &[],
        &[],
        &[],
        &[],
        &["Knife"],
    ]));
    sca.apply_to_all_origin(&o("1", "2", "3", "4"));
    assert!(!sca.get_selected_classes().is_empty());
    sca.reset_all_origin();
    assert!(sca.get_selected_classes().is_empty());
}

#[test]
fn apply_to_all_selects_every_variant() {
    let mut sca = Sca::new(listings([
        &["Bat", "Pistol"],
        &["Shovel"],
        &[],
        &[],
        &[],
        &[],
        &[],
        &[],
        &["Knife"],
    ]));
    sca.apply_to_all_origin(&o("0", "0", "1", "0"));
    let selected = sca.get_selected_classes();
    // only classes that have at least one variant can appear
    assert_eq!(selected.len(), 3);
    assert!(selected[0].class == Class::Scout);
    assert_eq!(selected[0].get_selected_animations().len(), 2);
    assert!(selected[1].class == Class::Soldier);
    assert!(selected[2].class == Class::Spy);
    assert_eq!(selected[2].get_selected_animations().len(), 1);
}

#[test]
fn reset_origin_resets_only_the_named_variant() {
    let mut sca = Sca::new(listings([
        &["Bat", "Pistol"],
        &["Shovel"],
        &[],
        &[],
        &[],
        &[],
        &[],
        &[],
        &[],
    ]));
    sca.apply_to_all_origin(&o("1", "2", "3", "4"));
    sca.reset_origin(&Class::Scout, &"Bat".to_owned());
    assert!(!sca.folders[0].animations[0].origin.is_modified());
    assert!(sca.folders[0].animations[1].origin.is_modified());
    assert!(sca.folders[1].animations[0].origin.is_modified());
}

#[test]
fn reset_origin_with_unknown_name_changes_nothing() {
    let mut sca = Sca::new(listings([
        &["Bat"],
        &[],
        &[],
        &[],
        &[],
        &[],
        &[],
        &[],
        &[],
    ]));
    sca.apply_to_all_origin(&o("5", "0", "0", "0"));
    sca.reset_origin(&Class::Scout, &"NoSuchAnimation".to_owned());
    assert!(sca.folders[0].animations[0].origin.is_modified());
}

#[test]
fn selected_animations_keep_folder_order() {
    let mut sca = Sca::new(listings([
        &["A", "B", "C"],
        &[],
        &[],
        &[],
        &[],
        &[],
        &[],
        &[],
        &[],
    ]));
    sca.folders[0].animations[0].origin = o("1", "0", "0", "0");
    sca.folders[0].animations[2].origin = o("0", "0", "0", "9");
    let sel = sca.folders[0].get_selected_animations();
    assert_eq!(sel.len(), 2);
    assert_eq!(sel[0].name, "A");
    assert_eq!(sel[1].name, "C");
}
