use photosync::job::Mode;
use photosync::ui::{Model, Msg, UpdateEffect};

#[test]
fn default_model_matches_the_initial_window() {
    let m = Model::default();
    assert!(m.source_path.is_none());
    assert!(m.destination_path.is_none());
    assert!(m.group_by_creation_date);
    assert!(m.copy);
    assert!(m.recursive);
    assert_eq!(m.date_format.as_str(), "%Y-%m-%d");
}

#[test]
fn update_stores_the_selected_paths() {
    let mut m = Model::default();
    let e = m.update(Msg::SourcePathSelected(String::from("/photos")));
    assert_eq!(e, UpdateEffect::Nothing);
    let e = m.update(Msg::DestinationPathSelected(String::from("/sorted")));
    assert_eq!(e, UpdateEffect::Nothing);
    assert_eq!(m.source_path.as_deref(), Some("/photos"));
    assert_eq!(m.destination_path.as_deref(), Some("/sorted"));
}

#[test]
fn update_toggles_the_flags_and_the_format() {
    let mut m = Model::default();
    m.update(Msg::UpdateGroupByCreationDate(false));
    m.update(Msg::UpdateRecursive(false));
    m.update(Msg::UpdateCopy(false));
    m.update(Msg::UpdateDateFormat(String::from("%Y")));
    assert!(!m.group_by_creation_date);
    assert!(!m.recursive);
    assert!(!m.copy);
    assert_eq!(m.date_format.as_str(), "%Y");
}

#[test]
fn update_reports_the_effects() {
    let mut m = Model::default();
    assert_eq!(m.update(Msg::OpenSourcePicker), UpdateEffect::OpenSourcePicker);
    assert_eq!(m.update(Msg::OpenDestinationPicker), UpdateEffect::OpenDestinationPicker);
    assert_eq!(m.update(Msg::MoveFiles), UpdateEffect::RunTransfer);
    assert_eq!(m.update(Msg::Quit), UpdateEffect::Quit);
}

#[test]
fn to_job_requires_both_roots() {
    let mut m = Model::default();
    assert!(m.to_job().is_none());
    m.update(Msg::SourcePathSelected(String::from("/photos")));
    assert!(m.to_job().is_none());
    m.update(Msg::DestinationPathSelected(String::from("/sorted")));
    let j = m.to_job().expect("both roots are set");
    assert_eq!(j.source_root.as_str(), "/photos");
    assert_eq!(j.destination_root.as_str(), "/sorted");
    assert!(j.recursive);
    assert!(j.group_by_creation_date);
    assert_eq!(j.date_format.as_str(), "%Y-%m-%d");
    assert_eq!(j.mode, Mode::Copy);
}

#[test]
fn to_job_takes_move_mode_from_the_copy_flag() {
    let mut m = Model::default();
    m.update(Msg::SourcePathSelected(String::from("/photos")));
    m.update(Msg::DestinationPathSelected(String::from("/sorted")));
    m.update(Msg::UpdateCopy(false));
    let j = m.to_job().expect("both roots are set");
    assert_eq!(j.mode, Mode::Move);
}
