use wbs_desktop::dialog::{dialog_outcome, project_filter};

#[test]
fn cancelled_dialog_is_not_an_error() {
    assert_eq!(dialog_outcome(None), Ok(None));
}

#[test]
fn chosen_path_is_reported() {
    assert_eq!(
        dialog_outcome(Some("/home/me/plan.json".to_string())),
        Ok(Some("/home/me/plan.json".to_string()))
    );
}

#[test]
fn dialogs_offer_json_only() {
    let f = project_filter();
    assert_eq!(f.name, "JSON");
    assert_eq!(f.extensions, vec!["json".to_string()]);
}
