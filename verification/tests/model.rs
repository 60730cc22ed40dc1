use rs_pwsafe::pwserrors::PwSafeError;
use tui_pwsafe::contracts::TuiPwSafeErrors;
use tui_pwsafe::model::{Entry, SafeModel};

fn entry(group: Option<&str>, title: Option<&str>, user: Option<&str>, pw: Option<&str>) -> Entry {
    Entry {
        group: group.map(|s| s.to_string()),
        title: title.map(|s| s.to_string()),
        username: user.map(|s| s.to_string()),
        password: pw.map(|s| s.to_string()),
    }
}

fn sample() -> Vec<Entry> {
    vec![
        entry(Some("Work"), Some("Mail"), Some("me@work"), Some("w1")),
        entry(Some("Personal"), Some("Bank"), Some("me"), Some("b1")),
        entry(None, Some("Loose"), None, None),
        entry(Some("Work"), Some("Wiki"), None, Some("w2")),
        entry(Some("Personal"), None, Some("ghost"), None),
    ]
}

#[test]
fn locked_model_is_empty() {
    let model = SafeModel::new();
    assert_eq!(model.len(), 0);
    assert!(model.groups().is_empty());
    assert!(model.by_group_name("Work").is_empty());
}

#[test]
fn unlock_takes_the_records() {
    let mut model = SafeModel::new();
    assert!(model.unlock(Ok(sample())).is_ok());
    assert_eq!(model.len(), 5);
}

#[test]
fn unlock_failure_leaves_the_model_and_names_the_failure() {
    let mut model = SafeModel::with_records(sample());
    let r = model.unlock(Err(PwSafeError::InvalidKey));
    assert!(matches!(r, Err(TuiPwSafeErrors::StoreFileNotRead)));
    assert_eq!(model.len(), 5);
    let r = model.unlock(Err(PwSafeError::FileNotFound));
    assert!(matches!(r, Err(TuiPwSafeErrors::StoreFileNotFound)));
    let r = model.unlock(Err(PwSafeError::InvalidSignature));
    assert!(matches!(r, Err(TuiPwSafeErrors::UnknownError(PwSafeError::InvalidSignature))));
    assert_eq!(model.len(), 5);
}

#[test]
fn groups_lists_each_group_once() {
    let model = SafeModel::with_records(sample());
    assert_eq!(model.groups(), vec!["Work".to_string(), "Personal".to_string()]);
}

#[test]
fn by_group_name_keeps_store_order() {
    let model = SafeModel::with_records(sample());
    let work = model.by_group_name("Work");
    assert_eq!(work.len(), 2);
    assert_eq!(work[0].title.as_deref(), Some("Mail"));
    assert_eq!(work[0].username.as_deref(), Some("me@work"));
    assert_eq!(work[0].password.as_deref(), Some("w1"));
    assert_eq!(work[1].title.as_deref(), Some("Wiki"));
    assert_eq!(work[1].username, None);
    let personal = model.by_group_name("Personal");
    assert_eq!(personal.len(), 2);
    assert_eq!(personal[1].title, None);
    assert!(model.by_group_name("work").is_empty());
    assert!(model.by_group_name("").is_empty());
}

#[test]
fn duplicate_copies_every_field() {
    let e = entry(Some("g"), Some("t"), None, Some("p"));
    let d = e.duplicate();
    assert_eq!(d.group.as_deref(), Some("g"));
    assert_eq!(d.title.as_deref(), Some("t"));
    assert_eq!(d.username, None);
    assert_eq!(d.password.as_deref(), Some("p"));
}
