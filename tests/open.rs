use note::config::{config_location, config_location_in, NoteConfig};
use note::date::CalendarDate;
use note::error::ErrorKind;
use note::kind::NoteKind;
use note::service::{handle_note, plan_open, InstantiateFault, Step};
use note::store::NoteStore;

fn configured(root: &str, editor: &str) -> NoteConfig {
    NoteConfig {
        data_location: Some(root.to_string()),
        editor: Some(editor.to_string()),
    }
}

fn day(y: i32, m: u32, d: u32) -> CalendarDate {
    CalendarDate::new(y, m, d).unwrap()
}

fn with_templates() -> NoteStore {
    let mut s = NoteStore::new();
    s.write("/notes/template/day.md".to_string(), "# Day\n- [ ] \n".to_string());
    s.write("/notes/template/week.md".to_string(), "# Week\n".to_string());
    s.write("/notes/template/month.md".to_string(), "# Month\n".to_string());
    s
}

#[test]
fn new_day_note_equals_template() {
    let mut s = with_templates();
    let cfg = configured("/notes", "vim");
    let req = handle_note(&mut s, NoteKind::Day, &cfg, day(2024, 1, 3)).unwrap();
    assert_eq!(req.editor, "vim");
    assert_eq!(req.path, "/notes/2024/01/03/day.md");
    assert_eq!(
        s.read(&"/notes/2024/01/03/day.md".to_string()).unwrap(),
        "# Day\n- [ ] \n"
    );
}

#[test]
fn second_open_does_not_reinstantiate() {
    let mut s = with_templates();
    let cfg = configured("/notes", "vim");
    let target = "/notes/2024/03/07/day.md".to_string();
    handle_note(&mut s, NoteKind::Day, &cfg, day(2024, 3, 7)).unwrap();
    s.write(target.clone(), "edited".to_string());
    s.write("/notes/template/day.md".to_string(), "changed template".to_string());
    let req = handle_note(&mut s, NoteKind::Day, &cfg, day(2024, 3, 7)).unwrap();
    assert_eq!(req.path, target);
    assert_eq!(s.read(&target).unwrap(), "edited");
}

#[test]
fn missing_index_is_not_created() {
    let mut s = with_templates();
    let cfg = configured("/notes", "vim");
    let e = handle_note(&mut s, NoteKind::Index, &cfg, day(2024, 3, 7)).unwrap_err();
    assert_eq!(e.kind, ErrorKind::FileNotFound);
    assert_eq!(e.subject, "/notes/2024/index.md");
    assert!(!s.contains(&"/notes/2024/index.md".to_string()));
}

#[test]
fn existing_index_is_opened() {
    let mut s = with_templates();
    s.write("/notes/2024/index.md".to_string(), "links".to_string());
    let cfg = configured("/notes", "nano");
    let req = handle_note(&mut s, NoteKind::Index, &cfg, day(2024, 3, 7)).unwrap();
    assert_eq!(req.editor, "nano");
    assert_eq!(req.path, "/notes/2024/index.md");
    assert_eq!(s.read(&req.path).unwrap(), "links");
}

#[test]
fn month_note_scenario() {
    let mut s = with_templates();
    let cfg = configured("/notes", "vim");
    let req = handle_note(&mut s, NoteKind::Month, &cfg, day(2024, 3, 7)).unwrap();
    assert_eq!(req.path, "/notes/2024/03/month.md");
    assert_eq!(s.read(&req.path).unwrap(), "# Month\n");
    let week = handle_note(&mut s, NoteKind::Week, &cfg, day(2024, 3, 20)).unwrap();
    assert_eq!(week.path, "/notes/2024/03/week.md");
    assert_eq!(s.read(&week.path).unwrap(), "# Week\n");
    assert_eq!(s.read(&req.path).unwrap(), "# Month\n");
}

#[test]
fn missing_template_is_reported() {
    let mut s = NoteStore::new();
    let cfg = configured("/notes", "vim");
    let e = handle_note(&mut s, NoteKind::Week, &cfg, day(2024, 3, 7)).unwrap_err();
    assert_eq!(e.kind, ErrorKind::TemplateUnreadable);
    assert_eq!(e.subject, "/notes/template/week.md");
    assert!(!s.contains(&"/notes/2024/03/week.md".to_string()));
}

#[test]
fn missing_settings_are_reported() {
    let mut s = with_templates();
    let no_root = NoteConfig { data_location: None, editor: Some("vim".to_string()) };
    let e = handle_note(&mut s, NoteKind::Day, &no_root, day(2024, 3, 7)).unwrap_err();
    assert_eq!(e.kind, ErrorKind::ConfigurationMissing);
    assert_eq!(e.subject, "data_location");
    let no_editor = NoteConfig { data_location: Some("/notes".to_string()), editor: None };
    let e = handle_note(&mut s, NoteKind::Day, &no_editor, day(2024, 3, 7)).unwrap_err();
    assert_eq!(e.kind, ErrorKind::ConfigurationMissing);
    assert_eq!(e.subject, "editor");
    let e = plan_open(NoteKind::Index, &NoteConfig::empty(), day(2024, 3, 7)).unwrap_err();
    assert_eq!(e.subject, "data_location");
    assert!(!s.contains(&"/notes/2024/03/07/day.md".to_string()));
}

#[test]
fn steps_of_an_open() {
    let cfg = configured("/notes", "vim");
    let plan = plan_open(NoteKind::Day, &cfg, day(2024, 3, 7)).unwrap();
    assert_eq!(plan.target, "/notes/2024/03/07/day.md");
    assert_eq!(plan.template.as_deref(), Some("/notes/template/day.md"));
    match plan.next_step(true) {
        Step::Launch(req) => assert_eq!(req.path, "/notes/2024/03/07/day.md"),
        _ => panic!("expected a launch"),
    }
    match plan.next_step(false) {
        Step::Instantiate { template, target } => {
            assert_eq!(template, "/notes/template/day.md");
            assert_eq!(target, "/notes/2024/03/07/day.md");
        }
        _ => panic!("expected an instantiation"),
    }
    let req = plan.after_instantiation(None).unwrap();
    assert_eq!(req.editor, "vim");
    let e = plan.after_instantiation(Some(InstantiateFault::TemplateUnreadable)).unwrap_err();
    assert_eq!((e.kind, e.subject.as_str()), (ErrorKind::TemplateUnreadable, "/notes/template/day.md"));
    let e = plan.after_instantiation(Some(InstantiateFault::DirectoryCreateFailed)).unwrap_err();
    assert_eq!((e.kind, e.subject.as_str()), (ErrorKind::DirectoryCreateFailed, "/notes/2024/03/07/day.md"));
    let e = plan.after_instantiation(Some(InstantiateFault::WriteFailed)).unwrap_err();
    assert_eq!((e.kind, e.subject.as_str()), (ErrorKind::WriteFailed, "/notes/2024/03/07/day.md"));
    let e = req.launch_failed();
    assert_eq!((e.kind, e.subject.as_str()), (ErrorKind::EditorLaunchFailed, "vim"));
}

#[test]
fn index_step_without_file_fails() {
    let cfg = configured("/notes", "vim");
    let plan = plan_open(NoteKind::Index, &cfg, day(2024, 3, 7)).unwrap();
    assert!(plan.template.is_none());
    match plan.next_step(false) {
        Step::Fail(e) => {
            assert_eq!(e.kind, ErrorKind::FileNotFound);
            assert_eq!(e.subject, "/notes/2024/index.md");
        }
        _ => panic!("expected a failure"),
    }
}

#[test]
fn partial_config_update_keeps_root() {
    let mut cfg = configured("/a", "E1");
    cfg.update(None, Some("E2".to_string()));
    assert_eq!(cfg.data_location.as_deref(), Some("/a"));
    assert_eq!(cfg.editor.as_deref(), Some("E2"));
    cfg.update(Some("/b".to_string()), None);
    assert_eq!(cfg.data_location.as_deref(), Some("/b"));
    assert_eq!(cfg.editor.as_deref(), Some("E2"));
}

#[test]
fn first_config_update_leaves_other_empty() {
    let mut cfg = NoteConfig::default();
    cfg.update(Some("/notes".to_string()), None);
    assert_eq!(cfg.data_location.as_deref(), Some("/notes"));
    assert!(cfg.editor.is_none());
}

#[test]
fn config_file_location() {
    let loc = config_location_in("/home/a/.config");
    assert_eq!(loc.directory, "/home/a/.config/note");
    assert_eq!(loc.file, "/home/a/.config/note/noterc");
    if let Some(loc) = config_location() {
        assert!(loc.file.ends_with("/note/noterc"));
    }
}

#[test]
fn store_reads_latest_write() {
    let mut s = NoteStore::new();
    let p = "/x".to_string();
    assert!(s.read(&p).is_none());
    s.write(p.clone(), "1".to_string());
    s.write("/y".to_string(), "2".to_string());
    s.write(p.clone(), "3".to_string());
    assert_eq!(s.read(&p).unwrap(), "3");
    assert_eq!(s.read(&"/y".to_string()).unwrap(), "2");
}

#[test]
fn missing_index_without_editor_creates_nothing() {
    let mut s = with_templates();
    let cfg = NoteConfig { data_location: Some("/notes".to_string()), editor: None };
    let e = handle_note(&mut s, NoteKind::Index, &cfg, day(2024, 3, 7)).unwrap_err();
    assert_eq!(e.kind, ErrorKind::ConfigurationMissing);
    assert_eq!(e.subject, "editor");
    assert!(!s.contains(&"/notes/2024/index.md".to_string()));
}
