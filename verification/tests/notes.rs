use resume_mainframe::notes::{
    project_notes_file, skill_notes_file, NoteVersions, SaveNotesRequest,
};
use resume_mainframe::status::StatusCode;

fn request(text: &str, version: u64) -> SaveNotesRequest {
    SaveNotesRequest { text: text.to_string(), version }
}

#[test]
fn first_read_is_version_one() {
    let mut register = NoteVersions::new();
    let note = register.get_project_notes("p1", "radar", Some("hello".to_string()));
    assert_eq!(note.text, "hello");
    assert_eq!(note.version, 1);
    let note = register.get_skill_notes("7", Some("soldering".to_string()));
    assert_eq!(note.text, "soldering");
    assert_eq!(note.version, 1);
}

#[test]
fn missing_file_reads_as_empty() {
    let mut register = NoteVersions::new();
    assert_eq!(register.get_project_notes("p1", "radar", None).text, "");
    assert_eq!(register.get_skill_notes("7", None).text, "");
}

#[test]
fn files_and_keys() {
    assert_eq!(project_notes_file("p1", "radar"), "/root/Resume/project_notes/p1_radar.txt");
    assert_eq!(skill_notes_file("7"), "/root/Resume/skill_notes/7.txt");
    let mut register = NoteVersions::new();
    let write = register.save_project_notes("p1", "radar", request("x", 1)).ok().unwrap();
    assert_eq!(write.path, "/root/Resume/project_notes/p1_radar.txt");
    assert_eq!(write.key, "projects:p1:subproject:radar");
    assert_eq!(write.text, "x");
    assert_eq!(write.version, 1);
    let write = register.save_skill_notes("7", request("y", 1)).ok().unwrap();
    assert_eq!(write.path, "/root/Resume/skill_notes/7.txt");
    assert_eq!(write.key, "skills:7");
}

#[test]
fn written_save_moves_the_version_on() {
    let mut register = NoteVersions::new();
    let write = register.save_skill_notes("7", request("a", 1)).ok().unwrap();
    let response = register.record(&write, true).ok().unwrap();
    assert_eq!(response.new_version, 2);
    assert_eq!(register.get_skill_version("7").version, 2);
    assert_eq!(register.get_skill_notes("7", None).version, 2);
}

#[test]
fn second_save_at_the_same_version_conflicts() {
    let mut register = NoteVersions::new();
    let read = register.get_project_notes("p1", "radar", None).version;
    let write = register.save_project_notes("p1", "radar", request("mine", read)).ok().unwrap();
    assert!(register.record(&write, true).is_ok());
    let refused = register.save_project_notes("p1", "radar", request("theirs", read)).err();
    assert_eq!(refused, Some(StatusCode::Conflict));
    assert_eq!(register.get_project_notes("p1", "radar", None).version, 2);
}

#[test]
fn save_at_a_version_never_given_conflicts() {
    let mut register = NoteVersions::new();
    assert_eq!(
        register.save_skill_notes("7", request("a", 0)).err(),
        Some(StatusCode::Conflict)
    );
    assert_eq!(
        register.save_skill_notes("7", request("a", u64::MAX)).err(),
        Some(StatusCode::Conflict)
    );
    assert_eq!(register.get_skill_version("7").version, 1);
}

#[test]
fn unwritten_save_leaves_the_version() {
    let mut register = NoteVersions::new();
    let write = register.save_skill_notes("7", request("a", 1)).ok().unwrap();
    assert_eq!(
        register.record(&write, false).err(),
        Some(StatusCode::InternalServerError)
    );
    assert_eq!(register.get_skill_version("7").version, 1);
    assert!(register.save_skill_notes("7", request("b", 1)).is_ok());
}

#[test]
fn other_notes_keep_their_versions() {
    let mut register = NoteVersions::new();
    let write = register.save_project_notes("p1", "radar", request("a", 1)).ok().unwrap();
    assert!(register.record(&write, true).is_ok());
    assert_eq!(register.get_project_notes("p1", "sonar", None).version, 1);
    assert_eq!(register.get_project_notes("p2", "radar", None).version, 1);
    assert_eq!(register.get_skill_notes("p1", None).version, 1);
    assert_eq!(register.get_project_notes("p1", "radar", None).version, 2);
}

#[test]
fn version_counts_saves() {
    let mut register = NoteVersions::new();
    for round in 1..=5u64 {
        let write = register.save_skill_notes("7", request("a", round)).ok().unwrap();
        assert_eq!(register.record(&write, true).ok().unwrap().new_version, round + 1);
        assert!(register.save_skill_notes("7", request("b", round)).is_err());
    }
    assert_eq!(register.get_skill_version("7").version, 6);
}

#[test]
fn project_as_a_whole_has_its_own_version() {
    let mut register = NoteVersions::new();
    let write = register.save_project_notes("p1", "radar", request("a", 1)).ok().unwrap();
    assert!(register.record(&write, true).is_ok());
    assert_eq!(register.get_project_version("p1").version, 1);
    assert_eq!(register.get_project_version("p1:subproject:radar").version, 2);
}

#[test]
fn sub_projects_may_share_a_file() {
    assert_eq!(project_notes_file("a_b", "c"), project_notes_file("a", "b_c"));
    assert_ne!(project_notes_file("a", "b"), project_notes_file("a", "c"));
}

#[test]
fn ids_that_do_not_run_into_each_other_share_no_file() {
    assert_ne!(project_notes_file("a_b", "c"), project_notes_file("a_c", "c"));
    assert_ne!(project_notes_file("a_b", "c_d"), project_notes_file("b", "c_d"));
    assert_ne!(project_notes_file("p1", "x_y"), project_notes_file("p12", "y"));
}

#[test]
fn ids_that_run_into_each_other_share_a_version() {
    let mut register = NoteVersions::new();
    let write = register.save_project_notes("x", "y:subproject:z", request("a", 1)).ok().unwrap();
    assert!(register.record(&write, true).is_ok());
    assert_eq!(register.get_project_notes("x:subproject:y", "z", None).version, 2);
}
