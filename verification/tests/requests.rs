use resume_mainframe::edits::{
    get_experiences, get_password, get_profile, get_projects, get_skills, get_subprojects,
    get_user_password, logon, logon_reply, new_subproject_reply, new_subprojects, password_reply,
    profile_reply, projects_reply, skills_reply, experiences_reply, subprojects_reply,
    update_experiences, update_password, update_profile, update_projects, update_reply,
    update_skills,
};
use resume_mainframe::records::{
    Analytics, EditQuery, Experience, NewSubProjectQuery, Profile, Project, SearchParams,
    SearchProfile, Skill, SubProject, SubProjectQuery, User,
};
use resume_mainframe::rows::{ExperienceRow, ProjectRow, SkillRow};
use resume_mainframe::saves::{
    experience_statement, init_db, project_statement, save_analytics, save_experience,
    save_profile, save_project, save_skill, save_user, skill_statement,
};
use resume_mainframe::search::{search_profiles, search_reply};
use resume_mainframe::status::StatusCode;
use resume_mainframe::store::{Statement, StoreError, Value};

fn values(statement: &Statement) -> Vec<String> {
    statement
        .binds
        .iter()
        .map(|value| match value {
            Value::Text(text) => text.clone(),
            Value::U8(n) => format!("u8 {}", n),
            Value::U32(n) => format!("u32 {}", n),
            Value::F32Bits(bits) => format!("f32 {}", f32::from_bits(*bits)),
        })
        .collect()
}

fn squeezed(statement: &Statement) -> String {
    statement.sql.split_whitespace().collect::<Vec<&str>>().join(" ")
}

fn user(handle: &str, password: &str) -> User {
    User { profile_handle: handle.to_string(), password: password.to_string() }
}

fn profile() -> Profile {
    Profile {
        picture: "pic".to_string(),
        handle: "h".to_string(),
        name: "n".to_string(),
        title: "t".to_string(),
        location: "l".to_string(),
        summary: "s".to_string(),
    }
}

fn skill() -> Skill {
    Skill {
        id: "1".to_string(),
        profile_handle: "own".to_string(),
        name: "rust".to_string(),
        category: "Kernel".to_string(),
        score: 98,
        links: vec!["li\"nux".to_string(), "axum".to_string()],
    }
}

fn experience() -> Experience {
    Experience {
        id: "e".to_string(),
        profile_handle: "own".to_string(),
        role: "r".to_string(),
        organization: "o".to_string(),
        years_bits: 4.5f32.to_bits(),
        summary: "s".to_string(),
        achievements: vec!["a\nb".to_string()],
        skills: Vec::new(),
    }
}

fn project() -> Project {
    Project {
        id: "p".to_string(),
        profile_handle: "own".to_string(),
        name: "n".to_string(),
        impact: 7,
        description: "d".to_string(),
        technologies: vec!["RUST".to_string()],
    }
}

fn database_error() -> StoreError {
    StoreError::Database("disk full".to_string())
}

fn query(handle: &str) -> EditQuery {
    EditQuery { profile_handle: handle.to_string() }
}

#[test]
fn status_numbers() {
    assert_eq!(StatusCode::Success.as_u16(), 200);
    assert_eq!(StatusCode::Unauthorized.as_u16(), 401);
    assert_eq!(StatusCode::NotFound.as_u16(), 404);
    assert_eq!(StatusCode::Conflict.as_u16(), 409);
    assert_eq!(StatusCode::InternalServerError.as_u16(), 500);
}

#[test]
fn search_strips_at_signs_and_matches_anywhere() {
    let statement = search_profiles(&SearchParams { q: "@N3_@op".to_string() });
    assert_eq!(values(&statement), vec!["%N3_op%", "%N3_op%", "%N3_op%"]);
    assert_eq!(
        squeezed(&statement),
        "SELECT handle, name, title FROM profiles WHERE handle LIKE ? OR name LIKE ? OR title LIKE ? LIMIT 2"
    );
}

#[test]
fn search_for_nothing_matches_everything() {
    assert_eq!(values(&search_profiles(&SearchParams { q: "".to_string() }))[0], "%%");
    assert_eq!(values(&search_profiles(&SearchParams { q: "@@@".to_string() }))[0], "%%");
}

#[test]
fn search_pattern_with_and_without_at_sign_agree() {
    let with = search_profiles(&SearchParams { q: "@né".to_string() });
    let without = search_profiles(&SearchParams { q: "né".to_string() });
    assert_eq!(values(&with), values(&without));
    assert_eq!(values(&with)[1], "%né%");
}

#[test]
fn search_replies() {
    let found = vec![SearchProfile {
        handle: "h".to_string(),
        name: Some("n".to_string()),
        title: None,
    }];
    let answer = search_reply(Ok(found)).ok().unwrap();
    assert_eq!(answer.len(), 1);
    assert_eq!(answer[0].handle, "h");
    assert_eq!(answer[0].name, Some("n".to_string()));
    assert_eq!(answer[0].title, None);
    assert_eq!(
        search_reply(Err(database_error())).err(),
        Some((StatusCode::InternalServerError, "REGISTRY CORE FAIL".to_string()))
    );
}

#[test]
fn schema_has_no_placeholders() {
    let statement = init_db();
    assert!(statement.binds.is_empty());
    assert!(!statement.sql.contains('?'));
    assert_eq!(statement.sql.matches("CREATE TABLE IF NOT EXISTS").count(), 7);
}

#[test]
fn every_placeholder_has_a_value() {
    let statements = vec![
        search_profiles(&SearchParams { q: "q".to_string() }),
        save_user(&user("h", "p")),
        save_profile(&profile()),
        save_skill("h", &skill()).ok().unwrap(),
        save_experience("h", &experience()).ok().unwrap(),
        save_project("h", &project()).ok().unwrap(),
        get_password(&query("h")),
        get_profile(&query("h")),
        get_skills(&query("h")),
        get_projects(&query("h")),
        get_experiences(&query("h")),
    ];
    for statement in statements {
        assert_eq!(statement.sql.matches('?').count(), statement.binds.len());
    }
}

#[test]
fn users_are_saved_under_their_handle() {
    let statement = save_user(&user("h", "secret"));
    assert_eq!(values(&statement), vec!["h", "secret"]);
    assert!(squeezed(&statement).starts_with("INSERT INTO users (profile_handle, password) VALUES (?, ?) ON CONFLICT(profile_handle) DO UPDATE SET"));
}

#[test]
fn profiles_are_saved_in_the_order_of_their_columns() {
    assert_eq!(values(&save_profile(&profile())), vec!["h", "n", "t", "l", "s", "pic"]);
}

#[test]
fn analytics_are_saved_in_the_order_of_their_columns() {
    let figures = Analytics {
        id: "h".to_string(),
        leadership: 1,
        technical_depth: 2,
        automation_index: 3,
        transferability: 4,
        innovation: 5,
        neural_load: u32::MAX,
    };
    assert_eq!(
        values(&save_analytics(&figures)),
        vec!["h", "u32 1", "u32 2", "u32 3", "u32 4", "u32 5", "u32 4294967295"]
    );
}

#[test]
fn skills_are_saved_for_the_handle_given() {
    let statement = save_skill("given", &skill()).ok().unwrap();
    assert_eq!(
        values(&statement),
        vec!["1", "given", "rust", "Kernel", "u8 98", "[\"li\\\"nux\",\"axum\"]"]
    );
}

#[test]
fn experiences_are_saved_for_the_handle_given() {
    let statement = save_experience("given", &experience()).ok().unwrap();
    assert_eq!(
        values(&statement),
        vec!["e", "given", "r", "o", "f32 4.5", "s", "[\"a\\nb\"]", "[]"]
    );
}

#[test]
fn projects_are_saved_for_the_handle_given() {
    let statement = save_project("given", &project()).ok().unwrap();
    assert_eq!(values(&statement), vec!["p", "given", "n", "u8 7", "d", "[\"RUST\"]"]);
}

#[test]
fn lists_that_cannot_be_written_are_protocol_errors() {
    let error = skill_statement("h", &skill(), Err("bad links".to_string())).err().unwrap();
    assert_eq!(error.text(), "encountered unexpected or invalid data: bad links");
    let error = experience_statement(
        "h",
        &experience(),
        Err("bad achievements".to_string()),
        Err("bad skills".to_string()),
    )
    .err()
    .unwrap();
    assert_eq!(error.text(), "encountered unexpected or invalid data: bad achievements");
    let error = experience_statement("h", &experience(), Ok("[]".to_string()), Err("x".to_string()))
        .err()
        .unwrap();
    assert_eq!(error.text(), "encountered unexpected or invalid data: x");
    let error = project_statement("h", &project(), Err("y".to_string())).err().unwrap();
    assert_eq!(error.clone().text(), "encountered unexpected or invalid data: y");
    assert_eq!(database_error().text(), "disk full");
}

#[test]
fn passwords_are_read_by_handle() {
    let statement = get_user_password("h");
    assert_eq!(statement.sql, "SELECT * FROM users WHERE profile_handle = ?");
    assert_eq!(values(&statement), vec!["h"]);
    assert_eq!(values(&get_password(&query("g"))), vec!["g"]);
    let found = password_reply(Ok(user("h", "p"))).ok().unwrap();
    assert_eq!(found.profile_handle, "h");
    assert_eq!(found.password, "p");
    assert_eq!(password_reply(Err(database_error())).err(), Some(StatusCode::NotFound));
}

#[test]
fn profiles_are_read_by_handle() {
    assert_eq!(
        squeezed(&get_profile(&query("h"))),
        "SELECT handle, name, title, location, summary, picture FROM profiles WHERE handle = ?"
    );
    assert_eq!(profile_reply(Ok(profile())).ok().unwrap().name, "n");
    assert_eq!(profile_reply(Err(database_error())).err(), Some(StatusCode::NotFound));
}

#[test]
fn rows_of_skills_are_read() {
    let row = |links: &str| SkillRow {
        id: "1".to_string(),
        profile_handle: "h".to_string(),
        name: "rust".to_string(),
        category: "Kernel".to_string(),
        score: 98,
        links: links.to_string(),
    };
    assert_eq!(values(&get_skills(&query("h"))), vec!["h"]);
    let skills = skills_reply(Ok(vec![row("[]"), row("[\"a\", \"\\u00e9\"]")])).ok().unwrap();
    assert_eq!(skills.len(), 2);
    assert!(skills[0].links.is_empty());
    assert_eq!(skills[1].links, vec!["a".to_string(), "é".to_string()]);
    assert_eq!(skills[1].score, 98);
    assert_eq!(
        skills_reply(Ok(vec![row("[]"), row("nonsense")])).err(),
        Some(StatusCode::NotFound)
    );
    assert_eq!(skills_reply(Ok(vec![row("[1]")])).err(), Some(StatusCode::NotFound));
    assert_eq!(skills_reply(Err(database_error())).err(), Some(StatusCode::NotFound));
    assert!(skills_reply(Ok(Vec::new())).ok().unwrap().is_empty());
}

#[test]
fn rows_of_projects_are_read() {
    let row = |technologies: &str| ProjectRow {
        id: "p".to_string(),
        profile_handle: "h".to_string(),
        name: "n".to_string(),
        impact: 9,
        description: "d".to_string(),
        technologies: technologies.to_string(),
    };
    assert_eq!(values(&get_projects(&query("h"))), vec!["h"]);
    let projects = projects_reply(Ok(vec![row("[\"RUST\"]")])).ok().unwrap();
    assert_eq!(projects[0].technologies, vec!["RUST".to_string()]);
    assert_eq!(projects[0].impact, 9);
    assert_eq!(projects_reply(Ok(vec![row("")])).err(), Some(StatusCode::NotFound));
    assert_eq!(projects_reply(Err(database_error())).err(), Some(StatusCode::NotFound));
}

#[test]
fn rows_of_experiences_are_read() {
    let row = |achievements: &str, skills: &str| ExperienceRow {
        id: "e".to_string(),
        profile_handle: "h".to_string(),
        role: "r".to_string(),
        organization: "o".to_string(),
        years_bits: 3.2f32.to_bits(),
        summary: "s".to_string(),
        achievements: achievements.to_string(),
        skills: skills.to_string(),
    };
    assert_eq!(values(&get_experiences(&query("h"))), vec!["h"]);
    let read = experiences_reply(Ok(vec![row("[\"a\"]", "[\"b\",\"c\"]")])).ok().unwrap();
    assert_eq!(read[0].achievements, vec!["a".to_string()]);
    assert_eq!(read[0].skills, vec!["b".to_string(), "c".to_string()]);
    assert_eq!(f32::from_bits(read[0].years_bits), 3.2);
    assert_eq!(experiences_reply(Ok(vec![row("[]", "{")])).err(), Some(StatusCode::NotFound));
    assert_eq!(experiences_reply(Ok(vec![row("{", "[]")])).err(), Some(StatusCode::NotFound));
    assert_eq!(experiences_reply(Err(database_error())).err(), Some(StatusCode::NotFound));
}

#[test]
fn sub_projects_are_read_and_added() {
    let params = SubProjectQuery { project_id: "p".to_string(), profile_handle: "h".to_string() };
    let statement = get_subprojects(&params);
    assert_eq!(values(&statement), vec!["p", "h"]);
    assert!(squeezed(&statement).ends_with("ORDER BY display_order ASC, id ASC"));
    let payload = NewSubProjectQuery {
        project_id: "p".to_string(),
        project_name: "AEGIS".to_string(),
        profile_handle: "h".to_string(),
        subproject_name: "radar".to_string(),
        subproject_category: "c".to_string(),
    };
    assert_eq!(values(&new_subprojects(&payload)), vec!["p", "AEGIS", "h", "radar", "c"]);
    let item = || SubProject {
        id: 1,
        project_id: "p".to_string(),
        project_name: "AEGIS".to_string(),
        profile_handle: "h".to_string(),
        subproject_name: "radar".to_string(),
        subproject_category: "c".to_string(),
        display_order: 0,
    };
    assert_eq!(subprojects_reply(Ok(vec![item()])).ok().unwrap()[0].subproject_name, "radar");
    assert_eq!(new_subproject_reply(Ok(item())).ok().unwrap().id, 1);
    assert_eq!(
        subprojects_reply(Err(database_error())).err(),
        Some(StatusCode::InternalServerError)
    );
    assert_eq!(
        new_subproject_reply(Err(database_error())).err(),
        Some(StatusCode::InternalServerError)
    );
}

#[test]
fn logon_with_the_password_succeeds() {
    assert_eq!(values(&logon(&user("h", "p"))), vec!["h"]);
    assert_eq!(logon_reply(&user("h", "p"), Ok(user("h", "p"))), Ok(StatusCode::Success));
}

#[test]
fn logon_with_another_password_is_refused() {
    assert_eq!(
        logon_reply(&user("h", "P"), Ok(user("h", "p"))),
        Err((
            StatusCode::Unauthorized,
            "[ LOGIN FAILED ]: Invalid designation (password mismatch).".to_string()
        ))
    );
}

#[test]
fn logon_with_an_unknown_handle_is_refused() {
    assert_eq!(
        logon_reply(&user("h", "p"), Err(database_error())),
        Err((
            StatusCode::NotFound,
            "[ LOGIN FAILED ]: Target handle not found in registry.".to_string()
        ))
    );
}

#[test]
fn changed_password_is_asked_for() {
    let statement = update_password(&user("h", "new"));
    assert_eq!(values(&statement), vec!["h", "new"]);
    let stored = user(&values(&statement)[0], &values(&statement)[1]);
    assert!(logon_reply(&user("h", "new"), Ok(stored.clone())).is_ok());
    assert!(logon_reply(&user("h", "old"), Ok(stored)).is_err());
}

#[test]
fn updates_save_for_the_handle_named() {
    assert_eq!(values(&update_profile(&profile()))[0], "h");
    assert_eq!(values(&update_skills(&skill()).ok().unwrap())[1], "own");
    assert_eq!(values(&update_projects(&project()).ok().unwrap())[1], "own");
    assert_eq!(values(&update_experiences(&experience()).ok().unwrap())[1], "own");
}

#[test]
fn update_replies() {
    assert_eq!(update_reply(Ok(())), Ok(StatusCode::Success));
    assert_eq!(
        update_reply(Err(database_error())),
        Err((
            StatusCode::InternalServerError,
            "[ DATABASE TRANSACTION CORRUPTED ]: disk full".to_string()
        ))
    );
    assert_eq!(
        update_reply(Err(StoreError::Protocol("bad".to_string()))),
        Err((
            StatusCode::InternalServerError,
            "[ DATABASE TRANSACTION CORRUPTED ]: encountered unexpected or invalid data: bad"
                .to_string()
        ))
    );
}
