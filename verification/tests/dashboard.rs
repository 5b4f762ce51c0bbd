use resume_mainframe::dashboard::{
    dashboard, dashboard_lookup, fetch_dashboard_for_handle, fetched_dashboard, fetched_reply,
    handle_uplink, seeded_reply, uplink_notice, uplink_reply, DashboardPlan, FullResumeUplink,
};
use resume_mainframe::records::{Analytics, DashboardQuery, Profile, Skill};
use resume_mainframe::rows::{ExperienceRow, SkillRow};
use resume_mainframe::runs::SaveRun;
use resume_mainframe::seed::{analytics_matrix, seed_data, technical_depth};
use resume_mainframe::status::StatusCode;
use resume_mainframe::store::{StoreError, Value};

fn text(value: &Value) -> String {
    match value {
        Value::Text(text) => text.clone(),
        Value::U8(n) => format!("{}", n),
        Value::U32(n) => format!("{}", n),
        Value::F32Bits(bits) => format!("{}", f32::from_bits(*bits)),
    }
}

fn table(sql: &str) -> String {
    sql.split_whitespace().nth(2).unwrap().to_string()
}

/// Executes a run whose statements fail where told; gives the tables, keys and
/// handles that were written to, and what was reported.
fn execute(run: &mut SaveRun, fails: impl Fn(usize) -> bool) -> (Vec<(String, String, String)>, Vec<String>) {
    let mut tried = Vec::new();
    let mut reports = Vec::new();
    while let Some(statement) = run.next_statement() {
        let at = tried.len();
        tried.push((
            table(statement.sql),
            text(&statement.binds[0]),
            text(&statement.binds[1]),
        ));
        reports.extend(run.record(!fails(at)));
    }
    (tried, reports)
}

fn asked(handle: &str) -> DashboardQuery {
    DashboardQuery { handle: handle.to_string() }
}

fn refused() -> StoreError {
    StoreError::Database("locked".to_string())
}

fn seeding(handle: &str) -> SaveRun {
    match dashboard(&seed_data(), &asked(handle), Ok(Vec::new())) {
        DashboardPlan::Seed(run) => run,
        _ => panic!("an unknown handle is seeded"),
    }
}

#[test]
fn lookup_asks_for_the_handle() {
    let statement = dashboard_lookup(&asked("h"));
    assert_eq!(statement.sql, "SELECT * FROM profiles WHERE handle = ?");
    assert_eq!(text(&statement.binds[0]), "h");
}

#[test]
fn failed_lookup_fails_the_request() {
    match dashboard(&seed_data(), &asked("h"), Err(refused())) {
        DashboardPlan::Fail(status) => assert_eq!(status, StatusCode::InternalServerError),
        _ => panic!("there is no dashboard"),
    }
}

#[test]
fn known_handle_is_read() {
    let seed = seed_data();
    let known = vec![seed.profiles[0].clone()];
    match dashboard(&seed, &asked("N3_operative_001"), Ok(known)) {
        DashboardPlan::Fetch(fetch) => assert_eq!(fetch.handle, "N3_operative_001"),
        _ => panic!("a known handle is read"),
    }
}

#[test]
fn unknown_handle_is_seeded_in_order() {
    let mut run = seeding("visitor");
    let (tried, reports) = execute(&mut run, |_| false);
    assert_eq!(tried.len(), 1 + 1 + 21 + 3 + 4 + 1);
    assert_eq!(tried[0], ("users".to_string(), "N3_operative_001".to_string(), "admin".to_string()));
    assert_eq!(tried[1].0, "profiles");
    assert_eq!(tried[1].1, "N3_operative_001");
    assert_eq!(tried[2], ("skills".to_string(), "1".to_string(), "visitor".to_string()));
    assert_eq!(tried[22], ("skills".to_string(), "21".to_string(), "visitor".to_string()));
    assert_eq!(tried[23], ("experiences".to_string(), "exp_01".to_string(), "visitor".to_string()));
    assert_eq!(tried[26], ("projects".to_string(), "p1".to_string(), "visitor".to_string()));
    assert_eq!(tried[30], ("analytics".to_string(), "N3_operative_001".to_string(), "91".to_string()));
    assert!(reports.is_empty());
    assert!(!run.is_aborted());
    let seed = seed_data();
    let shown = seeded_reply(&seed, &run).ok().unwrap();
    assert_eq!(shown.profiles.len(), 1);
    assert_eq!(shown.skills.len(), 1);
    assert_eq!(shown.skills[0].len(), 21);
    assert_eq!(shown.skills[0][0].profile_handle, "N3_operative_001");
    assert_eq!(shown.experiences[0].len(), 3);
    assert_eq!(shown.projects[0].len(), 4);
    assert_eq!(shown.analytics[0].technical_depth, 93);
}

#[test]
fn seeding_passes_over_users_and_profiles() {
    let mut run = seeding("visitor");
    let (tried, reports) = execute(&mut run, |at| at < 2);
    assert_eq!(tried.len(), 31);
    assert_eq!(
        reports,
        vec!["Failed to save user N3_operative_001", "Failed to save profile N3_operative_001"]
    );
    assert!(seeded_reply(&seed_data(), &run).is_ok());
}

#[test]
fn seeding_ends_at_the_first_other_failure() {
    for failing in 2..31usize {
        let mut run = seeding("visitor");
        let (tried, reports) = execute(&mut run, |at| at == failing);
        assert_eq!(tried.len(), failing + 1);
        assert!(reports.is_empty());
        assert!(run.is_aborted());
        assert!(run.next_statement().is_none());
        assert_eq!(run.record(true), None);
        assert!(run.is_aborted());
        assert_eq!(
            seeded_reply(&seed_data(), &run).err(),
            Some(StatusCode::InternalServerError)
        );
    }
}

#[test]
fn dashboard_is_read_in_stages() {
    let profile = seed_data().profiles[0].clone();
    let fetch = fetch_dashboard_for_handle("h");
    assert_eq!(fetch.statement().sql, "SELECT * FROM profiles");
    assert!(fetch.statement().binds.is_empty());
    let fetch = fetch.take(Ok(vec![profile.clone(), profile])).ok().unwrap();
    assert_eq!(fetch.statement().sql, "SELECT * FROM skills WHERE profile_handle = ?");
    assert_eq!(text(&fetch.statement().binds[0]), "h");
    let row = SkillRow {
        id: "1".to_string(),
        profile_handle: "h".to_string(),
        name: "rust".to_string(),
        category: "Kernel".to_string(),
        score: 98,
        links: "[\"axum\"]".to_string(),
    };
    let fetch = fetch.take(Ok(vec![row])).ok().unwrap();
    assert_eq!(fetch.statement().sql, "SELECT * FROM experiences WHERE profile_handle = ?");
    let fetch = fetch.take(Ok(Vec::new())).ok().unwrap();
    assert_eq!(fetch.statement().sql, "SELECT * FROM projects WHERE profile_handle = ?");
    let fetch = fetch.take(Ok(Vec::new())).ok().unwrap();
    assert!(fetch.statement().sql.ends_with("FROM analytics WHERE id = ?"));
    assert_eq!(text(&fetch.statement().binds[0]), "h");
    let shown = fetch.take(Ok(Vec::new())).ok().unwrap();
    assert_eq!(shown.profiles.len(), 2);
    assert_eq!(shown.skills.len(), 1);
    assert_eq!(shown.skills[0][0].links, vec!["axum".to_string()]);
    assert_eq!(shown.experiences.len(), 1);
    assert!(shown.experiences[0].is_empty());
    assert_eq!(shown.projects.len(), 1);
    assert!(shown.analytics.is_empty());
}

fn failure(words: &str) -> StoreError {
    StoreError::Database(words.to_string())
}

fn unreadable_experience(achievements: &str, skills: &str) -> ExperienceRow {
    ExperienceRow {
        id: "e".to_string(),
        profile_handle: "h".to_string(),
        role: "r".to_string(),
        organization: "o".to_string(),
        years_bits: 0,
        summary: "s".to_string(),
        achievements: achievements.to_string(),
        skills: skills.to_string(),
    }
}

#[test]
fn every_stage_hands_its_error_on() {
    let error = fetch_dashboard_for_handle("h").take(Err(failure("a"))).err().unwrap();
    assert_eq!(error.text(), "a");
    let skills = || fetch_dashboard_for_handle("h").take(Ok(Vec::new())).ok().unwrap();
    assert_eq!(skills().take(Err(failure("b"))).err().unwrap().text(), "b");
    let experiences = || skills().take(Ok(Vec::new())).ok().unwrap();
    assert_eq!(experiences().take(Err(failure("c"))).err().unwrap().text(), "c");
    let projects = || experiences().take(Ok(Vec::new())).ok().unwrap();
    assert_eq!(projects().take(Err(failure("d"))).err().unwrap().text(), "d");
    let analytics = || projects().take(Ok(Vec::new())).ok().unwrap();
    assert_eq!(analytics().take(Err(failure("e"))).err().unwrap().text(), "e");
    assert!(analytics().take(Ok(Vec::new())).is_ok());
}

#[test]
fn unreadable_row_is_the_error_of_its_column() {
    let experiences = || {
        fetch_dashboard_for_handle("h")
            .take(Ok(Vec::new()))
            .and_then(|fetch| fetch.take(Ok(Vec::new())))
            .ok()
            .unwrap()
    };
    let message = |text: &str| serde_json::from_str::<Vec<String>>(text).unwrap_err().to_string();
    let rows = vec![
        unreadable_experience("[]", "[]"),
        unreadable_experience("[]", "null"),
        unreadable_experience("{", "[]"),
    ];
    match experiences().take(Ok(rows)).err() {
        Some(StoreError::ColumnDecode { index, source }) => {
            assert_eq!(index, "\"skills\"");
            assert_eq!(source, message("null"));
        }
        _ => panic!("the second row cannot be read"),
    }
    let error = experiences().take(Ok(vec![unreadable_experience("{", "null")])).err().unwrap();
    assert_eq!(
        error.clone().text(),
        format!("error occurred while decoding column \"achievements\": {}", message("{"))
    );
}

#[test]
fn first_failing_query_is_the_error() {
    for failing in 0..32u32 {
        let fails = |query: u32| failing & (1 << query) != 0;
        let words = ["profiles", "skills", "experiences", "projects", "analytics"];
        let first = (0..5u32).find(|query| fails(*query)).map(|query| words[query as usize]);
        let result = fetched_dashboard(
            fetch_dashboard_for_handle("h"),
            if fails(0) { Err(failure("profiles")) } else { Ok(Vec::new()) },
            if fails(1) { Err(failure("skills")) } else { Ok(Vec::new()) },
            if fails(2) { Err(failure("experiences")) } else { Ok(Vec::new()) },
            if fails(3) { Err(failure("projects")) } else { Ok(Vec::new()) },
            if fails(4) { Err(failure("analytics")) } else { Ok(Vec::new()) },
        );
        match result {
            Ok(shown) => {
                assert_eq!(first, None);
                assert!(shown.profiles.is_empty());
                assert_eq!(shown.skills.len(), 1);
                assert!(shown.skills[0].is_empty());
            }
            Err(error) => assert_eq!(Some(error.text().as_str()), first),
        }
    }
}

#[test]
fn failed_read_is_answered_with_a_server_error() {
    assert_eq!(
        fetched_reply(Err(failure("locked"))).err(),
        Some(StatusCode::InternalServerError)
    );
    let shown = fetched_reply(Ok(seed_data().dashboard())).ok().unwrap();
    assert_eq!(shown.skills[0].len(), 21);
}

fn uplink() -> FullResumeUplink {
    let seed = seed_data();
    let mut profile: Profile = seed.profiles[0].clone();
    profile.handle = "me".to_string();
    FullResumeUplink {
        profile,
        skills: vec![seed.skills[0][0].clone(), seed.skills[0][1].clone()],
        experiences: vec![seed.experiences[0][0].clone()],
        projects: vec![seed.projects[0][0].clone()],
        analytics: Analytics { id: "me".to_string(), ..seed.analytics_matrix[0].clone() },
    }
}

#[test]
fn uplink_saves_everything_under_the_profile() {
    let payload = uplink();
    let mut run = handle_uplink(&payload);
    let (tried, reports) = execute(&mut run, |_| false);
    let written: Vec<(&str, &str)> = tried.iter().map(|t| (t.0.as_str(), t.1.as_str())).collect();
    assert_eq!(
        written,
        vec![
            ("profiles", "me"),
            ("skills", "1"),
            ("skills", "2"),
            ("experiences", "exp_01"),
            ("projects", "p1"),
            ("analytics", "me"),
        ]
    );
    for saved in &tried[1..5] {
        assert_eq!(saved.2, "me");
    }
    assert!(reports.is_empty());
    assert_eq!(uplink_notice(&payload), ">> PAYLOAD SECURED: Profile me updated.");
    assert_eq!(
        uplink_reply(),
        (StatusCode::Success, "Uplink Successful. Data Secured.".to_string())
    );
}

#[test]
fn uplink_tries_everything_whatever_fails() {
    let mut run = handle_uplink(&uplink());
    let (tried, reports) = execute(&mut run, |_| true);
    assert_eq!(tried.len(), 6);
    assert_eq!(
        reports,
        vec![
            "Failed to save profile",
            "Failed to save skill",
            "Failed to save skill",
            "Failed to save experience",
            "Failed to save project",
            "Failed to save analytics",
        ]
    );
    assert!(!run.is_aborted());
}

#[test]
fn empty_uplink_saves_profile_and_figures() {
    let mut payload = uplink();
    payload.skills.clear();
    payload.experiences.clear();
    payload.projects.clear();
    let (tried, _) = execute(&mut handle_uplink(&payload), |_| false);
    assert_eq!(tried.len(), 2);
}

#[test]
fn seed_contents() {
    let seed = seed_data();
    assert_eq!(seed.handle, "N3_operative_001");
    assert!(seed.current_headline.starts_with("ARES MAINFRAME // "));
    assert!(seed.current_headline.ends_with(".onion"));
    assert_eq!(seed.users[0].password, "admin");
    assert_eq!(seed.profiles[0].location, "CANADA");
    assert_eq!(seed.profiles[0].picture.len(), 15810);
    assert!(seed.profiles[0].picture.starts_with("data:image/jpg;base64,/9j/4AAQ"));
    assert_eq!(f32::from_bits(seed.experiences[0][0].years_bits), 4.5);
    assert_eq!(f32::from_bits(seed.experiences[0][1].years_bits), 3.2);
    assert_eq!(f32::from_bits(seed.experiences[0][2].years_bits), 2.1);
    assert_eq!(seed.experiences[0][0].achievements.len(), 3);
    assert_eq!(seed.projects[0][3].technologies, vec!["AXUM", "ASKAMA", "SNORT"]);
    assert_eq!(seed.skills[0][5].links, vec!["rust", "synaptic_sync", "comint_fracture"]);
    let figures = &seed.analytics_matrix[0];
    assert_eq!(figures.id, "N3_operative_001");
    assert_eq!(figures.leadership, 91);
    assert_eq!(figures.technical_depth, 93);
    assert_eq!(figures.automation_index, 96);
    assert_eq!(figures.transferability, 95);
    assert_eq!(figures.innovation, 89);
    assert_eq!(figures.neural_load, 99);
}

#[test]
fn seed_ids_are_distinct_and_carry_the_handle() {
    let seed = seed_data();
    let skills = &seed.skills[0];
    for (i, skill) in skills.iter().enumerate() {
        assert_eq!(skill.profile_handle, seed.handle);
        for other in &skills[..i] {
            assert_ne!(skill.id, other.id);
        }
    }
    for (i, project) in seed.projects[0].iter().enumerate() {
        assert_eq!(project.profile_handle, seed.handle);
        assert_eq!(project.id, format!("p{}", i + 1));
    }
    for (i, experience) in seed.experiences[0].iter().enumerate() {
        assert_eq!(experience.profile_handle, seed.handle);
        assert_eq!(experience.id, format!("exp_0{}", i + 1));
    }
}

fn scored(score: u8) -> Skill {
    Skill { score, ..seed_data().skills[0][0].clone() }
}

#[test]
fn technical_depth_is_the_average_rounded_down() {
    assert_eq!(technical_depth(&vec![scored(98), scored(97)]), 97);
    assert_eq!(technical_depth(&vec![scored(0)]), 0);
    assert_eq!(technical_depth(&vec![scored(255), scored(255), scored(255)]), 255);
    assert_eq!(technical_depth(&seed_data().skills[0]), 93);
}

#[test]
fn average_lies_between_the_scores() {
    let group = vec![scored(10), scored(200), scored(90)];
    let average = technical_depth(&group);
    assert_eq!(average, 100);
    assert!(10 <= average && average <= 200);
}

#[test]
fn each_group_has_its_figures() {
    let matrix = analytics_matrix(&vec![vec![scored(10)], vec![scored(20), scored(41)]]);
    assert_eq!(matrix.len(), 2);
    assert_eq!(matrix[0].technical_depth, 10);
    assert_eq!(matrix[1].technical_depth, 30);
    assert_eq!(matrix[1].id, "N3_operative_001");
    assert!(analytics_matrix(&Vec::new()).is_empty());
}
