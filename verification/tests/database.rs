use resume_mainframe::dashboard::{
    dashboard, dashboard_lookup, fetch_dashboard_for_handle, handle_uplink, DashboardPlan,
    FullResumeUplink,
};
use resume_mainframe::edits::{
    experiences_reply, get_experiences, get_password, get_projects, get_skills, get_subprojects,
    logon_reply, new_subprojects, projects_reply, skills_reply, update_password, update_skills,
};
use resume_mainframe::records::{
    Analytics, DashboardQuery, EditQuery, NewSubProjectQuery, Profile, SearchParams, Skill,
    SubProjectQuery, User,
};
use resume_mainframe::rows::{decode_skills, ExperienceRow, ProjectRow, SkillRow};
use resume_mainframe::saves::init_db;
use resume_mainframe::search::search_profiles;
use resume_mainframe::seed::seed_data;
use resume_mainframe::store::{Statement, Value};
use sqlx::sqlite::{SqlitePool, SqlitePoolOptions, SqliteRow};
use sqlx::Row;

fn block_on<F: std::future::Future>(work: F) -> F::Output {
    tokio::runtime::Builder::new_current_thread().enable_all().build().unwrap().block_on(work)
}

async fn fresh() -> SqlitePool {
    let pool =
        SqlitePoolOptions::new().max_connections(1).connect("sqlite::memory:").await.unwrap();
    rows(&pool, init_db()).await;
    pool
}

async fn rows(pool: &SqlitePool, statement: Statement) -> Vec<SqliteRow> {
    let mut query = sqlx::query(statement.sql);
    for value in statement.binds {
        query = match value {
            Value::Text(text) => query.bind(text),
            Value::U8(n) => query.bind(n),
            Value::U32(n) => query.bind(n),
            Value::F32Bits(bits) => query.bind(f32::from_bits(bits)),
        };
    }
    query.fetch_all(pool).await.unwrap()
}

fn skill_row(row: &SqliteRow) -> SkillRow {
    SkillRow {
        id: row.get("id"),
        profile_handle: row.get("profile_handle"),
        name: row.get("name"),
        category: row.get("category"),
        score: row.get("score"),
        links: row.get("links"),
    }
}

fn experience_row(row: &SqliteRow) -> ExperienceRow {
    let years: f32 = row.get("years");
    ExperienceRow {
        id: row.get("id"),
        profile_handle: row.get("profile_handle"),
        role: row.get("role"),
        organization: row.get("organization"),
        years_bits: years.to_bits(),
        summary: row.get("summary"),
        achievements: row.get("achievements"),
        skills: row.get("skills"),
    }
}

fn project_row(row: &SqliteRow) -> ProjectRow {
    ProjectRow {
        id: row.get("id"),
        profile_handle: row.get("profile_handle"),
        name: row.get("name"),
        impact: row.get("impact"),
        description: row.get("description"),
        technologies: row.get("technologies"),
    }
}

fn profile_row(row: &SqliteRow) -> Profile {
    Profile {
        picture: row.get("picture"),
        handle: row.get("handle"),
        name: row.get("name"),
        title: row.get("title"),
        location: row.get("location"),
        summary: row.get("summary"),
    }
}

fn analytics_row(row: &SqliteRow) -> Analytics {
    Analytics {
        id: row.get("id"),
        leadership: row.get("leadership"),
        technical_depth: row.get("technical_depth"),
        automation_index: row.get("automation_index"),
        transferability: row.get("transferability"),
        innovation: row.get("innovation"),
        neural_load: row.get("neural_load"),
    }
}

async fn seeded(handle: &str) -> SqlitePool {
    let pool = fresh().await;
    let params = DashboardQuery { handle: handle.to_string() };
    assert!(rows(&pool, dashboard_lookup(&params)).await.is_empty());
    match dashboard(&seed_data(), &params, Ok(Vec::new())) {
        DashboardPlan::Seed(mut run) => {
            while let Some(statement) = run.next_statement() {
                rows(&pool, statement).await;
                assert_eq!(run.record(true), None);
            }
            assert!(!run.is_aborted());
        }
        _ => panic!("an unknown handle is seeded"),
    }
    pool
}

#[test]
fn what_is_seeded_is_read_back() {
    block_on(async {
        let seed = seed_data();
        let pool = seeded(&seed.handle).await;
        let known = rows(&pool, dashboard_lookup(&DashboardQuery { handle: seed.handle.clone() }));
        assert_eq!(known.await.len(), 1);
        let fetch = fetch_dashboard_for_handle(&seed.handle);
        let found = rows(&pool, fetch.statement()).await;
        let fetch = fetch.take(Ok(found.iter().map(profile_row).collect())).ok().unwrap();
        let found = rows(&pool, fetch.statement()).await;
        let fetch = fetch.take(Ok(found.iter().map(skill_row).collect())).ok().unwrap();
        let found = rows(&pool, fetch.statement()).await;
        let fetch = fetch.take(Ok(found.iter().map(experience_row).collect())).ok().unwrap();
        let found = rows(&pool, fetch.statement()).await;
        let fetch = fetch.take(Ok(found.iter().map(project_row).collect())).ok().unwrap();
        let found = rows(&pool, fetch.statement()).await;
        let shown = fetch.take(Ok(found.iter().map(analytics_row).collect())).ok().unwrap();
        assert_eq!(shown.profiles.len(), 1);
        assert_eq!(shown.profiles[0].picture, seed.profiles[0].picture);
        assert_eq!(shown.profiles[0].title, seed.profiles[0].title);
        assert_eq!(shown.skills.len(), 1);
        assert_eq!(shown.skills[0].len(), 21);
        for skill in &seed.skills[0] {
            let read: Vec<&Skill> =
                shown.skills[0].iter().filter(|read| read.id == skill.id).collect();
            assert_eq!(read.len(), 1);
            assert_eq!(read[0].profile_handle, skill.profile_handle);
            assert_eq!(read[0].name, skill.name);
            assert_eq!(read[0].category, skill.category);
            assert_eq!(read[0].score, skill.score);
            assert_eq!(read[0].links, skill.links);
        }
        assert_eq!(shown.experiences[0].len(), 3);
        for (read, kept) in shown.experiences[0].iter().zip(&seed.experiences[0]) {
            assert_eq!(read.id, kept.id);
            assert_eq!(read.years_bits, kept.years_bits);
            assert_eq!(read.achievements, kept.achievements);
            assert_eq!(read.skills, kept.skills);
        }
        assert_eq!(shown.projects[0].len(), 4);
        for (read, kept) in shown.projects[0].iter().zip(&seed.projects[0]) {
            assert_eq!(read.name, kept.name);
            assert_eq!(read.impact, kept.impact);
            assert_eq!(read.technologies, kept.technologies);
        }
        assert_eq!(shown.analytics.len(), 1);
        assert_eq!(shown.analytics[0].technical_depth, 93);
    });
}

#[test]
fn what_is_uplinked_is_read_back() {
    block_on(async {
        let seed = seed_data();
        let mut profile = seed.profiles[0].clone();
        profile.handle = "me".to_string();
        let payload = FullResumeUplink {
            profile,
            skills: seed.skills[0].clone(),
            experiences: seed.experiences[0].clone(),
            projects: seed.projects[0].clone(),
            analytics: seed.analytics_matrix[0].clone(),
        };
        let pool = fresh().await;
        let mut run = handle_uplink(&payload);
        while let Some(statement) = run.next_statement() {
            rows(&pool, statement).await;
            assert_eq!(run.record(true), None);
        }
        let query = EditQuery { profile_handle: "me".to_string() };
        let found = rows(&pool, get_skills(&query)).await;
        let skills = skills_reply(Ok(found.iter().map(skill_row).collect())).ok().unwrap();
        assert_eq!(skills.len(), 21);
        for (read, sent) in skills.iter().zip(&payload.skills) {
            assert_eq!(read.profile_handle, "me");
            assert_eq!(read.links, sent.links);
        }
        let found = rows(&pool, get_experiences(&query)).await;
        let experiences =
            experiences_reply(Ok(found.iter().map(experience_row).collect())).ok().unwrap();
        assert_eq!(experiences.len(), 3);
        assert_eq!(experiences[1].achievements, payload.experiences[1].achievements);
        assert_eq!(experiences[1].years_bits, payload.experiences[1].years_bits);
        let found = rows(&pool, get_projects(&query)).await;
        let projects = projects_reply(Ok(found.iter().map(project_row).collect())).ok().unwrap();
        assert_eq!(projects.len(), 4);
        assert_eq!(projects[3].technologies, payload.projects[3].technologies);
    });
}

#[test]
fn seed_is_stored_under_the_handle_asked_for() {
    block_on(async {
        let pool = seeded("visitor").await;
        let own = EditQuery { profile_handle: "N3_operative_001".to_string() };
        let asked = EditQuery { profile_handle: "visitor".to_string() };
        assert!(rows(&pool, get_skills(&own)).await.is_empty());
        assert_eq!(rows(&pool, get_skills(&asked)).await.len(), 21);
        assert_eq!(rows(&pool, get_password(&own)).await.len(), 1);
        assert!(rows(&pool, get_password(&asked)).await.is_empty());
    });
}

#[test]
fn updated_skill_replaces_the_stored_one() {
    block_on(async {
        let pool = fresh().await;
        let mut skill = Skill {
            id: "s".to_string(),
            profile_handle: "h".to_string(),
            name: "forging".to_string(),
            category: "c".to_string(),
            score: 255,
            links: vec!["\u{1}\t\"\\ \u{2028} \u{1F600}".to_string(), "".to_string()],
        };
        rows(&pool, update_skills(&skill).ok().unwrap()).await;
        skill.name = "smelting".to_string();
        rows(&pool, update_skills(&skill).ok().unwrap()).await;
        let found = rows(&pool, get_skills(&EditQuery { profile_handle: "h".to_string() })).await;
        let skills = skills_reply(Ok(found.iter().map(skill_row).collect())).ok().unwrap();
        assert_eq!(skills.len(), 1);
        assert_eq!(skills[0].name, "smelting");
        assert_eq!(skills[0].score, 255);
        assert_eq!(skills[0].links, skill.links);
    });
}

#[test]
fn unreadable_column_is_the_error_that_the_database_gives() {
    block_on(async {
        let pool = fresh().await;
        let skill = seed_data().skills[0][0].clone();
        rows(&pool, update_skills(&skill).ok().unwrap()).await;
        sqlx::query("UPDATE skills SET links = '[1]'").execute(&pool).await.unwrap();
        let query = EditQuery { profile_handle: skill.profile_handle };
        let found = rows(&pool, get_skills(&query)).await;
        let error = decode_skills(&found.iter().map(skill_row).collect()).err().unwrap();
        let given = found[0].try_get::<sqlx::types::Json<Vec<String>>, _>("links");
        assert_eq!(error.text(), given.err().unwrap().to_string());
    });
}

#[test]
fn changed_password_is_the_one_read() {
    block_on(async {
        let pool = seeded("N3_operative_001").await;
        let changed =
            User { profile_handle: "N3_operative_001".to_string(), password: "s3cret".to_string() };
        rows(&pool, update_password(&changed)).await;
        let query = EditQuery { profile_handle: "N3_operative_001".to_string() };
        let found = rows(&pool, get_password(&query)).await;
        assert_eq!(found.len(), 1);
        let stored =
            User { profile_handle: found[0].get("profile_handle"), password: found[0].get("password") };
        assert!(logon_reply(&changed, Ok(stored)).is_ok());
    });
}

#[test]
fn search_finds_profiles_by_part_and_at_most_two() {
    block_on(async {
        let pool = seeded("N3_operative_001").await;
        for q in ["@N3_oper", "trigger", "propulsion", ""] {
            let found = rows(&pool, search_profiles(&SearchParams { q: q.to_string() })).await;
            assert_eq!(found.len(), 1);
            assert_eq!(found[0].get::<String, _>("handle"), "N3_operative_001");
        }
        let found = rows(&pool, search_profiles(&SearchParams { q: "nobody".to_string() })).await;
        assert!(found.is_empty());
        for handle in ["a", "b"] {
            let mut profile = seed_data().profiles[0].clone();
            profile.handle = handle.to_string();
            rows(&pool, resume_mainframe::saves::save_profile(&profile)).await;
        }
        let found = rows(&pool, search_profiles(&SearchParams { q: "".to_string() })).await;
        assert_eq!(found.len(), 2);
    });
}

#[test]
fn sub_projects_are_stored() {
    block_on(async {
        let pool = seeded("h").await;
        let payload = NewSubProjectQuery {
            project_id: "p1".to_string(),
            project_name: "PROJECT AEGIS".to_string(),
            profile_handle: "h".to_string(),
            subproject_name: "radar".to_string(),
            subproject_category: "c".to_string(),
        };
        let added = rows(&pool, new_subprojects(&payload)).await;
        assert_eq!(added.len(), 1);
        assert_eq!(added[0].get::<String, _>("subproject_name"), "radar");
        assert_eq!(added[0].get::<i32, _>("display_order"), 0);
        let params =
            SubProjectQuery { project_id: "p1".to_string(), profile_handle: "h".to_string() };
        let found = rows(&pool, get_subprojects(&params)).await;
        assert_eq!(found.len(), 1);
        assert_eq!(found[0].get::<String, _>("subproject_category"), "c");
    });
}
