//! The statements that create the tables and save the records.
//!
//! The values of a saving statement are the columns of the row that it writes;
//! each function also promises that the row is read back as the record saved.
use vstd::prelude::*;

use crate::json::{encode_list, json_list, json_result, json_text};
use crate::records::{
    Analytics, AnalyticsView, Experience, ExperienceView, Profile, ProfileView, Project,
    ProjectView, Skill, SkillView, User, UserView,
};
use crate::rows::{
    decoded_experience, decoded_project, decoded_skill, ExperienceRowView, ProjectRowView,
    SkillRowView,
};
use crate::store::{
    statement_result, Statement, StatementView, StoreError, StoreErrorView, Value, ValueView,
};

verus! {

/// Creates the tables that are not there yet.
pub const INIT_DB_SQL: &'static str = r#"
        CREATE TABLE IF NOT EXISTS profiles (
            handle TEXT PRIMARY KEY,
            name TEXT NOT NULL,
            title TEXT NOT NULL,
            location TEXT NOT NULL,
            summary TEXT NOT NULL,
            picture TEXT NOT NULL
        );

        CREATE TABLE IF NOT EXISTS skills (
            id TEXT PRIMARY KEY,
            profile_handle TEXT NOT NULL,
            name TEXT NOT NULL,
            category TEXT NOT NULL,
            score INTEGER NOT NULL, /* Maps to u8 */
            links TEXT NOT NULL /* Maps to #[sqlx(json)] Vec<String> */
        );

        CREATE TABLE IF NOT EXISTS experiences (
            id TEXT PRIMARY KEY,
            profile_handle TEXT NOT NULL,
            role TEXT NOT NULL,
            organization TEXT NOT NULL,
            years REAL NOT NULL, /* Maps to f32 */
            summary TEXT NOT NULL,
            achievements TEXT NOT NULL, /* Maps to #[sqlx(json)] Vec<String> */
            skills TEXT NOT NULL /* Maps to #[sqlx(json)] Vec<String> */
        );

        CREATE TABLE IF NOT EXISTS projects (
            id TEXT PRIMARY KEY,
            profile_handle TEXT NOT NULL,
            name TEXT NOT NULL,
            impact INTEGER NOT NULL, /* Maps to u8 */
            description TEXT NOT NULL,
            technologies TEXT NOT NULL /* Maps to #[sqlx(json)] Vec<String> */
        );

        CREATE TABLE IF NOT EXISTS analytics (
            id TEXT PRIMARY KEY,
            leadership INTEGER NOT NULL, /* Maps to u32 */
            technical_depth INTEGER NOT NULL, /* Maps to u32 */
            automation_index INTEGER NOT NULL, /* Maps to u32 */
            transferability INTEGER NOT NULL, /* Maps to u32 */
            innovation INTEGER NOT NULL, /* Maps to u32 */
            neural_load INTEGER NOT NULL /* Maps to u32 */
        );

        CREATE TABLE IF NOT EXISTS sub_projects (
            id SERIAL PRIMARY KEY,
            project_id TEXT NOT NULL,
            project_name TEXT NOT NULL,
            profile_handle TEXT NOT NULL,
            subproject_name TEXT NOT NULL,
            subproject_category TEXT NOT NULL,
            display_order INT DEFAULT 0,
            created_at TIMESTAMP DEFAULT CURRENT_TIMESTAMP,
            
            -- Foreign Key Constraints linking to your parent table
            CONSTRAINT fk_parent_project 
                FOREIGN KEY (project_id) 
                REFERENCES projects(id) ON DELETE CASCADE
        );

        CREATE TABLE IF NOT EXISTS users (
            profile_handle TEXT PRIMARY KEY,
            password TEXT NOT NULL
        );

        "#;

/// Saves a password under its handle.
pub const SAVE_USER_SQL: &'static str = r#"
        INSERT INTO users (profile_handle, password) 
        VALUES (?, ?)
        ON CONFLICT(profile_handle) DO UPDATE SET 
            password =  excluded.password
        "#;

/// Saves a profile under its handle.
pub const SAVE_PROFILE_SQL: &'static str = r#"
        INSERT INTO profiles (handle, name, title, location, summary, picture) 
        VALUES (?, ?, ?, ?, ?, ?)
        ON CONFLICT(handle) DO UPDATE SET 
            name = excluded.name,
            title = excluded.title,
            location = excluded.location,
            summary = excluded.summary,
            picture = excluded.picture
        "#;

/// Saves a skill under its id.
pub const SAVE_SKILL_SQL: &'static str = r#"
        INSERT INTO skills (id, profile_handle, name, category, score, links) 
        VALUES (?, ?, ?, ?, ?, ?)
        ON CONFLICT(id) DO UPDATE SET
            profile_handle = excluded.profile_handle, 
            name = excluded.name,
            category = excluded.category,
            score = excluded.score,
            links = excluded.links
        "#;

/// Saves an experience under its id.
pub const SAVE_EXPERIENCE_SQL: &'static str = r#"
        INSERT INTO experiences (id, profile_handle, role, organization, years, summary, achievements, skills) 
        VALUES (?, ?, ?, ?, ?, ?, ?, ?)
        ON CONFLICT(id) DO UPDATE SET 
            profile_handle = excluded.profile_handle, 
            role = excluded.role,
            organization = excluded.organization,
            years = excluded.years,
            summary = excluded.summary,
            achievements = excluded.achievements,
            skills = excluded.skills
        "#;

/// Saves a project under its id.
pub const SAVE_PROJECT_SQL: &'static str = r#"
        INSERT INTO projects (id, profile_handle, name, impact, description, technologies) 
        VALUES (?, ?, ?, ?, ?, ?)
        ON CONFLICT(id) DO UPDATE SET 
            profile_handle = excluded.profile_handle, 
            name = excluded.name,
            impact = excluded.impact,
            description = excluded.description,
            technologies = excluded.technologies
        "#;

/// Saves the figures of a profile under their id.
pub const SAVE_ANALYTICS_SQL: &'static str = r#"
        INSERT INTO analytics (
            id, leadership, technical_depth, automation_index, 
            transferability, innovation, neural_load
        ) 
        VALUES (?, ?, ?, ?, ?, ?, ?)
        ON CONFLICT(id) DO UPDATE SET
            leadership = excluded.leadership,
            technical_depth = excluded.technical_depth,
            automation_index = excluded.automation_index,
            transferability = excluded.transferability,
            innovation = excluded.innovation,
            neural_load = excluded.neural_load
        "#;

/// Creates the tables of the registry, where they do not exist yet.
pub fn init_db() -> (statement: Statement)
    ensures
        statement@ == (StatementView { sql: INIT_DB_SQL@, binds: Seq::empty() }),
{
    let statement = Statement { sql: INIT_DB_SQL, binds: Vec::new() };
    assert(statement.binds.deep_view() =~= Seq::empty());
    statement
}

/// The statement that saves a user.
pub open spec fn user_saved(user: UserView) -> StatementView {
    StatementView {
        sql: SAVE_USER_SQL@,
        binds: seq![
            ValueView::Text(user.profile_handle),
            ValueView::Text(user.password),
        ],
    }
}

/// The record in a row that `save_user` writes.
pub open spec fn user_of_row(binds: Seq<ValueView>) -> UserView {
    UserView {
        profile_handle: binds[0]->Text_0,
        password: binds[1]->Text_0,
    }
}

/// Saves a password under its profile handle.
pub fn save_user(user: &User) -> (statement: Statement)
    ensures
        statement@ == user_saved(user@),
        user_of_row(statement@.binds) == user@,
        statement.sql@ == SAVE_USER_SQL@,
        statement@.binds == seq![
            ValueView::Text(user.profile_handle@),
            ValueView::Text(user.password@),
        ],
{
    let statement = Statement {
        sql: SAVE_USER_SQL,
        binds: vec![
            Value::Text(user.profile_handle.clone()),
            Value::Text(user.password.clone()),
        ],
    };
    assert(statement@ =~= user_saved(user@));
    statement
}

/// The statement that saves a profile.
pub open spec fn profile_saved(profile: ProfileView) -> StatementView {
    StatementView {
        sql: SAVE_PROFILE_SQL@,
        binds: seq![
            ValueView::Text(profile.handle),
            ValueView::Text(profile.name),
            ValueView::Text(profile.title),
            ValueView::Text(profile.location),
            ValueView::Text(profile.summary),
            ValueView::Text(profile.picture),
        ],
    }
}

/// The record in a row that `save_profile` writes.
pub open spec fn profile_of_row(binds: Seq<ValueView>) -> ProfileView {
    ProfileView {
        handle: binds[0]->Text_0,
        name: binds[1]->Text_0,
        title: binds[2]->Text_0,
        location: binds[3]->Text_0,
        summary: binds[4]->Text_0,
        picture: binds[5]->Text_0,
    }
}

/// Saves a profile. Uses `handle` as the unique identifier.
pub fn save_profile(profile: &Profile) -> (statement: Statement)
    ensures
        statement@ == profile_saved(profile@),
        profile_of_row(statement@.binds) == profile@,
        statement.sql@ == SAVE_PROFILE_SQL@,
        statement@.binds == seq![
            ValueView::Text(profile.handle@),
            ValueView::Text(profile.name@),
            ValueView::Text(profile.title@),
            ValueView::Text(profile.location@),
            ValueView::Text(profile.summary@),
            ValueView::Text(profile.picture@),
        ],
{
    let statement = Statement {
        sql: SAVE_PROFILE_SQL,
        binds: vec![
            Value::Text(profile.handle.clone()),
            Value::Text(profile.name.clone()),
            Value::Text(profile.title.clone()),
            Value::Text(profile.location.clone()),
            Value::Text(profile.summary.clone()),
            Value::Text(profile.picture.clone()),
        ],
    };
    assert(statement@ =~= profile_saved(profile@));
    statement
}

/// The statement that saves the figures of a profile.
pub open spec fn analytics_saved(analytics: AnalyticsView) -> StatementView {
    StatementView {
        sql: SAVE_ANALYTICS_SQL@,
        binds: seq![
            ValueView::Text(analytics.id),
            ValueView::U32(analytics.leadership),
            ValueView::U32(analytics.technical_depth),
            ValueView::U32(analytics.automation_index),
            ValueView::U32(analytics.transferability),
            ValueView::U32(analytics.innovation),
            ValueView::U32(analytics.neural_load),
        ],
    }
}

/// The record in a row that `save_analytics` writes.
pub open spec fn analytics_of_row(binds: Seq<ValueView>) -> AnalyticsView {
    AnalyticsView {
        id: binds[0]->Text_0,
        leadership: binds[1]->U32_0,
        technical_depth: binds[2]->U32_0,
        automation_index: binds[3]->U32_0,
        transferability: binds[4]->U32_0,
        innovation: binds[5]->U32_0,
        neural_load: binds[6]->U32_0,
    }
}

/// Saves the figures of a profile.
pub fn save_analytics(analytics: &Analytics) -> (statement: Statement)
    ensures
        statement@ == analytics_saved(analytics@),
        analytics_of_row(statement@.binds) == analytics@,
        statement.sql@ == SAVE_ANALYTICS_SQL@,
        statement@.binds == seq![
            ValueView::Text(analytics.id@),
            ValueView::U32(analytics.leadership),
            ValueView::U32(analytics.technical_depth),
            ValueView::U32(analytics.automation_index),
            ValueView::U32(analytics.transferability),
            ValueView::U32(analytics.innovation),
            ValueView::U32(analytics.neural_load),
        ],
{
    let statement = Statement {
        sql: SAVE_ANALYTICS_SQL,
        binds: vec![
            Value::Text(analytics.id.clone()),
            Value::U32(analytics.leadership),
            Value::U32(analytics.technical_depth),
            Value::U32(analytics.automation_index),
            Value::U32(analytics.transferability),
            Value::U32(analytics.innovation),
            Value::U32(analytics.neural_load),
        ],
    };
    assert(statement@ =~= analytics_saved(analytics@));
    statement
}

/// The statement that saves a skill for a handle, once its lists have been written
/// as JSON; the first list that could not be written is the error.
pub open spec fn skill_saved(
    handle: Seq<char>,
    skill: SkillView,
    links: Result<Seq<char>, Seq<char>>,
) -> Result<StatementView, StoreErrorView> {
    match links {
        Err(message) => Err(StoreErrorView::Protocol(message)),
        Ok(links) => Ok(
            StatementView {
                sql: SAVE_SKILL_SQL@,
                binds: seq![
                    ValueView::Text(skill.id),
                    ValueView::Text(handle),
                    ValueView::Text(skill.name),
                    ValueView::Text(skill.category),
                    ValueView::U8(skill.score),
                    ValueView::Text(links),
                ],
            },
        ),
    }
}

/// The row that `save_skill` writes.
pub open spec fn skill_row(binds: Seq<ValueView>) -> SkillRowView {
    SkillRowView {
        id: binds[0]->Text_0,
        profile_handle: binds[1]->Text_0,
        name: binds[2]->Text_0,
        category: binds[3]->Text_0,
        score: binds[4]->U8_0,
        links: binds[5]->Text_0,
    }
}

/// The statement that saves a skill for a handle, once its lists have been written
/// as JSON.
pub fn skill_statement(
    handle: &str,
    skill: &Skill,
    links: Result<String, String>,
) -> (result: Result<Statement, StoreError>)
    ensures
        statement_result(result) == skill_saved(handle@, skill@, json_result(links)),
        match result {
            Ok(statement) => {
                &&& links is Ok
                &&& statement.sql@ == SAVE_SKILL_SQL@
                &&& statement@.binds.len() == 6
                &&& statement@.binds.take(5) == seq![
                    ValueView::Text(skill.id@),
                    ValueView::Text(handle@),
                    ValueView::Text(skill.name@),
                    ValueView::Text(skill.category@),
                    ValueView::U8(skill.score),
                ]
                &&& statement@.binds[5] == ValueView::Text(links->Ok_0@)
            },
            Err(error) => links matches Err(message) && error@ == StoreErrorView::Protocol(
                message@,
            ),
        },
{
    let links = match links {
        Ok(text) => text,
        Err(message) => return Err(StoreError::Protocol(message)),
    };
    let statement = Statement {
        sql: SAVE_SKILL_SQL,
        binds: vec![
            Value::Text(skill.id.clone()),
            Value::Text(handle.to_string()),
            Value::Text(skill.name.clone()),
            Value::Text(skill.category.clone()),
            Value::U8(skill.score),
            Value::Text(links),
        ],
    };
    assert(statement@ =~= skill_saved(handle@, skill@, Ok(links@))->Ok_0);
    Ok(statement)
}

/// Whether the row that is written for a skill is read back as the skill, under the
/// handle for which it was saved.
pub open spec fn skill_reads_back(handle: Seq<char>, skill: SkillView) -> bool {
    skill_saved(handle, skill, json_text(skill.links)) matches Ok(saved) && decoded_skill(
        skill_row(saved.binds),
    ) == Ok::<SkillView, StoreErrorView>(SkillView { profile_handle: handle, ..skill })
}

/// Saves a skill for a handle. Serializes `links` to JSON.
///
/// The row written holds the handle given, whatever handle the record names, and
/// is read back as the record otherwise unchanged.
pub fn save_skill(handle: &str, skill: &Skill) -> (result: Result<Statement, StoreError>)
    ensures
        statement_result(result) == skill_saved(handle@, skill@, json_text(skill@.links)),
        result is Ok,
        skill_reads_back(handle@, skill@),
        result matches Ok(statement) && {
                &&& statement.sql@ == SAVE_SKILL_SQL@
                &&& statement@.binds.len() == 6
                &&& statement@.binds.take(5) == seq![
                    ValueView::Text(skill.id@),
                    ValueView::Text(handle@),
                    ValueView::Text(skill.name@),
                    ValueView::Text(skill.category@),
                    ValueView::U8(skill.score),
                ]
                &&& statement@.binds[5] matches ValueView::Text(text) && json_list(text) matches Ok(
                    items,
                ) && items == skill.links.deep_view()
            },
{
    let links = encode_list(&skill.links);
    skill_statement(handle, skill, links)
}

/// The statement that saves an experience for a handle, once its lists have been written
/// as JSON; the first list that could not be written is the error.
pub open spec fn experience_saved(
    handle: Seq<char>,
    experience: ExperienceView,
    achievements: Result<Seq<char>, Seq<char>>,
    skills: Result<Seq<char>, Seq<char>>,
) -> Result<StatementView, StoreErrorView> {
    match (achievements, skills) {
        (Err(message), _) => Err(StoreErrorView::Protocol(message)),
        (Ok(_), Err(message)) => Err(StoreErrorView::Protocol(message)),
        (Ok(achievements), Ok(skills)) => Ok(
            StatementView {
                sql: SAVE_EXPERIENCE_SQL@,
                binds: seq![
                    ValueView::Text(experience.id),
                    ValueView::Text(handle),
                    ValueView::Text(experience.role),
                    ValueView::Text(experience.organization),
                    ValueView::F32Bits(experience.years_bits),
                    ValueView::Text(experience.summary),
                    ValueView::Text(achievements),
                    ValueView::Text(skills),
                ],
            },
        ),
    }
}

/// The row that `save_experience` writes.
pub open spec fn experience_row(binds: Seq<ValueView>) -> ExperienceRowView {
    ExperienceRowView {
        id: binds[0]->Text_0,
        profile_handle: binds[1]->Text_0,
        role: binds[2]->Text_0,
        organization: binds[3]->Text_0,
        years_bits: binds[4]->F32Bits_0,
        summary: binds[5]->Text_0,
        achievements: binds[6]->Text_0,
        skills: binds[7]->Text_0,
    }
}

/// The statement that saves an experience for a handle, once its lists have been written
/// as JSON.
pub fn experience_statement(
    handle: &str,
    experience: &Experience,
    achievements: Result<String, String>,
    skills: Result<String, String>,
) -> (result: Result<Statement, StoreError>)
    ensures
        statement_result(result) == experience_saved(
            handle@,
            experience@,
            json_result(achievements),
            json_result(skills),
        ),
        match result {
            Ok(statement) => {
                &&& achievements is Ok && skills is Ok
                &&& statement.sql@ == SAVE_EXPERIENCE_SQL@
                &&& statement@.binds.len() == 8
                &&& statement@.binds.take(6) == seq![
                    ValueView::Text(experience.id@),
                    ValueView::Text(handle@),
                    ValueView::Text(experience.role@),
                    ValueView::Text(experience.organization@),
                    ValueView::F32Bits(experience.years_bits),
                    ValueView::Text(experience.summary@),
                ]
                &&& statement@.binds[6] == ValueView::Text(achievements->Ok_0@)
                &&& statement@.binds[7] == ValueView::Text(skills->Ok_0@)
            },
            Err(error) => match achievements {
                Err(message) => error@ == StoreErrorView::Protocol(message@),
                Ok(_) => skills matches Err(message) && error@ == StoreErrorView::Protocol(
                    message@,
                ),
            },
        },
{
    let achievements = match achievements {
        Ok(text) => text,
        Err(message) => return Err(StoreError::Protocol(message)),
    };
    let skills = match skills {
        Ok(text) => text,
        Err(message) => return Err(StoreError::Protocol(message)),
    };
    let statement = Statement {
        sql: SAVE_EXPERIENCE_SQL,
        binds: vec![
            Value::Text(experience.id.clone()),
            Value::Text(handle.to_string()),
            Value::Text(experience.role.clone()),
            Value::Text(experience.organization.clone()),
            Value::F32Bits(experience.years_bits),
            Value::Text(experience.summary.clone()),
            Value::Text(achievements),
            Value::Text(skills),
        ],
    };
    assert(statement@ =~= experience_saved(
        handle@,
        experience@,
        Ok(achievements@),
        Ok(skills@),
    )->Ok_0);
    Ok(statement)
}

/// Whether the row that is written for an experience is read back as the experience, under the
/// handle for which it was saved.
pub open spec fn experience_reads_back(handle: Seq<char>, experience: ExperienceView) -> bool {
    experience_saved(
        handle,
        experience,
        json_text(experience.achievements),
        json_text(experience.skills),
    ) matches Ok(saved) && decoded_experience(
        experience_row(saved.binds),
    ) == Ok::<ExperienceView, StoreErrorView>(ExperienceView { profile_handle: handle, ..experience })
}

/// Saves an experience for a handle. Serializes `achievements` and `skills` to
/// JSON.
///
/// The row written holds the handle given, whatever handle the record names, and
/// is read back as the record otherwise unchanged.
pub fn save_experience(handle: &str, experience: &Experience) -> (result: Result<
    Statement,
    StoreError,
>)
    ensures
        statement_result(result) == experience_saved(
            handle@,
            experience@,
            json_text(experience@.achievements),
            json_text(experience@.skills),
        ),
        result is Ok,
        experience_reads_back(handle@, experience@),
        result matches Ok(statement) && {
                &&& statement.sql@ == SAVE_EXPERIENCE_SQL@
                &&& statement@.binds.len() == 8
                &&& statement@.binds.take(6) == seq![
                    ValueView::Text(experience.id@),
                    ValueView::Text(handle@),
                    ValueView::Text(experience.role@),
                    ValueView::Text(experience.organization@),
                    ValueView::F32Bits(experience.years_bits),
                    ValueView::Text(experience.summary@),
                ]
                &&& statement@.binds[6] matches ValueView::Text(text) && json_list(text) matches Ok(
                    items,
                ) && items == experience.achievements.deep_view()
                &&& statement@.binds[7] matches ValueView::Text(text) && json_list(text) matches Ok(
                    items,
                ) && items == experience.skills.deep_view()
            },
{
    let achievements = encode_list(&experience.achievements);
    let skills = encode_list(&experience.skills);
    experience_statement(handle, experience, achievements, skills)
}

/// The statement that saves a project for a handle, once its lists have been written
/// as JSON; the first list that could not be written is the error.
pub open spec fn project_saved(
    handle: Seq<char>,
    project: ProjectView,
    technologies: Result<Seq<char>, Seq<char>>,
) -> Result<StatementView, StoreErrorView> {
    match technologies {
        Err(message) => Err(StoreErrorView::Protocol(message)),
        Ok(technologies) => Ok(
            StatementView {
                sql: SAVE_PROJECT_SQL@,
                binds: seq![
                    ValueView::Text(project.id),
                    ValueView::Text(handle),
                    ValueView::Text(project.name),
                    ValueView::U8(project.impact),
                    ValueView::Text(project.description),
                    ValueView::Text(technologies),
                ],
            },
        ),
    }
}

/// The row that `save_project` writes.
pub open spec fn project_row(binds: Seq<ValueView>) -> ProjectRowView {
    ProjectRowView {
        id: binds[0]->Text_0,
        profile_handle: binds[1]->Text_0,
        name: binds[2]->Text_0,
        impact: binds[3]->U8_0,
        description: binds[4]->Text_0,
        technologies: binds[5]->Text_0,
    }
}

/// The statement that saves a project for a handle, once its lists have been written
/// as JSON.
pub fn project_statement(
    handle: &str,
    project: &Project,
    technologies: Result<String, String>,
) -> (result: Result<Statement, StoreError>)
    ensures
        statement_result(result) == project_saved(handle@, project@, json_result(technologies)),
        match result {
            Ok(statement) => {
                &&& technologies is Ok
                &&& statement.sql@ == SAVE_PROJECT_SQL@
                &&& statement@.binds.len() == 6
                &&& statement@.binds.take(5) == seq![
                    ValueView::Text(project.id@),
                    ValueView::Text(handle@),
                    ValueView::Text(project.name@),
                    ValueView::U8(project.impact),
                    ValueView::Text(project.description@),
                ]
                &&& statement@.binds[5] == ValueView::Text(technologies->Ok_0@)
            },
            Err(error) => technologies matches Err(message) && error@ == StoreErrorView::Protocol(
                message@,
            ),
        },
{
    let technologies = match technologies {
        Ok(text) => text,
        Err(message) => return Err(StoreError::Protocol(message)),
    };
    let statement = Statement {
        sql: SAVE_PROJECT_SQL,
        binds: vec![
            Value::Text(project.id.clone()),
            Value::Text(handle.to_string()),
            Value::Text(project.name.clone()),
            Value::U8(project.impact),
            Value::Text(project.description.clone()),
            Value::Text(technologies),
        ],
    };
    assert(statement@ =~= project_saved(handle@, project@, Ok(technologies@))->Ok_0);
    Ok(statement)
}

/// Whether the row that is written for a project is read back as the project, under the
/// handle for which it was saved.
pub open spec fn project_reads_back(handle: Seq<char>, project: ProjectView) -> bool {
    project_saved(handle, project, json_text(project.technologies)) matches Ok(saved) && decoded_project(
        project_row(saved.binds),
    ) == Ok::<ProjectView, StoreErrorView>(ProjectView { profile_handle: handle, ..project })
}

/// Saves a project for a handle. Serializes `technologies` to JSON.
///
/// The row written holds the handle given, whatever handle the record names, and
/// is read back as the record otherwise unchanged.
pub fn save_project(handle: &str, project: &Project) -> (result: Result<Statement, StoreError>)
    ensures
        statement_result(result) == project_saved(
            handle@,
            project@,
            json_text(project@.technologies),
        ),
        result is Ok,
        project_reads_back(handle@, project@),
        result matches Ok(statement) && {
                &&& statement.sql@ == SAVE_PROJECT_SQL@
                &&& statement@.binds.len() == 6
                &&& statement@.binds.take(5) == seq![
                    ValueView::Text(project.id@),
                    ValueView::Text(handle@),
                    ValueView::Text(project.name@),
                    ValueView::U8(project.impact),
                    ValueView::Text(project.description@),
                ]
                &&& statement@.binds[5] matches ValueView::Text(text) && json_list(text) matches Ok(
                    items,
                ) && items == project.technologies.deep_view()
            },
{
    let technologies = encode_list(&project.technologies);
    project_statement(handle, project, technologies)
}

/// A user is saved with each value in its own column, in the order in which the
/// statement names the columns: `profile_handle`, `password`.
pub proof fn user_is_saved_by_column(user: UserView)
    ensures
        user_saved(user).sql == SAVE_USER_SQL@,
        user_saved(user).binds == seq![
            ValueView::Text(user.profile_handle),
            ValueView::Text(user.password),
        ],
        user_of_row(user_saved(user).binds) == user,
{
}

/// A profile is saved with each value in its own column, in the order in which the
/// statement names the columns: `handle`, `name`, `title`, `location`, `summary`, `picture`.
pub proof fn profile_is_saved_by_column(profile: ProfileView)
    ensures
        profile_saved(profile).sql == SAVE_PROFILE_SQL@,
        profile_saved(profile).binds == seq![
            ValueView::Text(profile.handle),
            ValueView::Text(profile.name),
            ValueView::Text(profile.title),
            ValueView::Text(profile.location),
            ValueView::Text(profile.summary),
            ValueView::Text(profile.picture),
        ],
        profile_of_row(profile_saved(profile).binds) == profile,
{
}

/// The figures of a profile are saved with each value in its own column, in the order in which the
/// statement names the columns: `id`, `leadership`, `technical_depth`, `automation_index`, `transferability`, `innovation`, `neural_load`.
pub proof fn analytics_is_saved_by_column(analytics: AnalyticsView)
    ensures
        analytics_saved(analytics).sql == SAVE_ANALYTICS_SQL@,
        analytics_saved(analytics).binds == seq![
            ValueView::Text(analytics.id),
            ValueView::U32(analytics.leadership),
            ValueView::U32(analytics.technical_depth),
            ValueView::U32(analytics.automation_index),
            ValueView::U32(analytics.transferability),
            ValueView::U32(analytics.innovation),
            ValueView::U32(analytics.neural_load),
        ],
        analytics_of_row(analytics_saved(analytics).binds) == analytics,
{
}

/// A skill is saved with each value in its own column, the handle given in place of
/// its own, and its lists as the JSON texts given.
pub proof fn skill_is_saved_by_column(
    handle: Seq<char>,
    skill: SkillView,
    links: Seq<char>,
)
    ensures
        skill_saved(handle, skill, Ok(links)) matches Ok(statement) && statement.sql == SAVE_SKILL_SQL@
            && statement.binds == seq![
            ValueView::Text(skill.id),
            ValueView::Text(handle),
            ValueView::Text(skill.name),
            ValueView::Text(skill.category),
            ValueView::U8(skill.score),
            ValueView::Text(links),
        ],
{
}

/// An experience is saved with each value in its own column, the handle given in place of
/// its own, and its lists as the JSON texts given.
pub proof fn experience_is_saved_by_column(
    handle: Seq<char>,
    experience: ExperienceView,
    achievements: Seq<char>,
    skills: Seq<char>,
)
    ensures
        experience_saved(handle, experience, Ok(achievements), Ok(skills)) matches Ok(statement) && statement.sql == SAVE_EXPERIENCE_SQL@
            && statement.binds == seq![
            ValueView::Text(experience.id),
            ValueView::Text(handle),
            ValueView::Text(experience.role),
            ValueView::Text(experience.organization),
            ValueView::F32Bits(experience.years_bits),
            ValueView::Text(experience.summary),
            ValueView::Text(achievements),
            ValueView::Text(skills),
        ],
{
}

/// A project is saved with each value in its own column, the handle given in place of
/// its own, and its lists as the JSON texts given.
pub proof fn project_is_saved_by_column(
    handle: Seq<char>,
    project: ProjectView,
    technologies: Seq<char>,
)
    ensures
        project_saved(handle, project, Ok(technologies)) matches Ok(statement) && statement.sql == SAVE_PROJECT_SQL@
            && statement.binds == seq![
            ValueView::Text(project.id),
            ValueView::Text(handle),
            ValueView::Text(project.name),
            ValueView::U8(project.impact),
            ValueView::Text(project.description),
            ValueView::Text(technologies),
        ],
{
}

} // verus!
