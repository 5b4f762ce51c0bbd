//! The requests that read and edit single records, and their replies.
//!
//! Each request is a statement for the database. What the database gives back
//! goes through a reply function, which decides the answer.
use vstd::prelude::*;

use crate::json::{json_list, json_text};
use crate::records::{
    EditQuery, Experience, ExperienceView, NewSubProjectQuery, NewSubProjectQueryView, Profile,
    Project, ProjectView, Skill, SkillView, SubProject, SubProjectQuery, SubProjectQueryView, User,
    UserView,
};
use crate::rows::{
    decode_experiences, decode_projects, decode_skills, decoded_experience, decoded_experiences,
    decoded_project, decoded_projects, decoded_skill, decoded_skills, ExperienceRow, ProjectRow,
    SkillRow,
};
use crate::saves::{
    experience_row, experience_saved, profile_of_row, profile_saved, project_row, project_saved,
    save_experience, save_profile, save_project, save_skill, save_user, skill_row, skill_saved,
    user_of_row, user_saved, SAVE_EXPERIENCE_SQL, SAVE_PROFILE_SQL, SAVE_PROJECT_SQL,
    SAVE_SKILL_SQL, SAVE_USER_SQL,
};
use crate::status::StatusCode;
use crate::store::{
    statement_result, Statement, StatementView, StoreError, StoreErrorView, Value, ValueView,
};

verus! {

/// Reads the password kept for a handle.
pub const USER_SQL: &'static str = "SELECT * FROM users WHERE profile_handle = ?";

/// Reads the profile of a handle.
pub const PROFILE_SQL: &'static str = r#"
         SELECT handle, name, title, location, summary, picture
         FROM profiles 
         WHERE handle = ?
       "#;

/// Reads the skills of a handle.
pub const SKILLS_SQL: &'static str = r#"
         SELECT id, profile_handle, name, category, score, links
         FROM skills 
         WHERE profile_handle = ?
       "#;

/// Reads the projects of a handle.
pub const PROJECTS_SQL: &'static str = r#"
         SELECT id, profile_handle, name, impact, description, technologies
         FROM projects 
         WHERE profile_handle = ?
       "#;

/// Reads the experiences of a handle.
pub const EXPERIENCES_SQL: &'static str = r#"
         SELECT id, profile_handle, role, organization, years, summary, achievements, skills
         FROM experiences
         WHERE profile_handle = ?
       "#;

/// Reads the sub-projects of a project and a handle, in their order of display.
pub const SUBPROJECTS_SQL: &'static str = r#"
         SELECT id, project_id, project_name, profile_handle, subproject_name, subproject_category, display_order 
         FROM sub_projects 
         WHERE project_id = ? AND profile_handle = ?
         ORDER BY display_order ASC, id ASC
       "#;

/// Adds a sub-project, and gives it back as it was stored.
pub const NEW_SUBPROJECT_SQL: &'static str = r#"
         INSERT INTO sub_projects (project_id, project_name, profile_handle, subproject_name, subproject_category)
         VALUES (?, ?, ?, ?, ?)
         RETURNING id, project_id, project_name, profile_handle, subproject_name, subproject_category, display_order
        "#;

/// A statement with one placeholder.
pub open spec fn with_handle(sql: Seq<char>, handle: Seq<char>) -> StatementView {
    StatementView { sql, binds: seq![ValueView::Text(handle)] }
}

/// A statement with one placeholder.
pub fn for_handle(sql: &'static str, handle: &str) -> (statement: Statement)
    ensures
        statement@ == with_handle(sql@, handle@),
        statement.sql == sql,
        statement@.binds == seq![ValueView::Text(handle@)],
{
    let statement = Statement { sql, binds: vec![Value::Text(handle.to_string())] };
    assert(statement@ =~= with_handle(sql@, handle@));
    statement
}

/// The statement that reads the password kept for a handle.
pub fn get_user_password(profile_handle: &str) -> (statement: Statement)
    ensures
        statement@ == with_handle(USER_SQL@, profile_handle@),
        statement.sql@ == USER_SQL@,
        statement@.binds == seq![ValueView::Text(profile_handle@)],
{
    for_handle(USER_SQL, profile_handle)
}

/// The statement that reads the password kept for the handle asked for.
pub fn get_password(params: &EditQuery) -> (statement: Statement)
    ensures
        statement@ == with_handle(USER_SQL@, params@.profile_handle),
        statement.sql@ == USER_SQL@,
        statement@.binds == seq![ValueView::Text(params.profile_handle@)],
{
    get_user_password(params.profile_handle.as_str())
}

/// The reply with a password: not found where the database gave none.
pub fn password_reply(found: Result<User, StoreError>) -> (reply: Result<User, StatusCode>)
    ensures
        match (found, reply) {
            (Ok(user), Ok(answer)) => answer == user && answer@ == user@,
            (Err(_), Err(status)) => status == StatusCode::NotFound,
            _ => false,
        },
{
    match found {
        Ok(user) => Ok(user),
        Err(_) => Err(StatusCode::NotFound),
    }
}

/// The statement that reads the profile asked for.
pub fn get_profile(params: &EditQuery) -> (statement: Statement)
    ensures
        statement@ == with_handle(PROFILE_SQL@, params@.profile_handle),
        statement.sql@ == PROFILE_SQL@,
        statement@.binds == seq![ValueView::Text(params.profile_handle@)],
{
    for_handle(PROFILE_SQL, params.profile_handle.as_str())
}

/// The reply with a profile: not found where the database gave none.
pub fn profile_reply(found: Result<Profile, StoreError>) -> (reply: Result<Profile, StatusCode>)
    ensures
        match (found, reply) {
            (Ok(profile), Ok(answer)) => answer == profile && answer@ == profile@,
            (Err(_), Err(status)) => status == StatusCode::NotFound,
            _ => false,
        },
{
    match found {
        Ok(profile) => Ok(profile),
        Err(_) => Err(StatusCode::NotFound),
    }
}

/// The statement that reads the skills of the handle asked for.
pub fn get_skills(params: &EditQuery) -> (statement: Statement)
    ensures
        statement@ == with_handle(SKILLS_SQL@, params@.profile_handle),
        statement.sql@ == SKILLS_SQL@,
        statement@.binds == seq![ValueView::Text(params.profile_handle@)],
{
    for_handle(SKILLS_SQL, params.profile_handle.as_str())
}

/// The reply with skills: the records of the rows, in their order; not found where the
/// database gave an error, or where a row cannot be read.
pub fn skills_reply(found: Result<Vec<SkillRow>, StoreError>) -> (reply: Result<
    Vec<Skill>,
    StatusCode,
>)
    ensures
        match reply {
            Ok(skills) => found matches Ok(rows) && decoded_skills(rows.deep_view()) == Ok::<
                Seq<SkillView>,
                StoreErrorView,
            >(skills.deep_view()),
            Err(status) => status == StatusCode::NotFound && (found matches Ok(rows)
                ==> decoded_skills(rows.deep_view()) is Err),
        },
        (found is Err ==> reply is Err),
        (found matches Ok(rows) && reply matches Ok(skills)) ==> {
            let rows = found->Ok_0;
            let skills = reply->Ok_0;
            &&& skills@.len() == rows@.len()
            &&& forall|i: int|
                0 <= i < rows@.len() ==> {
                    &&& (#[trigger] skills@[i]).deep_view() == skills@[i]@
                    &&& skills@[i].id@ == rows@[i].id@
                    &&& skills@[i].profile_handle@ == rows@[i].profile_handle@
                    &&& skills@[i].name@ == rows@[i].name@
                    &&& skills@[i].category@ == rows@[i].category@
                    &&& skills@[i].score == rows@[i].score
                    &&& json_list(rows@[i].links@) matches Ok(items) && skills@[i].links.deep_view()
                        == items
                }
        },
        (found matches Ok(rows) && reply is Err) ==> exists|i: int|
            0 <= i < found->Ok_0@.len() && (json_list((#[trigger] found->Ok_0@[i]).links@) is Err),
{
    match found {
        Ok(rows) => match decode_skills(&rows) {
            Ok(skills) => Ok(skills),
            Err(_) => Err(StatusCode::NotFound),
        },
        Err(_) => Err(StatusCode::NotFound),
    }
}

/// The statement that reads the projects of the handle asked for.
pub fn get_projects(params: &EditQuery) -> (statement: Statement)
    ensures
        statement@ == with_handle(PROJECTS_SQL@, params@.profile_handle),
        statement.sql@ == PROJECTS_SQL@,
        statement@.binds == seq![ValueView::Text(params.profile_handle@)],
{
    for_handle(PROJECTS_SQL, params.profile_handle.as_str())
}

/// The reply with projects: the records of the rows, in their order; not found where the
/// database gave an error, or where a row cannot be read.
pub fn projects_reply(found: Result<Vec<ProjectRow>, StoreError>) -> (reply: Result<
    Vec<Project>,
    StatusCode,
>)
    ensures
        match reply {
            Ok(projects) => found matches Ok(rows) && decoded_projects(rows.deep_view()) == Ok::<
                Seq<ProjectView>,
                StoreErrorView,
            >(projects.deep_view()),
            Err(status) => status == StatusCode::NotFound && (found matches Ok(rows)
                ==> decoded_projects(rows.deep_view()) is Err),
        },
        (found is Err ==> reply is Err),
        (found matches Ok(rows) && reply matches Ok(projects)) ==> {
            let rows = found->Ok_0;
            let projects = reply->Ok_0;
            &&& projects@.len() == rows@.len()
            &&& forall|i: int|
                0 <= i < rows@.len() ==> {
                    &&& (#[trigger] projects@[i]).deep_view() == projects@[i]@
                    &&& projects@[i].id@ == rows@[i].id@
                    &&& projects@[i].profile_handle@ == rows@[i].profile_handle@
                    &&& projects@[i].name@ == rows@[i].name@
                    &&& projects@[i].impact == rows@[i].impact
                    &&& projects@[i].description@ == rows@[i].description@
                    &&& json_list(rows@[i].technologies@) matches Ok(items) && projects@[i].technologies.deep_view()
                        == items
                }
        },
        (found matches Ok(rows) && reply is Err) ==> exists|i: int|
            0 <= i < found->Ok_0@.len() && (json_list((#[trigger] found->Ok_0@[i]).technologies@) is Err),
{
    match found {
        Ok(rows) => match decode_projects(&rows) {
            Ok(projects) => Ok(projects),
            Err(_) => Err(StatusCode::NotFound),
        },
        Err(_) => Err(StatusCode::NotFound),
    }
}

/// The statement that reads the experiences of the handle asked for.
pub fn get_experiences(params: &EditQuery) -> (statement: Statement)
    ensures
        statement@ == with_handle(EXPERIENCES_SQL@, params@.profile_handle),
        statement.sql@ == EXPERIENCES_SQL@,
        statement@.binds == seq![ValueView::Text(params.profile_handle@)],
{
    for_handle(EXPERIENCES_SQL, params.profile_handle.as_str())
}

/// The reply with experiences: the records of the rows, in their order; not found where the
/// database gave an error, or where a row cannot be read.
pub fn experiences_reply(found: Result<Vec<ExperienceRow>, StoreError>) -> (reply: Result<
    Vec<Experience>,
    StatusCode,
>)
    ensures
        match reply {
            Ok(experiences) => found matches Ok(rows) && decoded_experiences(rows.deep_view()) == Ok::<
                Seq<ExperienceView>,
                StoreErrorView,
            >(experiences.deep_view()),
            Err(status) => status == StatusCode::NotFound && (found matches Ok(rows)
                ==> decoded_experiences(rows.deep_view()) is Err),
        },
        (found is Err ==> reply is Err),
        (found matches Ok(rows) && reply matches Ok(experiences)) ==> {
            let rows = found->Ok_0;
            let experiences = reply->Ok_0;
            &&& experiences@.len() == rows@.len()
            &&& forall|i: int|
                0 <= i < rows@.len() ==> {
                    &&& (#[trigger] experiences@[i]).deep_view() == experiences@[i]@
                    &&& experiences@[i].id@ == rows@[i].id@
                    &&& experiences@[i].profile_handle@ == rows@[i].profile_handle@
                    &&& experiences@[i].role@ == rows@[i].role@
                    &&& experiences@[i].organization@ == rows@[i].organization@
                    &&& experiences@[i].years_bits == rows@[i].years_bits
                    &&& experiences@[i].summary@ == rows@[i].summary@
                    &&& json_list(rows@[i].achievements@) matches Ok(items) && experiences@[i].achievements.deep_view()
                        == items
                    &&& json_list(rows@[i].skills@) matches Ok(items) && experiences@[i].skills.deep_view()
                        == items
                }
        },
        (found matches Ok(rows) && reply is Err) ==> exists|i: int|
            0 <= i < found->Ok_0@.len() && (json_list((#[trigger] found->Ok_0@[i]).achievements@) is Err || json_list(found->Ok_0@[i].skills@) is Err),
{
    match found {
        Ok(rows) => match decode_experiences(&rows) {
            Ok(experiences) => Ok(experiences),
            Err(_) => Err(StatusCode::NotFound),
        },
        Err(_) => Err(StatusCode::NotFound),
    }
}

/// The statement that reads the sub-projects asked for.
pub open spec fn subprojects_of(params: SubProjectQueryView) -> StatementView {
    StatementView {
        sql: SUBPROJECTS_SQL@,
        binds: seq![ValueView::Text(params.project_id), ValueView::Text(params.profile_handle)],
    }
}

/// The statement that reads the sub-projects asked for.
pub fn get_subprojects(params: &SubProjectQuery) -> (statement: Statement)
    ensures
        statement@ == subprojects_of(params@),
        statement.sql@ == SUBPROJECTS_SQL@,
        statement@.binds == seq![
            ValueView::Text(params.project_id@),
            ValueView::Text(params.profile_handle@),
        ],
{
    let statement = Statement {
        sql: SUBPROJECTS_SQL,
        binds: vec![
            Value::Text(params.project_id.clone()),
            Value::Text(params.profile_handle.clone()),
        ],
    };
    assert(statement@ =~= subprojects_of(params@));
    statement
}

/// The reply with sub-projects, in the order in which the database gave them.
pub fn subprojects_reply(found: Result<Vec<SubProject>, StoreError>) -> (reply: Result<
    Vec<SubProject>,
    StatusCode,
>)
    ensures
        match (found, reply) {
            (Ok(items), Ok(answer)) => answer == items && answer.deep_view() == items.deep_view(),
            (Err(_), Err(status)) => status == StatusCode::InternalServerError,
            _ => false,
        },
{
    match found {
        Ok(items) => Ok(items),
        Err(_) => Err(StatusCode::InternalServerError),
    }
}

/// The statement that adds a sub-project.
pub open spec fn subproject_added(payload: NewSubProjectQueryView) -> StatementView {
    StatementView {
        sql: NEW_SUBPROJECT_SQL@,
        binds: seq![
            ValueView::Text(payload.project_id),
            ValueView::Text(payload.project_name),
            ValueView::Text(payload.profile_handle),
            ValueView::Text(payload.subproject_name),
            ValueView::Text(payload.subproject_category),
        ],
    }
}

/// The statement that adds a sub-project.
pub fn new_subprojects(payload: &NewSubProjectQuery) -> (statement: Statement)
    ensures
        statement@ == subproject_added(payload@),
        statement.sql@ == NEW_SUBPROJECT_SQL@,
        statement@.binds == seq![
            ValueView::Text(payload.project_id@),
            ValueView::Text(payload.project_name@),
            ValueView::Text(payload.profile_handle@),
            ValueView::Text(payload.subproject_name@),
            ValueView::Text(payload.subproject_category@),
        ],
{
    let statement = Statement {
        sql: NEW_SUBPROJECT_SQL,
        binds: vec![
            Value::Text(payload.project_id.clone()),
            Value::Text(payload.project_name.clone()),
            Value::Text(payload.profile_handle.clone()),
            Value::Text(payload.subproject_name.clone()),
            Value::Text(payload.subproject_category.clone()),
        ],
    };
    assert(statement@ =~= subproject_added(payload@));
    statement
}

/// The reply with the sub-project that was added.
pub fn new_subproject_reply(added: Result<SubProject, StoreError>) -> (reply: Result<
    SubProject,
    StatusCode,
>)
    ensures
        match (added, reply) {
            (Ok(item), Ok(answer)) => answer == item && answer@ == item@,
            (Err(_), Err(status)) => status == StatusCode::InternalServerError,
            _ => false,
        },
{
    match added {
        Ok(item) => Ok(item),
        Err(_) => Err(StatusCode::InternalServerError),
    }
}

/// What an answer without contents holds: its status, and the text of an error.
pub open spec fn answer_of(reply: Result<StatusCode, (StatusCode, String)>) -> Result<
    StatusCode,
    (StatusCode, Seq<char>),
> {
    match reply {
        Ok(status) => Ok(status),
        Err((status, text)) => Err((status, text@)),
    }
}

/// The statement that reads the password that a logon is held against.
pub fn logon(payload: &User) -> (statement: Statement)
    ensures
        statement@ == with_handle(USER_SQL@, payload@.profile_handle),
        statement.sql@ == USER_SQL@,
        statement@.binds == seq![ValueView::Text(payload.profile_handle@)],
{
    get_user_password(payload.profile_handle.as_str())
}

/// The answer to a logon: whether the handle is known, and the password the one
/// kept for it.
pub open spec fn logon_answer(payload: UserView, found: Option<UserView>) -> Result<
    StatusCode,
    (StatusCode, Seq<char>),
> {
    match found {
        None => Err(
            (
                StatusCode::NotFound,
                "[ LOGIN FAILED ]: Target handle not found in registry."@,
            ),
        ),
        Some(user) => if user.password == payload.password {
            Ok(StatusCode::Success)
        } else {
            Err(
                (
                    StatusCode::Unauthorized,
                    "[ LOGIN FAILED ]: Invalid designation (password mismatch)."@,
                ),
            )
        },
    }
}

/// The user that the database gave; none where it gave an error.
pub open spec fn user_found(found: Result<User, StoreError>) -> Option<UserView> {
    match found {
        Ok(user) => Some(user@),
        Err(_) => None,
    }
}

/// The reply to a logon.
pub fn logon_reply(payload: &User, found: Result<User, StoreError>) -> (reply: Result<
    StatusCode,
    (StatusCode, String),
>)
    ensures
        answer_of(reply) == logon_answer(payload@, user_found(found)),
        (reply is Ok) == (found matches Ok(user) && user.password@ == payload.password@),
        reply matches Ok(status) ==> status == StatusCode::Success,
        (found matches Ok(user) && user.password@ != payload.password@) ==> (reply matches Err(
            (status, text),
        ) && status == StatusCode::Unauthorized && text@
            == "[ LOGIN FAILED ]: Invalid designation (password mismatch)."@),
        found is Err ==> (reply matches Err((status, text)) && status == StatusCode::NotFound
            && text@ == "[ LOGIN FAILED ]: Target handle not found in registry."@),
{
    match found {
        Err(_) => Err(
            (
                StatusCode::NotFound,
                "[ LOGIN FAILED ]: Target handle not found in registry.".to_string(),
            ),
        ),
        Ok(user) => {
            if user.password != payload.password {
                return Err(
                    (
                        StatusCode::Unauthorized,
                        "[ LOGIN FAILED ]: Invalid designation (password mismatch).".to_string(),
                    ),
                );
            }
            Ok(StatusCode::Success)
        },
    }
}

/// The answer to an update, which succeeds unless the record could not be stored.
pub open spec fn update_answer(error: Option<StoreErrorView>) -> Result<
    StatusCode,
    (StatusCode, Seq<char>),
> {
    match error {
        None => Ok(StatusCode::Success),
        Some(error) => Err(
            (
                StatusCode::InternalServerError,
                "[ DATABASE TRANSACTION CORRUPTED ]: "@ + error.text(),
            ),
        ),
    }
}

/// The error in an outcome.
pub open spec fn store_error(outcome: Result<(), StoreError>) -> Option<StoreErrorView> {
    match outcome {
        Ok(_) => None,
        Err(error) => Some(error@),
    }
}

/// The reply to an update.
pub fn update_reply(outcome: Result<(), StoreError>) -> (reply: Result<
    StatusCode,
    (StatusCode, String),
>)
    ensures
        answer_of(reply) == update_answer(store_error(outcome)),
        outcome is Ok ==> reply == Ok::<StatusCode, (StatusCode, String)>(StatusCode::Success),
        outcome matches Err(error) ==> (reply matches Err((status, text)) && status
            == StatusCode::InternalServerError && text@
            == "[ DATABASE TRANSACTION CORRUPTED ]: "@ + error@.text()),
{
    match outcome {
        Ok(_) => Ok(StatusCode::Success),
        Err(error) => Err(
            (
                StatusCode::InternalServerError,
                "[ DATABASE TRANSACTION CORRUPTED ]: ".to_string().concat(error.text().as_str()),
            ),
        ),
    }
}

/// The statement that changes a password.
pub fn update_password(payload: &User) -> (statement: Statement)
    ensures
        statement@ == user_saved(payload@),
        user_of_row(statement@.binds) == payload@,
        statement.sql@ == SAVE_USER_SQL@,
        statement@.binds == seq![
            ValueView::Text(payload.profile_handle@),
            ValueView::Text(payload.password@),
        ],
{
    save_user(payload)
}

/// The statement that updates a profile.
pub fn update_profile(payload: &Profile) -> (statement: Statement)
    ensures
        statement@ == profile_saved(payload@),
        profile_of_row(statement@.binds) == payload@,
        statement.sql@ == SAVE_PROFILE_SQL@,
        statement@.binds == seq![
            ValueView::Text(payload.handle@),
            ValueView::Text(payload.name@),
            ValueView::Text(payload.title@),
            ValueView::Text(payload.location@),
            ValueView::Text(payload.summary@),
            ValueView::Text(payload.picture@),
        ],
{
    save_profile(payload)
}

/// The statement that updates a project of the handle that it names. The row is read back
/// as the record.
pub fn update_projects(payload: &Project) -> (result: Result<Statement, StoreError>)
    ensures
        statement_result(result) == project_saved(
            payload@.profile_handle,
            payload@,
            json_text(payload@.technologies),
        ),
        result is Ok,
        result matches Ok(statement) ==> decoded_project(project_row(statement@.binds)) == Ok::<
            ProjectView,
            StoreErrorView,
        >(payload@),
        result matches Ok(statement) && {
            &&& statement.sql@ == SAVE_PROJECT_SQL@
            &&& statement@.binds.len() == 6
            &&& statement@.binds.take(5) == seq![
                ValueView::Text(payload.id@),
                ValueView::Text(payload.profile_handle@),
                ValueView::Text(payload.name@),
                ValueView::U8(payload.impact),
                ValueView::Text(payload.description@),
            ]
            &&& statement@.binds[5] matches ValueView::Text(text) && json_list(text) matches Ok(
                items,
            ) && items == payload.technologies.deep_view()
        },
{
    save_project(payload.profile_handle.as_str(), payload)
}

/// The statement that updates a skill of the handle that it names. The row is read back
/// as the record.
pub fn update_skills(payload: &Skill) -> (result: Result<Statement, StoreError>)
    ensures
        statement_result(result) == skill_saved(
            payload@.profile_handle,
            payload@,
            json_text(payload@.links),
        ),
        result is Ok,
        result matches Ok(statement) ==> decoded_skill(skill_row(statement@.binds)) == Ok::<
            SkillView,
            StoreErrorView,
        >(payload@),
        result matches Ok(statement) && {
            &&& statement.sql@ == SAVE_SKILL_SQL@
            &&& statement@.binds.len() == 6
            &&& statement@.binds.take(5) == seq![
                ValueView::Text(payload.id@),
                ValueView::Text(payload.profile_handle@),
                ValueView::Text(payload.name@),
                ValueView::Text(payload.category@),
                ValueView::U8(payload.score),
            ]
            &&& statement@.binds[5] matches ValueView::Text(text) && json_list(text) matches Ok(
                items,
            ) && items == payload.links.deep_view()
        },
{
    save_skill(payload.profile_handle.as_str(), payload)
}

/// The statement that updates an experience of the handle that it names. The row is read back
/// as the record.
pub fn update_experiences(payload: &Experience) -> (result: Result<Statement, StoreError>)
    ensures
        statement_result(result) == experience_saved(
            payload@.profile_handle,
            payload@,
            json_text(payload@.achievements),
            json_text(payload@.skills),
        ),
        result is Ok,
        result matches Ok(statement) ==> decoded_experience(experience_row(statement@.binds)) == Ok::<
            ExperienceView,
            StoreErrorView,
        >(payload@),
        result matches Ok(statement) && {
            &&& statement.sql@ == SAVE_EXPERIENCE_SQL@
            &&& statement@.binds.len() == 8
            &&& statement@.binds.take(6) == seq![
                ValueView::Text(payload.id@),
                ValueView::Text(payload.profile_handle@),
                ValueView::Text(payload.role@),
                ValueView::Text(payload.organization@),
                ValueView::F32Bits(payload.years_bits),
                ValueView::Text(payload.summary@),
            ]
            &&& statement@.binds[6] matches ValueView::Text(text) && json_list(text) matches Ok(
                items,
            ) && items == payload.achievements.deep_view()
            &&& statement@.binds[7] matches ValueView::Text(text) && json_list(text) matches Ok(
                items,
            ) && items == payload.skills.deep_view()
        },
{
    save_experience(payload.profile_handle.as_str(), payload)
}

/// A password that was changed is the one that the next logon is held against:
/// the logon reads the row of the handle for which it was saved, and succeeds
/// exactly with that password.
pub proof fn changed_password_is_asked_for(changed: UserView, attempt: UserView)
    requires
        attempt.profile_handle == changed.profile_handle,
    ensures
        with_handle(USER_SQL@, attempt.profile_handle).binds[0] == user_saved(changed).binds[0],
        (logon_answer(attempt, Some(user_of_row(user_saved(changed).binds))) is Ok)
            == (attempt.password == changed.password),
{
}

/// A logon succeeds only with a password that is kept.
pub proof fn logon_needs_the_password(payload: UserView, found: Option<UserView>)
    requires
        logon_answer(payload, found) is Ok,
    ensures
        found is Some,
        found->0.password == payload.password,
{
}

/// A statement with one placeholder is given the handle as its value, and no other.
pub proof fn handle_is_the_only_value(sql: Seq<char>, handle: Seq<char>)
    ensures
        with_handle(sql, handle).sql == sql,
        with_handle(sql, handle).binds.len() == 1,
        with_handle(sql, handle).binds[0] == ValueView::Text(handle),
{
}

/// A logon is decided by the password kept alone: with it, it succeeds, with any
/// other it is unauthorized, and where none is kept, the handle is not found.
pub proof fn logon_is_decided_by_the_password(payload: UserView, kept: UserView)
    ensures
        (logon_answer(payload, Some(kept)) == Ok::<StatusCode, (StatusCode, Seq<char>)>(
            StatusCode::Success,
        )) == (payload.password == kept.password),
        payload.password != kept.password ==> (logon_answer(payload, Some(kept)) matches Err(
            (status, _),
        ) && status == StatusCode::Unauthorized),
        logon_answer(payload, None) matches Err((status, _)) && status == StatusCode::NotFound,
{
}

/// An update is answered with the text of the error that kept it from being stored,
/// and with success where there was none. Different errors are told apart.
pub proof fn update_tells_its_error(error: StoreErrorView, other: StoreErrorView)
    ensures
        update_answer(None) == Ok::<StatusCode, (StatusCode, Seq<char>)>(StatusCode::Success),
        update_answer(Some(error)) matches Err((status, text)) && status
            == StatusCode::InternalServerError && text
            == "[ DATABASE TRANSACTION CORRUPTED ]: "@ + error.text(),
        update_answer(Some(error)) == update_answer(Some(other)) ==> error.text() == other.text(),
{
    let head = "[ DATABASE TRANSACTION CORRUPTED ]: "@;
    let (one, two) = (head + error.text(), head + other.text());
    assert(one.skip(head.len() as int) =~= error.text());
    assert(two.skip(head.len() as int) =~= other.text());
}

/// Sub-projects are asked for by project and handle, and added with each value in the
/// place of its column.
pub proof fn subprojects_are_named_in_full(
    params: SubProjectQueryView,
    payload: NewSubProjectQueryView,
)
    ensures
        subprojects_of(params).sql == SUBPROJECTS_SQL@,
        subprojects_of(params).binds == seq![
            ValueView::Text(params.project_id),
            ValueView::Text(params.profile_handle),
        ],
        subproject_added(payload).sql == NEW_SUBPROJECT_SQL@,
        subproject_added(payload).binds == seq![
            ValueView::Text(payload.project_id),
            ValueView::Text(payload.project_name),
            ValueView::Text(payload.profile_handle),
            ValueView::Text(payload.subproject_name),
            ValueView::Text(payload.subproject_category),
        ],
{
}

} // verus!
