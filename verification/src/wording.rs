//! What the statements say to the database.
//!
//! Each law names the parts that a statement is made of: the table, the columns in
//! the order of the values, and the conditions.
use vstd::prelude::*;

use crate::dashboard::{
    ALL_ANALYTICS_SQL, ALL_EXPERIENCES_SQL, ALL_PROFILES_SQL, ALL_PROJECTS_SQL, ALL_SKILLS_SQL,
    EXISTING_SQL,
};
use crate::edits::{
    EXPERIENCES_SQL, NEW_SUBPROJECT_SQL, PROFILE_SQL, PROJECTS_SQL, SKILLS_SQL, SUBPROJECTS_SQL,
    USER_SQL,
};
use crate::portal::CONNECTED_HTML;
use crate::saves::{
    INIT_DB_SQL, SAVE_ANALYTICS_SQL, SAVE_EXPERIENCE_SQL, SAVE_PROFILE_SQL, SAVE_PROJECT_SQL,
    SAVE_SKILL_SQL, SAVE_USER_SQL,
};
use crate::search::SEARCH_SQL;

verus! {

/// Whether a part occurs in a text.
pub open spec fn says(text: Seq<char>, part: Seq<char>) -> bool {
    exists|p: int|
        0 <= p && p + part.len() <= text.len() && #[trigger] text.subrange(p, p + part.len())
            == part
}

/// Whether a text begins with a part.
pub open spec fn begins(text: Seq<char>, part: Seq<char>) -> bool {
    part.len() <= text.len() && text.subrange(0, part.len() as int) == part
}

/// Whether a text ends with a part.
pub open spec fn ends(text: Seq<char>, part: Seq<char>) -> bool {
    part.len() <= text.len() && text.subrange(text.len() - part.len(), text.len() as int) == part
}

/// Saving a user writes its handle and password, or, where the handle has one, its
/// password over the other.
/// By its length, it holds nothing else but blanks.
pub proof fn a_user_is_stored()
    ensures
        SAVE_USER_SQL@.len() == 178,
        begins(SAVE_USER_SQL@, "\n        INSERT INTO users (profile_handle, password)"@),
        says(SAVE_USER_SQL@, "VALUES (?, ?)"@),
        says(SAVE_USER_SQL@, "ON CONFLICT(profile_handle) DO UPDATE SET"@),
        ends(SAVE_USER_SQL@, "password =  excluded.password\n        "@),
{
    reveal_strlit(r#"
        INSERT INTO users (profile_handle, password) 
        VALUES (?, ?)
        ON CONFLICT(profile_handle) DO UPDATE SET 
            password =  excluded.password
        "#);
    reveal_strlit("\n        INSERT INTO users (profile_handle, password)");
    let part = "\n        INSERT INTO users (profile_handle, password)"@;
    assert(SAVE_USER_SQL@.subrange(0, 0int + part.len()) =~= part);
    reveal_strlit("VALUES (?, ?)");
    let part = "VALUES (?, ?)"@;
    assert(SAVE_USER_SQL@.subrange(63, 63int + part.len()) =~= part);
    reveal_strlit("ON CONFLICT(profile_handle) DO UPDATE SET");
    let part = "ON CONFLICT(profile_handle) DO UPDATE SET"@;
    assert(SAVE_USER_SQL@.subrange(85, 85int + part.len()) =~= part);
    reveal_strlit("password =  excluded.password\n        ");
    let part = "password =  excluded.password\n        "@;
    assert(SAVE_USER_SQL@.subrange(140, 140int + part.len()) =~= part);
}

/// Saving a profile writes all its columns, or, where the handle has one, overwrites
/// each of the others with the value given for it.
/// By its length, it holds nothing else but blanks.
pub proof fn a_profile_is_stored()
    ensures
        SAVE_PROFILE_SQL@.len() == 357,
        begins(SAVE_PROFILE_SQL@, "\n        INSERT INTO profiles (handle, name, title, location, summary, picture)"@),
        says(SAVE_PROFILE_SQL@, "VALUES (?, ?, ?, ?, ?, ?)"@),
        says(SAVE_PROFILE_SQL@, "ON CONFLICT(handle) DO UPDATE SET"@),
        says(SAVE_PROFILE_SQL@, "name = excluded.name,"@),
        says(SAVE_PROFILE_SQL@, "title = excluded.title,"@),
        says(SAVE_PROFILE_SQL@, "location = excluded.location,"@),
        says(SAVE_PROFILE_SQL@, "summary = excluded.summary,"@),
        ends(SAVE_PROFILE_SQL@, "picture = excluded.picture\n        "@),
{
    reveal_strlit(r#"
        INSERT INTO profiles (handle, name, title, location, summary, picture) 
        VALUES (?, ?, ?, ?, ?, ?)
        ON CONFLICT(handle) DO UPDATE SET 
            name = excluded.name,
            title = excluded.title,
            location = excluded.location,
            summary = excluded.summary,
            picture = excluded.picture
        "#);
    reveal_strlit("\n        INSERT INTO profiles (handle, name, title, location, summary, picture)");
    let part = "\n        INSERT INTO profiles (handle, name, title, location, summary, picture)"@;
    assert(SAVE_PROFILE_SQL@.subrange(0, 0int + part.len()) =~= part);
    reveal_strlit("VALUES (?, ?, ?, ?, ?, ?)");
    let part = "VALUES (?, ?, ?, ?, ?, ?)"@;
    assert(SAVE_PROFILE_SQL@.subrange(89, 89int + part.len()) =~= part);
    reveal_strlit("ON CONFLICT(handle) DO UPDATE SET");
    let part = "ON CONFLICT(handle) DO UPDATE SET"@;
    assert(SAVE_PROFILE_SQL@.subrange(123, 123int + part.len()) =~= part);
    reveal_strlit("name = excluded.name,");
    let part = "name = excluded.name,"@;
    assert(SAVE_PROFILE_SQL@.subrange(170, 170int + part.len()) =~= part);
    reveal_strlit("title = excluded.title,");
    let part = "title = excluded.title,"@;
    assert(SAVE_PROFILE_SQL@.subrange(204, 204int + part.len()) =~= part);
    reveal_strlit("location = excluded.location,");
    let part = "location = excluded.location,"@;
    assert(SAVE_PROFILE_SQL@.subrange(240, 240int + part.len()) =~= part);
    reveal_strlit("summary = excluded.summary,");
    let part = "summary = excluded.summary,"@;
    assert(SAVE_PROFILE_SQL@.subrange(282, 282int + part.len()) =~= part);
    reveal_strlit("picture = excluded.picture\n        ");
    let part = "picture = excluded.picture\n        "@;
    assert(SAVE_PROFILE_SQL@.subrange(322, 322int + part.len()) =~= part);
}

/// Saving a skill writes all its columns, or, where the id has one, overwrites each of
/// the others with the value given for it.
/// By its length, it holds nothing else but blanks.
pub proof fn a_skill_is_stored()
    ensures
        SAVE_SKILL_SQL@.len() == 362,
        begins(SAVE_SKILL_SQL@, "\n        INSERT INTO skills (id, profile_handle, name, category, score, links)"@),
        says(SAVE_SKILL_SQL@, "VALUES (?, ?, ?, ?, ?, ?)"@),
        says(SAVE_SKILL_SQL@, "ON CONFLICT(id) DO UPDATE SET"@),
        says(SAVE_SKILL_SQL@, "profile_handle = excluded.profile_handle,"@),
        says(SAVE_SKILL_SQL@, "name = excluded.name,"@),
        says(SAVE_SKILL_SQL@, "category = excluded.category,"@),
        says(SAVE_SKILL_SQL@, "score = excluded.score,"@),
        ends(SAVE_SKILL_SQL@, "links = excluded.links\n        "@),
{
    reveal_strlit(r#"
        INSERT INTO skills (id, profile_handle, name, category, score, links) 
        VALUES (?, ?, ?, ?, ?, ?)
        ON CONFLICT(id) DO UPDATE SET
            profile_handle = excluded.profile_handle, 
            name = excluded.name,
            category = excluded.category,
            score = excluded.score,
            links = excluded.links
        "#);
    reveal_strlit("\n        INSERT INTO skills (id, profile_handle, name, category, score, links)");
    let part = "\n        INSERT INTO skills (id, profile_handle, name, category, score, links)"@;
    assert(SAVE_SKILL_SQL@.subrange(0, 0int + part.len()) =~= part);
    reveal_strlit("VALUES (?, ?, ?, ?, ?, ?)");
    let part = "VALUES (?, ?, ?, ?, ?, ?)"@;
    assert(SAVE_SKILL_SQL@.subrange(88, 88int + part.len()) =~= part);
    reveal_strlit("ON CONFLICT(id) DO UPDATE SET");
    let part = "ON CONFLICT(id) DO UPDATE SET"@;
    assert(SAVE_SKILL_SQL@.subrange(122, 122int + part.len()) =~= part);
    reveal_strlit("profile_handle = excluded.profile_handle,");
    let part = "profile_handle = excluded.profile_handle,"@;
    assert(SAVE_SKILL_SQL@.subrange(164, 164int + part.len()) =~= part);
    reveal_strlit("name = excluded.name,");
    let part = "name = excluded.name,"@;
    assert(SAVE_SKILL_SQL@.subrange(219, 219int + part.len()) =~= part);
    reveal_strlit("category = excluded.category,");
    let part = "category = excluded.category,"@;
    assert(SAVE_SKILL_SQL@.subrange(253, 253int + part.len()) =~= part);
    reveal_strlit("score = excluded.score,");
    let part = "score = excluded.score,"@;
    assert(SAVE_SKILL_SQL@.subrange(295, 295int + part.len()) =~= part);
    reveal_strlit("links = excluded.links\n        ");
    let part = "links = excluded.links\n        "@;
    assert(SAVE_SKILL_SQL@.subrange(331, 331int + part.len()) =~= part);
}

/// Saving an experience writes all its columns, or, where the id has one, overwrites
/// each of the others with the value given for it.
/// By its length, it holds nothing else but blanks.
pub proof fn an_experience_is_stored()
    ensures
        SAVE_EXPERIENCE_SQL@.len() == 502,
        begins(SAVE_EXPERIENCE_SQL@, "\n        INSERT INTO experiences (id, profile_handle, role, organization, years, summary, achievements, skills)"@),
        says(SAVE_EXPERIENCE_SQL@, "VALUES (?, ?, ?, ?, ?, ?, ?, ?)"@),
        says(SAVE_EXPERIENCE_SQL@, "ON CONFLICT(id) DO UPDATE SET"@),
        says(SAVE_EXPERIENCE_SQL@, "profile_handle = excluded.profile_handle,"@),
        says(SAVE_EXPERIENCE_SQL@, "role = excluded.role,"@),
        says(SAVE_EXPERIENCE_SQL@, "organization = excluded.organization,"@),
        says(SAVE_EXPERIENCE_SQL@, "years = excluded.years,"@),
        says(SAVE_EXPERIENCE_SQL@, "summary = excluded.summary,"@),
        says(SAVE_EXPERIENCE_SQL@, "achievements = excluded.achievements,"@),
        ends(SAVE_EXPERIENCE_SQL@, "skills = excluded.skills\n        "@),
{
    reveal_strlit(r#"
        INSERT INTO experiences (id, profile_handle, role, organization, years, summary, achievements, skills) 
        VALUES (?, ?, ?, ?, ?, ?, ?, ?)
        ON CONFLICT(id) DO UPDATE SET 
            profile_handle = excluded.profile_handle, 
            role = excluded.role,
            organization = excluded.organization,
            years = excluded.years,
            summary = excluded.summary,
            achievements = excluded.achievements,
            skills = excluded.skills
        "#);
    reveal_strlit("\n        INSERT INTO experiences (id, profile_handle, role, organization, years, summary, achievements, skills)");
    let part = "\n        INSERT INTO experiences (id, profile_handle, role, organization, years, summary, achievements, skills)"@;
    assert(SAVE_EXPERIENCE_SQL@.subrange(0, 0int + part.len()) =~= part);
    reveal_strlit("VALUES (?, ?, ?, ?, ?, ?, ?, ?)");
    let part = "VALUES (?, ?, ?, ?, ?, ?, ?, ?)"@;
    assert(SAVE_EXPERIENCE_SQL@.subrange(121, 121int + part.len()) =~= part);
    reveal_strlit("ON CONFLICT(id) DO UPDATE SET");
    let part = "ON CONFLICT(id) DO UPDATE SET"@;
    assert(SAVE_EXPERIENCE_SQL@.subrange(161, 161int + part.len()) =~= part);
    reveal_strlit("profile_handle = excluded.profile_handle,");
    let part = "profile_handle = excluded.profile_handle,"@;
    assert(SAVE_EXPERIENCE_SQL@.subrange(204, 204int + part.len()) =~= part);
    reveal_strlit("role = excluded.role,");
    let part = "role = excluded.role,"@;
    assert(SAVE_EXPERIENCE_SQL@.subrange(259, 259int + part.len()) =~= part);
    reveal_strlit("organization = excluded.organization,");
    let part = "organization = excluded.organization,"@;
    assert(SAVE_EXPERIENCE_SQL@.subrange(293, 293int + part.len()) =~= part);
    reveal_strlit("years = excluded.years,");
    let part = "years = excluded.years,"@;
    assert(SAVE_EXPERIENCE_SQL@.subrange(343, 343int + part.len()) =~= part);
    reveal_strlit("summary = excluded.summary,");
    let part = "summary = excluded.summary,"@;
    assert(SAVE_EXPERIENCE_SQL@.subrange(379, 379int + part.len()) =~= part);
    reveal_strlit("achievements = excluded.achievements,");
    let part = "achievements = excluded.achievements,"@;
    assert(SAVE_EXPERIENCE_SQL@.subrange(419, 419int + part.len()) =~= part);
    reveal_strlit("skills = excluded.skills\n        ");
    let part = "skills = excluded.skills\n        "@;
    assert(SAVE_EXPERIENCE_SQL@.subrange(469, 469int + part.len()) =~= part);
}

/// Saving a project writes all its columns, or, where the id has one, overwrites each
/// of the others with the value given for it.
/// By its length, it holds nothing else but blanks.
pub proof fn a_project_is_stored()
    ensures
        SAVE_PROJECT_SQL@.len() == 398,
        begins(SAVE_PROJECT_SQL@, "\n        INSERT INTO projects (id, profile_handle, name, impact, description, technologies)"@),
        says(SAVE_PROJECT_SQL@, "VALUES (?, ?, ?, ?, ?, ?)"@),
        says(SAVE_PROJECT_SQL@, "ON CONFLICT(id) DO UPDATE SET"@),
        says(SAVE_PROJECT_SQL@, "profile_handle = excluded.profile_handle,"@),
        says(SAVE_PROJECT_SQL@, "name = excluded.name,"@),
        says(SAVE_PROJECT_SQL@, "impact = excluded.impact,"@),
        says(SAVE_PROJECT_SQL@, "description = excluded.description,"@),
        ends(SAVE_PROJECT_SQL@, "technologies = excluded.technologies\n        "@),
{
    reveal_strlit(r#"
        INSERT INTO projects (id, profile_handle, name, impact, description, technologies) 
        VALUES (?, ?, ?, ?, ?, ?)
        ON CONFLICT(id) DO UPDATE SET 
            profile_handle = excluded.profile_handle, 
            name = excluded.name,
            impact = excluded.impact,
            description = excluded.description,
            technologies = excluded.technologies
        "#);
    reveal_strlit("\n        INSERT INTO projects (id, profile_handle, name, impact, description, technologies)");
    let part = "\n        INSERT INTO projects (id, profile_handle, name, impact, description, technologies)"@;
    assert(SAVE_PROJECT_SQL@.subrange(0, 0int + part.len()) =~= part);
    reveal_strlit("VALUES (?, ?, ?, ?, ?, ?)");
    let part = "VALUES (?, ?, ?, ?, ?, ?)"@;
    assert(SAVE_PROJECT_SQL@.subrange(101, 101int + part.len()) =~= part);
    reveal_strlit("ON CONFLICT(id) DO UPDATE SET");
    let part = "ON CONFLICT(id) DO UPDATE SET"@;
    assert(SAVE_PROJECT_SQL@.subrange(135, 135int + part.len()) =~= part);
    reveal_strlit("profile_handle = excluded.profile_handle,");
    let part = "profile_handle = excluded.profile_handle,"@;
    assert(SAVE_PROJECT_SQL@.subrange(178, 178int + part.len()) =~= part);
    reveal_strlit("name = excluded.name,");
    let part = "name = excluded.name,"@;
    assert(SAVE_PROJECT_SQL@.subrange(233, 233int + part.len()) =~= part);
    reveal_strlit("impact = excluded.impact,");
    let part = "impact = excluded.impact,"@;
    assert(SAVE_PROJECT_SQL@.subrange(267, 267int + part.len()) =~= part);
    reveal_strlit("description = excluded.description,");
    let part = "description = excluded.description,"@;
    assert(SAVE_PROJECT_SQL@.subrange(305, 305int + part.len()) =~= part);
    reveal_strlit("technologies = excluded.technologies\n        ");
    let part = "technologies = excluded.technologies\n        "@;
    assert(SAVE_PROJECT_SQL@.subrange(353, 353int + part.len()) =~= part);
}

/// Saving figures writes all their columns, or, where the id has some, overwrites each
/// of the others with the value given for it.
/// By its length, it holds nothing else but blanks.
pub proof fn figures_are_stored()
    ensures
        SAVE_ANALYTICS_SQL@.len() == 553,
        begins(SAVE_ANALYTICS_SQL@, "\n        INSERT INTO analytics ("@),
        says(SAVE_ANALYTICS_SQL@, "id, leadership, technical_depth, automation_index,"@),
        says(SAVE_ANALYTICS_SQL@, "transferability, innovation, neural_load"@),
        says(SAVE_ANALYTICS_SQL@, ")"@),
        says(SAVE_ANALYTICS_SQL@, "VALUES (?, ?, ?, ?, ?, ?, ?)"@),
        says(SAVE_ANALYTICS_SQL@, "ON CONFLICT(id) DO UPDATE SET"@),
        says(SAVE_ANALYTICS_SQL@, "leadership = excluded.leadership,"@),
        says(SAVE_ANALYTICS_SQL@, "technical_depth = excluded.technical_depth,"@),
        says(SAVE_ANALYTICS_SQL@, "automation_index = excluded.automation_index,"@),
        says(SAVE_ANALYTICS_SQL@, "transferability = excluded.transferability,"@),
        says(SAVE_ANALYTICS_SQL@, "innovation = excluded.innovation,"@),
        ends(SAVE_ANALYTICS_SQL@, "neural_load = excluded.neural_load\n        "@),
{
    reveal_strlit(r#"
        INSERT INTO analytics (
            id, leadership, technical_depth, automation_index, 
            transferability, innovation, neural_load
        ) 
        VALUES (?, ?, ?, ?, ?, ?, ?)
        ON CONFLICT(id) DO UPDATE SET
            leadership = excluded.leadership,
            technical_depth = excluded.technical_depth,
            automation_index = excluded.automation_index,
            transferability = excluded.transferability,
            innovation = excluded.innovation,
            neural_load = excluded.neural_load
        "#);
    reveal_strlit("\n        INSERT INTO analytics (");
    let part = "\n        INSERT INTO analytics ("@;
    assert(SAVE_ANALYTICS_SQL@.subrange(0, 0int + part.len()) =~= part);
    reveal_strlit("id, leadership, technical_depth, automation_index,");
    let part = "id, leadership, technical_depth, automation_index,"@;
    assert(SAVE_ANALYTICS_SQL@.subrange(45, 45int + part.len()) =~= part);
    reveal_strlit("transferability, innovation, neural_load");
    let part = "transferability, innovation, neural_load"@;
    assert(SAVE_ANALYTICS_SQL@.subrange(109, 109int + part.len()) =~= part);
    reveal_strlit(")");
    let part = ")"@;
    assert(SAVE_ANALYTICS_SQL@.subrange(158, 158int + part.len()) =~= part);
    reveal_strlit("VALUES (?, ?, ?, ?, ?, ?, ?)");
    let part = "VALUES (?, ?, ?, ?, ?, ?, ?)"@;
    assert(SAVE_ANALYTICS_SQL@.subrange(169, 169int + part.len()) =~= part);
    reveal_strlit("ON CONFLICT(id) DO UPDATE SET");
    let part = "ON CONFLICT(id) DO UPDATE SET"@;
    assert(SAVE_ANALYTICS_SQL@.subrange(206, 206int + part.len()) =~= part);
    reveal_strlit("leadership = excluded.leadership,");
    let part = "leadership = excluded.leadership,"@;
    assert(SAVE_ANALYTICS_SQL@.subrange(248, 248int + part.len()) =~= part);
    reveal_strlit("technical_depth = excluded.technical_depth,");
    let part = "technical_depth = excluded.technical_depth,"@;
    assert(SAVE_ANALYTICS_SQL@.subrange(294, 294int + part.len()) =~= part);
    reveal_strlit("automation_index = excluded.automation_index,");
    let part = "automation_index = excluded.automation_index,"@;
    assert(SAVE_ANALYTICS_SQL@.subrange(350, 350int + part.len()) =~= part);
    reveal_strlit("transferability = excluded.transferability,");
    let part = "transferability = excluded.transferability,"@;
    assert(SAVE_ANALYTICS_SQL@.subrange(408, 408int + part.len()) =~= part);
    reveal_strlit("innovation = excluded.innovation,");
    let part = "innovation = excluded.innovation,"@;
    assert(SAVE_ANALYTICS_SQL@.subrange(464, 464int + part.len()) =~= part);
    reveal_strlit("neural_load = excluded.neural_load\n        ");
    let part = "neural_load = excluded.neural_load\n        "@;
    assert(SAVE_ANALYTICS_SQL@.subrange(510, 510int + part.len()) =~= part);
}

/// A user is asked for by handle.
/// By its length, it holds nothing else but blanks.
pub proof fn a_user_is_asked_for()
    ensures
        USER_SQL@.len() == 44,
        begins(USER_SQL@, "SELECT *"@),
        says(USER_SQL@, "FROM users"@),
        ends(USER_SQL@, "WHERE profile_handle = ?"@),
{
    reveal_strlit("SELECT * FROM users WHERE profile_handle = ?");
    reveal_strlit("SELECT *");
    let part = "SELECT *"@;
    assert(USER_SQL@.subrange(0, 0int + part.len()) =~= part);
    reveal_strlit("FROM users");
    let part = "FROM users"@;
    assert(USER_SQL@.subrange(9, 9int + part.len()) =~= part);
    reveal_strlit("WHERE profile_handle = ?");
    let part = "WHERE profile_handle = ?"@;
    assert(USER_SQL@.subrange(20, 20int + part.len()) =~= part);
}

/// A profile is asked for by handle, with all its columns.
/// By its length, it holds nothing else but blanks.
pub proof fn a_profile_is_asked_for()
    ensures
        PROFILE_SQL@.len() == 122,
        begins(PROFILE_SQL@, "\n         SELECT handle, name, title, location, summary, picture"@),
        says(PROFILE_SQL@, "FROM profiles"@),
        ends(PROFILE_SQL@, "WHERE handle = ?\n       "@),
{
    reveal_strlit(r#"
         SELECT handle, name, title, location, summary, picture
         FROM profiles 
         WHERE handle = ?
       "#);
    reveal_strlit("\n         SELECT handle, name, title, location, summary, picture");
    let part = "\n         SELECT handle, name, title, location, summary, picture"@;
    assert(PROFILE_SQL@.subrange(0, 0int + part.len()) =~= part);
    reveal_strlit("FROM profiles");
    let part = "FROM profiles"@;
    assert(PROFILE_SQL@.subrange(74, 74int + part.len()) =~= part);
    reveal_strlit("WHERE handle = ?\n       ");
    let part = "WHERE handle = ?\n       "@;
    assert(PROFILE_SQL@.subrange(98, 98int + part.len()) =~= part);
}

/// Skills are asked for by handle, with all their columns.
/// By its length, it holds nothing else but blanks.
pub proof fn skills_are_asked_for()
    ensures
        SKILLS_SQL@.len() == 129,
        begins(SKILLS_SQL@, "\n         SELECT id, profile_handle, name, category, score, links"@),
        says(SKILLS_SQL@, "FROM skills"@),
        ends(SKILLS_SQL@, "WHERE profile_handle = ?\n       "@),
{
    reveal_strlit(r#"
         SELECT id, profile_handle, name, category, score, links
         FROM skills 
         WHERE profile_handle = ?
       "#);
    reveal_strlit("\n         SELECT id, profile_handle, name, category, score, links");
    let part = "\n         SELECT id, profile_handle, name, category, score, links"@;
    assert(SKILLS_SQL@.subrange(0, 0int + part.len()) =~= part);
    reveal_strlit("FROM skills");
    let part = "FROM skills"@;
    assert(SKILLS_SQL@.subrange(75, 75int + part.len()) =~= part);
    reveal_strlit("WHERE profile_handle = ?\n       ");
    let part = "WHERE profile_handle = ?\n       "@;
    assert(SKILLS_SQL@.subrange(97, 97int + part.len()) =~= part);
}

/// Projects are asked for by handle, with all their columns.
/// By its length, it holds nothing else but blanks.
pub proof fn projects_are_asked_for()
    ensures
        PROJECTS_SQL@.len() == 142,
        begins(PROJECTS_SQL@, "\n         SELECT id, profile_handle, name, impact, description, technologies"@),
        says(PROJECTS_SQL@, "FROM projects"@),
        ends(PROJECTS_SQL@, "WHERE profile_handle = ?\n       "@),
{
    reveal_strlit(r#"
         SELECT id, profile_handle, name, impact, description, technologies
         FROM projects 
         WHERE profile_handle = ?
       "#);
    reveal_strlit("\n         SELECT id, profile_handle, name, impact, description, technologies");
    let part = "\n         SELECT id, profile_handle, name, impact, description, technologies"@;
    assert(PROJECTS_SQL@.subrange(0, 0int + part.len()) =~= part);
    reveal_strlit("FROM projects");
    let part = "FROM projects"@;
    assert(PROJECTS_SQL@.subrange(86, 86int + part.len()) =~= part);
    reveal_strlit("WHERE profile_handle = ?\n       ");
    let part = "WHERE profile_handle = ?\n       "@;
    assert(PROJECTS_SQL@.subrange(110, 110int + part.len()) =~= part);
}

/// Experiences are asked for by handle, with all their columns.
/// By its length, it holds nothing else but blanks.
pub proof fn experiences_are_asked_for()
    ensures
        EXPERIENCES_SQL@.len() == 161,
        begins(EXPERIENCES_SQL@, "\n         SELECT id, profile_handle, role, organization, years, summary, achievements, skills"@),
        says(EXPERIENCES_SQL@, "FROM experiences"@),
        ends(EXPERIENCES_SQL@, "WHERE profile_handle = ?\n       "@),
{
    reveal_strlit(r#"
         SELECT id, profile_handle, role, organization, years, summary, achievements, skills
         FROM experiences
         WHERE profile_handle = ?
       "#);
    reveal_strlit("\n         SELECT id, profile_handle, role, organization, years, summary, achievements, skills");
    let part = "\n         SELECT id, profile_handle, role, organization, years, summary, achievements, skills"@;
    assert(EXPERIENCES_SQL@.subrange(0, 0int + part.len()) =~= part);
    reveal_strlit("FROM experiences");
    let part = "FROM experiences"@;
    assert(EXPERIENCES_SQL@.subrange(103, 103int + part.len()) =~= part);
    reveal_strlit("WHERE profile_handle = ?\n       ");
    let part = "WHERE profile_handle = ?\n       "@;
    assert(EXPERIENCES_SQL@.subrange(129, 129int + part.len()) =~= part);
}

/// Sub-projects are asked for by project and handle, in their order of display.
/// By its length, it holds nothing else but blanks.
pub proof fn subprojects_are_asked_for()
    ensures
        SUBPROJECTS_SQL@.len() == 248,
        begins(SUBPROJECTS_SQL@, "\n         SELECT id, project_id, project_name, profile_handle, subproject_name, subproject_category, display_order"@),
        says(SUBPROJECTS_SQL@, "FROM sub_projects"@),
        says(SUBPROJECTS_SQL@, "WHERE project_id = ? AND profile_handle = ?"@),
        ends(SUBPROJECTS_SQL@, "ORDER BY display_order ASC, id ASC\n       "@),
{
    reveal_strlit(r#"
         SELECT id, project_id, project_name, profile_handle, subproject_name, subproject_category, display_order 
         FROM sub_projects 
         WHERE project_id = ? AND profile_handle = ?
         ORDER BY display_order ASC, id ASC
       "#);
    reveal_strlit("\n         SELECT id, project_id, project_name, profile_handle, subproject_name, subproject_category, display_order");
    let part = "\n         SELECT id, project_id, project_name, profile_handle, subproject_name, subproject_category, display_order"@;
    assert(SUBPROJECTS_SQL@.subrange(0, 0int + part.len()) =~= part);
    reveal_strlit("FROM sub_projects");
    let part = "FROM sub_projects"@;
    assert(SUBPROJECTS_SQL@.subrange(125, 125int + part.len()) =~= part);
    reveal_strlit("WHERE project_id = ? AND profile_handle = ?");
    let part = "WHERE project_id = ? AND profile_handle = ?"@;
    assert(SUBPROJECTS_SQL@.subrange(153, 153int + part.len()) =~= part);
    reveal_strlit("ORDER BY display_order ASC, id ASC\n       ");
    let part = "ORDER BY display_order ASC, id ASC\n       "@;
    assert(SUBPROJECTS_SQL@.subrange(206, 206int + part.len()) =~= part);
}

/// Adding a sub-project writes its columns, and gives back the row.
/// By its length, it holds nothing else but blanks.
pub proof fn a_subproject_is_added()
    ensures
        NEW_SUBPROJECT_SQL@.len() == 273,
        begins(NEW_SUBPROJECT_SQL@, "\n         INSERT INTO sub_projects (project_id, project_name, profile_handle, subproject_name, subproject_category)"@),
        says(NEW_SUBPROJECT_SQL@, "VALUES (?, ?, ?, ?, ?)"@),
        ends(NEW_SUBPROJECT_SQL@, "RETURNING id, project_id, project_name, profile_handle, subproject_name, subproject_category, display_order\n        "@),
{
    reveal_strlit(r#"
         INSERT INTO sub_projects (project_id, project_name, profile_handle, subproject_name, subproject_category)
         VALUES (?, ?, ?, ?, ?)
         RETURNING id, project_id, project_name, profile_handle, subproject_name, subproject_category, display_order
        "#);
    reveal_strlit("\n         INSERT INTO sub_projects (project_id, project_name, profile_handle, subproject_name, subproject_category)");
    let part = "\n         INSERT INTO sub_projects (project_id, project_name, profile_handle, subproject_name, subproject_category)"@;
    assert(NEW_SUBPROJECT_SQL@.subrange(0, 0int + part.len()) =~= part);
    reveal_strlit("VALUES (?, ?, ?, ?, ?)");
    let part = "VALUES (?, ?, ?, ?, ?)"@;
    assert(NEW_SUBPROJECT_SQL@.subrange(125, 125int + part.len()) =~= part);
    reveal_strlit("RETURNING id, project_id, project_name, profile_handle, subproject_name, subproject_category, display_order\n        ");
    let part = "RETURNING id, project_id, project_name, profile_handle, subproject_name, subproject_category, display_order\n        "@;
    assert(NEW_SUBPROJECT_SQL@.subrange(157, 157int + part.len()) =~= part);
}

/// Whether a handle has a profile is asked by handle.
/// By its length, it holds nothing else but blanks.
pub proof fn the_profiles_of_a_handle_are_asked_for()
    ensures
        EXISTING_SQL@.len() == 39,
        begins(EXISTING_SQL@, "SELECT *"@),
        says(EXISTING_SQL@, "FROM profiles"@),
        ends(EXISTING_SQL@, "WHERE handle = ?"@),
{
    reveal_strlit("SELECT * FROM profiles WHERE handle = ?");
    reveal_strlit("SELECT *");
    let part = "SELECT *"@;
    assert(EXISTING_SQL@.subrange(0, 0int + part.len()) =~= part);
    reveal_strlit("FROM profiles");
    let part = "FROM profiles"@;
    assert(EXISTING_SQL@.subrange(9, 9int + part.len()) =~= part);
    reveal_strlit("WHERE handle = ?");
    let part = "WHERE handle = ?"@;
    assert(EXISTING_SQL@.subrange(23, 23int + part.len()) =~= part);
}

/// For a dashboard, all profiles are asked for.
/// By its length, it holds nothing else but blanks.
pub proof fn all_profiles_are_asked_for()
    ensures
        ALL_PROFILES_SQL@.len() == 22,
        begins(ALL_PROFILES_SQL@, "SELECT *"@),
        ends(ALL_PROFILES_SQL@, "FROM profiles"@),
{
    reveal_strlit("SELECT * FROM profiles");
    reveal_strlit("SELECT *");
    let part = "SELECT *"@;
    assert(ALL_PROFILES_SQL@.subrange(0, 0int + part.len()) =~= part);
    reveal_strlit("FROM profiles");
    let part = "FROM profiles"@;
    assert(ALL_PROFILES_SQL@.subrange(9, 9int + part.len()) =~= part);
}

/// For a dashboard, skills are asked for by handle.
/// By its length, it holds nothing else but blanks.
pub proof fn all_skills_are_asked_for()
    ensures
        ALL_SKILLS_SQL@.len() == 45,
        begins(ALL_SKILLS_SQL@, "SELECT *"@),
        says(ALL_SKILLS_SQL@, "FROM skills"@),
        ends(ALL_SKILLS_SQL@, "WHERE profile_handle = ?"@),
{
    reveal_strlit("SELECT * FROM skills WHERE profile_handle = ?");
    reveal_strlit("SELECT *");
    let part = "SELECT *"@;
    assert(ALL_SKILLS_SQL@.subrange(0, 0int + part.len()) =~= part);
    reveal_strlit("FROM skills");
    let part = "FROM skills"@;
    assert(ALL_SKILLS_SQL@.subrange(9, 9int + part.len()) =~= part);
    reveal_strlit("WHERE profile_handle = ?");
    let part = "WHERE profile_handle = ?"@;
    assert(ALL_SKILLS_SQL@.subrange(21, 21int + part.len()) =~= part);
}

/// For a dashboard, experiences are asked for by handle.
/// By its length, it holds nothing else but blanks.
pub proof fn all_experiences_are_asked_for()
    ensures
        ALL_EXPERIENCES_SQL@.len() == 50,
        begins(ALL_EXPERIENCES_SQL@, "SELECT *"@),
        says(ALL_EXPERIENCES_SQL@, "FROM experiences"@),
        ends(ALL_EXPERIENCES_SQL@, "WHERE profile_handle = ?"@),
{
    reveal_strlit("SELECT * FROM experiences WHERE profile_handle = ?");
    reveal_strlit("SELECT *");
    let part = "SELECT *"@;
    assert(ALL_EXPERIENCES_SQL@.subrange(0, 0int + part.len()) =~= part);
    reveal_strlit("FROM experiences");
    let part = "FROM experiences"@;
    assert(ALL_EXPERIENCES_SQL@.subrange(9, 9int + part.len()) =~= part);
    reveal_strlit("WHERE profile_handle = ?");
    let part = "WHERE profile_handle = ?"@;
    assert(ALL_EXPERIENCES_SQL@.subrange(26, 26int + part.len()) =~= part);
}

/// For a dashboard, projects are asked for by handle.
/// By its length, it holds nothing else but blanks.
pub proof fn all_projects_are_asked_for()
    ensures
        ALL_PROJECTS_SQL@.len() == 47,
        begins(ALL_PROJECTS_SQL@, "SELECT *"@),
        says(ALL_PROJECTS_SQL@, "FROM projects"@),
        ends(ALL_PROJECTS_SQL@, "WHERE profile_handle = ?"@),
{
    reveal_strlit("SELECT * FROM projects WHERE profile_handle = ?");
    reveal_strlit("SELECT *");
    let part = "SELECT *"@;
    assert(ALL_PROJECTS_SQL@.subrange(0, 0int + part.len()) =~= part);
    reveal_strlit("FROM projects");
    let part = "FROM projects"@;
    assert(ALL_PROJECTS_SQL@.subrange(9, 9int + part.len()) =~= part);
    reveal_strlit("WHERE profile_handle = ?");
    let part = "WHERE profile_handle = ?"@;
    assert(ALL_PROJECTS_SQL@.subrange(23, 23int + part.len()) =~= part);
}

/// For a dashboard, figures are asked for by their id, with all their columns.
/// By its length, it holds nothing else but blanks.
pub proof fn all_figures_are_asked_for()
    ensures
        ALL_ANALYTICS_SQL@.len() == 136,
        begins(ALL_ANALYTICS_SQL@, "SELECT id, leadership, technical_depth, automation_index, transferability, innovation, neural_load"@),
        ends(ALL_ANALYTICS_SQL@, "FROM analytics WHERE id = ?"@),
{
    reveal_strlit("SELECT id, leadership, technical_depth, automation_index, transferability, innovation, neural_load 
         FROM analytics WHERE id = ?");
    reveal_strlit("SELECT id, leadership, technical_depth, automation_index, transferability, innovation, neural_load");
    let part = "SELECT id, leadership, technical_depth, automation_index, transferability, innovation, neural_load"@;
    assert(ALL_ANALYTICS_SQL@.subrange(0, 0int + part.len()) =~= part);
    reveal_strlit("FROM analytics WHERE id = ?");
    let part = "FROM analytics WHERE id = ?"@;
    assert(ALL_ANALYTICS_SQL@.subrange(109, 109int + part.len()) =~= part);
}

/// A search looks into handles, names and titles, and gives at most two profiles.
/// By its length, it holds nothing else but blanks.
pub proof fn profiles_are_searched_for()
    ensures
        SEARCH_SQL@.len() == 142,
        begins(SEARCH_SQL@, "\n        SELECT handle, name, title"@),
        says(SEARCH_SQL@, "FROM profiles"@),
        says(SEARCH_SQL@, "WHERE handle LIKE ? OR name LIKE ? OR title LIKE ?"@),
        ends(SEARCH_SQL@, "LIMIT 2\n        "@),
{
    reveal_strlit(r#"
        SELECT handle, name, title
        FROM profiles 
        WHERE handle LIKE ? OR name LIKE ? OR title LIKE ?
        LIMIT 2
        "#);
    reveal_strlit("\n        SELECT handle, name, title");
    let part = "\n        SELECT handle, name, title"@;
    assert(SEARCH_SQL@.subrange(0, 0int + part.len()) =~= part);
    reveal_strlit("FROM profiles");
    let part = "FROM profiles"@;
    assert(SEARCH_SQL@.subrange(44, 44int + part.len()) =~= part);
    reveal_strlit("WHERE handle LIKE ? OR name LIKE ? OR title LIKE ?");
    let part = "WHERE handle LIKE ? OR name LIKE ? OR title LIKE ?"@;
    assert(SEARCH_SQL@.subrange(67, 67int + part.len()) =~= part);
    reveal_strlit("LIMIT 2\n        ");
    let part = "LIMIT 2\n        "@;
    assert(SEARCH_SQL@.subrange(126, 126int + part.len()) =~= part);
}

/// The schema creates the table `profiles`, where it does not exist yet, with these
/// columns.
pub proof fn schema_creates_profiles()
    ensures
        says(
            INIT_DB_SQL@,
            r#"CREATE TABLE IF NOT EXISTS profiles (
            handle TEXT PRIMARY KEY,
            name TEXT NOT NULL,
            title TEXT NOT NULL,
            location TEXT NOT NULL,
            summary TEXT NOT NULL,
            picture TEXT NOT NULL
        );"#@,
        ),
{
    reveal_strlit(r#"
        CREATE TABLE IF NOT EXISTS profiles (
            handle TEXT PRIMARY KEY,
            name TEXT NOT NULL,
            title TEXT NOT NULL,
            location TEXT NOT NULL,
            summary TEXT NOT NULL,
            picture TEXT NOT NULL
        );

        CREATE TABLE IF NOT EXISTS skills (
            id TEXT PRIMARY KEY,
            profile_handle TEXT NOT NULL,
            name TEXT NOT NULL,
            category TEXT NOT NULL,
            score INTEGER NOT NULL, /* Maps to u8 */
            links TEXT NOT NULL /* Maps to #[sqlx(json)] Vec<String> */
        );

        CREATE TABLE IF NOT EXISTS experiences (
            id TEXT PRIMARY KEY,
            profile_handle TEXT NOT NULL,
            role TEXT NOT NULL,
            organization TEXT NOT NULL,
            years REAL NOT NULL, /* Maps to f32 */
            summary TEXT NOT NULL,
            achievements TEXT NOT NULL, /* Maps to #[sqlx(json)] Vec<String> */
            skills TEXT NOT NULL /* Maps to #[sqlx(json)] Vec<String> */
        );

        CREATE TABLE IF NOT EXISTS projects (
            id TEXT PRIMARY KEY,
            profile_handle TEXT NOT NULL,
            name TEXT NOT NULL,
            impact INTEGER NOT NULL, /* Maps to u8 */
            description TEXT NOT NULL,
            technologies TEXT NOT NULL /* Maps to #[sqlx(json)] Vec<String> */
        );

        CREATE TABLE IF NOT EXISTS analytics (
            id TEXT PRIMARY KEY,
            leadership INTEGER NOT NULL, /* Maps to u32 */
            technical_depth INTEGER NOT NULL, /* Maps to u32 */
            automation_index INTEGER NOT NULL, /* Maps to u32 */
            transferability INTEGER NOT NULL, /* Maps to u32 */
            innovation INTEGER NOT NULL, /* Maps to u32 */
            neural_load INTEGER NOT NULL /* Maps to u32 */
        );

        CREATE TABLE IF NOT EXISTS sub_projects (
            id SERIAL PRIMARY KEY,
            project_id TEXT NOT NULL,
            project_name TEXT NOT NULL,
            profile_handle TEXT NOT NULL,
            subproject_name TEXT NOT NULL,
            subproject_category TEXT NOT NULL,
            display_order INT DEFAULT 0,
            created_at TIMESTAMP DEFAULT CURRENT_TIMESTAMP,
            
            -- Foreign Key Constraints linking to your parent table
            CONSTRAINT fk_parent_project 
                FOREIGN KEY (project_id) 
                REFERENCES projects(id) ON DELETE CASCADE
        );

        CREATE TABLE IF NOT EXISTS users (
            profile_handle TEXT PRIMARY KEY,
            password TEXT NOT NULL
        );

        "#);
    reveal_strlit(r#"CREATE TABLE IF NOT EXISTS profiles (
            handle TEXT PRIMARY KEY,
            name TEXT NOT NULL,
            title TEXT NOT NULL,
            location TEXT NOT NULL,
            summary TEXT NOT NULL,
            picture TEXT NOT NULL
        );"#);
    let table = r#"CREATE TABLE IF NOT EXISTS profiles (
            handle TEXT PRIMARY KEY,
            name TEXT NOT NULL,
            title TEXT NOT NULL,
            location TEXT NOT NULL,
            summary TEXT NOT NULL,
            picture TEXT NOT NULL
        );"#@;
    assert(INIT_DB_SQL@.subrange(9, 9int + table.len()) =~= table);
}

/// The schema creates the table `skills`, where it does not exist yet, with these
/// columns.
pub proof fn schema_creates_skills()
    ensures
        says(
            INIT_DB_SQL@,
            r#"CREATE TABLE IF NOT EXISTS skills (
            id TEXT PRIMARY KEY,
            profile_handle TEXT NOT NULL,
            name TEXT NOT NULL,
            category TEXT NOT NULL,
            score INTEGER NOT NULL, /* Maps to u8 */
            links TEXT NOT NULL /* Maps to #[sqlx(json)] Vec<String> */
        );"#@,
        ),
{
    reveal_strlit(r#"
        CREATE TABLE IF NOT EXISTS profiles (
            handle TEXT PRIMARY KEY,
            name TEXT NOT NULL,
            title TEXT NOT NULL,
            location TEXT NOT NULL,
            summary TEXT NOT NULL,
            picture TEXT NOT NULL
        );

        CREATE TABLE IF NOT EXISTS skills (
            id TEXT PRIMARY KEY,
            profile_handle TEXT NOT NULL,
            name TEXT NOT NULL,
            category TEXT NOT NULL,
            score INTEGER NOT NULL, /* Maps to u8 */
            links TEXT NOT NULL /* Maps to #[sqlx(json)] Vec<String> */
        );

        CREATE TABLE IF NOT EXISTS experiences (
            id TEXT PRIMARY KEY,
            profile_handle TEXT NOT NULL,
            role TEXT NOT NULL,
            organization TEXT NOT NULL,
            years REAL NOT NULL, /* Maps to f32 */
            summary TEXT NOT NULL,
            achievements TEXT NOT NULL, /* Maps to #[sqlx(json)] Vec<String> */
            skills TEXT NOT NULL /* Maps to #[sqlx(json)] Vec<String> */
        );

        CREATE TABLE IF NOT EXISTS projects (
            id TEXT PRIMARY KEY,
            profile_handle TEXT NOT NULL,
            name TEXT NOT NULL,
            impact INTEGER NOT NULL, /* Maps to u8 */
            description TEXT NOT NULL,
            technologies TEXT NOT NULL /* Maps to #[sqlx(json)] Vec<String> */
        );

        CREATE TABLE IF NOT EXISTS analytics (
            id TEXT PRIMARY KEY,
            leadership INTEGER NOT NULL, /* Maps to u32 */
            technical_depth INTEGER NOT NULL, /* Maps to u32 */
            automation_index INTEGER NOT NULL, /* Maps to u32 */
            transferability INTEGER NOT NULL, /* Maps to u32 */
            innovation INTEGER NOT NULL, /* Maps to u32 */
            neural_load INTEGER NOT NULL /* Maps to u32 */
        );

        CREATE TABLE IF NOT EXISTS sub_projects (
            id SERIAL PRIMARY KEY,
            project_id TEXT NOT NULL,
            project_name TEXT NOT NULL,
            profile_handle TEXT NOT NULL,
            subproject_name TEXT NOT NULL,
            subproject_category TEXT NOT NULL,
            display_order INT DEFAULT 0,
            created_at TIMESTAMP DEFAULT CURRENT_TIMESTAMP,
            
            -- Foreign Key Constraints linking to your parent table
            CONSTRAINT fk_parent_project 
                FOREIGN KEY (project_id) 
                REFERENCES projects(id) ON DELETE CASCADE
        );

        CREATE TABLE IF NOT EXISTS users (
            profile_handle TEXT PRIMARY KEY,
            password TEXT NOT NULL
        );

        "#);
    reveal_strlit(r#"CREATE TABLE IF NOT EXISTS skills (
            id TEXT PRIMARY KEY,
            profile_handle TEXT NOT NULL,
            name TEXT NOT NULL,
            category TEXT NOT NULL,
            score INTEGER NOT NULL, /* Maps to u8 */
            links TEXT NOT NULL /* Maps to #[sqlx(json)] Vec<String> */
        );"#);
    let table = r#"CREATE TABLE IF NOT EXISTS skills (
            id TEXT PRIMARY KEY,
            profile_handle TEXT NOT NULL,
            name TEXT NOT NULL,
            category TEXT NOT NULL,
            score INTEGER NOT NULL, /* Maps to u8 */
            links TEXT NOT NULL /* Maps to #[sqlx(json)] Vec<String> */
        );"#@;
    assert(INIT_DB_SQL@.subrange(274, 274int + table.len()) =~= table);
}

/// The schema creates the table `experiences`, where it does not exist yet, with these
/// columns.
pub proof fn schema_creates_experiences()
    ensures
        says(
            INIT_DB_SQL@,
            r#"CREATE TABLE IF NOT EXISTS experiences (
            id TEXT PRIMARY KEY,
            profile_handle TEXT NOT NULL,
            role TEXT NOT NULL,
            organization TEXT NOT NULL,
            years REAL NOT NULL, /* Maps to f32 */
            summary TEXT NOT NULL,
            achievements TEXT NOT NULL, /* Maps to #[sqlx(json)] Vec<String> */
            skills TEXT NOT NULL /* Maps to #[sqlx(json)] Vec<String> */
        );"#@,
        ),
{
    reveal_strlit(r#"
        CREATE TABLE IF NOT EXISTS profiles (
            handle TEXT PRIMARY KEY,
            name TEXT NOT NULL,
            title TEXT NOT NULL,
            location TEXT NOT NULL,
            summary TEXT NOT NULL,
            picture TEXT NOT NULL
        );

        CREATE TABLE IF NOT EXISTS skills (
            id TEXT PRIMARY KEY,
            profile_handle TEXT NOT NULL,
            name TEXT NOT NULL,
            category TEXT NOT NULL,
            score INTEGER NOT NULL, /* Maps to u8 */
            links TEXT NOT NULL /* Maps to #[sqlx(json)] Vec<String> */
        );

        CREATE TABLE IF NOT EXISTS experiences (
            id TEXT PRIMARY KEY,
            profile_handle TEXT NOT NULL,
            role TEXT NOT NULL,
            organization TEXT NOT NULL,
            years REAL NOT NULL, /* Maps to f32 */
            summary TEXT NOT NULL,
            achievements TEXT NOT NULL, /* Maps to #[sqlx(json)] Vec<String> */
            skills TEXT NOT NULL /* Maps to #[sqlx(json)] Vec<String> */
        );

        CREATE TABLE IF NOT EXISTS projects (
            id TEXT PRIMARY KEY,
            profile_handle TEXT NOT NULL,
            name TEXT NOT NULL,
            impact INTEGER NOT NULL, /* Maps to u8 */
            description TEXT NOT NULL,
            technologies TEXT NOT NULL /* Maps to #[sqlx(json)] Vec<String> */
        );

        CREATE TABLE IF NOT EXISTS analytics (
            id TEXT PRIMARY KEY,
            leadership INTEGER NOT NULL, /* Maps to u32 */
            technical_depth INTEGER NOT NULL, /* Maps to u32 */
            automation_index INTEGER NOT NULL, /* Maps to u32 */
            transferability INTEGER NOT NULL, /* Maps to u32 */
            innovation INTEGER NOT NULL, /* Maps to u32 */
            neural_load INTEGER NOT NULL /* Maps to u32 */
        );

        CREATE TABLE IF NOT EXISTS sub_projects (
            id SERIAL PRIMARY KEY,
            project_id TEXT NOT NULL,
            project_name TEXT NOT NULL,
            profile_handle TEXT NOT NULL,
            subproject_name TEXT NOT NULL,
            subproject_category TEXT NOT NULL,
            display_order INT DEFAULT 0,
            created_at TIMESTAMP DEFAULT CURRENT_TIMESTAMP,
            
            -- Foreign Key Constraints linking to your parent table
            CONSTRAINT fk_parent_project 
                FOREIGN KEY (project_id) 
                REFERENCES projects(id) ON DELETE CASCADE
        );

        CREATE TABLE IF NOT EXISTS users (
            profile_handle TEXT PRIMARY KEY,
            password TEXT NOT NULL
        );

        "#);
    reveal_strlit(r#"CREATE TABLE IF NOT EXISTS experiences (
            id TEXT PRIMARY KEY,
            profile_handle TEXT NOT NULL,
            role TEXT NOT NULL,
            organization TEXT NOT NULL,
            years REAL NOT NULL, /* Maps to f32 */
            summary TEXT NOT NULL,
            achievements TEXT NOT NULL, /* Maps to #[sqlx(json)] Vec<String> */
            skills TEXT NOT NULL /* Maps to #[sqlx(json)] Vec<String> */
        );"#);
    let table = r#"CREATE TABLE IF NOT EXISTS experiences (
            id TEXT PRIMARY KEY,
            profile_handle TEXT NOT NULL,
            role TEXT NOT NULL,
            organization TEXT NOT NULL,
            years REAL NOT NULL, /* Maps to f32 */
            summary TEXT NOT NULL,
            achievements TEXT NOT NULL, /* Maps to #[sqlx(json)] Vec<String> */
            skills TEXT NOT NULL /* Maps to #[sqlx(json)] Vec<String> */
        );"#@;
    assert(INIT_DB_SQL@.subrange(598, 598int + table.len()) =~= table);
}

/// The schema creates the table `projects`, where it does not exist yet, with these
/// columns.
pub proof fn schema_creates_projects()
    ensures
        says(
            INIT_DB_SQL@,
            r#"CREATE TABLE IF NOT EXISTS projects (
            id TEXT PRIMARY KEY,
            profile_handle TEXT NOT NULL,
            name TEXT NOT NULL,
            impact INTEGER NOT NULL, /* Maps to u8 */
            description TEXT NOT NULL,
            technologies TEXT NOT NULL /* Maps to #[sqlx(json)] Vec<String> */
        );"#@,
        ),
{
    reveal_strlit(r#"
        CREATE TABLE IF NOT EXISTS profiles (
            handle TEXT PRIMARY KEY,
            name TEXT NOT NULL,
            title TEXT NOT NULL,
            location TEXT NOT NULL,
            summary TEXT NOT NULL,
            picture TEXT NOT NULL
        );

        CREATE TABLE IF NOT EXISTS skills (
            id TEXT PRIMARY KEY,
            profile_handle TEXT NOT NULL,
            name TEXT NOT NULL,
            category TEXT NOT NULL,
            score INTEGER NOT NULL, /* Maps to u8 */
            links TEXT NOT NULL /* Maps to #[sqlx(json)] Vec<String> */
        );

        CREATE TABLE IF NOT EXISTS experiences (
            id TEXT PRIMARY KEY,
            profile_handle TEXT NOT NULL,
            role TEXT NOT NULL,
            organization TEXT NOT NULL,
            years REAL NOT NULL, /* Maps to f32 */
            summary TEXT NOT NULL,
            achievements TEXT NOT NULL, /* Maps to #[sqlx(json)] Vec<String> */
            skills TEXT NOT NULL /* Maps to #[sqlx(json)] Vec<String> */
        );

        CREATE TABLE IF NOT EXISTS projects (
            id TEXT PRIMARY KEY,
            profile_handle TEXT NOT NULL,
            name TEXT NOT NULL,
            impact INTEGER NOT NULL, /* Maps to u8 */
            description TEXT NOT NULL,
            technologies TEXT NOT NULL /* Maps to #[sqlx(json)] Vec<String> */
        );

        CREATE TABLE IF NOT EXISTS analytics (
            id TEXT PRIMARY KEY,
            leadership INTEGER NOT NULL, /* Maps to u32 */
            technical_depth INTEGER NOT NULL, /* Maps to u32 */
            automation_index INTEGER NOT NULL, /* Maps to u32 */
            transferability INTEGER NOT NULL, /* Maps to u32 */
            innovation INTEGER NOT NULL, /* Maps to u32 */
            neural_load INTEGER NOT NULL /* Maps to u32 */
        );

        CREATE TABLE IF NOT EXISTS sub_projects (
            id SERIAL PRIMARY KEY,
            project_id TEXT NOT NULL,
            project_name TEXT NOT NULL,
            profile_handle TEXT NOT NULL,
            subproject_name TEXT NOT NULL,
            subproject_category TEXT NOT NULL,
            display_order INT DEFAULT 0,
            created_at TIMESTAMP DEFAULT CURRENT_TIMESTAMP,
            
            -- Foreign Key Constraints linking to your parent table
            CONSTRAINT fk_parent_project 
                FOREIGN KEY (project_id) 
                REFERENCES projects(id) ON DELETE CASCADE
        );

        CREATE TABLE IF NOT EXISTS users (
            profile_handle TEXT PRIMARY KEY,
            password TEXT NOT NULL
        );

        "#);
    reveal_strlit(r#"CREATE TABLE IF NOT EXISTS projects (
            id TEXT PRIMARY KEY,
            profile_handle TEXT NOT NULL,
            name TEXT NOT NULL,
            impact INTEGER NOT NULL, /* Maps to u8 */
            description TEXT NOT NULL,
            technologies TEXT NOT NULL /* Maps to #[sqlx(json)] Vec<String> */
        );"#);
    let table = r#"CREATE TABLE IF NOT EXISTS projects (
            id TEXT PRIMARY KEY,
            profile_handle TEXT NOT NULL,
            name TEXT NOT NULL,
            impact INTEGER NOT NULL, /* Maps to u8 */
            description TEXT NOT NULL,
            technologies TEXT NOT NULL /* Maps to #[sqlx(json)] Vec<String> */
        );"#@;
    assert(INIT_DB_SQL@.subrange(1045, 1045int + table.len()) =~= table);
}

/// The schema creates the table `analytics`, where it does not exist yet, with these
/// columns.
pub proof fn schema_creates_analytics()
    ensures
        says(
            INIT_DB_SQL@,
            r#"CREATE TABLE IF NOT EXISTS analytics (
            id TEXT PRIMARY KEY,
            leadership INTEGER NOT NULL, /* Maps to u32 */
            technical_depth INTEGER NOT NULL, /* Maps to u32 */
            automation_index INTEGER NOT NULL, /* Maps to u32 */
            transferability INTEGER NOT NULL, /* Maps to u32 */
            innovation INTEGER NOT NULL, /* Maps to u32 */
            neural_load INTEGER NOT NULL /* Maps to u32 */
        );"#@,
        ),
{
    reveal_strlit(r#"
        CREATE TABLE IF NOT EXISTS profiles (
            handle TEXT PRIMARY KEY,
            name TEXT NOT NULL,
            title TEXT NOT NULL,
            location TEXT NOT NULL,
            summary TEXT NOT NULL,
            picture TEXT NOT NULL
        );

        CREATE TABLE IF NOT EXISTS skills (
            id TEXT PRIMARY KEY,
            profile_handle TEXT NOT NULL,
            name TEXT NOT NULL,
            category TEXT NOT NULL,
            score INTEGER NOT NULL, /* Maps to u8 */
            links TEXT NOT NULL /* Maps to #[sqlx(json)] Vec<String> */
        );

        CREATE TABLE IF NOT EXISTS experiences (
            id TEXT PRIMARY KEY,
            profile_handle TEXT NOT NULL,
            role TEXT NOT NULL,
            organization TEXT NOT NULL,
            years REAL NOT NULL, /* Maps to f32 */
            summary TEXT NOT NULL,
            achievements TEXT NOT NULL, /* Maps to #[sqlx(json)] Vec<String> */
            skills TEXT NOT NULL /* Maps to #[sqlx(json)] Vec<String> */
        );

        CREATE TABLE IF NOT EXISTS projects (
            id TEXT PRIMARY KEY,
            profile_handle TEXT NOT NULL,
            name TEXT NOT NULL,
            impact INTEGER NOT NULL, /* Maps to u8 */
            description TEXT NOT NULL,
            technologies TEXT NOT NULL /* Maps to #[sqlx(json)] Vec<String> */
        );

        CREATE TABLE IF NOT EXISTS analytics (
            id TEXT PRIMARY KEY,
            leadership INTEGER NOT NULL, /* Maps to u32 */
            technical_depth INTEGER NOT NULL, /* Maps to u32 */
            automation_index INTEGER NOT NULL, /* Maps to u32 */
            transferability INTEGER NOT NULL, /* Maps to u32 */
            innovation INTEGER NOT NULL, /* Maps to u32 */
            neural_load INTEGER NOT NULL /* Maps to u32 */
        );

        CREATE TABLE IF NOT EXISTS sub_projects (
            id SERIAL PRIMARY KEY,
            project_id TEXT NOT NULL,
            project_name TEXT NOT NULL,
            profile_handle TEXT NOT NULL,
            subproject_name TEXT NOT NULL,
            subproject_category TEXT NOT NULL,
            display_order INT DEFAULT 0,
            created_at TIMESTAMP DEFAULT CURRENT_TIMESTAMP,
            
            -- Foreign Key Constraints linking to your parent table
            CONSTRAINT fk_parent_project 
                FOREIGN KEY (project_id) 
                REFERENCES projects(id) ON DELETE CASCADE
        );

        CREATE TABLE IF NOT EXISTS users (
            profile_handle TEXT PRIMARY KEY,
            password TEXT NOT NULL
        );

        "#);
    reveal_strlit(r#"CREATE TABLE IF NOT EXISTS analytics (
            id TEXT PRIMARY KEY,
            leadership INTEGER NOT NULL, /* Maps to u32 */
            technical_depth INTEGER NOT NULL, /* Maps to u32 */
            automation_index INTEGER NOT NULL, /* Maps to u32 */
            transferability INTEGER NOT NULL, /* Maps to u32 */
            innovation INTEGER NOT NULL, /* Maps to u32 */
            neural_load INTEGER NOT NULL /* Maps to u32 */
        );"#);
    let table = r#"CREATE TABLE IF NOT EXISTS analytics (
            id TEXT PRIMARY KEY,
            leadership INTEGER NOT NULL, /* Maps to u32 */
            technical_depth INTEGER NOT NULL, /* Maps to u32 */
            automation_index INTEGER NOT NULL, /* Maps to u32 */
            transferability INTEGER NOT NULL, /* Maps to u32 */
            innovation INTEGER NOT NULL, /* Maps to u32 */
            neural_load INTEGER NOT NULL /* Maps to u32 */
        );"#@;
    assert(INIT_DB_SQL@.subrange(1382, 1382int + table.len()) =~= table);
}

/// The schema creates the table `sub_projects`, where it does not exist yet, with these
/// columns.
pub proof fn schema_creates_sub_projects()
    ensures
        says(
            INIT_DB_SQL@,
            r#"CREATE TABLE IF NOT EXISTS sub_projects (
            id SERIAL PRIMARY KEY,
            project_id TEXT NOT NULL,
            project_name TEXT NOT NULL,
            profile_handle TEXT NOT NULL,
            subproject_name TEXT NOT NULL,
            subproject_category TEXT NOT NULL,
            display_order INT DEFAULT 0,
            created_at TIMESTAMP DEFAULT CURRENT_TIMESTAMP,
            
            -- Foreign Key Constraints linking to your parent table
            CONSTRAINT fk_parent_project 
                FOREIGN KEY (project_id) 
                REFERENCES projects(id) ON DELETE CASCADE
        );"#@,
        ),
{
    reveal_strlit(r#"
        CREATE TABLE IF NOT EXISTS profiles (
            handle TEXT PRIMARY KEY,
            name TEXT NOT NULL,
            title TEXT NOT NULL,
            location TEXT NOT NULL,
            summary TEXT NOT NULL,
            picture TEXT NOT NULL
        );

        CREATE TABLE IF NOT EXISTS skills (
            id TEXT PRIMARY KEY,
            profile_handle TEXT NOT NULL,
            name TEXT NOT NULL,
            category TEXT NOT NULL,
            score INTEGER NOT NULL, /* Maps to u8 */
            links TEXT NOT NULL /* Maps to #[sqlx(json)] Vec<String> */
        );

        CREATE TABLE IF NOT EXISTS experiences (
            id TEXT PRIMARY KEY,
            profile_handle TEXT NOT NULL,
            role TEXT NOT NULL,
            organization TEXT NOT NULL,
            years REAL NOT NULL, /* Maps to f32 */
            summary TEXT NOT NULL,
            achievements TEXT NOT NULL, /* Maps to #[sqlx(json)] Vec<String> */
            skills TEXT NOT NULL /* Maps to #[sqlx(json)] Vec<String> */
        );

        CREATE TABLE IF NOT EXISTS projects (
            id TEXT PRIMARY KEY,
            profile_handle TEXT NOT NULL,
            name TEXT NOT NULL,
            impact INTEGER NOT NULL, /* Maps to u8 */
            description TEXT NOT NULL,
            technologies TEXT NOT NULL /* Maps to #[sqlx(json)] Vec<String> */
        );

        CREATE TABLE IF NOT EXISTS analytics (
            id TEXT PRIMARY KEY,
            leadership INTEGER NOT NULL, /* Maps to u32 */
            technical_depth INTEGER NOT NULL, /* Maps to u32 */
            automation_index INTEGER NOT NULL, /* Maps to u32 */
            transferability INTEGER NOT NULL, /* Maps to u32 */
            innovation INTEGER NOT NULL, /* Maps to u32 */
            neural_load INTEGER NOT NULL /* Maps to u32 */
        );

        CREATE TABLE IF NOT EXISTS sub_projects (
            id SERIAL PRIMARY KEY,
            project_id TEXT NOT NULL,
            project_name TEXT NOT NULL,
            profile_handle TEXT NOT NULL,
            subproject_name TEXT NOT NULL,
            subproject_category TEXT NOT NULL,
            display_order INT DEFAULT 0,
            created_at TIMESTAMP DEFAULT CURRENT_TIMESTAMP,
            
            -- Foreign Key Constraints linking to your parent table
            CONSTRAINT fk_parent_project 
                FOREIGN KEY (project_id) 
                REFERENCES projects(id) ON DELETE CASCADE
        );

        CREATE TABLE IF NOT EXISTS users (
            profile_handle TEXT PRIMARY KEY,
            password TEXT NOT NULL
        );

        "#);
    reveal_strlit(r#"CREATE TABLE IF NOT EXISTS sub_projects (
            id SERIAL PRIMARY KEY,
            project_id TEXT NOT NULL,
            project_name TEXT NOT NULL,
            profile_handle TEXT NOT NULL,
            subproject_name TEXT NOT NULL,
            subproject_category TEXT NOT NULL,
            display_order INT DEFAULT 0,
            created_at TIMESTAMP DEFAULT CURRENT_TIMESTAMP,
            
            -- Foreign Key Constraints linking to your parent table
            CONSTRAINT fk_parent_project 
                FOREIGN KEY (project_id) 
                REFERENCES projects(id) ON DELETE CASCADE
        );"#);
    let table = r#"CREATE TABLE IF NOT EXISTS sub_projects (
            id SERIAL PRIMARY KEY,
            project_id TEXT NOT NULL,
            project_name TEXT NOT NULL,
            profile_handle TEXT NOT NULL,
            subproject_name TEXT NOT NULL,
            subproject_category TEXT NOT NULL,
            display_order INT DEFAULT 0,
            created_at TIMESTAMP DEFAULT CURRENT_TIMESTAMP,
            
            -- Foreign Key Constraints linking to your parent table
            CONSTRAINT fk_parent_project 
                FOREIGN KEY (project_id) 
                REFERENCES projects(id) ON DELETE CASCADE
        );"#@;
    assert(INIT_DB_SQL@.subrange(1844, 1844int + table.len()) =~= table);
}

/// The schema creates the table `users`, where it does not exist yet, with these
/// columns.
pub proof fn schema_creates_users()
    ensures
        says(
            INIT_DB_SQL@,
            r#"CREATE TABLE IF NOT EXISTS users (
            profile_handle TEXT PRIMARY KEY,
            password TEXT NOT NULL
        );"#@,
        ),
{
    reveal_strlit(r#"
        CREATE TABLE IF NOT EXISTS profiles (
            handle TEXT PRIMARY KEY,
            name TEXT NOT NULL,
            title TEXT NOT NULL,
            location TEXT NOT NULL,
            summary TEXT NOT NULL,
            picture TEXT NOT NULL
        );

        CREATE TABLE IF NOT EXISTS skills (
            id TEXT PRIMARY KEY,
            profile_handle TEXT NOT NULL,
            name TEXT NOT NULL,
            category TEXT NOT NULL,
            score INTEGER NOT NULL, /* Maps to u8 */
            links TEXT NOT NULL /* Maps to #[sqlx(json)] Vec<String> */
        );

        CREATE TABLE IF NOT EXISTS experiences (
            id TEXT PRIMARY KEY,
            profile_handle TEXT NOT NULL,
            role TEXT NOT NULL,
            organization TEXT NOT NULL,
            years REAL NOT NULL, /* Maps to f32 */
            summary TEXT NOT NULL,
            achievements TEXT NOT NULL, /* Maps to #[sqlx(json)] Vec<String> */
            skills TEXT NOT NULL /* Maps to #[sqlx(json)] Vec<String> */
        );

        CREATE TABLE IF NOT EXISTS projects (
            id TEXT PRIMARY KEY,
            profile_handle TEXT NOT NULL,
            name TEXT NOT NULL,
            impact INTEGER NOT NULL, /* Maps to u8 */
            description TEXT NOT NULL,
            technologies TEXT NOT NULL /* Maps to #[sqlx(json)] Vec<String> */
        );

        CREATE TABLE IF NOT EXISTS analytics (
            id TEXT PRIMARY KEY,
            leadership INTEGER NOT NULL, /* Maps to u32 */
            technical_depth INTEGER NOT NULL, /* Maps to u32 */
            automation_index INTEGER NOT NULL, /* Maps to u32 */
            transferability INTEGER NOT NULL, /* Maps to u32 */
            innovation INTEGER NOT NULL, /* Maps to u32 */
            neural_load INTEGER NOT NULL /* Maps to u32 */
        );

        CREATE TABLE IF NOT EXISTS sub_projects (
            id SERIAL PRIMARY KEY,
            project_id TEXT NOT NULL,
            project_name TEXT NOT NULL,
            profile_handle TEXT NOT NULL,
            subproject_name TEXT NOT NULL,
            subproject_category TEXT NOT NULL,
            display_order INT DEFAULT 0,
            created_at TIMESTAMP DEFAULT CURRENT_TIMESTAMP,
            
            -- Foreign Key Constraints linking to your parent table
            CONSTRAINT fk_parent_project 
                FOREIGN KEY (project_id) 
                REFERENCES projects(id) ON DELETE CASCADE
        );

        CREATE TABLE IF NOT EXISTS users (
            profile_handle TEXT PRIMARY KEY,
            password TEXT NOT NULL
        );

        "#);
    reveal_strlit(r#"CREATE TABLE IF NOT EXISTS users (
            profile_handle TEXT PRIMARY KEY,
            password TEXT NOT NULL
        );"#);
    let table = r#"CREATE TABLE IF NOT EXISTS users (
            profile_handle TEXT PRIMARY KEY,
            password TEXT NOT NULL
        );"#@;
    assert(INIT_DB_SQL@.subrange(2475, 2475int + table.len()) =~= table);
}

/// The schema is as long as its tables and the blanks between them: it holds nothing
/// else.
pub proof fn schema_holds_nothing_else()
    ensures
        INIT_DB_SQL@.len() == 2610,
{
    reveal_strlit(r#"
        CREATE TABLE IF NOT EXISTS profiles (
            handle TEXT PRIMARY KEY,
            name TEXT NOT NULL,
            title TEXT NOT NULL,
            location TEXT NOT NULL,
            summary TEXT NOT NULL,
            picture TEXT NOT NULL
        );

        CREATE TABLE IF NOT EXISTS skills (
            id TEXT PRIMARY KEY,
            profile_handle TEXT NOT NULL,
            name TEXT NOT NULL,
            category TEXT NOT NULL,
            score INTEGER NOT NULL, /* Maps to u8 */
            links TEXT NOT NULL /* Maps to #[sqlx(json)] Vec<String> */
        );

        CREATE TABLE IF NOT EXISTS experiences (
            id TEXT PRIMARY KEY,
            profile_handle TEXT NOT NULL,
            role TEXT NOT NULL,
            organization TEXT NOT NULL,
            years REAL NOT NULL, /* Maps to f32 */
            summary TEXT NOT NULL,
            achievements TEXT NOT NULL, /* Maps to #[sqlx(json)] Vec<String> */
            skills TEXT NOT NULL /* Maps to #[sqlx(json)] Vec<String> */
        );

        CREATE TABLE IF NOT EXISTS projects (
            id TEXT PRIMARY KEY,
            profile_handle TEXT NOT NULL,
            name TEXT NOT NULL,
            impact INTEGER NOT NULL, /* Maps to u8 */
            description TEXT NOT NULL,
            technologies TEXT NOT NULL /* Maps to #[sqlx(json)] Vec<String> */
        );

        CREATE TABLE IF NOT EXISTS analytics (
            id TEXT PRIMARY KEY,
            leadership INTEGER NOT NULL, /* Maps to u32 */
            technical_depth INTEGER NOT NULL, /* Maps to u32 */
            automation_index INTEGER NOT NULL, /* Maps to u32 */
            transferability INTEGER NOT NULL, /* Maps to u32 */
            innovation INTEGER NOT NULL, /* Maps to u32 */
            neural_load INTEGER NOT NULL /* Maps to u32 */
        );

        CREATE TABLE IF NOT EXISTS sub_projects (
            id SERIAL PRIMARY KEY,
            project_id TEXT NOT NULL,
            project_name TEXT NOT NULL,
            profile_handle TEXT NOT NULL,
            subproject_name TEXT NOT NULL,
            subproject_category TEXT NOT NULL,
            display_order INT DEFAULT 0,
            created_at TIMESTAMP DEFAULT CURRENT_TIMESTAMP,
            
            -- Foreign Key Constraints linking to your parent table
            CONSTRAINT fk_parent_project 
                FOREIGN KEY (project_id) 
                REFERENCES projects(id) ON DELETE CASCADE
        );

        CREATE TABLE IF NOT EXISTS users (
            profile_handle TEXT PRIMARY KEY,
            password TEXT NOT NULL
        );

        "#);
}

/// A browser that connected is sent on to a page of the internet: the window that opened
/// the portal, which is then closed, or the browser itself.
/// By its length, it holds nothing else but blanks.
pub proof fn connected_browser_is_sent_on()
    ensures
        CONNECTED_HTML@.len() == 409,
        begins(CONNECTED_HTML@, "\n        <html>"@),
        says(CONNECTED_HTML@, "<body>"@),
        says(CONNECTED_HTML@, "<script>"@),
        says(CONNECTED_HTML@, "if (window.opener) {"@),
        says(CONNECTED_HTML@, "window.opener.location.href = \"http://www.google.com\";"@),
        says(CONNECTED_HTML@, "window.close();"@),
        says(CONNECTED_HTML@, "} else {"@),
        says(CONNECTED_HTML@, "window.location.href = \"http://www.google.com\";"@),
        says(CONNECTED_HTML@, "}"@),
        says(CONNECTED_HTML@, "</script>"@),
        says(CONNECTED_HTML@, "</body>"@),
        ends(CONNECTED_HTML@, "</html>\n    "@),
{
    reveal_strlit(r#"
        <html>
            <body>
                <script>
                    if (window.opener) {
                        window.opener.location.href = "http://www.google.com";
                        window.close();
                    } else {
                        window.location.href = "http://www.google.com";
                    }
                </script>
            </body>
        </html>
    "#);
    reveal_strlit("\n        <html>");
    let part = "\n        <html>"@;
    assert(CONNECTED_HTML@.subrange(0, 0int + part.len()) =~= part);
    reveal_strlit("<body>");
    let part = "<body>"@;
    assert(CONNECTED_HTML@.subrange(28, 28int + part.len()) =~= part);
    reveal_strlit("<script>");
    let part = "<script>"@;
    assert(CONNECTED_HTML@.subrange(51, 51int + part.len()) =~= part);
    reveal_strlit("if (window.opener) {");
    let part = "if (window.opener) {"@;
    assert(CONNECTED_HTML@.subrange(80, 80int + part.len()) =~= part);
    reveal_strlit("window.opener.location.href = \"http://www.google.com\";");
    let part = "window.opener.location.href = \"http://www.google.com\";"@;
    assert(CONNECTED_HTML@.subrange(125, 125int + part.len()) =~= part);
    reveal_strlit("window.close();");
    let part = "window.close();"@;
    assert(CONNECTED_HTML@.subrange(204, 204int + part.len()) =~= part);
    reveal_strlit("} else {");
    let part = "} else {"@;
    assert(CONNECTED_HTML@.subrange(240, 240int + part.len()) =~= part);
    reveal_strlit("window.location.href = \"http://www.google.com\";");
    let part = "window.location.href = \"http://www.google.com\";"@;
    assert(CONNECTED_HTML@.subrange(273, 273int + part.len()) =~= part);
    reveal_strlit("}");
    let part = "}"@;
    assert(CONNECTED_HTML@.subrange(341, 341int + part.len()) =~= part);
    reveal_strlit("</script>");
    let part = "</script>"@;
    assert(CONNECTED_HTML@.subrange(359, 359int + part.len()) =~= part);
    reveal_strlit("</body>");
    let part = "</body>"@;
    assert(CONNECTED_HTML@.subrange(381, 381int + part.len()) =~= part);
    reveal_strlit("</html>\n    ");
    let part = "</html>\n    "@;
    assert(CONNECTED_HTML@.subrange(397, 397int + part.len()) =~= part);
}

} // verus!
