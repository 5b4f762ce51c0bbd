//! The records that the registry keeps and the requests that name them.
//!
//! Each record has a view whose texts are sequences of characters; contracts
//! speak of the views.
use vstd::prelude::*;

use crate::text::copy_texts;

verus! {

/// The password kept for a profile handle.
pub struct User {
    pub profile_handle: String,
    pub password: String,
}

/// What a [`User`] holds.
#[verifier::ext_equal]
pub struct UserView {
    pub profile_handle: Seq<char>,
    pub password: Seq<char>,
}

impl View for User {
    type V = UserView;

    open spec fn view(&self) -> UserView {
        UserView {
            profile_handle: self.profile_handle@,
            password: self.password@,
        }
    }
}

impl DeepView for User {
    type V = UserView;

    open spec fn deep_view(&self) -> UserView {
        self@
    }
}

impl Clone for User {
    fn clone(&self) -> (copy: Self)
        ensures
            copy@ == self@,
            copy.profile_handle@ == self.profile_handle@,
            copy.password@ == self.password@,
    {
        User {
            profile_handle: self.profile_handle.clone(),
            password: self.password.clone(),
        }
    }
}

/// A profile; `handle` is its primary identifier.
pub struct Profile {
    pub picture: String,
    /// Primary identifier.
    pub handle: String,
    pub name: String,
    pub title: String,
    pub location: String,
    pub summary: String,
}

/// What a [`Profile`] holds.
#[verifier::ext_equal]
pub struct ProfileView {
    pub picture: Seq<char>,
    pub handle: Seq<char>,
    pub name: Seq<char>,
    pub title: Seq<char>,
    pub location: Seq<char>,
    pub summary: Seq<char>,
}

impl View for Profile {
    type V = ProfileView;

    open spec fn view(&self) -> ProfileView {
        ProfileView {
            picture: self.picture@,
            handle: self.handle@,
            name: self.name@,
            title: self.title@,
            location: self.location@,
            summary: self.summary@,
        }
    }
}

impl DeepView for Profile {
    type V = ProfileView;

    open spec fn deep_view(&self) -> ProfileView {
        self@
    }
}

impl Clone for Profile {
    fn clone(&self) -> (copy: Self)
        ensures
            copy@ == self@,
            copy.picture@ == self.picture@,
            copy.handle@ == self.handle@,
            copy.name@ == self.name@,
            copy.title@ == self.title@,
            copy.location@ == self.location@,
            copy.summary@ == self.summary@,
    {
        Profile {
            picture: self.picture.clone(),
            handle: self.handle.clone(),
            name: self.name.clone(),
            title: self.title.clone(),
            location: self.location.clone(),
            summary: self.summary.clone(),
        }
    }
}

/// A skill of a profile.
pub struct Skill {
    pub id: String,
    pub profile_handle: String,
    pub name: String,
    pub category: String,
    pub score: u8,
    /// Names of the skills it is linked with.
    pub links: Vec<String>,
}

/// What a [`Skill`] holds.
#[verifier::ext_equal]
pub struct SkillView {
    pub id: Seq<char>,
    pub profile_handle: Seq<char>,
    pub name: Seq<char>,
    pub category: Seq<char>,
    pub score: u8,
    pub links: Seq<Seq<char>>,
}

impl View for Skill {
    type V = SkillView;

    open spec fn view(&self) -> SkillView {
        SkillView {
            id: self.id@,
            profile_handle: self.profile_handle@,
            name: self.name@,
            category: self.category@,
            score: self.score,
            links: self.links.deep_view(),
        }
    }
}

impl DeepView for Skill {
    type V = SkillView;

    open spec fn deep_view(&self) -> SkillView {
        self@
    }
}

impl Clone for Skill {
    fn clone(&self) -> (copy: Self)
        ensures
            copy@ == self@,
            copy.id@ == self.id@,
            copy.profile_handle@ == self.profile_handle@,
            copy.name@ == self.name@,
            copy.category@ == self.category@,
            copy.score == self.score,
            copy.links.deep_view() == self.links.deep_view(),
    {
        Skill {
            id: self.id.clone(),
            profile_handle: self.profile_handle.clone(),
            name: self.name.clone(),
            category: self.category.clone(),
            score: self.score,
            links: copy_texts(&self.links),
        }
    }
}

/// A position held by a profile.
pub struct Experience {
    pub id: String,
    pub profile_handle: String,
    pub role: String,
    pub organization: String,
    /// Years served: the bits of a single-precision number, which the
    /// library carries and never computes with.
    pub years_bits: u32,
    pub summary: String,
    pub achievements: Vec<String>,
    pub skills: Vec<String>,
}

/// What a [`Experience`] holds.
#[verifier::ext_equal]
pub struct ExperienceView {
    pub id: Seq<char>,
    pub profile_handle: Seq<char>,
    pub role: Seq<char>,
    pub organization: Seq<char>,
    pub years_bits: u32,
    pub summary: Seq<char>,
    pub achievements: Seq<Seq<char>>,
    pub skills: Seq<Seq<char>>,
}

impl View for Experience {
    type V = ExperienceView;

    open spec fn view(&self) -> ExperienceView {
        ExperienceView {
            id: self.id@,
            profile_handle: self.profile_handle@,
            role: self.role@,
            organization: self.organization@,
            years_bits: self.years_bits,
            summary: self.summary@,
            achievements: self.achievements.deep_view(),
            skills: self.skills.deep_view(),
        }
    }
}

impl DeepView for Experience {
    type V = ExperienceView;

    open spec fn deep_view(&self) -> ExperienceView {
        self@
    }
}

impl Clone for Experience {
    fn clone(&self) -> (copy: Self)
        ensures
            copy@ == self@,
            copy.id@ == self.id@,
            copy.profile_handle@ == self.profile_handle@,
            copy.role@ == self.role@,
            copy.organization@ == self.organization@,
            copy.years_bits == self.years_bits,
            copy.summary@ == self.summary@,
            copy.achievements.deep_view() == self.achievements.deep_view(),
            copy.skills.deep_view() == self.skills.deep_view(),
    {
        Experience {
            id: self.id.clone(),
            profile_handle: self.profile_handle.clone(),
            role: self.role.clone(),
            organization: self.organization.clone(),
            years_bits: self.years_bits,
            summary: self.summary.clone(),
            achievements: copy_texts(&self.achievements),
            skills: copy_texts(&self.skills),
        }
    }
}

/// A project of a profile.
pub struct Project {
    pub id: String,
    pub profile_handle: String,
    pub name: String,
    pub impact: u8,
    pub description: String,
    pub technologies: Vec<String>,
}

/// What a [`Project`] holds.
#[verifier::ext_equal]
pub struct ProjectView {
    pub id: Seq<char>,
    pub profile_handle: Seq<char>,
    pub name: Seq<char>,
    pub impact: u8,
    pub description: Seq<char>,
    pub technologies: Seq<Seq<char>>,
}

impl View for Project {
    type V = ProjectView;

    open spec fn view(&self) -> ProjectView {
        ProjectView {
            id: self.id@,
            profile_handle: self.profile_handle@,
            name: self.name@,
            impact: self.impact,
            description: self.description@,
            technologies: self.technologies.deep_view(),
        }
    }
}

impl DeepView for Project {
    type V = ProjectView;

    open spec fn deep_view(&self) -> ProjectView {
        self@
    }
}

impl Clone for Project {
    fn clone(&self) -> (copy: Self)
        ensures
            copy@ == self@,
            copy.id@ == self.id@,
            copy.profile_handle@ == self.profile_handle@,
            copy.name@ == self.name@,
            copy.impact == self.impact,
            copy.description@ == self.description@,
            copy.technologies.deep_view() == self.technologies.deep_view(),
    {
        Project {
            id: self.id.clone(),
            profile_handle: self.profile_handle.clone(),
            name: self.name.clone(),
            impact: self.impact,
            description: self.description.clone(),
            technologies: copy_texts(&self.technologies),
        }
    }
}

/// The figures shown for a profile; `id` is the profile's handle.
pub struct Analytics {
    pub id: String,
    pub leadership: u32,
    pub technical_depth: u32,
    pub automation_index: u32,
    pub transferability: u32,
    pub innovation: u32,
    pub neural_load: u32,
}

/// What a [`Analytics`] holds.
#[verifier::ext_equal]
pub struct AnalyticsView {
    pub id: Seq<char>,
    pub leadership: u32,
    pub technical_depth: u32,
    pub automation_index: u32,
    pub transferability: u32,
    pub innovation: u32,
    pub neural_load: u32,
}

impl View for Analytics {
    type V = AnalyticsView;

    open spec fn view(&self) -> AnalyticsView {
        AnalyticsView {
            id: self.id@,
            leadership: self.leadership,
            technical_depth: self.technical_depth,
            automation_index: self.automation_index,
            transferability: self.transferability,
            innovation: self.innovation,
            neural_load: self.neural_load,
        }
    }
}

impl DeepView for Analytics {
    type V = AnalyticsView;

    open spec fn deep_view(&self) -> AnalyticsView {
        self@
    }
}

impl Clone for Analytics {
    fn clone(&self) -> (copy: Self)
        ensures
            copy@ == self@,
            copy.id@ == self.id@,
            copy.leadership == self.leadership,
            copy.technical_depth == self.technical_depth,
            copy.automation_index == self.automation_index,
            copy.transferability == self.transferability,
            copy.innovation == self.innovation,
            copy.neural_load == self.neural_load,
    {
        Analytics {
            id: self.id.clone(),
            leadership: self.leadership,
            technical_depth: self.technical_depth,
            automation_index: self.automation_index,
            transferability: self.transferability,
            innovation: self.innovation,
            neural_load: self.neural_load,
        }
    }
}

/// What the search box sends.
pub struct SearchParams {
    pub q: String,
}

/// What a [`SearchParams`] holds.
#[verifier::ext_equal]
pub struct SearchParamsView {
    pub q: Seq<char>,
}

impl View for SearchParams {
    type V = SearchParamsView;

    open spec fn view(&self) -> SearchParamsView {
        SearchParamsView {
            q: self.q@,
        }
    }
}

impl DeepView for SearchParams {
    type V = SearchParamsView;

    open spec fn deep_view(&self) -> SearchParamsView {
        self@
    }
}

/// A search hit, with the columns that the search selects.
pub struct SearchProfile {
    pub handle: String,
    pub name: Option<String>,
    pub title: Option<String>,
}

/// What a [`SearchProfile`] holds.
#[verifier::ext_equal]
pub struct SearchProfileView {
    pub handle: Seq<char>,
    pub name: Option<Seq<char>>,
    pub title: Option<Seq<char>>,
}

impl View for SearchProfile {
    type V = SearchProfileView;

    open spec fn view(&self) -> SearchProfileView {
        SearchProfileView {
            handle: self.handle@,
            name: self.name.deep_view(),
            title: self.title.deep_view(),
        }
    }
}

impl DeepView for SearchProfile {
    type V = SearchProfileView;

    open spec fn deep_view(&self) -> SearchProfileView {
        self@
    }
}

/// A sub-project of a project.
pub struct SubProject {
    pub id: i32,
    pub project_id: String,
    pub project_name: String,
    pub profile_handle: String,
    pub subproject_name: String,
    pub subproject_category: String,
    pub display_order: i32,
}

/// What a [`SubProject`] holds.
#[verifier::ext_equal]
pub struct SubProjectView {
    pub id: i32,
    pub project_id: Seq<char>,
    pub project_name: Seq<char>,
    pub profile_handle: Seq<char>,
    pub subproject_name: Seq<char>,
    pub subproject_category: Seq<char>,
    pub display_order: i32,
}

impl View for SubProject {
    type V = SubProjectView;

    open spec fn view(&self) -> SubProjectView {
        SubProjectView {
            id: self.id,
            project_id: self.project_id@,
            project_name: self.project_name@,
            profile_handle: self.profile_handle@,
            subproject_name: self.subproject_name@,
            subproject_category: self.subproject_category@,
            display_order: self.display_order,
        }
    }
}

impl DeepView for SubProject {
    type V = SubProjectView;

    open spec fn deep_view(&self) -> SubProjectView {
        self@
    }
}

/// The profile whose dashboard is asked for.
pub struct DashboardQuery {
    pub handle: String,
}

/// What a [`DashboardQuery`] holds.
#[verifier::ext_equal]
pub struct DashboardQueryView {
    pub handle: Seq<char>,
}

impl View for DashboardQuery {
    type V = DashboardQueryView;

    open spec fn view(&self) -> DashboardQueryView {
        DashboardQueryView {
            handle: self.handle@,
        }
    }
}

impl DeepView for DashboardQuery {
    type V = DashboardQueryView;

    open spec fn deep_view(&self) -> DashboardQueryView {
        self@
    }
}

/// The project whose sub-projects are asked for.
pub struct SubProjectQuery {
    pub project_id: String,
    pub profile_handle: String,
}

/// What a [`SubProjectQuery`] holds.
#[verifier::ext_equal]
pub struct SubProjectQueryView {
    pub project_id: Seq<char>,
    pub profile_handle: Seq<char>,
}

impl View for SubProjectQuery {
    type V = SubProjectQueryView;

    open spec fn view(&self) -> SubProjectQueryView {
        SubProjectQueryView {
            project_id: self.project_id@,
            profile_handle: self.profile_handle@,
        }
    }
}

impl DeepView for SubProjectQuery {
    type V = SubProjectQueryView;

    open spec fn deep_view(&self) -> SubProjectQueryView {
        self@
    }
}

/// A sub-project to be stored.
pub struct NewSubProjectQuery {
    pub project_id: String,
    pub project_name: String,
    pub profile_handle: String,
    pub subproject_name: String,
    pub subproject_category: String,
}

/// What a [`NewSubProjectQuery`] holds.
#[verifier::ext_equal]
pub struct NewSubProjectQueryView {
    pub project_id: Seq<char>,
    pub project_name: Seq<char>,
    pub profile_handle: Seq<char>,
    pub subproject_name: Seq<char>,
    pub subproject_category: Seq<char>,
}

impl View for NewSubProjectQuery {
    type V = NewSubProjectQueryView;

    open spec fn view(&self) -> NewSubProjectQueryView {
        NewSubProjectQueryView {
            project_id: self.project_id@,
            project_name: self.project_name@,
            profile_handle: self.profile_handle@,
            subproject_name: self.subproject_name@,
            subproject_category: self.subproject_category@,
        }
    }
}

impl DeepView for NewSubProjectQuery {
    type V = NewSubProjectQueryView;

    open spec fn deep_view(&self) -> NewSubProjectQueryView {
        self@
    }
}

/// The profile whose records are asked for.
pub struct EditQuery {
    pub profile_handle: String,
}

/// What a [`EditQuery`] holds.
#[verifier::ext_equal]
pub struct EditQueryView {
    pub profile_handle: Seq<char>,
}

impl View for EditQuery {
    type V = EditQueryView;

    open spec fn view(&self) -> EditQueryView {
        EditQueryView {
            profile_handle: self.profile_handle@,
        }
    }
}

impl DeepView for EditQuery {
    type V = EditQueryView;

    open spec fn deep_view(&self) -> EditQueryView {
        self@
    }
}

/// The view of a [`User`] holds what its fields hold, each under its own name.
pub proof fn user_view_is_faithful(user: User)
    ensures
        user@.profile_handle == user.profile_handle@,
        user@.password == user.password@,
        user.deep_view() == user@,
{
}

/// The view of a [`Profile`] holds what its fields hold, each under its own name.
pub proof fn profile_view_is_faithful(profile: Profile)
    ensures
        profile@.picture == profile.picture@,
        profile@.handle == profile.handle@,
        profile@.name == profile.name@,
        profile@.title == profile.title@,
        profile@.location == profile.location@,
        profile@.summary == profile.summary@,
        profile.deep_view() == profile@,
{
}

/// The view of a [`Skill`] holds what its fields hold, each under its own name.
pub proof fn skill_view_is_faithful(skill: Skill)
    ensures
        skill@.id == skill.id@,
        skill@.profile_handle == skill.profile_handle@,
        skill@.name == skill.name@,
        skill@.category == skill.category@,
        skill@.score == skill.score,
        skill@.links.len() == skill.links@.len(),
        forall|i: int| 0 <= i < skill.links@.len() ==> #[trigger] skill@.links[i] == skill.links@[i]@,
        skill.deep_view() == skill@,
{
}

/// The view of a [`Experience`] holds what its fields hold, each under its own name.
pub proof fn experience_view_is_faithful(experience: Experience)
    ensures
        experience@.id == experience.id@,
        experience@.profile_handle == experience.profile_handle@,
        experience@.role == experience.role@,
        experience@.organization == experience.organization@,
        experience@.years_bits == experience.years_bits,
        experience@.summary == experience.summary@,
        experience@.achievements.len() == experience.achievements@.len(),
        forall|i: int| 0 <= i < experience.achievements@.len() ==> #[trigger] experience@.achievements[i] == experience.achievements@[i]@,
        experience@.skills.len() == experience.skills@.len(),
        forall|i: int| 0 <= i < experience.skills@.len() ==> #[trigger] experience@.skills[i] == experience.skills@[i]@,
        experience.deep_view() == experience@,
{
}

/// The view of a [`Project`] holds what its fields hold, each under its own name.
pub proof fn project_view_is_faithful(project: Project)
    ensures
        project@.id == project.id@,
        project@.profile_handle == project.profile_handle@,
        project@.name == project.name@,
        project@.impact == project.impact,
        project@.description == project.description@,
        project@.technologies.len() == project.technologies@.len(),
        forall|i: int| 0 <= i < project.technologies@.len() ==> #[trigger] project@.technologies[i] == project.technologies@[i]@,
        project.deep_view() == project@,
{
}

/// The view of a [`Analytics`] holds what its fields hold, each under its own name.
pub proof fn analytics_view_is_faithful(analytics: Analytics)
    ensures
        analytics@.id == analytics.id@,
        analytics@.leadership == analytics.leadership,
        analytics@.technical_depth == analytics.technical_depth,
        analytics@.automation_index == analytics.automation_index,
        analytics@.transferability == analytics.transferability,
        analytics@.innovation == analytics.innovation,
        analytics@.neural_load == analytics.neural_load,
        analytics.deep_view() == analytics@,
{
}

/// The view of a [`SearchParams`] holds what its fields hold, each under its own name.
pub proof fn search_params_view_is_faithful(search_params: SearchParams)
    ensures
        search_params@.q == search_params.q@,
        search_params.deep_view() == search_params@,
{
}

/// The view of a [`SearchProfile`] holds what its fields hold, each under its own name.
pub proof fn search_profile_view_is_faithful(search_profile: SearchProfile)
    ensures
        search_profile@.handle == search_profile.handle@,
        (search_profile.name matches Some(text) ==> search_profile@.name == Some(text@)),
        search_profile.name is None ==> search_profile@.name is None,
        (search_profile.title matches Some(text) ==> search_profile@.title == Some(text@)),
        search_profile.title is None ==> search_profile@.title is None,
        search_profile.deep_view() == search_profile@,
{
}

/// The view of a [`SubProject`] holds what its fields hold, each under its own name.
pub proof fn sub_project_view_is_faithful(sub_project: SubProject)
    ensures
        sub_project@.id == sub_project.id,
        sub_project@.project_id == sub_project.project_id@,
        sub_project@.project_name == sub_project.project_name@,
        sub_project@.profile_handle == sub_project.profile_handle@,
        sub_project@.subproject_name == sub_project.subproject_name@,
        sub_project@.subproject_category == sub_project.subproject_category@,
        sub_project@.display_order == sub_project.display_order,
        sub_project.deep_view() == sub_project@,
{
}

/// The view of a [`DashboardQuery`] holds what its fields hold, each under its own name.
pub proof fn dashboard_query_view_is_faithful(dashboard_query: DashboardQuery)
    ensures
        dashboard_query@.handle == dashboard_query.handle@,
        dashboard_query.deep_view() == dashboard_query@,
{
}

/// The view of a [`SubProjectQuery`] holds what its fields hold, each under its own name.
pub proof fn sub_project_query_view_is_faithful(sub_project_query: SubProjectQuery)
    ensures
        sub_project_query@.project_id == sub_project_query.project_id@,
        sub_project_query@.profile_handle == sub_project_query.profile_handle@,
        sub_project_query.deep_view() == sub_project_query@,
{
}

/// The view of a [`NewSubProjectQuery`] holds what its fields hold, each under its own name.
pub proof fn new_sub_project_query_view_is_faithful(new_sub_project_query: NewSubProjectQuery)
    ensures
        new_sub_project_query@.project_id == new_sub_project_query.project_id@,
        new_sub_project_query@.project_name == new_sub_project_query.project_name@,
        new_sub_project_query@.profile_handle == new_sub_project_query.profile_handle@,
        new_sub_project_query@.subproject_name == new_sub_project_query.subproject_name@,
        new_sub_project_query@.subproject_category == new_sub_project_query.subproject_category@,
        new_sub_project_query.deep_view() == new_sub_project_query@,
{
}

/// The view of a [`EditQuery`] holds what its fields hold, each under its own name.
pub proof fn edit_query_view_is_faithful(edit_query: EditQuery)
    ensures
        edit_query@.profile_handle == edit_query.profile_handle@,
        edit_query.deep_view() == edit_query@,
{
}

} // verus!
