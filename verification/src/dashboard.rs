//! The dashboard of a profile, and the upload of a whole résumé.
//!
//! Whoever asks for the dashboard of a handle that has no profile yet gets the
//! data that the registry starts with, which is then stored under that handle.
use vstd::prelude::*;

use crate::edits::{for_handle, with_handle};
use crate::json::{json_list, json_text};
use crate::records::{
    Analytics, AnalyticsView, DashboardQuery, Experience, ExperienceView, Profile, ProfileView,
    Project, ProjectView, Skill, SkillView, User, UserView,
};
use crate::rows::{
    decode_experiences, decode_projects, decode_skills, decoded_experiences, decoded_projects,
    decoded_skills, ExperienceRow, ExperienceRowView, ProjectRow, ProjectRowView, SkillRow,
    SkillRowView,
};
use crate::runs::{
    fatal, nothing_runs_after_abort, reporting_run_completes, steps_run_in_order, OnFailure,
    OnFailureView, SaveRun, SaveRunView, SaveStep, SaveStepView,
};
use crate::saves::{
    analytics_of_row, analytics_saved, experience_reads_back, experience_row, experience_saved,
    profile_of_row, profile_saved, project_reads_back, project_row, project_saved, save_analytics,
    save_profile, skill_reads_back, skill_row, skill_saved, user_of_row, user_saved,
    SAVE_ANALYTICS_SQL, SAVE_EXPERIENCE_SQL, SAVE_PROFILE_SQL, SAVE_PROJECT_SQL, SAVE_SKILL_SQL,
    SAVE_USER_SQL,
};
use crate::status::StatusCode;
use crate::steps::{
    analytics_steps, experience_steps, profile_steps, project_steps, push_analytics,
    push_experience_groups, push_experiences, push_profiles, push_project_groups, push_projects,
    push_skill_groups, push_skills, push_step, push_users, skill_steps, user_steps,
};
use crate::store::{
    found_result, Statement, StatementView, StoreError, StoreErrorView, ValueView,
};

verus! {

/// Everything that is shown of a profile. Skills, experiences and projects come in
/// groups.
pub struct Dashboard {
    pub profiles: Vec<Profile>,
    pub skills: Vec<Vec<Skill>>,
    pub experiences: Vec<Vec<Experience>>,
    pub projects: Vec<Vec<Project>>,
    pub analytics: Vec<Analytics>,
}

/// What a [`Dashboard`] holds.
#[verifier::ext_equal]
pub struct DashboardView {
    pub profiles: Seq<ProfileView>,
    pub skills: Seq<Seq<SkillView>>,
    pub experiences: Seq<Seq<ExperienceView>>,
    pub projects: Seq<Seq<ProjectView>>,
    pub analytics: Seq<AnalyticsView>,
}

impl View for Dashboard {
    type V = DashboardView;

    open spec fn view(&self) -> DashboardView {
        DashboardView {
            profiles: self.profiles.deep_view(),
            skills: self.skills.deep_view(),
            experiences: self.experiences.deep_view(),
            projects: self.projects.deep_view(),
            analytics: self.analytics.deep_view(),
        }
    }
}

/// A master struct to accept the entire payload at once.
pub struct FullResumeUplink {
    pub profile: Profile,
    pub skills: Vec<Skill>,
    pub experiences: Vec<Experience>,
    pub projects: Vec<Project>,
    pub analytics: Analytics,
}

/// What a [`FullResumeUplink`] holds.
#[verifier::ext_equal]
pub struct FullResumeUplinkView {
    pub profile: ProfileView,
    pub skills: Seq<SkillView>,
    pub experiences: Seq<ExperienceView>,
    pub projects: Seq<ProjectView>,
    pub analytics: AnalyticsView,
}

impl View for FullResumeUplink {
    type V = FullResumeUplinkView;

    open spec fn view(&self) -> FullResumeUplinkView {
        FullResumeUplinkView {
            profile: self.profile@,
            skills: self.skills.deep_view(),
            experiences: self.experiences.deep_view(),
            projects: self.projects.deep_view(),
            analytics: self.analytics@,
        }
    }
}

/// The data that the registry starts with.
pub struct SeedData {
    pub handle: String,
    pub current_headline: String,
    pub users: Vec<User>,
    pub profiles: Vec<Profile>,
    pub skills: Vec<Vec<Skill>>,
    pub experiences: Vec<Vec<Experience>>,
    pub projects: Vec<Vec<Project>>,
    pub analytics_matrix: Vec<Analytics>,
}

/// What a [`SeedData`] holds.
#[verifier::ext_equal]
pub struct SeedDataView {
    pub handle: Seq<char>,
    pub current_headline: Seq<char>,
    pub users: Seq<UserView>,
    pub profiles: Seq<ProfileView>,
    pub skills: Seq<Seq<SkillView>>,
    pub experiences: Seq<Seq<ExperienceView>>,
    pub projects: Seq<Seq<ProjectView>>,
    pub analytics_matrix: Seq<AnalyticsView>,
}

impl View for SeedData {
    type V = SeedDataView;

    open spec fn view(&self) -> SeedDataView {
        SeedDataView {
            handle: self.handle@,
            current_headline: self.current_headline@,
            users: self.users.deep_view(),
            profiles: self.profiles.deep_view(),
            skills: self.skills.deep_view(),
            experiences: self.experiences.deep_view(),
            projects: self.projects.deep_view(),
            analytics_matrix: self.analytics_matrix.deep_view(),
        }
    }
}

impl SeedDataView {
    /// The dashboard that shows the data.
    pub open spec fn dashboard(self) -> DashboardView {
        DashboardView {
            profiles: self.profiles,
            skills: self.skills,
            experiences: self.experiences,
            projects: self.projects,
            analytics: self.analytics_matrix,
        }
    }
}

fn copy_groups<T: Clone + DeepView>(groups: &Vec<Vec<T>>) -> (copy: Vec<Vec<T>>)
    requires
        forall|a: T, b: T| #[trigger] cloned(a, b) ==> a.deep_view() == b.deep_view(),
    ensures
        copy.deep_view() == groups.deep_view(),
{
    let mut copy: Vec<Vec<T>> = Vec::new();
    let mut i: usize = 0;
    while i < groups.len()
        invariant
            i <= groups.len(),
            copy@.len() == i,
            forall|a: T, b: T| #[trigger] cloned(a, b) ==> a.deep_view() == b.deep_view(),
            forall|j: int|
                0 <= j < i ==> (#[trigger] copy@[j]).deep_view() == groups@[j].deep_view(),
        decreases groups.len() - i,
    {
        let group = groups[i].clone();
        assert(group.deep_view() =~= groups@[i as int].deep_view());
        copy.push(group);
        i += 1;
    }
    assert(copy.deep_view() =~= groups.deep_view());
    copy
}

impl SeedData {
    /// The dashboard that shows the data.
    pub fn dashboard(&self) -> (dashboard: Dashboard)
        ensures
            dashboard@ == self@.dashboard(),
            dashboard.profiles.deep_view() == self.profiles.deep_view(),
            dashboard.skills.deep_view() == self.skills.deep_view(),
            dashboard.experiences.deep_view() == self.experiences.deep_view(),
            dashboard.projects.deep_view() == self.projects.deep_view(),
            dashboard.analytics.deep_view() == self.analytics_matrix.deep_view(),
    {
        let profiles = self.profiles.clone();
        let analytics = self.analytics_matrix.clone();
        assert(profiles.deep_view() =~= self.profiles.deep_view());
        assert(analytics.deep_view() =~= self.analytics_matrix.deep_view());
        Dashboard {
            profiles,
            skills: copy_groups(&self.skills),
            experiences: copy_groups(&self.experiences),
            projects: copy_groups(&self.projects),
            analytics,
        }
    }
}

/// The statements that store the data that the registry starts with, under a
/// handle. Users and profiles keep their own handles, and are passed over where
/// they cannot be stored; with any of the others, storing ends.
pub open spec fn seed_steps(seed: SeedDataView, handle: Seq<char>) -> Seq<SaveStepView> {
    user_steps(seed.users) + profile_steps(seed.profiles) + skill_steps(
        handle,
        seed.skills.flatten(),
        OnFailureView::Abort,
    ) + experience_steps(handle, seed.experiences.flatten(), OnFailureView::Abort) + project_steps(
        handle,
        seed.projects.flatten(),
        OnFailureView::Abort,
    ) + analytics_steps(seed.analytics_matrix, OnFailureView::Abort)
}

/// Whether all rows that are written for the data are read back as its records,
/// under the handle.
pub open spec fn seed_reads_back(seed: SeedDataView, handle: Seq<char>) -> bool {
    &&& forall|i: int|
        0 <= i < seed.skills.flatten().len() ==> skill_reads_back(
            handle,
            #[trigger] seed.skills.flatten()[i],
        )
    &&& forall|i: int|
        0 <= i < seed.experiences.flatten().len() ==> experience_reads_back(
            handle,
            #[trigger] seed.experiences.flatten()[i],
        )
    &&& forall|i: int|
        0 <= i < seed.projects.flatten().len() ==> project_reads_back(
            handle,
            #[trigger] seed.projects.flatten()[i],
        )
}

fn seeding(seed: &SeedData, handle: &str) -> (run: SaveRun)
    ensures
        run@ == SaveRunView::of(seed_steps(seed@, handle@)),
        seed_reads_back(seed@, handle@),
{
    let mut steps: Vec<SaveStep> = Vec::new();
    push_users(&mut steps, &seed.users);
    assert(steps.deep_view() =~= user_steps(seed@.users));
    push_profiles(&mut steps, &seed.profiles);
    push_skill_groups(&mut steps, handle, &seed.skills, &OnFailure::Abort);
    push_experience_groups(&mut steps, handle, &seed.experiences, &OnFailure::Abort);
    push_project_groups(&mut steps, handle, &seed.projects, &OnFailure::Abort);
    push_analytics(&mut steps, &seed.analytics_matrix, &OnFailure::Abort);
    SaveRun::new(steps)
}

/// Reads the profiles of a handle.
pub const EXISTING_SQL: &'static str = "SELECT * FROM profiles WHERE handle = ?";

/// The statement that looks whether a handle has a profile.
pub fn dashboard_lookup(params: &DashboardQuery) -> (statement: Statement)
    ensures
        statement@ == with_handle(EXISTING_SQL@, params@.handle),
        statement.sql@ == EXISTING_SQL@,
        statement@.binds == seq![ValueView::Text(params.handle@)],
{
    for_handle(EXISTING_SQL, params.handle.as_str())
}

/// How a dashboard is come by.
pub enum DashboardPlan {
    /// It is not: the request is answered with the status.
    Fail(StatusCode),
    /// The data that the registry starts with is stored, and then shown.
    Seed(SaveRun),
    /// What is stored for the handle is read.
    Fetch(ProfilesAwaited),
}

/// Decides, by the profiles that a handle has, how its dashboard is come by.
pub fn dashboard(
    seed: &SeedData,
    params: &DashboardQuery,
    existing: Result<Vec<Profile>, StoreError>,
) -> (plan: DashboardPlan)
    ensures
        match existing {
            Err(_) => plan == DashboardPlan::Fail(StatusCode::InternalServerError),
            Ok(profiles) => if profiles@.len() == 0 {
                plan matches DashboardPlan::Seed(run) && run@ == SaveRunView::of(
                    seed_steps(seed@, params@.handle),
                ) && seed_reads_back(seed@, params@.handle) && run@.steps == seed_steps(
                    seed@,
                    params.handle@,
                ) && run@.done == 0 && !run@.aborted
            } else {
                plan matches DashboardPlan::Fetch(fetch) && fetch.handle@ == params@.handle
                    && fetch.handle@ == params.handle@
            },
        },
{
    match existing {
        Err(_) => DashboardPlan::Fail(StatusCode::InternalServerError),
        Ok(profiles) => if profiles.len() == 0 {
            DashboardPlan::Seed(seeding(seed, params.handle.as_str()))
        } else {
            DashboardPlan::Fetch(fetch_dashboard_for_handle(params.handle.as_str()))
        },
    }
}

/// The reply once the data that the registry starts with was stored: the data, or
/// an error where storing it was aborted.
pub fn seeded_reply(seed: &SeedData, run: &SaveRun) -> (reply: Result<Dashboard, StatusCode>)
    requires
        !run@.pending(),
    ensures
        match reply {
            Ok(dashboard) => !run@.aborted && dashboard@ == seed@.dashboard(),
            Err(status) => run@.aborted && status == StatusCode::InternalServerError,
        },
        reply matches Ok(dashboard) ==> {
            &&& dashboard.profiles.deep_view() == seed.profiles.deep_view()
            &&& dashboard.skills.deep_view() == seed.skills.deep_view()
            &&& dashboard.experiences.deep_view() == seed.experiences.deep_view()
            &&& dashboard.projects.deep_view() == seed.projects.deep_view()
            &&& dashboard.analytics.deep_view() == seed.analytics_matrix.deep_view()
        },
{
    if run.is_aborted() {
        Err(StatusCode::InternalServerError)
    } else {
        Ok(seed.dashboard())
    }
}

/// Reads all profiles: the dashboard leads from one to the next.
pub const ALL_PROFILES_SQL: &'static str = "SELECT * FROM profiles";

/// Reads the skills of a handle.
pub const ALL_SKILLS_SQL: &'static str = "SELECT * FROM skills WHERE profile_handle = ?";

/// Reads the experiences of a handle.
pub const ALL_EXPERIENCES_SQL: &'static str =
    "SELECT * FROM experiences WHERE profile_handle = ?";

/// Reads the projects of a handle.
pub const ALL_PROJECTS_SQL: &'static str = "SELECT * FROM projects WHERE profile_handle = ?";

/// Reads the figures of a handle, which are kept under it as their id.
pub const ALL_ANALYTICS_SQL: &'static str =
    "SELECT id, leadership, technical_depth, automation_index, transferability, innovation, neural_load 
         FROM analytics WHERE id = ?";

/// A dashboard of which nothing has been read yet.
pub struct ProfilesAwaited {
    pub handle: String,
}

/// A dashboard of which the profiles have been read.
pub struct SkillsAwaited {
    pub handle: String,
    pub profiles: Vec<Profile>,
}

/// A dashboard of which the skills have been read, too.
pub struct ExperiencesAwaited {
    pub handle: String,
    pub profiles: Vec<Profile>,
    pub skills: Vec<Skill>,
}

/// A dashboard of which the experiences have been read, too.
pub struct ProjectsAwaited {
    pub handle: String,
    pub profiles: Vec<Profile>,
    pub skills: Vec<Skill>,
    pub experiences: Vec<Experience>,
}

/// A dashboard of which only the figures have not been read.
pub struct AnalyticsAwaited {
    pub handle: String,
    pub profiles: Vec<Profile>,
    pub skills: Vec<Skill>,
    pub experiences: Vec<Experience>,
    pub projects: Vec<Project>,
}

/// The skills that what the database gave is read as.
pub open spec fn skills_read(found: Result<Seq<SkillRowView>, StoreErrorView>) -> Result<
    Seq<SkillView>,
    StoreErrorView,
> {
    match found {
        Ok(rows) => decoded_skills(rows),
        Err(error) => Err(error),
    }
}

/// The experiences that what the database gave is read as.
pub open spec fn experiences_read(found: Result<Seq<ExperienceRowView>, StoreErrorView>) -> Result<
    Seq<ExperienceView>,
    StoreErrorView,
> {
    match found {
        Ok(rows) => decoded_experiences(rows),
        Err(error) => Err(error),
    }
}

/// The projects that what the database gave is read as.
pub open spec fn projects_read(found: Result<Seq<ProjectRowView>, StoreErrorView>) -> Result<
    Seq<ProjectView>,
    StoreErrorView,
> {
    match found {
        Ok(rows) => decoded_projects(rows),
        Err(error) => Err(error),
    }
}

/// Begins to read the dashboard of a handle: profiles, skills, experiences,
/// projects and figures, one after the other, up to the first that cannot be read.
pub fn fetch_dashboard_for_handle(handle: &str) -> (fetch: ProfilesAwaited)
    ensures
        fetch.handle@ == handle@,
{
    ProfilesAwaited { handle: handle.to_string() }
}

impl ProfilesAwaited {
    /// The statement that reads the profiles.
    pub fn statement(&self) -> (statement: Statement)
        ensures
            statement@ == (StatementView { sql: ALL_PROFILES_SQL@, binds: Seq::empty() }),
            statement.sql@ == ALL_PROFILES_SQL@,
            statement@.binds.len() == 0,
    {
        let statement = Statement { sql: ALL_PROFILES_SQL, binds: Vec::new() };
        assert(statement.binds.deep_view() =~= Seq::empty());
        statement
    }

    /// Takes in the profiles, or the error with which reading them failed.
    pub fn take(self, found: Result<Vec<Profile>, StoreError>) -> (next: Result<
        SkillsAwaited,
        StoreError,
    >)
        ensures
            match next {
                Ok(next) => {
                    &&& found_result(found) == Ok::<Seq<ProfileView>, StoreErrorView>(
                        next.profiles.deep_view(),
                    )
                    &&& next.handle@ == self.handle@
                },
                Err(error) => found_result(found) == Err::<Seq<ProfileView>, StoreErrorView>(
                    error@,
                ),
            },
            match (found, next) {
                (Ok(profiles), Ok(next)) => next.profiles == profiles && next.handle
                    == self.handle,
                (Err(refused), Err(error)) => error == refused,
                _ => false,
            },
    {
        match found {
            Ok(profiles) => Ok(SkillsAwaited { handle: self.handle, profiles }),
            Err(error) => Err(error),
        }
    }
}

impl SkillsAwaited {
    /// The statement that reads the skills of the handle.
    pub fn statement(&self) -> (statement: Statement)
        ensures
            statement@ == with_handle(ALL_SKILLS_SQL@, self.handle@),
            statement.sql@ == ALL_SKILLS_SQL@,
            statement@.binds == seq![ValueView::Text(self.handle@)],
    {
        for_handle(ALL_SKILLS_SQL, self.handle.as_str())
    }

    /// Takes in the rows of the skills, or the error with which reading them failed.
    pub fn take(self, found: Result<Vec<SkillRow>, StoreError>) -> (next: Result<
        ExperiencesAwaited,
        StoreError,
    >)
        ensures
            match next {
                Ok(next) => {
                    &&& skills_read(found_result(found)) == Ok::<Seq<SkillView>, StoreErrorView>(
                        next.skills.deep_view(),
                    )
                    &&& next.handle@ == self.handle@
                    &&& next.profiles.deep_view() == self.profiles.deep_view()
                },
                Err(error) => skills_read(found_result(found)) == Err::<
                    Seq<SkillView>,
                    StoreErrorView,
                >(error@),
            },
            match (found, next) {
                (Ok(rows), Ok(next)) => {
                    &&& next.handle == self.handle
                    &&& next.profiles == self.profiles
                    &&& next.skills@.len() == rows@.len()
                    &&& forall|i: int|
                        0 <= i < rows@.len() ==> {
                            &&& (#[trigger] next.skills@[i]).deep_view() == next.skills@[i]@
                            &&& next.skills@[i].id@ == rows@[i].id@
                            &&& next.skills@[i].profile_handle@ == rows@[i].profile_handle@
                            &&& next.skills@[i].name@ == rows@[i].name@
                            &&& next.skills@[i].category@ == rows@[i].category@
                            &&& next.skills@[i].score == rows@[i].score
                            &&& json_list(rows@[i].links@) matches Ok(items)
                                && next.skills@[i].links.deep_view() == items
                        }
                },
                (Ok(rows), Err(error)) => exists|i: int|
                    {
                        &&& 0 <= i < rows@.len()
                        &&& (#[trigger] rows@[i]).deep_view() == rows@[i]@
                        &&& json_list(rows@[i].links@) matches Err(message) && error@ == (StoreErrorView::ColumnDecode {
                            index: "\"links\""@,
                            source: message,
                        })
                    },
                (Err(refused), Err(error)) => error == refused,
                _ => false,
            },
    {
        match found {
            Ok(rows) => match decode_skills(&rows) {
                Ok(skills) => Ok(
                    ExperiencesAwaited {
                        handle: self.handle,
                        profiles: self.profiles,
                        skills,
                    },
                ),
                Err(error) => Err(error),
            },
            Err(error) => Err(error),
        }
    }
}

impl ExperiencesAwaited {
    /// The statement that reads the experiences of the handle.
    pub fn statement(&self) -> (statement: Statement)
        ensures
            statement@ == with_handle(ALL_EXPERIENCES_SQL@, self.handle@),
            statement.sql@ == ALL_EXPERIENCES_SQL@,
            statement@.binds == seq![ValueView::Text(self.handle@)],
    {
        for_handle(ALL_EXPERIENCES_SQL, self.handle.as_str())
    }

    /// Takes in the rows of the experiences, or the error with which reading them failed.
    pub fn take(self, found: Result<Vec<ExperienceRow>, StoreError>) -> (next: Result<
        ProjectsAwaited,
        StoreError,
    >)
        ensures
            match next {
                Ok(next) => {
                    &&& experiences_read(found_result(found)) == Ok::<Seq<ExperienceView>, StoreErrorView>(
                        next.experiences.deep_view(),
                    )
                    &&& next.handle@ == self.handle@
                    &&& next.profiles.deep_view() == self.profiles.deep_view()
                    &&& next.skills.deep_view() == self.skills.deep_view()
                },
                Err(error) => experiences_read(found_result(found)) == Err::<
                    Seq<ExperienceView>,
                    StoreErrorView,
                >(error@),
            },
            match (found, next) {
                (Ok(rows), Ok(next)) => {
                    &&& next.handle == self.handle
                    &&& next.profiles == self.profiles
                    &&& next.skills == self.skills
                    &&& next.experiences@.len() == rows@.len()
                    &&& forall|i: int|
                        0 <= i < rows@.len() ==> {
                            &&& (#[trigger] next.experiences@[i]).deep_view() == next.experiences@[i]@
                            &&& next.experiences@[i].id@ == rows@[i].id@
                            &&& next.experiences@[i].profile_handle@ == rows@[i].profile_handle@
                            &&& next.experiences@[i].role@ == rows@[i].role@
                            &&& next.experiences@[i].organization@ == rows@[i].organization@
                            &&& next.experiences@[i].years_bits == rows@[i].years_bits
                            &&& next.experiences@[i].summary@ == rows@[i].summary@
                            &&& json_list(rows@[i].achievements@) matches Ok(items)
                                && next.experiences@[i].achievements.deep_view() == items
                            &&& json_list(rows@[i].skills@) matches Ok(items)
                                && next.experiences@[i].skills.deep_view() == items
                        }
                },
                (Ok(rows), Err(error)) => exists|i: int|
                    {
                        &&& 0 <= i < rows@.len()
                        &&& (#[trigger] rows@[i]).deep_view() == rows@[i]@
                        &&& json_list(rows@[i].achievements@) is Err || json_list(rows@[i].skills@) is Err
                        &&& json_list(rows@[i].achievements@) matches Err(message) ==> error@ == (StoreErrorView::ColumnDecode {
                            index: "\"achievements\""@,
                            source: message,
                        })
                        &&& json_list(rows@[i].achievements@) is Ok ==> (json_list(rows@[i].skills@) matches Err(message) && error@ == (StoreErrorView::ColumnDecode {
                            index: "\"skills\""@,
                            source: message,
                        }))
                    },
                (Err(refused), Err(error)) => error == refused,
                _ => false,
            },
    {
        match found {
            Ok(rows) => match decode_experiences(&rows) {
                Ok(experiences) => Ok(
                    ProjectsAwaited {
                        handle: self.handle,
                        profiles: self.profiles,
                        skills: self.skills,
                        experiences,
                    },
                ),
                Err(error) => Err(error),
            },
            Err(error) => Err(error),
        }
    }
}

impl ProjectsAwaited {
    /// The statement that reads the projects of the handle.
    pub fn statement(&self) -> (statement: Statement)
        ensures
            statement@ == with_handle(ALL_PROJECTS_SQL@, self.handle@),
            statement.sql@ == ALL_PROJECTS_SQL@,
            statement@.binds == seq![ValueView::Text(self.handle@)],
    {
        for_handle(ALL_PROJECTS_SQL, self.handle.as_str())
    }

    /// Takes in the rows of the projects, or the error with which reading them failed.
    pub fn take(self, found: Result<Vec<ProjectRow>, StoreError>) -> (next: Result<
        AnalyticsAwaited,
        StoreError,
    >)
        ensures
            match next {
                Ok(next) => {
                    &&& projects_read(found_result(found)) == Ok::<Seq<ProjectView>, StoreErrorView>(
                        next.projects.deep_view(),
                    )
                    &&& next.handle@ == self.handle@
                    &&& next.profiles.deep_view() == self.profiles.deep_view()
                    &&& next.skills.deep_view() == self.skills.deep_view()
                    &&& next.experiences.deep_view() == self.experiences.deep_view()
                },
                Err(error) => projects_read(found_result(found)) == Err::<
                    Seq<ProjectView>,
                    StoreErrorView,
                >(error@),
            },
            match (found, next) {
                (Ok(rows), Ok(next)) => {
                    &&& next.handle == self.handle
                    &&& next.profiles == self.profiles
                    &&& next.skills == self.skills
                    &&& next.experiences == self.experiences
                    &&& next.projects@.len() == rows@.len()
                    &&& forall|i: int|
                        0 <= i < rows@.len() ==> {
                            &&& (#[trigger] next.projects@[i]).deep_view() == next.projects@[i]@
                            &&& next.projects@[i].id@ == rows@[i].id@
                            &&& next.projects@[i].profile_handle@ == rows@[i].profile_handle@
                            &&& next.projects@[i].name@ == rows@[i].name@
                            &&& next.projects@[i].impact == rows@[i].impact
                            &&& next.projects@[i].description@ == rows@[i].description@
                            &&& json_list(rows@[i].technologies@) matches Ok(items)
                                && next.projects@[i].technologies.deep_view() == items
                        }
                },
                (Ok(rows), Err(error)) => exists|i: int|
                    {
                        &&& 0 <= i < rows@.len()
                        &&& (#[trigger] rows@[i]).deep_view() == rows@[i]@
                        &&& json_list(rows@[i].technologies@) matches Err(message) && error@ == (StoreErrorView::ColumnDecode {
                            index: "\"technologies\""@,
                            source: message,
                        })
                    },
                (Err(refused), Err(error)) => error == refused,
                _ => false,
            },
    {
        match found {
            Ok(rows) => match decode_projects(&rows) {
                Ok(projects) => Ok(
                    AnalyticsAwaited {
                        handle: self.handle,
                        profiles: self.profiles,
                        skills: self.skills,
                        experiences: self.experiences,
                        projects,
                    },
                ),
                Err(error) => Err(error),
            },
            Err(error) => Err(error),
        }
    }
}

impl AnalyticsAwaited {
    /// The statement that reads the figures of the handle.
    pub fn statement(&self) -> (statement: Statement)
        ensures
            statement@ == with_handle(ALL_ANALYTICS_SQL@, self.handle@),
            statement.sql@ == ALL_ANALYTICS_SQL@,
            statement@.binds == seq![ValueView::Text(self.handle@)],
    {
        for_handle(ALL_ANALYTICS_SQL, self.handle.as_str())
    }

    /// Takes in the figures, or the error with which reading them failed; with them
    /// the dashboard is complete. What belongs to the handle is its one group.
    pub fn take(self, found: Result<Vec<Analytics>, StoreError>) -> (result: Result<
        Dashboard,
        StoreError,
    >)
        ensures
            match (found, result) {
                (Ok(analytics), Ok(dashboard)) => dashboard@ == one_group(
                    self.profiles.deep_view(),
                    self.skills.deep_view(),
                    self.experiences.deep_view(),
                    self.projects.deep_view(),
                    analytics.deep_view(),
                ),
                (Err(refused), Err(error)) => error@ == refused@,
                _ => false,
            },
            match (found, result) {
                (Ok(analytics), Ok(dashboard)) => {
                    &&& dashboard.profiles == self.profiles
                    &&& dashboard.skills@ == seq![self.skills]
                    &&& dashboard.experiences@ == seq![self.experiences]
                    &&& dashboard.projects@ == seq![self.projects]
                    &&& dashboard.analytics == analytics
                },
                (Err(refused), Err(error)) => error == refused,
                _ => false,
            },
    {
        match found {
            Ok(analytics) => {
                let skills = vec![self.skills];
                let experiences = vec![self.experiences];
                let projects = vec![self.projects];
                assert(skills.deep_view() =~= seq![self.skills.deep_view()]);
                assert(experiences.deep_view() =~= seq![self.experiences.deep_view()]);
                assert(projects.deep_view() =~= seq![self.projects.deep_view()]);
                Ok(Dashboard { profiles: self.profiles, skills, experiences, projects, analytics })
            },
            Err(error) => Err(error),
        }
    }
}

/// A dashboard whose skills, experiences and projects are one group each.
pub open spec fn one_group(
    profiles: Seq<ProfileView>,
    skills: Seq<SkillView>,
    experiences: Seq<ExperienceView>,
    projects: Seq<ProjectView>,
    analytics: Seq<AnalyticsView>,
) -> DashboardView {
    DashboardView {
        profiles,
        skills: seq![skills],
        experiences: seq![experiences],
        projects: seq![projects],
        analytics,
    }
}

/// The dashboard that what the database gave is read as; the error of the first of
/// the five queries that failed.
pub open spec fn dashboard_read(
    profiles: Result<Seq<ProfileView>, StoreErrorView>,
    skills: Result<Seq<SkillRowView>, StoreErrorView>,
    experiences: Result<Seq<ExperienceRowView>, StoreErrorView>,
    projects: Result<Seq<ProjectRowView>, StoreErrorView>,
    analytics: Result<Seq<AnalyticsView>, StoreErrorView>,
) -> Result<DashboardView, StoreErrorView> {
    match (
        profiles,
        skills_read(skills),
        experiences_read(experiences),
        projects_read(projects),
        analytics,
    ) {
        (Err(error), _, _, _, _) => Err(error),
        (_, Err(error), _, _, _) => Err(error),
        (_, _, Err(error), _, _) => Err(error),
        (_, _, _, Err(error), _) => Err(error),
        (_, _, _, _, Err(error)) => Err(error),
        (Ok(profiles), Ok(skills), Ok(experiences), Ok(projects), Ok(analytics)) => Ok(
            one_group(profiles, skills, experiences, projects, analytics),
        ),
    }
}

/// What a dashboard, or the error in its place, holds.
pub open spec fn dashboard_result(result: Result<Dashboard, StoreError>) -> Result<
    DashboardView,
    StoreErrorView,
> {
    match result {
        Ok(dashboard) => Ok(dashboard@),
        Err(error) => Err(error@),
    }
}

/// Reads a dashboard of which nothing has been read yet, from what the database gave
/// for each of the five queries.
pub fn fetched_dashboard(
    fetch: ProfilesAwaited,
    profiles: Result<Vec<Profile>, StoreError>,
    skills: Result<Vec<SkillRow>, StoreError>,
    experiences: Result<Vec<ExperienceRow>, StoreError>,
    projects: Result<Vec<ProjectRow>, StoreError>,
    analytics: Result<Vec<Analytics>, StoreError>,
) -> (result: Result<Dashboard, StoreError>)
    ensures
        dashboard_result(result) == dashboard_read(
            found_result(profiles),
            found_result(skills),
            found_result(experiences),
            found_result(projects),
            found_result(analytics),
        ),
        result matches Ok(dashboard) ==> {
            &&& profiles matches Ok(items) && dashboard.profiles == items
            &&& analytics matches Ok(items) && dashboard.analytics == items
            &&& skills matches Ok(rows) && dashboard.skills@.len() == 1 && decoded_skills(
                rows.deep_view(),
            ) == Ok::<Seq<SkillView>, StoreErrorView>(dashboard.skills@[0].deep_view())
            &&& experiences matches Ok(rows) && dashboard.experiences@.len() == 1
                && decoded_experiences(rows.deep_view()) == Ok::<
                Seq<ExperienceView>,
                StoreErrorView,
            >(dashboard.experiences@[0].deep_view())
            &&& projects matches Ok(rows) && dashboard.projects@.len() == 1 && decoded_projects(
                rows.deep_view(),
            ) == Ok::<Seq<ProjectView>, StoreErrorView>(dashboard.projects@[0].deep_view())
        },
        profiles matches Err(error) ==> (result matches Err(given) && given == error),
        profiles is Ok ==> (skills matches Err(error) ==> (result matches Err(given) && given
            == error)),
{
    let fetch = match fetch.take(profiles) {
        Ok(fetch) => fetch,
        Err(error) => return Err(error),
    };
    let fetch = match fetch.take(skills) {
        Ok(fetch) => fetch,
        Err(error) => return Err(error),
    };
    let fetch = match fetch.take(experiences) {
        Ok(fetch) => fetch,
        Err(error) => return Err(error),
    };
    let fetch = match fetch.take(projects) {
        Ok(fetch) => fetch,
        Err(error) => return Err(error),
    };
    fetch.take(analytics)
}

/// The reply with a dashboard that was read.
pub fn fetched_reply(result: Result<Dashboard, StoreError>) -> (reply: Result<
    Dashboard,
    StatusCode,
>)
    ensures
        match (result, reply) {
            (Ok(dashboard), Ok(answer)) => answer == dashboard && answer@ == dashboard@,
            (Err(_), Err(status)) => status == StatusCode::InternalServerError,
            _ => false,
        },
{
    match result {
        Ok(dashboard) => Ok(dashboard),
        Err(_) => Err(StatusCode::InternalServerError),
    }
}

/// A dashboard is read where all five queries succeed, whether they find anything or
/// not, and only there. A query succeeds where the database gives its rows and each
/// of them can be read.
pub proof fn dashboard_needs_all_queries(
    profiles: Result<Seq<ProfileView>, StoreErrorView>,
    skills: Result<Seq<SkillRowView>, StoreErrorView>,
    experiences: Result<Seq<ExperienceRowView>, StoreErrorView>,
    projects: Result<Seq<ProjectRowView>, StoreErrorView>,
    analytics: Result<Seq<AnalyticsView>, StoreErrorView>,
)
    ensures
        (dashboard_read(profiles, skills, experiences, projects, analytics) is Ok) == (profiles is Ok
            && skills_read(skills) is Ok && experiences_read(experiences) is Ok && projects_read(
            projects,
        ) is Ok && analytics is Ok),
        skills_read(Ok(Seq::empty())) == Ok::<Seq<SkillView>, StoreErrorView>(Seq::empty()),
        experiences_read(Ok(Seq::empty())) == Ok::<Seq<ExperienceView>, StoreErrorView>(
            Seq::empty(),
        ),
        projects_read(Ok(Seq::empty())) == Ok::<Seq<ProjectView>, StoreErrorView>(Seq::empty()),
{
}

/// A dashboard that was read shows just what the queries gave: the profiles and the
/// figures as they were given, field by field and in order, and the records of the
/// rows as the one group of each kind.
pub proof fn dashboard_shows_what_was_read(
    profiles: Seq<ProfileView>,
    skills: Seq<SkillRowView>,
    experiences: Seq<ExperienceRowView>,
    projects: Seq<ProjectRowView>,
    analytics: Seq<AnalyticsView>,
)
    ensures
        dashboard_read(Ok(profiles), Ok(skills), Ok(experiences), Ok(projects), Ok(analytics))
            matches Ok(shown) ==> {
            &&& shown.profiles == profiles
            &&& shown.analytics == analytics
            &&& shown.skills.len() == 1
            &&& decoded_skills(skills) == Ok::<Seq<SkillView>, StoreErrorView>(shown.skills[0])
            &&& shown.experiences.len() == 1
            &&& decoded_experiences(experiences) == Ok::<Seq<ExperienceView>, StoreErrorView>(
                shown.experiences[0],
            )
            &&& shown.projects.len() == 1
            &&& decoded_projects(projects) == Ok::<Seq<ProjectView>, StoreErrorView>(
                shown.projects[0],
            )
        },
        decoded_skills(skills) is Ok && decoded_experiences(experiences) is Ok && decoded_projects(
            projects,
        ) is Ok ==> dashboard_read(
            Ok(profiles),
            Ok(skills),
            Ok(experiences),
            Ok(projects),
            Ok(analytics),
        ) is Ok,
{
}

/// Where queries fail, the error is that of the first of them: profiles, skills,
/// experiences, projects, and then figures. A query also fails where one of its rows
/// cannot be read.
pub proof fn first_failure_is_the_error(
    profiles: Result<Seq<ProfileView>, StoreErrorView>,
    skills: Result<Seq<SkillRowView>, StoreErrorView>,
    experiences: Result<Seq<ExperienceRowView>, StoreErrorView>,
    projects: Result<Seq<ProjectRowView>, StoreErrorView>,
    analytics: Result<Seq<AnalyticsView>, StoreErrorView>,
    error: StoreErrorView,
)
    ensures
        ({
            let read = dashboard_read(profiles, skills, experiences, projects, analytics);
            let failed = Err::<DashboardView, StoreErrorView>(error);
            let skills_fail = match skills {
                Ok(rows) => decoded_skills(rows) == Err::<Seq<SkillView>, StoreErrorView>(error),
                Err(given) => given == error,
            };
            let skills_succeed = skills matches Ok(rows) && decoded_skills(rows) is Ok;
            let experiences_fail = match experiences {
                Ok(rows) => decoded_experiences(rows) == Err::<Seq<ExperienceView>, StoreErrorView>(
                    error,
                ),
                Err(given) => given == error,
            };
            let experiences_succeed = experiences matches Ok(rows) && decoded_experiences(
                rows,
            ) is Ok;
            let projects_fail = match projects {
                Ok(rows) => decoded_projects(rows) == Err::<Seq<ProjectView>, StoreErrorView>(error),
                Err(given) => given == error,
            };
            let projects_succeed = projects matches Ok(rows) && decoded_projects(rows) is Ok;
            &&& (profiles matches Err(given) && given == error) ==> read == failed
            &&& profiles is Ok && skills_fail ==> read == failed
            &&& profiles is Ok && skills_succeed && experiences_fail ==> read == failed
            &&& profiles is Ok && skills_succeed && experiences_succeed && projects_fail ==> read
                == failed
            &&& profiles is Ok && skills_succeed && experiences_succeed && projects_succeed && (
            analytics matches Err(given) && given == error) ==> read == failed
        }),
{
}

/// The statements that store a whole résumé, everything under the handle of its
/// profile. Whatever cannot be stored is reported and passed over.
pub open spec fn uplink_steps(payload: FullResumeUplinkView) -> Seq<SaveStepView> {
    seq![
        SaveStepView {
            statement: profile_saved(payload.profile),
            on_failure: OnFailureView::Report("Failed to save profile"@),
        },
    ] + skill_steps(
        payload.profile.handle,
        payload.skills,
        OnFailureView::Report("Failed to save skill"@),
    ) + experience_steps(
        payload.profile.handle,
        payload.experiences,
        OnFailureView::Report("Failed to save experience"@),
    ) + project_steps(
        payload.profile.handle,
        payload.projects,
        OnFailureView::Report("Failed to save project"@),
    ) + seq![
        SaveStepView {
            statement: analytics_saved(payload.analytics),
            on_failure: OnFailureView::Report("Failed to save analytics"@),
        },
    ]
}

/// Whether all rows that are written for a résumé are read back as its records,
/// under the handle of its profile.
pub open spec fn uplink_reads_back(payload: FullResumeUplinkView) -> bool {
    let handle = payload.profile.handle;
    &&& forall|i: int|
        0 <= i < payload.skills.len() ==> skill_reads_back(handle, #[trigger] payload.skills[i])
    &&& forall|i: int|
        0 <= i < payload.experiences.len() ==> experience_reads_back(
            handle,
            #[trigger] payload.experiences[i],
        )
    &&& forall|i: int|
        0 <= i < payload.projects.len() ==> project_reads_back(
            handle,
            #[trigger] payload.projects[i],
        )
}

/// Stores a whole résumé.
pub fn handle_uplink(payload: &FullResumeUplink) -> (run: SaveRun)
    ensures
        run@ == SaveRunView::of(uplink_steps(payload@)),
        uplink_reads_back(payload@),
        run@.done == 0,
        !run@.aborted,
        run@.steps.len() == payload.skills@.len() + payload.experiences@.len()
            + payload.projects@.len() + 2,
        run@.steps[0].statement.sql == SAVE_PROFILE_SQL@,
        run@.steps[0].statement.binds == seq![
            ValueView::Text(payload.profile.handle@),
            ValueView::Text(payload.profile.name@),
            ValueView::Text(payload.profile.title@),
            ValueView::Text(payload.profile.location@),
            ValueView::Text(payload.profile.summary@),
            ValueView::Text(payload.profile.picture@),
        ],
        forall|i: int|
            0 <= i < payload.skills@.len() ==> {
                let step = run@.steps[1 + i];
                &&& (#[trigger] payload.skills@[i]).deep_view() == payload.skills@[i]@
                &&& step.statement.sql == SAVE_SKILL_SQL@
                &&& step.statement.binds.len() == 6
                &&& step.statement.binds.take(5) == seq![
                    ValueView::Text(payload.skills@[i].id@),
                    ValueView::Text(payload.profile.handle@),
                    ValueView::Text(payload.skills@[i].name@),
                    ValueView::Text(payload.skills@[i].category@),
                    ValueView::U8(payload.skills@[i].score),
                ]
                &&& step.statement.binds[5] matches ValueView::Text(text) && json_list(text)
                    matches Ok(items) && items == payload.skills@[i].links.deep_view()
            },
        forall|i: int|
            0 <= i < payload.experiences@.len() ==> {
                let step = run@.steps[1 + payload.skills@.len() + i];
                &&& (#[trigger] payload.experiences@[i]).deep_view() == payload.experiences@[i]@
                &&& step.statement.sql == SAVE_EXPERIENCE_SQL@
                &&& step.statement.binds.len() == 8
                &&& step.statement.binds.take(6) == seq![
                    ValueView::Text(payload.experiences@[i].id@),
                    ValueView::Text(payload.profile.handle@),
                    ValueView::Text(payload.experiences@[i].role@),
                    ValueView::Text(payload.experiences@[i].organization@),
                    ValueView::F32Bits(payload.experiences@[i].years_bits),
                    ValueView::Text(payload.experiences@[i].summary@),
                ]
                &&& step.statement.binds[6] matches ValueView::Text(text) && json_list(text)
                    matches Ok(items) && items == payload.experiences@[i].achievements.deep_view()
                &&& step.statement.binds[7] matches ValueView::Text(text) && json_list(text)
                    matches Ok(items) && items == payload.experiences@[i].skills.deep_view()
            },
        forall|i: int|
            0 <= i < payload.projects@.len() ==> {
                let step = run@.steps[1 + payload.skills@.len() + payload.experiences@.len() + i];
                &&& (#[trigger] payload.projects@[i]).deep_view() == payload.projects@[i]@
                &&& step.statement.sql == SAVE_PROJECT_SQL@
                &&& step.statement.binds.len() == 6
                &&& step.statement.binds.take(5) == seq![
                    ValueView::Text(payload.projects@[i].id@),
                    ValueView::Text(payload.profile.handle@),
                    ValueView::Text(payload.projects@[i].name@),
                    ValueView::U8(payload.projects@[i].impact),
                    ValueView::Text(payload.projects@[i].description@),
                ]
                &&& step.statement.binds[5] matches ValueView::Text(text) && json_list(text)
                    matches Ok(items) && items == payload.projects@[i].technologies.deep_view()
            },
        run@.steps.last().statement.sql == SAVE_ANALYTICS_SQL@,
        run@.steps.last().statement.binds == seq![
            ValueView::Text(payload.analytics.id@),
            ValueView::U32(payload.analytics.leadership),
            ValueView::U32(payload.analytics.technical_depth),
            ValueView::U32(payload.analytics.automation_index),
            ValueView::U32(payload.analytics.transferability),
            ValueView::U32(payload.analytics.innovation),
            ValueView::U32(payload.analytics.neural_load),
        ],
{
    let handle = payload.profile.handle.as_str();
    let mut steps: Vec<SaveStep> = Vec::new();
    push_step(
        &mut steps,
        save_profile(&payload.profile),
        OnFailure::Report("Failed to save profile".to_string()),
    );
    assert(steps.deep_view() =~= seq![
        SaveStepView {
            statement: profile_saved(payload@.profile),
            on_failure: OnFailureView::Report("Failed to save profile"@),
        },
    ]);
    push_skills(
        &mut steps,
        handle,
        &payload.skills,
        &OnFailure::Report("Failed to save skill".to_string()),
    );
    push_experiences(
        &mut steps,
        handle,
        &payload.experiences,
        &OnFailure::Report("Failed to save experience".to_string()),
    );
    push_projects(
        &mut steps,
        handle,
        &payload.projects,
        &OnFailure::Report("Failed to save project".to_string()),
    );
    push_step(
        &mut steps,
        save_analytics(&payload.analytics),
        OnFailure::Report("Failed to save analytics".to_string()),
    );
    proof {
        assert(uplink_reads_back(payload@));
        uplink_stores_the_resume(payload@);
        assert forall|i: int| 0 <= i < payload.skills@.len() implies (#[trigger] payload.skills@[i]).deep_view()
            == payload@.skills[i] by {}
        assert forall|i: int| 0 <= i < payload.experiences@.len() implies (#[trigger] payload.experiences@[i]).deep_view()
            == payload@.experiences[i] by {}
        assert forall|i: int| 0 <= i < payload.projects@.len() implies (#[trigger] payload.projects@[i]).deep_view()
            == payload@.projects[i] by {}
    }
    SaveRun::new(steps)
}

/// What is printed when a résumé has been stored.
pub fn uplink_notice(payload: &FullResumeUplink) -> (line: String)
    ensures
        line@ == ">> PAYLOAD SECURED: Profile "@ + payload@.profile.handle + " updated."@,
{
    ">> PAYLOAD SECURED: Profile ".to_string().concat(payload.profile.handle.as_str()).concat(
        " updated.",
    )
}

/// The reply once a résumé has been stored, or passed over.
pub fn uplink_reply() -> (reply: (StatusCode, String))
    ensures
        reply.0 == StatusCode::Success,
        reply.1@ == "Uplink Successful. Data Secured."@,
{
    (StatusCode::Success, "Uplink Successful. Data Secured.".to_string())
}

/// Storing a résumé is never aborted: whatever fails, every record is tried.
pub proof fn uplink_completes(payload: FullResumeUplinkView, stored: Seq<bool>)
    requires
        stored.len() == uplink_steps(payload).len(),
    ensures
        !SaveRunView::of(uplink_steps(payload)).after_all(stored).pending(),
        !SaveRunView::of(uplink_steps(payload)).after_all(stored).aborted,
        uplink_steps(payload).len() == payload.skills.len() + payload.experiences.len()
            + payload.projects.len() + 2,
{
    reporting_run_completes(uplink_steps(payload), stored);
}

/// How many statements store the data that the registry starts with, before the
/// first whose failure ends it.
pub open spec fn tolerant_steps(seed: SeedDataView) -> nat {
    seed.users.len() + seed.profiles.len()
}

/// Storing the data that the registry starts with ends in success exactly where
/// nothing but users and profiles could not be stored.
pub proof fn seeding_succeeds_iff(seed: SeedDataView, handle: Seq<char>, stored: Seq<bool>)
    requires
        stored.len() == seed_steps(seed, handle).len(),
    ensures
        !SaveRunView::of(seed_steps(seed, handle)).after_all(stored).pending(),
        !SaveRunView::of(seed_steps(seed, handle)).after_all(stored).aborted == (forall|i: int|
            tolerant_steps(seed) <= i < stored.len() ==> stored[i]),
{
    let steps = seed_steps(seed, handle);
    lemma_seed_step_kinds(seed, handle);
    if forall|i: int| 0 <= i < stored.len() ==> !#[trigger] fatal(steps, stored, i) {
        steps_run_in_order(steps, stored);
        assert forall|i: int| tolerant_steps(seed) <= i < stored.len() implies stored[i] by {
            assert(!fatal(steps, stored, i));
            assert(steps[i].on_failure is Abort);
        }
    } else {
        let at = lemma_first_fatal(steps, stored);
        nothing_runs_after_abort(steps, stored, at);
        assert(steps[at].on_failure is Abort);
        assert(!stored[at]);
    }
}

proof fn lemma_seed_step_kinds(seed: SeedDataView, handle: Seq<char>)
    ensures
        forall|i: int|
            0 <= i < seed_steps(seed, handle).len() ==> (#[trigger] seed_steps(
                seed,
                handle,
            )[i].on_failure is Abort) == (tolerant_steps(seed) <= i),
{
}

proof fn lemma_first_fatal(steps: Seq<SaveStepView>, stored: Seq<bool>) -> (at: int)
    requires
        exists|i: int| 0 <= i < stored.len() && #[trigger] fatal(steps, stored, i),
    ensures
        0 <= at < stored.len(),
        fatal(steps, stored, at),
        forall|i: int| 0 <= i < at ==> !#[trigger] fatal(steps, stored, i),
{
    lemma_first_fatal_before(steps, stored, stored.len() as int)
}

proof fn lemma_first_fatal_before(
    steps: Seq<SaveStepView>,
    stored: Seq<bool>,
    end: int,
) -> (at: int)
    requires
        0 <= end <= stored.len(),
        exists|i: int| 0 <= i < end && #[trigger] fatal(steps, stored, i),
    ensures
        0 <= at < end,
        fatal(steps, stored, at),
        forall|i: int| 0 <= i < at ==> !#[trigger] fatal(steps, stored, i),
    decreases end,
{
    let found = choose|i: int| 0 <= i < end && #[trigger] fatal(steps, stored, i);
    if exists|i: int| 0 <= i < found && #[trigger] fatal(steps, stored, i) {
        lemma_first_fatal_before(steps, stored, found)
    } else {
        found
    }
}

/// The rows that are written when skills are saved for a handle.
pub open spec fn skill_rows(handle: Seq<char>, skills: Seq<SkillView>) -> Seq<
    SkillRowView,
> {
    skills.map_values(
        |skill: SkillView|
            skill_row(
                skill_saved(
                    handle,
                    skill,
                    json_text(skill.links),
                )->Ok_0.binds,
            ),
    )
}

/// The skills as they belong to a handle.
pub open spec fn skills_under(handle: Seq<char>, skills: Seq<SkillView>) -> Seq<
    SkillView,
> {
    skills.map_values(
        |skill: SkillView| SkillView { profile_handle: handle, ..skill },
    )
}

proof fn lemma_skills_are_read_back(handle: Seq<char>, skills: Seq<SkillView>)
    requires
        forall|i: int|
            0 <= i < skills.len() ==> skill_reads_back(handle, #[trigger] skills[i]),
    ensures
        decoded_skills(skill_rows(handle, skills)) == Ok::<
            Seq<SkillView>,
            StoreErrorView,
        >(skills_under(handle, skills)),
    decreases skills.len(),
{
    let rows = skill_rows(handle, skills);
    let under = skills_under(handle, skills);
    if skills.len() == 0 {
        assert(under =~= Seq::empty());
    } else {
        let earlier = skills.drop_last();
        lemma_skills_are_read_back(handle, earlier);
        assert(rows.drop_last() =~= skill_rows(handle, earlier));
        assert(skill_reads_back(handle, skills[skills.len() - 1]));
        assert(under =~= skills_under(handle, earlier).push(under.last()));
    }
}

/// The rows that are written when experiences are saved for a handle.
pub open spec fn experience_rows(handle: Seq<char>, experiences: Seq<ExperienceView>) -> Seq<
    ExperienceRowView,
> {
    experiences.map_values(
        |experience: ExperienceView|
            experience_row(
                experience_saved(
                    handle,
                    experience,
                    json_text(experience.achievements),
                    json_text(experience.skills),
                )->Ok_0.binds,
            ),
    )
}

/// The experiences as they belong to a handle.
pub open spec fn experiences_under(handle: Seq<char>, experiences: Seq<ExperienceView>) -> Seq<
    ExperienceView,
> {
    experiences.map_values(
        |experience: ExperienceView| ExperienceView { profile_handle: handle, ..experience },
    )
}

proof fn lemma_experiences_are_read_back(handle: Seq<char>, experiences: Seq<ExperienceView>)
    requires
        forall|i: int|
            0 <= i < experiences.len() ==> experience_reads_back(handle, #[trigger] experiences[i]),
    ensures
        decoded_experiences(experience_rows(handle, experiences)) == Ok::<
            Seq<ExperienceView>,
            StoreErrorView,
        >(experiences_under(handle, experiences)),
    decreases experiences.len(),
{
    let rows = experience_rows(handle, experiences);
    let under = experiences_under(handle, experiences);
    if experiences.len() == 0 {
        assert(under =~= Seq::empty());
    } else {
        let earlier = experiences.drop_last();
        lemma_experiences_are_read_back(handle, earlier);
        assert(rows.drop_last() =~= experience_rows(handle, earlier));
        assert(experience_reads_back(handle, experiences[experiences.len() - 1]));
        assert(under =~= experiences_under(handle, earlier).push(under.last()));
    }
}

/// The rows that are written when projects are saved for a handle.
pub open spec fn project_rows(handle: Seq<char>, projects: Seq<ProjectView>) -> Seq<
    ProjectRowView,
> {
    projects.map_values(
        |project: ProjectView|
            project_row(
                project_saved(
                    handle,
                    project,
                    json_text(project.technologies),
                )->Ok_0.binds,
            ),
    )
}

/// The projects as they belong to a handle.
pub open spec fn projects_under(handle: Seq<char>, projects: Seq<ProjectView>) -> Seq<
    ProjectView,
> {
    projects.map_values(
        |project: ProjectView| ProjectView { profile_handle: handle, ..project },
    )
}

proof fn lemma_projects_are_read_back(handle: Seq<char>, projects: Seq<ProjectView>)
    requires
        forall|i: int|
            0 <= i < projects.len() ==> project_reads_back(handle, #[trigger] projects[i]),
    ensures
        decoded_projects(project_rows(handle, projects)) == Ok::<
            Seq<ProjectView>,
            StoreErrorView,
        >(projects_under(handle, projects)),
    decreases projects.len(),
{
    let rows = project_rows(handle, projects);
    let under = projects_under(handle, projects);
    if projects.len() == 0 {
        assert(under =~= Seq::empty());
    } else {
        let earlier = projects.drop_last();
        lemma_projects_are_read_back(handle, earlier);
        assert(rows.drop_last() =~= project_rows(handle, earlier));
        assert(project_reads_back(handle, projects[projects.len() - 1]));
        assert(under =~= projects_under(handle, earlier).push(under.last()));
    }
}

/// A résumé that was uploaded is what the dashboard of its handle is read as: where
/// the database gives back the rows that were written, they are read as the profile,
/// the records and the figures of the résumé, the records under that handle.
pub proof fn uplink_is_shown(payload: FullResumeUplinkView)
    requires
        uplink_reads_back(payload),
    ensures
        profile_of_row(profile_saved(payload.profile).binds) == payload.profile,
        analytics_of_row(analytics_saved(payload.analytics).binds) == payload.analytics,
        dashboard_read(
            Ok(seq![profile_of_row(profile_saved(payload.profile).binds)]),
            Ok(skill_rows(payload.profile.handle, payload.skills)),
            Ok(experience_rows(payload.profile.handle, payload.experiences)),
            Ok(project_rows(payload.profile.handle, payload.projects)),
            Ok(seq![analytics_of_row(analytics_saved(payload.analytics).binds)]),
        ) == Ok::<DashboardView, StoreErrorView>(
            DashboardView {
                profiles: seq![payload.profile],
                skills: seq![skills_under(payload.profile.handle, payload.skills)],
                experiences: seq![experiences_under(payload.profile.handle, payload.experiences)],
                projects: seq![projects_under(payload.profile.handle, payload.projects)],
                analytics: seq![payload.analytics],
            },
        ),
        profile_of_row(uplink_steps(payload)[0].statement.binds) == payload.profile,
        analytics_of_row(uplink_steps(payload).last().statement.binds) == payload.analytics,
        forall|i: int|
            0 <= i < payload.skills.len() ==> skill_row(
                uplink_steps(payload)[1 + i].statement.binds,
            ) == #[trigger] skill_rows(payload.profile.handle, payload.skills)[i],
        forall|i: int|
            0 <= i < payload.experiences.len() ==> experience_row(
                uplink_steps(payload)[1 + payload.skills.len() + i].statement.binds,
            ) == #[trigger] experience_rows(payload.profile.handle, payload.experiences)[i],
        forall|i: int|
            0 <= i < payload.projects.len() ==> project_row(
                uplink_steps(payload)[1 + payload.skills.len() + payload.experiences.len()
                    + i].statement.binds,
            ) == #[trigger] project_rows(payload.profile.handle, payload.projects)[i],
{
    lemma_skills_are_read_back(payload.profile.handle, payload.skills);
    lemma_experiences_are_read_back(payload.profile.handle, payload.experiences);
    lemma_projects_are_read_back(payload.profile.handle, payload.projects);
}

/// The profiles in the rows that are written when profiles are saved.
pub open spec fn profiles_written(profiles: Seq<ProfileView>) -> Seq<ProfileView> {
    profiles.map_values(|profile: ProfileView| profile_of_row(profile_saved(profile).binds))
}

/// The figures in the rows that are written when figures are saved.
pub open spec fn analytics_written(analytics: Seq<AnalyticsView>) -> Seq<AnalyticsView> {
    analytics.map_values(
        |figures: AnalyticsView| analytics_of_row(analytics_saved(figures).binds),
    )
}

/// The users in the rows that are written when users are saved.
pub open spec fn users_written(users: Seq<UserView>) -> Seq<UserView> {
    users.map_values(|user: UserView| user_of_row(user_saved(user).binds))
}

/// The data that was stored for a handle is what its dashboard is read as from then
/// on: where the database gives back the rows that were written, they are read as
/// the profiles, the records and the figures of the data, the records under that
/// handle. The users are read back, too.
pub proof fn seed_is_shown(seed: SeedDataView, handle: Seq<char>)
    requires
        seed_reads_back(seed, handle),
    ensures
        users_written(seed.users) == seed.users,
        profiles_written(seed.profiles) == seed.profiles,
        analytics_written(seed.analytics_matrix) == seed.analytics_matrix,
        dashboard_read(
            Ok(profiles_written(seed.profiles)),
            Ok(skill_rows(handle, seed.skills.flatten())),
            Ok(experience_rows(handle, seed.experiences.flatten())),
            Ok(project_rows(handle, seed.projects.flatten())),
            Ok(analytics_written(seed.analytics_matrix)),
        ) == Ok::<DashboardView, StoreErrorView>(
            DashboardView {
                profiles: seed.profiles,
                skills: seq![skills_under(handle, seed.skills.flatten())],
                experiences: seq![experiences_under(handle, seed.experiences.flatten())],
                projects: seq![projects_under(handle, seed.projects.flatten())],
                analytics: seed.analytics_matrix,
            },
        ),
{
    lemma_skills_are_read_back(handle, seed.skills.flatten());
    lemma_experiences_are_read_back(handle, seed.experiences.flatten());
    lemma_projects_are_read_back(handle, seed.projects.flatten());
    assert(users_written(seed.users) =~= seed.users);
    assert(profiles_written(seed.profiles) =~= seed.profiles);
    assert(analytics_written(seed.analytics_matrix) =~= seed.analytics_matrix);
}

/// The view of a dashboard holds its lists, each under its own name.
pub proof fn dashboard_view_is_faithful(dashboard: Dashboard)
    ensures
        dashboard@.profiles == dashboard.profiles.deep_view(),
        dashboard@.skills == dashboard.skills.deep_view(),
        dashboard@.experiences == dashboard.experiences.deep_view(),
        dashboard@.projects == dashboard.projects.deep_view(),
        dashboard@.analytics == dashboard.analytics.deep_view(),
{
}

/// The view of a résumé holds its profile, its lists and its figures, each under its
/// own name.
pub proof fn uplink_view_is_faithful(payload: FullResumeUplink)
    ensures
        payload@.profile == payload.profile@,
        payload@.skills == payload.skills.deep_view(),
        payload@.experiences == payload.experiences.deep_view(),
        payload@.projects == payload.projects.deep_view(),
        payload@.analytics == payload.analytics@,
{
}

/// The view of the data that the registry starts with holds its texts and lists, each
/// under its own name, and the dashboard that shows it holds the lists as they are.
pub proof fn seed_view_is_faithful(seed: SeedData)
    ensures
        seed@.handle == seed.handle@,
        seed@.current_headline == seed.current_headline@,
        seed@.users == seed.users.deep_view(),
        seed@.profiles == seed.profiles.deep_view(),
        seed@.skills == seed.skills.deep_view(),
        seed@.experiences == seed.experiences.deep_view(),
        seed@.projects == seed.projects.deep_view(),
        seed@.analytics_matrix == seed.analytics_matrix.deep_view(),
        seed@.dashboard().profiles == seed.profiles.deep_view(),
        seed@.dashboard().skills == seed.skills.deep_view(),
        seed@.dashboard().experiences == seed.experiences.deep_view(),
        seed@.dashboard().projects == seed.projects.deep_view(),
        seed@.dashboard().analytics == seed.analytics_matrix.deep_view(),
{
}

/// The statements that store a résumé are those of its own records: the first saves
/// the profile with each value in its own column, then come the skills, the
/// experiences and the projects, one by one, under the handle of the profile, and
/// the last saves the figures. Each failure is reported in words of its own.
pub proof fn uplink_stores_the_resume(payload: FullResumeUplinkView)
    requires
        uplink_reads_back(payload),
    ensures
        uplink_steps(payload).len() == payload.skills.len() + payload.experiences.len()
            + payload.projects.len() + 2,
        uplink_steps(payload)[0].statement.sql == SAVE_PROFILE_SQL@,
        uplink_steps(payload)[0].statement.binds == seq![
            ValueView::Text(payload.profile.handle),
            ValueView::Text(payload.profile.name),
            ValueView::Text(payload.profile.title),
            ValueView::Text(payload.profile.location),
            ValueView::Text(payload.profile.summary),
            ValueView::Text(payload.profile.picture),
        ],
        uplink_steps(payload)[0].on_failure == OnFailureView::Report("Failed to save profile"@),
        forall|i: int|
            0 <= i < payload.skills.len() ==> {
                let skill = #[trigger] payload.skills[i];
                let step = uplink_steps(payload)[1 + i];
                &&& step.statement.sql == SAVE_SKILL_SQL@
                &&& step.statement.binds.len() == 6
                &&& step.statement.binds.take(5) == seq![
                        ValueView::Text(skill.id),
                        ValueView::Text(payload.profile.handle),
                        ValueView::Text(skill.name),
                        ValueView::Text(skill.category),
                        ValueView::U8(skill.score),
                ]
                &&& step.statement.binds[5] matches ValueView::Text(text) && json_list(
                    text,
                ) matches Ok(items) && items == skill.links
                &&& step.on_failure == OnFailureView::Report("Failed to save skill"@)
            },
        forall|i: int|
            0 <= i < payload.experiences.len() ==> {
                let experience = #[trigger] payload.experiences[i];
                let step = uplink_steps(payload)[1 + payload.skills.len() + i];
                &&& step.statement.sql == SAVE_EXPERIENCE_SQL@
                &&& step.statement.binds.len() == 8
                &&& step.statement.binds.take(6) == seq![
                        ValueView::Text(experience.id),
                        ValueView::Text(payload.profile.handle),
                        ValueView::Text(experience.role),
                        ValueView::Text(experience.organization),
                        ValueView::F32Bits(experience.years_bits),
                        ValueView::Text(experience.summary),
                ]
                &&& step.statement.binds[6] matches ValueView::Text(text) && json_list(
                    text,
                ) matches Ok(items) && items == experience.achievements
                &&& step.statement.binds[7] matches ValueView::Text(text) && json_list(
                    text,
                ) matches Ok(items) && items == experience.skills
                &&& step.on_failure == OnFailureView::Report("Failed to save experience"@)
            },
        forall|i: int|
            0 <= i < payload.projects.len() ==> {
                let project = #[trigger] payload.projects[i];
                let step = uplink_steps(payload)[1 + payload.skills.len() + payload.experiences.len() + i];
                &&& step.statement.sql == SAVE_PROJECT_SQL@
                &&& step.statement.binds.len() == 6
                &&& step.statement.binds.take(5) == seq![
                        ValueView::Text(project.id),
                        ValueView::Text(payload.profile.handle),
                        ValueView::Text(project.name),
                        ValueView::U8(project.impact),
                        ValueView::Text(project.description),
                ]
                &&& step.statement.binds[5] matches ValueView::Text(text) && json_list(
                    text,
                ) matches Ok(items) && items == project.technologies
                &&& step.on_failure == OnFailureView::Report("Failed to save project"@)
            },
        uplink_steps(payload).last().statement.sql == SAVE_ANALYTICS_SQL@,
        uplink_steps(payload).last().statement.binds == seq![
            ValueView::Text(payload.analytics.id),
            ValueView::U32(payload.analytics.leadership),
            ValueView::U32(payload.analytics.technical_depth),
            ValueView::U32(payload.analytics.automation_index),
            ValueView::U32(payload.analytics.transferability),
            ValueView::U32(payload.analytics.innovation),
            ValueView::U32(payload.analytics.neural_load),
        ],
        uplink_steps(payload).last().on_failure == OnFailureView::Report("Failed to save analytics"@),
{
    let handle = payload.profile.handle;
    lemma_skill_reads_back(handle, payload.skills);
    lemma_experience_reads_back(handle, payload.experiences);
    lemma_project_reads_back(handle, payload.projects);
}

/// A résumé that was uploaded is what is read of the rows that its statements write:
/// the profile from the first, the figures from the last, and the records from those
/// between, in their order and under the handle of the profile, each with the values
/// and the lists that were sent.
pub proof fn uplinked_rows_are_the_resume(payload: FullResumeUplinkView)
    requires
        uplink_reads_back(payload),
    ensures
        profile_of_row(uplink_steps(payload)[0].statement.binds) == payload.profile,
        analytics_of_row(uplink_steps(payload).last().statement.binds) == payload.analytics,
        dashboard_read(
            Ok(seq![profile_of_row(uplink_steps(payload)[0].statement.binds)]),
            Ok(
                Seq::new(
                    payload.skills.len(),
                    |i: int| skill_row(uplink_steps(payload)[1 + i].statement.binds),
                ),
            ),
            Ok(
                Seq::new(
                    payload.experiences.len(),
                    |i: int| experience_row(uplink_steps(payload)[1 + payload.skills.len() + i].statement.binds),
                ),
            ),
            Ok(
                Seq::new(
                    payload.projects.len(),
                    |i: int| project_row(uplink_steps(payload)[1 + payload.skills.len() + payload.experiences.len() + i].statement.binds),
                ),
            ),
            Ok(seq![analytics_of_row(uplink_steps(payload).last().statement.binds)]),
        ) matches Ok(shown) && {
            &&& shown.profiles == seq![payload.profile]
            &&& shown.analytics == seq![payload.analytics]
            &&& shown.skills.len() == 1 && shown.experiences.len() == 1 && shown.projects.len() == 1
            &&& shown.skills[0].len() == payload.skills.len()
            &&& forall|i: int|
                0 <= i < payload.skills.len() ==> {
                        &&& (#[trigger] shown.skills[0][i]).id == payload.skills[i].id
                        &&& shown.skills[0][i].id == payload.skills[i].id
                        &&& shown.skills[0][i].profile_handle == payload.profile.handle
                        &&& shown.skills[0][i].name == payload.skills[i].name
                        &&& shown.skills[0][i].category == payload.skills[i].category
                        &&& shown.skills[0][i].score == payload.skills[i].score
                        &&& shown.skills[0][i].links == payload.skills[i].links
                    }
            &&& shown.experiences[0].len() == payload.experiences.len()
            &&& forall|i: int|
                0 <= i < payload.experiences.len() ==> {
                        &&& (#[trigger] shown.experiences[0][i]).id == payload.experiences[i].id
                        &&& shown.experiences[0][i].id == payload.experiences[i].id
                        &&& shown.experiences[0][i].profile_handle == payload.profile.handle
                        &&& shown.experiences[0][i].role == payload.experiences[i].role
                        &&& shown.experiences[0][i].organization == payload.experiences[i].organization
                        &&& shown.experiences[0][i].years_bits == payload.experiences[i].years_bits
                        &&& shown.experiences[0][i].summary == payload.experiences[i].summary
                        &&& shown.experiences[0][i].achievements == payload.experiences[i].achievements
                        &&& shown.experiences[0][i].skills == payload.experiences[i].skills
                    }
            &&& shown.projects[0].len() == payload.projects.len()
            &&& forall|i: int|
                0 <= i < payload.projects.len() ==> {
                        &&& (#[trigger] shown.projects[0][i]).id == payload.projects[i].id
                        &&& shown.projects[0][i].id == payload.projects[i].id
                        &&& shown.projects[0][i].profile_handle == payload.profile.handle
                        &&& shown.projects[0][i].name == payload.projects[i].name
                        &&& shown.projects[0][i].impact == payload.projects[i].impact
                        &&& shown.projects[0][i].description == payload.projects[i].description
                        &&& shown.projects[0][i].technologies == payload.projects[i].technologies
                    }
        },
{
    uplink_is_shown(payload);
    let steps = uplink_steps(payload);
    let handle = payload.profile.handle;
    assert(Seq::new(
        payload.skills.len(),
        |i: int| skill_row(steps[1 + i].statement.binds),
    ) =~= skill_rows(handle, payload.skills));
    assert(Seq::new(
        payload.experiences.len(),
        |i: int| experience_row(steps[1 + payload.skills.len() + i].statement.binds),
    ) =~= experience_rows(handle, payload.experiences));
    assert(Seq::new(
        payload.projects.len(),
        |i: int| project_row(steps[1 + payload.skills.len() + payload.experiences.len() + i].statement.binds),
    ) =~= project_rows(handle, payload.projects));
}

/// The statements that store the data that the registry starts with are those of its
/// own records: users and profiles as they are, whose failure is reported by handle,
/// then the skills, experiences and projects of all groups under the handle asked
/// for, and then the figures; with a failure of one of these, storing ends.
pub proof fn seeding_stores_the_data(seed: SeedDataView, handle: Seq<char>)
    requires
        seed_reads_back(seed, handle),
    ensures
        seed_steps(seed, handle).len() == seed.users.len() + seed.profiles.len() + seed.skills.flatten().len()
            + seed.experiences.flatten().len() + seed.projects.flatten().len()
            + seed.analytics_matrix.len(),
        forall|i: int|
            0 <= i < seed.users.len() ==> {
                let user = #[trigger] seed.users[i];
                let step = seed_steps(seed, handle)[i];
                &&& step.statement.sql == SAVE_USER_SQL@
                &&& step.statement.binds == seq![
                    ValueView::Text(user.profile_handle),
                    ValueView::Text(user.password),
                ]
                &&& step.on_failure == OnFailureView::Report(
                    "Failed to save user "@ + user.profile_handle,
                )
            },
        forall|i: int|
            0 <= i < seed.profiles.len() ==> {
                let profile = #[trigger] seed.profiles[i];
                let step = seed_steps(seed, handle)[seed.users.len() + i];
                &&& step.statement.sql == SAVE_PROFILE_SQL@
                &&& step.statement.binds == seq![
                    ValueView::Text(profile.handle),
                    ValueView::Text(profile.name),
                    ValueView::Text(profile.title),
                    ValueView::Text(profile.location),
                    ValueView::Text(profile.summary),
                    ValueView::Text(profile.picture),
                ]
                &&& step.on_failure == OnFailureView::Report(
                    "Failed to save profile "@ + profile.handle,
                )
            },
        forall|i: int|
            0 <= i < seed.skills.flatten().len() ==> {
                let skill = #[trigger] seed.skills.flatten()[i];
                let step = seed_steps(seed, handle)[seed.users.len() + seed.profiles.len() + i];
                &&& step.statement.sql == SAVE_SKILL_SQL@
                &&& step.statement.binds.len() == 6
                &&& step.statement.binds.take(5) == seq![
                        ValueView::Text(skill.id),
                        ValueView::Text(handle),
                        ValueView::Text(skill.name),
                        ValueView::Text(skill.category),
                        ValueView::U8(skill.score),
                ]
                &&& step.statement.binds[5] matches ValueView::Text(text) && json_list(
                    text,
                ) matches Ok(items) && items == skill.links
                &&& step.on_failure == OnFailureView::Abort
            },
        forall|i: int|
            0 <= i < seed.experiences.flatten().len() ==> {
                let experience = #[trigger] seed.experiences.flatten()[i];
                let step = seed_steps(seed, handle)[seed.users.len() + seed.profiles.len() + seed.skills.flatten().len() + i];
                &&& step.statement.sql == SAVE_EXPERIENCE_SQL@
                &&& step.statement.binds.len() == 8
                &&& step.statement.binds.take(6) == seq![
                        ValueView::Text(experience.id),
                        ValueView::Text(handle),
                        ValueView::Text(experience.role),
                        ValueView::Text(experience.organization),
                        ValueView::F32Bits(experience.years_bits),
                        ValueView::Text(experience.summary),
                ]
                &&& step.statement.binds[6] matches ValueView::Text(text) && json_list(
                    text,
                ) matches Ok(items) && items == experience.achievements
                &&& step.statement.binds[7] matches ValueView::Text(text) && json_list(
                    text,
                ) matches Ok(items) && items == experience.skills
                &&& step.on_failure == OnFailureView::Abort
            },
        forall|i: int|
            0 <= i < seed.projects.flatten().len() ==> {
                let project = #[trigger] seed.projects.flatten()[i];
                let step = seed_steps(seed, handle)[seed.users.len() + seed.profiles.len() + seed.skills.flatten().len()
                + seed.experiences.flatten().len() + i];
                &&& step.statement.sql == SAVE_PROJECT_SQL@
                &&& step.statement.binds.len() == 6
                &&& step.statement.binds.take(5) == seq![
                        ValueView::Text(project.id),
                        ValueView::Text(handle),
                        ValueView::Text(project.name),
                        ValueView::U8(project.impact),
                        ValueView::Text(project.description),
                ]
                &&& step.statement.binds[5] matches ValueView::Text(text) && json_list(
                    text,
                ) matches Ok(items) && items == project.technologies
                &&& step.on_failure == OnFailureView::Abort
            },
        forall|i: int|
            0 <= i < seed.analytics_matrix.len() ==> {
                let figures = #[trigger] seed.analytics_matrix[i];
                let step = seed_steps(seed, handle)[seed.users.len() + seed.profiles.len() + seed.skills.flatten().len()
                + seed.experiences.flatten().len() + seed.projects.flatten().len() + i];
                &&& step.statement.sql == SAVE_ANALYTICS_SQL@
                &&& step.statement.binds == seq![
                    ValueView::Text(figures.id),
                    ValueView::U32(figures.leadership),
                    ValueView::U32(figures.technical_depth),
                    ValueView::U32(figures.automation_index),
                    ValueView::U32(figures.transferability),
                    ValueView::U32(figures.innovation),
                    ValueView::U32(figures.neural_load),
                ]
                &&& step.on_failure == OnFailureView::Abort
            },
{
    lemma_skill_reads_back(handle, seed.skills.flatten());
    lemma_experience_reads_back(handle, seed.experiences.flatten());
    lemma_project_reads_back(handle, seed.projects.flatten());
}

/// The data that was stored for a handle is what is read of the rows that its
/// statements write: profiles and figures as they are, and the records of all groups
/// in their order, under that handle, each with its own values and lists.
pub proof fn seeded_rows_are_the_data(seed: SeedDataView, handle: Seq<char>)
    requires
        seed_reads_back(seed, handle),
    ensures
        dashboard_read(
            Ok(
                Seq::new(
                    seed.profiles.len(),
                    |i: int| profile_of_row(seed_steps(seed, handle)[seed.users.len() + i].statement.binds),
                ),
            ),
            Ok(
                Seq::new(
                    seed.skills.flatten().len(),
                    |i: int| skill_row(seed_steps(seed, handle)[seed.users.len() + seed.profiles.len() + i].statement.binds),
                ),
            ),
            Ok(
                Seq::new(
                    seed.experiences.flatten().len(),
                    |i: int| experience_row(seed_steps(seed, handle)[seed.users.len() + seed.profiles.len() + seed.skills.flatten().len() + i].statement.binds),
                ),
            ),
            Ok(
                Seq::new(
                    seed.projects.flatten().len(),
                    |i: int| project_row(seed_steps(seed, handle)[seed.users.len() + seed.profiles.len() + seed.skills.flatten().len()
                + seed.experiences.flatten().len() + i].statement.binds),
                ),
            ),
            Ok(
                Seq::new(
                    seed.analytics_matrix.len(),
                    |i: int| analytics_of_row(seed_steps(seed, handle)[seed.users.len() + seed.profiles.len() + seed.skills.flatten().len()
                + seed.experiences.flatten().len() + seed.projects.flatten().len() + i].statement.binds),
                ),
            ),
        ) matches Ok(shown) && {
            &&& shown.profiles == seed.profiles
            &&& shown.analytics == seed.analytics_matrix
            &&& shown.skills.len() == 1 && shown.experiences.len() == 1 && shown.projects.len() == 1
            &&& shown.skills[0].len() == seed.skills.flatten().len()
            &&& forall|i: int|
                0 <= i < seed.skills.flatten().len() ==> {
                        &&& (#[trigger] shown.skills[0][i]).id == seed.skills.flatten()[i].id
                        &&& shown.skills[0][i].id == seed.skills.flatten()[i].id
                        &&& shown.skills[0][i].profile_handle == handle
                        &&& shown.skills[0][i].name == seed.skills.flatten()[i].name
                        &&& shown.skills[0][i].category == seed.skills.flatten()[i].category
                        &&& shown.skills[0][i].score == seed.skills.flatten()[i].score
                        &&& shown.skills[0][i].links == seed.skills.flatten()[i].links
                    }
            &&& shown.experiences[0].len() == seed.experiences.flatten().len()
            &&& forall|i: int|
                0 <= i < seed.experiences.flatten().len() ==> {
                        &&& (#[trigger] shown.experiences[0][i]).id == seed.experiences.flatten()[i].id
                        &&& shown.experiences[0][i].id == seed.experiences.flatten()[i].id
                        &&& shown.experiences[0][i].profile_handle == handle
                        &&& shown.experiences[0][i].role == seed.experiences.flatten()[i].role
                        &&& shown.experiences[0][i].organization == seed.experiences.flatten()[i].organization
                        &&& shown.experiences[0][i].years_bits == seed.experiences.flatten()[i].years_bits
                        &&& shown.experiences[0][i].summary == seed.experiences.flatten()[i].summary
                        &&& shown.experiences[0][i].achievements == seed.experiences.flatten()[i].achievements
                        &&& shown.experiences[0][i].skills == seed.experiences.flatten()[i].skills
                    }
            &&& shown.projects[0].len() == seed.projects.flatten().len()
            &&& forall|i: int|
                0 <= i < seed.projects.flatten().len() ==> {
                        &&& (#[trigger] shown.projects[0][i]).id == seed.projects.flatten()[i].id
                        &&& shown.projects[0][i].id == seed.projects.flatten()[i].id
                        &&& shown.projects[0][i].profile_handle == handle
                        &&& shown.projects[0][i].name == seed.projects.flatten()[i].name
                        &&& shown.projects[0][i].impact == seed.projects.flatten()[i].impact
                        &&& shown.projects[0][i].description == seed.projects.flatten()[i].description
                        &&& shown.projects[0][i].technologies == seed.projects.flatten()[i].technologies
                    }
        },
{
    seed_is_shown(seed, handle);
    let steps = seed_steps(seed, handle);
    assert(Seq::new(
        seed.profiles.len(),
        |i: int| profile_of_row(steps[seed.users.len() + i].statement.binds),
    ) =~= profiles_written(seed.profiles));
    assert(Seq::new(
        seed.skills.flatten().len(),
        |i: int| skill_row(steps[seed.users.len() + seed.profiles.len() + i].statement.binds),
    ) =~= skill_rows(handle, seed.skills.flatten()));
    assert(Seq::new(
        seed.experiences.flatten().len(),
        |i: int| experience_row(steps[seed.users.len() + seed.profiles.len() + seed.skills.flatten().len() + i].statement.binds),
    ) =~= experience_rows(handle, seed.experiences.flatten()));
    assert(Seq::new(
        seed.projects.flatten().len(),
        |i: int| project_row(steps[seed.users.len() + seed.profiles.len() + seed.skills.flatten().len()
                + seed.experiences.flatten().len() + i].statement.binds),
    ) =~= project_rows(handle, seed.projects.flatten()));
    assert(Seq::new(
        seed.analytics_matrix.len(),
        |i: int| analytics_of_row(steps[seed.users.len() + seed.profiles.len() + seed.skills.flatten().len()
                + seed.experiences.flatten().len() + seed.projects.flatten().len() + i].statement.binds),
    ) =~= analytics_written(seed.analytics_matrix));
}

proof fn lemma_skill_reads_back(handle: Seq<char>, skills: Seq<SkillView>)
    requires
        forall|i: int|
            0 <= i < skills.len() ==> skill_reads_back(handle, #[trigger] skills[i]),
    ensures
        forall|i: int|
            0 <= i < skills.len() ==> {
                &&& (#[trigger] skills[i]).id == skills[i].id
                &&& json_text(skills[i].links) matches Ok(text) && json_list(text) matches Ok(items)
                    && items == skills[i].links
            },
{
    assert forall|i: int| 0 <= i < skills.len() implies {
                &&& (#[trigger] skills[i]).id == skills[i].id
                &&& json_text(skills[i].links) matches Ok(text) && json_list(text) matches Ok(items)
                    && items == skills[i].links
            } by {
        assert(skill_reads_back(handle, skills[i]));
    }
}

proof fn lemma_experience_reads_back(handle: Seq<char>, experiences: Seq<ExperienceView>)
    requires
        forall|i: int|
            0 <= i < experiences.len() ==> experience_reads_back(handle, #[trigger] experiences[i]),
    ensures
        forall|i: int|
            0 <= i < experiences.len() ==> {
                &&& (#[trigger] experiences[i]).id == experiences[i].id
                &&& json_text(experiences[i].achievements) matches Ok(text) && json_list(text) matches Ok(items)
                    && items == experiences[i].achievements
                &&& json_text(experiences[i].skills) matches Ok(text) && json_list(text) matches Ok(items)
                    && items == experiences[i].skills
            },
{
    assert forall|i: int| 0 <= i < experiences.len() implies {
                &&& (#[trigger] experiences[i]).id == experiences[i].id
                &&& json_text(experiences[i].achievements) matches Ok(text) && json_list(text) matches Ok(items)
                    && items == experiences[i].achievements
                &&& json_text(experiences[i].skills) matches Ok(text) && json_list(text) matches Ok(items)
                    && items == experiences[i].skills
            } by {
        assert(experience_reads_back(handle, experiences[i]));
    }
}

proof fn lemma_project_reads_back(handle: Seq<char>, projects: Seq<ProjectView>)
    requires
        forall|i: int|
            0 <= i < projects.len() ==> project_reads_back(handle, #[trigger] projects[i]),
    ensures
        forall|i: int|
            0 <= i < projects.len() ==> {
                &&& (#[trigger] projects[i]).id == projects[i].id
                &&& json_text(projects[i].technologies) matches Ok(text) && json_list(text) matches Ok(items)
                    && items == projects[i].technologies
            },
{
    assert forall|i: int| 0 <= i < projects.len() implies {
                &&& (#[trigger] projects[i]).id == projects[i].id
                &&& json_text(projects[i].technologies) matches Ok(text) && json_list(text) matches Ok(items)
                    && items == projects[i].technologies
            } by {
        assert(project_reads_back(handle, projects[i]));
    }
}

} // verus!
