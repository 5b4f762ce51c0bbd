//! The steps of runs that save records of one kind.
use vstd::prelude::*;

use crate::json::json_text;
use crate::records::{
    Analytics, AnalyticsView, Experience, ExperienceView, Profile, ProfileView, Project,
    ProjectView, Skill, SkillView, User, UserView,
};
use crate::runs::{OnFailure, OnFailureView, SaveStep, SaveStepView};
use crate::saves::{
    analytics_saved, experience_reads_back, experience_saved, profile_saved, project_reads_back,
    project_saved, save_analytics, save_experience, save_profile, save_project, save_skill,
    save_user, skill_reads_back, skill_saved, user_saved,
};
use crate::store::Statement;

verus! {

/// Appends a step.
pub(crate) fn push_step(steps: &mut Vec<SaveStep>, statement: Statement, on_failure: OnFailure)
    ensures
        final(steps).deep_view() == old(steps).deep_view() + seq![
            SaveStepView { statement: statement@, on_failure: on_failure@ },
        ],
{
    let ghost before = steps.deep_view();
    let step = SaveStep { statement, on_failure };
    steps.push(step);
    assert(steps.deep_view() =~= before + seq![step@]);
}

/// The statements that save users, in order. One that fails is reported.
pub open spec fn user_steps(users: Seq<UserView>) -> Seq<SaveStepView> {
    users.map_values(
        |user: UserView|
            SaveStepView {
                statement: user_saved(user),
                on_failure: OnFailureView::Report("Failed to save user "@ + user.profile_handle),
            },
    )
}

/// The statements that save profiles, in order. One that fails is reported.
pub open spec fn profile_steps(profiles: Seq<ProfileView>) -> Seq<SaveStepView> {
    profiles.map_values(
        |profile: ProfileView|
            SaveStepView {
                statement: profile_saved(profile),
                on_failure: OnFailureView::Report("Failed to save profile "@ + profile.handle),
            },
    )
}

/// The statements that save figures, in order.
pub open spec fn analytics_steps(
    analytics: Seq<AnalyticsView>,
    on_failure: OnFailureView,
) -> Seq<SaveStepView> {
    analytics.map_values(
        |figures: AnalyticsView|
            SaveStepView { statement: analytics_saved(figures), on_failure },
    )
}

/// The statements that save skills for a handle, in order.
pub open spec fn skill_steps(
    handle: Seq<char>,
    skills: Seq<SkillView>,
    on_failure: OnFailureView,
) -> Seq<SaveStepView> {
    skills.map_values(
        |skill: SkillView|
            SaveStepView {
                statement: skill_saved(handle, skill, json_text(skill.links))->Ok_0,
                on_failure,
            },
    )
}

/// The statements that save experiences for a handle, in order.
pub open spec fn experience_steps(
    handle: Seq<char>,
    experiences: Seq<ExperienceView>,
    on_failure: OnFailureView,
) -> Seq<SaveStepView> {
    experiences.map_values(
        |experience: ExperienceView|
            SaveStepView {
                statement: experience_saved(
                    handle,
                    experience,
                    json_text(experience.achievements),
                    json_text(experience.skills),
                )->Ok_0,
                on_failure,
            },
    )
}

/// The statements that save projects for a handle, in order.
pub open spec fn project_steps(
    handle: Seq<char>,
    projects: Seq<ProjectView>,
    on_failure: OnFailureView,
) -> Seq<SaveStepView> {
    projects.map_values(
        |project: ProjectView|
            SaveStepView {
                statement: project_saved(handle, project, json_text(project.technologies))->Ok_0,
                on_failure,
            },
    )
}

/// Appends the steps that save users.
pub(crate) fn push_users(steps: &mut Vec<SaveStep>, users: &Vec<User>)
    ensures
        final(steps).deep_view() == old(steps).deep_view() + user_steps(users.deep_view()),
{
    let ghost before = steps@;
    let ghost added = user_steps(users.deep_view());
    let mut i: usize = 0;
    while i < users.len()
        invariant
            i <= users.len(),
            steps@.len() == before.len() + i,
            added == user_steps(users.deep_view()),
            forall|j: int| 0 <= j < before.len() ==> steps@[j] == before[j],
            forall|j: int| 0 <= j < i ==> (#[trigger] steps@[before.len() + j])@ == added[j],
        decreases users.len() - i,
    {
        let step = SaveStep {
            statement: save_user(&users[i]),
            on_failure: OnFailure::Report(
                "Failed to save user ".to_string().concat(users[i].profile_handle.as_str()),
            ),
        };
        assert(step@ =~= added[i as int]);
        steps.push(step);
        i += 1;
    }
    let ghost expected = old(steps).deep_view() + added;
    assert forall|j: int| 0 <= j < expected.len() implies steps.deep_view()[j] == expected[j] by {
        if j >= before.len() {
            let k = j - before.len();
            assert(steps@[before.len() + k]@ == added[k]);
        }
    }
    assert(steps.deep_view() =~= expected);
}

/// Appends the steps that save profiles.
pub(crate) fn push_profiles(steps: &mut Vec<SaveStep>, profiles: &Vec<Profile>)
    ensures
        final(steps).deep_view() == old(steps).deep_view() + profile_steps(profiles.deep_view()),
{
    let ghost before = steps@;
    let ghost added = profile_steps(profiles.deep_view());
    let mut i: usize = 0;
    while i < profiles.len()
        invariant
            i <= profiles.len(),
            steps@.len() == before.len() + i,
            added == profile_steps(profiles.deep_view()),
            forall|j: int| 0 <= j < before.len() ==> steps@[j] == before[j],
            forall|j: int| 0 <= j < i ==> (#[trigger] steps@[before.len() + j])@ == added[j],
        decreases profiles.len() - i,
    {
        let step = SaveStep {
            statement: save_profile(&profiles[i]),
            on_failure: OnFailure::Report(
                "Failed to save profile ".to_string().concat(profiles[i].handle.as_str()),
            ),
        };
        assert(step@ =~= added[i as int]);
        steps.push(step);
        i += 1;
    }
    let ghost expected = old(steps).deep_view() + added;
    assert forall|j: int| 0 <= j < expected.len() implies steps.deep_view()[j] == expected[j] by {
        if j >= before.len() {
            let k = j - before.len();
            assert(steps@[before.len() + k]@ == added[k]);
        }
    }
    assert(steps.deep_view() =~= expected);
}

/// Appends the steps that save figures.
pub(crate) fn push_analytics(steps: &mut Vec<SaveStep>, analytics: &Vec<Analytics>, on_failure: &OnFailure)
    ensures
        final(steps).deep_view() == old(steps).deep_view() + analytics_steps(
            analytics.deep_view(),
            on_failure@,
        ),
{
    let ghost before = steps@;
    let ghost added = analytics_steps(analytics.deep_view(), on_failure@);
    let mut i: usize = 0;
    while i < analytics.len()
        invariant
            i <= analytics.len(),
            steps@.len() == before.len() + i,
            added == analytics_steps(analytics.deep_view(), on_failure@),
            forall|j: int| 0 <= j < before.len() ==> steps@[j] == before[j],
            forall|j: int| 0 <= j < i ==> (#[trigger] steps@[before.len() + j])@ == added[j],
        decreases analytics.len() - i,
    {
        let step = SaveStep {
            statement: save_analytics(&analytics[i]),
            on_failure: on_failure.clone(),
        };
        assert(step@ =~= added[i as int]);
        steps.push(step);
        i += 1;
    }
    let ghost expected = old(steps).deep_view() + added;
    assert forall|j: int| 0 <= j < expected.len() implies steps.deep_view()[j] == expected[j] by {
        if j >= before.len() {
            let k = j - before.len();
            assert(steps@[before.len() + k]@ == added[k]);
        }
    }
    assert(steps.deep_view() =~= expected);
}

/// Appends the steps that save skills.
pub(crate) fn push_skills(
    steps: &mut Vec<SaveStep>,
    handle: &str,
    skills: &Vec<Skill>,
    on_failure: &OnFailure,
)
    ensures
        final(steps).deep_view() == old(steps).deep_view() + skill_steps(
            handle@,
            skills.deep_view(),
            on_failure@,
        ),
        forall|j: int|
            0 <= j < skills@.len() ==> skill_reads_back(handle@, (#[trigger] skills@[j])@),
{
    let ghost before = steps@;
    let ghost added = skill_steps(handle@, skills.deep_view(), on_failure@);
    let mut i: usize = 0;
    while i < skills.len()
        invariant
            i <= skills.len(),
            steps@.len() == before.len() + i,
            added == skill_steps(handle@, skills.deep_view(), on_failure@),
            forall|j: int| 0 <= j < before.len() ==> steps@[j] == before[j],
            forall|j: int| 0 <= j < i ==> (#[trigger] steps@[before.len() + j])@ == added[j],
            forall|j: int|
                0 <= j < i ==> skill_reads_back(handle@, (#[trigger] skills@[j])@),
        decreases skills.len() - i,
    {
        let step = SaveStep {
            statement: save_skill(handle, &skills[i]).unwrap(),
            on_failure: on_failure.clone(),
        };
        assert(step@ =~= added[i as int]);
        steps.push(step);
        i += 1;
    }
    let ghost expected = old(steps).deep_view() + added;
    assert forall|j: int| 0 <= j < expected.len() implies steps.deep_view()[j] == expected[j] by {
        if j >= before.len() {
            let k = j - before.len();
            assert(steps@[before.len() + k]@ == added[k]);
        }
    }
    assert(steps.deep_view() =~= expected);
}

/// Appends the steps that save experiences.
pub(crate) fn push_experiences(
    steps: &mut Vec<SaveStep>,
    handle: &str,
    experiences: &Vec<Experience>,
    on_failure: &OnFailure,
)
    ensures
        final(steps).deep_view() == old(steps).deep_view() + experience_steps(
            handle@,
            experiences.deep_view(),
            on_failure@,
        ),
        forall|j: int|
            0 <= j < experiences@.len() ==> experience_reads_back(handle@, (#[trigger] experiences@[j])@),
{
    let ghost before = steps@;
    let ghost added = experience_steps(handle@, experiences.deep_view(), on_failure@);
    let mut i: usize = 0;
    while i < experiences.len()
        invariant
            i <= experiences.len(),
            steps@.len() == before.len() + i,
            added == experience_steps(handle@, experiences.deep_view(), on_failure@),
            forall|j: int| 0 <= j < before.len() ==> steps@[j] == before[j],
            forall|j: int| 0 <= j < i ==> (#[trigger] steps@[before.len() + j])@ == added[j],
            forall|j: int|
                0 <= j < i ==> experience_reads_back(handle@, (#[trigger] experiences@[j])@),
        decreases experiences.len() - i,
    {
        let step = SaveStep {
            statement: save_experience(handle, &experiences[i]).unwrap(),
            on_failure: on_failure.clone(),
        };
        assert(step@ =~= added[i as int]);
        steps.push(step);
        i += 1;
    }
    let ghost expected = old(steps).deep_view() + added;
    assert forall|j: int| 0 <= j < expected.len() implies steps.deep_view()[j] == expected[j] by {
        if j >= before.len() {
            let k = j - before.len();
            assert(steps@[before.len() + k]@ == added[k]);
        }
    }
    assert(steps.deep_view() =~= expected);
}

/// Appends the steps that save projects.
pub(crate) fn push_projects(
    steps: &mut Vec<SaveStep>,
    handle: &str,
    projects: &Vec<Project>,
    on_failure: &OnFailure,
)
    ensures
        final(steps).deep_view() == old(steps).deep_view() + project_steps(
            handle@,
            projects.deep_view(),
            on_failure@,
        ),
        forall|j: int|
            0 <= j < projects@.len() ==> project_reads_back(handle@, (#[trigger] projects@[j])@),
{
    let ghost before = steps@;
    let ghost added = project_steps(handle@, projects.deep_view(), on_failure@);
    let mut i: usize = 0;
    while i < projects.len()
        invariant
            i <= projects.len(),
            steps@.len() == before.len() + i,
            added == project_steps(handle@, projects.deep_view(), on_failure@),
            forall|j: int| 0 <= j < before.len() ==> steps@[j] == before[j],
            forall|j: int| 0 <= j < i ==> (#[trigger] steps@[before.len() + j])@ == added[j],
            forall|j: int|
                0 <= j < i ==> project_reads_back(handle@, (#[trigger] projects@[j])@),
        decreases projects.len() - i,
    {
        let step = SaveStep {
            statement: save_project(handle, &projects[i]).unwrap(),
            on_failure: on_failure.clone(),
        };
        assert(step@ =~= added[i as int]);
        steps.push(step);
        i += 1;
    }
    let ghost expected = old(steps).deep_view() + added;
    assert forall|j: int| 0 <= j < expected.len() implies steps.deep_view()[j] == expected[j] by {
        if j >= before.len() {
            let k = j - before.len();
            assert(steps@[before.len() + k]@ == added[k]);
        }
    }
    assert(steps.deep_view() =~= expected);
}

/// Appends the steps that save groups of skills.
pub(crate) fn push_skill_groups(
    steps: &mut Vec<SaveStep>,
    handle: &str,
    groups: &Vec<Vec<Skill>>,
    on_failure: &OnFailure,
)
    ensures
        final(steps).deep_view() == old(steps).deep_view() + skill_steps(
            handle@,
            groups.deep_view().flatten(),
            on_failure@,
        ),
        forall|j: int|
            0 <= j < groups.deep_view().flatten().len() ==> skill_reads_back(
                handle@,
                #[trigger] groups.deep_view().flatten()[j],
            ),
{
    let ghost view = groups.deep_view();
    let ghost before = steps.deep_view();
    let mut i: usize = 0;
    assert(view.take(0) =~= Seq::empty());
    assert(steps.deep_view() =~= before + skill_steps(
        handle@,
        view.take(0).flatten(),
        on_failure@,
    ));
    while i < groups.len()
        invariant
            i <= groups.len(),
            view == groups.deep_view(),
            steps.deep_view() == before + skill_steps(
                handle@,
                view.take(i as int).flatten(),
                on_failure@,
            ),
            forall|j: int|
                0 <= j < view.take(i as int).flatten().len() ==> skill_reads_back(
                    handle@,
                    #[trigger] view.take(i as int).flatten()[j],
                ),
        decreases groups.len() - i,
    {
        let ghost earlier = view.take(i as int);
        push_skills(steps, handle, &groups[i], on_failure);
        proof {
            assert(view.take(i + 1) =~= earlier.push(view[i as int]));
            earlier.lemma_flatten_push(view[i as int]);
            assert(skill_steps(handle@, earlier.flatten() + view[i as int], on_failure@)
                =~= skill_steps(handle@, earlier.flatten(), on_failure@) + skill_steps(
                handle@,
                view[i as int],
                on_failure@,
            ));
            assert(steps.deep_view() =~= before + skill_steps(
                handle@,
                view.take(i + 1).flatten(),
                on_failure@,
            ));
            let all = view.take(i + 1).flatten();
            assert forall|j: int| 0 <= j < all.len() implies skill_reads_back(
                handle@,
                #[trigger] all[j],
            ) by {
                if j < earlier.flatten().len() {
                    assert(skill_reads_back(handle@, earlier.flatten()[j]));
                } else {
                    let k = j - earlier.flatten().len();
                    assert(skill_reads_back(handle@, groups@[i as int]@[k]@));
                }
            }
        }
        i += 1;
    }
    assert(view.take(view.len() as int) =~= view);
}

/// Appends the steps that save groups of experiences.
pub(crate) fn push_experience_groups(
    steps: &mut Vec<SaveStep>,
    handle: &str,
    groups: &Vec<Vec<Experience>>,
    on_failure: &OnFailure,
)
    ensures
        final(steps).deep_view() == old(steps).deep_view() + experience_steps(
            handle@,
            groups.deep_view().flatten(),
            on_failure@,
        ),
        forall|j: int|
            0 <= j < groups.deep_view().flatten().len() ==> experience_reads_back(
                handle@,
                #[trigger] groups.deep_view().flatten()[j],
            ),
{
    let ghost view = groups.deep_view();
    let ghost before = steps.deep_view();
    let mut i: usize = 0;
    assert(view.take(0) =~= Seq::empty());
    assert(steps.deep_view() =~= before + experience_steps(
        handle@,
        view.take(0).flatten(),
        on_failure@,
    ));
    while i < groups.len()
        invariant
            i <= groups.len(),
            view == groups.deep_view(),
            steps.deep_view() == before + experience_steps(
                handle@,
                view.take(i as int).flatten(),
                on_failure@,
            ),
            forall|j: int|
                0 <= j < view.take(i as int).flatten().len() ==> experience_reads_back(
                    handle@,
                    #[trigger] view.take(i as int).flatten()[j],
                ),
        decreases groups.len() - i,
    {
        let ghost earlier = view.take(i as int);
        push_experiences(steps, handle, &groups[i], on_failure);
        proof {
            assert(view.take(i + 1) =~= earlier.push(view[i as int]));
            earlier.lemma_flatten_push(view[i as int]);
            assert(experience_steps(handle@, earlier.flatten() + view[i as int], on_failure@)
                =~= experience_steps(handle@, earlier.flatten(), on_failure@) + experience_steps(
                handle@,
                view[i as int],
                on_failure@,
            ));
            assert(steps.deep_view() =~= before + experience_steps(
                handle@,
                view.take(i + 1).flatten(),
                on_failure@,
            ));
            let all = view.take(i + 1).flatten();
            assert forall|j: int| 0 <= j < all.len() implies experience_reads_back(
                handle@,
                #[trigger] all[j],
            ) by {
                if j < earlier.flatten().len() {
                    assert(experience_reads_back(handle@, earlier.flatten()[j]));
                } else {
                    let k = j - earlier.flatten().len();
                    assert(experience_reads_back(handle@, groups@[i as int]@[k]@));
                }
            }
        }
        i += 1;
    }
    assert(view.take(view.len() as int) =~= view);
}

/// Appends the steps that save groups of projects.
pub(crate) fn push_project_groups(
    steps: &mut Vec<SaveStep>,
    handle: &str,
    groups: &Vec<Vec<Project>>,
    on_failure: &OnFailure,
)
    ensures
        final(steps).deep_view() == old(steps).deep_view() + project_steps(
            handle@,
            groups.deep_view().flatten(),
            on_failure@,
        ),
        forall|j: int|
            0 <= j < groups.deep_view().flatten().len() ==> project_reads_back(
                handle@,
                #[trigger] groups.deep_view().flatten()[j],
            ),
{
    let ghost view = groups.deep_view();
    let ghost before = steps.deep_view();
    let mut i: usize = 0;
    assert(view.take(0) =~= Seq::empty());
    assert(steps.deep_view() =~= before + project_steps(
        handle@,
        view.take(0).flatten(),
        on_failure@,
    ));
    while i < groups.len()
        invariant
            i <= groups.len(),
            view == groups.deep_view(),
            steps.deep_view() == before + project_steps(
                handle@,
                view.take(i as int).flatten(),
                on_failure@,
            ),
            forall|j: int|
                0 <= j < view.take(i as int).flatten().len() ==> project_reads_back(
                    handle@,
                    #[trigger] view.take(i as int).flatten()[j],
                ),
        decreases groups.len() - i,
    {
        let ghost earlier = view.take(i as int);
        push_projects(steps, handle, &groups[i], on_failure);
        proof {
            assert(view.take(i + 1) =~= earlier.push(view[i as int]));
            earlier.lemma_flatten_push(view[i as int]);
            assert(project_steps(handle@, earlier.flatten() + view[i as int], on_failure@)
                =~= project_steps(handle@, earlier.flatten(), on_failure@) + project_steps(
                handle@,
                view[i as int],
                on_failure@,
            ));
            assert(steps.deep_view() =~= before + project_steps(
                handle@,
                view.take(i + 1).flatten(),
                on_failure@,
            ));
            let all = view.take(i + 1).flatten();
            assert forall|j: int| 0 <= j < all.len() implies project_reads_back(
                handle@,
                #[trigger] all[j],
            ) by {
                if j < earlier.flatten().len() {
                    assert(project_reads_back(handle@, earlier.flatten()[j]));
                } else {
                    let k = j - earlier.flatten().len();
                    assert(project_reads_back(handle@, groups@[i as int]@[k]@));
                }
            }
        }
        i += 1;
    }
    assert(view.take(view.len() as int) =~= view);
}

} // verus!
