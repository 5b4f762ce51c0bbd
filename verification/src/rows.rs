//! Rows whose lists are kept as JSON text, and the records read from them.
use vstd::prelude::*;

use crate::json::{decode_list, json_list, list_result};
use crate::records::{Experience, ExperienceView, Project, ProjectView, Skill, SkillView};
use crate::store::{StoreError, StoreErrorView};

verus! {

/// The error of a column whose text is not the JSON of a list. Columns are named in
/// quotes.
pub open spec fn column_error(index: Seq<char>, message: Seq<char>) -> StoreErrorView {
    StoreErrorView::ColumnDecode { index, source: message }
}

fn unreadable(index: &str, message: String) -> (error: StoreError)
    ensures
        error@ == column_error(index@, message@),
{
    StoreError::ColumnDecode { index: index.to_string(), source: message }
}

/// A row of the skills table: `links` is a JSON text.
pub struct SkillRow {
    pub id: String,
    pub profile_handle: String,
    pub name: String,
    pub category: String,
    pub score: u8,
    pub links: String,
}

/// What a [`SkillRow`] holds.
#[verifier::ext_equal]
pub struct SkillRowView {
    pub id: Seq<char>,
    pub profile_handle: Seq<char>,
    pub name: Seq<char>,
    pub category: Seq<char>,
    pub score: u8,
    pub links: Seq<char>,
}

impl View for SkillRow {
    type V = SkillRowView;

    open spec fn view(&self) -> SkillRowView {
        SkillRowView {
            id: self.id@,
            profile_handle: self.profile_handle@,
            name: self.name@,
            category: self.category@,
            score: self.score,
            links: self.links@,
        }
    }
}

impl DeepView for SkillRow {
    type V = SkillRowView;

    open spec fn deep_view(&self) -> SkillRowView {
        self@
    }
}

/// The record of a row, once its lists have been read; the error of the first that
/// could not be, in the order of the columns.
pub open spec fn skill_with(
    row: SkillRowView,
    links: Result<Seq<Seq<char>>, Seq<char>>,
) -> Result<SkillView, StoreErrorView> {
    match links {
        Ok(links) => Ok(
            SkillView {
                id: row.id,
                profile_handle: row.profile_handle,
                name: row.name,
                category: row.category,
                score: row.score,
                links,
            },
        ),
        Err(message) => Err(column_error("\"links\""@, message)),
    }
}

/// The record that a row is read as.
pub open spec fn decoded_skill(row: SkillRowView) -> Result<SkillView, StoreErrorView> {
    skill_with(row, json_list(row.links))
}

/// The records that rows are read as, in order; the error of the first row that
/// cannot be read.
pub open spec fn decoded_skills(rows: Seq<SkillRowView>) -> Result<
    Seq<SkillView>,
    StoreErrorView,
>
    decreases rows.len(),
{
    if rows.len() == 0 {
        Ok(Seq::empty())
    } else {
        match decoded_skills(rows.drop_last()) {
            Ok(earlier) => match decoded_skill(rows.last()) {
                Ok(skill) => Ok(earlier.push(skill)),
                Err(error) => Err(error),
            },
            Err(error) => Err(error),
        }
    }
}

/// What a record, or the error in its place, holds.
pub open spec fn skill_result(result: Result<Skill, StoreError>) -> Result<
    SkillView,
    StoreErrorView,
> {
    match result {
        Ok(skill) => Ok(skill@),
        Err(error) => Err(error@),
    }
}

/// What a list of records, or the error in its place, holds.
pub open spec fn skills_result(result: Result<Vec<Skill>, StoreError>) -> Result<
    Seq<SkillView>,
    StoreErrorView,
> {
    match result {
        Ok(skills) => Ok(skills.deep_view()),
        Err(error) => Err(error@),
    }
}

/// The record of a row, once its lists have been read.
pub fn skill_from(
    row: &SkillRow,
    links: Result<Vec<String>, String>,
) -> (result: Result<Skill, StoreError>)
    ensures
        skill_result(result) == skill_with(
            row@,
            list_result(links),
        ),
        match result {
            Ok(skill) => {
                &&& skill.id@ == row.id@
                &&& skill.profile_handle@ == row.profile_handle@
                &&& skill.name@ == row.name@
                &&& skill.category@ == row.category@
                &&& skill.score == row.score
                &&& links matches Ok(items) && skill.links == items
            },
            Err(error) => {
                &&& list_result(links) matches Err(message) && error@ == (StoreErrorView::ColumnDecode {
                    index: "\"links\""@,
                    source: message,
                })
            },
        },
{
    match links {
        Ok(links) => Ok(
            Skill {
                id: row.id.clone(),
                profile_handle: row.profile_handle.clone(),
                name: row.name.clone(),
                category: row.category.clone(),
                score: row.score,
                links,
            },
        ),
        Err(message) => Err(unreadable("\"links\"", message)),
    }
}

/// Reads the record of a row.
pub fn decode_skill(row: &SkillRow) -> (result: Result<Skill, StoreError>)
    ensures
        skill_result(result) == decoded_skill(row@),
        match result {
            Ok(skill) => {
                &&& skill.id@ == row.id@
                &&& skill.profile_handle@ == row.profile_handle@
                &&& skill.name@ == row.name@
                &&& skill.category@ == row.category@
                &&& skill.score == row.score
                &&& json_list(row.links@) matches Ok(items) && skill.links.deep_view() == items
            },
            Err(error) => {
                &&& json_list(row.links@) matches Err(message) && error@ == (StoreErrorView::ColumnDecode {
                    index: "\"links\""@,
                    source: message,
                })
            },
        },
{
    let links = decode_list(row.links.as_str());
    skill_from(row, links)
}

proof fn lemma_skill_error_stays(rows: Seq<SkillRowView>, i: int)
    requires
        0 <= i <= rows.len(),
        decoded_skills(rows.take(i)) is Err,
    ensures
        decoded_skills(rows) == decoded_skills(rows.take(i)),
    decreases rows.len(),
{
    if i == rows.len() {
        assert(rows.take(i) =~= rows);
    } else {
        assert(rows.drop_last().take(i) =~= rows.take(i));
        lemma_skill_error_stays(rows.drop_last(), i);
    }
}

/// Whether a row is the first that cannot be read, and an error says which of its
/// columns, and why.
pub open spec fn unreadable_skill_at(
    rows: Seq<SkillRowView>,
    i: int,
    error: StoreErrorView,
) -> bool {
    &&& 0 <= i < rows.len()
    &&& forall|j: int| 0 <= j < i ==> json_list((#[trigger] rows[j]).links) is Ok
    &&& json_list(rows[i].links) matches Err(message) && error == (StoreErrorView::ColumnDecode {
        index: "\"links\""@,
        source: message,
    })
}

/// Rows are read one by one and in order: as many records as rows, each with the
/// columns of its row, its lists being what their JSON texts stand for. Where that
/// cannot be, the error is that of the first column of the first row that is no list.
pub proof fn skills_are_read_row_by_row(rows: Seq<SkillRowView>)
    ensures
        match decoded_skills(rows) {
            Ok(skills) => {
                &&& skills.len() == rows.len()
                &&& forall|i: int|
                    0 <= i < rows.len() ==> {
                        &&& (#[trigger] skills[i]).id == rows[i].id
                        &&& skills[i].id == rows[i].id
                        &&& skills[i].profile_handle == rows[i].profile_handle
                        &&& skills[i].name == rows[i].name
                        &&& skills[i].category == rows[i].category
                        &&& skills[i].score == rows[i].score
                        &&& json_list(rows[i].links) matches Ok(items) && skills[i].links == items
                    }
            },
            Err(error) => exists|i: int| unreadable_skill_at(rows, i, error),
        },
        forall|i: int, error: StoreErrorView|
            #[trigger] unreadable_skill_at(rows, i, error) ==> decoded_skills(rows) is Err,
    decreases rows.len(),
{
    if rows.len() > 0 {
        let earlier = rows.drop_last();
        skills_are_read_row_by_row(earlier);
        match decoded_skills(earlier) {
            Ok(skills) => {
                match decoded_skill(rows.last()) {
                    Ok(skill) => {
                        let all = skills.push(skill);
                        assert forall|i: int| 0 <= i < rows.len() implies {
                            &&& (#[trigger] all[i]).id == rows[i].id
                            &&& all[i].id == rows[i].id
                            &&& all[i].profile_handle == rows[i].profile_handle
                            &&& all[i].name == rows[i].name
                            &&& all[i].category == rows[i].category
                            &&& all[i].score == rows[i].score
                            &&& json_list(rows[i].links) matches Ok(items) && all[i].links == items
                        } by {
                            if i < earlier.len() {
                                assert(all[i] == skills[i]);
                                assert(rows[i] == earlier[i]);
                            }
                        }
                    },
                    Err(error) => {
                        assert forall|j: int| 0 <= j < rows.len() - 1 implies json_list((#[trigger] rows[j]).links) is Ok by {
                            assert(skills[j].id == earlier[j].id);
                            assert(earlier[j] == rows[j]);
                        }
                        assert(unreadable_skill_at(rows, rows.len() - 1, error));
                    },
                }
            },
            Err(error) => {
                let at = choose|i: int| unreadable_skill_at(earlier, i, error);
                assert forall|j: int| 0 <= j < at implies json_list((#[trigger] rows[j]).links) is Ok by {
                    assert(earlier[j] == rows[j]);
                }
                assert(rows[at] == earlier[at]);
                assert(unreadable_skill_at(rows, at, error));
            },
        }
    }
    assert forall|i: int, error: StoreErrorView| #[trigger]
        unreadable_skill_at(rows, i, error) implies decoded_skills(rows) is Err by {
        if decoded_skills(rows) is Ok {
            let read = decoded_skills(rows)->Ok_0;
            assert(read[i].id == rows[i].id);
        }
    }
}

/// Reads the records of rows, in order; gives the error of the first row that cannot
/// be read.
pub fn decode_skills(rows: &Vec<SkillRow>) -> (result: Result<Vec<Skill>, StoreError>)
    ensures
        skills_result(result) == decoded_skills(rows.deep_view()),
        match result {
            Ok(skills) => {
                &&& skills@.len() == rows@.len()
                &&& forall|i: int|
                    0 <= i < rows@.len() ==> {
                        &&& (#[trigger] skills@[i]).deep_view() == skills@[i]@
                        &&& skills@[i].id@ == rows@[i].id@
                        &&& skills@[i].profile_handle@ == rows@[i].profile_handle@
                        &&& skills@[i].name@ == rows@[i].name@
                        &&& skills@[i].category@ == rows@[i].category@
                        &&& skills@[i].score == rows@[i].score
                        &&& json_list(rows@[i].links@) matches Ok(items) && skills@[i].links.deep_view()
                            == items
                    }
            },
            Err(error) => exists|i: int|
                {
                    &&& 0 <= i < rows@.len()
                    &&& (#[trigger] rows@[i]).deep_view() == rows@[i]@
                    &&& json_list(rows@[i].links@) matches Err(message) && error@ == (StoreErrorView::ColumnDecode {
                        index: "\"links\""@,
                        source: message,
                    })
                    &&& forall|j: int|
                        0 <= j < i ==> ((#[trigger] rows@[j]).deep_view() == rows@[j]@
                            && json_list(rows@[j].links@) is Ok)
                },
        },
{
    let ghost view = rows.deep_view();
    let mut read: Vec<Skill> = Vec::new();
    let mut i: usize = 0;
    assert(view.take(0) =~= Seq::empty());
    assert(read.deep_view() =~= Seq::empty());
    while i < rows.len()
        invariant
            i <= rows.len(),
            view == rows.deep_view(),
            decoded_skills(view.take(i as int)) == Ok::<Seq<SkillView>, StoreErrorView>(
                read.deep_view(),
            ),
        decreases rows.len() - i,
    {
        let ghost earlier = read.deep_view();
        assert(view.take(i + 1).drop_last() =~= view.take(i as int));
        match decode_skill(&rows[i]) {
            Ok(skill) => {
                read.push(skill);
                assert(read.deep_view() =~= earlier.push(skill@));
            },
            Err(error) => {
                proof {
                    lemma_skill_error_stays(view, i + 1);
                    skills_are_read_row_by_row(view);
                    let at = choose|k: int| unreadable_skill_at(view, k, error@);
                    assert(rows@[at].deep_view() == view[at]);
                    assert forall|j: int| 0 <= j < at implies ((#[trigger] rows@[j]).deep_view()
                        == rows@[j]@ && json_list(rows@[j].links@) is Ok) by {
                        assert(view[j] == rows@[j]@);
                    }
                }
                return Err(error);
            },
        }
        i += 1;
    }
    assert(view.take(view.len() as int) =~= view);
    proof {
        skills_are_read_row_by_row(view);
        assert forall|i: int| 0 <= i < rows@.len() implies {
            &&& (#[trigger] read@[i]).deep_view() == read@[i]@
            &&& read@[i].id@ == rows@[i].id@
            &&& read@[i].profile_handle@ == rows@[i].profile_handle@
            &&& read@[i].name@ == rows@[i].name@
            &&& read@[i].category@ == rows@[i].category@
            &&& read@[i].score == rows@[i].score
            &&& json_list(rows@[i].links@) matches Ok(items) && read@[i].links.deep_view()
                == items
        } by {
            assert(read.deep_view()[i] == read@[i]@);
            assert(view[i] == rows@[i]@);
        }
    }
    Ok(read)
}

/// A row of the experiences table: `achievements` and `skills` are JSON texts.
pub struct ExperienceRow {
    pub id: String,
    pub profile_handle: String,
    pub role: String,
    pub organization: String,
    pub years_bits: u32,
    pub summary: String,
    pub achievements: String,
    pub skills: String,
}

/// What an [`ExperienceRow`] holds.
#[verifier::ext_equal]
pub struct ExperienceRowView {
    pub id: Seq<char>,
    pub profile_handle: Seq<char>,
    pub role: Seq<char>,
    pub organization: Seq<char>,
    pub years_bits: u32,
    pub summary: Seq<char>,
    pub achievements: Seq<char>,
    pub skills: Seq<char>,
}

impl View for ExperienceRow {
    type V = ExperienceRowView;

    open spec fn view(&self) -> ExperienceRowView {
        ExperienceRowView {
            id: self.id@,
            profile_handle: self.profile_handle@,
            role: self.role@,
            organization: self.organization@,
            years_bits: self.years_bits,
            summary: self.summary@,
            achievements: self.achievements@,
            skills: self.skills@,
        }
    }
}

impl DeepView for ExperienceRow {
    type V = ExperienceRowView;

    open spec fn deep_view(&self) -> ExperienceRowView {
        self@
    }
}

/// The record of a row, once its lists have been read; the error of the first that
/// could not be, in the order of the columns.
pub open spec fn experience_with(
    row: ExperienceRowView,
    achievements: Result<Seq<Seq<char>>, Seq<char>>,
    skills: Result<Seq<Seq<char>>, Seq<char>>,
) -> Result<ExperienceView, StoreErrorView> {
    match (achievements, skills) {
        (Ok(achievements), Ok(skills)) => Ok(
            ExperienceView {
                id: row.id,
                profile_handle: row.profile_handle,
                role: row.role,
                organization: row.organization,
                years_bits: row.years_bits,
                summary: row.summary,
                achievements,
                skills,
            },
        ),
        (Err(message), _) => Err(column_error("\"achievements\""@, message)),
        (_, Err(message)) => Err(column_error("\"skills\""@, message)),
    }
}

/// The record that a row is read as.
pub open spec fn decoded_experience(row: ExperienceRowView) -> Result<ExperienceView, StoreErrorView> {
    experience_with(row, json_list(row.achievements), json_list(row.skills))
}

/// The records that rows are read as, in order; the error of the first row that
/// cannot be read.
pub open spec fn decoded_experiences(rows: Seq<ExperienceRowView>) -> Result<
    Seq<ExperienceView>,
    StoreErrorView,
>
    decreases rows.len(),
{
    if rows.len() == 0 {
        Ok(Seq::empty())
    } else {
        match decoded_experiences(rows.drop_last()) {
            Ok(earlier) => match decoded_experience(rows.last()) {
                Ok(experience) => Ok(earlier.push(experience)),
                Err(error) => Err(error),
            },
            Err(error) => Err(error),
        }
    }
}

/// What a record, or the error in its place, holds.
pub open spec fn experience_result(result: Result<Experience, StoreError>) -> Result<
    ExperienceView,
    StoreErrorView,
> {
    match result {
        Ok(experience) => Ok(experience@),
        Err(error) => Err(error@),
    }
}

/// What a list of records, or the error in its place, holds.
pub open spec fn experiences_result(result: Result<Vec<Experience>, StoreError>) -> Result<
    Seq<ExperienceView>,
    StoreErrorView,
> {
    match result {
        Ok(experiences) => Ok(experiences.deep_view()),
        Err(error) => Err(error@),
    }
}

/// The record of a row, once its lists have been read.
pub fn experience_from(
    row: &ExperienceRow,
    achievements: Result<Vec<String>, String>,
    skills: Result<Vec<String>, String>,
) -> (result: Result<Experience, StoreError>)
    ensures
        experience_result(result) == experience_with(
            row@,
            list_result(achievements),
            list_result(skills),
        ),
        match result {
            Ok(experience) => {
                &&& experience.id@ == row.id@
                &&& experience.profile_handle@ == row.profile_handle@
                &&& experience.role@ == row.role@
                &&& experience.organization@ == row.organization@
                &&& experience.years_bits == row.years_bits
                &&& experience.summary@ == row.summary@
                &&& achievements matches Ok(items) && experience.achievements == items
                &&& skills matches Ok(items) && experience.skills == items
            },
            Err(error) => {
                &&& list_result(achievements) is Err || list_result(skills) is Err
                &&& list_result(achievements) matches Err(message) ==> error@ == (StoreErrorView::ColumnDecode {
                    index: "\"achievements\""@,
                    source: message,
                })
                &&& list_result(achievements) is Ok ==> (list_result(skills) matches Err(message) && error@ == (StoreErrorView::ColumnDecode {
                    index: "\"skills\""@,
                    source: message,
                }))
            },
        },
{
    match (achievements, skills) {
        (Ok(achievements), Ok(skills)) => Ok(
            Experience {
                id: row.id.clone(),
                profile_handle: row.profile_handle.clone(),
                role: row.role.clone(),
                organization: row.organization.clone(),
                years_bits: row.years_bits,
                summary: row.summary.clone(),
                achievements,
                skills,
            },
        ),
        (Err(message), _) => Err(unreadable("\"achievements\"", message)),
        (_, Err(message)) => Err(unreadable("\"skills\"", message)),
    }
}

/// Reads the record of a row.
pub fn decode_experience(row: &ExperienceRow) -> (result: Result<Experience, StoreError>)
    ensures
        experience_result(result) == decoded_experience(row@),
        match result {
            Ok(experience) => {
                &&& experience.id@ == row.id@
                &&& experience.profile_handle@ == row.profile_handle@
                &&& experience.role@ == row.role@
                &&& experience.organization@ == row.organization@
                &&& experience.years_bits == row.years_bits
                &&& experience.summary@ == row.summary@
                &&& json_list(row.achievements@) matches Ok(items) && experience.achievements.deep_view() == items
                &&& json_list(row.skills@) matches Ok(items) && experience.skills.deep_view() == items
            },
            Err(error) => {
                &&& json_list(row.achievements@) is Err || json_list(row.skills@) is Err
                &&& json_list(row.achievements@) matches Err(message) ==> error@ == (StoreErrorView::ColumnDecode {
                    index: "\"achievements\""@,
                    source: message,
                })
                &&& json_list(row.achievements@) is Ok ==> (json_list(row.skills@) matches Err(message) && error@ == (StoreErrorView::ColumnDecode {
                    index: "\"skills\""@,
                    source: message,
                }))
            },
        },
{
    let achievements = decode_list(row.achievements.as_str());
    let skills = decode_list(row.skills.as_str());
    experience_from(row, achievements, skills)
}

proof fn lemma_experience_error_stays(rows: Seq<ExperienceRowView>, i: int)
    requires
        0 <= i <= rows.len(),
        decoded_experiences(rows.take(i)) is Err,
    ensures
        decoded_experiences(rows) == decoded_experiences(rows.take(i)),
    decreases rows.len(),
{
    if i == rows.len() {
        assert(rows.take(i) =~= rows);
    } else {
        assert(rows.drop_last().take(i) =~= rows.take(i));
        lemma_experience_error_stays(rows.drop_last(), i);
    }
}

/// Whether a row is the first that cannot be read, and an error says which of its
/// columns, and why.
pub open spec fn unreadable_experience_at(
    rows: Seq<ExperienceRowView>,
    i: int,
    error: StoreErrorView,
) -> bool {
    &&& 0 <= i < rows.len()
    &&& forall|j: int| 0 <= j < i ==> json_list((#[trigger] rows[j]).achievements) is Ok && json_list(rows[j].skills) is Ok
    &&& json_list(rows[i].achievements) is Err || json_list(rows[i].skills) is Err
    &&& json_list(rows[i].achievements) matches Err(message) ==> error == (StoreErrorView::ColumnDecode {
        index: "\"achievements\""@,
        source: message,
    })
    &&& json_list(rows[i].achievements) is Ok ==> (json_list(rows[i].skills) matches Err(message) && error == (StoreErrorView::ColumnDecode {
        index: "\"skills\""@,
        source: message,
    }))
}

/// Rows are read one by one and in order: as many records as rows, each with the
/// columns of its row, its lists being what their JSON texts stand for. Where that
/// cannot be, the error is that of the first column of the first row that is no list.
pub proof fn experiences_are_read_row_by_row(rows: Seq<ExperienceRowView>)
    ensures
        match decoded_experiences(rows) {
            Ok(experiences) => {
                &&& experiences.len() == rows.len()
                &&& forall|i: int|
                    0 <= i < rows.len() ==> {
                        &&& (#[trigger] experiences[i]).id == rows[i].id
                        &&& experiences[i].id == rows[i].id
                        &&& experiences[i].profile_handle == rows[i].profile_handle
                        &&& experiences[i].role == rows[i].role
                        &&& experiences[i].organization == rows[i].organization
                        &&& experiences[i].years_bits == rows[i].years_bits
                        &&& experiences[i].summary == rows[i].summary
                        &&& json_list(rows[i].achievements) matches Ok(items) && experiences[i].achievements == items
                        &&& json_list(rows[i].skills) matches Ok(items) && experiences[i].skills == items
                    }
            },
            Err(error) => exists|i: int| unreadable_experience_at(rows, i, error),
        },
        forall|i: int, error: StoreErrorView|
            #[trigger] unreadable_experience_at(rows, i, error) ==> decoded_experiences(rows) is Err,
    decreases rows.len(),
{
    if rows.len() > 0 {
        let earlier = rows.drop_last();
        experiences_are_read_row_by_row(earlier);
        match decoded_experiences(earlier) {
            Ok(experiences) => {
                match decoded_experience(rows.last()) {
                    Ok(experience) => {
                        let all = experiences.push(experience);
                        assert forall|i: int| 0 <= i < rows.len() implies {
                            &&& (#[trigger] all[i]).id == rows[i].id
                            &&& all[i].id == rows[i].id
                            &&& all[i].profile_handle == rows[i].profile_handle
                            &&& all[i].role == rows[i].role
                            &&& all[i].organization == rows[i].organization
                            &&& all[i].years_bits == rows[i].years_bits
                            &&& all[i].summary == rows[i].summary
                            &&& json_list(rows[i].achievements) matches Ok(items) && all[i].achievements == items
                            &&& json_list(rows[i].skills) matches Ok(items) && all[i].skills == items
                        } by {
                            if i < earlier.len() {
                                assert(all[i] == experiences[i]);
                                assert(rows[i] == earlier[i]);
                            }
                        }
                    },
                    Err(error) => {
                        assert forall|j: int| 0 <= j < rows.len() - 1 implies json_list((#[trigger] rows[j]).achievements) is Ok && json_list(rows[j].skills) is Ok by {
                            assert(experiences[j].id == earlier[j].id);
                            assert(earlier[j] == rows[j]);
                        }
                        assert(unreadable_experience_at(rows, rows.len() - 1, error));
                    },
                }
            },
            Err(error) => {
                let at = choose|i: int| unreadable_experience_at(earlier, i, error);
                assert forall|j: int| 0 <= j < at implies json_list((#[trigger] rows[j]).achievements) is Ok && json_list(rows[j].skills) is Ok by {
                    assert(earlier[j] == rows[j]);
                }
                assert(rows[at] == earlier[at]);
                assert(unreadable_experience_at(rows, at, error));
            },
        }
    }
    assert forall|i: int, error: StoreErrorView| #[trigger]
        unreadable_experience_at(rows, i, error) implies decoded_experiences(rows) is Err by {
        if decoded_experiences(rows) is Ok {
            let read = decoded_experiences(rows)->Ok_0;
            assert(read[i].id == rows[i].id);
        }
    }
}

/// Reads the records of rows, in order; gives the error of the first row that cannot
/// be read.
pub fn decode_experiences(rows: &Vec<ExperienceRow>) -> (result: Result<Vec<Experience>, StoreError>)
    ensures
        experiences_result(result) == decoded_experiences(rows.deep_view()),
        match result {
            Ok(experiences) => {
                &&& experiences@.len() == rows@.len()
                &&& forall|i: int|
                    0 <= i < rows@.len() ==> {
                        &&& (#[trigger] experiences@[i]).deep_view() == experiences@[i]@
                        &&& experiences@[i].id@ == rows@[i].id@
                        &&& experiences@[i].profile_handle@ == rows@[i].profile_handle@
                        &&& experiences@[i].role@ == rows@[i].role@
                        &&& experiences@[i].organization@ == rows@[i].organization@
                        &&& experiences@[i].years_bits == rows@[i].years_bits
                        &&& experiences@[i].summary@ == rows@[i].summary@
                        &&& json_list(rows@[i].achievements@) matches Ok(items) && experiences@[i].achievements.deep_view()
                            == items
                        &&& json_list(rows@[i].skills@) matches Ok(items) && experiences@[i].skills.deep_view()
                            == items
                    }
            },
            Err(error) => exists|i: int|
                {
                    &&& 0 <= i < rows@.len()
                    &&& (#[trigger] rows@[i]).deep_view() == rows@[i]@
                    &&& json_list(rows@[i].achievements@) is Err || json_list(rows@[i].skills@) is Err
                    &&& json_list(rows@[i].achievements@) matches Err(message) ==> error@ == (StoreErrorView::ColumnDecode {
                        index: "\"achievements\""@,
                        source: message,
                    })
                    &&& json_list(rows@[i].achievements@) is Ok ==> (json_list(rows@[i].skills@) matches Err(message) && error@ == (StoreErrorView::ColumnDecode {
                        index: "\"skills\""@,
                        source: message,
                    }))
                    &&& forall|j: int|
                        0 <= j < i ==> ((#[trigger] rows@[j]).deep_view() == rows@[j]@
                            && json_list(rows@[j].achievements@) is Ok && json_list(rows@[j].skills@) is Ok)
                },
        },
{
    let ghost view = rows.deep_view();
    let mut read: Vec<Experience> = Vec::new();
    let mut i: usize = 0;
    assert(view.take(0) =~= Seq::empty());
    assert(read.deep_view() =~= Seq::empty());
    while i < rows.len()
        invariant
            i <= rows.len(),
            view == rows.deep_view(),
            decoded_experiences(view.take(i as int)) == Ok::<Seq<ExperienceView>, StoreErrorView>(
                read.deep_view(),
            ),
        decreases rows.len() - i,
    {
        let ghost earlier = read.deep_view();
        assert(view.take(i + 1).drop_last() =~= view.take(i as int));
        match decode_experience(&rows[i]) {
            Ok(experience) => {
                read.push(experience);
                assert(read.deep_view() =~= earlier.push(experience@));
            },
            Err(error) => {
                proof {
                    lemma_experience_error_stays(view, i + 1);
                    experiences_are_read_row_by_row(view);
                    let at = choose|k: int| unreadable_experience_at(view, k, error@);
                    assert(rows@[at].deep_view() == view[at]);
                    assert forall|j: int| 0 <= j < at implies ((#[trigger] rows@[j]).deep_view()
                        == rows@[j]@ && json_list(rows@[j].achievements@) is Ok && json_list(rows@[j].skills@) is Ok) by {
                        assert(view[j] == rows@[j]@);
                    }
                }
                return Err(error);
            },
        }
        i += 1;
    }
    assert(view.take(view.len() as int) =~= view);
    proof {
        experiences_are_read_row_by_row(view);
        assert forall|i: int| 0 <= i < rows@.len() implies {
            &&& (#[trigger] read@[i]).deep_view() == read@[i]@
            &&& read@[i].id@ == rows@[i].id@
            &&& read@[i].profile_handle@ == rows@[i].profile_handle@
            &&& read@[i].role@ == rows@[i].role@
            &&& read@[i].organization@ == rows@[i].organization@
            &&& read@[i].years_bits == rows@[i].years_bits
            &&& read@[i].summary@ == rows@[i].summary@
            &&& json_list(rows@[i].achievements@) matches Ok(items) && read@[i].achievements.deep_view()
                == items
            &&& json_list(rows@[i].skills@) matches Ok(items) && read@[i].skills.deep_view()
                == items
        } by {
            assert(read.deep_view()[i] == read@[i]@);
            assert(view[i] == rows@[i]@);
        }
    }
    Ok(read)
}

/// A row of the projects table: `technologies` is a JSON text.
pub struct ProjectRow {
    pub id: String,
    pub profile_handle: String,
    pub name: String,
    pub impact: u8,
    pub description: String,
    pub technologies: String,
}

/// What a [`ProjectRow`] holds.
#[verifier::ext_equal]
pub struct ProjectRowView {
    pub id: Seq<char>,
    pub profile_handle: Seq<char>,
    pub name: Seq<char>,
    pub impact: u8,
    pub description: Seq<char>,
    pub technologies: Seq<char>,
}

impl View for ProjectRow {
    type V = ProjectRowView;

    open spec fn view(&self) -> ProjectRowView {
        ProjectRowView {
            id: self.id@,
            profile_handle: self.profile_handle@,
            name: self.name@,
            impact: self.impact,
            description: self.description@,
            technologies: self.technologies@,
        }
    }
}

impl DeepView for ProjectRow {
    type V = ProjectRowView;

    open spec fn deep_view(&self) -> ProjectRowView {
        self@
    }
}

/// The record of a row, once its lists have been read; the error of the first that
/// could not be, in the order of the columns.
pub open spec fn project_with(
    row: ProjectRowView,
    technologies: Result<Seq<Seq<char>>, Seq<char>>,
) -> Result<ProjectView, StoreErrorView> {
    match technologies {
        Ok(technologies) => Ok(
            ProjectView {
                id: row.id,
                profile_handle: row.profile_handle,
                name: row.name,
                impact: row.impact,
                description: row.description,
                technologies,
            },
        ),
        Err(message) => Err(column_error("\"technologies\""@, message)),
    }
}

/// The record that a row is read as.
pub open spec fn decoded_project(row: ProjectRowView) -> Result<ProjectView, StoreErrorView> {
    project_with(row, json_list(row.technologies))
}

/// The records that rows are read as, in order; the error of the first row that
/// cannot be read.
pub open spec fn decoded_projects(rows: Seq<ProjectRowView>) -> Result<
    Seq<ProjectView>,
    StoreErrorView,
>
    decreases rows.len(),
{
    if rows.len() == 0 {
        Ok(Seq::empty())
    } else {
        match decoded_projects(rows.drop_last()) {
            Ok(earlier) => match decoded_project(rows.last()) {
                Ok(project) => Ok(earlier.push(project)),
                Err(error) => Err(error),
            },
            Err(error) => Err(error),
        }
    }
}

/// What a record, or the error in its place, holds.
pub open spec fn project_result(result: Result<Project, StoreError>) -> Result<
    ProjectView,
    StoreErrorView,
> {
    match result {
        Ok(project) => Ok(project@),
        Err(error) => Err(error@),
    }
}

/// What a list of records, or the error in its place, holds.
pub open spec fn projects_result(result: Result<Vec<Project>, StoreError>) -> Result<
    Seq<ProjectView>,
    StoreErrorView,
> {
    match result {
        Ok(projects) => Ok(projects.deep_view()),
        Err(error) => Err(error@),
    }
}

/// The record of a row, once its lists have been read.
pub fn project_from(
    row: &ProjectRow,
    technologies: Result<Vec<String>, String>,
) -> (result: Result<Project, StoreError>)
    ensures
        project_result(result) == project_with(
            row@,
            list_result(technologies),
        ),
        match result {
            Ok(project) => {
                &&& project.id@ == row.id@
                &&& project.profile_handle@ == row.profile_handle@
                &&& project.name@ == row.name@
                &&& project.impact == row.impact
                &&& project.description@ == row.description@
                &&& technologies matches Ok(items) && project.technologies == items
            },
            Err(error) => {
                &&& list_result(technologies) matches Err(message) && error@ == (StoreErrorView::ColumnDecode {
                    index: "\"technologies\""@,
                    source: message,
                })
            },
        },
{
    match technologies {
        Ok(technologies) => Ok(
            Project {
                id: row.id.clone(),
                profile_handle: row.profile_handle.clone(),
                name: row.name.clone(),
                impact: row.impact,
                description: row.description.clone(),
                technologies,
            },
        ),
        Err(message) => Err(unreadable("\"technologies\"", message)),
    }
}

/// Reads the record of a row.
pub fn decode_project(row: &ProjectRow) -> (result: Result<Project, StoreError>)
    ensures
        project_result(result) == decoded_project(row@),
        match result {
            Ok(project) => {
                &&& project.id@ == row.id@
                &&& project.profile_handle@ == row.profile_handle@
                &&& project.name@ == row.name@
                &&& project.impact == row.impact
                &&& project.description@ == row.description@
                &&& json_list(row.technologies@) matches Ok(items) && project.technologies.deep_view() == items
            },
            Err(error) => {
                &&& json_list(row.technologies@) matches Err(message) && error@ == (StoreErrorView::ColumnDecode {
                    index: "\"technologies\""@,
                    source: message,
                })
            },
        },
{
    let technologies = decode_list(row.technologies.as_str());
    project_from(row, technologies)
}

proof fn lemma_project_error_stays(rows: Seq<ProjectRowView>, i: int)
    requires
        0 <= i <= rows.len(),
        decoded_projects(rows.take(i)) is Err,
    ensures
        decoded_projects(rows) == decoded_projects(rows.take(i)),
    decreases rows.len(),
{
    if i == rows.len() {
        assert(rows.take(i) =~= rows);
    } else {
        assert(rows.drop_last().take(i) =~= rows.take(i));
        lemma_project_error_stays(rows.drop_last(), i);
    }
}

/// Whether a row is the first that cannot be read, and an error says which of its
/// columns, and why.
pub open spec fn unreadable_project_at(
    rows: Seq<ProjectRowView>,
    i: int,
    error: StoreErrorView,
) -> bool {
    &&& 0 <= i < rows.len()
    &&& forall|j: int| 0 <= j < i ==> json_list((#[trigger] rows[j]).technologies) is Ok
    &&& json_list(rows[i].technologies) matches Err(message) && error == (StoreErrorView::ColumnDecode {
        index: "\"technologies\""@,
        source: message,
    })
}

/// Rows are read one by one and in order: as many records as rows, each with the
/// columns of its row, its lists being what their JSON texts stand for. Where that
/// cannot be, the error is that of the first column of the first row that is no list.
pub proof fn projects_are_read_row_by_row(rows: Seq<ProjectRowView>)
    ensures
        match decoded_projects(rows) {
            Ok(projects) => {
                &&& projects.len() == rows.len()
                &&& forall|i: int|
                    0 <= i < rows.len() ==> {
                        &&& (#[trigger] projects[i]).id == rows[i].id
                        &&& projects[i].id == rows[i].id
                        &&& projects[i].profile_handle == rows[i].profile_handle
                        &&& projects[i].name == rows[i].name
                        &&& projects[i].impact == rows[i].impact
                        &&& projects[i].description == rows[i].description
                        &&& json_list(rows[i].technologies) matches Ok(items) && projects[i].technologies == items
                    }
            },
            Err(error) => exists|i: int| unreadable_project_at(rows, i, error),
        },
        forall|i: int, error: StoreErrorView|
            #[trigger] unreadable_project_at(rows, i, error) ==> decoded_projects(rows) is Err,
    decreases rows.len(),
{
    if rows.len() > 0 {
        let earlier = rows.drop_last();
        projects_are_read_row_by_row(earlier);
        match decoded_projects(earlier) {
            Ok(projects) => {
                match decoded_project(rows.last()) {
                    Ok(project) => {
                        let all = projects.push(project);
                        assert forall|i: int| 0 <= i < rows.len() implies {
                            &&& (#[trigger] all[i]).id == rows[i].id
                            &&& all[i].id == rows[i].id
                            &&& all[i].profile_handle == rows[i].profile_handle
                            &&& all[i].name == rows[i].name
                            &&& all[i].impact == rows[i].impact
                            &&& all[i].description == rows[i].description
                            &&& json_list(rows[i].technologies) matches Ok(items) && all[i].technologies == items
                        } by {
                            if i < earlier.len() {
                                assert(all[i] == projects[i]);
                                assert(rows[i] == earlier[i]);
                            }
                        }
                    },
                    Err(error) => {
                        assert forall|j: int| 0 <= j < rows.len() - 1 implies json_list((#[trigger] rows[j]).technologies) is Ok by {
                            assert(projects[j].id == earlier[j].id);
                            assert(earlier[j] == rows[j]);
                        }
                        assert(unreadable_project_at(rows, rows.len() - 1, error));
                    },
                }
            },
            Err(error) => {
                let at = choose|i: int| unreadable_project_at(earlier, i, error);
                assert forall|j: int| 0 <= j < at implies json_list((#[trigger] rows[j]).technologies) is Ok by {
                    assert(earlier[j] == rows[j]);
                }
                assert(rows[at] == earlier[at]);
                assert(unreadable_project_at(rows, at, error));
            },
        }
    }
    assert forall|i: int, error: StoreErrorView| #[trigger]
        unreadable_project_at(rows, i, error) implies decoded_projects(rows) is Err by {
        if decoded_projects(rows) is Ok {
            let read = decoded_projects(rows)->Ok_0;
            assert(read[i].id == rows[i].id);
        }
    }
}

/// Reads the records of rows, in order; gives the error of the first row that cannot
/// be read.
pub fn decode_projects(rows: &Vec<ProjectRow>) -> (result: Result<Vec<Project>, StoreError>)
    ensures
        projects_result(result) == decoded_projects(rows.deep_view()),
        match result {
            Ok(projects) => {
                &&& projects@.len() == rows@.len()
                &&& forall|i: int|
                    0 <= i < rows@.len() ==> {
                        &&& (#[trigger] projects@[i]).deep_view() == projects@[i]@
                        &&& projects@[i].id@ == rows@[i].id@
                        &&& projects@[i].profile_handle@ == rows@[i].profile_handle@
                        &&& projects@[i].name@ == rows@[i].name@
                        &&& projects@[i].impact == rows@[i].impact
                        &&& projects@[i].description@ == rows@[i].description@
                        &&& json_list(rows@[i].technologies@) matches Ok(items) && projects@[i].technologies.deep_view()
                            == items
                    }
            },
            Err(error) => exists|i: int|
                {
                    &&& 0 <= i < rows@.len()
                    &&& (#[trigger] rows@[i]).deep_view() == rows@[i]@
                    &&& json_list(rows@[i].technologies@) matches Err(message) && error@ == (StoreErrorView::ColumnDecode {
                        index: "\"technologies\""@,
                        source: message,
                    })
                    &&& forall|j: int|
                        0 <= j < i ==> ((#[trigger] rows@[j]).deep_view() == rows@[j]@
                            && json_list(rows@[j].technologies@) is Ok)
                },
        },
{
    let ghost view = rows.deep_view();
    let mut read: Vec<Project> = Vec::new();
    let mut i: usize = 0;
    assert(view.take(0) =~= Seq::empty());
    assert(read.deep_view() =~= Seq::empty());
    while i < rows.len()
        invariant
            i <= rows.len(),
            view == rows.deep_view(),
            decoded_projects(view.take(i as int)) == Ok::<Seq<ProjectView>, StoreErrorView>(
                read.deep_view(),
            ),
        decreases rows.len() - i,
    {
        let ghost earlier = read.deep_view();
        assert(view.take(i + 1).drop_last() =~= view.take(i as int));
        match decode_project(&rows[i]) {
            Ok(project) => {
                read.push(project);
                assert(read.deep_view() =~= earlier.push(project@));
            },
            Err(error) => {
                proof {
                    lemma_project_error_stays(view, i + 1);
                    projects_are_read_row_by_row(view);
                    let at = choose|k: int| unreadable_project_at(view, k, error@);
                    assert(rows@[at].deep_view() == view[at]);
                    assert forall|j: int| 0 <= j < at implies ((#[trigger] rows@[j]).deep_view()
                        == rows@[j]@ && json_list(rows@[j].technologies@) is Ok) by {
                        assert(view[j] == rows@[j]@);
                    }
                }
                return Err(error);
            },
        }
        i += 1;
    }
    assert(view.take(view.len() as int) =~= view);
    proof {
        projects_are_read_row_by_row(view);
        assert forall|i: int| 0 <= i < rows@.len() implies {
            &&& (#[trigger] read@[i]).deep_view() == read@[i]@
            &&& read@[i].id@ == rows@[i].id@
            &&& read@[i].profile_handle@ == rows@[i].profile_handle@
            &&& read@[i].name@ == rows@[i].name@
            &&& read@[i].impact == rows@[i].impact
            &&& read@[i].description@ == rows@[i].description@
            &&& json_list(rows@[i].technologies@) matches Ok(items) && read@[i].technologies.deep_view()
                == items
        } by {
            assert(read.deep_view()[i] == read@[i]@);
            assert(view[i] == rows@[i]@);
        }
    }
    Ok(read)
}

/// The view of a [`SkillRow`] holds what its columns hold, each under its own name.
pub proof fn skill_row_view_is_faithful(row: SkillRow)
    ensures
        row@.id == row.id@,
        row@.profile_handle == row.profile_handle@,
        row@.name == row.name@,
        row@.category == row.category@,
        row@.score == row.score,
        row@.links == row.links@,
        row.deep_view() == row@,
{
}

/// The view of an [`ExperienceRow`] holds what its columns hold, each under its own name.
pub proof fn experience_row_view_is_faithful(row: ExperienceRow)
    ensures
        row@.id == row.id@,
        row@.profile_handle == row.profile_handle@,
        row@.role == row.role@,
        row@.organization == row.organization@,
        row@.years_bits == row.years_bits,
        row@.summary == row.summary@,
        row@.achievements == row.achievements@,
        row@.skills == row.skills@,
        row.deep_view() == row@,
{
}

/// The view of a [`ProjectRow`] holds what its columns hold, each under its own name.
pub proof fn project_row_view_is_faithful(row: ProjectRow)
    ensures
        row@.id == row.id@,
        row@.profile_handle == row.profile_handle@,
        row@.name == row.name@,
        row@.impact == row.impact,
        row@.description == row.description@,
        row@.technologies == row.technologies@,
        row.deep_view() == row@,
{
}

} // verus!
