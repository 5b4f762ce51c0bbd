//! The data that the registry starts with: one profile with its skills,
//! experiences, projects and figures.
use vstd::prelude::*;

use crate::dashboard::{SeedData, SeedDataView};
use crate::picture::SEED_PICTURE;
use crate::records::{
    Analytics, AnalyticsView, Experience, ExperienceView, Profile, ProfileView, Project,
    ProjectView, Skill, SkillView, User, UserView,
};
use crate::text::{own_texts, texts};

verus! {

/// The handle of the profile.
pub const SEED_HANDLE: &'static str = "N3_operative_001";

/// The first headline.
pub const SEED_HEADLINE: &'static str =
    "ARES MAINFRAME // euz2qbcxiuh3lxgrdu4iwjkik435hlfo7idaymynd7ftbqrx434y5oid.onion";

/// The sum of the scores of skills.
pub open spec fn score_sum(skills: Seq<SkillView>) -> nat
    decreases skills.len(),
{
    if skills.len() == 0 {
        0
    } else {
        score_sum(skills.drop_last()) + skills.last().score as nat
    }
}

/// How many skills there are, counted with 32 bits.
pub open spec fn skill_count(skills: Seq<SkillView>) -> nat {
    skills.len() % 0x1_0000_0000
}

/// The average score of skills, rounded down.
pub open spec fn average_score(skills: Seq<SkillView>) -> nat {
    score_sum(skills) / skill_count(skills)
}

/// Whether skills have an average score: there are some, and their sum fits.
pub open spec fn has_average(skills: Seq<SkillView>) -> bool {
    skill_count(skills) > 0 && score_sum(skills) <= u32::MAX
}

proof fn lemma_sum_of_fewer(skills: Seq<SkillView>, i: int)
    requires
        0 <= i <= skills.len(),
    ensures
        score_sum(skills.take(i)) <= score_sum(skills),
    decreases skills.len(),
{
    if i == skills.len() {
        assert(skills.take(i) =~= skills);
    } else {
        lemma_sum_of_fewer(skills.drop_last(), i);
        assert(skills.drop_last().take(i) =~= skills.take(i));
    }
}

/// The average score of skills, rounded down.
pub fn technical_depth(group: &Vec<Skill>) -> (average: u32)
    requires
        has_average(group.deep_view()),
    ensures
        average == average_score(group.deep_view()),
        group@.len() <= u32::MAX ==> average * group@.len() <= score_sum(group.deep_view()) < (average
            + 1) * group@.len(),
{
    let ghost view = group.deep_view();
    let mut sum: u32 = 0;
    let mut i: usize = 0;
    assert(view.take(0) =~= Seq::empty());
    while i < group.len()
        invariant
            i <= group.len(),
            view == group.deep_view(),
            score_sum(view) <= u32::MAX,
            sum == score_sum(view.take(i as int)),
        decreases group.len() - i,
    {
        proof {
            lemma_sum_of_fewer(view, i + 1);
            assert(view.take(i + 1).drop_last() =~= view.take(i as int));
        }
        sum = sum + group[i].score as u32;
        i += 1;
    }
    assert(view.take(view.len() as int) =~= view);
    let len: u64 = group.len() as u64;
    let count: u32 = #[verifier::truncate]
    (len as u32);
    assert(count == len % 0x1_0000_0000u64) by (bit_vector)
        requires
            count == len as u32,
    ;
    proof {
        if group@.len() <= u32::MAX {
            average_is_rounded_down(view);
        }
    }
    sum / count
}

/// The figures of a group of skills: their average score, and fixed figures.
pub open spec fn group_analytics(group: Seq<SkillView>) -> AnalyticsView {
    AnalyticsView {
        id: SEED_HANDLE@,
        leadership: 91,
        technical_depth: average_score(group) as u32,
        automation_index: 96,
        transferability: 95,
        innovation: 89,
        neural_load: 99,
    }
}

/// The figures of groups of skills, in order.
pub fn analytics_matrix(groups: &Vec<Vec<Skill>>) -> (matrix: Vec<Analytics>)
    requires
        forall|i: int|
            0 <= i < groups.deep_view().len() ==> has_average(#[trigger] groups.deep_view()[i]),
    ensures
        matrix.deep_view() == groups.deep_view().map_values(
            |group: Seq<SkillView>| group_analytics(group),
        ),
        matrix@.len() == groups@.len(),
        forall|i: int|
            0 <= i < groups@.len() ==> {
                &&& (#[trigger] matrix@[i]).id@ == "N3_operative_001"@
                &&& matrix@[i].leadership == 91
                &&& matrix@[i].technical_depth == average_score(groups@[i].deep_view())
                &&& matrix@[i].automation_index == 96
                &&& matrix@[i].transferability == 95
                &&& matrix@[i].innovation == 89
                &&& matrix@[i].neural_load == 99
            },
{
    let mut matrix: Vec<Analytics> = Vec::new();
    let mut i: usize = 0;
    while i < groups.len()
        invariant
            i <= groups.len(),
            matrix@.len() == i,
            forall|j: int|
                0 <= j < groups.deep_view().len() ==> has_average(#[trigger] groups.deep_view()[j]),
            forall|j: int|
                0 <= j < i ==> (#[trigger] matrix@[j])@ == group_analytics(groups@[j].deep_view()),
            forall|j: int|
                0 <= j < i ==> (#[trigger] matrix@[j]).technical_depth == average_score(
                    groups@[j].deep_view(),
                ),
        decreases groups.len() - i,
    {
        assert(has_average(groups.deep_view()[i as int]));
        matrix.push(
            Analytics {
                id: SEED_HANDLE.to_string(),
                leadership: 91,
                technical_depth: technical_depth(&groups[i]),
                automation_index: 96,
                transferability: 95,
                innovation: 89,
                neural_load: 99,
            },
        );
        i += 1;
    }
    assert(matrix.deep_view() =~= groups.deep_view().map_values(
        |group: Seq<SkillView>| group_analytics(group),
    ));
    matrix
}

/// A skill of the profile.
pub open spec fn skill_of(
    id: Seq<char>,
    name: Seq<char>,
    category: Seq<char>,
    score: u8,
    links: Seq<Seq<char>>,
) -> SkillView {
    SkillView { id, profile_handle: SEED_HANDLE@, name, category, score, links }
}

fn skill(id: &str, name: &str, category: &str, score: u8, links: &[&str]) -> (skill: Skill)
    ensures
        skill@ == skill_of(id@, name@, category@, score, texts(links@)),
{
    Skill {
        id: id.to_string(),
        profile_handle: SEED_HANDLE.to_string(),
        name: name.to_string(),
        category: category.to_string(),
        score,
        links: own_texts(links),
    }
}

/// An experience of the profile.
pub open spec fn experience_of(
    id: Seq<char>,
    role: Seq<char>,
    organization: Seq<char>,
    years_bits: u32,
    summary: Seq<char>,
    achievements: Seq<Seq<char>>,
    skills: Seq<Seq<char>>,
) -> ExperienceView {
    ExperienceView {
        id,
        profile_handle: SEED_HANDLE@,
        role,
        organization,
        years_bits,
        summary,
        achievements,
        skills,
    }
}

fn experience(
    id: &str,
    role: &str,
    organization: &str,
    years_bits: u32,
    summary: &str,
    achievements: &[&str],
    skills: &[&str],
) -> (experience: Experience)
    ensures
        experience@ == experience_of(
            id@,
            role@,
            organization@,
            years_bits,
            summary@,
            texts(achievements@),
            texts(skills@),
        ),
{
    Experience {
        id: id.to_string(),
        profile_handle: SEED_HANDLE.to_string(),
        role: role.to_string(),
        organization: organization.to_string(),
        years_bits,
        summary: summary.to_string(),
        achievements: own_texts(achievements),
        skills: own_texts(skills),
    }
}

/// A project of the profile.
pub open spec fn project_of(
    id: Seq<char>,
    name: Seq<char>,
    impact: u8,
    description: Seq<char>,
    technologies: Seq<Seq<char>>,
) -> ProjectView {
    ProjectView { id, profile_handle: SEED_HANDLE@, name, impact, description, technologies }
}

fn project(id: &str, name: &str, impact: u8, description: &str, technologies: &[&str]) -> (project:
    Project)
    ensures
        project@ == project_of(id@, name@, impact, description@, texts(technologies@)),
{
    Project {
        id: id.to_string(),
        profile_handle: SEED_HANDLE.to_string(),
        name: name.to_string(),
        impact,
        description: description.to_string(),
        technologies: own_texts(technologies),
    }
}

/// The skills of the profile.
pub open spec fn seed_skills() -> Seq<SkillView> {
    seq![
        skill_of("1"@, "rust"@, "Kernel"@, 98, seq!["linux"@, "zero_dep_arch"@, "ice_break"@]),
        skill_of("2"@, "axum"@, "Interface"@, 97, seq!["rust"@, "snort_ids"@]),
        skill_of("3"@, "zero_dep_arch"@, "Architecture"@, 95, seq!["rust"@, "axum"@]),
        skill_of("4"@, "linux"@, "Infra"@, 94, seq!["rust"@, "snort_ids"@]),
        skill_of("5"@, "snort_ids"@, "SecOps"@, 95, seq!["linux"@, "axum"@, "rf_slicing"@]),
        skill_of(
            "6"@,
            "ice_break"@,
            "Offense"@,
            99,
            seq!["rust"@, "synaptic_sync"@, "comint_fracture"@],
        ),
        skill_of("7"@, "neuro_link"@, "Hardware"@, 88, seq!["rust"@, "fpga"@, "synaptic_sync"@]),
        skill_of("8"@, "synaptic_sync"@, "Neural"@, 91, seq!["neuro_link"@, "tactical_sync"@]),
        skill_of("9"@, "fpga"@, "Hardware"@, 92, seq!["neuro_link"@, "rf_slicing"@]),
        skill_of("10"@, "iridium"@, "Propulsion"@, 93, seq!["plasma_dynamics"@, "nivelir"@]),
        skill_of("11"@, "plasma_dynamics"@, "Propulsion"@, 94, seq!["iridium"@, "kinetic_routing"@, "elint_ghosting"@]),
        skill_of("12"@, "nivelir"@, "Orbital"@, 96, seq!["ice_break"@, "plasma_dynamics"@, "fisint_override"@]),
        skill_of("13"@, "swarm_logic"@, "Tactical"@, 96, seq!["rust"@, "nivelir"@]),
        skill_of("14"@, "tactical_sync"@, "Tactical"@, 90, seq!["synaptic_sync"@, "swarm_logic"@]),
        skill_of("15"@, "kinetic_routing"@, "Warfare"@, 92, seq!["nivelir"@, "plasma_dynamics"@]),
        skill_of("16"@, "sigint_ew"@, "SIGINT"@, 94, seq!["snort_ids"@, "fpga"@, "rf_slicing"@]),
        skill_of("17"@, "comint_fracture"@, "SIGINT"@, 97, seq!["ice_break"@, "sigint_ew"@]),
        skill_of("18"@, "fisint_override"@, "SIGINT"@, 95, seq!["nivelir"@, "iridium"@]),
        skill_of("19"@, "elint_ghosting"@, "SIGINT"@, 91, seq!["plasma_dynamics"@, "sigint_ew"@]),
        skill_of("20"@, "rf_slicing"@, "SIGINT"@, 93, seq!["fpga"@, "snort_ids"@]),
        skill_of("21"@, "neuro_phreaking"@, "SIGINT"@, 89, seq!["synaptic_sync"@, "comint_fracture"@]),
    ]
}

fn skills() -> (skills: Vec<Skill>)
    ensures
        skills.deep_view() == seed_skills(),
{
    let skills = vec![
        skill("1", "rust", "Kernel", 98, &["linux", "zero_dep_arch", "ice_break"]),
        skill("2", "axum", "Interface", 97, &["rust", "snort_ids"]),
        skill("3", "zero_dep_arch", "Architecture", 95, &["rust", "axum"]),
        skill("4", "linux", "Infra", 94, &["rust", "snort_ids"]),
        skill("5", "snort_ids", "SecOps", 95, &["linux", "axum", "rf_slicing"]),
        skill("6", "ice_break", "Offense", 99, &["rust", "synaptic_sync", "comint_fracture"]),
        skill("7", "neuro_link", "Hardware", 88, &["rust", "fpga", "synaptic_sync"]),
        skill("8", "synaptic_sync", "Neural", 91, &["neuro_link", "tactical_sync"]),
        skill("9", "fpga", "Hardware", 92, &["neuro_link", "rf_slicing"]),
        skill("10", "iridium", "Propulsion", 93, &["plasma_dynamics", "nivelir"]),
        skill("11", "plasma_dynamics", "Propulsion", 94, &["iridium", "kinetic_routing", "elint_ghosting"]),
        skill("12", "nivelir", "Orbital", 96, &["ice_break", "plasma_dynamics", "fisint_override"]),
        skill("13", "swarm_logic", "Tactical", 96, &["rust", "nivelir"]),
        skill("14", "tactical_sync", "Tactical", 90, &["synaptic_sync", "swarm_logic"]),
        skill("15", "kinetic_routing", "Warfare", 92, &["nivelir", "plasma_dynamics"]),
        skill("16", "sigint_ew", "SIGINT", 94, &["snort_ids", "fpga", "rf_slicing"]),
        skill("17", "comint_fracture", "SIGINT", 97, &["ice_break", "sigint_ew"]),
        skill("18", "fisint_override", "SIGINT", 95, &["nivelir", "iridium"]),
        skill("19", "elint_ghosting", "SIGINT", 91, &["plasma_dynamics", "sigint_ew"]),
        skill("20", "rf_slicing", "SIGINT", 93, &["fpga", "snort_ids"]),
        skill("21", "neuro_phreaking", "SIGINT", 89, &["synaptic_sync", "comint_fracture"]),
    ];
    assert(skills.deep_view() =~~= seed_skills());
    skills
}

/// The experiences of the profile.
pub open spec fn seed_experiences() -> Seq<ExperienceView> {
    seq![
        experience_of(
            "exp_01"@,
            "LEAD SYNAPTIC ARCHITECT"@,
            "DARPA // ADVANCED NEURO-LABS"@,
            0x40900000,
            "SYSTEM SUSTAINED CRITICAL DAMAGE DURING TESTING. EXPLORED MEMORY AUGMENTATION. DATA PARTIALLY CORRUPTED. [REDACTED]"@,
            seq![
                "Engineered bidirectional neural-to-machine interface using zero-dependency embedded binaries."@,
                "Overrode Nivelir-class satellite telemetry using forged iridium-casted plasma thruster signatures."@,
                "ERROR 0x44F: MEMORY BLOCK CORRUPTED. FALLBACK TO NEURAL HEURISTICS."@,
            ],
            seq!["rust"@, "neuro_link"@, "nivelir"@],
        ),
        experience_of(
            "exp_02"@,
            "AI BIOETHICS COLLABORATOR"@,
            "NIH // THE BRAIN INITIATIVE"@,
            0x404CCCCD,
            "FORMULATED ETHICAL BOUNDARIES FOR COGNITIVE LIBERTY AND ARTIFICIAL NEURAL SYNCHRONIZATION. DESIGNED RISK-MITIGATION FRAMEWORKS TO PREVENT ALGORITHMIC IMPLANT MANIPULATION AND MACHINE-LEARNING SYNAPTIC OVERWRITES."@,
            seq![
                "Deployed hardware-level Snort IDS meshes to detect unauthorized sub-dermal synaptic probes."@,
                "Established baseline containment protocols for emergent rogue swarm logic in closed-network environments."@,
            ],
            seq!["neuro_ethics"@, "snort_ids"@, "axum"@],
        ),
        experience_of(
            "exp_03"@,
            "METALLURGIC SYSTEMS ENGINEER"@,
            "TSN // ORBITAL INFRASTRUCTURE"@,
            0x40066666,
            "SUPERVISED PLATINUM-GROUP METAL YIELDS FOR DEEP-SPACE PROPULSION ARRAYS. SPECIALIZED IN HIGH-YIELD IRIDIUM CONCENTRATION PROTOCOLS."@,
            seq![
                "Optimized high-stress orbital flight thrusters using custom iridium-casted molds."@,
                "Mapped raw material supply lines through heavily monitored corporate exclusion zones."@,
            ],
            seq!["iridium"@, "linux"@],
        ),
    ]
}

fn experiences() -> (experiences: Vec<Experience>)
    ensures
        experiences.deep_view() == seed_experiences(),
{
    let experiences = vec![
        experience(
            "exp_01",
            "LEAD SYNAPTIC ARCHITECT",
            "DARPA // ADVANCED NEURO-LABS",
            0x40900000,
            "SYSTEM SUSTAINED CRITICAL DAMAGE DURING TESTING. EXPLORED MEMORY AUGMENTATION. DATA PARTIALLY CORRUPTED. [REDACTED]",
            &[
                "Engineered bidirectional neural-to-machine interface using zero-dependency embedded binaries.",
                "Overrode Nivelir-class satellite telemetry using forged iridium-casted plasma thruster signatures.",
                "ERROR 0x44F: MEMORY BLOCK CORRUPTED. FALLBACK TO NEURAL HEURISTICS.",
            ],
            &["rust", "neuro_link", "nivelir"],
        ),
        experience(
            "exp_02",
            "AI BIOETHICS COLLABORATOR",
            "NIH // THE BRAIN INITIATIVE",
            0x404CCCCD,
            "FORMULATED ETHICAL BOUNDARIES FOR COGNITIVE LIBERTY AND ARTIFICIAL NEURAL SYNCHRONIZATION. DESIGNED RISK-MITIGATION FRAMEWORKS TO PREVENT ALGORITHMIC IMPLANT MANIPULATION AND MACHINE-LEARNING SYNAPTIC OVERWRITES.",
            &[
                "Deployed hardware-level Snort IDS meshes to detect unauthorized sub-dermal synaptic probes.",
                "Established baseline containment protocols for emergent rogue swarm logic in closed-network environments.",
            ],
            &["neuro_ethics", "snort_ids", "axum"],
        ),
        experience(
            "exp_03",
            "METALLURGIC SYSTEMS ENGINEER",
            "TSN // ORBITAL INFRASTRUCTURE",
            0x40066666,
            "SUPERVISED PLATINUM-GROUP METAL YIELDS FOR DEEP-SPACE PROPULSION ARRAYS. SPECIALIZED IN HIGH-YIELD IRIDIUM CONCENTRATION PROTOCOLS.",
            &[
                "Optimized high-stress orbital flight thrusters using custom iridium-casted molds.",
                "Mapped raw material supply lines through heavily monitored corporate exclusion zones.",
            ],
            &["iridium", "linux"],
        ),
    ];
    assert(experiences.deep_view() =~~= seed_experiences());
    experiences
}

/// The projects of the profile.
pub open spec fn seed_projects() -> Seq<ProjectView> {
    seq![
        project_of(
            "p1"@,
            "PROJECT AEGIS"@,
            99,
            "DEFENSIVE NEURAL MESH. ENCRYPTS B2B SIGNALS AGAINST INTRUSION."@,
            seq!["RUST"@, "FPGA"@, "CRYPTO"@],
        ),
        project_of(
            "p2"@,
            "ORBITAL_EYE"@,
            97,
            "CLANDESTINE NIVELIR SATELLITE INSPECTION DAEMON. [CLASSIFIED]"@,
            seq!["ORBITAL-MECH"@, "KERNEL"@, "IRIDIUM-THRUST"@],
        ),
        project_of(
            "p3"@,
            "MNEMOSYNE_VAULT"@,
            88,
            "DEEP-STORAGE COGNITIVE BACKUP. NON-VOLATILE SYNTHETIC MEMORY."@,
            seq!["PERSISTENCE"@, "ENCRYPTION"@],
        ),
        project_of(
            "p4"@,
            "SYS_BLEED_DASH"@,
            94,
            "AGGRESSIVE IDS ALERT UI. FILTERS LOCAL PACKET ANOMALIES TO SQLITE."@,
            seq!["AXUM"@, "ASKAMA"@, "SNORT"@],
        ),
    ]
}

fn projects() -> (projects: Vec<Project>)
    ensures
        projects.deep_view() == seed_projects(),
{
    let projects = vec![
        project(
            "p1",
            "PROJECT AEGIS",
            99,
            "DEFENSIVE NEURAL MESH. ENCRYPTS B2B SIGNALS AGAINST INTRUSION.",
            &["RUST", "FPGA", "CRYPTO"],
        ),
        project(
            "p2",
            "ORBITAL_EYE",
            97,
            "CLANDESTINE NIVELIR SATELLITE INSPECTION DAEMON. [CLASSIFIED]",
            &["ORBITAL-MECH", "KERNEL", "IRIDIUM-THRUST"],
        ),
        project(
            "p3",
            "MNEMOSYNE_VAULT",
            88,
            "DEEP-STORAGE COGNITIVE BACKUP. NON-VOLATILE SYNTHETIC MEMORY.",
            &["PERSISTENCE", "ENCRYPTION"],
        ),
        project(
            "p4",
            "SYS_BLEED_DASH",
            94,
            "AGGRESSIVE IDS ALERT UI. FILTERS LOCAL PACKET ANOMALIES TO SQLITE.",
            &["AXUM", "ASKAMA", "SNORT"],
        ),
    ];
    assert(projects.deep_view() =~~= seed_projects());
    projects
}

/// The profile.
pub open spec fn seed_profile() -> ProfileView {
    ProfileView {
        picture: SEED_PICTURE@,
        handle: SEED_HANDLE@,
        name: "Ahmed 'trigger' Mamadou"@,
        title: "DARPA N3 // NEURAL SYSTEMS & PROPULSION ARCHITECT"@,
        location: "CANADA"@,
        summary: "CORE ARCHITECT FOR BIDIRECTIONAL SYNAPTIC SYNCHRONIZATION. SPECIALIST IN NON-INVASIVE NEURAL CRYPTO-DEFENSE, IRIDIUM-CORE PLASMA PROPULSION OVERRIDES, AND MULTI-SWARM COGNITIVE LOAD BALANCING. MEMORY BLOCKS HEAVILY CORRUPTED DURING LAST ICE BREACH. DIAGNOSTIC: SCHISMATIC COGNITIVE FRAGMENTATION. // SYSTEM WARNING: UNAUTHORIZED ACCESS DETECTED."@,
    }
}

/// The password of the profile.
pub open spec fn seed_user() -> UserView {
    UserView { profile_handle: SEED_HANDLE@, password: "admin"@ }
}

/// The data that the registry starts with.
pub open spec fn seed() -> SeedDataView {
    SeedDataView {
        handle: SEED_HANDLE@,
        current_headline: SEED_HEADLINE@,
        users: seq![seed_user()],
        profiles: seq![seed_profile()],
        skills: seq![seed_skills()],
        experiences: seq![seed_experiences()],
        projects: seq![seed_projects()],
        analytics_matrix: seq![group_analytics(seed_skills())],
    }
}

proof fn lemma_seed_average()
    ensures
        score_sum(seed_skills()) == 1969,
        has_average(seed_skills()),
        average_score(seed_skills()) == 93,
{
    reveal_with_fuel(score_sum, 22);
    let sum = score_sum(seed_skills());
    let count = skill_count(seed_skills());
    assert(sum == 1969);
    assert(count == 21);
    assert(sum / count == 93) by (nonlinear_arith)
        requires
            sum == 1969,
            count == 21,
    ;
}

/// Gives the data that the registry starts with.
pub fn seed_data() -> (data: SeedData)
    ensures
        data@ == seed(),
        data@.analytics_matrix[0].technical_depth == 93,
{
    proof {
        lemma_seed_average();
    }
    let users = vec![
        User { profile_handle: SEED_HANDLE.to_string(), password: "admin".to_string() },
    ];
    assert(users.deep_view() =~~= seq![seed_user()]);
    let profiles = vec![
        Profile {
            picture: SEED_PICTURE.to_string(),
            handle: SEED_HANDLE.to_string(),
            name: "Ahmed 'trigger' Mamadou".to_string(),
            title: "DARPA N3 // NEURAL SYSTEMS & PROPULSION ARCHITECT".to_string(),
            location: "CANADA".to_string(),
            summary: "CORE ARCHITECT FOR BIDIRECTIONAL SYNAPTIC SYNCHRONIZATION. SPECIALIST IN NON-INVASIVE NEURAL CRYPTO-DEFENSE, IRIDIUM-CORE PLASMA PROPULSION OVERRIDES, AND MULTI-SWARM COGNITIVE LOAD BALANCING. MEMORY BLOCKS HEAVILY CORRUPTED DURING LAST ICE BREACH. DIAGNOSTIC: SCHISMATIC COGNITIVE FRAGMENTATION. // SYSTEM WARNING: UNAUTHORIZED ACCESS DETECTED.".to_string(),
        },
    ];
    assert(profiles.deep_view() =~~= seq![seed_profile()]);
    let skills = vec![skills()];
    assert(skills.deep_view() =~= seq![seed_skills()]);
    let experiences = vec![experiences()];
    assert(experiences.deep_view() =~= seq![seed_experiences()]);
    let projects = vec![projects()];
    assert(projects.deep_view() =~= seq![seed_projects()]);
    let analytics_matrix = analytics_matrix(&skills);
    assert(analytics_matrix.deep_view() =~= seq![group_analytics(seed_skills())]);
    SeedData {
        handle: SEED_HANDLE.to_string(),
        current_headline: SEED_HEADLINE.to_string(),
        users,
        profiles,
        skills,
        experiences,
        projects,
        analytics_matrix,
    }
}

/// The average score lies between the lowest and the highest score.
pub proof fn average_is_between(skills: Seq<SkillView>, lowest: u8, highest: u8)
    requires
        0 < skills.len() <= u32::MAX,
        forall|i: int|
            0 <= i < skills.len() ==> lowest <= (#[trigger] skills[i]).score <= highest,
    ensures
        lowest <= average_score(skills) <= highest,
{
    lemma_sum_is_between(skills, lowest, highest);
    let sum = score_sum(skills);
    let count = skills.len();
    assert(skill_count(skills) == count);
    assert(lowest as nat <= sum / count <= highest as nat) by (nonlinear_arith)
        requires
            count > 0,
            lowest * count <= sum <= highest * count,
    ;
}

proof fn lemma_sum_is_between(skills: Seq<SkillView>, lowest: u8, highest: u8)
    requires
        forall|i: int|
            0 <= i < skills.len() ==> lowest <= (#[trigger] skills[i]).score <= highest,
    ensures
        lowest * skills.len() <= score_sum(skills) <= highest * skills.len(),
    decreases skills.len(),
{
    if skills.len() > 0 {
        let fewer = skills.drop_last();
        lemma_sum_is_between(fewer, lowest, highest);
        assert(skills.last() == skills[skills.len() - 1]);
        let n = fewer.len() as int;
        assert(lowest * (n + 1) == lowest * n + lowest) by (nonlinear_arith);
        assert(highest * (n + 1) == highest * n + highest) by (nonlinear_arith);
    }
}

/// The average score is the sum of the scores, shared out among the skills and rounded
/// down.
pub proof fn average_is_rounded_down(skills: Seq<SkillView>)
    requires
        0 < skills.len() <= u32::MAX,
    ensures
        average_score(skills) * skills.len() <= score_sum(skills) < (average_score(skills) + 1)
            * skills.len(),
{
    let (sum, count) = (score_sum(skills), skills.len());
    assert(skill_count(skills) == count);
    assert((sum / count) * count <= sum < (sum / count + 1) * count) by (nonlinear_arith)
        requires
            count > 0,
    ;
}

/// The scores are summed up one by one, each counting once.
pub proof fn scores_are_summed_up(skills: Seq<SkillView>, next: SkillView)
    ensures
        score_sum(Seq::empty()) == 0,
        score_sum(skills.push(next)) == score_sum(skills) + next.score,
        has_average(skills) == (skills.len() % 0x1_0000_0000 > 0 && score_sum(skills) <= u32::MAX),
{
    assert(skills.push(next).drop_last() =~= skills);
}

/// The figures of a group are kept under the handle; all but the average of its scores
/// are fixed.
pub proof fn figures_follow_the_scores(group: Seq<SkillView>, other: Seq<SkillView>)
    requires
        has_average(group),
        has_average(other),
        score_sum(group) == score_sum(other),
        group.len() == other.len(),
    ensures
        group_analytics(group) == group_analytics(other),
        group_analytics(group).id == "N3_operative_001"@,
        group_analytics(group).leadership == 91,
        group_analytics(group).automation_index == 96,
        group_analytics(group).transferability == 95,
        group_analytics(group).innovation == 89,
        group_analytics(group).neural_load == 99,
        group_analytics(group).technical_depth == average_score(group),
{
    let (sum, count) = (score_sum(group), skill_count(group));
    assert(sum / count <= sum) by (nonlinear_arith)
        requires
            count > 0,
    ;
}

/// The skills that the registry starts with, column by column. They are one group, and
/// all belong to the handle.
pub proof fn seed_skills_by_column()
    ensures
        seed().skills.len() == 1,
        seed().skills[0].len() == 21,
        forall|i: int| 0 <= i < 21 ==> (#[trigger] seed().skills[0][i]).profile_handle == seed().handle,
        Seq::new(21, |i: int| seed().skills[0][i].id) == seq![
            "1"@, "2"@, "3"@, "4"@, "5"@, "6"@, "7"@, "8"@, "9"@, "10"@, "11"@, "12"@, "13"@,
            "14"@, "15"@, "16"@, "17"@, "18"@, "19"@, "20"@, "21"@,
        ],
        Seq::new(21, |i: int| seed().skills[0][i].name) == seq![
            "rust"@, "axum"@, "zero_dep_arch"@, "linux"@, "snort_ids"@, "ice_break"@,
            "neuro_link"@, "synaptic_sync"@, "fpga"@, "iridium"@, "plasma_dynamics"@,
            "nivelir"@, "swarm_logic"@, "tactical_sync"@, "kinetic_routing"@, "sigint_ew"@,
            "comint_fracture"@, "fisint_override"@, "elint_ghosting"@, "rf_slicing"@,
            "neuro_phreaking"@,
        ],
        Seq::new(21, |i: int| seed().skills[0][i].category) == seq![
            "Kernel"@, "Interface"@, "Architecture"@, "Infra"@, "SecOps"@, "Offense"@,
            "Hardware"@, "Neural"@, "Hardware"@, "Propulsion"@, "Propulsion"@, "Orbital"@,
            "Tactical"@, "Tactical"@, "Warfare"@, "SIGINT"@, "SIGINT"@, "SIGINT"@, "SIGINT"@,
            "SIGINT"@, "SIGINT"@,
        ],
        Seq::new(21, |i: int| seed().skills[0][i].score) == seq![
            98u8, 97u8, 95u8, 94u8, 95u8, 99u8, 88u8, 91u8, 92u8, 93u8, 94u8, 96u8, 96u8, 90u8,
            92u8, 94u8, 97u8, 95u8, 91u8, 93u8, 89u8,
        ],
        seed().skills[0][0].links == seq![
            "linux"@, "zero_dep_arch"@, "ice_break"@,
        ],
        seed().skills[0][1].links == seq![
            "rust"@, "snort_ids"@,
        ],
        seed().skills[0][2].links == seq![
            "rust"@, "axum"@,
        ],
        seed().skills[0][3].links == seq![
            "rust"@, "snort_ids"@,
        ],
        seed().skills[0][4].links == seq![
            "linux"@, "axum"@, "rf_slicing"@,
        ],
        seed().skills[0][5].links == seq![
            "rust"@, "synaptic_sync"@, "comint_fracture"@,
        ],
        seed().skills[0][6].links == seq![
            "rust"@, "fpga"@, "synaptic_sync"@,
        ],
        seed().skills[0][7].links == seq![
            "neuro_link"@, "tactical_sync"@,
        ],
        seed().skills[0][8].links == seq![
            "neuro_link"@, "rf_slicing"@,
        ],
        seed().skills[0][9].links == seq![
            "plasma_dynamics"@, "nivelir"@,
        ],
        seed().skills[0][10].links == seq![
            "iridium"@, "kinetic_routing"@, "elint_ghosting"@,
        ],
        seed().skills[0][11].links == seq![
            "ice_break"@, "plasma_dynamics"@, "fisint_override"@,
        ],
        seed().skills[0][12].links == seq![
            "rust"@, "nivelir"@,
        ],
        seed().skills[0][13].links == seq![
            "synaptic_sync"@, "swarm_logic"@,
        ],
        seed().skills[0][14].links == seq![
            "nivelir"@, "plasma_dynamics"@,
        ],
        seed().skills[0][15].links == seq![
            "snort_ids"@, "fpga"@, "rf_slicing"@,
        ],
        seed().skills[0][16].links == seq![
            "ice_break"@, "sigint_ew"@,
        ],
        seed().skills[0][17].links == seq![
            "nivelir"@, "iridium"@,
        ],
        seed().skills[0][18].links == seq![
            "plasma_dynamics"@, "sigint_ew"@,
        ],
        seed().skills[0][19].links == seq![
            "fpga"@, "snort_ids"@,
        ],
        seed().skills[0][20].links == seq![
            "synaptic_sync"@, "comint_fracture"@,
        ],
{
    assert(Seq::new(21, |i: int| seed().skills[0][i].id) =~= seq![
        "1"@, "2"@, "3"@, "4"@, "5"@, "6"@, "7"@, "8"@, "9"@, "10"@, "11"@, "12"@, "13"@,
        "14"@, "15"@, "16"@, "17"@, "18"@, "19"@, "20"@, "21"@,
    ]);
    assert(Seq::new(21, |i: int| seed().skills[0][i].name) =~= seq![
        "rust"@, "axum"@, "zero_dep_arch"@, "linux"@, "snort_ids"@, "ice_break"@,
        "neuro_link"@, "synaptic_sync"@, "fpga"@, "iridium"@, "plasma_dynamics"@, "nivelir"@,
        "swarm_logic"@, "tactical_sync"@, "kinetic_routing"@, "sigint_ew"@, "comint_fracture"@,
        "fisint_override"@, "elint_ghosting"@, "rf_slicing"@, "neuro_phreaking"@,
    ]);
    assert(Seq::new(21, |i: int| seed().skills[0][i].category) =~= seq![
        "Kernel"@, "Interface"@, "Architecture"@, "Infra"@, "SecOps"@, "Offense"@, "Hardware"@,
        "Neural"@, "Hardware"@, "Propulsion"@, "Propulsion"@, "Orbital"@, "Tactical"@,
        "Tactical"@, "Warfare"@, "SIGINT"@, "SIGINT"@, "SIGINT"@, "SIGINT"@, "SIGINT"@,
        "SIGINT"@,
    ]);
    assert(Seq::new(21, |i: int| seed().skills[0][i].score) =~= seq![
        98u8, 97u8, 95u8, 94u8, 95u8, 99u8, 88u8, 91u8, 92u8, 93u8, 94u8, 96u8, 96u8, 90u8,
        92u8, 94u8, 97u8, 95u8, 91u8, 93u8, 89u8,
    ]);
}

/// The experiences that the registry starts with, column by column. They are one group, and
/// all belong to the handle.
pub proof fn seed_experiences_by_column()
    ensures
        seed().experiences.len() == 1,
        seed().experiences[0].len() == 3,
        forall|i: int| 0 <= i < 3 ==> (#[trigger] seed().experiences[0][i]).profile_handle == seed().handle,
        Seq::new(3, |i: int| seed().experiences[0][i].id) == seq![
            "exp_01"@, "exp_02"@, "exp_03"@,
        ],
        Seq::new(3, |i: int| seed().experiences[0][i].role) == seq![
            "LEAD SYNAPTIC ARCHITECT"@, "AI BIOETHICS COLLABORATOR"@,
            "METALLURGIC SYSTEMS ENGINEER"@,
        ],
        Seq::new(3, |i: int| seed().experiences[0][i].organization) == seq![
            "DARPA // ADVANCED NEURO-LABS"@, "NIH // THE BRAIN INITIATIVE"@,
            "TSN // ORBITAL INFRASTRUCTURE"@,
        ],
        Seq::new(3, |i: int| seed().experiences[0][i].years_bits) == seq![
            0x40900000u32, 0x404CCCCDu32, 0x40066666u32,
        ],
        Seq::new(3, |i: int| seed().experiences[0][i].summary) == seq![
            "SYSTEM SUSTAINED CRITICAL DAMAGE DURING TESTING. EXPLORED MEMORY AUGMENTATION. DATA PARTIALLY CORRUPTED. [REDACTED]"@,
            "FORMULATED ETHICAL BOUNDARIES FOR COGNITIVE LIBERTY AND ARTIFICIAL NEURAL SYNCHRONIZATION. DESIGNED RISK-MITIGATION FRAMEWORKS TO PREVENT ALGORITHMIC IMPLANT MANIPULATION AND MACHINE-LEARNING SYNAPTIC OVERWRITES."@,
            "SUPERVISED PLATINUM-GROUP METAL YIELDS FOR DEEP-SPACE PROPULSION ARRAYS. SPECIALIZED IN HIGH-YIELD IRIDIUM CONCENTRATION PROTOCOLS."@,
        ],
        seed().experiences[0][0].achievements == seq![
            "Engineered bidirectional neural-to-machine interface using zero-dependency embedded binaries."@,
            "Overrode Nivelir-class satellite telemetry using forged iridium-casted plasma thruster signatures."@,
            "ERROR 0x44F: MEMORY BLOCK CORRUPTED. FALLBACK TO NEURAL HEURISTICS."@,
        ],
        seed().experiences[0][1].achievements == seq![
            "Deployed hardware-level Snort IDS meshes to detect unauthorized sub-dermal synaptic probes."@,
            "Established baseline containment protocols for emergent rogue swarm logic in closed-network environments."@,
        ],
        seed().experiences[0][2].achievements == seq![
            "Optimized high-stress orbital flight thrusters using custom iridium-casted molds."@,
            "Mapped raw material supply lines through heavily monitored corporate exclusion zones."@,
        ],
        seed().experiences[0][0].skills == seq![
            "rust"@, "neuro_link"@, "nivelir"@,
        ],
        seed().experiences[0][1].skills == seq![
            "neuro_ethics"@, "snort_ids"@, "axum"@,
        ],
        seed().experiences[0][2].skills == seq![
            "iridium"@, "linux"@,
        ],
{
    assert(Seq::new(3, |i: int| seed().experiences[0][i].id) =~= seq![
        "exp_01"@, "exp_02"@, "exp_03"@,
    ]);
    assert(Seq::new(3, |i: int| seed().experiences[0][i].role) =~= seq![
        "LEAD SYNAPTIC ARCHITECT"@, "AI BIOETHICS COLLABORATOR"@,
        "METALLURGIC SYSTEMS ENGINEER"@,
    ]);
    assert(Seq::new(3, |i: int| seed().experiences[0][i].organization) =~= seq![
        "DARPA // ADVANCED NEURO-LABS"@, "NIH // THE BRAIN INITIATIVE"@,
        "TSN // ORBITAL INFRASTRUCTURE"@,
    ]);
    assert(Seq::new(3, |i: int| seed().experiences[0][i].years_bits) =~= seq![
        0x40900000u32, 0x404CCCCDu32, 0x40066666u32,
    ]);
    assert(Seq::new(3, |i: int| seed().experiences[0][i].summary) =~= seq![
        "SYSTEM SUSTAINED CRITICAL DAMAGE DURING TESTING. EXPLORED MEMORY AUGMENTATION. DATA PARTIALLY CORRUPTED. [REDACTED]"@,
        "FORMULATED ETHICAL BOUNDARIES FOR COGNITIVE LIBERTY AND ARTIFICIAL NEURAL SYNCHRONIZATION. DESIGNED RISK-MITIGATION FRAMEWORKS TO PREVENT ALGORITHMIC IMPLANT MANIPULATION AND MACHINE-LEARNING SYNAPTIC OVERWRITES."@,
        "SUPERVISED PLATINUM-GROUP METAL YIELDS FOR DEEP-SPACE PROPULSION ARRAYS. SPECIALIZED IN HIGH-YIELD IRIDIUM CONCENTRATION PROTOCOLS."@,
    ]);
}

/// The projects that the registry starts with, column by column. They are one group, and
/// all belong to the handle.
pub proof fn seed_projects_by_column()
    ensures
        seed().projects.len() == 1,
        seed().projects[0].len() == 4,
        forall|i: int| 0 <= i < 4 ==> (#[trigger] seed().projects[0][i]).profile_handle == seed().handle,
        Seq::new(4, |i: int| seed().projects[0][i].id) == seq![
            "p1"@, "p2"@, "p3"@, "p4"@,
        ],
        Seq::new(4, |i: int| seed().projects[0][i].name) == seq![
            "PROJECT AEGIS"@, "ORBITAL_EYE"@, "MNEMOSYNE_VAULT"@, "SYS_BLEED_DASH"@,
        ],
        Seq::new(4, |i: int| seed().projects[0][i].impact) == seq![
            99u8, 97u8, 88u8, 94u8,
        ],
        Seq::new(4, |i: int| seed().projects[0][i].description) == seq![
            "DEFENSIVE NEURAL MESH. ENCRYPTS B2B SIGNALS AGAINST INTRUSION."@,
            "CLANDESTINE NIVELIR SATELLITE INSPECTION DAEMON. [CLASSIFIED]"@,
            "DEEP-STORAGE COGNITIVE BACKUP. NON-VOLATILE SYNTHETIC MEMORY."@,
            "AGGRESSIVE IDS ALERT UI. FILTERS LOCAL PACKET ANOMALIES TO SQLITE."@,
        ],
        seed().projects[0][0].technologies == seq![
            "RUST"@, "FPGA"@, "CRYPTO"@,
        ],
        seed().projects[0][1].technologies == seq![
            "ORBITAL-MECH"@, "KERNEL"@, "IRIDIUM-THRUST"@,
        ],
        seed().projects[0][2].technologies == seq![
            "PERSISTENCE"@, "ENCRYPTION"@,
        ],
        seed().projects[0][3].technologies == seq![
            "AXUM"@, "ASKAMA"@, "SNORT"@,
        ],
{
    assert(Seq::new(4, |i: int| seed().projects[0][i].id) =~= seq![
        "p1"@, "p2"@, "p3"@, "p4"@,
    ]);
    assert(Seq::new(4, |i: int| seed().projects[0][i].name) =~= seq![
        "PROJECT AEGIS"@, "ORBITAL_EYE"@, "MNEMOSYNE_VAULT"@, "SYS_BLEED_DASH"@,
    ]);
    assert(Seq::new(4, |i: int| seed().projects[0][i].impact) =~= seq![
        99u8, 97u8, 88u8, 94u8,
    ]);
    assert(Seq::new(4, |i: int| seed().projects[0][i].description) =~= seq![
        "DEFENSIVE NEURAL MESH. ENCRYPTS B2B SIGNALS AGAINST INTRUSION."@,
        "CLANDESTINE NIVELIR SATELLITE INSPECTION DAEMON. [CLASSIFIED]"@,
        "DEEP-STORAGE COGNITIVE BACKUP. NON-VOLATILE SYNTHETIC MEMORY."@,
        "AGGRESSIVE IDS ALERT UI. FILTERS LOCAL PACKET ANOMALIES TO SQLITE."@,
    ]);
}

/// The profile that the registry starts with, its password and its figures, are kept
/// under one handle, and the figures are those of its skills.
pub proof fn seed_is_one_profile()
    ensures
        seed().handle == "N3_operative_001"@,
        seed().users.len() == 1 && seed().profiles.len() == 1 && seed().analytics_matrix.len() == 1,
        seed().users[0].profile_handle == seed().handle,
        seed().users[0].password == "admin"@,
        seed().profiles[0].handle == seed().handle,
        seed().profiles[0].name == "Ahmed 'trigger' Mamadou"@,
        seed().profiles[0].title == "DARPA N3 // NEURAL SYSTEMS & PROPULSION ARCHITECT"@,
        seed().profiles[0].location == "CANADA"@,
        seed().profiles[0].summary
            == "CORE ARCHITECT FOR BIDIRECTIONAL SYNAPTIC SYNCHRONIZATION. SPECIALIST IN NON-INVASIVE NEURAL CRYPTO-DEFENSE, IRIDIUM-CORE PLASMA PROPULSION OVERRIDES, AND MULTI-SWARM COGNITIVE LOAD BALANCING. MEMORY BLOCKS HEAVILY CORRUPTED DURING LAST ICE BREACH. DIAGNOSTIC: SCHISMATIC COGNITIVE FRAGMENTATION. // SYSTEM WARNING: UNAUTHORIZED ACCESS DETECTED."@,
        seed().profiles[0].picture == SEED_PICTURE@,
        seed().current_headline
            == "ARES MAINFRAME // euz2qbcxiuh3lxgrdu4iwjkik435hlfo7idaymynd7ftbqrx434y5oid.onion"@,
        seed().analytics_matrix[0].id == seed().handle,
        seed().analytics_matrix[0].technical_depth == average_score(seed().skills[0]),
{
    lemma_seed_average();
}

} // verus!
