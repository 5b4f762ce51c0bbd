//! Notes on skills and sub-projects, guarded by version numbers.
//!
//! A note is a text file. Whoever reads it also gets its version, and a save
//! must present the version it was read at: a save that presents another one
//! is refused with a conflict, and a save that was written moves the version on
//! by one. The files themselves are read and written by the caller, who holds
//! the register of versions locked from the moment a save is admitted until its
//! outcome has been recorded.
use vstd::hash_map::StringHashMap;
use vstd::prelude::*;

use crate::status::StatusCode;

verus! {

/// The text of a note and the version that a save of it must present.
pub struct NotesPayload {
    pub text: String,
    pub version: u64,
}

/// A request to save a note that was read at a version.
pub struct SaveNotesRequest {
    pub text: String,
    pub version: u64,
}

/// The version of a note after it was saved.
pub struct SaveNotesResponse {
    pub new_version: u64,
}

/// The version of a note.
pub struct VersionResponse {
    pub version: u64,
}

/// A save that was admitted: the text to be written to a file, and the note and
/// version that it was admitted for.
pub struct NoteWrite {
    pub path: String,
    pub text: String,
    pub key: String,
    pub version: u64,
}

/// The file of the note on a sub-project.
pub open spec fn project_notes_path(id: Seq<char>, subproject_name: Seq<char>) -> Seq<char> {
    "/root/Resume/project_notes/"@ + id + "_"@ + subproject_name + ".txt"@
}

/// The file of the note on a skill.
pub open spec fn skill_notes_path(id: Seq<char>) -> Seq<char> {
    "/root/Resume/skill_notes/"@ + id + ".txt"@
}

/// The key under which the version of the note on a sub-project is kept.
pub open spec fn project_notes_key(id: Seq<char>, subproject_name: Seq<char>) -> Seq<char> {
    "projects:"@ + id + ":subproject:"@ + subproject_name
}

/// The key under which the version of a whole project is looked up.
pub open spec fn project_key(id: Seq<char>) -> Seq<char> {
    "projects:"@ + id
}

/// The key under which the version of the note on a skill is kept.
pub open spec fn skill_key(id: Seq<char>) -> Seq<char> {
    "skills:"@ + id
}

/// The file of the note on a sub-project.
pub fn project_notes_file(id: &str, subproject_name: &str) -> (path: String)
    ensures
        path@ == project_notes_path(id@, subproject_name@),
        path@ == "/root/Resume/project_notes/"@ + id@ + "_"@ + subproject_name@ + ".txt"@,
{
    "/root/Resume/project_notes/".to_string().concat(id).concat("_").concat(
        subproject_name,
    ).concat(".txt")
}

/// The file of the note on a skill.
pub fn skill_notes_file(id: &str) -> (path: String)
    ensures
        path@ == skill_notes_path(id@),
        path@ == "/root/Resume/skill_notes/"@ + id@ + ".txt"@,
{
    "/root/Resume/skill_notes/".to_string().concat(id).concat(".txt")
}

fn project_notes_name(id: &str, subproject_name: &str) -> (key: String)
    ensures
        key@ == project_notes_key(id@, subproject_name@),
{
    "projects:".to_string().concat(id).concat(":subproject:").concat(subproject_name)
}

fn project_name(id: &str) -> (key: String)
    ensures
        key@ == project_key(id@),
{
    "projects:".to_string().concat(id)
}

fn skill_name(id: &str) -> (key: String)
    ensures
        key@ == skill_key(id@),
{
    "skills:".to_string().concat(id)
}

/// The version of a note: 1 until it is first saved.
pub open spec fn version_of(versions: Map<Seq<char>, u64>, key: Seq<char>) -> u64 {
    if versions.contains_key(key) {
        versions[key]
    } else {
        1
    }
}

/// The register once a note was asked for: its version is on record.
pub open spec fn registered(versions: Map<Seq<char>, u64>, key: Seq<char>) -> Map<Seq<char>, u64> {
    if versions.contains_key(key) {
        versions
    } else {
        versions.insert(key, 1)
    }
}

/// The register once a save at a version was recorded as written or not.
pub open spec fn recorded(
    versions: Map<Seq<char>, u64>,
    key: Seq<char>,
    version: u64,
    written: bool,
) -> Map<Seq<char>, u64> {
    if written {
        versions.insert(key, (version + 1) as u64)
    } else {
        versions
    }
}

/// The text read from a file: empty where the file could not be read.
pub open spec fn text_read(contents: Option<String>) -> Seq<char> {
    match contents {
        Some(text) => text@,
        None => Seq::empty(),
    }
}

fn text_or_empty(contents: Option<String>) -> (text: String)
    ensures
        text@ == text_read(contents),
        contents matches Some(held) ==> text == held,
        contents is None ==> text@.len() == 0,
{
    match contents {
        Some(text) => text,
        None => String::new(),
    }
}

/// The register of the versions of all notes.
pub struct NoteVersions {
    versions: StringHashMap<u64>,
}

impl View for NoteVersions {
    type V = Map<Seq<char>, u64>;

    closed spec fn view(&self) -> Map<Seq<char>, u64> {
        self.versions@
    }
}

impl NoteVersions {
    /// A register in which every note is at its first version.
    pub fn new() -> (register: Self)
        ensures
            register@ == Map::<Seq<char>, u64>::empty(),
    {
        NoteVersions { versions: StringHashMap::new() }
    }

    fn register(&mut self, key: &String) -> (version: u64)
        ensures
            version == version_of(old(self)@, key@),
            final(self)@ == registered(old(self)@, key@),
    {
        match self.versions.get(key.as_str()) {
            Some(version) => *version,
            None => {
                self.versions.insert(key.clone(), 1);
                1
            },
        }
    }

    fn lookup(&self, key: &String) -> (version: u64)
        ensures
            version == version_of(self@, key@),
    {
        match self.versions.get(key.as_str()) {
            Some(version) => *version,
            None => 1,
        }
    }

    fn accept(&mut self, key: String, path: String, payload: SaveNotesRequest) -> (result: Result<
        NoteWrite,
        StatusCode,
    >)
        ensures
            final(self)@ == registered(old(self)@, key@),
            match result {
                Ok(write) => {
                    &&& payload.version == version_of(old(self)@, key@)
                    &&& write.path@ == path@
                    &&& write.text == payload.text
                    &&& write.text@ == payload.text@
                    &&& write.key@ == key@
                    &&& write.version == payload.version
                },
                Err(status) => {
                    &&& payload.version != version_of(old(self)@, key@)
                    &&& status == StatusCode::Conflict
                },
            },
    {
        let current = self.register(&key);
        if payload.version != current {
            return Err(StatusCode::Conflict);
        }
        Ok(NoteWrite { path, text: payload.text, key, version: current })
    }

    /// Gives the note on a sub-project, whose file held `contents`, or could not
    /// be read.
    pub fn get_project_notes(
        &mut self,
        id: &str,
        subproject_name: &str,
        contents: Option<String>,
    ) -> (payload: NotesPayload)
        ensures
            payload.text@ == text_read(contents),
            payload.version == version_of(old(self)@, project_notes_key(id@, subproject_name@)),
            final(self)@ == registered(old(self)@, project_notes_key(id@, subproject_name@)),
            contents matches Some(text) ==> payload.text == text,
            contents is None ==> payload.text@.len() == 0,
            payload.version == (if old(self)@.contains_key("projects:"@ + id@ + ":subproject:"@ + subproject_name@) {
                old(self)@["projects:"@ + id@ + ":subproject:"@ + subproject_name@]
            } else {
                1
            }),
            final(self)@ == (if old(self)@.contains_key("projects:"@ + id@ + ":subproject:"@ + subproject_name@) {
                old(self)@
            } else {
                old(self)@.insert("projects:"@ + id@ + ":subproject:"@ + subproject_name@, 1)
            }),
    {
        let key = project_notes_name(id, subproject_name);
        let version = self.register(&key);
        NotesPayload { text: text_or_empty(contents), version }
    }

    /// Gives the note on a skill, whose file held `contents`, or could not be
    /// read.
    pub fn get_skill_notes(&mut self, id: &str, contents: Option<String>) -> (payload: NotesPayload)
        ensures
            payload.text@ == text_read(contents),
            payload.version == version_of(old(self)@, skill_key(id@)),
            final(self)@ == registered(old(self)@, skill_key(id@)),
            contents matches Some(text) ==> payload.text == text,
            contents is None ==> payload.text@.len() == 0,
            payload.version == (if old(self)@.contains_key("skills:"@ + id@) {
                old(self)@["skills:"@ + id@]
            } else {
                1
            }),
            final(self)@ == (if old(self)@.contains_key("skills:"@ + id@) {
                old(self)@
            } else {
                old(self)@.insert("skills:"@ + id@, 1)
            }),
    {
        let key = skill_name(id);
        let version = self.register(&key);
        NotesPayload { text: text_or_empty(contents), version }
    }

    /// Admits a save of the note on a sub-project, or refuses it with a conflict
    /// where it does not present the current version.
    pub fn save_project_notes(
        &mut self,
        id: &str,
        subproject_name: &str,
        payload: SaveNotesRequest,
    ) -> (result: Result<NoteWrite, StatusCode>)
        ensures
            final(self)@ == registered(old(self)@, project_notes_key(id@, subproject_name@)),
            match result {
                Ok(write) => {
                    &&& payload.version == version_of(
                        old(self)@,
                        project_notes_key(id@, subproject_name@),
                    )
                    &&& write.path@ == project_notes_path(id@, subproject_name@)
                    &&& write.text@ == payload.text@
                    &&& write.key@ == project_notes_key(id@, subproject_name@)
                    &&& write.version == payload.version
                },
                Err(status) => {
                    &&& payload.version != version_of(
                        old(self)@,
                        project_notes_key(id@, subproject_name@),
                    )
                    &&& status == StatusCode::Conflict
                },
            },
            match result {
                Ok(write) => {
                    &&& write.text == payload.text
                    &&& write.path@ == "/root/Resume/project_notes/"@ + id@ + "_"@ + subproject_name@ + ".txt"@
                    &&& write.key@ == "projects:"@ + id@ + ":subproject:"@ + subproject_name@
                    &&& write.version == payload.version
                },
                Err(status) => status == StatusCode::Conflict,
            },
            (result is Ok) == (payload.version == (if old(self)@.contains_key("projects:"@ + id@ + ":subproject:"@ + subproject_name@) {
                old(self)@["projects:"@ + id@ + ":subproject:"@ + subproject_name@]
            } else {
                1
            })),
            final(self)@ == (if old(self)@.contains_key("projects:"@ + id@ + ":subproject:"@ + subproject_name@) {
                old(self)@
            } else {
                old(self)@.insert("projects:"@ + id@ + ":subproject:"@ + subproject_name@, 1)
            }),
    {
        let path = project_notes_file(id, subproject_name);
        let key = project_notes_name(id, subproject_name);
        self.accept(key, path, payload)
    }

    /// Admits a save of the note on a skill, or refuses it with a conflict where
    /// it does not present the current version.
    pub fn save_skill_notes(&mut self, id: &str, payload: SaveNotesRequest) -> (result: Result<
        NoteWrite,
        StatusCode,
    >)
        ensures
            final(self)@ == registered(old(self)@, skill_key(id@)),
            match result {
                Ok(write) => {
                    &&& payload.version == version_of(old(self)@, skill_key(id@))
                    &&& write.path@ == skill_notes_path(id@)
                    &&& write.text@ == payload.text@
                    &&& write.key@ == skill_key(id@)
                    &&& write.version == payload.version
                },
                Err(status) => {
                    &&& payload.version != version_of(old(self)@, skill_key(id@))
                    &&& status == StatusCode::Conflict
                },
            },
            match result {
                Ok(write) => {
                    &&& write.text == payload.text
                    &&& write.path@ == "/root/Resume/skill_notes/"@ + id@ + ".txt"@
                    &&& write.key@ == "skills:"@ + id@
                    &&& write.version == payload.version
                },
                Err(status) => status == StatusCode::Conflict,
            },
            (result is Ok) == (payload.version == (if old(self)@.contains_key("skills:"@ + id@) {
                old(self)@["skills:"@ + id@]
            } else {
                1
            })),
            final(self)@ == (if old(self)@.contains_key("skills:"@ + id@) {
                old(self)@
            } else {
                old(self)@.insert("skills:"@ + id@, 1)
            }),
    {
        let path = skill_notes_file(id);
        let key = skill_name(id);
        self.accept(key, path, payload)
    }

    /// Records the outcome of a save that was admitted: a save that was written
    /// moves the version on by one, one that could not be written leaves it.
    pub fn record(&mut self, write: &NoteWrite, written: bool) -> (result: Result<
        SaveNotesResponse,
        StatusCode,
    >)
        requires
            written ==> write.version < u64::MAX,
        ensures
            final(self)@ == recorded(old(self)@, write.key@, write.version, written),
            match result {
                Ok(response) => written && response.new_version == write.version + 1,
                Err(status) => !written && status == StatusCode::InternalServerError,
            },
            written ==> final(self)@ == old(self)@.insert(
                write.key@,
                (write.version + 1) as u64,
            ),
            !written ==> final(self)@ == old(self)@,
    {
        if !written {
            return Err(StatusCode::InternalServerError);
        }
        let next_version: u64 = write.version + 1;
        self.versions.insert(write.key.clone(), next_version);
        Ok(SaveNotesResponse { new_version: next_version })
    }

    /// The version kept for a whole project.
    pub fn get_project_version(&self, id: &str) -> (response: VersionResponse)
        ensures
            response.version == version_of(self@, project_key(id@)),
            response.version == (if self@.contains_key("projects:"@ + id@) {
                self@["projects:"@ + id@]
            } else {
                1
            }),
    {
        let key = project_name(id);
        VersionResponse { version: self.lookup(&key) }
    }

    /// The version of the note on a skill.
    pub fn get_skill_version(&self, id: &str) -> (response: VersionResponse)
        ensures
            response.version == version_of(self@, skill_key(id@)),
            response.version == (if self@.contains_key("skills:"@ + id@) {
                self@["skills:"@ + id@]
            } else {
                1
            }),
    {
        let key = skill_name(id);
        VersionResponse { version: self.lookup(&key) }
    }
}

/// A note is read exactly as its file holds it, and as empty where there is no file.
/// In particular, the text of a save that was written is what the next read gives.
pub proof fn note_is_read_as_written(held: String)
    ensures
        text_read(Some(held)) == held@,
        text_read(None).len() == 0,
{
}

/// What a reader gets and then saves unchanged leaves the file as it was: the text
/// read, saved and read again is the text.
pub proof fn reading_and_saving_keeps_the_text(held: String, read: String)
    requires
        read@ == text_read(Some(held)),
    ensures
        text_read(Some(read)) == held@,
{
}

/// A note that was never saved is at version 1, one that was recorded is at the
/// version after the one recorded, and nothing that happens to one note shows in
/// another.
pub proof fn versions_are_kept(
    versions: Map<Seq<char>, u64>,
    key: Seq<char>,
    other: Seq<char>,
    version: u64,
)
    requires
        version < u64::MAX,
    ensures
        version_of(Map::empty(), key) == 1,
        version_of(recorded(versions, key, version, true), key) == version + 1,
        recorded(versions, key, version, false) == versions,
        versions.contains_key(key) ==> version_of(versions, key) == versions[key],
        other != key ==> version_of(recorded(versions, key, version, true), other) == version_of(
            versions,
            other,
        ),
        registered(versions, key).contains_key(key),
        registered(versions, key)[key] == version_of(versions, key),
{
}

/// An attempt to save a note: the version it presents, and whether its file could
/// be written.
pub struct Attempt {
    pub key: Seq<char>,
    pub version: u64,
    pub written: bool,
}

/// Whether an attempt is admitted and written.
pub open spec fn succeeds(versions: Map<Seq<char>, u64>, attempt: Attempt) -> bool {
    attempt.version == version_of(versions, attempt.key) && attempt.written
}

/// The register after an attempt: admitted or refused, and then recorded.
pub open spec fn attempted(versions: Map<Seq<char>, u64>, attempt: Attempt) -> Map<
    Seq<char>,
    u64,
> {
    let known = registered(versions, attempt.key);
    if attempt.version == version_of(versions, attempt.key) {
        recorded(known, attempt.key, attempt.version, attempt.written)
    } else {
        known
    }
}

/// The register after attempts made one after the other.
pub open spec fn after_attempts(versions: Map<Seq<char>, u64>, attempts: Seq<Attempt>) -> Map<
    Seq<char>,
    u64,
>
    decreases attempts.len(),
{
    if attempts.len() == 0 {
        versions
    } else {
        attempted(after_attempts(versions, attempts.drop_last()), attempts.last())
    }
}

/// How many of the attempts saved a note.
pub open spec fn saves_of(
    versions: Map<Seq<char>, u64>,
    attempts: Seq<Attempt>,
    key: Seq<char>,
) -> nat
    decreases attempts.len(),
{
    if attempts.len() == 0 {
        0
    } else {
        let earlier = saves_of(versions, attempts.drop_last(), key);
        if attempts.last().key == key && succeeds(
            after_attempts(versions, attempts.drop_last()),
            attempts.last(),
        ) {
            earlier + 1
        } else {
            earlier
        }
    }
}

/// Asking for a note, as reading and refused saves do, changes the version of no
/// note.
pub proof fn registering_changes_no_version(
    versions: Map<Seq<char>, u64>,
    key: Seq<char>,
    other: Seq<char>,
)
    ensures
        version_of(registered(versions, key), other) == version_of(versions, other),
{
}

/// An attempt that does not succeed changes the version of no note.
pub proof fn failed_attempt_changes_no_version(
    versions: Map<Seq<char>, u64>,
    attempt: Attempt,
    other: Seq<char>,
)
    requires
        !succeeds(versions, attempt),
    ensures
        version_of(attempted(versions, attempt), other) == version_of(versions, other),
{
}

/// An attempt that succeeds moves the version of its note on by one and leaves
/// those of all other notes.
pub proof fn save_moves_one_version(
    versions: Map<Seq<char>, u64>,
    attempt: Attempt,
    other: Seq<char>,
)
    requires
        succeeds(versions, attempt),
        attempt.version < u64::MAX,
    ensures
        version_of(attempted(versions, attempt), attempt.key) == attempt.version + 1,
        other != attempt.key ==> version_of(attempted(versions, attempt), other) == version_of(
            versions,
            other,
        ),
{
}

/// No update is lost: of two saves that present the same version of a note, the
/// second is refused once the first was written.
pub proof fn second_save_is_refused(
    versions: Map<Seq<char>, u64>,
    first: Attempt,
    second: Attempt,
)
    requires
        succeeds(versions, first),
        first.version < u64::MAX,
        second.key == first.key,
        second.version == first.version,
    ensures
        !succeeds(attempted(versions, first), second),
        attempted(attempted(versions, first), second) == attempted(versions, first),
{
}

/// Whoever reads a note gets the version at which a save of it is admitted, as
/// long as nobody saves it in between.
pub proof fn version_read_is_admitted(versions: Map<Seq<char>, u64>, key: Seq<char>, written: bool)
    ensures
        ({
            let read = version_of(versions, key);
            succeeds(registered(versions, key), Attempt { key, version: read, written }) == written
        }),
{
}

/// The version of a note counts its saves: whatever is attempted on a fresh
/// register, it is one more than the number of saves that succeeded.
pub proof fn version_counts_saves(attempts: Seq<Attempt>, key: Seq<char>)
    requires
        attempts.len() < u64::MAX,
    ensures
        version_of(after_attempts(Map::empty(), attempts), key) == 1 + saves_of(
            Map::empty(),
            attempts,
            key,
        ),
        saves_of(Map::empty(), attempts, key) <= attempts.len(),
    decreases attempts.len(),
{
    if attempts.len() > 0 {
        version_counts_saves(attempts.drop_last(), key);
        version_counts_saves(attempts.drop_last(), attempts.last().key);
    }
}

/// Whether an id, followed by a separator, is how a different id begins that is
/// followed by the separator, too.
pub open spec fn runs_into(id1: Seq<char>, id2: Seq<char>, separator: Seq<char>) -> bool {
    id1 != id2 && (id1 + separator).is_prefix_of(id2 + separator)
}

/// Whether neither of two ids runs into the other.
pub open spec fn apart(id1: Seq<char>, id2: Seq<char>, separator: Seq<char>) -> bool {
    !runs_into(id1, id2, separator) && !runs_into(id2, id1, separator)
}

/// Whether a separator first occurs, in a text followed by it, at the end of the
/// text.
pub open spec fn ends_before(text: Seq<char>, separator: Seq<char>) -> bool {
    forall|p: int|
        0 <= p < text.len() ==> #[trigger] (text + separator).subrange(p, p + separator.len())
            != separator
}

/// Ids of one length do not run into each other, nor do ids in which the separator
/// does not occur.
pub proof fn ids_are_apart(id1: Seq<char>, id2: Seq<char>, separator: Seq<char>)
    requires
        id1.len() == id2.len() || (ends_before(id1, separator) && ends_before(id2, separator)),
    ensures
        apart(id1, id2, separator),
{
    lemma_does_not_run_into(id1, id2, separator);
    lemma_does_not_run_into(id2, id1, separator);
}

proof fn lemma_does_not_run_into(id1: Seq<char>, id2: Seq<char>, separator: Seq<char>)
    requires
        id1.len() == id2.len() || ends_before(id2, separator),
    ensures
        !runs_into(id1, id2, separator),
{
    let longer = id2 + separator;
    if (id1 + separator).is_prefix_of(longer) {
        let p = id1.len() as int;
        assert((id1 + separator).subrange(p, p + separator.len()) =~= separator);
        assert(longer.subrange(p, p + separator.len()) =~= separator);
        assert(id1 =~= longer.subrange(0, p));
        assert(id2 =~= longer.subrange(0, id2.len() as int));
    }
}

/// Ids of one length do not run into each other at an underscore, nor do ids without
/// underscores.
pub proof fn ids_without_underscore_are_apart(id1: Seq<char>, id2: Seq<char>)
    requires
        id1.len() == id2.len() || (!id1.contains('_') && !id2.contains('_')),
    ensures
        apart(id1, id2, "_"@),
{
    if id1.len() != id2.len() {
        lemma_no_underscore(id1);
        lemma_no_underscore(id2);
    }
    ids_are_apart(id1, id2, "_"@);
}

proof fn lemma_no_underscore(id: Seq<char>)
    requires
        !id.contains('_'),
    ensures
        ends_before(id, "_"@),
{
    reveal_strlit("_");
    assert forall|p: int| 0 <= p < id.len() implies #[trigger] (id + "_"@).subrange(
        p,
        p + "_"@.len(),
    ) != "_"@ by {
        assert((id + "_"@).subrange(p, p + "_"@.len())[0] == id[p]);
        assert(id.contains(id[p]));
    }
}

/// A text is cut at its separator in one way only.
proof fn lemma_cut_is_unique(
    a1: Seq<char>,
    b1: Seq<char>,
    a2: Seq<char>,
    b2: Seq<char>,
    separator: Seq<char>,
)
    requires
        a1 + separator + b1 == a2 + separator + b2,
        apart(a1, a2, separator),
    ensures
        a1 == a2,
        b1 == b2,
{
    let whole = a1 + separator + b1;
    assert(a1 + separator =~= whole.subrange(0, (a1.len() + separator.len()) as int));
    assert(a2 + separator =~= whole.subrange(0, (a2.len() + separator.len()) as int));
    if a1.len() <= a2.len() {
        assert((a1 + separator).is_prefix_of(a2 + separator));
    } else {
        assert((a2 + separator).is_prefix_of(a1 + separator));
    }
    let cut = (a1.len() + separator.len()) as int;
    assert(b1 =~= whole.subrange(cut, whole.len() as int));
    assert(b2 =~= whole.subrange(cut, whole.len() as int));
}

/// Distinct sub-projects have distinct keys, where neither project id runs into the
/// other at `:subproject:`.
pub proof fn project_notes_keys_differ(
    id1: Seq<char>,
    name1: Seq<char>,
    id2: Seq<char>,
    name2: Seq<char>,
)
    requires
        apart(id1, id2, ":subproject:"@),
        project_notes_key(id1, name1) == project_notes_key(id2, name2),
    ensures
        id1 == id2,
        name1 == name2,
{
    let head = "projects:"@;
    let sep = ":subproject:"@;
    lemma_prefix_cancels(head, id1 + sep + name1, id2 + sep + name2, project_notes_key(id1, name1));
    lemma_cut_is_unique(id1, name1, id2, name2, sep);
}

proof fn lemma_prefix_cancels(
    head: Seq<char>,
    tail1: Seq<char>,
    tail2: Seq<char>,
    whole: Seq<char>,
)
    requires
        whole =~= head + tail1,
        whole =~= head + tail2,
    ensures
        tail1 == tail2,
{
    assert(tail1 =~= whole.subrange(head.len() as int, whole.len() as int));
    assert(tail2 =~= whole.subrange(head.len() as int, whole.len() as int));
}

/// Distinct sub-projects have distinct files, where neither project id runs into the
/// other at an underscore.
pub proof fn project_notes_paths_differ(
    id1: Seq<char>,
    name1: Seq<char>,
    id2: Seq<char>,
    name2: Seq<char>,
)
    requires
        apart(id1, id2, "_"@),
        project_notes_path(id1, name1) == project_notes_path(id2, name2),
    ensures
        id1 == id2,
        name1 == name2,
{
    let head = "/root/Resume/project_notes/"@;
    let sep = "_"@;
    let tail = ".txt"@;
    let whole = project_notes_path(id1, name1);
    lemma_prefix_cancels(head, id1 + sep + name1 + tail, id2 + sep + name2 + tail, whole);
    lemma_suffix_cancels(id1 + sep + name1, id2 + sep + name2, tail);
    lemma_cut_is_unique(id1, name1, id2, name2, sep);
}

proof fn lemma_suffix_cancels(head1: Seq<char>, head2: Seq<char>, tail: Seq<char>)
    requires
        head1 + tail == head2 + tail,
    ensures
        head1 == head2,
{
    let whole = head1 + tail;
    assert(whole.len() == (head2 + tail).len());
    assert(head1 =~= whole.subrange(0, head1.len() as int));
    assert(head2 =~= whole.subrange(0, head1.len() as int));
}

/// What follows an id and the separator in an id that it runs into.
pub open spec fn overlap(id1: Seq<char>, id2: Seq<char>, separator: Seq<char>) -> Seq<char> {
    (id2 + separator).skip((id1.len() + separator.len()) as int)
}

/// Where a project id runs into another, each sub-project of the other shares its key
/// or its file with one of the first.
pub proof fn running_ids_share_notes(id1: Seq<char>, id2: Seq<char>, name: Seq<char>)
    ensures
        runs_into(id1, id2, ":subproject:"@) ==> project_notes_key(
            id1,
            overlap(id1, id2, ":subproject:"@) + name,
        ) == project_notes_key(id2, name),
        runs_into(id1, id2, "_"@) ==> project_notes_path(id1, overlap(id1, id2, "_"@) + name)
            == project_notes_path(id2, name),
{
    if runs_into(id1, id2, ":subproject:"@) {
        lemma_overlap_joins(id1, id2, name, ":subproject:"@);
        assert(project_notes_key(id1, overlap(id1, id2, ":subproject:"@) + name)
            =~= "projects:"@ + (id1 + ":subproject:"@ + (overlap(id1, id2, ":subproject:"@) + name)));
        assert(project_notes_key(id2, name) =~= "projects:"@ + (id2 + ":subproject:"@ + name));
    }
    if runs_into(id1, id2, "_"@) {
        lemma_overlap_joins(id1, id2, name, "_"@);
        assert(project_notes_path(id1, overlap(id1, id2, "_"@) + name)
            =~= "/root/Resume/project_notes/"@ + (id1 + "_"@ + (overlap(id1, id2, "_"@) + name))
            + ".txt"@);
        assert(project_notes_path(id2, name) =~= "/root/Resume/project_notes/"@ + (id2 + "_"@ + name)
            + ".txt"@);
    }
}

proof fn lemma_overlap_joins(
    id1: Seq<char>,
    id2: Seq<char>,
    name: Seq<char>,
    separator: Seq<char>,
)
    requires
        runs_into(id1, id2, separator),
    ensures
        id1 + separator + (overlap(id1, id2, separator) + name) == id2 + separator + name,
{
    assert(id2 + separator =~= (id1 + separator) + overlap(id1, id2, separator));
    assert(id1 + separator + (overlap(id1, id2, separator) + name) =~= id2 + separator + name);
}

/// Distinct skills have distinct keys and distinct files, and no skill shares its
/// key with a sub-project.
pub proof fn skill_notes_differ(id1: Seq<char>, id2: Seq<char>, project: Seq<char>, name: Seq<char>)
    ensures
        skill_key(id1) == skill_key(id2) ==> id1 == id2,
        skill_notes_path(id1) == skill_notes_path(id2) ==> id1 == id2,
        skill_key(id1) != project_notes_key(project, name),
{
    if skill_key(id1) == skill_key(id2) {
        lemma_prefix_cancels("skills:"@, id1, id2, skill_key(id1));
    }
    if skill_notes_path(id1) == skill_notes_path(id2) {
        lemma_prefix_cancels(
            "/root/Resume/skill_notes/"@,
            id1 + ".txt"@,
            id2 + ".txt"@,
            skill_notes_path(id1),
        );
        lemma_suffix_cancels(id1, id2, ".txt"@);
    }
    reveal_strlit("skills:");
    reveal_strlit("projects:");
    assert(skill_key(id1)[0] == 's');
    assert(project_notes_key(project, name)[0] == 'p');
}

} // verus!
