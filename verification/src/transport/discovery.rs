use crate::error::ClawError;
use crate::text::{first_token, split, split_at_char, take_first_token, text_of};
use vstd::prelude::*;

verus! {

/// A version number as `semver` reads it: the three numbers, whether a
/// pre-release tag follows them, and the version in its canonical writing.
#[derive(Debug, Clone)]
pub struct CliVersion {
    pub major: u64,
    pub minor: u64,
    pub patch: u64,
    pub pre_release: bool,
    pub text: String,
}

/// A version number as a mathematical value.
pub struct VersionModel {
    pub major: nat,
    pub minor: nat,
    pub patch: nat,
    pub pre_release: bool,
    pub text: Seq<char>,
}

impl View for CliVersion {
    type V = VersionModel;

    open spec fn view(&self) -> VersionModel {
        VersionModel {
            major: self.major as nat,
            minor: self.minor as nat,
            patch: self.patch as nat,
            pre_release: self.pre_release,
            text: self.text@,
        }
    }
}

/// The version that `semver` reads from a text, and `None` for a text that
/// it refuses.
pub uninterp spec fn semver_parsed(text: Seq<char>) -> Option<VersionModel>;

/// Calls `semver::Version::parse` and hands out the three numbers of the
/// version, whether its pre-release tag is non-empty, and what `to_string`
/// writes for it.
#[verifier::external_body]
fn parse_version(text: &str) -> (version: Option<CliVersion>)
    ensures
        match semver_parsed(text@) {
            Some(model) => version is Some && version->0@ == model,
            None => version is None,
        },
{
    semver::Version::parse(text).ok().map(
        |v|
            CliVersion {
                major: v.major,
                minor: v.minor,
                patch: v.patch,
                pre_release: !v.pre.is_empty(),
                text: v.to_string(),
            },
    )
}

/// The version that a parsed version stands for, where there is one.
pub open spec fn model_of(parsed: Option<CliVersion>) -> Option<VersionModel> {
    match parsed {
        Some(version) => Some(version@),
        None => None,
    }
}

/// The major number of the lowest version of the backend that the runtime
/// works with.
pub const MINIMUM_MAJOR: u64 = 2;

impl VersionModel {
    /// True for a version of at least 2.0.0 in the order of semantic
    /// versioning: the numbers compare first, and a pre-release is below its
    /// release.
    pub open spec fn is_supported(self) -> bool {
        self.major > MINIMUM_MAJOR || (self.major == MINIMUM_MAJOR && (self.minor > 0
            || self.patch > 0 || !self.pre_release))
    }
}

impl CliVersion {
    /// Tells whether this version is at least 2.0.0.
    pub fn is_supported(&self) -> (supported: bool)
        ensures
            supported == self@.is_supported(),
    {
        self.major > MINIMUM_MAJOR || (self.major == MINIMUM_MAJOR && (self.minor > 0
            || self.patch > 0 || !self.pre_release))
    }
}

/// The name of the environment variable that overrides the search for the
/// backend's executable.
pub const OVERRIDE_VARIABLE: &'static str = "CLAUDE_CLI_PATH";

/// A place at which the backend's executable may lie: a path as it stands,
/// or a file below a directory.
#[derive(Debug, Clone)]
pub struct Candidate {
    /// The directory, where the place is a file below one.
    pub directory: Option<String>,
    /// The path, or the file's path below the directory.
    pub file: String,
}

/// A place as a mathematical value.
pub struct Place {
    pub directory: Option<Seq<char>>,
    pub file: Seq<char>,
}

impl View for Candidate {
    type V = Place;

    open spec fn view(&self) -> Place {
        Place {
            directory: match self.directory {
                Some(directory) => Some(directory@),
                None => None,
            },
            file: self.file@,
        }
    }
}

/// The places of a list of candidates.
pub open spec fn places(candidates: Seq<Candidate>) -> Seq<Place> {
    candidates.map_values(|c: Candidate| c@)
}

/// A path as it stands.
pub open spec fn plain(path: Option<Seq<char>>) -> Seq<Place> {
    match path {
        Some(file) => seq![Place { directory: None, file }],
        None => Seq::empty(),
    }
}

/// The names under which the executable is looked for in a directory of the
/// search path: on Windows with the extensions `.exe` and `.cmd` first.
pub open spec fn program_names(program: Seq<char>, windows: bool) -> Seq<Seq<char>> {
    if windows {
        seq![program + ".exe"@, program + ".cmd"@, program]
    } else {
        seq![program]
    }
}

/// Each name in one directory.
pub open spec fn in_directory(directory: Seq<char>, names: Seq<Seq<char>>) -> Seq<Place> {
    names.map_values(|name: Seq<char>| Place { directory: Some(directory), file: name })
}

/// Each name in each directory, directory by directory.
pub open spec fn in_directories(directories: Seq<Seq<char>>, names: Seq<Seq<char>>) -> Seq<Place>
    decreases directories.len(),
{
    if directories.len() == 0 {
        Seq::empty()
    } else {
        in_directories(directories.drop_last(), names) + in_directory(directories.last(), names)
    }
}

/// The places of the search path: the variable is split at `:`, on Windows
/// at `;`. An unset variable gives none.
pub open spec fn search_path_places(
    path_variable: Option<Seq<char>>,
    program: Seq<char>,
    windows: bool,
) -> Seq<Place> {
    match path_variable {
        Some(value) => in_directories(
            split(value, if windows { ';' } else { ':' }),
            program_names(program, windows),
        ),
        None => Seq::empty(),
    }
}

/// The fixed places: three system directories, then three places below the
/// home directory, where that is known; the last of them lies in the
/// backend's own directory, which has the program's name after a dot.
pub open spec fn common_places(home: Option<Seq<char>>, program: Seq<char>) -> Seq<Place> {
    seq![
        Place { directory: Some("/opt/homebrew/bin"@), file: program },
        Place { directory: Some("/usr/local/bin"@), file: program },
        Place { directory: Some("/usr/bin"@), file: program },
    ] + match home {
        Some(home) => seq![
            Place { directory: Some(home), file: ".local/bin/"@ + program },
            Place { directory: Some(home), file: ".npm/bin/"@ + program },
            Place { directory: Some(home), file: "."@ + program + "/local/"@ + program },
        ],
        None => Seq::empty(),
    }
}

/// All places at which the executable is looked for, in the order of the
/// search: the explicit path, the path of the override variable, the search
/// path, the fixed places.
pub open spec fn search_order(
    explicit: Option<Seq<char>>,
    env_override: Option<Seq<char>>,
    path_variable: Option<Seq<char>>,
    home: Option<Seq<char>>,
    program: Seq<char>,
    windows: bool,
) -> Seq<Place> {
    plain(explicit) + plain(env_override) + search_path_places(path_variable, program, windows)
        + common_places(home, program)
}

/// The place of the first candidate that exists.
pub open spec fn first_existing(exists: Seq<bool>) -> Option<int>
    decreases exists.len(),
{
    if exists.len() == 0 {
        None
    } else if exists[0] {
        Some(0int)
    } else {
        match first_existing(exists.drop_first()) {
            Some(i) => Some(i + 1),
            None => None,
        }
    }
}

/// What is made of the word `token` once it was read as a version: a
/// version of at least 2.0.0 is accepted in its canonical writing; a lower
/// one is refused under that writing, and a word that is no version under
/// its own.
pub open spec fn version_judged(token: Seq<char>, parsed: Option<VersionModel>) -> Result<
    Seq<char>,
    Seq<char>,
> {
    match parsed {
        None => Err(token),
        Some(version) => if version.is_supported() {
            Ok(version.text)
        } else {
            Err(version.text)
        },
    }
}

/// What `validate_version` makes of a run of the executable with
/// `--version`: the canonical version, or the text that the error names.
pub open spec fn version_verdict(success: bool, stdout: Seq<char>, stderr: Seq<char>) -> Result<
    Seq<char>,
    Seq<char>,
> {
    if !success {
        Err("Failed to run --version: "@ + stderr)
    } else {
        match first_token(stdout) {
            None => Err("empty output"@),
            Some(token) => version_judged(token, semver_parsed(token)),
        }
    }
}

fn push_place(candidates: &mut Vec<Candidate>, directory: Option<String>, file: String)
    ensures
        places(final(candidates)@) == places(old(candidates)@).push(
            Place {
                directory: match directory {
                    Some(d) => Some(d@),
                    None => None,
                },
                file: file@,
            },
        ),
{
    let candidate = Candidate { directory, file };
    let ghost place = candidate@;
    candidates.push(candidate);
    assert(places(candidates@) =~= places(old(candidates)@).push(place));
}

fn push_plain(candidates: &mut Vec<Candidate>, path: &Option<String>)
    ensures
        places(final(candidates)@) == places(old(candidates)@) + plain(
            text_of(*path),
        ),
{
    match path {
        Some(text) => {
            push_place(candidates, None, text.clone());
        },
        None => {},
    }
    assert(places(candidates@) =~= places(old(candidates)@) + plain(
        text_of(*path),
    ));
}

fn names_for(program: &str, windows: bool) -> (names: Vec<String>)
    ensures
        names.deep_view() == program_names(program@, windows),
{
    let mut names: Vec<String> = Vec::new();
    if windows {
        names.push(String::from_str(program).concat(".exe"));
        names.push(String::from_str(program).concat(".cmd"));
    }
    names.push(String::from_str(program));
    assert(names.deep_view() =~= program_names(program@, windows));
    names
}

fn push_directory(candidates: &mut Vec<Candidate>, directory: &str, names: &Vec<String>)
    ensures
        places(final(candidates)@) == places(old(candidates)@) + in_directory(
            directory@,
            names.deep_view(),
        ),
{
    let mut i: usize = 0;
    while i < names.len()
        invariant
            i <= names@.len(),
            places(candidates@) == places(old(candidates)@) + in_directory(
                directory@,
                names.deep_view().take(i as int),
            ),
        decreases names@.len() - i,
    {
        let ghost before = places(candidates@);
        push_place(candidates, Some(String::from_str(directory)), names[i].clone());
        proof {
            let taken = names.deep_view().take(i + 1);
            assert(taken.drop_last() =~= names.deep_view().take(i as int));
            assert(in_directory(directory@, taken) =~= in_directory(
                directory@,
                names.deep_view().take(i as int),
            ).push(Place { directory: Some(directory@), file: names@[i as int]@ }));
            assert(places(candidates@) =~= places(old(candidates)@) + in_directory(
                directory@,
                taken,
            ));
        }
        i += 1;
    }
    proof {
        assert(names.deep_view().take(names@.len() as int) =~= names.deep_view());
    }
}

fn push_search_path(
    candidates: &mut Vec<Candidate>,
    path_variable: &Option<String>,
    program: &str,
    windows: bool,
)
    ensures
        places(final(candidates)@) == places(old(candidates)@) + search_path_places(
            text_of(*path_variable),
            program@,
            windows,
        ),
{
    match path_variable {
        Some(value) => {
            let separator = if windows { ';' } else { ':' };
            let directories = split_at_char(value.as_str(), separator);
            let names = names_for(program, windows);
            let mut i: usize = 0;
            while i < directories.len()
                invariant
                    i <= directories@.len(),
                    places(candidates@) == places(old(candidates)@) + in_directories(
                        directories.deep_view().take(i as int),
                        names.deep_view(),
                    ),
                decreases directories@.len() - i,
            {
                proof {
                    let taken = directories.deep_view().take(i + 1);
                    assert(taken.drop_last() =~= directories.deep_view().take(i as int));
                    assert(taken.last() == directories@[i as int]@);
                }
                push_directory(candidates, directories[i].as_str(), &names);
                proof {
                    assert(places(candidates@) =~= places(old(candidates)@) + in_directories(
                        directories.deep_view().take(i + 1),
                        names.deep_view(),
                    ));
                }
                i += 1;
            }
            proof {
                assert(directories.deep_view().take(directories@.len() as int)
                    =~= directories.deep_view());
            }
        },
        None => {
            assert(places(candidates@) =~= places(old(candidates)@) + Seq::<Place>::empty());
        },
    }
}

fn push_common(candidates: &mut Vec<Candidate>, home: &Option<String>, program: &str)
    ensures
        places(final(candidates)@) == places(old(candidates)@) + common_places(
            text_of(*home),
            program@,
        ),
{
    push_place(candidates, Some(String::from_str("/opt/homebrew/bin")), String::from_str(program));
    push_place(candidates, Some(String::from_str("/usr/local/bin")), String::from_str(program));
    push_place(candidates, Some(String::from_str("/usr/bin")), String::from_str(program));
    match home {
        Some(home) => {
            push_place(
                candidates,
                Some(home.clone()),
                String::from_str(".local/bin/").concat(program),
            );
            push_place(
                candidates,
                Some(home.clone()),
                String::from_str(".npm/bin/").concat(program),
            );
            push_place(
                candidates,
                Some(home.clone()),
                String::from_str(".").concat(program).concat("/local/").concat(program),
            );
        },
        None => {},
    }
    assert(places(candidates@) =~= places(old(candidates)@) + common_places(
        text_of(*home),
        program@,
    ));
}

/// Finds the backend's executable and checks its version.
pub struct CliDiscovery;

impl CliDiscovery {
    /// Lists the places at which the executable `program` is looked for, in
    /// the order of the search.
    pub fn candidates(
        explicit: &Option<String>,
        env_override: &Option<String>,
        path_variable: &Option<String>,
        home: &Option<String>,
        program: &str,
        windows: bool,
    ) -> (candidates: Vec<Candidate>)
        ensures
            places(candidates@) == search_order(
                text_of(*explicit),
                text_of(*env_override),
                text_of(*path_variable),
                text_of(*home),
                program@,
                windows,
            ),
    {
        let mut candidates: Vec<Candidate> = Vec::new();
        assert(places(candidates@) =~= Seq::<Place>::empty());
        push_plain(&mut candidates, explicit);
        assert(places(candidates@) =~= plain(
            text_of(*explicit),
        ));
        push_plain(&mut candidates, env_override);
        push_search_path(&mut candidates, path_variable, program, windows);
        push_common(&mut candidates, home, program);
        candidates
    }

    /// Lists the places of the executable `program` in the directories of
    /// the search path, directory by directory.
    pub fn search_path(path_variable: &Option<String>, program: &str, windows: bool) -> (candidates:
        Vec<Candidate>)
        ensures
            places(candidates@) == search_path_places(text_of(*path_variable), program@, windows),
    {
        let mut candidates: Vec<Candidate> = Vec::new();
        assert(places(candidates@) =~= Seq::<Place>::empty());
        push_search_path(&mut candidates, path_variable, program, windows);
        assert(places(candidates@) =~= search_path_places(
            text_of(*path_variable),
            program@,
            windows,
        ));
        candidates
    }

    /// Lists the fixed places of the executable `program`.
    pub fn common_locations(home: &Option<String>, program: &str) -> (candidates: Vec<Candidate>)
        ensures
            places(candidates@) == common_places(text_of(*home), program@),
    {
        let mut candidates: Vec<Candidate> = Vec::new();
        assert(places(candidates@) =~= Seq::<Place>::empty());
        push_common(&mut candidates, home, program);
        assert(places(candidates@) =~= common_places(text_of(*home), program@));
        candidates
    }

    /// Picks the first candidate that exists; `exists` tells of each
    /// candidate, in their order, whether its file is there. Where none
    /// exists the executable is not found.
    pub fn find(exists: &Vec<bool>) -> (found: Result<usize, ClawError>)
        ensures
            match first_existing(exists@) {
                Some(i) => found == Ok::<usize, ClawError>(i as usize) && 0 <= i < exists@.len(),
                None => found matches Err(ClawError::CliNotFound),
            },
    {
        let mut i: usize = 0;
        assert(exists@.skip(0) =~= exists@);
        while i < exists.len()
            invariant
                i <= exists@.len(),
                first_existing(exists@) == match first_existing(exists@.skip(i as int)) {
                    Some(k) => Some(k + i),
                    None => None,
                },
            decreases exists@.len() - i,
        {
            proof {
                assert(exists@.skip(i as int).drop_first() =~= exists@.skip(i + 1));
            }
            if exists[i] {
                return Ok(i);
            }
            i += 1;
        }
        Err(ClawError::CliNotFound)
    }

    /// Judges the word `token` of the executable's output, from what it was
    /// read as: `parsed` holds the version, or nothing where the word is no
    /// semantic version.
    pub fn judge_version(token: &str, parsed: Option<CliVersion>) -> (verdict: Result<
        String,
        ClawError,
    >)
        ensures
            match version_judged(token@, model_of(parsed)) {
                Ok(version) => verdict matches Ok(text) && text@ == version,
                Err(found) => verdict matches Err(ClawError::InvalidCliVersion { version })
                    && version@ == found,
            },
    {
        match parsed {
            None => Err(ClawError::InvalidCliVersion { version: String::from_str(token) }),
            Some(version) => if version.is_supported() {
                Ok(version.text)
            } else {
                Err(ClawError::InvalidCliVersion { version: version.text })
            },
        }
    }

    /// Judges what the executable printed for `--version`: the first word of
    /// its output must be a semantic version of at least 2.0.0. Returns the
    /// version in its canonical writing.
    pub fn validate_version(success: bool, stdout: &str, stderr: &str) -> (verdict: Result<
        String,
        ClawError,
    >)
        ensures
            match version_verdict(success, stdout@, stderr@) {
                Ok(version) => verdict matches Ok(text) && text@ == version,
                Err(found) => verdict matches Err(ClawError::InvalidCliVersion { version })
                    && version@ == found,
            },
    {
        if !success {
            return Err(
                ClawError::InvalidCliVersion {
                    version: String::from_str("Failed to run --version: ").concat(stderr),
                },
            );
        }
        let token = match take_first_token(stdout) {
            Some(token) => token,
            None => {
                return Err(
                    ClawError::InvalidCliVersion { version: String::from_str("empty output") },
                );
            },
        };
        Self::judge_version(token, parse_version(token))
    }
}

} // verus!
