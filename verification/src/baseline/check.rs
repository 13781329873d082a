//! Audit checks of a security baseline and the facts about the file system they read.
use vstd::prelude::*;

use regex::Error as RegexError;

verus! {

#[verifier::external_type_specification]
#[verifier::external_body]
pub struct ExRegex(regex::Regex);

#[verifier::external_type_specification]
#[verifier::external_body]
pub struct ExRegexError(RegexError);

/// Whether `regex::Regex::new` accepts the pattern (it refuses bad syntax and patterns that
/// compile beyond its default size limit).
pub uninterp spec fn pattern_compiles(pattern: Seq<char>) -> bool;

/// Whether the regex of the pattern matches somewhere in the text (`regex::Regex::is_match`).
pub uninterp spec fn pattern_matches(pattern: Seq<char>, text: Seq<char>) -> bool;

/// A compiled regular expression together with the pattern it came from.
pub struct Pattern {
    regex: regex::Regex,
    source: Ghost<Seq<char>>,
}

impl Pattern {
    /// The pattern text that this regular expression was compiled from.
    pub closed spec fn source(&self) -> Seq<char> {
        self.source@
    }
}

/// Compiles a pattern with `regex::Regex::new`: it succeeds exactly on the patterns that
/// `pattern_compiles` holds of, and the result remembers its pattern text.
#[verifier::external_body]
fn compile_pattern(pattern: &str) -> (r: Result<Pattern, RegexError>)
    ensures
        r is Ok <==> pattern_compiles(pattern@),
        r matches Ok(p) ==> p.source() == pattern@,
{
    match regex::Regex::new(pattern) {
        Ok(regex) => Ok(Pattern { regex, source: Ghost(pattern@) }),
        Err(e) => Err(e),
    }
}

/// `regex::Regex::is_match`: whether the compiled pattern matches somewhere in the text.
#[verifier::external_body]
fn is_match(pattern: &Pattern, text: &str) -> (r: bool)
    ensures
        r == pattern_matches(pattern.source(), text@),
{
    pattern.regex.is_match(text)
}

/// What the file system shows of a path: whether it exists, whether it is a directory, and
/// the names of the directory's entries (or the message of the error that reading it gave).
#[derive(Debug)]
pub struct PathProbe {
    pub exists: bool,
    pub is_dir: bool,
    pub entries: Result<Vec<String>, String>,
}

/// Why a check could not decide.
#[derive(Debug)]
pub enum CheckError {
    /// The directory could not be read.
    Io(String),
    /// The file name pattern is not a valid regular expression.
    Pattern(RegexError),
}

/// What a check decides, as a mathematical value.
pub enum CheckOutcome {
    Passed,
    Failed,
    Io(String),
    InvalidPattern,
}

/// The outcome that a result stands for.
pub open spec fn outcome_of(r: Result<bool, CheckError>) -> CheckOutcome {
    match r {
        Ok(true) => CheckOutcome::Passed,
        Ok(false) => CheckOutcome::Failed,
        Err(CheckError::Io(e)) => CheckOutcome::Io(e),
        Err(CheckError::Pattern(_)) => CheckOutcome::InvalidPattern,
    }
}

/// Some entry name matches the pattern.
pub open spec fn some_entry_matches(pattern: Seq<char>, names: Seq<String>) -> bool {
    exists|i: int| 0 <= i < names.len() && pattern_matches(pattern, #[trigger] names[i]@)
}

/// What the file-exists check decides: where the path is a directory and a pattern is given,
/// whether some entry of the directory matches the pattern; otherwise whether the path exists.
pub open spec fn file_exists_outcome(pattern: Option<String>, probe: PathProbe) -> CheckOutcome {
    if probe.is_dir && pattern is Some {
        match probe.entries {
            Err(e) => CheckOutcome::Io(e),
            Ok(names) => if !pattern_compiles(pattern.unwrap()@) {
                CheckOutcome::InvalidPattern
            } else if some_entry_matches(pattern.unwrap()@, names@) {
                CheckOutcome::Passed
            } else {
                CheckOutcome::Failed
            },
        }
    } else if probe.exists {
        CheckOutcome::Passed
    } else {
        CheckOutcome::Failed
    }
}

/// What the file-exists check decides: where the path is not a directory, or no pattern is
/// given, it passes exactly when the path exists and fails otherwise, whatever the pattern;
/// where a pattern is given for a directory that could be read and the pattern is valid, it
/// passes exactly when some entry's name matches the pattern, and fails otherwise; a
/// directory that could not be read gives its read error.
pub proof fn law_file_exists(pattern: Option<String>, probe: PathProbe)
    ensures
        (!probe.is_dir || pattern is None) ==> (file_exists_outcome(pattern, probe) is Passed <==> probe.exists),
        (!probe.is_dir || pattern is None) ==> (file_exists_outcome(pattern, probe) is Passed
            || file_exists_outcome(pattern, probe) is Failed),
        probe.is_dir && pattern is Some && probe.entries is Ok && pattern_compiles(pattern.unwrap()@) ==> (
        (file_exists_outcome(pattern, probe) is Passed <==> exists|i: int|
            0 <= i < (probe.entries->Ok_0)@.len() && pattern_matches(pattern.unwrap()@, #[trigger] (probe.entries->Ok_0)@[i]@)) && (file_exists_outcome(pattern, probe) is Passed
            || file_exists_outcome(pattern, probe) is Failed)),
        probe.is_dir && pattern is Some && probe.entries is Err ==> file_exists_outcome(pattern, probe)
            == CheckOutcome::Io(probe.entries->Err_0),
{
}

/// An audit check.
pub trait Check {
    /// Decides the check from what the file system shows of its path.
    fn check(&self, probe: &PathProbe) -> Result<bool, CheckError>;
}

/// Checks that a file exists; where the path is a directory and a pattern is given, that some
/// file in it has a name that the pattern matches.
pub fn file_exists(path: &String, pattern: &Option<String>, probe: &PathProbe) -> (r: Result<bool, CheckError>)
    ensures
        outcome_of(r) == file_exists_outcome(*pattern, *probe),
        !probe.is_dir ==> r == Ok::<bool, CheckError>(probe.exists),
        pattern is None ==> r == Ok::<bool, CheckError>(probe.exists),
        probe.is_dir && pattern is Some && probe.entries is Ok && pattern_compiles(pattern.unwrap()@) ==> r
            == Ok::<bool, CheckError>(exists|i: int|
            0 <= i < (probe.entries->Ok_0)@.len() && pattern_matches(pattern.unwrap()@, #[trigger] (probe.entries->Ok_0)@[i]@)),
{
    proof {
        law_file_exists(*pattern, *probe);
    }
    if probe.is_dir && pattern.is_some() {
        let names = match &probe.entries {
            Ok(names) => names,
            Err(e) => {
                return Err(CheckError::Io(e.clone()));
            },
        };
        let pattern_text = match pattern {
            Some(p) => p,
            None => {
                return Ok(false);
            },
        };
        let re = match compile_pattern(pattern_text.as_str()) {
            Ok(re) => re,
            Err(e) => {
                return Err(CheckError::Pattern(e));
            },
        };
        let mut i: usize = 0;
        while i < names.len()
            invariant
                i <= names@.len(),
                re.source() == pattern_text@,
                pattern_compiles(pattern_text@),
                probe.entries == Ok::<Vec<String>, String>(*names),
                *pattern == Some(*pattern_text),
                probe.is_dir,
                forall|k: int| 0 <= k < i ==> !pattern_matches(pattern_text@, #[trigger] names@[k]@),
            decreases names@.len() - i,
        {
            if is_match(&re, names[i].as_str()) {
                assert(pattern_matches(pattern_text@, names@[i as int]@));
                return Ok(true);
            }
            i = i + 1;
        }
        Ok(false)
    } else {
        Ok(probe.exists)
    }
}

/// Checks that a file contains something; this check does not pass on any file yet.
pub fn file_contains(path: &String) -> (r: Result<bool, CheckError>)
    ensures
        r matches Ok(false),
{
    Ok(false)
}

/// The file-exists check.
#[derive(Debug)]
pub struct FileExists {
    pub path: String,
    pub pattern: Option<String>,
}

impl Check for FileExists {
    fn check(&self, probe: &PathProbe) -> (r: Result<bool, CheckError>)
        ensures
            outcome_of(r) == file_exists_outcome(self.pattern, *probe),
    {
        file_exists(&self.path, &self.pattern, probe)
    }
}

/// The file-contains check.
#[derive(Debug)]
pub struct FileContains {
    pub path: String,
}

impl Check for FileContains {
    fn check(&self, probe: &PathProbe) -> (r: Result<bool, CheckError>)
        ensures
            r matches Ok(false),
    {
        file_contains(&self.path)
    }
}

} // verus!
