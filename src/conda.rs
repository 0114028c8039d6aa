use crate::filesystem::probe_exists;
use crate::runner::{describe_failure, failure_text};
use crate::streamer::{decode_lossy, lossy_text};
use vstd::prelude::*;

verus! {

/// The conventional conda install locations, `~` standing for the home
/// directory, in the order they are tried.
pub open spec fn conda_locations() -> Seq<Seq<char>> {
    seq![
        "~/anaconda3/bin/conda"@,
        "~/miniconda3/bin/conda"@,
        "/usr/local/bin/conda"@,
        "/opt/anaconda3/bin/conda"@,
    ]
}

/// `path` with every `~` replaced by `home`.
pub open spec fn expand_home(path: Seq<char>, home: Seq<char>) -> Seq<char>
    decreases path.len(),
{
    if path.len() == 0 {
        Seq::empty()
    } else {
        (if path[0] == '~' {
            home
        } else {
            seq![path[0]]
        }) + expand_home(path.drop_first(), home)
    }
}

/// Relies on `str::replace`: every match of the pattern is replaced.
#[verifier::external_body]
fn replace_tilde(path: &str, home: &str) -> (r: String)
    ensures
        r@ == expand_home(path@, home@),
{
    path.replace("~", home)
}

/// What trimming leaves of a text.
pub uninterp spec fn trimmed(s: Seq<char>) -> Seq<char>;

/// Relies on `str::trim`: leading and trailing white space removed; the
/// result depends on the text alone.
#[verifier::external_body]
fn trim_text(s: &str) -> (r: String)
    ensures
        r@ == trimmed(s@),
{
    s.trim().to_string()
}

/// Relies on `dirs::home_dir`: the current user's home directory, if the
/// platform knows one, as text. Nothing is promised of it.
#[verifier::external_body]
pub fn get_home_dir() -> Option<String> {
    match dirs::home_dir() {
        Some(p) => Some(p.to_string_lossy().into_owned()),
        None => None,
    }
}

/// The install locations with the home directory filled in.
pub fn conda_candidates(home: &str) -> (r: Vec<String>)
    ensures
        r@.len() == conda_locations().len(),
        forall|i: int| 0 <= i < r@.len() ==> #[trigger] r@[i]@ == expand_home(conda_locations()[i], home@),
{
    let mut r: Vec<String> = Vec::new();
    r.push(replace_tilde("~/anaconda3/bin/conda", home));
    r.push(replace_tilde("~/miniconda3/bin/conda", home));
    r.push(replace_tilde("/usr/local/bin/conda", home));
    r.push(replace_tilde("/opt/anaconda3/bin/conda", home));
    r
}

/// The first index whose flag is set, if any.
pub fn first_set_index(flags: &Vec<bool>) -> (r: Option<usize>)
    ensures
        match r {
            Some(i) => i < flags@.len() && flags@[i as int] && forall|j: int| 0 <= j < i ==> !flags@[j],
            None => forall|j: int| 0 <= j < flags@.len() ==> !flags@[j],
        },
{
    let mut i: usize = 0;
    while i < flags.len()
        invariant
            i <= flags@.len(),
            forall|j: int| 0 <= j < i ==> !flags@[j],
        decreases flags@.len() - i,
    {
        if flags[i] {
            return Some(i);
        }
        i = i + 1;
    }
    None
}

pub open spec fn not_found_text() -> Seq<char> {
    "Conda not found"@
}

/// The conda found among the install locations, given which of them exist:
/// the first that does, or the not-found error.
pub fn pick_conda(home: &str, exists: &Vec<bool>) -> (r: Result<String, String>)
    requires
        exists@.len() == conda_locations().len(),
    ensures
        match r {
            Ok(p) => exists|i: int| 0 <= i < exists@.len() && exists@[i] && (forall|j: int|
                0 <= j < i ==> !exists@[j]) && p@ == expand_home(conda_locations()[i], home@),
            Err(e) => e@ == not_found_text() && forall|j: int| 0 <= j < exists@.len() ==> !exists@[j],
        },
{
    let candidates = conda_candidates(home);
    match first_set_index(exists) {
        Some(i) => {
            let p = candidates[i].clone();
            Ok(p)
        },
        None => Err("Conda not found".to_string()),
    }
}

/// Finds conda from what `which conda` gave: its trimmed output when it
/// succeeded; the first existing install location when it ran and failed; a
/// failure when it could not be run. `which` is `Ok(Some(out))` on success,
/// `Ok(None)` when it ran and failed.
pub fn detect_conda(which: Result<Option<Vec<u8>>, String>) -> (r: Result<String, String>)
    ensures
        match which {
            Err(cause) => r matches Err(e) && e@ == failure_text("Conda detect failed"@, cause@),
            Ok(Some(out)) => r matches Ok(p) && p@ == trimmed(lossy_text(out@)),
            Ok(None) => match r {
                Ok(p) => exists|home: Seq<char>, i: int| 0 <= i < conda_locations().len()
                    && p@ == expand_home(conda_locations()[i], home),
                Err(e) => e@ == not_found_text(),
            },
        },
{
    match which {
        Err(cause) => Err(describe_failure("Conda detect failed", cause.as_str())),
        Ok(Some(out)) => {
            let text = decode_lossy(out.as_slice());
            Ok(trim_text(text.as_str()))
        },
        Ok(None) => {
            let home = match get_home_dir() {
                Some(h) => h,
                None => String::new(),
            };
            let candidates = conda_candidates(home.as_str());
            let mut exists: Vec<bool> = Vec::new();
            let mut i: usize = 0;
            while i < candidates.len()
                invariant
                    candidates@.len() == conda_locations().len(),
                    i <= candidates@.len(),
                    exists@.len() == i,
                decreases candidates@.len() - i,
            {
                exists.push(probe_exists(candidates[i].as_str()));
                i = i + 1;
            }
            pick_conda(home.as_str(), &exists)
        },
    }
}

} // verus!
