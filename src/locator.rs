//! Discovery of the pm2 executable among the places it is commonly
//! installed.

use vstd::prelude::*;
use crate::error::PmError;

verus! {

/// A resolved pm2: the executable to run and the search path (`PATH`) that
/// it runs under.
#[derive(Debug)]
pub struct ExecutionTarget {
    pub path: String,
    pub env_path: String,
}

impl View for ExecutionTarget {
    type V = (Seq<char>, Seq<char>);

    open spec fn view(&self) -> (Seq<char>, Seq<char>) {
        (self.path@, self.env_path@)
    }
}

impl ExecutionTarget {
    /// A copy of this target.
    pub fn duplicate(&self) -> (r: ExecutionTarget)
        ensures
            r@ == self@,
    {
        ExecutionTarget { path: self.path.clone(), env_path: self.env_path.clone() }
    }
}

/// The minimal standard search path.
pub open spec fn base_path() -> Seq<char> {
    "/usr/local/bin:/usr/bin:/bin"@
}

/// The directory of the pinned Node version under Herd's version manager.
pub open spec fn herd_node_bin() -> Seq<char> {
    "/Library/Application Support/Herd/config/nvm/versions/node/v22.21.1/bin"@
}

/// npm's per-user global directory, under the home directory.
pub open spec fn npm_global_bin() -> Seq<char> {
    "/.npm-global/bin"@
}

/// The candidate locations, in the order they are tried, for the home
/// directory `home`.
pub open spec fn candidate_list(home: Seq<char>) -> Seq<(Seq<char>, Seq<char>)> {
    seq![
        ("pm2"@, base_path()),
        ("/usr/local/bin/pm2"@, base_path()),
        ("/opt/homebrew/bin/pm2"@, "/opt/homebrew/bin:"@ + base_path()),
        (home + herd_node_bin() + "/pm2"@, home + herd_node_bin() + ":"@ + base_path()),
        (home + npm_global_bin() + "/pm2"@, home + npm_global_bin() + ":"@ + base_path()),
    ]
}

/// The views of a vector of targets.
pub open spec fn targets_view(v: Seq<ExecutionTarget>) -> Seq<(Seq<char>, Seq<char>)> {
    v.map_values(|t: ExecutionTarget| t@)
}

fn base_path_string() -> (r: String)
    ensures
        r@ == base_path(),
{
    String::from_str("/usr/local/bin:/usr/bin:/bin")
}

fn under_home(home: &str, dir: &str) -> (r: ExecutionTarget)
    ensures
        r@ == (home@ + dir@ + "/pm2"@, home@ + dir@ + ":"@ + base_path()),
{
    let mut path = String::from_str(home);
    path.append(dir);
    let mut env_path = path.clone();
    path.append("/pm2");
    env_path.append(":");
    env_path.append(base_path_string().as_str());
    ExecutionTarget { path, env_path }
}

/// The candidate locations of pm2 for the home directory `home`, in the
/// order they are tried: the bare name, the common local prefix, Homebrew's
/// prefix, the Node version that Herd pins, and npm's per-user global
/// directory.
pub fn candidates(home: &str) -> (r: Vec<ExecutionTarget>)
    ensures
        targets_view(r@) == candidate_list(home@),
{
    let mut v: Vec<ExecutionTarget> = Vec::new();
    v.push(ExecutionTarget { path: String::from_str("pm2"), env_path: base_path_string() });
    v.push(
        ExecutionTarget {
            path: String::from_str("/usr/local/bin/pm2"),
            env_path: base_path_string(),
        },
    );
    let mut brew_env = String::from_str("/opt/homebrew/bin:");
    brew_env.append(base_path_string().as_str());
    v.push(ExecutionTarget { path: String::from_str("/opt/homebrew/bin/pm2"), env_path: brew_env });
    v.push(
        under_home(
            home,
            "/Library/Application Support/Herd/config/nvm/versions/node/v22.21.1/bin",
        ),
    );
    v.push(under_home(home, "/.npm-global/bin"));
    assert(targets_view(v@) =~= candidate_list(home@));
    v
}

/// The index of the first candidate, from `i` on, whose probe launched.
pub open spec fn first_launched_from(launched: Seq<bool>, i: int) -> Option<int>
    decreases launched.len() - i,
{
    if i < 0 || i >= launched.len() {
        None
    } else if launched[i] {
        Some(i)
    } else {
        first_launched_from(launched, i + 1)
    }
}

/// The index of the first candidate whose probe launched.
pub open spec fn first_launched(launched: Seq<bool>) -> Option<int> {
    first_launched_from(launched, 0)
}

/// What discovery does next.
#[derive(Debug)]
pub enum LocateStep {
    /// Probe the candidate at this index.
    Probe(usize),
    /// The candidate that launched: discovery is done.
    Accept(ExecutionTarget),
    /// Every candidate failed to launch.
    NotFound,
}

/// The first step of discovery over `cands`.
pub fn locate_start(cands: &Vec<ExecutionTarget>) -> (r: LocateStep)
    ensures
        cands.len() > 0 ==> r == LocateStep::Probe(0),
        cands.len() == 0 ==> r == LocateStep::NotFound,
{
    if cands.len() > 0 {
        LocateStep::Probe(0)
    } else {
        LocateStep::NotFound
    }
}

/// The step after probing candidate `index`: a candidate whose version
/// query launched is accepted, whatever it printed or returned; otherwise
/// the next candidate is probed, until none is left.
pub fn locate_step(cands: &Vec<ExecutionTarget>, index: usize, launched: bool) -> (r: LocateStep)
    requires
        index < cands.len(),
    ensures
        launched ==> (r matches LocateStep::Accept(t) && t@ == cands[index as int]@),
        !launched && index + 1 < cands.len() ==> r == LocateStep::Probe((index + 1) as usize),
        !launched && index + 1 == cands.len() ==> r == LocateStep::NotFound,
{
    if launched {
        LocateStep::Accept(cands[index].duplicate())
    } else if index + 1 < cands.len() {
        LocateStep::Probe(index + 1)
    } else {
        LocateStep::NotFound
    }
}

/// Discovery over the outcomes of probing every candidate: the first
/// candidate whose probe launched, or `NotFound` when none did.
pub fn locate(cands: &Vec<ExecutionTarget>, launched: &Vec<bool>) -> (r: Result<
    ExecutionTarget,
    PmError,
>)
    requires
        launched.len() == cands.len(),
    ensures
        r is Ok <==> first_launched(launched@) is Some,
        r matches Ok(t) ==> t@ == cands[first_launched(launched@)->0]@,
        r matches Err(e) ==> e == PmError::NotFound,
{
    let mut i: usize = 0;
    while i < cands.len()
        invariant
            i <= cands.len(),
            launched.len() == cands.len(),
            first_launched(launched@) == first_launched_from(launched@, i as int),
        decreases cands.len() - i,
    {
        match locate_step(cands, i, launched[i]) {
            LocateStep::Accept(t) => {
                return Ok(t);
            },
            _ => {},
        }
        i = i + 1;
    }
    Err(PmError::NotFound)
}

/// When exactly one candidate's probe launches, discovery chooses that
/// candidate, wherever it stands in the order.
pub proof fn lemma_sole_launch_is_chosen(launched: Seq<bool>, k: int)
    requires
        0 <= k < launched.len(),
        launched[k],
        forall|j: int| 0 <= j < launched.len() && j != k ==> !launched[j],
    ensures
        first_launched(launched) == Some(k),
{
    lemma_first_launched_skips(launched, 0, k);
}

proof fn lemma_first_launched_skips(launched: Seq<bool>, i: int, k: int)
    requires
        0 <= i <= k < launched.len(),
        launched[k],
        forall|j: int| i <= j < k ==> !launched[j],
    ensures
        first_launched_from(launched, i) == Some(k),
    decreases k - i,
{
    if i < k {
        lemma_first_launched_skips(launched, i + 1, k);
    }
}

/// When no candidate's probe launches, discovery fails.
pub proof fn lemma_no_launch_not_found(launched: Seq<bool>)
    requires
        forall|j: int| 0 <= j < launched.len() ==> !launched[j],
    ensures
        first_launched(launched) is None,
{
    lemma_none_from(launched, 0);
}

proof fn lemma_none_from(launched: Seq<bool>, i: int)
    requires
        0 <= i,
        forall|j: int| i <= j < launched.len() ==> !launched[j],
    ensures
        first_launched_from(launched, i) is None,
    decreases launched.len() - i,
{
    if i < launched.len() {
        lemma_none_from(launched, i + 1);
    }
}

} // verus!
