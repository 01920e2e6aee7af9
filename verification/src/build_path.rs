//! Locating the Unity WebGL build next to, or around, the server.

use vstd::prelude::*;

verus! {

/// The directories searched for a Unity build, in the order they are tried:
/// a `Build` folder next to the server, the server's own folder, a `build`
/// folder next to it, then `./Build` and `./build`.
pub open spec fn build_dir_candidates() -> Seq<Seq<char>> {
    seq!["../Build"@, "."@, "../build"@, "./Build"@, "./build"@]
}

/// The directories searched for a Unity build, in order.
pub fn build_path_candidates() -> (dirs: Vec<&'static str>)
    ensures
        dirs@.len() == build_dir_candidates().len(),
        forall|i: int| 0 <= i < dirs@.len() ==> #[trigger] dirs@[i]@ == build_dir_candidates()[i],
{
    let dirs = vec!["../Build", ".", "../build", "./Build", "./build"];
    assert(dirs@.len() == 5);
    dirs
}

/// The path of the `index.html` in `dir`, which marks a Unity build.
pub open spec fn index_html_path_of(dir: Seq<char>) -> Seq<char> {
    dir + "/index.html"@
}

/// The path of the `index.html` in `dir`.
pub fn index_html_path(dir: &str) -> (p: String)
    ensures
        p@ == index_html_path_of(dir@),
{
    let mut p = String::from_str(dir);
    p.append("/index.html");
    p
}

/// Whether something exists at `path`, by `std::path::Path::exists`. What
/// is on disk decides it, so nothing is claimed of the answer.
#[verifier::external_body]
fn path_exists(path: &str) -> bool {
    std::path::Path::new(path).exists()
}

/// The index of the first `true` in `found` at or after `i`.
pub open spec fn first_found_from(found: Seq<bool>, i: int) -> Option<int>
    decreases found.len() - i,
{
    if i < 0 || i >= found.len() {
        None
    } else if found[i] {
        Some(i)
    } else {
        first_found_from(found, i + 1)
    }
}

/// The build directory chosen when `found[i]` tells whether candidate `i`
/// holds an `index.html`: the first that does, else the first candidate.
pub open spec fn chosen_build_dir(found: Seq<bool>) -> Seq<char> {
    match first_found_from(found, 0) {
        Some(i) => build_dir_candidates()[i],
        None => build_dir_candidates()[0],
    }
}

proof fn lemma_first_found_in_range(found: Seq<bool>, i: int)
    requires
        0 <= i,
    ensures
        first_found_from(found, i) matches Some(k) ==> i <= k < found.len() && found[k],
        first_found_from(found, i) is None ==> forall|k: int| i <= k < found.len() ==> !found[k],
    decreases found.len() - i,
{
    if i < found.len() && !found[i] {
        lemma_first_found_in_range(found, i + 1);
    }
}

/// Whatever the search finds, the chosen directory is one of the candidates.
pub proof fn lemma_chosen_dir_is_candidate(found: Seq<bool>)
    requires
        found.len() == build_dir_candidates().len(),
    ensures
        build_dir_candidates().contains(chosen_build_dir(found)),
{
    lemma_first_found_in_range(found, 0);
    match first_found_from(found, 0) {
        Some(k) => assert(build_dir_candidates()[k] == chosen_build_dir(found)),
        None => assert(build_dir_candidates()[0] == chosen_build_dir(found)),
    }
}

/// Where a build search stands, by candidate index.
#[derive(Clone, Copy, Debug, PartialEq, Eq, Structural)]
pub enum BuildStep {
    /// Check the `index.html` of this candidate next.
    Check(usize),
    /// The search chose this candidate; `true` where its `index.html` was
    /// found, `false` where none was and the first candidate is the fallback.
    Chosen(usize, bool),
}

/// The next stand of the search after checking candidate `candidate`,
/// whose `index.html` `exists` tells was or was not there.
pub open spec fn build_step(candidate: usize, exists: bool) -> BuildStep {
    if exists {
        BuildStep::Chosen(candidate, true)
    } else if candidate + 1 < build_dir_candidates().len() {
        BuildStep::Check((candidate + 1) as usize)
    } else {
        BuildStep::Chosen(0, false)
    }
}

/// Where a build search stands, with the paths it works on.
pub enum BuildProbe {
    /// Check whether the file `index_path`, the `index.html` of candidate
    /// `candidate`, exists.
    Check { candidate: usize, index_path: String },
    /// The search is over: serve `dir`, candidate `candidate`; `found` tells
    /// whether its `index.html` was there.
    Chosen { candidate: usize, dir: String, found: bool },
}

/// The stand of a probe, by candidate index.
pub open spec fn probe_step(probe: BuildProbe) -> BuildStep {
    match probe {
        BuildProbe::Check { candidate, .. } => BuildStep::Check(candidate),
        BuildProbe::Chosen { candidate, found, .. } => BuildStep::Chosen(candidate, found),
    }
}

/// The paths of a probe belong to its candidate: the file to check is the
/// candidate's `index.html`, and the chosen directory is the candidate.
pub open spec fn probe_paths_fit(probe: BuildProbe) -> bool {
    match probe {
        BuildProbe::Check { candidate, index_path } => candidate < build_dir_candidates().len()
            && index_path@ == index_html_path_of(build_dir_candidates()[candidate as int]),
        BuildProbe::Chosen { candidate, dir, .. } => candidate < build_dir_candidates().len()
            && dir@ == build_dir_candidates()[candidate as int],
    }
}

fn check_candidate(candidate: usize) -> (probe: BuildProbe)
    requires
        candidate < build_dir_candidates().len(),
    ensures
        probe_step(probe) == BuildStep::Check(candidate),
        probe_paths_fit(probe),
{
    let dirs = build_path_candidates();
    BuildProbe::Check { candidate, index_path: index_html_path(dirs[candidate]) }
}

fn choose_candidate(candidate: usize, found: bool) -> (probe: BuildProbe)
    requires
        candidate < build_dir_candidates().len(),
    ensures
        probe_step(probe) == BuildStep::Chosen(candidate, found),
        probe_paths_fit(probe),
{
    let dirs = build_path_candidates();
    BuildProbe::Chosen { candidate, dir: String::from_str(dirs[candidate]), found }
}

/// The first step of the search: check the `index.html` of the first
/// candidate, `../Build/index.html`.
pub fn begin_build_search() -> (probe: BuildProbe)
    ensures
        probe_step(probe) == BuildStep::Check(0),
        probe_paths_fit(probe),
{
    check_candidate(0)
}

/// One step of the search: the `index.html` of candidate `candidate` was
/// checked, and `exists` tells whether it is there. A found build is chosen;
/// otherwise the next candidate's `index.html` is checked, and after the
/// last one the first candidate is chosen as not found.
pub fn build_search_step(candidate: usize, exists: bool) -> (probe: BuildProbe)
    requires
        candidate < build_dir_candidates().len(),
    ensures
        probe_step(probe) == build_step(candidate, exists),
        probe_paths_fit(probe),
{
    if exists {
        choose_candidate(candidate, true)
    } else if candidate + 1 < 5 {
        check_candidate(candidate + 1)
    } else {
        choose_candidate(0, false)
    }
}

/// Where the search ends when it has reached candidate `c` and candidate
/// `i` holds an `index.html` exactly when `present[i]`.
pub open spec fn build_search_outcome(present: Seq<bool>, c: int) -> BuildStep
    decreases build_dir_candidates().len() - c,
{
    if 0 <= c < build_dir_candidates().len() && c < present.len() {
        match build_step(c as usize, present[c]) {
            BuildStep::Check(n) => if c < n < build_dir_candidates().len() {
                build_search_outcome(present, n as int)
            } else {
                BuildStep::Chosen(0, false)
            },
            other => other,
        }
    } else {
        BuildStep::Chosen(0, false)
    }
}

proof fn lemma_build_search_outcome_from(present: Seq<bool>, c: int)
    requires
        present.len() == build_dir_candidates().len(),
        0 <= c < build_dir_candidates().len(),
    ensures
        build_search_outcome(present, c) == match first_found_from(present, c) {
            Some(i) => BuildStep::Chosen(i as usize, true),
            None => BuildStep::Chosen(0, false),
        },
    decreases build_dir_candidates().len() - c,
{
    let cu = c as usize;
    assert(cu as int == c);
    if !present[c] && c + 1 < build_dir_candidates().len() {
        assert(build_step(cu, false) == BuildStep::Check((cu + 1) as usize));
        lemma_build_search_outcome_from(present, c + 1);
    }
}

/// Driven from its first step with the answers for each candidate in turn,
/// the search chooses the first candidate that holds an `index.html`, as
/// found, or else the first candidate, as not found.
pub proof fn lemma_build_search_chooses_first_found(present: Seq<bool>)
    requires
        present.len() == build_dir_candidates().len(),
    ensures
        build_search_outcome(present, 0) == match first_found_from(present, 0) {
            Some(i) => BuildStep::Chosen(i as usize, true),
            None => BuildStep::Chosen(0, false),
        },
        build_search_outcome(present, 0) matches BuildStep::Chosen(c, found)
            && build_dir_candidates()[c as int] == chosen_build_dir(present)
            && found == (first_found_from(present, 0) is Some),
{
    lemma_build_search_outcome_from(present, 0);
    lemma_first_found_in_range(present, 0);
    if let Some(i) = first_found_from(present, 0) {
        assert((i as usize) as int == i);
    }
}

/// Where the build was looked for, and what was chosen.
pub struct BuildLocation {
    /// The build directory to serve.
    pub dir: String,
    /// Whether its `index.html` was found; `false` where no candidate held
    /// one and the first candidate is used.
    pub found: bool,
}

proof fn lemma_first_found_at(present: Seq<bool>, c: int, i: int)
    requires
        0 <= i <= c < present.len(),
        present[c],
        forall|k: int| 0 <= k < c ==> !present[k],
    ensures
        first_found_from(present, i) == Some(c),
    decreases c - i,
{
    if i < c {
        lemma_first_found_at(present, c, i + 1);
    }
}

proof fn lemma_none_found(present: Seq<bool>, i: int)
    requires
        0 <= i <= present.len(),
        forall|k: int| 0 <= k < present.len() ==> !present[k],
    ensures
        first_found_from(present, i) is None,
    decreases present.len() - i,
{
    if i < present.len() {
        lemma_none_found(present, i + 1);
    }
}

/// The search asked `index_exists` about the `index.html` of candidate
/// `candidate`, and was answered `answer`.
pub open spec fn answered<F: Fn(&str) -> bool>(index_exists: F, candidate: int, answer: bool) -> bool {
    exists|path: &str|
        path@ == index_html_path_of(build_dir_candidates()[candidate]) && call_ensures(
            index_exists,
            (path,),
            answer,
        )
}

/// Locates the Unity build, asking `index_exists` whether a file exists:
/// it asks about the `index.html` of each candidate directory in order,
/// stops at the first answered `true` and chooses that directory as found;
/// where every answer is `false`, the first candidate is chosen as not
/// found. Each answer the choice rests on is one that `index_exists` gave
/// for the path `candidate + "/index.html"`.
pub fn locate_unity_build_with<F: Fn(&str) -> bool>(index_exists: F) -> (loc: BuildLocation)
    requires
        forall|path: &str| call_requires(index_exists, (path,)),
    ensures
        exists|present: Seq<bool>|
            present.len() == build_dir_candidates().len() && loc.dir@ == chosen_build_dir(present)
                && loc.found == (first_found_from(present, 0) is Some) && forall|i: int|
                0 <= i < present.len() && (forall|k: int| 0 <= k < i ==> !present[k]) ==> answered(
                    index_exists,
                    i,
                    #[trigger] present[i],
                ),
        build_dir_candidates().contains(loc.dir@),
        !loc.found ==> loc.dir@ == build_dir_candidates()[0],
{
    let mut probe = begin_build_search();
    let ghost mut answers: Seq<bool> = Seq::empty();
    loop
        invariant
            probe_paths_fit(probe),
            answers.len() <= build_dir_candidates().len(),
            forall|k: int| 0 <= k < answers.len() ==> answered(index_exists, k, #[trigger] answers[k]),
            forall|path: &str| call_requires(index_exists, (path,)),
            match probe_step(probe) {
                BuildStep::Check(c) => c == answers.len() && forall|k: int|
                    0 <= k < answers.len() ==> !answers[k],
                BuildStep::Chosen(c, found) => if found {
                    c + 1 == answers.len() && answers[c as int] && forall|k: int|
                        0 <= k < c ==> !answers[k]
                } else {
                    c == 0 && answers.len() == build_dir_candidates().len() && forall|k: int|
                        0 <= k < answers.len() ==> !answers[k]
                },
            },
        decreases build_dir_candidates().len() - answers.len() + (if probe is Check { 1int } else { 0int }),
    {
        match probe {
            BuildProbe::Check { candidate, index_path } => {
                let path: &str = index_path.as_str();
                let exists = index_exists(path);
                proof {
                    assert(answered(index_exists, candidate as int, exists));
                    answers = answers.push(exists);
                    assert forall|k: int| 0 <= k < answers.len() implies answered(
                        index_exists,
                        k,
                        #[trigger] answers[k],
                    ) by {
                        if k < answers.len() - 1 {
                            assert(answers[k] == answers.drop_last()[k]);
                        }
                    }
                }
                probe = build_search_step(candidate, exists);
            },
            BuildProbe::Chosen { candidate, dir, found } => {
                let ghost present = answers + Seq::new(
                    (build_dir_candidates().len() - answers.len()) as nat,
                    |i: int| false,
                );
                proof {
                    assert(present.len() == build_dir_candidates().len());
                    if found {
                        assert forall|k: int| 0 <= k < candidate implies !present[k] by {
                            assert(present[k] == answers[k]);
                        }
                        assert(present[candidate as int] == answers[candidate as int]);
                        lemma_first_found_at(present, candidate as int, 0);
                    } else {
                        assert(present =~= answers);
                        lemma_none_found(present, 0);
                    }
                    assert(dir@ == chosen_build_dir(present));
                    assert forall|i: int|
                        0 <= i < present.len() && (forall|k: int| 0 <= k < i ==> !present[k]) implies answered(
                        index_exists,
                        i,
                        #[trigger] present[i],
                    ) by {
                        if i >= answers.len() {
                            assert(found);
                            assert(!present[candidate as int]);
                        }
                        assert(present[i] == answers[i]);
                    }
                    lemma_chosen_dir_is_candidate(present);
                }
                return BuildLocation { dir, found };
            },
        }
    }
}

/// Locates the Unity build: checks on disk the `index.html` of each
/// candidate directory in order, stops at the first that exists and chooses
/// that directory as found; where none exists, the first candidate is chosen
/// as not found. What is on disk decides the answers, so the contract speaks
/// of every possible set of answers.
pub fn locate_unity_build() -> (loc: BuildLocation)
    ensures
        exists|present: Seq<bool>|
            present.len() == build_dir_candidates().len() && loc.dir@ == chosen_build_dir(present)
                && loc.found == (first_found_from(present, 0) is Some),
        build_dir_candidates().contains(loc.dir@),
        !loc.found ==> loc.dir@ == build_dir_candidates()[0],
{
    locate_unity_build_with(path_exists)
}

/// Finds the Unity build directory: the first candidate that holds an
/// `index.html`, or the first candidate where none does.
pub fn find_unity_build_path() -> (dir: String)
    ensures
        exists|present: Seq<bool>|
            present.len() == build_dir_candidates().len() && dir@ == chosen_build_dir(present),
        build_dir_candidates().contains(dir@),
{
    locate_unity_build().dir
}

} // verus!
