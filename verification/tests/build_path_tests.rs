use unity_web_server::build_path::{
    begin_build_search, build_path_candidates, build_search_step, find_unity_build_path,
    index_html_path, locate_unity_build, BuildProbe,
};

#[test]
fn candidates_in_search_order() {
    assert_eq!(build_path_candidates(), vec!["../Build", ".", "../build", "./Build", "./build"]);
}

#[test]
fn index_path_in_directory() {
    assert_eq!(index_html_path("../Build"), "../Build/index.html");
    assert_eq!(index_html_path("."), "./index.html");
}

/// Drives the search with the given answers, recording the files checked.
fn run(present: [bool; 5]) -> (String, bool, Vec<String>) {
    let mut checked = Vec::new();
    let mut probe = begin_build_search();
    loop {
        match probe {
            BuildProbe::Check { candidate, index_path } => {
                checked.push(index_path);
                probe = build_search_step(candidate, present[candidate]);
            }
            BuildProbe::Chosen { dir, found, .. } => return (dir, found, checked),
        }
    }
}

#[test]
fn first_found_candidate_wins() {
    let (dir, found, checked) = run([false, true, true, false, false]);
    assert_eq!(dir, ".");
    assert!(found);
    assert_eq!(checked, vec!["../Build/index.html", "./index.html"]);
    assert_eq!(run([true, true, true, true, true]).0, "../Build");
    assert_eq!(run([false, false, false, false, true]).0, "./build");
    assert_eq!(run([false, false, true, false, true]).0, "../build");
}

#[test]
fn nothing_found_falls_back_to_first() {
    let (dir, found, checked) = run([false; 5]);
    assert_eq!(dir, "../Build");
    assert!(!found);
    assert_eq!(
        checked,
        vec![
            "../Build/index.html",
            "./index.html",
            "../build/index.html",
            "./Build/index.html",
            "./build/index.html"
        ]
    );
}

#[test]
fn found_path_is_a_candidate() {
    let dir = find_unity_build_path();
    assert!(build_path_candidates().contains(&dir.as_str()));
    let loc = locate_unity_build();
    assert_eq!(loc.dir, dir);
    assert!(loc.found || loc.dir == "../Build");
}
