use kicad_grok::project_path::get_project_path;

const DIRECTORIES: [&str; 6] = [
    "/",
    "/work",
    "/work/kicad",
    "/work/kicad/database",
    "/work/kicad/database/src",
    "/work/kicad/database/src/utilities",
];

const ENTRIES: [&str; 3] = [
    "/work/kicad/.git",
    "/work/kicad/backend",
    "/work/kicad/database/src/utilities/get_project_path.rs",
];

fn is_dir(path: &str) -> bool {
    DIRECTORIES.contains(&path)
}

fn is_present(path: &str) -> bool {
    DIRECTORIES.contains(&path) || ENTRIES.contains(&path)
}

fn holds_git(directory: &String) -> bool {
    is_present(&format!("{}/{}", directory.trim_end_matches('/'), ".git"))
}

#[test]
fn test_get_project_path() {
    let result = get_project_path(
        "/work/kicad/database/src/utilities/get_project_path.rs",
        holds_git,
    );
    assert!(result.is_ok(), "Should find the project repository directory");

    let path = result.unwrap();

    println!("Project repository path: {}", path);

    assert!(is_dir(&path), "Path should be a directory");

    let git_dir = format!("{}/{}", path, ".git");
    assert!(is_present(&git_dir), "Should find .git directory in repo base");
}

#[test]
fn project_path_is_the_nearest_base() {
    let asked = std::cell::RefCell::new(Vec::new());
    let result = get_project_path("/a/b/c/d.rs", |directory: &String| {
        asked.borrow_mut().push(directory.clone());
        directory == "/a/b" || directory == "/a"
    });
    assert_eq!(result, Ok("/a/b".to_string()));
    assert_eq!(
        asked.into_inner(),
        vec!["/a/b/c/d.rs".to_string(), "/a/b/c".to_string(), "/a/b".to_string()]
    );
}

#[test]
fn project_path_may_be_the_start_itself() {
    let result = get_project_path("/repo", |directory: &String| directory == "/repo");
    assert_eq!(result, Ok("/repo".to_string()));
}

#[test]
fn project_path_not_found_names_the_start() {
    let asked = std::cell::RefCell::new(Vec::new());
    let result = get_project_path("/a/b/c.rs", |directory: &String| {
        asked.borrow_mut().push(directory.clone());
        false
    });
    assert_eq!(
        result,
        Err(
            "Repository main directory not found or .git wasn't found. Started from: /a/b/c.rs"
                .to_string()
        )
    );
    assert_eq!(
        asked.into_inner(),
        vec!["/a/b/c.rs".to_string(), "/a/b".to_string(), "/a".to_string(), "/".to_string()]
    );
}
