use symbiotic::paths::bin_dir;
use symbiotic::paths::is_valid_name;
use symbiotic::paths::payload_path;
use symbiotic::paths::pip_path;
use symbiotic::paths::python_path;
use symbiotic::paths::script_path;
use symbiotic::paths::venv_path;

#[test]
fn venv_path_workshop() {
    assert_eq!(
        venv_path("/Users/mars", "workshop"),
        "/Users/mars/.symbiotic/workshop"
    );
}

#[test]
fn venv_path_deterministic() {
    let first = venv_path("/Users/mars", "workshop");
    let second = venv_path("/Users/mars", "workshop");
    assert_eq!(first, second);
}

#[test]
fn venv_path_depends_on_both_inputs() {
    assert_ne!(
        venv_path("/Users/mars", "workshop"),
        venv_path("/Users/mars", "other")
    );
    assert_ne!(
        venv_path("/Users/mars", "workshop"),
        venv_path("/home/mars", "workshop")
    );
}

#[test]
fn artifact_paths_inside_environment() {
    let venv = venv_path("/Users/mars", "workshop");
    assert_eq!(bin_dir(&venv), "/Users/mars/.symbiotic/workshop/bin");
    assert_eq!(pip_path(&venv), "/Users/mars/.symbiotic/workshop/bin/pip");
    assert_eq!(
        python_path(&venv),
        "/Users/mars/.symbiotic/workshop/bin/python"
    );
    assert_eq!(
        payload_path(&venv),
        "/Users/mars/.symbiotic/workshop/bin/symbiotic.py"
    );
    assert_eq!(
        script_path(&venv),
        "/Users/mars/.symbiotic/workshop/bin/run.sh"
    );
}

#[test]
fn name_validation() {
    assert!(is_valid_name("workshop"));
    assert!(is_valid_name("work.shop"));
    assert!(is_valid_name("a"));
    assert!(!is_valid_name(""));
    assert!(!is_valid_name("work/shop"));
    assert!(!is_valid_name(".."));
    assert!(!is_valid_name("a..b"));
    assert!(!is_valid_name("../etc"));
}
