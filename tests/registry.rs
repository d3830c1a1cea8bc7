use std::cell::Cell;

use trading_desk::error::ErrorKind;
use trading_desk::load::{
    build_output_dir, is_plugin_file, plugin_files, scan_plan, AbiVersion, Algorithm, AlgorithmRegistration, Algorithms,
    BuildDir, FileEntry, ScanEntry,
};

fn this_process() -> libloading::Library {
    libloading::Library::from(libloading::os::unix::Library::this())
}

fn host() -> AbiVersion {
    AbiVersion { rustc_version: "1.70.0".to_string(), utils_version: "0.1.0".to_string() }
}

fn record(name: &str, rustc: &str, utils: &str) -> AlgorithmRegistration {
    AlgorithmRegistration {
        rustc_version: rustc.to_string(),
        utils_version: utils.to_string(),
        name: name.to_string(),
    }
}

#[test]
fn matching_plugin_loads_and_is_found_by_name() {
    let mut algorithms: Algorithms<String> = Algorithms::empty();
    let calls = Cell::new(0);
    let r = algorithms.load(
        &host(),
        record("A", "1.70.0", "0.1.0"),
        "./algorithms/liba.so".to_string(),
        this_process(),
        || {
            calls.set(calls.get() + 1);
            "state of A".to_string()
        },
    );
    assert!(r.is_ok());
    assert_eq!(calls.get(), 1);
    assert!(algorithms.contains("A"));
    let a = algorithms.get("A").unwrap();
    assert_eq!(a.name(), "A");
    assert_eq!(a.path(), "./algorithms/liba.so");
    assert_eq!(a.algorithm(), "state of A");
    assert!(algorithms.get("B").is_none());
}

#[test]
fn mismatched_versions_are_refused() {
    let mut algorithms: Algorithms<String> = Algorithms::empty();
    let calls = Cell::new(0);
    let err = algorithms
        .load(&host(), record("B", "1.69.0", "0.1.0"), "libb.so".to_string(), this_process(), || {
            calls.set(calls.get() + 1);
            String::new()
        })
        .unwrap_err();
    assert_eq!(err.kind(), ErrorKind::MisMatchedVersion);
    assert_eq!(
        err.msg(),
        "The algorithm `B` has a mismatched version!\nAlgorithm version: [1.69.0/0.1.0]\nUtils version: [1.70.0/0.1.0]"
    );
    assert_eq!(calls.get(), 0);
    assert!(!algorithms.contains("B"));

    let err = algorithms
        .load(&host(), record("C", "1.70.0", "0.2.0"), "libc.so".to_string(), this_process(), || String::new())
        .unwrap_err();
    assert_eq!(err.kind(), ErrorKind::MisMatchedVersion);
    assert!(!algorithms.contains("C"));
}

#[test]
fn second_plugin_with_the_same_name_is_refused() {
    let mut algorithms: Algorithms<String> = Algorithms::empty();
    algorithms
        .load(&host(), record("A", "1.70.0", "0.1.0"), "first.so".to_string(), this_process(), || "first".to_string())
        .unwrap();
    let calls = Cell::new(0);
    let err = algorithms
        .load(&host(), record("A", "1.70.0", "0.1.0"), "second.so".to_string(), this_process(), || {
            calls.set(calls.get() + 1);
            "second".to_string()
        })
        .unwrap_err();
    assert_eq!(err.kind(), ErrorKind::LibLoading);
    assert_eq!(err.msg(), "Algorithm already exists");
    assert_eq!(calls.get(), 0);
    let a = algorithms.get("A").unwrap();
    assert_eq!(a.path(), "first.so");
    assert_eq!(a.algorithm(), "first");
}

#[test]
fn matching_and_mismatched_plugins_from_one_directory() {
    let mut algorithms: Algorithms<String> = Algorithms::empty();
    let a = algorithms.load(&host(), record("A", "1.70.0", "0.1.0"), "dir/liba.so".to_string(), this_process(), || {
        "A".to_string()
    });
    let b = algorithms.load(&host(), record("B", "0.0.1", "0.1.0"), "dir/libb.so".to_string(), this_process(), || {
        "B".to_string()
    });
    assert!(a.is_ok());
    assert!(algorithms.contains("A"));
    assert!(!algorithms.contains("B"));
    let err = b.unwrap_err();
    assert_eq!(err.kind(), ErrorKind::MisMatchedVersion);
    assert!(err.msg().contains("[0.0.1/0.1.0]"));
    assert!(err.msg().contains("[1.70.0/0.1.0]"));
}

#[test]
fn get_mut_reaches_the_capability_object() {
    let mut algorithms: Algorithms<Vec<u64>> = Algorithms::empty();
    algorithms
        .load(&host(), record("A", "1.70.0", "0.1.0"), "a.so".to_string(), this_process(), || vec![1])
        .unwrap();
    algorithms.get_mut("A").unwrap().algorithm_mut().push(2);
    assert_eq!(algorithms.get("A").unwrap().algorithm(), &vec![1, 2]);
    assert!(algorithms.get_mut("Z").is_none());
}

#[test]
fn registry_listing() {
    let mut algorithms: Algorithms<u8> = Algorithms::empty();
    assert_eq!(algorithms.describe(), "ALGORITHMS:\t");
    algorithms.load(&host(), record("A", "1.70.0", "0.1.0"), "a.so".to_string(), this_process(), || 1).unwrap();
    algorithms.load(&host(), record("B", "1.70.0", "0.1.0"), "b.so".to_string(), this_process(), || 2).unwrap();
    assert_eq!(algorithms.describe(), "ALGORITHMS:\t\n\tA (a.so)\n\tB (b.so)");
}

#[test]
fn loaded_algorithm_unit() {
    let a = Algorithm::new("X".to_string(), "x.so".to_string(), 7u32, this_process());
    assert_eq!(a.name(), "X");
    assert_eq!(a.path(), "x.so");
    assert_eq!(*a.algorithm(), 7);
    assert_eq!(a.describe(), "X (x.so)");
}

#[test]
fn registration_matches_only_equal_versions() {
    assert!(record("A", "1.70.0", "0.1.0").matches(&host()));
    assert!(!record("A", "1.70.1", "0.1.0").matches(&host()));
    assert!(!record("A", "1.70.0", "0.1").matches(&host()));
}

#[test]
fn build_output_is_chosen_release_first() {
    assert_eq!(build_output_dir("algo", true, true).unwrap(), BuildDir::Release);
    assert_eq!(build_output_dir("algo", true, false).unwrap(), BuildDir::Release);
    assert_eq!(build_output_dir("algo", false, true).unwrap(), BuildDir::Debug);
    let err = build_output_dir("algo", false, false).unwrap_err();
    assert_eq!(err.kind(), ErrorKind::IO);
    assert_eq!(err.msg(), "No algorithm in this directory \"algo\"");
}

fn entry(name: &str, is_file: bool, is_dir: bool, has_release: bool, has_debug: bool) -> ScanEntry {
    ScanEntry { name: name.to_string(), is_file, is_dir, has_release, has_debug }
}

#[test]
fn plugin_files_are_recognised_by_extension() {
    assert!(is_plugin_file("liba.so", true, "so"));
    assert!(is_plugin_file("a.b.so", true, "so"));
    assert!(!is_plugin_file("liba.so", false, "so"));
    assert!(!is_plugin_file(".so", true, "so"));
    assert!(!is_plugin_file("liba.sox", true, "so"));
    assert!(!is_plugin_file("libaso", true, "so"));
    assert!(!is_plugin_file("so", true, "so"));
    assert!(is_plugin_file("a.dll", true, "dll"));
}

#[test]
fn scan_plan_lists_binaries_and_build_outputs() {
    let entries = vec![
        entry("libb.so", true, false, false, false),
        entry("notes.txt", true, false, false, false),
        entry("crate_a", false, true, true, true),
        entry("crate_c", false, true, false, true),
        entry("liba.so", true, false, false, false),
    ];
    let steps = scan_plan(&entries, "so").unwrap();
    let seen: Vec<(String, Option<BuildDir>)> = steps.into_iter().map(|s| (s.name, s.build)).collect();
    assert_eq!(
        seen,
        vec![
            ("libb.so".to_string(), None),
            ("crate_a".to_string(), Some(BuildDir::Release)),
            ("crate_c".to_string(), Some(BuildDir::Debug)),
            ("liba.so".to_string(), None),
        ]
    );
}

#[test]
fn scan_plan_fails_on_a_directory_without_build() {
    let entries = vec![entry("liba.so", true, false, false, false), entry("empty", false, true, false, false)];
    let err = scan_plan(&entries, "so").unwrap_err();
    assert_eq!(err.kind(), ErrorKind::IO);
    assert_eq!(err.msg(), "No algorithm in this directory \"empty\"");
}

#[test]
fn build_output_plugins() {
    let files = vec![
        FileEntry { name: "liba.so".to_string(), is_file: true },
        FileEntry { name: "liba.d".to_string(), is_file: true },
        FileEntry { name: "deps.so".to_string(), is_file: false },
        FileEntry { name: "libb.so".to_string(), is_file: true },
    ];
    assert_eq!(plugin_files(&files, "so"), vec!["liba.so".to_string(), "libb.so".to_string()]);
}

#[test]
fn mismatched_plugin_first_does_not_stop_the_next() {
    let mut algorithms: Algorithms<String> = Algorithms::empty();
    let b = algorithms.load(&host(), record("B", "0.0.1", "0.1.0"), "dir/libb.so".to_string(), this_process(), || {
        "B".to_string()
    });
    let a = algorithms.load(&host(), record("A", "1.70.0", "0.1.0"), "dir/liba.so".to_string(), this_process(), || {
        "A".to_string()
    });
    assert!(b.is_err());
    assert!(a.is_ok());
    assert!(algorithms.contains("A"));
    assert!(!algorithms.contains("B"));
    assert_eq!(algorithms.get("A").unwrap().name(), "A");
    assert_eq!(algorithms.get("A").unwrap().path(), "dir/liba.so");
}
