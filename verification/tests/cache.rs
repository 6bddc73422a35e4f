use hyperlight_nanvix::cache::{
    cache_directory_under, candidate_path, fetched_path, find_in_local_cache, get_cache_directory,
    get_cached_binary_path, is_binary_cached, is_version_directory_name, resolve_locally, CacheProbe,
    RegistryRequest, Resolution,
};

fn probe(dir_name: &str, is_dir: bool, has_binary: bool) -> CacheProbe {
    CacheProbe { dir_name: dir_name.to_string(), is_dir, has_binary }
}

#[test]
fn cache_directory_lies_under_the_user_cache() {
    assert_eq!(
        cache_directory_under(Some("/home/alice/.cache".to_string())),
        "/home/alice/.cache/nanvix-registry"
    );
}

#[test]
fn cache_directory_falls_back_on_the_current_directory() {
    assert_eq!(cache_directory_under(None), "./nanvix-registry");
}

#[test]
fn cache_directory_of_the_process_ends_in_the_registry_name() {
    let root = get_cache_directory();
    assert!(root.ends_with("nanvix-registry"));
    assert_ne!(root, "nanvix-registry");
}

#[test]
fn version_directories_are_told_by_their_prefix() {
    assert!(is_version_directory_name("hyperlight-single-process-0.9.1"));
    assert!(is_version_directory_name("hyperlight-single-process-"));
    assert!(!is_version_directory_name("hyperlight-single-process"));
    assert!(!is_version_directory_name("hyperlight-multi-process-0.9.1"));
    assert!(!is_version_directory_name("qemu-single-process-0.9.1"));
    assert!(!is_version_directory_name(""));
}

#[test]
fn candidate_lies_under_bin() {
    assert_eq!(
        candidate_path("/c/nanvix-registry", "hyperlight-single-process-1.0", "qjs"),
        "/c/nanvix-registry/hyperlight-single-process-1.0/bin/qjs"
    );
}

#[test]
fn empty_cache_holds_nothing() {
    let probes: Vec<CacheProbe> = Vec::new();
    assert_eq!(find_in_local_cache("/c", "qjs", &probes), None);
    assert!(!is_binary_cached("/c", "qjs", &probes));
}

#[test]
fn binary_under_a_version_directory_is_found() {
    let probes = vec![probe("hyperlight-single-process-1.0", true, true)];
    assert_eq!(
        find_in_local_cache("/c", "qjs", &probes),
        Some("/c/hyperlight-single-process-1.0/bin/qjs".to_string())
    );
    assert!(is_binary_cached("/c", "qjs", &probes));
}

#[test]
fn binary_is_cached_only_under_a_matching_directory_that_holds_it() {
    let other_machine = vec![probe("qemu-single-process-1.0", true, true)];
    assert_eq!(find_in_local_cache("/c", "qjs", &other_machine), None);
    assert!(!is_binary_cached("/c", "qjs", &other_machine));

    let not_a_directory = vec![probe("hyperlight-single-process-1.0", false, true)];
    assert_eq!(find_in_local_cache("/c", "qjs", &not_a_directory), None);
    assert!(!is_binary_cached("/c", "qjs", &not_a_directory));

    let without_binary = vec![probe("hyperlight-single-process-1.0", true, false)];
    assert_eq!(find_in_local_cache("/c", "qjs", &without_binary), None);
    assert!(!is_binary_cached("/c", "qjs", &without_binary));
}

#[test]
fn first_match_wins() {
    let probes = vec![
        probe("README", false, false),
        probe("hyperlight-single-process-1.0", true, false),
        probe("hyperlight-single-process-2.0", true, true),
        probe("hyperlight-single-process-3.0", true, true),
    ];
    assert_eq!(
        find_in_local_cache("/c", "python3", &probes),
        Some("/c/hyperlight-single-process-2.0/bin/python3".to_string())
    );
}

#[test]
fn is_cached_gives_the_same_answer_when_asked_again() {
    let probes = vec![
        probe("hyperlight-single-process-1.0", true, false),
        probe("hyperlight-single-process-2.0", true, true),
    ];
    let first = is_binary_cached("/c", "kernel.elf", &probes);
    let second = is_binary_cached("/c", "kernel.elf", &probes);
    assert!(first);
    assert_eq!(first, second);
}

#[test]
fn local_match_asks_nothing_of_the_registry() {
    let probes = vec![probe("hyperlight-single-process-1.0", true, true)];
    assert_eq!(
        get_cached_binary_path("/c", "qjs", &probes),
        Resolution::Cached("/c/hyperlight-single-process-1.0/bin/qjs".to_string())
    );
}

#[test]
fn local_miss_asks_the_registry() {
    let probes = vec![probe("hyperlight-single-process-1.0", true, false)];
    assert_eq!(
        get_cached_binary_path("/c", "qjs", &probes),
        Resolution::Fetch(RegistryRequest {
            machine: "hyperlight".to_string(),
            deployment: "single-process".to_string(),
            binary_name: "qjs".to_string(),
        })
    );
}

#[test]
fn resolution_follows_the_local_probe() {
    assert_eq!(
        resolve_locally(Some("/c/x/bin/qjs".to_string()), "qjs"),
        Resolution::Cached("/c/x/bin/qjs".to_string())
    );
    assert_eq!(
        resolve_locally(None, "kernel.elf"),
        Resolution::Fetch(RegistryRequest {
            machine: "hyperlight".to_string(),
            deployment: "single-process".to_string(),
            binary_name: "kernel.elf".to_string(),
        })
    );
}

#[test]
fn registry_failure_is_an_absence() {
    assert_eq!(fetched_path(Ok("/c/x/bin/qjs".to_string())), Some("/c/x/bin/qjs".to_string()));
    assert_eq!(fetched_path(Err("no such package".to_string())), None);
}

#[test]
fn fetched_binary_is_cached_once_the_cache_is_read_again() {
    let cold: Vec<CacheProbe> = Vec::new();
    let request = match get_cached_binary_path("/c", "qjs", &cold) {
        Resolution::Fetch(request) => request,
        Resolution::Cached(path) => panic!("cold cache held {}", path),
    };
    let unpacked = format!("{}-{}-1.4.0", request.machine, request.deployment);
    let delivered = candidate_path("/c", &unpacked, &request.binary_name);
    assert_eq!(fetched_path(Ok(delivered.clone())), Some(delivered.clone()));
    let warm = vec![probe(&unpacked, true, true)];
    assert!(is_binary_cached("/c", "qjs", &warm));
    assert_eq!(find_in_local_cache("/c", "qjs", &warm), Some(delivered));
}
