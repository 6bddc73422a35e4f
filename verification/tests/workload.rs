use hyperlight_nanvix::workload::{ExtensionVerdict, WorkloadType};

#[test]
fn binary_names_are_fixed() {
    assert_eq!(WorkloadType::JavaScript.binary_name(), "qjs");
    assert_eq!(WorkloadType::Python.binary_name(), "python3");
    assert_eq!(WorkloadType::Binary.binary_name(), "binary");
}

#[test]
fn package_names_are_fixed() {
    assert_eq!(WorkloadType::JavaScript.package_name(), Some("quickjs"));
    assert_eq!(WorkloadType::Python.package_name(), Some("python"));
    assert_eq!(WorkloadType::Binary.package_name(), None);
}

#[test]
fn extensions_are_fixed() {
    assert_eq!(WorkloadType::JavaScript.extensions(), &["js", "mjs"]);
    assert_eq!(WorkloadType::Python.extensions(), &["py"]);
    assert_eq!(WorkloadType::Binary.extensions(), &["elf", "o"]);
}

#[test]
fn every_listed_extension_is_classified_as_its_type() {
    for kind in [WorkloadType::JavaScript, WorkloadType::Python, WorkloadType::Binary] {
        for ext in kind.extensions() {
            assert_eq!(WorkloadType::from_extension(ext), Some(kind));
            let path = format!("dir/workload.{}", ext);
            assert_eq!(WorkloadType::from_path(&path, false), Some(kind));
            assert_eq!(WorkloadType::from_path(&path, true), Some(kind));
        }
    }
}

#[test]
fn javascript_extension_is_classified() {
    assert_eq!(WorkloadType::from_path("file_ops.js", false), Some(WorkloadType::JavaScript));
    assert_eq!(WorkloadType::from_path("module.mjs", false), Some(WorkloadType::JavaScript));
}

#[test]
fn python_extension_is_classified() {
    assert_eq!(WorkloadType::from_path("script.py", false), Some(WorkloadType::Python));
}

#[test]
fn binary_extensions_are_classified() {
    assert_eq!(WorkloadType::from_path("/opt/app/program.elf", false), Some(WorkloadType::Binary));
    assert_eq!(WorkloadType::from_path("unit.o", false), Some(WorkloadType::Binary));
}

#[test]
fn extension_case_is_ignored() {
    assert_eq!(WorkloadType::from_path("FILE.JS", false), Some(WorkloadType::JavaScript));
    assert_eq!(WorkloadType::from_path("Module.MjS", false), Some(WorkloadType::JavaScript));
    assert_eq!(WorkloadType::from_path("Script.Py", false), Some(WorkloadType::Python));
    assert_eq!(WorkloadType::from_path("a.ELF", true), Some(WorkloadType::Binary));
    assert_eq!(WorkloadType::from_path("a.O", false), Some(WorkloadType::Binary));
}

#[test]
fn unsupported_extensions_are_rejected() {
    assert_eq!(WorkloadType::from_path("program.xyz", false), None);
    assert_eq!(WorkloadType::from_path("program.xyz", true), None);
    assert_eq!(WorkloadType::from_path("notes.txt", true), None);
    assert_eq!(WorkloadType::from_path("archive.tar.gz", true), None);
    assert_eq!(WorkloadType::from_path("script.pyc", true), None);
    assert_eq!(WorkloadType::from_path("script.jsx", true), None);
}

#[test]
fn only_the_last_extension_counts() {
    assert_eq!(WorkloadType::from_path("bundle.py.js", false), Some(WorkloadType::JavaScript));
    assert_eq!(WorkloadType::from_path("bundle.js.py", false), Some(WorkloadType::Python));
}

#[test]
fn extensionless_regular_file_is_a_binary() {
    assert_eq!(WorkloadType::from_path("/usr/bin/program", true), Some(WorkloadType::Binary));
}

#[test]
fn extensionless_path_that_is_no_file_is_rejected() {
    assert_eq!(WorkloadType::from_path("/usr/bin/program", false), None);
    assert_eq!(WorkloadType::from_path("", false), None);
}

#[test]
fn hidden_file_has_no_extension() {
    assert_eq!(WorkloadType::from_path(".py", false), None);
    assert_eq!(WorkloadType::from_path(".py", true), Some(WorkloadType::Binary));
}

#[test]
fn from_extension_takes_lowercase_only() {
    assert_eq!(WorkloadType::from_extension("js"), Some(WorkloadType::JavaScript));
    assert_eq!(WorkloadType::from_extension("mjs"), Some(WorkloadType::JavaScript));
    assert_eq!(WorkloadType::from_extension("py"), Some(WorkloadType::Python));
    assert_eq!(WorkloadType::from_extension("elf"), Some(WorkloadType::Binary));
    assert_eq!(WorkloadType::from_extension("o"), Some(WorkloadType::Binary));
    assert_eq!(WorkloadType::from_extension("JS"), None);
    assert_eq!(WorkloadType::from_extension(""), None);
    assert_eq!(WorkloadType::from_extension("xyz"), None);
}

#[test]
fn verdict_of_a_path_reads_its_extension() {
    assert_eq!(ExtensionVerdict::of_path("a.js"), ExtensionVerdict::Known(WorkloadType::JavaScript));
    assert_eq!(ExtensionVerdict::of_path("a.PY"), ExtensionVerdict::Known(WorkloadType::Python));
    assert_eq!(ExtensionVerdict::of_path("program.xyz"), ExtensionVerdict::Unknown);
    assert_eq!(ExtensionVerdict::of_path("program"), ExtensionVerdict::Absent);
    assert_eq!(ExtensionVerdict::of_path("dir.d/program"), ExtensionVerdict::Absent);
}

#[test]
fn verdict_of_a_lowercase_extension() {
    assert_eq!(ExtensionVerdict::of_lowercase("o"), ExtensionVerdict::Known(WorkloadType::Binary));
    assert_eq!(ExtensionVerdict::of_lowercase("PY"), ExtensionVerdict::Unknown);
}

#[test]
fn verdict_decides_the_type() {
    let known = ExtensionVerdict::Known(WorkloadType::Python);
    assert_eq!(WorkloadType::from_verdict(known, false), Some(WorkloadType::Python));
    assert_eq!(WorkloadType::from_verdict(known, true), Some(WorkloadType::Python));
    assert_eq!(WorkloadType::from_verdict(ExtensionVerdict::Unknown, true), None);
    assert_eq!(WorkloadType::from_verdict(ExtensionVerdict::Absent, true), Some(WorkloadType::Binary));
    assert_eq!(WorkloadType::from_verdict(ExtensionVerdict::Absent, false), None);
}
