//! Workload kinds and their classification from a path.

use vstd::prelude::*;
use vstd::string::*;
use crate::paths::{extension_of, lowercase, path_extension, to_lowercase};
use crate::text::same_text;

verus! {

/// Supported workload types.
#[derive(Debug, Clone, Copy, PartialEq, Eq, Structural)]
pub enum WorkloadType {
    JavaScript,
    Python,
    Binary,
}

/// The workload type that a lowercase extension stands for, if any.
pub open spec fn kind_of_extension(ext: Seq<char>) -> Option<WorkloadType> {
    if ext == "js"@ || ext == "mjs"@ {
        Some(WorkloadType::JavaScript)
    } else if ext == "py"@ {
        Some(WorkloadType::Python)
    } else if ext == "elf"@ || ext == "o"@ {
        Some(WorkloadType::Binary)
    } else {
        None
    }
}

/// What the extension of a path says of its workload type.
#[derive(Debug, Clone, Copy, PartialEq, Eq, Structural)]
pub enum ExtensionVerdict {
    /// The extension is that of the given workload type.
    Known(WorkloadType),
    /// The extension belongs to no workload type.
    Unknown,
    /// The path has no extension.
    Absent,
}

/// The verdict on an extension as the path library found it, `None` where the
/// path has none. An extension counts whatever its case.
pub open spec fn extension_verdict(ext: Option<Seq<char>>) -> ExtensionVerdict {
    match ext {
        Some(e) => match kind_of_extension(lowercase(e)) {
            Some(kind) => ExtensionVerdict::Known(kind),
            None => ExtensionVerdict::Unknown,
        },
        None => ExtensionVerdict::Absent,
    }
}

/// The workload type that follows from a verdict. Only where the extension
/// is absent does it matter whether the path names a regular file: such a
/// file is taken for a binary.
pub open spec fn decide(verdict: ExtensionVerdict, is_regular_file: bool) -> Option<WorkloadType> {
    match verdict {
        ExtensionVerdict::Known(kind) => Some(kind),
        ExtensionVerdict::Unknown => None,
        ExtensionVerdict::Absent => if is_regular_file {
            Some(WorkloadType::Binary)
        } else {
            None
        },
    }
}

/// The classification of a path from its extension, if it has one, and from
/// whether it names a regular file, if it has none.
pub open spec fn classify(ext: Option<Seq<char>>, is_regular_file: bool) -> Option<WorkloadType> {
    decide(extension_verdict(ext), is_regular_file)
}

impl WorkloadType {
    /// The name of the interpreter binary of this workload type.
    pub open spec fn spec_binary_name(self) -> Seq<char> {
        match self {
            WorkloadType::JavaScript => "qjs"@,
            WorkloadType::Python => "python3"@,
            WorkloadType::Binary => "binary"@,
        }
    }

    /// The registry package that provides the interpreter, if one is needed.
    pub open spec fn spec_package_name(self) -> Option<Seq<char>> {
        match self {
            WorkloadType::JavaScript => Some("quickjs"@),
            WorkloadType::Python => Some("python"@),
            WorkloadType::Binary => None,
        }
    }

    /// The file extensions of this workload type, in lowercase.
    pub open spec fn spec_extensions(self) -> Seq<Seq<char>> {
        match self {
            WorkloadType::JavaScript => seq!["js"@, "mjs"@],
            WorkloadType::Python => seq!["py"@],
            WorkloadType::Binary => seq!["elf"@, "o"@],
        }
    }

    /// Get the interpreter binary name for this workload type. A binary
    /// workload needs no interpreter; its name here is a placeholder.
    pub fn binary_name(&self) -> (r: &'static str)
        ensures
            r@ == self.spec_binary_name(),
    {
        match self {
            WorkloadType::JavaScript => "qjs",
            WorkloadType::Python => "python3",
            WorkloadType::Binary => "binary",
        }
    }

    /// Get the registry package name for this workload type.
    /// Returns `None` for workload types that don't require a package installation.
    pub fn package_name(&self) -> (r: Option<&'static str>)
        ensures
            r is Some == self.spec_package_name() is Some,
            r matches Some(name) ==> name@ == self.spec_package_name()->0,
    {
        match self {
            WorkloadType::JavaScript => Some("quickjs"),
            WorkloadType::Python => Some("python"),
            WorkloadType::Binary => None,
        }
    }

    /// Get the file extensions associated with this workload type.
    pub fn extensions(&self) -> (r: &'static [&'static str])
        ensures
            r@.len() == self.spec_extensions().len(),
            forall|i: int| 0 <= i < r@.len() ==> (#[trigger] r@[i])@ == self.spec_extensions()[i],
    {
        match self {
            WorkloadType::JavaScript => &["js", "mjs"],
            WorkloadType::Python => &["py"],
            WorkloadType::Binary => &["elf", "o"],
        }
    }

    /// The workload type of a lowercase extension.
    pub fn from_extension(ext: &str) -> (r: Option<Self>)
        ensures
            r == kind_of_extension(ext@),
    {
        if same_text(ext, "js") || same_text(ext, "mjs") {
            Some(WorkloadType::JavaScript)
        } else if same_text(ext, "py") {
            Some(WorkloadType::Python)
        } else if same_text(ext, "elf") || same_text(ext, "o") {
            Some(WorkloadType::Binary)
        } else {
            None
        }
    }

    /// The workload type that follows from a verdict on the extension and,
    /// where the extension is absent, from whether the path names a regular
    /// file.
    pub fn from_verdict(verdict: ExtensionVerdict, is_regular_file: bool) -> (r: Option<Self>)
        ensures
            r == decide(verdict, is_regular_file),
    {
        match verdict {
            ExtensionVerdict::Known(kind) => Some(kind),
            ExtensionVerdict::Unknown => None,
            ExtensionVerdict::Absent => if is_regular_file {
                Some(WorkloadType::Binary)
            } else {
                None
            },
        }
    }

    /// Detect workload type from file extension. `is_regular_file` says
    /// whether the path names a regular file; it is consulted only for a path
    /// without extension.
    pub fn from_path(path: &str, is_regular_file: bool) -> (r: Option<Self>)
        ensures
            r == classify(path_extension(path@), is_regular_file),
    {
        Self::from_verdict(ExtensionVerdict::of_path(path), is_regular_file)
    }
}

impl ExtensionVerdict {
    /// The verdict on a lowercase extension.
    pub fn of_lowercase(ext: &str) -> (r: Self)
        ensures
            r == (match kind_of_extension(ext@) {
                Some(kind) => ExtensionVerdict::Known(kind),
                None => ExtensionVerdict::Unknown,
            }),
    {
        match WorkloadType::from_extension(ext) {
            Some(kind) => ExtensionVerdict::Known(kind),
            None => ExtensionVerdict::Unknown,
        }
    }

    /// The verdict on the extension of `path`. Reads nothing but the text of
    /// the path.
    pub fn of_path(path: &str) -> (r: Self)
        ensures
            r == extension_verdict(path_extension(path@)),
    {
        match extension_of(path) {
            Some(e) => {
                let lowered = to_lowercase(e.as_str());
                Self::of_lowercase(lowered.as_str())
            },
            None => ExtensionVerdict::Absent,
        }
    }
}

/// Every extension that a workload type lists is classified as that type.
pub proof fn lemma_listed_extension_is_classified(kind: WorkloadType, i: int)
    requires
        0 <= i < kind.spec_extensions().len(),
    ensures
        kind_of_extension(kind.spec_extensions()[i]) == Some(kind),
{
    reveal_strlit("js");
    reveal_strlit("mjs");
    reveal_strlit("py");
    reveal_strlit("elf");
    reveal_strlit("o");
    assert("js"@.len() == 2 && "mjs"@.len() == 3 && "py"@.len() == 2 && "elf"@.len() == 3 && "o"@.len() == 1);
    assert("js"@[0] == 'j' && "py"@[0] == 'p' && "mjs"@[0] == 'm' && "elf"@[0] == 'e');
}

/// An extension is classified as a workload type only if that type lists it;
/// every other extension is unsupported.
pub proof fn lemma_classified_extension_is_listed(ext: Seq<char>)
    ensures
        match kind_of_extension(ext) {
            Some(kind) => kind.spec_extensions().contains(ext),
            None => forall|kind: WorkloadType| !(#[trigger] kind.spec_extensions()).contains(ext),
        },
{
    reveal_strlit("js");
    reveal_strlit("mjs");
    reveal_strlit("py");
    reveal_strlit("elf");
    reveal_strlit("o");
    let len_facts = "js"@.len() == 2 && "mjs"@.len() == 3 && "py"@.len() == 2 && "elf"@.len() == 3
        && "o"@.len() == 1;
    let head_facts = "js"@[0] == 'j' && "py"@[0] == 'p' && "mjs"@[0] == 'm' && "elf"@[0] == 'e';
    assert(len_facts && head_facts);
    if ext == "js"@ {
        assert(WorkloadType::JavaScript.spec_extensions()[0] == ext);
    } else if ext == "mjs"@ {
        assert(WorkloadType::JavaScript.spec_extensions()[1] == ext);
    } else if ext == "py"@ {
        assert(WorkloadType::Python.spec_extensions()[0] == ext);
    } else if ext == "elf"@ {
        assert(WorkloadType::Binary.spec_extensions()[0] == ext);
    } else if ext == "o"@ {
        assert(WorkloadType::Binary.spec_extensions()[1] == ext);
    } else {
        assert forall|kind: WorkloadType| !(#[trigger] kind.spec_extensions()).contains(ext) by {
            let listed = kind.spec_extensions();
            if listed.contains(ext) {
                let i = choose|i: int| 0 <= i < listed.len() && listed[i] == ext;
                assert(listed[i] == ext);
            }
        }
    }
}

/// A path without extension is classified by whether it names a regular
/// file, and then as a binary; a path with an extension never consults the
/// file system.
pub proof fn lemma_classify_without_extension(is_regular_file: bool)
    ensures
        classify(None, is_regular_file) == (if is_regular_file {
            Some(WorkloadType::Binary)
        } else {
            None
        }),
        forall|e: Seq<char>| #[trigger] classify(Some(e), true) == classify(Some(e), false),
{
}

} // verus!
