//! The local cache of binaries, and the lookup that falls back on the
//! registry.
//!
//! The cache root holds one directory per installed version, named
//! `<machine>-<deployment>-<version>`, with the binaries under `bin/`. This
//! layout is the registry's; the runtime only reads it. What the file system
//! holds is handed to the functions here as a list of probes, one for each
//! entry of the cache root, in the order in which the directory was read.

use vstd::prelude::*;
use vstd::string::*;
use crate::paths::{join, path_join};
use crate::text::{followed_by, opt_text, starts_with};

verus! {

/// The machine type of the artifacts that the runtime works with.
pub open spec fn machine_type() -> Seq<char> {
    "hyperlight"@
}

/// The deployment type of the artifacts that the runtime works with.
pub open spec fn deployment_type() -> Seq<char> {
    "single-process"@
}

/// The name of the cache directory under the user's cache directory.
pub open spec fn cache_directory_name() -> Seq<char> {
    "nanvix-registry"@
}

/// How the name of every version directory begins.
pub open spec fn version_prefix() -> Seq<char> {
    machine_type() + "-"@ + deployment_type() + "-"@
}

/// The cache root under the user's cache directory `base`, or under the
/// current directory where there is none.
pub open spec fn cache_directory(base: Option<Seq<char>>) -> Seq<char> {
    match base {
        Some(dir) => path_join(dir, cache_directory_name()),
        None => path_join("."@, cache_directory_name()),
    }
}

/// Where the binary `binary_name` lies under the entry `dir_name` of the
/// cache root.
pub open spec fn candidate(root: Seq<char>, dir_name: Seq<char>, binary_name: Seq<char>) -> Seq<
    char,
> {
    path_join(path_join(path_join(root, dir_name), "bin"@), binary_name)
}

/// What was found of one entry of the cache root while looking for a binary.
#[derive(Debug, PartialEq, Eq)]
pub struct CacheProbe {
    /// The name of the entry.
    pub dir_name: String,
    /// Whether the entry is a directory.
    pub is_dir: bool,
    /// Whether the binary's place under the entry holds a regular file.
    pub has_binary: bool,
}

impl CacheProbe {
    /// Whether the entry is a version directory that holds the binary.
    pub open spec fn is_hit(self) -> bool {
        version_prefix().is_prefix_of(self.dir_name@) && self.is_dir && self.has_binary
    }
}

/// Whether some entry is a version directory that holds the binary.
pub open spec fn some_hit(probes: Seq<CacheProbe>) -> bool {
    exists|i: int| 0 <= i < probes.len() && #[trigger] probes[i].is_hit()
}

/// The path of the binary under the first entry that holds it.
pub open spec fn local_match(root: Seq<char>, binary_name: Seq<char>, probes: Seq<CacheProbe>)
    -> Option<Seq<char>>
    decreases probes.len(),
{
    if probes.len() == 0 {
        None
    } else if probes[0].is_hit() {
        Some(candidate(root, probes[0].dir_name@, binary_name))
    } else {
        local_match(root, binary_name, probes.drop_first())
    }
}

/// A request to the registry for one binary.
#[derive(Debug, PartialEq, Eq)]
pub struct RegistryRequest {
    /// Machine type of the binary.
    pub machine: String,
    /// Deployment type of the binary.
    pub deployment: String,
    /// Name of the binary.
    pub binary_name: String,
}

/// How far the lookup of a binary has come after the local probe.
#[derive(Debug, PartialEq, Eq)]
pub enum Resolution {
    /// The binary is in the local cache, at this path.
    Cached(String),
    /// The binary is not in the local cache: the registry has to be asked.
    Fetch(RegistryRequest),
}

/// A `Resolution` with its texts as sequences of characters.
pub enum ResolutionView {
    Cached(Seq<char>),
    Fetch { machine: Seq<char>, deployment: Seq<char>, binary_name: Seq<char> },
}

impl View for Resolution {
    type V = ResolutionView;

    open spec fn view(&self) -> ResolutionView {
        match self {
            Resolution::Cached(path) => ResolutionView::Cached(path@),
            Resolution::Fetch(request) => ResolutionView::Fetch {
                machine: request.machine@,
                deployment: request.deployment@,
                binary_name: request.binary_name@,
            },
        }
    }
}

/// The resolution that follows from the local probe: a local match is the
/// answer, and only without one is the registry asked.
pub open spec fn resolution(local: Option<Seq<char>>, binary_name: Seq<char>) -> ResolutionView {
    match local {
        Some(path) => ResolutionView::Cached(path),
        None => ResolutionView::Fetch {
            machine: machine_type(),
            deployment: deployment_type(),
            binary_name,
        },
    }
}

/// Calls `dirs::cache_dir`: the user's cache directory, where the platform
/// and the environment name one. Nothing is claimed of the value: it depends
/// on the environment of the process.
#[verifier::external_body]
fn user_cache_dir() -> (r: Option<String>) {
    match dirs::cache_dir() {
        Some(dir) => Some(dir.to_string_lossy().into_owned()),
        None => None,
    }
}

/// The cache root under the user's cache directory `base`, or under the
/// current directory where there is none.
pub fn cache_directory_under(base: Option<String>) -> (r: String)
    ensures
        r@ == cache_directory(opt_text(base)),
{
    match base {
        Some(dir) => join(dir.as_str(), "nanvix-registry"),
        None => join(".", "nanvix-registry"),
    }
}

/// Return the base cache directory: under the user's cache directory, or
/// under the current directory where the platform names none.
pub fn get_cache_directory() -> (r: String)
    ensures
        exists|base: Option<Seq<char>>| r@ == #[trigger] cache_directory(base),
{
    let base = user_cache_dir();
    let r = cache_directory_under(base);
    assert(r@ == cache_directory(opt_text(base)));
    r
}

/// Whether `dir_name` is the name of a version directory of the runtime's
/// machine and deployment type.
pub fn is_version_directory_name(dir_name: &str) -> (r: bool)
    ensures
        r == version_prefix().is_prefix_of(dir_name@),
{
    let prefix = followed_by("hyperlight", "-");
    let prefix = followed_by(prefix.as_str(), "single-process");
    let prefix = followed_by(prefix.as_str(), "-");
    starts_with(dir_name, prefix.as_str())
}

/// Where the binary `binary_name` lies under the entry `dir_name` of the
/// cache root.
pub fn candidate_path(root: &str, dir_name: &str, binary_name: &str) -> (r: String)
    ensures
        r@ == candidate(root@, dir_name@, binary_name@),
{
    let entry = join(root, dir_name);
    let bin = join(entry.as_str(), "bin");
    join(bin.as_str(), binary_name)
}

/// Looks for a binary in what was found of the cache root: the path under
/// the first version directory that holds it. First match wins; versions are
/// not compared.
pub fn find_in_local_cache(root: &str, binary_name: &str, probes: &Vec<CacheProbe>) -> (r: Option<
    String,
>)
    ensures
        opt_text(r) == local_match(root@, binary_name@, probes@),
        r is Some <==> some_hit(probes@),
{
    let mut i: usize = 0;
    assert(probes@.subrange(0, probes.len() as int) =~= probes@);
    while i < probes.len()
        invariant
            i <= probes.len(),
            local_match(root@, binary_name@, probes@) == local_match(
                root@,
                binary_name@,
                probes@.subrange(i as int, probes.len() as int),
            ),
            forall|j: int| 0 <= j < i ==> !(#[trigger] probes@[j]).is_hit(),
        decreases probes.len() - i,
    {
        let probe = &probes[i];
        let ghost rest = probes@.subrange(i as int, probes.len() as int);
        assert(rest[0] == probes@[i as int]);
        assert(rest.drop_first() =~= probes@.subrange(i + 1, probes.len() as int));
        if probe.is_dir && probe.has_binary && is_version_directory_name(probe.dir_name.as_str()) {
            assert(probes@[i as int].is_hit());
            return Some(candidate_path(root, probe.dir_name.as_str(), binary_name));
        }
        i = i + 1;
    }
    assert(probes@.subrange(i as int, probes.len() as int).len() == 0);
    None
}

/// Check if a binary exists in the local cache: whether some version
/// directory holds it.
pub fn is_binary_cached(root: &str, binary_name: &str, probes: &Vec<CacheProbe>) -> (r: bool)
    ensures
        r <==> some_hit(probes@),
        r == local_match(root@, binary_name@, probes@) is Some,
{
    find_in_local_cache(root, binary_name, probes).is_some()
}

/// The resolution that follows from the outcome of the local probe.
pub fn resolve_locally(found: Option<String>, binary_name: &str) -> (r: Resolution)
    ensures
        r@ == resolution(opt_text(found), binary_name@),
{
    match found {
        Some(path) => Resolution::Cached(path),
        None => Resolution::Fetch(
            RegistryRequest {
                machine: "hyperlight".to_owned(),
                deployment: "single-process".to_owned(),
                binary_name: binary_name.to_owned(),
            },
        ),
    }
}

/// Locate a cached binary, falling back on the registry if it is not found
/// locally: the path in the local cache, or else the request to make to the
/// registry, which downloads and caches the binary.
pub fn get_cached_binary_path(root: &str, binary_name: &str, probes: &Vec<CacheProbe>) -> (r:
    Resolution)
    ensures
        r@ == resolution(local_match(root@, binary_name@, probes@), binary_name@),
        r is Cached <==> some_hit(probes@),
{
    resolve_locally(find_in_local_cache(root, binary_name, probes), binary_name)
}

/// The path that the lookup ends with once the registry has answered: a
/// binary that the registry could not deliver is absent.
pub fn fetched_path(answer: Result<String, String>) -> (r: Option<String>)
    ensures
        opt_text(r) == (match answer {
            Ok(path) => Some(path@),
            Err(_) => None,
        }),
{
    match answer {
        Ok(path) => Some(path),
        Err(_) => None,
    }
}

/// A binary counts as cached exactly if the lookup finds a path for it, and
/// that path lies under a version directory that held the binary when the
/// cache root was read.
pub proof fn lemma_cached_iff_found(root: Seq<char>, binary_name: Seq<char>, probes: Seq<CacheProbe>)
    ensures
        local_match(root, binary_name, probes) is Some <==> some_hit(probes),
        local_match(root, binary_name, probes) matches Some(path) ==> exists|i: int|
            0 <= i < probes.len() && #[trigger] probes[i].is_hit() && path == candidate(
                root,
                probes[i].dir_name@,
                binary_name,
            ),
    decreases probes.len(),
{
    if probes.len() == 0 {
    } else if probes[0].is_hit() {
    } else {
        let rest = probes.drop_first();
        lemma_cached_iff_found(root, binary_name, rest);
        if some_hit(probes) {
            let i = choose|i: int| 0 <= i < probes.len() && #[trigger] probes[i].is_hit();
            assert(rest[i - 1] == probes[i]);
        }
        if local_match(root, binary_name, rest) is Some {
            let j = choose|j: int|
                0 <= j < rest.len() && #[trigger] rest[j].is_hit() && local_match(
                    root,
                    binary_name,
                    rest,
                )->0 == candidate(root, rest[j].dir_name@, binary_name);
            assert(probes[j + 1] == rest[j]);
        }
    }
}

/// Once a binary has been delivered into a version directory, it counts as
/// cached whenever the cache root is read again: whatever else the cache
/// holds, and wherever in the listing the directory comes.
pub proof fn lemma_delivered_binary_is_cached(
    root: Seq<char>,
    binary_name: Seq<char>,
    later: Seq<CacheProbe>,
    delivered: int,
)
    requires
        0 <= delivered < later.len(),
        version_prefix().is_prefix_of(later[delivered].dir_name@),
        later[delivered].is_dir,
        later[delivered].has_binary,
    ensures
        local_match(root, binary_name, later) is Some,
        resolution(local_match(root, binary_name, later), binary_name) is Cached,
{
    assert(later[delivered].is_hit());
    lemma_cached_iff_found(root, binary_name, later);
}

/// A binary that is in the local cache is resolved without the registry.
pub proof fn lemma_local_match_asks_no_registry(
    root: Seq<char>,
    binary_name: Seq<char>,
    probes: Seq<CacheProbe>,
)
    requires
        some_hit(probes),
    ensures
        resolution(local_match(root, binary_name, probes), binary_name) is Cached,
{
    lemma_cached_iff_found(root, binary_name, probes);
}

} // verus!
