//! What a process Worker runs under: its sandbox, its resource limits, its
//! egress and the credentials handed to it as files.
use vstd::prelude::*;

use crate::control::error::AppError;
use crate::domain::execution::{is_valid_digest, is_valid_env_name, valid_digest, valid_env_name};
use crate::text::{chars_of, str_eq};
use vstd::string::StrSliceExecFns;

verus! {

/// The sandbox a process Worker is launched in. Paths are host paths.
#[derive(Clone, Debug, PartialEq, Eq)]
pub enum Sandbox {
    Bubblewrap {
        rootfs: String,
        rootfs_digest: String,
        seccomp_profile: String,
        seccomp_digest: String,
    },
    Oci { engine: String, image: String, seccomp_profile: String, seccomp_digest: String },
}

/// Resource ceilings applied to every Worker process.
#[derive(Clone, Copy, Debug, PartialEq, Eq, Structural)]
pub struct ResourceLimits {
    pub memory_bytes: u64,
    pub max_processes: u32,
    pub max_open_files: u32,
    pub max_file_bytes: u64,
    pub cpu_seconds: u64,
}

/// The limits a profile gets when it sets none: 1 GiB of memory, 64
/// processes, 256 open files, 1 GiB files and 900 CPU seconds.
pub open spec fn default_limits() -> ResourceLimits {
    ResourceLimits {
        memory_bytes: 1073741824,
        max_processes: 64,
        max_open_files: 256,
        max_file_bytes: 1073741824,
        cpu_seconds: 900,
    }
}

impl Default for ResourceLimits {
    fn default() -> (r: Self)
        ensures
            r == default_limits(),
    {
        ResourceLimits {
            memory_bytes: 1073741824,
            max_processes: 64,
            max_open_files: 256,
            max_file_bytes: 1073741824,
            cpu_seconds: 900,
        }
    }
}

/// Network reach of a Worker: none, or one brokered Unix socket.
#[derive(Clone, Debug, PartialEq, Eq)]
pub enum EgressPolicy {
    Deny,
    BrokerSocket(String),
}

/// Limits and egress together.
#[derive(Clone, Debug, PartialEq, Eq)]
pub struct WorkerPolicy {
    pub resources: ResourceLimits,
    pub egress: EgressPolicy,
}

impl Default for WorkerPolicy {
    fn default() -> (r: Self)
        ensures
            r.resources == default_limits(),
            r.egress is Deny,
    {
        WorkerPolicy { resources: ResourceLimits::default(), egress: EgressPolicy::Deny }
    }
}

/// A credential delivered to a Worker as a read-only file, never as an
/// environment value or a command-line argument.
pub struct SecretFile {
    name: String,
    value: String,
}

/// The name and value of a secret file.
pub ghost struct SecretFileView {
    pub name: Seq<char>,
    pub value: Seq<char>,
}

impl View for SecretFile {
    type V = SecretFileView;

    closed spec fn view(&self) -> SecretFileView {
        SecretFileView { name: self.name@, value: self.value@ }
    }
}

/// The message of a refused secret-file name.
pub open spec fn secret_name_message() -> Seq<char> {
    "secret-file name must be an ASCII environment-style identifier"@
}

impl SecretFile {
    /// A secret file whose name is an environment-style identifier: an ASCII
    /// letter or `_`, then ASCII letters, digits or `_`.
    pub fn new(name: String, value: String) -> (r: Result<SecretFile, AppError>)
        ensures
            match r {
                Ok(file) => valid_env_name(name@) && file@ == (SecretFileView {
                    name: name@,
                    value: value@,
                }),
                Err(e) => !valid_env_name(name@) && (e matches AppError::Worker(m)
                    && m@ == secret_name_message()),
            },
    {
        if !is_valid_env_name(name.as_str()) {
            return Err(
                AppError::worker("secret-file name must be an ASCII environment-style identifier"),
            );
        }
        Ok(SecretFile { name, value })
    }

    /// The file name, which is also the stem of its `<NAME>_FILE` variable.
    pub fn name(&self) -> (r: &str)
        ensures
            r@ == self@.name,
    {
        self.name.as_str()
    }

    /// The credential itself, written only into the file.
    pub fn value(&self) -> (r: &str)
        ensures
            r@ == self@.value,
    {
        self.value.as_str()
    }
}

/// The names of a list of secret files, in order.
pub open spec fn secret_names(files: Seq<SecretFile>) -> Seq<Seq<char>> {
    files.map_values(|f: SecretFile| f@.name)
}

/// The message of a malformed digest.
pub open spec fn digest_message() -> Seq<char> {
    "digest must use sha256:<64 lowercase hex>"@
}

/// Accepts `sha256:` followed by 64 lower-case hexadecimal digits.
pub fn validate_digest(value: &str) -> (r: Result<(), AppError>)
    ensures
        r is Ok <==> valid_digest(value@),
        r matches Err(e) ==> (e matches AppError::Worker(m) && m@ == digest_message()),
{
    if !is_valid_digest(value) {
        return Err(AppError::worker("digest must use sha256:<64 lowercase hex>"));
    }
    Ok(())
}

/// `i` is the one and only `@` of `s`.
pub open spec fn single_at(s: Seq<char>, i: int) -> bool {
    &&& 0 <= i < s.len()
    &&& s[i] == '@'
    &&& forall|j: int| 0 <= j < s.len() && j != i ==> s[j] != '@'
}

/// An image reference pinned by digest: a non-empty name, one `@`, and a
/// well-formed digest after it.
pub open spec fn image_is_pinned(s: Seq<char>) -> bool {
    exists|i: int| #[trigger] single_at(s, i) && i > 0 && valid_digest(s.subrange(i + 1, s.len() as int))
}

/// The digest of a pinned image reference.
pub open spec fn image_digest_spec(s: Seq<char>) -> Option<Seq<char>> {
    if image_is_pinned(s) {
        let i = choose|i: int| #[trigger] single_at(s, i) && i > 0 && valid_digest(s.subrange(i + 1, s.len() as int));
        Some(s.subrange(i + 1, s.len() as int))
    } else {
        None
    }
}

/// The digest that pins an OCI image reference, if it is pinned.
pub fn image_digest(image: &str) -> (r: Option<String>)
    ensures
        match r {
            Some(d) => image_digest_spec(image@) == Some(d@),
            None => image_digest_spec(image@) is None,
        },
{
    let v = chars_of(image);
    let mut count: usize = 0;
    let mut last: usize = 0;
    let mut i: usize = 0;
    while i < v.len()
        invariant
            v@ == image@,
            i <= v.len(),
            count <= i,
            count == 0 ==> forall|j: int| 0 <= j < i ==> image@[j] != '@',
            count > 0 ==> last < i && image@[last as int] == '@',
            count == 1 ==> forall|j: int| 0 <= j < i && j != last ==> image@[j] != '@',
            count > 1 ==> exists|j: int| 0 <= j < i && j != last && image@[j] == '@',
        decreases v.len() - i,
    {
        if v[i] == '@' {
            if count == 1 {
                assert(image@[last as int] == '@' && last != i);
            }
            count = count + 1;
            last = i;
        }
        i = i + 1;
    }
    if count != 1 || last == 0 {
        proof {
            assert forall|k: int| #[trigger] single_at(image@, k) implies k == last && count == 1 by {
                if count == 0 {
                    assert(image@[k] != '@');
                } else if count > 1 {
                    let j = choose|j: int| 0 <= j < image@.len() && j != last && image@[j] == '@';
                    assert(j == k);
                    assert(image@[last as int] == '@');
                }
            }
        }
        return None;
    }
    let digest = image.substring_char(last + 1, v.len());
    assert(single_at(image@, last as int));
    if !is_valid_digest(digest) {
        proof {
            assert forall|k: int| #[trigger] single_at(image@, k) implies k == last by {
                if k != last {
                    assert(image@[k] != '@');
                }
            }
        }
        return None;
    }
    proof {
        assert(image_is_pinned(image@));
        let k = choose|k: int| #[trigger] single_at(image@, k) && k > 0 && valid_digest(image@.subrange(k + 1, image@.len() as int));
        if k != last {
            assert(image@[last as int] == '@');
        }
    }
    Some(crate::text::owned(digest))
}

/// The container engines a Worker may be launched with.
pub open spec fn engine_allowed(engine: Seq<char>) -> bool {
    engine == "docker"@ || engine == "podman"@
}

/// Whether `engine` is `docker` or `podman`.
pub fn oci_engine_allowed(engine: &str) -> (r: bool)
    ensures
        r == engine_allowed(engine@),
{
    str_eq(engine, "docker") || str_eq(engine, "podman")
}

/// Limits that can launch a Worker at all: at least 16 MiB of memory, one
/// process, 16 open files, one byte of file and one CPU second.
pub open spec fn limits_usable(limits: ResourceLimits) -> bool {
    &&& limits.memory_bytes >= 16 * 1024 * 1024
    &&& limits.max_processes > 0
    &&& limits.max_open_files >= 16
    &&& limits.max_file_bytes > 0
    &&& limits.cpu_seconds > 0
}

/// The message of limits that cannot launch a Worker.
pub open spec fn limits_message() -> Seq<char> {
    "resource limits must be finite and large enough to launch a Worker"@
}

/// Refuses limits under which no Worker could start.
pub fn validate_resource_limits(limits: &ResourceLimits) -> (r: Result<(), AppError>)
    ensures
        r is Ok <==> limits_usable(*limits),
        r matches Err(e) ==> (e matches AppError::Worker(m) && m@ == limits_message()),
{
    if limits.memory_bytes < 16 * 1024 * 1024 || limits.max_processes == 0
        || limits.max_open_files < 16 || limits.max_file_bytes == 0 || limits.cpu_seconds == 0 {
        return Err(
            AppError::worker("resource limits must be finite and large enough to launch a Worker"),
        );
    }
    Ok(())
}

} // verus!
