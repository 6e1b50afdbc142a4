//! Worker profiles: the configuration a profile table holds, and how one
//! named profile is resolved into an argv, secret-file references, a
//! sandbox and a policy. Only the requested profile is read, so a broken
//! unrelated profile cannot block a Work.
use vstd::prelude::*;

use crate::domain::execution::{
    valid_env_name, SecretRef, SecretRefView, SecretSource,
};
use crate::text::{join2, join3, owned, str_eq, texts, valid_text};
use crate::worker::policy::{
    default_limits, secret_name_message, EgressPolicy, ResourceLimits, Sandbox, SecretFile,
    SecretFileView, WorkerPolicy,
};
use vstd::string::StringExecFns;

verus! {

/// A configuration value as the logic reads it: a string, an integer, an
/// array, a table (its entries in table order), or anything else (a
/// boolean, a float, a date), which no field accepts.
#[derive(Debug)]
pub enum ConfigValue {
    Str(String),
    Integer(i64),
    Array(Vec<ConfigValue>),
    Table(Vec<(String, ConfigValue)>),
    Other,
}

/// The configuration in the text of the file at `path`: its TOML table,
/// or a message naming the file when the text does not parse.
pub fn parse_config(path: &str, text: &str) -> (r: Result<Vec<(String, ConfigValue)>, String>)
    ensures
        r is Ok <==> crate::external::toml_config(text@) is Some,
        r matches Ok(v) ==> crate::external::toml_config(text@) == Some(v@),
        r matches Err(m) ==> exists|e: Seq<char>| m@ == "parse config "@ + path@ + ": "@ + e,
{
    match crate::external::parse_toml_config(text) {
        Ok(v) => Ok(v),
        Err(e) => {
            let mut m = join3("parse config ", path, ": ");
            m.append(e.as_str());
            Err(m)
        },
    }
}

/// The value of the first entry named `key`.
pub open spec fn lookup(t: Seq<(String, ConfigValue)>, key: Seq<char>) -> Option<ConfigValue>
    decreases t.len(),
{
    if t.len() == 0 {
        None
    } else if t[0].0@ == key {
        Some(t[0].1)
    } else {
        lookup(t.drop_first(), key)
    }
}

/// The entries of a value that is a table.
pub open spec fn table_of(v: Option<ConfigValue>) -> Option<Seq<(String, ConfigValue)>> {
    match v {
        Some(ConfigValue::Table(t)) => Some(t@),
        _ => None,
    }
}

/// The text of a value that is a string.
pub open spec fn text_of(v: Option<ConfigValue>) -> Option<Seq<char>> {
    match v {
        Some(ConfigValue::Str(s)) => Some(s@),
        _ => None,
    }
}

/// The texts of an array whose items are all strings.
pub open spec fn strings_of(items: Seq<ConfigValue>) -> Option<Seq<Seq<char>>>
    decreases items.len(),
{
    if items.len() == 0 {
        Some(Seq::empty())
    } else {
        match (strings_of(items.drop_last()), items.last()) {
            (Some(s), ConfigValue::Str(t)) => Some(s.push(t@)),
            _ => None,
        }
    }
}

/// Every key of a table is one of `allowed`.
pub open spec fn keys_within(t: Seq<(String, ConfigValue)>, allowed: Seq<Seq<char>>) -> bool {
    forall|i: int| 0 <= i < t.len() ==> allowed.contains(#[trigger] t[i].0@)
}

/// The value of the first variable named `key` in an environment snapshot.
pub open spec fn env_lookup(env: Seq<(String, String)>, key: Seq<char>) -> Option<Seq<char>>
    decreases env.len(),
{
    if env.len() == 0 {
        None
    } else if env[0].0@ == key {
        Some(env[0].1@)
    } else {
        env_lookup(env.drop_first(), key)
    }
}

/// The value of the first entry named `key`.
pub fn find<'a>(t: &'a Vec<(String, ConfigValue)>, key: &str) -> (r: Option<&'a ConfigValue>)
    ensures
        match r {
            Some(v) => lookup(t@, key@) == Some(*v),
            None => lookup(t@, key@) is None,
        },
{
    let mut i: usize = 0;
    assert(t@.subrange(0, t@.len() as int) =~= t@);
    while i < t.len()
        invariant
            i <= t.len(),
            lookup(t@, key@) == lookup(t@.subrange(i as int, t@.len() as int), key@),
        decreases t.len() - i,
    {
        let ghost rest = t@.subrange(i as int, t@.len() as int);
        assert(rest.drop_first() =~= t@.subrange(i + 1, t@.len() as int));
        assert(rest[0] == t@[i as int]);
        if str_eq(t[i].0.as_str(), key) {
            return Some(&t[i].1);
        }
        i = i + 1;
    }
    None
}

fn find_env(env: &Vec<(String, String)>, key: &str) -> (r: Option<String>)
    ensures
        match r {
            Some(v) => env_lookup(env@, key@) == Some(v@),
            None => env_lookup(env@, key@) is None,
        },
{
    let mut i: usize = 0;
    assert(env@.subrange(0, env@.len() as int) =~= env@);
    while i < env.len()
        invariant
            i <= env.len(),
            env_lookup(env@, key@) == env_lookup(env@.subrange(i as int, env@.len() as int), key@),
        decreases env.len() - i,
    {
        let ghost rest = env@.subrange(i as int, env@.len() as int);
        assert(rest.drop_first() =~= env@.subrange(i + 1, env@.len() as int));
        assert(rest[0] == env@[i as int]);
        if str_eq(env[i].0.as_str(), key) {
            return Some(owned(env[i].1.as_str()));
        }
        i = i + 1;
    }
    None
}

fn table_value(v: Option<&ConfigValue>) -> (r: Option<&Vec<(String, ConfigValue)>>)
    ensures
        match r {
            Some(t) => table_of(opt_deref(v)) == Some(t@),
            None => table_of(opt_deref(v)) is None,
        },
{
    match v {
        Some(ConfigValue::Table(t)) => Some(t),
        _ => None,
    }
}

fn text_value(v: Option<&ConfigValue>) -> (r: Option<&str>)
    ensures
        match r {
            Some(s) => text_of(opt_deref(v)) == Some(s@),
            None => text_of(opt_deref(v)) is None,
        },
{
    match v {
        Some(ConfigValue::Str(s)) => Some(s.as_str()),
        _ => None,
    }
}

/// The value behind an optional reference.
pub open spec fn opt_deref(v: Option<&ConfigValue>) -> Option<ConfigValue> {
    match v {
        Some(x) => Some(*x),
        None => None,
    }
}

fn keys_allowed(t: &Vec<(String, ConfigValue)>, allowed: &[&str]) -> (r: bool)
    ensures
        r == keys_within(t@, allowed@.map_values(|a: &str| a@)),
{
    let ghost names = allowed@.map_values(|a: &str| a@);
    let mut i: usize = 0;
    while i < t.len()
        invariant
            names == allowed@.map_values(|a: &str| a@),
            i <= t.len(),
            forall|j: int| 0 <= j < i ==> names.contains(#[trigger] t@[j].0@),
        decreases t.len() - i,
    {
        let key = t[i].0.as_str();
        let mut found = false;
        let mut k: usize = 0;
        while k < allowed.len()
            invariant
                names == allowed@.map_values(|a: &str| a@),
                k <= allowed.len(),
                found ==> names.contains(key@),
                !found ==> forall|m: int| 0 <= m < k ==> names[m] != key@,
            decreases allowed.len() - k,
        {
            if str_eq(allowed[k], key) {
                assert(names[k as int] == key@);
                found = true;
            }
            k = k + 1;
        }
        if !found {
            assert(!names.contains(t@[i as int].0@));
            return false;
        }
        i = i + 1;
    }
    true
}

/// `<field> must be an array of strings` unless the value is an array of
/// strings.
pub open spec fn string_array_spec(v: Option<ConfigValue>, field: Seq<char>) -> Result<
    Seq<Seq<char>>,
    Seq<char>,
> {
    match v {
        Some(ConfigValue::Array(items)) => match strings_of(items@) {
            Some(s) => Ok(s),
            None => Err(field + " must be an array of strings"@),
        },
        _ => Err(field + " must be an array of strings"@),
    }
}

fn string_array(v: Option<&ConfigValue>, field: &str) -> (r: Result<Vec<String>, String>)
    ensures
        match string_array_spec(opt_deref(v), field@) {
            Ok(s) => r matches Ok(out) && texts(out@) == s,
            Err(m) => r matches Err(e) && e@ == m,
        },
{
    let items = match v {
        Some(ConfigValue::Array(items)) => items,
        _ => return Err(join2(field, " must be an array of strings")),
    };
    let mut out: Vec<String> = Vec::new();
    let mut i: usize = 0;
    while i < items.len()
        invariant
            i <= items.len(),
            opt_deref(v) == Some(ConfigValue::Array(*items)),
            strings_of(items@.subrange(0, i as int)) == Some(texts(out@)),
        decreases items.len() - i,
    {
        let ghost prefix = items@.subrange(0, i + 1);
        assert(prefix.drop_last() =~= items@.subrange(0, i as int));
        match &items[i] {
            ConfigValue::Str(s) => {
                crate::text::push_text(&mut out, s.as_str());
            },
            _ => {
                proof {
                    assert(prefix.last() == items@[i as int]);
                    assert(!(items@[i as int] is Str));
                    assert(strings_of(prefix) is None);
                    lemma_strings_of_prefix(items@, i as int + 1);
                    assert(opt_deref(v) == Some(ConfigValue::Array(*items)));
                    assert(string_array_spec(opt_deref(v), field@) is Err);
                }
                return Err(join2(field, " must be an array of strings"));
            },
        }
        i = i + 1;
    }
    assert(items@.subrange(0, i as int) =~= items@);
    Ok(out)
}

/// An array with a non-string item among its first `k` has no string texts.
proof fn lemma_strings_of_prefix(items: Seq<ConfigValue>, k: int)
    requires
        0 <= k <= items.len(),
        strings_of(items.subrange(0, k)) is None,
    ensures
        strings_of(items) is None,
    decreases items.len() - k,
{
    if k < items.len() {
        let p = items.subrange(0, k + 1);
        assert(p.drop_last() =~= items.subrange(0, k));
        lemma_strings_of_prefix(items, k + 1);
    } else {
        assert(items.subrange(0, k) =~= items);
    }
}

/// `profile <name><rest>`.
pub open spec fn about(name: Seq<char>, rest: Seq<char>) -> Seq<char> {
    "profile "@ + name + rest
}

fn about_exec(name: &str, rest: &str) -> (r: String)
    ensures
        r@ == about(name@, rest@),
{
    join3("profile ", name, rest)
}

/// The retry limit of a profile: 0 when absent, a non-negative integer
/// clamped to `u32::MAX`, an error otherwise.
pub open spec fn retry_limit_spec(v: Option<ConfigValue>, name: Seq<char>) -> Result<u32, Seq<char>> {
    match v {
        None => Ok(0),
        Some(ConfigValue::Integer(n)) => if n >= 0 {
            Ok(if n > u32::MAX { u32::MAX } else { n as u32 })
        } else {
            Err(about(name, " retry_limit must be a non-negative integer"@))
        },
        _ => Err(about(name, " retry_limit must be a non-negative integer"@)),
    }
}

fn retry_limit_of(v: Option<&ConfigValue>, name: &str) -> (r: Result<u32, String>)
    ensures
        match retry_limit_spec(opt_deref(v), name@) {
            Ok(n) => r == Ok::<u32, String>(n),
            Err(m) => r matches Err(e) && e@ == m,
        },
{
    match v {
        None => Ok(0),
        Some(ConfigValue::Integer(n)) if *n >= 0 => {
            if *n > u32::MAX as i64 {
                Ok(u32::MAX)
            } else {
                Ok(*n as u32)
            }
        },
        _ => Err(about_exec(name, " retry_limit must be a non-negative integer")),
    }
}

/// The checkout directory of a profile, if it sets one as a string.
pub open spec fn checkout_spec(v: Option<ConfigValue>, name: Seq<char>) -> Result<Option<Seq<char>>, Seq<char>> {
    match v {
        None => Ok(None),
        Some(ConfigValue::Str(s)) => Ok(Some(s@)),
        _ => Err(about(name, " checkout must be a string path"@)),
    }
}

fn checkout_of(v: Option<&ConfigValue>, name: &str) -> (r: Result<Option<String>, String>)
    ensures
        match checkout_spec(opt_deref(v), name@) {
            Ok(c) => r matches Ok(out) && crate::domain::work::opt_view(out) == c,
            Err(m) => r matches Err(e) && e@ == m,
        },
{
    match v {
        None => Ok(None),
        Some(ConfigValue::Str(s)) => Ok(Some(owned(s.as_str()))),
        _ => Err(about_exec(name, " checkout must be a string path")),
    }
}

/// `profile <p> secret_file.<key><rest>`.
pub open spec fn about_secret(profile: Seq<char>, key: Seq<char>, rest: Seq<char>) -> Seq<char> {
    "profile "@ + profile + " secret_file."@ + key + rest
}

fn about_secret_exec(profile: &str, key: &str, rest: &str) -> (r: String)
    ensures
        r@ == about_secret(profile@, key@, rest@),
{
    let mut s = join3("profile ", profile, " secret_file.");
    s.append(key);
    s.append(rest);
    s
}

/// One resolved secret file: its name and value, and the reference kept in
/// the execution snapshot: its name and the variable it comes from.
pub ghost struct SecretFields {
    pub file: SecretFileView,
    pub reference: SecretRefView,
}

/// How one `secret_file.<key>` entry resolves: it must be a table with a
/// string `fromEnv` and nothing else, the variable must be set, the key
/// must be a valid secret-file name, and the variable name valid.
pub open spec fn secret_entry_spec(
    profile: Seq<char>,
    key: Seq<char>,
    value: ConfigValue,
    env: Seq<(String, String)>,
) -> Result<SecretFields, Seq<char>> {
    match value {
        ConfigValue::Table(t) => match text_of(lookup(t@, "fromEnv"@)) {
            None => Err(about_secret(profile, key, " must set fromEnv"@)),
            Some(from) => if !keys_within(t@, seq!["fromEnv"@]) {
                Err(about_secret(profile, key, " only fromEnv is allowed"@))
            } else {
                match env_lookup(env, from) {
                    None => Err(
                        "environment variable "@ + from + " is not set for profile "@ + profile
                            + " secret_file."@ + key,
                    ),
                    Some(val) => if !valid_env_name(key) {
                        Err("worker: "@ + secret_name_message())
                    } else if !valid_env_name(from) || !valid_text(key) {
                        Err("invalid execution spec"@)
                    } else {
                        Ok(
                            SecretFields {
                                file: SecretFileView { name: key, value: val },
                                reference: SecretRefView { name: key, source: from },
                            },
                        )
                    },
                }
            },
        },
        _ => Err(
            about_secret(profile, key, " must be { fromEnv = \"NAME\" }, not an inline value"@),
        ),
    }
}

/// The secret entries of a profile, resolved in table order; the first
/// failure is the error.
pub open spec fn secret_entries_spec(
    profile: Seq<char>,
    entries: Seq<(String, ConfigValue)>,
    env: Seq<(String, String)>,
) -> Result<Seq<SecretFields>, Seq<char>>
    decreases entries.len(),
{
    if entries.len() == 0 {
        Ok(Seq::empty())
    } else {
        match secret_entries_spec(profile, entries.drop_last(), env) {
            Err(m) => Err(m),
            Ok(done) => match secret_entry_spec(profile, entries.last().0@, entries.last().1, env) {
                Err(m) => Err(m),
                Ok(f) => Ok(done.push(f)),
            },
        }
    }
}

fn resolve_secret_entry(
    profile: &str,
    key: &str,
    value: &ConfigValue,
    env: &Vec<(String, String)>,
) -> (r: Result<(SecretFile, SecretRef), String>)
    ensures
        match secret_entry_spec(profile@, key@, *value, env@) {
            Ok(f) => r matches Ok((file, reference)) && file@ == f.file && reference@ == f.reference,
            Err(m) => r matches Err(e) && e@ == m,
        },
{
    let t = match value {
        ConfigValue::Table(t) => t,
        _ => {
            return Err(
                about_secret_exec(
                    profile,
                    key,
                    " must be { fromEnv = \"NAME\" }, not an inline value",
                ),
            )
        },
    };
    let from = match text_value(find(t, "fromEnv")) {
        Some(f) => f,
        None => return Err(about_secret_exec(profile, key, " must set fromEnv")),
    };
    let allowed: [&str; 1] = ["fromEnv"];
    let only_from = keys_allowed(t, &allowed);
    proof {
        assert(allowed@.map_values(|a: &str| a@) =~= seq!["fromEnv"@]);
    }
    if !only_from {
        return Err(about_secret_exec(profile, key, " only fromEnv is allowed"));
    }
    let val = match find_env(env, from) {
        Some(v) => v,
        None => {
            let mut s = join3("environment variable ", from, " is not set for profile ");
            s.append(profile);
            s.append(" secret_file.");
            s.append(key);
            return Err(s);
        },
    };
    let file = match SecretFile::new(owned(key), val) {
        Ok(f) => f,
        Err(e) => return Err(e.describe()),
    };
    let source = match SecretSource::environment_variable(from) {
        Ok(s) => s,
        Err(e) => return Err(e.describe()),
    };
    let reference = match SecretRef::new(key, source) {
        Ok(r) => r,
        Err(e) => return Err(e.describe()),
    };
    Ok((file, reference))
}

fn resolve_secret_files(
    profile: &str,
    entries: &Vec<(String, ConfigValue)>,
    env: &Vec<(String, String)>,
) -> (r: Result<(Vec<SecretFile>, Vec<SecretRef>), String>)
    ensures
        secrets_resolved(r, secret_entries_spec(profile@, entries@, env@)),
{
    let mut files: Vec<SecretFile> = Vec::new();
    let mut refs: Vec<SecretRef> = Vec::new();
    let mut i: usize = 0;
    while i < entries.len()
        invariant
            i <= entries.len(),
            secret_entries_spec(profile@, entries@.subrange(0, i as int), env@) matches Ok(fs) && files@.len()
                == fs.len() && refs@.len() == fs.len() && forall|k: int|
                0 <= k < fs.len() ==> #[trigger] files@[k]@ == fs[k].file && refs@[k]@ == fs[k].reference,
        decreases entries.len() - i,
    {
        let ghost prefix = entries@.subrange(0, i + 1);
        assert(prefix.drop_last() =~= entries@.subrange(0, i as int));
        assert(prefix.last() == entries@[i as int]);
        match resolve_secret_entry(profile, entries[i].0.as_str(), &entries[i].1, env) {
            Ok((file, reference)) => {
                files.push(file);
                refs.push(reference);
            },
            Err(m) => {
                proof {
                    lemma_secret_entries_error(profile@, entries@, env@, i as int + 1);
                }
                return Err(m);
            },
        }
        i = i + 1;
    }
    assert(entries@.subrange(0, i as int) =~= entries@);
    let r = Ok((files, refs));
    assert(secrets_resolved(r, secret_entries_spec(profile@, entries@, env@)));
    r
}

/// The secret files and references resolved as `fs` says, or the error it
/// gives.
pub open spec fn secrets_resolved(
    r: Result<(Vec<SecretFile>, Vec<SecretRef>), String>,
    fs: Result<Seq<SecretFields>, Seq<char>>,
) -> bool {
    match fs {
        Ok(fs) => match r {
            Ok(p) => p.0@.len() == fs.len() && p.1@.len() == fs.len() && forall|i: int|
                0 <= i < fs.len() ==> #[trigger] p.0@[i]@ == fs[i].file && p.1@[i]@ == fs[i].reference,
            Err(_) => false,
        },
        Err(m) => match r {
            Ok(_) => false,
            Err(e) => e@ == m,
        },
    }
}

/// Once a prefix of the entries fails, the whole table fails the same way.
proof fn lemma_secret_entries_error(
    profile: Seq<char>,
    entries: Seq<(String, ConfigValue)>,
    env: Seq<(String, String)>,
    k: int,
)
    requires
        0 <= k <= entries.len(),
        secret_entries_spec(profile, entries.subrange(0, k), env) is Err,
    ensures
        secret_entries_spec(profile, entries, env) == secret_entries_spec(
            profile,
            entries.subrange(0, k),
            env,
        ),
    decreases entries.len() - k,
{
    if k < entries.len() {
        let p = entries.subrange(0, k + 1);
        assert(p.drop_last() =~= entries.subrange(0, k));
        lemma_secret_entries_error(profile, entries, env, k + 1);
    } else {
        assert(entries.subrange(0, k) =~= entries);
    }
}

/// The fields of a resolved sandbox.
pub ghost enum SandboxFields {
    Bubblewrap { rootfs: Seq<char>, digest: Seq<char>, seccomp: Seq<char>, seccomp_digest: Seq<char> },
    Oci { engine: Seq<char>, image: Seq<char>, seccomp: Seq<char>, seccomp_digest: Seq<char> },
}

/// The fields of a sandbox.
pub open spec fn sandbox_fields(s: Sandbox) -> SandboxFields {
    match s {
        Sandbox::Bubblewrap { rootfs, rootfs_digest, seccomp_profile, seccomp_digest } => SandboxFields::Bubblewrap {
            rootfs: rootfs@,
            digest: rootfs_digest@,
            seccomp: seccomp_profile@,
            seccomp_digest: seccomp_digest@,
        },
        Sandbox::Oci { engine, image, seccomp_profile, seccomp_digest } => SandboxFields::Oci {
            engine: engine@,
            image: image@,
            seccomp: seccomp_profile@,
            seccomp_digest: seccomp_digest@,
        },
    }
}

/// `profile <p> <kind> sandbox.<field> is required`.
pub open spec fn sandbox_required(profile: Seq<char>, kind: Seq<char>, field: Seq<char>) -> Seq<char> {
    "profile "@ + profile + " "@ + kind + " sandbox."@ + field + " is required"@
}

/// How a profile's sandbox resolves: a table with a `type` of
/// `bubblewrap` (with `rootfs`, `digest`, `seccomp`, `seccomp_digest`) or
/// `oci` (with `engine`, `image`, `seccomp`, `seccomp_digest`), all strings,
/// and no other field.
pub open spec fn sandbox_spec(profile: Seq<char>, v: Option<ConfigValue>) -> Result<SandboxFields, Seq<char>> {
    match table_of(v) {
        None => Err(about(profile, " must declare a sandbox"@)),
        Some(t) => match text_of(lookup(t, "type"@)) {
            None => Err(about(profile, " sandbox.type is required"@)),
            Some(kind) => if kind == "bubblewrap"@ {
                match (
                    text_of(lookup(t, "rootfs"@)),
                    text_of(lookup(t, "digest"@)),
                    text_of(lookup(t, "seccomp"@)),
                    text_of(lookup(t, "seccomp_digest"@)),
                ) {
                    (None, _, _, _) => Err(sandbox_required(profile, "bubblewrap"@, "rootfs"@)),
                    (Some(_), None, _, _) => Err(sandbox_required(profile, "bubblewrap"@, "digest"@)),
                    (Some(_), Some(_), None, _) => Err(
                        sandbox_required(profile, "bubblewrap"@, "seccomp"@),
                    ),
                    (Some(_), Some(_), Some(_), None) => Err(
                        sandbox_required(profile, "bubblewrap"@, "seccomp_digest"@),
                    ),
                    (Some(a), Some(b), Some(c), Some(d)) => if !keys_within(
                        t,
                        seq!["type"@, "rootfs"@, "digest"@, "seccomp"@, "seccomp_digest"@],
                    ) {
                        Err(about(profile, " bubblewrap sandbox has unknown fields"@))
                    } else {
                        Ok(SandboxFields::Bubblewrap { rootfs: a, digest: b, seccomp: c, seccomp_digest: d })
                    },
                }
            } else if kind == "oci"@ {
                match (
                    text_of(lookup(t, "engine"@)),
                    text_of(lookup(t, "image"@)),
                    text_of(lookup(t, "seccomp"@)),
                    text_of(lookup(t, "seccomp_digest"@)),
                ) {
                    (None, _, _, _) => Err(sandbox_required(profile, "OCI"@, "engine"@)),
                    (Some(_), None, _, _) => Err(sandbox_required(profile, "OCI"@, "image"@)),
                    (Some(_), Some(_), None, _) => Err(sandbox_required(profile, "OCI"@, "seccomp"@)),
                    (Some(_), Some(_), Some(_), None) => Err(
                        sandbox_required(profile, "OCI"@, "seccomp_digest"@),
                    ),
                    (Some(a), Some(b), Some(c), Some(d)) => if !keys_within(
                        t,
                        seq!["type"@, "engine"@, "image"@, "seccomp"@, "seccomp_digest"@],
                    ) {
                        Err(about(profile, " OCI sandbox has unknown fields"@))
                    } else {
                        Ok(SandboxFields::Oci { engine: a, image: b, seccomp: c, seccomp_digest: d })
                    },
                }
            } else {
                Err(about(profile, " sandbox.type must be bubblewrap or oci"@))
            },
        },
    }
}

fn sandbox_required_exec(profile: &str, kind: &str, field: &str) -> (r: String)
    ensures
        r@ == sandbox_required(profile@, kind@, field@),
{
    let mut s = join3("profile ", profile, " ");
    s.append(kind);
    s.append(" sandbox.");
    s.append(field);
    s.append(" is required");
    s
}

fn resolve_sandbox(profile: &str, v: Option<&ConfigValue>) -> (r: Result<Sandbox, String>)
    ensures
        match sandbox_spec(profile@, opt_deref(v)) {
            Ok(f) => r matches Ok(s) && sandbox_fields(s) == f,
            Err(m) => r matches Err(e) && e@ == m,
        },
{
    let t = match table_value(v) {
        Some(t) => t,
        None => return Err(about_exec(profile, " must declare a sandbox")),
    };
    let kind = match text_value(find(t, "type")) {
        Some(k) => k,
        None => return Err(about_exec(profile, " sandbox.type is required")),
    };
    if str_eq(kind, "bubblewrap") {
        let a = match text_value(find(t, "rootfs")) {
            Some(x) => x,
            None => return Err(sandbox_required_exec(profile, "bubblewrap", "rootfs")),
        };
        let b = match text_value(find(t, "digest")) {
            Some(x) => x,
            None => return Err(sandbox_required_exec(profile, "bubblewrap", "digest")),
        };
        let c = match text_value(find(t, "seccomp")) {
            Some(x) => x,
            None => return Err(sandbox_required_exec(profile, "bubblewrap", "seccomp")),
        };
        let d = match text_value(find(t, "seccomp_digest")) {
            Some(x) => x,
            None => return Err(sandbox_required_exec(profile, "bubblewrap", "seccomp_digest")),
        };
        let allowed: [&str; 5] = ["type", "rootfs", "digest", "seccomp", "seccomp_digest"];
        let known = keys_allowed(t, &allowed);
        proof {
            assert(allowed@.map_values(|a: &str| a@) =~= seq![
                "type"@,
                "rootfs"@,
                "digest"@,
                "seccomp"@,
                "seccomp_digest"@,
            ]);
        }
        if !known {
            return Err(about_exec(profile, " bubblewrap sandbox has unknown fields"));
        }
        Ok(
            Sandbox::Bubblewrap {
                rootfs: owned(a),
                rootfs_digest: owned(b),
                seccomp_profile: owned(c),
                seccomp_digest: owned(d),
            },
        )
    } else if str_eq(kind, "oci") {
        proof {
            reveal_strlit("bubblewrap");
            reveal_strlit("oci");
            assert("bubblewrap"@.len() != "oci"@.len());
        }
        let a = match text_value(find(t, "engine")) {
            Some(x) => x,
            None => return Err(sandbox_required_exec(profile, "OCI", "engine")),
        };
        let b = match text_value(find(t, "image")) {
            Some(x) => x,
            None => return Err(sandbox_required_exec(profile, "OCI", "image")),
        };
        let c = match text_value(find(t, "seccomp")) {
            Some(x) => x,
            None => return Err(sandbox_required_exec(profile, "OCI", "seccomp")),
        };
        let d = match text_value(find(t, "seccomp_digest")) {
            Some(x) => x,
            None => return Err(sandbox_required_exec(profile, "OCI", "seccomp_digest")),
        };
        let allowed: [&str; 5] = ["type", "engine", "image", "seccomp", "seccomp_digest"];
        let known = keys_allowed(t, &allowed);
        proof {
            assert(allowed@.map_values(|a: &str| a@) =~= seq![
                "type"@,
                "engine"@,
                "image"@,
                "seccomp"@,
                "seccomp_digest"@,
            ]);
        }
        if !known {
            return Err(about_exec(profile, " OCI sandbox has unknown fields"));
        }
        Ok(
            Sandbox::Oci {
                engine: owned(a),
                image: owned(b),
                seccomp_profile: owned(c),
                seccomp_digest: owned(d),
            },
        )
    } else {
        Err(about_exec(profile, " sandbox.type must be bubblewrap or oci"))
    }
}

/// `profile <p> policy.<field><rest>`.
pub open spec fn about_policy(profile: Seq<char>, field: Seq<char>, rest: Seq<char>) -> Seq<char> {
    "profile "@ + profile + " policy."@ + field + rest
}

fn about_policy_exec(profile: &str, field: &str, rest: &str) -> (r: String)
    ensures
        r@ == about_policy(profile@, field@, rest@),
{
    let mut s = join3("profile ", profile, " policy.");
    s.append(field);
    s.append(rest);
    s
}

/// A positive integer policy field, or its default when absent.
pub open spec fn policy_u64_spec(t: Seq<(String, ConfigValue)>, field: Seq<char>, default: u64, profile: Seq<char>) -> Result<u64, Seq<char>> {
    match lookup(t, field) {
        None => Ok(default),
        Some(ConfigValue::Integer(v)) => if v > 0 {
            Ok(v as u64)
        } else {
            Err(about_policy(profile, field, " must be a positive integer"@))
        },
        _ => Err(about_policy(profile, field, " must be a positive integer"@)),
    }
}

/// A positive integer policy field that must also fit in 32 bits.
pub open spec fn policy_u32_spec(t: Seq<(String, ConfigValue)>, field: Seq<char>, default: u32, profile: Seq<char>) -> Result<u32, Seq<char>> {
    match policy_u64_spec(t, field, default as u64, profile) {
        Err(m) => Err(m),
        Ok(v) => if v > u32::MAX {
            Err(about_policy(profile, field, " is too large"@))
        } else {
            Ok(v as u32)
        },
    }
}

fn policy_u64(t: &Vec<(String, ConfigValue)>, field: &str, default: u64, profile: &str) -> (r: Result<u64, String>)
    ensures
        match policy_u64_spec(t@, field@, default, profile@) {
            Ok(v) => r == Ok::<u64, String>(v),
            Err(m) => r matches Err(e) && e@ == m,
        },
{
    match find(t, field) {
        None => Ok(default),
        Some(ConfigValue::Integer(v)) if *v > 0 => Ok(*v as u64),
        _ => Err(about_policy_exec(profile, field, " must be a positive integer")),
    }
}

fn policy_u32(t: &Vec<(String, ConfigValue)>, field: &str, default: u32, profile: &str) -> (r: Result<u32, String>)
    ensures
        match policy_u32_spec(t@, field@, default, profile@) {
            Ok(v) => r == Ok::<u32, String>(v),
            Err(m) => r matches Err(e) && e@ == m,
        },
{
    let v = policy_u64(t, field, default as u64, profile)?;
    if v > u32::MAX as u64 {
        return Err(about_policy_exec(profile, field, " is too large"));
    }
    Ok(v as u32)
}

/// The keys a policy table may hold.
pub open spec fn policy_keys() -> Seq<Seq<char>> {
    seq![
        "memory_bytes"@,
        "max_processes"@,
        "max_open_files"@,
        "max_file_bytes"@,
        "cpu_seconds"@,
        "egress_broker_socket"@,
    ]
}

/// How a profile's policy resolves: absent means the default limits and no
/// egress; otherwise a table of known fields, each limit a positive integer
/// (the 32-bit ones no larger than that), and an optional broker socket
/// path.
pub open spec fn policy_spec(profile: Seq<char>, v: Option<ConfigValue>) -> Result<
    (ResourceLimits, Option<Seq<char>>),
    Seq<char>,
> {
    match v {
        None => Ok((default_limits(), None)),
        Some(value) => match value {
            ConfigValue::Table(t) => if !keys_within(t@, policy_keys()) {
                Err(about(profile, " policy has unknown fields"@))
            } else {
                let d = default_limits();
                match (
                    policy_u64_spec(t@, "memory_bytes"@, d.memory_bytes, profile),
                    policy_u32_spec(t@, "max_processes"@, d.max_processes, profile),
                    policy_u32_spec(t@, "max_open_files"@, d.max_open_files, profile),
                    policy_u64_spec(t@, "max_file_bytes"@, d.max_file_bytes, profile),
                    policy_u64_spec(t@, "cpu_seconds"@, d.cpu_seconds, profile),
                ) {
                    (Err(m), _, _, _, _) => Err(m),
                    (Ok(_), Err(m), _, _, _) => Err(m),
                    (Ok(_), Ok(_), Err(m), _, _) => Err(m),
                    (Ok(_), Ok(_), Ok(_), Err(m), _) => Err(m),
                    (Ok(_), Ok(_), Ok(_), Ok(_), Err(m)) => Err(m),
                    (Ok(a), Ok(b), Ok(c), Ok(e), Ok(f)) => {
                        let limits = ResourceLimits {
                            memory_bytes: a,
                            max_processes: b,
                            max_open_files: c,
                            max_file_bytes: e,
                            cpu_seconds: f,
                        };
                        match lookup(t@, "egress_broker_socket"@) {
                            None => Ok((limits, None)),
                            Some(ConfigValue::Str(path)) => Ok((limits, Some(path@))),
                            _ => Err(
                                about(profile, " policy.egress_broker_socket must be a path string"@),
                            ),
                        }
                    },
                }
            },
            _ => Err(about(profile, " policy must be a table"@)),
        },
    }
}

/// Each limit of a resolved policy table is read from the key of its own
/// name: the table's positive integer when the key is there, else the
/// default (1 GiB of memory, 64 processes, 256 open files, 1 GiB files,
/// 900 CPU seconds); and the egress broker is the table's path, if any.
pub proof fn lemma_policy_reads_each_field_from_its_key(profile: Seq<char>, t: Vec<(String, ConfigValue)>)
    requires
        policy_spec(profile, Some(ConfigValue::Table(t))) is Ok,
    ensures
        ({
            let (lim, broker) = policy_spec(profile, Some(ConfigValue::Table(t)))->Ok_0;
            &&& (match lookup(t@, "memory_bytes"@) {
                Some(ConfigValue::Integer(v)) => lim.memory_bytes == v,
                _ => lim.memory_bytes == 1073741824,
            })
            &&& (match lookup(t@, "max_processes"@) {
                Some(ConfigValue::Integer(v)) => lim.max_processes == v,
                _ => lim.max_processes == 64,
            })
            &&& (match lookup(t@, "max_open_files"@) {
                Some(ConfigValue::Integer(v)) => lim.max_open_files == v,
                _ => lim.max_open_files == 256,
            })
            &&& (match lookup(t@, "max_file_bytes"@) {
                Some(ConfigValue::Integer(v)) => lim.max_file_bytes == v,
                _ => lim.max_file_bytes == 1073741824,
            })
            &&& (match lookup(t@, "cpu_seconds"@) {
                Some(ConfigValue::Integer(v)) => lim.cpu_seconds == v,
                _ => lim.cpu_seconds == 900,
            })
            &&& (match lookup(t@, "egress_broker_socket"@) {
                Some(ConfigValue::Str(p)) => broker == Some(p@),
                _ => broker is None,
            })
        }),
{
}

/// The limits and broker path of a policy.
pub open spec fn policy_fields(p: WorkerPolicy) -> (ResourceLimits, Option<Seq<char>>) {
    (p.resources, crate::worker::command::broker_path(p.egress))
}

fn resolve_policy(profile: &str, v: Option<&ConfigValue>) -> (r: Result<WorkerPolicy, String>)
    ensures
        match policy_spec(profile@, opt_deref(v)) {
            Ok(f) => r matches Ok(p) && policy_fields(p) == f,
            Err(m) => r matches Err(e) && e@ == m,
        },
{
    let value = match v {
        None => return Ok(WorkerPolicy::default()),
        Some(value) => value,
    };
    let t = match value {
        ConfigValue::Table(t) => t,
        _ => return Err(about_exec(profile, " policy must be a table")),
    };
    let allowed: [&str; 6] = [
        "memory_bytes",
        "max_processes",
        "max_open_files",
        "max_file_bytes",
        "cpu_seconds",
        "egress_broker_socket",
    ];
    let known = keys_allowed(t, &allowed);
    proof {
        assert(allowed@.map_values(|a: &str| a@) =~= policy_keys());
    }
    if !known {
        return Err(about_exec(profile, " policy has unknown fields"));
    }
    let defaults = ResourceLimits::default();
    let memory_bytes = policy_u64(t, "memory_bytes", defaults.memory_bytes, profile)?;
    let max_processes = policy_u32(t, "max_processes", defaults.max_processes, profile)?;
    let max_open_files = policy_u32(t, "max_open_files", defaults.max_open_files, profile)?;
    let max_file_bytes = policy_u64(t, "max_file_bytes", defaults.max_file_bytes, profile)?;
    let cpu_seconds = policy_u64(t, "cpu_seconds", defaults.cpu_seconds, profile)?;
    let resources = ResourceLimits {
        memory_bytes,
        max_processes,
        max_open_files,
        max_file_bytes,
        cpu_seconds,
    };
    let egress = match find(t, "egress_broker_socket") {
        None => EgressPolicy::Deny,
        Some(ConfigValue::Str(path)) => EgressPolicy::BrokerSocket(owned(path.as_str())),
        Some(_) => {
            return Err(about_exec(profile, " policy.egress_broker_socket must be a path string"))
        },
    };
    Ok(WorkerPolicy { resources, egress })
}

/// A profile resolved from configuration. Secret values stay in the secret
/// files; the references record only where they came from.
pub struct ResolvedProfile {
    pub argv: Vec<String>,
    pub secret_files: Vec<SecretFile>,
    pub secret_refs: Vec<SecretRef>,
    pub retry_limit: u32,
    pub checkout: Option<String>,
    pub sandbox: Sandbox,
    pub policy: WorkerPolicy,
}

/// What a resolved profile holds.
pub ghost struct ProfileFields {
    pub argv: Seq<Seq<char>>,
    pub retry_limit: u32,
    pub checkout: Option<Seq<char>>,
    pub secrets: Seq<SecretFields>,
    pub sandbox: SandboxFields,
    pub policy: (ResourceLimits, Option<Seq<char>>),
}

/// The keys a profile table may hold.
pub open spec fn profile_keys() -> Seq<Seq<char>> {
    seq!["argv"@, "retry_limit"@, "checkout"@, "secret_file"@, "sandbox"@, "policy"@]
}

/// How profile `name` resolves from a configuration table and an
/// environment snapshot. In order: the table must have `[profile.*]`
/// tables and one named `name`; `argv` must be a non-empty array of strings
/// whose first is not empty; then `retry_limit`, `checkout`, no `env`,
/// `secret_file`, `sandbox`, `policy`, and no unknown field.
pub open spec fn profile_spec(
    table: Seq<(String, ConfigValue)>,
    name: Seq<char>,
    env: Seq<(String, String)>,
) -> Result<ProfileFields, Seq<char>> {
    match table_of(lookup(table, "profile"@)) {
        None => Err("config has no [profile.*] tables"@),
        Some(profiles) => match table_of(lookup(profiles, name)) {
            None => Err("unknown worker profile "@ + name),
            Some(prof) => match string_array_spec(lookup(prof, "argv"@), "argv"@) {
                Err(m) => Err(m),
                Ok(argv) => if argv.len() == 0 || argv[0].len() == 0 {
                    Err(about(name, " argv is empty"@))
                } else {
                    match retry_limit_spec(lookup(prof, "retry_limit"@), name) {
                        Err(m) => Err(m),
                        Ok(retry_limit) => match checkout_spec(lookup(prof, "checkout"@), name) {
                            Err(m) => Err(m),
                            Ok(checkout) => if lookup(prof, "env"@) is Some {
                                Err(
                                    about(
                                        name,
                                        " env is unsupported in schema v2; use [profile."@ + name
                                            + ".secret_file]"@,
                                    ),
                                )
                            } else {
                                let secrets = match lookup(prof, "secret_file"@) {
                                    None => Ok(Seq::<SecretFields>::empty()),
                                    Some(ConfigValue::Table(map)) => secret_entries_spec(
                                        name,
                                        map@,
                                        env,
                                    ),
                                    Some(_) => Err(
                                        about(
                                            name,
                                            " secret_file must be a table of fromEnv references"@,
                                        ),
                                    ),
                                };
                                match secrets {
                                    Err(m) => Err(m),
                                    Ok(secrets) => match sandbox_spec(name, lookup(prof, "sandbox"@)) {
                                        Err(m) => Err(m),
                                        Ok(sandbox) => match policy_spec(name, lookup(prof, "policy"@)) {
                                            Err(m) => Err(m),
                                            Ok(policy) => if !keys_within(prof, profile_keys()) {
                                                Err(about(name, " has unknown fields"@))
                                            } else {
                                                Ok(
                                                    ProfileFields {
                                                        argv,
                                                        retry_limit,
                                                        checkout,
                                                        secrets,
                                                        sandbox,
                                                        policy,
                                                    },
                                                )
                                            },
                                        },
                                    },
                                }
                            },
                        },
                    }
                },
            },
        },
    }
}

/// A resolved profile holds the fields `f`.
pub open spec fn profile_holds(p: ResolvedProfile, f: ProfileFields) -> bool {
    &&& texts(p.argv@) == f.argv
    &&& p.retry_limit == f.retry_limit
    &&& crate::domain::work::opt_view(p.checkout) == f.checkout
    &&& p.secret_files@.len() == f.secrets.len()
    &&& p.secret_refs@.len() == f.secrets.len()
    &&& forall|i: int|
        0 <= i < f.secrets.len() ==> #[trigger] p.secret_files@[i]@ == f.secrets[i].file
            && p.secret_refs@[i]@ == f.secrets[i].reference
    &&& sandbox_fields(p.sandbox) == f.sandbox
    &&& policy_fields(p.policy) == f.policy
}

/// Resolves profile `name` from a configuration table, reading secret
/// values from an environment snapshot.
pub fn resolve_profile(table: &Vec<(String, ConfigValue)>, name: &str, env: &Vec<(String, String)>) -> (r:
    Result<ResolvedProfile, String>)
    ensures
        match profile_spec(table@, name@, env@) {
            Ok(f) => r matches Ok(p) && profile_holds(p, f),
            Err(m) => r matches Err(e) && e@ == m,
        },
{
    let profiles = match table_value(find(table, "profile")) {
        Some(p) => p,
        None => return Err(owned("config has no [profile.*] tables")),
    };
    let prof = match table_value(find(profiles, name)) {
        Some(p) => p,
        None => return Err(join2("unknown worker profile ", name)),
    };
    let argv = string_array(find(prof, "argv"), "argv")?;
    if argv.len() == 0 || argv[0].as_str().is_empty() {
        return Err(about_exec(name, " argv is empty"));
    }
    assert(texts(argv@)[0] == argv@[0]@);
    let retry_limit = retry_limit_of(find(prof, "retry_limit"), name)?;
    let checkout = checkout_of(find(prof, "checkout"), name)?;
    if find(prof, "env").is_some() {
        let mut s = join3("profile ", name, " env is unsupported in schema v2; use [profile.");
        s.append(name);
        s.append(".secret_file]");
        return Err(s);
    }
    let (secret_files, secret_refs) = match find(prof, "secret_file") {
        None => (Vec::new(), Vec::new()),
        Some(ConfigValue::Table(map)) => {
            let resolved = resolve_secret_files(name, map, env);
            match resolved {
                Ok(pair) => pair,
                Err(m) => return Err(m),
            }
        },
        Some(_) => {
            return Err(about_exec(name, " secret_file must be a table of fromEnv references"))
        },
    };
    let sandbox = resolve_sandbox(name, find(prof, "sandbox"))?;
    let policy = resolve_policy(name, find(prof, "policy"))?;
    let allowed: [&str; 6] = ["argv", "retry_limit", "checkout", "secret_file", "sandbox", "policy"];
    let known = keys_allowed(prof, &allowed);
    proof {
        assert(allowed@.map_values(|a: &str| a@) =~= profile_keys());
    }
    if !known {
        return Err(about_exec(name, " has unknown fields"));
    }
    Ok(
        ResolvedProfile {
            argv,
            secret_files,
            secret_refs,
            retry_limit,
            checkout,
            sandbox,
            policy,
        },
    )
}

/// Whether a configuration table names profile `name` under `[profile]`.
pub open spec fn lists_profile(table: Seq<(String, ConfigValue)>, name: Seq<char>) -> bool {
    match table_of(lookup(table, "profile"@)) {
        None => false,
        Some(profiles) => lookup(profiles, name) is Some,
    }
}

/// Whether the configuration has a profile named `name`.
pub fn config_has_profile(table: &Vec<(String, ConfigValue)>, name: &str) -> (r: bool)
    ensures
        r == lists_profile(table@, name@),
{
    match table_value(find(table, "profile")) {
        None => false,
        Some(profiles) => find(profiles, name).is_some(),
    }
}

/// A configuration table holding one profile body under `[profile.<name>]`,
/// as when profiles come one per file.
pub fn single_profile_table(name: &str, body: Vec<(String, ConfigValue)>) -> (r: Vec<(String, ConfigValue)>)
    ensures
        table_of(lookup(r@, "profile"@)) is Some,
        lookup(table_of(lookup(r@, "profile"@))->0, name@) == Some(ConfigValue::Table(body)),
{
    proof {
        reveal_strlit("profile");
    }
    let mut profiles: Vec<(String, ConfigValue)> = Vec::new();
    profiles.push((owned(name), ConfigValue::Table(body)));
    let mut table: Vec<(String, ConfigValue)> = Vec::new();
    table.push((owned("profile"), ConfigValue::Table(profiles)));
    table
}

} // verus!
