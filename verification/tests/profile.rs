use workengine::profile::{
    config_has_profile, parse_config, resolve_profile, single_profile_table, ConfigValue,
};
use workengine::worker::policy::{EgressPolicy, Sandbox};

fn table(text: &str) -> Vec<(String, ConfigValue)> {
    parse_config("test.toml", text).unwrap()
}

fn env(pairs: &[(&str, &str)]) -> Vec<(String, String)> {
    pairs.iter().map(|(k, v)| (k.to_string(), v.to_string())).collect()
}

const OCI: &str = r#"sandbox = { type = "oci", engine = "docker", image = "example@sha256:123", seccomp = "/etc/workengine/seccomp.json", seccomp_digest = "sha256:1111111111111111111111111111111111111111111111111111111111111111" }"#;

#[test]
fn loads_argv_and_secret_file_refs() {
    let t = table(&format!(
        r#"
[profile.echo]
argv = ["/bin/true"]
retry_limit = 2
checkout = "/src"
{OCI}

[profile.echo.secret_file]
TOKEN = {{ fromEnv = "TOKEN" }}
"#
    ));
    let got = resolve_profile(&t, "echo", &env(&[("TOKEN", "secret")])).unwrap();
    assert_eq!(got.argv, vec!["/bin/true"]);
    assert_eq!(got.retry_limit, 2);
    assert_eq!(got.checkout.as_deref(), Some("/src"));
    assert_eq!(got.secret_files.len(), 1);
    assert!(matches!(got.sandbox, Sandbox::Oci { .. }));
    assert_eq!(got.secret_files[0].name(), "TOKEN");
    assert_eq!(got.secret_files[0].value(), "secret");
    assert_eq!(got.secret_refs[0].name(), "TOKEN");
    assert_eq!(got.secret_refs[0].source().reference(), "TOKEN");
}

#[test]
fn rejects_inline_env_values() {
    let t = table(&format!(
        r#"
[profile.echo]
argv = ["/bin/true"]
{OCI}

[profile.echo.secret_file]
TOKEN = "inline-secret"
"#
    ));
    let err = resolve_profile(&t, "echo", &env(&[])).err().unwrap();
    assert!(err.contains("fromEnv"), "{err}");
    assert_eq!(
        err,
        "profile echo secret_file.TOKEN must be { fromEnv = \"NAME\" }, not an inline value"
    );
}

#[test]
fn broken_other_profile_does_not_block() {
    let t = table(&format!(
        r#"
[profile.broken]
argv = ["/bin/false"]
{OCI}

[profile.broken.secret_file]
TOKEN = "inline-secret"

[profile.ok]
argv = ["/bin/true"]
{OCI}
"#
    ));
    let got = resolve_profile(&t, "ok", &env(&[])).unwrap();
    assert_eq!(got.argv, vec!["/bin/true"]);
}

#[test]
fn profile_dir_loads_only_the_requested_file() {
    let body = table(&format!("argv = [\"/bin/true\"]\n{OCI}\n"));
    let t = single_profile_table("ok", body);
    assert!(config_has_profile(&t, "ok"));
    assert!(!config_has_profile(&t, "broken"));
    let got = resolve_profile(&t, "ok", &env(&[])).unwrap();
    assert_eq!(got.argv, vec!["/bin/true"]);
}

#[test]
fn policy_is_deny_by_default_and_extra_egress_is_explicit() {
    let defaults = table(&format!("[profile.echo]\nargv = [\"/bin/true\"]\n{OCI}\n"));
    let resolved = resolve_profile(&defaults, "echo", &env(&[])).unwrap();
    assert_eq!(resolved.policy.egress, EgressPolicy::Deny);

    let brokered = table(&format!(
        r#"
[profile.echo]
argv = ["/bin/true"]
{OCI}
policy = {{ memory_bytes = 536870912, max_processes = 32, egress_broker_socket = "/run/workengine/broker.sock" }}
"#
    ));
    let resolved = resolve_profile(&brokered, "echo", &env(&[])).unwrap();
    assert_eq!(resolved.policy.resources.memory_bytes, 536_870_912);
    assert_eq!(resolved.policy.resources.max_processes, 32);
    assert_eq!(resolved.policy.resources.max_open_files, 256);
    assert_eq!(
        resolved.policy.egress,
        EgressPolicy::BrokerSocket("/run/workengine/broker.sock".to_owned())
    );
}

#[test]
fn bubblewrap_requires_rootfs_digest_and_seccomp_policy() {
    let missing = table(
        r#"
[profile.echo]
argv = ["/bin/true"]
sandbox = { type = "bubblewrap", rootfs = "/runtime" }
"#,
    );
    let error = resolve_profile(&missing, "echo", &env(&[])).err().unwrap();
    assert!(error.contains("sandbox.digest"), "{error}");
    assert_eq!(error, "profile echo bubblewrap sandbox.digest is required");
}

#[test]
fn profile_errors_name_the_field() {
    let t = table("[other]\nx = 1\n");
    assert_eq!(resolve_profile(&t, "echo", &env(&[])).err().unwrap(), "config has no [profile.*] tables");
    let t = table(&format!("[profile.echo]\nargv = [\"/bin/true\"]\n{OCI}\n"));
    assert_eq!(resolve_profile(&t, "nope", &env(&[])).err().unwrap(), "unknown worker profile nope");
    let t = table(&format!("[profile.echo]\nargv = [\"\"]\n{OCI}\n"));
    assert_eq!(resolve_profile(&t, "echo", &env(&[])).err().unwrap(), "profile echo argv is empty");
    let t = table(&format!("[profile.echo]\nargv = [1]\n{OCI}\n"));
    assert_eq!(resolve_profile(&t, "echo", &env(&[])).err().unwrap(), "argv must be an array of strings");
    let t = table(&format!("[profile.echo]\nargv = [\"/bin/true\"]\nretry_limit = -1\n{OCI}\n"));
    assert_eq!(
        resolve_profile(&t, "echo", &env(&[])).err().unwrap(),
        "profile echo retry_limit must be a non-negative integer"
    );
    let t = table(&format!("[profile.echo]\nargv = [\"/bin/true\"]\nretry_limit = 99999999999\n{OCI}\n"));
    assert_eq!(resolve_profile(&t, "echo", &env(&[])).unwrap().retry_limit, u32::MAX);
    let t = table(&format!("[profile.echo]\nargv = [\"/bin/true\"]\nenv = {{ A = \"b\" }}\n{OCI}\n"));
    assert_eq!(
        resolve_profile(&t, "echo", &env(&[])).err().unwrap(),
        "profile echo env is unsupported in schema v2; use [profile.echo.secret_file]"
    );
    let t = table(&format!("[profile.echo]\nargv = [\"/bin/true\"]\nextra = 1\n{OCI}\n"));
    assert_eq!(resolve_profile(&t, "echo", &env(&[])).err().unwrap(), "profile echo has unknown fields");
    let t = table("[profile.echo]\nargv = [\"/bin/true\"]\nsandbox = { type = \"vm\" }\n");
    assert_eq!(
        resolve_profile(&t, "echo", &env(&[])).err().unwrap(),
        "profile echo sandbox.type must be bubblewrap or oci"
    );
    let t = table(&format!("[profile.echo]\nargv = [\"/bin/true\"]\n{OCI}\npolicy = {{ cpu_seconds = 0 }}\n"));
    assert_eq!(
        resolve_profile(&t, "echo", &env(&[])).err().unwrap(),
        "profile echo policy.cpu_seconds must be a positive integer"
    );
    let t = table(&format!("[profile.echo]\nargv = [\"/bin/true\"]\n{OCI}\npolicy = {{ max_processes = 5000000000 }}\n"));
    assert_eq!(
        resolve_profile(&t, "echo", &env(&[])).err().unwrap(),
        "profile echo policy.max_processes is too large"
    );
}

#[test]
fn secret_file_needs_a_set_variable() {
    let t = table(&format!(
        "[profile.echo]\nargv = [\"/bin/true\"]\n{OCI}\n[profile.echo.secret_file]\nTOKEN = {{ fromEnv = \"TOKEN\" }}\n"
    ));
    assert_eq!(
        resolve_profile(&t, "echo", &env(&[])).err().unwrap(),
        "environment variable TOKEN is not set for profile echo secret_file.TOKEN"
    );
    let t = table(&format!(
        "[profile.echo]\nargv = [\"/bin/true\"]\n{OCI}\n[profile.echo.secret_file]\nTOKEN = {{ fromEnv = \"TOKEN\", mode = \"x\" }}\n"
    ));
    assert_eq!(
        resolve_profile(&t, "echo", &env(&[("TOKEN", "v")])).err().unwrap(),
        "profile echo secret_file.TOKEN only fromEnv is allowed"
    );
}

#[test]
fn config_text_that_is_not_toml_names_the_file() {
    let err = parse_config("/etc/p.toml", "argv = [").unwrap_err();
    assert!(err.starts_with("parse config /etc/p.toml: "), "{err}");
    let t = table("a = \"x\"\nb = 3\nc = [\"y\"]\nd = true\n[e]\nf = 1\n");
    assert!(matches!(&t[0], (k, ConfigValue::Str(v)) if k == "a" && v == "x"));
    assert!(matches!(&t[1], (k, ConfigValue::Integer(3)) if k == "b"));
    assert!(matches!(&t[2], (k, ConfigValue::Array(items)) if k == "c" && items.len() == 1));
    assert!(matches!(&t[3], (k, ConfigValue::Other) if k == "d"));
    assert!(matches!(&t[4], (k, ConfigValue::Table(inner)) if k == "e" && inner.len() == 1));
}
