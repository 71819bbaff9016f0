use collect_info::catalog::catalog;
use collect_info::config::Options;
use collect_info::config::Overrides;
use collect_info::render::format_args;
use collect_info::render::format_cqlsh_opts;
use collect_info::render::format_command;
use collect_info::render::format_jmx_password;

fn default_options() -> Options {
    Options::new("1234".to_string(), "/tmp/out".to_string(), Overrides::empty())
}

#[test]
fn defaults_without_overrides() {
    let o = default_options();
    assert_eq!(o.cassandra_pid, "1234");
    assert_eq!(o.artifact_dir, "/tmp/out");
    assert_eq!(o.base_dir, "/tmp/datastax");
    assert_eq!(o.skip_sudo, "false");
    assert_eq!(o.log_home, "/var/log/cassandra");
    assert_eq!(o.config_home, "/etc/cassandra");
    assert_eq!(o.data_dir, "");
    assert_eq!(o.prometheus_jar, "none.jar");
    assert_eq!(o.jmx_port, "7199");
    assert_eq!(o.jmx_username, "");
    assert_eq!(o.jmx_password, "");
    assert_eq!(o.cqlsh_host, "localhost");
    assert_eq!(o.cqlsh_opts, "");
    assert_eq!(o.timeout_opts, "");
    assert_eq!(o.dse_bin_dir, "");
    assert_eq!(o.skip_stat, "");
    assert_eq!(o.skip_dse, "");
    assert_eq!(o.no_nodesyncrate, "");
}

#[test]
fn override_wins_over_default() {
    let mut ov = Overrides::empty();
    ov.jmx_port = Some("9999".to_string());
    ov.base_dir = Some("/opt/dsx".to_string());
    let o = Options::new("7".to_string(), "/art".to_string(), ov);
    assert_eq!(o.jmx_port, "9999");
    assert_eq!(o.base_dir, "/opt/dsx");
    assert_eq!(o.cqlsh_host, "localhost");
}

#[test]
fn catalog_has_all_entries_well_formed() {
    let cmds = catalog();
    assert_eq!(cmds.len(), 79);
    for c in &cmds {
        assert!(c.is_well_formed(), "escalation without an output file: {}", c.command);
    }
}

#[test]
fn catalog_first_entry_is_mandatory_schema_dump() {
    let cmds = catalog();
    assert_eq!(cmds[0].command, "cqlsh");
    assert!(!cmds[0].optional);
    assert_eq!(cmds[0].file, "schema.cql");
    assert!(cmds[0].use_stdout);
    assert!(!cmds[0].use_sudo);
    assert!(!cmds[0].use_timeout);
}

#[test]
fn catalog_holds_the_uname_entry() {
    let cmds = catalog();
    let uname = cmds.iter().find(|c| c.command == "uname").expect("uname entry");
    assert_eq!(uname.args, "-a");
    assert_eq!(uname.file, "os/uname.txt");
    assert!(uname.optional);
}

#[test]
fn format_command_substitutes_tokens() {
    let o = default_options();
    assert_eq!(format_command("uname", &o), "uname");
    assert_eq!(format_command("{base_dir}/dstat", &o), "/tmp/datastax/dstat");
    assert_eq!(format_command("{dse_bin_dir}dsetool", &o), "dsetool");
}

#[test]
fn format_command_with_bin_dir_override() {
    let mut ov = Overrides::empty();
    ov.dse_bin_dir = Some("/opt/dse/bin/".to_string());
    let o = Options::new("1".to_string(), "/a".to_string(), ov);
    assert_eq!(format_command("{dse_bin_dir}dsetool", &o), "/opt/dse/bin/dsetool");
}

#[test]
fn format_jmx_password_masks() {
    assert_eq!(format_jmx_password("secret123", true), "****");
    assert_eq!(format_jmx_password("secret123", false), "secret123");
    assert_eq!(format_jmx_password("", true), "****");
}

#[test]
fn format_cqlsh_opts_masks_embedded_password() {
    assert_eq!(
        format_cqlsh_opts("-u admin -p topsecret", "topsecret", true),
        "-u admin -p ****"
    );
    assert_eq!(
        format_cqlsh_opts("-u admin -p topsecret", "topsecret", false),
        "-u admin -p topsecret"
    );
}

#[test]
fn format_cqlsh_opts_with_empty_password_changes_nothing() {
    assert_eq!(format_cqlsh_opts("-u admin", "", true), "-u admin");
}

#[test]
fn format_args_substitutes_every_token() {
    let o = default_options();
    let r = format_args(
        "{cassandra_pid} {jmx_port} {cqlsh_host} {artifact_dir}/x",
        &o,
        false,
    );
    assert_eq!(r, "1234 7199 localhost /tmp/out/x");
}

#[test]
fn format_args_leaves_unknown_tokens_verbatim() {
    let o = default_options();
    assert_eq!(format_args("find {} +", &o, false), "find {} +");
}
