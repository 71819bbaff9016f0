use collect_info::catalog::catalog;
use collect_info::catalog::Cmd;
use collect_info::catalog::SkipFlag;
use collect_info::config::Options;
use collect_info::config::Overrides;
use collect_info::engine::after_execution;
use collect_info::engine::audit_log;
use collect_info::engine::audit_log_path;
use collect_info::engine::entry_action;
use collect_info::engine::should_skip_command;
use collect_info::engine::Action;
use collect_info::engine::RunControl;
use collect_info::probe::check_command;
use collect_info::probe::lookup_availability;
use collect_info::probe::probe_plan;
use collect_info::render::audit_line;
use collect_info::render::format_args;
use collect_info::render::format_command;

fn default_options() -> Options {
    Options::new("1234".to_string(), "/tmp/out".to_string(), Overrides::empty())
}

fn plain_cmd(command: &str, args: &str, file: &str) -> Cmd {
    Cmd {
        command: command.to_string(),
        args: args.to_string(),
        file: file.to_string(),
        optional: true,
        skip_flags: vec![],
        use_stdout: true,
        use_sudo: false,
        use_timeout: false,
    }
}

// Scenario: positional inputs ("1234", "/tmp/out"), no overrides; the uname
// entry runs with `uname -a`, writes /tmp/out/os/uname.txt, and audits
// `uname -a > os/uname.txt`.
#[test]
fn uname_scenario_with_defaults() {
    let o = default_options();
    let cmds = catalog();
    let uname = cmds.iter().find(|c| c.command == "uname").expect("uname entry");
    assert_eq!(audit_log_path(&o), "/tmp/out/collect-info.audit.log");
    assert_eq!(audit_line(uname, &o), "uname -a > os/uname.txt\n");
    match entry_action(uname, &o, true) {
        Action::Run { invocation, audit, output } => {
            assert_eq!(invocation.program, "uname");
            assert_eq!(invocation.args, vec!["-a".to_string()]);
            assert_eq!(audit, "uname -a > os/uname.txt\n");
            let out = output.expect("output file");
            assert_eq!(out.path, "/tmp/out/os/uname.txt");
            assert!(out.use_stdout);
        }
        _ => panic!("uname should run when available"),
    }
}

// Scenario: override jmxPassword=secret123; an entry whose argument template
// embeds {jmx_password} shows **** in the masked rendering while the spawned
// process receives secret123 as a literal argument.
#[test]
fn jmx_password_scenario() {
    let mut ov = Overrides::empty();
    ov.jmx_password = Some("secret123".to_string());
    let o = Options::new("1234".to_string(), "/tmp/out".to_string(), ov);
    let cmds = catalog();
    let scraper = cmds
        .iter()
        .find(|c| c.args.contains("{jmx_password}"))
        .expect("an entry embedding the management password");
    let masked = format_args(&scraper.args, &o, true);
    assert!(masked.contains("****"));
    assert!(!masked.contains("secret123"));
    let line = audit_line(scraper, &o);
    assert!(!line.contains("secret123"));
    match entry_action(scraper, &o, true) {
        Action::Run { invocation, audit, .. } => {
            assert!(invocation.args.iter().any(|a| a == "secret123"));
            assert!(!audit.contains("secret123"));
        }
        _ => panic!("the scraper entry should run when available"),
    }
}

// Scenario: an override sets a skip flag referenced by an entry to "true";
// the entry reports as skipped, is never invoked, and leaves no audit line.
#[test]
fn skip_flag_scenario() {
    let mut ov = Overrides::empty();
    ov.skip_stat = Some("true".to_string());
    let o = Options::new("1234".to_string(), "/tmp/out".to_string(), ov);
    let cmds = catalog();
    let vmstat = cmds.iter().find(|c| c.command == "vmstat").expect("vmstat entry");
    assert!(should_skip_command(vmstat, &o));
    assert!(matches!(entry_action(vmstat, &o, true), Action::Skipped));
    let full = audit_log(&cmds, &o, &vec![true; cmds.len()]);
    assert!(!full.contains("vmstat"));
}

#[test]
fn skip_flag_is_case_sensitive() {
    let mut ov = Overrides::empty();
    ov.skip_stat = Some("True".to_string());
    let o = Options::new("1".to_string(), "/a".to_string(), ov);
    let cmds = catalog();
    let vmstat = cmds.iter().find(|c| c.command == "vmstat").expect("vmstat entry");
    assert!(!should_skip_command(vmstat, &o));
}

#[test]
fn skip_flag_beats_mandatory_status() {
    let mut ov = Overrides::empty();
    ov.skip_dse = Some("true".to_string());
    let o = Options::new("1".to_string(), "/a".to_string(), ov);
    let mut c = plain_cmd("dsetool", "status", "dsetool/status.txt");
    c.optional = false;
    c.skip_flags = vec![SkipFlag::SkipDse];
    assert!(matches!(entry_action(&c, &o, false), Action::Skipped));
}

// A mandatory entry appears in the execution pass even when its executable
// was not found, and its failure aborts the run.
#[test]
fn mandatory_entry_runs_when_unavailable_and_fails_fatally() {
    let o = default_options();
    let cmds = catalog();
    assert!(!cmds[0].optional);
    assert!(matches!(entry_action(&cmds[0], &o, false), Action::Run { .. }));
    assert!(matches!(after_execution(&cmds[0], false), RunControl::Abort));
    assert!(matches!(after_execution(&cmds[0], true), RunControl::Continue));
}

#[test]
fn optional_entry_tolerates_failure_and_absence() {
    let o = default_options();
    let cmds = catalog();
    let uname = cmds.iter().find(|c| c.command == "uname").expect("uname entry");
    assert!(matches!(entry_action(uname, &o, false), Action::NotEligible));
    assert!(matches!(after_execution(uname, false), RunControl::Continue));
}

// Two runs over the same bundle and catalog produce byte-identical audit
// logs.
#[test]
fn audit_log_is_deterministic() {
    let o1 = default_options();
    let o2 = default_options();
    let cmds1 = catalog();
    let cmds2 = catalog();
    let avail = vec![true; cmds1.len()];
    let log1 = audit_log(&cmds1, &o1, &avail);
    let log2 = audit_log(&cmds2, &o2, &avail);
    assert_eq!(log1, log2);
    assert!(log1.contains("uname -a > os/uname.txt\n"));
}

#[test]
fn audit_log_orders_lines_by_catalog_order() {
    let o = default_options();
    let entries = vec![
        plain_cmd("uname", "-a", "os/uname.txt"),
        plain_cmd("uptime", "", "os/uptime.txt"),
    ];
    let log = audit_log(&entries, &o, &vec![true, true]);
    assert_eq!(log, "uname -a > os/uname.txt\nuptime  > os/uptime.txt\n");
}

#[test]
fn audit_log_excludes_ineligible_entries() {
    let o = default_options();
    let entries = vec![plain_cmd("uname", "-a", "os/uname.txt")];
    assert_eq!(audit_log(&entries, &o, &vec![false]), "");
}

#[test]
fn sudo_wrapping_escalates_first_then_bounds() {
    let mut ov = Overrides::empty();
    ov.timeout_opts = Some("-k 5 10".to_string());
    let o = Options::new("1".to_string(), "/a".to_string(), ov);
    let mut c = plain_cmd("mytool", "arg1 arg2", "out.txt");
    c.use_sudo = true;
    c.use_timeout = true;
    match entry_action(&c, &o, true) {
        Action::Run { invocation, .. } => {
            assert_eq!(invocation.program, "sudo");
            let expected: Vec<String> = ["timeout", "-k", "5", "10", "mytool", "arg1", "arg2"]
                .iter()
                .map(|s| s.to_string())
                .collect();
            assert_eq!(invocation.args, expected);
        }
        _ => panic!("should run"),
    }
}

#[test]
fn skip_sudo_override_suppresses_escalation() {
    let mut ov = Overrides::empty();
    ov.skip_sudo = Some("true".to_string());
    ov.timeout_opts = Some("30".to_string());
    let o = Options::new("1".to_string(), "/a".to_string(), ov);
    let mut c = plain_cmd("mytool", "arg1", "out.txt");
    c.use_sudo = true;
    c.use_timeout = true;
    match entry_action(&c, &o, true) {
        Action::Run { invocation, .. } => {
            assert_eq!(invocation.program, "timeout");
            let expected: Vec<String> =
                ["30", "mytool", "arg1"].iter().map(|s| s.to_string()).collect();
            assert_eq!(invocation.args, expected);
        }
        _ => panic!("should run"),
    }
}

#[test]
fn nodetool_entry_is_timeout_wrapped() {
    let mut ov = Overrides::empty();
    ov.timeout_opts = Some("-k 30 35".to_string());
    let o = Options::new("1234".to_string(), "/tmp/out".to_string(), ov);
    let cmds = catalog();
    let status = cmds
        .iter()
        .find(|c| c.command == "nodetool" && c.args.ends_with("status"))
        .expect("nodetool status entry");
    assert!(status.use_timeout);
    match entry_action(status, &o, true) {
        Action::Run { invocation, .. } => {
            assert_eq!(invocation.program, "timeout");
            let expected: Vec<String> = ["-k", "30", "35", "nodetool", "-p", "7199", "status"]
                .iter()
                .map(|s| s.to_string())
                .collect();
            assert_eq!(invocation.args, expected);
        }
        _ => panic!("should run"),
    }
}

#[test]
fn empty_timeout_options_wrap_with_bare_timeout() {
    let o = default_options();
    let mut c = plain_cmd("nodetool", "status", "nodetool/status.txt");
    c.use_timeout = true;
    match entry_action(&c, &o, true) {
        Action::Run { invocation, .. } => {
            assert_eq!(invocation.program, "timeout");
            let expected: Vec<String> =
                ["nodetool", "status"].iter().map(|s| s.to_string()).collect();
            assert_eq!(invocation.args, expected);
        }
        _ => panic!("should run"),
    }
}

#[test]
fn entry_without_output_file_runs_without_redirection() {
    let o = default_options();
    let c = plain_cmd("cp", "-r /etc/fstab {artifact_dir}/os/", "");
    match entry_action(&c, &o, true) {
        Action::Run { invocation, audit, output } => {
            assert!(output.is_none());
            assert_eq!(invocation.program, "cp");
            assert_eq!(audit, "cp -r /etc/fstab /tmp/out/os/ > \n");
        }
        _ => panic!("should run"),
    }
}

#[test]
fn probe_invocation_uses_shell_path_resolution() {
    let o = default_options();
    let c = plain_cmd("uname", "-a", "os/uname.txt");
    let inv = check_command(&c, &o);
    assert_eq!(inv.program, "sh");
    let expected: Vec<String> =
        ["-c", "command -v uname"].iter().map(|s| s.to_string()).collect();
    assert_eq!(inv.args, expected);
}

#[test]
fn probe_invocation_is_wrapped_like_its_entry() {
    let o = default_options();
    let mut c = plain_cmd("curl", "-s http://169.254.169.254/", "cloud/meta.txt");
    c.use_sudo = true;
    let inv = check_command(&c, &o);
    assert_eq!(inv.program, "sudo");
    let expected: Vec<String> =
        ["sh", "-c", "command -v curl"].iter().map(|s| s.to_string()).collect();
    assert_eq!(inv.args, expected);
}

// Entries sharing a resolved executable name are probed once: the plan holds
// each distinct resolved name exactly once, and every entry's name is there.
#[test]
fn probe_plan_deduplicates_resolved_names() {
    let o = default_options();
    let cmds = catalog();
    let plan = probe_plan(&cmds, &o);
    assert_eq!(plan.indices.len(), plan.names.len());
    for i in 0..plan.names.len() {
        for j in 0..i {
            assert_ne!(plan.names[i], plan.names[j], "a probe name repeats");
        }
    }
    for c in &cmds {
        let name = format_command(&c.command, &o);
        assert!(plan.names.iter().any(|n| *n == name), "missing probe for {}", name);
    }
    for k in 0..plan.indices.len() {
        let idx = plan.indices[k];
        assert_eq!(plan.names[k], format_command(&cmds[idx].command, &o));
        for e in 0..idx {
            assert_ne!(
                plan.names[k],
                format_command(&cmds[e].command, &o),
                "a planned index is not the first occurrence of its name"
            );
        }
    }
    let nodetool_probes = plan.names.iter().filter(|n| *n == "nodetool").count();
    assert_eq!(nodetool_probes, 1);
    assert!(plan.names.len() < cmds.len());
}

#[test]
fn availability_lookup_finds_probe_results() {
    let names = vec!["uname".to_string(), "sar".to_string()];
    let results = vec![true, false];
    assert!(lookup_availability(&names, &results, "uname"));
    assert!(!lookup_availability(&names, &results, "sar"));
    assert!(!lookup_availability(&names, &results, "lsblk"));
}
