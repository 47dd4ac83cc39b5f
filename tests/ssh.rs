use cluster_tools::config::{ClusterConfig, LoginConfig};
use cluster_tools::dashboard::{history_rows_query, running_rows_query};
use cluster_tools::ssh::{
    build_path, build_ssh_command, condor_history_command, condor_history_for_user, condor_q_command,
    condor_q_for_user, job_shell_script, remote_args, shell_escape_single_quotes, ssh_base_args,
    ssh_to_job_command,
};

fn manual(identity: Option<&str>) -> LoginConfig {
    LoginConfig {
        hostname: "login.example.org".to_string(),
        username: "ana".to_string(),
        identity_file: identity.map(|s| s.to_string()),
        ssh_config_name: None,
    }
}

fn alias() -> LoginConfig {
    LoginConfig {
        hostname: String::new(),
        username: String::new(),
        identity_file: Some("/ignored".to_string()),
        ssh_config_name: Some("cluster".to_string()),
    }
}

fn strs(v: &[&str]) -> Vec<String> {
    v.iter().map(|s| s.to_string()).collect()
}

#[test]
fn base_args_for_each_login_form() {
    assert_eq!(ssh_base_args(&alias()), strs(&["ssh", "-T", "-o", "LogLevel=ERROR", "cluster"]));
    assert_eq!(
        ssh_base_args(&manual(None)),
        strs(&["ssh", "-T", "-o", "LogLevel=ERROR", "ana@login.example.org"])
    );
    assert_eq!(
        ssh_base_args(&manual(Some("~/.ssh/id"))),
        strs(&["ssh", "-T", "-o", "LogLevel=ERROR", "-i", "~/.ssh/id", "ana@login.example.org"])
    );
}

#[test]
fn remote_args_append_command() {
    assert_eq!(
        remote_args(&alias(), "uptime"),
        strs(&["ssh", "-T", "-o", "LogLevel=ERROR", "cluster", "uptime"])
    );
}

#[test]
fn condor_commands() {
    assert_eq!(condor_q_command("ana", "ClusterId,ProcId"), "condor_q ana -json -attributes ClusterId,ProcId");
    assert_eq!(
        condor_history_command("ana", "Cmd", 25),
        "condor_history ana -json -attributes Cmd -limit 25"
    );
    assert_eq!(
        condor_q_for_user(&alias(), "ana", "Cmd"),
        strs(&["ssh", "-T", "-o", "LogLevel=ERROR", "cluster", "condor_q ana -json -attributes Cmd"])
    );
    assert_eq!(
        condor_history_for_user(&alias(), "ana", "Cmd", 0),
        strs(&["ssh", "-T", "-o", "LogLevel=ERROR", "cluster", "condor_history ana -json -attributes Cmd -limit 0"])
    );
}

#[test]
fn dashboard_queries() {
    assert_eq!(
        running_rows_query(&alias(), "bo"),
        strs(&[
            "ssh", "-T", "-o", "LogLevel=ERROR", "cluster",
            "condor_q bo -json -attributes ClusterId,ProcId,Cmd,Args,JobStatus,RequestGPUs,JobStartDate",
        ])
    );
    assert_eq!(
        history_rows_query(&alias(), "bo"),
        strs(&[
            "ssh", "-T", "-o", "LogLevel=ERROR", "cluster",
            "condor_history bo -json -attributes ClusterId,ProcId,Cmd,Args,JobStatus,RequestGPUs -limit 10",
        ])
    );
}

#[test]
fn price_query_command() {
    let c = ClusterConfig { login: Some(manual(Some("key"))) };
    assert_eq!(
        build_ssh_command(&c),
        strs(&["ssh", "-i", "key", "ana@login.example.org", "condor_q", "-json", "-attributes", "JobPrio,JobStatus,RequestGPUs"])
    );
    let c = ClusterConfig { login: Some(alias()) };
    assert_eq!(
        build_ssh_command(&c),
        strs(&["ssh", "cluster", "condor_q", "-json", "-attributes", "JobPrio,JobStatus,RequestGPUs"])
    );
}

#[test]
fn single_quotes_are_escaped() {
    assert_eq!(shell_escape_single_quotes("it's"), "it'\\''s");
    assert_eq!(shell_escape_single_quotes("''"), "'\\'''\\''");
    assert_eq!(shell_escape_single_quotes("plain"), "plain");
    assert_eq!(shell_escape_single_quotes(""), "");
}

#[test]
fn paths_resolve_against_working_directory() {
    assert_eq!(build_path("/home/ana/run", "out.txt"), "/home/ana/run/out.txt");
    assert_eq!(build_path("/home/ana/run", "/tmp/log"), "/tmp/log");
    assert_eq!(build_path(".", "err"), "./err");
    assert_eq!(build_path("/w", ""), "/w/");
}

#[test]
fn shell_to_job_commands() {
    assert_eq!(ssh_to_job_command(&alias(), "12.0"), "ssh cluster \"condor_ssh_to_job 12.0\"");
    assert_eq!(
        ssh_to_job_command(&manual(Some("my key's")), "3.1"),
        "ssh -i 'my key'\\''s' ana@login.example.org \"condor_ssh_to_job 3.1\""
    );
    assert_eq!(ssh_to_job_command(&manual(Some("")), "3.1"), "ssh ana@login.example.org \"condor_ssh_to_job 3.1\"");
    assert_eq!(
        job_shell_script(&alias(), "12.0"),
        "tell application \"Terminal\" to do script \"ssh cluster \\\"condor_ssh_to_job 12.0\\\"\""
    );
    assert_eq!(
        job_shell_script(&manual(Some("a\\b")), "1.2"),
        "tell application \"Terminal\" to do script \"ssh -i 'a\\\\b' ana@login.example.org \\\"condor_ssh_to_job 1.2\\\"\""
    );
}
