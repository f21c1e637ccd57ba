use loghub::collect::{container_name, parse_docker_line, should_send, LogBatch, BATCH_SIZE};
use loghub::config::{
    build_config, needs_host_fallback, needs_unit_discovery, parse_unit_listing, parse_units, Config,
    EnvSettings,
};
use loghub::identity::{id_path, parse_stored_id, resolve_agent_id};
use loghub::metrics::{now, AgentMetrics};
use loghub::protocol::{heartbeat_url, logs_url, UploadAck};
use loghub::sender::{after_upload, plan_upload, status_is_success, AfterUpload, SenderStep, UploadOutcome};
use loghub::text::{decimal_string, to_ascii_lowercase, trimmed};
use loghub::worker_pool::WorkerPoolConfig;

fn s(x: &str) -> String {
    x.to_string()
}

#[test]
fn units_are_split_on_commas_and_trimmed() {
    assert_eq!(
        parse_units("docker.service, caddy.service ,postgresql.service"),
        vec![s("docker.service"), s("caddy.service"), s("postgresql.service")]
    );
    assert_eq!(parse_units(""), vec![s("")]);
    assert_eq!(parse_units("a,,b"), vec![s("a"), s(""), s("b")]);
    assert_eq!(parse_units(" \t x \n"), vec![s("x")]);
}

#[test]
fn file_settings_win_over_environment() {
    let file = Config {
        server_url: Some(s("http://file:1")),
        host: None,
        token: None,
        systemd_units: Some(vec![s("a.service")]),
    };
    let env = EnvSettings {
        server_url: Some(s("http://env:2")),
        hostname: Some(s("env-host")),
        token: Some(s("secret")),
        systemd_units: Some(s("b.service,c.service")),
    };
    let c = build_config(&file, &env, "machine", &vec![s("x.service")]);
    assert_eq!(c.server_url, "http://file:1");
    assert_eq!(c.host, "env-host");
    assert_eq!(c.token, Some(s("secret")));
    assert_eq!(c.systemd_units, vec![s("a.service")]);
}

#[test]
fn defaults_fill_the_rest() {
    let env = EnvSettings { server_url: None, hostname: None, token: None, systemd_units: None };
    let c = build_config(&Config::default(), &env, "machine", &Vec::new());
    assert_eq!(c.server_url, "http://127.0.0.1:8080");
    assert_eq!(c.host, "machine");
    assert_eq!(c.token, None);
    assert!(c.systemd_units.is_empty());
    let installed = vec![s("docker.service"), s("ssh.service")];
    let c1 = build_config(&Config::default(), &env, "machine", &installed);
    assert_eq!(c1.systemd_units, installed);
    assert!(needs_unit_discovery(&Config::default(), &env));
    assert!(needs_host_fallback(&Config::default(), &env));
    let env2 = EnvSettings { systemd_units: Some(s("x, y")), ..env };
    assert!(!needs_unit_discovery(&Config::default(), &env2));
    let c2 = build_config(&Config::default(), &env2, "machine", &installed);
    assert_eq!(c2.systemd_units, vec![s("x"), s("y")]);
}

#[test]
fn stored_id_is_trimmed() {
    assert_eq!(parse_stored_id("  abc-123\n"), Some(s("abc-123")));
    assert_eq!(parse_stored_id(" \n\t"), None);
    let id = resolve_agent_id(Some("agent-7\n"));
    assert_eq!(id.id, "agent-7");
    assert!(!id.fresh);
}

#[test]
fn fresh_id_is_a_uuid_that_reads_back() {
    let id = resolve_agent_id(None);
    assert!(id.fresh);
    assert_eq!(id.id.len(), 36);
    let b = id.id.as_bytes();
    assert_eq!(b[8], b'-');
    assert_eq!(b[14], b'4');
    let again = resolve_agent_id(Some(id.id.as_str()));
    assert_eq!(again.id, id.id);
    assert!(!again.fresh);
    let empty = resolve_agent_id(Some("   "));
    assert!(empty.fresh);
    assert_ne!(empty.id, id.id);
}

#[test]
fn id_path_default() {
    assert_eq!(id_path(None), "/var/lib/loghub-agent/agent-id");
    assert_eq!(id_path(Some("/tmp/id")), "/tmp/id");
}

#[test]
fn prometheus_exposition() {
    let mut m = AgentMetrics::new();
    assert!(m.started_at.is_some());
    m.queue_size = 3;
    m.sent_total = 1200;
    m.retry_total = 0;
    m.failed_total = 18446744073709551615;
    let expected = "# HELP loghub_agent_queue_size Current queue size\n# TYPE loghub_agent_queue_size gauge\nloghub_agent_queue_size 3\n# HELP loghub_agent_sent_total Sent logs\n# TYPE loghub_agent_sent_total counter\nloghub_agent_sent_total 1200\n# HELP loghub_agent_retry_total Retry count\n# TYPE loghub_agent_retry_total counter\nloghub_agent_retry_total 0\n# HELP loghub_agent_failed_total Failed logs\n# TYPE loghub_agent_failed_total counter\nloghub_agent_failed_total 18446744073709551615\n";
    assert_eq!(m.prometheus(), expected);
    let d = AgentMetrics::default();
    assert!(d.started_at.is_none());
}

#[test]
fn clock_reads_after_epoch() {
    let t = now();
    assert!(t.secs > 1_600_000_000);
    assert!(t.nanos < 1_000_000_000);
    let (t2, line) = parse_docker_line("  hello world \r\n");
    assert_eq!(line, "hello world");
    assert!(t2.secs >= t.secs);
}

#[test]
fn ack_lookups() {
    let ack = UploadAck { accepted: vec![1, 2, 3], failed: vec![7] };
    assert!(ack.is_success(2));
    assert!(!ack.is_success(7));
    assert!(ack.should_retry(7));
    assert!(!ack.should_retry(1));
}

#[test]
fn endpoints() {
    assert_eq!(logs_url("http://127.0.0.1:8080"), "http://127.0.0.1:8080/api/agent/logs");
    assert_eq!(heartbeat_url("http://h"), "http://h/api/agent/heartbeat");
}

#[test]
fn batches_go_out_at_two_hundred() {
    let mut b: LogBatch<u32> = LogBatch::new();
    let mut sent: Vec<Vec<u32>> = Vec::new();
    for i in 0..450u32 {
        if let Some(full) = b.push(i) {
            sent.push(full);
        }
    }
    assert_eq!(BATCH_SIZE, 200);
    assert_eq!(sent.len(), 2);
    assert_eq!(sent[0].len(), 200);
    assert_eq!(sent[1][0], 200);
    assert_eq!(b.len(), 50);
    let rest = b.take();
    assert_eq!(rest[0], 400);
    assert_eq!(b.len(), 0);
    assert!(!should_send::<u32>(&[]));
    assert!(should_send(&rest));
}

#[test]
fn container_names() {
    let names = vec![s("/nginx"), s("/other")];
    assert_eq!(container_name(Some(&names), "abc"), "nginx");
    let id = "0123456789abcdef0123";
    assert_eq!(container_name(None, id), "0123456789ab");
    assert_eq!(container_name(Some(&Vec::new()), "//short"), "short");
}

#[test]
fn sender_decisions() {
    assert_eq!(plan_upload(Vec::new()), SenderStep::Idle { sleep_secs: 5 });
    assert_eq!(plan_upload(vec![4, 5]), SenderStep::Upload { ids: vec![4, 5] });
    assert_eq!(after_upload(UploadOutcome::Status(200), vec![1]), AfterUpload::Remove { ids: vec![1] });
    assert_eq!(after_upload(UploadOutcome::Status(204), vec![1]), AfterUpload::Remove { ids: vec![1] });
    assert_eq!(
        after_upload(UploadOutcome::Status(500), vec![1, 2]),
        AfterUpload::Retry { ids: vec![1, 2], sleep_secs: 5 }
    );
    assert_eq!(
        after_upload(UploadOutcome::Status(302), vec![1]),
        AfterUpload::Retry { ids: vec![1], sleep_secs: 5 }
    );
    assert_eq!(after_upload(UploadOutcome::Failed, vec![3]), AfterUpload::Retry { ids: vec![3], sleep_secs: 5 });
    assert!(status_is_success(299));
    assert!(!status_is_success(199));
}

#[test]
fn text_helpers() {
    assert_eq!(trimmed("\u{3000} x y \u{85}"), "x y");
    assert_eq!(to_ascii_lowercase("ABC-Éz"), "abc-Éz");
    assert_eq!(decimal_string(0), "0");
    assert_eq!(decimal_string(907), "907");
}

#[test]
fn worker_pool_defaults() {
    let c = WorkerPoolConfig::default();
    assert_eq!(c.workers, 4);
    assert_eq!(c.max_inflight, 16);
}

#[test]
fn installed_units_from_listing() {
    let listing = "docker.service                 enabled         enabled\n  ssh.service enabled enabled\ngetty@.service enabled enabled\nsystemd-journald.socket static -\n\ncaddy.service\tdisabled\n";
    assert_eq!(
        parse_unit_listing(listing),
        vec![s("docker.service"), s("ssh.service"), s("caddy.service")]
    );
    assert!(parse_unit_listing("").is_empty());
}
