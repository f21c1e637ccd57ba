use loghub::server::{
    classify, page_window, reclassify_message, reclassify_notice, reclassify_target,
    resolve_category, should_forward, LogEvent, LogRule, RuleRequest, WsFilter,
};

fn s(x: &str) -> String {
    x.to_string()
}

fn rule(id: u128, st: Option<&str>, pat: Option<&str>, cat: &str, prio: i32, enabled: bool) -> LogRule {
    LogRule {
        id,
        source_type: st.map(s),
        source_pattern: pat.map(s),
        category: s(cat),
        priority: prio,
        enabled,
    }
}

fn readme_rules() -> Vec<LogRule> {
    vec![
        rule(1, Some("docker"), Some("postgres*"), "database", 0, true),
        rule(2, Some("docker"), Some("redis*"), "database", 0, true),
        rule(3, Some("docker"), Some("nginx*"), "web", 0, true),
        rule(4, Some("systemd"), Some("ssh.service"), "security", 0, true),
        rule(5, Some("systemd"), Some("caddy.service"), "web", 0, true),
    ]
}

#[test]
fn readme_classification_examples() {
    let rules = readme_rules();
    assert_eq!(classify(&rules, "docker", "postgres-16"), Some(s("database")));
    assert_eq!(classify(&rules, "docker", "Redis"), Some(s("database")));
    assert_eq!(classify(&rules, "docker", "nginx-proxy"), Some(s("web")));
    assert_eq!(classify(&rules, "systemd", "ssh.service"), Some(s("security")));
    assert_eq!(classify(&rules, "systemd", "caddy.service"), Some(s("web")));
    assert_eq!(classify(&rules, "systemd", "nginx"), None);
    assert_eq!(classify(&rules, "docker", "ssh.service"), None);
}

#[test]
fn highest_priority_then_smallest_id_wins() {
    let rules = vec![
        rule(9, None, Some("*"), "low", 0, true),
        rule(7, None, Some("app*"), "mid-b", 5, true),
        rule(3, None, Some("app*"), "mid-a", 5, true),
        rule(1, None, Some("app*"), "disabled", 99, false),
    ];
    assert_eq!(classify(&rules, "docker", "app-1"), Some(s("mid-a")));
    assert_eq!(classify(&rules, "docker", "other"), Some(s("low")));
    assert!(classify(&Vec::new(), "docker", "x").is_none());
}

#[test]
fn category_fallbacks() {
    assert_eq!(resolve_category(Some(s("agent")), Some(s("rule"))), "rule");
    assert_eq!(resolve_category(Some(s("agent")), None), "agent");
    assert_eq!(resolve_category(None, None), "system");
}

#[test]
fn new_rule_defaults() {
    let r = RuleRequest {
        source_type: Some(s("docker")),
        source_pattern: None,
        category: s("web"),
        priority: None,
        enabled: None,
    }
    .into_rule(42);
    assert_eq!(r.id, 42);
    assert_eq!(r.priority, 0);
    assert!(r.enabled);
    let r2 = RuleRequest {
        source_type: None,
        source_pattern: None,
        category: s("x"),
        priority: Some(-3),
        enabled: Some(false),
    }
    .into_rule(1);
    assert_eq!(r2.priority, -3);
    assert!(!r2.enabled);
}

fn event(id: u128) -> LogEvent {
    LogEvent {
        id,
        host: s("server-01"),
        source_type: s("docker"),
        source_name: s("nginx"),
        category: s("web"),
        level: None,
        message: s("GET /Health 200"),
    }
}

#[test]
fn filters() {
    let e = event(5);
    let mut f = WsFilter::default();
    assert!(f.matches(&e));
    f.keyword = Some(s("health"));
    assert!(f.matches(&e));
    f.keyword = Some(s("HEALTH 2"));
    assert!(f.matches(&e));
    f.keyword = Some(s("missing"));
    assert!(!f.matches(&e));
    let mut g = WsFilter::default();
    g.level = Some(s(""));
    assert!(g.matches(&e));
    g.level = Some(s("info"));
    assert!(!g.matches(&e));
    let mut h = WsFilter::default();
    h.host = Some(s("server-02"));
    assert!(!h.matches(&e));
}

#[test]
fn notices_are_not_forwarded() {
    let notice = reclassify_notice(3);
    assert_eq!(notice.id, 0);
    assert_eq!(notice.host, "__system__");
    assert_eq!(notice.level, Some(s("info")));
    assert!(!should_forward(&notice, None));
    assert!(!should_forward(&notice, Some(&WsFilter::default())));
    assert!(should_forward(&event(1), None));
    assert!(should_forward(&event(1), Some(&WsFilter::default())));
}

#[test]
fn paging() {
    assert_eq!(page_window(None, None), (200, 0));
    assert_eq!(page_window(Some(0), Some(-5)), (1, 0));
    assert_eq!(page_window(Some(5000), Some(30)), (1000, 30));
    assert_eq!(page_window(Some(50), None), (50, 0));
}

#[test]
fn reclassification() {
    assert_eq!(reclassify_target("web", Some(s("database"))), Some(s("database")));
    assert_eq!(reclassify_target("web", Some(s("web"))), None);
    assert_eq!(reclassify_target("web", None), None);
    assert_eq!(reclassify_message(12), "历史日志重新分类完成，共更新 12 条");
}
