use loghub::wildcard::wildcard_match;

#[test]
fn readme_rule_examples_match_their_sources() {
    assert!(wildcard_match("postgres*", "postgres"));
    assert!(wildcard_match("postgres*", "postgres-main"));
    assert!(wildcard_match("redis*", "redis-cache"));
    assert!(wildcard_match("nginx*", "nginx"));
    assert!(!wildcard_match("postgres*", "my-postgres"));
}

#[test]
fn star_matches_everything() {
    assert!(wildcard_match("*", ""));
    assert!(wildcard_match("*", "anything at all"));
    assert!(wildcard_match("**", "x"));
}

#[test]
fn plain_pattern_is_case_insensitive_equality() {
    assert!(wildcard_match("ssh.service", "ssh.service"));
    assert!(wildcard_match("SSH.Service", "ssh.SERVICE"));
    assert!(!wildcard_match("ssh.service", "sshd.service"));
    assert!(wildcard_match("", ""));
    assert!(!wildcard_match("", "a"));
}

#[test]
fn suffix_and_infix_patterns() {
    assert!(wildcard_match("*.service", "caddy.service"));
    assert!(!wildcard_match("*.service", "caddy.socket"));
    assert!(wildcard_match("*cache*", "redis-cache-1"));
    assert!(wildcard_match("a*b*c", "aXbYc"));
    assert!(wildcard_match("a*b*c", "abc"));
    assert!(!wildcard_match("a*b*c", "acb"));
}

#[test]
fn pieces_do_not_overlap() {
    assert!(!wildcard_match("ab*b", "ab"));
    assert!(wildcard_match("ab*b", "abb"));
    assert!(!wildcard_match("a*a", "a"));
    assert!(wildcard_match("a*a", "aa"));
    // the middle piece is taken at its first place, the last must still fit after it
    assert!(wildcard_match("*ab*b", "abab"));
    assert!(wildcard_match("x*yy*y", "xyyy"));
    assert!(!wildcard_match("x*yy*yy", "xyyy"));
    assert!(wildcard_match("x*yy*yy", "xyyyy"));
}

#[test]
fn non_ascii_letters_keep_their_case() {
    assert!(wildcard_match("É*", "É-x"));
    assert!(!wildcard_match("é*", "É-x"));
}
