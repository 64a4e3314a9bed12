use spatial_browser::clean_urls::{clean, set_enabled, CleanUrlsSwitch};
use spatial_browser::url_match::{glob_match, matches_pattern};
use spatial_browser::userscripts::{
    matching_code, parse_script, record_enabled, reload, toggle_enabled, RunAt, UserScript,
    GM_PRELUDE,
};
use spatial_browser::userstyles::{matching_inject_js, parse_meta_line, parse_style, UserStyle};

fn chars(s: &str) -> Vec<char> {
    s.chars().collect()
}

fn glob(p: &str, t: &str) -> bool {
    glob_match(&chars(p), &chars(t))
}

fn pat(p: &str, u: &str, ephemeral: bool) -> bool {
    matches_pattern(&chars(p), &chars(u), ephemeral)
}

#[test]
fn glob_star_matches_anything() {
    assert!(glob("*", ""));
    assert!(glob("*", "https://a.com/x"));
    assert!(glob("https://*.example.com/*", "https://www.example.com/page"));
    assert!(!glob("https://*.example.com/*", "https://example.com/page"));
    assert!(glob("exact", "exact"));
    assert!(!glob("exact", "exact2"));
    assert!(glob("a*b*c", "aXXbYYc"));
    assert!(!glob("a*b*c", "aXXcYYb"));
    // The last part must not overlap the first.
    assert!(!glob("ab*ba", "aba"));
    assert!(glob("ab*ba", "abba"));
}

#[test]
fn apex_domain_fallback_and_spatial_tokens() {
    assert!(pat("*://*.example.com/*", "https://example.com/x", false));
    assert!(pat("*://*.example.com/*", "https://a.example.com/x", false));
    assert!(!pat("*://*.example.com/*", "https://example.org/x", false));
    assert!(pat("spatial-ui", "data:text/html,anything", true));
    assert!(!pat("spatial-ui", "data:text/html,anything", false));
    assert!(pat("spatial://*", "x", true));
}

#[test]
fn clean_strips_tracking_parameters() {
    let mut sw = CleanUrlsSwitch::new();
    assert_eq!(
        clean(&sw, "https://a.com/p?utm_source=x&id=3&fbclid=y#top"),
        Some("https://a.com/p?id=3#top".to_string())
    );
    assert_eq!(clean(&sw, "https://a.com/p?id=3"), None);
    assert_eq!(clean(&sw, "https://a.com/p?gclid=1"), Some("https://a.com/p".to_string()));
    set_enabled(&mut sw, false);
    assert_eq!(clean(&sw, "https://a.com/p?utm_source=x"), None);
}

const SCRIPT: &str = "// ==UserScript==\n// @name   My script\n// @match  *://*.example.com/*\n// @exclude *://*.example.com/admin/*\n// @run-at document-idle\n// ==/UserScript==\nconsole.log(1);\n";

fn script() -> UserScript {
    parse_script("my.js", SCRIPT, &[]).expect("has @match")
}

#[test]
fn userscript_metadata_is_read() {
    let s = script();
    assert_eq!(s.file_name, "my.js");
    assert_eq!(s.name, "My script");
    assert_eq!(s.matches, vec!["*://*.example.com/*".to_string()]);
    assert_eq!(s.excludes, vec!["*://*.example.com/admin/*".to_string()]);
    assert!(s.run_at == RunAt::DocumentIdle);
    assert!(s.enabled);
    let off = parse_script("my.js", SCRIPT, &["my.js".to_string()]).expect("has @match");
    assert!(!off.enabled);
    assert!(parse_script("x.js", "// @name only\nalert(1)", &[]).is_none());
    let unnamed = parse_script("plain.js.js", "// @match *\n", &[]).expect("match");
    assert_eq!(unnamed.name, "plain");
    assert!(unnamed.run_at == RunAt::DocumentEnd);
}

#[test]
fn run_at_parsing() {
    assert!(RunAt::parse(" document-start ") == RunAt::DocumentStart);
    assert!(RunAt::parse("document-idle") == RunAt::DocumentIdle);
    assert!(RunAt::parse("whenever") == RunAt::DocumentEnd);
}

#[test]
fn matching_code_wraps_with_prelude() {
    let scripts = vec![script()];
    let got = matching_code("https://www.example.com/a", false, &scripts, RunAt::DocumentIdle);
    assert_eq!(got.len(), 1);
    assert!(got[0].starts_with(GM_PRELUDE));
    assert!(got[0].contains("console.log(1);"));
    assert!(got[0].ends_with("else window.addEventListener('load', run);\n})();"));
    assert!(matching_code("https://www.example.com/admin/x", false, &scripts, RunAt::DocumentIdle).is_empty());
    assert!(matching_code("https://www.example.com/a", false, &scripts, RunAt::DocumentEnd).is_empty());
    let end = parse_script("e.js", "// @match *\nrun();", &[]).expect("match");
    let got = matching_code("anything", false, &[end], RunAt::DocumentEnd);
    assert_eq!(got[0], format!("{GM_PRELUDE}\n// @match *\nrun();"));
}

#[test]
fn toggling_and_state() {
    let mut scripts = vec![script()];
    assert!(toggle_enabled(&mut scripts, "my.js"));
    assert!(!scripts[0].enabled);
    assert!(!toggle_enabled(&mut scripts, "other.js"));
    let mut disabled = vec!["a.js".to_string()];
    record_enabled(&mut disabled, "my.js", false);
    record_enabled(&mut disabled, "my.js", false);
    assert_eq!(disabled, vec!["a.js".to_string(), "my.js".to_string()]);
    record_enabled(&mut disabled, "a.js", true);
    assert_eq!(disabled, vec!["my.js".to_string()]);
}

#[test]
fn reload_orders_by_lowercased_name_stably() {
    let mk = |f: &str, n: &str| parse_script(f, &format!("// @name {n}\n// @match *\n"), &[]).unwrap();
    let mut scripts = Vec::new();
    reload(&mut scripts, vec![mk("1.js", "beta"), mk("2.js", "Alpha"), mk("3.js", "BETA"), mk("4.js", "alpha")]);
    let files: Vec<&str> = scripts.iter().map(|s| s.file_name.as_str()).collect();
    assert_eq!(files, vec!["2.js", "4.js", "1.js", "3.js"]);
}

#[test]
fn userstyle_metadata_and_injection() {
    let css = "/* @name Dim */\n/* @match spatial-ui */\n/* @match *://*.site.com/* */\n/* @match: ignored.com */\nbody { color: \"red\" }\n";
    let style: UserStyle = parse_style("dim.css", css, &[]).expect("match");
    assert_eq!(style.name, "Dim");
    assert_eq!(style.matches, vec!["spatial-ui".to_string(), "*://*.site.com/*".to_string()]);
    let js = matching_inject_js("data:text/html,x", true, &[style]);
    assert_eq!(js.len(), 1);
    assert!(js[0].starts_with("(function(){var id=\"dim.css\";"));
    // The CSS is escaped as a JSON string literal.
    assert!(js[0].contains("s.textContent=\"/* @name Dim */\\n/* @match spatial-ui */\\n"));
    assert!(js[0].contains("body { color: \\\"red\\\" }\\n\";"));
    assert!(js[0].ends_with("appendChild(s);})();"));
    assert!(parse_style("none.css", "body{}", &[]).is_none());
}

#[test]
fn userstyle_meta_lines() {
    let (t, v) = parse_meta_line(&chars("  /* @exclude  :  x.com */ ")).expect("tag");
    assert_eq!(t.iter().collect::<String>(), "exclude");
    assert_eq!(v.iter().collect::<String>(), "x.com");
    assert!(parse_meta_line(&chars("/* @name */")).is_none());
    assert!(parse_meta_line(&chars("// @name x")).is_none());
}
