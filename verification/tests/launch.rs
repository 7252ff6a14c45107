use sysmon::launch::{injection_offenders, is_blocked_key, should_refuse_launch};

fn pair(k: &str, v: &str) -> (String, String) {
    (k.to_owned(), v.to_owned())
}

#[test]
fn blocked_keys_are_recognised() {
    assert!(is_blocked_key(&"DYLD_INSERT_LIBRARIES".to_owned()));
    assert!(is_blocked_key(&"DYLD_LIBRARY_PATH".to_owned()));
    assert!(is_blocked_key(&"DYLD_FRAMEWORK_PATH".to_owned()));
    assert!(is_blocked_key(&"DYLD_FORCE_FLAT_NAMESPACE".to_owned()));
    assert!(is_blocked_key(&"LD_PRELOAD".to_owned()));
    assert!(!is_blocked_key(&"PATH".to_owned()));
    assert!(!is_blocked_key(&"DYLD_FALLBACK_LIBRARY_PATH".to_owned()));
}

#[test]
fn offenders_are_blocked_keys_with_non_empty_values() {
    let vars = vec![
        pair("PATH", "/usr/bin"),
        pair("DYLD_INSERT_LIBRARIES", "/tmp/evil.dylib"),
        pair("LD_PRELOAD", ""),
        pair("HOME", "/root"),
    ];
    let off = injection_offenders(vars);
    assert_eq!(off, vec![pair("DYLD_INSERT_LIBRARIES", "/tmp/evil.dylib")]);
}

#[test]
fn offenders_keep_their_order() {
    let vars = vec![
        pair("LD_PRELOAD", "a.so"),
        pair("TERM", "xterm"),
        pair("DYLD_LIBRARY_PATH", "/tmp"),
    ];
    let off = injection_offenders(vars);
    assert_eq!(
        off,
        vec![pair("LD_PRELOAD", "a.so"), pair("DYLD_LIBRARY_PATH", "/tmp")]
    );
}

#[test]
fn refusal_requires_an_offender_and_no_override() {
    let off = injection_offenders(vec![pair("LD_PRELOAD", "a.so")]);
    assert!(should_refuse_launch(&off, false));
    assert!(!should_refuse_launch(&off, true));
    let none = injection_offenders(vec![pair("SHELL", "/bin/sh")]);
    assert!(!should_refuse_launch(&none, false));
    assert!(!should_refuse_launch(&none, true));
}
