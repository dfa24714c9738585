use installer_core::shim::build_wrapped;
use installer_core::shim::escape_secret;
use installer_core::shim::strip_shebang;
use installer_core::shim::PREAMBLE_HEAD;
use installer_core::shim::PREAMBLE_TAIL;

#[test]
fn escape_plain_secret_is_unchanged() {
    assert_eq!(escape_secret("hunter2"), "hunter2");
}

#[test]
fn escape_empty_secret_is_empty() {
    assert_eq!(escape_secret(""), "");
}

#[test]
fn escape_single_quote_uses_shell_idiom() {
    assert_eq!(escape_secret("it's"), "it'\\''s");
}

#[test]
fn escape_every_quote_separately() {
    assert_eq!(escape_secret("''"), "'\\'''\\''");
}

#[test]
fn strip_shebang_drops_directive_line() {
    assert_eq!(strip_shebang("#!/bin/bash\necho hi\n"), "echo hi\n");
}

#[test]
fn strip_shebang_keeps_body_without_directive() {
    assert_eq!(strip_shebang("echo hi\n"), "echo hi\n");
    assert_eq!(strip_shebang("# a comment, not a directive\nx\n"), "# a comment, not a directive\nx\n");
}

#[test]
fn strip_shebang_directive_without_newline_leaves_nothing() {
    assert_eq!(strip_shebang("#!/bin/sh"), "");
}

#[test]
fn strip_shebang_empty_body() {
    assert_eq!(strip_shebang(""), "");
}

#[test]
fn wrapped_is_preamble_secret_body_newline() {
    let w = build_wrapped("pw", "echo hi");
    let expected = format!("{}pw{}echo hi\n", PREAMBLE_HEAD, PREAMBLE_TAIL);
    assert_eq!(w, expected);
}

#[test]
fn wrapped_strips_directive_and_keeps_rest() {
    let w = build_wrapped("pw", "#!/usr/bin/env bash\nrest of script\n");
    assert!(w.contains("rest of script\n"));
    assert!(!w.contains("#!/usr/bin/env bash"));
}

#[test]
fn wrapped_keeps_plain_body_verbatim_after_preamble() {
    let body = "echo one\necho two\n";
    let w = build_wrapped("pw", body);
    let prefix = format!("{}pw{}", PREAMBLE_HEAD, PREAMBLE_TAIL);
    assert!(w.starts_with(&prefix));
    assert_eq!(&w[prefix.len()..], format!("{}\n", body));
}

#[test]
fn wrapped_is_identical_across_builds() {
    let a = build_wrapped("it's", "#!/bin/sh\necho hi\n");
    let b = build_wrapped("it's", "#!/bin/sh\necho hi\n");
    assert_eq!(a, b);
}

#[test]
fn wrapped_embeds_quoted_secret_inertly() {
    let w = build_wrapped("it's", "echo hi");
    assert!(w.contains("printf '%s\\n' 'it'\\''s' > \"$_SD/pw\""));
}

#[test]
fn cleanup_trap_survives_any_secret_and_body() {
    // the tail, trap included, stands unchanged right after the embedded
    // secret, whatever the secret and the body hold
    for (secret, body) in [
        ("it's", "#!/bin/sh\nrm -rf /\n"),
        ("'; trap '' EXIT; :'", "echo hi"),
        ("", ""),
    ] {
        let w = build_wrapped(secret, body);
        let k = PREAMBLE_HEAD.len() + escape_secret(secret).len();
        assert_eq!(&w[k..k + PREAMBLE_TAIL.len()], PREAMBLE_TAIL);
        assert!(w.contains("trap \"kill $! 2>/dev/null; rm -rf '$_SD'\" EXIT"));
    }
}

#[test]
fn preamble_validates_eagerly_and_cleans_up_on_exit() {
    let w = build_wrapped("pw", "echo hi");
    // fail-fast validation through the askpass channel
    assert!(w.contains("/usr/bin/sudo -A -v"));
    // exit trap kills the keep-alive loop and removes all secret material
    assert!(w.contains("trap \"kill $! 2>/dev/null; rm -rf '$_SD'\" EXIT"));
    // the keep-alive loop stops as soon as the parent is gone
    assert!(w.contains("while true; do sleep 50; kill -0 \"$$\" 2>/dev/null || exit; /usr/bin/sudo -A -v 2>/dev/null; done &"));
    // shim files live in a private mode-700 directory, secret in a mode-600 file
    assert!(w.contains("chmod 700 \"$_SD\""));
    assert!(w.contains("chmod 600 \"$_SD/pw\""));
    // the shim intercepts the tool by name on PATH
    assert!(w.contains("export PATH=\"$_SD:$PATH\""));
    assert!(w.contains("export SUDO_ASKPASS=\"$_SD/askpass\""));
}
