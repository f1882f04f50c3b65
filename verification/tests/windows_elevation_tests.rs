use vnt_app::windows_elevation::{
    elevation_error_message, ensure_elevated_for_tun, ensure_windows_elevated, join_windows_args, quote_windows_arg,
    relaunch_finished, relaunch_parameters, shell_execute_outcome, tun_relaunch_finished,
    wide_from_str, ElevationError, ElevationState, ElevationStep, TunElevationStep,
};

/// Splits a command line as the Microsoft C runtime does, for checking the
/// written command lines.
fn split_windows_args(line: &str) -> Vec<String> {
    let mut args = Vec::new();
    let mut cur = String::new();
    let mut in_arg = false;
    let mut in_quotes = false;
    let mut pending = 0usize;
    let chars: Vec<char> = line.chars().collect();
    let mut i = 0;
    while i < chars.len() {
        let c = chars[i];
        if c == '\\' {
            pending += 1;
            in_arg = true;
        } else if c == '"' {
            cur.push_str(&"\\".repeat(pending / 2));
            if pending % 2 == 1 {
                cur.push('"');
            } else if in_quotes && i + 1 < chars.len() && chars[i + 1] == '"' {
                cur.push('"');
                i += 1;
            } else {
                in_quotes = !in_quotes;
            }
            pending = 0;
            in_arg = true;
        } else if (c == ' ' || c == '\t') && !in_quotes {
            if in_arg {
                cur.push_str(&"\\".repeat(pending));
                args.push(std::mem::take(&mut cur));
            }
            pending = 0;
            in_arg = false;
        } else {
            cur.push_str(&"\\".repeat(pending));
            pending = 0;
            cur.push(c);
            in_arg = true;
        }
        i += 1;
    }
    if in_arg {
        cur.push_str(&"\\".repeat(pending));
        args.push(cur);
    }
    args
}

#[test]
fn quote_empty_argument() {
    assert_eq!(quote_windows_arg(""), "\"\"");
}

#[test]
fn quote_plain_argument_unchanged() {
    assert_eq!(quote_windows_arg("--config"), "--config");
    assert_eq!(quote_windows_arg(r"C:\path\file.toml"), r"C:\path\file.toml");
}

#[test]
fn quote_argument_with_space() {
    assert_eq!(quote_windows_arg("a b"), "\"a b\"");
    assert_eq!(quote_windows_arg("a\tb"), "\"a\tb\"");
}

#[test]
fn quote_argument_with_quote_and_backslashes() {
    assert_eq!(quote_windows_arg("say \"hi\""), r#""say \"hi\"""#);
    assert_eq!(quote_windows_arg(r#"a\"b"#), r#""a\\\"b""#);
    assert_eq!(quote_windows_arg(r"C:\Program Files\"), r#""C:\Program Files\\""#);
    assert_eq!(quote_windows_arg(r"a\b c"), r#""a\b c""#);
}

#[test]
fn join_arguments_with_spaces() {
    let args = vec!["--config".to_string(), "my file.toml".to_string(), "".to_string()];
    assert_eq!(join_windows_args(&args), r#"--config "my file.toml" """#);
    assert_eq!(join_windows_args(&Vec::new()), "");
}

#[test]
fn joined_arguments_split_back() {
    let args: Vec<String> = vec![
        "".to_string(),
        "plain".to_string(),
        "two words".to_string(),
        r#"quote"inside"#.to_string(),
        r"trailing\".to_string(),
        r"C:\Program Files\".to_string(),
        r#"\\"x"#.to_string(),
        "\"".to_string(),
        "tab\there".to_string(),
        r"back\slash".to_string(),
    ];
    let line = join_windows_args(&args);
    assert_eq!(split_windows_args(&line), args);
}

#[test]
fn wide_string_is_utf16_with_nul() {
    assert_eq!(wide_from_str("VNT2"), vec![0x56, 0x4e, 0x54, 0x32, 0]);
    assert_eq!(wide_from_str(""), vec![0]);
    assert_eq!(wide_from_str("管"), vec![0x7ba1, 0]);
    assert_eq!(wide_from_str("😀"), vec![0xd83d, 0xde00, 0]);
    let expected: Vec<u16> = "a😀b".encode_utf16().chain(std::iter::once(0)).collect();
    assert_eq!(wide_from_str("a😀b"), expected);
}

#[test]
fn relaunch_parameters_none_without_arguments() {
    assert_eq!(relaunch_parameters(&Vec::new()), None);
    let args = vec!["-c".to_string(), "a b".to_string()];
    let expected: Vec<u16> = "-c \"a b\"".encode_utf16().chain(std::iter::once(0)).collect();
    assert_eq!(relaunch_parameters(&args), Some(expected));
}

#[test]
fn shell_execute_codes() {
    assert_eq!(shell_execute_outcome(33), Ok(()));
    assert_eq!(shell_execute_outcome(42), Ok(()));
    assert_eq!(shell_execute_outcome(32), Err(ElevationError::ShellExecuteFailed(32)));
    assert_eq!(shell_execute_outcome(0), Err(ElevationError::ShellExecuteFailed(0)));
    assert_eq!(shell_execute_outcome(-5), Err(ElevationError::ShellExecuteFailed(-5)));
}

#[test]
fn elevation_steps() {
    assert!(matches!(
        ensure_windows_elevated(Ok(true)),
        ElevationStep::Done(Ok(ElevationState::AlreadyElevated))
    ));
    assert!(matches!(ensure_windows_elevated(Ok(false)), ElevationStep::Relaunch));
    assert!(matches!(
        ensure_windows_elevated(Err(ElevationError::OpenProcessTokenFailed)),
        ElevationStep::Done(Err(ElevationError::OpenProcessTokenFailed))
    ));
    assert_eq!(relaunch_finished(Ok(())), Ok(ElevationState::Relaunched));
    assert_eq!(
        relaunch_finished(Err(ElevationError::CurrentExeUnavailable)),
        Err(ElevationError::CurrentExeUnavailable)
    );
}

#[test]
fn tun_elevation_steps() {
    assert!(matches!(ensure_elevated_for_tun(Ok(true)), TunElevationStep::Done(Ok(true))));
    assert!(matches!(ensure_elevated_for_tun(Ok(false)), TunElevationStep::Relaunch));
    assert!(matches!(
        ensure_elevated_for_tun(Err(ElevationError::TokenElevationQueryFailed)),
        TunElevationStep::Done(Err(ElevationError::TokenElevationQueryFailed))
    ));
    assert_eq!(tun_relaunch_finished(Ok(())), Ok(false));
    assert_eq!(
        tun_relaunch_finished(Err(ElevationError::ShellExecuteFailed(5))),
        Err(ElevationError::ShellExecuteFailed(5))
    );
}

#[test]
fn wide_string_has_single_terminator() {
    let w = wide_from_str("a😀 b\u{ffff}");
    assert_eq!(w.last(), Some(&0));
    assert!(w[..w.len() - 1].iter().all(|&u| u != 0));
}

#[test]
fn elevation_messages() {
    assert_eq!(elevation_error_message(ElevationError::OpenProcessTokenFailed), "OpenProcessToken failed");
    assert_eq!(
        elevation_error_message(ElevationError::TokenElevationQueryFailed),
        "GetTokenInformation(TokenElevation) failed"
    );
    assert_eq!(
        elevation_error_message(ElevationError::CurrentExeUnavailable),
        "failed to resolve current executable"
    );
    for code in [0isize, 5, 32, -1, 1234567, isize::MIN, isize::MAX] {
        assert_eq!(
            elevation_error_message(ElevationError::ShellExecuteFailed(code)),
            format!("ShellExecuteW(runas) failed with code {code}")
        );
    }
}
