use chatshell::config::ShellConfig;

#[test]
fn test_effective_args_choice() {
    // bash and zsh get an interactive login shell by default.
    let bash = ShellConfig::for_command("/bin/bash".to_string());
    assert_eq!(bash.effective_args(), vec!["-i".to_string(), "-l".to_string()]);

    let zsh = ShellConfig::for_command("/usr/local/bin/zsh".to_string());
    assert_eq!(zsh.effective_args(), vec!["-i".to_string(), "-l".to_string()]);

    // Other shells get a plain interactive invocation.
    let fish = ShellConfig::for_command("/bin/fish".to_string());
    assert_eq!(fish.effective_args(), vec!["-i".to_string()]);

    // Configured arguments always win, unchanged.
    let explicit = ShellConfig {
        command: "/bin/bash".to_string(),
        args: vec!["--norc".to_string()],
        env: None,
    };
    assert_eq!(explicit.effective_args(), vec!["--norc".to_string()]);
}
