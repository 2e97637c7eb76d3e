use vector_embed::commands::{
    build_args, cli, fetch_value, parse_flag, parse_query_flags, rag_context, Args, CliError,
    CliTask, Commands, LogLevel, Supplied, GENERAL_PROMPT_PATH, VERSION,
};

fn version() -> Commands {
    Commands::Version { version: "1.0.0".to_string() }
}

fn load() -> Commands {
    Commands::Load {
        path: "src".to_string(),
        chunk_size: 2048,
        llm_provider: "ollama".to_string(),
        embed_model: "nomic-embed-text".to_string(),
        api_url: "http://10.0.0.213:11434".to_string(),
        api_key: "api_key".to_string(),
    }
}

fn lance_query(whole_query: &str, file_context: &str) -> Commands {
    Commands::LanceQuery {
        input: vec!["who".to_string()],
        llm_provider: "ollama".to_string(),
        api_url: "http://h".to_string(),
        api_key: "k".to_string(),
        model: "m".to_string(),
        table: "t".to_string(),
        database: "d".to_string(),
        whole_query: whole_query.to_string(),
        file_context: file_context.to_string(),
    }
}

fn rag_query(whole_query: &str, file_context: &str) -> Commands {
    Commands::RagQuery {
        input: vec![],
        llm_provider: "ollama".to_string(),
        embed_model: "e".to_string(),
        api_url: "http://h".to_string(),
        api_key: "k".to_string(),
        ai_model: "a".to_string(),
        table: "t".to_string(),
        database: "d".to_string(),
        whole_query: whole_query.to_string(),
        file_context: file_context.to_string(),
        system_prompt: "p".to_string(),
    }
}

fn generate() -> Commands {
    Commands::Generate {
        prompt: "hi".to_string(),
        llm_provider: "ollama".to_string(),
        api_url: "http://h".to_string(),
        api_key: "k".to_string(),
        ai_model: "a".to_string(),
    }
}

#[test]
fn is_version_and_is_load_tell_the_command() {
    assert!(version().is_version());
    assert!(!version().is_load());
    assert!(load().is_load());
    assert!(!load().is_version());
    assert!(!generate().is_version());
    assert!(!lance_query("false", "false").is_load());
}

#[test]
fn version_and_load_return_the_command_itself() {
    let v = version();
    assert!(matches!(v.version(), Some(Commands::Version { .. })));
    assert!(v.load().is_none());
    let l = load();
    assert!(matches!(l.load(), Some(Commands::Load { chunk_size: 2048, .. })));
    assert!(l.version().is_none());
    assert!(generate().version().is_none());
    assert!(generate().load().is_none());
}

#[test]
fn argument_is_asked_for_only_when_empty() {
    match Commands::fetch_args_from_cli("given".to_string(), "Enter: ") {
        Supplied::Given(value) => assert_eq!(value, "given"),
        other => panic!("unexpected {:?}", other),
    }
    match Commands::fetch_args_from_cli(String::new(), "Enter: ") {
        Supplied::AskUser(prompt) => assert_eq!(prompt, "Enter: "),
        other => panic!("unexpected {:?}", other),
    }
}

#[test]
fn query_texts_are_asked_for_only_when_there_are_none() {
    match Commands::fetch_prompt_from_cli(vec!["a".to_string(), "".to_string()], "Enter query: ") {
        Supplied::Given(value) => assert_eq!(value, vec!["a".to_string(), "".to_string()]),
        other => panic!("unexpected {:?}", other),
    }
    match Commands::fetch_prompt_from_cli(Vec::new(), "Enter query: ") {
        Supplied::AskUser(prompt) => assert_eq!(prompt, "Enter query: "),
        other => panic!("unexpected {:?}", other),
    }
    assert_eq!(Commands::prompt_from_answer("typed".to_string()), vec!["typed".to_string()]);
}

#[test]
fn typed_line_is_trimmed() {
    assert_eq!(fetch_value("  who is barking \n"), "who is barking");
    assert_eq!(fetch_value("\t\r\n"), "");
    assert_eq!(fetch_value("a  b"), "a  b");
    assert_eq!(fetch_value("\u{2003}x\u{00a0}"), "x");
}

#[test]
fn flags_are_true_and_false_only() {
    assert_eq!(parse_flag("true"), Some(true));
    assert_eq!(parse_flag("false"), Some(false));
    for text in ["True", "FALSE", "1", "0", "", " true", "yes"] {
        assert_eq!(parse_flag(text), None, "{:?}", text);
    }
}

#[test]
fn query_flags_are_read_in_order() {
    assert_eq!(parse_query_flags("true", "false"), Ok((true, false)));
    assert_eq!(parse_query_flags("false", "true"), Ok((false, true)));
    assert_eq!(parse_query_flags("x", "true"), Err(CliError::WholeQueryFlag));
    assert_eq!(parse_query_flags("true", "x"), Err(CliError::FileContextFlag));
    assert_eq!(parse_query_flags("x", "y"), Err(CliError::WholeQueryFlag));
}

#[test]
fn cli_says_what_a_command_comes_to() {
    assert!(matches!(cli(&version()), Ok(CliTask::Version)));
    match cli(&load()) {
        Ok(CliTask::Load { connection_check_url }) => {
            assert_eq!(connection_check_url, "http://10.0.0.213:11434/api/version")
        }
        other => panic!("unexpected {:?}", other),
    }
    assert!(matches!(
        cli(&lance_query("false", "true")),
        Ok(CliTask::Query { whole_query: false, file_context: true })
    ));
    assert!(matches!(
        cli(&rag_query("true", "false")),
        Ok(CliTask::Rag { whole_query: true, file_context: false })
    ));
    match cli(&generate()) {
        Ok(CliTask::Generate { system_prompt }) => {
            assert_eq!(system_prompt, "template/general_prompt.txt");
            assert_eq!(system_prompt, GENERAL_PROMPT_PATH);
        }
        other => panic!("unexpected {:?}", other),
    }
}

#[test]
fn cli_refuses_bad_flags() {
    assert!(matches!(cli(&lance_query("maybe", "true")), Err(CliError::WholeQueryFlag)));
    assert!(matches!(cli(&lance_query("true", "")), Err(CliError::FileContextFlag)));
    assert!(matches!(cli(&rag_query("TRUE", "true")), Err(CliError::WholeQueryFlag)));
    assert!(matches!(cli(&rag_query("false", "no")), Err(CliError::FileContextFlag)));
}

#[test]
fn rag_context_joins_with_spaces() {
    assert_eq!(rag_context(&vec!["a".to_string(), "b c".to_string(), "d".to_string()]), "a b c d");
    assert_eq!(rag_context(&Vec::new()), "");
}

#[test]
fn build_args_defaults_to_version_and_info() {
    let (command, level) = build_args(Args { cmd: None, log_level: None });
    match command {
        Commands::Version { version } => {
            assert_eq!(version, "1.0.0");
            assert_eq!(version, VERSION);
        }
        other => panic!("unexpected {:?}", other),
    }
    assert_eq!(level, LogLevel::Info);
}

#[test]
fn build_args_keeps_what_was_given() {
    let (command, level) = build_args(Args { cmd: Some(load()), log_level: Some(LogLevel::Error) });
    assert!(command.is_load());
    assert_eq!(level, LogLevel::Error);
    let (_, level) = build_args(Args { cmd: Some(version()), log_level: Some(LogLevel::Debug) });
    assert_eq!(level, LogLevel::Debug);
    let (_, level) = build_args(Args { cmd: None, log_level: Some(LogLevel::Warn) });
    assert_eq!(level, LogLevel::Warn);
}
