use crate::embedder::{join_url, url_join};
use crate::text::{join_strings, join_with, str_eq, str_trim, trim_of};
use vstd::prelude::*;

verus! {

/// Version that is reported where none is given.
pub const VERSION: &'static str = "1.0.0";

/// How much is logged.
#[derive(Debug, Clone, Copy, PartialEq, Eq, Structural)]
pub enum LogLevel {
    Debug,
    Info,
    Warn,
    Error,
}

/// What the program is asked to do, with the arguments of each task.
#[derive(Debug, Clone)]
pub enum Commands {
    /// Report the version.
    Version { version: String },
    /// Load a file or a directory of files into the vector store.
    Load {
        path: String,
        chunk_size: usize,
        llm_provider: String,
        embed_model: String,
        api_url: String,
        api_key: String,
    },
    /// Query the vector store.
    LanceQuery {
        input: Vec<String>,
        llm_provider: String,
        api_url: String,
        api_key: String,
        model: String,
        table: String,
        database: String,
        whole_query: String,
        file_context: String,
    },
    /// Query the vector store and hand what was found to a chat model.
    RagQuery {
        input: Vec<String>,
        llm_provider: String,
        embed_model: String,
        api_url: String,
        api_key: String,
        ai_model: String,
        table: String,
        database: String,
        whole_query: String,
        file_context: String,
        system_prompt: String,
    },
    /// Ask a chat model.
    Generate {
        prompt: String,
        llm_provider: String,
        api_url: String,
        api_key: String,
        ai_model: String,
    },
}

/// The command line as it was parsed: a command, if one was named, and a log level, if
/// one was asked for.
#[derive(Debug, Clone)]
pub struct Args {
    pub cmd: Option<Commands>,
    pub log_level: Option<LogLevel>,
}

/// A value that the command line gave, or the need to ask the user for it.
#[derive(Debug, Clone)]
pub enum Supplied<T> {
    /// The command line gave this value.
    Given(T),
    /// The command line gave nothing: ask the user, with this prompt.
    AskUser(String),
}

/// `true` and `false`, spelled exactly so, are the only flags.
pub open spec fn flag_of(text: Seq<char>) -> Option<bool> {
    if text == "true"@ {
        Some(true)
    } else if text == "false"@ {
        Some(false)
    } else {
        None
    }
}

/// Reads a flag that was passed as text.
pub fn parse_flag(text: &str) -> (flag: Option<bool>)
    ensures
        flag == flag_of(text@),
{
    if str_eq(text, "true") {
        Some(true)
    } else if str_eq(text, "false") {
        Some(false)
    } else {
        None
    }
}

/// What the user meant by a line that was typed: the line without the whitespace
/// around it.
pub fn fetch_value(typed_line: &str) -> (value: String)
    ensures
        value@ == trim_of(typed_line@),
{
    str_trim(typed_line)
}

impl Commands {
    /// Whether the command reports the version.
    pub fn is_version(&self) -> (res: bool)
        ensures
            res == (self is Version),
    {
        match self {
            Commands::Version { .. } => true,
            _ => false,
        }
    }

    /// The command itself, if it reports the version.
    pub fn version(&self) -> (res: Option<&Commands>)
        ensures
            res == if self is Version {
                Some(self)
            } else {
                None
            },
    {
        match self {
            Commands::Version { .. } => Some(self),
            _ => None,
        }
    }

    /// Whether the command loads files.
    pub fn is_load(&self) -> (res: bool)
        ensures
            res == (self is Load),
    {
        match self {
            Commands::Load { .. } => true,
            _ => false,
        }
    }

    /// The command itself, if it loads files.
    pub fn load(&self) -> (res: Option<&Commands>)
        ensures
            res == if self is Load {
                Some(self)
            } else {
                None
            },
    {
        match self {
            Commands::Load { .. } => Some(self),
            _ => None,
        }
    }

    /// An argument of the command line: as given, unless it is empty; then the user is
    /// to be asked with `prompt_message`.
    pub fn fetch_args_from_cli(input: String, prompt_message: &str) -> (res: Supplied<String>)
        ensures
            input@.len() == 0 ==> (res matches Supplied::AskUser(prompt) && prompt@
                == prompt_message@),
            input@.len() > 0 ==> (res matches Supplied::Given(value) && value@ == input@),
    {
        if input.as_str().is_empty() {
            Supplied::AskUser(prompt_message.to_string())
        } else {
            Supplied::Given(input)
        }
    }

    /// The query texts of the command line: as given, unless there are none; then the
    /// user is to be asked with `prompt_message`, and the answer is the only text.
    pub fn fetch_prompt_from_cli(input: Vec<String>, prompt_message: &str) -> (res: Supplied<
        Vec<String>,
    >)
        ensures
            input.len() == 0 ==> (res matches Supplied::AskUser(prompt) && prompt@
                == prompt_message@),
            input.len() > 0 ==> (res matches Supplied::Given(value) && value.deep_view()
                == input.deep_view()),
    {
        if input.len() == 0 {
            Supplied::AskUser(prompt_message.to_string())
        } else {
            Supplied::Given(input)
        }
    }

    /// The query texts where the user had to be asked: the answer alone.
    pub fn prompt_from_answer(answer: String) -> (res: Vec<String>)
        ensures
            res.deep_view() == seq![answer@],
    {
        let mut texts: Vec<String> = Vec::new();
        texts.push(answer);
        assert(texts.deep_view() == seq![texts[0]@]);
        texts
    }
}

/// Instructions for a chat model that is asked without a query of the store.
pub const GENERAL_PROMPT_PATH: &'static str = "template/general_prompt.txt";

/// Path below a server's address at which it reports its version.
pub const VERSION_API: &'static str = "api/version";

/// Why a command was not run.
#[derive(Debug, Clone, Copy, PartialEq, Eq, Structural)]
pub enum CliError {
    /// The flag for a query of the whole table is neither `true` nor `false`.
    WholeQueryFlag,
    /// The flag for the expansion to whole files is neither `true` nor `false`.
    FileContextFlag,
}

/// What a command comes to, once its arguments are read.
#[derive(Debug, Clone)]
pub enum CliTask {
    /// Report the version.
    Version,
    /// Check that the server answers at this address, then load.
    Load { connection_check_url: String },
    /// Query the store.
    Query { whole_query: bool, file_context: bool },
    /// Query the store, then put what was found to a chat model.
    Rag { whole_query: bool, file_context: bool },
    /// Ask a chat model with the instructions at this path.
    Generate { system_prompt: String },
}

/// The two flags of a query, read in this order; the first that is no flag decides
/// the error.
pub open spec fn query_flags(whole_query: Seq<char>, file_context: Seq<char>) -> Result<
    (bool, bool),
    CliError,
> {
    match flag_of(whole_query) {
        None => Err(CliError::WholeQueryFlag),
        Some(whole) => match flag_of(file_context) {
            None => Err(CliError::FileContextFlag),
            Some(file) => Ok((whole, file)),
        },
    }
}

/// Reads the two flags of a query.
pub fn parse_query_flags(whole_query: &str, file_context: &str) -> (res: Result<
    (bool, bool),
    CliError,
>)
    ensures
        res == query_flags(whole_query@, file_context@),
{
    match parse_flag(whole_query) {
        None => Err(CliError::WholeQueryFlag),
        Some(whole) => match parse_flag(file_context) {
            None => Err(CliError::FileContextFlag),
            Some(file) => Ok((whole, file)),
        },
    }
}

/// What `task` must be for `commands`.
pub open spec fn cli_task_ok(commands: Commands, res: Result<CliTask, CliError>) -> bool {
    match commands {
        Commands::Version { .. } => res matches Ok(CliTask::Version),
        Commands::Load { api_url, .. } => res matches Ok(
            CliTask::Load { connection_check_url },
        ) && connection_check_url@ == url_join(api_url@, VERSION_API@),
        Commands::LanceQuery { whole_query, file_context, .. } => match query_flags(
            whole_query@,
            file_context@,
        ) {
            Err(e) => res matches Err(err) && err == e,
            Ok(flags) => res matches Ok(CliTask::Query { whole_query: whole, file_context: file })
                && whole == flags.0 && file == flags.1,
        },
        Commands::RagQuery { whole_query, file_context, .. } => match query_flags(
            whole_query@,
            file_context@,
        ) {
            Err(e) => res matches Err(err) && err == e,
            Ok(flags) => res matches Ok(CliTask::Rag { whole_query: whole, file_context: file })
                && whole == flags.0 && file == flags.1,
        },
        Commands::Generate { .. } => res matches Ok(CliTask::Generate { system_prompt })
            && system_prompt@ == GENERAL_PROMPT_PATH@,
    }
}

/// Reads the arguments of a command and says what is to be run.
pub fn cli(commands: &Commands) -> (res: Result<CliTask, CliError>)
    ensures
        cli_task_ok(*commands, res),
{
    match commands {
        Commands::Version { .. } => Ok(CliTask::Version),
        Commands::Load { api_url, .. } => Ok(
            CliTask::Load { connection_check_url: join_url(api_url.as_str(), VERSION_API) },
        ),
        Commands::LanceQuery { whole_query, file_context, .. } => {
            match parse_query_flags(whole_query.as_str(), file_context.as_str()) {
                Err(e) => Err(e),
                Ok((whole, file)) => Ok(CliTask::Query { whole_query: whole, file_context: file }),
            }
        },
        Commands::RagQuery { whole_query, file_context, .. } => {
            match parse_query_flags(whole_query.as_str(), file_context.as_str()) {
                Err(e) => Err(e),
                Ok((whole, file)) => Ok(CliTask::Rag { whole_query: whole, file_context: file }),
            }
        },
        Commands::Generate { .. } => Ok(
            CliTask::Generate { system_prompt: GENERAL_PROMPT_PATH.to_string() },
        ),
    }
}

/// What a chat model is told of the store: the content that a query found, with a
/// space between its pieces.
pub fn rag_context(content: &Vec<String>) -> (context: String)
    ensures
        context@ == join_with(content.deep_view(), " "@),
{
    join_strings(content, " ")
}

/// The command to run and the level to log at, from the parsed command line: without
/// a command the version is reported, and without a level the level is `Info`.
pub fn build_args(args: Args) -> (res: (Commands, LogLevel))
    ensures
        res.1 == match args.log_level {
            Some(level) => level,
            None => LogLevel::Info,
        },
        match args.cmd {
            Some(cmd) => res.0 == cmd,
            None => res.0 matches Commands::Version { version } && version@ == VERSION@,
        },
{
    let level = match args.log_level {
        Some(log_level) => log_level,
        None => LogLevel::Info,
    };
    let command = match args.cmd {
        Some(cmd) => cmd,
        None => Commands::Version { version: VERSION.to_string() },
    };
    (command, level)
}

} // verus!
