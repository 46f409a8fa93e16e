//! The desktop shell: how the connection to a server is tested, and what can fail.

use crate::text::{joined, trim_end_char};
use vstd::prelude::*;

verus! {

/// What a command of the shell came to.
#[derive(Debug)]
pub struct CommandResult {
    pub success: bool,
    pub error: Option<String>,
}

/// What a command came to, with its error as characters.
pub struct CommandResultView {
    pub success: bool,
    pub error: Option<Seq<char>>,
}

impl View for CommandResult {
    type V = CommandResultView;

    open spec fn view(&self) -> CommandResultView {
        CommandResultView {
            success: self.success,
            error: crate::json::string_view(self.error),
        }
    }
}

/// A command that went well.
pub open spec fn went_well() -> CommandResultView {
    CommandResultView { success: true, error: None }
}

/// A command that did not.
pub open spec fn went_wrong(error: Seq<char>) -> CommandResultView {
    CommandResultView { success: false, error: Some(error) }
}

impl CommandResult {
    /// A command that went well.
    pub fn ok() -> (r: CommandResult)
        ensures
            r@ == went_well(),
    {
        CommandResult { success: true, error: None }
    }

    /// A command that did not.
    pub fn failed(error: String) -> (r: CommandResult)
        ensures
            r@ == went_wrong(error@),
    {
        CommandResult { success: false, error: Some(error) }
    }
}

/// Whether the server inside the shell is running, and where it would keep its data.
#[derive(Debug)]
pub struct EmbeddedServerStatus {
    pub running: bool,
    pub embedded: bool,
    pub data_dir: Option<String>,
}

/// There is no server inside the shell.
pub fn get_embedded_server_status(data_dir: Option<String>) -> (r: EmbeddedServerStatus)
    ensures
        !r.running,
        !r.embedded,
        r.data_dir == data_dir,
{
    EmbeddedServerStatus { running: false, embedded: false, data_dir }
}

// ---------------------------------------------------------------------------------------------
// Testing a connection
// ---------------------------------------------------------------------------------------------

/// How a server answered.
#[derive(Debug)]
pub enum ProbeAnswer {
    /// With success.
    Success,
    /// With another status.
    Status(String),
    /// Not at all, with the message of the error.
    Failed(String),
}

/// What a test does next.
#[derive(Debug)]
pub enum TestStep {
    /// Ask for this address.
    Ask(String),
    /// The test is over.
    Done(CommandResult),
}

/// What a test does next, with its parts as views.
pub enum TestStepView {
    Ask(Seq<char>),
    Done(CommandResultView),
}

impl View for TestStep {
    type V = TestStepView;

    open spec fn view(&self) -> TestStepView {
        match *self {
            TestStep::Ask(url) => TestStepView::Ask(url@),
            TestStep::Done(result) => TestStepView::Done(result@),
        }
    }
}

/// An address on a server, whose own address may end in slashes.
pub open spec fn server_page(server_url: Seq<char>, page: Seq<char>) -> Seq<char> {
    crate::text::trimmed_end(server_url, '/') + page
}

/// What the last answer of a test says, where the server did not answer with success.
pub open spec fn last_answer(answer: ProbeAnswer) -> CommandResultView {
    match answer {
        ProbeAnswer::Success => went_well(),
        ProbeAnswer::Status(status) => went_wrong("Server returned "@ + status@),
        ProbeAnswer::Failed(message) => went_wrong(message@),
    }
}

/// What a test does next after some answers: it asks for the health of the server, and where
/// that is not answered with success, for its version, whose answer decides.
pub open spec fn test_step(server_url: Seq<char>, answers: Seq<ProbeAnswer>) -> TestStepView {
    if answers.len() == 0 {
        TestStepView::Ask(server_page(server_url, "/health"@))
    } else if answers[0] is Success {
        TestStepView::Done(went_well())
    } else if answers.len() == 1 {
        TestStepView::Ask(server_page(server_url, "/version"@))
    } else {
        TestStepView::Done(last_answer(answers[1]))
    }
}

/// What a test of a connection does next.
pub fn test_server_connection(server_url: &str, answers: &Vec<ProbeAnswer>) -> (r: TestStep)
    ensures
        r@ == test_step(server_url@, answers@),
{
    let base = trim_end_char(server_url, '/');
    if answers.len() == 0 {
        return TestStep::Ask(joined(base, "/health"));
    }
    if let ProbeAnswer::Success = &answers[0] {
        return TestStep::Done(CommandResult::ok());
    }
    if answers.len() == 1 {
        return TestStep::Ask(joined(base, "/version"));
    }
    match &answers[1] {
        ProbeAnswer::Success => TestStep::Done(CommandResult::ok()),
        ProbeAnswer::Status(status) => TestStep::Done(
            CommandResult::failed(joined("Server returned ", status.as_str())),
        ),
        ProbeAnswer::Failed(message) => TestStep::Done(CommandResult::failed(message.clone())),
    }
}

// ---------------------------------------------------------------------------------------------
// Failures
// ---------------------------------------------------------------------------------------------

/// A step of the shell or of starting the server that can fail.
#[derive(Clone, Copy, Debug, PartialEq, Eq, Structural)]
pub enum ShellStep {
    ResolveDataDir,
    CreateDataDir,
    ReadConfig,
    ParseConfig,
    PrintConfig,
    SaveConfig,
    MakeClient,
    OpenDatabase,
    InitializeDatabase,
    BindServer,
    BindTerminal,
}

/// The words for a step that failed.
pub open spec fn shell_words(step: ShellStep) -> Seq<char> {
    match step {
        ShellStep::ResolveDataDir => "Failed to resolve app data directory: "@,
        ShellStep::CreateDataDir => "Failed to create app data directory: "@,
        ShellStep::ReadConfig => "Failed to read server config: "@,
        ShellStep::ParseConfig => "Failed to parse server config: "@,
        ShellStep::PrintConfig => "Failed to serialize server config: "@,
        ShellStep::SaveConfig => "Failed to save server config: "@,
        ShellStep::MakeClient => "Failed to create HTTP client: "@,
        ShellStep::OpenDatabase => "Failed to open local SQLite database: "@,
        ShellStep::InitializeDatabase => "Failed to initialize database: "@,
        ShellStep::BindServer => "Failed to bind local server on 127.0.0.1:30001: "@,
        ShellStep::BindTerminal => "Failed to bind terminal WebSocket on 127.0.0.1:30002: "@,
    }
}

/// The words for a step that failed, with the message of its error.
pub fn shell_failure(step: ShellStep, message: &str) -> (r: String)
    ensures
        r@ == shell_words(step) + message@,
{
    let words: &str = match step {
        ShellStep::ResolveDataDir => "Failed to resolve app data directory: ",
        ShellStep::CreateDataDir => "Failed to create app data directory: ",
        ShellStep::ReadConfig => "Failed to read server config: ",
        ShellStep::ParseConfig => "Failed to parse server config: ",
        ShellStep::PrintConfig => "Failed to serialize server config: ",
        ShellStep::SaveConfig => "Failed to save server config: ",
        ShellStep::MakeClient => "Failed to create HTTP client: ",
        ShellStep::OpenDatabase => "Failed to open local SQLite database: ",
        ShellStep::InitializeDatabase => "Failed to initialize database: ",
        ShellStep::BindServer => "Failed to bind local server on 127.0.0.1:30001: ",
        ShellStep::BindTerminal => "Failed to bind terminal WebSocket on 127.0.0.1:30002: ",
    };
    joined(words, message)
}

// ---------------------------------------------------------------------------------------------
// Laws
// ---------------------------------------------------------------------------------------------

/// A test is over after two answers at most, and succeeds just where one of them is a success.
pub proof fn tests_end(server_url: Seq<char>, answers: Seq<ProbeAnswer>)
    requires
        answers.len() >= 2 || (answers.len() == 1 && answers[0] is Success),
    ensures
        test_step(server_url, answers) matches TestStepView::Done(result) && (result.success
            <==> answers[0] is Success || answers[1] is Success) && (result.success
            <==> result.error is None),
{
}

/// Slashes at the end of the address of a server do not matter.
pub proof fn trailing_slashes_do_not_matter(server_url: Seq<char>, page: Seq<char>)
    ensures
        server_page(server_url + seq!['/'], page) == server_page(server_url, page),
{
    assert((server_url + seq!['/']).drop_last() =~= server_url);
}

/// A test asks the server itself: first for its health and then for its version, at the address
/// that is tested without the slashes at its end.
pub proof fn tests_ask_the_server(server_url: Seq<char>, answer: ProbeAnswer)
    requires
        !(answer is Success),
    ensures
        test_step(server_url, Seq::empty()) matches TestStepView::Ask(page) && page
            == crate::text::trimmed_end(server_url, '/') + "/health"@,
        test_step(server_url, seq![answer]) matches TestStepView::Ask(page) && page
            == crate::text::trimmed_end(server_url, '/') + "/version"@,
{
}

/// A test that fails says why: with the status that the server answered, or with the message of
/// the error where it did not answer.
pub proof fn failed_tests_say_why(
    server_url: Seq<char>,
    first: ProbeAnswer,
    status: String,
    message: String,
)
    requires
        !(first is Success),
    ensures
        test_step(server_url, seq![first, ProbeAnswer::Status(status)]) matches TestStepView::Done(
            result,
        ) && !result.success && (result.error matches Some(error) && error == "Server returned "@
            + status@),
        test_step(server_url, seq![first, ProbeAnswer::Failed(message)]) matches TestStepView::Done(
            result,
        ) && !result.success && result.error == Some(message@),
{
}

/// A step of a test is seen as the page that it asks for, or as what the test came to.
pub proof fn steps_are_seen_whole(url: String, result: CommandResult)
    ensures
        TestStep::Ask(url)@ == TestStepView::Ask(url@),
        TestStep::Done(result)@ matches TestStepView::Done(seen) && seen.success == result.success
            && seen.error == crate::json::string_view(result.error),
        went_well().success && went_well().error is None,
        !went_wrong(url@).success && went_wrong(url@).error == Some(url@),
{
}

/// What failed in the shell is told with words that no other step has, so that they tell which
/// step it was.
pub proof fn failed_steps_are_told_apart(a: ShellStep, b: ShellStep)
    requires
        shell_words(a) == shell_words(b),
    ensures
        a == b,
{
    reveal_strlit("Failed to resolve app data directory: ");
    assert("Failed to resolve app data directory: "@.len() == 38);
    assert("Failed to resolve app data directory: "@[10] == 'r');
    reveal_strlit("Failed to create app data directory: ");
    assert("Failed to create app data directory: "@.len() == 37);
    reveal_strlit("Failed to read server config: ");
    assert("Failed to read server config: "@.len() == 30);
    assert("Failed to read server config: "@[10] == 'r');
    reveal_strlit("Failed to parse server config: ");
    assert("Failed to parse server config: "@.len() == 31);
    assert("Failed to parse server config: "@[10] == 'p');
    reveal_strlit("Failed to serialize server config: ");
    assert("Failed to serialize server config: "@.len() == 35);
    reveal_strlit("Failed to save server config: ");
    assert("Failed to save server config: "@.len() == 30);
    assert("Failed to save server config: "@[10] == 's');
    reveal_strlit("Failed to create HTTP client: ");
    assert("Failed to create HTTP client: "@.len() == 30);
    assert("Failed to create HTTP client: "@[10] == 'c');
    reveal_strlit("Failed to open local SQLite database: ");
    assert("Failed to open local SQLite database: "@.len() == 38);
    assert("Failed to open local SQLite database: "@[10] == 'o');
    reveal_strlit("Failed to initialize database: ");
    assert("Failed to initialize database: "@.len() == 31);
    assert("Failed to initialize database: "@[10] == 'i');
    reveal_strlit("Failed to bind local server on 127.0.0.1:30001: ");
    assert("Failed to bind local server on 127.0.0.1:30001: "@.len() == 48);
    reveal_strlit("Failed to bind terminal WebSocket on 127.0.0.1:30002: ");
    assert("Failed to bind terminal WebSocket on 127.0.0.1:30002: "@.len() == 54);
    assert(shell_words(a).len() == shell_words(b).len());
    assert(shell_words(a)[10] == shell_words(b)[10]);
}

} // verus!
