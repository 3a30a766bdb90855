use vstd::prelude::*;

verus! {

/// The options of the `send` command.
#[derive(Clone, Debug, PartialEq, Eq)]
pub struct SendArgs {
    /// The sender.
    pub from: Option<String>,
    /// The recipients, separated by commas.
    pub to: Option<String>,
    pub subject: Option<String>,
    /// An HTML body given on the command line.
    pub html: Option<String>,
    /// A plain text body given on the command line.
    pub text: Option<String>,
    /// Whether the body is read from standard input.
    pub from_stdin: bool,
    /// The received email to forward, if any.
    pub id: Option<String>,
}

/// The mathematical value of [`SendArgs`].
pub struct SendArgsView {
    pub from: Option<Seq<char>>,
    pub to: Option<Seq<char>>,
    pub subject: Option<Seq<char>>,
    pub html: Option<Seq<char>>,
    pub text: Option<Seq<char>>,
    pub from_stdin: bool,
    pub id: Option<Seq<char>>,
}

impl DeepView for SendArgs {
    type V = SendArgsView;

    open spec fn deep_view(&self) -> SendArgsView {
        SendArgsView {
            from: self.from.deep_view(),
            to: self.to.deep_view(),
            subject: self.subject.deep_view(),
            html: self.html.deep_view(),
            text: self.text.deep_view(),
            from_stdin: self.from_stdin,
            id: self.id.deep_view(),
        }
    }
}

/// One invocation of the program.
#[allow(inconsistent_fields)]
#[derive(Clone, Debug, PartialEq, Eq)]
pub enum Command {
    /// Store the API key and the default addresses.
    Config { key: Option<String>, default_from: Option<String>, default_to: Option<String> },
    /// Send one email.
    Send(SendArgs),
    /// Send the emails that a JSON file lists, as one batch.
    Batch { file: String },
    /// List sent emails.
    List { count: Option<usize> },
    /// Show one sent email, the newest where no identifier is given.
    Get { id: Option<String> },
    /// Change a scheduled email.
    Update { id: String, scheduled_at: Option<String> },
    /// Cancel a scheduled email.
    Cancel { id: String },
    /// List received emails.
    ReceivedList { count: Option<usize> },
    /// Show one received email, the newest where no identifier is given.
    ReceivedGet { id: Option<String> },
    /// Write a completion script for a shell.
    Completions { shell: String },
}

/// The mathematical value of a [`Command`].
#[allow(inconsistent_fields)]
pub enum CommandView {
    Config {
        key: Option<Seq<char>>,
        default_from: Option<Seq<char>>,
        default_to: Option<Seq<char>>,
    },
    Send(SendArgsView),
    Batch { file: Seq<char> },
    List { count: Option<usize> },
    Get { id: Option<Seq<char>> },
    Update { id: Seq<char>, scheduled_at: Option<Seq<char>> },
    Cancel { id: Seq<char> },
    ReceivedList { count: Option<usize> },
    ReceivedGet { id: Option<Seq<char>> },
    Completions { shell: Seq<char> },
}

impl DeepView for Command {
    type V = CommandView;

    open spec fn deep_view(&self) -> CommandView {
        match self {
            Command::Config { key, default_from, default_to } => CommandView::Config {
                key: key.deep_view(),
                default_from: default_from.deep_view(),
                default_to: default_to.deep_view(),
            },
            Command::Send(args) => CommandView::Send(args.deep_view()),
            Command::Batch { file } => CommandView::Batch { file: file@ },
            Command::List { count } => CommandView::List { count: *count },
            Command::Get { id } => CommandView::Get { id: id.deep_view() },
            Command::Update { id, scheduled_at } => CommandView::Update {
                id: id@,
                scheduled_at: scheduled_at.deep_view(),
            },
            Command::Cancel { id } => CommandView::Cancel { id: id@ },
            Command::ReceivedList { count } => CommandView::ReceivedList { count: *count },
            Command::ReceivedGet { id } => CommandView::ReceivedGet { id: id.deep_view() },
            Command::Completions { shell } => CommandView::Completions { shell: shell@ },
        }
    }
}

} // verus!
