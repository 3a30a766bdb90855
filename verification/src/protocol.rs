use crate::config::{AppConfig, AppConfigView, ConfigFile, ConfigFileView};
use crate::failure::{Failure, FailureView};
use crate::mailbox::{Body, BodyView, EmailRecord, EmailRecordView, Mailbox};
use crate::message::{BatchEmailInput, BatchEmailInputView, EmailMessage, EmailMessageView};
use vstd::prelude::*;
use vstd::string::*;

verus! {

/// A call to the email service.
#[derive(Clone, Debug, PartialEq, Eq)]
pub enum RemoteCall {
    /// Submit one email.
    Send(EmailMessage),
    /// Submit several emails in one request.
    SendBatch(Vec<EmailMessage>),
    /// Fetch the first page of a mailbox, as the service orders it.
    List(Mailbox),
    /// Fetch one email.
    Get { mailbox: Mailbox, id: String },
    /// Change the given fields of a scheduled email.
    Update { id: String, scheduled_at: Option<String> },
    /// Cancel a scheduled email.
    Cancel { id: String },
}

/// The mathematical value of a [`RemoteCall`].
pub enum RemoteCallView {
    Send(EmailMessageView),
    SendBatch(Seq<EmailMessageView>),
    List(Mailbox),
    Get { mailbox: Mailbox, id: Seq<char> },
    Update { id: Seq<char>, scheduled_at: Option<Seq<char>> },
    Cancel { id: Seq<char> },
}

impl DeepView for RemoteCall {
    type V = RemoteCallView;

    open spec fn deep_view(&self) -> RemoteCallView {
        match self {
            RemoteCall::Send(message) => RemoteCallView::Send(message.deep_view()),
            RemoteCall::SendBatch(messages) => RemoteCallView::SendBatch(messages.deep_view()),
            RemoteCall::List(mailbox) => RemoteCallView::List(*mailbox),
            RemoteCall::Get { mailbox, id } => RemoteCallView::Get { mailbox: *mailbox, id: id@ },
            RemoteCall::Update { id, scheduled_at } => RemoteCallView::Update {
                id: id@,
                scheduled_at: scheduled_at.deep_view(),
            },
            RemoteCall::Cancel { id } => RemoteCallView::Cancel { id: id@ },
        }
    }
}

/// Outside work that a command needs done before it can go on.
#[derive(Clone, Debug, PartialEq, Eq)]
pub enum Request {
    /// Look for the settings file and read it.
    LoadConfig,
    /// Ask for the API key and read one line of standard input.
    PromptKey,
    /// Write these settings in place of the stored ones.
    SaveConfig(AppConfig),
    /// Read standard input to its end.
    ReadStdin,
    /// Read the file at this path as text.
    ReadFile(String),
    /// Read this text as a JSON array of batch records.
    ParseBatch(String),
    /// Write the completion script for this shell to standard output.
    WriteCompletions(String),
    /// Call the email service with this key as the credential.
    Remote { api_key: String, call: RemoteCall },
}

/// The mathematical value of a [`Request`].
pub enum RequestView {
    LoadConfig,
    PromptKey,
    SaveConfig(AppConfigView),
    ReadStdin,
    ReadFile(Seq<char>),
    ParseBatch(Seq<char>),
    WriteCompletions(Seq<char>),
    Remote { api_key: Seq<char>, call: RemoteCallView },
}

impl DeepView for Request {
    type V = RequestView;

    open spec fn deep_view(&self) -> RequestView {
        match self {
            Request::LoadConfig => RequestView::LoadConfig,
            Request::PromptKey => RequestView::PromptKey,
            Request::SaveConfig(config) => RequestView::SaveConfig(config.deep_view()),
            Request::ReadStdin => RequestView::ReadStdin,
            Request::ReadFile(path) => RequestView::ReadFile(path@),
            Request::ParseBatch(content) => RequestView::ParseBatch(content@),
            Request::WriteCompletions(shell) => RequestView::WriteCompletions(shell@),
            Request::Remote { api_key, call } => RequestView::Remote {
                api_key: api_key@,
                call: call.deep_view(),
            },
        }
    }
}

/// How a piece of outside work ended.
#[derive(Clone, Debug, PartialEq, Eq)]
pub enum Response {
    /// What was found where the settings are kept.
    Config(ConfigFile),
    /// The text that was read.
    Text(String),
    /// The records of a batch file.
    Batch(Vec<BatchEmailInput>),
    /// A page of a mailbox, in the order of the service.
    Emails(Vec<EmailRecord>),
    /// One email.
    Email(EmailRecord),
    /// The identifier of the email that the service changed.
    Id(String),
    /// The work is done and has nothing to report.
    Done,
    /// The work failed, for this reason.
    Failed(String),
}

/// The mathematical value of a [`Response`].
pub enum ResponseView {
    Config(ConfigFileView),
    Text(Seq<char>),
    Batch(Seq<BatchEmailInputView>),
    Emails(Seq<EmailRecordView>),
    Email(EmailRecordView),
    Id(Seq<char>),
    Done,
    Failed(Seq<char>),
}

impl DeepView for Response {
    type V = ResponseView;

    open spec fn deep_view(&self) -> ResponseView {
        match self {
            Response::Config(file) => ResponseView::Config(file.deep_view()),
            Response::Text(text) => ResponseView::Text(text@),
            Response::Batch(records) => ResponseView::Batch(records.deep_view()),
            Response::Emails(records) => ResponseView::Emails(records.deep_view()),
            Response::Email(record) => ResponseView::Email(record.deep_view()),
            Response::Id(id) => ResponseView::Id(id@),
            Response::Done => ResponseView::Done,
            Response::Failed(cause) => ResponseView::Failed(cause@),
        }
    }
}

/// What a command that succeeded has to show.
#[derive(Clone, Debug, PartialEq, Eq)]
pub enum Report {
    ConfigSaved,
    Sent,
    BatchSent,
    /// The emails to list, already cut down to the count asked for.
    Listing(Vec<EmailRecord>),
    /// One email and what to show as its body.
    Email { record: EmailRecord, body: Body },
    /// The identifier of the email that was updated.
    Updated(String),
    /// The identifier of the email that was canceled.
    Canceled(String),
    CompletionsWritten,
}

/// The mathematical value of a [`Report`].
pub enum ReportView {
    ConfigSaved,
    Sent,
    BatchSent,
    Listing(Seq<EmailRecordView>),
    Email { record: EmailRecordView, body: BodyView },
    Updated(Seq<char>),
    Canceled(Seq<char>),
    CompletionsWritten,
}

impl DeepView for Report {
    type V = ReportView;

    open spec fn deep_view(&self) -> ReportView {
        match self {
            Report::ConfigSaved => ReportView::ConfigSaved,
            Report::Sent => ReportView::Sent,
            Report::BatchSent => ReportView::BatchSent,
            Report::Listing(records) => ReportView::Listing(records.deep_view()),
            Report::Email { record, body } => ReportView::Email {
                record: record.deep_view(),
                body: body.deep_view(),
            },
            Report::Updated(id) => ReportView::Updated(id@),
            Report::Canceled(id) => ReportView::Canceled(id@),
            Report::CompletionsWritten => ReportView::CompletionsWritten,
        }
    }
}

/// The line that tells of the success, for the commands that show nothing else.
pub open spec fn headline(report: ReportView) -> Option<Seq<char>> {
    match report {
        ReportView::ConfigSaved => Some("API key saved."@),
        ReportView::Sent => Some("Send request submitted."@),
        ReportView::BatchSent => Some("Batch send request submitted."@),
        ReportView::Updated(id) => Some("Updated email with ID: "@ + id),
        ReportView::Canceled(id) => Some("Canceled: "@ + id),
        ReportView::Listing(_) => None,
        ReportView::Email { .. } => None,
        ReportView::CompletionsWritten => None,
    }
}

impl Report {
    /// The line that tells of the success, for the commands that show nothing else.
    pub fn headline(&self) -> (r: Option<String>)
        ensures
            r.deep_view() == headline(self.deep_view()),
    {
        match self {
            Report::ConfigSaved => Some("API key saved.".to_owned()),
            Report::Sent => Some("Send request submitted.".to_owned()),
            Report::BatchSent => Some("Batch send request submitted.".to_owned()),
            Report::Updated(id) => Some("Updated email with ID: ".to_owned().concat(id.as_str())),
            Report::Canceled(id) => Some("Canceled: ".to_owned().concat(id.as_str())),
            Report::Listing(_) => None,
            Report::Email { .. } => None,
            Report::CompletionsWritten => None,
        }
    }
}

/// What happens next in a command.
#[derive(Clone, Debug, PartialEq, Eq)]
pub enum Step {
    /// This outside work is to be done, and its outcome handed back.
    Perform(Request),
    /// The command succeeded.
    Finish(Report),
    /// The command failed.
    Fail(Failure),
}

/// The mathematical value of a [`Step`].
pub enum StepView {
    Perform(RequestView),
    Finish(ReportView),
    Fail(FailureView),
}

impl DeepView for Step {
    type V = StepView;

    open spec fn deep_view(&self) -> StepView {
        match self {
            Step::Perform(request) => StepView::Perform(request.deep_view()),
            Step::Finish(report) => StepView::Finish(report.deep_view()),
            Step::Fail(failure) => StepView::Fail(failure.deep_view()),
        }
    }
}

} // verus!
