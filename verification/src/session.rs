use crate::command::{Command, CommandView, SendArgs, SendArgsView};
use crate::address::address_list;
use crate::config::{load_config, loaded, AppConfig, AppConfigView, ConfigFileView};
use crate::failure::{Failure, FailureView, Stage};
use crate::mailbox::{
    body_of, display_limit, limit_of, newest_id, shown, truncate, EmailRecordView, Mailbox,
};
use crate::message::{
    batch_messages, batch_outcome, direct_message, envelope_of, forward_message,
    lemma_first_incomplete, resolve_envelope, BatchEmailInputView, EmailMessageView, Envelope,
    EnvelopeView,
};
use crate::protocol::{
    RemoteCall, RemoteCallView, Report, ReportView, Request, RequestView, Response, ResponseView,
    Step, StepView,
};
use crate::text::{trim, trimmed};
use vstd::prelude::*;

verus! {

/// Where a command stands: what it waits for, and what it has settled so far.
#[allow(inconsistent_fields)]
#[derive(Clone, Debug, PartialEq, Eq)]
pub enum Session {
    /// Waits for the settings file.
    LoadingConfig(Command),
    /// Waits for the line that holds the key; the settings lack nothing else.
    ReadingKey(AppConfig),
    /// Waits for the settings to be written.
    SavingConfig,
    /// Waits for the body of a message from standard input.
    ReadingBody { api_key: String, envelope: Envelope, subject: String },
    /// Waits for the email that a message forwards.
    FetchingSource { api_key: String, envelope: Envelope, subject: Option<String> },
    /// Waits for the service to accept a message.
    Sending,
    /// Waits for the text of a batch file.
    ReadingBatch { api_key: String },
    /// Waits for the records of a batch file.
    ParsingBatch { api_key: String },
    /// Waits for the service to accept a batch.
    SendingBatch,
    /// Waits for the page to list, of which at most `limit` emails are shown.
    Listing { mailbox: Mailbox, limit: usize },
    /// Waits for the page that names the newest email.
    FindingNewest { api_key: String, mailbox: Mailbox },
    /// Waits for the email to show.
    Fetching { mailbox: Mailbox },
    /// Waits for the service to change an email.
    Updating,
    /// Waits for the service to cancel an email.
    Canceling,
    /// Waits for the completion script to be written.
    WritingCompletions,
    /// The command is over.
    Closed,
}

/// The mathematical value of a [`Session`].
#[allow(inconsistent_fields)]
pub enum SessionView {
    LoadingConfig(CommandView),
    ReadingKey(AppConfigView),
    SavingConfig,
    ReadingBody { api_key: Seq<char>, envelope: EnvelopeView, subject: Seq<char> },
    FetchingSource { api_key: Seq<char>, envelope: EnvelopeView, subject: Option<Seq<char>> },
    Sending,
    ReadingBatch { api_key: Seq<char> },
    ParsingBatch { api_key: Seq<char> },
    SendingBatch,
    Listing { mailbox: Mailbox, limit: usize },
    FindingNewest { api_key: Seq<char>, mailbox: Mailbox },
    Fetching { mailbox: Mailbox },
    Updating,
    Canceling,
    WritingCompletions,
    Closed,
}

impl DeepView for Session {
    type V = SessionView;

    open spec fn deep_view(&self) -> SessionView {
        match self {
            Session::LoadingConfig(command) => SessionView::LoadingConfig(command.deep_view()),
            Session::ReadingKey(config) => SessionView::ReadingKey(config.deep_view()),
            Session::SavingConfig => SessionView::SavingConfig,
            Session::ReadingBody { api_key, envelope, subject } => SessionView::ReadingBody {
                api_key: api_key@,
                envelope: envelope.deep_view(),
                subject: subject@,
            },
            Session::FetchingSource { api_key, envelope, subject } => SessionView::FetchingSource {
                api_key: api_key@,
                envelope: envelope.deep_view(),
                subject: subject.deep_view(),
            },
            Session::Sending => SessionView::Sending,
            Session::ReadingBatch { api_key } => SessionView::ReadingBatch { api_key: api_key@ },
            Session::ParsingBatch { api_key } => SessionView::ParsingBatch { api_key: api_key@ },
            Session::SendingBatch => SessionView::SendingBatch,
            Session::Listing { mailbox, limit } => SessionView::Listing {
                mailbox: *mailbox,
                limit: *limit,
            },
            Session::FindingNewest { api_key, mailbox } => SessionView::FindingNewest {
                api_key: api_key@,
                mailbox: *mailbox,
            },
            Session::Fetching { mailbox } => SessionView::Fetching { mailbox: *mailbox },
            Session::Updating => SessionView::Updating,
            Session::Canceling => SessionView::Canceling,
            Session::WritingCompletions => SessionView::WritingCompletions,
            Session::Closed => SessionView::Closed,
        }
    }
}

/// The step that asks for `call`, with `api_key` as the credential.
pub open spec fn remote(api_key: Seq<char>, call: RemoteCallView) -> StepView {
    StepView::Perform(RequestView::Remote { api_key, call })
}

/// The end of a command that failed.
pub open spec fn failed(failure: FailureView) -> (SessionView, StepView) {
    (SessionView::Closed, StepView::Fail(failure))
}

/// The end of a command that succeeded.
pub open spec fn finished(report: ReportView) -> (SessionView, StepView) {
    (SessionView::Closed, StepView::Finish(report))
}

/// How a command starts: `completions` needs neither settings nor the service; every other
/// command reads the settings first.
pub open spec fn first(command: CommandView) -> (SessionView, StepView) {
    match command {
        CommandView::Completions { shell } => (
            SessionView::WritingCompletions,
            StepView::Perform(RequestView::WriteCompletions(shell)),
        ),
        _ => (SessionView::LoadingConfig(command), StepView::Perform(RequestView::LoadConfig)),
    }
}

/// How `send` goes on once the settings are read and hold the key `api_key`.
///
/// The sender and the recipients are settled first. A message that forwards an email waits for
/// that email; any other message needs a subject, and takes its body from standard input where
/// that is asked for, else from the command line.
pub open spec fn send_with(api_key: Seq<char>, args: SendArgsView, config: AppConfigView) -> (
    SessionView,
    StepView,
) {
    match envelope_of(args.from, args.to, config.default_from, config.default_to) {
        Err(failure) => failed(failure),
        Ok(envelope) => match args.id {
            Some(id) => (
                SessionView::FetchingSource { api_key, envelope, subject: args.subject },
                remote(api_key, RemoteCallView::Get { mailbox: Mailbox::Received, id }),
            ),
            None => match args.subject {
                None => failed(FailureView::MissingSubject),
                Some(subject) => if args.from_stdin {
                    (
                        SessionView::ReadingBody { api_key, envelope, subject },
                        StepView::Perform(RequestView::ReadStdin),
                    )
                } else {
                    (
                        SessionView::Sending,
                        remote(
                            api_key,
                            RemoteCallView::Send(
                                direct_message(envelope, subject, args.html, args.text),
                            ),
                        ),
                    )
                },
            },
        },
    }
}

/// How `get` and `received-get` go on: with the identifier given, or else by asking for the
/// page that names the newest email.
pub open spec fn get_with(api_key: Seq<char>, mailbox: Mailbox, id: Option<Seq<char>>) -> (
    SessionView,
    StepView,
) {
    match id {
        Some(id) => (
            SessionView::Fetching { mailbox },
            remote(api_key, RemoteCallView::Get { mailbox, id }),
        ),
        None => (
            SessionView::FindingNewest { api_key, mailbox },
            remote(api_key, RemoteCallView::List(mailbox)),
        ),
    }
}

/// How a command goes on once the settings are read.
///
/// `config` stores what the command line gives over what was stored, and asks for the key only
/// where it then has none. Every other command needs a key, and fails without one.
pub open spec fn after_config(command: CommandView, config: AppConfigView) -> (
    SessionView,
    StepView,
) {
    match command {
        CommandView::Config { key, default_from, default_to } => {
            let merged = config.overlay(key, default_from, default_to);
            if merged.has_key() {
                (SessionView::SavingConfig, StepView::Perform(RequestView::SaveConfig(merged)))
            } else {
                (SessionView::ReadingKey(merged), StepView::Perform(RequestView::PromptKey))
            }
        },
        CommandView::Completions { shell } => first(command),
        _ => if !config.has_key() {
            failed(FailureView::MissingApiKey)
        } else {
            let api_key = config.api_key;
            match command {
                CommandView::Send(args) => send_with(api_key, args, config),
                CommandView::Batch { file } => (
                    SessionView::ReadingBatch { api_key },
                    StepView::Perform(RequestView::ReadFile(file)),
                ),
                CommandView::List { count } => (
                    SessionView::Listing { mailbox: Mailbox::Sent, limit: display_limit(count) },
                    remote(api_key, RemoteCallView::List(Mailbox::Sent)),
                ),
                CommandView::ReceivedList { count } => (
                    SessionView::Listing {
                        mailbox: Mailbox::Received,
                        limit: display_limit(count),
                    },
                    remote(api_key, RemoteCallView::List(Mailbox::Received)),
                ),
                CommandView::Get { id } => get_with(api_key, Mailbox::Sent, id),
                CommandView::ReceivedGet { id } => get_with(api_key, Mailbox::Received, id),
                CommandView::Update { id, scheduled_at } => (
                    SessionView::Updating,
                    remote(api_key, RemoteCallView::Update { id, scheduled_at }),
                ),
                CommandView::Cancel { id } => (
                    SessionView::Canceling,
                    remote(api_key, RemoteCallView::Cancel { id }),
                ),
                _ => failed(FailureView::Unexpected),
            }
        },
    }
}

/// The outside work that a session waits for, if it waits for any.
pub open spec fn pending(session: SessionView) -> Option<Stage> {
    match session {
        SessionView::LoadingConfig(_) => Some(Stage::LoadConfig),
        SessionView::ReadingKey(_) => Some(Stage::PromptKey),
        SessionView::SavingConfig => Some(Stage::SaveConfig),
        SessionView::ReadingBody { .. } => Some(Stage::ReadStdin),
        SessionView::FetchingSource { .. } => Some(Stage::GetReceived),
        SessionView::Sending => Some(Stage::Send),
        SessionView::ReadingBatch { .. } => Some(Stage::ReadBatchFile),
        SessionView::ParsingBatch { .. } => Some(Stage::ParseBatch),
        SessionView::SendingBatch => Some(Stage::SendBatch),
        SessionView::Listing { mailbox, .. } => Some(list_stage(mailbox)),
        SessionView::FindingNewest { mailbox, .. } => Some(list_stage(mailbox)),
        SessionView::Fetching { mailbox } => Some(get_stage(mailbox)),
        SessionView::Updating => Some(Stage::Update),
        SessionView::Canceling => Some(Stage::Cancel),
        SessionView::WritingCompletions => Some(Stage::Completions),
        SessionView::Closed => None,
    }
}

/// The stage of listing `mailbox`.
pub open spec fn list_stage(mailbox: Mailbox) -> Stage {
    match mailbox {
        Mailbox::Sent => Stage::ListSent,
        Mailbox::Received => Stage::ListReceived,
    }
}

/// The stage of fetching one email of `mailbox`.
pub open spec fn get_stage(mailbox: Mailbox) -> Stage {
    match mailbox {
        Mailbox::Sent => Stage::GetSent,
        Mailbox::Received => Stage::GetReceived,
    }
}

/// How a session goes on when the outside work it waited for has ended with `reply`.
///
/// A failure of the outside work ends the command, with the stage that failed and the cause.
/// A reply of a kind that the session does not wait for ends it too.
pub open spec fn next(session: SessionView, reply: ResponseView) -> (SessionView, StepView) {
    match (session, reply) {
        (_, ResponseView::Failed(cause)) => match pending(session) {
            Some(stage) => failed(FailureView::Outside { stage, cause }),
            None => failed(FailureView::Unexpected),
        },
        (SessionView::LoadingConfig(command), ResponseView::Config(file)) => after_config(
            command,
            loaded(file),
        ),
        (SessionView::ReadingKey(config), ResponseView::Text(line)) => (
            SessionView::SavingConfig,
            StepView::Perform(RequestView::SaveConfig(config.with_key(trimmed(line)))),
        ),
        (SessionView::SavingConfig, ResponseView::Done) => finished(ReportView::ConfigSaved),
        (SessionView::ReadingBody { api_key, envelope, subject }, ResponseView::Text(body)) => (
            SessionView::Sending,
            remote(
                api_key,
                RemoteCallView::Send(direct_message(envelope, subject, Some(body), None)),
            ),
        ),
        (
            SessionView::FetchingSource { api_key, envelope, subject },
            ResponseView::Email(source),
        ) => (
            SessionView::Sending,
            remote(api_key, RemoteCallView::Send(forward_message(envelope, subject, source))),
        ),
        (SessionView::Sending, ResponseView::Done) => finished(ReportView::Sent),
        (SessionView::ReadingBatch { api_key }, ResponseView::Text(content)) => (
            SessionView::ParsingBatch { api_key },
            StepView::Perform(RequestView::ParseBatch(content)),
        ),
        (SessionView::ParsingBatch { api_key }, ResponseView::Batch(records)) => match batch_outcome(
            records,
        ) {
            Ok(messages) => (
                SessionView::SendingBatch,
                remote(api_key, RemoteCallView::SendBatch(messages)),
            ),
            Err(failure) => failed(failure),
        },
        (SessionView::SendingBatch, ResponseView::Done) => finished(ReportView::BatchSent),
        (SessionView::Listing { mailbox, limit }, ResponseView::Emails(records)) => finished(
            ReportView::Listing(shown(records, limit)),
        ),
        (SessionView::FindingNewest { api_key, mailbox }, ResponseView::Emails(records)) => if records.len()
            == 0 {
            failed(FailureView::NoEmails)
        } else {
            (
                SessionView::Fetching { mailbox },
                remote(api_key, RemoteCallView::Get { mailbox, id: records[0].id }),
            )
        },
        (SessionView::Fetching { mailbox }, ResponseView::Email(record)) => finished(
            ReportView::Email { record, body: body_of(record) },
        ),
        (SessionView::Updating, ResponseView::Id(id)) => finished(ReportView::Updated(id)),
        (SessionView::Canceling, ResponseView::Id(id)) => finished(ReportView::Canceled(id)),
        (SessionView::WritingCompletions, ResponseView::Done) => finished(
            ReportView::CompletionsWritten,
        ),
        _ => failed(FailureView::Unexpected),
    }
}

fn remote_step(api_key: String, call: RemoteCall) -> (r: Step)
    ensures
        r.deep_view() == remote(api_key@, call.deep_view()),
{
    Step::Perform(Request::Remote { api_key, call })
}

fn fail(failure: Failure) -> (r: (Session, Step))
    ensures
        (r.0.deep_view(), r.1.deep_view()) == failed(failure.deep_view()),
{
    (Session::Closed, Step::Fail(failure))
}

fn finish(report: Report) -> (r: (Session, Step))
    ensures
        (r.0.deep_view(), r.1.deep_view()) == finished(report.deep_view()),
{
    (Session::Closed, Step::Finish(report))
}

fn list_stage_of(mailbox: Mailbox) -> (r: Stage)
    ensures
        r == list_stage(mailbox),
{
    match mailbox {
        Mailbox::Sent => Stage::ListSent,
        Mailbox::Received => Stage::ListReceived,
    }
}

fn get_stage_of(mailbox: Mailbox) -> (r: Stage)
    ensures
        r == get_stage(mailbox),
{
    match mailbox {
        Mailbox::Sent => Stage::GetSent,
        Mailbox::Received => Stage::GetReceived,
    }
}

fn send_step(api_key: String, args: SendArgs, config: AppConfig) -> (r: (Session, Step))
    ensures
        (r.0.deep_view(), r.1.deep_view()) == send_with(
            api_key@,
            args.deep_view(),
            config.deep_view(),
        ),
{
    let envelope = match resolve_envelope(
        args.from,
        args.to,
        config.default_from,
        config.default_to,
    ) {
        Ok(envelope) => envelope,
        Err(failure) => { return fail(failure); },
    };
    match args.id {
        Some(id) => {
            let step = remote_step(
                api_key.clone(),
                RemoteCall::Get { mailbox: Mailbox::Received, id },
            );
            (Session::FetchingSource { api_key, envelope, subject: args.subject }, step)
        },
        None => match args.subject {
            None => fail(Failure::MissingSubject),
            Some(subject) => if args.from_stdin {
                (
                    Session::ReadingBody { api_key, envelope, subject },
                    Step::Perform(Request::ReadStdin),
                )
            } else {
                let message = envelope.direct(subject, args.html, args.text);
                (Session::Sending, remote_step(api_key, RemoteCall::Send(message)))
            },
        },
    }
}

fn get_step(api_key: String, mailbox: Mailbox, id: Option<String>) -> (r: (Session, Step))
    ensures
        (r.0.deep_view(), r.1.deep_view()) == get_with(api_key@, mailbox, id.deep_view()),
{
    match id {
        Some(id) => (
            Session::Fetching { mailbox },
            remote_step(api_key, RemoteCall::Get { mailbox, id }),
        ),
        None => {
            let step = remote_step(api_key.clone(), RemoteCall::List(mailbox));
            (Session::FindingNewest { api_key, mailbox }, step)
        },
    }
}

fn config_step(command: Command, config: AppConfig) -> (r: (Session, Step))
    ensures
        (r.0.deep_view(), r.1.deep_view()) == after_config(
            command.deep_view(),
            config.deep_view(),
        ),
{
    match command {
        Command::Config { key, default_from, default_to } => {
            let merged = config.overlay(key, default_from, default_to);
            if merged.has_key() {
                (Session::SavingConfig, Step::Perform(Request::SaveConfig(merged)))
            } else {
                (Session::ReadingKey(merged), Step::Perform(Request::PromptKey))
            }
        },
        Command::Completions { shell } => (
            Session::WritingCompletions,
            Step::Perform(Request::WriteCompletions(shell)),
        ),
        command => {
            if !config.has_key() {
                return fail(Failure::MissingApiKey);
            }
            let api_key = config.api_key.clone();
            match command {
                Command::Send(args) => send_step(api_key, args, config),
                Command::Batch { file } => (
                    Session::ReadingBatch { api_key },
                    Step::Perform(Request::ReadFile(file)),
                ),
                Command::List { count } => (
                    Session::Listing { mailbox: Mailbox::Sent, limit: limit_of(count) },
                    remote_step(api_key, RemoteCall::List(Mailbox::Sent)),
                ),
                Command::ReceivedList { count } => (
                    Session::Listing { mailbox: Mailbox::Received, limit: limit_of(count) },
                    remote_step(api_key, RemoteCall::List(Mailbox::Received)),
                ),
                Command::Get { id } => get_step(api_key, Mailbox::Sent, id),
                Command::ReceivedGet { id } => get_step(api_key, Mailbox::Received, id),
                Command::Update { id, scheduled_at } => (
                    Session::Updating,
                    remote_step(api_key, RemoteCall::Update { id, scheduled_at }),
                ),
                Command::Cancel { id } => (
                    Session::Canceling,
                    remote_step(api_key, RemoteCall::Cancel { id }),
                ),
                _ => fail(Failure::Unexpected),
            }
        },
    }
}

impl Session {
    /// The outside work that the session waits for, if it waits for any.
    pub fn pending(&self) -> (r: Option<Stage>)
        ensures
            r == pending(self.deep_view()),
    {
        match self {
            Session::LoadingConfig(_) => Some(Stage::LoadConfig),
            Session::ReadingKey(_) => Some(Stage::PromptKey),
            Session::SavingConfig => Some(Stage::SaveConfig),
            Session::ReadingBody { .. } => Some(Stage::ReadStdin),
            Session::FetchingSource { .. } => Some(Stage::GetReceived),
            Session::Sending => Some(Stage::Send),
            Session::ReadingBatch { .. } => Some(Stage::ReadBatchFile),
            Session::ParsingBatch { .. } => Some(Stage::ParseBatch),
            Session::SendingBatch => Some(Stage::SendBatch),
            Session::Listing { mailbox, .. } => Some(list_stage_of(*mailbox)),
            Session::FindingNewest { mailbox, .. } => Some(list_stage_of(*mailbox)),
            Session::Fetching { mailbox } => Some(get_stage_of(*mailbox)),
            Session::Updating => Some(Stage::Update),
            Session::Canceling => Some(Stage::Cancel),
            Session::WritingCompletions => Some(Stage::Completions),
            Session::Closed => None,
        }
    }

    /// Starts `command`: gives the session and the first step.
    pub fn begin(command: Command) -> (r: (Session, Step))
        ensures
            (r.0.deep_view(), r.1.deep_view()) == first(command.deep_view()),
    {
        match command {
            Command::Completions { shell } => (
                Session::WritingCompletions,
                Step::Perform(Request::WriteCompletions(shell)),
            ),
            command => (Session::LoadingConfig(command), Step::Perform(Request::LoadConfig)),
        }
    }

    /// Takes the outcome of the outside work that the session waited for, and gives the
    /// session as it then stands and the next step.
    pub fn advance(self, reply: Response) -> (r: (Session, Step))
        ensures
            (r.0.deep_view(), r.1.deep_view()) == next(self.deep_view(), reply.deep_view()),
    {
        match (self, reply) {
            (session, Response::Failed(cause)) => match session.pending() {
                Some(stage) => fail(Failure::Outside { stage, cause }),
                None => fail(Failure::Unexpected),
            },
            (Session::LoadingConfig(command), Response::Config(file)) => config_step(
                command,
                load_config(file),
            ),
            (Session::ReadingKey(config), Response::Text(line)) => {
                let key = trim(line.as_str());
                (Session::SavingConfig, Step::Perform(Request::SaveConfig(config.with_key(key))))
            },
            (Session::SavingConfig, Response::Done) => finish(Report::ConfigSaved),
            (Session::ReadingBody { api_key, envelope, subject }, Response::Text(body)) => {
                let message = envelope.direct(subject, Some(body), None);
                (Session::Sending, remote_step(api_key, RemoteCall::Send(message)))
            },
            (Session::FetchingSource { api_key, envelope, subject }, Response::Email(source)) => {
                let message = envelope.forward(subject, source);
                (Session::Sending, remote_step(api_key, RemoteCall::Send(message)))
            },
            (Session::Sending, Response::Done) => finish(Report::Sent),
            (Session::ReadingBatch { api_key }, Response::Text(content)) => (
                Session::ParsingBatch { api_key },
                Step::Perform(Request::ParseBatch(content)),
            ),
            (Session::ParsingBatch { api_key }, Response::Batch(records)) => match batch_messages(
                records,
            ) {
                Ok(messages) => (
                    Session::SendingBatch,
                    remote_step(api_key, RemoteCall::SendBatch(messages)),
                ),
                Err(failure) => fail(failure),
            },
            (Session::SendingBatch, Response::Done) => finish(Report::BatchSent),
            (Session::Listing { mailbox, limit }, Response::Emails(records)) => finish(
                Report::Listing(truncate(records, limit)),
            ),
            (Session::FindingNewest { api_key, mailbox }, Response::Emails(records)) => {
                match newest_id(records) {
                    None => fail(Failure::NoEmails),
                    Some(id) => (
                        Session::Fetching { mailbox },
                        remote_step(api_key, RemoteCall::Get { mailbox, id }),
                    ),
                }
            },
            (Session::Fetching { mailbox }, Response::Email(record)) => {
                let body = record.body();
                finish(Report::Email { record, body })
            },
            (Session::Updating, Response::Id(id)) => finish(Report::Updated(id)),
            (Session::Canceling, Response::Id(id)) => finish(Report::Canceled(id)),
            (Session::WritingCompletions, Response::Done) => finish(Report::CompletionsWritten),
            _ => fail(Failure::Unexpected),
        }
    }
}

/// Whether every key that the session keeps for later calls is set.
pub open spec fn keyed(session: SessionView) -> bool {
    match session {
        SessionView::ReadingBody { api_key, .. } => api_key.len() > 0,
        SessionView::FetchingSource { api_key, .. } => api_key.len() > 0,
        SessionView::ReadingBatch { api_key } => api_key.len() > 0,
        SessionView::ParsingBatch { api_key } => api_key.len() > 0,
        SessionView::FindingNewest { api_key, .. } => api_key.len() > 0,
        _ => true,
    }
}

/// Whether `step` calls the service.
pub open spec fn is_remote(step: StepView) -> bool {
    step matches StepView::Perform(RequestView::Remote { .. })
}

/// Whether `step` calls the service without a key.
pub open spec fn is_remote_without_key(step: StepView) -> bool {
    step matches StepView::Perform(RequestView::Remote { api_key, .. }) && api_key.len() == 0
}

/// No command starts with a call to the service, and a fresh session keeps no key.
pub proof fn law_no_call_before_settings(command: CommandView)
    ensures
        keyed(first(command).0),
        !is_remote(first(command).1),
{
}

/// The service is never called without a key: a session whose kept keys are set keeps only set
/// keys after any reply, and its next step, where that is a call, carries a set key.
pub proof fn law_calls_carry_a_key(session: SessionView, reply: ResponseView)
    requires
        keyed(session),
    ensures
        keyed(next(session, reply).0),
        !is_remote_without_key(next(session, reply).1),
{
}

/// The key of the first call to the service is the key that the settings file stands for.
pub proof fn law_first_call_uses_stored_key(
    command: CommandView,
    file: ConfigFileView,
)
    ensures
        next(SessionView::LoadingConfig(command), ResponseView::Config(file)).1 matches StepView::Perform(
            RequestView::Remote { api_key, .. },
        ) ==> api_key == loaded(file).api_key,
{
}

/// Without a stored key, every command but `config` and `completions` fails once the settings
/// are read, before anything else is asked for.
pub proof fn law_key_is_required(command: CommandView, file: ConfigFileView)
    requires
        !(command is Config),
        !(command is Completions),
        !loaded(file).has_key(),
    ensures
        next(SessionView::LoadingConfig(command), ResponseView::Config(file)) == failed(
            FailureView::MissingApiKey,
        ),
{
}

/// A session is closed exactly when its last step asks for no more outside work, and a
/// closed session answers every reply with a failure.
pub proof fn law_closed_is_final(session: SessionView, reply: ResponseView)
    ensures
        next(session, reply).0 is Closed <==> !(next(session, reply).1 is Perform),
        session is Closed ==> next(session, reply) == failed(FailureView::Unexpected),
{
}

/// Every command starts open, with outside work to do.
pub proof fn law_commands_start_open(command: CommandView)
    ensures
        !(first(command).0 is Closed),
        first(command).1 is Perform,
{
}

/// Outside work that fails ends the command, with the stage that the session waited for and
/// the cause as it was reported.
pub proof fn law_outside_failure_ends_command(session: SessionView, cause: Seq<char>)
    requires
        !(session is Closed),
    ensures
        pending(session) is Some,
        next(session, ResponseView::Failed(cause)) == failed(
            FailureView::Outside { stage: pending(session)->0, cause },
        ),
{
}

/// `completions` asks for nothing but the script: neither the settings nor the service.
pub proof fn law_completions_stand_alone(shell: Seq<char>)
    ensures
        first(CommandView::Completions { shell }) == (
            SessionView::WritingCompletions,
            StepView::Perform(RequestView::WriteCompletions(shell)),
        ),
        next(SessionView::WritingCompletions, ResponseView::Done) == finished(
            ReportView::CompletionsWritten,
        ),
{
}

/// What the command line gives wins over the stored default, field by field: with a sender on
/// the command line and recipients only in the settings, `send` settles on the former as the
/// sender and on the addresses of the latter as the recipients, whatever else it is given.
pub proof fn law_send_precedence(
    api_key: Seq<char>,
    args: SendArgsView,
    config: AppConfigView,
    sender: Seq<char>,
    recipients: Seq<char>,
)
    requires
        args.from == Some(sender),
        args.to is None,
        config.default_to == Some(recipients),
    ensures
        envelope_of(args.from, args.to, config.default_from, config.default_to) == Ok::<
            EnvelopeView,
            FailureView,
        >(EnvelopeView { from: sender, to: address_list(recipients) }),
        send_with(api_key, args, config).1 matches StepView::Perform(
            RequestView::Remote { call: RemoteCallView::Send(message), .. },
        ) ==> message.from == sender && message.to == address_list(recipients),
        send_with(api_key, args, config).0 matches SessionView::ReadingBody { envelope, .. }
            ==> envelope.from == sender && envelope.to == address_list(recipients),
        send_with(api_key, args, config).0 matches SessionView::FetchingSource { envelope, .. }
            ==> envelope.from == sender && envelope.to == address_list(recipients),
{
}

/// A message goes out from the sender to the recipients that `send` settled on, also where
/// its body comes from standard input or from a forwarded email.
pub proof fn law_message_keeps_envelope(session: SessionView, reply: ResponseView)
    requires
        session is ReadingBody || session is FetchingSource,
    ensures
        next(session, reply).1 matches StepView::Perform(
            RequestView::Remote { call: RemoteCallView::Send(message), .. },
        ) ==> {
            &&& session matches SessionView::ReadingBody { envelope, .. } ==> message.from
                == envelope.from && message.to == envelope.to
            &&& session matches SessionView::FetchingSource { envelope, .. } ==> message.from
                == envelope.from && message.to == envelope.to
        },
{
}

/// `send` with the identifier of a received email and no subject fetches that email, and
/// then submits a message with the bodies of that email and with its subject behind `Fwd: `.
pub proof fn law_forward_subject(
    api_key: Seq<char>,
    args: SendArgsView,
    config: AppConfigView,
    envelope: EnvelopeView,
    id: Seq<char>,
    source: EmailRecordView,
)
    requires
        envelope_of(args.from, args.to, config.default_from, config.default_to) == Ok::<
            EnvelopeView,
            FailureView,
        >(envelope),
        args.id == Some(id),
        args.subject is None,
    ensures
        send_with(api_key, args, config) == (
            SessionView::FetchingSource { api_key, envelope, subject: None },
            remote(api_key, RemoteCallView::Get { mailbox: Mailbox::Received, id }),
        ),
        next(
            SessionView::FetchingSource { api_key, envelope, subject: None },
            ResponseView::Email(source),
        ) == (
            SessionView::Sending,
            remote(
                api_key,
                RemoteCallView::Send(
                    EmailMessageView {
                        from: envelope.from,
                        to: envelope.to,
                        subject: "Fwd: "@ + source.subject,
                        html: source.html,
                        text: source.text,
                    },
                ),
            ),
        ),
{
}

/// Without an identifier, `get` and `received-get` fetch the first email of the page that the
/// service returns, and where that page is empty they fail without fetching anything.
pub proof fn law_resolve_newest(
    api_key: Seq<char>,
    mailbox: Mailbox,
    records: Seq<EmailRecordView>,
)
    ensures
        get_with(api_key, mailbox, None) == (
            SessionView::FindingNewest { api_key, mailbox },
            remote(api_key, RemoteCallView::List(mailbox)),
        ),
        records.len() > 0 ==> next(
            SessionView::FindingNewest { api_key, mailbox },
            ResponseView::Emails(records),
        ) == (
            SessionView::Fetching { mailbox },
            remote(api_key, RemoteCallView::Get { mailbox, id: records[0].id }),
        ),
        records.len() == 0 ==> next(
            SessionView::FindingNewest { api_key, mailbox },
            ResponseView::Emails(records),
        ) == failed(FailureView::NoEmails),
{
}

/// An identifier that is given is used as it is, with no look at the mailbox.
pub proof fn law_given_id_is_kept(api_key: Seq<char>, mailbox: Mailbox, id: Seq<char>)
    ensures
        get_with(api_key, mailbox, Some(id)) == (
            SessionView::Fetching { mailbox },
            remote(api_key, RemoteCallView::Get { mailbox, id }),
        ),
{
}

/// A batch goes out whole or not at all: where any record lacks a required field, the command
/// ends with that failure and the service is not called.
pub proof fn law_batch_is_atomic(
    api_key: Seq<char>,
    records: Seq<BatchEmailInputView>,
    i: int,
)
    requires
        0 <= i < records.len(),
        records[i].missing() is Some,
    ensures
        next(SessionView::ParsingBatch { api_key }, ResponseView::Batch(records)).0 is Closed,
        next(
            SessionView::ParsingBatch { api_key },
            ResponseView::Batch(records),
        ).1 matches StepView::Fail(FailureView::IncompleteBatch { index, field }) && 0 <= index <= i
            && records[index].missing() == Some(field),
{
    lemma_first_incomplete(records);
}

/// A batch of complete records goes out as one call that holds one message for each record,
/// in the order of the file.
pub proof fn law_complete_batch_is_sent(
    api_key: Seq<char>,
    records: Seq<BatchEmailInputView>,
)
    requires
        forall|i: int| 0 <= i < records.len() ==> (#[trigger] records[i]).missing() is None,
    ensures
        next(SessionView::ParsingBatch { api_key }, ResponseView::Batch(records)) == (
            SessionView::SendingBatch,
            remote(
                api_key,
                RemoteCallView::SendBatch(
                    records.map_values(|record: BatchEmailInputView| record.message()),
                ),
            ),
        ),
{
    lemma_first_incomplete(records);
}

/// A listing shows the first emails of the page, ten where no count is given, and never more
/// than the page holds.
pub proof fn law_listing_is_cut(
    mailbox: Mailbox,
    count: Option<usize>,
    records: Seq<EmailRecordView>,
)
    ensures
        next(
            SessionView::Listing { mailbox, limit: display_limit(count) },
            ResponseView::Emails(records),
        ) == finished(ReportView::Listing(shown(records, display_limit(count)))),
        count is None ==> display_limit(count) == 10,
        shown(records, display_limit(count)).len() <= records.len(),
        shown(records, display_limit(count)).len() <= display_limit(count),
        forall|i: int|
            0 <= i < shown(records, display_limit(count)).len() ==> shown(
                records,
                display_limit(count),
            )[i] == records[i],
{
}

} // verus!
