use rusend::command::{Command, SendArgs};
use rusend::config::{AppConfig, ConfigFile};
use rusend::failure::{Failure, Field, Stage};
use rusend::mailbox::{Body, EmailRecord, Mailbox};
use rusend::message::{BatchEmailInput, EmailMessage, Envelope};
use rusend::protocol::{RemoteCall, Report, Request, Response, Step};
use rusend::session::Session;

fn s(text: &str) -> String {
    text.to_string()
}

fn some(text: &str) -> Option<String> {
    Some(text.to_string())
}

fn stored(key: &str, from: Option<&str>, to: Option<&str>) -> Response {
    Response::Config(ConfigFile::Present {
        content: s("{}"),
        parsed: Some(AppConfig {
            api_key: s(key),
            default_from: from.map(s),
            default_to: to.map(s),
        }),
    })
}

fn send_args() -> SendArgs {
    SendArgs {
        from: None,
        to: None,
        subject: None,
        html: None,
        text: None,
        from_stdin: false,
        id: None,
    }
}

fn mail(id: &str, subject: &str, html: Option<&str>, text: Option<&str>) -> EmailRecord {
    EmailRecord {
        id: s(id),
        created_at: s("2024-08-05T11:52:01.858Z"),
        from: s("c@z.com"),
        to: vec![s("me@x.com")],
        subject: s(subject),
        html: html.map(s),
        text: text.map(s),
    }
}

fn batch_record(subject: Option<&str>) -> BatchEmailInput {
    BatchEmailInput {
        from: some("a@x.com"),
        to: Some(vec![s("b@y.com")]),
        subject: subject.map(s),
        html: None,
        text: some("t"),
    }
}

fn call(key: &str, call: RemoteCall) -> Step {
    Step::Perform(Request::Remote { api_key: s(key), call })
}

/// Starts `command` and hands it the settings `config`.
fn with_settings(command: Command, config: Response) -> (Session, Step) {
    let (session, step) = Session::begin(command);
    assert_eq!(step, Step::Perform(Request::LoadConfig));
    session.advance(config)
}

#[test]
fn every_command_but_completions_loads_the_settings_first() {
    for command in [
        Command::Config { key: None, default_from: None, default_to: None },
        Command::Send(send_args()),
        Command::Batch { file: s("b.json") },
        Command::List { count: None },
        Command::Get { id: None },
        Command::Update { id: s("e"), scheduled_at: None },
        Command::Cancel { id: s("e") },
        Command::ReceivedList { count: Some(2) },
        Command::ReceivedGet { id: some("e") },
    ] {
        let (session, step) = Session::begin(command.clone());
        assert_eq!(session, Session::LoadingConfig(command));
        assert_eq!(step, Step::Perform(Request::LoadConfig));
    }
}

#[test]
fn completions_need_no_settings_and_no_service() {
    let (session, step) = Session::begin(Command::Completions { shell: s("zsh") });
    assert_eq!(session, Session::WritingCompletions);
    assert_eq!(step, Step::Perform(Request::WriteCompletions(s("zsh"))));
    assert_eq!(
        session.advance(Response::Done),
        (Session::Closed, Step::Finish(Report::CompletionsWritten))
    );
}

#[test]
fn config_with_a_key_saves_at_once() {
    let command = Command::Config { key: some("re_new"), default_from: None, default_to: None };
    let (session, step) = with_settings(command, stored("re_old", Some("a@x.com"), None));
    assert_eq!(session, Session::SavingConfig);
    assert_eq!(
        step,
        Step::Perform(Request::SaveConfig(AppConfig {
            api_key: s("re_new"),
            default_from: some("a@x.com"),
            default_to: None,
        }))
    );
    assert_eq!(
        session.advance(Response::Done),
        (Session::Closed, Step::Finish(Report::ConfigSaved))
    );
}

#[test]
fn config_keeps_the_stored_key_and_adds_defaults() {
    let command =
        Command::Config { key: None, default_from: some("n@x.com"), default_to: some("t@y.com") };
    let (session, step) = with_settings(command, stored("re_old", Some("a@x.com"), None));
    assert_eq!(session, Session::SavingConfig);
    assert_eq!(
        step,
        Step::Perform(Request::SaveConfig(AppConfig {
            api_key: s("re_old"),
            default_from: some("n@x.com"),
            default_to: some("t@y.com"),
        }))
    );
}

#[test]
fn config_without_any_key_asks_for_it() {
    let command = Command::Config { key: None, default_from: some("a@x.com"), default_to: None };
    let (session, step) = with_settings(command, Response::Config(ConfigFile::Missing));
    assert_eq!(step, Step::Perform(Request::PromptKey));
    let (session, step) = session.advance(Response::Text(s("  re_typed \n")));
    assert_eq!(session, Session::SavingConfig);
    assert_eq!(
        step,
        Step::Perform(Request::SaveConfig(AppConfig {
            api_key: s("re_typed"),
            default_from: some("a@x.com"),
            default_to: None,
        }))
    );
}

#[test]
fn config_reads_a_bare_key_file() {
    let command = Command::Config { key: None, default_from: None, default_to: some("t@y.com") };
    let file = ConfigFile::Present { content: s("re_abc123\n"), parsed: None };
    let (_, step) = with_settings(command, Response::Config(file));
    assert_eq!(
        step,
        Step::Perform(Request::SaveConfig(AppConfig {
            api_key: s("re_abc123"),
            default_from: None,
            default_to: some("t@y.com"),
        }))
    );
}

#[test]
fn commands_fail_without_a_key() {
    for command in [
        Command::Send(send_args()),
        Command::Batch { file: s("b.json") },
        Command::List { count: None },
        Command::Get { id: some("e") },
        Command::Update { id: s("e"), scheduled_at: None },
        Command::Cancel { id: s("e") },
        Command::ReceivedList { count: None },
        Command::ReceivedGet { id: None },
    ] {
        assert_eq!(
            with_settings(command.clone(), Response::Config(ConfigFile::Missing)),
            (Session::Closed, Step::Fail(Failure::MissingApiKey))
        );
        assert_eq!(
            with_settings(command, stored("", Some("a@x.com"), Some("b@y.com"))),
            (Session::Closed, Step::Fail(Failure::MissingApiKey))
        );
    }
}

#[test]
fn send_uses_flag_sender_and_default_recipients() {
    let args = SendArgs { from: some("C_F"), subject: some("S"), text: some("t"), ..send_args() };
    let (session, step) = with_settings(Command::Send(args), stored("re_1", Some("D_F"), Some("D_T")));
    assert_eq!(session, Session::Sending);
    assert_eq!(
        step,
        call(
            "re_1",
            RemoteCall::Send(EmailMessage {
                from: s("C_F"),
                to: vec![s("D_T")],
                subject: s("S"),
                html: None,
                text: some("t"),
            })
        )
    );
    assert_eq!(session.advance(Response::Done), (Session::Closed, Step::Finish(Report::Sent)));
}

#[test]
fn send_splits_the_recipients() {
    let args = SendArgs {
        from: some("a@x.com"),
        to: some("a@x.com, b@y.com ,,c@z.com"),
        subject: some("S"),
        html: some("<p>h</p>"),
        text: some("t"),
        ..send_args()
    };
    let (_, step) = with_settings(Command::Send(args), stored("re_1", None, None));
    assert_eq!(
        step,
        call(
            "re_1",
            RemoteCall::Send(EmailMessage {
                from: s("a@x.com"),
                to: vec![s("a@x.com"), s("b@y.com"), s("c@z.com")],
                subject: s("S"),
                html: some("<p>h</p>"),
                text: None,
            })
        )
    );
}

#[test]
fn send_needs_sender_recipients_and_subject() {
    let no_sender = SendArgs { to: some("b@y.com"), subject: some("S"), ..send_args() };
    assert_eq!(
        with_settings(Command::Send(no_sender), stored("re_1", None, None)),
        (Session::Closed, Step::Fail(Failure::MissingFrom))
    );
    let no_recipient = SendArgs { from: some("a@x.com"), subject: some("S"), ..send_args() };
    assert_eq!(
        with_settings(Command::Send(no_recipient), stored("re_1", None, None)),
        (Session::Closed, Step::Fail(Failure::MissingTo))
    );
    let no_subject = SendArgs { from: some("a@x.com"), to: some("b@y.com"), ..send_args() };
    assert_eq!(
        with_settings(Command::Send(no_subject), stored("re_1", None, None)),
        (Session::Closed, Step::Fail(Failure::MissingSubject))
    );
}

#[test]
fn send_reads_the_body_from_standard_input() {
    let args = SendArgs {
        subject: some("S"),
        html: some("<p>ignored</p>"),
        text: some("ignored"),
        from_stdin: true,
        ..send_args()
    };
    let (session, step) =
        with_settings(Command::Send(args), stored("re_1", Some("a@x.com"), Some("b@y.com")));
    assert_eq!(step, Step::Perform(Request::ReadStdin));
    assert_eq!(
        session,
        Session::ReadingBody {
            api_key: s("re_1"),
            envelope: Envelope { from: s("a@x.com"), to: vec![s("b@y.com")] },
            subject: s("S"),
        }
    );
    let (session, step) = session.advance(Response::Text(s("<h1>typed</h1>\n")));
    assert_eq!(session, Session::Sending);
    assert_eq!(
        step,
        call(
            "re_1",
            RemoteCall::Send(EmailMessage {
                from: s("a@x.com"),
                to: vec![s("b@y.com")],
                subject: s("S"),
                html: some("<h1>typed</h1>\n"),
                text: None,
            })
        )
    );
}

#[test]
fn forward_without_subject_gets_fwd_subject() {
    let args = SendArgs { id: some("E1"), to: some("b@y.com"), ..send_args() };
    let (session, step) =
        with_settings(Command::Send(args), stored("re_1", Some("a@x.com"), None));
    assert_eq!(
        step,
        call("re_1", RemoteCall::Get { mailbox: Mailbox::Received, id: s("E1") })
    );
    let (session, step) =
        session.advance(Response::Email(mail("E1", "Hello", Some("<p>x</p>"), Some("x"))));
    assert_eq!(session, Session::Sending);
    assert_eq!(
        step,
        call(
            "re_1",
            RemoteCall::Send(EmailMessage {
                from: s("a@x.com"),
                to: vec![s("b@y.com")],
                subject: s("Fwd: Hello"),
                html: some("<p>x</p>"),
                text: some("x"),
            })
        )
    );
    assert_eq!(session.advance(Response::Done), (Session::Closed, Step::Finish(Report::Sent)));
}

#[test]
fn forward_keeps_a_subject_from_the_command_line() {
    let args = SendArgs {
        id: some("E1"),
        subject: some("See this"),
        html: some("<p>ignored</p>"),
        from_stdin: true,
        ..send_args()
    };
    let (session, _) =
        with_settings(Command::Send(args), stored("re_1", Some("a@x.com"), Some("b@y.com")));
    let (_, step) = session.advance(Response::Email(mail("E1", "Hello", None, Some("x"))));
    assert_eq!(
        step,
        call(
            "re_1",
            RemoteCall::Send(EmailMessage {
                from: s("a@x.com"),
                to: vec![s("b@y.com")],
                subject: s("See this"),
                html: None,
                text: some("x"),
            })
        )
    );
}

#[test]
fn forward_fails_when_the_email_cannot_be_fetched() {
    let args = SendArgs { id: some("E1"), ..send_args() };
    let (session, _) =
        with_settings(Command::Send(args), stored("re_1", Some("a@x.com"), Some("b@y.com")));
    assert_eq!(
        session.advance(Response::Failed(s("404"))),
        (
            Session::Closed,
            Step::Fail(Failure::Outside { stage: Stage::GetReceived, cause: s("404") })
        )
    );
}

#[test]
fn batch_reads_parses_and_sends_once() {
    let (session, step) =
        with_settings(Command::Batch { file: s("mails.json") }, stored("re_1", None, None));
    assert_eq!(session, Session::ReadingBatch { api_key: s("re_1") });
    assert_eq!(step, Step::Perform(Request::ReadFile(s("mails.json"))));
    let (session, step) = session.advance(Response::Text(s("[ ... ]")));
    assert_eq!(session, Session::ParsingBatch { api_key: s("re_1") });
    assert_eq!(step, Step::Perform(Request::ParseBatch(s("[ ... ]"))));
    let records = vec![batch_record(Some("One")), batch_record(Some("Two"))];
    let (session, step) = session.advance(Response::Batch(records));
    assert_eq!(session, Session::SendingBatch);
    let message = |subject: &str| EmailMessage {
        from: s("a@x.com"),
        to: vec![s("b@y.com")],
        subject: s(subject),
        html: None,
        text: some("t"),
    };
    assert_eq!(step, call("re_1", RemoteCall::SendBatch(vec![message("One"), message("Two")])));
    assert_eq!(
        session.advance(Response::Done),
        (Session::Closed, Step::Finish(Report::BatchSent))
    );
}

#[test]
fn batch_with_second_of_three_without_subject_sends_nothing() {
    let (session, _) =
        with_settings(Command::Batch { file: s("mails.json") }, stored("re_1", None, None));
    let (session, _) = session.advance(Response::Text(s("[ ... ]")));
    let records = vec![batch_record(Some("One")), batch_record(None), batch_record(Some("Three"))];
    let (session, step) = session.advance(Response::Batch(records));
    assert_eq!(session, Session::Closed);
    assert_eq!(step, Step::Fail(Failure::IncompleteBatch { index: 1, field: Field::Subject }));
    assert_eq!(
        session.advance(Response::Done),
        (Session::Closed, Step::Fail(Failure::Unexpected))
    );
}

#[test]
fn batch_fails_when_the_file_is_no_json() {
    let (session, _) =
        with_settings(Command::Batch { file: s("mails.json") }, stored("re_1", None, None));
    let (session, _) = session.advance(Response::Text(s("not json")));
    assert_eq!(
        session.advance(Response::Failed(s("expected value at line 1"))),
        (
            Session::Closed,
            Step::Fail(Failure::Outside {
                stage: Stage::ParseBatch,
                cause: s("expected value at line 1"),
            })
        )
    );
}

#[test]
fn batch_fails_when_the_file_cannot_be_read() {
    let (session, _) =
        with_settings(Command::Batch { file: s("mails.json") }, stored("re_1", None, None));
    assert_eq!(
        session.advance(Response::Failed(s("No such file"))),
        (
            Session::Closed,
            Step::Fail(Failure::Outside { stage: Stage::ReadBatchFile, cause: s("No such file") })
        )
    );
}

#[test]
fn list_cuts_the_page_to_ten() {
    let page: Vec<EmailRecord> =
        (0..15).map(|i| mail(&format!("em_{}", i), "S", None, None)).collect();
    let (session, step) = with_settings(Command::List { count: None }, stored("re_1", None, None));
    assert_eq!(session, Session::Listing { mailbox: Mailbox::Sent, limit: 10 });
    assert_eq!(step, call("re_1", RemoteCall::List(Mailbox::Sent)));
    assert_eq!(
        session.advance(Response::Emails(page.clone())),
        (Session::Closed, Step::Finish(Report::Listing(page[..10].to_vec())))
    );
}

#[test]
fn received_list_cuts_the_page_to_the_count() {
    let page: Vec<EmailRecord> =
        (0..4).map(|i| mail(&format!("in_{}", i), "S", None, None)).collect();
    let (session, step) =
        with_settings(Command::ReceivedList { count: Some(3) }, stored("re_1", None, None));
    assert_eq!(session, Session::Listing { mailbox: Mailbox::Received, limit: 3 });
    assert_eq!(step, call("re_1", RemoteCall::List(Mailbox::Received)));
    assert_eq!(
        session.advance(Response::Emails(page.clone())),
        (Session::Closed, Step::Finish(Report::Listing(page[..3].to_vec())))
    );
}

#[test]
fn list_shows_a_short_page_whole() {
    let page = vec![mail("em_1", "S", None, None)];
    let (session, _) = with_settings(Command::List { count: Some(5) }, stored("re_1", None, None));
    assert_eq!(
        session.advance(Response::Emails(page.clone())),
        (Session::Closed, Step::Finish(Report::Listing(page)))
    );
}

#[test]
fn get_with_an_id_fetches_it() {
    let (session, step) =
        with_settings(Command::Get { id: some("em_7") }, stored("re_1", None, None));
    assert_eq!(session, Session::Fetching { mailbox: Mailbox::Sent });
    assert_eq!(step, call("re_1", RemoteCall::Get { mailbox: Mailbox::Sent, id: s("em_7") }));
    let record = mail("em_7", "S", Some("<p>h</p>"), None);
    assert_eq!(
        session.advance(Response::Email(record.clone())),
        (Session::Closed, Step::Finish(Report::Email { record, body: Body::HtmlOnly }))
    );
}

#[test]
fn get_without_id_fetches_the_first_of_the_list() {
    let (session, step) = with_settings(Command::Get { id: None }, stored("re_1", None, None));
    assert_eq!(session, Session::FindingNewest { api_key: s("re_1"), mailbox: Mailbox::Sent });
    assert_eq!(step, call("re_1", RemoteCall::List(Mailbox::Sent)));
    let page = vec![mail("em_1", "A", None, None), mail("em_0", "B", None, None)];
    let (session, step) = session.advance(Response::Emails(page));
    assert_eq!(session, Session::Fetching { mailbox: Mailbox::Sent });
    assert_eq!(step, call("re_1", RemoteCall::Get { mailbox: Mailbox::Sent, id: s("em_1") }));
    let record = mail("em_1", "A", None, Some("body"));
    assert_eq!(
        session.advance(Response::Email(record.clone())),
        (
            Session::Closed,
            Step::Finish(Report::Email { record, body: Body::Text(s("body")) })
        )
    );
}

#[test]
fn get_without_id_fails_on_an_empty_list_and_fetches_nothing() {
    let (session, _) = with_settings(Command::Get { id: None }, stored("re_1", None, None));
    let (session, step) = session.advance(Response::Emails(vec![]));
    assert_eq!(session, Session::Closed);
    assert_eq!(step, Step::Fail(Failure::NoEmails));
    assert_eq!(Failure::NoEmails.context(), "no emails available");
}

#[test]
fn received_get_without_id_looks_in_the_inbox() {
    let (session, step) =
        with_settings(Command::ReceivedGet { id: None }, stored("re_1", None, None));
    assert_eq!(step, call("re_1", RemoteCall::List(Mailbox::Received)));
    let (session, step) = session.advance(Response::Emails(vec![mail("in_9", "A", None, None)]));
    assert_eq!(
        step,
        call("re_1", RemoteCall::Get { mailbox: Mailbox::Received, id: s("in_9") })
    );
    let record = mail("in_9", "A", None, None);
    assert_eq!(
        session.advance(Response::Email(record.clone())),
        (Session::Closed, Step::Finish(Report::Email { record, body: Body::Empty }))
    );
}

#[test]
fn received_get_with_an_id_fetches_it() {
    let (session, step) =
        with_settings(Command::ReceivedGet { id: some("in_3") }, stored("re_1", None, None));
    assert_eq!(session, Session::Fetching { mailbox: Mailbox::Received });
    assert_eq!(
        step,
        call("re_1", RemoteCall::Get { mailbox: Mailbox::Received, id: s("in_3") })
    );
}

#[test]
fn update_passes_on_what_is_given() {
    let command = Command::Update { id: s("em_1"), scheduled_at: some("2024-08-05T11:52:01Z") };
    let (session, step) = with_settings(command, stored("re_1", None, None));
    assert_eq!(session, Session::Updating);
    assert_eq!(
        step,
        call(
            "re_1",
            RemoteCall::Update { id: s("em_1"), scheduled_at: some("2024-08-05T11:52:01Z") }
        )
    );
    assert_eq!(
        session.advance(Response::Id(s("em_1"))),
        (Session::Closed, Step::Finish(Report::Updated(s("em_1"))))
    );
    let bare = Command::Update { id: s("em_2"), scheduled_at: None };
    let (_, step) = with_settings(bare, stored("re_1", None, None));
    assert_eq!(step, call("re_1", RemoteCall::Update { id: s("em_2"), scheduled_at: None }));
}

#[test]
fn cancel_reports_the_canceled_id() {
    let (session, step) =
        with_settings(Command::Cancel { id: s("em_1") }, stored("re_1", None, None));
    assert_eq!(session, Session::Canceling);
    assert_eq!(step, call("re_1", RemoteCall::Cancel { id: s("em_1") }));
    assert_eq!(
        session.advance(Response::Id(s("em_1"))),
        (Session::Closed, Step::Finish(Report::Canceled(s("em_1"))))
    );
}

#[test]
fn outside_failures_name_their_stage() {
    let cases: Vec<(Session, Stage)> = vec![
        (Session::LoadingConfig(Command::List { count: None }), Stage::LoadConfig),
        (Session::ReadingKey(AppConfig::empty()), Stage::PromptKey),
        (Session::SavingConfig, Stage::SaveConfig),
        (
            Session::ReadingBody {
                api_key: s("k"),
                envelope: Envelope { from: s("a"), to: vec![] },
                subject: s("S"),
            },
            Stage::ReadStdin,
        ),
        (Session::Sending, Stage::Send),
        (Session::SendingBatch, Stage::SendBatch),
        (Session::Listing { mailbox: Mailbox::Sent, limit: 10 }, Stage::ListSent),
        (Session::Listing { mailbox: Mailbox::Received, limit: 10 }, Stage::ListReceived),
        (Session::FindingNewest { api_key: s("k"), mailbox: Mailbox::Sent }, Stage::ListSent),
        (
            Session::FindingNewest { api_key: s("k"), mailbox: Mailbox::Received },
            Stage::ListReceived,
        ),
        (Session::Fetching { mailbox: Mailbox::Sent }, Stage::GetSent),
        (Session::Fetching { mailbox: Mailbox::Received }, Stage::GetReceived),
        (Session::Updating, Stage::Update),
        (Session::Canceling, Stage::Cancel),
        (Session::WritingCompletions, Stage::Completions),
    ];
    for (session, stage) in cases {
        assert_eq!(session.pending(), Some(stage));
        assert_eq!(
            session.advance(Response::Failed(s("boom"))),
            (Session::Closed, Step::Fail(Failure::Outside { stage, cause: s("boom") }))
        );
    }
}

#[test]
fn closed_session_takes_no_reply() {
    assert_eq!(Session::Closed.pending(), None);
    for reply in [Response::Done, Response::Failed(s("late")), Response::Text(s("x"))] {
        assert_eq!(
            Session::Closed.advance(reply),
            (Session::Closed, Step::Fail(Failure::Unexpected))
        );
    }
}

#[test]
fn reply_of_the_wrong_kind_ends_the_command() {
    assert_eq!(
        Session::Sending.advance(Response::Text(s("x"))),
        (Session::Closed, Step::Fail(Failure::Unexpected))
    );
    assert_eq!(
        Session::LoadingConfig(Command::List { count: None }).advance(Response::Done),
        (Session::Closed, Step::Fail(Failure::Unexpected))
    );
    assert_eq!(
        Session::Updating.advance(Response::Done),
        (Session::Closed, Step::Fail(Failure::Unexpected))
    );
    assert_eq!(
        Session::Fetching { mailbox: Mailbox::Sent }.advance(Response::Emails(vec![])),
        (Session::Closed, Step::Fail(Failure::Unexpected))
    );
}

#[test]
fn every_call_carries_the_stored_key() {
    let commands = vec![
        Command::List { count: None },
        Command::ReceivedList { count: None },
        Command::Get { id: None },
        Command::Get { id: some("e") },
        Command::ReceivedGet { id: None },
        Command::Update { id: s("e"), scheduled_at: None },
        Command::Cancel { id: s("e") },
        Command::Send(SendArgs { subject: some("S"), ..send_args() }),
        Command::Send(SendArgs { id: some("E1"), ..send_args() }),
    ];
    for command in commands {
        let (_, step) = with_settings(command, stored("re_secret", Some("a@x.com"), Some("b@y.com")));
        match step {
            Step::Perform(Request::Remote { api_key, .. }) => assert_eq!(api_key, "re_secret"),
            other => panic!("no call: {:?}", other),
        }
    }
}

#[test]
fn headline_tells_of_the_success() {
    assert_eq!(Report::ConfigSaved.headline(), some("API key saved."));
    assert_eq!(Report::Sent.headline(), some("Send request submitted."));
    assert_eq!(Report::BatchSent.headline(), some("Batch send request submitted."));
    assert_eq!(Report::Updated(s("em_1")).headline(), some("Updated email with ID: em_1"));
    assert_eq!(Report::Canceled(s("em_2")).headline(), some("Canceled: em_2"));
    assert_eq!(Report::Listing(vec![]).headline(), None);
    assert_eq!(
        Report::Email { record: mail("e", "S", None, None), body: Body::Empty }.headline(),
        None
    );
    assert_eq!(Report::CompletionsWritten.headline(), None);
}
