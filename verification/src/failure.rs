use vstd::prelude::*;

verus! {

/// A field that every record of a batch must hold.
#[derive(Clone, Copy, Debug, PartialEq, Eq, Structural)]
pub enum Field {
    From,
    To,
    Subject,
}

/// A piece of outside work that a command asks for.
#[derive(Clone, Copy, Debug, PartialEq, Eq, Structural)]
pub enum Stage {
    LoadConfig,
    PromptKey,
    SaveConfig,
    ReadStdin,
    ReadBatchFile,
    ParseBatch,
    Send,
    SendBatch,
    ListSent,
    GetSent,
    Update,
    Cancel,
    ListReceived,
    GetReceived,
    Completions,
}

/// Why a command ended without success.
#[derive(Clone, Debug, PartialEq, Eq)]
pub enum Failure {
    /// The settings hold no API key.
    MissingApiKey,
    /// Neither the command line nor the settings name a sender.
    MissingFrom,
    /// Neither the command line nor the settings name a recipient.
    MissingTo,
    /// A message that forwards nothing needs a subject.
    MissingSubject,
    /// The record at `index` of a batch lacks `field`.
    IncompleteBatch { index: usize, field: Field },
    /// The mailbox that should name the newest email is empty.
    NoEmails,
    /// The outside work of `stage` failed, for the reason in `cause`.
    Outside { stage: Stage, cause: String },
    /// A reply arrived that answers no pending request.
    Unexpected,
}

/// The mathematical value of a [`Failure`].
pub enum FailureView {
    MissingApiKey,
    MissingFrom,
    MissingTo,
    MissingSubject,
    IncompleteBatch { index: int, field: Field },
    NoEmails,
    Outside { stage: Stage, cause: Seq<char> },
    Unexpected,
}

impl DeepView for Failure {
    type V = FailureView;

    open spec fn deep_view(&self) -> FailureView {
        match self {
            Failure::MissingApiKey => FailureView::MissingApiKey,
            Failure::MissingFrom => FailureView::MissingFrom,
            Failure::MissingTo => FailureView::MissingTo,
            Failure::MissingSubject => FailureView::MissingSubject,
            Failure::IncompleteBatch { index, field } => FailureView::IncompleteBatch {
                index: *index as int,
                field: *field,
            },
            Failure::NoEmails => FailureView::NoEmails,
            Failure::Outside { stage, cause } => FailureView::Outside {
                stage: *stage,
                cause: cause@,
            },
            Failure::Unexpected => FailureView::Unexpected,
        }
    }
}

/// The words that say which piece of outside work failed.
pub open spec fn stage_context(stage: Stage) -> Seq<char> {
    match stage {
        Stage::LoadConfig => "read api key (have you run `rusend config`?)"@,
        Stage::PromptKey => "failed to read api key"@,
        Stage::SaveConfig => "write api key"@,
        Stage::ReadStdin => "stdin read"@,
        Stage::ReadBatchFile => "read batch file"@,
        Stage::ParseBatch => "parse json"@,
        Stage::Send => "send failed"@,
        Stage::SendBatch => "batch send failed"@,
        Stage::ListSent => "list failed"@,
        Stage::GetSent => "get failed"@,
        Stage::Update => "update failed"@,
        Stage::Cancel => "cancel failed"@,
        Stage::ListReceived => "list receiving failed"@,
        Stage::GetReceived => "get receiving failed"@,
        Stage::Completions => "write completions"@,
    }
}

/// The words that say what went wrong, without the cause or the place.
pub open spec fn failure_context(failure: FailureView) -> Seq<char> {
    match failure {
        FailureView::MissingApiKey => "no api key (have you run `rusend config`?)"@,
        FailureView::MissingFrom => "no sender: pass --from or set a default"@,
        FailureView::MissingTo => "no recipient: pass --to or set a default"@,
        FailureView::MissingSubject => "no subject: pass --subject"@,
        FailureView::IncompleteBatch { index, field } => match field {
            Field::From => "batch record without `from`"@,
            Field::To => "batch record without `to`"@,
            Field::Subject => "batch record without `subject`"@,
        },
        FailureView::NoEmails => "no emails available"@,
        FailureView::Outside { stage, cause } => stage_context(stage),
        FailureView::Unexpected => "unexpected reply"@,
    }
}

impl Stage {
    /// The words that say which piece of outside work failed.
    pub fn context(self) -> (r: &'static str)
        ensures
            r@ == stage_context(self),
    {
        match self {
            Stage::LoadConfig => "read api key (have you run `rusend config`?)",
            Stage::PromptKey => "failed to read api key",
            Stage::SaveConfig => "write api key",
            Stage::ReadStdin => "stdin read",
            Stage::ReadBatchFile => "read batch file",
            Stage::ParseBatch => "parse json",
            Stage::Send => "send failed",
            Stage::SendBatch => "batch send failed",
            Stage::ListSent => "list failed",
            Stage::GetSent => "get failed",
            Stage::Update => "update failed",
            Stage::Cancel => "cancel failed",
            Stage::ListReceived => "list receiving failed",
            Stage::GetReceived => "get receiving failed",
            Stage::Completions => "write completions",
        }
    }
}

impl Failure {
    /// The words that say what went wrong, without the cause or the place.
    pub fn context(&self) -> (r: &'static str)
        ensures
            r@ == failure_context(self.deep_view()),
    {
        match self {
            Failure::MissingApiKey => "no api key (have you run `rusend config`?)",
            Failure::MissingFrom => "no sender: pass --from or set a default",
            Failure::MissingTo => "no recipient: pass --to or set a default",
            Failure::MissingSubject => "no subject: pass --subject",
            Failure::IncompleteBatch { index, field } => match field {
                Field::From => "batch record without `from`",
                Field::To => "batch record without `to`",
                Field::Subject => "batch record without `subject`",
            },
            Failure::NoEmails => "no emails available",
            Failure::Outside { stage, cause } => stage.context(),
            Failure::Unexpected => "unexpected reply",
        }
    }
}

} // verus!
