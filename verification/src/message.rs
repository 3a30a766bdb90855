use crate::address::{address_list, parse_to_vec};
use crate::failure::{Failure, FailureView, Field};
use crate::mailbox::{EmailRecord, EmailRecordView};
use vstd::prelude::*;
use vstd::string::*;

verus! {

/// An email to submit.
#[derive(Clone, Debug, PartialEq, Eq)]
pub struct EmailMessage {
    pub from: String,
    pub to: Vec<String>,
    pub subject: String,
    pub html: Option<String>,
    pub text: Option<String>,
}

/// The mathematical value of an [`EmailMessage`].
pub struct EmailMessageView {
    pub from: Seq<char>,
    pub to: Seq<Seq<char>>,
    pub subject: Seq<char>,
    pub html: Option<Seq<char>>,
    pub text: Option<Seq<char>>,
}

impl DeepView for EmailMessage {
    type V = EmailMessageView;

    open spec fn deep_view(&self) -> EmailMessageView {
        EmailMessageView {
            from: self.from@,
            to: self.to.deep_view(),
            subject: self.subject@,
            html: self.html.deep_view(),
            text: self.text.deep_view(),
        }
    }
}

/// One record of a batch file, as read: a field that the file leaves out is `None`.
#[derive(Clone, Debug, PartialEq, Eq)]
pub struct BatchEmailInput {
    pub from: Option<String>,
    pub to: Option<Vec<String>>,
    pub subject: Option<String>,
    pub html: Option<String>,
    pub text: Option<String>,
}

/// The mathematical value of a [`BatchEmailInput`].
pub struct BatchEmailInputView {
    pub from: Option<Seq<char>>,
    pub to: Option<Seq<Seq<char>>>,
    pub subject: Option<Seq<char>>,
    pub html: Option<Seq<char>>,
    pub text: Option<Seq<char>>,
}

impl DeepView for BatchEmailInput {
    type V = BatchEmailInputView;

    open spec fn deep_view(&self) -> BatchEmailInputView {
        BatchEmailInputView {
            from: self.from.deep_view(),
            to: self.to.deep_view(),
            subject: self.subject.deep_view(),
            html: self.html.deep_view(),
            text: self.text.deep_view(),
        }
    }
}

impl BatchEmailInputView {
    /// The first required field that the record lacks, if it lacks one.
    pub open spec fn missing(self) -> Option<Field> {
        if self.from is None {
            Some(Field::From)
        } else if self.to is None {
            Some(Field::To)
        } else if self.subject is None {
            Some(Field::Subject)
        } else {
            None
        }
    }

    /// The message that a record with all required fields asks for.
    pub open spec fn message(self) -> EmailMessageView
        recommends
            self.missing() is None,
    {
        EmailMessageView {
            from: self.from->0,
            to: self.to->0,
            subject: self.subject->0,
            html: self.html,
            text: self.text,
        }
    }
}

/// The index of the first record that lacks a required field, if there is one.
pub open spec fn first_incomplete(records: Seq<BatchEmailInputView>) -> Option<int>
    decreases records.len(),
{
    if records.len() == 0 {
        None
    } else if let Some(i) = first_incomplete(records.drop_last()) {
        Some(i)
    } else if records.last().missing() is Some {
        Some(records.len() - 1)
    } else {
        None
    }
}

/// What a batch comes to: the messages of all its records, or the first gap in it.
pub open spec fn batch_outcome(records: Seq<BatchEmailInputView>) -> Result<
    Seq<EmailMessageView>,
    FailureView,
> {
    match first_incomplete(records) {
        Some(i) => Err(
            FailureView::IncompleteBatch { index: i, field: records[i].missing()->0 },
        ),
        None => Ok(records.map_values(|record: BatchEmailInputView| record.message())),
    }
}

/// `first_incomplete` names a record that lacks a field and has only complete records before
/// it, and names none only where every record is complete.
pub proof fn lemma_first_incomplete(records: Seq<BatchEmailInputView>)
    ensures
        match first_incomplete(records) {
            Some(i) => {
                &&& 0 <= i < records.len()
                &&& records[i].missing() is Some
                &&& forall|j: int| 0 <= j < i ==> (#[trigger] records[j]).missing() is None
            },
            None => forall|j: int| 0 <= j < records.len() ==> (#[trigger] records[j]).missing() is None,
        },
    decreases records.len(),
{
    if records.len() > 0 {
        lemma_first_incomplete(records.drop_last());
        assert(forall|j: int| 0 <= j < records.len() - 1 ==> records.drop_last()[j] == records[j]);
    }
}

impl BatchEmailInput {
    /// Turns a record into the message it asks for, or names the first field that it lacks.
    pub fn into_message(self) -> (r: Result<EmailMessage, Field>)
        ensures
            match r {
                Ok(message) => self.deep_view().missing() is None && message.deep_view()
                    == self.deep_view().message(),
                Err(field) => self.deep_view().missing() == Some(field),
            },
    {
        let from = match self.from {
            Some(from) => from,
            None => { return Err(Field::From); },
        };
        let to = match self.to {
            Some(to) => to,
            None => { return Err(Field::To); },
        };
        let subject = match self.subject {
            Some(subject) => subject,
            None => { return Err(Field::Subject); },
        };
        Ok(EmailMessage { from, to, subject, html: self.html, text: self.text })
    }
}

/// Turns the records of a batch into messages: all of them, or none.
///
/// Where a record lacks a required field the whole batch is refused, with the place of the
/// first such record and the first field that it lacks.
pub fn batch_messages(records: Vec<BatchEmailInput>) -> (r: Result<Vec<EmailMessage>, Failure>)
    ensures
        match r {
            Ok(messages) => batch_outcome(records.deep_view()) == Ok::<
                Seq<EmailMessageView>,
                FailureView,
            >(messages.deep_view()),
            Err(failure) => batch_outcome(records.deep_view()) == Err::<
                Seq<EmailMessageView>,
                FailureView,
            >(failure.deep_view()),
        },
{
    let ghost all = records.deep_view();
    let mut messages: Vec<EmailMessage> = Vec::new();
    let mut index: usize = 0;
    assert(all.take(0) =~= Seq::<BatchEmailInputView>::empty());
    assert(messages.deep_view() =~= all.take(0).map_values(
        |record: BatchEmailInputView| record.message(),
    ));
    for record in it: records
        invariant
            all == records.deep_view(),
            it.seq() == records@,
            index == it.index(),
            first_incomplete(all.take(index as int)) is None,
            messages.deep_view() == all.take(index as int).map_values(
                |record: BatchEmailInputView| record.message(),
            ),
    {
        let ghost one = record.deep_view();
        assert(index < records.len());
        assert(all.take(index + 1).drop_last() =~= all.take(index as int));
        assert(all.take(index + 1).last() == one);
        match record.into_message() {
            Ok(message) => {
                let ghost before = messages.deep_view();
                messages.push(message);
                assert(messages.deep_view() =~= before.push(one.message()));
                assert(messages.deep_view() =~= all.take(index + 1).map_values(
                    |record: BatchEmailInputView| record.message(),
                ));
            },
            Err(field) => {
                proof {
                    lemma_first_incomplete_prefix(all, index + 1);
                }
                return Err(Failure::IncompleteBatch { index, field });
            },
        }
        index = index + 1;
    }
    assert(all.take(index as int) =~= all);
    Ok(messages)
}

/// The first gap of a list of records is the first gap of any start of the list that has one.
proof fn lemma_first_incomplete_prefix(records: Seq<BatchEmailInputView>, n: int)
    requires
        0 <= n <= records.len(),
        first_incomplete(records.take(n)) is Some,
    ensures
        first_incomplete(records) == first_incomplete(records.take(n)),
    decreases records.len() - n,
{
    if n < records.len() {
        assert(records.take(n + 1).drop_last() =~= records.take(n));
        lemma_first_incomplete_prefix(records, n + 1);
    } else {
        assert(records.take(n) =~= records);
    }
}

/// Who sends a message and who receives it.
#[derive(Clone, Debug, PartialEq, Eq)]
pub struct Envelope {
    pub from: String,
    pub to: Vec<String>,
}

/// The mathematical value of an [`Envelope`].
pub struct EnvelopeView {
    pub from: Seq<char>,
    pub to: Seq<Seq<char>>,
}

impl DeepView for Envelope {
    type V = EnvelopeView;

    open spec fn deep_view(&self) -> EnvelopeView {
        EnvelopeView { from: self.from@, to: self.to.deep_view() }
    }
}

/// The value to use where the command line may give one and the settings may hold a default:
/// the command line wins.
pub open spec fn preferred(flag: Option<Seq<char>>, default: Option<Seq<char>>) -> Option<
    Seq<char>,
> {
    if flag is Some {
        flag
    } else {
        default
    }
}

/// The sender and the recipients of a message, from the command line and the defaults.
///
/// A sender is needed first, then a list of recipients; the list is split into addresses.
pub open spec fn envelope_of(
    from: Option<Seq<char>>,
    to: Option<Seq<char>>,
    default_from: Option<Seq<char>>,
    default_to: Option<Seq<char>>,
) -> Result<EnvelopeView, FailureView> {
    match preferred(from, default_from) {
        None => Err(FailureView::MissingFrom),
        Some(sender) => match preferred(to, default_to) {
            None => Err(FailureView::MissingTo),
            Some(list) => Ok(EnvelopeView { from: sender, to: address_list(list) }),
        },
    }
}

/// The bodies of a message that forwards nothing: the HTML body where there is one, and the
/// text body only where there is no HTML body.
pub open spec fn direct_message(
    envelope: EnvelopeView,
    subject: Seq<char>,
    html: Option<Seq<char>>,
    text: Option<Seq<char>>,
) -> EmailMessageView {
    EmailMessageView {
        from: envelope.from,
        to: envelope.to,
        subject,
        html,
        text: if html is Some {
            None
        } else {
            text
        },
    }
}

/// The subject of a message that forwards an email with the subject `forwarded`: the one
/// chosen on the command line, or else `forwarded` behind `Fwd: `.
pub open spec fn forward_subject(chosen: Option<Seq<char>>, forwarded: Seq<char>) -> Seq<char> {
    match chosen {
        Some(subject) => subject,
        None => "Fwd: "@ + forwarded,
    }
}

/// The message that forwards `source`: it carries both bodies of `source`.
pub open spec fn forward_message(
    envelope: EnvelopeView,
    subject: Option<Seq<char>>,
    source: EmailRecordView,
) -> EmailMessageView {
    EmailMessageView {
        from: envelope.from,
        to: envelope.to,
        subject: forward_subject(subject, source.subject),
        html: source.html,
        text: source.text,
    }
}

/// Chooses between a value from the command line and a default.
pub fn prefer(flag: Option<String>, default: Option<String>) -> (r: Option<String>)
    ensures
        r.deep_view() == preferred(flag.deep_view(), default.deep_view()),
{
    match flag {
        Some(value) => Some(value),
        None => default,
    }
}

/// Settles the sender and the recipients of a message.
pub fn resolve_envelope(
    from: Option<String>,
    to: Option<String>,
    default_from: Option<String>,
    default_to: Option<String>,
) -> (r: Result<Envelope, Failure>)
    ensures
        match r {
            Ok(envelope) => envelope_of(
                from.deep_view(),
                to.deep_view(),
                default_from.deep_view(),
                default_to.deep_view(),
            ) == Ok::<EnvelopeView, FailureView>(envelope.deep_view()),
            Err(failure) => envelope_of(
                from.deep_view(),
                to.deep_view(),
                default_from.deep_view(),
                default_to.deep_view(),
            ) == Err::<EnvelopeView, FailureView>(failure.deep_view()),
        },
{
    let sender = match prefer(from, default_from) {
        Some(sender) => sender,
        None => { return Err(Failure::MissingFrom); },
    };
    let list = match prefer(to, default_to) {
        Some(list) => list,
        None => { return Err(Failure::MissingTo); },
    };
    Ok(Envelope { from: sender, to: parse_to_vec(list.as_str()) })
}

impl Envelope {
    /// Builds a message that forwards nothing.
    pub fn direct(self, subject: String, html: Option<String>, text: Option<String>) -> (r:
        EmailMessage)
        ensures
            r.deep_view() == direct_message(
                self.deep_view(),
                subject@,
                html.deep_view(),
                text.deep_view(),
            ),
    {
        let text = if html.is_some() {
            None
        } else {
            text
        };
        EmailMessage { from: self.from, to: self.to, subject, html, text }
    }

    /// Builds the message that forwards `source`.
    pub fn forward(self, subject: Option<String>, source: EmailRecord) -> (r: EmailMessage)
        ensures
            r.deep_view() == forward_message(
                self.deep_view(),
                subject.deep_view(),
                source.deep_view(),
            ),
    {
        let subject = match subject {
            Some(subject) => subject,
            None => "Fwd: ".to_owned().concat(source.subject.as_str()),
        };
        EmailMessage {
            from: self.from,
            to: self.to,
            subject,
            html: source.html,
            text: source.text,
        }
    }
}

} // verus!
