use vstd::prelude::*;

verus! {

/// Which of the two collections of the service an email belongs to.
#[derive(Clone, Copy, Debug, PartialEq, Eq, Structural)]
pub enum Mailbox {
    /// Emails that were submitted for delivery.
    Sent,
    /// Emails that arrived in the inbox.
    Received,
}

/// An email as the service reports it.
#[derive(Clone, Debug, PartialEq, Eq)]
pub struct EmailRecord {
    pub id: String,
    pub created_at: String,
    pub from: String,
    pub to: Vec<String>,
    pub subject: String,
    pub html: Option<String>,
    pub text: Option<String>,
}

/// The mathematical value of an [`EmailRecord`].
pub struct EmailRecordView {
    pub id: Seq<char>,
    pub created_at: Seq<char>,
    pub from: Seq<char>,
    pub to: Seq<Seq<char>>,
    pub subject: Seq<char>,
    pub html: Option<Seq<char>>,
    pub text: Option<Seq<char>>,
}

impl DeepView for EmailRecord {
    type V = EmailRecordView;

    open spec fn deep_view(&self) -> EmailRecordView {
        EmailRecordView {
            id: self.id@,
            created_at: self.created_at@,
            from: self.from@,
            to: self.to.deep_view(),
            subject: self.subject@,
            html: self.html.deep_view(),
            text: self.text.deep_view(),
        }
    }
}

/// What to show as the body of an email.
#[derive(Clone, Debug, PartialEq, Eq)]
pub enum Body {
    /// The plain text body.
    Text(String),
    /// A note that the email has an HTML body only.
    HtmlOnly,
    /// A mark that the email has no body.
    Empty,
}

/// The mathematical value of a [`Body`].
pub enum BodyView {
    Text(Seq<char>),
    HtmlOnly,
    Empty,
}

impl DeepView for Body {
    type V = BodyView;

    open spec fn deep_view(&self) -> BodyView {
        match self {
            Body::Text(text) => BodyView::Text(text@),
            Body::HtmlOnly => BodyView::HtmlOnly,
            Body::Empty => BodyView::Empty,
        }
    }
}

/// How many emails a listing shows when no count is given.
pub const DEFAULT_COUNT: usize = 10;

/// How many emails a listing shows at most.
pub open spec fn display_limit(count: Option<usize>) -> usize {
    match count {
        Some(n) => n,
        None => DEFAULT_COUNT,
    }
}

/// The first `limit` of `records`, or all of them where there are fewer.
pub open spec fn shown(records: Seq<EmailRecordView>, limit: usize) -> Seq<EmailRecordView> {
    if limit <= records.len() {
        records.take(limit as int)
    } else {
        records
    }
}

/// The body to show for `record`: its text where it has one, else a note where it has HTML.
pub open spec fn body_of(record: EmailRecordView) -> BodyView {
    match record.text {
        Some(text) => BodyView::Text(text),
        None => if record.html is Some {
            BodyView::HtmlOnly
        } else {
            BodyView::Empty
        },
    }
}

/// The words to print for a body: the text itself, or a note in its place.
pub open spec fn body_text(body: BodyView) -> Seq<char> {
    match body {
        BodyView::Text(text) => text,
        BodyView::HtmlOnly => "(HTML body only)"@,
        BodyView::Empty => "(empty)"@,
    }
}

/// The number of emails to show for the count given on the command line.
pub fn limit_of(count: Option<usize>) -> (r: usize)
    ensures
        r == display_limit(count),
{
    match count {
        Some(n) => n,
        None => DEFAULT_COUNT,
    }
}

/// Cuts a listing down to its first `limit` emails.
pub fn truncate(records: Vec<EmailRecord>, limit: usize) -> (r: Vec<EmailRecord>)
    ensures
        r.deep_view() == shown(records.deep_view(), limit),
{
    let mut kept = records;
    kept.truncate(limit);
    assert(kept.deep_view() =~= shown(records.deep_view(), limit));
    kept
}

impl Body {
    /// The words to print for this body.
    pub fn as_text(&self) -> (r: &str)
        ensures
            r@ == body_text(self.deep_view()),
    {
        match self {
            Body::Text(text) => text.as_str(),
            Body::HtmlOnly => "(HTML body only)",
            Body::Empty => "(empty)",
        }
    }
}

impl EmailRecord {
    /// Chooses what to show as the body.
    pub fn body(&self) -> (r: Body)
        ensures
            r.deep_view() == body_of(self.deep_view()),
    {
        match &self.text {
            Some(text) => Body::Text(text.clone()),
            None => if self.html.is_some() {
                Body::HtmlOnly
            } else {
                Body::Empty
            },
        }
    }
}

/// The identifier of the first email of a listing, which the service puts newest first.
pub fn newest_id(records: Vec<EmailRecord>) -> (r: Option<String>)
    ensures
        records.len() == 0 ==> r is None,
        records.len() > 0 ==> r.deep_view() == Some(records.deep_view()[0].id),
{
    let mut rest = records;
    if rest.len() == 0 {
        None
    } else {
        let first = rest.swap_remove(0);
        Some(first.id)
    }
}

} // verus!
