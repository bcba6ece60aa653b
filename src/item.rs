//! The items of the remote feed and what is shown and opened for each.
use vstd::prelude::*;
use vstd::string::StringExecFns;

verus! {

/// Why the feed reports an item.
#[derive(Clone, Copy, Debug, PartialEq, Eq, Structural)]
pub enum Reason {
    Assign,
    Author,
    Comment,
    CiActivity,
    Invitation,
    Manual,
    Mention,
    ReviewRequested,
    SecurityAlert,
    StateChange,
    Subscribed,
    TeamMention,
}

/// The repository that an item belongs to.
#[derive(Clone, Debug)]
pub struct Repository {
    pub id: i64,
    pub name: String,
    pub full_name: String,
}

/// What an item is about: its title, the API address of the resource, the
/// address of its latest comment if any, and the kind of resource.
#[derive(Clone, Debug)]
pub struct Subject {
    pub title: String,
    pub url: String,
    pub latest_comment_url: Option<String>,
    pub subject_type: String,
}

/// One item of the feed; `updated_at` is its last modification, as RFC 3339
/// text.
#[derive(Clone, Debug)]
pub struct Notification {
    pub id: String,
    pub reason: Reason,
    pub repository: Repository,
    pub subject: Subject,
    pub updated_at: String,
}

impl Reason {
    /// The name of the reason as shown to the user.
    pub open spec fn label_spec(self) -> Seq<char> {
        match self {
            Reason::Assign => "Assign"@,
            Reason::Author => "Author"@,
            Reason::Comment => "Comment"@,
            Reason::CiActivity => "CiActivity"@,
            Reason::Invitation => "Invitation"@,
            Reason::Manual => "Manual"@,
            Reason::Mention => "Mention"@,
            Reason::ReviewRequested => "ReviewRequested"@,
            Reason::SecurityAlert => "SecurityAlert"@,
            Reason::StateChange => "StateChange"@,
            Reason::Subscribed => "Subscribed"@,
            Reason::TeamMention => "TeamMention"@,
        }
    }

    pub fn label(&self) -> (r: &'static str)
        ensures
            r@ == self.label_spec(),
    {
        match self {
            Reason::Assign => "Assign",
            Reason::Author => "Author",
            Reason::Comment => "Comment",
            Reason::CiActivity => "CiActivity",
            Reason::Invitation => "Invitation",
            Reason::Manual => "Manual",
            Reason::Mention => "Mention",
            Reason::ReviewRequested => "ReviewRequested",
            Reason::SecurityAlert => "SecurityAlert",
            Reason::StateChange => "StateChange",
            Reason::Subscribed => "Subscribed",
            Reason::TeamMention => "TeamMention",
        }
    }
}

impl Subject {
    /// The address to resolve for the browser: the latest comment when there
    /// is one, else the subject itself.
    pub open spec fn target_spec(self) -> Seq<char> {
        match self.latest_comment_url {
            Some(u) => u@,
            None => self.url@,
        }
    }

    pub fn target_url(&self) -> (r: String)
        ensures
            r@ == self.target_spec(),
    {
        match &self.latest_comment_url {
            Some(u) => u.clone(),
            None => self.url.clone(),
        }
    }
}

impl Notification {
    /// The body of the desktop alert: `title (kind/Reason)`.
    pub open spec fn alert_body_spec(self) -> Seq<char> {
        self.subject.title@ + " ("@ + self.subject.subject_type@ + "/"@ + self.reason.label_spec()
            + ")"@
    }

    /// The headline of the desktop alert: the repository's full name.
    pub fn alert_summary(&self) -> (r: String)
        ensures
            r@ == self.repository.full_name@,
    {
        self.repository.full_name.clone()
    }

    pub fn alert_body(&self) -> (r: String)
        ensures
            r@ == self.alert_body_spec(),
    {
        let mut r = self.subject.title.clone();
        r.append(" (");
        r.append(self.subject.subject_type.as_str());
        r.append("/");
        r.append(self.reason.label());
        r.append(")");
        r
    }
}

/// The one action of the alert: the key that the desktop reports when the
/// user clicks it.
pub const OPEN_ACTION: &'static str = "default";

/// Whether an action reported by the desktop asks to open the item.
pub fn wants_open(action: &str) -> (r: bool)
    ensures
        r == (action@ == OPEN_ACTION@),
{
    let a = String::from_str(action);
    let o = String::from_str(OPEN_ACTION);
    a == o
}

} // verus!
