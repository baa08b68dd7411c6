//! Building push notifications: a message for a topic, with optional title,
//! tags, priority and action buttons. Sending a message is the caller's part.

use std::collections::HashMap;
use vstd::prelude::*;

verus! {

/// The lowest priority that a message can have.
pub const MIN_PRIORITY: i32 = 1;

/// The highest priority that a message can have.
pub const MAX_PRIORITY: i32 = 5;

/// An action button of a notification.
#[derive(Debug, Clone)]
pub struct NtfyAction {
    /// The kind of action: `view` or `http`.
    pub action: String,
    /// The label of the button.
    pub label: String,
    /// The address that the button opens or calls.
    pub url: String,
    /// The request method of an `http` action.
    pub method: Option<String>,
    /// The request headers of an `http` action.
    pub headers: Option<HashMap<String, String>>,
    /// The request body of an `http` action.
    pub body: Option<String>,
    /// Whether the notification is cleared after the action.
    pub clear: Option<bool>,
}

impl NtfyAction {
    /// An action with nothing set.
    pub fn new() -> (r: NtfyAction)
        ensures
            r.action@.len() == 0,
            r.label@.len() == 0,
            r.url@.len() == 0,
            r.method is None,
            r.headers is None,
            r.body is None,
            r.clear is None,
    {
        NtfyAction {
            action: String::new(),
            label: String::new(),
            url: String::new(),
            method: None,
            headers: None,
            body: None,
            clear: None,
        }
    }

    /// Makes this a `view` action: a button that opens `url`. Whatever was set
    /// before is dropped.
    pub fn view_action(self, label: String, url: String) -> (r: NtfyAction)
        ensures
            r.action@ == "view"@,
            r.label == label,
            r.url == url,
            r.method is None,
            r.headers is None,
            r.body is None,
            r.clear is None,
    {
        let mut action = self;
        action.action = "view".to_owned();
        action.label = label;
        action.url = url;
        action.method = None;
        action.headers = None;
        action.body = None;
        action.clear = None;
        action
    }

    /// Makes this an `http` action: a button that sends a request to `url`.
    /// Whatever was set before is dropped.
    pub fn http_action(
        self,
        label: String,
        url: String,
        method: String,
        headers: HashMap<String, String>,
        body: String,
    ) -> (r: NtfyAction)
        ensures
            r.action@ == "http"@,
            r.label == label,
            r.url == url,
            r.method == Some(method),
            r.headers == Some(headers),
            r.body == Some(body),
            r.clear is None,
    {
        let mut action = self;
        action.action = "http".to_owned();
        action.label = label;
        action.url = url;
        action.method = Some(method);
        action.headers = Some(headers);
        action.body = Some(body);
        action.clear = None;
        action
    }
}

/// A notification for one topic.
#[derive(Debug, Clone)]
pub struct NtfyMessage {
    /// The topic that the message goes to.
    pub topic: String,
    /// The text of the message.
    pub message: Option<String>,
    /// The title of the message.
    pub title: Option<String>,
    /// Tags, which may show as emoji.
    pub tags: Option<Vec<String>>,
    /// The priority, from 1, the lowest, to 5, the highest.
    pub priority: Option<i32>,
    /// Action buttons.
    pub actions: Option<Vec<NtfyAction>>,
    /// The address that opens when the notification is clicked.
    pub click: Option<String>,
    /// The address of an attachment.
    pub attach: Option<String>,
    /// Whether the text is Markdown.
    pub markdown: Option<bool>,
    /// The address of the notification's icon.
    pub icon: Option<String>,
    /// The file name of the attachment.
    pub filename: Option<String>,
    /// When to deliver: a time or a duration.
    pub delay: Option<String>,
    /// The address to send an e-mail to.
    pub email: Option<String>,
    /// The phone number to call.
    pub call: Option<String>,
}

impl NtfyMessage {
    /// Whether nothing but the topic is set.
    pub open spec fn is_bare(self) -> bool {
        &&& self.message is None
        &&& self.title is None
        &&& self.tags is None
        &&& self.priority is None
        &&& self.actions is None
        &&& self.click is None
        &&& self.attach is None
        &&& self.markdown is None
        &&& self.icon is None
        &&& self.filename is None
        &&& self.delay is None
        &&& self.email is None
        &&& self.call is None
    }

    /// The tags of the message; none where no tag is set.
    pub open spec fn tag_list(self) -> Seq<String> {
        match self.tags {
            Some(tags) => tags@,
            None => Seq::empty(),
        }
    }

    /// The action buttons of the message; none where no action is set.
    pub open spec fn action_list(self) -> Seq<NtfyAction> {
        match self.actions {
            Some(actions) => actions@,
            None => Seq::empty(),
        }
    }

    /// A message for `topic` with nothing else set.
    pub fn new(topic: String) -> (r: NtfyMessage)
        ensures
            r.topic == topic,
            r.is_bare(),
    {
        NtfyMessage {
            topic,
            message: None,
            title: None,
            tags: None,
            priority: None,
            actions: None,
            click: None,
            attach: None,
            markdown: None,
            icon: None,
            filename: None,
            delay: None,
            email: None,
            call: None,
        }
    }

    /// Sets the text.
    pub fn message(self, message: String) -> (r: NtfyMessage)
        ensures
            r == (NtfyMessage { message: Some(message), ..self }),
    {
        let mut m = self;
        m.message = Some(message);
        m
    }

    /// Sets the title.
    pub fn title(self, title: String) -> (r: NtfyMessage)
        ensures
            r == (NtfyMessage { title: Some(title), ..self }),
    {
        let mut m = self;
        m.title = Some(title);
        m
    }

    /// Adds a tag after those that are set.
    pub fn add_tag(self, tag: String) -> (r: NtfyMessage)
        ensures
            r.tags is Some,
            r.tag_list() == self.tag_list().push(tag),
            r == (NtfyMessage { tags: r.tags, ..self }),
    {
        let mut m = self;
        let mut tags: Vec<String> = match m.tags {
            Some(tags) => tags,
            None => Vec::new(),
        };
        tags.push(tag);
        m.tags = Some(tags);
        m
    }

    /// Sets the tags, in place of those that are set.
    pub fn tags(self, tags: Vec<String>) -> (r: NtfyMessage)
        ensures
            r == (NtfyMessage { tags: Some(tags), ..self }),
    {
        let mut m = self;
        m.tags = Some(tags);
        m
    }

    /// Sets the priority where it is one of 1 to 5; any other number changes
    /// nothing.
    pub fn priority(self, priority: i32) -> (r: NtfyMessage)
        ensures
            MIN_PRIORITY <= priority <= MAX_PRIORITY ==> r == (NtfyMessage {
                priority: Some(priority),
                ..self
            }),
            !(MIN_PRIORITY <= priority <= MAX_PRIORITY) ==> r == self,
    {
        let mut m = self;
        if priority >= MIN_PRIORITY && priority <= MAX_PRIORITY {
            m.priority = Some(priority);
        }
        m
    }

    /// Adds an action button after those that are set.
    pub fn add_action(self, action: NtfyAction) -> (r: NtfyMessage)
        ensures
            r.actions is Some,
            r.action_list() == self.action_list().push(action),
            r == (NtfyMessage { actions: r.actions, ..self }),
    {
        let mut m = self;
        let mut actions: Vec<NtfyAction> = match m.actions {
            Some(actions) => actions,
            None => Vec::new(),
        };
        actions.push(action);
        m.actions = Some(actions);
        m
    }

    /// Sets the address that opens when the notification is clicked.
    pub fn click(self, url: String) -> (r: NtfyMessage)
        ensures
            r == (NtfyMessage { click: Some(url), ..self }),
    {
        let mut m = self;
        m.click = Some(url);
        m
    }

    /// Sets the address of the attachment.
    pub fn attach(self, url: String) -> (r: NtfyMessage)
        ensures
            r == (NtfyMessage { attach: Some(url), ..self }),
    {
        let mut m = self;
        m.attach = Some(url);
        m
    }

    /// Marks the text as Markdown.
    pub fn with_markdown(self) -> (r: NtfyMessage)
        ensures
            r == (NtfyMessage { markdown: Some(true), ..self }),
    {
        let mut m = self;
        m.markdown = Some(true);
        m
    }

    /// Sets the address of the icon.
    pub fn icon(self, url: String) -> (r: NtfyMessage)
        ensures
            r == (NtfyMessage { icon: Some(url), ..self }),
    {
        let mut m = self;
        m.icon = Some(url);
        m
    }

    /// Sets the file name of the attachment.
    pub fn filename(self, name: String) -> (r: NtfyMessage)
        ensures
            r == (NtfyMessage { filename: Some(name), ..self }),
    {
        let mut m = self;
        m.filename = Some(name);
        m
    }

    /// Sets when to deliver.
    pub fn delay(self, delay: String) -> (r: NtfyMessage)
        ensures
            r == (NtfyMessage { delay: Some(delay), ..self }),
    {
        let mut m = self;
        m.delay = Some(delay);
        m
    }

    /// Sets the address to send an e-mail to.
    pub fn email(self, email: String) -> (r: NtfyMessage)
        ensures
            r == (NtfyMessage { email: Some(email), ..self }),
    {
        let mut m = self;
        m.email = Some(email);
        m
    }

    /// Sets the phone number to call.
    pub fn call(self, number: String) -> (r: NtfyMessage)
        ensures
            r == (NtfyMessage { call: Some(number), ..self }),
    {
        let mut m = self;
        m.call = Some(number);
        m
    }
}

/// Whether `m` is the message for `topic` with `title`, the text `message`, the
/// one tag `tag` and `priority`, and nothing else set.
pub open spec fn is_labelled(
    m: NtfyMessage,
    topic: String,
    title: String,
    message: String,
    tag: Seq<char>,
    priority: i32,
) -> bool {
    &&& m.topic == topic
    &&& m.title == Some(title)
    &&& m.message == Some(message)
    &&& m.tag_list().len() == 1
    &&& m.tag_list()[0]@ == tag
    &&& m.priority == Some(priority)
    &&& m.actions is None
    &&& m.click is None
    &&& m.attach is None
    &&& m.markdown is None
    &&& m.icon is None
    &&& m.filename is None
    &&& m.delay is None
    &&& m.email is None
    &&& m.call is None
}

/// A message with the given tag and priority.
fn labelled(topic: String, title: String, message: String, tag: &str, priority: i32) -> (r:
    NtfyMessage)
    requires
        MIN_PRIORITY <= priority <= MAX_PRIORITY,
    ensures
        is_labelled(r, topic, title, message, tag@, priority),
{
    NtfyMessage::new(topic).title(title).message(message).add_tag(tag.to_owned()).priority(priority)
}

/// A warning: tagged `warning`, with priority 4.
pub fn warning_message(topic: String, title: String, message: String) -> (r: NtfyMessage)
    ensures
        is_labelled(r, topic, title, message, "warning"@, 4),
{
    labelled(topic, title, message, "warning", 4)
}

/// A report of success: tagged `white_check_mark`, with priority 3.
pub fn success_message(topic: String, title: String, message: String) -> (r: NtfyMessage)
    ensures
        is_labelled(r, topic, title, message, "white_check_mark"@, 3),
{
    labelled(topic, title, message, "white_check_mark", 3)
}

/// A report of an error: tagged `rotating_light`, with priority 5.
pub fn error_message(topic: String, title: String, message: String) -> (r: NtfyMessage)
    ensures
        is_labelled(r, topic, title, message, "rotating_light"@, 5),
{
    labelled(topic, title, message, "rotating_light", 5)
}

/// A piece of information: tagged `information`, with priority 3.
pub fn info_message(topic: String, title: String, message: String) -> (r: NtfyMessage)
    ensures
        is_labelled(r, topic, title, message, "information"@, 3),
{
    labelled(topic, title, message, "information", 3)
}

} // verus!
