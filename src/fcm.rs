//! The notification side: what a scheduled message is sent as.
use vstd::prelude::*;

verus! {

/// The notification service as first published.
#[derive(Debug, Default)]
pub struct FCMAPI;

/// The example schedule: every minute.
pub fn cron_example() -> (r: String)
    ensures
        r@ == "*/1 * * * *"@,
{
    String::from_str("*/1 * * * *")
}

/// The example schedule name.
pub fn name_example() -> (r: String)
    ensures
        r@ == "Remind me to drink water every 45 minutes"@,
{
    String::from_str("Remind me to drink water every 45 minutes")
}

/// The visible part of a push message.
#[derive(Debug)]
pub struct Notification {
    pub title: Option<String>,
    pub body: Option<String>,
}

impl Notification {
    /// A notification with neither title nor body is left out of the message.
    pub fn is_empty(&self) -> (r: bool)
        ensures
            r == (self.title is None && self.body is None),
    {
        self.title.is_none() && self.body.is_none()
    }
}

/// The value of the last entry of `data` keyed `key`: a later entry
/// overrides an earlier one.
pub open spec fn value_of(data: Seq<(String, String)>, key: Seq<char>) -> Option<String>
    decreases data.len(),
{
    if data.len() == 0 {
        None
    } else if data.last().0@ == key {
        Some(data.last().1)
    } else {
        value_of(data.drop_last(), key)
    }
}

pub open spec fn is_notification_key(k: Seq<char>) -> bool {
    k == "title"@ || k == "body"@
}

/// The entries of `data` that stay in the message's data, in order.
pub open spec fn data_entries(data: Seq<(String, String)>) -> Seq<(String, String)>
    decreases data.len(),
{
    if data.len() == 0 {
        Seq::empty()
    } else if is_notification_key(data.last().0@) {
        data_entries(data.drop_last())
    } else {
        data_entries(data.drop_last()).push(data.last())
    }
}

/// Splits a message's payload entries into its notification (the `title`
/// and `body` entries) and the data sent along with it (all other entries).
pub fn split_payload(data: Vec<(String, String)>) -> (r: (Notification, Vec<(String, String)>))
    ensures
        r.0.title == value_of(data@, "title"@),
        r.0.body == value_of(data@, "body"@),
        r.1@ == data_entries(data@),
{
    let mut title: Option<String> = None;
    let mut body: Option<String> = None;
    let mut rest: Vec<(String, String)> = Vec::new();
    let title_key = String::from_str("title");
    let body_key = String::from_str("body");
    let mut i: usize = 0;
    while i < data.len()
        invariant
            title_key@ == "title"@,
            body_key@ == "body"@,
            0 <= i <= data@.len(),
            title == value_of(data@.take(i as int), "title"@),
            body == value_of(data@.take(i as int), "body"@),
            rest@ == data_entries(data@.take(i as int)),
        decreases data.len() - i,
    {
        proof {
            let t = data@.take(i as int + 1);
            assert(t.drop_last() == data@.take(i as int));
            assert(t.last() == data@[i as int]);
            reveal_strlit("title");
            reveal_strlit("body");
            assert("title"@.len() != "body"@.len());
        }
        let (k, v) = (&data[i].0, &data[i].1);
        let is_title = *k == title_key;
        let is_body = *k == body_key;
        if is_title {
            title = Some(v.clone());
        } else if is_body {
            body = Some(v.clone());
        } else {
            rest.push((k.clone(), v.clone()));
        }
        i = i + 1;
    }
    proof {
        assert(data@.take(data@.len() as int) == data@);
    }
    (Notification { title, body }, rest)
}

pub open spec fn message_endpoint_of(project_id: Seq<char>) -> Seq<char> {
    "https://fcm.googleapis.com/v1/projects/"@ + project_id + "/messages:send"@
}

/// Where a project's push messages are sent.
pub fn message_endpoint(project_id: &str) -> (r: String)
    ensures
        r@ == message_endpoint_of(project_id@),
{
    let mut r = String::from_str("https://fcm.googleapis.com/v1/projects/");
    r.append(project_id);
    r.append("/messages:send");
    r
}

} // verus!
