use vstd::prelude::*;

verus! {

/// Earliest `created_at` value a message may carry, in seconds since the
/// Unix epoch: the start of year 0000, less a day of slack for the widest
/// UTC offset an RFC 3339 timestamp can carry.
pub const CREATED_AT_MIN: i64 = -62167305600;

/// Latest `created_at` value a message may carry, in seconds since the
/// Unix epoch: the end of year 9999, plus a day of slack for the widest
/// UTC offset an RFC 3339 timestamp can carry.
pub const CREATED_AT_MAX: i64 = 253402387199;

/// The mathematical image of a [`Message`]: the same six fields over
/// sequences and plain integers.
pub struct MessageView {
    pub topic_id: u64,
    pub id: u64,
    pub account_name: Seq<char>,
    pub account_fullname: Seq<char>,
    pub message: Seq<char>,
    pub created_at: i64,
}

/// A message timestamp is well formed when it lies in the range an
/// RFC 3339 date-time normalized to UTC can denote.
pub open spec fn message_wf(m: MessageView) -> bool {
    CREATED_AT_MIN <= m.created_at <= CREATED_AT_MAX
}

/// The canonical in-memory representation of one imported message.
///
/// `created_at` is the instant the message was written, normalized to UTC
/// and held at second granularity as seconds since the Unix epoch.
pub struct Message {
    pub topic_id: u64,
    pub id: u64,
    pub account_name: String,
    pub account_fullname: String,
    pub message: String,
    pub created_at: i64,
}

impl View for Message {
    type V = MessageView;

    open spec fn view(&self) -> MessageView {
        MessageView {
            topic_id: self.topic_id,
            id: self.id,
            account_name: self.account_name@,
            account_fullname: self.account_fullname@,
            message: self.message@,
            created_at: self.created_at,
        }
    }
}

impl DeepView for Message {
    type V = MessageView;

    open spec fn deep_view(&self) -> MessageView {
        self.view()
    }
}

impl Message {
    /// A message is well formed when its timestamp lies in the
    /// representable range.
    pub open spec fn wf(&self) -> bool {
        message_wf(self@)
    }

    pub fn new(
        topic_id: u64,
        id: u64,
        account_name: &str,
        account_fullname: &str,
        message: &str,
        created_at: i64,
    ) -> (m: Message)
        requires
            CREATED_AT_MIN <= created_at <= CREATED_AT_MAX,
        ensures
            m@ == (MessageView {
                topic_id,
                id,
                account_name: account_name@,
                account_fullname: account_fullname@,
                message: message@,
                created_at,
            }),
            m.wf(),
    {
        Message {
            topic_id,
            id,
            account_name: account_name.to_owned(),
            account_fullname: account_fullname.to_owned(),
            message: message.to_owned(),
            created_at,
        }
    }

    pub fn topic_id(&self) -> (r: u64)
        ensures
            r == self.topic_id,
    {
        self.topic_id
    }

    pub fn id(&self) -> (r: u64)
        ensures
            r == self.id,
    {
        self.id
    }

    pub fn account_name(&self) -> (r: &str)
        ensures
            r@ == self.account_name@,
    {
        self.account_name.as_str()
    }

    pub fn account_fullname(&self) -> (r: &str)
        ensures
            r@ == self.account_fullname@,
    {
        self.account_fullname.as_str()
    }

    pub fn message(&self) -> (r: &str)
        ensures
            r@ == self.message@,
    {
        self.message.as_str()
    }

    pub fn created_at(&self) -> (r: i64)
        ensures
            r == self.created_at,
    {
        self.created_at
    }
}

} // verus!
