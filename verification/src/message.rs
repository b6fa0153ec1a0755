use crate::attachment::Attachment;
use crate::attachment::AttachmentView;
use crate::attachment::PartialAttachment;
use crate::attachment::PartialAttachmentView;
use crate::errors::BuilderError;
use crate::member::UserLike;
use crate::member::UserLikeView;
use crate::presence::Presence;
use crate::snowflake::ChannelKind;
use crate::snowflake::MessageKind;
use crate::snowflake::Snowflake;
use crate::user::User;
use crate::user::UserView;
use vstd::prelude::*;

verus! {

/// Represents a message record stored in the database.
pub struct MessageRecord {
    pub id: i64,
    pub channel_id: i64,
    pub user_id: Option<i64>,
    pub content: String,
}

/// Represents a message record with associated author data as
/// queried. All author fields are optional because the author may
/// have been deleted; the attachment fields come from an outer join.
pub struct ExtendedMessageRecord {
    pub id: i64,
    pub channel_id: i64,
    pub content: Option<String>,
    pub user_id: Option<i64>,
    pub username: Option<String>,
    pub display_name: Option<String>,
    pub attachment_id: Option<i32>,
    pub attachment_filename: Option<String>,
    pub attachment_content_type: Option<String>,
}

/// The mathematical content of a [`Message`].
pub struct MessageView {
    pub id: u64,
    pub channel_id: u64,
    pub author: Option<UserLikeView>,
    pub nonce: Option<Seq<char>>,
    pub content: Option<Seq<char>>,
    pub attachments: Seq<AttachmentView>,
}

/// A chat message.
#[derive(Debug, Clone)]
pub struct Message {
    /// The id of the message.
    pub id: Snowflake<MessageKind>,
    /// The id of the channel this message was sent in.
    pub channel_id: Snowflake<ChannelKind>,
    /// The author of the message. This may be none if the author has
    /// been deleted since.
    pub author: Option<UserLike>,
    /// A nonce that can be used by a client to determine if the
    /// message was sent. It is not stored in the database.
    pub nonce: Option<String>,
    /// The content of the message.
    pub content: Option<String>,
    /// Attachments sent with this message.
    pub attachments: Vec<Attachment>,
}

impl View for Message {
    type V = MessageView;

    open spec fn view(&self) -> MessageView {
        MessageView {
            id: self.id.value,
            channel_id: self.channel_id.value,
            author: match self.author {
                Some(ref a) => Some(a@),
                None => None,
            },
            nonce: match self.nonce {
                Some(ref n) => Some(n@),
                None => None,
            },
            content: match self.content {
                Some(ref c) => Some(c@),
                None => None,
            },
            attachments: self.attachments@.map_values(|a: Attachment| a@),
        }
    }
}

/// The length of the leading run of rows that all belong to the
/// first row's message.
pub open spec fn first_group_len(records: Seq<ExtendedMessageRecord>) -> int
    decreases records.len(),
{
    if records.len() == 0 {
        0
    } else if records.len() == 1 {
        1
    } else if records[1].id == records[0].id {
        1 + first_group_len(records.drop_first())
    } else {
        1
    }
}

/// The first group is never empty, never longer than the input, holds
/// exactly the rows carrying the first row's id, and ends where that
/// id changes.
pub proof fn lemma_first_group_len(records: Seq<ExtendedMessageRecord>)
    requires
        records.len() > 0,
    ensures
        1 <= first_group_len(records) <= records.len(),
        forall|j: int|
            0 <= j < first_group_len(records) ==> #[trigger] records[j].id == records[0].id,
        first_group_len(records) < records.len() ==> records[first_group_len(records)].id
            != records[0].id,
    decreases records.len(),
{
    if records.len() > 1 && records[1].id == records[0].id {
        lemma_first_group_len(records.drop_first());
        assert forall|j: int| 0 <= j < first_group_len(records) implies #[trigger] records[j].id
            == records[0].id by {
            if j >= 1 {
                assert(records.drop_first()[j - 1] == records[j]);
            }
        }
        if first_group_len(records) < records.len() {
            assert(records.drop_first()[first_group_len(records) - 1] == records[first_group_len(
                records,
            )]);
        }
    }
}

/// The attachment views carried by the rows of one group, in row
/// order.
pub open spec fn attachments_of(group: Seq<ExtendedMessageRecord>) -> Seq<AttachmentView>
    decreases group.len(),
{
    if group.len() == 0 {
        Seq::empty()
    } else {
        attachments_of(group.drop_last()) + if PartialAttachment::record_has_attachment(
            group.last(),
        ) {
            seq![record_attachment_view(group.last())]
        } else {
            Seq::empty()
        }
    }
}

/// The attachment view a single joined row describes.
pub open spec fn record_attachment_view(record: ExtendedMessageRecord) -> AttachmentView {
    AttachmentView::Partial(
        PartialAttachmentView {
            id: match record.attachment_id {
                Some(id) => id as u8,
                None => 0,
            },
            filename: match record.attachment_filename {
                Some(f) => f@,
                None => Seq::empty(),
            },
            content_type: match record.attachment_content_type {
                Some(ct) => ct@,
                None => "application/octet-stream"@,
            },
            message_id: record.id as u64,
            channel_id: record.channel_id as u64,
        },
    )
}

/// The author view a group's first row describes: the user columns
/// of the join, with the default presence.
pub open spec fn record_author_view(record: ExtendedMessageRecord) -> Option<UserLikeView> {
    match record.user_id {
        Some(uid) => Some(
            UserLikeView::User(
                UserView {
                    id: uid as u64,
                    username: match record.username {
                        Some(u) => u@,
                        None => Seq::empty(),
                    },
                    display_name: match record.display_name {
                        Some(d) => Some(d@),
                        None => None,
                    },
                    last_presence: Presence::Online,
                    displayed_presence: None,
                },
            ),
        ),
        None => None,
    }
}

/// The message one group of rows describes.
pub open spec fn message_of_group(group: Seq<ExtendedMessageRecord>) -> MessageView {
    MessageView {
        id: group[0].id as u64,
        channel_id: group[0].channel_id as u64,
        author: record_author_view(group[0]),
        nonce: None,
        content: match group[0].content {
            Some(c) => Some(c@),
            None => None,
        },
        attachments: attachments_of(group),
    }
}

/// The messages a full result set describes: one message per group
/// of rows sharing an id, in result order.
pub open spec fn messages_of_records(records: Seq<ExtendedMessageRecord>) -> Seq<MessageView>
    decreases records.len(),
    via messages_of_records_decreases
{
    if records.len() == 0 {
        Seq::empty()
    } else {
        seq![message_of_group(records.take(first_group_len(records)))] + messages_of_records(
            records.skip(first_group_len(records)),
        )
    }
}

#[via_fn]
proof fn messages_of_records_decreases(records: Seq<ExtendedMessageRecord>) {
    if records.len() > 0 {
        lemma_first_group_len(records);
    }
}

/// A row set is well formed when joined author columns are present
/// wherever an author id is, and attachment ids fit the ordering
/// byte.
pub open spec fn records_well_formed(records: Seq<ExtendedMessageRecord>) -> bool {
    forall|i: int|
        0 <= i < records.len() ==> {
            &&& (#[trigger] records[i]).user_id is Some ==> records[i].username is Some
            &&& records[i].attachment_id matches Some(id) ==> 0 <= id <= 255
        }
}

impl Message {
    /// Create a new builder for a message.
    pub fn builder() -> (r: MessageBuilder)
        ensures
            r.id is None,
            r.channel_id is None,
            r.author is None,
            r.nonce is None,
            r.content is None,
            r.attachments is None,
    {
        MessageBuilder {
            id: None,
            channel_id: None,
            author: None,
            nonce: None,
            content: None,
            attachments: None,
        }
    }

    /// The unique ID of this message.
    pub fn id(&self) -> (r: Snowflake<MessageKind>)
        ensures
            r == self.id,
    {
        self.id
    }

    /// The user who sent this message. This may be `None` if the
    /// author has been deleted since.
    pub fn author(&self) -> (r: &Option<UserLike>)
        ensures
            r == &self.author,
    {
        &self.author
    }

    /// Create messages from joined database rows. Rows sharing an id
    /// are linked together into one message carrying all their
    /// attachments; the author and content come from the first row
    /// of each group.
    pub fn from_records(records: &Vec<ExtendedMessageRecord>) -> (r: Vec<Message>)
        requires
            records_well_formed(records@),
        ensures
            r@.map_values(|m: Message| m@) == messages_of_records(records@),
    {
        let n = records.len();
        let mut out: Vec<Message> = Vec::new();
        let mut i: usize = 0;
        proof {
            assert(records@.skip(0) =~= records@);
            assert(out@.map_values(|m: Message| m@) =~= Seq::<MessageView>::empty());
        }
        while i < n
            invariant
                n == records@.len(),
                0 <= i <= n,
                records_well_formed(records@),
                i < n ==> (i == 0 || records@[i as int].id != records@[i - 1].id),
                out@.map_values(|m: Message| m@) + messages_of_records(records@.skip(i as int))
                    =~= messages_of_records(records@),
            decreases n - i,
        {
            let ghost rest = records@.skip(i as int);
            let start = i;
            let mut j = i + 1;
            while j < n && records[j].id == records[j - 1].id
                invariant
                    n == records@.len(),
                    0 <= start < j <= n,
                    forall|k: int| start <= k < j ==> #[trigger] records@[k].id == records@[start as int].id,
                decreases n - j,
            {
                j += 1;
            }
            proof {
                lemma_first_group_len(rest);
                assert forall|k: int| 0 <= k < rest.len() && start + k < j implies (
                #[trigger] rest[k]).id == rest[0].id by {
                    assert(rest[k] == records@[start + k]);
                }
                if j < n {
                    assert(rest[j - start] == records@[j as int]);
                    assert(records@[j as int].id != records@[j - 1].id);
                    assert(rest[j - start - 1] == records@[j - 1]);
                }
                assert(first_group_len(rest) == j - start) by {
                    let g = first_group_len(rest);
                    if g < j - start {
                        assert(rest[g].id == rest[0].id);
                    }
                    if g > j - start {
                        assert(rest[j - start].id == rest[0].id);
                    }
                }
            }
            let ghost group = rest.take((j - start) as int);
            // Collect the attachments carried by the rows of this group.
            let mut attachments: Vec<Attachment> = Vec::new();
            let mut k = start;
            while k < j
                invariant
                    n == records@.len(),
                    0 <= start <= k <= j <= n,
                    records_well_formed(records@),
                    group == records@.skip(start as int).take((j - start) as int),
                    attachments@.map_values(|a: Attachment| a@) =~= attachments_of(
                        group.take((k - start) as int),
                    ),
                decreases j - k,
            {
                proof {
                    assert(group.take((k + 1 - start) as int).drop_last() =~= group.take(
                        (k - start) as int,
                    ));
                    assert(group.take((k + 1 - start) as int).last() == records@[k as int]);
                }
                match PartialAttachment::try_from_record(&records[k]) {
                    Ok(att) => {
                        attachments.push(Attachment::Partial(att));
                    },
                    Err(_) => {},
                }
                k += 1;
            }
            let first = &records[start];
            let author: Option<UserLike> = match first.user_id {
                Some(uid) => {
                    let username: String = match first.username {
                        Some(ref u) => u.clone(),
                        None => {
                            proof {
                                assert(records@[start as int].user_id is Some);
                            }
                            unreached()
                        },
                    };
                    Some(
                        UserLike::User(
                            User {
                                id: Snowflake::new(uid as u64),
                                username,
                                display_name: match first.display_name {
                                    Some(ref d) => Some(d.clone()),
                                    None => None,
                                },
                                last_presence: Presence::Online,
                                displayed_presence: None,
                            },
                        ),
                    )
                },
                None => None,
            };
            let content: Option<String> = match first.content {
                Some(ref c) => Some(c.clone()),
                None => None,
            };
            let msg = Message {
                id: Snowflake::new(first.id as u64),
                channel_id: Snowflake::new(first.channel_id as u64),
                author,
                nonce: None,
                content,
                attachments,
            };
            proof {
                assert(group.take((j - start) as int) =~= group);
                assert(msg@.attachments =~= attachments_of(group));
                assert(group[0] == records@[start as int]);
                assert(msg@ == message_of_group(group));
                assert(messages_of_records(rest) == seq![message_of_group(group)]
                    + messages_of_records(rest.skip((j - start) as int)));
                assert(rest.skip((j - start) as int) =~= records@.skip(j as int));
                assert((out@ + seq![msg]).map_values(|m: Message| m@) =~= out@.map_values(
                    |m: Message| m@,
                ) + seq![msg@]);
            }
            out.push(msg);
            i = j;
        }
        proof {
            assert(records@.skip(n as int) =~= Seq::<ExtendedMessageRecord>::empty());
            assert(out@.map_values(|m: Message| m@) =~= messages_of_records(records@));
        }
        out
    }

    /// Turns all attachments into partial attachments, removing the
    /// attachment contents from memory.
    pub fn strip_attachment_contents(self) -> (r: Self)
        ensures
            r.id == self.id,
            r.channel_id == self.channel_id,
            r.author == self.author,
            r.nonce == self.nonce,
            r.content == self.content,
            r.attachments@.len() == self.attachments@.len(),
            forall|i: int|
                0 <= i < self.attachments@.len() ==> #[trigger] r.attachments@[i]@
                    == self.attachments@[i]@.as_partial(),
    {
        let Message { id, channel_id, author, nonce, content, attachments: old_attachments } =
            self;
        let mut attachments: Vec<Attachment> = Vec::new();
        let n = old_attachments.len();
        let mut i: usize = 0;
        while i < n
            invariant
                n == old_attachments@.len(),
                0 <= i <= n,
                attachments@.len() == i,
                forall|k: int|
                    0 <= k < i ==> #[trigger] attachments@[k]@ == old_attachments@[k]@.as_partial(),
            decreases n - i,
        {
            match &old_attachments[i] {
                Attachment::Full(f) => {
                    attachments.push(Attachment::Partial(f.to_partial()));
                },
                Attachment::Partial(p) => {
                    attachments.push(Attachment::Partial(p.clone()));
                },
            }
            i += 1;
        }
        Message { id, channel_id, author, nonce, content, attachments }
    }
}

/// A builder assembling a [`Message`] field by field.
#[derive(Debug, Clone)]
pub struct MessageBuilder {
    pub id: Option<Snowflake<MessageKind>>,
    pub channel_id: Option<Snowflake<ChannelKind>>,
    pub author: Option<UserLike>,
    pub nonce: Option<String>,
    pub content: Option<String>,
    pub attachments: Option<Vec<Attachment>>,
}

impl MessageBuilder {
    /// Set the message id.
    pub fn id(&mut self, id: Snowflake<MessageKind>)
        ensures
            *final(self) == (MessageBuilder { id: Some(id), ..*old(self) }),
    {
        self.id = Some(id);
    }

    /// Set the channel the message was sent in.
    pub fn channel_id(&mut self, channel_id: Snowflake<ChannelKind>)
        ensures
            *final(self) == (MessageBuilder { channel_id: Some(channel_id), ..*old(self) }),
    {
        self.channel_id = Some(channel_id);
    }

    /// Set the author.
    pub fn author(&mut self, author: UserLike)
        ensures
            *final(self) == (MessageBuilder { author: Some(author), ..*old(self) }),
    {
        self.author = Some(author);
    }

    /// Set the client nonce.
    pub fn nonce(&mut self, nonce: Option<String>)
        ensures
            *final(self) == (MessageBuilder { nonce, ..*old(self) }),
    {
        self.nonce = nonce;
    }

    /// Set the text content.
    pub fn content(&mut self, content: Option<String>)
        ensures
            *final(self) == (MessageBuilder { content, ..*old(self) }),
    {
        self.content = content;
    }

    /// Set the attachments.
    pub fn attachments(&mut self, attachments: Vec<Attachment>)
        ensures
            *final(self) == (MessageBuilder { attachments: Some(attachments), ..*old(self) }),
    {
        self.attachments = Some(attachments);
    }

    /// A message must carry text content or at least one attachment.
    pub fn validate(&self) -> (r: Result<(), String>)
        ensures
            r is Ok <==> self.spec_valid(),
    {
        if self.content.is_none() && (self.attachments.is_none() || self.attachments.as_ref().unwrap().len() == 0) {
            Err("Message must have content or attachments".to_owned())
        } else {
            Ok(())
        }
    }

    /// What [`MessageBuilder::validate`] accepts.
    pub open spec fn spec_valid(&self) -> bool {
        self.content is Some || (self.attachments matches Some(a) && a@.len() > 0)
    }

    /// Assemble the message, failing on an invalid combination of
    /// fields or a missing required field, in that order.
    pub fn build(self) -> (r: Result<Message, BuilderError>)
        ensures
            !self.spec_valid() ==> (r matches Err(e) && e is ValidationError),
            self.spec_valid() && self.id is None ==> (r matches Err(e)
                && e is UninitializedField),
            self.spec_valid() && self.id is Some && self.channel_id is None ==> (r matches Err(e)
                && e is UninitializedField),
            self.spec_valid() && self.id is Some && self.channel_id is Some
                && self.author is None ==> (r matches Err(e) && e is UninitializedField),
            self.spec_valid() && self.id is Some && self.channel_id is Some
                && self.author is Some ==> (r matches Ok(m) && Some(m.id) == self.id
                && Some(m.channel_id) == self.channel_id && m.author == self.author && m.nonce
                == self.nonce && m.content == self.content && m@.attachments
                == match self.attachments {
                Some(a) => a@.map_values(|at: Attachment| at@),
                None => Seq::<AttachmentView>::empty(),
            }),
    {
        if let Err(msg) = self.validate() {
            return Err(BuilderError::ValidationError(msg));
        }
        let id = match self.id {
            Some(id) => id,
            None => {
                return Err(BuilderError::UninitializedField("id"));
            },
        };
        let channel_id = match self.channel_id {
            Some(c) => c,
            None => {
                return Err(BuilderError::UninitializedField("channel_id"));
            },
        };
        if self.author.is_none() {
            return Err(BuilderError::UninitializedField("author"));
        }
        let attachments = match self.attachments {
            Some(a) => a,
            None => Vec::new(),
        };
        proof {
            assert(Seq::<Attachment>::empty().map_values(|at: Attachment| at@)
                =~= Seq::<AttachmentView>::empty());
        }
        Ok(
            Message {
                id,
                channel_id,
                author: self.author,
                nonce: self.nonce,
                content: self.content,
                attachments,
            },
        )
    }
}

} // verus!
