use crate::message::ExtendedMessageRecord;
use crate::snowflake::ChannelKind;
use crate::snowflake::MessageKind;
use crate::snowflake::Snowflake;
use vstd::prelude::*;

verus! {

/// A partial attachment, as stored in the database.
pub struct PartialAttachmentRecord {
    pub id: i32,
    pub filename: String,
    pub message_id: i64,
    pub content_type: String,
}

/// The mathematical content of a [`PartialAttachment`].
pub struct PartialAttachmentView {
    pub id: u8,
    pub filename: Seq<char>,
    pub content_type: Seq<char>,
    pub message_id: u64,
    pub channel_id: u64,
}

/// A partial attachment, with the binary content not loaded.
#[derive(Debug)]
pub struct PartialAttachment {
    /// Describes the ordering of attachments within a message, starting from 0.
    pub id: u8,
    /// The name of the attachment file, including the file extension.
    pub filename: String,
    /// The MIME type of the file.
    pub content_type: String,
    /// The ID of the message this attachment belongs to.
    pub message_id: Snowflake<MessageKind>,
    /// The ID of the channel the message was sent to.
    pub channel_id: Snowflake<ChannelKind>,
}

impl View for PartialAttachment {
    type V = PartialAttachmentView;

    open spec fn view(&self) -> PartialAttachmentView {
        PartialAttachmentView {
            id: self.id,
            filename: self.filename@,
            content_type: self.content_type@,
            message_id: self.message_id.value,
            channel_id: self.channel_id.value,
        }
    }
}

impl Clone for PartialAttachment {
    fn clone(&self) -> (r: Self)
        ensures
            r == *self,
    {
        PartialAttachment {
            id: self.id,
            filename: self.filename.clone(),
            content_type: self.content_type.clone(),
            message_id: self.message_id,
            channel_id: self.channel_id,
        }
    }
}

impl PartialAttachment {
    /// Create a new partial attachment with the given ID and filename.
    pub fn new(
        id: u8,
        filename: String,
        content_type: String,
        channel: Snowflake<ChannelKind>,
        message: Snowflake<MessageKind>,
    ) -> (r: Self)
        ensures
            r.id == id,
            r.filename == filename,
            r.content_type == content_type,
            r.channel_id == channel,
            r.message_id == message,
    {
        PartialAttachment { id, filename, content_type, channel_id: channel, message_id: message }
    }

    /// Whether a joined message row carries an attachment that
    /// [`PartialAttachment::try_from_record`] accepts.
    pub open spec fn record_has_attachment(record: ExtendedMessageRecord) -> bool {
        record.attachment_id is Some && record.attachment_filename is Some
    }

    /// Read the attachment columns out of a joined message row; rows
    /// without attachment data are rejected. A missing content type
    /// falls back to `application/octet-stream`.
    pub fn try_from_record(record: &ExtendedMessageRecord) -> (r: Result<Self, String>)
        requires
            record.attachment_id matches Some(id) ==> 0 <= id <= 255,
        ensures
            Self::record_has_attachment(*record) <==> r is Ok,
            r matches Ok(a) ==> {
                &&& record.attachment_id matches Some(id) && a.id == id as u8
                &&& record.attachment_filename matches Some(ref f) && a.filename@ == f@
                &&& a.message_id.value == record.id as u64
                &&& a.channel_id.value == record.channel_id as u64
                &&& match record.attachment_content_type {
                    Some(ref ct) => a.content_type@ == ct@,
                    None => a.content_type@ == "application/octet-stream"@,
                }
            },
    {
        let id: i32 = match record.attachment_id {
            Some(id) => id,
            None => {
                return Err("No attachment ID".to_owned());
            },
        };
        let filename: String = match record.attachment_filename {
            Some(ref f) => f.clone(),
            None => {
                return Err("No attachment filename".to_owned());
            },
        };
        let content_type: String = match record.attachment_content_type {
            Some(ref ct) => ct.clone(),
            None => "application/octet-stream".to_owned(),
        };
        Ok(
            PartialAttachment {
                id: id as u8,
                filename,
                content_type,
                message_id: Snowflake::new(record.id as u64),
                channel_id: Snowflake::new(record.channel_id as u64),
            },
        )
    }

    /// Describes the ordering of attachments within a message.
    pub fn id(&self) -> (r: u8)
        ensures
            r == self.id,
    {
        self.id
    }

    /// The name of the attachment file.
    pub fn filename(&self) -> (r: &String)
        ensures
            r == &self.filename,
    {
        &self.filename
    }
}

/// The mathematical content of a [`FullAttachment`].
pub struct FullAttachmentView {
    pub id: u8,
    pub filename: Seq<char>,
    pub content: Seq<u8>,
    pub content_type: Seq<char>,
    pub message_id: u64,
    pub channel_id: u64,
}

impl FullAttachmentView {
    /// The partial view left after dropping the binary content.
    pub open spec fn as_partial(self) -> PartialAttachmentView {
        PartialAttachmentView {
            id: self.id,
            filename: self.filename,
            content_type: self.content_type,
            message_id: self.message_id,
            channel_id: self.channel_id,
        }
    }
}

/// An attachment with its binary content loaded in memory.
#[derive(Debug, Clone)]
pub struct FullAttachment {
    /// Describes the ordering of attachments within a message, starting from 0.
    pub id: u8,
    /// The name of the attachment file, including the file extension.
    pub filename: String,
    /// The binary content of the attachment.
    pub content: Vec<u8>,
    /// The MIME type of the file.
    pub content_type: String,
    /// The ID of the message this attachment belongs to.
    pub message_id: Snowflake<MessageKind>,
    /// The ID of the channel the message was sent to.
    pub channel_id: Snowflake<ChannelKind>,
}

impl View for FullAttachment {
    type V = FullAttachmentView;

    open spec fn view(&self) -> FullAttachmentView {
        FullAttachmentView {
            id: self.id,
            filename: self.filename@,
            content: self.content@,
            content_type: self.content_type@,
            message_id: self.message_id.value,
            channel_id: self.channel_id.value,
        }
    }
}

impl FullAttachment {
    /// Create a new attachment with the given content.
    pub fn new(
        id: u8,
        filename: String,
        content: Vec<u8>,
        content_type: String,
        channel: Snowflake<ChannelKind>,
        message: Snowflake<MessageKind>,
    ) -> (r: Self)
        ensures
            r.id == id,
            r.filename == filename,
            r.content == content,
            r.content_type == content_type,
            r.channel_id == channel,
            r.message_id == message,
    {
        FullAttachment { id, filename, content, content_type, channel_id: channel, message_id: message }
    }

    /// Drop the binary content, keeping the metadata.
    pub fn to_partial(&self) -> (r: PartialAttachment)
        ensures
            r@ == self@.as_partial(),
    {
        PartialAttachment {
            id: self.id,
            filename: self.filename.clone(),
            content_type: self.content_type.clone(),
            message_id: self.message_id,
            channel_id: self.channel_id,
        }
    }
}

/// The mathematical content of an [`Attachment`].
pub enum AttachmentView {
    Full(FullAttachmentView),
    Partial(PartialAttachmentView),
}

impl AttachmentView {
    /// The attachment with its binary content, if any, dropped.
    pub open spec fn as_partial(self) -> AttachmentView {
        AttachmentView::Partial(self.as_partial_view())
    }

    /// The metadata of the attachment.
    pub open spec fn as_partial_view(self) -> PartialAttachmentView {
        match self {
            AttachmentView::Full(f) => f.as_partial(),
            AttachmentView::Partial(p) => p,
        }
    }
}

/// An attachment of a chat message: either freshly uploaded with its
/// content in memory, or the stored metadata alone.
#[non_exhaustive]
#[derive(Debug, Clone)]
pub enum Attachment {
    Full(FullAttachment),
    Partial(PartialAttachment),
}

impl View for Attachment {
    type V = AttachmentView;

    open spec fn view(&self) -> AttachmentView {
        match self {
            Attachment::Full(f) => AttachmentView::Full(f@),
            Attachment::Partial(p) => AttachmentView::Partial(p@),
        }
    }
}

impl Attachment {
    /// Describes the ordering of attachments within a message.
    pub fn id(&self) -> (r: u8)
        ensures
            self matches Attachment::Partial(p) ==> r == p.id,
            self matches Attachment::Full(f) ==> r == f.id,
    {
        match self {
            Attachment::Full(f) => f.id,
            Attachment::Partial(p) => p.id,
        }
    }
}

} // verus!
