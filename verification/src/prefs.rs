use crate::snowflake::Snowflake;
use crate::snowflake::UserKind;
use crate::user::User;
use vstd::prelude::*;

verus! {

/// Bit for rendering attachments inline.
pub const PREF_RENDER_ATTACHMENTS: u64 = 1;

/// Bit for automatically playing animated images.
pub const PREF_AUTOPLAY_GIF: u64 = 2;

/// The mask of all defined preference bits.
pub const PREF_ALL: u64 = 3;

/// Boolean flags for user preferences, packed into a 64-bit word.
#[derive(Debug, Clone, Copy, PartialEq, Eq, Structural)]
pub struct PrefFlags {
    pub bits: u64,
}

impl PrefFlags {
    /// The raw bit representation.
    pub fn bits(&self) -> (r: u64)
        ensures
            r == self.bits,
    {
        self.bits
    }

    /// Interpret a stored bit pattern; patterns with undefined bits
    /// are rejected.
    pub fn from_bits(bits: u64) -> (r: Option<PrefFlags>)
        ensures
            bits & PREF_ALL == bits ==> r == Some(PrefFlags { bits }),
            bits & PREF_ALL != bits ==> r is None,
    {
        if bits & PREF_ALL == bits {
            Some(PrefFlags { bits })
        } else {
            None
        }
    }

    /// Whether every bit of `other` is set in `self`.
    pub fn contains(&self, other: PrefFlags) -> (r: bool)
        ensures
            r == (self.bits & other.bits == other.bits),
    {
        self.bits & other.bits == other.bits
    }
}

impl Default for PrefFlags {
    /// New users render attachments and autoplay animations.
    fn default() -> (r: Self)
        ensures
            r.bits == PREF_RENDER_ATTACHMENTS | PREF_AUTOPLAY_GIF,
    {
        PrefFlags { bits: PREF_RENDER_ATTACHMENTS | PREF_AUTOPLAY_GIF }
    }
}

/// Layout for the frontend UI.
#[derive(Debug, Clone, Copy, PartialEq, Eq, Structural)]
pub enum Layout {
    Compact,
    Normal,
    Comfy,
}

impl Layout {
    /// The storage code of this layout.
    pub fn code(&self) -> (r: u8)
        ensures
            r == self.spec_code(),
    {
        match self {
            Layout::Compact => 0,
            Layout::Normal => 1,
            Layout::Comfy => 2,
        }
    }

    /// The code that [`Layout::code`] returns.
    pub open spec fn spec_code(self) -> u8 {
        match self {
            Layout::Compact => 0,
            Layout::Normal => 1,
            Layout::Comfy => 2,
        }
    }

    /// The layout stored under the given code; unknown codes fall
    /// back to `Normal`.
    pub fn from_code(code: u8) -> (r: Self)
        ensures
            r == Self::spec_from_code(code),
    {
        match code {
            0 => Layout::Compact,
            1 => Layout::Normal,
            2 => Layout::Comfy,
            _ => Layout::Normal,
        }
    }

    /// The layout that [`Layout::from_code`] returns.
    pub open spec fn spec_from_code(code: u8) -> Self {
        if code == 0 {
            Layout::Compact
        } else if code == 1 {
            Layout::Normal
        } else if code == 2 {
            Layout::Comfy
        } else {
            Layout::Normal
        }
    }
}

/// Update payload for user preferences. `None` fields are left
/// untouched by [`Prefs::update`].
#[derive(Debug, Clone)]
pub struct PrefsUpdate {
    pub flags: Option<PrefFlags>,
    pub message_grouping_timeout: Option<u64>,
    pub layout: Option<Layout>,
    pub text_size: Option<u8>,
    pub locale: Option<String>,
}

/// A user's preferences.
#[derive(Debug, Clone)]
pub struct Prefs {
    pub user_id: Snowflake<UserKind>,
    /// The user's preference flags.
    pub flags: PrefFlags,
    /// The timeout for grouping messages, in seconds.
    pub message_grouping_timeout: u64,
    /// The layout of the frontend.
    pub layout: Layout,
    /// The text size of chat messages.
    pub text_size: u8,
    /// The date format locale for chat messages.
    pub locale: String,
}

impl Prefs {
    /// The default preferences of a fresh user.
    pub fn new(user_id: Snowflake<UserKind>) -> (r: Self)
        ensures
            r.user_id == user_id,
            r.flags.bits == PREF_RENDER_ATTACHMENTS | PREF_AUTOPLAY_GIF,
            r.message_grouping_timeout == 60,
            r.layout == Layout::Normal,
            r.text_size == 12,
            r.locale@ == "en_US"@,
    {
        Prefs {
            user_id,
            flags: PrefFlags { bits: PREF_RENDER_ATTACHMENTS | PREF_AUTOPLAY_GIF },
            message_grouping_timeout: 60,
            layout: Layout::Normal,
            text_size: 12,
            locale: "en_US".to_owned(),
        }
    }

    /// The user that owns the preferences.
    pub fn user_id(&self) -> (r: Snowflake<UserKind>)
        ensures
            r == self.user_id,
    {
        self.user_id
    }

    /// Apply a set of updates: every field given in `update` replaces
    /// the stored value, every `None` field is kept.
    pub fn update(&mut self, update: PrefsUpdate)
        ensures
            final(self).user_id == old(self).user_id,
            update.flags matches Some(v) ==> final(self).flags == v,
            update.flags is None ==> final(self).flags == old(self).flags,
            update.message_grouping_timeout matches Some(v) ==> final(self).message_grouping_timeout == v,
            update.message_grouping_timeout is None ==> final(self).message_grouping_timeout
                == old(self).message_grouping_timeout,
            update.layout matches Some(v) ==> final(self).layout == v,
            update.layout is None ==> final(self).layout == old(self).layout,
            update.text_size matches Some(v) ==> final(self).text_size == v,
            update.text_size is None ==> final(self).text_size == old(self).text_size,
            update.locale matches Some(v) ==> final(self).locale == v,
            update.locale is None ==> final(self).locale == old(self).locale,
    {
        if let Some(flags) = update.flags {
            self.flags = flags;
        }
        if let Some(message_grouping_timeout) = update.message_grouping_timeout {
            self.message_grouping_timeout = message_grouping_timeout;
        }
        if let Some(layout) = update.layout {
            self.layout = layout;
        }
        if let Some(text_size) = update.text_size {
            self.text_size = text_size;
        }
        if let Some(locale) = update.locale {
            self.locale = locale;
        }
    }
}

} // verus!
