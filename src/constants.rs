//! Identifiers and constants of the notification service protocol.

use vstd::prelude::*;

verus! {

/// Largest value of an unsigned 16-bit field; used as a "no limit" hint.
pub const USHORT_MAX: u16 = 65535;

/// Largest value of an unsigned 32-bit field.
pub const UINT_MAX: u32 = 4294967295;

pub const ANCS_SERVICE: &'static str = "7905f431-b5ce-4e99-a40f-4b1e122d00d0";

pub const NOTIFICATION_SOURCE_CHAR: &'static str = "9fbf120d-6301-42d9-8c58-25e699a21dbd";

pub const CONTROL_POINT_CHAR: &'static str = "69d1d8f3-45e1-49a8-9821-9bbdfdaad9d9";

pub const DATA_SOURCE_CHAR: &'static str = "22eac6e9-24d6-4bb5-be44-b36ace7c7bfb";

/// Category of a notification, as carried in byte 2 of a Notification Source frame.
#[derive(Debug, Clone, Copy, PartialEq, Eq, Structural)]
pub enum CategoryID {
    Other,
    IncomingCall,
    MissedCall,
    Voicemail,
    Social,
    Schedule,
    Email,
    News,
    HealthAndFitness,
    BusinessAndFinance,
    Location,
    Entertainment,
}

pub open spec fn category_code(c: CategoryID) -> u8 {
    match c {
        CategoryID::Other => 0,
        CategoryID::IncomingCall => 1,
        CategoryID::MissedCall => 2,
        CategoryID::Voicemail => 3,
        CategoryID::Social => 4,
        CategoryID::Schedule => 5,
        CategoryID::Email => 6,
        CategoryID::News => 7,
        CategoryID::HealthAndFitness => 8,
        CategoryID::BusinessAndFinance => 9,
        CategoryID::Location => 10,
        CategoryID::Entertainment => 11,
    }
}

impl CategoryID {
    /// The category with wire code `b`, if there is one.
    pub fn from_byte(b: u8) -> (r: Option<CategoryID>)
        ensures
            r matches Some(c) ==> category_code(c) == b,
            r is None <==> b > 11,
    {
        match b {
            0 => Some(CategoryID::Other),
            1 => Some(CategoryID::IncomingCall),
            2 => Some(CategoryID::MissedCall),
            3 => Some(CategoryID::Voicemail),
            4 => Some(CategoryID::Social),
            5 => Some(CategoryID::Schedule),
            6 => Some(CategoryID::Email),
            7 => Some(CategoryID::News),
            8 => Some(CategoryID::HealthAndFitness),
            9 => Some(CategoryID::BusinessAndFinance),
            10 => Some(CategoryID::Location),
            11 => Some(CategoryID::Entertainment),
            _ => None,
        }
    }
}

/// Kind of a Notification Source event (byte 0 of the frame).
#[derive(Debug, Clone, Copy, PartialEq, Eq, Structural)]
pub enum EventID {
    NotificationAdded,
    NotificationModified,
    NotificationRemoved,
}

pub open spec fn event_code(e: EventID) -> u8 {
    match e {
        EventID::NotificationAdded => 0,
        EventID::NotificationModified => 1,
        EventID::NotificationRemoved => 2,
    }
}

/// The event kind with wire code `b`, if there is one.
pub open spec fn spec_event_of(b: u8) -> Option<EventID> {
    if b == 0 {
        Some(EventID::NotificationAdded)
    } else if b == 1 {
        Some(EventID::NotificationModified)
    } else if b == 2 {
        Some(EventID::NotificationRemoved)
    } else {
        None
    }
}

impl EventID {
    pub fn from_byte(b: u8) -> (r: Option<EventID>)
        ensures
            r == spec_event_of(b),
    {
        match b {
            0 => Some(EventID::NotificationAdded),
            1 => Some(EventID::NotificationModified),
            2 => Some(EventID::NotificationRemoved),
            _ => None,
        }
    }
}

/// Bit of the event flags: the notification is silent.
pub const FLAG_SILENT: u8 = 1;

/// Bit of the event flags: the notification is important.
pub const FLAG_IMPORTANT: u8 = 2;

/// Bit of the event flags: the notification existed before the connection.
pub const FLAG_PRE_EXISTING: u8 = 4;

/// Bit of the event flags: the notification offers a positive action.
pub const FLAG_POSITIVE_ACTION: u8 = 8;

/// Bit of the event flags: the notification offers a negative action.
pub const FLAG_NEGATIVE_ACTION: u8 = 16;

/// The set of event flags of a notification, kept as its wire byte.
#[derive(Debug, Clone, Copy, PartialEq, Eq, Structural)]
pub struct EventFlag {
    pub bits: u8,
}

impl EventFlag {
    pub open spec fn spec_contains(self, flag: u8) -> bool {
        self.bits & flag == flag
    }

    /// Whether every bit of `flag` is set.
    pub fn contains(&self, flag: u8) -> (r: bool)
        ensures
            r == self.spec_contains(flag),
    {
        self.bits & flag == flag
    }
}

/// Command of a Control Point request, echoed in byte 0 of a Data Source frame.
#[derive(Debug, Clone, Copy, PartialEq, Eq, Structural)]
pub enum CommandID {
    GetNotificationAttributes,
    GetAppAttributes,
    PerformNotificationAction,
}

pub open spec fn command_code(c: CommandID) -> u8 {
    match c {
        CommandID::GetNotificationAttributes => 0,
        CommandID::GetAppAttributes => 1,
        CommandID::PerformNotificationAction => 2,
    }
}

/// The command with wire code `b`, if there is one.
pub open spec fn spec_command_of(b: u8) -> Option<CommandID> {
    if b == 0 {
        Some(CommandID::GetNotificationAttributes)
    } else if b == 1 {
        Some(CommandID::GetAppAttributes)
    } else if b == 2 {
        Some(CommandID::PerformNotificationAction)
    } else {
        None
    }
}

impl CommandID {
    pub fn from_byte(b: u8) -> (r: Option<CommandID>)
        ensures
            r == spec_command_of(b),
    {
        match b {
            0 => Some(CommandID::GetNotificationAttributes),
            1 => Some(CommandID::GetAppAttributes),
            2 => Some(CommandID::PerformNotificationAction),
            _ => None,
        }
    }

    pub fn to_byte(&self) -> (r: u8)
        ensures
            r == command_code(*self),
    {
        match self {
            CommandID::GetNotificationAttributes => 0,
            CommandID::GetAppAttributes => 1,
            CommandID::PerformNotificationAction => 2,
        }
    }
}

/// Attribute of a notification that a Control Point request may ask for.
#[derive(Debug, Clone, Copy, PartialEq, Eq, Structural)]
pub enum NotificationAttributeID {
    AppIdentifier,
    Title,
    Subtitle,
    Message,
    MessageSize,
    Date,
    PositiveActionLabel,
    NegativeActionLabel,
}

pub open spec fn attribute_code(a: NotificationAttributeID) -> u8 {
    match a {
        NotificationAttributeID::AppIdentifier => 0,
        NotificationAttributeID::Title => 1,
        NotificationAttributeID::Subtitle => 2,
        NotificationAttributeID::Message => 3,
        NotificationAttributeID::MessageSize => 4,
        NotificationAttributeID::Date => 5,
        NotificationAttributeID::PositiveActionLabel => 6,
        NotificationAttributeID::NegativeActionLabel => 7,
    }
}

impl NotificationAttributeID {
    pub fn to_byte(&self) -> (r: u8)
        ensures
            r == attribute_code(*self),
    {
        match self {
            NotificationAttributeID::AppIdentifier => 0,
            NotificationAttributeID::Title => 1,
            NotificationAttributeID::Subtitle => 2,
            NotificationAttributeID::Message => 3,
            NotificationAttributeID::MessageSize => 4,
            NotificationAttributeID::Date => 5,
            NotificationAttributeID::PositiveActionLabel => 6,
            NotificationAttributeID::NegativeActionLabel => 7,
        }
    }
}

/// Which of a notification's two actions to perform.
#[derive(Debug, Clone, Copy, PartialEq, Eq, Structural)]
pub enum ActionID {
    Positive,
    Negative,
}

/// Attribute of an application that a Control Point request may ask for.
#[derive(Debug, Clone, Copy, PartialEq, Eq, Structural)]
pub enum AppAttributeID {
    DisplayName,
}

} // verus!
