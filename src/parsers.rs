//! Decoding of Notification Source and Data Source frames.

use vstd::prelude::*;
use vstd::slice::slice_subrange;
use vstd::utf8::{decode_utf8, encode_utf8, encode_utf8_decode_utf8, valid_utf8};

use crate::constants::{
    CategoryID, CommandID, EventFlag, EventID, FLAG_NEGATIVE_ACTION, FLAG_POSITIVE_ACTION,
    FLAG_PRE_EXISTING, spec_command_of, spec_event_of,
};

verus! {

/// Why a frame could not be decoded.
#[derive(Debug, Clone, Copy, PartialEq, Eq, Structural)]
pub enum DecodeError {
    /// The frame breaks the protocol: an unknown identifier or a string that is not UTF-8.
    MalformedFrame,
    /// The frame ends before the data it announces.
    Incomplete,
}

/// Display name given to an application that the phone reports without one.
pub const NOT_INSTALLED: &'static str = "<not installed>";

/// The unsigned 16-bit little-endian value at `i`.
pub open spec fn u16_at(d: Seq<u8>, i: int) -> int {
    d[i] as int + d[i + 1] as int * 256
}

/// The unsigned 32-bit little-endian value at `i`.
pub open spec fn u32_at(d: Seq<u8>, i: int) -> u32 {
    (d[i] as int + d[i + 1] as int * 256 + d[i + 2] as int * 65536 + d[i + 3] as int
        * 16777216) as u32
}

/// A length-prefixed UTF-8 string at `pos`: the text and the position after it.
pub open spec fn spec_parse_string(d: Seq<u8>, pos: int) -> Result<(Seq<char>, int), DecodeError> {
    if pos < 0 || pos + 2 > d.len() {
        Err(DecodeError::Incomplete)
    } else if pos + 2 + u16_at(d, pos) > d.len() {
        Err(DecodeError::Incomplete)
    } else if !valid_utf8(d.subrange(pos + 2, pos + 2 + u16_at(d, pos))) {
        Err(DecodeError::MalformedFrame)
    } else {
        Ok(
            (
                decode_utf8(d.subrange(pos + 2, pos + 2 + u16_at(d, pos))),
                pos + 2 + u16_at(d, pos),
            ),
        )
    }
}

/// Relies on std::str::from_utf8: it accepts exactly the well-formed UTF-8
/// byte strings, and the text it returns is made of those bytes.
#[verifier::external_body]
fn utf8_to_string(b: &[u8]) -> (r: Option<String>)
    ensures
        r is Some <==> valid_utf8(b@),
        r matches Some(s) ==> encode_utf8(s@) == b@,
{
    match std::str::from_utf8(b) {
        Ok(s) => Some(s.to_string()),
        Err(_) => None,
    }
}

/// Decodes `bytes` as UTF-8 text.
fn decode_text(bytes: &[u8]) -> (r: Option<String>)
    ensures
        r is Some <==> valid_utf8(bytes@),
        r matches Some(s) ==> s@ == decode_utf8(bytes@),
{
    let r = utf8_to_string(bytes);
    proof {
        if r is Some {
            encode_utf8_decode_utf8(r->0@);
        }
    }
    r
}

fn parse_string(data: &[u8], pos: usize) -> (r: Result<(String, usize), DecodeError>)
    ensures
        match r {
            Ok((s, p)) => spec_parse_string(data@, pos as int) == Ok::<(Seq<char>, int), DecodeError>((s@, p as int)),
            Err(e) => spec_parse_string(data@, pos as int) == Err::<(Seq<char>, int), DecodeError>(e),
        },
{
    if data.len() < 2 || pos > data.len() - 2 {
        return Err(DecodeError::Incomplete);
    }
    let len: usize = data[pos] as usize + (data[pos + 1] as usize) * 256;
    let start: usize = pos + 2;
    if len > data.len() - start {
        return Err(DecodeError::Incomplete);
    }
    let end: usize = start + len;
    let bytes = slice_subrange(data, start, end);
    match decode_text(bytes) {
        Some(s) => Ok((s, end)),
        None => Err(DecodeError::MalformedFrame),
    }
}

/// A Notification Source event.
#[derive(Debug, Clone, Copy, PartialEq, Eq, Structural)]
pub struct Notification {
    pub id: u32,
    pub event_id: EventID,
    pub event_flags: EventFlag,
    pub category_id: u8,
    pub category_count: u8,
}

/// The event that a Notification Source frame carries: event, flags,
/// category, category count, then the 32-bit uid.
pub open spec fn spec_parse_notification(d: Seq<u8>) -> Result<Notification, DecodeError> {
    if d.len() < 8 {
        Err(DecodeError::MalformedFrame)
    } else {
        match spec_event_of(d[0]) {
            None => Err(DecodeError::MalformedFrame),
            Some(e) => Ok(
                Notification {
                    id: u32_at(d, 4),
                    event_id: e,
                    event_flags: EventFlag { bits: d[1] },
                    category_id: d[2],
                    category_count: d[3],
                },
            ),
        }
    }
}

impl Notification {
    pub fn parse(data: &[u8]) -> (r: Result<Notification, DecodeError>)
        ensures
            r == spec_parse_notification(data@),
    {
        if data.len() < 8 {
            return Err(DecodeError::MalformedFrame);
        }
        let event_id = match EventID::from_byte(data[0]) {
            Some(e) => e,
            None => {
                return Err(DecodeError::MalformedFrame);
            },
        };
        let id: u32 = data[4] as u32 + (data[5] as u32) * 256 + (data[6] as u32) * 65536 + (
        data[7] as u32) * 16777216;
        Ok(
            Notification {
                id,
                event_id,
                event_flags: EventFlag { bits: data[1] },
                category_id: data[2],
                category_count: data[3],
            },
        )
    }

    /// The category, where its code is a known one.
    pub fn category(&self) -> (r: Option<CategoryID>)
        ensures
            r matches Some(c) ==> crate::constants::category_code(c) == self.category_id,
            r is None <==> self.category_id > 11,
    {
        CategoryID::from_byte(self.category_id)
    }

    pub fn is_preexisting(&self) -> (r: bool)
        ensures
            r == self.event_flags.spec_contains(FLAG_PRE_EXISTING),
    {
        self.event_flags.contains(FLAG_PRE_EXISTING)
    }

    pub fn is_fresh(&self) -> (r: bool)
        ensures
            r == !self.event_flags.spec_contains(FLAG_PRE_EXISTING),
    {
        !self.is_preexisting()
    }

    pub fn has_positive_action(&self) -> (r: bool)
        ensures
            r == self.event_flags.spec_contains(FLAG_POSITIVE_ACTION),
    {
        self.event_flags.contains(FLAG_POSITIVE_ACTION)
    }

    pub fn has_negative_action(&self) -> (r: bool)
        ensures
            r == self.event_flags.spec_contains(FLAG_NEGATIVE_ACTION),
    {
        self.event_flags.contains(FLAG_NEGATIVE_ACTION)
    }
}

/// A Data Source message: the command it answers and the rest of the frame.
#[derive(Debug, Clone, PartialEq, Eq)]
pub struct DataSourceEvent {
    pub command_id: CommandID,
    pub body: Vec<u8>,
}


/// What a Data Source frame (after its command byte) is, for each command.
pub open spec fn spec_parse_data_source(d: Seq<u8>) -> Result<(CommandID, Seq<u8>), DecodeError> {
    if d.len() == 0 {
        Err(DecodeError::Incomplete)
    } else {
        match spec_command_of(d[0]) {
            None => Err(DecodeError::MalformedFrame),
            Some(c) => Ok((c, d.subrange(1, d.len() as int))),
        }
    }
}

impl DataSourceEvent {
    pub fn parse(data: &[u8]) -> (r: Result<DataSourceEvent, DecodeError>)
        ensures
            match r {
                Ok(ev) => spec_parse_data_source(data@) == Ok::<(CommandID, Seq<u8>), DecodeError>((ev.command_id, ev.body@)),
                Err(e) => spec_parse_data_source(data@) == Err::<(CommandID, Seq<u8>), DecodeError>(e),
            },
    {
        if data.len() == 0 {
            return Err(DecodeError::Incomplete);
        }
        let command_id = match CommandID::from_byte(data[0]) {
            Some(c) => c,
            None => {
                return Err(DecodeError::MalformedFrame);
            },
        };
        let mut body: Vec<u8> = Vec::new();
        let mut i: usize = 1;
        while i < data.len()
            invariant
                1 <= i <= data@.len(),
                body@ == data@.subrange(1, i as int),
            decreases data@.len() - i,
        {
            body.push(data[i]);
            i = i + 1;
            assert(body@ =~= data@.subrange(1, i as int));
        }
        Ok(DataSourceEvent { command_id, body })
    }

    pub fn as_notification_attributes(&self) -> (r: Result<NotificationAttributes, DecodeError>)
        requires
            self.command_id == CommandID::GetNotificationAttributes,
        ensures
            match r {
                Ok(a) => spec_parse_notification_attributes(self.body@) == Ok::<NotificationAttributesView, DecodeError>(a@),
                Err(e) => spec_parse_notification_attributes(self.body@) == Err::<NotificationAttributesView, DecodeError>(e),
            },
    {
        NotificationAttributes::parse(self.body.as_slice())
    }

    pub fn as_app_attributes(&self) -> (r: Result<AppAttributes, DecodeError>)
        requires
            self.command_id == CommandID::GetAppAttributes,
        ensures
            match r {
                Ok(a) => spec_parse_app_attributes(self.body@) == Ok::<AppAttributesView, DecodeError>(a@),
                Err(e) => spec_parse_app_attributes(self.body@) == Err::<AppAttributesView, DecodeError>(e),
            },
    {
        AppAttributes::parse(self.body.as_slice())
    }
}

/// The attributes of one notification, as the phone sent them.
#[derive(Debug, Clone, PartialEq, Eq)]
pub struct NotificationAttributes {
    pub id: u32,
    pub app_id: String,
    pub title: String,
    pub message: String,
    pub positive_action: Option<String>,
    pub negative_action: Option<String>,
}

pub ghost struct NotificationAttributesView {
    pub id: u32,
    pub app_id: Seq<char>,
    pub title: Seq<char>,
    pub message: Seq<char>,
    pub positive_action: Option<Seq<char>>,
    pub negative_action: Option<Seq<char>>,
}

pub open spec fn opt_view(o: Option<String>) -> Option<Seq<char>> {
    match o {
        Some(s) => Some(s@),
        None => None,
    }
}

impl View for NotificationAttributes {
    type V = NotificationAttributesView;

    open spec fn view(&self) -> NotificationAttributesView {
        NotificationAttributesView {
            id: self.id,
            app_id: self.app_id@,
            title: self.title@,
            message: self.message@,
            positive_action: opt_view(self.positive_action),
            negative_action: opt_view(self.negative_action),
        }
    }
}

/// An action label at `pos`, present when the byte there is `marker`:
/// the label, if any, and the position after it.
pub open spec fn spec_parse_label(d: Seq<u8>, pos: int, marker: u8) -> Result<
    (Option<Seq<char>>, int),
    DecodeError,
> {
    if 0 <= pos < d.len() && d[pos] == marker {
        match spec_parse_string(d, pos + 1) {
            Ok((s, p)) => Ok((Some(s), p)),
            Err(e) => Err(e),
        }
    } else {
        Ok((None, pos))
    }
}

/// The body of an answer to a notification-attributes request: the uid, the
/// application identifier, title and message, then the positive action label
/// where a 6 byte comes next, then the negative one where a 7 byte comes next.
pub open spec fn spec_parse_notification_attributes(d: Seq<u8>) -> Result<
    NotificationAttributesView,
    DecodeError,
> {
    if d.len() < 4 {
        Err(DecodeError::Incomplete)
    } else {
        match spec_parse_string(d, 4) {
            Err(e) => Err(e),
            Ok((app_id, after_app)) => match spec_parse_string(d, after_app) {
                Err(e) => Err(e),
                Ok((title, after_title)) => match spec_parse_string(d, after_title) {
                    Err(e) => Err(e),
                    Ok((message, after_message)) => match spec_parse_label(d, after_message, 6) {
                        Err(e) => Err(e),
                        Ok((positive_action, after_positive)) => match spec_parse_label(d, after_positive, 7) {
                            Err(e) => Err(e),
                            Ok((negative_action, _)) => Ok(
                                NotificationAttributesView {
                                    id: u32_at(d, 0),
                                    app_id,
                                    title,
                                    message,
                                    positive_action,
                                    negative_action,
                                },
                            ),
                        },
                    },
                },
            },
        }
    }
}

fn parse_label(data: &[u8], pos: usize, marker: u8) -> (r: Result<(Option<String>, usize), DecodeError>)
    requires
        pos <= data@.len(),
    ensures
        match r {
            Ok((s, p)) => spec_parse_label(data@, pos as int, marker) == Ok::<(Option<Seq<char>>, int), DecodeError>((opt_view(s), p as int)) && p <= data@.len(),
            Err(e) => spec_parse_label(data@, pos as int, marker) == Err::<(Option<Seq<char>>, int), DecodeError>(e),
        },
{
    if pos < data.len() && data[pos] == marker {
        match parse_string(data, pos + 1) {
            Ok((s, p)) => Ok((Some(s), p)),
            Err(e) => Err(e),
        }
    } else {
        Ok((None, pos))
    }
}

impl NotificationAttributes {
    pub fn parse(data: &[u8]) -> (r: Result<NotificationAttributes, DecodeError>)
        ensures
            match r {
                Ok(a) => spec_parse_notification_attributes(data@) == Ok::<NotificationAttributesView, DecodeError>(a@),
                Err(e) => spec_parse_notification_attributes(data@) == Err::<NotificationAttributesView, DecodeError>(e),
            },
    {
        if data.len() < 4 {
            return Err(DecodeError::Incomplete);
        }
        let id: u32 = data[0] as u32 + (data[1] as u32) * 256 + (data[2] as u32) * 65536 + (
        data[3] as u32) * 16777216;
        let (app_id, after_app) = match parse_string(data, 4) {
            Ok(v) => v,
            Err(e) => {
                return Err(e);
            },
        };
        let (title, after_title) = match parse_string(data, after_app) {
            Ok(v) => v,
            Err(e) => {
                return Err(e);
            },
        };
        let (message, after_message) = match parse_string(data, after_title) {
            Ok(v) => v,
            Err(e) => {
                return Err(e);
            },
        };
        let (positive_action, after_positive) = match parse_label(data, after_message, 6) {
            Ok(v) => v,
            Err(e) => {
                return Err(e);
            },
        };
        let (negative_action, _) = match parse_label(data, after_positive, 7) {
            Ok(v) => v,
            Err(e) => {
                return Err(e);
            },
        };
        Ok(NotificationAttributes { id, app_id, title, message, positive_action, negative_action })
    }
}

/// The display name of one application, as the phone sent it.
#[derive(Debug, Clone, PartialEq, Eq)]
pub struct AppAttributes {
    pub app_id: String,
    pub app_name: String,
}

pub ghost struct AppAttributesView {
    pub app_id: Seq<char>,
    pub app_name: Seq<char>,
}

impl View for AppAttributes {
    type V = AppAttributesView;

    open spec fn view(&self) -> AppAttributesView {
        AppAttributesView { app_id: self.app_id@, app_name: self.app_name@ }
    }
}

/// `k` is the position of the first zero byte of `d`.
pub open spec fn is_first_zero(d: Seq<u8>, k: int) -> bool {
    0 <= k < d.len() && d[k] == 0 && forall|j: int| 0 <= j < k ==> d[j] != 0
}

/// The body of an answer to an app-attributes request: the application
/// identifier closed by a zero byte, then the length-prefixed display name, or
/// nothing, which stands for an application that is not installed.
pub open spec fn spec_parse_app_attributes(d: Seq<u8>) -> Result<AppAttributesView, DecodeError> {
    if forall|j: int| 0 <= j < d.len() ==> d[j] != 0 {
        Err(DecodeError::Incomplete)
    } else {
        let k = choose|k: int| is_first_zero(d, k);
        if !valid_utf8(d.subrange(0, k)) {
            Err(DecodeError::MalformedFrame)
        } else if k + 1 == d.len() {
            Ok(AppAttributesView { app_id: decode_utf8(d.subrange(0, k)), app_name: NOT_INSTALLED@ })
        } else {
            match spec_parse_string(d, k + 1) {
                Err(e) => Err(e),
                Ok((name, _)) => Ok(
                    AppAttributesView { app_id: decode_utf8(d.subrange(0, k)), app_name: name },
                ),
            }
        }
    }
}

impl AppAttributes {
    pub fn parse(data: &[u8]) -> (r: Result<AppAttributes, DecodeError>)
        ensures
            match r {
                Ok(a) => spec_parse_app_attributes(data@) == Ok::<AppAttributesView, DecodeError>(a@),
                Err(e) => spec_parse_app_attributes(data@) == Err::<AppAttributesView, DecodeError>(e),
            },
    {
        let mut k: usize = 0;
        while k < data.len() && data[k] != 0
            invariant
                k <= data@.len(),
                forall|j: int| 0 <= j < k ==> data@[j] != 0,
            decreases data@.len() - k,
        {
            k = k + 1;
        }
        if k == data.len() {
            return Err(DecodeError::Incomplete);
        }
        proof {
            assert(is_first_zero(data@, k as int));
            let c = choose|c: int| is_first_zero(data@, c);
            assert(c == k as int) by {
                if c < k {
                    assert(data@[c] != 0);
                } else if c > k {
                    assert(data@[k as int] != 0);
                }
            }
        }
        let app_id = match decode_text(slice_subrange(data, 0, k)) {
            Some(s) => s,
            None => {
                return Err(DecodeError::MalformedFrame);
            },
        };
        if k + 1 == data.len() {
            let app_name = NOT_INSTALLED.to_owned();
            return Ok(AppAttributes { app_id, app_name });
        }
        match parse_string(data, k + 1) {
            Ok((app_name, _)) => Ok(AppAttributes { app_id, app_name }),
            Err(e) => Err(e),
        }
    }
}

} // verus!
