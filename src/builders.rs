//! Control Point requests and their wire encoding.

use vstd::prelude::*;
use vstd::utf8::encode_utf8;

verus! {

/// Little-endian bytes of a 16-bit value.
pub open spec fn le16(x: u16) -> Seq<u8> {
    seq![(x % 256) as u8, (x / 256) as u8]
}

/// Little-endian bytes of a 32-bit value.
pub open spec fn le32(x: u32) -> Seq<u8> {
    seq![(x % 256) as u8, ((x / 256) % 256) as u8, ((x / 65536) % 256) as u8, (x / 16777216) as u8]
}

/// The request for the attributes of notification `uid`.
pub open spec fn notification_attributes_request(uid: u32, positive: bool, negative: bool) -> Seq<u8> {
    seq![0u8] + le32(uid) + seq![0u8, 1u8] + le16(65535) + seq![3u8] + le16(65535) + (if positive {
        seq![6u8]
    } else {
        Seq::empty()
    }) + (if negative {
        seq![7u8]
    } else {
        Seq::empty()
    })
}

/// The request for the display name of application `app_id`.
pub open spec fn app_attributes_request(app_id: Seq<char>) -> Seq<u8> {
    seq![1u8] + encode_utf8(app_id) + seq![0u8, 0u8]
}

/// The request to perform the positive or the negative action of notification `uid`.
pub open spec fn action_request(uid: u32, positive: bool) -> Seq<u8> {
    seq![2u8] + le32(uid) + seq![
        if positive {
            0u8
        } else {
            1u8
        },
    ]
}

/// Appends the little-endian bytes of `x`.
fn push_u32_le(msg: &mut Vec<u8>, x: u32)
    ensures
        final(msg)@ == old(msg)@ + le32(x),
{
    msg.push((x % 256) as u8);
    msg.push(((x / 256) % 256) as u8);
    msg.push(((x / 65536) % 256) as u8);
    msg.push((x / 16777216) as u8);
    assert(msg@ =~= old(msg)@ + le32(x));
}

/// Asks for the attributes of notification `id`: its application,
/// title and message, and optionally its action labels.
#[derive(Debug, Clone, PartialEq, Eq)]
pub struct GetNotificationAttributes {
    pub id: u32,
    pub get_positive_action: bool,
    pub get_negative_action: bool,
}

impl GetNotificationAttributes {
    /// Command byte, uid, then the attribute list: application identifier,
    /// title and message (each of the last two with a 0xFFFF length hint),
    /// then the positive and the negative action label where asked for.
    pub open spec fn spec_encode(self) -> Seq<u8> {
        notification_attributes_request(self.id, self.get_positive_action, self.get_negative_action)
    }

    pub fn to_vec(&self) -> (r: Vec<u8>)
        ensures
            r@ == self.spec_encode(),
    {
        let mut msg: Vec<u8> = Vec::new();
        msg.push(0u8);
        push_u32_le(&mut msg, self.id);
        msg.push(0u8);
        msg.push(1u8);
        msg.push(0xFFu8);
        msg.push(0xFFu8);
        msg.push(3u8);
        msg.push(0xFFu8);
        msg.push(0xFFu8);
        if self.get_positive_action {
            msg.push(6u8);
        }
        if self.get_negative_action {
            msg.push(7u8);
        }
        assert(msg@ =~= self.spec_encode());
        msg
    }
}

/// Asks for the display name of the application `app_id`.
#[derive(Debug, Clone, PartialEq, Eq)]
pub struct GetAppAttributes {
    pub app_id: String,
}

impl GetAppAttributes {
    /// Command byte, the identifier's UTF-8 bytes closed by a NUL byte,
    /// then the display-name attribute.
    pub open spec fn spec_encode(self) -> Seq<u8> {
        app_attributes_request(self.app_id@)
    }

    pub fn to_vec(&self) -> (r: Vec<u8>)
        ensures
            r@ == self.spec_encode(),
    {
        let mut msg: Vec<u8> = Vec::new();
        msg.push(1u8);
        let bytes = self.app_id.as_str().as_bytes();
        let mut i: usize = 0;
        while i < bytes.len()
            invariant
                i <= bytes@.len(),
                bytes@ == encode_utf8(self.app_id@),
                msg@ == seq![1u8] + bytes@.subrange(0, i as int),
            decreases bytes@.len() - i,
        {
            msg.push(bytes[i]);
            i = i + 1;
            assert(msg@ =~= seq![1u8] + bytes@.subrange(0, i as int));
        }
        msg.push(0u8);
        msg.push(0u8);
        assert(bytes@.subrange(0, i as int) =~= bytes@);
        assert(msg@ =~= self.spec_encode());
        msg
    }
}

/// Asks the phone to perform an action on notification `notification_id`.
#[derive(Debug, Clone, PartialEq, Eq)]
pub struct PerformNotificationAction {
    pub notification_id: u32,
    pub is_positive: bool,
}

impl PerformNotificationAction {
    /// Command byte, uid, then 0 for the positive action or 1 for the negative one.
    pub open spec fn spec_encode(self) -> Seq<u8> {
        action_request(self.notification_id, self.is_positive)
    }

    pub fn to_vec(&self) -> (r: Vec<u8>)
        ensures
            r@ == self.spec_encode(),
    {
        let mut msg: Vec<u8> = Vec::new();
        msg.push(2u8);
        push_u32_le(&mut msg, self.notification_id);
        if self.is_positive {
            msg.push(0u8);
        } else {
            msg.push(1u8);
        }
        assert(msg@ =~= self.spec_encode());
        msg
    }
}

} // verus!
