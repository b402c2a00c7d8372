//! HID++ 2.0 messages, as far as host-switch capture reads them.

use vstd::prelude::*;

verus! {

/// Header that every HID++ 2.0 message starts with.
#[derive(Debug, Clone, Copy, PartialEq, Eq, Structural)]
pub struct MessageHeader {
    /// Index of the device that the message is from.
    pub device_index: u8,
    /// Runtime index of the feature that the message belongs to.
    pub feature_index: u8,
    /// Function of the feature, below 16.
    pub function_id: u8,
    /// Software that the message answers, below 16; zero for an event.
    pub software_id: u8,
}

/// A HID++ 2.0 message, its payload filled up with zeros to the longest length.
#[derive(Debug, Clone, Copy, PartialEq, Eq)]
pub struct Message {
    /// What the message is about.
    pub header: MessageHeader,
    /// What it says.
    pub payload: [u8; 16],
}

/// Mathematical content of a [`Message`].
pub struct MessageView {
    /// See [`Message::header`].
    pub header: MessageHeader,
    /// See [`Message::payload`].
    pub payload: Seq<u8>,
}

impl View for Message {
    type V = MessageView;

    open spec fn view(&self) -> MessageView {
        MessageView { header: self.header, payload: self.payload@ }
    }
}

/// The message in a raw report of known length.
pub open spec fn message_in(report: Seq<u8>) -> MessageView {
    MessageView {
        header: MessageHeader {
            device_index: report[1],
            feature_index: report[2],
            function_id: report[3] / 16,
            software_id: report[3] % 16,
        },
        payload: Seq::new(
            16,
            |i: int|
                if i + 4 < report.len() {
                    report[i + 4]
                } else {
                    0u8
                },
        ),
    }
}

/// The HID++ 2.0 message that a raw report holds: a short report is 7 bytes
/// long and starts with `0x10`, a long one is 20 bytes long and starts with
/// `0x11`, and nothing else is a HID++ report.
pub open spec fn decoded(report: Seq<u8>) -> Option<MessageView> {
    if (report.len() == 7 && report[0] == 0x10) || (report.len() == 20 && report[0] == 0x11) {
        Some(message_in(report))
    } else {
        None
    }
}

/// Decodes a raw report.
///
/// `hidpp::channel::HidppMessage::read_raw` tells short and long HID++ reports
/// from all others, by their first byte and their length.
/// `hidpp::protocol::v20::Message::from` then reads the device index, the
/// feature index, and the function and software ids out of the two halves of
/// the fourth byte, and `Message::extend_payload` fills the remaining bytes up
/// with zeros to sixteen.
#[verifier::external_body]
pub(crate) fn decode_report(report: &[u8]) -> (message: Option<Message>)
    ensures
        match message {
            Some(message) => decoded(report@) == Some(message@),
            None => decoded(report@) is None,
        },
{
    let message = hidpp::protocol::v20::Message::from(hidpp::channel::HidppMessage::read_raw(report)?);
    let header = message.header();
    Some(Message {
        header: MessageHeader {
            device_index: header.device_index,
            feature_index: header.feature_index,
            function_id: header.function_id.to_lo(),
            software_id: header.software_id.to_lo(),
        },
        payload: message.extend_payload(),
    })
}

/// The destination that a message announces, where it is a `ChangeHost`
/// announcement of the keyboard in question: an event of function zero whose
/// second byte is a host that the keyboard has.
pub open spec fn announced_host(
    message: MessageView,
    device_index: u8,
    feature_index: u8,
    host_count: u8,
) -> Option<u8> {
    let expected = MessageHeader { device_index, feature_index, function_id: 0, software_id: 0 };
    if message.header == expected && message.payload[1] < host_count {
        Some(message.payload[1])
    } else {
        None
    }
}

/// Decode a keyboard's `0x1814` host-change announcement.
///
/// Some analytics-only keyboards announce the physical Easy-Switch press on
/// ChangeHost function 0 instead of emitting a ReprogControls analytics event.
pub fn change_host_announcement(
    message: &Message,
    device_index: u8,
    feature_index: u8,
    host_count: u8,
) -> (host: Option<u8>)
    ensures
        host == announced_host(message@, device_index, feature_index, host_count),
{
    let header = message.header;
    if header.device_index != device_index || header.feature_index != feature_index
        || header.function_id != 0 || header.software_id != 0 {
        return None;
    }
    let target_host: u8 = message.payload[1];
    if target_host < host_count {
        Some(target_host)
    } else {
        None
    }
}

} // verus!
