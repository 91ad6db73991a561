//! The wire form of an echo message.
//!
//! A message is a Protocol Buffers record with one string field, `content`,
//! under tag 1. Encoding and decoding are done by `prost`.

use prost::Message;
use vstd::prelude::*;
use vstd::utf8::encode_utf8;

verus! {

/// The error that `prost` reports when bytes do not decode. It is carried
/// from the decoder to [`EchoMessage::decode`] and never inspected.
#[verifier::external_type_specification]
#[verifier::external_body]
pub struct ExDecodeError(prost::DecodeError);

/// What the decoder makes of `bytes`: the content of the message they hold,
/// or `None` where they hold no message. The decoder walks every field of
/// the record, skips the ones it does not know, and checks that the content
/// is UTF-8; this names its verdict without restating it.
pub uninterp spec fn wire_decoding(bytes: Seq<u8>) -> Option<Seq<char>>;

/// The base-128 form of `n`: seven bits per byte, least significant group
/// first, the high bit set on every byte but the last.
pub open spec fn varint(n: nat) -> Seq<u8>
    decreases n,
{
    if n < 128 {
        seq![n as u8]
    } else {
        seq![(n % 128 + 128) as u8] + varint(n / 128)
    }
}

/// The key byte of the content field: tag 1, length-delimited.
pub open spec fn content_key() -> u8 {
    0x0a
}

/// The bytes of a message whose content is `content`. An empty content is
/// the field's default and is left out, so the message is empty; otherwise
/// the field is its key, the length of its UTF-8 form, and that form.
pub open spec fn wire_encoding(content: Seq<char>) -> Seq<u8> {
    if content.len() == 0 {
        Seq::empty()
    } else {
        let text = encode_utf8(content);
        seq![content_key()] + varint(text.len()) + text
    }
}

/// The bytes handed to the decoder held no message.
#[derive(Clone, Copy, Debug, PartialEq, Eq, Structural)]
pub struct DecodeFailure;

/// The message that clients send and get back.
#[derive(Debug, PartialEq, Eq)]
pub struct EchoMessage {
    pub content: String,
}

impl Clone for EchoMessage {
    fn clone(&self) -> (m: EchoMessage)
        ensures
            m == *self,
    {
        EchoMessage { content: self.content.clone() }
    }
}

impl View for EchoMessage {
    type V = Seq<char>;

    open spec fn view(&self) -> Seq<char> {
        self.content@
    }
}

/// Calls `prost::Message::decode` for `String`, whose implementation in
/// `prost` is the record with one string field under tag 1. Trusted: the
/// call succeeds exactly where [`wire_decoding`] is `Some`, and then returns
/// the content it names.
#[verifier::external_body]
fn prost_decode(bytes: &[u8]) -> (r: Result<String, prost::DecodeError>)
    ensures
        match r {
            Ok(content) => wire_decoding(bytes@) == Some(content@),
            Err(_) => wire_decoding(bytes@) is None,
        },
{
    String::decode(bytes)
}

/// Calls `prost::Message::encode_to_vec` for `String`. Trusted: an empty
/// string encodes to no bytes; any other to the key of field 1, the varint
/// of its length in bytes, and its bytes, which is [`wire_encoding`].
#[verifier::external_body]
fn prost_encode(content: &String) -> (r: Vec<u8>)
    ensures
        r@ == wire_encoding(content@),
{
    content.encode_to_vec()
}

impl EchoMessage {
    /// A message with the given content.
    pub fn new(content: String) -> (m: EchoMessage)
        ensures
            m.content == content,
    {
        EchoMessage { content }
    }

    /// Decodes the whole of `bytes` as one message.
    pub fn decode(bytes: &[u8]) -> (r: Result<EchoMessage, DecodeFailure>)
        ensures
            match r {
                Ok(m) => wire_decoding(bytes@) == Some(m@),
                Err(_) => wire_decoding(bytes@) is None,
            },
    {
        match prost_decode(bytes) {
            Ok(content) => Ok(EchoMessage { content }),
            Err(_) => Err(DecodeFailure),
        }
    }

    /// Encodes the message.
    pub fn encode_to_vec(&self) -> (r: Vec<u8>)
        ensures
            r@ == wire_encoding(self@),
    {
        prost_encode(&self.content)
    }
}

} // verus!
