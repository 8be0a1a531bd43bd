//! Wire layout of the command buffers. A command is a fixed sequence of
//! 32-bit words written at the head of the per-thread communication buffer:
//! a request-kind tag, the declared raw-payload size in bytes, two reserved
//! words, the calling-convention magic, the protocol version, the command id,
//! one header-padding word, the payload word, and trailing padding up to the
//! size the call expects. The reply is read back from the same buffer, at a
//! fixed word offset.

use vstd::prelude::*;

verus! {

/// Word 0 of every command: the tag for a synchronous request.
pub const REQUEST_TAG: u32 = 0x4;

/// Word 4 of every command: the 4-byte ASCII magic ("SFCI", little-endian)
/// identifying the calling convention.
pub const SFCI_MAGIC: u32 = 0x49434653;

/// Word 5 of every command: the protocol version.
pub const PROTOCOL_VERSION: u32 = 1;

/// Command id selecting the stick-remap status query.
pub const QUERY_COMMAND_ID: u32 = 1;

/// Command id selecting the stick-gate enable/disable operation.
pub const CONFIGURE_COMMAND_ID: u32 = 0;

/// Word offset at which the query reply's status byte sits.
pub const REPLY_STATUS_WORD: usize = 8;

/// The exact words of the status-query command: one reserved payload word,
/// written as zero, and one trailing padding word.
pub open spec fn query_command_words() -> Seq<u32> {
    seq![
        REQUEST_TAG,
        0x8u32,
        0u32,
        0u32,
        SFCI_MAGIC,
        PROTOCOL_VERSION,
        QUERY_COMMAND_ID,
        0u32,
        0u32,
        0u32,
    ]
}

/// The exact words of the configure command: the payload word carries the
/// requested setting as 1 or 0, followed by two trailing padding words.
pub open spec fn configure_command_words(enable: bool) -> Seq<u32> {
    seq![
        REQUEST_TAG,
        0x9u32,
        0u32,
        0u32,
        SFCI_MAGIC,
        PROTOCOL_VERSION,
        CONFIGURE_COMMAND_ID,
        0u32,
        (if enable {
            1u32
        } else {
            0u32
        }),
        0u32,
        0u32,
    ]
}

/// Encode the status-query command, bit-exact to the layout the service
/// expects.
pub fn encode_query_command() -> (buf: Vec<u32>)
    ensures
        buf@ == query_command_words(),
{
    let mut buf: Vec<u32> = Vec::new();
    buf.push(REQUEST_TAG);
    buf.push(0x8);
    buf.push(0);
    buf.push(0);
    buf.push(SFCI_MAGIC);
    buf.push(PROTOCOL_VERSION);
    buf.push(QUERY_COMMAND_ID);
    buf.push(0);
    buf.push(0);
    buf.push(0);
    proof {
        assert(buf@ =~= query_command_words());
    }
    buf
}

/// Encode the configure command for the requested setting, bit-exact to the
/// layout the service expects.
pub fn encode_configure_command(enable: bool) -> (buf: Vec<u32>)
    ensures
        buf@ == configure_command_words(enable),
{
    let mut buf: Vec<u32> = Vec::new();
    buf.push(REQUEST_TAG);
    buf.push(0x9);
    buf.push(0);
    buf.push(0);
    buf.push(SFCI_MAGIC);
    buf.push(PROTOCOL_VERSION);
    buf.push(CONFIGURE_COMMAND_ID);
    buf.push(0);
    buf.push(if enable {
        1
    } else {
        0
    });
    buf.push(0);
    buf.push(0);
    proof {
        assert(buf@ =~= configure_command_words(enable));
    }
    buf
}

/// The low byte of a reply word, which is all the service uses of it.
pub open spec fn low_byte(w: u32) -> u8 {
    (w % 256) as u8
}

/// Read the status byte of a query reply: the low byte of the word at the
/// fixed reply offset.
pub fn reply_status_byte(reply: &Vec<u32>) -> (b: u8)
    requires
        reply@.len() > REPLY_STATUS_WORD,
    ensures
        b == low_byte(reply@[REPLY_STATUS_WORD as int]),
{
    (reply[REPLY_STATUS_WORD] % 256) as u8
}

} // verus!
