//! Runtime state and transport protocols.

use crate::text::{hex_digits, push_hex, text_of};
use vstd::prelude::*;
use vstd::string::StringExecFns;

verus! {

/// State of the `rsomeip` runtime.
#[derive(Debug, Clone, Copy, PartialEq, Eq, Structural)]
pub enum State {
    /// The runtime is waiting to start. This is the initial state.
    Waiting,
    /// The runtime is running.
    Running,
    /// The runtime is stopped.
    Stopped,
}

impl Default for State {
    /// The initial state, [`State::Waiting`].
    fn default() -> (state: Self)
        ensures
            state == State::Waiting,
    {
        State::Waiting
    }
}

/// A transport protocol, by its number in the Internet Protocol suite.
#[derive(Debug, Clone, Copy, PartialEq, Eq, Structural)]
pub struct Protocol(pub u8);

impl Protocol {
    /// Transmission Control Protocol.
    ///
    /// TCP is a connection-oriented, reliable, ordered, and error-checked communication
    /// protocol of the Internet Protocol suite.
    pub fn tcp() -> (protocol: Self)
        ensures
            protocol.0 == 0x06,
    {
        Self(0x06)
    }

    /// User Datagram Protocol.
    ///
    /// UDP is a connection-less, datagram-based communication protocol of the Internet
    /// Protocol suite designed for speed and efficiency.
    pub fn udp() -> (protocol: Self)
        ensures
            protocol.0 == 0x11,
    {
        Self(0x11)
    }

    /// Describes the protocol in words: `TCP`, `UDP`, or `Other(..)` with its number in two
    /// lowercase hexadecimal digits.
    pub fn to_string(&self) -> (text: String)
        ensures
            text@ == protocol_text(self.0),
    {
        proof {
            reveal_strlit("TCP");
            reveal_strlit("UDP");
            reveal_strlit("Other(");
            reveal_strlit(")");
        }
        if self.0 == 0x06 {
            text_of("TCP")
        } else if self.0 == 0x11 {
            text_of("UDP")
        } else {
            let mut text = text_of("Other(");
            push_hex(&mut text, self.0 as u32, 2);
            text.append(")");
            text
        }
    }
}

/// The text that describes the protocol with the given number.
pub open spec fn protocol_text(number: u8) -> Seq<char> {
    if number == 0x06 {
        seq!['T', 'C', 'P']
    } else if number == 0x11 {
        seq!['U', 'D', 'P']
    } else {
        seq!['O', 't', 'h', 'e', 'r', '('] + hex_digits(number as nat, 2) + seq![')']
    }
}

} // verus!
