//! The TLS record layer: a five-byte record header of content type,
//! version and length; a record must be complete in the buffer. A
//! handshake record's first body byte names the handshake message.

use vstd::prelude::*;
use vstd::string::*;
use crate::wire::{be16, read_be16};

verus! {

/// A decoded TLS record summary.
pub struct TlsPacket {
    pub version: String,
    pub content_type: String,
    pub handshake_type: String,
    pub length: usize,
}

/// The name of a version word.
pub open spec fn spec_tls_version(v: u16) -> Seq<char> {
    if v == 0x0301 {
        "TLS 1.0"@
    } else if v == 0x0302 {
        "TLS 1.1"@
    } else if v == 0x0303 {
        "TLS 1.2"@
    } else if v == 0x0304 {
        "TLS 1.3"@
    } else {
        "Unknown TLS version"@
    }
}

/// The name of a content-type byte.
pub open spec fn spec_tls_content_type(c: u8) -> Seq<char> {
    if c == 0x14 {
        "Change Cipher Spec"@
    } else if c == 0x15 {
        "Alert"@
    } else if c == 0x16 {
        "Handshake"@
    } else if c == 0x17 {
        "Application Data"@
    } else if c == 0x18 {
        "Heartbeat"@
    } else {
        "Unknown"@
    }
}

/// The name of a handshake-type byte.
pub open spec fn spec_tls_handshake(h: u8) -> Seq<char> {
    if h == 0x01 {
        "Client Hello"@
    } else if h == 0x02 {
        "Server Hello"@
    } else if h == 0x0b {
        "Certificate"@
    } else if h == 0x0c {
        "Server Key Exchange"@
    } else if h == 0x0e {
        "Server Hello Done"@
    } else if h == 0x10 {
        "Client Key Exchange"@
    } else if h == 0x14 {
        "Finished"@
    } else {
        "Unknown handshake type"@
    }
}

/// The handshake label of a record: the handshake message name for a
/// handshake record with a body byte, and continuation data otherwise.
pub open spec fn spec_tls_handshake_label(p: Seq<u8>) -> Seq<char>
    recommends
        p.len() >= 5,
{
    if p[0] == 0x16 && p.len() > 5 {
        spec_tls_handshake(p[5])
    } else {
        "Continuation Data"@
    }
}

/// The record summary: version and handshake message for a handshake
/// record, version and content type otherwise.
pub open spec fn spec_tls_format_info(
    version: Seq<char>,
    content_type: Seq<char>,
    handshake_type: Seq<char>,
) -> Seq<char> {
    if content_type == "Handshake"@ {
        version + seq![' '] + handshake_type
    } else {
        version + seq![' '] + content_type
    }
}

/// Decoder of the TLS record layer.
pub struct TlsProcessor;

impl TlsProcessor {
    /// Creates the decoder.
    pub fn new() -> (p: TlsProcessor) {
        TlsProcessor
    }

    /// Decodes a TLS record header: succeeds exactly when the buffer
    /// holds the five-byte header and the full declared record body.
    pub fn process(&self, payload: &[u8]) -> (r: Result<TlsPacket, String>)
        ensures
            r is Ok <==> payload@.len() >= 5 && payload@.len() >= 5 + be16(payload@, 3) as nat,
            r matches Ok(t) ==> {
                &&& t.version@ == spec_tls_version(be16(payload@, 1))
                &&& t.content_type@ == spec_tls_content_type(payload@[0])
                &&& t.handshake_type@ == spec_tls_handshake_label(payload@)
                &&& t.length == be16(payload@, 3) as nat
            },
            r matches Err(e) ==> (payload@.len() < 5 && e@ == "Packet too short for TLS"@) || (
            payload@.len() >= 5 && payload@.len() < 5 + be16(payload@, 3) as nat && e@
                == "Packet truncated"@),
    {
        if payload.len() < 5 {
            return Err(String::from_str("Packet too short for TLS"));
        }
        let content_type_byte = payload[0];
        let version_word = read_be16(payload, 1);
        let length = read_be16(payload, 3) as usize;
        if payload.len() < 5 + length {
            return Err(String::from_str("Packet truncated"));
        }
        let version = if version_word == 0x0301 {
            String::from_str("TLS 1.0")
        } else if version_word == 0x0302 {
            String::from_str("TLS 1.1")
        } else if version_word == 0x0303 {
            String::from_str("TLS 1.2")
        } else if version_word == 0x0304 {
            String::from_str("TLS 1.3")
        } else {
            String::from_str("Unknown TLS version")
        };
        let content_type = if content_type_byte == 0x14 {
            String::from_str("Change Cipher Spec")
        } else if content_type_byte == 0x15 {
            String::from_str("Alert")
        } else if content_type_byte == 0x16 {
            String::from_str("Handshake")
        } else if content_type_byte == 0x17 {
            String::from_str("Application Data")
        } else if content_type_byte == 0x18 {
            String::from_str("Heartbeat")
        } else {
            String::from_str("Unknown")
        };
        let handshake_type = if content_type_byte == 0x16 && payload.len() > 5 {
            let h = payload[5];
            if h == 0x01 {
                String::from_str("Client Hello")
            } else if h == 0x02 {
                String::from_str("Server Hello")
            } else if h == 0x0b {
                String::from_str("Certificate")
            } else if h == 0x0c {
                String::from_str("Server Key Exchange")
            } else if h == 0x0e {
                String::from_str("Server Hello Done")
            } else if h == 0x10 {
                String::from_str("Client Key Exchange")
            } else if h == 0x14 {
                String::from_str("Finished")
            } else {
                String::from_str("Unknown handshake type")
            }
        } else {
            String::from_str("Continuation Data")
        };
        Ok(TlsPacket { version, content_type, handshake_type, length })
    }
}

impl TlsPacket {
    /// The version name.
    pub fn get_version(&self) -> (s: &str)
        ensures
            s@ == self.version@,
    {
        self.version.as_str()
    }

    /// The content-type name.
    pub fn get_content_type(&self) -> (s: &str)
        ensures
            s@ == self.content_type@,
    {
        self.content_type.as_str()
    }

    /// The handshake label.
    pub fn get_handshake_type(&self) -> (s: &str)
        ensures
            s@ == self.handshake_type@,
    {
        self.handshake_type.as_str()
    }

    /// The declared record body length.
    pub fn get_length(&self) -> (n: usize)
        ensures
            n == self.length,
    {
        self.length
    }

    /// The record summary line.
    pub fn format_info(&self) -> (s: String)
        ensures
            s@ == spec_tls_format_info(self.version@, self.content_type@, self.handshake_type@),
    {
        proof {
            reveal_strlit(" ");
        }
        let handshake = String::from_str("Handshake");
        let mut s = self.version.clone();
        s.append(" ");
        if self.content_type == handshake {
            s.append(self.handshake_type.as_str());
        } else {
            s.append(self.content_type.as_str());
        }
        s
    }
}

} // verus!
