//! The SMB layer: a thirty-two-byte header opening with the magic
//! signature `0xFF 'S' 'M' 'B'`; multi-byte header fields are
//! little-endian. Command bytes are summarized by their protocol names.

use vstd::prelude::*;
use vstd::string::*;
use crate::render::{spec_hex2_upper, hex2_u8_upper};
use crate::wire::{le16, le32, read_le16, read_le32, copy_range};

verus! {

/// A decoded SMB header.
pub struct SmbPacket {
    pub command: u8,
    pub status: u32,
    pub flags: u8,
    pub flags2: u16,
    pub pid_high: u16,
    pub signature: Vec<u8>,
    pub reserved: u16,
    pub tid: u16,
    pub pid_low: u16,
    pub uid: u16,
    pub mid: u16,
}

/// Whether the buffer opens with the SMB magic signature.
pub open spec fn spec_smb_signature_ok(p: Seq<u8>) -> bool
    recommends
        p.len() >= 4,
{
    p[0] == 0xFF && p[1] == 0x53 && p[2] == 0x4D && p[3] == 0x42
}

/// The protocol name of a command byte, or its number for an unassigned
/// byte.
pub open spec fn spec_smb_command_name(c: u8) -> Seq<char> {
    if false {
        Seq::<char>::empty()
    } else if c == 0x00 {
        "SMB_COM_CREATE_DIRECTORY"@
    } else if c == 0x01 {
        "SMB_COM_DELETE_DIRECTORY"@
    } else if c == 0x02 {
        "SMB_COM_OPEN"@
    } else if c == 0x03 {
        "SMB_COM_CREATE"@
    } else if c == 0x04 {
        "SMB_COM_CLOSE"@
    } else if c == 0x05 {
        "SMB_COM_FLUSH"@
    } else if c == 0x06 {
        "SMB_COM_DELETE"@
    } else if c == 0x07 {
        "SMB_COM_RENAME"@
    } else if c == 0x08 {
        "SMB_COM_QUERY_INFORMATION"@
    } else if c == 0x09 {
        "SMB_COM_SET_INFORMATION"@
    } else if c == 0x0A {
        "SMB_COM_READ"@
    } else if c == 0x0B {
        "SMB_COM_WRITE"@
    } else if c == 0x0C {
        "SMB_COM_LOCK_BYTE_RANGE"@
    } else if c == 0x0D {
        "SMB_COM_UNLOCK_BYTE_RANGE"@
    } else if c == 0x0E {
        "SMB_COM_CREATE_TEMPORARY"@
    } else if c == 0x0F {
        "SMB_COM_CREATE_NEW"@
    } else if c == 0x10 {
        "SMB_COM_CHECK_DIRECTORY"@
    } else if c == 0x11 {
        "SMB_COM_PROCESS_EXIT"@
    } else if c == 0x12 {
        "SMB_COM_SEEK"@
    } else if c == 0x13 {
        "SMB_COM_LOCK_AND_READ"@
    } else if c == 0x14 {
        "SMB_COM_WRITE_AND_UNLOCK"@
    } else if c == 0x15 {
        "SMB_COM_READ_RAW"@
    } else if c == 0x16 {
        "SMB_COM_READ_MPX"@
    } else if c == 0x17 {
        "SMB_COM_READ_MPX_SECONDARY"@
    } else if c == 0x18 {
        "SMB_COM_WRITE_RAW"@
    } else if c == 0x19 {
        "SMB_COM_WRITE_MPX"@
    } else if c == 0x1A {
        "SMB_COM_WRITE_MPX_SECONDARY"@
    } else if c == 0x1B {
        "SMB_COM_WRITE_COMPLETE"@
    } else if c == 0x1C {
        "SMB_COM_QUERY_SERVER"@
    } else if c == 0x1D {
        "SMB_COM_SET_INFORMATION2"@
    } else if c == 0x1E {
        "SMB_COM_QUERY_INFORMATION2"@
    } else if c == 0x1F {
        "SMB_COM_LOCKING_ANDX"@
    } else if c == 0x20 {
        "SMB_COM_TRANSACTION"@
    } else if c == 0x21 {
        "SMB_COM_TRANSACTION_SECONDARY"@
    } else if c == 0x22 {
        "SMB_COM_IOCTL"@
    } else if c == 0x23 {
        "SMB_COM_IOCTL_SECONDARY"@
    } else if c == 0x24 {
        "SMB_COM_COPY"@
    } else if c == 0x25 {
        "SMB_COM_MOVE"@
    } else if c == 0x26 {
        "SMB_COM_ECHO"@
    } else if c == 0x27 {
        "SMB_COM_WRITE_AND_CLOSE"@
    } else if c == 0x28 {
        "SMB_COM_OPEN_ANDX"@
    } else if c == 0x29 {
        "SMB_COM_READ_ANDX"@
    } else if c == 0x2A {
        "SMB_COM_WRITE_ANDX"@
    } else if c == 0x2B {
        "SMB_COM_NEW_FILE_SIZE"@
    } else if c == 0x2C {
        "SMB_COM_CLOSE_AND_TREE_DISC"@
    } else if c == 0x2D {
        "SMB_COM_TRANSACTION2"@
    } else if c == 0x2E {
        "SMB_COM_TRANSACTION2_SECONDARY"@
    } else if c == 0x2F {
        "SMB_COM_FIND_CLOSE2"@
    } else if c == 0x30 {
        "SMB_COM_FIND_NOTIFY_CLOSE"@
    } else if c == 0x31 {
        "SMB_COM_QUERY_FS_INFORMATION"@
    } else if c == 0x32 {
        "SMB_COM_SET_FS_INFORMATION"@
    } else if c == 0x33 {
        "SMB_COM_FIND_NOTIFY"@
    } else if c == 0x34 {
        "SMB_COM_FIND_NOTIFY2"@
    } else if c == 0x35 {
        "SMB_COM_TREE_CONNECT"@
    } else if c == 0x36 {
        "SMB_COM_TREE_DISCONNECT"@
    } else if c == 0x37 {
        "SMB_COM_NEGOTIATE"@
    } else if c == 0x38 {
        "SMB_COM_SESSION_SETUP_ANDX"@
    } else if c == 0x39 {
        "SMB_COM_LOGOFF_ANDX"@
    } else if c == 0x3A {
        "SMB_COM_TREE_CONNECT_ANDX"@
    } else if c == 0x3B {
        "SMB_COM_QUERY_INFORMATION_DISK"@
    } else if c == 0x3C {
        "SMB_COM_SEARCH"@
    } else if c == 0x3D {
        "SMB_COM_FIND"@
    } else if c == 0x3E {
        "SMB_COM_FIND_UNIQUE"@
    } else if c == 0x3F {
        "SMB_COM_FIND_CLOSE"@
    } else if c == 0x40 {
        "SMB_COM_NT_TRANSACT"@
    } else if c == 0x41 {
        "SMB_COM_NT_TRANSACT_SECONDARY"@
    } else if c == 0x42 {
        "SMB_COM_NT_CREATE_ANDX"@
    } else if c == 0x43 {
        "SMB_COM_NT_CANCEL"@
    } else if c == 0x44 {
        "SMB_COM_NT_RENAME"@
    } else if c == 0x45 {
        "SMB_COM_OPEN_PRINT_FILE"@
    } else if c == 0x46 {
        "SMB_COM_WRITE_PRINT_FILE"@
    } else if c == 0x47 {
        "SMB_COM_CLOSE_PRINT_FILE"@
    } else if c == 0x48 {
        "SMB_COM_GET_PRINT_QUEUE"@
    } else if c == 0x49 {
        "SMB_COM_READ_BULK"@
    } else if c == 0x4A {
        "SMB_COM_WRITE_BULK"@
    } else if c == 0x4B {
        "SMB_COM_WRITE_BULK_DATA"@
    } else {
        "Unknown SMB command: 0x"@ + spec_hex2_upper(c as nat)
    }
}

/// Decoder of the SMB layer.
pub struct SmbProcessor;

impl SmbProcessor {
    /// Creates the decoder.
    pub fn new() -> (p: SmbProcessor) {
        SmbProcessor
    }

    /// Decodes an SMB header: succeeds exactly on thirty-two or more
    /// bytes that open with the magic signature.
    pub fn process(&self, payload: &[u8]) -> (r: Result<SmbPacket, String>)
        ensures
            r is Ok <==> payload@.len() >= 32 && spec_smb_signature_ok(payload@),
            r matches Ok(p) ==> {
                &&& p.command == payload@[4]
                &&& p.status == le32(payload@, 5)
                &&& p.flags == payload@[9]
                &&& p.flags2 == le16(payload@, 10)
                &&& p.pid_high == le16(payload@, 12)
                &&& p.signature@ == payload@.subrange(14, 22)
                &&& p.reserved == le16(payload@, 22)
                &&& p.tid == le16(payload@, 24)
                &&& p.pid_low == le16(payload@, 26)
                &&& p.uid == le16(payload@, 28)
                &&& p.mid == le16(payload@, 30)
            },
            r matches Err(e) ==> (payload@.len() < 32 && e@ == "Packet too short for SMB header"@)
                || (payload@.len() >= 32 && !spec_smb_signature_ok(payload@) && e@
                == "Invalid SMB signature"@),
    {
        if payload.len() < 32 {
            return Err(String::from_str("Packet too short for SMB header"));
        }
        if payload[0] != 0xFF || payload[1] != 0x53 || payload[2] != 0x4D || payload[3] != 0x42 {
            return Err(String::from_str("Invalid SMB signature"));
        }
        Ok(
            SmbPacket {
                command: payload[4],
                status: read_le32(payload, 5),
                flags: payload[9],
                flags2: read_le16(payload, 10),
                pid_high: read_le16(payload, 12),
                signature: copy_range(payload, 14, 22),
                reserved: read_le16(payload, 22),
                tid: read_le16(payload, 24),
                pid_low: read_le16(payload, 26),
                uid: read_le16(payload, 28),
                mid: read_le16(payload, 30),
            },
        )
    }

    /// The protocol name of the packet's command byte.
    #[verifier::rlimit(100)]
    pub fn get_command(&self, packet: &SmbPacket) -> (s: String)
        ensures
            s@ == spec_smb_command_name(packet.command),
    {
        let c = packet.command;
        if false {
            String::new()
        } else if c == 0x00 {
            String::from_str("SMB_COM_CREATE_DIRECTORY")
        } else if c == 0x01 {
            String::from_str("SMB_COM_DELETE_DIRECTORY")
        } else if c == 0x02 {
            String::from_str("SMB_COM_OPEN")
        } else if c == 0x03 {
            String::from_str("SMB_COM_CREATE")
        } else if c == 0x04 {
            String::from_str("SMB_COM_CLOSE")
        } else if c == 0x05 {
            String::from_str("SMB_COM_FLUSH")
        } else if c == 0x06 {
            String::from_str("SMB_COM_DELETE")
        } else if c == 0x07 {
            String::from_str("SMB_COM_RENAME")
        } else if c == 0x08 {
            String::from_str("SMB_COM_QUERY_INFORMATION")
        } else if c == 0x09 {
            String::from_str("SMB_COM_SET_INFORMATION")
        } else if c == 0x0A {
            String::from_str("SMB_COM_READ")
        } else if c == 0x0B {
            String::from_str("SMB_COM_WRITE")
        } else if c == 0x0C {
            String::from_str("SMB_COM_LOCK_BYTE_RANGE")
        } else if c == 0x0D {
            String::from_str("SMB_COM_UNLOCK_BYTE_RANGE")
        } else if c == 0x0E {
            String::from_str("SMB_COM_CREATE_TEMPORARY")
        } else if c == 0x0F {
            String::from_str("SMB_COM_CREATE_NEW")
        } else if c == 0x10 {
            String::from_str("SMB_COM_CHECK_DIRECTORY")
        } else if c == 0x11 {
            String::from_str("SMB_COM_PROCESS_EXIT")
        } else if c == 0x12 {
            String::from_str("SMB_COM_SEEK")
        } else if c == 0x13 {
            String::from_str("SMB_COM_LOCK_AND_READ")
        } else if c == 0x14 {
            String::from_str("SMB_COM_WRITE_AND_UNLOCK")
        } else if c == 0x15 {
            String::from_str("SMB_COM_READ_RAW")
        } else if c == 0x16 {
            String::from_str("SMB_COM_READ_MPX")
        } else if c == 0x17 {
            String::from_str("SMB_COM_READ_MPX_SECONDARY")
        } else if c == 0x18 {
            String::from_str("SMB_COM_WRITE_RAW")
        } else if c == 0x19 {
            String::from_str("SMB_COM_WRITE_MPX")
        } else if c == 0x1A {
            String::from_str("SMB_COM_WRITE_MPX_SECONDARY")
        } else if c == 0x1B {
            String::from_str("SMB_COM_WRITE_COMPLETE")
        } else if c == 0x1C {
            String::from_str("SMB_COM_QUERY_SERVER")
        } else if c == 0x1D {
            String::from_str("SMB_COM_SET_INFORMATION2")
        } else if c == 0x1E {
            String::from_str("SMB_COM_QUERY_INFORMATION2")
        } else if c == 0x1F {
            String::from_str("SMB_COM_LOCKING_ANDX")
        } else if c == 0x20 {
            String::from_str("SMB_COM_TRANSACTION")
        } else if c == 0x21 {
            String::from_str("SMB_COM_TRANSACTION_SECONDARY")
        } else if c == 0x22 {
            String::from_str("SMB_COM_IOCTL")
        } else if c == 0x23 {
            String::from_str("SMB_COM_IOCTL_SECONDARY")
        } else if c == 0x24 {
            String::from_str("SMB_COM_COPY")
        } else if c == 0x25 {
            String::from_str("SMB_COM_MOVE")
        } else if c == 0x26 {
            String::from_str("SMB_COM_ECHO")
        } else if c == 0x27 {
            String::from_str("SMB_COM_WRITE_AND_CLOSE")
        } else if c == 0x28 {
            String::from_str("SMB_COM_OPEN_ANDX")
        } else if c == 0x29 {
            String::from_str("SMB_COM_READ_ANDX")
        } else if c == 0x2A {
            String::from_str("SMB_COM_WRITE_ANDX")
        } else if c == 0x2B {
            String::from_str("SMB_COM_NEW_FILE_SIZE")
        } else if c == 0x2C {
            String::from_str("SMB_COM_CLOSE_AND_TREE_DISC")
        } else if c == 0x2D {
            String::from_str("SMB_COM_TRANSACTION2")
        } else if c == 0x2E {
            String::from_str("SMB_COM_TRANSACTION2_SECONDARY")
        } else if c == 0x2F {
            String::from_str("SMB_COM_FIND_CLOSE2")
        } else if c == 0x30 {
            String::from_str("SMB_COM_FIND_NOTIFY_CLOSE")
        } else if c == 0x31 {
            String::from_str("SMB_COM_QUERY_FS_INFORMATION")
        } else if c == 0x32 {
            String::from_str("SMB_COM_SET_FS_INFORMATION")
        } else if c == 0x33 {
            String::from_str("SMB_COM_FIND_NOTIFY")
        } else if c == 0x34 {
            String::from_str("SMB_COM_FIND_NOTIFY2")
        } else if c == 0x35 {
            String::from_str("SMB_COM_TREE_CONNECT")
        } else if c == 0x36 {
            String::from_str("SMB_COM_TREE_DISCONNECT")
        } else if c == 0x37 {
            String::from_str("SMB_COM_NEGOTIATE")
        } else if c == 0x38 {
            String::from_str("SMB_COM_SESSION_SETUP_ANDX")
        } else if c == 0x39 {
            String::from_str("SMB_COM_LOGOFF_ANDX")
        } else if c == 0x3A {
            String::from_str("SMB_COM_TREE_CONNECT_ANDX")
        } else if c == 0x3B {
            String::from_str("SMB_COM_QUERY_INFORMATION_DISK")
        } else if c == 0x3C {
            String::from_str("SMB_COM_SEARCH")
        } else if c == 0x3D {
            String::from_str("SMB_COM_FIND")
        } else if c == 0x3E {
            String::from_str("SMB_COM_FIND_UNIQUE")
        } else if c == 0x3F {
            String::from_str("SMB_COM_FIND_CLOSE")
        } else if c == 0x40 {
            String::from_str("SMB_COM_NT_TRANSACT")
        } else if c == 0x41 {
            String::from_str("SMB_COM_NT_TRANSACT_SECONDARY")
        } else if c == 0x42 {
            String::from_str("SMB_COM_NT_CREATE_ANDX")
        } else if c == 0x43 {
            String::from_str("SMB_COM_NT_CANCEL")
        } else if c == 0x44 {
            String::from_str("SMB_COM_NT_RENAME")
        } else if c == 0x45 {
            String::from_str("SMB_COM_OPEN_PRINT_FILE")
        } else if c == 0x46 {
            String::from_str("SMB_COM_WRITE_PRINT_FILE")
        } else if c == 0x47 {
            String::from_str("SMB_COM_CLOSE_PRINT_FILE")
        } else if c == 0x48 {
            String::from_str("SMB_COM_GET_PRINT_QUEUE")
        } else if c == 0x49 {
            String::from_str("SMB_COM_READ_BULK")
        } else if c == 0x4A {
            String::from_str("SMB_COM_WRITE_BULK")
        } else if c == 0x4B {
            String::from_str("SMB_COM_WRITE_BULK_DATA")
        } else {
            let mut s = String::from_str("Unknown SMB command: 0x");
            let h = hex2_u8_upper(c);
            s.append(h.as_str());
            s
        }
    }
}

} // verus!
