//! Named-pipe options and information.
//!
//! The builders gather the options of a pipe server or client; what the
//! kernel call consumes is the flag words the builders compute, stated here
//! bit by bit. The unverified shell passes the words to the create and
//! open calls and feeds the info query's raw answer back through
//! `decode_pipe_info`.

use vstd::prelude::*;

verus! {

/// The pipe carries a stream of messages; reads return one message at a
/// time.
pub const PIPE_TYPE_MESSAGE: u32 = 4;

/// The pipe carries a plain byte stream.
pub const PIPE_TYPE_BYTE: u32 = 0;

/// Reads return one message at a time.
pub const PIPE_READMODE_MESSAGE: u32 = 2;

/// Reads return whatever bytes are available.
pub const PIPE_READMODE_BYTE: u32 = 0;

/// Connections from remote machines are rejected.
pub const PIPE_REJECT_REMOTE_CLIENTS: u32 = 8;

/// Connections from remote machines are accepted.
pub const PIPE_ACCEPT_REMOTE_CLIENTS: u32 = 0;

/// No limit on the number of instances of the pipe.
pub const PIPE_UNLIMITED_INSTANCES: u32 = 255;

/// The handle is the server end of the pipe.
pub const PIPE_SERVER_END: u32 = 1;

/// The flow of data goes from client to server.
pub const PIPE_ACCESS_INBOUND: u32 = 1;

/// The flow of data goes from server to client.
pub const PIPE_ACCESS_OUTBOUND: u32 = 2;

/// The handle works with the completion port: every resource the runtime
/// opens carries this flag.
pub const FILE_FLAG_OVERLAPPED: u32 = 0x4000_0000;

/// Creating the pipe fails unless this is its first instance.
pub const FILE_FLAG_FIRST_PIPE_INSTANCE: u32 = 0x8_0000;

/// Permission to modify the pipe's discretionary access control list.
pub const WRITE_DAC: u32 = 0x4_0000;

/// Permission to modify the pipe's owner.
pub const WRITE_OWNER: u32 = 0x8_0000;

/// Permission to modify the pipe's system access control list.
pub const ACCESS_SYSTEM_SECURITY: u32 = 0x100_0000;

/// Read access for an opened client end.
pub const GENERIC_READ: u32 = 0x8000_0000;

/// Write access for an opened client end.
pub const GENERIC_WRITE: u32 = 0x4000_0000;

/// The client's security quality-of-service flags are present.
pub const SECURITY_SQOS_PRESENT: u32 = 0x10_0000;

/// The server may identify the client without impersonating it.
pub const SECURITY_IDENTIFICATION: u32 = 0x1_0000;

/// The open call's creation disposition: the pipe must already exist.
pub const OPEN_EXISTING: u32 = 3;

/// The pipe mode of a named pipe.
#[derive(Debug, Clone, Copy, PartialEq, Eq, Hash, Structural)]
pub enum PipeMode {
    /// Data is written to the pipe as a stream of bytes.
    Byte,
    /// Data is written to the pipe as a stream of messages.
    Message,
}

/// Indicates the end of a named pipe.
#[derive(Debug, Clone, Copy, PartialEq, Eq, Hash, Structural)]
pub enum PipeEnd {
    /// The client end of a named pipe instance.
    Client,
    /// The server end of a named pipe instance.
    Server,
}

/// Information about a named pipe, as the info query reports it.
#[derive(Debug, Clone, Copy, PartialEq, Eq, Structural)]
pub struct PipeInfo {
    /// The mode of the pipe.
    pub mode: PipeMode,
    /// Which end of the pipe the queried handle is.
    pub end: PipeEnd,
    /// The maximum number of instances that can be created for this pipe.
    pub max_instances: u32,
    /// The number of bytes reserved for the output buffer.
    pub out_buffer_size: u32,
    /// The number of bytes reserved for the input buffer.
    pub in_buffer_size: u32,
}

/// Reads the info query's raw answer: the flag word tells the end and the
/// mode apart, the sizes and instance count pass through.
pub fn decode_pipe_info(flags: u32, out_buffer_size: u32, in_buffer_size: u32, max_instances: u32)
    -> (r: PipeInfo)
    ensures
        r.end == if flags & PIPE_SERVER_END != 0 {
            PipeEnd::Server
        } else {
            PipeEnd::Client
        },
        r.mode == if flags & PIPE_TYPE_MESSAGE != 0 {
            PipeMode::Message
        } else {
            PipeMode::Byte
        },
        r.max_instances == max_instances,
        r.out_buffer_size == out_buffer_size,
        r.in_buffer_size == in_buffer_size,
{
    let end = if flags & PIPE_SERVER_END != 0 {
        PipeEnd::Server
    } else {
        PipeEnd::Client
    };
    let mode = if flags & PIPE_TYPE_MESSAGE != 0 {
        PipeMode::Message
    } else {
        PipeMode::Byte
    };
    PipeInfo { mode, end, max_instances, out_buffer_size, in_buffer_size }
}

/// The options of a named-pipe server, as handed to the create call.
#[derive(Debug, Clone, PartialEq, Eq, Structural)]
pub struct ServerOptions {
    /// Data may flow from client to server.
    pub access_inbound: bool,
    /// Data may flow from server to client.
    pub access_outbound: bool,
    /// Creation fails unless this is the pipe's first instance.
    pub first_pipe_instance: bool,
    /// Request permission to modify the discretionary access control list.
    pub write_dac: bool,
    /// Request permission to modify the pipe's owner.
    pub write_owner: bool,
    /// Request permission to modify the system access control list.
    pub access_system_security: bool,
    /// Message or byte mode.
    pub pipe_mode: PipeMode,
    /// Reject clients on remote machines.
    pub reject_remote_clients: bool,
    /// The maximum number of instances of the pipe.
    pub max_instances: u32,
    /// Bytes reserved for the output buffer.
    pub out_buffer_size: u32,
    /// Bytes reserved for the input buffer.
    pub in_buffer_size: u32,
    /// The default timeout of the pipe, in milliseconds.
    pub default_timeout: u32,
}

/// The mode word of the create call: the type and read-mode bits of the
/// chosen pipe mode, and the remote-client policy bit.
pub open spec fn spec_server_pipe_mode(o: ServerOptions) -> u32 {
    (if o.pipe_mode is Message {
        PIPE_TYPE_MESSAGE | PIPE_READMODE_MESSAGE
    } else {
        PIPE_TYPE_BYTE | PIPE_READMODE_BYTE
    }) | (if o.reject_remote_clients {
        PIPE_REJECT_REMOTE_CLIENTS
    } else {
        PIPE_ACCEPT_REMOTE_CLIENTS
    })
}

/// The open-mode word of the create call: always overlapped, plus one bit
/// for each enabled option.
pub open spec fn spec_server_open_mode(o: ServerOptions) -> u32 {
    FILE_FLAG_OVERLAPPED | (if o.access_inbound {
        PIPE_ACCESS_INBOUND
    } else {
        0
    }) | (if o.access_outbound {
        PIPE_ACCESS_OUTBOUND
    } else {
        0
    }) | (if o.first_pipe_instance {
        FILE_FLAG_FIRST_PIPE_INSTANCE
    } else {
        0
    }) | (if o.write_dac {
        WRITE_DAC
    } else {
        0
    }) | (if o.write_owner {
        WRITE_OWNER
    } else {
        0
    }) | (if o.access_system_security {
        ACCESS_SYSTEM_SECURITY
    } else {
        0
    })
}

impl ServerOptions {
    /// The default settings: both directions open, byte mode, remote
    /// clients rejected, unlimited instances, 64 KiB buffers.
    pub fn new() -> (r: ServerOptions)
        ensures
            r == (ServerOptions {
                access_inbound: true,
                access_outbound: true,
                first_pipe_instance: false,
                write_dac: false,
                write_owner: false,
                access_system_security: false,
                pipe_mode: PipeMode::Byte,
                reject_remote_clients: true,
                max_instances: PIPE_UNLIMITED_INSTANCES,
                out_buffer_size: 65536,
                in_buffer_size: 65536,
                default_timeout: 0,
            }),
    {
        ServerOptions {
            access_inbound: true,
            access_outbound: true,
            first_pipe_instance: false,
            write_dac: false,
            write_owner: false,
            access_system_security: false,
            pipe_mode: PipeMode::Byte,
            reject_remote_clients: true,
            max_instances: PIPE_UNLIMITED_INSTANCES,
            out_buffer_size: 65536,
            in_buffer_size: 65536,
            default_timeout: 0,
        }
    }

    /// The pipe mode.
    pub fn pipe_mode(&mut self, pipe_mode: PipeMode) -> (r: &mut Self)
        ensures
            *r == (ServerOptions { pipe_mode, ..*old(self) }),
            *final(self) == *final(r),
    {
        self.pipe_mode = pipe_mode;
        self
    }

    /// Whether data may flow from client to server.
    pub fn access_inbound(&mut self, allowed: bool) -> (r: &mut Self)
        ensures
            *r == (ServerOptions { access_inbound: allowed, ..*old(self) }),
            *final(self) == *final(r),
    {
        self.access_inbound = allowed;
        self
    }

    /// Whether data may flow from server to client.
    pub fn access_outbound(&mut self, allowed: bool) -> (r: &mut Self)
        ensures
            *r == (ServerOptions { access_outbound: allowed, ..*old(self) }),
            *final(self) == *final(r),
    {
        self.access_outbound = allowed;
        self
    }

    /// Whether creation must fail unless this is the first instance.
    pub fn first_pipe_instance(&mut self, first: bool) -> (r: &mut Self)
        ensures
            *r == (ServerOptions { first_pipe_instance: first, ..*old(self) }),
            *final(self) == *final(r),
    {
        self.first_pipe_instance = first;
        self
    }

    /// Whether to request permission to modify the discretionary access
    /// control list.
    pub fn write_dac(&mut self, requested: bool) -> (r: &mut Self)
        ensures
            *r == (ServerOptions { write_dac: requested, ..*old(self) }),
            *final(self) == *final(r),
    {
        self.write_dac = requested;
        self
    }

    /// Whether to request permission to modify the pipe's owner.
    pub fn write_owner(&mut self, requested: bool) -> (r: &mut Self)
        ensures
            *r == (ServerOptions { write_owner: requested, ..*old(self) }),
            *final(self) == *final(r),
    {
        self.write_owner = requested;
        self
    }

    /// Whether to request permission to modify the system access control
    /// list.
    pub fn access_system_security(&mut self, requested: bool) -> (r: &mut Self)
        ensures
            *r == (ServerOptions { access_system_security: requested, ..*old(self) }),
            *final(self) == *final(r),
    {
        self.access_system_security = requested;
        self
    }

    /// Whether clients on remote machines are rejected.
    pub fn reject_remote_clients(&mut self, reject: bool) -> (r: &mut Self)
        ensures
            *r == (ServerOptions { reject_remote_clients: reject, ..*old(self) }),
            *final(self) == *final(r),
    {
        self.reject_remote_clients = reject;
        self
    }

    /// The maximum number of instances of the pipe, between 1 and 254;
    /// leave it unset for no limit.
    pub fn max_instances(&mut self, instances: usize) -> (r: &mut Self)
        requires
            instances < 255,
        ensures
            *r == (ServerOptions { max_instances: instances as u32, ..*old(self) }),
            *final(self) == *final(r),
    {
        self.max_instances = instances as u32;
        self
    }

    /// Bytes to reserve for the output buffer.
    pub fn out_buffer_size(&mut self, buffer: u32) -> (r: &mut Self)
        ensures
            *r == (ServerOptions { out_buffer_size: buffer, ..*old(self) }),
            *final(self) == *final(r),
    {
        self.out_buffer_size = buffer;
        self
    }

    /// Bytes to reserve for the input buffer.
    pub fn in_buffer_size(&mut self, buffer: u32) -> (r: &mut Self)
        ensures
            *r == (ServerOptions { in_buffer_size: buffer, ..*old(self) }),
            *final(self) == *final(r),
    {
        self.in_buffer_size = buffer;
        self
    }

    /// The mode word the create call takes.
    pub fn dw_pipe_mode(&self) -> (r: u32)
        ensures
            r == spec_server_pipe_mode(*self),
    {
        let type_bits = match self.pipe_mode {
            PipeMode::Message => PIPE_TYPE_MESSAGE | PIPE_READMODE_MESSAGE,
            PipeMode::Byte => PIPE_TYPE_BYTE | PIPE_READMODE_BYTE,
        };
        let remote_bits = if self.reject_remote_clients {
            PIPE_REJECT_REMOTE_CLIENTS
        } else {
            PIPE_ACCEPT_REMOTE_CLIENTS
        };
        type_bits | remote_bits
    }

    /// The open-mode word the create call takes.
    pub fn dw_open_mode(&self) -> (r: u32)
        ensures
            r == spec_server_open_mode(*self),
    {
        let inbound = if self.access_inbound {
            PIPE_ACCESS_INBOUND
        } else {
            0
        };
        let outbound = if self.access_outbound {
            PIPE_ACCESS_OUTBOUND
        } else {
            0
        };
        let first = if self.first_pipe_instance {
            FILE_FLAG_FIRST_PIPE_INSTANCE
        } else {
            0
        };
        let dac = if self.write_dac {
            WRITE_DAC
        } else {
            0
        };
        let owner = if self.write_owner {
            WRITE_OWNER
        } else {
            0
        };
        let system = if self.access_system_security {
            ACCESS_SYSTEM_SECURITY
        } else {
            0
        };
        FILE_FLAG_OVERLAPPED | inbound | outbound | first | dac | owner | system
    }
}

/// The options of a named-pipe client, as handed to the open call.
#[derive(Debug, Clone, PartialEq, Eq, Structural)]
pub struct ClientOptions {
    /// Open the client end with read access.
    pub generic_read: bool,
    /// Open the client end with write access.
    pub generic_write: bool,
    /// The security quality-of-service flags, presence bit included.
    pub security_qos_flags: u32,
    /// Message or byte mode for the client's reads.
    pub pipe_mode: PipeMode,
}

/// The desired-access word of the open call: one bit for each permitted
/// direction.
pub open spec fn spec_client_desired_access(o: ClientOptions) -> u32 {
    (if o.generic_read {
        GENERIC_READ
    } else {
        0
    }) | (if o.generic_write {
        GENERIC_WRITE
    } else {
        0
    })
}

impl ClientOptions {
    /// The default settings: read and write access, identification-level
    /// security, byte mode.
    pub fn new() -> (r: ClientOptions)
        ensures
            r == (ClientOptions {
                generic_read: true,
                generic_write: true,
                security_qos_flags: SECURITY_IDENTIFICATION | SECURITY_SQOS_PRESENT,
                pipe_mode: PipeMode::Byte,
            }),
    {
        ClientOptions {
            generic_read: true,
            generic_write: true,
            security_qos_flags: SECURITY_IDENTIFICATION | SECURITY_SQOS_PRESENT,
            pipe_mode: PipeMode::Byte,
        }
    }

    /// Whether the client may read.
    pub fn read(&mut self, allowed: bool) -> (r: &mut Self)
        ensures
            *r == (ClientOptions { generic_read: allowed, ..*old(self) }),
            *final(self) == *final(r),
    {
        self.generic_read = allowed;
        self
    }

    /// Whether the client may write.
    pub fn write(&mut self, allowed: bool) -> (r: &mut Self)
        ensures
            *r == (ClientOptions { generic_write: allowed, ..*old(self) }),
            *final(self) == *final(r),
    {
        self.generic_write = allowed;
        self
    }

    /// The security quality-of-service flags; the presence bit is always
    /// set alongside whatever is given.
    pub fn security_qos_flags(&mut self, flags: u32) -> (r: &mut Self)
        ensures
            *r == (ClientOptions {
                security_qos_flags: flags | SECURITY_SQOS_PRESENT,
                ..*old(self)
            }),
            *final(self) == *final(r),
    {
        self.security_qos_flags = flags | SECURITY_SQOS_PRESENT;
        self
    }

    /// The pipe mode for the client's reads.
    pub fn pipe_mode(&mut self, pipe_mode: PipeMode) -> (r: &mut Self)
        ensures
            *r == (ClientOptions { pipe_mode, ..*old(self) }),
            *final(self) == *final(r),
    {
        self.pipe_mode = pipe_mode;
        self
    }

    /// The desired-access word the open call takes.
    pub fn desired_access(&self) -> (r: u32)
        ensures
            r == spec_client_desired_access(*self),
    {
        let read = if self.generic_read {
            GENERIC_READ
        } else {
            0
        };
        let write = if self.generic_write {
            GENERIC_WRITE
        } else {
            0
        };
        read | write
    }

    /// The flags-and-attributes word the open call takes: the security
    /// flags, and always overlapped.
    pub fn get_flags(&self) -> (r: u32)
        ensures
            r == self.security_qos_flags | FILE_FLAG_OVERLAPPED,
    {
        self.security_qos_flags | FILE_FLAG_OVERLAPPED
    }

    /// Whether the open call must switch the handle to message read mode
    /// afterwards.
    pub fn needs_message_mode(&self) -> (r: bool)
        ensures
            r == (self.pipe_mode is Message),
    {
        match self.pipe_mode {
            PipeMode::Message => true,
            PipeMode::Byte => false,
        }
    }
}

} // verus!
