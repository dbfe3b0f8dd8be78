//! Named-pipe options, their flag words, and the info decoding.

use tokio_iocp::net::named_pipe::{
    decode_pipe_info, ClientOptions, PipeEnd, PipeInfo, PipeMode, ServerOptions,
};

#[test]
fn server_defaults() {
    let o = ServerOptions::new();
    // Overlapped, inbound and outbound.
    assert_eq!(o.dw_open_mode(), 0x4000_0003);
    // Byte type and read mode, remote clients rejected.
    assert_eq!(o.dw_pipe_mode(), 8);
    assert_eq!(o.max_instances, 255);
    assert_eq!(o.out_buffer_size, 65536);
    assert_eq!(o.in_buffer_size, 65536);
}

#[test]
fn server_message_mode_word() {
    let mut o = ServerOptions::new();
    o.pipe_mode(PipeMode::Message);
    assert_eq!(o.dw_pipe_mode(), 4 | 2 | 8);
    o.reject_remote_clients(false);
    assert_eq!(o.dw_pipe_mode(), 4 | 2);
}

#[test]
fn server_open_mode_bits() {
    let mut o = ServerOptions::new();
    o.access_inbound(false);
    assert_eq!(o.dw_open_mode(), 0x4000_0002);
    o.access_outbound(false);
    assert_eq!(o.dw_open_mode(), 0x4000_0000);
    o.first_pipe_instance(true);
    assert_eq!(o.dw_open_mode(), 0x4008_0000);
    o.first_pipe_instance(false);
    o.write_dac(true);
    assert_eq!(o.dw_open_mode(), 0x4004_0000);
    o.write_dac(false);
    o.write_owner(true);
    assert_eq!(o.dw_open_mode(), 0x4008_0000);
    o.write_owner(false);
    o.access_system_security(true);
    assert_eq!(o.dw_open_mode(), 0x4100_0000);
}

#[test]
fn server_builder_chains() {
    let mut o = ServerOptions::new();
    o.pipe_mode(PipeMode::Message).max_instances(5).in_buffer_size(512).out_buffer_size(256);
    assert_eq!(o.max_instances, 5);
    assert_eq!(o.in_buffer_size, 512);
    assert_eq!(o.out_buffer_size, 256);
    assert_eq!(o.pipe_mode, PipeMode::Message);
}

#[test]
fn server_max_instances_accepts_the_limit() {
    let mut o = ServerOptions::new();
    o.max_instances(254);
    assert_eq!(o.max_instances, 254);
    o.max_instances(1);
    assert_eq!(o.max_instances, 1);
}

#[test]
fn client_defaults() {
    let o = ClientOptions::new();
    // Read and write access.
    assert_eq!(o.desired_access(), 0xC000_0000);
    // Identification security, presence bit, overlapped.
    assert_eq!(o.get_flags(), 0x4011_0000);
    assert!(!o.needs_message_mode());
}

#[test]
fn client_access_bits() {
    let mut o = ClientOptions::new();
    o.read(false);
    assert_eq!(o.desired_access(), 0x4000_0000);
    o.write(false);
    assert_eq!(o.desired_access(), 0);
    o.read(true);
    assert_eq!(o.desired_access(), 0x8000_0000);
}

#[test]
fn client_qos_always_carries_the_presence_bit() {
    let mut o = ClientOptions::new();
    o.security_qos_flags(0x2_0000);
    assert_eq!(o.get_flags(), 0x4012_0000);
}

#[test]
fn client_message_mode_needs_a_handle_state_switch() {
    let mut o = ClientOptions::new();
    o.pipe_mode(PipeMode::Message);
    assert!(o.needs_message_mode());
}

#[test]
fn info_decoding_reads_the_flag_word() {
    // A message-mode server end with five instances.
    let info = decode_pipe_info(1 | 4, 65536, 65536, 5);
    assert_eq!(
        info,
        PipeInfo {
            mode: PipeMode::Message,
            end: PipeEnd::Server,
            max_instances: 5,
            out_buffer_size: 65536,
            in_buffer_size: 65536,
        }
    );
    // A byte-mode client end.
    let info = decode_pipe_info(0, 1, 2, 255);
    assert_eq!(info.mode, PipeMode::Byte);
    assert_eq!(info.end, PipeEnd::Client);
    assert_eq!(info.max_instances, 255);
}
