use forloop::sandbox::{
    apply_filesystem_restrictions, apply_seccomp, decode_message, drop_capabilities,
    encode_message, namespaces_to_unshare, CapabilityPolicy, IpcDecodeError, IpcMessage,
    IpcMessageType, Namespace, SandboxConfig, SeccompPolicy, Syscall,
};

#[test]
fn test_sandbox_configs() {
    let content = SandboxConfig::content_process();
    assert!(!content.allow_network);
    assert!(!content.allow_fs_read);
    assert!(content.use_user_ns);
    assert!(content.use_net_ns);

    let network = SandboxConfig::network_process();
    assert!(network.allow_network);
    assert!(!network.allow_fs_read);
    assert!(!network.use_net_ns);
}

#[test]
fn sandbox_plans_per_process() {
    let ui = SandboxConfig::ui_process();
    assert!(namespaces_to_unshare(&ui).is_empty());
    assert!(!apply_filesystem_restrictions(&ui));
    assert_eq!(drop_capabilities(&ui), CapabilityPolicy::Retain);
    assert!(apply_seccomp(&ui).is_none());
    assert_eq!(ui.seccomp_policy, SeccompPolicy::Unrestricted);

    let content = SandboxConfig::content_process();
    assert_eq!(namespaces_to_unshare(&content), vec![Namespace::User, Namespace::Net, Namespace::Pid]);
    assert!(apply_filesystem_restrictions(&content));
    assert_eq!(drop_capabilities(&content), CapabilityPolicy::DropAll);
    let allowed = apply_seccomp(&content).unwrap();
    assert_eq!(allowed.len(), 27);
    assert!(!allowed.contains(&Syscall::Socket));

    let network = SandboxConfig::network_process();
    assert_eq!(namespaces_to_unshare(&network), vec![Namespace::User, Namespace::Pid]);
    assert!(apply_seccomp(&network).unwrap().contains(&Syscall::Connect));

    let broker = SandboxConfig::broker_process();
    let allowed = apply_seccomp(&broker).unwrap();
    assert!(allowed.contains(&Syscall::Execve));
    assert!(!allowed.contains(&Syscall::Socket));
}

#[test]
fn ipc_message_round_trip() {
    let msg = IpcMessage {
        msg_type: IpcMessageType::NetworkRequest,
        request_id: 12345,
        payload: b"test payload".to_vec(),
    };
    let bytes = encode_message(&msg);
    assert_eq!(bytes.len(), 16 + 12);
    assert_eq!(&bytes[0..4], &[0, 0, 0, 0]);
    assert_eq!(&bytes[4..12], &12345u64.to_le_bytes());
    assert_eq!(&bytes[12..16], &12u32.to_le_bytes());
    let received = decode_message(&bytes).unwrap();
    assert_eq!(received.msg_type, IpcMessageType::NetworkRequest);
    assert_eq!(received.request_id, 12345);
    assert_eq!(received.payload, b"test payload");

    let shutdown = IpcMessage { msg_type: IpcMessageType::Shutdown, request_id: u64::MAX, payload: vec![] };
    let back = decode_message(&encode_message(&shutdown)).unwrap();
    assert_eq!(back.msg_type, IpcMessageType::Shutdown);
    assert_eq!(back.request_id, u64::MAX);
}

#[test]
fn ipc_decode_rejects_short_and_truncated() {
    assert_eq!(decode_message(&[0u8; 15]).unwrap_err(), IpcDecodeError::TooShort);
    let mut bytes = vec![9u8, 0, 0, 0];
    bytes.extend_from_slice(&1u64.to_le_bytes());
    bytes.extend_from_slice(&3u32.to_le_bytes());
    bytes.extend_from_slice(&[1, 2]);
    assert_eq!(decode_message(&bytes).unwrap_err(), IpcDecodeError::Truncated);
    bytes.extend_from_slice(&[3, 4]);
    let m = decode_message(&bytes).unwrap();
    assert_eq!(m.msg_type, IpcMessageType::Error);
    assert_eq!(m.payload, vec![1, 2, 3]);
}
