//! Process sandbox policy: what each process of the browser may do, the
//! namespaces, capabilities and system calls that follow from it, and the
//! wire format of messages between processes.

use crate::text::{owned, string_views};
use vstd::prelude::*;

verus! {

/// Process types of the browser.
#[derive(Debug, Clone, Copy, PartialEq, Eq, Structural)]
pub enum ProcessType {
    /// UI process (highest privilege)
    Ui,
    /// Broker process (medium privilege)
    Broker,
    /// Network process (low privilege)
    Network,
    /// Content/renderer process (minimal privilege)
    Content,
}

/// seccomp-bpf policy specification.
#[derive(Debug, Clone, Copy, PartialEq, Eq, Structural)]
pub enum SeccompPolicy {
    /// No seccomp restrictions
    Unrestricted,
    /// Content process policy (most restrictive)
    Content,
    /// Network process policy
    Network,
    /// Broker process policy
    Broker,
}

/// Sandbox configuration for a process.
#[derive(Debug, Clone)]
pub struct SandboxConfig {
    /// Process type
    pub process_type: ProcessType,
    /// Allow network access
    pub allow_network: bool,
    /// Allow filesystem read
    pub allow_fs_read: bool,
    /// Allow filesystem write
    pub allow_fs_write: bool,
    /// Allowed paths (if filesystem access is granted)
    pub allowed_paths: Vec<String>,
    /// Use separate user namespace
    pub use_user_ns: bool,
    /// Use separate network namespace
    pub use_net_ns: bool,
    /// Use separate PID namespace
    pub use_pid_ns: bool,
    /// seccomp-bpf policy
    pub seccomp_policy: SeccompPolicy,
}

/// The configuration of each process type: only the network process has
/// network access, only the UI process reads files, and every process but
/// the UI one runs in its own user and PID namespaces under a seccomp
/// policy of its own.
pub open spec fn is_process_config(c: SandboxConfig, t: ProcessType) -> bool {
    &&& c.process_type == t
    &&& c.allow_network == (t == ProcessType::Network)
    &&& c.allow_fs_read == (t == ProcessType::Ui)
    &&& !c.allow_fs_write
    &&& string_views(c.allowed_paths@) == (if t == ProcessType::Ui {
        seq!["/usr/share/fonts"@, "/usr/share/icons"@]
    } else {
        seq![]
    })
    &&& c.use_user_ns == (t != ProcessType::Ui)
    &&& c.use_net_ns == (t == ProcessType::Broker || t == ProcessType::Content)
    &&& c.use_pid_ns == (t != ProcessType::Ui)
    &&& c.seccomp_policy == match t {
        ProcessType::Ui => SeccompPolicy::Unrestricted,
        ProcessType::Broker => SeccompPolicy::Broker,
        ProcessType::Network => SeccompPolicy::Network,
        ProcessType::Content => SeccompPolicy::Content,
    }
}

impl SandboxConfig {
    /// Create configuration for UI process.
    pub fn ui_process() -> (r: Self)
        ensures
            is_process_config(r, ProcessType::Ui),
    {
        let r = SandboxConfig {
            process_type: ProcessType::Ui,
            allow_network: false,
            allow_fs_read: true,
            allow_fs_write: false,
            allowed_paths: vec![owned("/usr/share/fonts"), owned("/usr/share/icons")],
            use_user_ns: false,
            use_net_ns: false,
            use_pid_ns: false,
            seccomp_policy: SeccompPolicy::Unrestricted,
        };
        assert(string_views(r.allowed_paths@) =~= seq!["/usr/share/fonts"@, "/usr/share/icons"@]);
        r
    }

    /// Create configuration for Broker process.
    pub fn broker_process() -> (r: Self)
        ensures
            is_process_config(r, ProcessType::Broker),
    {
        let r = SandboxConfig {
            process_type: ProcessType::Broker,
            allow_network: false,
            allow_fs_read: false,
            allow_fs_write: false,
            allowed_paths: Vec::new(),
            use_user_ns: true,
            use_net_ns: true,
            use_pid_ns: true,
            seccomp_policy: SeccompPolicy::Broker,
        };
        assert(string_views(r.allowed_paths@) =~= seq![]);
        r
    }

    /// Create configuration for Network process.
    pub fn network_process() -> (r: Self)
        ensures
            is_process_config(r, ProcessType::Network),
    {
        let r = SandboxConfig {
            process_type: ProcessType::Network,
            allow_network: true,
            allow_fs_read: false,
            allow_fs_write: false,
            allowed_paths: Vec::new(),
            use_user_ns: true,
            use_net_ns: false,
            use_pid_ns: true,
            seccomp_policy: SeccompPolicy::Network,
        };
        assert(string_views(r.allowed_paths@) =~= seq![]);
        r
    }

    /// Create configuration for Content process.
    pub fn content_process() -> (r: Self)
        ensures
            is_process_config(r, ProcessType::Content),
    {
        let r = SandboxConfig {
            process_type: ProcessType::Content,
            allow_network: false,
            allow_fs_read: false,
            allow_fs_write: false,
            allowed_paths: Vec::new(),
            use_user_ns: true,
            use_net_ns: true,
            use_pid_ns: true,
            seccomp_policy: SeccompPolicy::Content,
        };
        assert(string_views(r.allowed_paths@) =~= seq![]);
        r
    }
}

/// A Linux namespace a process may be moved into.
#[derive(Debug, Clone, Copy, PartialEq, Eq, Structural)]
pub enum Namespace {
    /// User namespace
    User,
    /// Network namespace
    Net,
    /// PID namespace
    Pid,
}

/// The namespaces a configuration asks for, in the order user, network, PID.
pub open spec fn requested_namespaces(c: SandboxConfig) -> Seq<Namespace> {
    (if c.use_user_ns { seq![Namespace::User] } else { seq![] }) + (if c.use_net_ns {
        seq![Namespace::Net]
    } else {
        seq![]
    }) + (if c.use_pid_ns { seq![Namespace::Pid] } else { seq![] })
}

/// The namespaces to unshare for a configuration (none: no unshare).
pub fn namespaces_to_unshare(config: &SandboxConfig) -> (r: Vec<Namespace>)
    ensures
        r@ == requested_namespaces(*config),
{
    let mut r: Vec<Namespace> = Vec::new();
    if config.use_user_ns {
        r.push(Namespace::User);
    }
    if config.use_net_ns {
        r.push(Namespace::Net);
    }
    if config.use_pid_ns {
        r.push(Namespace::Pid);
    }
    assert(r@ =~= requested_namespaces(*config));
    r
}

/// Whether a process gets an empty root filesystem: it may neither read
/// nor write files and has no allowed path.
pub fn apply_filesystem_restrictions(config: &SandboxConfig) -> (r: bool)
    ensures
        r == (config.allowed_paths@.len() == 0 && !config.allow_fs_read && !config.allow_fs_write),
{
    config.allowed_paths.len() == 0 && !config.allow_fs_read && !config.allow_fs_write
}

/// Which capabilities a process keeps.
#[derive(Debug, Clone, Copy, PartialEq, Eq, Structural)]
pub enum CapabilityPolicy {
    /// Every capability is dropped.
    DropAll,
    /// Only what binding a network service needs is kept.
    NetworkOnly,
    /// A minimal set for supervising children is kept.
    BrokerMinimal,
    /// Capabilities are kept for the display server.
    Retain,
}

/// The capabilities kept by each process type.
pub open spec fn capability_policy_of(t: ProcessType) -> CapabilityPolicy {
    match t {
        ProcessType::Content => CapabilityPolicy::DropAll,
        ProcessType::Network => CapabilityPolicy::NetworkOnly,
        ProcessType::Broker => CapabilityPolicy::BrokerMinimal,
        ProcessType::Ui => CapabilityPolicy::Retain,
    }
}

/// The capabilities a process keeps.
pub fn drop_capabilities(config: &SandboxConfig) -> (r: CapabilityPolicy)
    ensures
        r == capability_policy_of(config.process_type),
{
    match config.process_type {
        ProcessType::Content => CapabilityPolicy::DropAll,
        ProcessType::Network => CapabilityPolicy::NetworkOnly,
        ProcessType::Broker => CapabilityPolicy::BrokerMinimal,
        ProcessType::Ui => CapabilityPolicy::Retain,
    }
}

/// The system calls a seccomp filter can allow.
#[derive(Debug, Clone, Copy, PartialEq, Eq, Structural)]
pub enum Syscall {
    /// read
    Read,
    /// write
    Write,
    /// close
    Close,
    /// mmap
    Mmap,
    /// munmap
    Munmap,
    /// mprotect
    Mprotect,
    /// brk
    Brk,
    /// rt_sigaction
    RtSigaction,
    /// rt_sigprocmask
    RtSigprocmask,
    /// rt_sigreturn
    RtSigreturn,
    /// ioctl
    Ioctl,
    /// pipe2
    Pipe2,
    /// dup
    Dup,
    /// dup2
    Dup2,
    /// clone
    Clone,
    /// wait4
    Wait4,
    /// exit
    Exit,
    /// exit_group
    ExitGroup,
    /// futex
    Futex,
    /// set_tid_address
    SetTidAddress,
    /// clock_gettime
    ClockGettime,
    /// epoll_create1
    EpollCreate1,
    /// epoll_ctl
    EpollCtl,
    /// epoll_wait
    EpollWait,
    /// recvmsg
    Recvmsg,
    /// sendmsg
    Sendmsg,
    /// getrandom
    Getrandom,
    /// socket
    Socket,
    /// connect
    Connect,
    /// sendto
    Sendto,
    /// recvfrom
    Recvfrom,
    /// setsockopt
    Setsockopt,
    /// getsockopt
    Getsockopt,
    /// select
    Select,
    /// poll
    Poll,
    /// nanosleep
    Nanosleep,
    /// prctl
    Prctl,
    /// fork
    Fork,
    /// execve
    Execve,
}

/// The system calls of the content process: memory, signals, pipes,
/// threads, polling and messages, no files and no sockets.
pub open spec fn content_syscalls() -> Seq<Syscall> {
    seq![
        Syscall::Read, Syscall::Write, Syscall::Close, Syscall::Mmap, Syscall::Munmap,
        Syscall::Mprotect, Syscall::Brk, Syscall::RtSigaction, Syscall::RtSigprocmask,
        Syscall::RtSigreturn, Syscall::Ioctl, Syscall::Pipe2, Syscall::Dup, Syscall::Dup2,
        Syscall::Clone, Syscall::Wait4, Syscall::Exit, Syscall::ExitGroup, Syscall::Futex,
        Syscall::SetTidAddress, Syscall::ClockGettime, Syscall::EpollCreate1, Syscall::EpollCtl,
        Syscall::EpollWait, Syscall::Recvmsg, Syscall::Sendmsg, Syscall::Getrandom,
    ]
}

/// The system calls of the network process: sockets, no file opening.
pub open spec fn network_syscalls() -> Seq<Syscall> {
    seq![
        Syscall::Socket, Syscall::Connect, Syscall::Read, Syscall::Write, Syscall::Close,
        Syscall::Sendto, Syscall::Recvfrom, Syscall::Setsockopt, Syscall::Getsockopt,
        Syscall::EpollCreate1, Syscall::EpollCtl, Syscall::EpollWait, Syscall::Select,
        Syscall::Poll, Syscall::ClockGettime, Syscall::Nanosleep, Syscall::Mmap, Syscall::Munmap,
        Syscall::Brk, Syscall::Exit, Syscall::ExitGroup, Syscall::Futex, Syscall::Getrandom,
    ]
}

/// The system calls of the broker process: process control, no sockets.
pub open spec fn broker_syscalls() -> Seq<Syscall> {
    seq![
        Syscall::Read, Syscall::Write, Syscall::Close, Syscall::Mmap, Syscall::Munmap,
        Syscall::Mprotect, Syscall::Brk, Syscall::RtSigaction, Syscall::RtSigprocmask,
        Syscall::RtSigreturn, Syscall::Clone, Syscall::Wait4, Syscall::Exit, Syscall::ExitGroup,
        Syscall::Futex, Syscall::SetTidAddress, Syscall::ClockGettime, Syscall::EpollCreate1,
        Syscall::EpollCtl, Syscall::EpollWait, Syscall::Recvmsg, Syscall::Sendmsg,
        Syscall::Getrandom, Syscall::Prctl, Syscall::Fork, Syscall::Execve,
    ]
}

/// The system calls a policy allows; no filter at all for `Unrestricted`.
pub open spec fn allowed_syscalls(p: SeccompPolicy) -> Option<Seq<Syscall>> {
    match p {
        SeccompPolicy::Unrestricted => None,
        SeccompPolicy::Content => Some(content_syscalls()),
        SeccompPolicy::Network => Some(network_syscalls()),
        SeccompPolicy::Broker => Some(broker_syscalls()),
    }
}

/// The seccomp allow-list of a configuration's policy, or none when the
/// process runs without a filter.
pub fn apply_seccomp(config: &SandboxConfig) -> (r: Option<Vec<Syscall>>)
    ensures
        match (r, allowed_syscalls(config.seccomp_policy)) {
            (Some(v), Some(s)) => v@ == s,
            (None, None) => true,
            _ => false,
        },
{
    match config.seccomp_policy {
        SeccompPolicy::Unrestricted => None,
        SeccompPolicy::Content => {
            let v = vec![
                Syscall::Read, Syscall::Write, Syscall::Close, Syscall::Mmap, Syscall::Munmap,
                Syscall::Mprotect, Syscall::Brk, Syscall::RtSigaction, Syscall::RtSigprocmask,
                Syscall::RtSigreturn, Syscall::Ioctl, Syscall::Pipe2, Syscall::Dup, Syscall::Dup2,
                Syscall::Clone, Syscall::Wait4, Syscall::Exit, Syscall::ExitGroup, Syscall::Futex,
                Syscall::SetTidAddress, Syscall::ClockGettime, Syscall::EpollCreate1,
                Syscall::EpollCtl, Syscall::EpollWait, Syscall::Recvmsg, Syscall::Sendmsg,
                Syscall::Getrandom,
            ];
            assert(v@ =~= content_syscalls());
            Some(v)
        },
        SeccompPolicy::Network => {
            let v = vec![
                Syscall::Socket, Syscall::Connect, Syscall::Read, Syscall::Write, Syscall::Close,
                Syscall::Sendto, Syscall::Recvfrom, Syscall::Setsockopt, Syscall::Getsockopt,
                Syscall::EpollCreate1, Syscall::EpollCtl, Syscall::EpollWait, Syscall::Select,
                Syscall::Poll, Syscall::ClockGettime, Syscall::Nanosleep, Syscall::Mmap,
                Syscall::Munmap, Syscall::Brk, Syscall::Exit, Syscall::ExitGroup, Syscall::Futex,
                Syscall::Getrandom,
            ];
            assert(v@ =~= network_syscalls());
            Some(v)
        },
        SeccompPolicy::Broker => {
            let v = vec![
                Syscall::Read, Syscall::Write, Syscall::Close, Syscall::Mmap, Syscall::Munmap,
                Syscall::Mprotect, Syscall::Brk, Syscall::RtSigaction, Syscall::RtSigprocmask,
                Syscall::RtSigreturn, Syscall::Clone, Syscall::Wait4, Syscall::Exit,
                Syscall::ExitGroup, Syscall::Futex, Syscall::SetTidAddress, Syscall::ClockGettime,
                Syscall::EpollCreate1, Syscall::EpollCtl, Syscall::EpollWait, Syscall::Recvmsg,
                Syscall::Sendmsg, Syscall::Getrandom, Syscall::Prctl, Syscall::Fork,
                Syscall::Execve,
            ];
            assert(v@ =~= broker_syscalls());
            Some(v)
        },
    }
}

/// Types of IPC messages.
#[derive(Debug, Clone, Copy, PartialEq, Eq, Structural)]
pub enum IpcMessageType {
    /// Network request
    NetworkRequest,
    /// Network response
    NetworkResponse,
    /// Fingerprint identity
    FingerprintIdentity,
    /// Render request
    RenderRequest,
    /// Render complete
    RenderComplete,
    /// Error
    Error,
    /// Shutdown
    Shutdown,
}

/// IPC message for inter-process communication.
#[derive(Debug)]
pub struct IpcMessage {
    /// Message type
    pub msg_type: IpcMessageType,
    /// Message payload
    pub payload: Vec<u8>,
    /// Request ID for correlation
    pub request_id: u64,
}

/// Why received bytes are not a message.
#[derive(Debug, Clone, Copy, PartialEq, Eq, Structural)]
pub enum IpcDecodeError {
    /// Fewer than the sixteen header bytes.
    TooShort,
    /// Fewer payload bytes than the header announces.
    Truncated,
}

/// The wire code of a message type.
pub open spec fn type_code(t: IpcMessageType) -> u32 {
    match t {
        IpcMessageType::NetworkRequest => 0,
        IpcMessageType::NetworkResponse => 1,
        IpcMessageType::FingerprintIdentity => 2,
        IpcMessageType::RenderRequest => 3,
        IpcMessageType::RenderComplete => 4,
        IpcMessageType::Error => 5,
        IpcMessageType::Shutdown => 6,
    }
}

/// The message type of a wire code; unknown codes read as `Error`.
pub open spec fn type_of_code(c: u32) -> IpcMessageType {
    if c == 0 {
        IpcMessageType::NetworkRequest
    } else if c == 1 {
        IpcMessageType::NetworkResponse
    } else if c == 2 {
        IpcMessageType::FingerprintIdentity
    } else if c == 3 {
        IpcMessageType::RenderRequest
    } else if c == 4 {
        IpcMessageType::RenderComplete
    } else if c == 6 {
        IpcMessageType::Shutdown
    } else {
        IpcMessageType::Error
    }
}

/// The four little-endian bytes of a `u32`.
pub open spec fn u32_le(v: u32) -> Seq<u8> {
    seq![(v & 0xff) as u8, ((v >> 8) & 0xff) as u8, ((v >> 16) & 0xff) as u8, ((v >> 24) & 0xff) as u8]
}

/// The `u32` of four little-endian bytes.
pub open spec fn u32_of_le(b: Seq<u8>) -> u32 {
    (b[0] as u32) | ((b[1] as u32) << 8) | ((b[2] as u32) << 16) | ((b[3] as u32) << 24)
}

/// The eight little-endian bytes of a `u64`.
pub open spec fn u64_le(v: u64) -> Seq<u8> {
    u32_le((v & 0xffff_ffff) as u32) + u32_le((v >> 32) as u32)
}

/// The `u64` of eight little-endian bytes.
pub open spec fn u64_of_le(b: Seq<u8>) -> u64 {
    (u32_of_le(b.subrange(0, 4)) as u64) | ((u32_of_le(b.subrange(4, 8)) as u64) << 32)
}

/// The bytes of a message: type code, request id and payload length,
/// little-endian, then the payload.
pub open spec fn encoded_message(m: IpcMessage) -> Seq<u8> {
    u32_le(type_code(m.msg_type)) + u64_le(m.request_id) + u32_le(m.payload@.len() as u32)
        + m.payload@
}

/// What received bytes hold: type, request id and payload, or why not.
/// Bytes after the announced payload are ignored.
pub open spec fn decoded_message(b: Seq<u8>) -> Result<(IpcMessageType, u64, Seq<u8>), IpcDecodeError> {
    if b.len() < 16 {
        Err(IpcDecodeError::TooShort)
    } else {
        let len = u32_of_le(b.subrange(12, 16));
        if 16 + len > b.len() {
            Err(IpcDecodeError::Truncated)
        } else {
            Ok(
                (
                    type_of_code(u32_of_le(b.subrange(0, 4))),
                    u64_of_le(b.subrange(4, 12)),
                    b.subrange(16, 16 + len),
                ),
            )
        }
    }
}

proof fn lemma_u32_roundtrip(v: u32)
    ensures
        u32_of_le(u32_le(v)) == v,
{
    let b0 = (v & 0xff) as u8;
    let b1 = ((v >> 8) & 0xff) as u8;
    let b2 = ((v >> 16) & 0xff) as u8;
    let b3 = ((v >> 24) & 0xff) as u8;
    assert((b0 as u32) | ((b1 as u32) << 8) | ((b2 as u32) << 16) | ((b3 as u32) << 24) == v)
        by (bit_vector)
        requires
            b0 == (v & 0xff) as u8,
            b1 == ((v >> 8) & 0xff) as u8,
            b2 == ((v >> 16) & 0xff) as u8,
            b3 == ((v >> 24) & 0xff) as u8,
    ;
}

proof fn lemma_u64_roundtrip(v: u64)
    ensures
        u64_of_le(u64_le(v)) == v,
{
    let lo = (v & 0xffff_ffff) as u32;
    let hi = (v >> 32) as u32;
    lemma_u32_roundtrip(lo);
    lemma_u32_roundtrip(hi);
    assert(u64_le(v).subrange(0, 4) =~= u32_le(lo));
    assert(u64_le(v).subrange(4, 8) =~= u32_le(hi));
    assert(((lo as u64) | ((hi as u64) << 32)) == v) by (bit_vector)
        requires
            lo == (v & 0xffff_ffff) as u32,
            hi == (v >> 32) as u32,
    ;
}

/// Decoding the bytes of a message gives back its type, request id and
/// payload, for every payload whose length fits the four-byte header.
pub proof fn lemma_message_roundtrip(m: IpcMessage)
    requires
        m.payload@.len() <= u32::MAX,
    ensures
        decoded_message(encoded_message(m)) == Ok::<
            (IpcMessageType, u64, Seq<u8>),
            IpcDecodeError,
        >((m.msg_type, m.request_id, m.payload@)),
{
    let b = encoded_message(m);
    let n = m.payload@.len() as u32;
    lemma_u32_roundtrip(type_code(m.msg_type));
    lemma_u64_roundtrip(m.request_id);
    lemma_u32_roundtrip(n);
    assert(b.subrange(0, 4) =~= u32_le(type_code(m.msg_type)));
    assert(b.subrange(4, 12) =~= u64_le(m.request_id));
    assert(b.subrange(12, 16) =~= u32_le(n));
    assert(b.subrange(16, 16 + n) =~= m.payload@);
}

fn push_u32_le(out: &mut Vec<u8>, v: u32)
    ensures
        final(out)@ == old(out)@ + u32_le(v),
{
    out.push((v & 0xff) as u8);
    out.push(((v >> 8) & 0xff) as u8);
    out.push(((v >> 16) & 0xff) as u8);
    out.push(((v >> 24) & 0xff) as u8);
    assert(out@ =~= old(out)@ + u32_le(v));
}

fn read_u32_le(b: &[u8], at: usize) -> (r: u32)
    requires
        at + 4 <= b@.len(),
    ensures
        r == u32_of_le(b@.subrange(at as int, at + 4)),
{
    proof {
        let s = b@.subrange(at as int, at + 4);
        assert(s[0] == b@[at as int] && s[1] == b@[at + 1] && s[2] == b@[at + 2] && s[3] == b@[at
            + 3]);
    }
    (b[at] as u32) | ((b[at + 1] as u32) << 8) | ((b[at + 2] as u32) << 16) | ((b[at + 3] as u32)
        << 24)
}

/// The code of a message type.
pub fn message_type_code(t: IpcMessageType) -> (r: u32)
    ensures
        r == type_code(t),
{
    match t {
        IpcMessageType::NetworkRequest => 0,
        IpcMessageType::NetworkResponse => 1,
        IpcMessageType::FingerprintIdentity => 2,
        IpcMessageType::RenderRequest => 3,
        IpcMessageType::RenderComplete => 4,
        IpcMessageType::Error => 5,
        IpcMessageType::Shutdown => 6,
    }
}

/// The message type of a code; unknown codes read as `Error`.
pub fn message_type_of_code(c: u32) -> (r: IpcMessageType)
    ensures
        r == type_of_code(c),
{
    if c == 0 {
        IpcMessageType::NetworkRequest
    } else if c == 1 {
        IpcMessageType::NetworkResponse
    } else if c == 2 {
        IpcMessageType::FingerprintIdentity
    } else if c == 3 {
        IpcMessageType::RenderRequest
    } else if c == 4 {
        IpcMessageType::RenderComplete
    } else if c == 6 {
        IpcMessageType::Shutdown
    } else {
        IpcMessageType::Error
    }
}

/// Serialize a message for sending.
pub fn encode_message(msg: &IpcMessage) -> (r: Vec<u8>)
    requires
        msg.payload@.len() <= u32::MAX,
    ensures
        r@ == encoded_message(*msg),
{
    let mut buffer: Vec<u8> = Vec::new();
    push_u32_le(&mut buffer, message_type_code(msg.msg_type));
    push_u32_le(&mut buffer, (msg.request_id & 0xffff_ffff) as u32);
    push_u32_le(&mut buffer, (msg.request_id >> 32) as u32);
    push_u32_le(&mut buffer, msg.payload.len() as u32);
    let mut i: usize = 0;
    let ghost head = buffer@;
    while i < msg.payload.len()
        invariant
            i <= msg.payload@.len(),
            buffer@ == head + msg.payload@.subrange(0, i as int),
        decreases msg.payload@.len() - i,
    {
        buffer.push(msg.payload[i]);
        i += 1;
        assert(buffer@ =~= head + msg.payload@.subrange(0, i as int));
    }
    assert(msg.payload@.subrange(0, msg.payload@.len() as int) =~= msg.payload@);
    assert(buffer@ =~= encoded_message(*msg));
    buffer
}

/// Deserialize received bytes into a message.
pub fn decode_message(buffer: &[u8]) -> (r: Result<IpcMessage, IpcDecodeError>)
    ensures
        match (r, decoded_message(buffer@)) {
            (Ok(m), Ok((t, id, p))) => m.msg_type == t && m.request_id == id && m.payload@ == p,
            (Err(e), Err(f)) => e == f,
            _ => false,
        },
{
    if buffer.len() < 16 {
        return Err(IpcDecodeError::TooShort);
    }
    let msg_type = read_u32_le(buffer, 0);
    let lo = read_u32_le(buffer, 4);
    let hi = read_u32_le(buffer, 8);
    let payload_len = read_u32_le(buffer, 12);
    if payload_len as usize > buffer.len() - 16 {
        return Err(IpcDecodeError::Truncated);
    }
    let request_id = (lo as u64) | ((hi as u64) << 32);
    proof {
        let s = buffer@.subrange(4, 12);
        assert(s.subrange(0, 4) =~= buffer@.subrange(4, 8));
        assert(s.subrange(4, 8) =~= buffer@.subrange(8, 12));
    }
    let end = 16 + payload_len as usize;
    let mut payload: Vec<u8> = Vec::new();
    let mut i: usize = 16;
    while i < end
        invariant
            16 <= i <= end,
            end <= buffer@.len(),
            payload@ == buffer@.subrange(16, i as int),
        decreases end - i,
    {
        payload.push(buffer[i]);
        i += 1;
        assert(payload@ =~= buffer@.subrange(16, i as int));
    }
    Ok(IpcMessage { msg_type: message_type_of_code(msg_type), payload, request_id })
}

} // verus!
