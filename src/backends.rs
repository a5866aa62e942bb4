//! Backend selection by protocol name, and the storage clients whose logic
//! needs no network: local disk (its file access is the caller's), and the
//! SSH and SMB placeholders.

use crate::storage::{ConnectionConfig, DirectoryResult, ListOptions, StorageError};
use crate::text::text_eq;
use vstd::prelude::*;
use vstd::string::*;

verus! {

/// The backend families a connection descriptor can name.
#[derive(Debug, Clone, Copy, PartialEq, Eq, Structural)]
pub enum BackendKind {
    Local,
    Oss,
    WebDav,
    Ssh,
    Smb,
    HuggingFace,
}

/// The backend that a protocol name selects.
pub open spec fn backend_for(protocol: Seq<char>) -> Option<BackendKind> {
    if protocol == "local"@ || protocol == "file"@ {
        Some(BackendKind::Local)
    } else if protocol == "oss"@ || protocol == "s3"@ {
        Some(BackendKind::Oss)
    } else if protocol == "webdav"@ || protocol == "webdavs"@ {
        Some(BackendKind::WebDav)
    } else if protocol == "ssh"@ || protocol == "sftp"@ {
        Some(BackendKind::Ssh)
    } else if protocol == "smb"@ || protocol == "cifs"@ {
        Some(BackendKind::Smb)
    } else if protocol == "huggingface"@ {
        Some(BackendKind::HuggingFace)
    } else {
        None
    }
}

/// Selects the backend for a protocol name; unknown names are refused.
pub fn select_backend(protocol: &str) -> (r: Result<BackendKind, StorageError>)
    ensures
        r is Ok <==> backend_for(protocol@) is Some,
        r matches Ok(k) ==> backend_for(protocol@) == Some(k),
        r is Err ==> r matches Err(StorageError::ProtocolNotSupported(_)),
{
    if text_eq(protocol, "local") || text_eq(protocol, "file") {
        Ok(BackendKind::Local)
    } else if text_eq(protocol, "oss") || text_eq(protocol, "s3") {
        Ok(BackendKind::Oss)
    } else if text_eq(protocol, "webdav") || text_eq(protocol, "webdavs") {
        Ok(BackendKind::WebDav)
    } else if text_eq(protocol, "ssh") || text_eq(protocol, "sftp") {
        Ok(BackendKind::Ssh)
    } else if text_eq(protocol, "smb") || text_eq(protocol, "cifs") {
        Ok(BackendKind::Smb)
    } else if text_eq(protocol, "huggingface") {
        Ok(BackendKind::HuggingFace)
    } else {
        Err(StorageError::ProtocolNotSupported(String::from_str("unsupported protocol: ").concat(protocol)))
    }
}

fn unavailable(connected: bool) -> (r: StorageError)
    ensures
        !connected ==> r is NotConnected,
        connected ==> r is RequestFailed,
{
    if connected {
        StorageError::RequestFailed("Not implemented".to_string())
    } else {
        StorageError::NotConnected
    }
}

/// SSH/SFTP client. The transfer operations are not provided by this backend
/// and fail as not implemented.
#[derive(Debug, Clone)]
pub struct SSHClient {
    pub config: ConnectionConfig,
    pub connected: bool,
}

impl SSHClient {
    /// A client for `config`, not yet connected.
    pub fn new(config: ConnectionConfig) -> (r: Result<Self, StorageError>)
        ensures
            r matches Ok(c) && !c.connected && c.config == config,
    {
        Ok(SSHClient { config, connected: false })
    }

    /// Accepts only the `ssh` and `sftp` protocols.
    pub fn validate_config(&self, config: &ConnectionConfig) -> (r: Result<(), StorageError>)
        ensures
            r is Ok <==> (config.protocol@ == "ssh"@ || config.protocol@ == "sftp"@),
            r matches Err(e) ==> e matches StorageError::ProtocolNotSupported(p) && p@ == config.protocol@,
    {
        if text_eq(config.protocol.as_str(), "ssh") || text_eq(config.protocol.as_str(), "sftp") {
            Ok(())
        } else {
            Err(StorageError::ProtocolNotSupported(config.protocol.clone()))
        }
    }

    /// Connects after validating `config`.
    pub fn connect(&mut self, config: &ConnectionConfig) -> (r: Result<(), StorageError>)
        ensures
            r is Ok <==> (config.protocol@ == "ssh"@ || config.protocol@ == "sftp"@),
            final(self).connected == (r is Ok || old(self).connected),
            final(self).config == old(self).config,
    {
        self.validate_config(config)?;
        self.connected = true;
        Ok(())
    }

    /// Whether the client is connected.
    pub fn is_connected(&self) -> (r: bool)
        ensures
            r == self.connected,
    {
        self.connected
    }

    /// Disconnects; always succeeds.
    pub fn disconnect(&mut self) -> (r: Result<(), StorageError>)
        ensures
            r is Ok,
            !final(self).connected,
            final(self).config == old(self).config,
    {
        self.connected = false;
        Ok(())
    }

    /// An empty listing of `path`, or `NotConnected`.
    pub fn list_directory(&self, path: &str, _options: Option<&ListOptions>) -> (r: Result<
        DirectoryResult,
        StorageError,
    >)
        ensures
            !self.connected ==> r matches Err(StorageError::NotConnected),
            self.connected ==> (r matches Ok(d) && d.files@.len() == 0 && !d.has_more
                && d.next_marker is None && d.total_count is None && d.path@ == path@),
    {
        if !self.connected {
            return Err(StorageError::NotConnected);
        }
        Ok(DirectoryResult {
            files: Vec::new(),
            has_more: false,
            next_marker: None,
            total_count: None,
            path: path.to_string(),
        })
    }

    /// Not provided by this backend: `NotConnected` before connecting, a
    /// failed request after.
    pub fn read_file_range(&self, _path: &str, _start: u64, _length: u64) -> (r: Result<Vec<u8>, StorageError>)
        ensures
            !self.connected ==> r matches Err(StorageError::NotConnected),
            self.connected ==> r matches Err(StorageError::RequestFailed(_)),
    {
        Err(unavailable(self.connected))
    }

    /// Not provided by this backend: `NotConnected` before connecting, a
    /// failed request after.
    pub fn read_full_file(&self, _path: &str) -> (r: Result<Vec<u8>, StorageError>)
        ensures
            !self.connected ==> r matches Err(StorageError::NotConnected),
            self.connected ==> r matches Err(StorageError::RequestFailed(_)),
    {
        Err(unavailable(self.connected))
    }

    /// Not provided by this backend: `NotConnected` before connecting, a
    /// failed request after.
    pub fn get_file_size(&self, _path: &str) -> (r: Result<u64, StorageError>)
        ensures
            !self.connected ==> r matches Err(StorageError::NotConnected),
            self.connected ==> r matches Err(StorageError::RequestFailed(_)),
    {
        Err(unavailable(self.connected))
    }

    /// The protocol name.
    pub fn protocol(&self) -> (r: &'static str)
        ensures
            r@ == "ssh"@,
    {
        "ssh"
    }

    /// `ssh://` followed by `path`.
    pub fn build_protocol_url(&self, path: &str) -> (r: String)
        ensures
            r@ == "ssh://"@ + path@,
    {
        String::from_str("ssh://").concat(path)
    }
}

/// SMB/CIFS client. The transfer operations are not provided by this backend
/// and fail as not implemented.
#[derive(Debug, Clone)]
pub struct SMBClient {
    pub config: ConnectionConfig,
    pub connected: bool,
}

impl SMBClient {
    /// A client for `config`, not yet connected.
    pub fn new(config: ConnectionConfig) -> (r: Result<Self, StorageError>)
        ensures
            r matches Ok(c) && !c.connected && c.config == config,
    {
        Ok(SMBClient { config, connected: false })
    }

    /// Accepts only the `smb` and `cifs` protocols.
    pub fn validate_config(&self, config: &ConnectionConfig) -> (r: Result<(), StorageError>)
        ensures
            r is Ok <==> (config.protocol@ == "smb"@ || config.protocol@ == "cifs"@),
            r matches Err(e) ==> e matches StorageError::ProtocolNotSupported(p) && p@ == config.protocol@,
    {
        if text_eq(config.protocol.as_str(), "smb") || text_eq(config.protocol.as_str(), "cifs") {
            Ok(())
        } else {
            Err(StorageError::ProtocolNotSupported(config.protocol.clone()))
        }
    }

    /// Connects after validating `config`.
    pub fn connect(&mut self, config: &ConnectionConfig) -> (r: Result<(), StorageError>)
        ensures
            r is Ok <==> (config.protocol@ == "smb"@ || config.protocol@ == "cifs"@),
            final(self).connected == (r is Ok || old(self).connected),
            final(self).config == old(self).config,
    {
        self.validate_config(config)?;
        self.connected = true;
        Ok(())
    }

    /// Whether the client is connected.
    pub fn is_connected(&self) -> (r: bool)
        ensures
            r == self.connected,
    {
        self.connected
    }

    /// Disconnects; always succeeds.
    pub fn disconnect(&mut self) -> (r: Result<(), StorageError>)
        ensures
            r is Ok,
            !final(self).connected,
            final(self).config == old(self).config,
    {
        self.connected = false;
        Ok(())
    }

    /// An empty listing of `path`, or `NotConnected`.
    pub fn list_directory(&self, path: &str, _options: Option<&ListOptions>) -> (r: Result<
        DirectoryResult,
        StorageError,
    >)
        ensures
            !self.connected ==> r matches Err(StorageError::NotConnected),
            self.connected ==> (r matches Ok(d) && d.files@.len() == 0 && !d.has_more
                && d.next_marker is None && d.total_count is None && d.path@ == path@),
    {
        if !self.connected {
            return Err(StorageError::NotConnected);
        }
        Ok(DirectoryResult {
            files: Vec::new(),
            has_more: false,
            next_marker: None,
            total_count: None,
            path: path.to_string(),
        })
    }

    /// Not provided by this backend: `NotConnected` before connecting, a
    /// failed request after.
    pub fn read_file_range(&self, _path: &str, _start: u64, _length: u64) -> (r: Result<Vec<u8>, StorageError>)
        ensures
            !self.connected ==> r matches Err(StorageError::NotConnected),
            self.connected ==> r matches Err(StorageError::RequestFailed(_)),
    {
        Err(unavailable(self.connected))
    }

    /// Not provided by this backend: `NotConnected` before connecting, a
    /// failed request after.
    pub fn read_full_file(&self, _path: &str) -> (r: Result<Vec<u8>, StorageError>)
        ensures
            !self.connected ==> r matches Err(StorageError::NotConnected),
            self.connected ==> r matches Err(StorageError::RequestFailed(_)),
    {
        Err(unavailable(self.connected))
    }

    /// Not provided by this backend: `NotConnected` before connecting, a
    /// failed request after.
    pub fn get_file_size(&self, _path: &str) -> (r: Result<u64, StorageError>)
        ensures
            !self.connected ==> r matches Err(StorageError::NotConnected),
            self.connected ==> r matches Err(StorageError::RequestFailed(_)),
    {
        Err(unavailable(self.connected))
    }

    /// The protocol name.
    pub fn protocol(&self) -> (r: &'static str)
        ensures
            r@ == "smb"@,
    {
        "smb"
    }

    /// `smb://` followed by `path`.
    pub fn build_protocol_url(&self, path: &str) -> (r: String)
        ensures
            r@ == "smb://"@ + path@,
    {
        String::from_str("smb://").concat(path)
    }
}

/// `s` without its leading `/` characters.
pub open spec fn strip_leading_slashes(s: Seq<char>) -> Seq<char>
    decreases s.len(),
{
    if s.len() > 0 && s[0] == '/' {
        strip_leading_slashes(s.drop_first())
    } else {
        s
    }
}

/// Relative path `p` appended to `root`, with a `/` between them unless
/// `root` is empty or already ends with one.
pub open spec fn path_join(root: Seq<char>, p: Seq<char>) -> Seq<char> {
    if root.len() == 0 || root.last() == '/' {
        root + p
    } else {
        root + seq!['/'] + p
    }
}

/// How the root directory of a local connection was found on disk.
#[derive(Debug, Clone, Copy, PartialEq, Eq, Structural)]
pub enum RootStatus {
    Missing,
    NotDirectory,
    Directory,
}

/// The root directory a local connection uses: the descriptor's root path,
/// else its URL.
pub open spec fn local_root(config: ConnectionConfig) -> Option<Seq<char>> {
    match config.root_path {
        Some(r) => Some(r@),
        None => match config.url {
            Some(u) => Some(u@),
            None => None,
        },
    }
}

/// Local file-system client. Its file access is performed by the caller; the
/// client holds the connection state and resolves paths under its root.
#[derive(Debug, Clone)]
pub struct LocalClient {
    pub config: ConnectionConfig,
    pub connected: bool,
    pub root_path: Option<String>,
}

fn strip_leading_slashes_text(s: &str) -> (r: &str)
    ensures
        r@ == strip_leading_slashes(s@),
{
    let n = s.unicode_len();
    let mut i: usize = 0;
    assert(s@.subrange(0, n as int) =~= s@);
    while i < n && s.get_char(i) == '/'
        invariant
            n == s@.len(),
            i <= n,
            strip_leading_slashes(s@) == strip_leading_slashes(s@.subrange(i as int, n as int)),
        decreases n - i,
    {
        assert(s@.subrange(i as int, n as int).drop_first() =~= s@.subrange(i + 1, n as int));
        i = i + 1;
    }
    s.substring_char(i, n)
}

impl LocalClient {
    /// A client for `config`, not yet connected and without a root.
    pub fn new(config: ConnectionConfig) -> (r: Result<Self, StorageError>)
        ensures
            r matches Ok(c) && !c.connected && c.root_path is None && c.config == config,
    {
        Ok(LocalClient { config, connected: false, root_path: None })
    }

    /// Accepts only the `local` and `file` protocols.
    pub fn validate_config(&self, config: &ConnectionConfig) -> (r: Result<(), StorageError>)
        ensures
            r is Ok <==> (config.protocol@ == "local"@ || config.protocol@ == "file"@),
            r matches Err(e) ==> e matches StorageError::ProtocolNotSupported(p) && p@ == config.protocol@,
    {
        if text_eq(config.protocol.as_str(), "local") || text_eq(config.protocol.as_str(), "file") {
            Ok(())
        } else {
            Err(StorageError::ProtocolNotSupported(config.protocol.clone()))
        }
    }

    /// The root directory that connecting with `config` uses.
    pub fn root_path_of(config: &ConnectionConfig) -> (r: Option<String>)
        ensures
            r is Some <==> local_root(*config) is Some,
            r matches Some(p) ==> local_root(*config) == Some(p@),
    {
        match &config.root_path {
            Some(r) => Some(r.clone()),
            None => match &config.url {
                Some(u) => Some(u.clone()),
                None => None,
            },
        }
    }

    /// Connects with `config`; `root_status` tells what the caller found on
    /// disk at the root directory (it is not consulted when there is none).
    pub fn connect(&mut self, config: &ConnectionConfig, root_status: RootStatus) -> (r: Result<
        (),
        StorageError,
    >)
        ensures
            !(config.protocol@ == "local"@ || config.protocol@ == "file"@) ==> (r matches Err(
                StorageError::ProtocolNotSupported(_),
            ) && *final(self) == *old(self)),
            (config.protocol@ == "local"@ || config.protocol@ == "file"@) ==> {
                &&& (final(self).root_path is Some <==> local_root(*config) is Some)
                &&& (final(self).root_path matches Some(p) ==> local_root(*config) == Some(p@))
                &&& (r is Ok <==> (local_root(*config) is None || root_status
                    == RootStatus::Directory))
                &&& (local_root(*config) is Some && root_status == RootStatus::Missing ==> r matches Err(StorageError::NotFound(_)))
                &&& (local_root(*config) is Some && root_status == RootStatus::NotDirectory ==> r matches Err(StorageError::InvalidConfig(_)))
                &&& final(self).connected == (r is Ok || old(self).connected)
                &&& final(self).config == old(self).config
            },
    {
        self.validate_config(config)?;
        self.root_path = Self::root_path_of(config);
        match &self.root_path {
            Some(root) => match root_status {
                RootStatus::Missing => {
                    return Err(
                        StorageError::NotFound(
                            String::from_str("root path does not exist: ").concat(root.as_str()),
                        ),
                    );
                },
                RootStatus::NotDirectory => {
                    return Err(
                        StorageError::InvalidConfig(
                            String::from_str("root path is not a directory: ").concat(
                                root.as_str(),
                            ),
                        ),
                    );
                },
                RootStatus::Directory => {},
            },
            None => {},
        }
        self.connected = true;
        Ok(())
    }

    /// Whether the client is connected.
    pub fn is_connected(&self) -> (r: bool)
        ensures
            r == self.connected,
    {
        self.connected
    }

    /// Disconnects and forgets the root; always succeeds.
    pub fn disconnect(&mut self) -> (r: Result<(), StorageError>)
        ensures
            r is Ok,
            !final(self).connected,
            final(self).root_path is None,
            final(self).config == old(self).config,
    {
        self.connected = false;
        self.root_path = None;
        Ok(())
    }

    /// The on-disk path of `path`: its leading `/` removed, then placed
    /// under the root when there is one.
    pub fn resolve_path(&self, path: &str) -> (r: String)
        ensures
            r@ == match self.root_path {
                Some(root) => path_join(root@, strip_leading_slashes(path@)),
                None => strip_leading_slashes(path@),
            },
    {
        let relative = strip_leading_slashes_text(path);
        match &self.root_path {
            Some(root) => {
                let n = root.as_str().unicode_len();
                if n == 0 || root.as_str().get_char(n - 1) == '/' {
                    root.clone().concat(relative)
                } else {
                    proof {
                        reveal_strlit("/");
                    }
                    root.clone().concat("/").concat(relative)
                }
            },
            None => String::from_str(relative),
        }
    }

    /// The protocol name.
    pub fn protocol(&self) -> (r: &'static str)
        ensures
            r@ == "local"@,
    {
        "local"
    }

    /// `file://` followed by the resolved path.
    pub fn build_protocol_url(&self, path: &str) -> (r: String)
        ensures
            r@ == "file://"@ + match self.root_path {
                Some(root) => path_join(root@, strip_leading_slashes(path@)),
                None => strip_leading_slashes(path@),
            },
    {
        let resolved = self.resolve_path(path);
        String::from_str("file://").concat(resolved.as_str())
    }
}

} // verus!
