//! Configuration: what the embedder supplies to the runtime, and what the
//! runtime assembles from it for the execution engine.

use std::sync::Arc;
use vstd::prelude::*;
use vstd::string::*;
use crate::clock::unix_nanos;
use crate::text::{followed_by, decimal, decimal_digits};

verus! {

/// Runtime configuration. `T` is the type of the syscall table that the
/// execution engine consults; the runtime only carries it.
#[derive(Debug, PartialEq)]
pub struct RuntimeConfig<T> {
    /// Optional custom syscall table.
    pub syscall_table: Option<Arc<T>>,
    /// Directory for storing logs.
    pub log_directory: String,
    /// Directory for temporary files.
    pub tmp_directory: String,
}

/// A `RuntimeConfig` with its directories as sequences of characters.
pub struct RuntimeConfigView<T> {
    pub syscall_table: Option<Arc<T>>,
    pub log_directory: Seq<char>,
    pub tmp_directory: Seq<char>,
}

impl<T> View for RuntimeConfig<T> {
    type V = RuntimeConfigView<T>;

    open spec fn view(&self) -> RuntimeConfigView<T> {
        RuntimeConfigView {
            syscall_table: self.syscall_table,
            log_directory: self.log_directory@,
            tmp_directory: self.tmp_directory@,
        }
    }
}

/// The directory that a process uses by default for logs and temporary
/// files: a fixed stem, then a unique number and the process id, both in
/// decimal.
pub open spec fn default_directory(unique_id: u128, pid: u32) -> Seq<char> {
    "/tmp/hyperlight-nanvix-"@ + decimal_digits(unique_id as nat) + "-"@ + decimal_digits(
        pid as nat,
    )
}

/// The default configuration of the process `pid` for the unique number
/// `unique_id`: no custom syscall table, and one directory for both logs and
/// temporary files.
pub open spec fn default_config<T>(unique_id: u128, pid: u32) -> RuntimeConfigView<T> {
    RuntimeConfigView {
        syscall_table: None,
        log_directory: default_directory(unique_id, pid),
        tmp_directory: default_directory(unique_id, pid),
    }
}

/// Calls `Arc::clone`: another handle to the same shared value.
#[verifier::external_body]
pub(crate) fn share<T>(handle: &Arc<T>) -> (r: Arc<T>)
    ensures
        r == *handle,
{
    Arc::clone(handle)
}

impl<T> RuntimeConfig<T> {
    /// The default configuration of the process `pid`, made unique by
    /// `unique_id`, so that instances running side by side do not share
    /// directories.
    pub fn for_process(unique_id: u128, pid: u32) -> (r: Self)
        ensures
            r@ == default_config::<T>(unique_id, pid),
    {
        let stem = followed_by("/tmp/hyperlight-nanvix-", decimal(unique_id).as_str());
        let stem = followed_by(stem.as_str(), "-");
        let directory = followed_by(stem.as_str(), decimal(pid as u128).as_str());
        RuntimeConfig {
            syscall_table: None,
            log_directory: directory.clone(),
            tmp_directory: directory,
        }
    }

    /// The default configuration of the process `pid`, made unique by the
    /// time of the call in nanoseconds since the Unix epoch, or by zero where
    /// the clock stands before the epoch.
    pub fn new(pid: u32) -> (r: Self)
        ensures
            exists|unique_id: u128| r@ == default_config::<T>(unique_id, pid),
    {
        let unique_id = match unix_nanos() {
            Some(nanos) => nanos,
            None => 0,
        };
        Self::for_process(unique_id, pid)
    }

    /// Replaces the syscall table.
    pub fn with_syscall_table(self, table: Arc<T>) -> (r: Self)
        ensures
            r@ == (RuntimeConfigView { syscall_table: Some(table), ..self@ }),
    {
        RuntimeConfig {
            syscall_table: Some(table),
            log_directory: self.log_directory,
            tmp_directory: self.tmp_directory,
        }
    }

    /// Replaces the log directory.
    pub fn with_log_directory(self, dir: &str) -> (r: Self)
        ensures
            r@ == (RuntimeConfigView { log_directory: dir@, ..self@ }),
    {
        RuntimeConfig {
            syscall_table: self.syscall_table,
            log_directory: dir.to_owned(),
            tmp_directory: self.tmp_directory,
        }
    }

    /// Replaces the directory for temporary files.
    pub fn with_tmp_directory(self, dir: &str) -> (r: Self)
        ensures
            r@ == (RuntimeConfigView { tmp_directory: dir@, ..self@ }),
    {
        RuntimeConfig {
            syscall_table: self.syscall_table,
            log_directory: self.log_directory,
            tmp_directory: dir.to_owned(),
        }
    }

}

impl<T> Clone for RuntimeConfig<T> {
    /// A copy of this configuration that shares the syscall table.
    fn clone(&self) -> (r: Self)
        ensures
            r@ == self@,
    {
        let syscall_table = match &self.syscall_table {
            Some(table) => Some(share(table)),
            None => None,
        };
        RuntimeConfig {
            syscall_table,
            log_directory: self.log_directory.clone(),
            tmp_directory: self.tmp_directory.clone(),
        }
    }
}

/// The kind of channel over which the engine talks to the guest.
#[derive(Debug, Clone, Copy, PartialEq, Eq, Structural)]
pub enum ChannelKind {
    /// A Unix domain socket.
    Unix,
    /// A TCP socket.
    Tcp,
}

/// Where the engine takes its syscall table from.
#[derive(Debug, PartialEq)]
pub enum SyscallTableSource<T> {
    /// The table that the embedder supplied.
    Supplied(Arc<T>),
    /// A table without any interception, built for the run.
    Empty,
}

/// All that the execution engine needs to be set up for one run.
#[derive(Debug, PartialEq)]
pub struct ExecutionConfig<T> {
    /// Channel kind of the input channel.
    pub input_channel: ChannelKind,
    /// Channel kind of the output channel.
    pub output_channel: ChannelKind,
    /// Channel kind of the control channel.
    pub control_channel: ChannelKind,
    /// File that receives the guest's console output.
    pub console_log: String,
    /// Path of the kernel binary.
    pub kernel_path: String,
    /// The syscall table to install.
    pub syscall_table: SyscallTableSource<T>,
    /// Directory of the toolchain.
    pub toolchain_directory: String,
    /// Directory for logs.
    pub log_directory: String,
    /// File that holds the snapshot.
    pub snapshot_path: String,
    /// Directory for temporary files and sockets.
    pub tmp_directory: String,
}

/// An `ExecutionConfig` with its paths as sequences of characters.
pub struct ExecutionConfigView<T> {
    pub input_channel: ChannelKind,
    pub output_channel: ChannelKind,
    pub control_channel: ChannelKind,
    pub console_log: Seq<char>,
    pub kernel_path: Seq<char>,
    pub syscall_table: SyscallTableSource<T>,
    pub toolchain_directory: Seq<char>,
    pub log_directory: Seq<char>,
    pub snapshot_path: Seq<char>,
    pub tmp_directory: Seq<char>,
}

impl<T> View for ExecutionConfig<T> {
    type V = ExecutionConfigView<T>;

    open spec fn view(&self) -> ExecutionConfigView<T> {
        ExecutionConfigView {
            input_channel: self.input_channel,
            output_channel: self.output_channel,
            control_channel: self.control_channel,
            console_log: self.console_log@,
            kernel_path: self.kernel_path@,
            syscall_table: self.syscall_table,
            toolchain_directory: self.toolchain_directory@,
            log_directory: self.log_directory@,
            snapshot_path: self.snapshot_path@,
            tmp_directory: self.tmp_directory@,
        }
    }
}

/// The execution configuration for a runtime configuration and a kernel:
/// Unix sockets on all three channels, the console log under the log
/// directory, toolchain and snapshot under the temporary directory, and the
/// embedder's syscall table where there is one.
pub open spec fn execution_config<T>(config: RuntimeConfigView<T>, kernel_path: Seq<char>)
    -> ExecutionConfigView<T> {
    ExecutionConfigView {
        input_channel: ChannelKind::Unix,
        output_channel: ChannelKind::Unix,
        control_channel: ChannelKind::Unix,
        console_log: config.log_directory + "/guest-console.log"@,
        kernel_path,
        syscall_table: match config.syscall_table {
            Some(table) => SyscallTableSource::Supplied(table),
            None => SyscallTableSource::Empty,
        },
        toolchain_directory: config.tmp_directory + "/toolchain"@,
        log_directory: config.log_directory,
        snapshot_path: config.tmp_directory + "/snapshot.bin"@,
        tmp_directory: config.tmp_directory,
    }
}

impl<T> ExecutionConfig<T> {
    /// Assembles the execution configuration. Touches no file: the
    /// directories it names are the caller's to create.
    pub fn build(config: &RuntimeConfig<T>, kernel_path: &str) -> (r: Self)
        ensures
            r@ == execution_config(config@, kernel_path@),
    {
        let syscall_table = match &config.syscall_table {
            Some(table) => SyscallTableSource::Supplied(share(table)),
            None => SyscallTableSource::Empty,
        };
        ExecutionConfig {
            input_channel: ChannelKind::Unix,
            output_channel: ChannelKind::Unix,
            control_channel: ChannelKind::Unix,
            console_log: followed_by(config.log_directory.as_str(), "/guest-console.log"),
            kernel_path: kernel_path.to_owned(),
            syscall_table,
            toolchain_directory: followed_by(config.tmp_directory.as_str(), "/toolchain"),
            log_directory: config.log_directory.clone(),
            snapshot_path: followed_by(config.tmp_directory.as_str(), "/snapshot.bin"),
            tmp_directory: config.tmp_directory.clone(),
        }
    }
}

} // verus!
