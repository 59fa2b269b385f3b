//! Serving the file database: the decisions between reading the
//! configuration and sending the database file.
//!
//! Each step returns the next operation to perform together with what to
//! resume once it has been performed. Contracts see a step through
//! [`FileDbStep`], and [`file_db_run`] composes the steps over the answers
//! a filesystem gives.

use vstd::prelude::*;
use vstd::utf8::encode_utf8;
use crate::reply::{
    disposition_spec, file_reply, io_error_message, io_error_status, io_error_to_response,
    offered_name, reply, reply_with, FileReply, FileStat, IoFailure, Reply, Status,
};
use crate::request::{bytes_of, Config};

verus! {

/// The next step of serving the file database.
pub enum FileDbAction {
    /// Read the whole file at the path as text, then resume.
    ReadConfig(&'static str, AwaitConfigText),
    /// Parse the text as the service's configuration, then resume.
    ParseConfig(String, AwaitConfig),
    /// Read what the filesystem reports about the path, then resume.
    ReadMetadata(Vec<u8>, AwaitStat),
    /// Open the file at the path for reading, then resume.
    Open(Vec<u8>, AwaitOpen),
    /// Answer 200 with the opened file as the body.
    Serve(FileReply),
    /// Answer with this refusal.
    Reject(Reply),
}

/// Waiting for the configuration file to be read.
pub struct AwaitConfigText {}

/// Waiting for the configuration to be parsed.
pub struct AwaitConfig {}

/// Waiting for what the filesystem reports about the database file.
pub struct AwaitStat {
    path: Vec<u8>,
}

/// Waiting for the database file to be opened.
pub struct AwaitOpen {
    path: Vec<u8>,
    len: u64,
}

/// What a waiting step holds.
pub enum FileDbStage {
    ConfigText,
    Config,
    Stat { path: Seq<u8> },
    Open { path: Seq<u8>, len: u64 },
}

/// A step of serving the file database: the operation asked for with the
/// stage that waits for its answer, or the final answer (for a file sent,
/// its length and `Content-Disposition` value).
pub enum FileDbStep {
    ReadConfig(Seq<char>, FileDbStage),
    ParseConfig(Seq<char>, FileDbStage),
    ReadMetadata(Seq<u8>, FileDbStage),
    Open(Seq<u8>, FileDbStage),
    Serve(u64, Seq<char>),
    Reject(Status, Seq<char>),
}

impl AwaitConfigText {
    /// What this waiting step holds.
    pub closed spec fn stage(self) -> FileDbStage {
        FileDbStage::ConfigText
    }
}

impl AwaitConfig {
    /// What this waiting step holds.
    pub closed spec fn stage(self) -> FileDbStage {
        FileDbStage::Config
    }
}

impl AwaitStat {
    /// What this waiting step holds.
    pub closed spec fn stage(self) -> FileDbStage {
        FileDbStage::Stat { path: self.path@ }
    }
}

impl AwaitOpen {
    /// What this waiting step holds.
    pub closed spec fn stage(self) -> FileDbStage {
        FileDbStage::Open { path: self.path@, len: self.len }
    }
}

impl View for FileDbAction {
    type V = FileDbStep;

    open spec fn view(&self) -> FileDbStep {
        match self {
            FileDbAction::ReadConfig(p, k) => FileDbStep::ReadConfig(p@, k.stage()),
            FileDbAction::ParseConfig(t, k) => FileDbStep::ParseConfig(t@, k.stage()),
            FileDbAction::ReadMetadata(p, k) => FileDbStep::ReadMetadata(p@, k.stage()),
            FileDbAction::Open(p, k) => FileDbStep::Open(p@, k.stage()),
            FileDbAction::Serve(f) => FileDbStep::Serve(f.len, f.content_disposition@),
            FileDbAction::Reject(r) => FileDbStep::Reject(r.status, r.message@),
        }
    }
}

/// A text read from a file, as contracts see it.
pub open spec fn text_answer(r: Result<String, IoFailure>) -> Result<Seq<char>, IoFailure> {
    match r {
        Ok(t) => Ok(t@),
        Err(e) => Err(e),
    }
}

/// A parsed configuration, as the file database sees it: the configured
/// database path, or the parse failure's description.
pub open spec fn config_answer(r: Result<Config, String>) -> Result<Seq<char>, Seq<char>> {
    match r {
        Ok(c) => Ok(c.file_db_path@),
        Err(m) => Err(m@),
    }
}

/// The first step: the configuration file `config.toml` is read.
pub open spec fn file_db_start() -> FileDbStep {
    FileDbStep::ReadConfig("config.toml"@, FileDbStage::ConfigText)
}

/// Once the configuration file is read: a failure is answered with 500;
/// otherwise the text is parsed.
pub open spec fn file_db_text_step(text: Result<Seq<char>, IoFailure>) -> FileDbStep {
    match text {
        Err(e) => FileDbStep::Reject(
            Status::InternalServerError,
            "Failed to read config file: "@ + e.description@,
        ),
        Ok(t) => FileDbStep::ParseConfig(t, FileDbStage::Config),
    }
}

/// Once the configuration is parsed: a parse failure is answered with 500;
/// otherwise what the filesystem reports about the configured database
/// file is read.
pub open spec fn file_db_config_step(db_path: Result<Seq<char>, Seq<char>>) -> FileDbStep {
    match db_path {
        Err(m) => FileDbStep::Reject(
            Status::InternalServerError,
            "Failed to parse config file: "@ + m,
        ),
        Ok(p) => FileDbStep::ReadMetadata(encode_utf8(p), FileDbStage::Stat { path: encode_utf8(p) }),
    }
}

/// Once the metadata is read: a failure is answered as filesystem failures
/// are, with "File DB not found"; anything but a regular file is answered
/// with 404 "File DB not found"; a regular file is opened.
pub open spec fn file_db_stat_step(path: Seq<u8>, stat: Result<FileStat, IoFailure>) -> FileDbStep {
    match stat {
        Err(e) => FileDbStep::Reject(
            io_error_status(e.kind),
            io_error_message(e, "File DB not found"@),
        ),
        Ok(s) => if s.is_file {
            FileDbStep::Open(path, FileDbStage::Open { path, len: s.len })
        } else {
            FileDbStep::Reject(Status::NotFound, "File DB not found"@)
        },
    }
}

/// Once the file is opened: a failure is answered as filesystem failures
/// are, with "File DB not found"; otherwise the file is sent with its
/// length and offered under its final name, or "file.db" when it has none.
pub open spec fn file_db_open_step(path: Seq<u8>, len: u64, opened: Result<(), IoFailure>) -> FileDbStep {
    match opened {
        Err(e) => FileDbStep::Reject(
            io_error_status(e.kind),
            io_error_message(e, "File DB not found"@),
        ),
        Ok(_) => FileDbStep::Serve(len, disposition_spec(offered_name(path, "file.db"@))),
    }
}

impl AwaitConfigText {
    /// Continues once the configuration file has been read, as
    /// [`file_db_text_step`] says.
    pub fn resume(self, text: Result<String, IoFailure>) -> (r: FileDbAction)
        ensures
            r@ == file_db_text_step(text_answer(text)),
    {
        match text {
            Err(e) => FileDbAction::Reject(
                reply_with(
                    Status::InternalServerError,
                    "Failed to read config file: ",
                    e.description.as_str(),
                ),
            ),
            Ok(t) => FileDbAction::ParseConfig(t, AwaitConfig {  }),
        }
    }
}

impl AwaitConfig {
    /// Continues once the configuration has been parsed (a failure given by
    /// its description), as [`file_db_config_step`] says.
    pub fn resume(self, config: Result<Config, String>) -> (r: FileDbAction)
        ensures
            r@ == file_db_config_step(config_answer(config)),
    {
        match config {
            Err(m) => FileDbAction::Reject(
                reply_with(
                    Status::InternalServerError,
                    "Failed to parse config file: ",
                    m.as_str(),
                ),
            ),
            Ok(c) => {
                let path = bytes_of(c.file_db_path.as_str());
                let p = path.clone();
                assert(p@ == path@);
                FileDbAction::ReadMetadata(p, AwaitStat { path })
            },
        }
    }
}

impl AwaitStat {
    /// Continues once the metadata has been read, as [`file_db_stat_step`]
    /// says.
    pub fn resume(self, stat: Result<FileStat, IoFailure>) -> (r: FileDbAction)
        ensures
            self.stage() matches FileDbStage::Stat { path } && r@ == file_db_stat_step(path, stat),
    {
        match stat {
            Err(e) => FileDbAction::Reject(io_error_to_response(&e, "File DB not found")),
            Ok(s) => {
                if !s.is_file {
                    return FileDbAction::Reject(reply(Status::NotFound, "File DB not found"));
                }
                let p = self.path.clone();
                assert(p@ == self.path@);
                FileDbAction::Open(p, AwaitOpen { path: self.path, len: s.len })
            },
        }
    }
}

impl AwaitOpen {
    /// Continues once the file has been opened, as [`file_db_open_step`]
    /// says.
    pub fn resume(self, opened: Result<(), IoFailure>) -> (r: FileDbAction)
        ensures
            self.stage() matches FileDbStage::Open { path, len } && r@ == file_db_open_step(
                path,
                len,
                opened,
            ),
    {
        match opened {
            Err(e) => FileDbAction::Reject(io_error_to_response(&e, "File DB not found")),
            Ok(_) => FileDbAction::Serve(file_reply(self.path.as_slice(), self.len, "file.db")),
        }
    }
}

/// Starts serving the file database, as [`file_db_start`] says.
pub fn get_file_db_handler() -> (r: FileDbAction)
    ensures
        r@ == file_db_start(),
{
    FileDbAction::ReadConfig("config.toml", AwaitConfigText {  })
}

/// The answers to the operations of serving the file database: the text of
/// a file read by name, the database path that parsing a configuration
/// text gives (or the parse failure's description), and what the
/// filesystem reports about a path and whether it opens.
pub struct FileDbFs {
    pub read: spec_fn(Seq<char>) -> Result<Seq<char>, IoFailure>,
    pub parse: spec_fn(Seq<char>) -> Result<Seq<char>, Seq<char>>,
    pub stat: spec_fn(Seq<u8>) -> Result<FileStat, IoFailure>,
    pub open: spec_fn(Seq<u8>) -> Result<(), IoFailure>,
}

/// A whole run: the operations it asked for, in order, and the final answer.
pub struct FileDbRun {
    pub asked: Seq<FileDbStep>,
    pub end: FileDbStep,
}

/// Performs the steps from `s` on, answering each from `fs`, for at most
/// `fuel` steps.
pub open spec fn file_db_drive(fs: FileDbFs, s: FileDbStep, fuel: nat) -> FileDbRun
    decreases fuel,
{
    if fuel == 0 {
        FileDbRun { asked: seq![], end: s }
    } else {
        let f = (fuel - 1) as nat;
        let next = match s {
            FileDbStep::ReadConfig(p, _) => Some(file_db_text_step((fs.read)(p))),
            FileDbStep::ParseConfig(t, _) => Some(file_db_config_step((fs.parse)(t))),
            FileDbStep::ReadMetadata(p, FileDbStage::Stat { path }) => Some(
                file_db_stat_step(path, (fs.stat)(p)),
            ),
            FileDbStep::Open(p, FileDbStage::Open { path, len }) => Some(
                file_db_open_step(path, len, (fs.open)(p)),
            ),
            _ => None,
        };
        match next {
            Some(n) => {
                let rest = file_db_drive(fs, n, f);
                FileDbRun { asked: seq![s] + rest.asked, end: rest.end }
            },
            None => FileDbRun { asked: seq![], end: s },
        }
    }
}

/// Serving the file database on the filesystem `fs`: the steps, each
/// answered by `fs`, until the final answer (it takes at most five steps).
pub open spec fn file_db_run(fs: FileDbFs) -> FileDbRun {
    file_db_drive(fs, file_db_start(), 5)
}

} // verus!
