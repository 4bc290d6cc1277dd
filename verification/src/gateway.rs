//! The four calls that touch the disk, each as a short exchange with the host.
//!
//! A call starts with a request. The host performs it and resumes the call with
//! the disk's answer, which gives the next request or the call's reply. A
//! request can only be answered by a value of the kind that it asks for, and a
//! request to store can only come out of a directory request that succeeded.

use crate::error::{Failure, StoreError};
use crate::paths::{data_dir, file_path, get_data_dir, Document, Environment, Settings};
use vstd::prelude::*;

verus! {

/// What a call gives in the end: the text for the front end, or the failure.
pub type Reply = Result<Seq<char>, Failure>;

/// A file to look for or to read: a document in a directory.
pub struct Target {
    pub document: Document,
    pub dir: Seq<char>,
}

/// A text on its way into a file: the document, its directory and the text.
pub struct Draft {
    pub document: Document,
    pub dir: Seq<char>,
    pub content: Seq<char>,
}

/// Where a call stands: the request that the host is to perform next, or the
/// reply with which the call ends.
pub enum Stage {
    /// Is the file there?
    Probe(Target),
    /// Read the whole file as text.
    Fetch(Target),
    /// Create the directory and every missing parent.
    MakeDirs(Draft),
    /// Replace the file's content by the text.
    Store(Draft),
    /// The call is over.
    Finish(Reply),
}

/// The reply to a read of a document whose file is not there: the
/// configuration is reported missing, the watchlist counts as empty.
pub open spec fn absent_reply(document: Document) -> Reply {
    match document {
        Document::Config => Err(Failure::NotFound),
        Document::Watchlist => Ok("[]"@),
    }
}

/// The text that confirms a write of a document.
pub open spec fn saved_message(document: Document) -> Seq<char> {
    match document {
        Document::Config => "Config saved successfully"@,
        Document::Watchlist => "Saved successfully"@,
    }
}

/// The first stage of a read: look whether the file is there. No directory is
/// asked for.
pub open spec fn reading(document: Document, settings: Settings) -> Stage {
    Stage::Probe(Target { document, dir: data_dir(settings) })
}

/// The first stage of a write: have the data directory made.
pub open spec fn writing(document: Document, settings: Settings, content: Seq<char>) -> Stage {
    Stage::MakeDirs(Draft { document, dir: data_dir(settings), content })
}

/// After the probe: a file that is there is read, one that is not ends the call.
pub open spec fn after_probe(target: Target, exists: bool) -> Stage {
    if exists {
        Stage::Fetch(target)
    } else {
        Stage::Finish(absent_reply(target.document))
    }
}

/// After the read: the text as it was read, or the disk's failure.
pub open spec fn after_fetch(read: Result<Seq<char>, Seq<char>>) -> Stage {
    match read {
        Ok(text) => Stage::Finish(Ok(text)),
        Err(description) => Stage::Finish(Err(Failure::IoFailure(description))),
    }
}

/// After the directory request: the text is stored only if the directory was
/// made; the disk's failure ends the call.
pub open spec fn after_make_dirs(draft: Draft, made: Result<(), Seq<char>>) -> Stage {
    match made {
        Ok(_) => Stage::Store(draft),
        Err(description) => Stage::Finish(Err(Failure::IoFailure(description))),
    }
}

/// After the store: the confirmation, or the disk's failure.
pub open spec fn after_store(draft: Draft, stored: Result<(), Seq<char>>) -> Stage {
    match stored {
        Ok(_) => Stage::Finish(Ok(saved_message(draft.document))),
        Err(description) => Stage::Finish(Err(Failure::IoFailure(description))),
    }
}

/// The host's report of a read, as sequences of characters.
pub open spec fn read_report(read: Result<String, String>) -> Result<Seq<char>, Seq<char>> {
    match read {
        Ok(text) => Ok(text@),
        Err(description) => Err(description@),
    }
}

/// The host's report of a request that returns nothing, as sequences of
/// characters.
pub open spec fn done_report(done: Result<(), String>) -> Result<(), Seq<char>> {
    match done {
        Ok(_) => Ok(()),
        Err(description) => Err(description@),
    }
}

/// A call's reply, as sequences of characters.
pub open spec fn reply_of(reply: Result<String, StoreError>) -> Reply {
    match reply {
        Ok(text) => Ok(text@),
        Err(error) => Err(error@),
    }
}

/// The request to look whether a document's file is there.
#[derive(Debug)]
pub struct Probe {
    document: Document,
    dir: String,
}

/// The request to read a document's file.
#[derive(Debug)]
pub struct Fetch {
    document: Document,
    dir: String,
}

/// The request to create the data directory, on the way to a write.
#[derive(Debug)]
pub struct MakeDirs {
    document: Document,
    dir: String,
    content: String,
}

/// The request to write a document's file.
#[derive(Debug)]
pub struct Store {
    document: Document,
    dir: String,
    content: String,
}

/// What a call hands to the host: the next request, or the reply.
#[derive(Debug)]
pub enum Step {
    Probe(Probe),
    Fetch(Fetch),
    MakeDirs(MakeDirs),
    Store(Store),
    Finish(Result<String, StoreError>),
}

impl View for Probe {
    type V = Target;

    closed spec fn view(&self) -> Target {
        Target { document: self.document, dir: self.dir@ }
    }
}

impl View for Fetch {
    type V = Target;

    closed spec fn view(&self) -> Target {
        Target { document: self.document, dir: self.dir@ }
    }
}

impl View for MakeDirs {
    type V = Draft;

    closed spec fn view(&self) -> Draft {
        Draft { document: self.document, dir: self.dir@, content: self.content@ }
    }
}

impl View for Store {
    type V = Draft;

    closed spec fn view(&self) -> Draft {
        Draft { document: self.document, dir: self.dir@, content: self.content@ }
    }
}

impl View for Step {
    type V = Stage;

    open spec fn view(&self) -> Stage {
        match *self {
            Step::Probe(request) => Stage::Probe(request@),
            Step::Fetch(request) => Stage::Fetch(request@),
            Step::MakeDirs(request) => Stage::MakeDirs(request@),
            Step::Store(request) => Stage::Store(request@),
            Step::Finish(reply) => Stage::Finish(reply_of(reply)),
        }
    }
}

impl Document {
    /// The reply to a read of this document when its file is not there.
    pub fn absent_reply(self) -> (reply: Result<String, StoreError>)
        ensures
            reply_of(reply) == absent_reply(self),
    {
        match self {
            Document::Config => Err(StoreError::NotFound),
            Document::Watchlist => Ok("[]".to_owned()),
        }
    }

    /// The text that confirms a write of this document.
    pub fn saved_message(self) -> (text: &'static str)
        ensures
            text@ == saved_message(self),
    {
        match self {
            Document::Config => "Config saved successfully",
            Document::Watchlist => "Saved successfully",
        }
    }
}

/// The failure that ends a call when the disk refuses a request.
fn refused(description: String) -> (step: Step)
    ensures
        step@ == Stage::Finish(Err(Failure::IoFailure(description@))),
{
    Step::Finish(Err(StoreError::IoFailure(description)))
}

impl Probe {
    /// The document that is looked for.
    pub fn document(&self) -> (document: Document)
        ensures
            document == self@.document,
    {
        self.document
    }

    /// The path of the file to look for.
    pub fn path(&self) -> (path: String)
        ensures
            path@ == file_path(self@.dir, self@.document),
    {
        self.document.path_in(self.dir.as_str())
    }

    /// Takes the host's answer: whether the file is there. If it is, the next
    /// request reads it; if not, the call ends with the document's reply for a
    /// missing file.
    pub fn resume(self, exists: bool) -> (step: Step)
        ensures
            step@ == after_probe(self@, exists),
    {
        if exists {
            Step::Fetch(Fetch { document: self.document, dir: self.dir })
        } else {
            Step::Finish(self.document.absent_reply())
        }
    }
}

impl Fetch {
    /// The document that is read.
    pub fn document(&self) -> (document: Document)
        ensures
            document == self@.document,
    {
        self.document
    }

    /// The path of the file to read.
    pub fn path(&self) -> (path: String)
        ensures
            path@ == file_path(self@.dir, self@.document),
    {
        self.document.path_in(self.dir.as_str())
    }

    /// Takes the host's answer: the file's text, or the description of the
    /// failure. The call ends with the text unchanged, or with that failure.
    pub fn resume(self, read: Result<String, String>) -> (step: Step)
        ensures
            step@ == after_fetch(read_report(read)),
    {
        match read {
            Ok(text) => Step::Finish(Ok(text)),
            Err(description) => refused(description),
        }
    }
}

impl MakeDirs {
    /// The document that is written.
    pub fn document(&self) -> (document: Document)
        ensures
            document == self@.document,
    {
        self.document
    }

    /// The directory to create, with every missing parent.
    pub fn dir(&self) -> (dir: &str)
        ensures
            dir@ == self@.dir,
    {
        self.dir.as_str()
    }

    /// Takes the host's answer: done, or the description of the failure. Once
    /// the directory is made the next request stores the text; a failure ends
    /// the call and nothing is stored.
    pub fn resume(self, made: Result<(), String>) -> (step: Step)
        ensures
            step@ == after_make_dirs(self@, done_report(made)),
    {
        match made {
            Ok(_) => Step::Store(
                Store { document: self.document, dir: self.dir, content: self.content },
            ),
            Err(description) => refused(description),
        }
    }
}

impl Store {
    /// The document that is written.
    pub fn document(&self) -> (document: Document)
        ensures
            document == self@.document,
    {
        self.document
    }

    /// The path of the file to write.
    pub fn path(&self) -> (path: String)
        ensures
            path@ == file_path(self@.dir, self@.document),
    {
        self.document.path_in(self.dir.as_str())
    }

    /// The text that replaces whatever the file held.
    pub fn content(&self) -> (content: &str)
        ensures
            content@ == self@.content,
    {
        self.content.as_str()
    }

    /// Takes the host's answer: done, or the description of the failure. The
    /// call ends with the document's confirmation, or with that failure.
    pub fn resume(self, stored: Result<(), String>) -> (step: Step)
        ensures
            step@ == after_store(self@, done_report(stored)),
    {
        match stored {
            Ok(_) => Step::Finish(Ok(self.document.saved_message().to_owned())),
            Err(description) => refused(description),
        }
    }
}

/// Starts a read of a document: resolves the data directory and asks whether
/// the document's file is there.
fn read(document: Document, env: &Environment) -> (request: Probe)
    ensures
        Stage::Probe(request@) == reading(document, env@),
{
    Probe { document, dir: get_data_dir(env) }
}

/// Starts a write of a document: resolves the data directory and asks for it
/// to be made.
fn write(document: Document, env: &Environment, content: String) -> (request: MakeDirs)
    ensures
        Stage::MakeDirs(request@) == writing(document, env@, content@),
{
    MakeDirs { document, dir: get_data_dir(env), content }
}

/// Starts a read of the configuration. The file is looked for first: where it
/// is missing the call ends with `StoreError::NotFound`; where it is there its
/// text is the reply, unchanged, or the failure of the read.
pub fn read_config(env: &Environment) -> (request: Probe)
    ensures
        Stage::Probe(request@) == reading(Document::Config, env@),
{
    read(Document::Config, env)
}

/// Starts a write of the configuration. The data directory is made first, then
/// `content` replaces the file's text; the reply is `Config saved successfully`,
/// or the failure of the request that the disk refused.
pub fn write_config(env: &Environment, content: String) -> (request: MakeDirs)
    ensures
        Stage::MakeDirs(request@) == writing(Document::Config, env@, content@),
{
    write(Document::Config, env, content)
}

/// Starts a write of the watchlist. The data directory is made first, then
/// `data` replaces the file's text; the reply is `Saved successfully`, or the
/// failure of the request that the disk refused.
pub fn save_watchlist(env: &Environment, data: String) -> (request: MakeDirs)
    ensures
        Stage::MakeDirs(request@) == writing(Document::Watchlist, env@, data@),
{
    write(Document::Watchlist, env, data)
}

/// Starts a read of the watchlist. The file is looked for first: where it is
/// missing the reply is `[]`; where it is there its text is the reply,
/// unchanged, or the failure of the read.
pub fn load_watchlist(env: &Environment) -> (request: Probe)
    ensures
        Stage::Probe(request@) == reading(Document::Watchlist, env@),
{
    read(Document::Watchlist, env)
}

} // verus!
