//! A disk as the gateway supposes it, and what the calls achieve on such a disk.
//!
//! The disk here is a model, not the machine's: it keeps the text that was
//! stored under a path, finds exactly the files that were stored, makes every
//! directory that it is asked for, and stores a file only in a directory that
//! it has. What it refuses, it refuses with its one `complaint`. The laws
//! below hold of every such disk; of a host that answers otherwise, the
//! contracts in `gateway` say what each answer leads to.

use crate::error::Failure;
use crate::gateway::{
    after_fetch, after_make_dirs, after_probe, after_store, reading, saved_message, writing, Draft,
    Reply, Stage, Target,
};
use crate::paths::{data_dir, file_name, file_path, joined, Document, Settings};
use vstd::prelude::*;

verus! {

/// The state of a disk: the directories it has, the text of each file by its
/// path, and the description with which it refuses a request.
pub struct Disk {
    pub dirs: Set<Seq<char>>,
    pub files: Map<Seq<char>, Seq<char>>,
    pub complaint: Seq<char>,
}

/// How a call ended: the disk it left behind, and its reply.
pub struct Outcome {
    pub disk: Disk,
    pub reply: Reply,
}

/// The number of requests that can still follow a stage.
pub open spec fn requests_left(stage: Stage) -> nat {
    match stage {
        Stage::Probe(_) => 2,
        Stage::Fetch(_) => 1,
        Stage::MakeDirs(_) => 2,
        Stage::Store(_) => 1,
        Stage::Finish(_) => 0,
    }
}

/// Runs a call from `stage` to its end on `disk`: each request is answered as
/// the module's head describes, and the call is resumed with the answer.
pub open spec fn run(stage: Stage, disk: Disk) -> Outcome
    decreases requests_left(stage),
{
    match stage {
        Stage::Probe(target) => {
            let path = file_path(target.dir, target.document);
            run(after_probe(target, disk.files.contains_key(path)), disk)
        },
        Stage::Fetch(target) => {
            let path = file_path(target.dir, target.document);
            if disk.files.contains_key(path) {
                run(after_fetch(Ok(disk.files[path])), disk)
            } else {
                run(after_fetch(Err(disk.complaint)), disk)
            }
        },
        Stage::MakeDirs(draft) => {
            let made = Disk { dirs: disk.dirs.insert(draft.dir), ..disk };
            run(after_make_dirs(draft, Ok(())), made)
        },
        Stage::Store(draft) => {
            let path = file_path(draft.dir, draft.document);
            if disk.dirs.contains(draft.dir) {
                let stored = Disk { files: disk.files.insert(path, draft.content), ..disk };
                run(after_store(draft, Ok(())), stored)
            } else {
                run(after_store(draft, Err(disk.complaint)), disk)
            }
        },
        Stage::Finish(reply) => Outcome { disk, reply },
    }
}

/// The stage is over, or its request is about the directory `dir`.
pub open spec fn stays_in(stage: Stage, dir: Seq<char>) -> bool {
    match stage {
        Stage::Probe(target) => target.dir == dir,
        Stage::Fetch(target) => target.dir == dir,
        Stage::MakeDirs(draft) => draft.dir == dir,
        Stage::Store(draft) => draft.dir == dir,
        Stage::Finish(_) => true,
    }
}

/// A text that was written is the text that is read back: on every disk, a
/// write of a document succeeds, and a read of the same document that follows
/// it replies with exactly the text that was written.
pub proof fn written_text_is_read_back(
    document: Document,
    settings: Settings,
    content: Seq<char>,
    disk: Disk,
)
    ensures
        run(writing(document, settings, content), disk).reply == Ok::<Seq<char>, Failure>(
            saved_message(document),
        ),
        run(reading(document, settings), run(writing(document, settings, content), disk).disk).reply
            == Ok::<Seq<char>, Failure>(content),
{
    reveal_with_fuel(run, 3);
    write_leaves_directory_and_file(document, settings, content, disk);
}

/// A write needs no directory made beforehand: on every disk, whether it has
/// the data directory or not, the write succeeds, and afterwards the disk has
/// the data directory and the document's file holds the text. Nothing else on
/// the disk changes.
pub proof fn write_leaves_directory_and_file(
    document: Document,
    settings: Settings,
    content: Seq<char>,
    disk: Disk,
)
    ensures
        run(writing(document, settings, content), disk) == (Outcome {
            disk: Disk {
                dirs: disk.dirs.insert(data_dir(settings)),
                files: disk.files.insert(file_path(data_dir(settings), document), content),
                complaint: disk.complaint,
            },
            reply: Ok(saved_message(document)),
        }),
{
    reveal_with_fuel(run, 3);
}

/// A read changes nothing: whatever the disk holds, it holds the same after a
/// read, and in particular no directory has been made.
pub proof fn read_leaves_disk_unchanged(document: Document, settings: Settings, disk: Disk)
    ensures
        run(reading(document, settings), disk).disk == disk,
{
    reveal_with_fuel(run, 3);
}

/// A read of a document whose file is there replies with the file's text.
pub proof fn present_file_is_read(document: Document, settings: Settings, disk: Disk)
    requires
        disk.files.contains_key(file_path(data_dir(settings), document)),
    ensures
        run(reading(document, settings), disk).reply == Ok::<Seq<char>, Failure>(
            disk.files[file_path(data_dir(settings), document)],
        ),
{
    reveal_with_fuel(run, 3);
}

/// A read of the watchlist on a disk without the watchlist's file replies `[]`.
pub proof fn absent_watchlist_is_empty(settings: Settings, disk: Disk)
    requires
        !disk.files.contains_key(file_path(data_dir(settings), Document::Watchlist)),
    ensures
        run(reading(Document::Watchlist, settings), disk).reply == Ok::<Seq<char>, Failure>("[]"@),
{
    reveal_with_fuel(run, 3);
}

/// A read of the configuration on a disk without the configuration's file fails
/// as not found: neither a failure of the disk nor an empty text.
pub proof fn absent_config_is_not_found(settings: Settings, disk: Disk)
    requires
        !disk.files.contains_key(file_path(data_dir(settings), Document::Config)),
    ensures
        run(reading(Document::Config, settings), disk).reply == Err::<Seq<char>, Failure>(
            Failure::NotFound,
        ),
{
    reveal_with_fuel(run, 3);
}

/// With a non-empty override every call works in the override's directory,
/// whatever the home directory is: the data directory is the override itself,
/// each document's path is its file name joined to the override, each call
/// starts with a request about that directory, and whatever the host answers,
/// the request that follows is about it too.
pub proof fn override_holds_every_request(
    settings: Settings,
    dir: Seq<char>,
    document: Document,
    content: Seq<char>,
)
    requires
        settings.data_dir_override == Some(dir),
        dir.len() > 0,
    ensures
        data_dir(settings) == dir,
        file_path(data_dir(settings), document) == joined(dir, file_name(document)),
        stays_in(reading(document, settings), dir),
        stays_in(writing(document, settings, content), dir),
        forall|target: Target, exists: bool|
            target.dir == dir ==> stays_in(#[trigger] after_probe(target, exists), dir),
        forall|read: Result<Seq<char>, Seq<char>>| stays_in(#[trigger] after_fetch(read), dir),
        forall|draft: Draft, made: Result<(), Seq<char>>|
            draft.dir == dir ==> stays_in(#[trigger] after_make_dirs(draft, made), dir),
        forall|draft: Draft, stored: Result<(), Seq<char>>|
            draft.dir == dir ==> stays_in(#[trigger] after_store(draft, stored), dir),
{
}

} // verus!
