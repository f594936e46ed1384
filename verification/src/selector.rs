//! Traversal of one root path into candidate files.
//!
//! A root may be a single file or a directory. Directories are walked with
//! walkdir, never following symbolic links; with `recursive` off only the
//! direct children are visited. With `skip_hidden` on, every entry below
//! the root whose base name starts with a dot is dropped, and a hidden
//! directory's whole subtree is pruned. Only regular files are yielded;
//! a failing directory entry is reported as an item of its own and the
//! walk goes on.

use vstd::prelude::*;
use vstd::string::StrSliceExecFns;

verus! {

/// walkdir's walker builder, opaque here: it only carries the traversal
/// configuration from the builder calls into the iterator.
#[verifier::external_type_specification]
#[verifier::external_body]
pub struct ExWalkDir(walkdir::WalkDir);

/// walkdir's entry iterator, opaque here: each `next` call is a wrapper.
#[verifier::external_type_specification]
#[verifier::external_body]
pub struct ExIntoIter(walkdir::IntoIter);

/// walkdir's directory entry, opaque here: what the walk reads of it goes
/// through the accessor wrappers below.
#[verifier::external_type_specification]
#[verifier::external_body]
pub struct ExDirEntry(walkdir::DirEntry);

/// walkdir's per-entry error, opaque here: the walk only notes that an
/// entry failed and moves on.
#[verifier::external_type_specification]
#[verifier::external_body]
pub struct ExWalkdirError(walkdir::Error);

/// Relies on walkdir::WalkDir::new: builds a walker rooted at the given
/// path; nothing is touched on disk yet.
#[verifier::external_body]
fn walker_new(root: &String) -> walkdir::WalkDir {
    walkdir::WalkDir::new(root.as_str())
}

/// Relies on walkdir::WalkDir::follow_links: sets whether the walk follows
/// symbolic links (this crate always passes `false`, walkdir's default,
/// to make the no-follow policy explicit).
#[verifier::external_body]
fn walker_follow_links(walker: walkdir::WalkDir, yes: bool) -> walkdir::WalkDir {
    walker.follow_links(yes)
}

/// Relies on walkdir::WalkDir::max_depth: entries deeper than `depth`
/// below the root are not visited; depth 1 means direct children only.
#[verifier::external_body]
fn walker_max_depth(walker: walkdir::WalkDir, depth: usize) -> walkdir::WalkDir {
    walker.max_depth(depth)
}

/// Relies on walkdir's IntoIterator impl: turns the configured walker into
/// its entry iterator.
#[verifier::external_body]
fn walker_into_iter(walker: walkdir::WalkDir) -> walkdir::IntoIter {
    walker.into_iter()
}

/// Relies on walkdir::IntoIter::next: the next directory entry, an error
/// for an entry that could not be read, or `None` once the walk is done.
/// The root itself is yielded first. What comes back depends on the disk,
/// so nothing is stated of it.
#[verifier::external_body]
fn walker_next(it: &mut walkdir::IntoIter) -> Option<Result<walkdir::DirEntry, walkdir::Error>> {
    it.next()
}

/// Relies on walkdir::IntoIter::skip_current_dir: the walk does not descend
/// into the directory whose entry was yielded last.
#[verifier::external_body]
fn walker_skip_current_dir(it: &mut walkdir::IntoIter) {
    it.skip_current_dir()
}

/// Relies on walkdir::DirEntry::file_name: the entry's base name, brought
/// over into a plain `String` (lossily where it is not valid unicode).
#[verifier::external_body]
fn entry_file_name(entry: &walkdir::DirEntry) -> String {
    entry.file_name().to_string_lossy().into_owned()
}

/// Relies on walkdir::DirEntry::path: the entry's full path (the root the
/// walk started from joined with the entry's relative path), brought over
/// into a plain `String` (lossily where it is not valid unicode).
#[verifier::external_body]
fn entry_path_string(entry: &walkdir::DirEntry) -> String {
    entry.path().to_string_lossy().into_owned()
}

/// Relies on walkdir::DirEntry::file_type and FileType::is_file: whether
/// the entry is a regular file. With following of links off, the type is
/// the link's own, so a symbolic link is never a regular file here.
#[verifier::external_body]
fn entry_is_file(entry: &walkdir::DirEntry) -> bool {
    entry.file_type().is_file()
}

/// Relies on walkdir::DirEntry::file_type and FileType::is_dir: whether
/// the entry is a directory (again the link's own type, links not
/// followed).
#[verifier::external_body]
fn entry_is_dir(entry: &walkdir::DirEntry) -> bool {
    entry.file_type().is_dir()
}

/// A base name that marks a hidden entry: it starts with a dot.
pub open spec fn is_hidden_name(name: Seq<char>) -> bool {
    name.len() > 0 && name[0] == '.'
}

/// Whether this base name marks a hidden entry.
pub fn name_is_hidden(name: &String) -> (hidden: bool)
    ensures
        hidden == is_hidden_name(name@),
{
    let s = name.as_str();
    if s.unicode_len() == 0 {
        false
    } else {
        s.get_char(0) == '.'
    }
}

/// What the walk does with one entry below the root.
#[derive(Clone, Copy, PartialEq, Eq, Structural, Debug)]
pub enum EntryDecision {
    /// A candidate regular file: yield it.
    Keep,
    /// Not a candidate (a directory, something else, or filtered out).
    Ignore,
    /// A hidden directory with `skip_hidden` on: skip its whole subtree.
    Prune,
}

/// The selection policy for one entry below the root. Hidden entries are
/// dropped when `skip_hidden` is on, hidden directories with their whole
/// subtree; of the rest, exactly the regular files are kept.
pub fn decide_entry(name: &String, is_file: bool, is_dir: bool, skip_hidden: bool) -> (decision:
    EntryDecision)
    ensures
        decision == (if skip_hidden && is_hidden_name(name@) {
            if is_dir {
                EntryDecision::Prune
            } else {
                EntryDecision::Ignore
            }
        } else if is_file {
            EntryDecision::Keep
        } else {
            EntryDecision::Ignore
        }),
{
    if skip_hidden && name_is_hidden(name) {
        if is_dir {
            EntryDecision::Prune
        } else {
            EntryDecision::Ignore
        }
    } else if is_file {
        EntryDecision::Keep
    } else {
        EntryDecision::Ignore
    }
}

/// One thing the walk of a directory root produced.
#[derive(Debug)]
pub enum WalkItem {
    /// A candidate regular file: its full path and its base name.
    Candidate { path: String, name: String },
    /// One directory entry could not be read; the walk went on.
    TraversalError,
}

/// The item names a candidate whose base name is hidden.
pub open spec fn hidden_candidate(item: WalkItem) -> bool {
    match item {
        WalkItem::Candidate { path: _, name } => is_hidden_name(name@),
        WalkItem::TraversalError => false,
    }
}

/// What resolving one root produced.
#[derive(Debug)]
pub enum RootOutcome {
    /// The root could not be resolved: it does not exist, it could not be
    /// read, or it is neither a regular file nor a directory.
    RootError,
    /// The root is itself a regular file: the one candidate.
    SingleFile { path: String },
    /// The root is a directory: the entries selected under it.
    Listed { items: Vec<WalkItem> },
}

/// Walk the entries below a directory root, the root's own entry already
/// consumed, and select the candidates. With `skip_hidden` on, no yielded
/// candidate has a hidden base name.
fn walk_directory(it: &mut walkdir::IntoIter, skip_hidden: bool) -> (items: Vec<WalkItem>)
    ensures
        skip_hidden ==> forall|i: int|
            0 <= i < items@.len() ==> !hidden_candidate(#[trigger] items@[i]),
{
    let mut items: Vec<WalkItem> = Vec::new();
    let mut fuel: usize = usize::MAX;
    while fuel > 0
        invariant
            skip_hidden ==> forall|i: int|
                0 <= i < items@.len() ==> !hidden_candidate(#[trigger] items@[i]),
        decreases fuel,
    {
        fuel = fuel - 1;
        match walker_next(it) {
            None => {
                return items;
            },
            Some(Err(_)) => {
                items.push(WalkItem::TraversalError);
            },
            Some(Ok(entry)) => {
                let name = entry_file_name(&entry);
                let is_file = entry_is_file(&entry);
                let is_dir = entry_is_dir(&entry);
                match decide_entry(&name, is_file, is_dir, skip_hidden) {
                    EntryDecision::Keep => {
                        let path = entry_path_string(&entry);
                        items.push(WalkItem::Candidate { path, name });
                    },
                    EntryDecision::Prune => {
                        walker_skip_current_dir(it);
                    },
                    EntryDecision::Ignore => {},
                }
            },
        }
    }
    items
}

/// Resolve one root path into candidates, per the traversal policy: the
/// root itself if it is a regular file (a root given by name is never
/// filtered as hidden); otherwise the selected entries of the directory
/// walk, symbolic links never followed, only direct children unless
/// `recursive`. With `skip_hidden` on, no listed candidate has a hidden
/// base name.
pub fn process_path(root: &String, recursive: bool, skip_hidden: bool) -> (outcome: RootOutcome)
    ensures
        match outcome {
            RootOutcome::Listed { items } => skip_hidden ==> forall|i: int|
                0 <= i < items@.len() ==> !hidden_candidate(#[trigger] items@[i]),
            _ => true,
        },
{
    let walker = walker_new(root);
    let walker = walker_follow_links(walker, false);
    let walker = if recursive {
        walker
    } else {
        walker_max_depth(walker, 1)
    };
    let mut it = walker_into_iter(walker);
    match walker_next(&mut it) {
        None => RootOutcome::RootError,
        Some(Err(_)) => RootOutcome::RootError,
        Some(Ok(entry)) => {
            if entry_is_file(&entry) {
                RootOutcome::SingleFile { path: entry_path_string(&entry) }
            } else if entry_is_dir(&entry) {
                RootOutcome::Listed { items: walk_directory(&mut it, skip_hidden) }
            } else {
                RootOutcome::RootError
            }
        },
    }
}

} // verus!
