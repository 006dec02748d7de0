//! Which files of a directory tree are worked on, and where the result of
//! each goes.
//!
//! The output tree mirrors the input tree. Archiving adds `.lz4` to every
//! file name; extracting takes the files whose names end so and removes it.
//! A file named `keyfile.zk` at the top of the tree is left alone. Paths are
//! texts whose parts are separated by `/`.
use crate::error::ZapError;
use crate::util::{concat_text, decimal, decimal_text, same_text, text_strip_prefix, text_strip_suffix};
use vstd::prelude::*;

verus! {

/// What archiving adds to a file's name.
pub const ARCHIVE_SUFFIX: &'static str = ".lz4";

/// The name of the file that is never worked on.
pub const KEYFILE_NAME: &'static str = "keyfile.zk";

/// What separates the parts of a path.
pub const SEPARATOR: &'static str = "/";

/// One file to work on: where to read and where to write.
#[derive(Debug)]
pub struct ProcessingTask {
    pub source: String,
    pub destination: String,
}

/// How the files of one run fared. A file that fails does not stop the
/// others; it is counted here.
#[derive(Debug)]
pub struct RunOutcome {
    /// Files that were worked on to the end.
    pub done: usize,
    /// Files that failed.
    pub failed: usize,
}

impl RunOutcome {
    /// What is said of a run in which files failed, where `how` says what
    /// was to be done to them.
    pub open spec fn complaint(self, how: Seq<char>) -> Seq<char> {
        decimal_text(self.failed as nat) + " file(s) could not be "@ + how
    }

    /// The run as a whole: it has failed as soon as one of its files has,
    /// however many were done.
    pub fn verdict(&self, how: &str) -> (res: Result<(), ZapError>)
        ensures
            self.failed == 0 <==> res is Ok,
            res matches Err(e) ==> e matches ZapError::Generic(text) && text@ == self.complaint(how@),
    {
        if self.failed == 0 {
            Ok(())
        } else {
            let count = decimal(self.failed);
            let head = concat_text(count.as_str(), " file(s) could not be ");
            Err(ZapError::Generic(concat_text(head.as_str(), how)))
        }
    }
}

/// `text` begins with `head`.
pub open spec fn starts_with(text: Seq<char>, head: Seq<char>) -> bool {
    head.len() <= text.len() && text.take(head.len() as int) == head
}

/// `text` ends with `tail`.
pub open spec fn ends_with(text: Seq<char>, tail: Seq<char>) -> bool {
    tail.len() <= text.len() && text.skip(text.len() - tail.len()) == tail
}

/// The path of `entry` as seen from `root`: what follows `root` and the
/// separator after it. There is none where `entry` does not lie under
/// `root`, or is `root` itself.
pub open spec fn relative_to(entry: Seq<char>, root: Seq<char>) -> Option<Seq<char>> {
    if !starts_with(entry, root) {
        None
    } else {
        let rest = entry.skip(root.len() as int);
        if rest.len() == 0 {
            None
        } else if starts_with(rest, SEPARATOR@) {
            if rest.len() == 1 {
                None
            } else {
                Some(rest.skip(1))
            }
        } else if root.len() == 0 || ends_with(root, SEPARATOR@) {
            Some(rest)
        } else {
            None
        }
    }
}

/// The path `relative` under `base`.
pub open spec fn joined(base: Seq<char>, relative: Seq<char>) -> Seq<char> {
    if base.len() == 0 || ends_with(base, SEPARATOR@) {
        base + relative
    } else {
        base + SEPARATOR@ + relative
    }
}

/// The name under which a file was archived, where `path` is the name of an
/// archived file: it ends with `.lz4`, and what comes before that is a file
/// name, not nothing and not a directory.
pub open spec fn archived_name_of(path: Seq<char>) -> Option<Seq<char>> {
    if ends_with(path, ARCHIVE_SUFFIX@) {
        let stem = path.take(path.len() - ARCHIVE_SUFFIX@.len());
        if stem.len() == 0 || ends_with(stem, SEPARATOR@) {
            None
        } else {
            Some(stem)
        }
    } else {
        None
    }
}

/// A text that is a head followed by a rest begins with the head, and the
/// rest is what follows it.
pub proof fn lemma_head_and_rest(head: Seq<char>, rest: Seq<char>)
    ensures
        starts_with(head + rest, head),
        (head + rest).skip(head.len() as int) == rest,
{
    assert((head + rest).take(head.len() as int) =~= head);
    assert((head + rest).skip(head.len() as int) =~= rest);
}

/// A text that is a rest followed by a tail ends with the tail, and the
/// rest is what comes before it.
pub proof fn lemma_rest_and_tail(rest: Seq<char>, tail: Seq<char>)
    ensures
        ends_with(rest + tail, tail),
        (rest + tail).take((rest + tail).len() - tail.len()) == rest,
{
    assert((rest + tail).skip((rest + tail).len() - tail.len()) =~= tail);
    assert((rest + tail).take((rest + tail).len() - tail.len()) =~= rest);
}

/// The path `relative` under `base`.
pub fn join(base: &str, relative: &str) -> (res: String)
    ensures
        res@ == joined(base@, relative@),
{
    if base.is_empty() {
        proof {
            assert(base@ + relative@ =~= relative@);
        }
        return relative.to_owned();
    }
    match text_strip_suffix(base, SEPARATOR) {
        Some(before) => {
            proof {
                lemma_rest_and_tail(before@, SEPARATOR@);
            }
            concat_text(base, relative)
        },
        None => {
            let with_separator = concat_text(base, SEPARATOR);
            concat_text(with_separator.as_str(), relative)
        },
    }
}

/// The path of `entry` as seen from `root`.
pub fn relative_path(entry: &str, root: &str) -> (res: Option<String>)
    ensures
        match res {
            Some(relative) => relative_to(entry@, root@) == Some(relative@),
            None => relative_to(entry@, root@) is None,
        },
{
    let rest = match text_strip_prefix(entry, root) {
        Some(rest) => rest,
        None => {
            return None;
        },
    };
    proof {
        lemma_head_and_rest(root@, rest@);
        reveal_strlit("/");
    }
    if rest.as_str().is_empty() {
        return None;
    }
    match text_strip_prefix(rest.as_str(), SEPARATOR) {
        Some(relative) => {
            proof {
                lemma_head_and_rest(SEPARATOR@, relative@);
            }
            if relative.as_str().is_empty() {
                None
            } else {
                Some(relative)
            }
        },
        None => {
            if root.is_empty() {
                return Some(rest);
            }
            match text_strip_suffix(root, SEPARATOR) {
                Some(before) => {
                    proof {
                        lemma_rest_and_tail(before@, SEPARATOR@);
                    }
                    Some(rest)
                },
                None => None,
            }
        },
    }
}

/// The name of a file once archived: its own with `.lz4` added, so that
/// `foo.txt` becomes `foo.txt.lz4` and `foo` becomes `foo.lz4`.
pub fn rewrite_ext(path: &str) -> (res: String)
    ensures
        res@ == path@ + ARCHIVE_SUFFIX@,
{
    concat_text(path, ARCHIVE_SUFFIX)
}

/// The name a file had before it was archived, if `path` is the name of an
/// archived file.
pub fn restore_ext(path: &str) -> (res: Option<String>)
    ensures
        match res {
            Some(name) => archived_name_of(path@) == Some(name@),
            None => archived_name_of(path@) is None,
        },
{
    let stem = match text_strip_suffix(path, ARCHIVE_SUFFIX) {
        Some(stem) => stem,
        None => {
            return None;
        },
    };
    proof {
        lemma_rest_and_tail(stem@, ARCHIVE_SUFFIX@);
    }
    if stem.as_str().is_empty() {
        return None;
    }
    match text_strip_suffix(stem.as_str(), SEPARATOR) {
        Some(before) => {
            proof {
                lemma_rest_and_tail(before@, SEPARATOR@);
            }
            None
        },
        None => Some(stem),
    }
}

/// Where archiving the entry `entry` of the tree under `input_root` writes
/// to under `output_root`, if the entry is to be archived at all.
pub open spec fn archive_destination(
    entry: Seq<char>,
    is_dir: bool,
    input_root: Seq<char>,
    output_root: Seq<char>,
) -> Option<Seq<char>> {
    if is_dir || entry == KEYFILE_NAME@ {
        None
    } else {
        match relative_to(entry, input_root) {
            Some(relative) => if relative == KEYFILE_NAME@ {
                None
            } else {
                Some(joined(output_root, relative + ARCHIVE_SUFFIX@))
            },
            None => None,
        }
    }
}

/// Where extracting the entry `entry` of the tree under `input_root` writes
/// to under `output_root`, if the entry is to be extracted at all.
pub open spec fn extract_destination(
    entry: Seq<char>,
    is_dir: bool,
    input_root: Seq<char>,
    output_root: Seq<char>,
) -> Option<Seq<char>> {
    if is_dir || entry == KEYFILE_NAME@ {
        None
    } else {
        match relative_to(entry, input_root) {
            Some(relative) => if relative == KEYFILE_NAME@ {
                None
            } else {
                match archived_name_of(relative) {
                    Some(name) => Some(joined(output_root, name)),
                    None => None,
                }
            },
            None => None,
        }
    }
}

/// The task for one entry of the tree that is archived. Directories give
/// none, nor does the key file, nor an entry that does not lie under
/// `input_root`.
pub fn compression_task(entry: &str, is_dir: bool, input_root: &str, output_root: &str) -> (res: Option<
    ProcessingTask,
>)
    ensures
        match res {
            Some(task) => task.source@ == entry@ && archive_destination(entry@, is_dir, input_root@, output_root@)
                == Some(task.destination@),
            None => archive_destination(entry@, is_dir, input_root@, output_root@) is None,
        },
{
    if is_dir || same_text(entry, KEYFILE_NAME) {
        return None;
    }
    let relative = match relative_path(entry, input_root) {
        Some(relative) => relative,
        None => {
            return None;
        },
    };
    if same_text(relative.as_str(), KEYFILE_NAME) {
        return None;
    }
    let renamed = rewrite_ext(relative.as_str());
    Some(ProcessingTask { source: entry.to_owned(), destination: join(output_root, renamed.as_str()) })
}

/// The task for one entry of the tree that is extracted. Only files whose
/// names end with `.lz4` give one, and the key file never does.
pub fn decompression_task(entry: &str, is_dir: bool, input_root: &str, output_root: &str) -> (res: Option<
    ProcessingTask,
>)
    ensures
        match res {
            Some(task) => task.source@ == entry@ && extract_destination(entry@, is_dir, input_root@, output_root@)
                == Some(task.destination@),
            None => extract_destination(entry@, is_dir, input_root@, output_root@) is None,
        },
{
    if is_dir || same_text(entry, KEYFILE_NAME) {
        return None;
    }
    let relative = match relative_path(entry, input_root) {
        Some(relative) => relative,
        None => {
            return None;
        },
    };
    if same_text(relative.as_str(), KEYFILE_NAME) {
        return None;
    }
    match restore_ext(relative.as_str()) {
        Some(name) => Some(
            ProcessingTask { source: entry.to_owned(), destination: join(output_root, name.as_str()) },
        ),
        None => None,
    }
}

/// Archiving renames and extracting renames back: the task that extracts
/// what a task archived writes to the mirror of where the archived file
/// came from.
pub proof fn lemma_extracting_restores_the_name(
    entry: Seq<char>,
    input_root: Seq<char>,
    staging_root: Seq<char>,
    output_root: Seq<char>,
)
    requires
        archive_destination(entry, false, input_root, staging_root) is Some,
        !starts_with(relative_to(entry, input_root).unwrap(), SEPARATOR@),
        !ends_with(relative_to(entry, input_root).unwrap(), SEPARATOR@),
        relative_to(entry, input_root).unwrap() + ARCHIVE_SUFFIX@ != KEYFILE_NAME@,
        archive_destination(entry, false, input_root, staging_root).unwrap() != KEYFILE_NAME@,
    ensures
        extract_destination(
            archive_destination(entry, false, input_root, staging_root).unwrap(),
            false,
            staging_root,
            output_root,
        ) == Some(joined(output_root, relative_to(entry, input_root).unwrap())),
{
    reveal_strlit("/");
    reveal_strlit(".lz4");
    let relative = relative_to(entry, input_root).unwrap();
    let renamed = relative + ARCHIVE_SUFFIX@;
    let staged = joined(staging_root, renamed);
    // the staged path leads back to the renamed file
    assert(!starts_with(renamed, SEPARATOR@)) by {
        assert(renamed.take(1) =~= relative.take(1));
    }
    if staging_root.len() == 0 || ends_with(staging_root, SEPARATOR@) {
        lemma_head_and_rest(staging_root, renamed);
    } else {
        assert(staged =~= staging_root + (SEPARATOR@ + renamed));
        lemma_head_and_rest(staging_root, SEPARATOR@ + renamed);
        lemma_head_and_rest(SEPARATOR@, renamed);
    }
    assert(relative_to(staged, staging_root) == Some(renamed));
    // and the renamed file to its name
    lemma_rest_and_tail(relative, ARCHIVE_SUFFIX@);
    assert(archived_name_of(renamed) == Some(relative));
}

} // verus!
