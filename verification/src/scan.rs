//! From what a walk over a directory tree found to the list of scripts.

use vstd::prelude::*;
use crate::script::Script;
use crate::script::ScriptView;

verus! {

/// Marks something that could not be read.
#[derive(Clone, Copy, Debug, PartialEq, Eq, Structural)]
pub struct Unreadable;

/// A file, as the walk found it.
#[derive(Debug)]
pub struct FileEntry {
    /// The path as text, if it can be written as text.
    pub path: Option<String>,
    /// The base name as text, if it can be written as text.
    pub name: Option<String>,
    /// The permission bits.
    pub mode: Result<u32, Unreadable>,
    /// The description that the text of the file gives.
    pub description: Result<Option<String>, Unreadable>,
}

/// A directory below the root, with what the walk found in it.
#[derive(Debug)]
pub struct DirectoryEntry {
    /// The base name as text, if it can be written as text.
    pub name: Option<String>,
    /// The entries in the order in which the directory lists them.
    pub entries: Vec<Entry>,
}

/// One entry of a directory.
#[derive(Debug)]
pub enum Entry {
    File(FileEntry),
    Directory(DirectoryEntry),
}

/// Whether any of the three execute bits is set in `mode`.
pub open spec fn has_execute_bit(mode: u32) -> bool {
    mode & 0o111 != 0
}

/// `text`, or `fallback` where there is none.
pub open spec fn text_or(text: Option<String>, fallback: Seq<char>) -> Seq<char> {
    match text {
        Some(t) => t@,
        None => fallback,
    }
}

/// The script that a file makes under `category`: none unless its
/// permission bits were read and allow execution. A name that is no text
/// is shown as `unknown`, and a file whose text could not be read has no
/// description.
pub open spec fn file_script(file: FileEntry, category: Option<Seq<char>>) -> Option<ScriptView> {
    match file.mode {
        Ok(mode) => if has_execute_bit(mode) {
            Some(
                ScriptView {
                    path: text_or(file.path, ""@),
                    name: text_or(file.name, "unknown"@),
                    description: match file.description {
                        Ok(d) => d.deep_view(),
                        Err(_) => None,
                    },
                    category,
                },
            )
        } else {
            None
        },
        Err(_) => None,
    }
}

/// The scripts that one entry contributes under `category`. What lies in a
/// directory is filed under that directory's own name, whatever the
/// category of the directory itself.
pub open spec fn entry_scripts(entry: Entry, category: Option<Seq<char>>) -> Seq<ScriptView>
    decreases entry, 0nat,
{
    match entry {
        Entry::File(file) => match file_script(file, category) {
            Some(script) => seq![script],
            None => Seq::empty(),
        },
        Entry::Directory(dir) => listing_scripts(dir.entries@, Some(text_or(dir.name, "unknown"@))),
    }
}

/// The scripts that a listing contributes under `category`, in the order
/// of the listing.
pub open spec fn listing_scripts(entries: Seq<Entry>, category: Option<Seq<char>>) -> Seq<
    ScriptView,
>
    decreases entries, 1nat,
{
    if entries.len() == 0 {
        Seq::empty()
    } else {
        listing_scripts(entries.drop_last(), category) + entry_scripts(entries.last(), category)
    }
}

/// Tells whether a file with these permission bits counts as a script.
pub fn is_executable(mode: u32) -> (yes: bool)
    ensures
        yes == has_execute_bit(mode),
{
    mode & 0o111 != 0
}

/// A copy of an optional text.
fn copy_text(text: &Option<String>) -> (copy: Option<String>)
    ensures
        copy.deep_view() == text.deep_view(),
{
    match text {
        Some(t) => Some(t.clone()),
        None => None,
    }
}

/// A copy of `text`, or `fallback` where there is no text.
fn copy_or(text: &Option<String>, fallback: &str) -> (copy: String)
    ensures
        copy@ == text_or(*text, fallback@),
{
    match text {
        Some(t) => t.clone(),
        None => fallback.to_owned(),
    }
}

/// Makes the script record of a file, if the file is a script.
pub fn script_from_file(file: &FileEntry, category: &Option<String>) -> (script: Option<Script>)
    ensures
        script.deep_view() == file_script(*file, category.deep_view()),
{
    match file.mode {
        Ok(mode) => {
            if is_executable(mode) {
                let description = match &file.description {
                    Ok(d) => copy_text(d),
                    Err(_) => None,
                };
                Some(
                    Script {
                        path: copy_or(&file.path, ""),
                        name: copy_or(&file.name, "unknown"),
                        description,
                        category: copy_text(category),
                    },
                )
            } else {
                None
            }
        },
        Err(_) => None,
    }
}

/// Appends the scripts of one entry to `scripts`.
fn collect_entry(entry: &Entry, category: &Option<String>, scripts: &mut Vec<Script>)
    ensures
        final(scripts).deep_view() == old(scripts).deep_view() + entry_scripts(
            *entry,
            category.deep_view(),
        ),
    decreases entry, 0nat,
{
    match entry {
        Entry::File(file) => {
            if let Some(script) = script_from_file(file, category) {
                scripts.push(script);
            }
        },
        Entry::Directory(dir) => {
            let label = Some(copy_or(&dir.name, "unknown"));
            collect_listing(&dir.entries, &label, scripts);
        },
    }
}

/// Appends the scripts of a listing to `scripts`.
fn collect_listing(entries: &Vec<Entry>, category: &Option<String>, scripts: &mut Vec<Script>)
    ensures
        final(scripts).deep_view() == old(scripts).deep_view() + listing_scripts(
            entries@,
            category.deep_view(),
        ),
    decreases entries, 1nat,
{
    let mut i: usize = 0;
    while i < entries.len()
        invariant
            i <= entries.len(),
            scripts.deep_view() == old(scripts).deep_view() + listing_scripts(
                entries@.take(i as int),
                category.deep_view(),
            ),
        decreases entries.len() - i,
    {
        collect_entry(&entries[i], category, scripts);
        assert(entries@.take(i + 1).drop_last() =~= entries@.take(i as int));
        i += 1;
    }
    assert(entries@.take(entries.len() as int) =~= entries@);
}

/// Lists the scripts among the entries of the root directory: every file
/// that may be executed, in the order of discovery, each filed under the
/// directory it lies in.
pub fn scan_directory(entries: &Vec<Entry>) -> (scripts: Vec<Script>)
    ensures
        scripts.deep_view() == listing_scripts(entries@, None),
{
    let mut scripts: Vec<Script> = Vec::new();
    let root: Option<String> = None;
    collect_listing(entries, &root, &mut scripts);
    scripts
}

} // verus!
