use vstd::prelude::*;
use vstd::string::*;

use crate::my_errors::MyError;

verus! {

/// One part of a path: a name that is text, or one that is not, kept as the
/// bytes the system gave for it.
#[derive(Debug, PartialEq, Eq)]
pub enum Segment {
    Text(String),
    Raw(Vec<u8>),
}

/// Where the browser currently is: an absolute path, held as its root and
/// the names of the directories below it.
#[derive(Debug)]
pub struct FileManager {
    root: Segment,
    segments: Vec<Segment>,
}

/// What a directory entry is.
#[derive(Debug, Clone, Copy, PartialEq, Eq, Structural)]
pub enum FileTypeEnum {
    File,
    Directory,
    Symlink,
}

/// What is known of one entry of the current directory.
#[derive(Debug, PartialEq, Eq)]
pub struct FileMetadata {
    pub file_name: String,
    pub filetype: FileTypeEnum,
    pub size: u64,
}

/// What the system reported of an entry when it was looked up.
#[derive(Debug, Clone, Copy, PartialEq, Eq, Structural)]
pub struct FileStat {
    pub is_file: bool,
    pub is_dir: bool,
    pub size: u64,
}

/// One part of a path as mathematics.
pub enum SegmentView {
    Text(Seq<char>),
    Raw(Seq<u8>),
}

impl SegmentView {
    /// How many characters or bytes the part has.
    pub open spec fn len(self) -> nat {
        match self {
            SegmentView::Text(text) => text.len(),
            SegmentView::Raw(bytes) => bytes.len(),
        }
    }
}

impl View for Segment {
    type V = SegmentView;

    open spec fn view(&self) -> SegmentView {
        match self {
            Segment::Text(text) => SegmentView::Text(text@),
            Segment::Raw(bytes) => SegmentView::Raw(bytes@),
        }
    }
}

impl DeepView for Segment {
    type V = SegmentView;

    open spec fn deep_view(&self) -> SegmentView {
        self@
    }
}

/// A location as mathematics: the root and the segments below it.
pub struct PathView {
    pub root: SegmentView,
    pub segments: Seq<SegmentView>,
}

/// The character written between two segments of a path.
pub open spec fn separator() -> char {
    '/'
}

impl PathView {
    /// The root is there: a location is never the empty path.
    pub open spec fn wf(self) -> bool {
        self.root.len() > 0
    }

    /// The location one level down, in the child called `name`.
    pub open spec fn descend(self, name: Seq<char>) -> PathView {
        PathView { root: self.root, segments: self.segments.push(SegmentView::Text(name)) }
    }

    /// The location one level up. Above the root there is nothing, so the
    /// root is its own parent.
    pub open spec fn ascend(self) -> PathView {
        if self.segments.len() == 0 {
            self
        } else {
            PathView { root: self.root, segments: self.segments.drop_last() }
        }
    }

    /// The location of the first `depth` segments.
    spec fn upto(self, depth: int) -> PathView {
        PathView { root: self.root, segments: self.segments.take(depth) }
    }

    /// The path written out: the root, then the segments with a separator
    /// between each two of them. A path with a part that is not text cannot
    /// be written out.
    pub open spec fn text(self) -> Option<Seq<char>>
        decreases self.segments.len(),
    {
        if self.segments.len() == 0 {
            match self.root {
                SegmentView::Text(root) => Some(root),
                SegmentView::Raw(_) => None,
            }
        } else {
            match (self.ascend().text(), self.segments.last()) {
                (Some(parent), SegmentView::Text(name)) => Some(
                    if self.segments.len() == 1 {
                        parent + name
                    } else {
                        parent.push(separator()) + name
                    },
                ),
                _ => None,
            }
        }
    }

    /// The full path of the entry called `name` in this location, written
    /// out.
    pub open spec fn resolve(self, name: Seq<char>) -> Option<Seq<char>> {
        self.descend(name).text()
    }
}

/// What stands for a path that cannot be written out.
pub open spec fn unwritable() -> Seq<char> {
    "Error: Incorrect Path"@
}

/// The reason given when a path cannot be written out.
pub open spec fn path_failure() -> Seq<char> {
    "Incorrect path"@
}

/// Going down into any child and straight up again leads back to where one
/// was, and the path reads as before.
pub proof fn lemma_descend_then_ascend(here: PathView, name: Seq<char>)
    ensures
        here.descend(name).ascend() == here,
        here.descend(name).ascend().text() == here.text(),
{
    assert(here.segments.push(SegmentView::Text(name)).drop_last() == here.segments);
}

/// At the root, going up changes nothing, so going up twice is the same as
/// going up once.
pub proof fn lemma_ascend_at_root(here: PathView)
    requires
        here.segments.len() == 0,
    ensures
        here.ascend() == here,
        here.ascend().ascend() == here.ascend(),
{
}

/// An entry's full path can be written out exactly if the location's own
/// path can, and then it is that path, a separator unless the location is the
/// root, and the entry's name.
pub proof fn lemma_resolve(here: PathView, name: Seq<char>)
    ensures
        here.resolve(name) == match here.text() {
            Some(parent) => Some(
                if here.segments.len() == 0 {
                    parent + name
                } else {
                    parent.push(separator()) + name
                },
            ),
            None => None,
        },
        here.resolve(name) matches Some(path) ==> path.len() >= name.len(),
{
    lemma_descend_then_ascend(here, name);
}

/// A path can be written out only if every shorter path on the way to it can.
proof fn lemma_text_of_part(here: PathView, depth: int)
    requires
        0 <= depth <= here.segments.len(),
        here.upto(depth).text().is_none(),
    ensures
        here.text().is_none(),
    decreases here.segments.len() - depth,
{
    if depth < here.segments.len() {
        let next = here.upto(depth + 1);
        assert(next.ascend() == here.upto(depth)) by {
            assert(here.segments.take(depth + 1).drop_last() == here.segments.take(depth));
        }
        lemma_text_of_part(here, depth + 1);
    } else {
        assert(here.segments.take(depth) == here.segments);
    }
}

/// The names kept from a raw listing: those that could be read as text and
/// are not empty, in the order of the listing.
pub open spec fn names_in(entries: Seq<Option<Seq<char>>>) -> Seq<Seq<char>>
    decreases entries.len(),
{
    if entries.len() == 0 {
        Seq::empty()
    } else {
        let before = names_in(entries.drop_last());
        match entries.last() {
            Some(name) if name.len() > 0 => before.push(name),
            _ => before,
        }
    }
}

/// No kept name is empty.
pub proof fn lemma_names_in_not_empty(entries: Seq<Option<Seq<char>>>)
    ensures
        forall|i: int| 0 <= i < names_in(entries).len() ==> #[trigger] names_in(entries)[i].len() > 0,
    decreases entries.len(),
{
    if entries.len() > 0 {
        let before = names_in(entries.drop_last());
        lemma_names_in_not_empty(entries.drop_last());
        assert forall|i: int| 0 <= i < names_in(entries).len() implies #[trigger] names_in(
            entries,
        )[i].len() > 0 by {
            if i < before.len() {
                assert(names_in(entries)[i] == before[i]);
            }
        }
    }
}

/// The reason given when the current directory could not be listed.
pub open spec fn listing_failure() -> Seq<char> {
    "Couldn't fetch directory entries"@
}

/// The reason given when a rename did not go through.
pub open spec fn rename_failure(cause: Seq<char>) -> Seq<char> {
    "Insufficient privilages: "@ + cause
}

/// The reason given when a removal did not go through.
pub open spec fn delete_failure(cause: Seq<char>) -> Seq<char> {
    "Couldn't delete: "@ + cause
}

/// The reason given when a file could not be created.
pub open spec fn create_failure(cause: Seq<char>) -> Seq<char> {
    "Couldn't create: "@ + cause
}

/// The kind of entry that a lookup found.
pub open spec fn kind_of(stat: FileStat) -> FileTypeEnum {
    if stat.is_file {
        FileTypeEnum::File
    } else if stat.is_dir {
        FileTypeEnum::Directory
    } else {
        FileTypeEnum::Symlink
    }
}

impl FileTypeEnum {
    /// The kind's name as mathematics.
    pub open spec fn label(self) -> Seq<char> {
        match self {
            FileTypeEnum::File => "File"@,
            FileTypeEnum::Directory => "Directory"@,
            FileTypeEnum::Symlink => "Symlink"@,
        }
    }

    /// The kind's name, for display.
    pub fn to_string(&self) -> (text: String)
        ensures
            text@ == self.label(),
    {
        match self {
            FileTypeEnum::File => String::from_str("File"),
            FileTypeEnum::Directory => String::from_str("Directory"),
            FileTypeEnum::Symlink => String::from_str("Symlink"),
        }
    }
}

impl View for FileManager {
    type V = PathView;

    closed spec fn view(&self) -> PathView {
        PathView { root: self.root@, segments: self.segments.deep_view() }
    }
}

impl FileManager {
    /// Whether the location has its root.
    pub open spec fn wf(&self) -> bool {
        self@.wf()
    }

    /// The location `segments` below `root`. There is none without a root.
    pub fn new(root: Segment, segments: Vec<Segment>) -> (dir: Option<Self>)
        ensures
            root@.len() == 0 <==> dir.is_none(),
            dir matches Some(d) ==> d.wf() && d@ == (PathView {
                root: root@,
                segments: segments.deep_view(),
            }),
    {
        let rootless = match &root {
            Segment::Text(text) => text.as_str().is_empty(),
            Segment::Raw(bytes) => bytes.len() == 0,
        };
        if rootless {
            None
        } else {
            Some(Self { root, segments })
        }
    }

    /// The root.
    pub fn root(&self) -> (root: &Segment)
        ensures
            root@ == self@.root,
    {
        &self.root
    }

    /// The segments below the root, outermost first.
    pub fn segments(&self) -> (segments: &Vec<Segment>)
        ensures
            segments.deep_view() == self@.segments,
    {
        &self.segments
    }

    /// The current path written out, if it can be.
    fn written(&self) -> (text: Option<String>)
        ensures
            text.deep_view() == self@.text(),
    {
        let mut text = match &self.root {
            Segment::Text(root) => root.clone(),
            Segment::Raw(_) => {
                proof {
                    lemma_text_of_part(self@, 0);
                }
                return None;
            },
        };
        let mut at: usize = 0;
        while at < self.segments.len()
            invariant
                at <= self.segments.len(),
                self@.upto(at as int).text() == Some(text@),
            decreases self.segments.len() - at,
        {
            assert(self@.upto(at + 1).ascend() == self@.upto(at as int)) by {
                assert(self@.segments.take(at + 1).drop_last() == self@.segments.take(at as int));
            }
            match &self.segments[at] {
                Segment::Text(name) => {
                    if at > 0 {
                        proof {
                            reveal_strlit("/");
                        }
                        text.append("/");
                    }
                    text.append(name.as_str());
                },
                Segment::Raw(_) => {
                    proof {
                        lemma_text_of_part(self@, at + 1);
                    }
                    return None;
                },
            }
            at += 1;
        }
        assert(self@.segments.take(at as int) == self@.segments);
        Some(text)
    }

    /// The current path, written out. Where a part of it is not text, a
    /// fixed text stands in for it.
    pub fn get_current_path(&self) -> (text: String)
        ensures
            text@ == match self@.text() {
                Some(path) => path,
                None => unwritable(),
            },
    {
        match self.written() {
            Some(path) => path,
            None => String::from_str("Error: Incorrect Path"),
        }
    }

    /// Goes one level down, into `end_dir`. Whether such a directory exists
    /// shows when it is next listed.
    pub fn next_path(&mut self, end_dir: String)
        requires
            old(self).wf(),
        ensures
            final(self)@ == old(self)@.descend(end_dir@),
            final(self).wf(),
    {
        self.segments.push(Segment::Text(end_dir));
        assert(self.segments.deep_view() == old(self)@.descend(end_dir@).segments);
    }

    /// Goes one level up; at the root, stays.
    pub fn previous_path(&mut self)
        requires
            old(self).wf(),
        ensures
            final(self)@ == old(self)@.ascend(),
            final(self).wf(),
    {
        let gone = self.segments.pop();
        assert(self.segments.deep_view() == old(self)@.ascend().segments);
    }

    /// The full path of the entry called `file_name` in the current
    /// directory, written out. It fails exactly where that path cannot be
    /// written out, which is where the current path has a part that is not
    /// text.
    pub fn get_file_path(&self, file_name: String) -> (path: Result<String, MyError>)
        ensures
            match path {
                Ok(text) => self@.resolve(file_name@) == Some(text@),
                Err(e) => self@.resolve(file_name@).is_none() && e@ == path_failure(),
            },
    {
        proof {
            lemma_resolve(self@, file_name@);
        }
        let mut text = match self.written() {
            Some(text) => text,
            None => {
                return Err(MyError::FileError(String::from_str("Incorrect path")));
            },
        };
        if self.segments.len() > 0 {
            proof {
                reveal_strlit("/");
            }
            text.append("/");
        }
        text.append(file_name.as_str());
        Ok(text)
    }

    /// The names of the current directory's entries, from what reading the
    /// directory gave: `None` where it could not be read, otherwise one
    /// element for each entry, `None` where the entry's name is not text.
    pub fn dir_contents(&self, read: Option<Vec<Option<String>>>) -> (names: Result<
        Vec<String>,
        MyError,
    >)
        ensures
            match names {
                Ok(kept) => read matches Some(entries) && kept.deep_view() == names_in(
                    entries.deep_view(),
                ),
                Err(e) => read.is_none() && e@ == listing_failure(),
            },
    {
        let entries = match read {
            Some(entries) => entries,
            None => {
                return Err(MyError::FileError(String::from_str("Couldn't fetch directory entries")));
            },
        };
        let ghost raw = entries.deep_view();
        let mut kept: Vec<String> = Vec::new();
        let mut at: usize = 0;
        while at < entries.len()
            invariant
                at <= entries.len(),
                raw == entries.deep_view(),
                kept.deep_view() == names_in(raw.take(at as int)),
            decreases entries.len() - at,
        {
            assert(raw.take(at + 1).drop_last() == raw.take(at as int));
            match file_filter(&entries[at]) {
                Some(name) => {
                    kept.push(name);
                },
                None => {},
            }
            at += 1;
        }
        assert(raw.take(at as int) == raw);
        Ok(kept)
    }

    /// What is known of the entry called `file_name`, from what looking it up
    /// gave. An entry that could not be looked up is absent, which is no
    /// error.
    pub fn get_metadata(&self, file_name: String, stat: Option<FileStat>) -> (found: Option<
        FileMetadata,
    >)
        ensures
            match found {
                Some(metadata) => stat matches Some(seen) && metadata.file_name@ == file_name@
                    && metadata.filetype == kind_of(seen) && metadata.size == seen.size,
                None => stat.is_none(),
            },
    {
        match stat {
            Some(seen) => Some(
                FileMetadata {
                    file_name,
                    filetype: {
                        if seen.is_file {
                            FileTypeEnum::File
                        } else if seen.is_dir {
                            FileTypeEnum::Directory
                        } else {
                            FileTypeEnum::Symlink
                        }
                    },
                    size: seen.size,
                },
            ),
            None => None,
        }
    }

    /// What a rename came to, from what the system answered: nothing to
    /// report, or the failure with the system's reason in it.
    pub fn rename(&self, outcome: Result<(), String>) -> (done: Result<(), MyError>)
        ensures
            match done {
                Ok(_) => outcome.is_ok(),
                Err(e) => outcome matches Err(cause) && e@ == rename_failure(cause@),
            },
    {
        match outcome {
            Ok(_) => Ok(()),
            Err(cause) => Err(failure("Insufficient privilages: ", &cause)),
        }
    }

    /// What a removal came to, from what the system answered.
    pub fn delete(&self, outcome: Result<(), String>) -> (done: Result<(), MyError>)
        ensures
            match done {
                Ok(_) => outcome.is_ok(),
                Err(e) => outcome matches Err(cause) && e@ == delete_failure(cause@),
            },
    {
        match outcome {
            Ok(_) => Ok(()),
            Err(cause) => Err(failure("Couldn't delete: ", &cause)),
        }
    }

    /// What creating a file came to, from what the system answered.
    pub fn create(&self, outcome: Result<(), String>) -> (done: Result<(), MyError>)
        ensures
            match done {
                Ok(_) => outcome.is_ok(),
                Err(e) => outcome matches Err(cause) && e@ == create_failure(cause@),
            },
    {
        match outcome {
            Ok(_) => Ok(()),
            Err(cause) => Err(failure("Couldn't create: ", &cause)),
        }
    }
}

/// The name of a raw entry, if it is one to keep.
fn file_filter(entry: &Option<String>) -> (name: Option<String>)
    ensures
        name.deep_view() == match entry.deep_view() {
            Some(text) if text.len() > 0 => Some(text),
            _ => None,
        },
{
    match entry {
        Some(text) => {
            if text.as_str().is_empty() {
                None
            } else {
                Some(text.clone())
            }
        },
        None => None,
    }
}

/// The error whose reason is `what` followed by the system's `cause`.
fn failure(what: &str, cause: &String) -> (e: MyError)
    ensures
        e@ == what@ + cause@,
{
    let mut reason = String::from_str(what);
    reason.append(cause.as_str());
    MyError::FileError(reason)
}

} // verus!
