//! Lists of files in one directory.
//!
//! A request names a directory and files in it. What is done to the files
//! themselves (reading, hashing, removing) is worked out here from what the
//! caller has read, and carried out by the caller.

use vstd::prelude::*;
use vstd::utf8::{decode_utf8, encode_utf8, valid_utf8};

use crate::errors::FwcError;
use crate::foreign::{hex_of, hex_text, path_is_dir, sha256_digest, sha256_of, utf8_text};
use crate::text::{
    chars_of, lines_of, push_chars, push_str, rows, split_lines, string_of, texts, unlines,
};

verus! {

/// The first line of a list of digests.
pub const SHA256_HEADER: &'static str = "file,sha256\n";

/// What reading a file that holds no text in UTF-8 fails with.
pub const NOT_UTF8: &'static str = "stream did not contain valid UTF-8";

/// A directory and the names of files in it.
pub struct FilesList {
    dir: String,
    files: Vec<String>,
}

/// A list of files as the contracts speak of it.
pub struct Files {
    pub dir: Seq<char>,
    pub files: Seq<Seq<char>>,
}

impl View for FilesList {
    type V = Files;

    closed spec fn view(&self) -> Files {
        Files { dir: self.dir@, files: texts(self.files@) }
    }
}

/// What `head_remove` makes of a file.
pub struct Head {
    /// The lines taken from the head of the file.
    pub data: Vec<String>,
    /// What the file is to hold from now on; `None` where there is no file,
    /// and none is made.
    pub rest: Option<String>,
}

/// The path of a file of the list: the directory, a slash, and the name.
pub open spec fn path_of(list: Files, inx: int) -> Seq<char> {
    list.dir + seq!['/'] + list.files[inx]
}

/// The paths of all files of the list, in its order.
pub open spec fn paths_of(list: Files) -> Seq<Seq<char>> {
    Seq::new(list.files.len(), |i: int| path_of(list, i))
}

/// Whether a line is a comment: it begins with `#`.
pub open spec fn is_comment(line: Seq<char>) -> bool {
    line.len() > 0 && line[0] == '#'
}

/// The lines that are no comments, each followed by a line feed.
pub open spec fn without_comments(lines: Seq<Seq<char>>) -> Seq<char>
    decreases lines.len(),
{
    if lines.len() == 0 {
        Seq::<char>::empty()
    } else if is_comment(lines.last()) {
        without_comments(lines.drop_last())
    } else {
        without_comments(lines.drop_last()) + lines.last().push('\n')
    }
}

/// Whether the digest of a file can be taken: with comments left out, the
/// file has to hold text in UTF-8.
pub open spec fn hashable(content: Seq<u8>, ignore_comments: bool) -> bool {
    !ignore_comments || valid_utf8(content)
}

/// The bytes of a file that its digest is taken of: all of them, or, with
/// comments left out, its lines that are no comments, each with a line feed.
pub open spec fn hashed_bytes(content: Seq<u8>, ignore_comments: bool) -> Seq<u8> {
    if ignore_comments {
        encode_utf8(without_comments(split_lines(decode_utf8(content))))
    } else {
        content
    }
}

/// The line of a list of digests for one file.
pub open spec fn digest_line(name: Seq<char>, content: Seq<u8>, ignore_comments: bool) -> Seq<
    char,
> {
    name + seq![','] + hex_of(sha256_of(hashed_bytes(content, ignore_comments))).push('\n')
}

/// The lines of a list of digests for the files from `at` on. A name without
/// content is that of no file, and has no line.
pub open spec fn digest_lines(
    names: Seq<Seq<char>>,
    contents: Seq<Option<Seq<u8>>>,
    ignore_comments: bool,
    at: int,
) -> Seq<char>
    decreases names.len() - at,
{
    if at < 0 || at >= names.len() {
        Seq::<char>::empty()
    } else {
        match contents[at] {
            Some(content) => digest_line(names[at], content, ignore_comments) + digest_lines(
                names,
                contents,
                ignore_comments,
                at + 1,
            ),
            None => digest_lines(names, contents, ignore_comments, at + 1),
        }
    }
}

/// Whether the digest of every file that has content can be taken.
pub open spec fn all_hashable(contents: Seq<Option<Seq<u8>>>, ignore_comments: bool) -> bool {
    forall|i: int|
        0 <= i < contents.len() ==> (#[trigger] contents[i] matches Some(content) ==> hashable(
            content,
            ignore_comments,
        ))
}

/// What the contents of files are, where there are any.
pub open spec fn contents_of(v: Seq<Option<Vec<u8>>>) -> Seq<Option<Seq<u8>>> {
    v.map_values(
        |c: Option<Vec<u8>>|
            match c {
                Some(bytes) => Some(bytes@),
                None => None,
            },
    )
}

/// The number of lines that `head_remove` takes from `lines` lines.
pub open spec fn head_len(lines: int, max_lines: int) -> int {
    if lines < max_lines {
        lines
    } else {
        max_lines
    }
}

impl FilesList {
    /// The list of the files `files` in the directory `dir`.
    pub fn new(dir: &str, files: Vec<String>) -> (list: Self)
        ensures
            list@.dir == dir@,
            list@.files == texts(files@),
    {
        FilesList { dir: string_of(&chars_of(dir)), files }
    }

    /// The paths of the files to remove, once it is known whether the
    /// directory is there: without it the list is refused.
    pub fn remove_in(&self, dir_present: bool) -> (res: Result<Vec<String>, FwcError>)
        ensures
            !dir_present ==> (res matches Err(FwcError::DirNotFound)),
            dir_present ==> (res matches Ok(paths) && texts(paths@) == paths_of(self@)),
    {
        if !dir_present {
            return Err(FwcError::DirNotFound);
        }
        let mut paths: Vec<String> = Vec::new();
        let mut inx: usize = 0;
        while inx < self.len()
            invariant
                inx <= self@.files.len(),
                texts(paths@) == paths_of(self@).take(inx as int),
            decreases self@.files.len() - inx,
        {
            let ghost before = texts(paths@);
            let path = self.path(inx);
            paths.push(path);
            assert(texts(paths@) =~= before.push(path_of(self@, inx as int)));
            assert(texts(paths@) =~= paths_of(self@).take(inx + 1));
            inx += 1;
        }
        assert(paths_of(self@).take(self@.files.len() as int) =~= paths_of(self@));
        Ok(paths)
    }

    /// The paths of the files to remove: those of all files of the list. The
    /// caller removes each that is a file. A list whose directory is not there
    /// is refused.
    pub fn remove(&self) -> (res: Result<Vec<String>, FwcError>)
        ensures
            res matches Ok(paths) ==> texts(paths@) == paths_of(self@),
            res matches Err(e) ==> e is DirNotFound,
    {
        self.remove_in(self.dir_exists())
    }

    /// Puts the names of the files that the caller found in the directory
    /// behind those of the list, once it is known whether the directory is
    /// there: without it the list is refused and left as it is.
    pub fn add_files(&mut self, dir_present: bool, names: Vec<String>) -> (res: Result<(), FwcError>)
        ensures
            final(self)@.dir == old(self)@.dir,
            !dir_present ==> (res matches Err(FwcError::DirNotFound)) && final(self)@.files == old(
                self,
            )@.files,
            dir_present ==> res is Ok && final(self)@.files == old(self)@.files + texts(names@),
    {
        if !dir_present {
            return Err(FwcError::DirNotFound);
        }
        let mut names = names;
        let ghost added = names@;
        self.files.append(&mut names);
        assert(texts(self.files@) =~= texts(old(self).files@) + texts(added));
        Ok(())
    }

    /// Puts the names of the files that the caller found in the directory
    /// behind those of the list. A list whose directory is not there is
    /// refused and left as it is.
    pub fn get_files_in_dir(&mut self, names: Vec<String>) -> (res: Result<(), FwcError>)
        ensures
            final(self)@.dir == old(self)@.dir,
            res is Ok ==> final(self)@.files == old(self)@.files + texts(names@),
            res matches Err(e) ==> e is DirNotFound && final(self)@.files == old(self)@.files,
    {
        let dir_present = self.dir_exists();
        self.add_files(dir_present, names)
    }

    /// The list of the SHA-256 digests of the files, in the notation
    /// `file,sha256`: a header and one line for each file of the list that has
    /// content, which the caller gives for each name that is a file. With
    /// `ignore_comments` the lines that begin with `#` are left out of the
    /// digest, and a file that holds no text in UTF-8 fails the request.
    pub fn sha256(&self, ignore_comments: bool, contents: &Vec<Option<Vec<u8>>>) -> (res: Result<
        String,
        FwcError,
    >)
        requires
            contents.len() == self@.files.len(),
        ensures
            all_hashable(contents_of(contents@), ignore_comments) ==> (res matches Ok(csv) && csv@
                == SHA256_HEADER@ + digest_lines(
                self@.files,
                contents_of(contents@),
                ignore_comments,
                0,
            )),
            !all_hashable(contents_of(contents@), ignore_comments) ==> (res matches Err(
                FwcError::IOError(text),
            ) && text@ == NOT_UTF8@),
    {
        let mut csv = chars_of(SHA256_HEADER);
        let ghost given = contents_of(contents@);
        let ghost names = self@.files;
        let mut inx: usize = 0;
        while inx < self.len()
            invariant
                inx <= contents.len(),
                contents.len() == self@.files.len(),
                given == contents_of(contents@),
                names == self@.files,
                forall|i: int|
                    0 <= i < inx ==> (#[trigger] given[i] matches Some(content) ==> hashable(
                        content,
                        ignore_comments,
                    )),
                csv@ + digest_lines(names, given, ignore_comments, inx as int) == SHA256_HEADER@
                    + digest_lines(names, given, ignore_comments, 0),
            decreases contents.len() - inx,
        {
            let ghost so_far = csv@;
            match &contents[inx] {
                Some(content) => {
                    assert(given[inx as int] == Some(content@));
                    let digest = if ignore_comments {
                        match utf8_text(content) {
                            Some(text) => {
                                let kept = Self::strip_comments(text.as_str());
                                sha256_digest(&kept.as_str().as_bytes_vec())
                            },
                            None => {
                                return Err(FwcError::IOError(string_of(&chars_of(NOT_UTF8))));
                            },
                        }
                    } else {
                        sha256_digest(content)
                    };
                    assert(digest@ == sha256_of(hashed_bytes(content@, ignore_comments)));
                    push_chars(&mut csv, &chars_of(self.files[inx].as_str()));
                    csv.push(',');
                    push_str(&mut csv, hex_text(&digest).as_str());
                    csv.push('\n');
                    assert(csv@ =~= so_far + digest_line(
                        names[inx as int],
                        content@,
                        ignore_comments,
                    ));
                    assert(csv@ + digest_lines(names, given, ignore_comments, inx + 1) =~= so_far
                        + digest_lines(names, given, ignore_comments, inx as int));
                },
                None => {
                    assert(given[inx as int] is None);
                },
            }
            inx += 1;
        }
        Ok(string_of(&csv))
    }

    /// The lines of `text` that are no comments, each followed by a line feed.
    pub fn strip_comments(text: &str) -> (kept: String)
        ensures
            kept@ == without_comments(split_lines(text@)),
    {
        let lines = lines_of(&chars_of(text));
        let mut kept: Vec<char> = Vec::new();
        let mut i: usize = 0;
        assert(rows(lines@).take(0) =~= Seq::<Seq<char>>::empty());
        while i < lines.len()
            invariant
                i <= lines.len(),
                rows(lines@) == split_lines(text@),
                kept@ == without_comments(rows(lines@).take(i as int)),
            decreases lines.len() - i,
        {
            let line = &lines[i];
            let ghost head = rows(lines@).take(i + 1);
            assert(head.drop_last() =~= rows(lines@).take(i as int));
            assert(head.last() == line@);
            if !(line.len() > 0 && line[0] == '#') {
                push_chars(&mut kept, line);
                kept.push('\n');
                assert(kept@ =~= without_comments(head));
            }
            i += 1;
        }
        assert(rows(lines@).take(lines.len() as int) =~= rows(lines@));
        string_of(&kept)
    }

    /// The lines of the text of a file.
    pub fn dump(content: &str) -> (data: Vec<String>)
        ensures
            texts(data@) == split_lines(content@),
    {
        let lines = lines_of(&chars_of(content));
        let mut data: Vec<String> = Vec::new();
        let mut i: usize = 0;
        while i < lines.len()
            invariant
                i <= lines.len(),
                texts(data@) == rows(lines@).take(i as int),
            decreases lines.len() - i,
        {
            let ghost before = texts(data@);
            let line = string_of(&lines[i]);
            data.push(line);
            assert(texts(data@) =~= before.push(line@));
            assert(texts(data@) =~= rows(lines@).take(i + 1));
            i += 1;
        }
        assert(rows(lines@).take(lines.len() as int) =~= rows(lines@));
        data
    }

    /// Takes up to `max_lines` lines from the head of a file, given its text
    /// if there is such a file. What the file is to hold from then on are the
    /// lines that follow, each with a line feed.
    pub fn head_remove(content: Option<&str>, max_lines: usize) -> (head: Head)
        ensures
            content is None ==> head.data@.len() == 0 && head.rest is None,
            content matches Some(text) ==> ({
                let lines = split_lines(text@);
                let n = head_len(lines.len() as int, max_lines as int);
                &&& texts(head.data@) == lines.take(n)
                &&& head.rest matches Some(rest) && rest@ == unlines(lines.skip(n))
            }),
    {
        match content {
            None => Head { data: Vec::new(), rest: None },
            Some(text) => {
                let lines = lines_of(&chars_of(text));
                let ghost all = rows(lines@);
                let n = if lines.len() < max_lines {
                    lines.len()
                } else {
                    max_lines
                };
                let mut data: Vec<String> = Vec::new();
                let mut rest: Vec<char> = Vec::new();
                let mut i: usize = 0;
                assert(all.skip(n as int).take(0) =~= Seq::<Seq<char>>::empty());
                while i < lines.len()
                    invariant
                        i <= lines.len(),
                        n <= lines.len(),
                        all == rows(lines@),
                        i <= n ==> texts(data@) == all.take(i as int) && rest@.len() == 0,
                        i > n ==> texts(data@) == all.take(n as int),
                        i >= n ==> rest@ == unlines(all.skip(n as int).take(i - n)),
                    decreases lines.len() - i,
                {
                    let ghost before = texts(data@);
                    if i < n {
                        let line = string_of(&lines[i]);
                        data.push(line);
                        assert(texts(data@) =~= before.push(line@));
                        assert(texts(data@) =~= all.take(i + 1));
                        assert(rest@ =~= unlines(all.skip(n as int).take(0)));
                    } else {
                        let ghost tail = all.skip(n as int).take(i + 1 - n);
                        assert(tail.drop_last() =~= all.skip(n as int).take(i - n));
                        assert(tail.last() == lines[i as int]@);
                        push_chars(&mut rest, &lines[i]);
                        rest.push('\n');
                        assert(rest@ =~= unlines(tail));
                    }
                    i += 1;
                }
                assert(all.skip(n as int).take(lines.len() - n) =~= all.skip(n as int));
                assert(rest@ =~= unlines(all.skip(n as int))) by {
                    if n == lines.len() {
                        assert(all.skip(n as int) =~= Seq::<Seq<char>>::empty());
                    }
                }
                Head { data, rest: Some(string_of(&rest)) }
            },
        }
    }

    /// The path of the file at `inx`: the directory, a slash, and the name of
    /// the file.
    pub fn path(&self, inx: usize) -> (path: String)
        requires
            inx < self@.files.len(),
        ensures
            path@ == path_of(self@, inx as int),
    {
        let mut path = chars_of(self.dir.as_str());
        path.push('/');
        push_str(&mut path, self.files[inx].as_str());
        string_of(&path)
    }

    /// Makes `new_dir` the directory of the list.
    pub fn chdir(&mut self, new_dir: &str)
        ensures
            final(self)@ == (Files { dir: new_dir@, ..old(self)@ }),
    {
        self.dir = string_of(&chars_of(new_dir));
    }

    /// Gives the file at `inx` the name `new_name`.
    pub fn rename(&mut self, inx: usize, new_name: &str)
        requires
            inx < old(self)@.files.len(),
        ensures
            final(self)@ == (Files {
                files: old(self)@.files.update(inx as int, new_name@),
                ..old(self)@
            }),
    {
        let name = string_of(&chars_of(new_name));
        self.files.set(inx, name);
        assert(texts(self.files@) =~= texts(old(self).files@).update(inx as int, new_name@));
    }

    /// The directory of the list.
    pub fn dir(&self) -> (dir: String)
        ensures
            dir@ == self@.dir,
    {
        self.dir.clone()
    }

    /// Whether the directory of the list is there at this moment.
    pub fn dir_exists(&self) -> (found: bool) {
        path_is_dir(self.dir.as_str())
    }

    /// The name of the file at `inx`.
    pub fn name(&self, inx: usize) -> (name: String)
        requires
            inx < self@.files.len(),
        ensures
            name@ == self@.files[inx as int],
    {
        self.files[inx].clone()
    }

    /// The number of files in the list.
    pub fn len(&self) -> (n: usize)
        ensures
            n == self@.files.len(),
    {
        self.files.len()
    }
}

} // verus!
