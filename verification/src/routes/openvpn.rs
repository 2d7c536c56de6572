//! Requests for the status of OpenVPN.

use vstd::prelude::*;

use crate::errors::FwcError;
use crate::text::{chars_of, join, join_with, push_str, replace, replace_char, rows, string_of, texts};
use crate::utils::files_list::{Files, FilesList};
use crate::workers::openvpn_status_collector::{cache_path, flat_name};

verus! {

/// The names of the columns of the status cache.
pub const STATUS_HEADER: &'static str =
    "Timestamp,Common Name,Real Address,Bytes Received,Bytes Sent,Connected Since";

/// The name of the cache of the status file `name` in the directory `dir`.
pub open spec fn cache_name(dir: Seq<char>, name: Seq<char>) -> Seq<char> {
    replace_char(dir + seq!['/'] + name + ".data"@, '/', '_')
}

/// The lines of an answer with line feeds between them.
pub open spec fn body_of(lines: Seq<Seq<char>>) -> Seq<char> {
    join(lines, seq!['\n'])
}

/// What is done for a request for the digests of files.
#[derive(Clone, Copy, Debug, PartialEq, Eq)]
pub enum Sha256Step {
    /// The directory is not there: the answer is a list without digests.
    Empty,
    /// The request names no files: those found in the directory are listed,
    /// and their digests taken.
    ListDir,
    /// The digests of the files that the request names are taken.
    Hash,
}

/// What is done for a request for the digests of the files of `files_list`,
/// given whether its directory is there. Comments are left out of the digests.
pub fn files_sha256(files_list: &FilesList, dir_present: bool) -> (todo: Sha256Step)
    ensures
        todo == if !dir_present {
            Sha256Step::Empty
        } else if files_list@.files.len() == 0 {
            Sha256Step::ListDir
        } else {
            Sha256Step::Hash
        },
{
    if !dir_present {
        Sha256Step::Empty
    } else if files_list.len() == 0 {
        Sha256Step::ListDir
    } else {
        Sha256Step::Hash
    }
}

/// Turns a request for the status collected from one status file into the
/// list of the one cache file that holds it. A request that names no file, or
/// more than one, is refused and left as it is.
pub fn get_status(files_list: &mut FilesList, data_dir: &str) -> (res: Result<(), FwcError>)
    ensures
        old(files_list)@.files.len() != 1 ==> (res matches Err(FwcError::OnlyOneFileExpected))
            && final(files_list)@ == old(files_list)@,
        old(files_list)@.files.len() == 1 ==> res is Ok && final(files_list)@ == (Files {
            dir: data_dir@,
            files: seq![cache_name(old(files_list)@.dir, old(files_list)@.files[0])],
        }),
{
    if files_list.len() != 1 {
        return Err(FwcError::OnlyOneFileExpected);
    }
    let mut name = chars_of(files_list.dir().as_str());
    name.push('/');
    push_str(&mut name, files_list.name(0).as_str());
    push_str(&mut name, ".data");
    assert(name@ =~= old(files_list)@.dir + seq!['/'] + old(files_list)@.files[0] + ".data"@);
    let name = string_of(&replace(&name, '/', '_'));
    files_list.chdir(data_dir);
    files_list.rename(0, name.as_str());
    assert(files_list@.files =~= seq![cache_name(old(files_list)@.dir, old(files_list)@.files[0])]);
    Ok(())
}

/// The answer to a request for collected status: the names of the columns and
/// then the rows that were taken from the cache, with line feeds between them.
pub fn status_body(rows_taken: &Vec<String>) -> (body: String)
    ensures
        body@ == body_of(seq![STATUS_HEADER@] + texts(rows_taken@)),
{
    let mut lines: Vec<Vec<char>> = Vec::new();
    lines.push(chars_of(STATUS_HEADER));
    let mut i: usize = 0;
    assert(rows(lines@) =~= seq![STATUS_HEADER@] + texts(rows_taken@).take(0));
    while i < rows_taken.len()
        invariant
            i <= rows_taken.len(),
            rows(lines@) == seq![STATUS_HEADER@] + texts(rows_taken@).take(i as int),
        decreases rows_taken.len() - i,
    {
        let ghost before = rows(lines@);
        let row = chars_of(rows_taken[i].as_str());
        lines.push(row);
        assert(rows(lines@) =~= before.push(row@));
        assert(rows(lines@) =~= seq![STATUS_HEADER@] + texts(rows_taken@).take(i + 1));
        i += 1;
    }
    assert(texts(rows_taken@).take(rows_taken.len() as int) =~= texts(rows_taken@));
    let mut sep: Vec<char> = Vec::new();
    sep.push('\n');
    assert(sep@ =~= seq!['\n']);
    string_of(&join_with(&lines, &sep))
}

/// The path of the status file that a request for the status as it is now
/// names. A request that names no file, or more than one, is refused.
pub fn get_status_rt(files_list: &FilesList) -> (res: Result<String, FwcError>)
    ensures
        files_list@.files.len() != 1 ==> (res matches Err(FwcError::OnlyOneFileExpected)),
        files_list@.files.len() == 1 ==> (res matches Ok(path) && path@
            == crate::utils::files_list::path_of(files_list@, 0)),
{
    if files_list.len() != 1 {
        return Err(FwcError::OnlyOneFileExpected);
    }
    Ok(files_list.path(0))
}

/// The answer to a request for the status as it is now: the lines of the
/// status file with line feeds between them.
pub fn status_rt_body(lines: &Vec<String>) -> (body: String)
    ensures
        body@ == body_of(texts(lines@)),
{
    let mut all: Vec<Vec<char>> = Vec::new();
    let mut i: usize = 0;
    assert(rows(all@) =~= texts(lines@).take(0));
    while i < lines.len()
        invariant
            i <= lines.len(),
            rows(all@) == texts(lines@).take(i as int),
        decreases lines.len() - i,
    {
        let ghost before = rows(all@);
        let line = chars_of(lines[i].as_str());
        all.push(line);
        assert(rows(all@) =~= before.push(line@));
        assert(rows(all@) =~= texts(lines@).take(i + 1));
        i += 1;
    }
    assert(texts(lines@).take(lines.len() as int) =~= texts(lines@));
    let mut sep: Vec<char> = Vec::new();
    sep.push('\n');
    assert(sep@ =~= seq!['\n']);
    string_of(&join_with(&all, &sep))
}

/// The cache file that a request for collected status reads is the one that
/// the collector fills for the status file that the request names.
pub proof fn law_request_reads_the_cache_of_its_status_file(
    data_dir: Seq<char>,
    dir: Seq<char>,
    name: Seq<char>,
)
    ensures
        data_dir + seq!['/'] + cache_name(dir, name) == cache_path(
            data_dir,
            dir + seq!['/'] + name,
        ),
{
    let st_file = dir + seq!['/'] + name;
    assert(cache_name(dir, name) =~= flat_name(st_file) + ".data"@) by {
        reveal_strlit(".data");
        let whole = st_file + ".data"@;
        assert(replace_char(whole, '/', '_') =~= replace_char(st_file, '/', '_') + ".data"@);
    }
    assert(data_dir + seq!['/'] + (flat_name(st_file) + ".data"@) =~= cache_path(
        data_dir,
        st_file,
    ));
}

} // verus!
