//! Files that come in with a request.
//!
//! The body of such a request is a stream of parts. A part with a file name is
//! a file; it is written to a scratch file first and moved to its directory
//! once the whole request has been looked at. A part without one is a
//! parameter: the directory for the files, their permissions, or the streaming
//! session for the output of what is run. The caller reads the parts and writes
//! the files; what each part means for the request is decided here.

use vstd::prelude::*;

use crate::errors::FwcError;
use crate::utils::cmd::{lines_read, line_texts, run_cmd_ws, CmdRun};
use crate::utils::ws::WsData;
use crate::foreign::{hyphenated, parse_uuid, parsed_uuid, path_is_dir, random_uuid, sanitized, uuid_text};
use crate::text::{chars_of, push_str, same_chars, string_of, texts};
use crate::utils::myregex::{file_permissions, is_file_permissions};

verus! {

/// The name of the parameter for the directory of the files.
pub const DST_DIR: &'static str = "dst_dir";

/// The name of the parameter for the permissions of the files.
pub const PERMS: &'static str = "perms";

/// The name of the parameter for the streaming session.
pub const WS_ID: &'static str = "ws_id";

/// The name that an uploaded script must have.
pub const SCRIPT_NAME: &'static str = "fwcloud.sh";

/// What a request with permissions that are no three octal digits is told.
pub const BAD_PERMS: &'static str = "perms: Invalid file permissions";

/// What a request without a directory for its files is told.
pub const NO_DST_DIR: &'static str =
    "Destination directory parameter not found in multipart/form-data stream";

/// The interpreter that an uploaded script is run with.
pub const SHELL: &'static str = "sh";

/// One file of a request.
pub struct FileData {
    /// The scratch file that holds it.
    pub src_path: String,
    /// The name of the scratch file.
    pub src_name: String,
    /// Where it goes.
    pub dst_path: String,
    /// The name that it goes under.
    pub dst_name: String,
    /// The number of its bytes read so far.
    pub size: usize,
}

/// What is known of a request with files.
pub struct HttpFiles {
    pub tmp_dir: &'static str,
    pub dst_dir: String,
    pub create_dst_dir: bool,
    pub files: Vec<FileData>,
    pub perms: String,
    pub perms_u32: u32,
    /// The most files that a request may bring; 0 for any number.
    pub max_files: u32,
    /// The most bytes that a file may have; 0 for any number.
    pub max_file_size: usize,
    /// The number of files that the request has to bring; 0 for any number.
    pub expected_files: u32,
    pub n_files: u32,
    /// The streaming session for the output; 0 for none.
    pub ws_id: u128,
    pub ws_id_buf: String,
}

/// What a part of a request is.
pub enum Part {
    /// A parameter, to be read and handed to `extract_field_data`.
    Parameter,
    /// A file, to be written to the scratch file named.
    File(FileData),
}

/// What the caller does for a parameter that was taken in.
#[derive(Clone, Copy, Debug, PartialEq, Eq)]
pub enum FieldStep {
    /// Nothing.
    Go,
    /// Make the directory for the files, with the directories above it.
    CreateDstDir,
}

/// What is run for an uploaded script.
pub struct ScriptPlan {
    /// The arguments of the shell that installs the script.
    pub install: Vec<String>,
    /// The arguments of the shell that loads the policy, if a script for that
    /// is on the machine.
    pub start: Option<Vec<String>>,
    /// The streaming session that the output goes to, if it is streamed.
    pub ws_id: Option<u128>,
    /// Whether the session is over when the script is installed. It never is:
    /// the output of loading the policy follows in the same session.
    pub install_ends_session: bool,
    /// Whether the session is over when the policy is loaded. It is, if the
    /// policy is loaded at all; the caller then retires the session, which
    /// leaves it to its connection to send on what is queued and to close.
    pub start_ends_session: bool,
}

/// Whether the policy is loaded after the script was installed: the install
/// has to have ended well, a script that loads the policy has to be on the
/// machine, and it has to have been run.
pub open spec fn policy_loaded(plan: ScriptPlan, install: CmdRun, start: Option<CmdRun>) -> bool {
    install.exit_success && plan.start is Some && start is Some
}

/// The lines that the two steps of an uploaded script queue in its session:
/// those of the install, and behind them those of loading the policy.
pub open spec fn script_lines(plan: ScriptPlan, install: CmdRun, start: Option<CmdRun>) -> Seq<
    Seq<char>,
> {
    if policy_loaded(plan, install, start) {
        line_texts(lines_read(install.output@, install.end)) + line_texts(
            lines_read(start->0.output@, start->0.end),
        )
    } else {
        line_texts(lines_read(install.output@, install.end))
    }
}

/// Whether the two steps of an uploaded script leave its session over: a step
/// does where the plan says that it ends the session and its output was read
/// to its end.
pub open spec fn script_ends_session(plan: ScriptPlan, install: CmdRun, start: Option<CmdRun>)
    -> bool {
    (plan.install_ends_session && install.end is Eof) || (policy_loaded(plan, install, start)
        && plan.start_ends_session && start->0.end is Eof)
}

/// Whether the two steps of an uploaded script end well: none that was run
/// ended with an exit status other than 0.
pub open spec fn script_succeeds(plan: ScriptPlan, install: CmdRun, start: Option<CmdRun>)
    -> bool {
    install.exit_success && (policy_loaded(plan, install, start) ==> start->0.exit_success)
}

/// The bytes of a parameter as text, one character for each byte.
pub open spec fn latin1(data: Seq<u8>) -> Seq<char> {
    data.map_values(|b: u8| b as char)
}

/// The number that permissions in octal notation stand for.
pub open spec fn perms_value(perms: Seq<char>) -> int {
    (perms[0] as int - '0' as int) * 64 + (perms[1] as int - '0' as int) * 8 + (perms[2] as int
        - '0' as int)
}

/// Whether the parameter `name` is one that a request may bring.
pub open spec fn known_parameter(name: Seq<char>) -> bool {
    name == DST_DIR@ || name == PERMS@ || name == WS_ID@
}

/// The entry for a file named `filename` whose scratch file is named after
/// the UUID of `random`.
pub open spec fn file_entry(
    file: FileData,
    tmp_dir: Seq<char>,
    dst_dir: Seq<char>,
    filename: Seq<char>,
    random: u128,
) -> bool {
    &&& file.src_name@ == hyphenated(random) + ".tmp"@
    &&& file.src_path@ == tmp_dir + seq!['/'] + hyphenated(random) + ".tmp"@
    &&& file.dst_path@ == dst_dir + seq!['/'] + filename
    &&& file.dst_name@ == filename
    &&& file.size == 0
}

/// Why a further file is refused, if it is.
pub open spec fn file_refusal(
    dst_dir: Seq<char>,
    n_files: u32,
    max_files: u32,
    expected_files: u32,
) -> Option<FwcError> {
    if dst_dir.len() == 0 {
        Some(FwcError::DstDirFirst)
    } else if n_files == u32::MAX {
        Some(FwcError::TooManyFiles)
    } else if max_files > 0 && n_files + 1 > max_files {
        Some(FwcError::TooManyFiles)
    } else if expected_files > 0 && n_files + 1 > expected_files {
        Some(FwcError::MoreFilesThanExpected)
    } else {
        None
    }
}

/// The number of files after a part with the file name `filename`: a file is
/// counted once the directory for the files is known, also when it is then
/// refused as one too many.
pub open spec fn counted(dst_dir: Seq<char>, filename: Seq<char>, n_files: u32) -> u32 {
    if filename.len() == 0 || dst_dir.len() == 0 || n_files == u32::MAX {
        n_files
    } else {
        (n_files + 1) as u32
    }
}

/// What taking in a part makes of a request, when the cleaned file name of the
/// part is `filename` and `random` is the number drawn for its scratch file.
/// A part without a file name is a parameter. A part with one is a file, which
/// gets its entry unless it is refused.
pub open spec fn part_taken(
    before: HttpFiles,
    after: HttpFiles,
    filename: Seq<char>,
    random: u128,
    res: Result<Part, FwcError>,
) -> bool {
    &&& after == (HttpFiles {
        n_files: counted(before.dst_dir@, filename, before.n_files),
        ..before
    })
    &&& filename.len() == 0 ==> (res matches Ok(Part::Parameter))
    &&& filename.len() > 0 ==> (match file_refusal(
        before.dst_dir@,
        before.n_files,
        before.max_files,
        before.expected_files,
    ) {
        Some(e) => res == Err::<Part, FwcError>(e),
        None => (res matches Ok(Part::File(file)) && file_entry(
            file,
            before.tmp_dir@,
            before.dst_dir@,
            filename,
            random,
        )),
    })
}

/// Whether a file of `size` bytes may grow by `more`.
pub open spec fn chunk_fits(size: usize, more: usize, max_file_size: usize) -> bool {
    size + more <= usize::MAX && (max_file_size == 0 || size + more <= max_file_size)
}

/// The index of the first script for loading the policy that is on the
/// machine, from `at` on, or the number of scripts where none is.
pub open spec fn first_present(present: Seq<bool>, at: int) -> int
    decreases present.len() - at,
{
    if at < 0 || at >= present.len() || present[at] {
        at
    } else {
        first_present(present, at + 1)
    }
}

/// The names of the three parameters are three different texts.
proof fn lemma_parameters_differ()
    ensures
        DST_DIR@ != PERMS@,
        DST_DIR@ != WS_ID@,
        PERMS@ != WS_ID@,
{
    reveal_strlit("dst_dir");
    reveal_strlit("perms");
    reveal_strlit("ws_id");
    assert(PERMS@[0] == 'p');
    assert(WS_ID@[0] == 'w');
}

impl HttpFiles {
    /// A request of which nothing has been read yet.
    pub fn new(tmp_dir: &'static str, create_dst_dir: bool) -> (item: Self)
        ensures
            item.tmp_dir == tmp_dir,
            item.create_dst_dir == create_dst_dir,
            item.dst_dir@.len() == 0,
            item.files@.len() == 0,
            item.perms@ == "640"@,
            item.perms_u32 == 420,
            item.max_files == 1000,
            item.max_file_size == 10_485_760,
            item.expected_files == 0,
            item.n_files == 0,
            item.ws_id == 0,
            item.ws_id_buf@.len() == 0,
    {
        HttpFiles {
            tmp_dir,
            dst_dir: String::new(),
            create_dst_dir,
            files: Vec::new(),
            perms: string_of(&chars_of("640")),
            perms_u32: 420,
            max_files: 1000,
            max_file_size: 10_485_760,
            expected_files: 0,
            n_files: 0,
            ws_id: 0,
            ws_id_buf: String::new(),
        }
    }

    /// Takes in a part whose file name, cleaned of what a file system may not
    /// accept, is `filename`. Without a file name the part is a parameter.
    /// With one it is a file, which is counted and gets an entry whose scratch
    /// file is named after the UUID of `random`; it is refused before the
    /// directory for the files is known and when it is one file too many.
    pub fn accept_part(&mut self, filename: String, random: u128) -> (res: Result<Part, FwcError>)
        ensures
            part_taken(*old(self), *final(self), filename@, random, res),
    {
        if filename.as_str().unicode_len() == 0 {
            return Ok(Part::Parameter);
        }
        if self.dst_dir.as_str().unicode_len() == 0 {
            return Err(FwcError::DstDirFirst);
        }
        if self.n_files == u32::MAX {
            return Err(FwcError::TooManyFiles);
        }
        self.n_files = self.n_files + 1;
        if self.max_files > 0 && self.n_files > self.max_files {
            return Err(FwcError::TooManyFiles);
        }
        if self.expected_files > 0 && self.n_files > self.expected_files {
            return Err(FwcError::MoreFilesThanExpected);
        }
        let id = uuid_text(random);
        let mut src_name = chars_of(id.as_str());
        push_str(&mut src_name, ".tmp");
        let mut src_path = chars_of(self.tmp_dir);
        src_path.push('/');
        push_str(&mut src_path, id.as_str());
        push_str(&mut src_path, ".tmp");
        let mut dst_path = chars_of(self.dst_dir.as_str());
        dst_path.push('/');
        push_str(&mut dst_path, filename.as_str());
        assert(src_path@ =~= self.tmp_dir@ + seq!['/'] + hyphenated(random) + ".tmp"@);
        assert(dst_path@ =~= self.dst_dir@ + seq!['/'] + filename@);
        Ok(
            Part::File(
                FileData {
                    src_path: string_of(&src_path),
                    src_name: string_of(&src_name),
                    dst_path: string_of(&dst_path),
                    dst_name: filename,
                    size: 0,
                },
            ),
        )
    }

    /// Takes in a part of the request, given the file name that it carries,
    /// empty if it carries none. The file name is cleaned of what a file
    /// system may not accept, which leaves it without a slash and no longer
    /// than it was, and the
    /// part is then taken in as `accept_part` says, with a random number for
    /// the name of the scratch file. So a part without a file name is a
    /// parameter, and a part with one is a parameter or a file; a file is
    /// refused for the reasons of `accept_part` and no others.
    pub fn extract_multipart_data(&mut self, filename: &str) -> (res: Result<Part, FwcError>)
        ensures
            exists|clean: Seq<char>, random: u128|
                clean.len() <= filename@.len() && !clean.contains('/') && random != 0
                    && #[trigger] part_taken(
                    *old(self),
                    *final(self),
                    clean,
                    random,
                    res,
                ),
            filename@.len() == 0 ==> (res matches Ok(Part::Parameter)) && *final(self) == *old(
                self,
            ),
            file_refusal(
                old(self).dst_dir@,
                old(self).n_files,
                old(self).max_files,
                old(self).expected_files,
            ) is None ==> res is Ok,
            res matches Err(e) ==> file_refusal(
                old(self).dst_dir@,
                old(self).n_files,
                old(self).max_files,
                old(self).expected_files,
            ) == Some(e),
            res matches Ok(Part::File(file)) ==> 0 < file.dst_name@.len() <= filename@.len()
                && !file.dst_name@.contains('/') && file.size == 0 && file.dst_path@ == old(self).dst_dir@ + seq!['/']
                + file.dst_name@ && file.src_path@ == old(self).tmp_dir@ + seq!['/']
                + file.src_name@ && final(self).n_files == old(self).n_files + 1,
            *final(self) == (HttpFiles { n_files: final(self).n_files, ..*old(self) }),
    {
        let clean = sanitized(filename);
        let random = random_uuid();
        let ghost name = clean@;
        let res = self.accept_part(clean, random);
        assert(part_taken(*old(self), *self, name, random, res));
        assert(res matches Ok(Part::File(file)) ==> file.src_path@ =~= old(self).tmp_dir@
            + seq!['/'] + file.src_name@);
        res
    }

    /// Counts `more` bytes read of a file. A file that grows beyond what a
    /// file may have is refused.
    pub fn add_chunk(&self, file: &mut FileData, more: usize) -> (res: Result<(), FwcError>)
        ensures
            chunk_fits(old(file).size, more, self.max_file_size) ==> res is Ok && *final(file) == (
            FileData { size: (old(file).size + more) as usize, ..*old(file) }),
            !chunk_fits(old(file).size, more, self.max_file_size) ==> (res matches Err(
                FwcError::TooBigFile,
            )) && *final(file) == *old(file),
    {
        if more > usize::MAX - file.size {
            return Err(FwcError::TooBigFile);
        }
        if self.max_file_size > 0 && file.size + more > self.max_file_size {
            return Err(FwcError::TooBigFile);
        }
        file.size = file.size + more;
        Ok(())
    }

    /// Puts a file that has been read to its end with the files of the
    /// request.
    pub fn end_file(&mut self, file: FileData)
        ensures
            *final(self) == (HttpFiles { files: final(self).files, ..*old(self) }),
            final(self).files@ == old(self).files@.push(file),
    {
        self.files.push(file);
    }

    /// Stores the value of the parameter `name`: the directory and the
    /// session grow by it, the permissions are replaced by it. A parameter of
    /// another name is refused.
    pub fn store_field(&mut self, name: &str, data: &Vec<u8>) -> (res: Result<(), FwcError>)
        ensures
            !known_parameter(name@) ==> (res matches Err(FwcError::NotAllowedParameter))
                && *final(self) == *old(self),
            known_parameter(name@) ==> res is Ok,
            name@ == DST_DIR@ ==> *final(self) == (HttpFiles {
                dst_dir: final(self).dst_dir,
                ..*old(self)
            }) && final(self).dst_dir@ == old(self).dst_dir@ + latin1(data@),
            name@ == PERMS@ ==> *final(self) == (HttpFiles {
                perms: final(self).perms,
                ..*old(self)
            }) && final(self).perms@ == latin1(data@),
            name@ == WS_ID@ ==> *final(self) == (HttpFiles {
                ws_id_buf: final(self).ws_id_buf,
                ..*old(self)
            }) && final(self).ws_id_buf@ == old(self).ws_id_buf@ + latin1(data@),
    {
        proof {
            lemma_parameters_differ();
        }
        let name = chars_of(name);
        let mut text: Vec<char> = Vec::new();
        let mut i: usize = 0;
        while i < data.len()
            invariant
                i <= data.len(),
                text@ == latin1(data@).take(i as int),
            decreases data.len() - i,
        {
            text.push(data[i] as char);
            assert(text@ =~= latin1(data@).take(i + 1));
            i += 1;
        }
        assert(latin1(data@).take(data.len() as int) =~= latin1(data@));
        if same_chars(&name, &chars_of(DST_DIR)) {
            let mut whole = chars_of(self.dst_dir.as_str());
            crate::text::push_chars(&mut whole, &text);
            self.dst_dir = string_of(&whole);
            Ok(())
        } else if same_chars(&name, &chars_of(PERMS)) {
            self.perms = string_of(&text);
            Ok(())
        } else if same_chars(&name, &chars_of(WS_ID)) {
            let mut whole = chars_of(self.ws_id_buf.as_str());
            crate::text::push_chars(&mut whole, &text);
            self.ws_id_buf = string_of(&whole);
            Ok(())
        } else {
            Err(FwcError::NotAllowedParameter)
        }
    }

    /// Looks at the parameter `name` once its value is stored. For the
    /// directory, given whether it is there: a directory that is not is to be
    /// made where the request may make it, and fails the request where it may
    /// not. For the session: its value has to be a UUID.
    pub fn check_field(&mut self, name: &str, dir_present: bool) -> (res: Result<
        FieldStep,
        FwcError,
    >)
        ensures
            name@ == DST_DIR@ ==> *final(self) == *old(self) && if dir_present {
                res matches Ok(FieldStep::Go)
            } else if old(self).create_dst_dir {
                res matches Ok(FieldStep::CreateDstDir)
            } else {
                res matches Err(FwcError::DirNotFound)
            },
            name@ == WS_ID@ ==> match parsed_uuid(old(self).ws_id_buf@) {
                Some(id) => (res matches Ok(FieldStep::Go)) && *final(self) == (HttpFiles {
                    ws_id: id,
                    ..*old(self)
                }),
                None => (res matches Err(FwcError::WebSocketIdBad)) && *final(self) == *old(self),
            },
            name@ != DST_DIR@ && name@ != WS_ID@ ==> (res matches Ok(FieldStep::Go)) && *final(self) == *old(self),
    {
        proof {
            lemma_parameters_differ();
        }
        let name = chars_of(name);
        if same_chars(&name, &chars_of(DST_DIR)) {
            if dir_present {
                Ok(FieldStep::Go)
            } else if self.create_dst_dir {
                Ok(FieldStep::CreateDstDir)
            } else {
                Err(FwcError::DirNotFound)
            }
        } else if same_chars(&name, &chars_of(WS_ID)) {
            match parse_uuid(self.ws_id_buf.as_str()) {
                Some(id) => {
                    self.ws_id = id;
                    Ok(FieldStep::Go)
                },
                None => Err(FwcError::WebSocketIdBad),
            }
        } else {
            Ok(FieldStep::Go)
        }
    }

    /// Takes in the parameter `name` with the value `data`. The value is
    /// stored as `store_field` says and then looked at as `check_field` says,
    /// for the directory with what the disk says at this moment of whether
    /// it is there. So a parameter of an unknown name is refused, and no
    /// other is for its name; permissions are stored and never refused here;
    /// the directory grows by the value, and is then found, or to be made,
    /// or missing for good; the session grows by the value, which then has to
    /// be a UUID.
    pub fn extract_field_data(&mut self, name: &str, data: &Vec<u8>) -> (res: Result<
        FieldStep,
        FwcError,
    >)
        ensures
            !known_parameter(name@) ==> (res matches Err(FwcError::NotAllowedParameter))
                && *final(self) == *old(self),
            (res matches Err(FwcError::NotAllowedParameter)) ==> !known_parameter(name@),
            name@ == PERMS@ ==> (res matches Ok(FieldStep::Go)) && *final(self) == (HttpFiles {
                perms: final(self).perms,
                ..*old(self)
            }) && final(self).perms@ == latin1(data@),
            name@ == DST_DIR@ ==> *final(self) == (HttpFiles {
                dst_dir: final(self).dst_dir,
                ..*old(self)
            }) && final(self).dst_dir@ == old(self).dst_dir@ + latin1(data@) && ((
            res matches Ok(FieldStep::Go)) || (old(self).create_dst_dir && (
            res matches Ok(FieldStep::CreateDstDir))) || (!old(self).create_dst_dir && (
            res matches Err(FwcError::DirNotFound)))),
            name@ == WS_ID@ ==> final(self).ws_id_buf@ == old(self).ws_id_buf@ + latin1(data@)
                && match parsed_uuid(old(self).ws_id_buf@ + latin1(data@)) {
                Some(id) => (res matches Ok(FieldStep::Go)) && *final(self) == (HttpFiles {
                    ws_id: id,
                    ws_id_buf: final(self).ws_id_buf,
                    ..*old(self)
                }),
                None => (res matches Err(FwcError::WebSocketIdBad)) && *final(self) == (HttpFiles {
                    ws_id_buf: final(self).ws_id_buf,
                    ..*old(self)
                }),
            },
            final(self).files == old(self).files,
            final(self).n_files == old(self).n_files,
    {
        proof {
            lemma_parameters_differ();
        }
        match self.store_field(name, data) {
            Ok(()) => {},
            Err(e) => {
                return Err(e);
            },
        }
        let dir_present = if same_chars(&chars_of(name), &chars_of(DST_DIR)) {
            path_is_dir(self.dst_dir.as_str())
        } else {
            false
        };
        self.check_field(name, dir_present)
    }

    /// Looks at the request once all its parts are in: the permissions have
    /// to be three octal digits, the directory for the files has to be known,
    /// and at least one file, and as many as are expected, have to have come.
    /// The permissions are then worked out as a number.
    pub fn check_data(&mut self) -> (res: Result<(), FwcError>)
        ensures
            *final(self) == (HttpFiles { perms_u32: final(self).perms_u32, ..*old(self) }),
            if !is_file_permissions(old(self).perms@) {
                res matches Err(FwcError::Validation(text)) && text@ == BAD_PERMS@
            } else if old(self).dst_dir@.len() == 0 {
                res matches Err(FwcError::Internal(text)) && text@ == NO_DST_DIR@
            } else if old(self).files@.len() == 0 {
                res matches Err(FwcError::AtLeastOneFile)
            } else if old(self).n_files < old(self).expected_files {
                res matches Err(FwcError::LessFilesThanExpected)
            } else {
                res is Ok && final(self).perms_u32 == perms_value(old(self).perms@)
            },
            res is Err ==> final(self).perms_u32 == old(self).perms_u32,
    {
        if !file_permissions(self.perms.as_str()) {
            return Err(FwcError::Validation(string_of(&chars_of(BAD_PERMS))));
        }
        if self.dst_dir.as_str().unicode_len() == 0 {
            return Err(FwcError::Internal(NO_DST_DIR));
        }
        if self.files.len() == 0 {
            return Err(FwcError::AtLeastOneFile);
        }
        if self.n_files < self.expected_files {
            return Err(FwcError::LessFilesThanExpected);
        }
        self.perms_to_u32();
        Ok(())
    }

    /// Works out the permissions as a number.
    pub fn perms_to_u32(&mut self)
        requires
            is_file_permissions(old(self).perms@),
        ensures
            *final(self) == (HttpFiles { perms_u32: final(self).perms_u32, ..*old(self) }),
            final(self).perms_u32 == perms_value(old(self).perms@),
    {
        let perms = chars_of(self.perms.as_str());
        assert('0' <= perms@[0] && perms@[0] <= '7');
        assert('0' <= perms@[1] && perms@[1] <= '7');
        assert('0' <= perms@[2] && perms@[2] <= '7');
        let d0 = (perms[0] as u32) - 48;
        let d1 = (perms[1] as u32) - 48;
        let d2 = (perms[2] as u32) - 48;
        self.perms_u32 = (d0 * 64) + (d1 * 8) + d2;
    }

    /// Says that the request has to bring one file and no more: a script.
    pub fn expect_script(&mut self)
        ensures
            *final(self) == (HttpFiles { expected_files: 1, ..*old(self) }),
    {
        self.expected_files = 1;
    }

    /// What is run for the script of a request that has passed `check_data`,
    /// given the scripts that load the policy and, for each, whether it is on
    /// the machine. The script must be named `fwcloud.sh`. It is installed,
    /// and then the first script on the machine, if any, loads the policy.
    pub fn fwcloud_script(&self, fwcloud_script_paths: &Vec<String>, present: &Vec<bool>) -> (res:
        Result<ScriptPlan, FwcError>)
        requires
            self.files@.len() > 0,
            present.len() == fwcloud_script_paths.len(),
        ensures
            self.files[0].dst_name@ != SCRIPT_NAME@ ==> (res matches Err(
                FwcError::NotExpectedFileName,
            )),
            self.files[0].dst_name@ == SCRIPT_NAME@ ==> (res matches Ok(plan) && ({
                let at = first_present(present@, 0);
                &&& texts(plan.install@) == seq![self.files[0].dst_path@, "install"@]
                &&& plan.ws_id == if self.ws_id == 0 {
                    None
                } else {
                    Some(self.ws_id)
                }
                &&& at >= present.len() ==> plan.start is None
                &&& at < present.len() ==> (plan.start matches Some(args) && texts(args@)
                    == seq![fwcloud_script_paths[at]@, "start"@])
                &&& !plan.install_ends_session
                &&& plan.start_ends_session == plan.start is Some
            })),
    {
        if !same_chars(&chars_of(self.files[0].dst_name.as_str()), &chars_of(SCRIPT_NAME)) {
            return Err(FwcError::NotExpectedFileName);
        }
        let mut install: Vec<String> = Vec::new();
        install.push(self.files[0].dst_path.clone());
        install.push(string_of(&chars_of("install")));
        assert(texts(install@) =~= seq![self.files[0].dst_path@, "install"@]);
        let mut start: Option<Vec<String>> = None;
        let mut i: usize = 0;
        while i < present.len()
            invariant_except_break
                start is None,
                first_present(present@, 0) == first_present(present@, i as int),
            invariant
                i <= present.len(),
                present.len() == fwcloud_script_paths.len(),
            ensures
                first_present(present@, 0) >= present.len() ==> start is None,
                first_present(present@, 0) < present.len() ==> (start matches Some(args) && texts(
                    args@,
                ) == seq![fwcloud_script_paths[first_present(present@, 0)]@, "start"@]),
            decreases present.len() - i,
        {
            if present[i] {
                let mut args: Vec<String> = Vec::new();
                args.push(fwcloud_script_paths[i].clone());
                args.push(string_of(&chars_of("start")));
                assert(texts(args@) =~= seq![fwcloud_script_paths[i as int]@, "start"@]);
                start = Some(args);
                break ;
            }
            i += 1;
        }
        let ws_id = if self.ws_id == 0 {
            None
        } else {
            Some(self.ws_id)
        };
        let start_ends_session = start.is_some();
        Ok(ScriptPlan { install, start, ws_id, install_ends_session: false, start_ends_session })
    }
}

/// With a plan as `fwcloud_script` makes it, where the install never ends the
/// session, the session of an uploaded script is over only once the policy
/// was loaded and its output read to its end: the install leaves it open.
pub proof fn law_session_ends_with_the_policy(
    plan: ScriptPlan,
    install: CmdRun,
    start: Option<CmdRun>,
)
    requires
        !plan.install_ends_session,
        plan.start_ends_session == plan.start is Some,
    ensures
        script_ends_session(plan, install, start) == (policy_loaded(plan, install, start)
            && start->0.end is Eof),
        !script_ends_session(plan, install, None),
{
}

impl ScriptPlan {
    /// Streams what the two steps of an uploaded script printed into its
    /// session, given what the install printed and, if the policy was loaded
    /// after it, what that printed. The lines of the install are queued, and
    /// behind them those of loading the policy. The session is marked as
    /// over by the step that the plan says ends it, once its output was read
    /// to its end. An install that fails is the failure of the request, and
    /// the policy is not loaded after it.
    pub fn stream(&self, install: &CmdRun, start: Option<&CmdRun>, ws_data: &mut WsData) -> (res:
        Result<(), FwcError>)
        ensures
            texts(final(ws_data).lines@) == texts(old(ws_data).lines@) + script_lines(
                *self,
                *install,
                match start {
                    Some(run) => Some(*run),
                    None => None,
                },
            ),
            final(ws_data).finished == (old(ws_data).finished || script_ends_session(
                *self,
                *install,
                match start {
                    Some(run) => Some(*run),
                    None => None,
                },
            )),
            final(ws_data).created_at == old(ws_data).created_at,
            script_succeeds(
                *self,
                *install,
                match start {
                    Some(run) => Some(*run),
                    None => None,
                },
            ) ==> res is Ok,
            !script_succeeds(
                *self,
                *install,
                match start {
                    Some(run) => Some(*run),
                    None => None,
                },
            ) ==> (res matches Err(FwcError::CmdExitStatusNotZero)),
    {
        let ghost before = texts(ws_data.lines@);
        let ghost first = line_texts(lines_read(install.output@, install.end));
        match run_cmd_ws(
            &install.output,
            install.end,
            install.exit_success,
            ws_data,
            self.install_ends_session,
        ) {
            Ok(()) => {},
            Err(e) => {
                return Err(e);
            },
        }
        if self.start.is_none() {
            return Ok(());
        }
        match start {
            Some(run) => {
                let res = run_cmd_ws(
                    &run.output,
                    run.end,
                    run.exit_success,
                    ws_data,
                    self.start_ends_session,
                );
                assert(texts(ws_data.lines@) =~= before + (first + line_texts(
                    lines_read(run.output@, run.end),
                )));
                res
            },
            None => Ok(()),
        }
    }
}

} // verus!
