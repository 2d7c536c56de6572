//! Collector of OpenVPN status data.
//!
//! An OpenVPN server rewrites its status file all the time. The collector
//! samples each configured status file at intervals and turns every new
//! snapshot into rows for a cache file that only grows, up to a size limit.
//!
//! A status file starts like this:
//!
//! ```text
//! OpenVPN CLIENT LIST
//! Updated,Fri Jul 21 14:35:56 2023
//! Common Name,Real Address,Bytes Received,Bytes Sent,Connected Since
//! client-1,10.0.0.2:40000,1000,2000,Fri Jul 21 14:00:00 2023
//! ROUTING TABLE
//! ```
//!
//! The first line is a title, the second gives the moment of the snapshot, the
//! third names the columns, and from the fourth on every line is the record of
//! one client, up to the line `ROUTING TABLE`.
//!
//! Nothing here touches a file. The caller reads the size of the cache file
//! and the snapshot, and writes the rows that come back, each followed by a
//! line feed.

use vstd::prelude::*;

use crate::config::Config;
use crate::foreign::{parse_timestamp, parsed_timestamp};
use crate::text::{
    chars_of, decimal, decimal_of, join, join_with, lines_of, push_chars, push_str, replace,
    replace_char, rows, same_chars, slice_of, split, split_lines, split_on, starts_with,
    string_of, texts,
};

verus! {

/// Notation of a date and time in status files of OpenVPN before 2.5.
pub const FORMAT_STR_OLD: &'static str = "%a %b %e %H:%M:%S %Y";

/// Notation of a date and time in status files since OpenVPN 2.5.
pub const FORMAT_STR_NEW: &'static str = "%Y-%m-%d %H:%M:%S";

/// What the second line of a status file begins with.
pub const UPDATED_TAG: &'static str = "Updated,";

/// The line after the last client record.
pub const ROUTING_TABLE: &'static str = "ROUTING TABLE";

/// The status file of a default OpenVPN installation.
pub const DEFAULT_STATUS_FILE: &'static str = "/etc/openvpn/openvpn-status.log";

/// What the operating system says of a file that is not there.
pub const NO_SUCH_FILE: &'static str = "No such file or directory (os error 2)";

/// One status file that the collector samples.
pub struct OpenVPNStFile {
    /// The status file that the OpenVPN server writes.
    pub st_file: String,
    /// Where a snapshot of it is copied to, to be read in peace.
    pub tmp_file: String,
    /// The cache file that collects its samples.
    pub cache_file: String,
    /// The moment of the last snapshot taken in, in seconds since the Unix
    /// epoch; 0 as long as none was.
    pub last_update: u64,
}

/// What one snapshot yields.
pub struct Ingestion {
    /// The moment that the descriptor is to remember: that of the snapshot, or
    /// the one it remembered before where the snapshot does not tell its own.
    pub last_update: u64,
    /// The rows to append to the cache file.
    pub rows: Vec<String>,
}

/// What the caller found when it went to read one status file.
pub enum Reading {
    /// The files could not be read; the text is the error's.
    Failed(String),
    /// The size of the cache file, if there is one, and the snapshot.
    Sample { cache_size: Option<u64>, snapshot: String },
}

/// How loud a failed reading is reported.
#[derive(Clone, Copy, Debug, PartialEq, Eq)]
pub enum Severity {
    Debug,
    Error,
}

/// The status files of one agent with the settings of their sampling.
pub struct OpenVPNStCollectorInner {
    pub openvpn_status_files: Vec<OpenVPNStFile>,
    pub max_size: usize,
    pub sampling_interval: u64,
}

/// What the collector does between two passes over its files.
#[derive(Clone, Copy, Debug, PartialEq, Eq)]
pub enum Pause {
    /// Sleep one more second, with this many left after it.
    Sleep { left: u64 },
    /// Start the next pass now.
    Sample,
}

/// The seconds since the Unix epoch for a date and time in either notation;
/// the newer notation is tried first. A moment before the epoch comes out as
/// the two's complement of its negative count.
pub open spec fn epoch_seconds(text: Seq<char>) -> Option<u64> {
    match parsed_timestamp(text, FORMAT_STR_NEW@) {
        Some(seconds) => Some(seconds as u64),
        None => match parsed_timestamp(text, FORMAT_STR_OLD@) {
            Some(seconds) => Some(seconds as u64),
            None => None,
        },
    }
}

/// The moment of the snapshot: what the second line gives after `Updated,`.
/// `None` where there is no second line, it begins otherwise, or its date
/// cannot be read.
pub open spec fn snapshot_update(lines: Seq<Seq<char>>) -> Option<u64> {
    if lines.len() < 2 || !UPDATED_TAG@.is_prefix_of(lines[1]) {
        None
    } else {
        epoch_seconds(lines[1].skip(UPDATED_TAG@.len() as int))
    }
}

/// The cache row for one client record of a snapshot taken at `update`: the
/// moment of the snapshot, the first four fields of the record, and its fifth
/// field, the moment the client connected, in seconds. `None` for a record
/// with fewer than five fields or with a fifth that is no date.
pub open spec fn record_row(line: Seq<char>, update: u64) -> Option<Seq<char>> {
    let fields = split(line, ',');
    if fields.len() < 5 {
        None
    } else {
        match epoch_seconds(fields[4]) {
            Some(since) => Some(
                decimal(update as nat) + seq![','] + join(fields.take(4), seq![',']) + seq![',']
                    + decimal(since as nat),
            ),
            None => None,
        }
    }
}

/// The rows for the client records from line `at` on: the records end at the
/// line `ROUTING TABLE` or with the file, and a record that gives no row is
/// passed over.
pub open spec fn rows_from(lines: Seq<Seq<char>>, at: int, update: u64) -> Seq<Seq<char>>
    decreases lines.len() - at,
{
    if at < 0 || at >= lines.len() || lines[at] == ROUTING_TABLE@ {
        Seq::<Seq<char>>::empty()
    } else {
        match record_row(lines[at], update) {
            Some(row) => seq![row] + rows_from(lines, at + 1, update),
            None => rows_from(lines, at + 1, update),
        }
    }
}

/// The moment that a snapshot leaves in a descriptor whose last snapshot was
/// taken at `last_update`: its own, or `last_update` as it was where it does
/// not tell its own. A snapshot that cannot be used changes nothing.
pub open spec fn ingested_update(snapshot: Seq<char>, last_update: u64) -> u64 {
    match snapshot_update(split_lines(snapshot)) {
        Some(update) => update,
        None => last_update,
    }
}

/// The rows that a snapshot adds to the cache of a descriptor whose last
/// snapshot was taken at `last_update`. There are none where the moment of the
/// snapshot cannot be told, where the descriptor has not seen a snapshot yet,
/// and where this is the snapshot it saw last.
pub open spec fn ingested_rows(snapshot: Seq<char>, last_update: u64) -> Seq<Seq<char>> {
    let lines = split_lines(snapshot);
    match snapshot_update(lines) {
        Some(update) => if last_update == 0 || update == last_update {
            Seq::<Seq<char>>::empty()
        } else {
            rows_from(lines, 3, update)
        },
        None => Seq::<Seq<char>>::empty(),
    }
}

/// Whether a cache file of this size, if there is one, is over the limit.
pub open spec fn cache_full(cache_size: Option<u64>, max_size: usize) -> bool {
    match cache_size {
        Some(size) => size > max_size,
        None => false,
    }
}

/// The rows that one sampling adds to the cache.
pub open spec fn sampled_rows(
    last_update: u64,
    max_size: usize,
    cache_size: Option<u64>,
    snapshot: Seq<char>,
) -> Seq<Seq<char>> {
    if cache_full(cache_size, max_size) {
        Seq::<Seq<char>>::empty()
    } else {
        ingested_rows(snapshot, last_update)
    }
}

/// The moment of the last snapshot after one sampling.
pub open spec fn sampled_update(
    last_update: u64,
    max_size: usize,
    cache_size: Option<u64>,
    snapshot: Seq<char>,
) -> u64 {
    if cache_full(cache_size, max_size) {
        last_update
    } else {
        ingested_update(snapshot, last_update)
    }
}

/// The name that the scratch copy and the cache of a status file are kept
/// under: its path with every `/` turned into `_`.
pub open spec fn flat_name(st_file: Seq<char>) -> Seq<char> {
    replace_char(st_file, '/', '_')
}

/// Where the snapshot of a status file is copied to.
pub open spec fn scratch_path(tmp_dir: Seq<char>, st_file: Seq<char>) -> Seq<char> {
    tmp_dir + seq!['/'] + flat_name(st_file) + ".tmp"@
}

/// Where the samples of a status file are collected.
pub open spec fn cache_path(data_dir: Seq<char>, st_file: Seq<char>) -> Seq<char> {
    data_dir + seq!['/'] + flat_name(st_file) + ".data"@
}

/// The descriptor that a collector starts with for one status file.
pub open spec fn fresh_descriptor(
    item: OpenVPNStFile,
    tmp_dir: Seq<char>,
    data_dir: Seq<char>,
    st_file: Seq<char>,
) -> bool {
    &&& item.st_file@ == st_file
    &&& item.tmp_file@ == scratch_path(tmp_dir, st_file)
    &&& item.cache_file@ == cache_path(data_dir, st_file)
    &&& item.last_update == 0
}

/// What a descriptor is after the caller has been to its files.
pub open spec fn after_reading(item: OpenVPNStFile, max_size: usize, reading: Reading)
    -> OpenVPNStFile {
    match reading {
        Reading::Failed(_) => item,
        Reading::Sample { cache_size, snapshot } => OpenVPNStFile {
            last_update: sampled_update(item.last_update, max_size, cache_size, snapshot@),
            ..item
        },
    }
}

/// The rows that the cache of a descriptor gains from what the caller found.
pub open spec fn rows_of_reading(item: OpenVPNStFile, max_size: usize, reading: Reading) -> Seq<
    Seq<char>,
> {
    match reading {
        Reading::Failed(_) => Seq::<Seq<char>>::empty(),
        Reading::Sample { cache_size, snapshot } => sampled_rows(
            item.last_update,
            max_size,
            cache_size,
            snapshot@,
        ),
    }
}

/// The moment of the snapshot in these lines.
fn header_update(lines: &Vec<Vec<char>>) -> (update: Option<u64>)
    ensures
        update == snapshot_update(rows(lines@)),
{
    if lines.len() < 2 {
        return None;
    }
    let line = &lines[1];
    assert(line@ == rows(lines@)[1]);
    let tag = chars_of(UPDATED_TAG);
    if !starts_with(line, &tag) {
        return None;
    }
    let date = slice_of(line, tag.len(), line.len());
    assert(date@ == line@.skip(UPDATED_TAG@.len() as int));
    let date = string_of(&date);
    OpenVPNStCollectorInner::convert_to_seconds_since_unix_epoch(date.as_str())
}

/// The cache row for one client record.
fn row_of_record(line: &Vec<char>, update: u64) -> (row: Option<String>)
    ensures
        row is Some == record_row(line@, update) is Some,
        row matches Some(text) ==> record_row(line@, update) == Some(text@),
{
    let mut fields = split_on(line, ',');
    if fields.len() < 5 {
        return None;
    }
    let ghost all = rows(fields@);
    let date = string_of(&fields[4]);
    assert(date@ == all[4]);
    match OpenVPNStCollectorInner::convert_to_seconds_since_unix_epoch(date.as_str()) {
        Some(since) => {
            fields.truncate(4);
            assert(rows(fields@) =~= all.take(4));
            let mut comma: Vec<char> = Vec::new();
            comma.push(',');
            assert(comma@ =~= seq![',']);
            let mut row = decimal_of(update);
            push_chars(&mut row, &comma);
            let head = join_with(&fields, &comma);
            push_chars(&mut row, &head);
            push_chars(&mut row, &comma);
            let since = decimal_of(since);
            push_chars(&mut row, &since);
            Some(string_of(&row))
        },
        None => None,
    }
}

/// The rows for the client records of these lines.
fn client_rows(lines: &Vec<Vec<char>>, update: u64) -> (out: Vec<String>)
    ensures
        texts(out@) == rows_from(rows(lines@), 3, update),
{
    let mut out: Vec<String> = Vec::new();
    let table = chars_of(ROUTING_TABLE);
    let mut i: usize = 3;
    while i < lines.len()
        invariant
            3 <= i,
            table@ == ROUTING_TABLE@,
            texts(out@) + rows_from(rows(lines@), i as int, update) == rows_from(
                rows(lines@),
                3,
                update,
            ),
        ensures
            texts(out@) == rows_from(rows(lines@), 3, update),
        decreases lines.len() - i,
    {
        let line = &lines[i];
        assert(line@ == rows(lines@)[i as int]);
        if same_chars(line, &table) {
            break;
        }
        let ghost before = texts(out@);
        match row_of_record(line, update) {
            Some(row) => {
                out.push(row);
                assert(texts(out@) =~= before.push(row@));
                assert(texts(out@) + rows_from(rows(lines@), i + 1, update) =~= before
                    + rows_from(rows(lines@), i as int, update));
            },
            None => {},
        }
        i += 1;
    }
    out
}

impl OpenVPNStFile {
    /// Takes in one snapshot of the status file: tells its moment and, unless
    /// it is the first snapshot seen or the one seen last, the rows that it
    /// adds to the cache. A snapshot that does not tell its moment adds
    /// nothing, and the moment to remember is the one remembered before. The
    /// descriptor is left as it is: see `commit`.
    pub fn ingest(&self, snapshot: &str) -> (got: Ingestion)
        ensures
            got.last_update == ingested_update(snapshot@, self.last_update),
            got.last_update == match snapshot_update(split_lines(snapshot@)) {
                Some(update) => update,
                None => self.last_update,
            },
            texts(got.rows@) == ingested_rows(snapshot@, self.last_update),
    {
        let text = chars_of(snapshot);
        let lines = lines_of(&text);
        match header_update(&lines) {
            Some(update) => {
                if self.last_update == 0 || update == self.last_update {
                    let rows: Vec<String> = Vec::new();
                    assert(texts(rows@) =~= Seq::<Seq<char>>::empty());
                    Ingestion { last_update: update, rows }
                } else {
                    Ingestion { last_update: update, rows: client_rows(&lines, update) }
                }
            },
            None => {
                let rows: Vec<String> = Vec::new();
                assert(texts(rows@) =~= Seq::<Seq<char>>::empty());
                Ingestion { last_update: self.last_update, rows }
            },
        }
    }

    /// Remembers the moment of the snapshot that was taken in last.
    pub fn commit(&mut self, last_update: u64)
        ensures
            *final(self) == (OpenVPNStFile { last_update, ..*old(self) }),
    {
        self.last_update = last_update;
    }

    /// Whether the sampling is left out because the cache file, of the size
    /// given if there is one, has grown over the limit.
    pub fn cache_is_full(cache_size: Option<u64>, max_size: usize) -> (full: bool)
        ensures
            full == cache_full(cache_size, max_size),
    {
        match cache_size {
            Some(size) => size > max_size as u64,
            None => false,
        }
    }

    /// One sampling of the status file, given the size of the cache file, if
    /// there is one, and the snapshot. Gives the rows to append to the cache.
    /// With a cache over the limit nothing is taken in and nothing changes.
    pub fn collect_status_data(
        &mut self,
        max_size: usize,
        cache_size: Option<u64>,
        snapshot: &str,
    ) -> (appended: Vec<String>)
        ensures
            texts(appended@) == sampled_rows(
                old(self).last_update,
                max_size,
                cache_size,
                snapshot@,
            ),
            *final(self) == (OpenVPNStFile {
                last_update: sampled_update(
                    old(self).last_update,
                    max_size,
                    cache_size,
                    snapshot@,
                ),
                ..*old(self)
            }),
    {
        if Self::cache_is_full(cache_size, max_size) {
            let rows: Vec<String> = Vec::new();
            assert(texts(rows@) =~= Seq::<Seq<char>>::empty());
            return rows;
        }
        let got = self.ingest(snapshot);
        self.commit(got.last_update);
        got.rows
    }
}

impl OpenVPNStCollectorInner {
    /// The collector for the status files that the settings name, none of them
    /// sampled yet.
    pub fn new(cfg: &Config) -> (data: Self)
        ensures
            data.max_size == cfg.openvpn_status_cache_max_size,
            data.sampling_interval == cfg.openvpn_status_sampling_interval,
            data.openvpn_status_files.len() == cfg.openvpn_status_files.len(),
            forall|i: int|
                0 <= i < cfg.openvpn_status_files.len() ==> fresh_descriptor(
                    #[trigger] data.openvpn_status_files[i],
                    cfg.tmp_dir@,
                    cfg.data_dir@,
                    cfg.openvpn_status_files[i]@,
                ),
    {
        let mut files: Vec<OpenVPNStFile> = Vec::new();
        let mut i: usize = 0;
        while i < cfg.openvpn_status_files.len()
            invariant
                i <= cfg.openvpn_status_files.len(),
                files.len() == i,
                forall|j: int|
                    0 <= j < i ==> fresh_descriptor(
                        #[trigger] files[j],
                        cfg.tmp_dir@,
                        cfg.data_dir@,
                        cfg.openvpn_status_files[j]@,
                    ),
            decreases cfg.openvpn_status_files.len() - i,
        {
            let file = &cfg.openvpn_status_files[i];
            let name = replace(&chars_of(file.as_str()), '/', '_');
            let mut tmp_file = chars_of(cfg.tmp_dir);
            tmp_file.push('/');
            push_chars(&mut tmp_file, &name);
            push_str(&mut tmp_file, ".tmp");
            let mut cache_file = chars_of(cfg.data_dir);
            cache_file.push('/');
            push_chars(&mut cache_file, &name);
            push_str(&mut cache_file, ".data");
            assert(tmp_file@ =~= scratch_path(cfg.tmp_dir@, file@));
            assert(cache_file@ =~= cache_path(cfg.data_dir@, file@));
            files.push(
                OpenVPNStFile {
                    st_file: file.clone(),
                    tmp_file: string_of(&tmp_file),
                    cache_file: string_of(&cache_file),
                    last_update: 0,
                },
            );
            i += 1;
        }
        OpenVPNStCollectorInner {
            openvpn_status_files: files,
            max_size: cfg.openvpn_status_cache_max_size,
            sampling_interval: cfg.openvpn_status_sampling_interval,
        }
    }

    /// The seconds since the Unix epoch for a date and time in either notation
    /// of the status file, such as `Fri Jul 21 14:35:56 2023` or
    /// `2023-07-21 15:02:00`; `None` for any other text.
    pub fn convert_to_seconds_since_unix_epoch(datetime_str: &str) -> (seconds: Option<u64>)
        ensures
            seconds == epoch_seconds(datetime_str@),
    {
        match parse_timestamp(datetime_str, FORMAT_STR_NEW) {
            Some(parsed) => Some(parsed as u64),
            None => match parse_timestamp(datetime_str, FORMAT_STR_OLD) {
                Some(parsed) => Some(parsed as u64),
                None => None,
            },
        }
    }

    /// One pass over all status files, given for each what the caller found
    /// when it went to read it. Gives for each the rows to append to its
    /// cache. Every file is sampled by itself: a reading that failed, or a
    /// snapshot that cannot be used, leaves the others as they are.
    pub fn collect_all_files_data(&mut self, readings: &Vec<Reading>) -> (appended: Vec<
        Vec<String>,
    >)
        requires
            readings.len() == old(self).openvpn_status_files.len(),
        ensures
            final(self).max_size == old(self).max_size,
            final(self).sampling_interval == old(self).sampling_interval,
            final(self).openvpn_status_files.len() == old(self).openvpn_status_files.len(),
            appended.len() == readings.len(),
            forall|i: int|
                0 <= i < readings.len() ==> #[trigger] final(self).openvpn_status_files[i]
                    == after_reading(
                    old(self).openvpn_status_files[i],
                    old(self).max_size,
                    readings[i],
                ),
            forall|i: int|
                0 <= i < readings.len() ==> texts(#[trigger] appended[i]@) == rows_of_reading(
                    old(self).openvpn_status_files[i],
                    old(self).max_size,
                    readings[i],
                ),
    {
        let mut appended: Vec<Vec<String>> = Vec::new();
        let max_size = self.max_size;
        let mut i: usize = 0;
        while i < readings.len()
            invariant
                i <= readings.len(),
                appended.len() == i,
                max_size == old(self).max_size,
                self.max_size == old(self).max_size,
                self.sampling_interval == old(self).sampling_interval,
                self.openvpn_status_files.len() == old(self).openvpn_status_files.len(),
                readings.len() == old(self).openvpn_status_files.len(),
                forall|j: int|
                    0 <= j < i ==> #[trigger] self.openvpn_status_files[j] == after_reading(
                        old(self).openvpn_status_files[j],
                        max_size,
                        readings[j],
                    ),
                forall|j: int|
                    i <= j < readings.len() ==> #[trigger] self.openvpn_status_files[j] == old(
                        self,
                    ).openvpn_status_files[j],
                forall|j: int|
                    0 <= j < i ==> texts(#[trigger] appended[j]@) == rows_of_reading(
                        old(self).openvpn_status_files[j],
                        max_size,
                        readings[j],
                    ),
            decreases readings.len() - i,
        {
            match &readings[i] {
                Reading::Failed(_) => {
                    let rows: Vec<String> = Vec::new();
                    assert(texts(rows@) =~= Seq::<Seq<char>>::empty());
                    appended.push(rows);
                },
                Reading::Sample { cache_size, snapshot } => {
                    let rows = self.openvpn_status_files[i].collect_status_data(
                        max_size,
                        *cache_size,
                        snapshot.as_str(),
                    );
                    appended.push(rows);
                },
            }
            i += 1;
        }
        appended
    }

    /// How a reading that failed with this error is reported. That the status
    /// file of a default installation is not there is the usual case on a
    /// machine without OpenVPN, and no reason for alarm.
    pub fn failure_severity(st_file: &str, error: &str) -> (level: Severity)
        ensures
            level == if st_file@ == DEFAULT_STATUS_FILE@ && error@ == NO_SUCH_FILE@ {
                Severity::Debug
            } else {
                Severity::Error
            },
    {
        let quiet = same_chars(&chars_of(st_file), &chars_of(DEFAULT_STATUS_FILE)) && same_chars(
            &chars_of(error),
            &chars_of(NO_SUCH_FILE),
        );
        if quiet {
            Severity::Debug
        } else {
            Severity::Error
        }
    }

    /// The number of status files.
    pub fn len(&self) -> (n: usize)
        ensures
            n == self.openvpn_status_files.len(),
    {
        self.openvpn_status_files.len()
    }

    /// What to do after one more second of the pause between two passes, of
    /// which `left` seconds were still to go before that second, when `signal`
    /// is what came in meanwhile (0 for nothing, 1 for a request to sample at
    /// once).
    pub fn pause_step(left: u64, signal: u8) -> (next: Pause)
        requires
            left >= 1,
        ensures
            next == if signal == 1 || left == 1 {
                Pause::Sample
            } else {
                (Pause::Sleep { left: (left - 1) as u64 })
            },
    {
        if signal == 1 || left == 1 {
            Pause::Sample
        } else {
            Pause::Sleep { left: left - 1 }
        }
    }
}

/// A snapshot that one sampling has taken in adds nothing at the next
/// sampling, whatever the size of the cache has become, and leaves the moment
/// of the last snapshot where it is.
pub proof fn law_same_snapshot_adds_nothing(
    last_update: u64,
    max_size: usize,
    first_size: Option<u64>,
    second_size: Option<u64>,
    snapshot: Seq<char>,
)
    requires
        !cache_full(first_size, max_size),
    ensures
        ({
            let seen = sampled_update(last_update, max_size, first_size, snapshot);
            &&& sampled_rows(seen, max_size, second_size, snapshot) == Seq::<Seq<char>>::empty()
            &&& sampled_update(seen, max_size, second_size, snapshot) == seen
        }),
{
}

/// A snapshot whose moment cannot be read adds nothing and leaves the moment
/// of the last snapshot as it was: the next snapshot that can be used is held
/// against the one before, and is not taken for a first one.
pub proof fn law_unusable_snapshot_changes_nothing(
    last_update: u64,
    max_size: usize,
    cache_size: Option<u64>,
    snapshot: Seq<char>,
)
    requires
        snapshot_update(split_lines(snapshot)) is None,
    ensures
        sampled_rows(last_update, max_size, cache_size, snapshot) == Seq::<Seq<char>>::empty(),
        sampled_update(last_update, max_size, cache_size, snapshot) == last_update,
{
}

/// With a cache over the limit a sampling adds nothing and keeps the moment of
/// the last snapshot, whatever the status file holds.
pub proof fn law_full_cache_stays(
    last_update: u64,
    max_size: usize,
    cache_size: u64,
    snapshot: Seq<char>,
)
    requires
        cache_size > max_size,
    ensures
        sampled_rows(last_update, max_size, Some(cache_size), snapshot) == Seq::<
            Seq<char>,
        >::empty(),
        sampled_update(last_update, max_size, Some(cache_size), snapshot) == last_update,
{
}

/// The first snapshot that a descriptor sees adds nothing: it only sets the
/// moment that later snapshots are held against.
pub proof fn law_first_snapshot_adds_nothing(snapshot: Seq<char>)
    ensures
        ingested_rows(snapshot, 0) == Seq::<Seq<char>>::empty(),
{
}

} // verus!
