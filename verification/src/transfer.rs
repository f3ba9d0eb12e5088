//! Sending files to nearby devices: the progress of a direct send, the
//! device alias shown to others, and the list of trusted devices.

use vstd::prelude::*;
use crate::browser::FileBrowser;
use crate::naming::path_views;
use crate::paths::{FsPath, PathModel};
use crate::selection::{display_directory_name, display_directory_name_spec};
use crate::text::{text_eq, text_views};

verus! {

// ---------------------------------------------------------------------------
// Whitespace trimming
// ---------------------------------------------------------------------------

/// `char::is_whitespace`: the characters with the Unicode `White_Space`
/// property.
pub open spec fn is_whitespace_spec(c: char) -> bool {
    ||| ('\u{9}' <= c && c <= '\u{d}')
    ||| c == ' '
    ||| c == '\u{85}'
    ||| c == '\u{a0}'
    ||| c == '\u{1680}'
    ||| ('\u{2000}' <= c && c <= '\u{200a}')
    ||| c == '\u{2028}'
    ||| c == '\u{2029}'
    ||| c == '\u{202f}'
    ||| c == '\u{205f}'
    ||| c == '\u{3000}'
}

pub fn is_whitespace(c: char) -> (whitespace: bool)
    ensures
        whitespace == is_whitespace_spec(c),
{
    ('\u{9}' <= c && c <= '\u{d}') || c == ' ' || c == '\u{85}' || c == '\u{a0}' || c == '\u{1680}'
        || ('\u{2000}' <= c && c <= '\u{200a}') || c == '\u{2028}' || c == '\u{2029}' || c
        == '\u{202f}' || c == '\u{205f}' || c == '\u{3000}'
}

/// Index of the first non-whitespace character at or after `from`.
pub open spec fn trim_start_index(text: Seq<char>, from: int) -> int
    decreases text.len() - from,
{
    if from >= text.len() || from < 0 {
        from
    } else if is_whitespace_spec(text[from]) {
        trim_start_index(text, from + 1)
    } else {
        from
    }
}

/// One past the last non-whitespace character at or before `to - 1`.
pub open spec fn trim_end_index(text: Seq<char>, start: int, to: int) -> int
    decreases to - start,
{
    if to <= start {
        to
    } else if is_whitespace_spec(text[to - 1]) {
        trim_end_index(text, start, to - 1)
    } else {
        to
    }
}

/// `str::trim`: without leading and trailing whitespace.
pub open spec fn trim_spec(text: Seq<char>) -> Seq<char> {
    let start = trim_start_index(text, 0);
    text.subrange(start, trim_end_index(text, start, text.len() as int))
}

proof fn lemma_trim_start_bounds(text: Seq<char>, from: int)
    requires
        0 <= from <= text.len(),
    ensures
        from <= trim_start_index(text, from) <= text.len(),
    decreases text.len() - from,
{
    if from < text.len() && is_whitespace_spec(text[from]) {
        lemma_trim_start_bounds(text, from + 1);
    }
}

proof fn lemma_trim_end_bounds(text: Seq<char>, start: int, to: int)
    requires
        start <= to,
    ensures
        start <= trim_end_index(text, start, to) <= to,
    decreases to - start,
{
    if to > start && is_whitespace_spec(text[to - 1]) {
        lemma_trim_end_bounds(text, start, to - 1);
    }
}

/// `text.trim()`.
pub fn trim(text: &str) -> (trimmed: &str)
    ensures
        trimmed@ == trim_spec(text@),
{
    let n = text.unicode_len();
    let mut start: usize = 0;
    proof {
        lemma_trim_start_bounds(text@, 0);
    }
    while start < n && is_whitespace(text.get_char(start))
        invariant
            n == text@.len(),
            start <= n,
            trim_start_index(text@, 0) == trim_start_index(text@, start as int),
        decreases n - start,
    {
        start = start + 1;
    }
    let mut end: usize = n;
    proof {
        lemma_trim_end_bounds(text@, start as int, n as int);
    }
    while end > start && is_whitespace(text.get_char(end - 1))
        invariant
            n == text@.len(),
            start <= end <= n,
            trim_start_index(text@, 0) == start,
            trim_end_index(text@, start as int, n as int) == trim_end_index(text@, start as int, end as int),
        decreases end - start,
    {
        end = end - 1;
    }
    text.substring_char(start, end)
}

/// The text is empty or only whitespace.
pub open spec fn is_blank(text: Seq<char>) -> bool {
    trim_spec(text).len() == 0
}

// ---------------------------------------------------------------------------
// Devices
// ---------------------------------------------------------------------------

/// A device whose transfers are accepted without asking.
#[derive(Debug, Clone, PartialEq, Eq)]
pub struct TrustedTransferDevice {
    pub fingerprint: String,
    pub alias: String,
    /// When it was trusted (RFC 3339).
    pub added_at: String,
}

/// The fingerprints of `devices` (the empty one left out), as a set.
pub open spec fn trusted_fingerprints(devices: Seq<TrustedTransferDevice>) -> Set<Seq<char>> {
    Set::new(
        |fingerprint: Seq<char>|
            fingerprint.len() > 0 && exists|i: int|
                0 <= i < devices.len() && #[trigger] devices[i].fingerprint@ == fingerprint,
    )
}


fn contains_text(texts: &Vec<String>, text: &str) -> (found: bool)
    ensures
        found == text_views(texts@).contains(text@),
{
    let mut i: usize = 0;
    while i < texts.len()
        invariant
            i <= texts@.len(),
            forall|j: int| 0 <= j < i ==> #[trigger] text_views(texts@)[j] != text@,
        decreases texts@.len() - i,
    {
        if text_eq(texts[i].as_str(), text) {
            assert(text_views(texts@)[i as int] == text@);
            return true;
        }
        i = i + 1;
    }
    false
}

/// `trusted_fingerprint_set`: the devices' non-empty fingerprints, each
/// once.
pub fn trusted_fingerprint_set(devices: &Vec<TrustedTransferDevice>) -> (fingerprints: Vec<String>)
    ensures
        text_views(fingerprints@).to_set() == trusted_fingerprints(devices@),
        text_views(fingerprints@).no_duplicates(),
{
    let mut fingerprints: Vec<String> = Vec::new();
    let mut i: usize = 0;
    while i < devices.len()
        invariant
            i <= devices@.len(),
            text_views(fingerprints@).no_duplicates(),
            forall|f: Seq<char>|
                text_views(fingerprints@).contains(f) <==> (f.len() > 0 && exists|j: int|
                    0 <= j < i && #[trigger] devices@[j].fingerprint@ == f),
        decreases devices@.len() - i,
    {
        let fingerprint = &devices[i].fingerprint;
        let ghost before = text_views(fingerprints@);
        if fingerprint.as_str().unicode_len() > 0 && !contains_text(&fingerprints, fingerprint.as_str()) {
            fingerprints.push(fingerprint.clone());
            assert(text_views(fingerprints@) =~= before.push(fingerprint@));
        }
        proof {
            let after = text_views(fingerprints@);
            assert(forall|f: Seq<char>| before.contains(f) ==> after.contains(f)) by {
                assert forall|f: Seq<char>| before.contains(f) implies after.contains(f) by {
                    let k = choose|k: int| 0 <= k < before.len() && before[k] == f;
                    assert(after[k] == f);
                }
            }
            assert forall|f: Seq<char>|
                after.contains(f) <==> (f.len() > 0 && exists|j: int|
                    0 <= j < i + 1 && #[trigger] devices@[j].fingerprint@ == f) by {
                if after.contains(f) {
                    if before.contains(f) {
                        let j = choose|j: int| 0 <= j < i && #[trigger] devices@[j].fingerprint@ == f;
                        assert(devices@[j].fingerprint@ == f);
                    } else {
                        let k = choose|k: int| 0 <= k < after.len() && after[k] == f;
                        assert(k == before.len());
                        assert(f == fingerprint@);
                        assert(devices@[i as int].fingerprint@ == f);
                    }
                }
                if f.len() > 0 && exists|j: int| 0 <= j < i + 1 && #[trigger] devices@[j].fingerprint@ == f {
                    let j = choose|j: int| 0 <= j < i + 1 && #[trigger] devices@[j].fingerprint@ == f;
                    if j < i {
                        assert(before.contains(f));
                    } else {
                        assert(f == fingerprint@);
                        if !before.contains(f) {
                            assert(after.last() == f);
                        }
                    }
                }
            }
        }
        i = i + 1;
    }
    assert(text_views(fingerprints@).to_set() =~= trusted_fingerprints(devices@));
    fingerprints
}

/// A trusted device as the preferences file stores it.
#[derive(Debug, Clone, PartialEq, Eq)]
pub struct StoredTrustedTransferDevice {
    pub fingerprint: String,
    pub alias: String,
    pub added_at: String,
}

/// A trusted device as its three texts: fingerprint, alias, time added.
pub open spec fn device_texts(device: TrustedTransferDevice) -> (Seq<char>, Seq<char>, Seq<char>) {
    (device.fingerprint@, device.alias@, device.added_at@)
}

pub open spec fn stored_device_texts(device: StoredTrustedTransferDevice) -> (Seq<char>, Seq<char>, Seq<char>) {
    (device.fingerprint@, device.alias@, device.added_at@)
}

/// The devices read back from stored ones: a device stored without a
/// fingerprint is dropped (an empty identity would match any device), and
/// a missing alias is replaced by the fingerprint.
pub open spec fn loaded_devices(stored: Seq<(Seq<char>, Seq<char>, Seq<char>)>) -> Seq<(Seq<char>, Seq<char>, Seq<char>)>
    decreases stored.len(),
{
    if stored.len() == 0 {
        seq![]
    } else {
        let rest = loaded_devices(stored.drop_last());
        let (fingerprint, alias, added_at) = stored.last();
        if fingerprint.len() == 0 {
            rest
        } else {
            rest.push((fingerprint, if alias.len() == 0 { fingerprint } else { alias }, added_at))
        }
    }
}

/// `stored_trusted_transfer_devices`: every device, field for field.
pub fn stored_trusted_transfer_devices(devices: &Vec<TrustedTransferDevice>) -> (stored: Vec<StoredTrustedTransferDevice>)
    ensures
        stored@.map_values(|d: StoredTrustedTransferDevice| stored_device_texts(d)) == devices@.map_values(
            |d: TrustedTransferDevice| device_texts(d),
        ),
{
    let mut stored: Vec<StoredTrustedTransferDevice> = Vec::new();
    let mut i: usize = 0;
    while i < devices.len()
        invariant
            i <= devices@.len(),
            stored@.len() == i,
            forall|j: int| 0 <= j < i ==> stored_device_texts(#[trigger] stored@[j]) == device_texts(devices@[j]),
        decreases devices@.len() - i,
    {
        let device = &devices[i];
        stored.push(
            StoredTrustedTransferDevice {
                fingerprint: device.fingerprint.clone(),
                alias: device.alias.clone(),
                added_at: device.added_at.clone(),
            },
        );
        i = i + 1;
    }
    assert(stored@.map_values(|d: StoredTrustedTransferDevice| stored_device_texts(d)) =~= devices@.map_values(
        |d: TrustedTransferDevice| device_texts(d),
    ));
    stored
}

/// `trusted_transfer_devices_from_stored`.
pub fn trusted_transfer_devices_from_stored(stored: &Vec<StoredTrustedTransferDevice>) -> (devices: Vec<TrustedTransferDevice>)
    ensures
        devices@.map_values(|d: TrustedTransferDevice| device_texts(d)) == loaded_devices(
            stored@.map_values(|d: StoredTrustedTransferDevice| stored_device_texts(d)),
        ),
{
    let ghost texts = stored@.map_values(|d: StoredTrustedTransferDevice| stored_device_texts(d));
    let mut devices: Vec<TrustedTransferDevice> = Vec::new();
    let mut i: usize = 0;
    while i < stored.len()
        invariant
            i <= stored@.len(),
            texts == stored@.map_values(|d: StoredTrustedTransferDevice| stored_device_texts(d)),
            devices@.map_values(|d: TrustedTransferDevice| device_texts(d)) == loaded_devices(texts.take(i as int)),
        decreases stored@.len() - i,
    {
        let ghost before = devices@.map_values(|d: TrustedTransferDevice| device_texts(d));
        assert(texts.take(i + 1).drop_last() =~= texts.take(i as int));
        assert(texts.take(i + 1).last() == stored_device_texts(stored@[i as int]));
        let device = &stored[i];
        if device.fingerprint.as_str().unicode_len() > 0 {
            let alias = if device.alias.as_str().unicode_len() == 0 {
                device.fingerprint.clone()
            } else {
                device.alias.clone()
            };
            devices.push(
                TrustedTransferDevice {
                    fingerprint: device.fingerprint.clone(),
                    alias,
                    added_at: device.added_at.clone(),
                },
            );
            assert(devices@.map_values(|d: TrustedTransferDevice| device_texts(d)) =~= before.push(
                device_texts(devices@.last()),
            ));
        }
        i = i + 1;
    }
    assert(texts.take(stored@.len() as int) =~= texts);
    devices
}

/// Every device read back has a fingerprint and an alias.
pub proof fn lemma_loaded_devices_are_identified(stored: Seq<(Seq<char>, Seq<char>, Seq<char>)>)
    ensures
        forall|j: int|
            0 <= j < loaded_devices(stored).len() ==> (#[trigger] loaded_devices(stored)[j]).0.len() > 0
                && loaded_devices(stored)[j].1.len() > 0,
    decreases stored.len(),
{
    if stored.len() > 0 {
        lemma_loaded_devices_are_identified(stored.drop_last());
        let rest = loaded_devices(stored.drop_last());
        let loaded = loaded_devices(stored);
        assert forall|j: int| 0 <= j < loaded.len() implies (#[trigger] loaded[j]).0.len() > 0
            && loaded[j].1.len() > 0 by {
            if j < rest.len() {
                assert(loaded[j] == rest[j]);
            }
        }
    }
}

/// Devices that each have a fingerprint and an alias are read back from
/// storage exactly as they were stored.
pub proof fn lemma_identified_devices_round_trip(devices: Seq<(Seq<char>, Seq<char>, Seq<char>)>)
    requires
        forall|j: int| 0 <= j < devices.len() ==> (#[trigger] devices[j]).0.len() > 0 && devices[j].1.len() > 0,
    ensures
        loaded_devices(devices) == devices,
    decreases devices.len(),
{
    if devices.len() > 0 {
        lemma_identified_devices_round_trip(devices.drop_last());
        assert(devices.drop_last().push(devices.last()) =~= devices);
    }
}

/// `default_transfer_device_alias`: the machine's host name, trimmed, or
/// "Bennu" when there is none.
pub open spec fn default_alias_spec(hostname: Option<Seq<char>>) -> Seq<char> {
    match hostname {
        Some(name) => if trim_spec(name).len() > 0 {
            trim_spec(name)
        } else {
            "Bennu"@
        },
        None => "Bennu"@,
    }
}

pub fn default_transfer_device_alias(hostname: Option<&str>) -> (alias: String)
    ensures
        alias@ == default_alias_spec(match hostname {
            Some(name) => Some(name@),
            None => None,
        }),
{
    match hostname {
        Some(name) => {
            let trimmed = trim(name);
            if trimmed.unicode_len() > 0 {
                return String::from_str(trimmed);
            }
        },
        None => {},
    }
    String::from_str("Bennu")
}

/// The alias a device announces: the configured one unless it is blank,
/// else the host-name default.
pub open spec fn effective_alias_spec(configured: Option<Seq<char>>, hostname: Option<Seq<char>>) -> Seq<char> {
    match configured {
        Some(alias) => if !is_blank(alias) {
            alias
        } else {
            default_alias_spec(hostname)
        },
        None => default_alias_spec(hostname),
    }
}

proof fn lemma_trim_start_index_stops(text: Seq<char>, from: int)
    requires
        0 <= from <= text.len(),
    ensures
        trim_start_index(text, from) < text.len() ==> !is_whitespace_spec(
            text[trim_start_index(text, from)],
        ),
    decreases text.len() - from,
{
    if from < text.len() && is_whitespace_spec(text[from]) {
        lemma_trim_start_index_stops(text, from + 1);
    }
}

proof fn lemma_trim_end_index_stops(text: Seq<char>, start: int, to: int)
    requires
        0 <= start <= to <= text.len(),
    ensures
        trim_end_index(text, start, to) > start ==> !is_whitespace_spec(
            text[trim_end_index(text, start, to) - 1],
        ),
    decreases to - start,
{
    if to > start && is_whitespace_spec(text[to - 1]) {
        lemma_trim_end_index_stops(text, start, to - 1);
    }
}

/// Trimming twice trims nothing more.
pub proof fn lemma_trim_idempotent(text: Seq<char>)
    ensures
        trim_spec(trim_spec(text)) == trim_spec(text),
{
    let start = trim_start_index(text, 0);
    lemma_trim_start_bounds(text, 0);
    lemma_trim_end_bounds(text, start, text.len() as int);
    let end = trim_end_index(text, start, text.len() as int);
    let trimmed = trim_spec(text);
    if trimmed.len() > 0 {
        lemma_trim_start_index_stops(text, 0);
        lemma_trim_end_index_stops(text, start, text.len() as int);
        assert(trimmed[0] == text[start]);
        assert(trimmed[trimmed.len() - 1] == text[end - 1]);
        assert(trim_start_index(trimmed, 0) == 0);
        assert(trim_end_index(trimmed, 0, trimmed.len() as int) == trimmed.len());
        assert(trim_spec(trimmed) =~= trimmed);
    } else {
        assert(trim_spec(trimmed) =~= trimmed);
    }
}

/// The alias a device announces is never blank: a blank setting falls back
/// to the host name, and a blank host name to the product name.
pub proof fn lemma_effective_alias_is_never_blank(configured: Option<Seq<char>>, hostname: Option<Seq<char>>)
    ensures
        !is_blank(effective_alias_spec(configured, hostname)),
{
    let fallback = "Bennu"@;
    reveal_strlit("Bennu");
    assert(!is_whitespace_spec(fallback[0]));
    assert(!is_whitespace_spec(fallback[4]));
    assert(trim_start_index(fallback, 0) == 0);
    assert(trim_end_index(fallback, 0, 5) == 5);
    assert(trim_spec(fallback) =~= fallback);
    match hostname {
        Some(name) => lemma_trim_idempotent(name),
        None => {},
    }
}

/// A direct send to one device and how far it got.
#[derive(Debug, Clone, PartialEq, Eq)]
pub struct DirectSendState {
    pub fingerprint: String,
    pub alias: String,
    pub file_name: String,
    pub file_index: u64,
    pub total_files: u64,
    pub bytes_sent: u64,
    pub file_size: u64,
    /// Set once the send finished: `Err` with the reason when it failed.
    pub outcome: Option<Result<(), String>>,
}

/// A progress report of a direct send.
#[derive(Debug, Clone, PartialEq, Eq)]
pub struct SendProgress {
    pub file_name: String,
    pub file_index: u64,
    pub total_files: u64,
    pub bytes_sent: u64,
    pub file_size: u64,
}

/// Where the QR download session of the transfer window stands.
#[derive(Debug, Clone, PartialEq, Eq)]
pub enum TransferSessionPhase {
    /// The download server is starting.
    Preparing,
    /// The server offers the files at `urls`; with no address `selected`
    /// the window lists them, else it shows the QR code of the selected one.
    Ready { urls: Vec<String>, selected: Option<usize> },
    Failed(String),
}

/// What the QR download server reports.
#[derive(Debug, Clone, Copy, PartialEq, Eq, Structural)]
pub enum QrEvent {
    /// A phone connected.
    Connected,
    /// `bytes_sent` bytes went out so far.
    Progress { bytes_sent: u64 },
    /// Everything was downloaded; the server stopped.
    Finished,
    /// Nobody came in time; the server stopped.
    TimedOut,
}

/// The open transfer window: its QR download session and the direct send
/// shown in it.
#[derive(Debug, Clone, PartialEq, Eq)]
pub struct TransferSession {
    pub phase: TransferSessionPhase,
    pub connected: bool,
    pub bytes_sent: u64,
    pub speed_bytes_per_second: u64,
    /// How the server stopped (`Finished` or `TimedOut`), once it did.
    pub finished: Option<QrEvent>,
    /// The last progress report: bytes sent, and when it came (nanoseconds
    /// on the application's monotonic clock).
    pub last_progress: Option<(u64, u64)>,
    pub direct_send: Option<DirectSendState>,
}

impl TransferSession {
    /// A session whose server is still starting.
    pub fn new() -> (session: TransferSession)
        ensures
            session == (TransferSession {
                phase: TransferSessionPhase::Preparing,
                connected: false,
                bytes_sent: 0,
                speed_bytes_per_second: 0,
                finished: None,
                last_progress: None,
                direct_send: None,
            }),
    {
        TransferSession {
            phase: TransferSessionPhase::Preparing,
            connected: false,
            bytes_sent: 0,
            speed_bytes_per_second: 0,
            finished: None,
            last_progress: None,
            direct_send: None,
        }
    }
}

/// The direct send that a report with `fingerprint` belongs to: the current
/// one, for that device, not finished yet.
pub open spec fn live_send(browser: FileBrowser, fingerprint: Seq<char>) -> bool {
    browser.transfer_session matches Some(session) && session.direct_send matches Some(state)
        && state.fingerprint@ == fingerprint && state.outcome is None
}

/// A progress report of the live send replaces its file, counts and sizes;
/// any other report changes nothing.
pub open spec fn progress_outcome(before: FileBrowser, after: FileBrowser, fingerprint: Seq<char>, progress: SendProgress) -> bool {
    if live_send(before, fingerprint) {
        let session = before.transfer_session->0;
        let state = session.direct_send->0;
        after == (FileBrowser {
            transfer_session: Some(
                TransferSession {
                    direct_send: Some(
                        DirectSendState {
                            file_name: progress.file_name,
                            file_index: progress.file_index,
                            total_files: progress.total_files,
                            bytes_sent: progress.bytes_sent,
                            file_size: progress.file_size,
                            ..state
                        },
                    ),
                    ..session
                },
            ),
            ..before
        })
    } else {
        after == before
    }
}

/// The end of the send shown, when it is for `fingerprint`, is recorded.
pub open spec fn finished_outcome(
    before: FileBrowser,
    after: FileBrowser,
    fingerprint: Seq<char>,
    outcome: Result<(), String>,
) -> bool {
    match before.transfer_session {
        Some(session) => match session.direct_send {
            Some(state) => if state.fingerprint@ == fingerprint {
                after == (FileBrowser {
                    transfer_session: Some(
                        TransferSession {
                            direct_send: Some(DirectSendState { outcome: Some(outcome), ..state }),
                            ..session
                        },
                    ),
                    ..before
                })
            } else {
                after == before
            },
            None => after == before,
        },
        None => after == before,
    }
}

/// Committing the alias field: a blank input goes back to the host-name
/// default; the trimmed input is stored unless it is the alias already
/// stored, in which case nothing changes.
pub open spec fn alias_commit_outcome(before: FileBrowser, after: FileBrowser, changed: bool) -> bool {
    &&& is_blank(before.transfer_device_alias_input@) ==> changed && after.transfer_device_alias is None
    &&& !is_blank(before.transfer_device_alias_input@) ==> {
        let trimmed = trim_spec(before.transfer_device_alias_input@);
        if (before.transfer_device_alias matches Some(configured) && configured@ == trimmed) {
            !changed && after == before
        } else {
            changed && (after.transfer_device_alias matches Some(stored) && stored@ == trimmed)
        }
    }
    &&& after == (FileBrowser { transfer_device_alias: after.transfer_device_alias, ..before })
}

/// Every trusted device with `fingerprint` is forgotten.
pub open spec fn trusted_removal_outcome(before: FileBrowser, after: FileBrowser, fingerprint: Seq<char>) -> bool {
    &&& after.transfer_trusted_devices@ == before.transfer_trusted_devices@.filter(
        |device: TrustedTransferDevice| device.fingerprint@ != fingerprint,
    )
    &&& after == (FileBrowser { transfer_trusted_devices: after.transfer_trusted_devices, ..before })
}

impl FileBrowser {
    /// `accept_direct_send_progress`: records a progress report of the
    /// running send; a late report of an earlier or finished send is
    /// dropped.
    pub fn accept_direct_send_progress(&mut self, fingerprint: String, progress: SendProgress)
        ensures
            progress_outcome(*old(self), *final(self), fingerprint@, progress),
            old(self).collections_well_formed() ==> final(self).collections_well_formed(),
    {
        let mut session = match self.transfer_session.take() {
            Some(session) => session,
            None => return ,
        };
        let mut state = match session.direct_send.take() {
            Some(state) => state,
            None => {
                self.transfer_session = Some(session);
                return ;
            },
        };
        if !text_eq(state.fingerprint.as_str(), fingerprint.as_str()) || state.outcome.is_some() {
            session.direct_send = Some(state);
            self.transfer_session = Some(session);
            return ;
        }
        state.file_name = progress.file_name;
        state.file_index = progress.file_index;
        state.total_files = progress.total_files;
        state.bytes_sent = progress.bytes_sent;
        state.file_size = progress.file_size;
        session.direct_send = Some(state);
        self.transfer_session = Some(session);
    }

    /// `accept_direct_send_finished`: records how the send to `fingerprint`
    /// ended; a report for another device is dropped.
    pub fn accept_direct_send_finished(&mut self, fingerprint: String, outcome: Result<(), String>)
        ensures
            finished_outcome(*old(self), *final(self), fingerprint@, outcome),
            old(self).collections_well_formed() ==> final(self).collections_well_formed(),
    {
        let mut session = match self.transfer_session.take() {
            Some(session) => session,
            None => return ,
        };
        let mut state = match session.direct_send.take() {
            Some(state) => state,
            None => {
                self.transfer_session = Some(session);
                return ;
            },
        };
        if text_eq(state.fingerprint.as_str(), fingerprint.as_str()) {
            state.outcome = Some(outcome);
        }
        session.direct_send = Some(state);
        self.transfer_session = Some(session);
    }

    /// `effective_transfer_device_alias`: the configured alias unless it is
    /// blank, else the host-name default (`hostname` is the machine's host
    /// name, when it could be read).
    pub fn effective_transfer_device_alias(&self, hostname: Option<&str>) -> (alias: String)
        ensures
            alias@ == effective_alias_spec(
                match self.transfer_device_alias {
                    Some(configured) => Some(configured@),
                    None => None,
                },
                match hostname {
                    Some(name) => Some(name@),
                    None => None,
                },
            ),
    {
        match &self.transfer_device_alias {
            Some(configured) => {
                if trim(configured.as_str()).unicode_len() > 0 {
                    return configured.clone();
                }
            },
            None => {},
        }
        default_transfer_device_alias(hostname)
    }

    /// `commit_transfer_device_alias`: stores the trimmed alias input (a
    /// blank input goes back to the host-name default); says whether the
    /// setting changed, which restarts the service and saves the settings.
    pub fn commit_transfer_device_alias(&mut self) -> (changed: bool)
        ensures
            alias_commit_outcome(*old(self), *final(self), changed),
            old(self).collections_well_formed() ==> final(self).collections_well_formed(),
    {
        let trimmed = String::from_str(trim(self.transfer_device_alias_input.as_str()));
        if trimmed.as_str().unicode_len() == 0 {
            self.transfer_device_alias = None;
            return true;
        }
        let unchanged = match &self.transfer_device_alias {
            Some(configured) => text_eq(configured.as_str(), trimmed.as_str()),
            None => false,
        };
        if unchanged {
            return false;
        }
        self.transfer_device_alias = Some(trimmed);
        true
    }

    /// `remove_trusted_transfer_device`: forgets every trusted device with
    /// `fingerprint`, so that its next transfer asks again.
    pub fn remove_trusted_transfer_device(&mut self, fingerprint: &str)
        ensures
            trusted_removal_outcome(*old(self), *final(self), fingerprint@),
            old(self).collections_well_formed() ==> final(self).collections_well_formed(),
    {
        let ghost original = self.transfer_trusted_devices@;
        let mut rest: Vec<TrustedTransferDevice> = Vec::new();
        std::mem::swap(&mut rest, &mut self.transfer_trusted_devices);
        let mut kept: Vec<TrustedTransferDevice> = Vec::new();
        while rest.len() > 0
            invariant
                rest@.len() <= original.len(),
                rest@ == original.skip(original.len() - rest@.len()),
                kept@ == original.take(original.len() - rest@.len()).filter(
                    |device: TrustedTransferDevice| device.fingerprint@ != fingerprint@,
                ),
            decreases rest@.len(),
        {
            let ghost done = original.len() - rest@.len();
            let ghost prefix = original.take(done + 1);
            assert(prefix.drop_last() =~= original.take(done));
            assert(prefix.last() == rest@[0]);
            let device = rest.remove(0);
            assert(rest@ =~= original.skip(original.len() - rest@.len()));
            proof {
                reveal(Seq::filter);
            }
            if !text_eq(device.fingerprint.as_str(), fingerprint) {
                kept.push(device);
            }
        }
        assert(original.take(original.len() as int) =~= original);
        self.transfer_trusted_devices = kept;
    }
}

// ---------------------------------------------------------------------------
// The receiving service
// ---------------------------------------------------------------------------

/// A device seen on the local network.
#[derive(Debug, Clone, PartialEq, Eq)]
pub struct DeviceInfo {
    pub fingerprint: String,
    pub alias: String,
}

/// A transfer from an untrusted device, waiting for the user's answer.
#[derive(Debug, Clone, PartialEq, Eq)]
pub struct IncomingTransferConfirmation {
    pub device: DeviceInfo,
    pub session_id: String,
    /// Names of the offered files.
    pub files: Vec<String>,
    pub remember_device: bool,
}

/// The running receive service, as far as the browser keeps track of it.
#[derive(Debug, Clone, PartialEq, Eq)]
pub struct TransferRuntime {
    /// Devices currently seen, each once by fingerprint.
    pub devices: Vec<DeviceInfo>,
    /// Counts the starts of the service, so that the subscription to its
    /// events is renewed with each start.
    pub generation: u64,
}

/// What the receive service reports.
#[derive(Debug, Clone, PartialEq, Eq)]
pub enum ServiceEvent {
    DeviceSeen(DeviceInfo),
    DeviceLost(DeviceInfo),
    IncomingRequest { device: DeviceInfo, session_id: String, files: Vec<String> },
    RequestAccepted,
    RequestRejected,
    ReceiveProgress,
    ReceiveFinished { saved_paths: Vec<FsPath>, failed: Vec<(String, String)> },
    ServiceError(String),
}

/// What the browser asks of the service or the desktop in turn.
#[derive(Debug, Clone, PartialEq, Eq)]
pub enum TransferServiceAction {
    AcceptSession { session_id: String, remember_device: bool },
    RejectSession { session_id: String },
    /// Add the device to the service's trusted set and save the settings.
    TrustDevice { fingerprint: String },
    /// Tell the user, while the application is in the background, how many
    /// files were saved and how many failed.
    NotifyReceiveFinished { saved: usize, failed: usize },
}

/// Position of the first device with `fingerprint`, searching from `from`.
pub open spec fn device_position_from(devices: Seq<DeviceInfo>, fingerprint: Seq<char>, from: int) -> Option<int>
    decreases devices.len() - from,
{
    if from < 0 || from >= devices.len() {
        None
    } else if devices[from].fingerprint@ == fingerprint {
        Some(from)
    } else {
        device_position_from(devices, fingerprint, from + 1)
    }
}

pub open spec fn device_position(devices: Seq<DeviceInfo>, fingerprint: Seq<char>) -> Option<int> {
    device_position_from(devices, fingerprint, 0)
}

proof fn lemma_device_position_bounds(devices: Seq<DeviceInfo>, fingerprint: Seq<char>, from: int)
    requires
        0 <= from,
    ensures
        device_position_from(devices, fingerprint, from) matches Some(i) ==> from <= i < devices.len(),
    decreases devices.len() - from,
{
    if from < devices.len() && devices[from].fingerprint@ != fingerprint {
        lemma_device_position_bounds(devices, fingerprint, from + 1);
    }
}

/// A device report: the entry with its fingerprint is replaced, or the
/// device is added.
pub open spec fn device_seen(devices: Seq<DeviceInfo>, device: DeviceInfo) -> Seq<DeviceInfo> {
    match device_position(devices, device.fingerprint@) {
        Some(i) => devices.update(i, device),
        None => devices.push(device),
    }
}

/// A device lost: every entry with its fingerprint goes.
pub open spec fn device_lost(devices: Seq<DeviceInfo>, fingerprint: Seq<char>) -> Seq<DeviceInfo> {
    devices.filter(|d: DeviceInfo| d.fingerprint@ != fingerprint)
}

pub open spec fn trusts(devices: Seq<TrustedTransferDevice>, fingerprint: Seq<char>) -> bool {
    exists|i: int| 0 <= i < devices.len() && #[trigger] devices[i].fingerprint@ == fingerprint
}

fn trusted_contains(devices: &Vec<TrustedTransferDevice>, fingerprint: &str) -> (found: bool)
    ensures
        found == trusts(devices@, fingerprint@),
{
    let mut i: usize = 0;
    while i < devices.len()
        invariant
            i <= devices@.len(),
            forall|j: int| 0 <= j < i ==> #[trigger] devices@[j].fingerprint@ != fingerprint@,
        decreases devices@.len() - i,
    {
        if text_eq(devices[i].fingerprint.as_str(), fingerprint) {
            assert(devices@[i as int].fingerprint@ == fingerprint@);
            return true;
        }
        i = i + 1;
    }
    false
}

fn find_device(devices: &Vec<DeviceInfo>, fingerprint: &str) -> (position: Option<usize>)
    ensures
        position matches Some(p) ==> p < devices@.len(),
        match device_position(devices@, fingerprint@) {
            Some(i) => position matches Some(p) && p as int == i,
            None => position is None,
        },
{
    proof {
        lemma_device_position_bounds(devices@, fingerprint@, 0);
    }
    let mut i: usize = 0;
    while i < devices.len()
        invariant
            i <= devices@.len(),
            device_position(devices@, fingerprint@) == device_position_from(devices@, fingerprint@, i as int),
        decreases devices@.len() - i,
    {
        if text_eq(devices[i].fingerprint.as_str(), fingerprint) {
            return Some(i);
        }
        i = i + 1;
    }
    None
}

/// What answering the waiting request does (see `confirm_incoming_transfer`).
pub open spec fn confirm_outcome(
    before: FileBrowser,
    after: FileBrowser,
    accept: bool,
    added_at: String,
    actions: Seq<TransferServiceAction>,
) -> bool {
    match before.incoming_transfer {
        None => after == before && actions.len() == 0,
        Some(incoming) => if before.transfer_runtime is None {
            after == (FileBrowser { incoming_transfer: None, ..before }) && actions.len() == 0
        } else if !accept {
            &&& after == (FileBrowser { incoming_transfer: None, ..before })
            &&& actions == seq![TransferServiceAction::RejectSession { session_id: incoming.session_id }]
        } else if incoming.remember_device && !trusts(
            before.transfer_trusted_devices@,
            incoming.device.fingerprint@,
        ) {
            &&& after == (FileBrowser {
                incoming_transfer: None,
                transfer_trusted_devices: after.transfer_trusted_devices,
                ..before
            })
            &&& after.transfer_trusted_devices@ == before.transfer_trusted_devices@.push(
                TrustedTransferDevice {
                    fingerprint: after.transfer_trusted_devices@.last().fingerprint,
                    alias: after.transfer_trusted_devices@.last().alias,
                    added_at,
                },
            )
            &&& after.transfer_trusted_devices@.last().fingerprint@ == incoming.device.fingerprint@
            &&& after.transfer_trusted_devices@.last().alias@ == incoming.device.alias@
            &&& actions.len() == 2
            &&& actions[0] == (TransferServiceAction::AcceptSession {
                session_id: incoming.session_id,
                remember_device: true,
            })
            &&& actions[1] matches TransferServiceAction::TrustDevice { fingerprint }
                && fingerprint@ == incoming.device.fingerprint@
        } else {
            &&& after == (FileBrowser { incoming_transfer: None, ..before })
            &&& actions == seq![
                TransferServiceAction::AcceptSession {
                    session_id: incoming.session_id,
                    remember_device: incoming.remember_device,
                },
            ]
        },
    }
}

/// What a report of the receive service does (see
/// `accept_local_send_service_event`).
pub open spec fn service_event_outcome(
    before: FileBrowser,
    after: FileBrowser,
    event: ServiceEvent,
    action: Option<TransferServiceAction>,
) -> bool {
    match event {
        ServiceEvent::DeviceSeen(device) => action is None && match before.transfer_runtime {
            Some(runtime) => after == (FileBrowser {
                transfer_runtime: after.transfer_runtime,
                ..before
            }) && (after.transfer_runtime matches Some(next) && next.devices@ == device_seen(
                runtime.devices@,
                device,
            ) && next.generation == runtime.generation),
            None => after == before,
        },
        ServiceEvent::DeviceLost(device) => action is None && match before.transfer_runtime {
            Some(runtime) => after == (FileBrowser {
                transfer_runtime: after.transfer_runtime,
                ..before
            }) && (after.transfer_runtime matches Some(next) && next.devices@ == device_lost(
                runtime.devices@,
                device.fingerprint@,
            ) && next.generation == runtime.generation),
            None => after == before,
        },
        ServiceEvent::IncomingRequest { device, session_id, files } => action is None
            && after == (FileBrowser {
            context_menu: None,
            operation_queue: crate::operations::OperationQueue {
                panel_open: false,
                ..before.operation_queue
            },
            file_drag: None,
            file_drop_session: None,
            incoming_transfer: Some(
                IncomingTransferConfirmation { device, session_id, files, remember_device: false },
            ),
            ..before
        }),
        ServiceEvent::ReceiveFinished { saved_paths, failed } => after == before && if before.windows.system_focused is Some || (saved_paths@.len() == 0 && failed@.len() == 0) {
            action is None
        } else {
            action == Some(
                TransferServiceAction::NotifyReceiveFinished {
                    saved: saved_paths@.len() as usize,
                    failed: failed@.len() as usize,
                },
            )
        },
        ServiceEvent::ServiceError(message) => action is None && after == (FileBrowser {
            global_error: Some(message),
            ..before
        }),
        _ => action is None && after == before,
    }
}

impl FileBrowser {
    /// `begin_incoming_transfer_confirmation`: menus, the queue panel and a
    /// running drag are closed, and the request waits for an answer.
    pub fn begin_incoming_transfer_confirmation(&mut self, device: DeviceInfo, session_id: String, files: Vec<String>)
        ensures
            *final(self) == (FileBrowser {
                context_menu: None,
                operation_queue: crate::operations::OperationQueue {
                    panel_open: false,
                    ..old(self).operation_queue
                },
                file_drag: None,
                file_drop_session: None,
                incoming_transfer: Some(
                    IncomingTransferConfirmation { device, session_id, files, remember_device: false },
                ),
                ..*old(self)
            }),
            old(self).collections_well_formed() ==> final(self).collections_well_formed(),
    {
        self.context_menu = None;
        self.operation_queue.close_panel();
        self.file_drag = None;
        self.file_drop_session = None;
        self.incoming_transfer = Some(
            IncomingTransferConfirmation { device, session_id, files, remember_device: false },
        );
    }

    /// `confirm_incoming_transfer`: the answer to the waiting request goes to
    /// the service; accepting with "remember" from a device not trusted yet
    /// also trusts it (recorded as trusted at `added_at`). Without a running
    /// service the request is dropped unanswered.
    pub fn confirm_incoming_transfer(&mut self, accept: bool, added_at: String) -> (actions: Vec<TransferServiceAction>)
        ensures
            confirm_outcome(*old(self), *final(self), accept, added_at, actions@),
            old(self).collections_well_formed() ==> final(self).collections_well_formed(),
    {
        let mut actions: Vec<TransferServiceAction> = Vec::new();
        let incoming = match self.incoming_transfer.take() {
            Some(incoming) => incoming,
            None => return actions,
        };
        if self.transfer_runtime.is_none() {
            return actions;
        }
        if !accept {
            actions.push(TransferServiceAction::RejectSession { session_id: incoming.session_id });
            return actions;
        }
        let remember = incoming.remember_device;
        let newly_trusted = remember && !trusted_contains(
            &self.transfer_trusted_devices,
            incoming.device.fingerprint.as_str(),
        );
        actions.push(
            TransferServiceAction::AcceptSession { session_id: incoming.session_id, remember_device: remember },
        );
        if newly_trusted {
            let fingerprint = incoming.device.fingerprint;
            self.transfer_trusted_devices.push(
                TrustedTransferDevice {
                    fingerprint: fingerprint.clone(),
                    alias: incoming.device.alias,
                    added_at,
                },
            );
            actions.push(TransferServiceAction::TrustDevice { fingerprint });
        }
        actions
    }

    /// `reject_pending_incoming_transfer`: dismissing the prompt rejects the
    /// waiting request (when the service runs).
    pub fn reject_pending_incoming_transfer(&mut self) -> (action: Option<TransferServiceAction>)
        ensures
            *final(self) == (FileBrowser { incoming_transfer: None, ..*old(self) }),
            match old(self).incoming_transfer {
                Some(incoming) => if old(self).transfer_runtime is Some {
                    action == Some(TransferServiceAction::RejectSession { session_id: incoming.session_id })
                } else {
                    action is None
                },
                None => action is None,
            },
            old(self).collections_well_formed() ==> final(self).collections_well_formed(),
    {
        let incoming = match self.incoming_transfer.take() {
            Some(incoming) => incoming,
            None => return None,
        };
        if self.transfer_runtime.is_some() {
            Some(TransferServiceAction::RejectSession { session_id: incoming.session_id })
        } else {
            None
        }
    }

    /// `notify_transfer_receive_finished`: a notification only while no
    /// window of the application has the focus, and only for a session that
    /// saved or failed something.
    pub fn notify_transfer_receive_finished(&self, saved: usize, failed: usize) -> (action: Option<TransferServiceAction>)
        ensures
            if self.windows.system_focused is Some || (saved == 0 && failed == 0) {
                action is None
            } else {
                action == Some(TransferServiceAction::NotifyReceiveFinished { saved, failed })
            },
    {
        if self.windows.system_focused.is_some() || (saved == 0 && failed == 0) {
            None
        } else {
            Some(TransferServiceAction::NotifyReceiveFinished { saved, failed })
        }
    }

    /// `accept_local_send_service_event`.
    pub fn accept_local_send_service_event(&mut self, event: ServiceEvent) -> (action: Option<TransferServiceAction>)
        ensures
            service_event_outcome(*old(self), *final(self), event, action),
            old(self).collections_well_formed() ==> final(self).collections_well_formed(),
    {
        match event {
            ServiceEvent::DeviceSeen(device) => {
                match self.transfer_runtime.take() {
                    Some(mut runtime) => {
                        match find_device(&runtime.devices, device.fingerprint.as_str()) {
                            Some(i) => {
                                runtime.devices.set(i, device);
                            },
                            None => {
                                runtime.devices.push(device);
                            },
                        }
                        self.transfer_runtime = Some(runtime);
                    },
                    None => {},
                }
                None
            },
            ServiceEvent::DeviceLost(device) => {
                match self.transfer_runtime.take() {
                    Some(runtime) => {
                        let ghost original = runtime.devices@;
                        let generation = runtime.generation;
                        let mut rest = runtime.devices;
                        let mut kept: Vec<DeviceInfo> = Vec::new();
                        while rest.len() > 0
                            invariant
                                rest@.len() <= original.len(),
                                rest@ == original.skip(original.len() - rest@.len()),
                                kept@ == original.take(original.len() - rest@.len()).filter(
                                    |d: DeviceInfo| d.fingerprint@ != device.fingerprint@,
                                ),
                            decreases rest@.len(),
                        {
                            let ghost done = original.len() - rest@.len();
                            let ghost prefix = original.take(done + 1);
                            assert(prefix.drop_last() =~= original.take(done));
                            assert(prefix.last() == rest@[0]);
                            let seen = rest.remove(0);
                            assert(rest@ =~= original.skip(original.len() - rest@.len()));
                            proof {
                                reveal(Seq::filter);
                            }
                            if !text_eq(seen.fingerprint.as_str(), device.fingerprint.as_str()) {
                                kept.push(seen);
                            }
                        }
                        assert(original.take(original.len() as int) =~= original);
                        self.transfer_runtime = Some(TransferRuntime { devices: kept, generation });
                    },
                    None => {},
                }
                None
            },
            ServiceEvent::IncomingRequest { device, session_id, files } => {
                self.begin_incoming_transfer_confirmation(device, session_id, files);
                None
            },
            ServiceEvent::ReceiveFinished { saved_paths, failed } => {
                self.notify_transfer_receive_finished(saved_paths.len(), failed.len())
            },
            ServiceEvent::ServiceError(message) => {
                self.show_global_error(message);
                None
            },
            ServiceEvent::RequestAccepted | ServiceEvent::RequestRejected | ServiceEvent::ReceiveProgress => None,
        }
    }
}

// ---------------------------------------------------------------------------
// The transfer window
// ---------------------------------------------------------------------------

/// A file offered by the QR download server, under the name the phone shows.
#[derive(Debug, Clone, PartialEq, Eq)]
pub struct QrItemName {
    pub path: FsPath,
    pub display_name: String,
}

/// The names under which paths are offered for a QR-code transfer: each
/// path is offered under its file name, or its whole text when it has none. (Whether it is sent
/// as a folder archive or a file is read from the disk by the caller.)
pub fn qr_item_names(paths: &Vec<FsPath>) -> (items: Vec<QrItemName>)
    ensures
        items@.len() == paths@.len(),
        forall|i: int|
            0 <= i < paths@.len() ==> (#[trigger] items@[i]).path@ == paths@[i]@
                && items@[i].display_name@ == display_directory_name_spec(paths@[i]@),
{
    let mut items: Vec<QrItemName> = Vec::new();
    let mut i: usize = 0;
    while i < paths.len()
        invariant
            i <= paths@.len(),
            items@.len() == i,
            forall|j: int|
                0 <= j < i ==> (#[trigger] items@[j]).path@ == paths@[j]@
                    && items@[j].display_name@ == display_directory_name_spec(paths@[j]@),
        decreases paths@.len() - i,
    {
        let display_name = display_directory_name(&paths[i]);
        items.push(QrItemName { path: paths[i].duplicate(), display_name });
        i = i + 1;
    }
    items
}

/// What the browser asks of the transfer services and the window system.
#[derive(Debug, Clone, PartialEq, Eq)]
pub enum TransferEffect {
    /// Stop the QR download session that was running.
    CancelQrSession,
    /// Open the transfer window, or raise it.
    OpenTransferWindow,
    /// Start a QR download server offering `items`.
    StartQrSession { items: Vec<QrItemName> },
    /// Send `paths` to `device`, announcing this machine as `display_alias`.
    StartDirectSend { device: DeviceInfo, paths: Vec<FsPath>, display_alias: String },
    /// A request to the receive service.
    Service(TransferServiceAction),
    /// Scan the local network for devices again.
    RefreshDevices,
    /// Let the user pick the directory received files go to.
    ChooseDownloadDirectory,
    /// Restart the receive service with the current settings.
    RestartService,
    /// Save the user's settings.
    PersistPreferences,
    /// Drop `fingerprint` from the running service's trusted set.
    ForgetTrustedFingerprint { fingerprint: String },
}

/// What the browser reads from its surroundings while handling a transfer
/// message.
#[derive(Debug, Clone, PartialEq, Eq)]
pub struct TransferEnvironment {
    /// Now, in nanoseconds on the application's monotonic clock.
    pub now: u64,
    /// The machine's host name, when it could be read.
    pub hostname: Option<String>,
    /// Now, as an RFC 3339 date, for devices trusted at this moment.
    pub added_at: String,
}

/// The messages of the transfer window and of the transfer services.
#[derive(Debug, PartialEq, Eq)]
pub enum TransferMessage {
    SendToPhoneRequested,
    QrSessionStarted { urls: Vec<String> },
    QrAddressSelected(usize),
    QrAddressListRequested,
    QrSessionFailed(String),
    QrEvent(QrEvent),
    SendToDevicePressed(DeviceInfo),
    DirectSendProgress { fingerprint: String, progress: SendProgress },
    DirectSendFinished { fingerprint: String, outcome: Result<(), String> },
    IncomingRememberToggled(bool),
    IncomingConfirmed { accept: bool },
    ServiceEvent(ServiceEvent),
    /// The service's event stream fell behind: the device list is rebuilt.
    DevicesRefreshRequested,
    /// The refresh button: the device list is rebuilt after a new scan.
    RefreshDevicesRequested,
    DownloadDirChooserPressed,
    DownloadDirChosen(Result<Option<FsPath>, String>),
    DeviceAliasInputChanged(String),
    DeviceAliasCommitted,
    TrustedDeviceRemoved(String),
}

pub open spec fn qr_items_match(items: Seq<QrItemName>, paths: Seq<FsPath>) -> bool {
    &&& items.len() == paths.len()
    &&& forall|i: int|
        0 <= i < paths.len() ==> (#[trigger] items[i]).path@ == paths[i]@ && items[i].display_name@
            == display_directory_name_spec(paths[i]@)
}

/// Opening a QR download session for the selection: nothing without a
/// selection; else a running session is stopped, menus, the queue panel and
/// a drag are closed, a fresh session starts preparing, the window opens and
/// the server is started for the selected paths.
pub open spec fn qr_session_begun(before: FileBrowser, after: FileBrowser, effects: Seq<TransferEffect>) -> bool {
    if before.selected_paths@.len() == 0 {
        after == before && effects.len() == 0
    } else {
        let rest = if before.transfer_session is Some {
            effects.drop_first()
        } else {
            effects
        };
        &&& after == (FileBrowser {
            context_menu: None,
            operation_queue: crate::operations::OperationQueue {
                panel_open: false,
                ..before.operation_queue
            },
            file_drag: None,
            file_drop_session: None,
            transfer_session: Some(
                TransferSession {
                    phase: TransferSessionPhase::Preparing,
                    connected: false,
                    bytes_sent: 0,
                    speed_bytes_per_second: 0,
                    finished: None,
                    last_progress: None,
                    direct_send: None,
                },
            ),
            ..before
        })
        &&& before.transfer_session is Some ==> effects.len() > 0 && effects[0] == TransferEffect::CancelQrSession
        &&& rest.len() == 2
        &&& rest[0] == TransferEffect::OpenTransferWindow
        &&& rest[1] matches TransferEffect::StartQrSession { items } && qr_items_match(
            items@,
            before.selected_paths@,
        )
    }
}

/// The speed of a transfer that sent `sent` bytes in `elapsed` nanoseconds,
/// in bytes per second (rounded down, at most `u64::MAX`).
pub open spec fn bytes_per_second(sent: int, elapsed: int) -> u64 {
    let speed = sent * 1_000_000_000 / elapsed;
    if speed > u64::MAX {
        u64::MAX
    } else {
        speed as u64
    }
}

/// The speed after a progress report of `bytes_sent` at `now`: measured
/// against the previous report when more than 50 ms passed since it and
/// the count did not go back; else the speed shown stays.
pub open spec fn next_speed(session: TransferSession, bytes_sent: u64, now: u64) -> u64 {
    match session.last_progress {
        Some((last_bytes, last_at)) => if now > last_at && now - last_at > 50_000_000 && bytes_sent
            >= last_bytes {
            bytes_per_second(bytes_sent - last_bytes, now - last_at)
        } else {
            session.speed_bytes_per_second
        },
        None => session.speed_bytes_per_second,
    }
}

/// What a report of the QR download server does to the open session.
pub open spec fn qr_event_outcome(before: FileBrowser, after: FileBrowser, event: QrEvent, now: u64) -> bool {
    match before.transfer_session {
        None => after == before,
        Some(session) => after == (FileBrowser {
            transfer_session: Some(
                match event {
                    QrEvent::Connected => TransferSession { connected: true, ..session },
                    QrEvent::Progress { bytes_sent } => TransferSession {
                        speed_bytes_per_second: next_speed(session, bytes_sent, now),
                        last_progress: Some((bytes_sent, now)),
                        bytes_sent,
                        ..session
                    },
                    _ => TransferSession { finished: Some(event), ..session },
                },
            ),
            ..before
        }),
    }
}

/// Starting a direct send of the selection to `device`: nothing without a
/// selection or without an open transfer window; else the window shows the
/// send from its start and the send is started under the effective alias.
pub open spec fn direct_send_begun(
    before: FileBrowser,
    after: FileBrowser,
    device: DeviceInfo,
    hostname: Option<Seq<char>>,
    effect: Option<TransferEffect>,
) -> bool {
    if before.selected_paths@.len() == 0 || before.transfer_session is None {
        after == before && effect is None
    } else {
        &&& after == (FileBrowser {
            transfer_session: Some(
                TransferSession {
                    direct_send: Some(
                        DirectSendState {
                            fingerprint: after.transfer_session->0.direct_send->0.fingerprint,
                            alias: after.transfer_session->0.direct_send->0.alias,
                            file_name: after.transfer_session->0.direct_send->0.file_name,
                            file_index: 0,
                            total_files: 0,
                            bytes_sent: 0,
                            file_size: 0,
                            outcome: None,
                        },
                    ),
                    ..before.transfer_session->0
                },
            ),
            ..before
        })
        &&& after.transfer_session->0.direct_send->0.fingerprint@ == device.fingerprint@
        &&& after.transfer_session->0.direct_send->0.alias@ == device.alias@
        &&& after.transfer_session->0.direct_send->0.file_name@.len() == 0
        &&& effect matches Some(TransferEffect::StartDirectSend { device: sent_to, paths, display_alias })
            && sent_to == device && path_views(paths@) == path_views(before.selected_paths@)
            && display_alias@ == effective_alias_spec(
            match before.transfer_device_alias {
                Some(configured) => Some(configured@),
                None => None,
            },
            hostname,
        )
    }
}

/// The directory picked for received files: stored, after which the
/// service restarts and the settings are saved; a cancelled pick changes
/// nothing; a failed one shows its error.
pub open spec fn download_dir_outcome(
    before: FileBrowser,
    after: FileBrowser,
    outcome: Result<Option<FsPath>, String>,
    effects: Seq<TransferEffect>,
) -> bool {
    match outcome {
        Ok(Some(directory)) => {
            &&& after == (FileBrowser { transfer_download_dir: Some(directory), ..before })
            &&& effects == seq![TransferEffect::RestartService, TransferEffect::PersistPreferences]
        },
        Ok(None) => after == before && effects.len() == 0,
        Err(error) => after == (FileBrowser { global_error: Some(error), ..before }) && effects.len() == 0,
    }
}

pub open spec fn service_effects(actions: Seq<TransferServiceAction>) -> Seq<TransferEffect> {
    actions.map_values(|action: TransferServiceAction| TransferEffect::Service(action))
}

pub open spec fn optional_service_effect(action: Option<TransferServiceAction>) -> Seq<TransferEffect> {
    match action {
        Some(a) => seq![TransferEffect::Service(a)],
        None => Seq::empty(),
    }
}

/// The session with its phase changed by `change`, when a window is open.
pub open spec fn with_session_phase(before: FileBrowser, phase: TransferSessionPhase) -> FileBrowser {
    match before.transfer_session {
        Some(session) => FileBrowser {
            transfer_session: Some(TransferSession { phase, ..session }),
            ..before
        },
        None => before,
    }
}

/// The device list of the running service emptied.
pub open spec fn devices_cleared(before: FileBrowser, after: FileBrowser) -> bool {
    match before.transfer_runtime {
        Some(runtime) => {
            &&& after == (FileBrowser { transfer_runtime: after.transfer_runtime, ..before })
            &&& after.transfer_runtime matches Some(next) && next.devices@.len() == 0 && next.generation
                == runtime.generation
        },
        None => after == before,
    }
}

pub open spec fn option_text(text: Option<String>) -> Option<Seq<char>> {
    match text {
        Some(t) => Some(t@),
        None => None,
    }
}

/// What `handle_transfer_message` does with each message.
pub open spec fn transfer_message_outcome(
    before: FileBrowser,
    after: FileBrowser,
    message: TransferMessage,
    environment: TransferEnvironment,
    effects: Seq<TransferEffect>,
) -> bool {
    match message {
        TransferMessage::SendToPhoneRequested => qr_session_begun(before, after, effects),
        TransferMessage::QrSessionStarted { urls } => effects.len() == 0 && after == with_session_phase(
            before,
            TransferSessionPhase::Ready { urls, selected: None },
        ),
        TransferMessage::QrAddressSelected(index) => effects.len() == 0 && match before.transfer_session {
            Some(session) => match session.phase {
                TransferSessionPhase::Ready { urls, selected } => if index < urls@.len() {
                    after == with_session_phase(before, TransferSessionPhase::Ready { urls, selected: Some(index) })
                } else {
                    after == before
                },
                _ => after == before,
            },
            None => after == before,
        },
        TransferMessage::QrAddressListRequested => effects.len() == 0 && match before.transfer_session {
            Some(session) => match session.phase {
                TransferSessionPhase::Ready { urls, selected } => after == with_session_phase(
                    before,
                    TransferSessionPhase::Ready { urls, selected: None },
                ),
                _ => after == before,
            },
            None => after == before,
        },
        TransferMessage::QrSessionFailed(error) => effects.len() == 0 && after == with_session_phase(
            before,
            TransferSessionPhase::Failed(error),
        ),
        TransferMessage::QrEvent(event) => effects.len() == 0 && qr_event_outcome(before, after, event, environment.now),
        TransferMessage::SendToDevicePressed(device) => exists|effect: Option<TransferEffect>|
            #[trigger] direct_send_begun(before, after, device, option_text(environment.hostname), effect) && effects == match effect {
                Some(e) => seq![e],
                None => Seq::<TransferEffect>::empty(),
            },
        TransferMessage::DirectSendProgress { fingerprint, progress } => effects.len() == 0 && progress_outcome(
            before,
            after,
            fingerprint@,
            progress,
        ),
        TransferMessage::DirectSendFinished { fingerprint, outcome } => effects.len() == 0 && finished_outcome(
            before,
            after,
            fingerprint@,
            outcome,
        ),
        TransferMessage::IncomingRememberToggled(remember) => effects.len() == 0 && match before.incoming_transfer {
            Some(incoming) => after == (FileBrowser {
                incoming_transfer: Some(IncomingTransferConfirmation { remember_device: remember, ..incoming }),
                ..before
            }),
            None => after == before,
        },
        TransferMessage::IncomingConfirmed { accept } => exists|actions: Seq<TransferServiceAction>|
            #[trigger] confirm_outcome(before, after, accept, environment.added_at, actions) && effects == service_effects(
                actions,
            ),
        TransferMessage::ServiceEvent(event) => exists|action: Option<TransferServiceAction>|
            #[trigger] service_event_outcome(before, after, event, action) && effects == optional_service_effect(action),
        TransferMessage::DevicesRefreshRequested => effects.len() == 0 && devices_cleared(before, after),
        TransferMessage::RefreshDevicesRequested => devices_cleared(before, after) && if before.transfer_runtime is Some {
            effects == seq![TransferEffect::RefreshDevices]
        } else {
            effects.len() == 0
        },
        TransferMessage::DownloadDirChooserPressed => after == before && effects == seq![
            TransferEffect::ChooseDownloadDirectory,
        ],
        TransferMessage::DownloadDirChosen(outcome) => download_dir_outcome(before, after, outcome, effects),
        TransferMessage::DeviceAliasInputChanged(value) => effects.len() == 0 && after == (FileBrowser {
            transfer_device_alias_input: value,
            ..before
        }),
        TransferMessage::DeviceAliasCommitted => exists|changed: bool|
            #[trigger] alias_commit_outcome(before, after, changed) && effects == if changed {
                seq![TransferEffect::RestartService, TransferEffect::PersistPreferences]
            } else {
                Seq::<TransferEffect>::empty()
            },
        TransferMessage::TrustedDeviceRemoved(fingerprint) => {
            &&& trusted_removal_outcome(before, after, fingerprint@)
            &&& if before.transfer_runtime is Some {
                &&& effects.len() == 2
                &&& effects[0] matches TransferEffect::ForgetTrustedFingerprint { fingerprint: forgotten }
                    && forgotten@ == fingerprint@
                &&& effects[1] == TransferEffect::PersistPreferences
            } else {
                effects == seq![TransferEffect::PersistPreferences]
            }
        },
    }
}

/// A new start of the receive service: the old one is gone with its
/// waiting request, and the new one counts one start more.
pub open spec fn restart_generation(before: FileBrowser) -> u64 {
    match before.transfer_runtime {
        Some(runtime) => runtime.generation.wrapping_add(1),
        None => 0,
    }
}

/// The messages of the transfer window's sending side.
pub open spec fn session_message(message: TransferMessage) -> bool {
    match message {
        TransferMessage::SendToPhoneRequested | TransferMessage::QrSessionStarted { .. }
        | TransferMessage::QrAddressSelected(_) | TransferMessage::QrAddressListRequested
        | TransferMessage::QrSessionFailed(_) | TransferMessage::QrEvent(_)
        | TransferMessage::SendToDevicePressed(_) | TransferMessage::DirectSendProgress { .. }
        | TransferMessage::DirectSendFinished { .. } => true,
        _ => false,
    }
}

fn is_session_message(message: &TransferMessage) -> (session: bool)
    ensures
        session == session_message(*message),
{
    match message {
        TransferMessage::SendToPhoneRequested | TransferMessage::QrSessionStarted { .. }
        | TransferMessage::QrAddressSelected(_) | TransferMessage::QrAddressListRequested
        | TransferMessage::QrSessionFailed(_) | TransferMessage::QrEvent(_)
        | TransferMessage::SendToDevicePressed(_) | TransferMessage::DirectSendProgress { .. }
        | TransferMessage::DirectSendFinished { .. } => true,
        _ => false,
    }
}

fn set_session_phase(session: &mut Option<TransferSession>, phase: TransferSessionPhase)
    ensures
        *final(session) == match *old(session) {
            Some(s) => Some(TransferSession { phase, ..s }),
            None => None,
        },
{
    if let Some(mut current) = session.take() {
        current.phase = phase;
        *session = Some(current);
    }
}

/// Picks the QR address `index` (within the list), or goes back to the
/// list with `None`, while the session is ready.
fn select_qr_address(session: &mut Option<TransferSession>, index: Option<usize>)
    ensures
        *final(session) == match *old(session) {
            Some(s) => match s.phase {
                TransferSessionPhase::Ready { urls, selected } => match index {
                    Some(i) => if i < urls@.len() {
                        Some(TransferSession { phase: TransferSessionPhase::Ready { urls, selected: Some(i) }, ..s })
                    } else {
                        Some(s)
                    },
                    None => Some(TransferSession { phase: TransferSessionPhase::Ready { urls, selected: None }, ..s }),
                },
                _ => Some(s),
            },
            None => None,
        },
{
    if let Some(mut current) = session.take() {
        let phase = current.phase;
        current.phase = match phase {
            TransferSessionPhase::Ready { urls, selected } => match index {
                Some(i) => if i < urls.len() {
                    TransferSessionPhase::Ready { urls, selected: Some(i) }
                } else {
                    TransferSessionPhase::Ready { urls, selected }
                },
                None => TransferSessionPhase::Ready { urls, selected: None },
            },
            other => other,
        };
        *session = Some(current);
    }
}

fn clear_devices(runtime: &mut Option<TransferRuntime>)
    ensures
        match *old(runtime) {
            Some(r) => *final(runtime) matches Some(next) && next.devices@.len() == 0 && next.generation == r.generation,
            None => *final(runtime) is None,
        },
{
    if let Some(mut current) = runtime.take() {
        current.devices = Vec::new();
        *runtime = Some(current);
    }
}

/// A copy of `paths`.
fn duplicate_paths(paths: &Vec<FsPath>) -> (copy: Vec<FsPath>)
    ensures
        path_views(copy@) == path_views(paths@),
{
    let mut copy: Vec<FsPath> = Vec::new();
    let mut i: usize = 0;
    while i < paths.len()
        invariant
            i <= paths@.len(),
            copy@.len() == i,
            forall|j: int| 0 <= j < i ==> (#[trigger] copy@[j])@ == paths@[j]@,
        decreases paths@.len() - i,
    {
        copy.push(paths[i].duplicate());
        i = i + 1;
    }
    assert(path_views(copy@) =~= path_views(paths@));
    copy
}

impl FileBrowser {
    /// `begin_qr_transfer_session`.
    pub fn begin_qr_transfer_session(&mut self) -> (effects: Vec<TransferEffect>)
        ensures
            qr_session_begun(*old(self), *final(self), effects@),
            old(self).collections_well_formed() ==> final(self).collections_well_formed(),
    {
        let mut effects: Vec<TransferEffect> = Vec::new();
        if self.selected_paths.len() == 0 {
            return effects;
        }
        if self.transfer_session.is_some() {
            effects.push(TransferEffect::CancelQrSession);
        }
        let items = qr_item_names(&self.selected_paths);
        self.context_menu = None;
        self.operation_queue.close_panel();
        self.file_drag = None;
        self.file_drop_session = None;
        self.transfer_session = Some(TransferSession::new());
        effects.push(TransferEffect::OpenTransferWindow);
        effects.push(TransferEffect::StartQrSession { items });
        proof {
            if old(self).transfer_session is Some {
                assert(effects@.drop_first() =~= seq![effects@[1], effects@[2]]);
            }
        }
        effects
    }

    /// `accept_qr_event`: a report of the QR download server updates the
    /// open session (at `now`, for the speed).
    pub fn accept_qr_event(&mut self, event: QrEvent, now: u64)
        ensures
            qr_event_outcome(*old(self), *final(self), event, now),
            old(self).collections_well_formed() ==> final(self).collections_well_formed(),
    {
        let mut session = match self.transfer_session.take() {
            Some(session) => session,
            None => return ,
        };
        match event {
            QrEvent::Connected => {
                session.connected = true;
            },
            QrEvent::Progress { bytes_sent } => {
                match session.last_progress {
                    Some((last_bytes, last_at)) => {
                        if now > last_at && now - last_at > 50_000_000 && bytes_sent >= last_bytes {
                            let sent = bytes_sent - last_bytes;
                            let elapsed = now - last_at;
                            proof {
                                assert(sent * 1_000_000_000 <= u64::MAX * 1_000_000_000) by (nonlinear_arith)
                                    requires
                                        sent <= u64::MAX,
                                ;
                            }
                            let speed = (sent as u128) * 1_000_000_000u128 / (elapsed as u128);
                            session.speed_bytes_per_second = if speed > 0xffff_ffff_ffff_ffffu128 {
                                0xffff_ffff_ffff_ffffu64
                            } else {
                                speed as u64
                            };
                        }
                    },
                    None => {},
                }
                session.last_progress = Some((bytes_sent, now));
                session.bytes_sent = bytes_sent;
            },
            QrEvent::Finished | QrEvent::TimedOut => {
                session.finished = Some(event);
            },
        }
        self.transfer_session = Some(session);
    }

    /// `begin_direct_send`: sends the selection to `device` (`hostname`
    /// is the machine's host name, for the alias announced).
    pub fn begin_direct_send(&mut self, device: DeviceInfo, hostname: Option<&str>) -> (effect: Option<TransferEffect>)
        ensures
            direct_send_begun(
                *old(self),
                *final(self),
                device,
                match hostname {
                    Some(name) => Some(name@),
                    None => None,
                },
                effect,
            ),
            old(self).collections_well_formed() ==> final(self).collections_well_formed(),
    {
        if self.selected_paths.len() == 0 {
            return None;
        }
        let display_alias = self.effective_transfer_device_alias(hostname);
        let mut session = match self.transfer_session.take() {
            Some(session) => session,
            None => return None,
        };
        session.direct_send = Some(
            DirectSendState {
                fingerprint: device.fingerprint.clone(),
                alias: device.alias.clone(),
                file_name: String::new(),
                file_index: 0,
                total_files: 0,
                bytes_sent: 0,
                file_size: 0,
                outcome: None,
            },
        );
        self.transfer_session = Some(session);
        let paths = duplicate_paths(&self.selected_paths);
        Some(TransferEffect::StartDirectSend { device, paths, display_alias })
    }

    /// `accept_transfer_download_dir`.
    pub fn accept_transfer_download_dir(&mut self, outcome: Result<Option<FsPath>, String>) -> (effects: Vec<TransferEffect>)
        ensures
            download_dir_outcome(*old(self), *final(self), outcome, effects@),
            old(self).collections_well_formed() ==> final(self).collections_well_formed(),
    {
        let mut effects: Vec<TransferEffect> = Vec::new();
        match outcome {
            Ok(Some(directory)) => {
                self.transfer_download_dir = Some(directory);
                effects.push(TransferEffect::RestartService);
                effects.push(TransferEffect::PersistPreferences);
                assert(effects@ =~= seq![TransferEffect::RestartService, TransferEffect::PersistPreferences]);
            },
            Ok(None) => {},
            Err(error) => {
                self.show_global_error(error);
            },
        }
        effects
    }

    /// Starts or restarts the local send service, as far as the browser's
    /// state goes: the old service and its waiting request are dropped; returns the generation
    /// of the service about to start.
    pub fn begin_transfer_service_restart(&mut self) -> (generation: u64)
        ensures
            generation == restart_generation(*old(self)),
            *final(self) == (FileBrowser { transfer_runtime: None, incoming_transfer: None, ..*old(self) }),
            old(self).collections_well_formed() ==> final(self).collections_well_formed(),
    {
        let generation = match &self.transfer_runtime {
            Some(runtime) => runtime.generation.wrapping_add(1),
            None => 0,
        };
        self.transfer_runtime = None;
        self.incoming_transfer = None;
        generation
    }

    /// How the start went: a started service is recorded with no devices
    /// seen yet; a failed start shows why.
    pub fn accept_transfer_service_start(&mut self, generation: u64, started: Result<(), String>)
        ensures
            match started {
                Ok(()) => *final(self) == (FileBrowser {
                    transfer_runtime: final(self).transfer_runtime,
                    ..*old(self)
                }) && (final(self).transfer_runtime matches Some(runtime) && runtime.devices@.len() == 0
                    && runtime.generation == generation),
                Err(error) => *final(self) == (FileBrowser {
                    global_error: final(self).global_error,
                    ..*old(self)
                }) && (final(self).global_error matches Some(shown) && shown@
                    == "Could not start transfer service: "@ + error@),
            },
            old(self).collections_well_formed() ==> final(self).collections_well_formed(),
    {
        match started {
            Ok(()) => {
                self.transfer_runtime = Some(TransferRuntime { devices: Vec::new(), generation });
            },
            Err(error) => {
                let mut shown = String::from_str("Could not start transfer service: ");
                shown.append(error.as_str());
                self.show_global_error(shown);
            },
        }
    }

    /// `handle_transfer_message`: handles `message` with what `environment`
    /// says of the clock and the machine, and returns what the services and
    /// the window system have to do.
    pub fn handle_transfer_message(&mut self, message: TransferMessage, environment: TransferEnvironment) -> (effects: Vec<TransferEffect>)
        ensures
            transfer_message_outcome(*old(self), *final(self), message, environment, effects@),
            old(self).collections_well_formed() ==> final(self).collections_well_formed(),
    {
        if is_session_message(&message) {
            self.handle_session_message(message, environment)
        } else {
            self.handle_service_message(message, environment)
        }
    }

    /// The messages of the transfer window's sending side.
    #[verifier::rlimit(60)]
    fn handle_session_message(&mut self, message: TransferMessage, environment: TransferEnvironment) -> (effects: Vec<TransferEffect>)
        requires
            session_message(message),
        ensures
            transfer_message_outcome(*old(self), *final(self), message, environment, effects@),
    {
        let mut effects: Vec<TransferEffect> = Vec::new();
        match message {
            TransferMessage::SendToPhoneRequested => {
                return self.begin_qr_transfer_session();
            },
            TransferMessage::QrSessionStarted { urls } => {
                set_session_phase(&mut self.transfer_session, TransferSessionPhase::Ready { urls, selected: None });
            },
            TransferMessage::QrAddressSelected(index) => {
                select_qr_address(&mut self.transfer_session, Some(index));
            },
            TransferMessage::QrAddressListRequested => {
                select_qr_address(&mut self.transfer_session, None);
            },
            TransferMessage::QrSessionFailed(error) => {
                set_session_phase(&mut self.transfer_session, TransferSessionPhase::Failed(error));
            },
            TransferMessage::QrEvent(event) => {
                self.accept_qr_event(event, environment.now);
            },
            TransferMessage::SendToDevicePressed(device) => {
                let hostname = match &environment.hostname {
                    Some(name) => Some(name.as_str()),
                    None => None,
                };
                assert(match hostname {
                    Some(name) => Some(name@),
                    None => None,
                } == option_text(environment.hostname));
                let effect = self.begin_direct_send(device, hostname);
                if let Some(e) = effect {
                    effects.push(e);
                    assert(effects@ =~= seq![e]);
                }
            },
            TransferMessage::DirectSendProgress { fingerprint, progress } => {
                self.accept_direct_send_progress(fingerprint, progress);
            },
            TransferMessage::DirectSendFinished { fingerprint, outcome } => {
                self.accept_direct_send_finished(fingerprint, outcome);
            },
            _ => {},
        }
        effects
    }

    /// The messages of the receive service and of the transfer settings.
    #[verifier::rlimit(60)]
    fn handle_service_message(&mut self, message: TransferMessage, environment: TransferEnvironment) -> (effects: Vec<TransferEffect>)
        requires
            !session_message(message),
        ensures
            transfer_message_outcome(*old(self), *final(self), message, environment, effects@),
    {
        let mut effects: Vec<TransferEffect> = Vec::new();
        match message {
            TransferMessage::IncomingRememberToggled(remember) => {
                if let Some(mut incoming) = self.incoming_transfer.take() {
                    incoming.remember_device = remember;
                    self.incoming_transfer = Some(incoming);
                }
            },
            TransferMessage::IncomingConfirmed { accept } => {
                let actions = self.confirm_incoming_transfer(accept, environment.added_at);
                let ghost taken = actions@;
                let mut rest = actions;
                while rest.len() > 0
                    invariant
                        rest@.len() <= taken.len(),
                        rest@ == taken.skip(taken.len() - rest@.len()),
                        effects@ == service_effects(taken.take(taken.len() - rest@.len())),
                    decreases rest@.len(),
                {
                    let ghost done = taken.len() - rest@.len();
                    let action = rest.remove(0);
                    effects.push(TransferEffect::Service(action));
                    assert(effects@ =~= service_effects(taken.take(done + 1)));
                    assert(rest@ =~= taken.skip(taken.len() - rest@.len()));
                }
                assert(taken.take(taken.len() as int) =~= taken);
            },
            TransferMessage::ServiceEvent(event) => {
                let action = self.accept_local_send_service_event(event);
                if let Some(a) = action {
                    effects.push(TransferEffect::Service(a));
                    assert(effects@ =~= optional_service_effect(action));
                }
            },
            TransferMessage::DevicesRefreshRequested => {
                clear_devices(&mut self.transfer_runtime);
            },
            TransferMessage::RefreshDevicesRequested => {
                if self.transfer_runtime.is_some() {
                    clear_devices(&mut self.transfer_runtime);
                    effects.push(TransferEffect::RefreshDevices);
                }
            },
            TransferMessage::DownloadDirChooserPressed => {
                effects.push(TransferEffect::ChooseDownloadDirectory);
            },
            TransferMessage::DownloadDirChosen(outcome) => {
                return self.accept_transfer_download_dir(outcome);
            },
            TransferMessage::DeviceAliasInputChanged(value) => {
                self.transfer_device_alias_input = value;
            },
            TransferMessage::DeviceAliasCommitted => {
                let changed = self.commit_transfer_device_alias();
                if changed {
                    effects.push(TransferEffect::RestartService);
                    effects.push(TransferEffect::PersistPreferences);
                    assert(effects@ =~= seq![TransferEffect::RestartService, TransferEffect::PersistPreferences]);
                }
            },
            TransferMessage::TrustedDeviceRemoved(fingerprint) => {
                self.remove_trusted_transfer_device(fingerprint.as_str());
                if self.transfer_runtime.is_some() {
                    effects.push(TransferEffect::ForgetTrustedFingerprint { fingerprint });
                }
                effects.push(TransferEffect::PersistPreferences);
            },
            _ => {},
        }
        effects
    }
}

/// No two devices share a fingerprint.
pub open spec fn fingerprints_unique(devices: Seq<DeviceInfo>) -> bool {
    forall|i: int, j: int|
        0 <= i < j < devices.len() ==> #[trigger] devices[i].fingerprint@ != #[trigger] devices[j].fingerprint@
}

proof fn lemma_device_position_none(devices: Seq<DeviceInfo>, fingerprint: Seq<char>, from: int)
    requires
        0 <= from,
        device_position_from(devices, fingerprint, from) is None,
    ensures
        forall|i: int| from <= i < devices.len() ==> #[trigger] devices[i].fingerprint@ != fingerprint,
    decreases devices.len() - from,
{
    if from < devices.len() {
        lemma_device_position_none(devices, fingerprint, from + 1);
    }
}

proof fn lemma_device_position_found(devices: Seq<DeviceInfo>, fingerprint: Seq<char>, from: int)
    requires
        0 <= from,
    ensures
        device_position_from(devices, fingerprint, from) matches Some(i) ==> devices[i].fingerprint@
            == fingerprint,
    decreases devices.len() - from,
{
    if from < devices.len() && devices[from].fingerprint@ != fingerprint {
        lemma_device_position_found(devices, fingerprint, from + 1);
    }
}

/// The list of nearby devices never holds a device twice: a device seen
/// again replaces its earlier entry.
pub proof fn lemma_seen_devices_stay_unique(devices: Seq<DeviceInfo>, device: DeviceInfo)
    requires
        fingerprints_unique(devices),
    ensures
        fingerprints_unique(device_seen(devices, device)),
        exists|i: int| 0 <= i < device_seen(devices, device).len() && #[trigger] device_seen(devices, device)[i] == device,
{
    lemma_device_position_bounds(devices, device.fingerprint@, 0);
    lemma_device_position_found(devices, device.fingerprint@, 0);
    let after = device_seen(devices, device);
    match device_position(devices, device.fingerprint@) {
        Some(i) => {
            assert(after[i] == device);
        },
        None => {
            lemma_device_position_none(devices, device.fingerprint@, 0);
            assert(after[devices.len() as int] == device);
        },
    }
}

/// A lost device is no longer listed.
pub proof fn lemma_lost_device_is_gone(devices: Seq<DeviceInfo>, fingerprint: Seq<char>)
    ensures
        forall|i: int| 0 <= i < device_lost(devices, fingerprint).len() ==> #[trigger] device_lost(devices, fingerprint)[i].fingerprint@ != fingerprint,
{
    let kept = device_lost(devices, fingerprint);
    assert forall|i: int| 0 <= i < kept.len() implies #[trigger] kept[i].fingerprint@ != fingerprint by {
        devices.filter_lemma(|d: DeviceInfo| d.fingerprint@ != fingerprint);
    }
}

} // verus!
