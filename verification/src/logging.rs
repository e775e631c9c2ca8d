//! Logging settings and the in-memory log: the bounded buffer of recent log
//! lines that the log viewer shows.
//!
//! Bytes written to the in-memory log are collected until a newline
//! completes a line; each complete line is decoded (invalid UTF-8 replaced),
//! stripped of trailing whitespace, and appended to a buffer that keeps only
//! the most recent lines.

use std::collections::VecDeque;

use vstd::prelude::*;
use vstd::utf8::{decode_utf8, valid_utf8};

use crate::text::texts_of;

verus! {

/// The number of log lines that the in-memory buffer keeps by default.
const DEFAULT_MEMORY_LINES: usize = 2000;

/// The minimum severity of the events that are recorded.
#[derive(Debug, Clone, Copy, PartialEq, Eq, Structural)]
pub enum LogLevel {
    Error,
    Warn,
    Info,
    Debug,
    Trace,
}

/// Startup configuration of logging.
#[derive(Debug, Clone)]
pub struct LoggingConfig {
    /// The directory of the log files.
    pub directory: String,
    pub file_prefix: String,
    pub retention_days: usize,
    pub memory_lines: usize,
    pub level: LogLevel,
}

impl Default for LoggingConfig {
    fn default() -> (r: Self)
        ensures
            r.directory@ == "logs"@,
            r.file_prefix@ == "wfide"@,
            r.retention_days == 7,
            r.memory_lines == 2000,
            r.level == LogLevel::Info,
    {
        LoggingConfig {
            directory: "logs".to_owned(),
            file_prefix: "wfide".to_owned(),
            retention_days: 7,
            memory_lines: DEFAULT_MEMORY_LINES,
            level: LogLevel::Info,
        }
    }
}

/// What changing the runtime level from one level to another takes.
#[derive(Debug, Clone, Copy, PartialEq, Eq, Structural)]
pub enum LevelChange {
    /// The requested level is already in effect.
    Unchanged,
    /// The level changes. When `enable_info_first` holds, INFO events are
    /// enabled before the change is recorded, so that the record itself (an
    /// INFO event) is kept.
    Apply { enable_info_first: bool },
}

/// What changing the runtime level from `previous` to `requested` takes:
/// nothing when they are equal; otherwise the change, with INFO enabled
/// first when the previous level is ERROR or WARN.
pub open spec fn spec_level_change(previous: LogLevel, requested: LogLevel) -> LevelChange {
    if previous == requested {
        LevelChange::Unchanged
    } else {
        LevelChange::Apply { enable_info_first: previous == LogLevel::Error || previous == LogLevel::Warn }
    }
}

/// Decides what changing the runtime level from `previous` to `requested`
/// takes: nothing when they are equal; otherwise the change is applied, and
/// when the previous level hides INFO events (ERROR or WARN) INFO is
/// enabled first so that the change is recorded.
pub fn plan_level_change(previous: LogLevel, requested: LogLevel) -> (r: LevelChange)
    ensures
        r == spec_level_change(previous, requested),
{
    if previous == requested {
        LevelChange::Unchanged
    } else {
        LevelChange::Apply {
            enable_info_first: match previous {
                LogLevel::Error | LogLevel::Warn => true,
                _ => false,
            },
        }
    }
}

/// The runtime level that `state` reads: the level in effect once logging
/// is initialized (`Some`), INFO before.
pub open spec fn spec_current_level(state: Option<LogLevel>) -> LogLevel {
    match state {
        Some(level) => level,
        None => LogLevel::Info,
    }
}

/// The level state after logging is initialized with `configured`: only the
/// first initialization sets it.
pub open spec fn spec_init_level(state: Option<LogLevel>, configured: LogLevel) -> Option<LogLevel> {
    match state {
        Some(level) => Some(level),
        None => Some(configured),
    }
}

/// The level state after a change to `level` has been applied: it takes
/// effect once logging is initialized.
pub open spec fn spec_commit_level(state: Option<LogLevel>, level: LogLevel) -> Option<LogLevel> {
    match state {
        Some(_) => Some(level),
        None => None,
    }
}

/// The runtime level of `state`.
pub fn current_level(state: &Option<LogLevel>) -> (r: LogLevel)
    ensures
        r == spec_current_level(*state),
{
    match state {
        Some(level) => *level,
        None => LogLevel::Info,
    }
}

/// Records the configured level when logging is initialized.
pub fn init_level(state: &mut Option<LogLevel>, configured: LogLevel)
    ensures
        *final(state) == spec_init_level(*old(state), configured),
{
    if state.is_none() {
        *state = Some(configured);
    }
}

/// Decides a change of the runtime level to `requested`: it fails when
/// logging is not initialized; otherwise it is planned from the current
/// level as [`plan_level_change`] states.
pub fn begin_level_change(state: &Option<LogLevel>, requested: LogLevel) -> (r: Result<
    LevelChange,
    &'static str,
>)
    ensures
        state is None ==> (r matches Err(m) && m@ == "WFIDE logging is not initialized"@),
        state matches Some(previous) ==> r == Ok::<LevelChange, &'static str>(
            spec_level_change(*previous, requested),
        ),
{
    match state {
        None => {
            proof {
                reveal_strlit("WFIDE logging is not initialized");
            }
            Err("WFIDE logging is not initialized")
        },
        Some(previous) => Ok(plan_level_change(*previous, requested)),
    }
}

/// Records that the runtime level is now `level`, once the change has been
/// applied.
pub fn commit_level(state: &mut Option<LogLevel>, level: LogLevel)
    ensures
        *final(state) == spec_commit_level(*old(state), level),
{
    if state.is_some() {
        *state = Some(level);
    }
}

/// The level state after initialization with `configured` (when `initialized`)
/// and the applied changes `changes`, in order.
pub open spec fn level_history(initialized: bool, configured: LogLevel, changes: Seq<LogLevel>) -> Option<
    LogLevel,
>
    decreases changes.len(),
{
    if changes.len() == 0 {
        if initialized {
            spec_init_level(None, configured)
        } else {
            None
        }
    } else {
        spec_commit_level(level_history(initialized, configured, changes.drop_last()), changes.last())
    }
}

/// The runtime level is the last level whose change was applied, else the
/// configured level, else (before logging is initialized) INFO.
pub proof fn law_level_is_last_applied(initialized: bool, configured: LogLevel, changes: Seq<LogLevel>)
    ensures
        level_history(initialized, configured, changes) is Some == initialized,
        spec_current_level(level_history(initialized, configured, changes)) == if !initialized {
            LogLevel::Info
        } else if changes.len() > 0 {
            changes.last()
        } else {
            configured
        },
    decreases changes.len(),
{
    if changes.len() > 0 {
        law_level_is_last_applied(initialized, configured, changes.drop_last());
    }
}

/// Whether INFO events are recorded at `level`.
pub open spec fn records_info(level: LogLevel) -> bool {
    !(level == LogLevel::Error || level == LogLevel::Warn)
}

/// A change of the runtime level is itself recorded: the level in effect
/// when the change is logged (INFO when the plan enables it first, else the
/// previous level) records INFO events.
pub proof fn law_level_change_is_recorded(previous: LogLevel, requested: LogLevel, enable_info_first: bool)
    requires
        previous != requested,
        enable_info_first == (previous == LogLevel::Error || previous == LogLevel::Warn),
    ensures
        records_info(if enable_info_first { LogLevel::Info } else { previous }),
{
}

/// A change of the runtime level does nothing exactly when the level is
/// already in effect; otherwise it is recorded: the level in effect when the
/// change is logged (INFO when INFO is enabled first, else the previous
/// level) records INFO events, and INFO is enabled first only when the
/// previous level would hide the record.
pub proof fn law_level_change_is_recorded_when_needed(previous: LogLevel, requested: LogLevel)
    ensures
        (spec_level_change(previous, requested) == LevelChange::Unchanged) == (previous == requested),
        spec_level_change(previous, requested) matches LevelChange::Apply { enable_info_first } ==> {
            &&& records_info(if enable_info_first { LogLevel::Info } else { previous })
            &&& enable_info_first == !records_info(previous)
        },
{
}

/// What `String::from_utf8_lossy` decodes `bytes` to.
pub uninterp spec fn utf8_lossy(bytes: Seq<u8>) -> Seq<char>;

/// The number of newline bytes in `bytes`.
pub open spec fn newline_bytes(bytes: Seq<u8>) -> nat
    decreases bytes.len(),
{
    if bytes.len() == 0 {
        0
    } else {
        newline_bytes(bytes.drop_last()) + if bytes.last() == 10u8 {
            1nat
        } else {
            0nat
        }
    }
}

/// The number of newline characters in `chars`.
pub open spec fn newline_chars(chars: Seq<char>) -> nat
    decreases chars.len(),
{
    if chars.len() == 0 {
        0
    } else {
        newline_chars(chars.drop_last()) + if chars.last() == '\n' {
            1nat
        } else {
            0nat
        }
    }
}

/// Decodes `bytes`, replacing invalid UTF-8 sequences.
///
/// Calls `String::from_utf8_lossy`, whose documentation says that valid
/// sequences are kept and each invalid sequence is replaced by U+FFFD. The
/// contract names its result [`utf8_lossy`] and states what follows from
/// that: valid UTF-8 is decoded as it is; a newline byte is always a valid
/// sequence of its own, so the newline characters of the result are as
/// many as the newline bytes, and a final newline byte gives a final
/// newline character. Which sequences count as invalid, and so how many
/// U+FFFD replace them, is left unsaid.
#[verifier::external_body]
fn decode_lossy(bytes: &[u8]) -> (r: String)
    ensures
        r@ == utf8_lossy(bytes@),
        valid_utf8(bytes@) ==> r@ == decode_utf8(bytes@),
        newline_chars(r@) == newline_bytes(bytes@),
        bytes@.len() > 0 && bytes@.last() == 10u8 ==> r@.len() > 0 && r@.last() == '\n',
{
    String::from_utf8_lossy(bytes).into_owned()
}

/// Whether `c` has Unicode's White_Space property, the whitespace that
/// `char::is_whitespace` and `str::trim_end` go by.
pub open spec fn is_white_space(c: char) -> bool {
    let u = c as int;
    ||| 0x09 <= u <= 0x0D
    ||| u == 0x20 || u == 0x85 || u == 0xA0 || u == 0x1680
    ||| 0x2000 <= u <= 0x200A
    ||| u == 0x2028 || u == 0x2029 || u == 0x202F || u == 0x205F || u == 0x3000
}

/// `s` without its trailing whitespace.
pub open spec fn trim_end_spec(s: Seq<char>) -> Seq<char>
    decreases s.len(),
{
    if s.len() > 0 && is_white_space(s.last()) {
        trim_end_spec(s.drop_last())
    } else {
        s
    }
}

/// Removes the trailing whitespace of `s`.
///
/// Calls `str::trim_end`, whose documentation says that it removes the
/// trailing characters with Unicode's White_Space property; the contract
/// states that as [`trim_end_spec`].
#[verifier::external_body]
fn trim_end(s: &str) -> (r: &str)
    ensures
        r@ == trim_end_spec(s@),
{
    s.trim_end()
}

/// The position of the first newline byte of `s`, if any.
pub open spec fn first_newline(s: Seq<u8>) -> Option<nat>
    decreases s.len(),
{
    if s.len() == 0 {
        None
    } else if s[0] == 10u8 {
        Some(0)
    } else {
        match first_newline(s.drop_first()) {
            Some(p) => Some(p + 1),
            None => None,
        }
    }
}

/// Where [`first_newline`] points: at a newline, with none before it.
pub proof fn lemma_first_newline_bound(s: Seq<u8>)
    ensures
        first_newline(s) matches Some(p) ==> p < s.len() && s[p as int] == 10u8 && forall|j: int|
            0 <= j < p ==> s[j] != 10u8,
        first_newline(s) is None ==> forall|j: int| 0 <= j < s.len() ==> s[j] != 10u8,
    decreases s.len(),
{
    if s.len() > 0 && s[0] != 10u8 {
        lemma_first_newline_bound(s.drop_first());
        assert forall|j: int| 1 <= j < s.len() implies s[j] == s.drop_first()[j - 1] by {}
    }
}

proof fn lemma_first_newline_is(s: Seq<u8>, p: int)
    requires
        0 <= p < s.len(),
        s[p] == 10u8,
        forall|j: int| 0 <= j < p ==> s[j] != 10u8,
    ensures
        first_newline(s) == Some(p as nat),
    decreases p,
{
    if p > 0 {
        lemma_first_newline_is(s.drop_first(), p - 1);
    }
}

proof fn lemma_no_newline(s: Seq<u8>)
    requires
        forall|j: int| 0 <= j < s.len() ==> s[j] != 10u8,
    ensures
        first_newline(s) is None,
    decreases s.len(),
{
    if s.len() > 0 {
        lemma_no_newline(s.drop_first());
    }
}

/// The newline-terminated segments of `s`, in order, each with its newline.
pub open spec fn complete_segments(s: Seq<u8>) -> Seq<Seq<u8>>
    decreases s.len(),
{
    match first_newline(s) {
        Some(p) => {
            proof {
                lemma_first_newline_bound(s);
            }
            seq![s.subrange(0, p + 1 as int)] + complete_segments(s.subrange(p + 1 as int, s.len() as int))
        },
        None => Seq::empty(),
    }
}

/// What follows the last newline of `s` (all of `s` when it has none).
pub open spec fn incomplete_tail(s: Seq<u8>) -> Seq<u8>
    decreases s.len(),
{
    match first_newline(s) {
        Some(p) => {
            proof {
                lemma_first_newline_bound(s);
            }
            incomplete_tail(s.subrange(p + 1 as int, s.len() as int))
        },
        None => s,
    }
}

/// The characters that `bytes` decode to: the UTF-8 decoding when `bytes`
/// are valid UTF-8, else the lossy decoding [`utf8_lossy`].
pub open spec fn decoded_text(bytes: Seq<u8>) -> Seq<char> {
    if valid_utf8(bytes) {
        decode_utf8(bytes)
    } else {
        utf8_lossy(bytes)
    }
}

/// The log line that a newline-terminated segment becomes: its decoded
/// text without trailing whitespace.
pub open spec fn log_line(segment: Seq<u8>) -> Seq<char> {
    trim_end_spec(decoded_text(segment))
}

/// The log lines completed in `pending`, in order.
pub open spec fn complete_lines(pending: Seq<u8>) -> Seq<Seq<char>> {
    complete_segments(pending).map_values(|segment: Seq<u8>| log_line(segment))
}

/// The last `n` elements of `s` (all of `s` when it is not longer).
pub open spec fn keep_last<T>(s: Seq<T>, n: nat) -> Seq<T> {
    if s.len() > n {
        s.subrange(s.len() - n, s.len() as int)
    } else {
        s
    }
}

/// The buffer after `lines` are appended to `buffer` with room for
/// `capacity` lines: unchanged when there are no lines; else the last
/// `capacity` of the old lines followed by the new ones.
pub open spec fn buffer_after(buffer: Seq<Seq<char>>, lines: Seq<Seq<char>>, capacity: nat) -> Seq<
    Seq<char>,
> {
    if lines.len() == 0 {
        buffer
    } else {
        keep_last(buffer + lines, capacity)
    }
}

proof fn lemma_keep_last_push<T>(s: Seq<T>, x: T, n: nat)
    requires
        n >= 1,
    ensures
        keep_last(keep_last(s, n).push(x), n) == keep_last(s.push(x), n),
{
    if s.len() > n {
        assert(keep_last(s, n).push(x).subrange(1, n + 1 as int) =~= s.push(x).subrange(
            s.len() + 1 - n,
            s.len() + 1 as int,
        ));
    }
}

proof fn lemma_buffer_after_push(buffer: Seq<Seq<char>>, lines: Seq<Seq<char>>, x: Seq<char>, n: nat)
    requires
        n >= 1,
    ensures
        buffer_after(buffer, lines.push(x), n) == keep_last(buffer_after(buffer, lines, n).push(x), n),
{
    if lines.len() == 0 {
        assert(buffer + lines.push(x) =~= buffer.push(x));
    } else {
        lemma_keep_last_push(buffer + lines, x, n);
        assert(buffer + lines.push(x) =~= (buffer + lines).push(x));
    }
}

/// Appends `line` to `buffer`, first dropping the oldest lines so that at
/// most `capacity` lines remain.
pub fn append_bounded(buffer: &mut VecDeque<String>, line: String, capacity: usize)
    requires
        capacity >= 1,
    ensures
        texts_of(final(buffer)@) == keep_last(texts_of(old(buffer)@).push(line@), capacity as nat),
{
    let ghost start = buffer@;
    while buffer.len() >= capacity
        invariant
            capacity >= 1,
            buffer@.len() <= start.len(),
            start.len() >= capacity ==> buffer@.len() >= capacity - 1,
            start.len() < capacity ==> buffer@.len() == start.len(),
            buffer@ == start.subrange(start.len() - buffer@.len(), start.len() as int),
        decreases buffer.len(),
    {
        let _ = buffer.pop_front();
    }
    let ghost kept = buffer@;
    buffer.push_back(line);
    proof {
        let t = texts_of(start).push(line@);
        if t.len() > capacity {
            assert(texts_of(buffer@) =~= t.subrange(t.len() - capacity, t.len() as int));
        } else {
            assert(kept.len() == start.len());
            assert(texts_of(buffer@) =~= t);
        }
    }
}

/// Whether no line of `lines` holds a newline character.
pub open spec fn lines_hold_no_newline(lines: Seq<Seq<char>>) -> bool {
    forall|i: int, k: int| 0 <= i < lines.len() && 0 <= k < lines[i].len() ==> #[trigger] lines[i][k] != '\n'
}

proof fn lemma_no_newline_bytes(b: Seq<u8>)
    requires
        forall|j: int| 0 <= j < b.len() ==> b[j] != 10u8,
    ensures
        newline_bytes(b) == 0,
    decreases b.len(),
{
    if b.len() > 0 {
        lemma_no_newline_bytes(b.drop_last());
    }
}

proof fn lemma_no_newline_chars(t: Seq<char>)
    requires
        newline_chars(t) == 0,
    ensures
        forall|k: int| 0 <= k < t.len() ==> t[k] != '\n',
    decreases t.len(),
{
    if t.len() > 0 {
        lemma_no_newline_chars(t.drop_last());
        assert forall|k: int| 0 <= k < t.len() implies t[k] != '\n' by {
            if k < t.len() - 1 {
                assert(t[k] == t.drop_last()[k]);
            }
        }
    }
}

/// The line of a newline-terminated segment, decoded to `decoded`, holds
/// no newline when `decoded` has as many newlines as the segment and ends
/// with one.
proof fn lemma_segment_line_no_newline(segment: Seq<u8>, decoded: Seq<char>)
    requires
        segment.len() > 0,
        segment.last() == 10u8,
        forall|j: int| 0 <= j < segment.len() - 1 ==> segment[j] != 10u8,
        newline_chars(decoded) == newline_bytes(segment),
        decoded.len() > 0,
        decoded.last() == '\n',
    ensures
        forall|k: int| 0 <= k < trim_end_spec(decoded).len() ==> #[trigger] trim_end_spec(decoded)[k] != '\n',
{
    lemma_no_newline_bytes(segment.drop_last());
    assert(newline_bytes(segment) == 1);
    assert(newline_chars(decoded.drop_last()) == 0);
    lemma_no_newline_chars(decoded.drop_last());
    assert(is_white_space(decoded.last()));
    assert(trim_end_spec(decoded) == trim_end_spec(decoded.drop_last()));
    lemma_trim_end_prefix(decoded.drop_last());
}

/// Removes the complete lines from `pending` and returns them, decoded and
/// trimmed.
fn take_lines(pending: &mut Vec<u8>) -> (lines: Vec<String>)
    ensures
        texts_of(lines@) == complete_lines(old(pending)@),
        lines_hold_no_newline(complete_lines(old(pending)@)),
        final(pending)@ == incomplete_tail(old(pending)@),
{
    let ghost start = pending@;
    let mut lines: Vec<String> = Vec::new();
    loop
        invariant
            start == old(pending)@,
            complete_lines(start) == texts_of(lines@) + complete_lines(pending@),
            incomplete_tail(start) == incomplete_tail(pending@),
            lines_hold_no_newline(texts_of(lines@)),
        decreases pending@.len(),
    {
        let mut pos: usize = 0;
        while pos < pending.len() && pending[pos] != 10u8
            invariant
                pos <= pending@.len(),
                forall|j: int| 0 <= j < pos ==> pending@[j] != 10u8,
            decreases pending@.len() - pos,
        {
            pos = pos + 1;
        }
        if pos == pending.len() {
            proof {
                lemma_no_newline(pending@);
                assert(complete_lines(pending@) =~= Seq::<Seq<char>>::empty());
                assert(complete_lines(start) =~= texts_of(lines@));
            }
            return lines;
        }
        let ghost s = pending@;
        proof {
            lemma_first_newline_is(s, pos as int);
        }
        let mut rest = pending.split_off(pos + 1);
        std::mem::swap(pending, &mut rest);
        let segment = rest;
        let decoded = decode_lossy(segment.as_slice());
        let line = trim_end(decoded.as_str()).to_owned();
        proof {
            assert(segment@.last() == s[pos as int]);
            assert forall|j: int| 0 <= j < segment@.len() - 1 implies segment@[j] != 10u8 by {
                assert(segment@[j] == s[j]);
            }
            lemma_segment_line_no_newline(segment@, decoded@);
        }
        let ghost before = lines@;
        lines.push(line);
        proof {
            let tail = s.subrange(pos + 1, s.len() as int);
            assert(pending@ == tail);
            assert(segment@ == s.subrange(0, pos + 1));
            assert(complete_segments(s) == seq![segment@] + complete_segments(tail));
            assert(complete_lines(s) =~= seq![log_line(segment@)] + complete_lines(tail));
            assert(texts_of(lines@) =~= texts_of(before).push(log_line(segment@)));
            assert(complete_lines(start) =~= texts_of(lines@) + complete_lines(pending@));
        }
    }
}

/// When neither the buffer nor the new lines hold a newline, the buffer
/// after the lines are appended holds none.
proof fn lemma_buffer_after_no_newline(buffer: Seq<Seq<char>>, lines: Seq<Seq<char>>, capacity: nat)
    ensures
        lines_hold_no_newline(buffer) && lines_hold_no_newline(lines) ==> lines_hold_no_newline(
            buffer_after(buffer, lines, capacity),
        ),
{
    if lines_hold_no_newline(buffer) && lines_hold_no_newline(lines) && lines.len() > 0 {
        let all = buffer + lines;
        let r = buffer_after(buffer, lines, capacity);
        let off: int = if all.len() > capacity { all.len() - capacity } else { 0 };
        assert forall|i: int, k: int| 0 <= i < r.len() && 0 <= k < r[i].len() implies #[trigger] r[i][k]
            != '\n' by {
            assert(r[i] == all[i + off]);
            if i + off < buffer.len() {
                assert(all[i + off] == buffer[i + off]);
            } else {
                assert(all[i + off] == lines[i + off - buffer.len()]);
            }
        }
    }
}

/// The writer side of the in-memory log: the bytes of a line not yet
/// completed, and the number of lines the buffer keeps.
#[derive(Debug)]
pub struct MemoryWriter {
    pending: Vec<u8>,
    capacity: usize,
}

impl MemoryWriter {
    /// The bytes written since the last complete line.
    pub closed spec fn pending(&self) -> Seq<u8> {
        self.pending@
    }

    /// The number of lines the buffer keeps.
    pub closed spec fn capacity(&self) -> nat {
        self.capacity as nat
    }

    /// The writer's invariant: the buffer keeps at least one line.
    #[verifier::type_invariant]
    pub closed spec fn wf(&self) -> bool {
        self.capacity >= 1
    }

    /// A writer with nothing pending that keeps `memory_lines` lines, and at
    /// least one.
    pub fn new(memory_lines: usize) -> (r: Self)
        ensures
            r.wf(),
            r.pending() == Seq::<u8>::empty(),
            r.capacity() == if memory_lines >= 1 { memory_lines as nat } else { 1 },
    {
        MemoryWriter { pending: Vec::new(), capacity: if memory_lines >= 1 { memory_lines } else { 1 } }
    }

    /// Removes the complete lines from the pending bytes and returns them.
    fn take_complete_lines(&mut self) -> (lines: Vec<String>)
        ensures
            texts_of(lines@) == complete_lines(old(self).pending()),
            lines_hold_no_newline(complete_lines(old(self).pending())),
            final(self).pending() == incomplete_tail(old(self).pending()),
            final(self).capacity == old(self).capacity,
    {
        proof {
            use_type_invariant(&*self);
        }
        let mut pending: Vec<u8> = Vec::new();
        std::mem::swap(&mut pending, &mut self.pending);
        let lines = take_lines(&mut pending);
        self.pending = pending;
        lines
    }

    /// Moves every complete pending line into `buffer`, keeping at most the
    /// writer's capacity of lines there.
    pub fn push_complete_lines(&mut self, buffer: &mut VecDeque<String>)
        ensures
            final(self).wf(),
            final(self).capacity() == old(self).capacity(),
            final(self).pending() == incomplete_tail(old(self).pending()),
            texts_of(final(buffer)@) == buffer_after(
                texts_of(old(buffer)@),
                complete_lines(old(self).pending()),
                old(self).capacity(),
            ),
            lines_hold_no_newline(complete_lines(old(self).pending())),
            lines_hold_no_newline(texts_of(old(buffer)@)) ==> lines_hold_no_newline(
                texts_of(final(buffer)@),
            ),
    {
        proof {
            use_type_invariant(&*self);
        }
        let lines = self.take_complete_lines();
        let ghost start = texts_of(buffer@);
        let mut i: usize = 0;
        let ghost all = texts_of(lines@);
        assert(all.subrange(0, 0) =~= Seq::<Seq<char>>::empty());
        while i < lines.len()
            invariant
                self.wf(),
                0 <= i <= lines.len(),
                all == texts_of(lines@),
                texts_of(buffer@) == buffer_after(start, all.subrange(0, i as int), self.capacity as nat),
            decreases lines.len() - i,
        {
            let line = lines[i].clone();
            proof {
                lemma_buffer_after_push(start, all.subrange(0, i as int), line@, self.capacity as nat);
                assert(all.subrange(0, i as int).push(line@) =~= all.subrange(0, i + 1));
            }
            append_bounded(buffer, line, self.capacity);
            i = i + 1;
        }
        assert(all.subrange(0, lines.len() as int) =~= all);
        proof {
            lemma_buffer_after_no_newline(start, all, self.capacity as nat);
        }
    }

    /// Appends `bytes` to the pending bytes and moves the complete lines into
    /// `buffer`; returns the number of bytes taken, which is all of them.
    pub fn write(&mut self, bytes: &[u8], buffer: &mut VecDeque<String>) -> (n: usize)
        ensures
            n == bytes@.len(),
            final(self).wf(),
            final(self).capacity() == old(self).capacity(),
            final(self).pending() == incomplete_tail(old(self).pending() + bytes@),
            texts_of(final(buffer)@) == buffer_after(
                texts_of(old(buffer)@),
                complete_lines(old(self).pending() + bytes@),
                old(self).capacity(),
            ),
            lines_hold_no_newline(complete_lines(old(self).pending() + bytes@)),
            lines_hold_no_newline(texts_of(old(buffer)@)) ==> lines_hold_no_newline(
                texts_of(final(buffer)@),
            ),
    {
        proof {
            use_type_invariant(&*self);
        }
        let mut pending: Vec<u8> = Vec::new();
        std::mem::swap(&mut pending, &mut self.pending);
        pending.extend_from_slice(bytes);
        self.pending = pending;
        assert(self.pending@ =~= old(self).pending() + bytes@);
        self.push_complete_lines(buffer);
        bytes.len()
    }
}

proof fn lemma_trim_end(s: Seq<char>)
    ensures
        trim_end_spec(s).len() > 0 ==> !is_white_space(trim_end_spec(s).last()),
    decreases s.len(),
{
    if s.len() > 0 && is_white_space(s.last()) {
        lemma_trim_end(s.drop_last());
    }
}

/// No line of the in-memory log ends in whitespace.
pub proof fn law_log_lines_are_trimmed(pending: Seq<u8>, i: int)
    requires
        0 <= i < complete_lines(pending).len(),
    ensures
        complete_lines(pending)[i].len() > 0 ==> !is_white_space(complete_lines(pending)[i].last()),
{
    lemma_trim_end(decoded_text(complete_segments(pending)[i]));
}

/// Whether `segment` is a newline-terminated segment: it ends with a
/// newline byte and holds no other.
pub open spec fn newline_segment(segment: Seq<u8>) -> bool {
    &&& segment.len() > 0
    &&& segment.last() == 10u8
    &&& forall|j: int| 0 <= j < segment.len() - 1 ==> segment[j] != 10u8
}

proof fn lemma_trim_end_prefix(s: Seq<char>)
    ensures
        trim_end_spec(s).len() <= s.len(),
        forall|k: int| 0 <= k < trim_end_spec(s).len() ==> #[trigger] trim_end_spec(s)[k] == s[k],
    decreases s.len(),
{
    if s.len() > 0 && is_white_space(s.last()) {
        lemma_trim_end_prefix(s.drop_last());
    }
}

/// Splitting valid UTF-8 right after a newline byte leaves valid UTF-8 on
/// both sides.
proof fn lemma_split_after_newline(s: Seq<u8>, p: int)
    requires
        valid_utf8(s),
        0 <= p < s.len(),
        s[p] == 10u8,
    ensures
        valid_utf8(s.subrange(0, p + 1)),
        valid_utf8(s.subrange(p + 1, s.len() as int)),
{
    vstd::utf8::is_char_boundary_iff_not_is_continuation_byte(s, p);
    vstd::utf8::valid_utf8_split(s, p);
    let head = s.subrange(0, p);
    let t = s.subrange(p, s.len() as int);
    assert(t[0] == 10u8);
    assert(vstd::utf8::pop_first_scalar(t) =~= s.subrange(p + 1, s.len() as int));
    let nl = seq![10u8];
    assert(vstd::utf8::pop_first_scalar(nl) =~= Seq::<u8>::empty());
    assert(valid_utf8(Seq::<u8>::empty()));
    assert(valid_utf8(nl));
    vstd::utf8::valid_utf8_concat(head, nl);
    assert(head + nl =~= s.subrange(0, p + 1));
}

/// The segments of valid UTF-8 are valid UTF-8 and newline-terminated.
proof fn lemma_valid_segments(s: Seq<u8>)
    requires
        valid_utf8(s),
    ensures
        forall|i: int|
            0 <= i < complete_segments(s).len() ==> valid_utf8(#[trigger] complete_segments(s)[i])
                && newline_segment(complete_segments(s)[i]),
    decreases s.len(),
{
    lemma_first_newline_bound(s);
    match first_newline(s) {
        Some(p) => {
            let seg = s.subrange(0, p + 1 as int);
            let rest = s.subrange(p + 1 as int, s.len() as int);
            lemma_split_after_newline(s, p as int);
            lemma_valid_segments(rest);
            let segs = complete_segments(s);
            assert(segs == seq![seg] + complete_segments(rest));
            assert forall|i: int| 0 <= i < segs.len() implies valid_utf8(#[trigger] segs[i])
                && newline_segment(segs[i]) by {
                if i == 0 {
                    assert(segs[0] == seg);
                    assert(seg.last() == s[p as int]);
                    assert forall|j: int| 0 <= j < seg.len() - 1 implies seg[j] != 10u8 by {
                        assert(seg[j] == s[j]);
                    }
                } else {
                    assert(segs[i] == complete_segments(rest)[i - 1]);
                }
            }
        },
        None => {},
    }
}

/// Valid UTF-8 that ends with its only newline byte decodes to characters
/// that end with their only newline.
proof fn lemma_decode_newline_segment(b: Seq<u8>)
    requires
        valid_utf8(b),
        newline_segment(b),
    ensures
        decode_utf8(b).len() > 0,
        decode_utf8(b).last() == '\n',
        forall|k: int| 0 <= k < decode_utf8(b).len() - 1 ==> #[trigger] decode_utf8(b)[k] != '\n',
    decreases b.len(),
{
    let b0 = b[0];
    let c = vstd::utf8::decode_first_scalar(b);
    let len = vstd::utf8::length_of_first_scalar(b);
    let rest = vstd::utf8::pop_first_scalar(b);
    assert(decode_utf8(b) == seq![c as char] + decode_utf8(rest));
    assert(1 <= len <= 4 && len <= b.len());
    assert(rest.len() == b.len() - len);
    if len > 1 {
        assert(vstd::utf8::is_continuation_byte(b[len - 1]));
    }
    if rest.len() == 0 {
        assert(len == 1);
        assert(b0 == 10u8);
        assert(b0 == 10u8 ==> (b0 & 0x7Fu8) as u32 == 10u32) by (bit_vector);
        assert(c == 10u32);
        vstd::utf8::char_u32_cast('\n', 10u32);
        assert(decode_utf8(rest) =~= Seq::<char>::empty());
        assert(decode_utf8(b) =~= seq!['\n']);
    } else {
        if len == 1 {
            assert(b0 != 10u8);
            assert(b0 <= 0x7Fu8 ==> (b0 & 0x7Fu8) as u32 == b0 as u32) by (bit_vector);
        }
        assert(c != 10u32);
        assert((c as char) != '\n') by {
            vstd::utf8::decode_utf8_first_scalar(b);
            if (c as char) == '\n' {
                assert(('\n' as u32) == 10u32);
                assert((10u32 & 0x7Fu32) as u8 == 10u8) by (bit_vector);
                assert(vstd::utf8::encode_scalar(10u32) == seq![10u8]);
                assert(vstd::utf8::take_first_scalar(b)[0] == b[0]);
            }
        }
        assert forall|j: int| 0 <= j < rest.len() - 1 implies rest[j] != 10u8 by {
            assert(rest[j] == b[len + j]);
        }
        assert(rest.last() == b.last());
        lemma_decode_newline_segment(rest);
        let d = decode_utf8(b);
        assert forall|k: int| 0 <= k < d.len() - 1 implies #[trigger] d[k] != '\n' by {
            if k > 0 {
                assert(d[k] == decode_utf8(rest)[k - 1]);
            }
        }
    }
}

/// A line of the in-memory log written as valid UTF-8 holds no newline.
pub proof fn law_valid_log_lines_hold_no_newline(pending: Seq<u8>, i: int, k: int)
    requires
        valid_utf8(pending),
        0 <= i < complete_lines(pending).len(),
        0 <= k < complete_lines(pending)[i].len(),
    ensures
        complete_lines(pending)[i][k] != '\n',
{
    lemma_valid_segments(pending);
    let seg = complete_segments(pending)[i];
    assert(valid_utf8(seg) && newline_segment(seg));
    lemma_decode_newline_segment(seg);
    let d = decode_utf8(seg);
    assert(is_white_space(d.last()));
    assert(trim_end_spec(d) == trim_end_spec(d.drop_last()));
    lemma_trim_end_prefix(d.drop_last());
    let line = complete_lines(pending)[i];
    assert(line == trim_end_spec(d.drop_last()));
    assert(line[k] == d[k]);
}

/// The in-memory buffer never holds more lines than the writer keeps: when
/// it holds at most `capacity` lines before complete lines are pushed, it
/// does afterwards.
pub proof fn law_buffer_within_capacity(
    buffer: Seq<Seq<char>>,
    lines: Seq<Seq<char>>,
    capacity: nat,
)
    requires
        capacity >= 1,
        buffer.len() <= capacity,
    ensures
        buffer_after(buffer, lines, capacity).len() <= capacity,
{
}

/// The newest line is always kept: after complete lines are pushed, the
/// buffer ends with the last of them.
pub proof fn law_newest_line_is_kept(buffer: Seq<Seq<char>>, lines: Seq<Seq<char>>, capacity: nat)
    requires
        capacity >= 1,
        lines.len() > 0,
    ensures
        buffer_after(buffer, lines, capacity).last() == lines.last(),
{
}

/// After a push, no complete line is left pending: the pending bytes hold
/// no newline.
pub proof fn law_no_newline_left_pending(pending: Seq<u8>)
    ensures
        forall|j: int|
            0 <= j < incomplete_tail(pending).len() ==> #[trigger] incomplete_tail(pending)[j] != 10u8,
    decreases pending.len(),
{
    lemma_first_newline_bound(pending);
    match first_newline(pending) {
        Some(p) => {
            let rest = pending.subrange(p + 1 as int, pending.len() as int);
            assert(incomplete_tail(pending) == incomplete_tail(rest));
            law_no_newline_left_pending(rest);
        },
        None => {
            assert(incomplete_tail(pending) == pending);
        },
    }
}

} // verus!
