use crate::audio_buffer::AudioBuffer;
use crate::utils::spec_sum_squares;
use vstd::prelude::*;

verus! {

/// Whether the detector currently classifies the caller as speaking.
#[derive(Debug, Clone, Copy, PartialEq, Eq, Structural)]
pub enum VadState {
    Silence,
    Speaking,
}

/// The turn-taking event a scan pass reports. Exactly one event is produced
/// per pass; `WaitingMoreChunks` means no full frame was left to classify
/// before any other event arose.
#[derive(Debug, Clone, Copy, PartialEq, Eq, Structural)]
pub enum VadEvent {
    SpeechStarted,
    SpeechPaused(u64, u64),
    SpeechResumed,
    SpeechFullStop,
    WaitingMoreChunks,
}

/// The tuning of a frame-classifying detector: frame length, energy
/// threshold, and the silence runs (all in samples) that close a segment
/// provisionally and durably.
#[derive(Debug, Clone, Copy, PartialEq, Eq, Structural)]
pub struct VadParams {
    pub frame_size: u64,
    pub threshold: u64,
    pub full_stop_bytes: u64,
    pub min_speech_bytes: u64,
}

impl VadParams {
    /// Bounds under which every scan computation stays in range.
    pub open spec fn wf(&self) -> bool {
        &&& 1 <= self.frame_size <= 0x8000_0000
        &&& self.threshold <= 0xFFFF
    }
}

/// A frame is speech when its summed squared amplitude exceeds
/// `threshold^2 * len`; equivalently, when its root-mean-square amplitude
/// exceeds `threshold`. The fixed-threshold policy is used throughout: no
/// adaptive noise-floor calibration.
pub open spec fn spec_is_speech(threshold: u64, frame: Seq<i16>) -> bool {
    spec_sum_squares(frame) > threshold * threshold * frame.len()
}

/// The outcome of one scan pass: the event reported first, and the cursor
/// and segment markers the buffer is left with.
pub struct ScanResult {
    pub event: VadEvent,
    pub cursor: u64,
    pub start: Option<u64>,
    pub end: Option<u64>,
}

/// Where a newly detected segment start is placed: the frame that tripped
/// the detector, rolled back up to three frames to recover pre-roll.
pub open spec fn spec_rollback(cursor_after: u64, frame_size: u64) -> u64 {
    if cursor_after >= 3 * frame_size {
        (cursor_after - 3 * frame_size) as u64
    } else {
        0u64
    }
}

/// One whole scan pass over the samples not yet classified, frame by frame,
/// stopping at the first event. This is the transition table of the
/// turn-detection state machine, keyed on (classification, start set?,
/// end set?):
///
/// - speech while idle: set `start` (with pre-roll) and report
///   `SpeechStarted`;
/// - speech while a segment is open: keep scanning;
/// - speech while provisionally paused: clear `end`, report `SpeechResumed`;
/// - silence while idle: keep scanning;
/// - silence while open: once `cursor - start` reaches the minimum speech
///   run, set `end = cursor` and report `SpeechPaused(start, end)`;
/// - silence while paused: once `cursor - end` exceeds the full-stop run,
///   clear both markers and report `SpeechFullStop`; else keep scanning.
///
/// An `end` marker without a `start` is an invariant violation and has no
/// defined outcome; no reachable buffer state carries it.
pub open spec fn scan(
    p: VadParams,
    samples: Seq<i16>,
    cursor: u64,
    start: Option<u64>,
    end: Option<u64>,
) -> ScanResult
    decreases samples.len() - cursor
        when p.frame_size >= 1 && cursor <= samples.len() && samples.len() <= u64::MAX
{
    if samples.len() < cursor + p.frame_size {
        ScanResult { event: VadEvent::WaitingMoreChunks, cursor, start, end }
    } else {
        let frame = samples.subrange(cursor as int, cursor + p.frame_size);
        let c2 = (cursor + p.frame_size) as u64;
        if spec_is_speech(p.threshold, frame) {
            match (start, end) {
                (None, None) => ScanResult {
                    event: VadEvent::SpeechStarted,
                    cursor: c2,
                    start: Some(spec_rollback(c2, p.frame_size)),
                    end: None,
                },
                (Some(_), None) => scan(p, samples, c2, start, None),
                (Some(_), Some(_)) => ScanResult {
                    event: VadEvent::SpeechResumed,
                    cursor: c2,
                    start,
                    end: None,
                },
                (None, Some(_)) => arbitrary(),
            }
        } else {
            match (start, end) {
                (None, None) => scan(p, samples, c2, None, None),
                (Some(s), None) => if c2 - s >= p.min_speech_bytes {
                    ScanResult {
                        event: VadEvent::SpeechPaused(s, c2),
                        cursor: c2,
                        start,
                        end: Some(c2),
                    }
                } else {
                    scan(p, samples, c2, start, None)
                },
                (Some(_), Some(e)) => if c2 - e > p.full_stop_bytes {
                    ScanResult { event: VadEvent::SpeechFullStop, cursor: c2, start: None, end: None }
                } else {
                    scan(p, samples, c2, start, end)
                },
                (None, Some(_)) => arbitrary(),
            }
        }
    }
}

/// The events successive scan passes report, collected until a pass finds
/// nothing but `WaitingMoreChunks`; `fuel` bounds the passes examined.
/// This is what a driver sees when it keeps polling one buffer.
pub open spec fn scan_events(
    p: VadParams,
    samples: Seq<i16>,
    cursor: u64,
    start: Option<u64>,
    end: Option<u64>,
    fuel: nat,
) -> Seq<VadEvent>
    decreases fuel,
{
    if fuel == 0 {
        Seq::empty()
    } else {
        let r = scan(p, samples, cursor, start, end);
        if r.event is WaitingMoreChunks {
            Seq::empty()
        } else {
            seq![r.event] + scan_events(p, samples, r.cursor, r.start, r.end, (fuel - 1) as nat)
        }
    }
}

/// Every whole frame in `[cursor, m)` classifies as silence.
pub open spec fn silent_run(p: VadParams, samples: Seq<i16>, cursor: int, m: int) -> bool
    decreases m - cursor
        when p.frame_size >= 1
{
    if cursor + p.frame_size > m {
        true
    } else {
        &&& !spec_is_speech(p.threshold, samples.subrange(cursor, cursor + p.frame_size))
        &&& silent_run(p, samples, cursor + p.frame_size, m)
    }
}

/// Every whole frame in `[cursor, m)` classifies as speech.
pub open spec fn speech_run(p: VadParams, samples: Seq<i16>, cursor: int, m: int) -> bool
    decreases m - cursor
        when p.frame_size >= 1
{
    if cursor + p.frame_size > m {
        true
    } else {
        &&& spec_is_speech(p.threshold, samples.subrange(cursor, cursor + p.frame_size))
        &&& speech_run(p, samples, cursor + p.frame_size, m)
    }
}

/// A scan pass preserves the buffer's marker invariant — in particular an
/// `end` marker is never left set without a `start` — never moves the
/// cursor backwards or past the samples, and a `SpeechPaused(start, end)`
/// event reports exactly the markers the buffer is left with.
pub proof fn lemma_scan_wf(
    p: VadParams,
    samples: Seq<i16>,
    cursor: u64,
    start: Option<u64>,
    end: Option<u64>,
)
    requires
        p.wf(),
        cursor <= samples.len() <= u64::MAX,
        start matches Some(s) ==> s <= cursor,
        end is Some ==> start is Some,
        end matches Some(e) ==> (start matches Some(s) && s <= e && e <= cursor),
    ensures
        ({
            let r = scan(p, samples, cursor, start, end);
            &&& cursor <= r.cursor <= samples.len()
            &&& (r.start matches Some(s) ==> s <= r.cursor)
            &&& (r.end is Some ==> r.start is Some)
            &&& (r.end matches Some(e) ==> (r.start matches Some(s) && s <= e && e <= r.cursor))
            &&& (r.event matches VadEvent::SpeechPaused(s, e) ==> r.start == Some(s) && r.end
                == Some(e) && s <= e && e <= r.cursor)
        }),
    decreases samples.len() - cursor,
{
    if samples.len() < cursor + p.frame_size {
    } else {
        let frame = samples.subrange(cursor as int, cursor + p.frame_size);
        let c2 = (cursor + p.frame_size) as u64;
        if spec_is_speech(p.threshold, frame) {
            match (start, end) {
                (Option::Some(_), Option::None) => {
                    lemma_scan_wf(p, samples, c2, start, Option::None);
                },
                _ => {},
            }
        } else {
            match (start, end) {
                (Option::None, Option::None) => {
                    lemma_scan_wf(p, samples, c2, Option::None, Option::None);
                },
                (Option::Some(s), Option::None) => {
                    if !(c2 - s >= p.min_speech_bytes) {
                        lemma_scan_wf(p, samples, c2, start, Option::None);
                    }
                },
                (Option::Some(_), Option::Some(e)) => {
                    if !(c2 - e > p.full_stop_bytes) {
                        lemma_scan_wf(p, samples, c2, start, end);
                    }
                },
                _ => {},
            }
        }
    }
}

/// Each scan pass reports exactly one event, and `WaitingMoreChunks`
/// characterizes an exhausted buffer: a pass on a buffer with no whole
/// frame left reports it and changes nothing, and whenever it is
/// reported, the pass has consumed every whole frame. (An event found on
/// the last whole frame also leaves the buffer exhausted, so the
/// implication from an exhausted end state back to `WaitingMoreChunks`
/// does not hold.)
pub proof fn lemma_waiting_exhausts(
    p: VadParams,
    samples: Seq<i16>,
    cursor: u64,
    start: Option<u64>,
    end: Option<u64>,
)
    requires
        p.wf(),
        cursor <= samples.len() <= u64::MAX,
        start matches Some(s) ==> s <= cursor,
        end is Some ==> start is Some,
        end matches Some(e) ==> (start matches Some(s) && s <= e && e <= cursor),
    ensures
        ({
            let r = scan(p, samples, cursor, start, end);
            &&& (r.event is WaitingMoreChunks ==> samples.len() - r.cursor < p.frame_size)
            &&& (samples.len() - cursor < p.frame_size ==> r == ScanResult {
                event: VadEvent::WaitingMoreChunks,
                cursor,
                start,
                end,
            })
        }),
    decreases samples.len() - cursor,
{
    if samples.len() < cursor + p.frame_size {
    } else {
        let frame = samples.subrange(cursor as int, cursor + p.frame_size);
        let c2 = (cursor + p.frame_size) as u64;
        if spec_is_speech(p.threshold, frame) {
            if start is Some && end is None {
                lemma_waiting_exhausts(p, samples, c2, start, Option::None);
            }
        } else {
            match (start, end) {
                (Option::None, Option::None) => {
                    lemma_waiting_exhausts(p, samples, c2, Option::None, Option::None);
                },
                (Option::Some(s), Option::None) => {
                    if !(c2 - s >= p.min_speech_bytes) {
                        lemma_waiting_exhausts(p, samples, c2, start, Option::None);
                    }
                },
                (Option::Some(_), Option::Some(e)) => {
                    if !(c2 - e > p.full_stop_bytes) {
                        lemma_waiting_exhausts(p, samples, c2, start, end);
                    }
                },
                _ => {},
            }
        }
    }
}

/// What a scan pass can report is determined by the marker state it
/// starts from: an idle buffer can only report `SpeechStarted`, an open
/// segment only `SpeechPaused`, and a provisionally paused segment only
/// `SpeechResumed` or `SpeechFullStop` — besides `WaitingMoreChunks`. In
/// particular, a turn durably ends only out of a provisional pause.
pub proof fn lemma_event_by_state(
    p: VadParams,
    samples: Seq<i16>,
    cursor: u64,
    start: Option<u64>,
    end: Option<u64>,
)
    requires
        p.wf(),
        cursor <= samples.len() <= u64::MAX,
        start matches Some(s) ==> s <= cursor,
        end is Some ==> start is Some,
        end matches Some(e) ==> (start matches Some(s) && s <= e && e <= cursor),
    ensures
        ({
            let r = scan(p, samples, cursor, start, end);
            &&& (start is None && end is None ==> r.event is SpeechStarted || r.event
                is WaitingMoreChunks)
            &&& (start is Some && end is None ==> (r.event matches VadEvent::SpeechPaused(s, e))
                || r.event is WaitingMoreChunks)
            &&& (start is Some && end is Some ==> r.event is SpeechResumed || r.event
                is SpeechFullStop || r.event is WaitingMoreChunks)
        }),
    decreases samples.len() - cursor,
{
    if samples.len() < cursor + p.frame_size {
    } else {
        let frame = samples.subrange(cursor as int, cursor + p.frame_size);
        let c2 = (cursor + p.frame_size) as u64;
        if spec_is_speech(p.threshold, frame) {
            if start is Some && end is None {
                lemma_event_by_state(p, samples, c2, start, Option::None);
            }
        } else {
            match (start, end) {
                (Option::None, Option::None) => {
                    lemma_event_by_state(p, samples, c2, Option::None, Option::None);
                },
                (Option::Some(s), Option::None) => {
                    if !(c2 - s >= p.min_speech_bytes) {
                        lemma_event_by_state(p, samples, c2, start, Option::None);
                    }
                },
                (Option::Some(_), Option::Some(e)) => {
                    if !(c2 - e > p.full_stop_bytes) {
                        lemma_event_by_state(p, samples, c2, start, end);
                    }
                },
                _ => {},
            }
        }
    }
}

/// Frame-alignment arithmetic: an aligned distance below one frame is
/// zero, and shrinking it by one frame keeps it aligned.
proof fn lemma_aligned_step(x: int, f: int)
    requires
        f >= 1,
        0 <= x,
        x % f == 0,
    ensures
        x < f ==> x == 0,
        x >= f ==> (x - f) % f == 0,
{
    if x < f {
        vstd::arithmetic::div_mod::lemma_small_mod(x as nat, f as nat);
    } else {
        vstd::arithmetic::div_mod::lemma_mod_sub_multiples_vanish(x, f);
        assert(x - f == -f + x);
    }
}

/// Frame-alignment arithmetic: distances between aligned offsets are
/// aligned, and shifting an aligned offset by one frame keeps it aligned.
proof fn lemma_aligned_diff(x: int, y: int, f: int)
    requires
        f >= 1,
        x % f == 0,
        y % f == 0,
    ensures
        (x - y) % f == 0,
        (x + f) % f == 0,
{
    vstd::arithmetic::div_mod::lemma_fundamental_div_mod(x, f);
    vstd::arithmetic::div_mod::lemma_fundamental_div_mod(y, f);
    vstd::arithmetic::div_mod::lemma_mod_multiples_vanish(x / f - y / f, 0, f);
    vstd::arithmetic::div_mod::lemma_small_mod(0, f as nat);
    assert(x - y == f * (x / f - y / f)) by (nonlinear_arith)
        requires
            x == f * (x / f) + x % f,
            y == f * (y / f) + y % f,
            x % f == 0,
            y % f == 0,
    ;
    vstd::arithmetic::div_mod::lemma_mod_add_multiples_vanish(x, f);
    assert(x + f == f + x);
}

/// The alignment facts one recursive run step needs.
proof fn proof_aligned_run_step(p: VadParams, cursor: int, m: int)
    requires
        p.wf(),
        cursor <= m,
        (m - cursor) % (p.frame_size as int) == 0,
    ensures
        m - cursor < p.frame_size ==> m == cursor,
        m - cursor >= p.frame_size ==> (m - (cursor + p.frame_size)) % (p.frame_size as int) == 0,
{
    lemma_aligned_step(m - cursor, p.frame_size as int);
    assert(m - (cursor + p.frame_size) == (m - cursor) - p.frame_size);
}

/// Scanning an idle buffer over silence consumes it without any event or
/// marker change.
pub proof fn lemma_idle_silence(p: VadParams, samples: Seq<i16>, cursor: u64, m: u64)
    requires
        p.wf(),
        cursor <= m <= samples.len() <= u64::MAX,
        (m - cursor) % (p.frame_size as int) == 0,
        silent_run(p, samples, cursor as int, m as int),
    ensures
        scan(p, samples, cursor, Option::None, Option::None) == scan(
            p,
            samples,
            m,
            Option::None,
            Option::None,
        ),
    decreases m - cursor,
{
    proof_aligned_run_step(p, cursor as int, m as int);
    if cursor + p.frame_size > m {
        assert(m == cursor);
    } else {
        let c2 = (cursor + p.frame_size) as u64;
        lemma_idle_silence(p, samples, c2, m);
    }
}

/// Scanning an open segment over continuing speech consumes it without
/// any event or marker change.
pub proof fn lemma_open_speech(p: VadParams, samples: Seq<i16>, cursor: u64, m: u64, s: u64)
    requires
        p.wf(),
        s <= cursor,
        cursor <= m <= samples.len() <= u64::MAX,
        (m - cursor) % (p.frame_size as int) == 0,
        speech_run(p, samples, cursor as int, m as int),
    ensures
        scan(p, samples, cursor, Option::Some(s), Option::None) == scan(
            p,
            samples,
            m,
            Option::Some(s),
            Option::None,
        ),
    decreases m - cursor,
{
    proof_aligned_run_step(p, cursor as int, m as int);
    if cursor + p.frame_size > m {
        assert(m == cursor);
    } else {
        let c2 = (cursor + p.frame_size) as u64;
        lemma_open_speech(p, samples, c2, m, s);
    }
}

/// Scanning a provisionally paused segment over silence that stays within
/// the full-stop threshold consumes it without any event or marker
/// change.
pub proof fn lemma_paused_silence(
    p: VadParams,
    samples: Seq<i16>,
    cursor: u64,
    m: u64,
    s: u64,
    e: u64,
)
    requires
        p.wf(),
        s <= e <= cursor,
        cursor <= m <= samples.len() <= u64::MAX,
        (m - cursor) % (p.frame_size as int) == 0,
        silent_run(p, samples, cursor as int, m as int),
        m - e <= p.full_stop_bytes,
    ensures
        scan(p, samples, cursor, Option::Some(s), Option::Some(e)) == scan(
            p,
            samples,
            m,
            Option::Some(s),
            Option::Some(e),
        ),
    decreases m - cursor,
{
    proof_aligned_run_step(p, cursor as int, m as int);
    if cursor + p.frame_size > m {
        assert(m == cursor);
    } else {
        let c2 = (cursor + p.frame_size) as u64;
        lemma_paused_silence(p, samples, c2, m, s, e);
    }
}

/// A run of silent frames splits at any aligned point.
pub proof fn lemma_silent_run_split(p: VadParams, samples: Seq<i16>, a: int, mid: int, b: int)
    requires
        p.wf(),
        a <= mid <= b,
        (mid - a) % (p.frame_size as int) == 0,
        silent_run(p, samples, a, b),
    ensures
        silent_run(p, samples, a, mid),
        silent_run(p, samples, mid, b),
    decreases mid - a,
{
    proof_aligned_run_step(p, a, mid);
    if a + p.frame_size > mid {
        assert(mid == a);
    } else {
        lemma_silent_run_split(p, samples, a + p.frame_size, mid, b);
    }
}

/// Speech resuming between a provisional pause and the full-stop
/// threshold preempts the full stop: the next event is `SpeechResumed`.
/// (And once resumed, the `end` marker is cleared, so by
/// `lemma_event_by_state` no `SpeechFullStop` can be reported until a
/// new pause has been detected first.)
pub proof fn lemma_resume_before_full_stop(
    p: VadParams,
    samples: Seq<i16>,
    cursor: u64,
    m: u64,
    s: u64,
    e: u64,
)
    requires
        p.wf(),
        s <= e <= cursor,
        cursor <= m,
        m + p.frame_size <= samples.len() <= u64::MAX,
        (m - cursor) % (p.frame_size as int) == 0,
        silent_run(p, samples, cursor as int, m as int),
        m - e <= p.full_stop_bytes,
        spec_is_speech(p.threshold, samples.subrange(m as int, m + p.frame_size)),
    ensures
        scan(p, samples, cursor, Option::Some(s), Option::Some(e)).event is SpeechResumed,
    decreases m - cursor,
{
    lemma_paused_silence(p, samples, cursor, m, s, e);
}

/// The canonical turn shape: silence, then speech, then silence, each
/// long enough. With `F` the frame size: the leading silence ends at the
/// aligned offset `sil_end`, speech runs to the aligned `speech_end`,
/// crossing the minimum speech run once the pre-roll rollback is counted,
/// and the trailing silence crosses the full-stop threshold at the
/// aligned `stop_c`. A driver polling this buffer sees exactly:
/// `SpeechStarted`, `SpeechPaused(start, speech_end + F)` — with `start`
/// the rolled-back segment start — and `SpeechFullStop`, and nothing
/// more.
pub proof fn lemma_turn_sequence(
    p: VadParams,
    samples: Seq<i16>,
    sil_end: u64,
    speech_end: u64,
    stop_c: u64,
)
    requires
        p.wf(),
        samples.len() <= u64::MAX,
        sil_end % p.frame_size == 0,
        speech_end % p.frame_size == 0,
        stop_c % p.frame_size == 0,
        samples.len() % (p.frame_size as nat) == 0,
        sil_end + p.frame_size <= speech_end,
        speech_end + 2 * p.frame_size <= stop_c,
        stop_c <= samples.len(),
        silent_run(p, samples, 0, sil_end as int),
        speech_run(p, samples, sil_end as int, speech_end as int),
        silent_run(p, samples, speech_end as int, samples.len() as int),
        (speech_end + p.frame_size) - spec_rollback((sil_end + p.frame_size) as u64, p.frame_size)
            >= p.min_speech_bytes,
        stop_c - (speech_end + p.frame_size) > p.full_stop_bytes,
        (stop_c - p.frame_size) - (speech_end + p.frame_size) <= p.full_stop_bytes,
    ensures
        scan_events(p, samples, 0, Option::None, Option::None, 4) =~= seq![
            VadEvent::SpeechStarted,
            VadEvent::SpeechPaused(
                spec_rollback((sil_end + p.frame_size) as u64, p.frame_size),
                (speech_end + p.frame_size) as u64,
            ),
            VadEvent::SpeechFullStop,
        ],
{
    let f = p.frame_size;
    let s0 = spec_rollback((sil_end + f) as u64, f);
    let e0 = (speech_end + f) as u64;

    // frame alignment of every offset the passes stop at
    lemma_aligned_diff(speech_end as int, sil_end as int, f as int);
    lemma_aligned_step(speech_end - sil_end, f as int);
    lemma_aligned_diff(e0 as int, speech_end as int, f as int);
    lemma_aligned_diff(stop_c as int, e0 as int, f as int);
    lemma_aligned_step(stop_c - e0, f as int);
    lemma_aligned_diff(samples.len() as int, stop_c as int, f as int);

    // pass 1: leading silence, then the first speech frame starts the turn
    lemma_idle_silence(p, samples, 0, sil_end);
    let r1 = scan(p, samples, 0, Option::None, Option::None);
    assert(spec_is_speech(p.threshold, samples.subrange(sil_end as int, sil_end + f)));
    assert(r1.event is SpeechStarted && r1.cursor == sil_end + f && r1.start == Option::Some(s0)
        && r1.end == Option::<u64>::None);

    // pass 2: continuing speech, then the first silent frame pauses the turn
    lemma_open_speech(p, samples, (sil_end + f) as u64, speech_end, s0);
    assert(!spec_is_speech(p.threshold, samples.subrange(speech_end as int, speech_end + f)));
    let r2 = scan(p, samples, r1.cursor, r1.start, r1.end);
    assert(r2.event == VadEvent::SpeechPaused(s0, e0) && r2.cursor == e0 && r2.start
        == Option::Some(s0) && r2.end == Option::Some(e0));

    // pass 3: silence up to the frame that crosses the full-stop threshold
    lemma_silent_run_split(p, samples, speech_end as int, e0 as int, samples.len() as int);
    lemma_silent_run_split(p, samples, e0 as int, (stop_c - f) as int, samples.len() as int);
    lemma_paused_silence(p, samples, e0, (stop_c - f) as u64, s0, e0);
    assert(!spec_is_speech(p.threshold, samples.subrange((stop_c - f) as int, stop_c as int)));
    let r3 = scan(p, samples, r2.cursor, r2.start, r2.end);
    assert(r3.event is SpeechFullStop && r3.cursor == stop_c && r3.start == Option::<u64>::None
        && r3.end == Option::<u64>::None);

    // pass 4: the remaining silence produces nothing more
    lemma_silent_run_split(p, samples, e0 as int, stop_c as int, samples.len() as int);
    lemma_idle_silence(p, samples, stop_c, samples.len() as u64);
    let r4 = scan(p, samples, r3.cursor, r3.start, r3.end);
    assert(r4.event is WaitingMoreChunks);

    reveal_with_fuel(scan_events, 5);
}

/// A frame-classifying turn detector operating on a borrowed audio buffer.
pub trait Vad: Sized {
    /// The detector's tuning, fixed across calls.
    spec fn params(&self) -> VadParams;

    /// Advances the buffer's cursor by whole frames, classifying each new
    /// frame and reporting the first event of the scan, exactly as `scan`
    /// describes.
    fn process_audio(&mut self, audio_buffer: &mut AudioBuffer) -> (event: VadEvent)
        requires
            old(self).params().wf(),
            old(audio_buffer).wf(),
        ensures
            *final(self) == *old(self),
            final(audio_buffer).wf(),
            final(audio_buffer).user == old(audio_buffer).user,
            final(audio_buffer).agent == old(audio_buffer).agent,
            final(audio_buffer).streamed_content == old(audio_buffer).streamed_content,
            final(audio_buffer).events == old(audio_buffer).events,
            ({
                let r = scan(
                    old(self).params(),
                    old(audio_buffer).user@,
                    old(audio_buffer).cursor,
                    old(audio_buffer).start,
                    old(audio_buffer).end,
                );
                &&& event == r.event
                &&& final(audio_buffer).cursor == r.cursor
                &&& final(audio_buffer).start == r.start
                &&& final(audio_buffer).end == r.end
            }),
    ;

    /// Classifies one frame by its energy measure.
    fn is_speech(&self, bytes: &[i16]) -> (b: bool)
        requires
            self.params().wf(),
            bytes@.len() <= 0x1_0000_0000,
        ensures
            b == spec_is_speech(self.params().threshold, bytes@),
    ;
}

} // verus!
