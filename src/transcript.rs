//! Whisper transcripts: 30-second windows over the mel frames, the segments
//! decoded from them, the `<|12.34|>` time tags in segment text, and
//! SRT/VTT rendering.

use crate::chat_format::joined;
use crate::chat_format::concat;
use crate::whisper::WhisperError;
use crate::timecode::{append_decimal, append_timecode, decimal, timecode};
use vstd::prelude::*;

verus! {

/// Mel frames in one 30-second window.
pub const N_FRAMES: usize = 3000;

/// Audio samples per mel frame.
pub const HOP_LENGTH: usize = 160;

/// Audio samples per second.
pub const SAMPLE_RATE: usize = 16000;

/// Milliseconds per mel frame (`HOP_LENGTH * 1000 / SAMPLE_RATE`).
pub const FRAME_MS: u64 = 10;

/// A stretch of transcript with its start and end, numbered from 0.
pub struct TimestampText {
    pub start_ms: u64,
    pub end_ms: u64,
    pub text: String,
    pub index: usize,
}

pub open spec fn srt_block(t: TimestampText) -> Seq<char> {
    decimal(t.index as nat + 1) + "\n"@ + timecode(t.start_ms as nat) + " --> "@ + timecode(
        t.end_ms as nat,
    ) + "\n"@ + t.text@ + "\n"@
}

pub open spec fn vtt_block(t: TimestampText) -> Seq<char> {
    timecode(t.start_ms as nat) + " --> "@ + timecode(t.end_ms as nat) + "\n"@ + t.text@ + "\n"@
}

impl TimestampText {
    pub fn get_start_str(&self) -> (r: String)
        ensures
            r@ == timecode(self.start_ms as nat),
    {
        let mut out = String::new();
        append_timecode(&mut out, self.start_ms);
        assert(out@ =~= timecode(self.start_ms as nat));
        out
    }

    pub fn get_end_str(&self) -> (r: String)
        ensures
            r@ == timecode(self.end_ms as nat),
    {
        let mut out = String::new();
        append_timecode(&mut out, self.end_ms);
        assert(out@ =~= timecode(self.end_ms as nat));
        out
    }

    /// The SRT block: the number from 1, the time range, the text.
    pub fn srt(&self) -> (r: String)
        ensures
            r@ == srt_block(*self),
    {
        let mut out = String::new();
        append_decimal(&mut out, self.index as u128 + 1);
        out.append("\n");
        out.append(self.get_start_str().as_str());
        out.append(" --> ");
        out.append(self.get_end_str().as_str());
        out.append("\n");
        out.append(self.text.as_str());
        out.append("\n");
        assert(out@ =~= srt_block(*self));
        out
    }

    /// The VTT block: the SRT block without its number line.
    pub fn vtt(&self) -> (r: String)
        ensures
            r@ == vtt_block(*self),
    {
        let mut out = String::new();
        out.append(self.get_start_str().as_str());
        out.append(" --> ");
        out.append(self.get_end_str().as_str());
        out.append("\n");
        out.append(self.text.as_str());
        out.append("\n");
        assert(out@ =~= vtt_block(*self));
        out
    }
}

// ---------------------------------------------------------------------------
// Time tags.
pub open spec fn is_digit(c: char) -> bool {
    '0' <= c && c <= '9'
}

pub open spec fn digit_value(c: char) -> nat {
    (c as int - '0' as int) as nat
}

/// How many ASCII digits follow one another from `i` on.
pub open spec fn digit_run(s: Seq<char>, i: int) -> nat
    decreases s.len() - i,
{
    if 0 <= i < s.len() && is_digit(s[i]) {
        1 + digit_run(s, i + 1)
    } else {
        0
    }
}

/// The number that the `n` digits from `i` on write.
pub open spec fn digits_value(s: Seq<char>, i: int, n: nat) -> nat
    decreases n,
{
    if n == 0 {
        0
    } else {
        digits_value(s, i, (n - 1) as nat) * 10 + digit_value(s[i + n - 1])
    }
}

/// The milliseconds that a fraction of `n` digits from `i` on writes; digits
/// past the third are dropped.
pub open spec fn fraction_ms(s: Seq<char>, i: int, n: nat) -> nat {
    if n >= 3 {
        digits_value(s, i, 3)
    } else if n == 2 {
        digits_value(s, i, 2) * 10
    } else {
        digits_value(s, i, 1) * 100
    }
}

/// The length of the tag `<|DIGITS.DIGITS|>` that starts at `i`, or 0.
pub open spec fn tag_len(s: Seq<char>, i: int) -> nat {
    let a = digit_run(s, i + 2);
    let b = digit_run(s, i + 3 + a);
    if 0 <= i && i + 4 + a + b < s.len() && s[i] == '<' && s[i + 1] == '|' && a > 0 && s[i + 2
        + a] == '.' && b > 0 && s[i + 3 + a + b] == '|' && s[i + 4 + a + b] == '>' {
        a + b + 5
    } else {
        0
    }
}

/// The time, in milliseconds, of the tag that starts at `i`.
pub open spec fn tag_ms(s: Seq<char>, i: int) -> nat {
    let a = digit_run(s, i + 2);
    let b = digit_run(s, i + 3 + a);
    digits_value(s, i + 2, a) * 1000 + fraction_ms(s, i + 3 + a, b)
}

/// The times of the tags from `i` on, scanning left to right without overlap.
pub open spec fn stamps_from(s: Seq<char>, i: int) -> Seq<nat>
    decreases s.len() - i,
{
    if i < 0 || i >= s.len() {
        Seq::empty()
    } else if tag_len(s, i) > 0 {
        seq![tag_ms(s, i)] + stamps_from(s, i + tag_len(s, i))
    } else {
        stamps_from(s, i + 1)
    }
}

/// The text from `i` on with its tags removed.
pub open spec fn stripped_from(s: Seq<char>, i: int) -> Seq<char>
    decreases s.len() - i,
{
    if i < 0 || i >= s.len() {
        Seq::empty()
    } else if tag_len(s, i) > 0 {
        stripped_from(s, i + tag_len(s, i))
    } else {
        seq![s[i]] + stripped_from(s, i + 1)
    }
}

/// A time that fits in `u64`, or `None`.
pub open spec fn fits(v: nat) -> Option<u64> {
    if v <= u64::MAX {
        Some(v as u64)
    } else {
        None
    }
}

fn char_is_digit(c: char) -> (r: bool)
    ensures
        r == is_digit(c),
{
    '0' <= c && c <= '9'
}

fn exec_digit_run(s: &str, len: usize, i: usize) -> (r: usize)
    requires
        len == s@.len(),
        i <= len,
    ensures
        r == digit_run(s@, i as int),
        i + r <= len,
{
    let mut j = i;
    while j < len && char_is_digit(s.get_char(j))
        invariant
            i <= j <= len,
            len == s@.len(),
            digit_run(s@, i as int) == (j - i) + digit_run(s@, j as int),
        decreases len - j,
    {
        j = j + 1;
    }
    j - i
}

fn exec_digits_value(s: &str, len: usize, i: usize, n: usize) -> (r: Option<u64>)
    requires
        len == s@.len(),
        i + n <= len,
        forall|k: int| i <= k < i + n ==> is_digit(#[trigger] s@[k]),
    ensures
        r == fits(digits_value(s@, i as int, n as nat)),
{
    let mut acc: Option<u64> = Some(0);
    let mut k: usize = 0;
    while k < n
        invariant
            k <= n,
            i + n <= len,
            len == s@.len(),
            forall|q: int| i <= q < i + n ==> is_digit(#[trigger] s@[q]),
            acc == fits(digits_value(s@, i as int, k as nat)),
        decreases n - k,
    {
        let c = s.get_char(i + k);
        let d = (c as u32 - '0' as u32) as u128;
        assert(d == digit_value(s@[i + k]));
        let ghost prev = digits_value(s@, i as int, k as nat);
        assert(digits_value(s@, i as int, (k + 1) as nat) == prev * 10 + d);
        acc = match acc {
            Some(v) => {
                assert(v as u128 * 10 + d <= u64::MAX as u128 * 10 + 9) by (nonlinear_arith)
                    requires
                        v <= u64::MAX,
                        d <= 9,
                ;
                let w: u128 = v as u128 * 10 + d;
                if w <= u64::MAX as u128 {
                    Some(w as u64)
                } else {
                    None
                }
            },
            None => {
                assert(prev * 10 + d > u64::MAX) by (nonlinear_arith)
                    requires
                        prev > u64::MAX,
                ;
                None
            },
        };
        k = k + 1;
    }
    acc
}

fn exec_fraction_ms(s: &str, len: usize, i: usize, n: usize) -> (r: u64)
    requires
        len == s@.len(),
        1 <= n,
        i + n <= len,
        forall|k: int| i <= k < i + n ==> is_digit(#[trigger] s@[k]),
    ensures
        r == fraction_ms(s@, i as int, n as nat),
        r < 1000,
{
    let m: usize = if n >= 3 {
        3
    } else {
        n
    };
    let v = exec_digits_value(s, len, i, m);
    proof {
        lemma_digits_value_bound(s@, i as int, m as nat);
    }
    let v = v.unwrap();
    if n >= 3 {
        v
    } else if n == 2 {
        v * 10
    } else {
        v * 100
    }
}

proof fn lemma_digits_value_bound(s: Seq<char>, i: int, n: nat)
    requires
        forall|k: int| i <= k < i + n ==> is_digit(#[trigger] s[k]),
        n <= 3,
    ensures
        digits_value(s, i, n) < if n == 0 {
            1nat
        } else if n == 1 {
            10nat
        } else if n == 2 {
            100nat
        } else {
            1000nat
        },
    decreases n,
{
    if n > 0 {
        lemma_digits_value_bound(s, i, (n - 1) as nat);
        assert(is_digit(s[i + n - 1]));
    }
}

proof fn lemma_digit_run_digits(s: Seq<char>, i: int, k: int)
    requires
        i <= k < i + digit_run(s, i),
    ensures
        is_digit(s[k]),
        0 <= k < s.len(),
    decreases k - i,
{
    if k > i {
        lemma_digit_run_digits(s, i + 1, k);
    }
}

/// The length of the tag at `i`, and its time where that fits in `u64`.
fn exec_tag(s: &str, len: usize, i: usize) -> (r: (usize, Option<u64>))
    requires
        len == s@.len(),
        i < len,
    ensures
        r.0 == tag_len(s@, i as int),
        r.0 > 0 ==> r.1 == fits(tag_ms(s@, i as int)),
{
    if i + 1 >= len || s.get_char(i) != '<' || s.get_char(i + 1) != '|' {
        return (0, None);
    }
    let a = exec_digit_run(s, len, i + 2);
    if a == 0 || i + 2 + a >= len || s.get_char(i + 2 + a) != '.' {
        return (0, None);
    }
    let b = exec_digit_run(s, len, i + 3 + a);
    let e = i + 3 + a + b;
    if b == 0 || e >= len - 1 || s.get_char(e) != '|' || s.get_char(e + 1) != '>' {
        return (0, None);
    }
    proof {
        assert forall|k: int| i + 2 <= k < i + 2 + a implies is_digit(#[trigger] s@[k]) by {
            lemma_digit_run_digits(s@, i + 2, k);
        }
        assert forall|k: int| i + 3 + a <= k < i + 3 + a + b implies is_digit(#[trigger] s@[k]) by {
            lemma_digit_run_digits(s@, i + 3 + a, k);
        }
    }
    let secs = exec_digits_value(s, len, i + 2, a);
    let frac = exec_fraction_ms(s, len, i + 3 + a, b);
    let ms = match secs {
        Some(v) => {
            assert(v as u128 * 1000 + frac as u128 <= u64::MAX as u128 * 1000 + 999) by (
            nonlinear_arith)
                requires
                    v <= u64::MAX,
                    frac <= 999,
            ;
            let w: u128 = v as u128 * 1000 + frac as u128;
            if w <= u64::MAX as u128 {
                Some(w as u64)
            } else {
                None
            }
        },
        None => {
            let ghost sv = digits_value(s@, (i + 2) as int, a as nat);
            assert(sv * 1000 + frac > u64::MAX) by (nonlinear_arith)
                requires
                    sv > u64::MAX,
            ;
            None
        },
    };
    (a + b + 5, ms)
}

/// The times of all tags of `text` (each where it fits in `u64`) and the text
/// without its tags.
pub fn scan_time_tags(text: &str) -> (r: (Vec<Option<u64>>, String))
    ensures
        r.0@ == stamps_from(text@, 0).map_values(|v: nat| fits(v)),
        r.1@ == stripped_from(text@, 0),
{
    let len = text.unicode_len();
    let mut stamps: Vec<Option<u64>> = Vec::new();
    let mut out = String::new();
    let ghost done: Seq<nat> = Seq::empty();
    let mut i: usize = 0;
    while i < len
        invariant
            len == text@.len(),
            i <= len,
            stamps@ == done.map_values(|v: nat| fits(v)),
            stamps_from(text@, 0) == done + stamps_from(text@, i as int),
            stripped_from(text@, 0) == out@ + stripped_from(text@, i as int),
        decreases len - i,
    {
        let (n, ms) = exec_tag(text, len, i);
        if n > 0 {
            stamps.push(ms);
            proof {
                let t = tag_ms(text@, i as int);
                assert(done.push(t).map_values(|v: nat| fits(v)) =~= done.map_values(
                    |v: nat| fits(v),
                ).push(fits(t)));
                assert(done + stamps_from(text@, i as int) =~= done.push(t) + stamps_from(
                    text@,
                    i + n,
                ));
                done = done.push(t);
            }
            assert(i + n <= len);
            i = i + n;
        } else {
            let piece = text.substring_char(i, i + 1);
            assert(piece@ =~= seq![text@[i as int]]);
            proof {
                assert(out@ + stripped_from(text@, i as int) =~= out@ + piece@ + stripped_from(
                    text@,
                    i + 1,
                ));
            }
            out.append(piece);
            i = i + 1;
        }
    }
    assert(done + Seq::<nat>::empty() =~= done);
    assert(out@ + Seq::<char>::empty() =~= out@);
    (stamps, out)
}

// ---------------------------------------------------------------------------
// Segments.
/// A transcribed stretch of audio: where it starts, how long it is, and what
/// the decoder produced for it.
pub struct Segment {
    pub start_ms: u64,
    pub duration_ms: u64,
    pub tokens: Vec<u32>,
    pub text: String,
}

/// The start, end and untagged text that the first two time tags of a
/// segment's text give, when it has two whose times fit in `u64`.
pub open spec fn tagged_span(text: Seq<char>) -> Option<(u64, u64, Seq<char>)> {
    let st = stamps_from(text, 0);
    if st.len() >= 2 && st[0] <= u64::MAX && st[1] <= u64::MAX {
        Some((st[0] as u64, st[1] as u64, stripped_from(text, 0)))
    } else {
        None
    }
}

pub open spec fn timestamp_text_ok(t: TimestampText, text: Seq<char>, index: usize) -> bool {
    &&& tagged_span(text) is Some
    &&& t.start_ms == tagged_span(text).unwrap().0
    &&& t.end_ms == tagged_span(text).unwrap().1
    &&& t.text@ == tagged_span(text).unwrap().2
    &&& t.index == index
}

/// The SRT block of a segment numbered `index`, when its text carries its times.
pub open spec fn segment_srt(text: Seq<char>, index: usize) -> Option<Seq<char>> {
    match tagged_span(text) {
        Some((a, b, t)) => Some(
            decimal(index as nat + 1) + "\n"@ + timecode(a as nat) + " --> "@ + timecode(b as nat)
                + "\n"@ + t + "\n"@,
        ),
        None => None,
    }
}

/// The VTT block of a segment, when its text carries its times.
pub open spec fn segment_vtt(text: Seq<char>) -> Option<Seq<char>> {
    match tagged_span(text) {
        Some((a, b, t)) => Some(
            timecode(a as nat) + " --> "@ + timecode(b as nat) + "\n"@ + t + "\n"@,
        ),
        None => None,
    }
}

impl Segment {
    pub fn text(&self) -> (r: String)
        ensures
            r@ == self.text@,
    {
        self.text.clone()
    }

    /// The span between the first two time tags of the text, numbered `index`,
    /// with every tag removed from the text.
    pub fn get_timestamp_text(&self, index: usize) -> (r: Option<TimestampText>)
        ensures
            r is Some <==> tagged_span(self.text@) is Some,
            r is Some ==> timestamp_text_ok(r.unwrap(), self.text@, index),
    {
        let (stamps, text) = scan_time_tags(self.text.as_str());
        if stamps.len() < 2 {
            return None;
        }
        match (stamps[0], stamps[1]) {
            (Some(start_ms), Some(end_ms)) => Some(TimestampText { start_ms, end_ms, text, index }),
            _ => None,
        }
    }

    pub fn srt(&self, index: usize) -> (r: Option<String>)
        ensures
            match (r, segment_srt(self.text@, index)) {
                (Some(a), Some(b)) => a@ == b,
                (None, None) => true,
                _ => false,
            },
    {
        match self.get_timestamp_text(index) {
            Some(t) => Some(t.srt()),
            None => None,
        }
    }

    pub fn vtt(&self, index: usize) -> (r: Option<String>)
        ensures
            match (r, segment_vtt(self.text@)) {
                (Some(a), Some(b)) => a@ == b,
                (None, None) => true,
                _ => false,
            },
    {
        match self.get_timestamp_text(index) {
            Some(t) => Some(t.vtt()),
            None => None,
        }
    }
}

// ---------------------------------------------------------------------------
// Windows.
/// Whether the times of every frame fit in `u64` milliseconds.
pub open spec fn frames_fit(frames: nat) -> bool {
    frames * FRAME_MS <= u64::MAX
}

/// One window over the mel frames.
#[derive(Debug, Clone, Copy, PartialEq, Eq, Structural)]
pub struct Window {
    /// The first frame.
    pub seek: usize,
    /// How many frames: 3000, or what is left at the end.
    pub size: usize,
    pub start_ms: u64,
    pub duration_ms: u64,
}

/// The number of frames in window `k` over `frames` frames.
pub open spec fn window_size(frames: nat, k: nat) -> nat {
    let rest = frames - k * N_FRAMES;
    if rest <= 0 {
        0
    } else if rest < N_FRAMES {
        rest as nat
    } else {
        N_FRAMES as nat
    }
}

pub open spec fn window_ok(w: Window, frames: nat, k: nat) -> bool {
    &&& w.seek == k * N_FRAMES
    &&& w.size == window_size(frames, k)
    &&& w.start_ms == k * N_FRAMES * FRAME_MS
    &&& w.duration_ms == window_size(frames, k) * FRAME_MS
}

/// The windows over `content_frames` frames: consecutive, 30 seconds each but
/// the last, together covering every frame.
pub fn plan_windows(content_frames: usize) -> (r: Vec<Window>)
    requires
        frames_fit(content_frames as nat),
    ensures
        r@.len() * N_FRAMES >= content_frames,
        r@.len() == 0 || (r@.len() - 1) * N_FRAMES < content_frames,
        forall|k: int|
            0 <= k < r@.len() ==> window_ok(#[trigger] r@[k], content_frames as nat, k as nat),
{
    let mut r: Vec<Window> = Vec::new();
    let mut seek: usize = 0;
    while seek < content_frames
        invariant
            frames_fit(content_frames as nat),
            seek <= content_frames,
            seek <= r@.len() * N_FRAMES,
            seek < content_frames ==> seek == r@.len() * N_FRAMES,
            r@.len() == 0 || (r@.len() - 1) * N_FRAMES < content_frames,
            forall|k: int|
                0 <= k < r@.len() ==> window_ok(#[trigger] r@[k], content_frames as nat, k as nat),
        decreases content_frames - seek,
    {
        let size: usize = if content_frames - seek < N_FRAMES {
            content_frames - seek
        } else {
            N_FRAMES
        };
        let w = Window {
            seek,
            size,
            start_ms: seek as u64 * FRAME_MS,
            duration_ms: size as u64 * FRAME_MS,
        };
        let ghost k = r@.len();
        assert(window_ok(w, content_frames as nat, k as nat)) by {
            assert(seek * FRAME_MS == k * N_FRAMES * FRAME_MS) by (nonlinear_arith)
                requires
                    seek == k * N_FRAMES,
            ;
        }
        r.push(w);
        assert(r@[k as int] == w);
        seek = seek + size;
    }
    r
}

/// What the decoder produced for one window.
pub struct DecodedWindow {
    pub tokens: Vec<u32>,
    pub text: String,
}

/// The window numbers of the decoded (not silent) windows, in order.
pub open spec fn kept_windows(results: Seq<Option<DecodedWindow>>) -> Seq<nat>
    decreases results.len(),
{
    if results.len() == 0 {
        Seq::empty()
    } else {
        let prev = kept_windows(results.drop_last());
        if results.last() is Some {
            prev.push((results.len() - 1) as nat)
        } else {
            prev
        }
    }
}

pub open spec fn segment_ok(s: Segment, frames: nat, k: nat, d: DecodedWindow) -> bool {
    &&& s.start_ms == k * N_FRAMES * FRAME_MS
    &&& s.duration_ms == window_size(frames, k) * FRAME_MS
    &&& s.tokens@ == d.tokens@
    &&& s.text@ == d.text@
}

proof fn lemma_kept_windows(results: Seq<Option<DecodedWindow>>)
    ensures
        forall|i: int|
            0 <= i < kept_windows(results).len() ==> #[trigger] kept_windows(results)[i]
                < results.len() && results[kept_windows(results)[i] as int] is Some,
        forall|i: int, j: int|
            0 <= i < j < kept_windows(results).len() ==> kept_windows(results)[i] < kept_windows(
                results,
            )[j],
    decreases results.len(),
{
    if results.len() > 0 {
        lemma_kept_windows(results.drop_last());
    }
}

proof fn lemma_window_ends_before(frames: nat, k: nat, j: nat)
    requires
        k < j,
    ensures
        k * N_FRAMES * FRAME_MS + window_size(frames, k) * FRAME_MS <= j * N_FRAMES * FRAME_MS,
{
    assert(window_size(frames, k) <= N_FRAMES);
    assert(k * N_FRAMES * FRAME_MS + window_size(frames, k) * FRAME_MS <= (k + 1) * N_FRAMES
        * FRAME_MS) by (nonlinear_arith)
        requires
            window_size(frames, k) <= N_FRAMES,
    ;
    assert((k + 1) * N_FRAMES * FRAME_MS <= j * N_FRAMES * FRAME_MS) by (nonlinear_arith)
        requires
            k + 1 <= j,
    ;
}

/// The segments of a transcription: one per decoded window, in window order;
/// `None` marks a window that the silence gate dropped. Each segment ends
/// before the next one starts.
pub fn collect_segments(content_frames: usize, results: Vec<Option<DecodedWindow>>) -> (r: Vec<
    Segment,
>)
    requires
        frames_fit(content_frames as nat),
        results@.len() == 0 || (results@.len() - 1) * N_FRAMES < content_frames,
    ensures
        r@.len() == kept_windows(results@).len(),
        forall|i: int|
            0 <= i < r@.len() ==> segment_ok(
                #[trigger] r@[i],
                content_frames as nat,
                kept_windows(results@)[i],
                results@[kept_windows(results@)[i] as int].unwrap(),
            ),
        forall|i: int, j: int|
            0 <= i < j < r@.len() ==> r@[i].start_ms + r@[i].duration_ms <= r@[j].start_ms,
{
    let ghost rs = results@;
    let n = results.len();
    let mut rest = results;
    let mut segments: Vec<Segment> = Vec::new();
    let mut k: usize = 0;
    while k < n
        invariant
            n == rs.len(),
            k <= n,
            rest@ == rs.subrange(k as int, n as int),
            frames_fit(content_frames as nat),
            rs.len() == 0 || (rs.len() - 1) * N_FRAMES < content_frames,
            segments@.len() == kept_windows(rs.take(k as int)).len(),
            forall|i: int|
                0 <= i < segments@.len() ==> segment_ok(
                    #[trigger] segments@[i],
                    content_frames as nat,
                    kept_windows(rs.take(k as int))[i],
                    rs[kept_windows(rs.take(k as int))[i] as int].unwrap(),
                ),
        decreases n - k,
    {
        assert(rs.take(k + 1).drop_last() =~= rs.take(k as int));
        let item = rest.remove(0);
        assert(item == rs[k as int]);
        assert(rest@ =~= rs.subrange(k + 1, n as int));
        proof {
            lemma_kept_windows(rs.take(k as int));
        }
        match item {
            Some(d) => {
                assert(k * N_FRAMES <= (n - 1) * N_FRAMES) by (nonlinear_arith)
                    requires
                        k <= n - 1,
                ;
                let seek = k * N_FRAMES;
                let size: usize = if content_frames - seek < N_FRAMES {
                    content_frames - seek
                } else {
                    N_FRAMES
                };
                let seg = Segment {
                    start_ms: seek as u64 * FRAME_MS,
                    duration_ms: size as u64 * FRAME_MS,
                    tokens: d.tokens,
                    text: d.text,
                };
                assert(seek * FRAME_MS == k * N_FRAMES * FRAME_MS) by (nonlinear_arith)
                    requires
                        seek == k * N_FRAMES,
                ;
                segments.push(seg);
                assert(kept_windows(rs.take(k + 1)) == kept_windows(rs.take(k as int)).push(
                    k as nat,
                ));
            },
            None => {
                assert(kept_windows(rs.take(k + 1)) == kept_windows(rs.take(k as int)));
            },
        }
        k = k + 1;
    }
    assert(rs.take(n as int) =~= rs);
    proof {
        lemma_kept_windows(rs);
        assert forall|i: int, j: int| 0 <= i < j < segments@.len() implies segments@[i].start_ms
            + segments@[i].duration_ms <= segments@[j].start_ms by {
            let ki = kept_windows(rs)[i];
            let kj = kept_windows(rs)[j];
            assert(segment_ok(segments@[i], content_frames as nat, ki, rs[ki as int].unwrap()));
            assert(segment_ok(segments@[j], content_frames as nat, kj, rs[kj as int].unwrap()));
            lemma_window_ends_before(content_frames as nat, ki, kj);
        }
    }
    segments
}

// ---------------------------------------------------------------------------
// Responses.
/// How a transcription is answered.
#[derive(Debug, Clone, Copy, PartialEq, Eq, Structural)]
pub enum TranscriptionFormat {
    Json,
    VerboseJson,
    Srt,
    Vtt,
    Text,
}

pub open spec fn format_name(f: TranscriptionFormat) -> Seq<char> {
    match f {
        TranscriptionFormat::Json => "json"@,
        TranscriptionFormat::VerboseJson => "verbose_json"@,
        TranscriptionFormat::Srt => "srt"@,
        TranscriptionFormat::Vtt => "vtt"@,
        TranscriptionFormat::Text => "text"@,
    }
}

impl TranscriptionFormat {
    /// The format with this name.
    pub fn from_name(name: &str) -> (r: Option<TranscriptionFormat>)
        ensures
            r matches Some(f) ==> format_name(f) == name@,
            r is None ==> forall|f: TranscriptionFormat| format_name(f) != name@,
    {
        let target = String::from_str(name);
        if target.eq(&String::from_str("json")) {
            Some(TranscriptionFormat::Json)
        } else if target.eq(&String::from_str("verbose_json")) {
            Some(TranscriptionFormat::VerboseJson)
        } else if target.eq(&String::from_str("srt")) {
            Some(TranscriptionFormat::Srt)
        } else if target.eq(&String::from_str("vtt")) {
            Some(TranscriptionFormat::Vtt)
        } else if target.eq(&String::from_str("text")) {
            Some(TranscriptionFormat::Text)
        } else {
            None
        }
    }

    /// Whether the format shows times, so that decoding must produce time tags.
    pub fn has_timestamps(&self) -> (r: bool)
        ensures
            r == (*self is Srt || *self is Vtt || *self is VerboseJson),
    {
        match self {
            TranscriptionFormat::Srt | TranscriptionFormat::Vtt
            | TranscriptionFormat::VerboseJson => true,
            _ => false,
        }
    }

    pub fn is_verbose(&self) -> (r: bool)
        ensures
            r == (*self is VerboseJson),
    {
        match self {
            TranscriptionFormat::VerboseJson => true,
            _ => false,
        }
    }
}

/// The segments of a transcription and the format to answer in.
pub struct CreateTranscriptionResponse {
    pub segments: Vec<Segment>,
    pub response_format: TranscriptionFormat,
}

pub open spec fn segment_texts(segs: Seq<Segment>) -> Seq<Seq<char>> {
    segs.map_values(|s: Segment| s.text@)
}

pub open spec fn all_tagged(segs: Seq<Segment>) -> bool {
    forall|i: int| 0 <= i < segs.len() ==> (#[trigger] tagged_span(segs[i].text@)) is Some
}

pub open spec fn srt_blocks(segs: Seq<Segment>) -> Seq<Seq<char>> {
    Seq::new(segs.len(), |i: int| segment_srt(segs[i].text@, i as usize).unwrap())
}

pub open spec fn vtt_blocks(segs: Seq<Segment>) -> Seq<Seq<char>> {
    Seq::new(segs.len(), |i: int| segment_vtt(segs[i].text@).unwrap())
}

/// The body of a response: SRT or VTT blocks separated by blank lines, or
/// the segment texts laid end to end.
pub open spec fn body_of(segs: Seq<Segment>, format: TranscriptionFormat) -> Option<Seq<char>> {
    match format {
        TranscriptionFormat::Srt => if all_tagged(segs) {
            Some(joined(srt_blocks(segs), "\n"@))
        } else {
            None
        },
        TranscriptionFormat::Vtt => if all_tagged(segs) {
            Some(joined(vtt_blocks(segs), "\n"@))
        } else {
            None
        },
        _ => Some(concat(segment_texts(segs))),
    }
}

impl CreateTranscriptionResponse {
    pub fn new(segments: Vec<Segment>, response_format: TranscriptionFormat) -> (r:
        CreateTranscriptionResponse)
        ensures
            r.segments == segments,
            r.response_format == response_format,
    {
        CreateTranscriptionResponse { segments, response_format }
    }

    /// The segment texts laid end to end.
    pub fn text(&self) -> (r: String)
        ensures
            r@ == concat(segment_texts(self.segments@)),
    {
        let segs = &self.segments;
        let mut out = String::new();
        let mut i: usize = 0;
        while i < segs.len()
            invariant
                i <= segs@.len(),
                out@ == concat(segment_texts(segs@).take(i as int)),
            decreases segs@.len() - i,
        {
            proof {
                crate::chat_format::lemma_concat_step(segment_texts(segs@), i as int);
            }
            out.append(segs[i].text.as_str());
            i = i + 1;
        }
        assert(segment_texts(segs@).take(i as int) =~= segment_texts(segs@));
        out
    }

    /// The response body in its format; SRT and VTT need every segment to
    /// carry its time tags.
    pub fn body(&self) -> (r: Result<String, WhisperError>)
        ensures
            match (r, body_of(self.segments@, self.response_format)) {
                (Ok(a), Some(b)) => a@ == b,
                (Err(e), None) => e == WhisperError::MissingTimestamps,
                _ => false,
            },
    {
        let srt = match self.response_format {
            TranscriptionFormat::Srt => true,
            TranscriptionFormat::Vtt => false,
            _ => {
                return Ok(self.text());
            },
        };
        let segs = &self.segments;
        let ghost blocks = if srt {
            srt_blocks(segs@)
        } else {
            vtt_blocks(segs@)
        };
        let mut out = String::new();
        let mut i: usize = 0;
        while i < segs.len()
            invariant
                i <= segs@.len(),
                segs == &self.segments,
                srt ==> self.response_format is Srt,
                !srt ==> self.response_format is Vtt,
                blocks == if srt {
                    srt_blocks(segs@)
                } else {
                    vtt_blocks(segs@)
                },
                forall|q: int| 0 <= q < i ==> (#[trigger] tagged_span(segs@[q].text@)) is Some,
                out@ == joined(blocks.take(i as int), "\n"@),
            decreases segs@.len() - i,
        {
            let block = if srt {
                segs[i].srt(i)
            } else {
                segs[i].vtt(i)
            };
            match block {
                Some(b) => {
                    proof {
                        crate::chat_format::lemma_joined_step(blocks, "\n"@, i as int);
                    }
                    if i > 0 {
                        out.append("\n");
                    } else {
                        assert(out@ =~= Seq::<char>::empty());
                    }
                    out.append(b.as_str());
                },
                None => {
                    assert(tagged_span(segs@[i as int].text@) is None);
                    assert(!all_tagged(segs@));

                    return Err(WhisperError::MissingTimestamps);
                },
            }
            i = i + 1;
        }
        assert(blocks.take(i as int) =~= blocks);
        Ok(out)
    }
}

} // verus!
