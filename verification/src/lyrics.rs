//! Lyrics: finding the line being sung, choosing which lyrics to show, the
//! plain-text lines, the compact preview and the shareable lyric cards.
use vstd::prelude::*;

use crate::text::{chars_of, decimal_pad2, push_char, push_decimal_pad2, to_ascii_lower, ascii_lower, trim, trimmed};

verus! {

/// One timed line of synced lyrics.
#[derive(Debug)]
pub struct LyricLine {
    /// When the line starts, in milliseconds from the start of the track.
    pub timestamp_ms: i64,
    pub text: String,
}

impl Clone for LyricLine {
    fn clone(&self) -> (r: Self)
        ensures
            r == *self,
    {
        LyricLine { timestamp_ms: self.timestamp_ms, text: self.text.clone() }
    }
}

/// Lyrics found for a song: the plain text, and timed lines when the
/// provider has them (empty otherwise).
#[derive(Debug)]
pub struct LyricsResult {
    pub plain_lyrics: String,
    pub synced_lines: Vec<LyricLine>,
}

impl Clone for LyricsResult {
    fn clone(&self) -> (r: Self)
        ensures
            r.plain_lyrics == self.plain_lyrics,
            r.synced_lines@ == self.synced_lines@,
    {
        let mut lines: Vec<LyricLine> = Vec::new();
        let mut i: usize = 0;
        while i < self.synced_lines.len()
            invariant
                i <= self.synced_lines@.len(),
                lines@ == self.synced_lines@.take(i as int),
            decreases self.synced_lines@.len() - i,
        {
            lines.push(self.synced_lines[i].clone());
            assert(lines@ =~= self.synced_lines@.take(i + 1));
            i += 1;
        }
        assert(lines@ =~= self.synced_lines@);
        LyricsResult { plain_lyrics: self.plain_lyrics.clone(), synced_lines: lines }
    }
}

/// `r` is the line being sung at `t`: the last line of the leading run of
/// lines that have started by then; `None` when there are no lines or the
/// first has not started.
pub open spec fn is_active_lyric(lines: Seq<LyricLine>, t: i64, r: Option<usize>) -> bool {
    match r {
        Some(i) => {
            &&& i < lines.len()
            &&& forall|j: int| 0 <= j <= i ==> lines[j].timestamp_ms <= t
            &&& (i + 1 == lines.len() || lines[i + 1].timestamp_ms > t)
        },
        None => lines.len() == 0 || lines[0].timestamp_ms > t,
    }
}

pub fn active_lyric_index(lines: &Vec<LyricLine>, playback_ms: i64) -> (r: Option<usize>)
    ensures
        is_active_lyric(lines@, playback_ms, r),
{
    if lines.len() == 0 {
        return None;
    }
    let mut active: Option<usize> = None;
    let mut i: usize = 0;
    while i < lines.len()
        invariant_except_break
            i == 0 ==> active is None,
            i > 0 ==> active == Some((i - 1) as usize),
            forall|j: int| 0 <= j < i ==> lines@[j].timestamp_ms <= playback_ms,
        invariant
            i <= lines@.len(),
        ensures
            is_active_lyric(lines@, playback_ms, active),
        decreases lines@.len() - i,
    {
        if playback_ms >= lines[i].timestamp_ms {
            active = Some(i);
        } else {
            break;
        }
        i += 1;
    }
    active
}

/// The lyrics to show. With sync on, timed lyrics win: first an upgrade
/// found on LRCLIB, then a cached timed copy. Otherwise the primary lookup
/// is shown; when it failed, an LRCLIB upgrade stands in for it; with no
/// primary lookup, an upgrade is shown if there is one.
pub open spec fn display_lyrics_spec(
    sync_lyrics: bool,
    primary: Option<Result<LyricsResult, String>>,
    lrclib_upgrade: Option<Result<Option<LyricsResult>, String>>,
    cached_synced: Option<LyricsResult>,
) -> Option<Result<LyricsResult, String>> {
    let upgrade: Option<LyricsResult> = match lrclib_upgrade {
        Some(Ok(Some(u))) => Some(u),
        _ => None,
    };
    if sync_lyrics && (upgrade matches Some(u) && u.synced_lines.len() > 0) {
        Some(Ok(upgrade->0))
    } else if sync_lyrics && (cached_synced matches Some(c) && c.synced_lines.len() > 0) {
        Some(Ok(cached_synced->0))
    } else {
        match primary {
            Some(Ok(l)) => Some(Ok(l)),
            Some(Err(e)) => match upgrade {
                Some(u) => Some(Ok(u)),
                None => Some(Err(e)),
            },
            None => match upgrade {
                Some(u) => Some(Ok(u)),
                None => None,
            },
        }
    }
}

pub fn pick_display_lyrics(
    sync_lyrics: bool,
    primary: Option<Result<LyricsResult, String>>,
    lrclib_upgrade: Option<Result<Option<LyricsResult>, String>>,
    cached_synced: Option<LyricsResult>,
) -> (r: Option<Result<LyricsResult, String>>)
    ensures
        r == display_lyrics_spec(sync_lyrics, primary, lrclib_upgrade, cached_synced),
{
    let upgrade: Option<LyricsResult> = match lrclib_upgrade {
        Some(Ok(Some(u))) => Some(u),
        _ => None,
    };
    let upgrade_synced = match &upgrade {
        Some(u) => u.synced_lines.len() > 0,
        None => false,
    };
    let cached_has_synced = match &cached_synced {
        Some(c) => c.synced_lines.len() > 0,
        None => false,
    };
    if sync_lyrics && upgrade_synced {
        return match upgrade {
            Some(u) => Some(Ok(u)),
            None => None,
        };
    }
    if sync_lyrics && cached_has_synced {
        return match cached_synced {
            Some(c) => Some(Ok(c)),
            None => None,
        };
    }
    match primary {
        Some(Ok(l)) => Some(Ok(l)),
        Some(Err(e)) => match upgrade {
            Some(u) => Some(Ok(u)),
            None => Some(Err(e)),
        },
        None => match upgrade {
            Some(u) => Some(Ok(u)),
            None => None,
        },
    }
}

/// `s` cut at its newlines: the lines completed so far and the line being
/// read (the text after the last newline).
pub open spec fn split_lines(s: Seq<char>) -> (Seq<Seq<char>>, Seq<char>)
    decreases s.len(),
{
    if s.len() == 0 {
        (Seq::empty(), Seq::empty())
    } else {
        let (done, cur) = split_lines(s.drop_last());
        if s.last() == '\n' {
            (done.push(cur), Seq::empty())
        } else {
            (done, cur.push(s.last()))
        }
    }
}

/// The lines of a text, each trimmed, blank ones left out.
pub open spec fn plain_lines(s: Seq<char>) -> Seq<Seq<char>> {
    let (done, cur) = split_lines(s);
    done.push(cur).map_values(|l: Seq<char>| trim(l)).filter(|l: Seq<char>| l.len() > 0)
}

proof fn lemma_trim_filter_push(x: Seq<Seq<char>>, a: Seq<char>)
    ensures
        x.push(a).map_values(|l: Seq<char>| trim(l)).filter(|l: Seq<char>| l.len() > 0) == (if trim(a).len() > 0 {
            x.map_values(|l: Seq<char>| trim(l)).filter(|l: Seq<char>| l.len() > 0).push(trim(a))
        } else {
            x.map_values(|l: Seq<char>| trim(l)).filter(|l: Seq<char>| l.len() > 0)
        }),
{
    let m = x.push(a).map_values(|l: Seq<char>| trim(l));
    assert(m =~= x.map_values(|l: Seq<char>| trim(l)).push(trim(a)));
    reveal_with_fuel(Seq::<_>::filter, 1);
    assert(m.drop_last() =~= x.map_values(|l: Seq<char>| trim(l)));
}

/// The plain lyrics as lines: trimmed, blank lines left out.
pub fn plain_lyrics_lines(lyrics: &LyricsResult) -> (r: Vec<String>)
    ensures
        r@.map_values(|s: String| s@) == plain_lines(lyrics.plain_lyrics@),
{
    let text = lyrics.plain_lyrics.as_str();
    let chars = chars_of(text);
    let n = chars.len();
    let mut out: Vec<String> = Vec::new();
    let mut start: usize = 0;
    let mut i: usize = 0;
    proof {
        assert(text@.take(0) =~= Seq::<char>::empty());
    }
    while i < n
        invariant
            n == text@.len(),
            chars@ == text@,
            start <= i <= n,
            split_lines(text@.take(i as int)).1 == text@.subrange(start as int, i as int),
            out@.map_values(|s: String| s@) == split_lines(text@.take(i as int)).0.map_values(|l: Seq<char>| trim(l)).filter(|l: Seq<char>| l.len() > 0),
        decreases n - i,
    {
        let ghost prefix = text@.take(i + 1);
        proof {
            assert(prefix.drop_last() =~= text@.take(i as int));
            assert(prefix.last() == chars@[i as int]);
        }
        if chars[i] == '\n' {
            let line = trimmed(text.substring_char(start, i));
            proof {
                lemma_trim_filter_push(split_lines(text@.take(i as int)).0, text@.subrange(start as int, i as int));
            }
            if line.as_str().unicode_len() > 0 {
                let ghost before = out@;
                out.push(line);
                assert(out@.map_values(|s: String| s@) =~= before.map_values(|s: String| s@).push(line@));
            }
            start = i + 1;
            assert(text@.subrange(start as int, i + 1) =~= Seq::<char>::empty());
        } else {
            assert(text@.subrange(start as int, i + 1) =~= text@.subrange(start as int, i as int).push(chars@[i as int]));
        }
        i += 1;
    }
    assert(text@.take(n as int) =~= text@);
    let last = trimmed(text.substring_char(start, n));
    proof {
        lemma_trim_filter_push(split_lines(text@).0, text@.subrange(start as int, n as int));
    }
    if last.as_str().unicode_len() > 0 {
        let ghost before = out@;
        out.push(last);
        assert(out@.map_values(|s: String| s@) =~= before.map_values(|s: String| s@).push(last@));
    }
    out
}

} // verus!
verus! {

/// The compact lyrics preview: the line before, the current line and the
/// line after.
#[derive(Debug)]
pub struct MiniLyricsPreviewData {
    pub previous: Option<String>,
    pub current: String,
    pub next: Option<String>,
}

/// The line of a preview at `t`: the line being sung, or the first line
/// before any has started.
pub open spec fn preview_index(lines: Seq<LyricLine>, t: i64) -> int {
    let found = choose|r: Option<usize>| is_active_lyric(lines, t, r);
    match found {
        Some(i) => i as int,
        None => 0,
    }
}

/// The preview shown for `lyrics` at playback time `t` (milliseconds, the
/// lyrics offset included): around the line being sung for timed lyrics
/// with sync on, else the first two non-blank lines of the plain text.
pub open spec fn mini_preview_spec(
    lyrics: Option<Result<LyricsResult, String>>,
    sync_lyrics: bool,
    t: i64,
    r: Option<MiniLyricsPreviewData>,
) -> bool {
    match lyrics {
        Some(Ok(l)) => if sync_lyrics && l.synced_lines@.len() > 0 {
            let lines = l.synced_lines@;
            let a = preview_index(lines, t);
            match r {
                Some(p) => {
                    &&& p.previous.is_some() == (a > 0)
                    &&& (a > 0 ==> p.previous->0@ == trim(lines[a - 1].text@))
                    &&& p.current@ == trim(lines[a].text@)
                    &&& p.next.is_some() == (a + 1 < lines.len())
                    &&& (a + 1 < lines.len() ==> p.next->0@ == trim(lines[a + 1].text@))
                },
                None => false,
            }
        } else {
            let lines = plain_lines(l.plain_lyrics@);
            if lines.len() == 0 {
                r is None
            } else {
                match r {
                    Some(p) => {
                        &&& p.previous is None
                        &&& p.current@ == lines[0]
                        &&& p.next.is_some() == (lines.len() > 1)
                        &&& (lines.len() > 1 ==> p.next->0@ == lines[1])
                    },
                    None => false,
                }
            }
        },
        _ => r is None,
    }
}

proof fn lemma_active_unique(lines: Seq<LyricLine>, t: i64, a: Option<usize>, b: Option<usize>)
    requires
        is_active_lyric(lines, t, a),
        is_active_lyric(lines, t, b),
    ensures
        a == b,
{
    match (a, b) {
        (Some(i), Some(j)) => {
            if i < j {
                assert(lines[i + 1].timestamp_ms <= t);
            } else if j < i {
                assert(lines[j + 1].timestamp_ms <= t);
            }
        },
        (Some(i), None) => {
            assert(lines[0].timestamp_ms <= t);
        },
        (None, Some(j)) => {
            assert(lines[0].timestamp_ms <= t);
        },
        (None, None) => {},
    }
}

pub fn build_mini_lyrics_preview(
    lyrics: Option<Result<LyricsResult, String>>,
    sync_lyrics: bool,
    playback_ms: i64,
) -> (r: Option<MiniLyricsPreviewData>)
    ensures
        mini_preview_spec(lyrics, sync_lyrics, playback_ms, r),
{
    let l = match &lyrics {
        Some(Ok(l)) => l,
        _ => return None,
    };
    let n = l.synced_lines.len();
    if sync_lyrics && n > 0 {
        let found = active_lyric_index(&l.synced_lines, playback_ms);
        proof {
            let c = choose|r: Option<usize>| is_active_lyric(l.synced_lines@, playback_ms, r);
            lemma_active_unique(l.synced_lines@, playback_ms, found, c);
        }
        let a = match found {
            Some(i) => i,
            None => 0,
        };
        let previous = if a > 0 {
            Some(trimmed(l.synced_lines[a - 1].text.as_str()))
        } else {
            None
        };
        let current = trimmed(l.synced_lines[a].text.as_str());
        let next = if a + 1 < n {
            Some(trimmed(l.synced_lines[a + 1].text.as_str()))
        } else {
            None
        };
        return Some(MiniLyricsPreviewData { previous, current, next });
    }
    let mut lines = plain_lyrics_lines(l);
    proof {
        assert(lines@.len() == plain_lines(l.plain_lyrics@).len());
    }
    if lines.len() == 0 {
        return None;
    }
    let ghost views = lines@.map_values(|s: String| s@);
    assert(views[0] == lines@[0]@);
    let next = if lines.len() > 1 {
        assert(views[1] == lines@[1]@);
        Some(lines.remove(1))
    } else {
        None
    };
    let current = lines.remove(0);
    Some(MiniLyricsPreviewData { previous: None, current, next })
}

/// One line of a lyric card: its text and, for timed lyrics, its start.
#[derive(Debug)]
pub struct ScreenshotLyricBar {
    pub text: String,
    pub timestamp_ms: Option<i64>,
}

/// The timed lines as cards, trimmed, blank ones left out.
pub open spec fn synced_bars(lines: Seq<LyricLine>) -> Seq<(Seq<char>, Option<i64>)> {
    lines.map_values(|l: LyricLine| (trim(l.text@), Some(l.timestamp_ms))).filter(|b: (Seq<char>, Option<i64>)| b.0.len() > 0)
}

/// The cards for a lyric screenshot: the timed lines when sync is on and
/// there are any, else the plain lines without times.
pub open spec fn screenshot_bars_spec(lyrics: LyricsResult, sync_lyrics: bool) -> Seq<(Seq<char>, Option<i64>)> {
    if sync_lyrics && lyrics.synced_lines@.len() > 0 {
        synced_bars(lyrics.synced_lines@)
    } else {
        plain_lines(lyrics.plain_lyrics@).map_values(|l: Seq<char>| (l, None::<i64>))
    }
}

pub open spec fn bar_view(b: ScreenshotLyricBar) -> (Seq<char>, Option<i64>) {
    (b.text@, b.timestamp_ms)
}

pub fn screenshot_lyrics_bars(lyrics: &LyricsResult, sync_lyrics: bool) -> (r: Vec<ScreenshotLyricBar>)
    ensures
        r@.map_values(|b: ScreenshotLyricBar| bar_view(b)) == screenshot_bars_spec(*lyrics, sync_lyrics),
{
    let n = lyrics.synced_lines.len();
    let mut out: Vec<ScreenshotLyricBar> = Vec::new();
    if sync_lyrics && n > 0 {
        let mut i: usize = 0;
        while i < n
            invariant
                n == lyrics.synced_lines@.len(),
                i <= n,
                out@.map_values(|b: ScreenshotLyricBar| bar_view(b)) == synced_bars(lyrics.synced_lines@.take(i as int)),
            decreases n - i,
        {
            let line = &lyrics.synced_lines[i];
            let text = trimmed(line.text.as_str());
            proof {
                let t = lyrics.synced_lines@.take(i + 1);
                assert(t.drop_last() =~= lyrics.synced_lines@.take(i as int));
                let m = t.map_values(|l: LyricLine| (trim(l.text@), Some(l.timestamp_ms)));
                assert(m =~= lyrics.synced_lines@.take(i as int).map_values(|l: LyricLine| (trim(l.text@), Some(l.timestamp_ms))).push((text@, Some(line.timestamp_ms))));
                reveal_with_fuel(Seq::<_>::filter, 1);
                assert(m.drop_last() =~= lyrics.synced_lines@.take(i as int).map_values(|l: LyricLine| (trim(l.text@), Some(l.timestamp_ms))));
            }
            if text.as_str().unicode_len() > 0 {
                let ghost before = out@;
                out.push(ScreenshotLyricBar { text, timestamp_ms: Some(line.timestamp_ms) });
                assert(out@.map_values(|b: ScreenshotLyricBar| bar_view(b)) =~= before.map_values(|b: ScreenshotLyricBar| bar_view(b)).push(bar_view(out@[out@.len() - 1])));
            }
            i += 1;
        }
        assert(lyrics.synced_lines@.take(n as int) =~= lyrics.synced_lines@);
        return out;
    }
    let lines = plain_lyrics_lines(lyrics);
    let ghost views = lines@.map_values(|s: String| s@);
    let mut i: usize = 0;
    while i < lines.len()
        invariant
            i <= lines@.len(),
            views == lines@.map_values(|s: String| s@),
            out@.map_values(|b: ScreenshotLyricBar| bar_view(b)) == views.take(i as int).map_values(|l: Seq<char>| (l, None::<i64>)),
        decreases lines@.len() - i,
    {
        let ghost before = out@;
        assert(views[i as int] == lines@[i as int]@);
        out.push(ScreenshotLyricBar { text: lines[i].clone(), timestamp_ms: None });
        assert(views.take(i + 1) =~= views.take(i as int).push(views[i as int]));
        assert(bar_view(out@[out@.len() - 1]) == (views[i as int], None::<i64>));
        assert(out@.map_values(|b: ScreenshotLyricBar| bar_view(b)) =~= before.map_values(|b: ScreenshotLyricBar| bar_view(b)).push(bar_view(out@[out@.len() - 1])));
        assert(views.take(i + 1).map_values(|l: Seq<char>| (l, None::<i64>)) =~= views.take(i as int).map_values(|l: Seq<char>| (l, None::<i64>)).push((views[i as int], None::<i64>)));
        assert(out@.map_values(|b: ScreenshotLyricBar| bar_view(b)) =~= views.take(i + 1).map_values(|l: Seq<char>| (l, None::<i64>)));
        i += 1;
    }
    assert(views.take(lines@.len() as int) =~= views);
    out
}

/// Whole seconds of a time in milliseconds, rounded half away from zero;
/// negative times count as zero, and the count stops at `u32::MAX`.
pub open spec fn rounded_seconds(ms: i64) -> nat {
    let s: int = if ms <= 0 { 0 } else { ms / 1000 + (if ms % 1000 >= 500 { 1int } else { 0 }) };
    if s > u32::MAX { u32::MAX as nat } else { s as nat }
}

/// `mm:ss` with at least two digits each.
pub open spec fn timestamp_text(ms: i64) -> Seq<char> {
    let total = rounded_seconds(ms);
    decimal_pad2(total / 60) + ":"@ + decimal_pad2(total % 60)
}

pub fn format_timestamp(ms: i64) -> (r: String)
    ensures
        r@ == timestamp_text(ms),
{
    let total: u32 = if ms <= 0 {
        0
    } else {
        let s: i64 = ms / 1000 + if ms % 1000 >= 500 { 1 } else { 0 };
        if s > 4294967295 {
            4294967295
        } else {
            s as u32
        }
    };
    assert(total == rounded_seconds(ms));
    let mut r = String::new();
    push_decimal_pad2(&mut r, total / 60);
    push_char(&mut r, ':');
    push_decimal_pad2(&mut r, total % 60);
    proof {
        reveal_strlit(":");
        assert(r@ =~= timestamp_text(ms));
    }
    r
}

/// A card's caption: the start time before the text when asked for and
/// known.
pub fn screenshot_bar_label(bar: &ScreenshotLyricBar, include_timestamp: bool) -> (r: String)
    ensures
        r@ == (if include_timestamp && bar.timestamp_ms is Some {
            timestamp_text(bar.timestamp_ms->0) + " "@ + bar.text@
        } else {
            bar.text@
        }),
{
    if include_timestamp {
        if let Some(ts) = bar.timestamp_ms {
            let mut r = format_timestamp(ts);
            r.append(" ");
            r.append(bar.text.as_str());
            return r;
        }
    }
    bar.text.clone()
}

/// A DOM id from any text: ASCII letters and digits kept (lower-cased),
/// every other character replaced by `-`; "lyrics" for an empty text.
pub open spec fn dom_id_char(c: char) -> char {
    if ('a' <= c && c <= 'z') || ('A' <= c && c <= 'Z') || ('0' <= c && c <= '9') {
        ascii_lower(c)
    } else {
        '-'
    }
}

pub open spec fn dom_id_spec(raw: Seq<char>) -> Seq<char> {
    if raw.len() == 0 {
        "lyrics"@
    } else {
        raw.map_values(|c: char| dom_id_char(c))
    }
}

pub fn sanitize_dom_id(raw: &str) -> (r: String)
    ensures
        r@ == dom_id_spec(raw@),
{
    let chars = chars_of(raw);
    if chars.len() == 0 {
        return String::from_str("lyrics");
    }
    let mut r = String::new();
    let mut i: usize = 0;
    while i < chars.len()
        invariant
            i <= chars@.len(),
            chars@ == raw@,
            r@ == raw@.take(i as int).map_values(|c: char| dom_id_char(c)),
        decreases chars@.len() - i,
    {
        let c = chars[i];
        let mapped = if ('a' <= c && c <= 'z') || ('A' <= c && c <= 'Z') || ('0' <= c && c <= '9') {
            to_ascii_lower(c)
        } else {
            '-'
        };
        push_char(&mut r, mapped);
        assert(r@ =~= raw@.take(i + 1).map_values(|c: char| dom_id_char(c)));
        i += 1;
    }
    assert(raw@.take(chars@.len() as int) =~= raw@);
    r
}

} // verus!
verus! {

/// How one provider's failure is reported.
pub open spec fn provider_failure_text(provider: Seq<char>, error: Seq<char>) -> Seq<char> {
    provider + " failed: "@ + error
}

/// The parts joined with `sep` between each two (`[String]::join`).
pub open spec fn joined(parts: Seq<Seq<char>>, sep: Seq<char>) -> Seq<char>
    decreases parts.len(),
{
    if parts.len() == 0 {
        Seq::empty()
    } else if parts.len() == 1 {
        parts[0]
    } else {
        joined(parts.drop_last(), sep) + sep + parts.last()
    }
}

/// The error answered when no provider gave lyrics: every failure in the
/// order the providers were tried, or a note that none is configured.
pub open spec fn lyrics_failure_message(errors: Seq<Seq<char>>) -> Seq<char> {
    if errors.len() == 0 {
        "No lyrics providers configured."@
    } else {
        joined(errors, " | "@)
    }
}

/// A lyrics lookup that asks the configured providers one at a time, in
/// order, until one answers; the failures are kept for the final error.
pub struct LyricsProviderRun {
    providers: Vec<String>,
    next: usize,
    errors: Vec<String>,
}

impl LyricsProviderRun {
    pub closed spec fn providers(&self) -> Seq<Seq<char>> {
        self.providers@.map_values(|p: String| p@)
    }

    /// How many providers have failed so far.
    pub closed spec fn tried(&self) -> nat {
        self.next as nat
    }

    pub closed spec fn errors(&self) -> Seq<Seq<char>> {
        self.errors@.map_values(|e: String| e@)
    }

    pub closed spec fn wf(&self) -> bool {
        &&& self.next <= self.providers@.len()
        &&& self.errors@.len() == self.next
    }

    pub fn new(providers: Vec<String>) -> (r: Self)
        ensures
            r.wf(),
            r.providers() == providers@.map_values(|p: String| p@),
            r.tried() == 0,
            r.errors() == Seq::<Seq<char>>::empty(),
    {
        let r = LyricsProviderRun { providers, next: 0, errors: Vec::new() };
        assert(r.errors() =~= Seq::<Seq<char>>::empty());
        r
    }

    /// The provider to ask next, if any is left.
    pub fn current_provider(&self) -> (r: Option<String>)
        requires
            self.wf(),
        ensures
            match r {
                Some(p) => self.tried() < self.providers().len() && p@ == self.providers()[self.tried() as int],
                None => self.tried() == self.providers().len(),
            },
    {
        if self.next < self.providers.len() {
            Some(self.providers[self.next].clone())
        } else {
            None
        }
    }

    /// The provider asked last failed with `error`; the next one is up.
    /// Nothing happens once every provider has been asked.
    pub fn record_failure(&mut self, error: &str)
        requires
            old(self).wf(),
        ensures
            final(self).wf(),
            final(self).providers() == old(self).providers(),
            if old(self).tried() < old(self).providers().len() {
                &&& final(self).tried() == old(self).tried() + 1
                &&& final(self).errors() == old(self).errors().push(
                    provider_failure_text(old(self).providers()[old(self).tried() as int], error@),
                )
            } else {
                &&& final(self).tried() == old(self).tried()
                &&& final(self).errors() == old(self).errors()
            },
    {
        if self.next < self.providers.len() {
            let mut text = self.providers[self.next].clone();
            text.append(" failed: ");
            text.append(error);
            let ghost before = self.errors@;
            self.errors.push(text);
            assert(self.errors() =~= before.map_values(|e: String| e@).push(
                provider_failure_text(old(self).providers()[old(self).tried() as int], error@),
            ));
            self.next = self.next + 1;
        }
    }

    /// The error to report once no provider answered.
    pub fn failure_message(&self) -> (r: String)
        requires
            self.wf(),
        ensures
            r@ == lyrics_failure_message(self.errors()),
    {
        if self.errors.len() == 0 {
            return String::from_str("No lyrics providers configured.");
        }
        let mut out = self.errors[0].clone();
        let mut i: usize = 1;
        while i < self.errors.len()
            invariant
                1 <= i <= self.errors@.len(),
                out@ == joined(self.errors().take(i as int), " | "@),
            decreases self.errors@.len() - i,
        {
            proof {
                assert(self.errors().take(i + 1).drop_last() =~= self.errors().take(i as int));
            }
            out.append(" | ");
            out.append(self.errors[i].as_str());
            i += 1;
        }
        proof {
            assert(self.errors().take(self.errors@.len() as int) =~= self.errors());
        }
        out
    }
}

} // verus!
verus! {

/// The lyric-card view of the lyrics panel: whether it is open, the lines
/// chosen (from `start`, `count` of them), whether the user chose them by
/// hand, the share-card mode, its customise menu and theme picker, and the
/// card's font scale in percent.
#[derive(Debug, Clone, Copy, PartialEq, Eq, Structural)]
pub struct LyricsSelection {
    pub view_open: bool,
    pub start: usize,
    pub count: usize,
    pub manual: bool,
    pub shot_mode: bool,
    pub customize_open: bool,
    pub theme_picker_open: bool,
    pub font_scale: i32,
}

/// What happens in the lyric-card view. `active` is the timed line being
/// sung, if any.
#[derive(Debug, Clone, Copy, PartialEq, Eq, Structural)]
pub enum LyricsSelectionEvent {
    /// The view is opened.
    Open { active: Option<usize> },
    /// The close button.
    Close,
    /// A click on line `index`.
    ClickLine { index: usize, active: Option<usize> },
    /// Playback moved on; the selection follows the line sung while it was
    /// not chosen by hand, with sync on and no live stream.
    Follow { active: Option<usize>, sync_lyrics: bool, live: bool },
    /// The share-card mode is entered.
    EnterShotMode,
    /// A click on the backdrop: it closes the theme picker, else leaves the
    /// share-card mode, else closes the view.
    Backdrop,
    /// The font-scale slider.
    SetFontScale { percent: i32 },
    /// The font scale goes back to 100%.
    ResetFontScale,
}

/// The state the view starts in.
pub fn initial_lyrics_selection() -> (r: LyricsSelection)
    ensures
        r == (LyricsSelection {
            view_open: false,
            start: 0,
            count: 1,
            manual: false,
            shot_mode: false,
            customize_open: false,
            theme_picker_open: false,
            font_scale: 100,
        }),
{
    LyricsSelection {
        view_open: false,
        start: 0,
        count: 1,
        manual: false,
        shot_mode: false,
        customize_open: false,
        theme_picker_open: false,
        font_scale: 100,
    }
}

/// The lines shown as chosen among `bars` card lines: the start kept on a
/// line, between one and five lines, none past the last. `(0, 0)` without
/// lines.
pub open spec fn shown_range_spec(start: usize, count: usize, bars: usize) -> (usize, usize) {
    if bars == 0 {
        (0, 0)
    } else {
        let s = if start < bars - 1 { start } else { (bars - 1) as usize };
        let c = if count < 1 { 1 } else if count > 5 { 5 } else { count };
        let room = (bars - s) as usize;
        (s, if c < room { c } else { room })
    }
}

pub fn shown_range(start: usize, count: usize, bars: usize) -> (r: (usize, usize))
    ensures
        r == shown_range_spec(start, count, bars),
        bars > 0 ==> r.0 < bars && 1 <= r.1 <= 5 && r.0 + r.1 <= bars,
{
    if bars == 0 {
        return (0, 0);
    }
    let s = if start < bars - 1 { start } else { bars - 1 };
    let c = if count < 1 { 1 } else if count > 5 { 5 } else { count };
    let room = bars - s;
    (s, if c < room { c } else { room })
}

/// One event of the lyric-card view over `bars` card lines.
pub open spec fn lyrics_selection_spec(st: LyricsSelection, ev: LyricsSelectionEvent, bars: usize) -> LyricsSelection {
    match ev {
        LyricsSelectionEvent::Open { active } => {
            let focus = match active { Some(i) => i, None => 0 };
            let last = if bars > 0 { (bars - 1) as usize } else { 0 };
            LyricsSelection {
                view_open: true,
                start: if focus < last { focus } else { last },
                count: 1,
                manual: false,
                shot_mode: false,
                customize_open: false,
                ..st
            }
        },
        LyricsSelectionEvent::Close => LyricsSelection { view_open: false, ..st },
        LyricsSelectionEvent::ClickLine { index, active } => {
            let (s, c) = shown_range_spec(st.start, st.count, bars);
            let end = if c > 0 { s + c - 1 } else { 0 };
            if st.manual && s <= index && index <= end {
                LyricsSelection {
                    manual: false,
                    count: 1,
                    start: match active { Some(a) => a, None => st.start },
                    ..st
                }
            } else if s <= index && index - s < 5 {
                LyricsSelection { manual: true, count: (index - s + 1) as usize, ..st }
            } else {
                LyricsSelection { manual: true, start: index, count: 1, ..st }
            }
        },
        LyricsSelectionEvent::Follow { active, sync_lyrics, live } => {
            if !st.view_open || st.manual || !sync_lyrics || live {
                st
            } else {
                match active {
                    Some(a) => LyricsSelection { start: a, count: 1, ..st },
                    None => st,
                }
            }
        },
        LyricsSelectionEvent::EnterShotMode => LyricsSelection {
            shot_mode: true,
            customize_open: false,
            theme_picker_open: false,
            ..st
        },
        LyricsSelectionEvent::Backdrop => if st.theme_picker_open {
            LyricsSelection { theme_picker_open: false, ..st }
        } else if st.shot_mode {
            LyricsSelection { shot_mode: false, customize_open: false, ..st }
        } else {
            LyricsSelection { view_open: false, ..st }
        },
        LyricsSelectionEvent::SetFontScale { percent } => LyricsSelection {
            font_scale: if percent < 80 { 80 } else if percent > 130 { 130 } else { percent },
            ..st
        },
        LyricsSelectionEvent::ResetFontScale => LyricsSelection { font_scale: 100, ..st },
    }
}

/// Takes one event of the lyric-card view over `bars` card lines.
pub fn lyrics_selection_step(st: LyricsSelection, ev: LyricsSelectionEvent, bars: usize) -> (r: LyricsSelection)
    ensures
        r == lyrics_selection_spec(st, ev, bars),
{
    match ev {
        LyricsSelectionEvent::Open { active } => {
            let focus = match active {
                Some(i) => i,
                None => 0,
            };
            let last = if bars > 0 { bars - 1 } else { 0 };
            LyricsSelection {
                view_open: true,
                start: if focus < last { focus } else { last },
                count: 1,
                manual: false,
                shot_mode: false,
                customize_open: false,
                ..st
            }
        },
        LyricsSelectionEvent::Close => LyricsSelection { view_open: false, ..st },
        LyricsSelectionEvent::ClickLine { index, active } => {
            let (s, c) = shown_range(st.start, st.count, bars);
            let end = if c > 0 { s + c - 1 } else { 0 };
            if st.manual && s <= index && index <= end {
                LyricsSelection {
                    manual: false,
                    count: 1,
                    start: match active {
                        Some(a) => a,
                        None => st.start,
                    },
                    ..st
                }
            } else if s <= index && index - s < 5 {
                LyricsSelection { manual: true, count: index - s + 1, ..st }
            } else {
                LyricsSelection { manual: true, start: index, count: 1, ..st }
            }
        },
        LyricsSelectionEvent::Follow { active, sync_lyrics, live } => {
            if !st.view_open || st.manual || !sync_lyrics || live {
                st
            } else {
                match active {
                    Some(a) => LyricsSelection { start: a, count: 1, ..st },
                    None => st,
                }
            }
        },
        LyricsSelectionEvent::EnterShotMode => LyricsSelection {
            shot_mode: true,
            customize_open: false,
            theme_picker_open: false,
            ..st
        },
        LyricsSelectionEvent::Backdrop => if st.theme_picker_open {
            LyricsSelection { theme_picker_open: false, ..st }
        } else if st.shot_mode {
            LyricsSelection { shot_mode: false, customize_open: false, ..st }
        } else {
            LyricsSelection { view_open: false, ..st }
        },
        LyricsSelectionEvent::SetFontScale { percent } => LyricsSelection {
            font_scale: if percent < 80 {
                80
            } else if percent > 130 {
                130
            } else {
                percent
            },
            ..st
        },
        LyricsSelectionEvent::ResetFontScale => LyricsSelection { font_scale: 100, ..st },
    }
}

} // verus!
verus! {

/// The look of a shared lyric card.
#[derive(Debug, Clone, Copy, PartialEq, Eq, Structural)]
pub enum ScreenshotTheme {
    Lagoon,
    Ember,
    Midnight,
    /// The song's cover art behind the lyrics.
    Cover,
}

/// The card theme named in the settings; any other name means the cover.
pub fn theme_from_setting(name: &str) -> (r: ScreenshotTheme)
    ensures
        r == (if name@ == "lagoon"@ {
            ScreenshotTheme::Lagoon
        } else if name@ == "ember"@ {
            ScreenshotTheme::Ember
        } else if name@ == "midnight"@ {
            ScreenshotTheme::Midnight
        } else {
            ScreenshotTheme::Cover
        }),
{
    if crate::text::str_eq(name, "lagoon") {
        ScreenshotTheme::Lagoon
    } else if crate::text::str_eq(name, "ember") {
        ScreenshotTheme::Ember
    } else if crate::text::str_eq(name, "midnight") {
        ScreenshotTheme::Midnight
    } else {
        ScreenshotTheme::Cover
    }
}

/// The theme a card is drawn with: the cover theme falls back to lagoon
/// when the song has no cover art.
pub fn active_theme(theme: ScreenshotTheme, has_cover: bool) -> (r: ScreenshotTheme)
    ensures
        r == (if theme == ScreenshotTheme::Cover && !has_cover { ScreenshotTheme::Lagoon } else { theme }),
{
    match theme {
        ScreenshotTheme::Cover => if has_cover {
            ScreenshotTheme::Cover
        } else {
            ScreenshotTheme::Lagoon
        },
        other => other,
    }
}

/// The light themes (lagoon and ember) are drawn with dark text.
pub fn theme_uses_dark_text(theme: ScreenshotTheme) -> (r: bool)
    ensures
        r == (theme == ScreenshotTheme::Lagoon || theme == ScreenshotTheme::Ember),
{
    match theme {
        ScreenshotTheme::Lagoon | ScreenshotTheme::Ember => true,
        _ => false,
    }
}

} // verus!
