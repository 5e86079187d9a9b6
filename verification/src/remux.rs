//! Live progress parsing of the remux tool's diagnostic output.
//!
//! The direct-remux strategy points the external tool at the remote
//! manifest and reads its diagnostic stream line by line. Two signal
//! classes matter: segment-open markers, which are counted, and elapsed
//! clock markers, parsed to seconds; a progress message is produced
//! whenever the clock advances at least the report interval since the
//! last report, with the percentage capped below completion. A final
//! summary line produces one last message. The process handling lives in
//! the shell; every decision about a line is made here.

use crate::errors::{ErrorView, MediaError};
use crate::text::{all_digits, dec_rep, dec_val, find_char_from, find_substring, first_match,
    is_prefix_of, parse_u32, split_chars, split_str, starts_with, u64_to_string};
use vstd::prelude::*;

verus! {

/// How far, in seconds, the elapsed clock must advance before another
/// progress message is produced.
pub const REPORT_INTERVAL_SECS: u64 = 3;

/// The seconds a diagnostic clock fragment denotes: hours, minutes and
/// seconds separated by colons, with any fraction after a dot ignored.
/// A fragment of any other shape denotes nothing.
pub open spec fn clock_seconds_of(t: Seq<char>) -> Option<u64> {
    let parts = split_chars(t, ':');
    if parts.len() == 3 {
        let h = parts[0];
        let m = parts[1];
        let sec = parts[2].take(find_char_from(parts[2], '.', 0));
        if h.len() > 0 && all_digits(h) && dec_val(h) <= u32::MAX && m.len() > 0 && all_digits(m)
            && dec_val(m) <= u32::MAX && sec.len() > 0 && all_digits(sec) && dec_val(sec)
            <= u32::MAX {
            Some((dec_val(h) * 3600 + dec_val(m) * 60 + dec_val(sec)) as u64)
        } else {
            None
        }
    } else {
        None
    }
}

/// Parses a diagnostic clock fragment to seconds.
pub fn parse_clock(t: &str) -> (r: Option<u64>)
    ensures
        r == clock_seconds_of(t@),
{
    let parts = split_str(t, ':');
    if parts.len() != 3 {
        return None;
    }
    proof {
        assert(parts@.map_values(|x: String| x@)[0] == parts@[0]@);
        assert(parts@.map_values(|x: String| x@)[1] == parts@[1]@);
        assert(parts@.map_values(|x: String| x@)[2] == parts@[2]@);
    }
    let h = match parse_u32(parts[0].as_str()) {
        Option::Some(v) => v,
        Option::None => {
            return None;
        },
    };
    let m = match parse_u32(parts[1].as_str()) {
        Option::Some(v) => v,
        Option::None => {
            return None;
        },
    };
    let sec_full = &parts[2];
    proof {
        crate::text::lemma_find_char_from_bounds(sec_full@, '.', 0);
    }
    let dot = crate::text::find_char(sec_full.as_str(), '.', 0);
    let sec_str = sec_full.as_str().substring_char(0, dot);
    proof {
        assert(sec_str@ =~= parts@[2]@.take(find_char_from(parts@[2]@, '.', 0)));
    }
    let s = match parse_u32(sec_str) {
        Option::Some(v) => v,
        Option::None => {
            return None;
        },
    };
    Some((h as u64) * 3600 + (m as u64) * 60 + (s as u64))
}

/// The elapsed seconds a diagnostic line reports: the clock fragment
/// after the first elapsed marker, cut at the following space.
pub open spec fn line_elapsed(line: Seq<char>) -> Option<u64> {
    match first_match(line, "time="@, 0) {
        None => None,
        Some(k) => {
            let rest = line.skip(k + 5);
            clock_seconds_of(rest.take(find_char_from(rest, ' ', 0)))
        },
    }
}

/// Reads the elapsed seconds a diagnostic line reports, if any.
pub fn parse_line_elapsed(line: &str) -> (r: Option<u64>)
    ensures
        r == line_elapsed(line@),
{
    let k = match find_substring(line, "time=") {
        Option::Some(k) => k,
        Option::None => {
            return None;
        },
    };
    let n = line.unicode_len();
    proof {
        reveal_strlit("time=");
        crate::text::lemma_first_match_props(line@, "time="@, 0);
        assert(crate::text::matches_at(line@, "time="@, k as int));
    }
    let rest = line.substring_char(k + 5, n);
    proof {
        assert(rest@ =~= line@.skip(k + 5));
        crate::text::lemma_find_char_from_bounds(rest@, ' ', 0);
    }
    let sp = crate::text::find_char(rest, ' ', 0);
    let frag = rest.substring_char(0, sp);
    proof {
        assert(frag@ =~= line@.skip(k + 5).take(find_char_from(line@.skip(k + 5), ' ', 0)));
    }
    parse_clock(frag)
}

/// The progress percentage: opened segments against the total, capped at
/// 99 before completion; an unknown total reads as 99.
pub open spec fn percent_of(opened: u64, total: u64) -> int {
    if total == 0 || opened >= total {
        99
    } else if (opened as int) * 100 / (total as int) > 99 {
        99
    } else {
        (opened as int) * 100 / (total as int)
    }
}

/// Computes the capped progress percentage.
pub fn percent(opened: u64, total: u64) -> (p: u64)
    ensures
        p == percent_of(opened, total),
        p <= 99,
{
    if total == 0 || opened >= total {
        99
    } else {
        let wide = (opened as u128) * 100 / (total as u128);
        proof {
            assert((opened as int) * 100 / (total as int) < 100) by (nonlinear_arith)
                requires
                    0 < (total as int),
                    0 <= (opened as int) < (total as int),
            ;
        }
        let p = wide as u64;
        if p > 99 {
            99
        } else {
            p
        }
    }
}

/// The text of one progress message: the elapsed seconds, the segment
/// count, and the capped percentage.
pub open spec fn progress_message(secs: u64, opened: u64, total: u64) -> Seq<char> {
    "elapsed "@ + dec_rep(secs as nat) + "s, segments "@ + dec_rep(opened as nat) + " of "@
        + dec_rep(total as nat) + ", "@ + dec_rep(percent_of(opened, total) as nat) + "%"@
}

/// Builds the text of one progress message.
pub fn render_progress_message(secs: u64, opened: u64, total: u64) -> (r: String)
    ensures
        r@ == progress_message(secs, opened, total),
{
    let mut out = String::from_str("elapsed ");
    let s1 = u64_to_string(secs);
    out.append(s1.as_str());
    out.append("s, segments ");
    let s2 = u64_to_string(opened);
    out.append(s2.as_str());
    out.append(" of ");
    let s3 = u64_to_string(total);
    out.append(s3.as_str());
    out.append(", ");
    let s4 = u64_to_string(percent(opened, total));
    out.append(s4.as_str());
    out.append("%");
    assert(out@ =~= progress_message(secs, opened, total));
    out
}

/// The progress state of one direct-remux invocation.
pub struct RemuxProgress {
    /// How many segments the manifest was known to have, zero if unknown.
    pub total_segments: u64,
    /// How many segment-open markers have been seen.
    pub segments_opened: u64,
    /// The elapsed seconds of the last report, if one was made.
    pub last_reported: Option<u64>,
}

/// Whether a new clock reading is due for a report: always on the first
/// reading, afterwards only when it advanced at least the report
/// interval.
pub open spec fn report_due(last: Option<u64>, secs: u64) -> bool {
    match last {
        None => true,
        Some(prev) => secs >= prev + REPORT_INTERVAL_SECS,
    }
}

impl RemuxProgress {
    /// A fresh progress state for a manifest with the given segment
    /// count (zero when unknown).
    pub fn new(total_segments: u64) -> (s: Self)
        ensures
            s.total_segments == total_segments,
            s.segments_opened == 0,
            s.last_reported is None,
    {
        RemuxProgress { total_segments, segments_opened: 0, last_reported: None }
    }

    /// Classifies one diagnostic line and decides what, if anything, to
    /// report. A segment-open marker is counted silently; a clock marker
    /// that advanced enough produces a progress message and becomes the
    /// new report mark; the final summary line produces one last
    /// message; every other line is ignored.
    pub fn on_line(&mut self, line: &str) -> (r: Option<String>)
        ensures
            crate::text::has_substring(line@, "Opening '"@) ==> ({
                &&& r is None
                &&& final(self).segments_opened == (if old(self).segments_opened < u64::MAX {
                    old(self).segments_opened + 1
                } else {
                    old(self).segments_opened as int
                })
                &&& final(self).last_reported == old(self).last_reported
                &&& final(self).total_segments == old(self).total_segments
            }),
            !crate::text::has_substring(line@, "Opening '"@) && line_elapsed(line@) is Some ==> ({
                let secs = line_elapsed(line@)->0;
                &&& final(self).segments_opened == old(self).segments_opened
                &&& final(self).total_segments == old(self).total_segments
                &&& (report_due(old(self).last_reported, secs) ==> (r matches Some(m) && m@
                    == progress_message(
                    secs,
                    old(self).segments_opened,
                    old(self).total_segments,
                ) && final(self).last_reported == Some(secs)))
                &&& (!report_due(old(self).last_reported, secs) ==> (r is None
                    && final(self).last_reported == old(self).last_reported))
            }),
            !crate::text::has_substring(line@, "Opening '"@) && line_elapsed(line@) is None ==> ({
                &&& *final(self) == *old(self)
                &&& (is_prefix_of("video:"@, line@) ==> (r matches Some(m) && m@
                    == "remux summary received"@))
                &&& (!is_prefix_of("video:"@, line@) ==> r is None)
            }),
    {
        if crate::text::contains_substring(line, "Opening '") {
            if self.segments_opened < u64::MAX {
                self.segments_opened = self.segments_opened + 1;
            }
            return None;
        }
        match parse_line_elapsed(line) {
            Option::Some(secs) => {
                let due = match self.last_reported {
                    Option::None => true,
                    Option::Some(prev) => secs >= prev && secs - prev >= REPORT_INTERVAL_SECS,
                };
                if due {
                    self.last_reported = Some(secs);
                    Some(
                        render_progress_message(
                            secs,
                            self.segments_opened,
                            self.total_segments,
                        ),
                    )
                } else {
                    None
                }
            },
            Option::None => {
                if starts_with(line, "video:") {
                    Some(String::from_str("remux summary received"))
                } else {
                    None
                }
            },
        }
    }
}

/// The outcome of the remux invocation: a zero exit code yields the final
/// local path, any other exit code is an external-tool error carrying it.
pub fn remux_outcome(code: i32, local_path: &str) -> (r: Result<String, MediaError>)
    ensures
        code == 0 <==> r is Ok,
        r matches Ok(p) ==> p@ == local_path@,
        r matches Err(e) ==> e@ matches ErrorView::ExternalTool { code: c } && c == code,
{
    if code == 0 {
        Ok(local_path.to_owned())
    } else {
        Err(MediaError::ExternalToolError { code })
    }
}

} // verus!
