//! Rendering of progress data as plain text: stage and file-status labels,
//! byte counts in human-readable units, and the bounded line buffer behind
//! a live status display. Writing to the terminal is the caller's
//! business.

use vstd::prelude::*;

use crate::progress::{AnalysisStage, FileStatus};
use crate::text::{dec_digits, fmt_u128, fmt_u64, spec_digit};

verus! {

/// The label `format_stage` renders for each stage.
pub open spec fn spec_format_stage(stage: AnalysisStage) -> Seq<char> {
    match stage {
        AnalysisStage::Queued => "⏳ Queued"@,
        AnalysisStage::Starting => "🚀 Starting"@,
        AnalysisStage::ExtractingText => "📄 Extracting Text"@,
        AnalysisStage::ChunkingText => "✂️ Chunking Text"@,
        AnalysisStage::GeneratingEmbeddings => "🧮 Generating Embeddings"@,
        AnalysisStage::AnalyzingContent => "🔍 Analyzing Content"@,
        AnalysisStage::Finalizing => "📝 Finalizing"@,
        AnalysisStage::Completed => "✅ Completed"@,
    }
}

/// Renders an analysis stage for display.
pub fn format_stage(stage: &AnalysisStage) -> (r: String)
    ensures
        r@ == spec_format_stage(*stage),
{
    match stage {
        AnalysisStage::Queued => String::from_str("⏳ Queued"),
        AnalysisStage::Starting => String::from_str("🚀 Starting"),
        AnalysisStage::ExtractingText => String::from_str("📄 Extracting Text"),
        AnalysisStage::ChunkingText => String::from_str("✂️ Chunking Text"),
        AnalysisStage::GeneratingEmbeddings => String::from_str("🧮 Generating Embeddings"),
        AnalysisStage::AnalyzingContent => String::from_str("🔍 Analyzing Content"),
        AnalysisStage::Finalizing => String::from_str("📝 Finalizing"),
        AnalysisStage::Completed => String::from_str("✅ Completed"),
    }
}

/// The label `format_file_status` renders for each status.
pub open spec fn spec_format_file_status(status: FileStatus) -> Seq<char> {
    match status {
        FileStatus::Pending => "⏳ Pending"@,
        FileStatus::Uploading => "📤 Uploading"@,
        FileStatus::Processing => "⚙️ Processing"@,
        FileStatus::Completed => "✅ Completed"@,
        FileStatus::Failed => "❌ Failed"@,
    }
}

/// Renders a file status with its icon.
pub fn format_file_status(status: &FileStatus) -> (r: String)
    ensures
        r@ == spec_format_file_status(*status),
{
    match status {
        FileStatus::Pending => String::from_str("⏳ Pending"),
        FileStatus::Uploading => String::from_str("📤 Uploading"),
        FileStatus::Processing => String::from_str("⚙️ Processing"),
        FileStatus::Completed => String::from_str("✅ Completed"),
        FileStatus::Failed => String::from_str("❌ Failed"),
    }
}

/// A byte count scaled by `base`, in hundredths, rounded to nearest (half
/// away from zero).
pub open spec fn spec_scaled_centi(bytes: u64, base: u64) -> int {
    (100 * (bytes as int) + (base as int) / 2) / (base as int)
}

/// Two digits for the fractional part, zero-padded.
pub open spec fn spec_pad2(n: int) -> Seq<char> {
    if n < 10 {
        seq!['0', spec_digit(n)]
    } else {
        dec_digits(n)
    }
}

/// A scaled byte count rendered with two decimals and its unit.
pub open spec fn spec_scaled_text(bytes: u64, base: u64, unit: Seq<char>) -> Seq<char> {
    let centi = spec_scaled_centi(bytes, base);
    dec_digits(centi / 100) + "."@ + spec_pad2(centi % 100) + unit
}

/// What `format_bytes` renders: whole bytes below one kibibyte, otherwise
/// the count scaled to the largest binary unit it reaches, with two
/// decimals.
pub open spec fn spec_format_bytes(bytes: u64) -> Seq<char> {
    if bytes >= 1099511627776 {
        spec_scaled_text(bytes, 1099511627776, " TB"@)
    } else if bytes >= 1073741824 {
        spec_scaled_text(bytes, 1073741824, " GB"@)
    } else if bytes >= 1048576 {
        spec_scaled_text(bytes, 1048576, " MB"@)
    } else if bytes >= 1024 {
        spec_scaled_text(bytes, 1024, " KB"@)
    } else {
        dec_digits(bytes as int) + " B"@
    }
}

/// Renders a scaled byte count with two decimals and its unit.
fn scaled_text(bytes: u64, base: u64, unit: &str) -> (r: String)
    requires
        base >= 2,
    ensures
        r@ == spec_scaled_text(bytes, base, unit@),
{
    proof {
        reveal_strlit("0");
    }
    let b = bytes as u128;
    let base_wide = base as u128;
    let centi = (100 * b + base_wide / 2) / base_wide;
    let whole = centi / 100;
    let frac = centi % 100;
    let mut out = fmt_u128(whole);
    out.append(".");
    if frac < 10 {
        out.append("0");
        let digit = fmt_u128(frac);
        out.append(digit.as_str());
    } else {
        let two = fmt_u128(frac);
        out.append(two.as_str());
    }
    out.append(unit);
    proof {
        assert(out@ =~= spec_scaled_text(bytes, base, unit@));
    }
    out
}

/// Renders a byte count in human-readable binary units.
pub fn format_bytes(bytes: u64) -> (r: String)
    ensures
        r@ == spec_format_bytes(bytes),
{
    if bytes >= 1099511627776 {
        scaled_text(bytes, 1099511627776, " TB")
    } else if bytes >= 1073741824 {
        scaled_text(bytes, 1073741824, " GB")
    } else if bytes >= 1048576 {
        scaled_text(bytes, 1048576, " MB")
    } else if bytes >= 1024 {
        scaled_text(bytes, 1024, " KB")
    } else {
        let mut out = fmt_u64(bytes);
        out.append(" B");
        out
    }
}

/// One rendered status line: the icon, a space, the message.
pub open spec fn status_line(icon: Seq<char>, message: Seq<char>) -> Seq<char> {
    icon + " "@ + message
}

/// The bounded buffer of status lines behind a live display: at most
/// `max_lines` lines are kept, the oldest dropped first.
#[derive(Debug)]
pub struct LiveStatusDisplay {
    lines: Vec<String>,
    max_lines: usize,
}

impl LiveStatusDisplay {
    /// The buffered lines, oldest first.
    pub closed spec fn lines_view(&self) -> Seq<Seq<char>> {
        self.lines@.map(|i: int, s: String| s@)
    }

    /// The most lines the buffer keeps.
    pub closed spec fn spec_max_lines(&self) -> usize {
        self.max_lines
    }

    /// At most `max_lines` lines are buffered; a bound of zero still
    /// admits the single line `update_last` plants in an empty buffer.
    pub open spec fn wf(&self) -> bool {
        self.lines_view().len() <= self.spec_max_lines() || self.lines_view().len() <= 1
    }

    /// Creates an empty buffer keeping at most `max_lines` lines.
    pub fn new(max_lines: usize) -> (r: Self)
        ensures
            r.lines_view() == Seq::<Seq<char>>::empty(),
            r.spec_max_lines() == max_lines,
            r.wf(),
    {
        let r = LiveStatusDisplay { lines: Vec::new(), max_lines };
        proof {
            assert(r.lines_view() =~= Seq::<Seq<char>>::empty());
        }
        r
    }

    /// Appends one formatted status line, dropping the oldest line if the
    /// buffer would otherwise exceed its bound.
    pub fn add_status(&mut self, icon: &str, message: String)
        requires
            old(self).wf(),
        ensures
            final(self).wf(),
            final(self).spec_max_lines() == old(self).spec_max_lines(),
            final(self).lines_view() == if old(self).lines_view().len() + 1 <= old(
                self,
            ).spec_max_lines() {
                old(self).lines_view().push(status_line(icon@, message@))
            } else {
                old(self).lines_view().push(status_line(icon@, message@)).skip(1)
            },
    {
        let mut formatted = String::from_str(icon);
        formatted.append(" ");
        formatted.append(message.as_str());
        let ghost before = self.lines@;
        self.lines.push(formatted);
        proof {
            assert(self.lines_view() =~= old(self).lines_view().push(
                status_line(icon@, message@),
            ));
        }
        if self.lines.len() > self.max_lines {
            let ghost pushed = self.lines@;
            let _dropped = self.lines.remove(0);
            proof {
                assert(self.lines_view() =~= pushed.map(|i: int, s: String| s@).skip(1));
            }
        }
    }

    /// Replaces the newest line, or starts the buffer with the line if it
    /// is empty.
    pub fn update_last(&mut self, icon: &str, message: String)
        requires
            old(self).wf(),
        ensures
            final(self).wf(),
            final(self).spec_max_lines() == old(self).spec_max_lines(),
            old(self).lines_view().len() == 0 ==> final(self).lines_view() == seq![
                status_line(icon@, message@),
            ],
            old(self).lines_view().len() > 0 ==> final(self).lines_view() == old(
                self,
            ).lines_view().update(
                old(self).lines_view().len() - 1,
                status_line(icon@, message@),
            ),
    {
        let mut formatted = String::from_str(icon);
        formatted.append(" ");
        formatted.append(message.as_str());
        if self.lines.len() == 0 {
            self.lines.push(formatted);
            proof {
                assert(self.lines_view() =~= seq![status_line(icon@, message@)]);
            }
        } else {
            let idx = self.lines.len() - 1;
            self.lines[idx] = formatted;
            proof {
                assert(self.lines_view() =~= old(self).lines_view().update(
                    old(self).lines_view().len() - 1,
                    status_line(icon@, message@),
                ));
            }
        }
    }

    /// Empties the buffer.
    pub fn clear(&mut self)
        ensures
            final(self).lines_view() == Seq::<Seq<char>>::empty(),
            final(self).spec_max_lines() == old(self).spec_max_lines(),
            final(self).wf(),
    {
        self.lines.clear();
        proof {
            assert(self.lines_view() =~= Seq::<Seq<char>>::empty());
        }
    }

    /// A copy of the buffered lines, oldest first, for rendering.
    pub fn rendered_lines(&self) -> (r: Vec<String>)
        ensures
            r@.len() == self.lines_view().len(),
            forall|i: int| 0 <= i < r@.len() ==> (#[trigger] r@[i])@ == self.lines_view()[i],
    {
        let n = self.lines.len();
        let mut out: Vec<String> = Vec::new();
        let mut i: usize = 0;
        while i < n
            invariant
                n == self.lines@.len(),
                i <= n,
                out@.len() == i,
                forall|j: int| 0 <= j < i ==> (#[trigger] out@[j])@ == self.lines_view()[j],
            decreases n - i,
        {
            out.push(self.lines[i].clone());
            i = i + 1;
        }
        out
    }
}

} // verus!
