//! What a generation run is configured with, and how far it has come.

use vstd::prelude::*;

verus! {

/// The phase of a generation run.
#[allow(non_camel_case_types)]
#[derive(Debug, Clone, Copy, PartialEq, Eq, Structural)]
pub enum GenStatus {
    IDLE,
    GENERATING,
    SUCCESS,
    FAILED,
}

/// How long a finished run keeps showing its outcome before the progress
/// returns to idle, in milliseconds.
pub const COMPLETION_DISPLAY_MILLIS: u64 = 700;

/// The progress of a run as plain values: its phase, the length of the
/// queue, and the number of songs that are done.
pub struct ProgressView {
    pub status: GenStatus,
    pub total: nat,
    pub completed: nat,
}

impl ProgressView {
    /// Whether the counts are such as a machine holds.
    pub open spec fn in_range(self) -> bool {
        self.total <= usize::MAX && self.completed <= usize::MAX
    }

    /// The length of the queue, counted as one where the queue is empty.
    pub open spec fn share_denominator(self) -> int {
        if self.total == 0 {
            1
        } else {
            self.total as int
        }
    }

    /// What the songs done so far have added to the percentage, as the
    /// numerator of a fraction over `share_denominator`: each song adds 99
    /// over the length of the queue.
    pub open spec fn gain_numerator(self) -> int {
        99 * (self.completed as int)
    }

    /// The whole percents that are complete: none while idle; otherwise one
    /// for having started, and the gain of the songs done, rounded down. The
    /// number stops at the largest that an `i32` holds.
    pub open spec fn percent(self) -> int {
        if self.status == GenStatus::IDLE {
            0
        } else {
            let whole = 1 + self.gain_numerator() / self.share_denominator();
            if whole > i32::MAX {
                i32::MAX as int
            } else {
                whole
            }
        }
    }

    /// Nothing is running and nothing is done.
    pub open spec fn idle() -> ProgressView {
        ProgressView { status: GenStatus::IDLE, total: 0, completed: 0 }
    }

    /// A run has begun; its queue is not known yet.
    pub open spec fn started() -> ProgressView {
        ProgressView { status: GenStatus::GENERATING, total: 0, completed: 0 }
    }

    /// The queue has arrived with `len` entries, none of them done.
    pub open spec fn with_queue(self, len: nat) -> ProgressView {
        ProgressView { status: self.status, total: len, completed: 0 }
    }

    /// `count` more songs are done. The number of songs done stops at the
    /// largest that a `usize` holds.
    pub open spec fn after_songs(self, count: nat) -> ProgressView {
        ProgressView {
            status: self.status,
            total: self.total,
            completed: if self.completed + count <= usize::MAX {
                self.completed + count
            } else {
                usize::MAX as nat
            },
        }
    }

    /// The run has ended: with success if the document was written, else with
    /// failure.
    pub open spec fn finished(self, written: bool) -> ProgressView {
        ProgressView {
            status: if written {
                GenStatus::SUCCESS
            } else {
                GenStatus::FAILED
            },
            total: self.total,
            completed: self.completed,
        }
    }
}

/// One song done adds its share exactly once: 99 over the length of the
/// queue, counted as one where the queue is empty. Phase and queue stay.
pub proof fn lemma_one_song_adds_its_share(progress: ProgressView)
    requires
        progress.completed < usize::MAX,
    ensures
        progress.after_songs(1).gain_numerator() == progress.gain_numerator() + 99,
        progress.after_songs(1).share_denominator() == progress.share_denominator(),
        progress.after_songs(1).status == progress.status,
{
}

/// Songs add up: `a` songs done and then `b` more leave the progress where
/// `a + b` songs done at once leave it, and no song done leaves it as it is.
/// Only the number of songs counts, not which they were nor their order.
pub proof fn lemma_songs_add_up(progress: ProgressView, a: nat, b: nat)
    requires
        progress.in_range(),
    ensures
        progress.after_songs(a).after_songs(b) == progress.after_songs(a + b),
        progress.after_songs(0) == progress,
{
}

/// Once every entry of a queue that is not empty is done, the songs have
/// added 99 percent exactly, and a run that is not idle shows 100 percent.
pub proof fn lemma_whole_queue_adds_99(progress: ProgressView, len: nat)
    requires
        0 < len <= usize::MAX,
    ensures
        ({
            let done = progress.with_queue(len).after_songs(len);
            &&& done.completed == len
            &&& done.total == len
            &&& done.gain_numerator() == 99 * done.share_denominator()
            &&& done.status != GenStatus::IDLE ==> done.percent() == 100
        }),
{
    assert((99 * (len as int)) / (len as int) == 99) by (nonlinear_arith)
        requires
            len > 0,
    ;
}

/// With an empty queue the share of a song is 99 over one, not over zero,
/// and a run that is not idle is at one percent while no song is done.
pub proof fn lemma_empty_queue(progress: ProgressView)
    ensures
        progress.with_queue(0).share_denominator() == 1,
        progress.with_queue(0).gain_numerator() == 0,
        progress.status != GenStatus::IDLE ==> progress.with_queue(0).percent() == 1,
{
}

/// While a run is not idle its percentage is at least 1 and does not fall
/// when a song is done; it is at most 100 while no more songs are done than
/// the queue holds.
pub proof fn lemma_percent_bounds(progress: ProgressView)
    requires
        progress.in_range(),
        progress.status != GenStatus::IDLE,
    ensures
        1 <= progress.percent(),
        progress.percent() <= progress.after_songs(1).percent(),
        progress.completed <= progress.total ==> progress.percent() <= 100,
{
    let d = progress.share_denominator();
    let n = progress.gain_numerator();
    let m = progress.after_songs(1).gain_numerator();
    assert(0 <= n / d) by (nonlinear_arith)
        requires
            0 <= n,
            d >= 1,
    ;
    assert(n / d <= m / d) by (nonlinear_arith)
        requires
            0 <= n <= m,
            d >= 1,
    ;
    if progress.completed <= progress.total {
        assert(n / d <= 99) by (nonlinear_arith)
            requires
                0 <= n <= 99 * d,
                d >= 1,
        ;
    }
}

/// The progress of a generation run.
#[derive(Debug, Clone, Copy, PartialEq, Eq)]
pub struct GenerationProgress {
    pub status: GenStatus,
    pub total: usize,
    pub completed: usize,
}

impl View for GenerationProgress {
    type V = ProgressView;

    open spec fn view(&self) -> ProgressView {
        ProgressView {
            status: self.status,
            total: self.total as nat,
            completed: self.completed as nat,
        }
    }
}

impl GenerationProgress {
    /// The progress before any run.
    pub fn new() -> (progress: GenerationProgress)
        ensures
            progress@ == ProgressView::idle(),
    {
        GenerationProgress { status: GenStatus::IDLE, total: 0, completed: 0 }
    }

    /// The phase of the run.
    pub fn status(&self) -> (status: GenStatus)
        ensures
            status == self@.status,
    {
        self.status
    }

    /// The length of the queue.
    pub fn total(&self) -> (total: usize)
        ensures
            total == self@.total,
    {
        self.total
    }

    /// The number of songs that are done.
    pub fn completed(&self) -> (completed: usize)
        ensures
            completed == self@.completed,
    {
        self.completed
    }

    /// The whole percents that are complete.
    pub fn percent(&self) -> (percent: i32)
        ensures
            percent == self@.percent(),
            0 <= percent,
            self@.completed <= self@.total ==> percent <= 100,
    {
        match self.status {
            GenStatus::IDLE => 0,
            _ => {
                let denominator: u128 = if self.total == 0 {
                    1
                } else {
                    self.total as u128
                };
                let numerator: u128 = 99 * (self.completed as u128);
                let gain: u128 = numerator / denominator;
                proof {
                    if self.completed <= self.total {
                        assert(numerator as int / denominator as int <= 99) by (nonlinear_arith)
                            requires
                                numerator <= 99 * denominator,
                                denominator >= 1,
                        ;
                    }
                }
                if gain >= 0x7fff_ffff {
                    i32::MAX
                } else {
                    1 + gain as i32
                }
            },
        }
    }

    /// Whether a run may begin: nothing is running and no outcome is on show.
    pub fn is_idle(&self) -> (idle: bool)
        ensures
            idle == (self@.status == GenStatus::IDLE),
            idle == (self@.percent() == 0),
    {
        proof {
            assert(self@.gain_numerator() / self@.share_denominator() >= 0) by (nonlinear_arith)
                requires
                    self@.gain_numerator() >= 0,
                    self@.share_denominator() >= 1,
            ;
        }
        match self.status {
            GenStatus::IDLE => true,
            _ => false,
        }
    }

    /// Begins a run: the phase is generating and one percent is complete.
    pub fn start(&mut self)
        ensures
            final(self)@ == ProgressView::started(),
    {
        self.status = GenStatus::GENERATING;
        self.total = 0;
        self.completed = 0;
    }

    /// Takes note of the length of the queue; none of its entries is done.
    pub fn queue_fetched(&mut self, len: usize)
        ensures
            final(self)@ == old(self)@.with_queue(len as nat),
    {
        self.total = len;
        self.completed = 0;
    }

    /// Takes note that one more song is done.
    pub fn song_done(&mut self)
        ensures
            final(self)@ == old(self)@.after_songs(1),
    {
        if self.completed < usize::MAX {
            self.completed = self.completed + 1;
        }
    }

    /// Ends the run: with success if the document was written, else with
    /// failure. What is complete stays on show.
    pub fn finish(&mut self, written: bool)
        ensures
            final(self)@ == old(self)@.finished(written),
    {
        self.status = if written {
            GenStatus::SUCCESS
        } else {
            GenStatus::FAILED
        };
    }

    /// Returns to idle, with nothing complete.
    pub fn reset(&mut self)
        ensures
            final(self)@ == ProgressView::idle(),
    {
        self.status = GenStatus::IDLE;
        self.total = 0;
        self.completed = 0;
    }
}

impl Default for GenerationProgress {
    /// The progress before any run.
    fn default() -> (progress: GenerationProgress)
        ensures
            progress@ == ProgressView::idle(),
    {
        GenerationProgress::new()
    }
}

/// What the user has entered for the playlist, and the progress of the run.
#[derive(Debug, Clone)]
pub struct AppData {
    pub title: String,
    pub author: String,
    pub image_path: String,
    pub output_path: String,
    pub description: String,
    pub progress: GenerationProgress,
}

impl Default for AppData {
    /// Empty fields but for the description, and an idle progress.
    fn default() -> (data: AppData)
        ensures
            data.title@.len() == 0,
            data.author@.len() == 0,
            data.image_path@.len() == 0,
            data.output_path@.len() == 0,
            data.description@ == "playlist of ranked queue maps"@,
            data.progress@ == ProgressView::idle(),
    {
        AppData {
            title: String::new(),
            author: String::new(),
            image_path: String::new(),
            output_path: String::new(),
            description: "playlist of ranked queue maps".to_owned(),
            progress: GenerationProgress::new(),
        }
    }
}

} // verus!
