//! The control plane's state transitions. The event loop itself (a
//! bounded command channel multiplexed with a periodic snapshot timer)
//! lives outside the library; every decision it takes is a method here,
//! so each command's effect on capture, playback and display state is
//! verified for every prior state.
//!
//! `Coordinator` owns the three components as one value: the control
//! loop's single-writer view of them. A caller that keeps each component
//! behind its own lock applies the same transitions through the
//! component methods that these methods call.

use crate::grain::GrainSettings;
use crate::input::InputStreamState;
use crate::output::OutputStreamState;
use vstd::prelude::*;

verus! {

/// A decoupled snapshot of playback state, republished on a fixed
/// cadence so an observer never contends with the real-time threads.
#[derive(Debug)]
pub struct DisplayState {
    pub play_buffer: Vec<i32>,
    pub cursor: usize,
    pub is_recording: bool,
}

impl Default for DisplayState {
    /// Empty buffer, origin cursor, not recording.
    fn default() -> (r: DisplayState)
        ensures
            r.play_buffer@.len() == 0,
            r.cursor == 0,
            !r.is_recording,
    {
        DisplayState { play_buffer: Vec::new(), cursor: 0, is_recording: false }
    }
}

/// The settings surface offered to the external caller: grain-engine
/// settings plus the optional loop-range bounds.
#[derive(Clone, Copy, Debug)]
pub struct PlaySettings {
    pub grain: GrainSettings,
    pub range_start: Option<usize>,
    pub range_end: Option<usize>,
}

/// Copies a sample buffer; the display snapshot keeps its own copy so
/// observers never borrow the playback side's buffer.
fn clone_samples(v: &Vec<i32>) -> (r: Vec<i32>)
    ensures
        r@ == v@,
{
    let n: usize = v.len();
    let mut r: Vec<i32> = Vec::new();
    let mut i: usize = 0;
    while i < n
        invariant
            i <= n,
            n == v@.len(),
            r@ == v@.take(i as int),
        decreases n - i,
    {
        r.push(v[i]);
        proof {
            assert(v@.take(i + 1) =~= v@.take(i as int).push(v@[i as int]));
        }
        i = i + 1;
    }
    proof {
        assert(v@.take(n as int) =~= v@);
    }
    r
}

/// The single-threaded control plane's state: capture, playback and the
/// display snapshot. Each public method is the complete effect of one
/// external command (or of the periodic snapshot tick).
#[derive(Debug)]
pub struct Coordinator {
    pub input: InputStreamState,
    pub output: OutputStreamState,
    pub display: DisplayState,
}

impl Coordinator {
    pub open spec fn wf(self) -> bool {
        self.output.wf()
    }

    /// `StartRecord`: installs a fresh capture buffer and marks the
    /// snapshot as recording. Playback is untouched.
    pub fn start_record(&mut self)
        ensures
            final(self).input.recording(),
            final(self).input.record_buffer.unwrap()@ == Seq::<i32>::empty(),
            final(self).display.is_recording,
            final(self).display.play_buffer@ == old(self).display.play_buffer@,
            final(self).display.cursor == old(self).display.cursor,
            final(self).output == old(self).output,
            old(self).wf() ==> final(self).wf(),
    {
        self.input.start_record();
        self.display.is_recording = true;
    }

    /// The first half of `StopRecord`: takes the captured samples out,
    /// leaving capture idle. The caller rate-converts them off the
    /// real-time path and then hands the result to
    /// `install_play_buffer`; when nothing was being recorded there is
    /// nothing to install and all state is left as it was.
    pub fn stop_record(&mut self) -> (r: Option<Vec<i32>>)
        ensures
            r == old(self).input.record_buffer,
            !final(self).input.recording(),
            final(self).output == old(self).output,
            final(self).display.play_buffer@ == old(self).display.play_buffer@,
            final(self).display.cursor == old(self).display.cursor,
            final(self).display.is_recording == old(self).display.is_recording,
            old(self).wf() ==> final(self).wf(),
    {
        self.input.stop_record()
    }

    /// The second half of `StopRecord`: installs the rate-converted
    /// buffer into playback (which resets range, cursor and grains) and
    /// republishes it in the display snapshot with recording cleared.
    pub fn install_play_buffer(&mut self, buffer: Vec<i32>)
        ensures
            final(self).output.play_buffer@ == buffer@,
            final(self).output.range is None,
            final(self).output.cursor == 0,
            final(self).output.grains.grains@.len() == 0,
            final(self).output.grains.settings == old(self).output.grains.settings,
            final(self).display.play_buffer@ == buffer@,
            !final(self).display.is_recording,
            final(self).display.cursor == old(self).display.cursor,
            final(self).input == old(self).input,
            old(self).wf() ==> final(self).wf(),
    {
        let converted: Vec<i32> = clone_samples(&buffer);
        self.output.set_play_buffer(converted);
        self.display.is_recording = false;
        self.display.play_buffer = buffer;
    }

    /// `ClearPlayBuffer`: empties the playback buffer; the next render
    /// pass sees a degenerate range and produces silence.
    pub fn clear_play_buffer(&mut self)
        ensures
            final(self).output.play_buffer@.len() == 0,
            final(self).output.range == old(self).output.range,
            final(self).output.cursor == old(self).output.cursor,
            final(self).output.grains.grains@ == old(self).output.grains.grains@,
            final(self).output.grains.settings == old(self).output.grains.settings,
            final(self).output.degenerate(),
            final(self).input == old(self).input,
            final(self).display.play_buffer@ == old(self).display.play_buffer@,
            final(self).display.cursor == old(self).display.cursor,
            final(self).display.is_recording == old(self).display.is_recording,
            old(self).wf() ==> final(self).wf(),
    {
        self.output.clear_play_buffer();
    }

    /// `SetSettings`: pushes the loop range and the grain settings into
    /// playback; idempotent, last write wins.
    pub fn set_settings(&mut self, settings: PlaySettings)
        requires
            settings.grain.wf(),
        ensures
            final(self).output.range == Some(
                (
                    (match settings.range_start {
                        Some(v) => v,
                        None => 0usize,
                    }),
                    (match settings.range_end {
                        Some(v) => v,
                        None => old(self).output.play_buffer.len() as usize,
                    }),
                ),
            ),
            final(self).output.grains.settings == settings.grain,
            final(self).output.grains.grains@ == old(self).output.grains.grains@,
            final(self).output.play_buffer@ == old(self).output.play_buffer@,
            final(self).output.cursor == old(self).output.cursor,
            final(self).input == old(self).input,
            final(self).display.play_buffer@ == old(self).display.play_buffer@,
            final(self).display.cursor == old(self).display.cursor,
            final(self).display.is_recording == old(self).display.is_recording,
            old(self).wf() ==> final(self).wf(),
    {
        self.output.set_play_range(settings.range_start, settings.range_end);
        self.output.set_grain_settings(settings.grain);
    }

    /// The periodic snapshot tick: republishes the playback cursor into
    /// the display snapshot.
    pub fn tick(&mut self)
        ensures
            final(self).display.cursor == old(self).output.cursor,
            final(self).display.play_buffer@ == old(self).display.play_buffer@,
            final(self).display.is_recording == old(self).display.is_recording,
            final(self).output == old(self).output,
            final(self).input == old(self).input,
            old(self).wf() ==> final(self).wf(),
    {
        let c: usize = self.output.play_cursor();
        self.display.cursor = c;
    }

    /// The observation surface: the current display snapshot.
    pub fn display_state(&self) -> (r: &DisplayState)
        ensures
            *r == self.display,
    {
        &self.display
    }
}

impl Default for Coordinator {
    /// Idle capture, empty playback, empty snapshot.
    fn default() -> (r: Coordinator)
        ensures
            !r.input.recording(),
            r.output.play_buffer@.len() == 0,
            r.output.cursor == 0,
            r.output.range is None,
            r.output.grains.grains@.len() == 0,
            r.display.play_buffer@.len() == 0,
            r.display.cursor == 0,
            !r.display.is_recording,
            r.wf(),
    {
        Coordinator {
            input: InputStreamState::default(),
            output: OutputStreamState::default(),
            display: DisplayState::default(),
        }
    }
}

} // verus!
