//! The debugging service: recording frames and inferring rune arrows.

use rand::distr::SampleString;
use rand_distr::Alphanumeric;
use vstd::prelude::*;

verus! {

/// How long inferring a rune may take, in seconds.
pub const SOLVE_RUNE_TIMEOUT_SECS: u64 = 10;

/// Whether every character of `s` is an ASCII letter or digit.
pub open spec fn is_alphanumeric(s: Seq<char>) -> bool {
    forall|i: int|
        0 <= i < s.len() ==> ('a' <= #[trigger] s[i] <= 'z' || 'A' <= s[i] <= 'Z' || '0' <= s[i]
            <= '9')
}

/// How many characters a recording id has.
pub const RECORDING_ID_LEN: usize = 8;

/// Draws `len` random ASCII letters and digits with
/// `rand_distr::Alphanumeric`'s `SampleString::sample_string` on the thread's
/// generator `rand::rng()`. Which characters come out is chance; only their
/// number and kind are claimed.
#[verifier::external_body]
fn random_alphanumeric(len: usize) -> (r: String)
    ensures
        r@.len() == len,
        is_alphanumeric(r@),
{
    Alphanumeric.sample_string(&mut rand::rng(), len)
}

/// What detecting a rune's arrows gave.
#[derive(Clone, Copy, Debug, PartialEq, Eq)]
pub enum RuneDetection<C> {
    /// The arrows are known.
    Complete,
    /// The detection goes on from this calibration.
    Calibrating(C),
    /// The detection failed.
    Failed,
}

/// The state of the debugging service: a recording in progress, under an
/// id, and a rune inference in progress, with its calibration and start `I`.
#[derive(Clone, Debug, PartialEq, Eq)]
pub struct DebugService<C, I> {
    recording_id: Option<String>,
    infering_rune: Option<(C, I)>,
}

/// The state that the debugging service broadcasts.
#[derive(Clone, Copy, Debug, PartialEq, Eq, Structural)]
pub struct DebugState {
    pub is_recording: bool,
    pub is_rune_auto_saving: bool,
}

impl<C: Copy, I: Copy> DebugService<C, I> {
    /// The id of the recording in progress.
    pub closed spec fn recording(&self) -> Option<Seq<char>> {
        match self.recording_id {
            Some(id) => Some(id@),
            None => None,
        }
    }

    /// The rune inference in progress.
    pub closed spec fn inference(&self) -> Option<(C, I)> {
        self.infering_rune
    }

    /// A service that neither records nor infers.
    pub fn new() -> (s: Self)
        ensures
            s.recording() is None,
            s.inference() is None,
    {
        DebugService { recording_id: None, infering_rune: None }
    }

    /// The id of the recording in progress, to save the frame under.
    pub fn recording_id(&self) -> (r: Option<&String>)
        ensures
            match r {
                Some(id) => self.recording() == Some(id@),
                None => self.recording() is None,
            },
    {
        match &self.recording_id {
            Some(id) => Some(id),
            None => None,
        }
    }

    /// Starts recording under a new random id, or stops recording.
    pub fn record_images(&mut self, start: bool)
        ensures
            start ==> (final(self).recording() matches Some(id) && id.len() == RECORDING_ID_LEN
                && is_alphanumeric(id)),
            !start ==> final(self).recording() is None,
            final(self).inference() == old(self).inference(),
    {
        self.recording_id = if start {
            Some(random_alphanumeric(RECORDING_ID_LEN))
        } else {
            None
        };
    }

    /// Starts inferring a rune from `calibrating` at `start`.
    pub fn infer_rune(&mut self, calibrating: C, start: I)
        ensures
            final(self).inference() == Some((calibrating, start)),
            final(self).recording() == old(self).recording(),
    {
        self.infering_rune = Some((calibrating, start));
    }

    /// The rune inference in progress, to detect from.
    pub fn rune_inference(&self) -> (r: Option<(C, I)>)
        ensures
            r == self.inference(),
    {
        self.infering_rune
    }

    /// Steps the rune inference `elapsed_secs` after it started, with what the
    /// detection gave, if it ran; gives the state to broadcast, which is held
    /// back when the inference times out.
    pub fn poll(
        &mut self,
        elapsed_secs: u64,
        detection: Option<RuneDetection<C>>,
        is_rune_auto_saving: bool,
    ) -> (r: Option<DebugState>)
        ensures
            final(self).recording() == old(self).recording(),
            match old(self).inference() {
                Some((c, start)) => if elapsed_secs >= SOLVE_RUNE_TIMEOUT_SECS {
                    final(self).inference() is None && r is None
                } else {
                    &&& final(self).inference() == match detection {
                        None => Some((c, start)),
                        Some(RuneDetection::Calibrating(next)) => Some((next, start)),
                        Some(_) => None,
                    }
                    &&& r == Some(
                        DebugState {
                            is_recording: old(self).recording() is Some,
                            is_rune_auto_saving,
                        },
                    )
                },
                None => final(self).inference() is None && r == Some(
                    DebugState { is_recording: old(self).recording() is Some, is_rune_auto_saving },
                ),
            },
    {
        if let Some((calibrating, start)) = self.infering_rune {
            if elapsed_secs >= SOLVE_RUNE_TIMEOUT_SECS {
                self.infering_rune = None;
                return None;
            }
            match detection {
                None => {},
                Some(RuneDetection::Calibrating(next)) => {
                    self.infering_rune = Some((next, start));
                },
                Some(_) => {
                    self.infering_rune = None;
                },
            }
        }
        Some(DebugState { is_recording: self.recording_id.is_some(), is_rune_auto_saving })
    }
}

} // verus!
