//! The callbacks of the frontend that drive one frame, and the passthrough that a core uses
//! during `run` to send audio and video and to read input.
use crate::environment::{EnvPayload, EnvReply};
use crate::types::{button_id, DevicePort, JoypadButton, RETRO_DEVICE_JOYPAD};
use vstd::prelude::*;

verus! {

/// The types of the frontend's callbacks.
pub trait Frontend {
    /// `(selector, payload) -> accepted`, with the string the frontend wrote, if any.
    type Environment: Fn(u32, EnvPayload) -> EnvReply;
    /// Takes one stereo frame: `(left, right)`.
    type AudioSample: Fn(i16, i16);
    /// Takes interleaved stereo samples and the number of frames among them; returns the number
    /// of frames the frontend consumed.
    type AudioSampleBatch: Fn(&[i16], usize) -> usize;
    /// Polls the input devices.
    type InputPoll: Fn();
    /// `(port, device, index, id) -> state`.
    type InputState: Fn(u32, u32, u32, u32) -> i16;
    /// `(pixels, width, height, pitch)`.
    type VideoRefresh: Fn(&[u8], u32, u32, usize);
}

/// The frame callbacks as a core sees them during one `run`.
pub struct Runtime<'a, F: Frontend> {
    audio_sample: Option<&'a F::AudioSample>,
    audio_sample_batch: Option<&'a F::AudioSampleBatch>,
    input_state: Option<&'a F::InputState>,
    video_refresh: Option<&'a F::VideoRefresh>,
}

/// The callback may be called with any arguments.
pub open spec fn audio_sample_callable<A: Fn(i16, i16)>(f: A) -> bool {
    forall|l: i16, r: i16| call_requires(f, (l, r))
}

pub open spec fn audio_sample_batch_callable<B: Fn(&[i16], usize) -> usize>(f: B) -> bool {
    forall|s: &[i16], n: usize| call_requires(f, (s, n))
}

pub open spec fn input_poll_callable<P: Fn()>(f: P) -> bool {
    call_requires(f, ())
}

pub open spec fn input_state_callable<S: Fn(u32, u32, u32, u32) -> i16>(f: S) -> bool {
    forall|p: u32, d: u32, i: u32, id: u32| call_requires(f, (p, d, i, id))
}

pub open spec fn video_refresh_callable<V: Fn(&[u8], u32, u32, usize)>(f: V) -> bool {
    forall|s: &[u8], w: u32, h: u32, p: usize| call_requires(f, (s, w, h, p))
}

impl<'a, F: Frontend> Runtime<'a, F> {
    pub closed spec fn audio_sample(&self) -> Option<&'a F::AudioSample> {
        self.audio_sample
    }

    pub closed spec fn audio_sample_batch(&self) -> Option<&'a F::AudioSampleBatch> {
        self.audio_sample_batch
    }

    pub closed spec fn input_state(&self) -> Option<&'a F::InputState> {
        self.input_state
    }

    pub closed spec fn video_refresh(&self) -> Option<&'a F::VideoRefresh> {
        self.video_refresh
    }

    pub open spec fn wf(&self) -> bool {
        &&& self.audio_sample() matches Some(f) ==> audio_sample_callable(*f)
        &&& self.audio_sample_batch() matches Some(f) ==> audio_sample_batch_callable(*f)
        &&& self.input_state() matches Some(f) ==> input_state_callable(*f)
        &&& self.video_refresh() matches Some(f) ==> video_refresh_callable(*f)
    }

    pub fn new(
        audio_sample: Option<&'a F::AudioSample>,
        audio_sample_batch: Option<&'a F::AudioSampleBatch>,
        input_state: Option<&'a F::InputState>,
        video_refresh: Option<&'a F::VideoRefresh>,
    ) -> (r: Self)
        requires
            audio_sample matches Some(f) ==> audio_sample_callable(*f),
            audio_sample_batch matches Some(f) ==> audio_sample_batch_callable(*f),
            input_state matches Some(f) ==> input_state_callable(*f),
            video_refresh matches Some(f) ==> video_refresh_callable(*f),
        ensures
            r.wf(),
            r.audio_sample() == audio_sample,
            r.audio_sample_batch() == audio_sample_batch,
            r.input_state() == input_state,
            r.video_refresh() == video_refresh,
    {
        Runtime { audio_sample, audio_sample_batch, input_state, video_refresh }
    }

    /// Sends interleaved stereo samples. The number of frames handed over is half the number of
    /// samples: a trailing odd sample is not sent. The result is the number of frames the
    /// frontend reports as consumed, capped at the number handed over.
    pub fn upload_audio_frame(&self, frame: &[i16]) -> (r: usize)
        requires
            self.wf(),
            self.audio_sample_batch().is_some(),
        ensures
            exists|consumed: usize|
                #[trigger] call_ensures(
                    *self.audio_sample_batch().unwrap(),
                    (frame, (frame@.len() / 2) as usize),
                    consumed,
                ) && r == if consumed < frame@.len() / 2 {
                    consumed
                } else {
                    (frame@.len() / 2) as usize
                },
            r * 2 <= frame@.len(),
    {
        let frames = frame.len() / 2;
        match self.audio_sample_batch {
            Some(cb) => {
                let consumed = cb(frame, frames);
                if consumed < frames {
                    consumed
                } else {
                    frames
                }
            },
            None => 0,
        }
    }

    /// Sends one stereo frame.
    pub fn upload_audio_sample(&self, left: i16, right: i16)
        requires
            self.wf(),
            self.audio_sample().is_some(),
        ensures
            call_ensures(*self.audio_sample().unwrap(), (left, right), ()),
    {
        match self.audio_sample {
            Some(cb) => cb(left, right),
            None => {},
        }
    }

    /// Sends one video frame, as it is, with its dimensions and the byte length of a row.
    pub fn upload_video_frame(&self, frame: &[u8], width: u32, height: u32, pitch: usize)
        requires
            self.wf(),
            self.video_refresh().is_some(),
        ensures
            call_ensures(*self.video_refresh().unwrap(), (frame, width, height, pitch), ()),
    {
        match self.video_refresh {
            Some(cb) => cb(frame, width, height, pitch),
            None => {},
        }
    }

    /// Whether the button is pressed on the joypad in `port`: the frontend reports a non-zero
    /// state for it, queried as device class joypad, index 0.
    pub fn is_joypad_button_pressed(&self, port: DevicePort, btn: JoypadButton) -> (r: bool)
        requires
            self.wf(),
            self.input_state().is_some(),
        ensures
            exists|state: i16|
                #[trigger] call_ensures(
                    *self.input_state().unwrap(),
                    (port.0 as u32, RETRO_DEVICE_JOYPAD, 0u32, button_id(btn)),
                    state,
                ) && r == (state != 0),
    {
        match self.input_state {
            Some(cb) => {
                let port = port.into_inner() as u32;
                let id = u32::from(btn);
                cb(port, RETRO_DEVICE_JOYPAD, 0, id) != 0
            },
            None => false,
        }
    }
}

} // verus!
