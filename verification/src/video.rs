//! Video generation bookkeeping: a fixed configuration and an accumulator
//! of raw frame byte buffers.  Encoding the frames into a playable
//! container is an external concern; this type only counts and stores.

use vstd::prelude::*;
use vstd::slice::slice_to_vec;

verus! {

/// Fixed configuration of one video generation session.
pub struct VideoConfig {
    pub width: u32,
    pub height: u32,
    pub fps: u32,
    pub duration: u32,
    pub quality: String,
    pub format: String,
}

/// A progress report a caller may surface while generating.
pub struct ProgressUpdate {
    pub stage: String,
    pub message: String,
    pub progress: u32,
}

/// Accumulates raw frame byte buffers under a fixed configuration.
pub struct VideoGenerator {
    config: VideoConfig,
    frames: Vec<Vec<u8>>,
}

impl VideoGenerator {
    /// The generator's configuration.
    pub closed spec fn spec_config(&self) -> VideoConfig {
        self.config
    }

    /// The accumulated frames, each as its byte sequence.
    pub closed spec fn spec_frames(&self) -> Seq<Seq<u8>> {
        self.frames.deep_view()
    }

    /// Build a generator with the given configuration and no frames.
    pub fn new(
        width: u32,
        height: u32,
        fps: u32,
        duration: u32,
        quality: String,
        format: String,
    ) -> (r: VideoGenerator)
        ensures
            r.spec_config().width == width,
            r.spec_config().height == height,
            r.spec_config().fps == fps,
            r.spec_config().duration == duration,
            r.spec_config().quality == quality,
            r.spec_config().format == format,
            r.spec_frames() == Seq::<Seq<u8>>::empty(),
    {
        let g = VideoGenerator {
            config: VideoConfig { width, height, fps, duration, quality, format },
            frames: Vec::new(),
        };
        proof {
            assert(g.spec_frames() =~= Seq::<Seq<u8>>::empty());
        }
        g
    }

    /// Total frame count the configuration calls for: frames per second
    /// times duration in seconds.
    pub fn get_total_frames(&self) -> (r: u32)
        requires
            self.spec_config().fps * self.spec_config().duration <= u32::MAX,
        ensures
            r == self.spec_config().fps * self.spec_config().duration,
    {
        self.config.fps * self.config.duration
    }

    /// The configured frame width in pixels.
    pub fn get_width(&self) -> (r: u32)
        ensures
            r == self.spec_config().width,
    {
        self.config.width
    }

    /// The configured frame height in pixels.
    pub fn get_height(&self) -> (r: u32)
        ensures
            r == self.spec_config().height,
    {
        self.config.height
    }

    /// Append one frame's bytes; the configuration and the frames already
    /// captured are untouched.
    pub fn add_frame(&mut self, frame_data: &[u8])
        ensures
            final(self).spec_config() == old(self).spec_config(),
            final(self).spec_frames() == old(self).spec_frames().push(frame_data@),
    {
        let v = slice_to_vec(frame_data);
        self.frames.push(v);
        proof {
            assert(v.deep_view() =~= frame_data@);
            assert(self.spec_frames() =~~= old(self).spec_frames().push(frame_data@));
        }
    }

    /// How many frames have been captured so far.
    pub fn get_frame_count(&self) -> (r: usize)
        ensures
            r == self.spec_frames().len(),
    {
        self.frames.len()
    }

    /// Discard every captured frame; the configuration is untouched.
    pub fn clear_frames(&mut self)
        ensures
            final(self).spec_config() == old(self).spec_config(),
            final(self).spec_frames() == Seq::<Seq<u8>>::empty(),
    {
        self.frames.clear();
        proof {
            assert(self.spec_frames() =~= Seq::<Seq<u8>>::empty());
        }
    }
}

} // verus!
