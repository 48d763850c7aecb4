//! The looping animation: two decoded frame sequences, and which frame of
//! which sequence is on screen at a given moment.

use crate::state::{AppState, WidgetEvent};
use vstd::arithmetic::div_mod::{lemma_hoist_over_denominator, lemma_mod_multiples_vanish};
use vstd::prelude::*;

verus! {

/// How long each frame stays on screen, in milliseconds.
pub const FRAME_INTERVAL_MILLIS: u64 = 50;

/// The frame on screen after `elapsed_millis` of a sequence of `len` frames:
/// the number of whole frame intervals that have passed, modulo `len`.
pub open spec fn frame_index(elapsed_millis: nat, len: nat) -> nat
    recommends
        len > 0,
{
    (elapsed_millis / (FRAME_INTERVAL_MILLIS as nat)) % len
}

/// The larger of two numbers.
pub open spec fn larger(a: u32, b: u32) -> u32 {
    if a >= b {
        a
    } else {
        b
    }
}

/// The smallest box that holds both sizes: the larger width and the larger
/// height.
pub open spec fn bounding_size(a: (u32, u32), b: (u32, u32)) -> (u32, u32) {
    (larger(a.0, b.0), larger(a.1, b.1))
}

/// The pixel buffers of a list of frames.
pub open spec fn frames_of(data: Seq<Vec<u8>>) -> Seq<Seq<u8>> {
    Seq::new(data.len(), |i: int| data[i]@)
}

/// Why an animation could not be loaded.
#[derive(Clone, Copy, Debug, PartialEq, Eq, Structural)]
pub enum LoadError {
    /// The bytes are not a GIF that can be decoded.
    Decode,
    /// The GIF decoded to no frame at all.
    NoFrames,
}

/// What the animation asks of the toolkit after an event.
#[derive(Clone, Copy, Debug, PartialEq, Eq, Structural)]
pub enum GifAction {
    /// Arm the frame timer.
    RequestTimer,
    /// Ask for the next animation frame.
    RequestAnimFrame,
    /// Repaint, then arm the frame timer again.
    PaintAndRequestTimer,
    /// Nothing.
    Ignore,
}

/// The frame buffers that a GIF decodes to, each as RGBA bytes, or `None`
/// where the bytes cannot be decoded.
pub uninterp spec fn gif_frames(bytes: Seq<u8>) -> Option<Seq<Seq<u8>>>;

/// Width and height of the GIF's screen, or `None` where its header cannot be
/// read.
pub uninterp spec fn gif_dimensions(bytes: Seq<u8>) -> Option<(u32, u32)>;

/// `image::ImageError`, the decoder's error: carried as an opaque value, of
/// which nothing is known but that decoding failed.
#[verifier::external_type_specification]
#[verifier::external_body]
pub struct ExImageError(image::ImageError);

/// `image::codecs::gif::GifDecoder::new` on the bytes, then
/// `AnimationDecoder::into_frames` and `Frames::collect_frames`: every frame
/// of the animation in order, each handed out as the raw bytes of its RGBA
/// buffer. The outcome depends on the bytes alone.
#[verifier::external_body]
fn decode_frames(bytes: &[u8]) -> (r: Result<Vec<Vec<u8>>, image::ImageError>)
    ensures
        match r {
            Ok(frames) => gif_frames(bytes@) == Some(frames_of(frames@)),
            Err(_) => gif_frames(bytes@) is None,
        },
{
    let decoder = image::codecs::gif::GifDecoder::new(bytes)?;
    let frames = image::AnimationDecoder::into_frames(decoder).collect_frames()?;
    Ok(frames.into_iter().map(|frame| frame.into_buffer().into_raw()).collect())
}

/// `image::codecs::gif::GifDecoder::new` on the bytes, then
/// `ImageDecoder::dimensions`: width and height of the GIF's screen. The
/// outcome depends on the bytes alone.
#[verifier::external_body]
fn decode_dimensions(bytes: &[u8]) -> (r: Result<(u32, u32), image::ImageError>)
    ensures
        match r {
            Ok(size) => gif_dimensions(bytes@) == Some(size),
            Err(_) => gif_dimensions(bytes@) is None,
        },
{
    let decoder = image::codecs::gif::GifDecoder::new(bytes)?;
    Ok(image::ImageDecoder::dimensions(&decoder))
}

/// One decoded animation: its frames in order, never none, and the size they
/// share.
#[derive(Debug)]
pub struct GifData {
    data: Vec<Vec<u8>>,
    width: u32,
    height: u32,
}

/// What loading yields from the two outcomes of decoding: the frames and the
/// size, or the reason for failing. Where either could not be decoded that is
/// `Decode`; where both could and there is no frame it is `NoFrames`.
pub open spec fn assembled(frames: Option<Seq<Seq<u8>>>, size: Option<(u32, u32)>) -> Result<
    (Seq<Seq<u8>>, (u32, u32)),
    LoadError,
> {
    if frames is None || size is None {
        Err(LoadError::Decode)
    } else if frames->0.len() == 0 {
        Err(LoadError::NoFrames)
    } else {
        Ok((frames->0, size->0))
    }
}

impl GifData {
    /// The pixel buffers of the frames, in order.
    pub closed spec fn frames(self) -> Seq<Seq<u8>> {
        frames_of(self.data@)
    }

    /// Width and height of every frame.
    pub closed spec fn size(self) -> (u32, u32) {
        (self.width, self.height)
    }

    /// There is at least one frame.
    #[verifier::type_invariant]
    pub open spec fn wf(self) -> bool {
        self.frames().len() > 0
    }

    /// What a caller sees of a loading result: the frames and the size, or
    /// the reason for failing.
    pub open spec fn outcome(r: Result<GifData, LoadError>) -> Result<
        (Seq<Seq<u8>>, (u32, u32)),
        LoadError,
    > {
        match r {
            Ok(gif) => Ok((gif.frames(), gif.size())),
            Err(e) => Err(e),
        }
    }

    /// An animation of the given frames and size, or `NoFrames` where there
    /// is none.
    pub fn new(data: Vec<Vec<u8>>, dimensions: (u32, u32)) -> (r: Result<GifData, LoadError>)
        ensures
            GifData::outcome(r) == assembled(Some(frames_of(data@)), Some(dimensions)),
            r is Ok <==> data@.len() > 0,
            r is Err ==> r->Err_0 == LoadError::NoFrames,
            r is Ok ==> r->Ok_0.wf(),
    {
        GifData::assemble(Some(data), Some(dimensions))
    }

    /// Puts an animation together from the two outcomes of decoding, each
    /// `None` where decoding failed.
    pub fn assemble(frames: Option<Vec<Vec<u8>>>, size: Option<(u32, u32)>) -> (r: Result<
        GifData,
        LoadError,
    >)
        ensures
            GifData::outcome(r) == assembled(frames_view(frames), size),
            r is Ok ==> r->Ok_0.wf(),
    {
        match (frames, size) {
            (Some(data), Some(dimensions)) => {
                if data.len() == 0 {
                    Err(LoadError::NoFrames)
                } else {
                    Ok(GifData { data, width: dimensions.0, height: dimensions.1 })
                }
            },
            _ => Err(LoadError::Decode),
        }
    }

    /// The number of frames, which is never zero.
    pub fn len(&self) -> (r: usize)
        ensures
            r == self.frames().len(),
            r > 0,
    {
        proof {
            use_type_invariant(self);
        }
        self.data.len()
    }

    /// Width and height of every frame.
    pub fn dimensions(&self) -> (r: (u32, u32))
        ensures
            r == self.size(),
    {
        (self.width, self.height)
    }

    /// The pixel buffer of frame `index`.
    pub fn frame(&self, index: usize) -> (r: &Vec<u8>)
        requires
            index < self.frames().len(),
        ensures
            r@ == self.frames()[index as int],
    {
        &self.data[index]
    }
}

/// The frames of a decoding outcome, where there is one.
pub open spec fn frames_view(frames: Option<Vec<Vec<u8>>>) -> Option<Seq<Seq<u8>>> {
    match frames {
        Some(data) => Some(frames_of(data@)),
        None => None,
    }
}

/// What loading the bytes of a GIF file yields.
pub open spec fn loaded(bytes: Seq<u8>) -> Result<(Seq<Seq<u8>>, (u32, u32)), LoadError> {
    assembled(gif_frames(bytes), gif_dimensions(bytes))
}

/// Decodes the bytes of a GIF file into an animation. Fails with `Decode`
/// where the bytes cannot be decoded, and with `NoFrames` where they decode
/// to an empty animation.
pub fn load_gif(bytes: &[u8]) -> (r: Result<GifData, LoadError>)
    ensures
        GifData::outcome(r) == loaded(bytes@),
        r is Ok ==> r->Ok_0.wf(),
{
    let frames = match decode_frames(bytes) {
        Ok(data) => Some(data),
        Err(_) => None,
    };
    let size = match decode_dimensions(bytes) {
        Ok(dimensions) => Some(dimensions),
        Err(_) => None,
    };
    GifData::assemble(frames, size)
}

/// The animation player: the sequence shown while a session has been
/// started, and the one shown otherwise.
#[derive(Debug)]
pub struct GifWidget {
    active: GifData,
    idle: GifData,
}

impl GifWidget {
    /// The sequence shown once a session has been started.
    pub closed spec fn active_gif(self) -> GifData {
        self.active
    }

    /// The sequence shown before a session is started.
    pub closed spec fn idle_gif(self) -> GifData {
        self.idle
    }

    /// The sequence on screen: the active one if a session has been started,
    /// the idle one otherwise.
    pub open spec fn shown(self, started: bool) -> GifData {
        if started {
            self.active_gif()
        } else {
            self.idle_gif()
        }
    }

    /// The size that the player asks for: large enough for either sequence.
    pub open spec fn preferred_size(self) -> (u32, u32) {
        bounding_size(self.active_gif().size(), self.idle_gif().size())
    }

    /// A player of the two animations.
    pub fn new(active: GifData, idle: GifData) -> (r: Self)
        ensures
            r.active_gif() == active,
            r.idle_gif() == idle,
    {
        GifWidget { active, idle }
    }

    /// A player of the animations in two GIF files, given by their bytes.
    /// The idle one is decoded first; the first failure is the one reported.
    pub fn load(active_bytes: &[u8], idle_bytes: &[u8]) -> (r: Result<GifWidget, LoadError>)
        ensures
            match r {
                Ok(widget) => {
                    &&& loaded(idle_bytes@) == GifData::outcome(Ok(widget.idle_gif()))
                    &&& loaded(active_bytes@) == GifData::outcome(Ok(widget.active_gif()))
                },
                Err(e) => if loaded(idle_bytes@) is Err {
                    loaded(idle_bytes@) == Err::<(Seq<Seq<u8>>, (u32, u32)), _>(e)
                } else {
                    loaded(active_bytes@) == Err::<(Seq<Seq<u8>>, (u32, u32)), _>(e)
                },
            },
    {
        let idle = match load_gif(idle_bytes) {
            Ok(gif) => gif,
            Err(e) => {
                return Err(e);
            },
        };
        let active = match load_gif(active_bytes) {
            Ok(gif) => gif,
            Err(e) => {
                return Err(e);
            },
        };
        Ok(GifWidget::new(active, idle))
    }

    /// Handles one event: the timer and the animation frame take turns, so
    /// that each repaint falls on a frame of the toolkit.
    pub fn event(&mut self, event: WidgetEvent) -> (action: GifAction)
        ensures
            *final(self) == *old(self),
            action == match event {
                WidgetEvent::WindowConnected => GifAction::RequestTimer,
                WidgetEvent::Timer => GifAction::RequestAnimFrame,
                WidgetEvent::AnimFrame => GifAction::PaintAndRequestTimer,
                WidgetEvent::Other => GifAction::Ignore,
            },
    {
        match event {
            WidgetEvent::WindowConnected => GifAction::RequestTimer,
            WidgetEvent::Timer => GifAction::RequestAnimFrame,
            WidgetEvent::AnimFrame => GifAction::PaintAndRequestTimer,
            WidgetEvent::Other => GifAction::Ignore,
        }
    }

    /// The size that the player asks for: the larger width and the larger
    /// height of the two sequences.
    pub fn layout(&self) -> (r: (u32, u32))
        ensures
            r == self.preferred_size(),
            r == bounding_size(self.active_gif().size(), self.idle_gif().size()),
    {
        let a = self.active.dimensions();
        let b = self.idle.dimensions();
        let width: u32 = if a.0 >= b.0 {
            a.0
        } else {
            b.0
        };
        let height: u32 = if a.1 >= b.1 {
            a.1
        } else {
            b.1
        };
        (width, height)
    }

    /// The sequence to show for `data` and the index of its frame that is
    /// on screen `elapsed_millis` after the player was made.
    pub fn paint(&self, data: &AppState, elapsed_millis: u128) -> (r: (&GifData, usize))
        ensures
            *r.0 == self.shown(data@.started),
            r.1 == frame_index(elapsed_millis as nat, r.0.frames().len()),
            r.1 < r.0.frames().len(),
    {
        let gif = if data.started() {
            &self.active
        } else {
            &self.idle
        };
        let index = select_frame(elapsed_millis, gif.len());
        (gif, index)
    }
}

/// The index of the frame on screen after `elapsed_millis` of a sequence of
/// `len` frames.
pub fn select_frame(elapsed_millis: u128, len: usize) -> (r: usize)
    requires
        len > 0,
    ensures
        r == frame_index(elapsed_millis as nat, len as nat),
        r < len,
{
    let ticks: u128 = elapsed_millis / 50;
    let index: u128 = ticks % (len as u128);
    index as usize
}

/// Frame selection is periodic: after `k` whole runs through a sequence of
/// `len` frames the same frame is on screen again.
pub proof fn lemma_frame_index_periodic(t: nat, k: nat, len: nat)
    requires
        len > 0,
    ensures
        frame_index(t + k * len * (FRAME_INTERVAL_MILLIS as nat), len) == frame_index(t, len),
{
    let d = FRAME_INTERVAL_MILLIS as int;
    let t = t as int;
    let j = (k * len) as int;
    lemma_hoist_over_denominator(t, j, d as nat);
    assert((t + j * d) / d == t / d + j);
    lemma_mod_multiples_vanish(k as int, t / d, len as int);
    assert(len as int * k as int == j) by (nonlinear_arith)
        requires
            j == (k * len) as int,
    ;
}

} // verus!
