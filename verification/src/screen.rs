//! Rolling screen-frame buffer.
//!
//! A capture loop outside the crate grabs the primary display every
//! [`CAPTURE_INTERVAL_MS`] milliseconds and hands the raw pixels to
//! [`capture_one_frame`], which encodes them and stores the result in a
//! bounded ring: when the ring is full the oldest frame is evicted. Readers
//! take a point-in-time copy, each frame base64-encoded for transport. A
//! failed capture cycle is swallowed by policy: the buffer keeps whatever it
//! had and no error is surfaced anywhere.

use vstd::prelude::*;

verus! {

/// Capacity of the ring: about five seconds of history at the capture
/// interval below.
pub const FRAME_CAPACITY: usize = 10;

/// Milliseconds between two capture cycles.
pub const CAPTURE_INTERVAL_MS: u64 = 500;

/// Captures are scaled down until neither dimension exceeds this, to bound
/// the encoding cost.
pub const MAX_DIM: u32 = 1280;

/// The base64 text (standard alphabet, padded) that encodes a byte sequence.
pub uninterp spec fn b64_of(bytes: Seq<u8>) -> Seq<char>;

/// The JPEG bytes produced for a raw RGBA capture of the given dimensions
/// after the aspect-preserving resize to fit `max_dim`.
pub uninterp spec fn jpeg_of(width: u32, height: u32, max_dim: u32, rgba: Seq<u8>) -> Seq<u8>;

/// A frame small enough that its base64 encoding fits in memory.
pub open spec fn frame_fits(f: Seq<u8>) -> bool {
    f.len() <= usize::MAX / 4
}

/// Relies on base64: `engine::general_purpose::STANDARD.encode` writes four
/// output characters for every three input bytes, the last group padded, and
/// its output depends on the input bytes alone.
#[verifier::external_body]
fn b64_encode(bytes: &Vec<u8>) -> (r: String)
    requires
        frame_fits(bytes@),
    ensures
        r@ == b64_of(bytes@),
        r@.len() == 4 * ((bytes@.len() + 2) / 3),
{
    base64::Engine::encode(&base64::engine::general_purpose::STANDARD, bytes)
}

/// Relies on image: `RgbaImage::from_raw` accepts the buffer exactly when
/// it holds at least four bytes per pixel for the given dimensions; an
/// accepted image is resized with `DynamicImage::resize` (nearest-neighbour,
/// aspect preserved, both output dimensions between one and `max_dim`) and
/// written out by the JPEG encoder, which takes any dimensions up to its
/// sixteen-bit limit — so with `max_dim` under that limit the whole pipeline
/// fails only for a short buffer, and the bytes produced depend on the
/// arguments alone.
#[verifier::external_body]
fn encode_frame_jpeg(width: u32, height: u32, max_dim: u32, rgba: Vec<u8>) -> (r: Option<Vec<u8>>)
    requires
        width >= 1,
        height >= 1,
        1 <= max_dim <= 65535,
    ensures
        (r matches Some(j) ==> j@ == jpeg_of(width, height, max_dim, rgba@)),
        (r is Some) == (4 * width * height <= rgba@.len()),
{
    let buffer = match image::RgbaImage::from_raw(width, height, rgba) {
        Some(b) => b,
        None => return None,
    };
    let resized = image::DynamicImage::ImageRgba8(buffer).resize(
        max_dim,
        max_dim,
        image::imageops::FilterType::Nearest,
    );
    let mut jpeg: Vec<u8> = Vec::new();
    match resized.write_to(&mut std::io::Cursor::new(&mut jpeg), image::ImageFormat::Jpeg) {
        Ok(()) => Some(jpeg),
        Err(_) => None,
    }
}

/// The ring after one more frame arrives: appended at the tail, evicting the
/// oldest entry first when the ring is already full.
pub open spec fn push_spec(buf: Seq<Seq<u8>>, f: Seq<u8>) -> Seq<Seq<u8>> {
    if buf.len() < FRAME_CAPACITY {
        buf.push(f)
    } else {
        buf.skip(1).push(f)
    }
}

/// The ring contents after a run of successful captures, starting empty.
pub open spec fn buffer_after(captures: Seq<Seq<u8>>) -> Seq<Seq<u8>>
    decreases captures.len(),
{
    if captures.len() == 0 {
        Seq::empty()
    } else {
        push_spec(buffer_after(captures.drop_last()), captures.last())
    }
}

/// The bounded ring of recent frames, oldest first. One capture loop writes
/// it and any number of readers copy it out; the lock around it lives with
/// the threads, outside the crate.
pub struct FrameBuffer {
    frames: Vec<Vec<u8>>,
}

impl View for FrameBuffer {
    type V = Seq<Seq<u8>>;

    closed spec fn view(&self) -> Seq<Seq<u8>> {
        self.frames@.map_values(|f: Vec<u8>| f@)
    }
}

impl FrameBuffer {
    /// The ring never exceeds its capacity and every frame it holds is
    /// small enough to encode.
    pub open spec fn wf(&self) -> bool {
        &&& self@.len() <= FRAME_CAPACITY
        &&& forall|i: int| 0 <= i < self@.len() ==> frame_fits(#[trigger] self@[i])
    }

    /// A fresh, empty ring.
    pub fn new() -> (b: Self)
        ensures
            b.wf(),
            b@ == Seq::<Seq<u8>>::empty(),
    {
        let b = FrameBuffer { frames: Vec::new() };
        proof {
            assert(b@ =~= Seq::<Seq<u8>>::empty());
        }
        b
    }

    /// Append one frame, evicting the oldest if the ring is full.
    pub fn push_frame(&mut self, frame: Vec<u8>)
        requires
            old(self).wf(),
            frame_fits(frame@),
        ensures
            final(self).wf(),
            final(self)@ == push_spec(old(self)@, frame@),
    {
        if self.frames.len() >= FRAME_CAPACITY {
            self.frames.remove(0);
            proof {
                assert(self@ =~= old(self)@.skip(1));
            }
        }
        self.frames.push(frame);
        proof {
            assert(self@ =~= push_spec(old(self)@, frame@));
        }
    }

    /// The current contents, oldest first.
    pub fn get_buffer(&self) -> (r: &Vec<Vec<u8>>)
        ensures
            r@.map_values(|f: Vec<u8>| f@) == self@,
    {
        &self.frames
    }
}

/// Encode one raw capture for the ring: empty dimensions are rejected here,
/// before the device pipeline is asked; anything else goes to the JPEG
/// pipeline at the library's size bound, which succeeds exactly when the
/// buffer holds the full four bytes per pixel. The capture loop calls this
/// outside the ring's lock, so the critical section is the push alone.
pub fn encode_capture(width: u32, height: u32, rgba: Vec<u8>) -> (r: Option<Vec<u8>>)
    ensures
        (r matches Some(j) ==> j@ == jpeg_of(width, height, MAX_DIM, rgba@)),
        width >= 1 && height >= 1 ==> ((r is Some) == (4 * width * height <= rgba@.len())),
        (width == 0 || height == 0) ==> r is None,
{
    if width == 0 || height == 0 {
        return None;
    }
    encode_frame_jpeg(width, height, MAX_DIM, rgba)
}

/// Run one capture cycle's tail: encode the raw pixels and store the frame.
/// A valid capture — nonzero dimensions, the full pixel data, an encoding
/// that fits in memory — is pushed to the tail; every failure aborts only
/// this cycle and leaves the ring untouched, and by policy nothing is
/// reported either way.
pub fn capture_one_frame(buf: &mut FrameBuffer, width: u32, height: u32, rgba: Vec<u8>)
    requires
        old(buf).wf(),
    ensures
        final(buf).wf(),
        final(buf)@ == old(buf)@ || final(buf)@ == push_spec(
            old(buf)@,
            jpeg_of(width, height, MAX_DIM, rgba@),
        ),
        (width >= 1 && height >= 1 && 4 * width * height <= rgba@.len() && frame_fits(
            jpeg_of(width, height, MAX_DIM, rgba@),
        )) ==> final(buf)@ == push_spec(old(buf)@, jpeg_of(width, height, MAX_DIM, rgba@)),
        (width == 0 || height == 0 || 4 * width * height > rgba@.len()) ==> final(buf)@ == old(
            buf,
        )@,
{
    let jpeg = match encode_capture(width, height, rgba) {
        Some(j) => j,
        None => return,
    };
    if jpeg.len() <= usize::MAX / 4 {
        buf.push_frame(jpeg);
    }
}

/// A point-in-time copy of the ring for transport: every frame base64
/// encoded, oldest first. Never blocks the capture loop and never errors,
/// whatever was or was not captured before.
pub fn get_recent_frames(buf: &FrameBuffer) -> (r: Vec<String>)
    requires
        buf.wf(),
    ensures
        r@.len() == buf@.len(),
        forall|i: int| 0 <= i < r@.len() ==> (#[trigger] r@[i])@ == b64_of(buf@[i]),
{
    let frames = buf.get_buffer();
    let mut out: Vec<String> = Vec::new();
    let mut i: usize = 0;
    while i < frames.len()
        invariant
            buf.wf(),
            frames@.map_values(|f: Vec<u8>| f@) == buf@,
            i <= frames@.len(),
            out@.len() == i,
            forall|j: int| 0 <= j < i ==> (#[trigger] out@[j])@ == b64_of(buf@[j]),
        decreases frames@.len() - i,
    {
        assert(frames@[i as int]@ == buf@[i as int]);
        let s = b64_encode(&frames[i]);
        out.push(s);
        i = i + 1;
    }
    out
}

/// Capacity law: however many captures have succeeded, the ring holds
/// exactly the most recent ones up to its capacity, oldest first; once more
/// than [`FRAME_CAPACITY`] have succeeded, it is exactly the last
/// [`FRAME_CAPACITY`] of them.
pub proof fn lemma_buffer_recent(captures: Seq<Seq<u8>>)
    ensures
        ({
            let start = if captures.len() <= FRAME_CAPACITY {
                0int
            } else {
                captures.len() - FRAME_CAPACITY
            };
            &&& buffer_after(captures) == captures.subrange(start, captures.len() as int)
            &&& buffer_after(captures).len() == captures.len() as int - start
        }),
    decreases captures.len(),
{
    if captures.len() == 0 {
        assert(buffer_after(captures) =~= captures.subrange(0, 0));
    } else {
        let head = captures.drop_last();
        lemma_buffer_recent(head);
        let start = if captures.len() <= FRAME_CAPACITY {
            0int
        } else {
            captures.len() - FRAME_CAPACITY
        };
        assert(buffer_after(captures) =~= captures.subrange(start, captures.len() as int));
    }
}

} // verus!
