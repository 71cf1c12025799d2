//! The lower-level frame type, which draws directly to the window's swap chain image.

use crate::geom::Rect;
use crate::gpu::{CommandEncoder, Device, Queue, TextureFormat, TextureView};
use crate::window::Id;
use vstd::prelude::*;
use vstd::rwlock::{RwLock, RwLockPredicate};

verus! {

/// What every encoder held by a frame satisfies: it records for the given device.
struct EncoderPred {
    device: u64,
}

impl RwLockPredicate<CommandEncoder> for EncoderPred {
    closed spec fn inv(self, e: CommandEncoder) -> bool {
        e.spec_device() == self.device
    }
}

/// Lets drawing code draw one frame to the surface of a window.
///
/// A frame belongs to one window (`window_id`) and is that window's `nth` frame. It borrows the
/// texture view of the swap chain image to draw into and the queue that will run the frame's
/// commands, and owns the one command encoder of the frame. The encoder sits behind a lock, so
/// that several call sites, on several threads, can record into it in turn; the lock only ever
/// holds an encoder of the device that the frame was built with.
pub struct RawFrame<'swap_chain> {
    command_encoder: RwLock<CommandEncoder, EncoderPred>,
    window_id: Id,
    nth: u64,
    swap_chain_texture: &'swap_chain TextureView,
    queue: &'swap_chain Queue,
    texture_format: TextureFormat,
    window_rect: Rect,
}

impl<'swap_chain> RawFrame<'swap_chain> {
    /// The window that the frame belongs to.
    pub closed spec fn spec_window_id(&self) -> Id {
        self.window_id
    }

    /// The frame's number among the frames of its window, as the caller gave it.
    pub closed spec fn spec_nth(&self) -> u64 {
        self.nth
    }

    /// The texture view that the frame draws into.
    pub closed spec fn spec_swap_chain_texture(&self) -> TextureView {
        *self.swap_chain_texture
    }

    /// The queue that will run the frame's commands.
    pub closed spec fn spec_queue(&self) -> Queue {
        *self.queue
    }

    /// The pixel format of the texture.
    pub closed spec fn spec_texture_format(&self) -> TextureFormat {
        self.texture_format
    }

    /// The window's drawable rectangle when the frame was built.
    pub closed spec fn spec_rect(&self) -> Rect {
        self.window_rect
    }

    /// The device of the encoder that the frame holds, now and at every later point.
    pub closed spec fn encoder_device(&self) -> u64 {
        self.command_encoder.pred().device
    }

    /// The encoder, the texture and the queue all belong to one device: the recorded commands
    /// then reach the queue that can draw to the texture.
    pub open spec fn targets_one_device(&self) -> bool {
        &&& self.encoder_device() == self.spec_queue().spec_device()
        &&& self.spec_swap_chain_texture().spec_device() == self.spec_queue().spec_device()
    }

    /// A new frame with an empty command encoder created on `device`.
    ///
    /// The caller hands in a queue and a texture of that same device; nothing here checks it,
    /// and `targets_one_device` says whether it holds.
    pub fn new_empty(
        device: &'swap_chain Device,
        queue: &'swap_chain Queue,
        window_id: Id,
        nth: u64,
        swap_chain_texture: &'swap_chain TextureView,
        texture_format: TextureFormat,
        window_rect: Rect,
    ) -> (frame: Self)
        ensures
            frame.spec_window_id() == window_id,
            frame.spec_nth() == nth,
            frame.spec_swap_chain_texture() == *swap_chain_texture,
            frame.spec_queue() == *queue,
            frame.spec_texture_format() == texture_format,
            frame.spec_rect() == window_rect,
            frame.encoder_device() == device.spec_id(),
            frame.targets_one_device() <==> (device.spec_id() == queue.spec_device()
                && swap_chain_texture.spec_device() == queue.spec_device()),
    {
        let command_encoder = device.create_command_encoder();
        let command_encoder = RwLock::new(
            command_encoder,
            Ghost(EncoderPred { device: device.spec_id() }),
        );
        RawFrame {
            command_encoder,
            window_id,
            nth,
            swap_chain_texture,
            queue,
            texture_format,
            window_rect,
        }
    }

    /// Consumes the frame once its drawing is done and hands back its command encoder, to be
    /// finished and submitted to the frame's queue.
    ///
    /// The frame is moved in, so it cannot be consumed twice. Every guarded access has been
    /// released by then, as `command_encoder` releases the lock before it returns.
    pub fn finish(self) -> (encoder: CommandEncoder)
        ensures
            encoder.spec_device() == self.encoder_device(),
    {
        let RawFrame { command_encoder, .. } = self;
        command_encoder.into_inner()
    }

    /// Records commands into the frame's encoder, under the lock.
    ///
    /// Waits until no other caller holds the lock, hands the encoder to `draw`, and puts back
    /// the encoder that `draw` returns before it returns itself, whatever `draw` did. `draw` may
    /// record into the encoder but must return an encoder of the same device. Accesses from
    /// several threads never overlap; in which order waiting callers get the lock is not fixed.
    /// Should `draw` panic, the encoder is not put back and the frame is lost: later accesses and
    /// `finish` wait for ever rather than see a half-recorded stream.
    pub fn command_encoder<F>(&self, draw: F)
        where
            F: FnOnce(CommandEncoder) -> CommandEncoder,
        requires
            forall|e: CommandEncoder|
                e.spec_device() == self.encoder_device() ==> #[trigger] draw.requires((e,)),
            forall|e: CommandEncoder, r: CommandEncoder|
                #[trigger] draw.ensures((e,), r) ==> r.spec_device() == e.spec_device(),
        ensures
            exists|e: CommandEncoder, r: CommandEncoder|
                e.spec_device() == self.encoder_device() && #[trigger] draw.ensures((e,), r),
    {
        let (encoder, handle) = self.command_encoder.acquire_write();
        let encoder = draw(encoder);
        handle.release_write(encoder);
    }

    /// The id of the window whose surface this frame draws to.
    pub fn window_id(&self) -> (r: Id)
        ensures
            r == self.spec_window_id(),
    {
        self.window_id
    }

    /// The rectangle that covers the whole surface of the frame's window.
    pub fn rect(&self) -> (r: Rect)
        ensures
            r == self.spec_rect(),
    {
        self.window_rect
    }

    /// Which frame of its window this is, counted from `0` since the application started.
    pub fn nth(&self) -> (r: u64)
        ensures
            r == self.spec_nth(),
    {
        self.nth
    }

    /// The swap chain texture to draw this frame into.
    pub fn swap_chain_texture(&self) -> (r: &TextureView)
        ensures
            *r == self.spec_swap_chain_texture(),
    {
        self.swap_chain_texture
    }

    /// The pixel format of the frame's swap chain texture.
    pub fn texture_format(&self) -> (r: TextureFormat)
        ensures
            r == self.spec_texture_format(),
    {
        self.texture_format
    }

    /// The queue that the frame's commands are submitted to.
    pub fn queue(&self) -> (r: &Queue)
        ensures
            *r == self.spec_queue(),
    {
        self.queue
    }
}

/// Reading a frame's metadata twice gives the same values: `window_id`, `nth`, `rect`,
/// `texture_format` and `queue` each report a field that is fixed when the frame is built, and
/// no operation of a frame, recording included, changes it.
pub proof fn lemma_metadata_repeatable(
    frame: &RawFrame,
    ids: (Id, Id),
    nths: (u64, u64),
    rects: (Rect, Rect),
    formats: (TextureFormat, TextureFormat),
    queues: (Queue, Queue),
)
    requires
        ids.0 == frame.spec_window_id() && ids.1 == frame.spec_window_id(),
        nths.0 == frame.spec_nth() && nths.1 == frame.spec_nth(),
        rects.0 == frame.spec_rect() && rects.1 == frame.spec_rect(),
        formats.0 == frame.spec_texture_format() && formats.1 == frame.spec_texture_format(),
        queues.0 == frame.spec_queue() && queues.1 == frame.spec_queue(),
    ensures
        ids.0 == ids.1,
        nths.0 == nths.1,
        rects.0 == rects.1,
        formats.0 == formats.1,
        queues.0 == queues.1,
{
}

} // verus!
