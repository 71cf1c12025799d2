//! The graphics backend's handles as the frame sees them: a device, its queue, the texture
//! views that it creates, and the command encoders that record work for it.
//!
//! Every handle remembers the device it belongs to, so that a recorded batch can be matched
//! with the queue that must run it.

use vstd::prelude::*;

verus! {

/// The pixel format of a texture.
#[derive(Clone, Copy, Debug, PartialEq, Eq, Structural)]
pub enum TextureFormat {
    Rgba8Unorm,
    Rgba8UnormSrgb,
    Bgra8Unorm,
    Bgra8UnormSrgb,
}

/// One recorded instruction.
#[derive(Clone, Copy, Debug, PartialEq, Eq, Structural)]
pub enum Command {
    /// A label that marks a point in the command stream.
    Marker(u64),
    /// Clear the target to one colour, given as `0xRRGGBBAA`.
    Clear(u32),
    /// Draw the given number of vertices.
    Draw(u32),
}

/// A logical device, known by its identifier.
pub struct Device {
    id: u64,
}

/// The execution queue of a device.
pub struct Queue {
    device: u64,
}

/// A view of a texture that belongs to a device and is presented in a window.
pub struct TextureView {
    device: u64,
}

/// Records commands, in order, for later execution on its device's queue.
pub struct CommandEncoder {
    device: u64,
    commands: Vec<Command>,
}

impl Device {
    /// The device's identifier.
    pub closed spec fn spec_id(&self) -> u64 {
        self.id
    }

    pub fn new(id: u64) -> (d: Device)
        ensures
            d.spec_id() == id,
    {
        Device { id }
    }

    pub fn id(&self) -> (r: u64)
        ensures
            r == self.spec_id(),
    {
        self.id
    }

    /// The queue that runs this device's work.
    pub fn queue(&self) -> (q: Queue)
        ensures
            q.spec_device() == self.spec_id(),
    {
        Queue { device: self.id }
    }

    /// A view of a texture created on this device.
    pub fn create_texture_view(&self) -> (t: TextureView)
        ensures
            t.spec_device() == self.spec_id(),
    {
        TextureView { device: self.id }
    }

    /// A fresh encoder for this device, with nothing recorded.
    pub fn create_command_encoder(&self) -> (e: CommandEncoder)
        ensures
            e.spec_device() == self.spec_id(),
            e@ == Seq::<Command>::empty(),
    {
        CommandEncoder { device: self.id, commands: Vec::new() }
    }
}

impl Queue {
    /// The device that the queue belongs to.
    pub closed spec fn spec_device(&self) -> u64 {
        self.device
    }

    /// The device whose work this queue runs.
    pub fn device(&self) -> (r: u64)
        ensures
            r == self.spec_device(),
    {
        self.device
    }
}

impl TextureView {
    /// The device that owns the texture.
    pub closed spec fn spec_device(&self) -> u64 {
        self.device
    }

    /// The device that owns the texture.
    pub fn device(&self) -> (r: u64)
        ensures
            r == self.spec_device(),
    {
        self.device
    }
}

impl View for CommandEncoder {
    type V = Seq<Command>;

    /// The commands recorded so far, oldest first.
    closed spec fn view(&self) -> Seq<Command> {
        self.commands@
    }
}

impl CommandEncoder {
    /// The device whose queue must run the recorded commands.
    pub closed spec fn spec_device(&self) -> u64 {
        self.device
    }

    /// The device whose queue must run the recorded commands.
    pub fn device(&self) -> (r: u64)
        ensures
            r == self.spec_device(),
    {
        self.device
    }

    /// Appends one command after those already recorded.
    pub fn record(&mut self, command: Command)
        ensures
            final(self)@ == old(self)@.push(command),
            final(self).spec_device() == old(self).spec_device(),
    {
        self.commands.push(command);
    }

    /// The commands recorded so far, oldest first.
    pub fn commands(&self) -> (r: &Vec<Command>)
        ensures
            r@ == self@,
    {
        &self.commands
    }

    /// Whether nothing has been recorded yet.
    pub fn is_empty(&self) -> (r: bool)
        ensures
            r == (self@.len() == 0),
    {
        self.commands.len() == 0
    }
}

} // verus!
