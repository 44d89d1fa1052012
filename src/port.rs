use vstd::prelude::*;

verus! {

/// One primitive operation of the board's peripheral interface.
#[derive(Debug, Clone, Copy, PartialEq, Eq, Structural)]
pub enum PortCommand {
    /// Put the pin into output mode.
    SetOutput(u8),
    /// Drive the pin high (`true`) or low (`false`).
    Write(u8, bool),
    /// Block for the given number of milliseconds.
    Delay(u32),
}

/// The ordered list of peripheral commands still to be carried out.
pub struct Port {
    pending: Vec<PortCommand>,
}

impl View for Port {
    type V = Seq<PortCommand>;

    closed spec fn view(&self) -> Seq<PortCommand> {
        self.pending@
    }
}

impl Port {
    pub fn new() -> (r: Port)
        ensures
            r@ == Seq::<PortCommand>::empty(),
    {
        Port { pending: Vec::new() }
    }

    /// Appends one command.
    pub fn issue(&mut self, cmd: PortCommand)
        ensures
            final(self)@ == old(self)@.push(cmd),
    {
        self.pending.push(cmd);
    }

    /// Blocks for `ms` milliseconds once the earlier commands are done.
    pub fn delay(&mut self, ms: u32)
        ensures
            final(self)@ == old(self)@.push(PortCommand::Delay(ms)),
    {
        self.issue(PortCommand::Delay(ms));
    }

    /// Number of commands not yet taken.
    pub fn len(&self) -> (r: usize)
        ensures
            r == self@.len(),
    {
        self.pending.len()
    }

    /// Hands out every pending command, oldest first, and leaves the port empty.
    pub fn take(&mut self) -> (r: Vec<PortCommand>)
        ensures
            r@ == old(self)@,
            final(self)@ == Seq::<PortCommand>::empty(),
    {
        let mut out: Vec<PortCommand> = Vec::new();
        std::mem::swap(&mut self.pending, &mut out);
        out
    }
}

} // verus!
