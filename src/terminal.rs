use vstd::prelude::*;
use crate::error::ClientError;

verus! {

/// The settable attributes of a terminal device, as plain values: input,
/// output, control and local mode flags and the control characters.
pub struct TermAttrs {
    pub iflag: u32,
    pub oflag: u32,
    pub cflag: u32,
    pub lflag: u32,
    pub cc: Vec<u8>,
}

/// Terminal attributes as mathematical values.
pub struct TermAttrsView {
    pub iflag: u32,
    pub oflag: u32,
    pub cflag: u32,
    pub lflag: u32,
    pub cc: Seq<u8>,
}

impl View for TermAttrs {
    type V = TermAttrsView;

    open spec fn view(&self) -> TermAttrsView {
        TermAttrsView {
            iflag: self.iflag,
            oflag: self.oflag,
            cflag: self.cflag,
            lflag: self.lflag,
            cc: self.cc@,
        }
    }
}

/// Scoped raw mode: holds the attributes that the terminal had when it was
/// taken over, and hands them back for restoration exactly once.
pub struct RawTerminal {
    captured: Ghost<TermAttrsView>,
    pending: Option<TermAttrs>,
}

impl RawTerminal {
    /// The attributes captured when the guard was made.
    pub closed spec fn captured(&self) -> TermAttrsView {
        self.captured@
    }

    /// Whether the captured attributes are still to be restored.
    pub closed spec fn is_pending(&self) -> bool {
        self.pending is Some
    }

    pub closed spec fn wf(&self) -> bool {
        self.pending is Some ==> self.pending->0@ == self.captured@
    }

    /// Takes over a terminal whose current attributes are `current`; `None`
    /// means that the input device is not an interactive terminal, which is
    /// `ClientError::Terminal`.
    pub fn new(current: Option<TermAttrs>) -> (r: Result<RawTerminal, ClientError>)
        ensures
            current is None ==> r == Err::<RawTerminal, ClientError>(ClientError::Terminal),
            current is Some ==> r is Ok && r->Ok_0.wf() && r->Ok_0.is_pending()
                && r->Ok_0.captured() == current->0@,
    {
        match current {
            Some(attrs) => Ok(RawTerminal { captured: Ghost(attrs@), pending: Some(attrs) }),
            None => Err(ClientError::Terminal),
        }
    }

    /// The attributes to put back when the guard's scope ends: the captured
    /// ones on the first call, nothing on any later call.
    pub fn restore(&mut self) -> (r: Option<TermAttrs>)
        requires
            old(self).wf(),
        ensures
            final(self).wf(),
            final(self).captured() == old(self).captured(),
            !final(self).is_pending(),
            old(self).is_pending() ==> r is Some && r->0@ == old(self).captured(),
            !old(self).is_pending() ==> r is None,
    {
        self.pending.take()
    }
}

} // verus!
