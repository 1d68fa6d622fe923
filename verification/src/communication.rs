//! Per-field mailboxes between the producer (the UI side) and the consumer
//! (the worker).
//!
//! Each input field travels through its own single-producer single-consumer
//! mailbox; no cross-field atomicity is implied, and the consumer reads each
//! field with "drain to latest" semantics so that a burst of updates
//! collapses to the last one. The reverse direction is the backtalk channel,
//! which carries the worker's completion signals and its compile reports.
//!
//! Both ends of a mailbox live in one place: the owner of the worker holds
//! the channel set, the producer pushes into it and the worker drains it.

use vstd::prelude::*;

use crate::device::{CompileError, TextureViewHandle};
use crate::shader_config::{GPUAdapterInfo, ShaderConfig};

verus! {

/// A queue read either one message at a time or drained to the latest.
pub struct Mailbox<T> {
    pending: Vec<T>,
}

impl<T> Mailbox<T> {
    /// The messages sent but not yet received, oldest first.
    pub closed spec fn spec_pending(&self) -> Seq<T> {
        self.pending@
    }

    /// An empty mailbox.
    pub fn new() -> (m: Self)
        ensures
            m.spec_pending() == Seq::<T>::empty(),
    {
        Mailbox { pending: Vec::new() }
    }

    /// Appends a message; never blocks and never sheds an older message —
    /// shedding happens only at the drain-to-latest read.
    pub fn send(&mut self, v: T)
        ensures
            final(self).spec_pending() == old(self).spec_pending().push(v),
    {
        self.pending.push(v);
    }

    /// Receives the oldest pending message, if any.
    pub fn try_recv(&mut self) -> (r: Option<T>)
        ensures
            old(self).spec_pending().len() == 0 ==> {
                &&& r is None
                &&& final(self).spec_pending() == old(self).spec_pending()
            },
            old(self).spec_pending().len() > 0 ==> {
                &&& r == Some(old(self).spec_pending()[0])
                &&& final(self).spec_pending() == old(self).spec_pending().drop_first()
            },
    {
        if self.pending.len() == 0 {
            None
        } else {
            let v = self.pending.remove(0);
            proof {
                assert(self.pending@ =~= old(self).spec_pending().drop_first());
            }
            Some(v)
        }
    }

    /// Drains the mailbox and keeps only the newest message: given pending
    /// writes `[a, b, c]` it yields `c`; given none it yields nothing.
    pub fn drain_latest(&mut self) -> (r: Option<T>)
        ensures
            final(self).spec_pending() == Seq::<T>::empty(),
            old(self).spec_pending().len() == 0 ==> r is None,
            old(self).spec_pending().len() > 0 ==> r == Some(old(self).spec_pending().last()),
    {
        let r = self.pending.pop();
        self.pending.clear();
        r
    }
}

/// The producer-to-worker channel set: one independent mailbox per input
/// field.
pub struct SettingsChannels {
    pub shader_content: Mailbox<ShaderConfig>,
    pub hardware: Mailbox<GPUAdapterInfo>,
    pub output_texture_view: Mailbox<TextureViewHandle>,
    pub preout_size: Mailbox<(u32, u32)>,
    pub kill: Mailbox<()>,
}

/// Whether every mailbox of the set is empty.
pub open spec fn settings_channels_empty(c: &SettingsChannels) -> bool {
    &&& c.shader_content.spec_pending() == Seq::<ShaderConfig>::empty()
    &&& c.hardware.spec_pending() == Seq::<GPUAdapterInfo>::empty()
    &&& c.output_texture_view.spec_pending() == Seq::<TextureViewHandle>::empty()
    &&& c.preout_size.spec_pending() == Seq::<(u32, u32)>::empty()
    &&& c.kill.spec_pending() == Seq::<()>::empty()
}

/// The fresh channel set between a producer and its worker, every mailbox
/// empty. Producer and consumer ends are the same value, held by whoever
/// owns the worker.
pub fn create_pair() -> (c: SettingsChannels)
    ensures
        settings_channels_empty(&c),
{
    SettingsChannels {
        shader_content: Mailbox::new(),
        hardware: Mailbox::new(),
        output_texture_view: Mailbox::new(),
        preout_size: Mailbox::new(),
        kill: Mailbox::new(),
    }
}

/// The worker-to-producer channel set: completion signals and compile
/// reports.
pub struct BacktalkChannels {
    pub render_success: Mailbox<()>,
    pub compile_reports: Mailbox<Option<CompileError>>,
}

/// Whether every backtalk mailbox is empty.
pub open spec fn backtalk_channels_empty(c: &BacktalkChannels) -> bool {
    &&& c.render_success.spec_pending() == Seq::<()>::empty()
    &&& c.compile_reports.spec_pending() == Seq::<Option<CompileError>>::empty()
}

/// The fresh backtalk channel set, every mailbox empty.
pub fn create_backtalk_pair() -> (c: BacktalkChannels)
    ensures
        backtalk_channels_empty(&c),
{
    BacktalkChannels { render_success: Mailbox::new(), compile_reports: Mailbox::new() }
}

} // verus!
