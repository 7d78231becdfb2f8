use vstd::prelude::*;
use crossbeam_channel::Receiver;

verus! {

#[verifier::external_type_specification]
#[verifier::external_body]
#[verifier::reject_recursive_types(T)]
pub struct ExReceiver<T>(crossbeam_channel::Receiver<T>);

/// A control event from a background producer (the hotkey listener, the tray
/// or the window layer) to the per-frame coordinator.
#[derive(Clone, Copy, PartialEq, Eq, Structural, Debug)]
pub enum GuiMessage {
    ShowWindow,
    CycleProfiles,
    Quit,
}

/// Relies on crossbeam_channel::Receiver::try_recv: it never blocks and hands
/// back a pending message if there is one. Which message, if any, depends on
/// the other threads, so nothing is promised about it.
#[verifier::external_body]
pub(crate) fn try_receive(rx: &Receiver<GuiMessage>) -> (r: Option<GuiMessage>) {
    rx.try_recv().ok()
}

} // verus!
