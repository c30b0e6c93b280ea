//! The dialog that identifies an input device: it listens for a key press,
//! shows the device that was used, and offers to move it to another seat.
use vstd::prelude::*;

use crate::input::{IdentifiedDevice, IdentifiedDeviceView};

verus! {

/// Where the dialog stands.
pub enum IdentifyState {
    Ready,
    Listening,
    Found(IdentifiedDevice),
    Error(String),
}

/// The contents of a dialog state.
pub enum IdentifyStateView {
    Ready,
    Listening,
    Found(IdentifiedDeviceView),
    Error(Seq<char>),
}

impl View for IdentifyState {
    type V = IdentifyStateView;

    open spec fn view(&self) -> IdentifyStateView {
        match self {
            IdentifyState::Ready => IdentifyStateView::Ready,
            IdentifyState::Listening => IdentifyStateView::Listening,
            IdentifyState::Found(d) => IdentifyStateView::Found(d@),
            IdentifyState::Error(e) => IdentifyStateView::Error(e@),
        }
    }
}

/// The dialog.
pub struct InputIdentifyDialog {
    pub state: IdentifyState,
}

/// What the dialog is told.
pub enum IdentifyInput {
    StartListening,
    DeviceIdentified(IdentifiedDevice),
    IdentificationFailed(String),
    Close,
    Reset,
    SwitchToSeat,
}

/// The contents of a message to the dialog.
pub enum IdentifyInputView {
    StartListening,
    DeviceIdentified(IdentifiedDeviceView),
    IdentificationFailed(Seq<char>),
    Close,
    Reset,
    SwitchToSeat,
}

impl View for IdentifyInput {
    type V = IdentifyInputView;

    open spec fn view(&self) -> IdentifyInputView {
        match self {
            IdentifyInput::StartListening => IdentifyInputView::StartListening,
            IdentifyInput::DeviceIdentified(d) => IdentifyInputView::DeviceIdentified(d@),
            IdentifyInput::IdentificationFailed(e) => IdentifyInputView::IdentificationFailed(e@),
            IdentifyInput::Close => IdentifyInputView::Close,
            IdentifyInput::Reset => IdentifyInputView::Reset,
            IdentifyInput::SwitchToSeat => IdentifyInputView::SwitchToSeat,
        }
    }
}

/// What the dialog tells its parent: the USB path of a device that was
/// identified, or of a device to move to another seat.
pub enum IdentifyOutput {
    DeviceIdentified(String),
    SwitchDevice(String),
}

/// What the listening worker reports.
pub enum IdentifyWorkerOutput {
    Found(IdentifiedDevice),
    Timeout,
    Error(String),
}

/// What the dialog asks its surroundings to do.
pub enum IdentifyEffect {
    /// Listen for input on every input device in the background.
    StartWorker,
    /// Close the dialog window.
    CloseWindow,
    /// Send a message to the parent.
    Output(IdentifyOutput),
}

/// The contents of an effect.
pub enum IdentifyEffectView {
    StartWorker,
    CloseWindow,
    DeviceIdentified(Seq<char>),
    SwitchDevice(Seq<char>),
}

impl View for IdentifyEffect {
    type V = IdentifyEffectView;

    open spec fn view(&self) -> IdentifyEffectView {
        match self {
            IdentifyEffect::StartWorker => IdentifyEffectView::StartWorker,
            IdentifyEffect::CloseWindow => IdentifyEffectView::CloseWindow,
            IdentifyEffect::Output(IdentifyOutput::DeviceIdentified(p)) => IdentifyEffectView::DeviceIdentified(p@),
            IdentifyEffect::Output(IdentifyOutput::SwitchDevice(p)) => IdentifyEffectView::SwitchDevice(p@),
        }
    }
}

/// The contents of a list of effects.
pub open spec fn identify_effects_view(effects: Seq<IdentifyEffect>) -> Seq<IdentifyEffectView> {
    effects.map_values(|e: IdentifyEffect| e@)
}

/// How the dialog answers a message: the next state and the effects, in
/// order.
pub open spec fn identify_step(state: IdentifyStateView, msg: IdentifyInputView) -> (IdentifyStateView, Seq<IdentifyEffectView>) {
    match msg {
        IdentifyInputView::StartListening => (IdentifyStateView::Listening, seq![IdentifyEffectView::StartWorker]),
        IdentifyInputView::DeviceIdentified(d) => (
            IdentifyStateView::Found(d),
            seq![IdentifyEffectView::DeviceIdentified(d.usb_device_path)],
        ),
        IdentifyInputView::IdentificationFailed(e) => (IdentifyStateView::Error(e), Seq::empty()),
        IdentifyInputView::Close => (IdentifyStateView::Ready, seq![IdentifyEffectView::CloseWindow]),
        IdentifyInputView::Reset => (IdentifyStateView::Ready, Seq::empty()),
        IdentifyInputView::SwitchToSeat => match state {
            IdentifyStateView::Found(d) => (
                IdentifyStateView::Ready,
                seq![
                    IdentifyEffectView::CloseWindow,
                    IdentifyEffectView::SwitchDevice(d.usb_device_path),
                ],
            ),
            _ => (state, Seq::empty()),
        },
    }
}

/// The message that a worker report becomes.
pub open spec fn worker_message(report: IdentifyWorkerOutput) -> IdentifyInputView {
    match report {
        IdentifyWorkerOutput::Found(d) => IdentifyInputView::DeviceIdentified(d@),
        IdentifyWorkerOutput::Timeout => IdentifyInputView::IdentificationFailed(
            "Timeout: No input detected within 10 seconds"@,
        ),
        IdentifyWorkerOutput::Error(e) => IdentifyInputView::IdentificationFailed(e@),
    }
}

impl InputIdentifyDialog {
    /// A dialog that is ready to listen.
    pub fn new() -> (r: InputIdentifyDialog)
        ensures
            r.state@ == IdentifyStateView::Ready,
    {
        InputIdentifyDialog { state: IdentifyState::Ready }
    }

    /// Answers a message.
    pub fn update(&mut self, msg: IdentifyInput) -> (r: Vec<IdentifyEffect>)
        ensures
            (final(self).state@, identify_effects_view(r@)) == identify_step(old(self).state@, msg@),
    {
        let ghost before = self.state@;
        let ghost m = msg@;
        let mut effects: Vec<IdentifyEffect> = Vec::new();
        match msg {
            IdentifyInput::StartListening => {
                self.state = IdentifyState::Listening;
                effects.push(IdentifyEffect::StartWorker);
            },
            IdentifyInput::DeviceIdentified(device) => {
                let usb_path = device.usb_device_path.clone();
                self.state = IdentifyState::Found(device);
                effects.push(IdentifyEffect::Output(IdentifyOutput::DeviceIdentified(usb_path)));
            },
            IdentifyInput::IdentificationFailed(error) => {
                self.state = IdentifyState::Error(error);
            },
            IdentifyInput::Close => {
                self.state = IdentifyState::Ready;
                effects.push(IdentifyEffect::CloseWindow);
            },
            IdentifyInput::Reset => {
                self.state = IdentifyState::Ready;
            },
            IdentifyInput::SwitchToSeat => {
                let found = match &self.state {
                    IdentifyState::Found(device) => Some(device.usb_device_path.clone()),
                    _ => None,
                };
                if let Some(usb_path) = found {
                    effects.push(IdentifyEffect::CloseWindow);
                    self.state = IdentifyState::Ready;
                    effects.push(IdentifyEffect::Output(IdentifyOutput::SwitchDevice(usb_path)));
                }
            },
        }
        assert(identify_effects_view(effects@) =~= identify_step(before, m).1);
        effects
    }

    /// Turns what the listening worker reports into a message for the dialog.
    pub fn update_cmd(&self, report: IdentifyWorkerOutput) -> (r: IdentifyInput)
        ensures
            r@ == worker_message(report),
    {
        match report {
            IdentifyWorkerOutput::Found(device) => IdentifyInput::DeviceIdentified(device),
            IdentifyWorkerOutput::Timeout => IdentifyInput::IdentificationFailed(
                "Timeout: No input detected within 10 seconds".to_owned(),
            ),
            IdentifyWorkerOutput::Error(msg) => IdentifyInput::IdentificationFailed(msg),
        }
    }

    /// The dialog may be closed by its button except while it listens.
    pub fn can_close(&self) -> (r: bool)
        ensures
            r == !(self.state@ is Listening),
    {
        match self.state {
            IdentifyState::Listening => false,
            _ => true,
        }
    }
}

/// Closing or resetting the dialog always brings it back to `Ready`,
/// whatever state it was in.
pub proof fn lemma_close_and_reset_make_ready(state: IdentifyStateView)
    ensures
        identify_step(state, IdentifyInputView::Close).0 == IdentifyStateView::Ready,
        identify_step(state, IdentifyInputView::Reset).0 == IdentifyStateView::Ready,
{
}

/// The dialog asks to move a device only when one was found, and then it
/// asks for exactly that device's USB path and returns to `Ready`; in any
/// other state the request changes nothing.
pub proof fn lemma_switch_only_when_found(state: IdentifyStateView)
    ensures
        state matches IdentifyStateView::Found(d) ==> identify_step(
            state,
            IdentifyInputView::SwitchToSeat,
        ) == (
            IdentifyStateView::Ready,
            seq![
                IdentifyEffectView::CloseWindow,
                IdentifyEffectView::SwitchDevice(d.usb_device_path),
            ],
        ),
        !(state is Found) ==> identify_step(state, IdentifyInputView::SwitchToSeat) == (
            state,
            Seq::<IdentifyEffectView>::empty(),
        ),
{
}

/// A device reported by the worker is shown, and its USB path is passed on
/// so that it can be moved afterwards.
pub proof fn lemma_found_then_switch(state: IdentifyStateView, d: IdentifiedDevice)
    ensures
        ({
            let (s1, _) = identify_step(state, worker_message(IdentifyWorkerOutput::Found(d)));
            identify_step(s1, IdentifyInputView::SwitchToSeat).1 == seq![
                IdentifyEffectView::CloseWindow,
                IdentifyEffectView::SwitchDevice(d.usb_device_path@),
            ]
        }),
{
}

} // verus!
