//! The paste sequence: put a text on the clipboard, let it settle, then press
//! Control+V in whatever window has focus.
//!
//! The sequencer only decides; the caller performs each action it hands out
//! and reports back how it went.

use vstd::prelude::*;

verus! {

/// Milliseconds to wait after the clipboard write, before the key chord.
pub const SETTLE_MILLIS: u64 = 100;

/// A key of the virtual keyboard.
#[derive(Clone, Copy, Debug, PartialEq, Eq, Structural)]
pub enum Key {
    Control,
    /// The key that types this character in the active keyboard layout.
    Layout(char),
}

/// One thing the caller must do next.
#[derive(Debug)]
pub enum PasteAction {
    /// Put this text on the system clipboard.
    WriteClipboard(String),
    /// Sleep for this many milliseconds.
    Sleep(u64),
    /// Press and hold a key.
    KeyDown(Key),
    /// Press and release a key.
    KeyClick(Key),
    /// Release a held key.
    KeyUp(Key),
    /// The sequence is over, with this result.
    Finish(Result<(), String>),
}

/// How the last action went.
#[derive(Debug)]
pub enum PasteEvent {
    Completed,
    /// The action could not be performed; the message says why.
    Failed(String),
}

/// The actions, with texts seen as character sequences.
pub enum ActionView {
    WriteClipboard(Seq<char>),
    Sleep(nat),
    KeyDown(Key),
    KeyClick(Key),
    KeyUp(Key),
    Finish(Result<(), Seq<char>>),
}

/// The events, with texts seen as character sequences.
pub enum EventView {
    Completed,
    Failed(Seq<char>),
}

impl View for PasteAction {
    type V = ActionView;

    open spec fn view(&self) -> ActionView {
        match self {
            PasteAction::WriteClipboard(t) => ActionView::WriteClipboard(t@),
            PasteAction::Sleep(ms) => ActionView::Sleep(*ms as nat),
            PasteAction::KeyDown(k) => ActionView::KeyDown(*k),
            PasteAction::KeyClick(k) => ActionView::KeyClick(*k),
            PasteAction::KeyUp(k) => ActionView::KeyUp(*k),
            PasteAction::Finish(Ok(())) => ActionView::Finish(Ok(())),
            PasteAction::Finish(Err(e)) => ActionView::Finish(Err(e@)),
        }
    }
}

impl View for PasteEvent {
    type V = EventView;

    open spec fn view(&self) -> EventView {
        match self {
            PasteEvent::Completed => EventView::Completed,
            PasteEvent::Failed(e) => EventView::Failed(e@),
        }
    }
}

/// The action that the sequencer handed out last.
#[derive(Clone, Copy, Debug, PartialEq, Eq, Structural)]
pub enum PasteStage {
    WroteClipboard,
    Settled,
    PressedModifier,
    ClickedKey,
    ReleasedModifier,
    Finished,
}

/// The modifier of the paste chord.
pub open spec fn modifier() -> Key {
    Key::Control
}

/// The key clicked while the modifier is held.
pub open spec fn paste_key() -> Key {
    Key::Layout('v')
}

/// What follows an action, given how it went: the next stage and the next
/// action. Only the clipboard write can fail the sequence; the key events
/// are issued without looking back.
pub open spec fn next(stage: PasteStage, event: EventView) -> (PasteStage, ActionView) {
    match stage {
        PasteStage::WroteClipboard => match event {
            EventView::Failed(e) => (PasteStage::Finished, ActionView::Finish(Err(e))),
            EventView::Completed => (PasteStage::Settled, ActionView::Sleep(SETTLE_MILLIS as nat)),
        },
        PasteStage::Settled => (PasteStage::PressedModifier, ActionView::KeyDown(modifier())),
        PasteStage::PressedModifier => (PasteStage::ClickedKey, ActionView::KeyClick(paste_key())),
        PasteStage::ClickedKey => (PasteStage::ReleasedModifier, ActionView::KeyUp(modifier())),
        PasteStage::ReleasedModifier => (PasteStage::Finished, ActionView::Finish(Ok(()))),
        PasteStage::Finished => (PasteStage::Finished, ActionView::Finish(Ok(()))),
    }
}

/// The actions handed out when the events come in this order, up to and
/// including the one that finishes the sequence.
pub open spec fn run(stage: PasteStage, events: Seq<EventView>) -> Seq<ActionView>
    decreases events.len(),
{
    if stage == PasteStage::Finished || events.len() == 0 {
        Seq::empty()
    } else {
        let (s, a) = next(stage, events[0]);
        seq![a] + run(s, events.drop_first())
    }
}

/// Whether an action injects a key event.
pub open spec fn is_key_event(a: ActionView) -> bool {
    a is KeyDown || a is KeyClick || a is KeyUp
}

/// Decides, step by step, the actions that paste one text.
pub struct PasteSequencer {
    stage: PasteStage,
}

impl PasteSequencer {
    /// The stage the sequencer is at.
    pub closed spec fn stage(&self) -> PasteStage {
        self.stage
    }

    /// Starts pasting `text`: the first action writes exactly `text` to the
    /// clipboard.
    pub fn start(text: String) -> (r: (PasteSequencer, PasteAction))
        ensures
            r.0.stage() == PasteStage::WroteClipboard,
            r.1@ == ActionView::WriteClipboard(text@),
    {
        (PasteSequencer { stage: PasteStage::WroteClipboard }, PasteAction::WriteClipboard(text))
    }

    /// Whether the sequence is over.
    pub fn is_finished(&self) -> (r: bool)
        ensures
            r == (self.stage() == PasteStage::Finished),
    {
        self.stage == PasteStage::Finished
    }

    /// Takes how the last action went and hands out the next one.
    pub fn step(&mut self, event: PasteEvent) -> (r: PasteAction)
        requires
            old(self).stage() != PasteStage::Finished,
        ensures
            (final(self).stage(), r@) == next(old(self).stage(), event@),
    {
        match self.stage {
            PasteStage::WroteClipboard => match event {
                PasteEvent::Failed(e) => {
                    self.stage = PasteStage::Finished;
                    PasteAction::Finish(Err(e))
                },
                PasteEvent::Completed => {
                    self.stage = PasteStage::Settled;
                    PasteAction::Sleep(SETTLE_MILLIS)
                },
            },
            PasteStage::Settled => {
                self.stage = PasteStage::PressedModifier;
                PasteAction::KeyDown(Key::Control)
            },
            PasteStage::PressedModifier => {
                self.stage = PasteStage::ClickedKey;
                PasteAction::KeyClick(Key::Layout('v'))
            },
            PasteStage::ClickedKey => {
                self.stage = PasteStage::ReleasedModifier;
                PasteAction::KeyUp(Key::Control)
            },
            _ => {
                self.stage = PasteStage::Finished;
                PasteAction::Finish(Ok(()))
            },
        }
    }
}

/// When the clipboard write fails, the sequence ends at once with that
/// failure, and no key event is ever injected, whatever comes after.
pub proof fn lemma_failed_write_injects_no_key(e: Seq<char>, rest: Seq<EventView>)
    ensures
        run(PasteStage::WroteClipboard, seq![EventView::Failed(e)] + rest)
            == seq![ActionView::Finish(Err(e))],
        forall|i: int|
            0 <= i < run(PasteStage::WroteClipboard, seq![EventView::Failed(e)] + rest).len()
                ==> !is_key_event(
                #[trigger] run(PasteStage::WroteClipboard, seq![EventView::Failed(e)] + rest)[i],
            ),
{
    let events = seq![EventView::Failed(e)] + rest;
    assert(events[0] == EventView::Failed(e));
    assert(run(PasteStage::Finished, events.drop_first()) == Seq::<ActionView>::empty());
    assert(run(PasteStage::WroteClipboard, events) =~= seq![ActionView::Finish(Err(e))]);
}

/// Once the clipboard write succeeds, the sequence waits at least the
/// settling interval, then holds Control, clicks 'v' and releases Control,
/// in that order, and succeeds; the outcome of the key events changes
/// nothing.
pub proof fn lemma_written_text_is_pasted(rest: Seq<EventView>)
    requires
        rest.len() >= 4,
    ensures
        run(PasteStage::WroteClipboard, seq![EventView::Completed] + rest) == seq![
            ActionView::Sleep(SETTLE_MILLIS as nat),
            ActionView::KeyDown(Key::Control),
            ActionView::KeyClick(Key::Layout('v')),
            ActionView::KeyUp(Key::Control),
            ActionView::Finish(Ok(())),
        ],
        SETTLE_MILLIS >= 100,
{
    let events = seq![EventView::Completed] + rest;
    let e1 = events.drop_first();
    let e2 = e1.drop_first();
    let e3 = e2.drop_first();
    let e4 = e3.drop_first();
    assert(events[0] == EventView::Completed);
    assert(e1 =~= rest);
    assert(run(PasteStage::Finished, e4.drop_first()) == Seq::<ActionView>::empty());
    assert(run(PasteStage::ReleasedModifier, e4) =~= seq![ActionView::Finish(Ok(()))]);
    assert(run(PasteStage::ClickedKey, e3) =~= seq![
        ActionView::KeyUp(Key::Control),
        ActionView::Finish(Ok(())),
    ]);
    assert(run(PasteStage::PressedModifier, e2) =~= seq![
        ActionView::KeyClick(Key::Layout('v')),
        ActionView::KeyUp(Key::Control),
        ActionView::Finish(Ok(())),
    ]);
    assert(run(PasteStage::Settled, e1) =~= seq![
        ActionView::KeyDown(Key::Control),
        ActionView::KeyClick(Key::Layout('v')),
        ActionView::KeyUp(Key::Control),
        ActionView::Finish(Ok(())),
    ]);
    assert(run(PasteStage::WroteClipboard, events) =~= seq![
        ActionView::Sleep(SETTLE_MILLIS as nat),
        ActionView::KeyDown(Key::Control),
        ActionView::KeyClick(Key::Layout('v')),
        ActionView::KeyUp(Key::Control),
        ActionView::Finish(Ok(())),
    ]);
}

} // verus!
