//! The course of the thread that owns the status card's window.

use crate::overlay::{Command, CommandView, OverlayState, StateView};
use vstd::prelude::*;

verus! {

/// How long the thread rests between two rounds, in milliseconds.
pub const ROUND_PAUSE_MS: u64 = 20;

/// The messages of the window system that the card reacts to.
#[derive(Debug, Clone, Copy, PartialEq, Eq, Structural)]
pub enum WindowMessage {
    Paint,
    /// The mouse is about to activate the window.
    MouseActivate,
    /// The system asks which part of the window the mouse is over.
    HitTest,
    Destroy,
    Other,
}

/// How the card answers a message.
#[derive(Debug, Clone, Copy, PartialEq, Eq, Structural)]
pub enum WindowAnswer {
    /// Paint the card.
    Paint,
    /// Answer with this number.
    Value(isize),
    /// End the thread's message queue.
    Quit,
    /// Leave it to the system.
    Default,
}

/// The answer that keeps a click from activating the window.
pub const NO_ACTIVATE: isize = 3;

/// The answer that lets the mouse reach what lies below the window.
pub const HIT_TRANSPARENT: isize = -1;

/// Decides how the card answers a message: it is never activated and never in the way of the
/// mouse.
pub fn window_answer(message: WindowMessage) -> (res: WindowAnswer)
    ensures
        res == match message {
            WindowMessage::Paint => WindowAnswer::Paint,
            WindowMessage::MouseActivate => WindowAnswer::Value(NO_ACTIVATE),
            WindowMessage::HitTest => WindowAnswer::Value(HIT_TRANSPARENT),
            WindowMessage::Destroy => WindowAnswer::Quit,
            WindowMessage::Other => WindowAnswer::Default,
        },
{
    match message {
        WindowMessage::Paint => WindowAnswer::Paint,
        WindowMessage::MouseActivate => WindowAnswer::Value(NO_ACTIVATE),
        WindowMessage::HitTest => WindowAnswer::Value(HIT_TRANSPARENT),
        WindowMessage::Destroy => WindowAnswer::Quit,
        WindowMessage::Other => WindowAnswer::Default,
    }
}

/// What the thread has to do next.
#[derive(Debug, Clone, Copy, PartialEq, Eq, Structural)]
pub enum WindowRequest {
    /// Take the next command, if one is waiting.
    TakeCommand,
    /// Have the card painted anew, and put it on the screen where it belongs.
    PlaceCard,
    /// Have the card painted anew, and take it off the screen.
    HideCard,
    /// Destroy the window.
    DestroyWindow,
    /// Take the next message of the window system, if one is waiting.
    TakeMessage,
    /// Pass the message on to the window.
    Dispatch,
    /// Rest for `ROUND_PAUSE_MS`.
    Rest,
    /// Nothing: the thread is done.
    Nothing,
}

/// What came of it.
#[derive(Debug)]
pub enum WindowReply {
    Completed,
    Command(Option<Command>),
    /// The message, if there was one, and whether it says that the window is destroyed.
    Message(Option<bool>),
}

/// What a reply says.
pub enum WindowReplyView {
    Completed,
    Command(Option<CommandView>),
    Message(Option<bool>),
}

impl View for WindowReply {
    type V = WindowReplyView;

    open spec fn view(&self) -> WindowReplyView {
        match *self {
            WindowReply::Completed => WindowReplyView::Completed,
            WindowReply::Command(Some(command)) => WindowReplyView::Command(Some(command@)),
            WindowReply::Command(None) => WindowReplyView::Command(None),
            WindowReply::Message(message) => WindowReplyView::Message(message),
        }
    }
}

/// Where the thread stands.
#[derive(Debug, Clone, Copy, PartialEq, Eq, Structural)]
pub enum WindowStage {
    Commands,
    Placing,
    Hiding,
    Destroying,
    Messages,
    Dispatching,
    Resting,
    Over,
}

/// The thread that owns the card's window.
#[derive(Debug)]
pub struct CardThread {
    stage: WindowStage,
    state: OverlayState,
}

/// What the thread is at one moment.
pub struct ThreadView {
    pub stage: WindowStage,
    /// What the card shows.
    pub state: StateView,
}

impl View for CardThread {
    type V = ThreadView;

    closed spec fn view(&self) -> ThreadView {
        ThreadView { stage: self.stage, state: self.state@ }
    }
}

/// Whether a reply can be the answer to a request.
pub open spec fn fits(request: WindowRequest, reply: WindowReplyView) -> bool {
    match request {
        WindowRequest::TakeCommand => reply is Command,
        WindowRequest::TakeMessage => reply is Message,
        WindowRequest::Nothing => false,
        _ => reply is Completed,
    }
}

impl ThreadView {
    /// The thread at another stage.
    pub open spec fn at(self, stage: WindowStage) -> ThreadView {
        ThreadView { stage, state: self.state }
    }

    /// What the thread has to do.
    pub open spec fn asks(self) -> WindowRequest {
        match self.stage {
            WindowStage::Commands => WindowRequest::TakeCommand,
            WindowStage::Placing => WindowRequest::PlaceCard,
            WindowStage::Hiding => WindowRequest::HideCard,
            WindowStage::Destroying => WindowRequest::DestroyWindow,
            WindowStage::Messages => WindowRequest::TakeMessage,
            WindowStage::Dispatching => WindowRequest::Dispatch,
            WindowStage::Resting => WindowRequest::Rest,
            WindowStage::Over => WindowRequest::Nothing,
        }
    }

    /// How the thread goes on: each round carries out all waiting commands, then passes on all
    /// waiting messages, then rests. It ends when it is told to stop or the window is gone.
    pub open spec fn next(self, reply: WindowReplyView) -> ThreadView {
        match self.stage {
            WindowStage::Commands => match reply {
                WindowReplyView::Command(Some(CommandView::Show(state))) => ThreadView {
                    stage: if state is Hidden {
                        WindowStage::Hiding
                    } else {
                        WindowStage::Placing
                    },
                    state,
                },
                WindowReplyView::Command(Some(CommandView::Stop)) => self.at(
                    WindowStage::Destroying,
                ),
                _ => self.at(WindowStage::Messages),
            },
            WindowStage::Placing | WindowStage::Hiding => self.at(WindowStage::Commands),
            WindowStage::Destroying => self.at(WindowStage::Over),
            WindowStage::Messages => match reply {
                WindowReplyView::Message(Some(destroyed)) => if destroyed {
                    self.at(WindowStage::Over)
                } else {
                    self.at(WindowStage::Dispatching)
                },
                _ => self.at(WindowStage::Resting),
            },
            WindowStage::Dispatching => self.at(WindowStage::Messages),
            WindowStage::Resting => self.at(WindowStage::Commands),
            WindowStage::Over => self,
        }
    }
}

impl CardThread {
    /// The thread once its window has been made; nothing is shown yet.
    pub fn new() -> (res: CardThread)
        ensures
            res@ == (ThreadView { stage: WindowStage::Commands, state: StateView::Hidden }),
    {
        CardThread { stage: WindowStage::Commands, state: OverlayState::Hidden }
    }

    /// Tells what the thread has to do.
    pub fn request(&self) -> (res: WindowRequest)
        ensures
            res == self@.asks(),
    {
        match self.stage {
            WindowStage::Commands => WindowRequest::TakeCommand,
            WindowStage::Placing => WindowRequest::PlaceCard,
            WindowStage::Hiding => WindowRequest::HideCard,
            WindowStage::Destroying => WindowRequest::DestroyWindow,
            WindowStage::Messages => WindowRequest::TakeMessage,
            WindowStage::Dispatching => WindowRequest::Dispatch,
            WindowStage::Resting => WindowRequest::Rest,
            WindowStage::Over => WindowRequest::Nothing,
        }
    }

    /// Tells what the card shows.
    pub fn state(&self) -> (res: &OverlayState)
        ensures
            res@ == self@.state,
    {
        &self.state
    }

    /// Tells whether `reply` can be the answer to what the thread has to do.
    pub fn expects(&self, reply: &WindowReply) -> (res: bool)
        ensures
            res == fits(self@.asks(), reply@),
    {
        match self.request() {
            WindowRequest::TakeCommand => matches!(reply, WindowReply::Command(_)),
            WindowRequest::TakeMessage => matches!(reply, WindowReply::Message(_)),
            WindowRequest::Nothing => false,
            _ => matches!(reply, WindowReply::Completed),
        }
    }

    /// Takes in what came of the thread's request and decides how to go on.
    pub fn step(&mut self, reply: WindowReply)
        requires
            fits(old(self)@.asks(), reply@),
        ensures
            final(self)@ == old(self)@.next(reply@),
    {
        let stage: WindowStage = match self.stage {
            WindowStage::Commands => match reply {
                WindowReply::Command(Some(Command::Show(state))) => {
                    let hidden: bool = matches!(state, OverlayState::Hidden);
                    self.state = state;
                    if hidden {
                        WindowStage::Hiding
                    } else {
                        WindowStage::Placing
                    }
                },
                WindowReply::Command(Some(Command::Stop)) => WindowStage::Destroying,
                _ => WindowStage::Messages,
            },
            WindowStage::Placing | WindowStage::Hiding => WindowStage::Commands,
            WindowStage::Destroying => WindowStage::Over,
            WindowStage::Messages => match reply {
                WindowReply::Message(Some(true)) => WindowStage::Over,
                WindowReply::Message(Some(false)) => WindowStage::Dispatching,
                _ => WindowStage::Resting,
            },
            WindowStage::Dispatching => WindowStage::Messages,
            WindowStage::Resting => WindowStage::Commands,
            WindowStage::Over => WindowStage::Over,
        };
        self.stage = stage;
    }
}

/// The thread after a history of replies.
pub open spec fn after(history: Seq<WindowReplyView>) -> ThreadView
    decreases history.len(),
{
    if history.len() == 0 {
        ThreadView { stage: WindowStage::Commands, state: StateView::Hidden }
    } else {
        after(history.drop_last()).next(history.last())
    }
}

/// Every reply of the history answered what the thread had to do.
pub open spec fn genuine(history: Seq<WindowReplyView>) -> bool
    decreases history.len(),
{
    history.len() > 0 ==> {
        &&& genuine(history.drop_last())
        &&& fits(after(history.drop_last()).asks(), history.last())
    }
}

/// Whether a reply is a command to show something.
pub open spec fn shows(reply: WindowReplyView) -> bool {
    reply matches WindowReplyView::Command(Some(CommandView::Show(_)))
}

/// The card shows what the newest command says.
pub proof fn law_newest_state_is_shown(history: Seq<WindowReplyView>, i: int, state: StateView)
    requires
        genuine(history),
        0 <= i < history.len(),
        history[i] == WindowReplyView::Command(Some(CommandView::Show(state))),
        forall|j: int| i < j < history.len() ==> !shows(#[trigger] history[j]),
    ensures
        after(history).state == state,
    decreases history.len(),
{
    let shorter = history.drop_last();
    if i < history.len() - 1 {
        assert forall|j: int| i < j < shorter.len() implies !shows(#[trigger] shorter[j]) by {
            assert(shorter[j] == history[j]);
        }
        law_newest_state_is_shown(shorter, i, state);
        assert(!shows(history[history.len() - 1]));
    }
}

/// The card is taken off the screen exactly for a hidden state, and put on it for any other.
pub proof fn law_visible_unless_hidden(history: Seq<WindowReplyView>)
    requires
        genuine(history),
    ensures
        after(history).asks() == WindowRequest::HideCard ==> after(history).state is Hidden,
        after(history).asks() == WindowRequest::PlaceCard ==> !(after(history).state is Hidden),
        history.len() > 0 && shows(history.last()) ==> after(history).asks() == if after(
            history,
        ).state is Hidden {
            WindowRequest::HideCard
        } else {
            WindowRequest::PlaceCard
        },
    decreases history.len(),
{
    if history.len() > 0 {
        law_visible_unless_hidden(history.drop_last());
    }
}

/// A stop is heeded at once: the window is destroyed and the thread ends.
pub proof fn law_stop_is_heeded(history: Seq<WindowReplyView>)
    requires
        genuine(history),
        history.len() > 0,
        history.last() == WindowReplyView::Command(Some(CommandView::Stop)),
    ensures
        after(history).asks() == WindowRequest::DestroyWindow,
        after(history).next(WindowReplyView::Completed).asks() == WindowRequest::Nothing,
{
}

/// The thread goes round: as long as commands are waiting it carries them out, then it passes on
/// messages as long as they are waiting, and when there are none it rests and begins again.
pub proof fn law_thread_goes_round(history: Seq<WindowReplyView>)
    requires
        genuine(history),
    ensures
        history.len() == 0 ==> after(history).asks() == WindowRequest::TakeCommand,
        history.len() > 0 ==> {
            let done = after(history.drop_last()).asks();
            let now = after(history).asks();
            let last = history.last();
            &&& done == WindowRequest::PlaceCard || done == WindowRequest::HideCard ==> now
                == WindowRequest::TakeCommand
            &&& last == WindowReplyView::Command(None) ==> now == WindowRequest::TakeMessage
            &&& last == WindowReplyView::Message(Some(false)) ==> now == WindowRequest::Dispatch
            &&& done == WindowRequest::Dispatch ==> now == WindowRequest::TakeMessage
            &&& last == WindowReplyView::Message(None) ==> now == WindowRequest::Rest
            &&& done == WindowRequest::Rest ==> now == WindowRequest::TakeCommand
        },
{
}

/// The thread ends when the window is gone or, after a stop, when it has destroyed the window,
/// and for no other reason.
pub proof fn law_thread_ends_only_for_a_reason(history: Seq<WindowReplyView>)
    requires
        genuine(history),
    ensures
        after(history).asks() == WindowRequest::Nothing ==> history.len() > 0 && (history.last()
            == WindowReplyView::Message(Some(true)) || (history.len() > 1 && history[history.len()
            - 2] == WindowReplyView::Command(Some(CommandView::Stop)) && after(
            history.drop_last(),
        ).asks() == WindowRequest::DestroyWindow)),
        history.len() > 0 && history.last() == WindowReplyView::Message(Some(true)) ==> after(
            history,
        ).asks() == WindowRequest::Nothing,
{
    if after(history).asks() == WindowRequest::Nothing {
        assert(history.len() > 0);
        let shorter = history.drop_last();
        if history.last() != WindowReplyView::Message(Some(true)) {
            assert(after(shorter).stage == WindowStage::Destroying);
            assert(shorter.len() > 0);
            assert(shorter.last() == history[history.len() - 2]);
        }
    }
}

/// The card shows nothing until it is told to, and only a command changes what it shows.
pub proof fn law_only_commands_change_the_card(history: Seq<WindowReplyView>)
    requires
        genuine(history),
        forall|j: int|
            0 <= j < history.len() ==> !((#[trigger] history[j]) matches WindowReplyView::Command(
                Some(CommandView::Show(_)),
            )),
    ensures
        after(history).state is Hidden,
    decreases history.len(),
{
    if history.len() > 0 {
        let shorter = history.drop_last();
        assert forall|j: int| 0 <= j < shorter.len() implies !((
        #[trigger] shorter[j]) matches WindowReplyView::Command(Some(CommandView::Show(_)))) by {
            assert(shorter[j] == history[j]);
        }
        law_only_commands_change_the_card(shorter);
        let last = history[history.len() - 1];
        assert(!(last matches WindowReplyView::Command(Some(CommandView::Show(_)))));
    }
}

/// A step shows a state exactly if it is a command to show it, and otherwise leaves the card as
/// it is.
pub proof fn law_each_command_is_carried_out(
    thread: ThreadView,
    reply: WindowReplyView,
    state: StateView,
)
    requires
        fits(thread.asks(), reply),
    ensures
        reply == WindowReplyView::Command(Some(CommandView::Show(state))) ==> thread.next(
            reply,
        ).state == state,
        !(reply matches WindowReplyView::Command(Some(CommandView::Show(_)))) ==> thread.next(
            reply,
        ).state == thread.state,
{
}

/// Every command and every message is taken where one was asked for, and anything else is
/// answered by its completion. A thread that is done takes nothing.
pub proof fn law_thread_takes_every_answer(
    request: WindowRequest,
    command: Option<CommandView>,
    message: Option<bool>,
)
    ensures
        fits(WindowRequest::TakeCommand, WindowReplyView::Command(command)),
        fits(WindowRequest::TakeMessage, WindowReplyView::Message(message)),
        fits(request, WindowReplyView::Command(command)) <==> request
            == WindowRequest::TakeCommand,
        fits(request, WindowReplyView::Message(message)) <==> request
            == WindowRequest::TakeMessage,
        fits(request, WindowReplyView::Completed) <==> request != WindowRequest::TakeCommand
            && request != WindowRequest::TakeMessage && request != WindowRequest::Nothing,
{
}

/// A reply says what it holds.
pub proof fn law_replies_are_taken_as_they_are(command: Command, message: Option<bool>)
    ensures
        WindowReply::Completed@ is Completed,
        WindowReply::Command(Some(command))@ == WindowReplyView::Command(Some(command@)),
        WindowReply::Command(None)@ == WindowReplyView::Command(None),
        WindowReply::Message(message)@ == WindowReplyView::Message(message),
{
}

/// The answers have the numbers that the window system gives them.
pub proof fn law_numbers_of_the_window_system()
    ensures
        NO_ACTIVATE == 3,
        HIT_TRANSPARENT == -1,
        ROUND_PAUSE_MS == 20,
{
}

} // verus!
