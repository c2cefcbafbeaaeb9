//! The status card's handle: what it shows, and the commands on their way to its window.

use crate::text::{blank, is_blank, is_white_space, opt_str_text, opt_text};
use std::collections::VecDeque;
use vstd::prelude::*;

verus! {

/// What the status card shows.
#[derive(Debug, Clone)]
pub enum OverlayState {
    Hidden,
    Recording { hotkey: String, elapsed_secs: u64, transcript: Option<String> },
    Processing { transcript: Option<String> },
}

/// What a card state says.
pub enum StateView {
    Hidden,
    Recording { hotkey: Seq<char>, elapsed_secs: u64, transcript: Option<Seq<char>> },
    Processing { transcript: Option<Seq<char>> },
}

impl View for OverlayState {
    type V = StateView;

    open spec fn view(&self) -> StateView {
        match *self {
            OverlayState::Hidden => StateView::Hidden,
            OverlayState::Recording { hotkey, elapsed_secs, transcript } => StateView::Recording {
                hotkey: hotkey@,
                elapsed_secs,
                transcript: opt_text(transcript),
            },
            OverlayState::Processing { transcript } => StateView::Processing {
                transcript: opt_text(transcript),
            },
        }
    }
}

/// A command for the card's window.
#[derive(Debug)]
pub enum Command {
    /// Show this from now on.
    Show(OverlayState),
    /// Close the window.
    Stop,
}

/// What a command says.
pub enum CommandView {
    Show(StateView),
    Stop,
}

impl View for Command {
    type V = CommandView;

    open spec fn view(&self) -> CommandView {
        match *self {
            Command::Show(state) => CommandView::Show(state@),
            Command::Stop => CommandView::Stop,
        }
    }
}

/// Keeps a text unless it is blank.
pub fn nonempty(text: Option<&str>) -> (res: Option<String>)
    ensures
        opt_text(res) == not_blank(opt_str_text(text)),
{
    match text {
        Some(value) => if blank(value) {
            None
        } else {
            Some(String::from_str(value))
        },
        None => None,
    }
}

/// A text, unless it is blank.
pub open spec fn not_blank(text: Option<Seq<char>>) -> Option<Seq<char>> {
    match text {
        Some(s) => if is_blank(s) {
            None
        } else {
            Some(s)
        },
        None => None,
    }
}

/// A non-activating, topmost status card owned by a single UI thread.
///
/// This is what all handles on the card share. Commands wait in a queue until the thread takes
/// them, in the order in which they were given; when the thread ends it closes the queue. A
/// further handle does not stop the thread, nor does giving one up: the thread is told to stop
/// only when the last handle is dropped, so temporary call-site clones are harmless.
#[derive(Debug)]
pub struct Overlay {
    queue: VecDeque<Command>,
    open: bool,
    handles: usize,
}

/// What the handles on a card share.
#[verifier::ext_equal]
pub struct OverlayView {
    /// Whether the card's thread still takes commands.
    pub open: bool,
    /// The commands that it has not taken yet, the oldest first.
    pub pending: Seq<CommandView>,
    /// How many handles there are.
    pub handles: nat,
}

impl OverlayView {
    /// The card after one more command. A closed one takes none.
    pub open spec fn given(self, command: CommandView) -> OverlayView {
        if self.open {
            OverlayView { pending: self.pending.push(command), ..self }
        } else {
            self
        }
    }

    /// A stop is on its way only if no handle is left, and then nothing comes after it.
    pub open spec fn wf(self) -> bool {
        forall|i: int|
            0 <= i < self.pending.len() && #[trigger] self.pending[i] is Stop ==> self.handles == 0
                && i == self.pending.len() - 1
    }
}

impl View for Overlay {
    type V = OverlayView;

    closed spec fn view(&self) -> OverlayView {
        OverlayView {
            open: self.open,
            pending: self.queue@.map_values(|command: Command| command@),
            handles: self.handles as nat,
        }
    }
}

impl Overlay {
    /// The card's first handle, while its thread is starting.
    pub fn new() -> (res: Overlay)
        ensures
            res@ == (OverlayView { open: true, pending: Seq::empty(), handles: 1 }),
            res@.wf(),
    {
        let res = Overlay { queue: VecDeque::new(), open: true, handles: 1 };
        assert(res@.pending =~= Seq::empty());
        res
    }

    /// Counts the handles.
    pub fn handle_count(&self) -> (res: usize)
        ensures
            res == self@.handles,
    {
        self.handles
    }

    /// Makes one more handle.
    pub fn add_handle(&mut self)
        requires
            old(self)@.wf(),
            0 < old(self)@.handles < usize::MAX,
        ensures
            final(self)@ == (OverlayView { handles: old(self)@.handles + 1, ..old(self)@ }),
            final(self)@.wf(),
    {
        self.handles = self.handles + 1;
    }

    /// Gives one handle up; with the last one the thread is told to stop. Returns whether the
    /// thread did not have to be told or could be reached.
    pub fn drop_handle(&mut self) -> (res: bool)
        requires
            old(self)@.wf(),
            old(self)@.handles > 0,
        ensures
            ({
                let fewer = OverlayView {
                    handles: (old(self)@.handles - 1) as nat,
                    ..old(self)@
                };
                final(self)@ == if fewer.handles > 0 {
                    fewer
                } else {
                    fewer.given(CommandView::Stop)
                }
            }),
            res == (old(self)@.handles > 1 || old(self)@.open),
            final(self)@.wf(),
    {
        self.handles = self.handles - 1;
        if self.handles > 0 {
            return true;
        }
        self.send(Command::Stop)
    }

    fn send(&mut self, command: Command) -> (res: bool)
        ensures
            res == old(self)@.open,
            final(self)@ == old(self)@.given(command@),
    {
        if !self.open {
            return false;
        }
        let ghost before = self@;
        self.queue.push_back(command);
        assert(self@.pending =~= before.pending.push(command@));
        true
    }

    /// Shows another state. Returns whether the card's thread can still be reached.
    pub fn set(&mut self, state: OverlayState) -> (res: bool)
        requires
            old(self)@.wf(),
            old(self)@.handles > 0,
        ensures
            res == old(self)@.open,
            final(self)@ == old(self)@.given(CommandView::Show(state@)),
            final(self)@.wf(),
    {
        self.send(Command::Show(state))
    }

    /// Shows immediate recording feedback. `transcript` is the newest partial from the
    /// streaming transport when one is available.
    pub fn show_recording(
        &mut self,
        hotkey: &str,
        elapsed_secs: u64,
        transcript: Option<&str>,
    ) -> (res: bool)
        requires
            old(self)@.wf(),
            old(self)@.handles > 0,
        ensures
            res == old(self)@.open,
            final(self)@ == old(self)@.given(
                CommandView::Show(
                    StateView::Recording {
                        hotkey: hotkey@,
                        elapsed_secs,
                        transcript: not_blank(opt_str_text(transcript)),
                    },
                ),
            ),
            final(self)@.wf(),
    {
        self.set(
            OverlayState::Recording {
                hotkey: String::from_str(hotkey),
                elapsed_secs,
                transcript: nonempty(transcript),
            },
        )
    }

    /// Shows processing feedback while waiting for the first or next model result. An empty
    /// partial intentionally renders a waiting message.
    pub fn show_processing(&mut self, transcript: Option<&str>) -> (res: bool)
        requires
            old(self)@.wf(),
            old(self)@.handles > 0,
        ensures
            res == old(self)@.open,
            final(self)@ == old(self)@.given(
                CommandView::Show(
                    StateView::Processing { transcript: not_blank(opt_str_text(transcript)) },
                ),
            ),
            final(self)@.wf(),
    {
        self.set(OverlayState::Processing { transcript: nonempty(transcript) })
    }

    /// Convenience transition for a stream preview that has no live audio capture state of
    /// its own.
    pub fn show_partial(&mut self, transcript: &str) -> (res: bool)
        requires
            old(self)@.wf(),
            old(self)@.handles > 0,
        ensures
            res == old(self)@.open,
            final(self)@ == old(self)@.given(
                CommandView::Show(
                    StateView::Processing { transcript: not_blank(Some(transcript@)) },
                ),
            ),
            final(self)@.wf(),
    {
        self.show_processing(Some(transcript))
    }

    /// Takes the card off the screen.
    pub fn hide_card(&mut self) -> (res: bool)
        requires
            old(self)@.wf(),
            old(self)@.handles > 0,
        ensures
            res == old(self)@.open,
            final(self)@ == old(self)@.given(CommandView::Show(StateView::Hidden)),
            final(self)@.wf(),
    {
        self.set(OverlayState::Hidden)
    }

    /// Takes the oldest command, if one is waiting.
    pub fn next_command(&mut self) -> (res: Option<Command>)
        requires
            old(self)@.wf(),
        ensures
            match res {
                Some(command) => {
                    &&& old(self)@.pending.len() > 0
                    &&& command@ == old(self)@.pending[0]
                    &&& final(self)@ == (OverlayView {
                        pending: old(self)@.pending.drop_first(),
                        ..old(self)@
                    })
                },
                None => old(self)@.pending.len() == 0 && final(self)@ == old(self)@,
            },
            final(self)@.wf(),
    {
        let ghost before = self@;
        let res: Option<Command> = self.queue.pop_front();
        proof {
            if res is Some {
                assert(self@.pending =~= before.pending.drop_first());
                assert forall|i: int|
                    0 <= i < self@.pending.len() && #[trigger] self@.pending[i] is Stop implies
                self@.handles == 0 && i == self@.pending.len() - 1 by {
                    assert(before.pending[i + 1] is Stop);
                }
            } else {
                assert(self@.pending =~= before.pending);
            }
        }
        res
    }

    /// Ends the card's thread: what is waiting is dropped, and nothing more is taken.
    pub fn close(&mut self)
        ensures
            final(self)@ == (OverlayView {
                open: false,
                pending: Seq::empty(),
                handles: old(self)@.handles,
            }),
            final(self)@.wf(),
    {
        self.queue.clear();
        self.open = false;
        assert(self@.pending =~= Seq::empty());
    }
}

/// What can be done with the handles on a card.
pub enum HandleUse {
    /// One more handle is made.
    Add,
    /// One handle is given up.
    Drop,
    /// A state is shown through one of them.
    Show(StateView),
    /// The card's thread takes the oldest command.
    Take,
    /// The card's thread ends.
    Close,
}

/// The card after one use of its handles.
pub open spec fn after_use(card: OverlayView, what: HandleUse) -> OverlayView {
    match what {
        HandleUse::Add => OverlayView { handles: card.handles + 1, ..card },
        HandleUse::Drop => {
            let fewer = OverlayView { handles: (card.handles - 1) as nat, ..card };
            if fewer.handles > 0 {
                fewer
            } else {
                fewer.given(CommandView::Stop)
            }
        },
        HandleUse::Show(state) => card.given(CommandView::Show(state)),
        HandleUse::Take => if card.pending.len() > 0 {
            OverlayView { pending: card.pending.drop_first(), ..card }
        } else {
            card
        },
        HandleUse::Close => OverlayView { open: false, pending: Seq::empty(), ..card },
    }
}

/// The card after a history of uses.
pub open spec fn after_uses(history: Seq<HandleUse>) -> OverlayView
    decreases history.len(),
{
    if history.len() == 0 {
        OverlayView { open: true, pending: Seq::empty(), handles: 1 }
    } else {
        after_use(after_uses(history.drop_last()), history.last())
    }
}

/// A handle was there for every use that needs one. The card's thread needs none.
pub open spec fn held(history: Seq<HandleUse>) -> bool
    decreases history.len(),
{
    history.len() > 0 ==> {
        &&& held(history.drop_last())
        &&& history.last() is Take || history.last() is Close || after_uses(
            history.drop_last(),
        ).handles > 0
    }
}

/// The commands that a history gives, whether or not they were taken: one for every state that
/// is shown, and a stop when the last handle is dropped.
pub open spec fn commands_given(history: Seq<HandleUse>) -> Seq<CommandView>
    decreases history.len(),
{
    if history.len() == 0 {
        Seq::empty()
    } else {
        let before = commands_given(history.drop_last());
        match history.last() {
            HandleUse::Show(state) => before.push(CommandView::Show(state)),
            HandleUse::Drop if after_uses(history).handles == 0 => before.push(CommandView::Stop),
            _ => before,
        }
    }
}

/// The commands that the card's thread has taken.
pub open spec fn commands_taken(history: Seq<HandleUse>) -> Seq<CommandView>
    decreases history.len(),
{
    if history.len() == 0 {
        Seq::empty()
    } else {
        let before = commands_taken(history.drop_last());
        let waiting = after_uses(history.drop_last()).pending;
        if history.last() is Take && waiting.len() > 0 {
            before.push(waiting[0])
        } else {
            before
        }
    }
}

/// Whether the commands hold no stop.
pub open spec fn no_stop(commands: Seq<CommandView>) -> bool {
    forall|i: int| 0 <= i < commands.len() ==> !(#[trigger] commands[i] is Stop)
}

/// Handles are harmless: as long as one is left, the thread is not told to stop. When the last
/// one is dropped, the thread is told once, behind every command that is waiting; from then on
/// a stop that is waiting is the only one, and the last command. A card whose thread has ended
/// has nothing waiting, and the drop of its last handle changes nothing but the count.
pub proof fn law_stop_only_with_the_last_handle(history: Seq<HandleUse>)
    requires
        held(history),
    ensures
        after_uses(history).wf(),
        after_uses(history).handles > 0 ==> no_stop(after_uses(history).pending),
        after_uses(history).pending.len() > 0 ==> no_stop(after_uses(history).pending.drop_last()),
        !after_uses(history).open ==> after_uses(history).pending == Seq::<CommandView>::empty(),
        history.len() > 0 && history.last() is Drop && after_uses(history).handles == 0 ==> {
            let before = after_uses(history.drop_last());
            &&& no_stop(before.pending)
            &&& after_uses(history).open == before.open
            &&& before.open ==> after_uses(history).pending == before.pending.push(
                CommandView::Stop,
            )
        },
    decreases history.len(),
{
    if history.len() > 0 {
        let before = after_uses(history.drop_last());
        let card = after_uses(history);
        law_stop_only_with_the_last_handle(history.drop_last());
        assert forall|i: int| 0 <= i < card.pending.len() && #[trigger] card.pending[i] is Stop
            implies card.handles == 0 && i == card.pending.len() - 1 by {
            if history.last() is Take && before.pending.len() > 0 {
                assert(card.pending[i] == before.pending[i + 1]);
            } else if i < before.pending.len() {
                assert(card.pending[i] == before.pending[i]);
            }
        }
    }
}

/// Over its whole life a card is given at most one stop: none while a handle is left, and
/// otherwise exactly one, which is the last command.
pub proof fn law_one_stop_at_the_end(history: Seq<HandleUse>)
    requires
        held(history),
    ensures
        after_uses(history).handles > 0 ==> no_stop(commands_given(history)),
        after_uses(history).handles == 0 ==> {
            let given = commands_given(history);
            &&& given.len() > 0
            &&& given.last() is Stop
            &&& no_stop(given.drop_last())
        },
    decreases history.len(),
{
    if history.len() > 0 {
        law_one_stop_at_the_end(history.drop_last());
        if history.last() is Drop && after_uses(history).handles == 0 {
            assert(commands_given(history).drop_last() =~= commands_given(history.drop_last()));
        }
    }
}

/// As long as the card's thread runs, no command is lost and none overtakes another: those that
/// it has taken and those that are waiting are, in this order, those that were given.
pub proof fn law_commands_are_taken_in_order(history: Seq<HandleUse>)
    requires
        held(history),
        after_uses(history).open,
    ensures
        commands_taken(history) + after_uses(history).pending == commands_given(history),
    decreases history.len(),
{
    if history.len() > 0 {
        law_commands_are_taken_in_order(history.drop_last());
    }
    assert(commands_taken(history) + after_uses(history).pending =~= commands_given(history));
}

/// A text is left out exactly if it holds nothing but white space; otherwise it is shown as it
/// stands, with the white space around it.
pub proof fn law_texts_with_words_are_kept(text: Seq<char>, i: int)
    ensures
        not_blank(None) is None,
        0 <= i < text.len() && !is_white_space(text[i]) ==> not_blank(Some(text)) == Some(text),
        (forall|j: int| 0 <= j < text.len() ==> is_white_space(#[trigger] text[j])) ==> not_blank(
            Some(text),
        ) is None,
{
}

/// A state and a command say what their fields hold.
pub proof fn law_states_are_taken_as_they_are(
    hotkey: String,
    elapsed_secs: u64,
    transcript: Option<String>,
    state: OverlayState,
)
    ensures
        OverlayState::Hidden@ is Hidden,
        (OverlayState::Recording { hotkey, elapsed_secs, transcript })@ == (StateView::Recording {
            hotkey: hotkey@,
            elapsed_secs,
            transcript: opt_text(transcript),
        }),
        (OverlayState::Processing { transcript })@ == (StateView::Processing {
            transcript: opt_text(transcript),
        }),
        Command::Show(state)@ == CommandView::Show(state@),
        Command::Stop@ == CommandView::Stop,
{
}

/// An open card takes every command, behind those that are waiting and whatever they are; a
/// closed one takes none. Neither changes the number of handles.
pub proof fn law_open_cards_take_every_command(card: OverlayView, command: CommandView)
    ensures
        card.given(command).open == card.open,
        card.given(command).handles == card.handles,
        card.open ==> {
            &&& card.given(command).pending.len() == card.pending.len() + 1
            &&& card.given(command).pending.last() == command
            &&& card.given(command).pending.drop_last() == card.pending
        },
        !card.open ==> card.given(command).pending == card.pending,
{
    if card.open {
        assert(card.given(command).pending.drop_last() =~= card.pending);
    }
}

} // verus!
