use vibe_dictate::overlay::{Command, OverlayState};
use vibe_dictate::window::{
    window_answer, CardThread, WindowAnswer, WindowMessage, WindowReply, WindowRequest,
    ROUND_PAUSE_MS,
};

#[test]
fn the_card_is_never_in_the_way() {
    assert_eq!(window_answer(WindowMessage::MouseActivate), WindowAnswer::Value(3));
    assert_eq!(window_answer(WindowMessage::HitTest), WindowAnswer::Value(-1));
    assert_eq!(window_answer(WindowMessage::Paint), WindowAnswer::Paint);
    assert_eq!(window_answer(WindowMessage::Destroy), WindowAnswer::Quit);
    assert_eq!(window_answer(WindowMessage::Other), WindowAnswer::Default);
}

fn told(thread: &mut CardThread, request: WindowRequest, reply: WindowReply) {
    assert_eq!(thread.request(), request);
    assert!(thread.expects(&reply));
    thread.step(reply);
}

#[test]
fn a_round_takes_commands_then_messages_then_rests() {
    let mut thread = CardThread::new();
    assert!(matches!(thread.state(), OverlayState::Hidden));
    let show = Command::Show(OverlayState::Processing { transcript: None });
    told(&mut thread, WindowRequest::TakeCommand, WindowReply::Command(Some(show)));
    assert!(matches!(thread.state(), OverlayState::Processing { transcript: None }));
    told(&mut thread, WindowRequest::PlaceCard, WindowReply::Completed);
    let hidden = Command::Show(OverlayState::Hidden);
    told(&mut thread, WindowRequest::TakeCommand, WindowReply::Command(Some(hidden)));
    told(&mut thread, WindowRequest::HideCard, WindowReply::Completed);
    assert!(matches!(thread.state(), OverlayState::Hidden));
    told(&mut thread, WindowRequest::TakeCommand, WindowReply::Command(None));
    told(&mut thread, WindowRequest::TakeMessage, WindowReply::Message(Some(false)));
    told(&mut thread, WindowRequest::Dispatch, WindowReply::Completed);
    told(&mut thread, WindowRequest::TakeMessage, WindowReply::Message(None));
    told(&mut thread, WindowRequest::Rest, WindowReply::Completed);
    assert_eq!(thread.request(), WindowRequest::TakeCommand);
    assert_eq!(ROUND_PAUSE_MS, 20);
}

#[test]
fn a_stop_destroys_the_window() {
    let mut thread = CardThread::new();
    told(&mut thread, WindowRequest::TakeCommand, WindowReply::Command(Some(Command::Stop)));
    assert!(!thread.expects(&WindowReply::Command(None)));
    told(&mut thread, WindowRequest::DestroyWindow, WindowReply::Completed);
    assert!(!thread.expects(&WindowReply::Completed));
    assert_eq!(thread.request(), WindowRequest::Nothing);
}

#[test]
fn a_destroyed_window_ends_the_thread() {
    let mut thread = CardThread::new();
    told(&mut thread, WindowRequest::TakeCommand, WindowReply::Command(None));
    told(&mut thread, WindowRequest::TakeMessage, WindowReply::Message(Some(true)));
    assert_eq!(thread.request(), WindowRequest::Nothing);
}
