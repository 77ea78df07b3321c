use saltshore::game::session::{Session, Stage, Step};
use saltshore::game::state::GameState;
use saltshore::parser::Parser;

#[test]
fn session_prompts_when_nothing_is_queued() {
    let mut session = Session::new(GameState::new(), Parser::new());
    assert_eq!(session.stage(), Stage::Idle);
    session.begin();
    assert!(matches!(session.step(), Step::Prompt));
    assert_eq!(session.stage(), Stage::AwaitingLine);
    session.supply(Some(vec!["debug:succeed".to_string(), "quit".to_string()]));
    assert!(matches!(session.step(), Step::Continue));
    assert!(matches!(session.step(), Step::Done));
    assert_eq!(session.stage(), Stage::Idle);
    assert!(!session.is_finished());
    session.begin();
    assert!(matches!(session.step(), Step::Continue));
    assert!(matches!(session.step(), Step::Done));
    assert!(session.is_finished());
}

#[test]
fn session_end_of_stream_terminates() {
    let mut session = Session::new(GameState::new(), Parser::new());
    session.begin();
    assert!(matches!(session.step(), Step::Prompt));
    session.supply(None);
    assert!(session.is_finished());
    assert!(matches!(session.step(), Step::Done));
}

#[test]
fn session_apology_then_done() {
    let mut session = Session::new(GameState::new(), Parser::new());
    session.begin();
    session.step();
    session.supply(Some(vec!["look".to_string(), "quit".to_string()]));
    match session.step() {
        Step::Say(line) => assert_eq!(line, "I'm sorry, I don't understand 'look'."),
        other => panic!("unexpected step {:?}", other),
    }
    assert_eq!(session.stage(), Stage::Closing);
    assert_eq!(session.state().input_queue().len(), 0);
    assert!(matches!(session.step(), Step::Done));
    assert!(!session.is_finished());
}
