use saltshore::command::{Command, QuitCommand, SucceedCommand};
use saltshore::game::state::GameState;

#[test]
fn test_quit_flag() {
    let mut game_state = GameState::default();
    assert_eq!(game_state.quit_flag(), false);
    game_state.set_quit_flag(true);
    assert_eq!(game_state.quit_flag(), true);
}

#[test]
fn test_enqueue_inputs() {
    let mut game_state = GameState::default();
    game_state.enqueue_inputs(vec!["test".to_string(), "test2".to_string()]);
    assert_eq!(game_state.input_queue().len(), 2);
    assert_eq!(game_state.input_queue()[0], "test");
    assert_eq!(game_state.input_queue()[1], "test2");
}

#[test]
fn test_enqueue_input() {
    let mut game_state = GameState::default();
    game_state.enqueue_input("test".to_string());
    assert_eq!(game_state.input_queue().len(), 1);
}

#[test]
fn test_dequeue_input() {
    let mut game_state = GameState::default();
    game_state.enqueue_input("test".to_string());
    let input = game_state.dequeue_input();
    assert_eq!(input, Some("test".to_string()));
    assert_eq!(game_state.input_queue().len(), 0);
}

#[test]
fn test_clear_input_queue() {
    let mut game_state = GameState::default();
    game_state.enqueue_input("test".to_string());
    game_state.clear_input_queue();
    assert_eq!(game_state.input_queue().len(), 0);
}

#[test]
fn test_enqueue_command() {
    let mut game_state = GameState::default();
    game_state.enqueue_command(Command::Quit(QuitCommand));
    assert_eq!(game_state.command_queue().len(), 1);
}

#[test]
fn test_dequeue_command() {
    let mut game_state = GameState::default();
    game_state.enqueue_command(Command::Quit(QuitCommand));
    let command = game_state.dequeue_command();
    assert_eq!(command, Some(Command::Quit(QuitCommand)));
    assert_eq!(game_state.command_queue().len(), 0);
}

#[test]
fn test_new() {
    let game_state = GameState::new();
    assert_eq!(game_state.quit_flag(), false);
    assert_eq!(game_state.input_queue().len(), 0);
    assert_eq!(game_state.command_queue().len(), 0);
}

#[test]
fn queues_are_first_in_first_out() {
    let mut game_state = GameState::new();
    game_state.enqueue_input("a".to_string());
    game_state.enqueue_inputs(vec!["b".to_string(), "c".to_string()]);
    assert_eq!(game_state.dequeue_input(), Some("a".to_string()));
    assert_eq!(game_state.dequeue_input(), Some("b".to_string()));
    assert_eq!(game_state.dequeue_input(), Some("c".to_string()));
    assert_eq!(game_state.dequeue_input(), None);
    game_state.enqueue_command(Command::Succeed(SucceedCommand));
    game_state.enqueue_command(Command::Quit(QuitCommand));
    assert_eq!(game_state.dequeue_command(), Some(Command::Succeed(SucceedCommand)));
    assert_eq!(game_state.dequeue_command(), Some(Command::Quit(QuitCommand)));
    assert_eq!(game_state.dequeue_command(), None);
}

#[test]
fn clear_command_queue_discards_all() {
    let mut game_state = GameState::new();
    game_state.enqueue_command(Command::Quit(QuitCommand));
    game_state.enqueue_command(Command::Succeed(SucceedCommand));
    game_state.clear_command_queue();
    assert_eq!(game_state.command_queue().len(), 0);
    assert_eq!(game_state.dequeue_command(), None);
}

#[test]
fn enqueue_no_inputs_changes_nothing() {
    let mut game_state = GameState::new();
    game_state.enqueue_inputs(Vec::new());
    assert_eq!(game_state.input_queue().len(), 0);
}
