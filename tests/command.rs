use saltshore::command::{Command, CommandError, QuitCommand, SucceedCommand, ThrowErrorCommand};
use saltshore::game::state::GameState;

#[test]
fn command_test_execute() -> Result<(), CommandError> {
    let mut game_state = GameState::default();
    let command = Command::Quit(QuitCommand);
    assert_eq!(game_state.quit_flag(), false);
    command.execute(&mut game_state)?;
    assert_eq!(game_state.quit_flag(), true);
    Ok(())
}

#[test]
fn test_execute_succeed() -> Result<(), CommandError> {
    let mut game_state = GameState::default();
    let command = Command::Succeed(SucceedCommand);
    command.execute(&mut game_state)?;
    Ok(())
}

#[test]
fn test_execute_throw_error() -> Result<(), CommandError> {
    let mut game_state = GameState::default();
    let command = Command::ThrowError(ThrowErrorCommand {
        error: CommandError::InCharacter("Test error.".to_string()),
    });
    let result = command.execute(&mut game_state);
    assert_eq!(result.is_err(), true);
    assert_eq!(result.unwrap_err().message(), "Test error.");
    Ok(())
}

#[test]
fn quit_test_execute() -> Result<(), CommandError> {
    let mut game_state = GameState::default();
    let command = QuitCommand;
    assert_eq!(game_state.quit_flag(), false);
    command.execute(&mut game_state)?;
    assert_eq!(game_state.quit_flag(), true);
    Ok(())
}

#[test]
fn succeed_test_execute() -> Result<(), CommandError> {
    let mut game_state = GameState::default();
    let command = SucceedCommand;
    command.execute(&mut game_state)?;
    Ok(())
}

#[test]
fn throw_error_test_execute() -> Result<(), CommandError> {
    let mut game_state = GameState::default();
    let command = ThrowErrorCommand {
        error: CommandError::InCharacter("Test error.".to_string()),
    };
    let result = command.execute(&mut game_state);
    assert_eq!(result.is_err(), true);
    assert_eq!(result.unwrap_err().message(), "Test error.");
    Ok(())
}

#[test]
fn unexpected_error_message_has_prefix() {
    let e = CommandError::Unexpected("lost the map".to_string());
    assert_eq!(e.message(), "An unexpected error occurred: lost the map");
}

#[test]
fn out_of_character_error_message_is_bare() {
    let e = CommandError::OutOfCharacter("You can't do that here.".to_string());
    assert_eq!(e.message(), "You can't do that here.");
}

#[test]
fn throw_error_leaves_state_unchanged() {
    let mut game_state = GameState::default();
    game_state.enqueue_input("look".to_string());
    let command = Command::ThrowError(ThrowErrorCommand {
        error: CommandError::OutOfCharacter("No.".to_string()),
    });
    let result = command.execute(&mut game_state);
    assert_eq!(result, Err(CommandError::OutOfCharacter("No.".to_string())));
    assert_eq!(game_state.quit_flag(), false);
    assert_eq!(game_state.input_queue().len(), 1);
}

#[test]
fn duplicate_keeps_variant_and_message() {
    let e = CommandError::Unexpected("x".to_string());
    assert_eq!(e.duplicate(), e);
}
