use saltshore::command::{Command, CommandError, QuitCommand};
use saltshore::game::game_loop::GameLoop;
use saltshore::game::state::GameState;
use saltshore::input::{InputMock, MockReader};
use saltshore::output::MockWriter;
use saltshore::parser::Parser;

const SCENE: &str =
    "You are standing in an open field west of a white house, with a boarded front door.";

fn scripted(lines: &[&str]) -> GameLoop {
    let mut source = InputMock::default();
    for line in lines {
        source.add_line(line.to_string());
    }
    let mock_reader = MockReader::new(source);
    GameLoop::new(GameState::default(), mock_reader, MockWriter::default(), Parser)
}

fn quiet_loop() -> GameLoop {
    GameLoop::new(GameState::default(), MockReader::default(), MockWriter::default(), Parser)
}

#[test]
fn test_run() -> Result<(), CommandError> {
    let mut game_loop = quiet_loop();
    let quit_command = Command::Quit(QuitCommand);
    quit_command.execute(game_loop.state_mut())?;
    assert!(game_loop.run().is_ok());
    Ok(())
}

#[test]
fn test_run_invalid_command_and_quit() -> Result<(), CommandError> {
    let mut game_loop = scripted(&["invalid", "quit"]);
    assert!(game_loop.run().is_ok());
    assert_eq!(
        game_loop.output(),
        vec![
            SCENE,
            "\n",
            "> ",
            "I'm sorry, I don't understand 'invalid'.",
            "\n",
            SCENE,
            "\n",
            "> ",
        ]
    );
    Ok(())
}

#[test]
fn test_run_quit() -> Result<(), CommandError> {
    let mut game_loop = scripted(&["quit"]);
    assert!(game_loop.run().is_ok());
    assert_eq!(game_loop.output(), vec![SCENE, "\n", "> "]);
    Ok(())
}

#[test]
fn test_run_succeed() -> Result<(), CommandError> {
    let mut game_loop = scripted(&["debug:succeed"]);
    assert!(game_loop.run().is_ok());
    assert_eq!(game_loop.output(), vec![SCENE, "\n", "> ", SCENE, "\n", "> "]);
    Ok(())
}

#[test]
fn test_run_throw_ic_error() -> Result<(), CommandError> {
    let mut game_loop = scripted(&["debug:throw_error:ic"]);
    assert!(game_loop.run().is_ok());
    assert_eq!(
        game_loop.output(),
        vec![SCENE, "\n", "> ", "Error: Test error.", "\n", SCENE, "\n", "> "]
    );
    Ok(())
}

#[test]
fn test_run_throw_oc_error() -> Result<(), CommandError> {
    let mut game_loop = scripted(&["debug:throw_error:oc"]);
    assert!(game_loop.run().is_ok());
    Ok(())
}

#[test]
fn test_is_finished() -> Result<(), CommandError> {
    let mut game_loop = quiet_loop();
    assert_eq!(game_loop.is_finished(), false);
    let quit_command = Command::Quit(QuitCommand);
    quit_command.execute(game_loop.state_mut())?;
    assert!(game_loop.is_finished());
    Ok(())
}

#[test]
fn test_setup() {
    let mut game_loop = quiet_loop();
    assert!(game_loop.setup().is_ok());
}

#[test]
fn test_process_input() {
    let mut game_loop = scripted(&["test", "quit"]);
    assert!(game_loop.process_input().is_ok());
}

#[test]
fn test_update() {
    let mut game_loop = quiet_loop();
    assert!(game_loop.update().is_ok());
}

#[test]
fn test_process_output() {
    let mut game_loop = quiet_loop();
    assert!(game_loop.process_output().is_ok());
}

#[test]
fn test_teardown() {
    let mut game_loop = quiet_loop();
    assert!(game_loop.teardown().is_ok());
}

#[test]
fn quit_as_sole_command_sets_terminated() {
    let mut game_loop = quiet_loop();
    game_loop.state_mut().enqueue_command(Command::Quit(QuitCommand));
    assert!(!game_loop.is_finished());
    game_loop.process_input().unwrap();
    assert!(game_loop.is_finished());
    assert!(game_loop.output().is_empty());
    assert_eq!(game_loop.state().command_queue().len(), 0);
}

#[test]
fn end_of_stream_terminates_without_messages() {
    let mut game_loop = quiet_loop();
    game_loop.process_input().unwrap();
    assert!(game_loop.is_finished());
    assert_eq!(game_loop.output(), vec!["> "]);
}

#[test]
fn empty_script_runs_one_cycle() {
    let mut game_loop = quiet_loop();
    game_loop.run().unwrap();
    assert_eq!(game_loop.output(), vec![SCENE, "\n", "> "]);
    assert!(game_loop.is_finished());
}

#[test]
fn invalid_only_input_gives_one_apology_and_empty_queues() {
    let mut game_loop = quiet_loop();
    game_loop.state_mut().enqueue_input(" xyzzy ".to_string());
    game_loop.process_input().unwrap();
    assert_eq!(game_loop.output(), vec!["I'm sorry, I don't understand ' xyzzy '.", "\n"]);
    assert_eq!(game_loop.state().input_queue().len(), 0);
    assert_eq!(game_loop.state().command_queue().len(), 0);
    assert!(!game_loop.is_finished());
}

#[test]
fn failed_command_gives_one_error_line_and_empty_queues() {
    let mut game_loop = quiet_loop();
    let parser = Parser::new();
    game_loop.state_mut().enqueue_command(parser.parse("debug:throw_error:oc").unwrap());
    game_loop.state_mut().enqueue_command(Command::Quit(QuitCommand));
    game_loop.state_mut().enqueue_input("quit".to_string());
    game_loop.process_input().unwrap();
    assert_eq!(game_loop.output(), vec!["Error: Test error.", "\n"]);
    assert_eq!(game_loop.state().input_queue().len(), 0);
    assert_eq!(game_loop.state().command_queue().len(), 0);
    assert!(!game_loop.is_finished());
}

#[test]
fn invalid_then_quit_in_one_batch_does_not_terminate() {
    let mut game_loop = scripted(&["invalid;quit"]);
    game_loop.process_output().unwrap();
    game_loop.process_input().unwrap();
    assert!(!game_loop.is_finished());
    assert_eq!(game_loop.state().input_queue().len(), 0);
    assert_eq!(game_loop.state().command_queue().len(), 0);
    game_loop.run().unwrap();
    assert_eq!(
        game_loop.output(),
        vec![
            SCENE,
            "\n",
            "> ",
            "I'm sorry, I don't understand 'invalid'.",
            "\n",
            SCENE,
            "\n",
            "> ",
        ]
    );
}

#[test]
fn batch_commands_run_before_the_next_prompt() {
    let mut game_loop = scripted(&["debug:succeed; quit"]);
    game_loop.run().unwrap();
    assert_eq!(game_loop.output(), vec![SCENE, "\n", "> ", SCENE, "\n"]);
    assert!(game_loop.is_finished());
}

#[test]
fn error_discards_the_rest_of_its_batch() {
    let mut game_loop = scripted(&["debug:throw_error:ic;quit", "debug:succeed"]);
    game_loop.run().unwrap();
    assert_eq!(
        game_loop.output(),
        vec![
            SCENE,
            "\n",
            "> ",
            "Error: Test error.",
            "\n",
            SCENE,
            "\n",
            "> ",
            SCENE,
            "\n",
            "> ",
        ]
    );
}
