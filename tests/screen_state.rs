use forge::messages::CommandMessage;
use forge::screen::UpdateScreen;
use forge::steps::{StepState, StepTracker};

fn running() -> UpdateScreen {
    let names: Vec<String> = vec!["Pull".to_string(), "Rebuild".to_string()];
    UpdateScreen::start(StepTracker::new(&names), false)
}

fn output(s: &UpdateScreen) -> Vec<String> {
    match s {
        UpdateScreen::Running { output, .. } | UpdateScreen::Complete { output, .. } => output.to_vec(),
    }
}

#[test]
fn output_lines_are_cleaned() {
    let mut s = running();
    s.handle_command_message(CommandMessage::Stdout("\x1b[32mok\x1b[0m".to_string()), vec![]);
    s.handle_command_message(CommandMessage::Stderr("warn".to_string()), vec![]);
    assert_eq!(output(&s), vec!["ok", "warn"]);
}

#[test]
fn step_messages_update_steps() {
    let mut s = running();
    s.handle_command_message(CommandMessage::StepComplete { step: "pull".to_string() }, vec![]);
    match &s {
        UpdateScreen::Running { steps, .. } => {
            assert_eq!(steps.steps()[0].status, StepState::Complete);
            assert_eq!(steps.steps()[1].status, StepState::Running);
        }
        _ => panic!("still running"),
    }
}

#[test]
fn done_keeps_history() {
    let mut s = running();
    s.append_output("line");
    s.handle_command_message(CommandMessage::Done { success: true }, vec!["extra".to_string()]);
    match &s {
        UpdateScreen::Complete { success, .. } => assert!(*success),
        _ => panic!("complete"),
    }
    assert_eq!(output(&s), vec!["line", "extra"]);
}

#[test]
fn cancel_completes_unsuccessfully() {
    let mut s = running();
    s.handle_command_message(CommandMessage::Cancelled, vec![]);
    match &s {
        UpdateScreen::Complete { success, .. } => assert!(!*success),
        _ => panic!("complete"),
    }
    assert_eq!(output(&s), vec!["Operation cancelled by user."]);
    s.handle_command_cancelled();
    assert_eq!(output(&s), vec!["Operation cancelled by user."]);
}
