use activity_agent::discovery::CANDIDATE_COUNT;
use activity_agent::discovery::InterpreterChoice;
use activity_agent::discovery::candidate_name;
use activity_agent::discovery::choose_interpreter;

#[test]
fn bundled_venv_wins_outright() {
    let oks = vec![true, true, true];
    assert_eq!(choose_interpreter(true, &oks), InterpreterChoice::Venv);
    assert_eq!(
        choose_interpreter(true, &vec![false, false, false]),
        InterpreterChoice::Venv
    );
}

#[test]
fn first_responding_candidate_is_chosen() {
    assert_eq!(
        choose_interpreter(false, &vec![true, true, true]),
        InterpreterChoice::Candidate(0)
    );
    assert_eq!(
        choose_interpreter(false, &vec![false, true, true]),
        InterpreterChoice::Candidate(1)
    );
    assert_eq!(
        choose_interpreter(false, &vec![false, false, true]),
        InterpreterChoice::Candidate(2)
    );
}

#[test]
fn no_usable_interpreter_is_fatal() {
    assert_eq!(
        choose_interpreter(false, &vec![false, false, false]),
        InterpreterChoice::NotFound
    );
}

#[test]
fn candidate_names_keep_probe_order() {
    assert_eq!(CANDIDATE_COUNT, 3);
    assert_eq!(candidate_name(0), "python3");
    assert_eq!(candidate_name(1), "python");
    assert_eq!(candidate_name(2), "py");
}
