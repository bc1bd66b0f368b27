use dial_decisions::config::{ConfigError, Configuration, ParticipantConfig, ParticipantEntry};
use dial_decisions::dial::{update_dial_settings, DialRequest};
use dial_decisions::events::{DialDirection, DialEvent, Frame, KeyCode, Message, VideoStatus};
use dial_decisions::screen::Screen;
use dial_decisions::session::{AppState, DynBaseProgram, Outcome};
use dial_decisions::trials::TrialAssignment;
use dial_decisions::views::arc_input_video_view::Playback;
use dial_decisions::views::ArcSettings;

fn entry(id: usize, counterbalance: bool, condition: &str) -> ParticipantEntry {
    ParticipantEntry { id, config: ParticipantConfig { counterbalance, condition: condition.to_string() } }
}

fn configuration(num_videos: usize) -> Configuration {
    Configuration::new(
        vec![1, 2, 3, 4, 5, 6],
        num_videos,
        vec![entry(3, false, "dynamic"), entry(7, true, "dichotomous"), entry(7, false, "dynamic")],
    )
    .unwrap()
}

fn frame(clock_ms: u64) -> Frame {
    Frame { clock_ms, video: Some(VideoStatus { position_ms: clock_ms, duration_ms: 1_000_000 }) }
}

fn press() -> Message {
    Message::ProcessDialEvents(Some(DialEvent::Button { pressed: true }))
}

fn turn(direction: DialDirection) -> Message {
    Message::ProcessDialEvents(Some(DialEvent::Rotate { direction }))
}

fn idle() -> Message {
    Message::ProcessDialEvents(None)
}

fn is_nothing(outcome: &Outcome) -> bool {
    outcome.persist.is_none() && outcome.invalid_participant.is_none() && outcome.dial.is_none()
}

fn enter_participant(session: &mut DynBaseProgram, id: &str, now: u64) -> Outcome {
    let outcome = session.update(Message::TextInputChanged(id.to_string()), &frame(now));
    assert!(is_nothing(&outcome));
    session.update(Message::ButtonPressed, &frame(now))
}

fn plan(n: u32) -> Vec<TrialAssignment> {
    (0..n).map(|k| TrialAssignment { video: k + 1, bucket: (k % 2) as usize }).collect()
}

#[test]
fn a_configuration_needs_a_video_for_every_block() {
    assert!(matches!(Configuration::new(vec![1, 2], 0, vec![]), Err(ConfigError::NoTrials)));
    assert!(matches!(Configuration::new(vec![], 0, vec![]), Err(ConfigError::NoTrials)));
    assert!(matches!(Configuration::new(vec![1, 2], 3, vec![]), Err(ConfigError::TooFewVideos)));
    assert!(matches!(Configuration::new(vec![], 4, vec![]), Err(ConfigError::TooFewVideos)));
    let config = Configuration::new(vec![1, 2], 2, vec![]).unwrap();
    assert_eq!(config.num_videos(), 2);
    assert_eq!(config.video_ids(), &vec![1, 2]);
    assert!(config.participant(0).is_none());
}

#[test]
fn the_first_entry_of_an_id_is_the_participant() {
    let config = configuration(2);
    let found = config.participant(7).unwrap();
    assert_eq!(found.id, 7);
    assert!(found.config.counterbalance);
    assert_eq!(found.config.condition, "dichotomous");
    assert_eq!(config.participant(3).unwrap().config.condition, "dynamic");
    assert!(config.participant(4).is_none());
}

#[test]
fn dial_requests_follow_the_settings() {
    assert_eq!(update_dial_settings(None), None);
    assert_eq!(
        update_dial_settings(Some(ArcSettings { divisions: 0 })),
        Some(DialRequest::DisableSubdivisions)
    );
    assert_eq!(
        update_dial_settings(Some(ArcSettings { divisions: 60 })),
        Some(DialRequest::SetSubdivisions(60))
    );
    assert_eq!(
        update_dial_settings(Some(ArcSettings { divisions: 1 })),
        Some(DialRequest::SetSubdivisions(1))
    );
}

#[test]
fn a_session_starts_at_the_participant_screen() {
    let session = DynBaseProgram::new(configuration(2));
    assert_eq!(session.app_state(), AppState::Participant);
    assert_eq!(session.current_screen(), 0);
    assert_eq!(session.participant_id(), None);
    assert_eq!(session.trial_screen_count(), 0);
    assert!(matches!(session.active_screen(), Screen::ParticipantId(_)));
    assert_eq!(session.title(), "Dynamic Base Decisions");
}

#[test]
fn an_unknown_participant_keeps_the_session_at_the_entry() {
    let mut session = DynBaseProgram::new(configuration(2));
    let outcome = enter_participant(&mut session, "5", 100);
    assert_eq!(outcome.invalid_participant.as_deref(), Some("5"));
    assert!(outcome.persist.is_none());
    assert!(outcome.dial.is_none());
    assert_eq!(session.app_state(), AppState::Participant);
    assert_eq!(session.participant_id(), None);
    assert_eq!(session.trial_screen_count(), 0);
    match session.active_screen() {
        Screen::ParticipantId(view) => assert_eq!(view.text_value(), ""),
        _ => panic!("the participant screen should be active"),
    }
}

#[test]
fn a_text_that_is_no_number_names_no_participant() {
    let mut session = DynBaseProgram::new(configuration(2));
    let outcome = session.update(Message::ButtonPressed, &frame(0));
    assert_eq!(outcome.invalid_participant.as_deref(), Some(""));
    assert_eq!(session.app_state(), AppState::Participant);
    let outcome = enter_participant(&mut session, "٣", 10);
    assert_eq!(outcome.invalid_participant.as_deref(), Some("٣"));
    assert_eq!(session.app_state(), AppState::Participant);
}

#[test]
fn the_right_key_does_not_open_a_session() {
    let mut session = DynBaseProgram::new(configuration(2));
    session.update(Message::TextInputChanged("7".to_string()), &frame(0));
    let outcome = session.update(Message::KeyPressed(KeyCode::Right), &frame(0));
    assert!(is_nothing(&outcome));
    assert_eq!(session.app_state(), AppState::Participant);
    let outcome = session.update(Message::KeyReleased(KeyCode::Right), &frame(0));
    assert!(is_nothing(&outcome));
    let outcome = session.update(press(), &frame(0));
    assert!(is_nothing(&outcome));
    assert_eq!(session.app_state(), AppState::Participant);
}

#[test]
fn participant_seven_gets_the_dichotomous_session() {
    let mut session = DynBaseProgram::new(configuration(5));
    let outcome = enter_participant(&mut session, "7", 100);
    assert!(outcome.invalid_participant.is_none());
    assert!(outcome.persist.is_none());
    assert_eq!(outcome.dial, Some(DialRequest::DisableSubdivisions));
    assert_eq!(session.app_state(), AppState::Consent);
    assert_eq!(session.current_screen(), 0);
    assert_eq!(session.participant_id(), Some(7));
    assert_eq!(session.instruction_screen(), 1);
    assert_eq!(session.trial_screen_count(), 20);

    for position in 1..3 {
        let outcome = session.update(press(), &frame(200));
        assert_eq!(outcome.dial, Some(DialRequest::DisableSubdivisions));
        assert!(outcome.persist.is_none());
        assert_eq!(session.app_state(), AppState::Consent);
        assert_eq!(session.current_screen(), position);
    }
    session.update(press(), &frame(300));
    assert_eq!(session.app_state(), AppState::Instructions);
    match session.active_screen() {
        Screen::Image(view) => assert_eq!(view.path(), "images/dichotomous-1.png"),
        _ => panic!("instructions are a picture"),
    }
    let outcome = session.update(press(), &frame(400));
    assert_eq!(session.app_state(), AppState::Videos);
    assert_eq!(outcome.dial, Some(DialRequest::SetSubdivisions(60)));

    let mut lies = 0;
    let mut truths = 0;
    let mut paths: Vec<String> = Vec::new();
    for block in 0..5 {
        assert_eq!(session.current_screen(), 4 * block);
        match session.active_screen() {
            Screen::DynamicRating(view) => {
                assert!(view.counterbalance());
                assert_eq!(view.playback(), Playback::Playing);
                let path = view.path().clone();
                if path.ends_with("/alibi1_control.webm") {
                    lies += 1;
                } else if path.ends_with("/alibi2_control.webm") {
                    truths += 1;
                }
                paths.push(path);
            }
            _ => panic!("a block starts with the rating of the video"),
        }
        session.update(Message::KeyPressed(KeyCode::Right), &frame(500));
        assert!(matches!(session.active_screen(), Screen::Dichotomous(_)));
        session.update(Message::KeyPressed(KeyCode::Right), &frame(500));
        assert!(matches!(session.active_screen(), Screen::Scale(_)));
        session.update(Message::KeyPressed(KeyCode::Right), &frame(500));
        assert!(matches!(session.active_screen(), Screen::Info(_)));
        session.update(Message::KeyPressed(KeyCode::Right), &frame(500));
    }
    assert_eq!((lies, truths), (3, 2));
    paths.sort();
    paths.dedup();
    assert_eq!(paths.len(), 5);
    assert_eq!(session.app_state(), AppState::Demographics);
}

#[test]
fn participant_three_gets_the_dynamic_session() {
    let mut session = DynBaseProgram::new(configuration(2));
    enter_participant(&mut session, "3", 0);
    assert_eq!(session.instruction_screen(), 0);
    assert_eq!(session.trial_screen_count(), 6);
    for _ in 0..3 {
        session.update(press(), &frame(10));
    }
    match session.active_screen() {
        Screen::Image(view) => assert_eq!(view.path(), "images/dynamic-1.png"),
        _ => panic!("instructions are a picture"),
    }
}

#[test]
fn a_whole_session_stores_each_dataset_once_and_starts_over() {
    let mut session = DynBaseProgram::new(configuration(1));
    let trials = vec![TrialAssignment { video: 4, bucket: 1 }];
    session.step(Message::TextInputChanged("7".to_string()), &frame(0), &trials);
    let outcome = session.step(Message::ButtonPressed, &frame(0), &trials);
    assert_eq!(outcome.dial, Some(DialRequest::DisableSubdivisions));
    let mut stored: Vec<(usize, String, String, String)> = Vec::new();
    let mut keep = |outcome: Outcome| {
        if let Some((id, set)) = outcome.persist {
            stored.push((id, set.dataset_name, set.header_row, set.rows));
        }
    };
    let none: Vec<TrialAssignment> = Vec::new();
    for _ in 0..4 {
        keep(session.step(press(), &frame(1000), &none));
    }
    assert_eq!(session.app_state(), AppState::Videos);

    keep(session.step(turn(DialDirection::Clockwise), &frame(2000), &none));
    keep(session.step(idle(), &frame(2600), &none));
    keep(session.step(idle(), &Frame { clock_ms: 3000, video: Some(VideoStatus { position_ms: 999_990, duration_ms: 1_000_000 }) }, &none));
    match session.active_screen() {
        Screen::DynamicRating(view) => {
            assert!(view.finished());
            assert_eq!(view.playback(), Playback::Paused);
        }
        _ => panic!("the rating of the video should be active"),
    }
    let outcome = session.step(press(), &frame(3100), &none);
    assert_eq!(outcome.dial, Some(DialRequest::SetSubdivisions(10)));
    keep(outcome);

    assert!(matches!(session.active_screen(), Screen::Dichotomous(_)));
    keep(session.step(press(), &frame(4000), &none));
    assert!(matches!(session.active_screen(), Screen::Dichotomous(_)));
    keep(session.step(turn(DialDirection::Counterclockwise), &frame(4100), &none));
    keep(session.step(press(), &frame(4200), &none));
    let outcome = session.step(press(), &frame(4300), &none);
    assert_eq!(outcome.dial, Some(DialRequest::DisableSubdivisions));
    keep(outcome);

    assert!(matches!(session.active_screen(), Screen::Scale(_)));
    for k in 0..3 {
        keep(session.step(turn(DialDirection::Clockwise), &frame(5000 + k), &none));
    }
    keep(session.step(idle(), &frame(5600), &none));
    keep(session.step(press(), &frame(5700), &none));
    keep(session.step(press(), &frame(5800), &none));

    assert!(matches!(session.active_screen(), Screen::Info(_)));
    keep(session.step(press(), &frame(6000), &none));
    assert_eq!(session.app_state(), AppState::Demographics);
    assert_eq!(session.current_screen(), 0);

    keep(session.step(Message::TextInputChanged("29".to_string()), &frame(7000), &none));
    keep(session.step(Message::ButtonPressed, &frame(7000), &none));
    keep(session.step(Message::RadioSelected(1), &frame(7100), &none));
    keep(session.step(Message::ButtonPressed, &frame(7100), &none));
    keep(session.step(Message::RadioSelected(11), &frame(7200), &none));
    keep(session.step(Message::ButtonPressed, &frame(7200), &none));
    assert!(matches!(session.active_screen(), Screen::Info(_)));
    assert_eq!(session.current_screen(), 3);
    keep(session.step(press(), &frame(7300), &none));
    assert_eq!(session.app_state(), AppState::Final);
    assert_eq!(session.participant_id(), Some(7));
    let outcome = session.step(press(), &frame(7400), &none);
    assert!(outcome.dial.is_none());
    keep(outcome);
    assert_eq!(session.app_state(), AppState::Participant);
    assert_eq!(session.trial_screen_count(), 0);
    assert_eq!(session.participant_id(), None);

    let expected: Vec<(usize, String, String, String)> = vec![
        (
            7,
            "lie_truth_dynamic_0".to_string(),
            "type,timestamp,value".to_string(),
            "decision,2600,-1\nfinal,999990,-1\n".to_string(),
        ),
        (
            7,
            "lie_truth_dichotomous_0".to_string(),
            "type,timestamp,value".to_string(),
            "final,1100,1\n".to_string(),
        ),
        (
            7,
            "confidence_0".to_string(),
            "type,timestamp,value".to_string(),
            "decision,1300,3\nfinal,1400,3\n".to_string(),
        ),
        (7, "demographics_age".to_string(), "text".to_string(), "29".to_string()),
        (7, "demographics_gender".to_string(), "index,label".to_string(), "1, Female".to_string()),
        (
            7,
            "demographics_race".to_string(),
            "index,label".to_string(),
            "11, White; non-Hispanic (i.e.; Caucasian)".to_string(),
        ),
    ];
    assert_eq!(stored, expected);
}

#[test]
fn a_second_session_builds_its_blocks_anew() {
    let mut session = DynBaseProgram::new(configuration(2));
    session.step(Message::TextInputChanged("3".to_string()), &frame(0), &plan(2));
    session.step(Message::ButtonPressed, &frame(0), &plan(2));
    assert_eq!(session.trial_screen_count(), 6);
    let none: Vec<TrialAssignment> = Vec::new();
    let mut guard = 0;
    while session.app_state() != AppState::Participant {
        session.step(Message::KeyPressed(KeyCode::Right), &frame(1), &none);
        guard += 1;
        assert!(guard < 100);
    }
    assert_eq!(guard, 3 + 1 + 6 + 4 + 1);
    assert_eq!(session.trial_screen_count(), 0);
    session.step(Message::TextInputChanged("7".to_string()), &frame(2), &plan(2));
    session.step(Message::ButtonPressed, &frame(2), &plan(2));
    assert_eq!(session.trial_screen_count(), 8);
    assert_eq!(session.participant_id(), Some(7));
}

#[test]
fn skipping_a_rating_stores_what_is_there() {
    let mut session = DynBaseProgram::new(configuration(1));
    let trials = vec![TrialAssignment { video: 2, bucket: 0 }];
    session.step(Message::TextInputChanged("3".to_string()), &frame(0), &trials);
    session.step(Message::ButtonPressed, &frame(0), &trials);
    let none: Vec<TrialAssignment> = Vec::new();
    for _ in 0..4 {
        let outcome = session.step(Message::KeyPressed(KeyCode::Right), &frame(5), &none);
        assert!(outcome.persist.is_none());
    }
    assert_eq!(session.app_state(), AppState::Videos);
    let outcome = session.step(Message::KeyPressed(KeyCode::Right), &frame(6), &none);
    let (id, set) = outcome.persist.unwrap();
    assert_eq!(id, 3);
    assert_eq!(set.dataset_name, "lie_truth_dynamic_0");
    assert_eq!(set.rows, "final,0,0\n");
    match session.active_screen() {
        Screen::Scale(_) => {}
        _ => panic!("the dynamic condition has no decision screen"),
    }
}
