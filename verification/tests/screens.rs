use dial_decisions::events::{DialDirection, DialEvent, Frame, Message, VideoStatus};
use dial_decisions::screen::Screen;
use dial_decisions::script::{
    consent_screens, demographics_screens, final_screen, gender_choices, instruction_screens,
    race_choices,
};
use dial_decisions::views::arc_dichotomous_view::ArcDichotomousView;
use dial_decisions::views::arc_input_video_view::{ArcInputVideoView, Playback};
use dial_decisions::views::info_view::InfoView;
use dial_decisions::views::participant_id_view::ParticipantIdView;
use dial_decisions::views::video_view::VideoView;
use dial_decisions::views::{ArcSettings, ScreenCommand};

#[test]
fn the_script_has_three_consent_screens_and_two_instructions() {
    let consent = consent_screens();
    assert_eq!(consent.len(), 3);
    for (k, screen) in consent.iter().enumerate() {
        match screen {
            Screen::Image(view) => {
                assert_eq!(view.title(), "Consent");
                assert_eq!(view.path(), &format!("images/consent-{}.png", k + 1));
            }
            _ => panic!("consent is shown as pictures"),
        }
        assert!(screen.data().is_none());
    }
    let instructions = instruction_screens();
    assert_eq!(instructions.len(), 2);
    assert!(matches!(&instructions[0], Screen::Image(view) if view.path() == "images/dynamic-1.png"));
    assert!(matches!(&instructions[1], Screen::Image(view) if view.path() == "images/dichotomous-1.png"));
}

#[test]
fn the_script_asks_age_gender_and_race_and_debriefs() {
    let screens = demographics_screens();
    assert_eq!(screens.len(), 4);
    assert_eq!(screens[0].data().unwrap().dataset_name, "demographics_age");
    assert_eq!(screens[1].data().unwrap().dataset_name, "demographics_gender");
    assert_eq!(screens[2].data().unwrap().dataset_name, "demographics_race");
    assert!(screens[3].data().is_none());
    match &screens[3] {
        Screen::Info(view) => {
            assert_eq!(view.title(), "Debriefing");
            assert!(view.message().starts_with("As you read in the consent form"));
            assert!(view.message().ends_with("Thank you again for participating!"));
        }
        _ => panic!("the debriefing is a message"),
    }
    let genders = gender_choices();
    assert_eq!(genders.len(), 4);
    assert_eq!(genders[3], (3, "Prefer not to disclose".to_string()));
    let races = race_choices();
    assert_eq!(races.len(), 15);
    assert_eq!(races[11], (11, "White, non-Hispanic (i.e., Caucasian)".to_string()));
    for (k, choice) in races.iter().enumerate() {
        assert_eq!(choice.0 as usize, k);
    }
    match final_screen() {
        Screen::Info(view) => {
            assert_eq!(view.title(), "Finished");
            assert_eq!(view.message(), "Thank you for participating.");
        }
        _ => panic!("the closing screen is a message"),
    }
}

#[test]
fn a_screen_dispatches_to_its_kind() {
    let mut screen = Screen::Dichotomous(ArcDichotomousView::new(0, false));
    assert!(!screen.needs_video());
    assert_eq!(screen.playback(), Playback::Closed);
    assert_eq!(screen.arc_settings(), Some(ArcSettings { divisions: 10 }));
    screen.init();
    screen.show(10);
    let frame = Frame { clock_ms: 20, video: None };
    screen.update(Some(DialEvent::Rotate { direction: DialDirection::Clockwise }), &frame);
    assert!(matches!(screen.update(Some(DialEvent::Button { pressed: true }), &frame), ScreenCommand::Stay));
    assert!(matches!(
        screen.update(Some(DialEvent::Button { pressed: true }), &frame),
        ScreenCommand::NextScreen(None)
    ));
    assert!(matches!(screen.iced_input(Message::ButtonPressed), ScreenCommand::Stay));
    assert_eq!(screen.data().unwrap().rows, "final,10,1\n");
    screen.dismiss();

    let mut video = Screen::DynamicRating(ArcInputVideoView::new(0, "p".to_string(), false));
    assert!(video.needs_video());
    assert_eq!(video.playback(), Playback::Closed);
    video.init();
    video.show(0);
    assert_eq!(video.playback(), Playback::Playing);
    let playing = Frame { clock_ms: 5, video: Some(VideoStatus { position_ms: 5, duration_ms: 100 }) };
    video.update(Some(DialEvent::Button { pressed: true }), &playing);
    assert_eq!(video.playback(), Playback::Paused);
    video.dismiss();
    assert_eq!(video.playback(), Playback::Closed);

    let mut plain = Screen::Video(VideoView::new("p".to_string()));
    assert!(plain.needs_video());
    assert!(plain.data().is_none());
    assert_eq!(plain.arc_settings(), None);
    plain.show(0);
    assert_eq!(plain.playback(), Playback::Playing);

    let mut id = Screen::ParticipantId(ParticipantIdView::new());
    id.iced_input(Message::TextInputChanged("12".to_string()));
    assert!(matches!(
        id.iced_input(Message::ButtonPressed),
        ScreenCommand::NextScreen(Some(payload)) if payload.id == "12"
    ));
    assert!(id.data().is_none());
    assert_eq!(id.arc_settings(), None);

    let mut info = Screen::Info(InfoView::new("a".to_string(), "b".to_string()));
    assert!(matches!(info.update(Some(DialEvent::Button { pressed: true }), &frame), ScreenCommand::NextScreen(None)));
    assert_eq!(info.arc_settings(), Some(ArcSettings { divisions: 0 }));
}
