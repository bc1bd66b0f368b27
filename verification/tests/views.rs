use dial_decisions::events::{DialDirection, DialEvent, Frame, KeyCode, Message, VideoStatus};
use dial_decisions::sampler::DataPoint;
use dial_decisions::views::arc_dichotomous_view::ArcDichotomousView;
use dial_decisions::views::arc_input_video_view::{has_ended, ArcInputVideoView, Playback};
use dial_decisions::views::arc_question_scale::ArcQuestionScaleView;
use dial_decisions::views::image_view::ImageView;
use dial_decisions::views::info_view::InfoView;
use dial_decisions::views::lock_in_video_view::LockInVideoView;
use dial_decisions::views::multichoice_view::MultiChoiceView;
use dial_decisions::views::participant_id_view::ParticipantIdView;
use dial_decisions::views::rating::elapsed_ms;
use dial_decisions::views::textinput_view::{TextInputType, TextInputView};
use dial_decisions::views::video_view::VideoView;
use dial_decisions::views::{ArcSettings, ScreenCommand};

fn at(clock_ms: u64) -> Frame {
    Frame { clock_ms, video: None }
}

fn playing(clock_ms: u64, position_ms: u64, duration_ms: u64) -> Frame {
    Frame { clock_ms, video: Some(VideoStatus { position_ms, duration_ms }) }
}

fn turn(direction: DialDirection) -> Option<DialEvent> {
    Some(DialEvent::Rotate { direction })
}

fn press() -> Option<DialEvent> {
    Some(DialEvent::Button { pressed: true })
}

fn release() -> Option<DialEvent> {
    Some(DialEvent::Button { pressed: false })
}

fn stays(command: &ScreenCommand) -> bool {
    matches!(command, ScreenCommand::Stay)
}

fn moves_on(command: &ScreenCommand) -> bool {
    matches!(command, ScreenCommand::NextScreen(None))
}

#[test]
fn dichotomous_clamps_three_clockwise_rotations_at_one() {
    let mut screen = ArcDichotomousView::new(0, false);
    screen.init();
    screen.show(1000);
    assert_eq!(screen.value(), 0);
    for i in 0..3u64 {
        assert!(stays(&screen.update(turn(DialDirection::Clockwise), &at(1010 + i))));
    }
    assert_eq!(screen.value(), 1);
}

#[test]
fn dichotomous_button_in_the_middle_does_not_finalize() {
    let mut screen = ArcDichotomousView::new(0, false);
    screen.init();
    screen.show(1000);
    assert!(stays(&screen.update(press(), &at(1500))));
    assert!(!screen.finished());
    assert!(stays(&screen.update(press(), &at(1600))));
    assert!(!screen.finished());
    let data = screen.data().unwrap();
    assert_eq!(data.final_decision, 0);
    assert_eq!(data.final_decision_timestamp, 0);
}

#[test]
fn dichotomous_button_off_the_middle_finalizes_at_once() {
    let mut screen = ArcDichotomousView::new(3, true);
    screen.init();
    screen.show(1000);
    screen.update(turn(DialDirection::Counterclockwise), &at(1200));
    assert!(stays(&screen.update(press(), &at(1300))));
    assert!(screen.finished());
    let data = screen.data().unwrap();
    assert_eq!(data.final_decision, -1);
    assert_eq!(data.final_decision_timestamp, 300);
    screen.update(turn(DialDirection::Clockwise), &at(1400));
    assert_eq!(screen.value(), -1);
    assert!(moves_on(&screen.update(press(), &at(1500))));
}

#[test]
fn dichotomous_release_of_the_button_does_nothing() {
    let mut screen = ArcDichotomousView::new(0, false);
    screen.show(0);
    screen.update(turn(DialDirection::Clockwise), &at(10));
    assert!(stays(&screen.update(release(), &at(20))));
    assert!(!screen.finished());
    assert!(stays(&screen.update(Some(DialEvent::Connection), &at(30))));
    assert!(stays(&screen.update(None, &at(40))));
}

#[test]
fn dichotomous_samples_carry_the_time_on_the_screen() {
    let mut screen = ArcDichotomousView::new(0, false);
    screen.show(5000);
    screen.update(turn(DialDirection::Clockwise), &at(5100));
    screen.update(None, &at(5600));
    assert!(screen.data().unwrap().data_points.is_empty());
    screen.update(None, &at(5601));
    assert_eq!(screen.data().unwrap().data_points, vec![DataPoint { timestamp: 601, value: 1 }]);
    screen.update(None, &at(7000));
    assert_eq!(screen.data().unwrap().data_points.len(), 1);
}

#[test]
fn dichotomous_asks_for_ten_divisions() {
    let screen = ArcDichotomousView::new(0, false);
    assert_eq!(screen.arc_settings(), Some(ArcSettings { divisions: 10 }));
    assert!(!screen.control());
}

#[test]
fn show_resets_a_rating_screen() {
    let mut screen = ArcDichotomousView::new(0, false);
    screen.show(0);
    screen.update(turn(DialDirection::Clockwise), &at(10));
    screen.update(press(), &at(20));
    assert!(screen.finished());
    screen.dismiss();
    screen.init();
    screen.show(100);
    assert!(!screen.finished());
    assert_eq!(screen.value(), 0);
}

#[test]
fn elapsed_time_never_goes_below_zero() {
    assert_eq!(elapsed_ms(10, 4), 6);
    assert_eq!(elapsed_ms(4, 10), 0);
    assert_eq!(elapsed_ms(4, 4), 0);
}

#[test]
fn scale_button_finalizes_wherever_the_dial_stands() {
    let mut screen = ArcQuestionScaleView::new(
        2,
        "confidence".to_string(),
        "How confident are you in your decision?".to_string(),
        "0".to_string(),
        "100".to_string(),
        0,
        100,
        0,
        0,
    );
    screen.init();
    screen.show(100);
    assert_eq!(screen.value(), 0);
    screen.update(turn(DialDirection::Counterclockwise), &at(150));
    assert_eq!(screen.value(), 0);
    assert!(stays(&screen.update(press(), &at(200))));
    assert!(screen.finished());
    let data = screen.data().unwrap();
    assert_eq!(data.final_decision, 0);
    assert_eq!(data.final_decision_timestamp, 100);
    assert!(moves_on(&screen.update(press(), &at(300))));
    assert_eq!(screen.arc_settings(), Some(ArcSettings { divisions: 0 }));
    assert_eq!(screen.question(), "How confident are you in your decision?");
    assert_eq!(screen.left_label(), "0");
    assert_eq!(screen.right_label(), "100");
}

#[test]
fn scale_starts_at_its_initial_value_after_init() {
    let mut screen = ArcQuestionScaleView::new(
        0,
        "mood".to_string(),
        "?".to_string(),
        "low".to_string(),
        "high".to_string(),
        10,
        20,
        15,
        30,
    );
    screen.update(turn(DialDirection::Clockwise), &at(1));
    assert_eq!(screen.value(), 16);
    screen.init();
    assert_eq!(screen.value(), 15);
    assert_eq!(screen.arc_settings(), Some(ArcSettings { divisions: 30 }));
}

#[test]
fn video_rating_locks_in_on_the_button() {
    let mut screen = ArcInputVideoView::new(0, "videos/4/alibi1_control.webm".to_string(), false);
    screen.init();
    screen.show();
    assert_eq!(screen.playback(), Playback::Playing);
    screen.update(turn(DialDirection::Clockwise), &playing(10, 1000, 60000));
    screen.update(turn(DialDirection::Clockwise), &playing(20, 1010, 60000));
    assert!(stays(&screen.update(press(), &playing(30, 1020, 60000))));
    assert!(screen.finished());
    assert_eq!(screen.playback(), Playback::Paused);
    let data = screen.data().unwrap();
    assert_eq!(data.final_decision, 2);
    assert_eq!(data.final_decision_timestamp, 1020);
    assert!(moves_on(&screen.update(press(), &playing(40, 1020, 60000))));
    screen.dismiss();
    assert_eq!(screen.playback(), Playback::Closed);
    screen.dismiss();
    assert_eq!(screen.playback(), Playback::Closed);
}

#[test]
fn video_rating_press_locks_the_gauge_and_keeps_the_samples() {
    let mut screen = ArcInputVideoView::new(0, "v".to_string(), true);
    screen.show();
    screen.update(turn(DialDirection::Clockwise), &playing(10, 1000, 60000));
    screen.update(None, &playing(600, 1590, 60000));
    assert_eq!(screen.data().unwrap().data_points, vec![DataPoint { timestamp: 1590, value: 1 }]);
    screen.update(turn(DialDirection::Clockwise), &playing(700, 1690, 60000));
    assert!(stays(&screen.update(press(), &playing(800, 1790, 60000))));
    assert!(screen.finished());
    assert!(screen.gauge().is_disabled());
    assert_eq!(screen.playback(), Playback::Paused);
    let data = screen.data().unwrap();
    assert_eq!(data.final_decision, 2);
    assert_eq!(data.final_decision_timestamp, 1790);
    assert_eq!(data.data_points, vec![DataPoint { timestamp: 1590, value: 1 }]);
    screen.update(None, &playing(5000, 1790, 60000));
    assert_eq!(screen.data().unwrap().data_points.len(), 1);
}

#[test]
fn video_rating_finalizes_at_the_end_of_the_video() {
    let mut screen = ArcInputVideoView::new(1, "v".to_string(), true);
    screen.show();
    screen.update(turn(DialDirection::Counterclockwise), &playing(10, 1000, 60000));
    assert!(stays(&screen.update(None, &playing(20, 59974, 60000))));
    assert!(!screen.finished());
    assert!(stays(&screen.update(None, &playing(30, 59975, 60000))));
    assert!(screen.finished());
    assert_eq!(screen.playback(), Playback::Paused);
    let data = screen.data().unwrap();
    assert_eq!(data.final_decision, -1);
    assert_eq!(data.final_decision_timestamp, 59975);
    assert!(data.data_points.is_empty());
    screen.update(None, &playing(40, 59990, 60000));
    assert_eq!(screen.data().unwrap().final_decision_timestamp, 59975);
    assert!(moves_on(&screen.update(press(), &playing(50, 59990, 60000))));
}

#[test]
fn video_rating_samples_carry_the_position_in_the_video() {
    let mut screen = ArcInputVideoView::new(1, "v".to_string(), false);
    screen.show();
    screen.update(turn(DialDirection::Clockwise), &playing(100, 3000, 60000));
    screen.update(None, &playing(700, 3550, 60000));
    assert_eq!(screen.data().unwrap().data_points, vec![DataPoint { timestamp: 3550, value: 1 }]);
    assert_eq!(screen.arc_settings(), Some(ArcSettings { divisions: 60 }));
    assert_eq!(screen.path(), "v");
    assert!(!screen.counterbalance());
    assert_eq!(screen.value(), 1);
}

#[test]
fn a_video_counts_as_over_within_the_buffer_of_its_end() {
    assert!(!has_ended(&VideoStatus { position_ms: 0, duration_ms: 26 }));
    assert!(has_ended(&VideoStatus { position_ms: 1, duration_ms: 26 }));
    assert!(has_ended(&VideoStatus { position_ms: 30, duration_ms: 26 }));
    assert!(has_ended(&VideoStatus { position_ms: u64::MAX, duration_ms: u64::MAX }));
    assert!(has_ended(&VideoStatus { position_ms: 0, duration_ms: 0 }));
}

#[test]
fn lock_in_records_the_position_of_the_first_press() {
    let mut screen = LockInVideoView::new(5, "videos/1/a.webm".to_string());
    screen.init();
    screen.show();
    assert_eq!(screen.playback(), Playback::Playing);
    assert!(stays(&screen.update(None, &playing(0, 100, 9000))));
    assert!(!screen.finished());
    assert!(stays(&screen.update(press(), &playing(10, 4321, 9000))));
    assert!(screen.finished());
    assert_eq!(screen.playback(), Playback::Paused);
    assert_eq!(screen.data().unwrap().final_decision_timestamp, 4321);
    assert!(moves_on(&screen.update(press(), &playing(20, 4321, 9000))));
    assert_eq!(screen.data().unwrap().final_decision_timestamp, 4321);
    assert_eq!(screen.arc_settings(), None);
    assert_eq!(screen.path(), "videos/1/a.webm");
    screen.dismiss();
    assert_eq!(screen.playback(), Playback::Closed);
}

#[test]
fn lock_in_may_be_left_once_the_video_is_over() {
    let mut screen = LockInVideoView::new(5, "p".to_string());
    screen.show();
    assert!(stays(&screen.update(None, &playing(0, 8990, 9000))));
    assert!(screen.finished());
    assert_eq!(screen.playback(), Playback::Playing);
    assert!(moves_on(&screen.update(press(), &playing(10, 9000, 9000))));
    assert_eq!(screen.data().unwrap().final_decision_timestamp, 0);
}

#[test]
fn video_screen_waits_for_the_end_of_the_video() {
    let mut screen = VideoView::new("videos/tutorial.webm".to_string());
    screen.init();
    screen.show();
    assert!(stays(&screen.update(press(), &playing(0, 10, 5000))));
    assert!(!screen.finished());
    assert!(stays(&screen.update(None, &playing(0, 4980, 5000))));
    assert!(screen.finished());
    assert!(moves_on(&screen.update(press(), &playing(0, 4990, 5000))));
    assert_eq!(screen.arc_settings(), None);
    assert_eq!(screen.path(), "videos/tutorial.webm");
    assert_eq!(screen.playback(), Playback::Playing);
    screen.dismiss();
    assert_eq!(screen.playback(), Playback::Closed);
    assert!(stays(&screen.iced_input(Message::ButtonPressed)));
}

#[test]
fn image_and_info_screens_advance_on_the_button() {
    let mut image = ImageView::new("Consent".to_string(), "images/consent-1.png".to_string());
    image.init();
    image.show();
    assert!(stays(&image.update(None)));
    assert!(stays(&image.update(release())));
    assert!(stays(&image.update(turn(DialDirection::Clockwise))));
    assert!(moves_on(&image.update(press())));
    assert!(stays(&image.iced_input(Message::ButtonPressed)));
    assert_eq!(image.arc_settings(), Some(ArcSettings { divisions: 0 }));
    assert_eq!(image.title(), "Consent");
    assert_eq!(image.path(), "images/consent-1.png");
    image.dismiss();

    let mut info = InfoView::new("Reminder".to_string(), "Keep going".to_string());
    info.init();
    info.show();
    assert!(stays(&info.update(None)));
    assert!(moves_on(&info.update(press())));
    assert!(stays(&info.iced_input(Message::RadioSelected(1))));
    assert_eq!(info.arc_settings(), Some(ArcSettings { divisions: 0 }));
    assert_eq!(info.title(), "Reminder");
    assert_eq!(info.message(), "Keep going");
    info.dismiss();
}

#[test]
fn participant_screen_takes_numeric_text_only() {
    let mut screen = ParticipantIdView::new();
    screen.init();
    screen.show();
    assert!(stays(&screen.iced_input(Message::TextInputChanged("12".to_string()))));
    assert_eq!(screen.text_value(), "12");
    assert!(stays(&screen.iced_input(Message::TextInputChanged("12a".to_string()))));
    assert_eq!(screen.text_value(), "12");
    assert!(stays(&screen.iced_input(Message::TextInputChanged("".to_string()))));
    assert_eq!(screen.text_value(), "");
    assert!(stays(&screen.iced_input(Message::TextInputChanged("7".to_string()))));
    assert!(stays(&screen.update(press())));
    assert!(stays(&screen.iced_input(Message::KeyPressed(KeyCode::Right))));
    match screen.iced_input(Message::ButtonPressed) {
        ScreenCommand::NextScreen(Some(payload)) => assert_eq!(payload.id, "7"),
        other => panic!("unexpected command {:?}", other),
    }
    assert_eq!(screen.arc_settings(), None);
    screen.init();
    assert_eq!(screen.text_value(), "");
    screen.dismiss();
}

#[test]
fn a_field_takes_a_text_that_was_accepted_and_keeps_its_own_otherwise() {
    let mut screen = ParticipantIdView::new();
    screen.take_text("7".to_string(), true);
    assert_eq!(screen.text_value(), "7");
    screen.take_text("8".to_string(), false);
    assert_eq!(screen.text_value(), "7");
    match screen.iced_input(Message::ButtonPressed) {
        ScreenCommand::NextScreen(Some(payload)) => assert_eq!(payload.id, "7"),
        other => panic!("unexpected command {:?}", other),
    }

    let mut field = TextInputView::new(
        TextInputType::Number,
        "demographics_age".to_string(),
        "t".to_string(),
        "l".to_string(),
        "h".to_string(),
    );
    assert!(field.accepts_text("31"));
    assert!(!field.accepts_text("31 years"));
    assert!(field.accepts_text(""));
    field.take_text("31".to_string(), true);
    field.take_text("x".to_string(), false);
    assert_eq!(field.text_value(), "31");
    assert_eq!(field.data().unwrap().text, "31");
}

#[test]
fn text_input_holds_the_text_to_its_class() {
    let mut number = TextInputView::new(
        TextInputType::Number,
        "demographics_age".to_string(),
        "Demographics".to_string(),
        "What is your current age?".to_string(),
        "Age...".to_string(),
    );
    number.init();
    number.show();
    number.iced_input(Message::TextInputChanged("23".to_string()));
    number.iced_input(Message::TextInputChanged("23 years".to_string()));
    assert_eq!(number.text_value(), "23");
    assert_eq!(number.data().unwrap().text, "23");
    assert!(stays(&number.update(press())));
    assert!(moves_on(&number.iced_input(Message::ButtonPressed)));
    assert_eq!(number.arc_settings(), None);
    assert_eq!(number.title(), "Demographics");
    assert_eq!(number.label(), "What is your current age?");
    assert_eq!(number.hint(), "Age...");
    number.init();
    assert_eq!(number.text_value(), "");
    assert_eq!(number.data().unwrap().name, "demographics_age");

    let mut letters =
        TextInputView::new(TextInputType::Characters, "n".to_string(), "t".to_string(), "l".to_string(), "h".to_string());
    letters.iced_input(Message::TextInputChanged("abc".to_string()));
    letters.iced_input(Message::TextInputChanged("abc1".to_string()));
    assert_eq!(letters.text_value(), "abc");

    let mut mixed =
        TextInputView::new(TextInputType::Alphanumeric, "n".to_string(), "t".to_string(), "l".to_string(), "h".to_string());
    mixed.iced_input(Message::TextInputChanged("abc1".to_string()));
    mixed.iced_input(Message::TextInputChanged("abc 1".to_string()));
    assert_eq!(mixed.text_value(), "abc1");

    let mut all = TextInputView::new(TextInputType::All, "n".to_string(), "t".to_string(), "l".to_string(), "h".to_string());
    all.iced_input(Message::TextInputChanged("a, b; c!".to_string()));
    assert_eq!(all.text_value(), "a, b; c!");
    all.dismiss();
}

#[test]
fn multichoice_records_the_selection_with_its_label() {
    let mut screen = MultiChoiceView::new(
        "demographics_race".to_string(),
        "Demographics".to_string(),
        "Which?".to_string(),
        vec![
            (0, "Chinese".to_string()),
            (11, "White, non-Hispanic (i.e., Caucasian)".to_string()),
            (11, "Shadowed".to_string()),
        ],
    );
    screen.init();
    screen.show();
    assert_eq!(screen.current_choice(), None);
    assert!(stays(&screen.iced_input(Message::RadioSelected(11))));
    assert_eq!(screen.current_choice(), Some(11));
    assert_eq!(screen.data().unwrap().selection, 11);
    assert_eq!(screen.data().unwrap().label, "White; non-Hispanic (i.e.; Caucasian)");
    screen.iced_input(Message::RadioSelected(5));
    assert_eq!(screen.data().unwrap().selection, 5);
    assert_eq!(screen.data().unwrap().label, "Unknown");
    assert!(stays(&screen.update(press())));
    assert!(stays(&screen.iced_input(Message::TextInputChanged("x".to_string()))));
    assert!(moves_on(&screen.iced_input(Message::ButtonPressed)));
    assert_eq!(screen.arc_settings(), Some(ArcSettings { divisions: 0 }));
    assert_eq!(screen.title(), "Demographics");
    assert_eq!(screen.message(), "Which?");
    assert_eq!(screen.choices().len(), 3);
    screen.init();
    assert_eq!(screen.current_choice(), None);
    assert_eq!(screen.data().unwrap().selection, 0);
    assert_eq!(screen.data().unwrap().label, "");
    screen.dismiss();
}
