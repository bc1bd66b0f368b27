use dial_decisions::document::{load_configuration, read_configuration, LoadError};
use yaml_rust::{Yaml, YamlLoader};

const FULL: &str = "
config:
  scaling: 1.25
videos:
  ids: [3, 1, 4, 15, 9]
  num: 4
participants:
  7:
    counterbalance: true
    condition: dichotomous
  12:
    counterbalance: false
    condition: dynamic
  note: not a participant
";

fn error_of(text: &str) -> LoadError {
    match load_configuration(text) {
        Ok(_) => panic!("the text should give no configuration"),
        Err(error) => error,
    }
}

#[test]
fn a_full_document_gives_its_configuration() {
    let config = load_configuration(FULL).unwrap();
    assert_eq!(config.video_ids(), &vec![3, 1, 4, 15, 9]);
    assert_eq!(config.num_videos(), 4);
    let seven = config.participant(7).unwrap();
    assert!(seven.config.counterbalance);
    assert_eq!(seven.config.condition, "dichotomous");
    let twelve = config.participant(12).unwrap();
    assert!(!twelve.config.counterbalance);
    assert_eq!(twelve.config.condition, "dynamic");
    assert!(config.participant(0).is_none());
    assert!(config.participant(8).is_none());
}

#[test]
fn participants_may_be_listed_by_position() {
    let text = "
videos:
  ids: [1, 2]
  num: 2
participants:
  - counterbalance: false
    condition: dynamic
  - counterbalance: true
    condition: dichotomous
";
    let config = load_configuration(text).unwrap();
    assert_eq!(config.participant(0).unwrap().config.condition, "dynamic");
    assert!(config.participant(1).unwrap().config.counterbalance);
    assert!(config.participant(2).is_none());
}

#[test]
fn a_document_that_lacks_a_field_is_refused() {
    let entries = "participants:\n  1:\n    counterbalance: true\n    condition: dynamic\n";
    assert_eq!(error_of(&format!("videos:\n  ids: [1, 2, 3, 4]\n{}", entries)), LoadError::VideoNumber);
    assert_eq!(error_of(&format!("videos:\n  num: 2\n{}", entries)), LoadError::VideoIds);
    assert_eq!(error_of(entries), LoadError::VideoIds);
    assert_eq!(error_of("videos:\n  ids: [1, 2]\n  num: 2\n"), LoadError::Participants);
    assert_eq!(
        error_of("videos:\n  ids: [1, 2]\n  num: 2\nparticipants: many\n"),
        LoadError::Participants
    );
    let config = load_configuration("videos:\n  ids: [1, 2]\n  num: 2\nparticipants: {}\n").unwrap();
    assert!(config.participant(0).is_none());
    let config = load_configuration("videos:\n  ids: [1, 2]\n  num: 2\nparticipants: []\n").unwrap();
    assert!(config.participant(0).is_none());
}

#[test]
fn text_that_is_no_yaml_or_holds_nothing_is_refused() {
    assert_eq!(error_of("videos: [1, 2"), LoadError::Syntax);
    assert_eq!(error_of(""), LoadError::Empty);
}

#[test]
fn video_ids_must_be_a_list_of_folder_numbers() {
    assert_eq!(error_of("videos:\n  ids: seven\n  num: 1\n"), LoadError::VideoIds);
    assert_eq!(error_of("videos:\n  ids: [1, two, 3]\n  num: 1\n"), LoadError::VideoIds);
    assert_eq!(error_of("videos:\n  ids: [1, -2, 3]\n  num: 1\n"), LoadError::VideoIds);
    assert_eq!(error_of("videos:\n  ids: [1, 4294967296]\n  num: 1\n"), LoadError::VideoIds);
    assert_eq!(error_of("videos:\n  ids: [1, 2.5]\n  num: 1\n"), LoadError::VideoIds);
    let config = load_configuration("videos:\n  ids: [4294967295]\n  num: 1\nparticipants: []\n").unwrap();
    assert_eq!(config.video_ids(), &vec![4294967295]);
}

#[test]
fn the_number_of_blocks_must_be_a_count() {
    assert_eq!(error_of("videos:\n  ids: [1, 2]\n  num: two\n"), LoadError::VideoNumber);
    assert_eq!(error_of("videos:\n  ids: [1, 2]\n  num: -1\n"), LoadError::VideoNumber);
    assert_eq!(error_of("videos:\n  ids: [1, 2]\n  num: 0\nparticipants: []\n"), LoadError::NoTrials);
    assert_eq!(error_of("videos:\n  ids: [1, 2]\n  num: 3\nparticipants: []\n"), LoadError::TooFewVideos);
    assert_eq!(error_of("videos:\n  ids: oops\n  num: oops\n"), LoadError::VideoIds);
}

#[test]
fn an_entry_needs_counterbalance_and_condition() {
    let head = "videos:\n  ids: [1, 2]\n  num: 2\nparticipants:\n";
    assert_eq!(
        error_of(&format!("{}  7:\n    counterbalance: true\n", head)),
        LoadError::Participant(7)
    );
    assert_eq!(
        error_of(&format!("{}  7:\n    condition: dynamic\n", head)),
        LoadError::Participant(7)
    );
    assert_eq!(
        error_of(&format!("{}  7:\n    counterbalance: yes please\n    condition: dynamic\n", head)),
        LoadError::Participant(7)
    );
    assert_eq!(
        error_of(&format!(
            "{}  3:\n    counterbalance: true\n    condition: dynamic\n  5: nothing\n  6: 1\n",
            head
        )),
        LoadError::Participant(5)
    );
    assert_eq!(
        error_of(&format!("{}  - counterbalance: true\n    condition: dynamic\n  - ~\n", head)),
        LoadError::Participant(1)
    );
    assert_eq!(
        error_of("participants:\n  7: {}\nvideos:\n  ids: [1]\n  num: 1\n"),
        LoadError::Participant(7)
    );
    assert_eq!(error_of("participants:\n  7: {}\nvideos:\n  ids: none\n"), LoadError::VideoIds);
}

#[test]
fn keys_that_are_no_ids_are_passed_over() {
    let text = "
videos:
  ids: [1]
  num: 1
participants:
  seven:
    counterbalance: true
  -3:
    condition: dynamic
  4:
    counterbalance: false
    condition: control
";
    let config = load_configuration(text).unwrap();
    assert_eq!(config.participant(4).unwrap().config.condition, "control");
    assert!(config.participant(3).is_none());
}

#[test]
fn a_document_is_read_node_by_node() {
    let nodes = YamlLoader::load_from_str(FULL).unwrap();
    let config = read_configuration(&nodes[0]).unwrap();
    assert_eq!(config.num_videos(), 4);
    assert_eq!(config.participant(7).unwrap().id, 7);
    assert!(matches!(read_configuration(&Yaml::Null), Err(LoadError::VideoIds)));
    assert!(matches!(read_configuration(&Yaml::BadValue), Err(LoadError::VideoIds)));
    assert!(matches!(read_configuration(&Yaml::Integer(3)), Err(LoadError::VideoIds)));
    let list = YamlLoader::load_from_str("- 1\n- 2\n").unwrap();
    assert!(matches!(read_configuration(&list[0]), Err(LoadError::VideoIds)));
}
