use dial_decisions::script::{build_trial_screens, path_of};
use dial_decisions::screen::Screen;
use dial_decisions::trials::{
    assign_trial, draw_trials, plan_trials, split_evenly, Split, TrialAssignment,
};

fn bucket_counts(trials: &[TrialAssignment]) -> (usize, usize) {
    let lies = trials.iter().filter(|t| t.bucket == 0).count();
    let truths = trials.iter().filter(|t| t.bucket == 1).count();
    (lies, truths)
}

#[test]
fn the_odd_block_goes_to_the_first_bucket() {
    assert_eq!(split_evenly(5), Split { lie: 3, truth: 2 });
    assert_eq!(split_evenly(4), Split { lie: 2, truth: 2 });
    assert_eq!(split_evenly(1), Split { lie: 1, truth: 0 });
    assert_eq!(split_evenly(0), Split { lie: 0, truth: 0 });
}

#[test]
fn one_assignment_takes_a_video_and_a_block_off_the_bucket() {
    let mut pool = vec![10, 20, 30, 40];
    let mut remaining = Split { lie: 1, truth: 1 };
    let trial = assign_trial(&mut pool, &mut remaining, 1, 0);
    assert_eq!(trial, TrialAssignment { video: 20, bucket: 0 });
    assert_eq!(pool, vec![10, 40, 30]);
    assert_eq!(remaining, Split { lie: 0, truth: 1 });
    let trial = assign_trial(&mut pool, &mut remaining, 2, 0);
    assert_eq!(trial, TrialAssignment { video: 30, bucket: 1 });
    assert_eq!(pool, vec![10, 40]);
    assert_eq!(remaining, Split { lie: 0, truth: 0 });
}

#[test]
fn a_used_up_truth_bucket_falls_to_the_lie() {
    let mut pool = vec![1, 2];
    let mut remaining = Split { lie: 2, truth: 0 };
    let trial = assign_trial(&mut pool, &mut remaining, 0, 1);
    assert_eq!(trial, TrialAssignment { video: 1, bucket: 0 });
    assert_eq!(remaining, Split { lie: 1, truth: 0 });
}

#[test]
fn five_blocks_always_split_three_to_two() {
    let ids = vec![11, 12, 13, 14, 15, 16, 17];
    for pattern in 0..32usize {
        let draws: Vec<(usize, usize)> = (0..5).map(|k| (0, (pattern >> k) & 1)).collect();
        let trials = plan_trials(&ids, &draws).unwrap();
        assert_eq!(trials.len(), 5);
        assert_eq!(bucket_counts(&trials), (3, 2));
    }
}

#[test]
fn a_plan_follows_its_draws() {
    let ids = vec![11, 12, 13, 14, 15];
    let draws = vec![(4, 1), (0, 1), (2, 1), (1, 0), (0, 0)];
    let trials = plan_trials(&ids, &draws).unwrap();
    assert_eq!(
        trials,
        vec![
            TrialAssignment { video: 15, bucket: 1 },
            TrialAssignment { video: 11, bucket: 1 },
            TrialAssignment { video: 13, bucket: 0 },
            TrialAssignment { video: 12, bucket: 0 },
            TrialAssignment { video: 14, bucket: 0 },
        ]
    );
}

#[test]
fn there_is_no_plan_for_draws_outside_the_pool() {
    let ids = vec![1, 2, 3];
    assert_eq!(plan_trials(&ids, &vec![(3, 0)]), None);
    assert_eq!(plan_trials(&ids, &vec![(0, 0), (2, 0)]), None);
    assert_eq!(plan_trials(&ids, &vec![(0, 2)]), None);
    assert_eq!(plan_trials(&ids, &vec![(0, 0), (0, 0), (0, 0), (0, 0)]), None);
    assert_eq!(plan_trials(&ids, &vec![]), Some(vec![]));
    assert_eq!(plan_trials(&vec![], &vec![]), Some(vec![]));
}

#[test]
fn random_plans_fill_the_buckets_and_never_repeat_a_video() {
    let ids = vec![3, 5, 8, 13, 21, 34];
    for _ in 0..500 {
        let trials = draw_trials(&ids, 5);
        assert_eq!(trials.len(), 5);
        assert_eq!(bucket_counts(&trials), (3, 2));
        let mut videos: Vec<u32> = trials.iter().map(|t| t.video).collect();
        assert!(videos.iter().all(|v| ids.contains(v)));
        videos.sort();
        videos.dedup();
        assert_eq!(videos.len(), 5);
    }
    assert_eq!(draw_trials(&ids, 0), vec![]);
    assert_eq!(draw_trials(&ids, 6).len(), 6);
}

#[test]
fn random_draws_vary() {
    let ids = vec![1, 2];
    let mut first_is_lie = 0;
    let mut first_is_truth = 0;
    let mut first_video_is_one = 0;
    let mut first_video_is_two = 0;
    for _ in 0..400 {
        let trials = draw_trials(&ids, 2);
        if trials[0].bucket == 0 {
            first_is_lie += 1;
        } else {
            first_is_truth += 1;
        }
        if trials[0].video == 1 {
            first_video_is_one += 1;
        } else {
            first_video_is_two += 1;
        }
    }
    assert!(first_is_lie > 0 && first_is_truth > 0);
    assert!(first_video_is_one > 0 && first_video_is_two > 0);
}

#[test]
fn the_path_of_a_video_names_its_folder_and_its_bucket() {
    assert_eq!(path_of(&TrialAssignment { video: 7, bucket: 0 }), "videos/7/alibi1_control.webm");
    assert_eq!(path_of(&TrialAssignment { video: 120, bucket: 1 }), "videos/120/alibi2_control.webm");
}

#[test]
fn blocks_of_the_dichotomous_condition_have_four_screens() {
    let trials = vec![TrialAssignment { video: 7, bucket: 0 }, TrialAssignment { video: 9, bucket: 1 }];
    let screens = build_trial_screens(&trials, true, "dichotomous");
    assert_eq!(screens.len(), 8);
    for block in 0..2 {
        assert!(matches!(screens[4 * block], Screen::DynamicRating(_)));
        assert!(matches!(screens[4 * block + 1], Screen::Dichotomous(_)));
        assert!(matches!(screens[4 * block + 2], Screen::Scale(_)));
        assert!(matches!(screens[4 * block + 3], Screen::Info(_)));
    }
    match &screens[4] {
        Screen::DynamicRating(view) => {
            assert_eq!(view.path(), "videos/9/alibi2_control.webm");
            assert!(view.counterbalance());
        }
        _ => unreachable!(),
    }
    assert_eq!(screens[5].data().unwrap().dataset_name, "lie_truth_dichotomous_1");
    assert_eq!(screens[6].data().unwrap().dataset_name, "confidence_1");
    assert_eq!(screens[4].data().unwrap().dataset_name, "lie_truth_dynamic_1");
}

#[test]
fn blocks_of_other_conditions_have_three_screens() {
    let trials = vec![TrialAssignment { video: 7, bucket: 0 }];
    for condition in ["dynamic", "control", ""] {
        let screens = build_trial_screens(&trials, false, condition);
        assert_eq!(screens.len(), 3);
        assert!(matches!(screens[0], Screen::DynamicRating(_)));
        assert!(matches!(screens[1], Screen::Scale(_)));
        assert!(matches!(screens[2], Screen::Info(_)));
    }
}
