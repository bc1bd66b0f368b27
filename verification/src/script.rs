//! The script of the experiment: the screens of each phase and their texts.

use vstd::prelude::*;
use vstd::string::*;
use crate::screen::{Screen, ScreenState};
use crate::text::{decimal, push_decimal, same_text};
use crate::trials::TrialAssignment;
use crate::views::arc_dichotomous_view::{ArcDichotomousView, DichotomousState};
use crate::views::arc_input_video_view::{ArcInputVideoView, VideoRatingState};
use crate::views::arc_question_scale::{ArcQuestionScaleView, ScaleState};
use crate::views::image_view::ImageView;
use crate::views::info_view::InfoView;
use crate::views::multichoice_view::{choice_texts, MultiChoiceState, MultiChoiceView};
use crate::views::textinput_view::{TextInputState, TextInputType, TextInputView};
use crate::sampler::SamplerState;

verus! {

/// The condition in which each video is followed by a decision between lie
/// and truth.
pub const DICHOTOMOUS: &'static str = "dichotomous";

/// The file of the lie in each video's folder.
pub const LIE_VIDEO: &'static str = "alibi1_control.webm";

/// The file of the truth in each video's folder.
pub const TRUTH_VIDEO: &'static str = "alibi2_control.webm";

pub const CONFIDENCE_NAME: &'static str = "confidence";

pub const CONFIDENCE_QUESTION: &'static str = "How confident are you in your decision?";

pub const CONFIDENCE_LEFT: &'static str = "0";

pub const CONFIDENCE_RIGHT: &'static str = "100";

pub const REMINDER_TITLE: &'static str = "Reminder";

pub const REMINDER_TEXT: &'static str =
    "Remember, be as quick and accurate as possible. Please keep your hand on the dial at all times.";

pub const CONSENT_TITLE: &'static str = "Consent";

pub const CONSENT_IMAGE_1: &'static str = "images/consent-1.png";

pub const CONSENT_IMAGE_2: &'static str = "images/consent-2.png";

pub const CONSENT_IMAGE_3: &'static str = "images/consent-3.png";

pub const INSTRUCTIONS_TITLE: &'static str = "Instructions";

/// The picture that explains the running rating.
pub const DYNAMIC_INSTRUCTIONS: &'static str = "images/dynamic-1.png";

/// The picture that explains the decision between lie and truth.
pub const DICHOTOMOUS_INSTRUCTIONS: &'static str = "images/dichotomous-1.png";

pub const DEMOGRAPHICS_TITLE: &'static str = "Demographics";

pub const AGE_NAME: &'static str = "demographics_age";

pub const AGE_QUESTION: &'static str = "What is your current age?";

pub const AGE_HINT: &'static str = "Age...";

pub const GENDER_NAME: &'static str = "demographics_gender";

pub const GENDER_QUESTION: &'static str = "With which gender do you most identify (select one)?";

pub const RACE_NAME: &'static str = "demographics_race";

pub const RACE_QUESTION: &'static str =
    "Which of the following races/ethnicities best describes you (select one)?";

pub const DEBRIEFING_TITLE: &'static str = "Debriefing";

pub const DEBRIEFING_TEXT: &'static str =
    "As you read in the consent form, the goal of this study is to learn how people make decisions
about deception. We are trying to find out whether the types of decision-making tool (i.e., the
dial) that people use and the instructions that people receive when making lie detection decisions
might affect judgments of deception. For example, if someone uses continuous dial judgments to
make their decision, are they more likely to accurately judge if someone is a lie-teller than if they
made a single dial choice after they viewed an account? Currently, the impact of the dial as a
decision-making tool and instructions on lie detection are unknown.\n
In this study, you watched videos of people who were being interviewed and provided an alibi
for their whereabouts. We randomly chose which people would be encouraged to be honest, or
lie, to the interviewer. As a result, people’s actions were primarily due to our experimental
design and were not reflective of their natural behaviors or personal characteristics.\n
Thank you so much for taking part in our study! I want to let you know that it is very important
that you do not talk to anyone else about this study who hasn’t participated yet. If people know
what we’re studying before they arrive, they might change their behavior, and then we wouldn’t
be able to successfully run the study. So, it is very important that you do not discuss this study
with others.\n
If you wish to learn more about the study or the aggregate results, please feel free to contact the
Principal Investigator, Elizabeth Elliott, at elliotte@iastate.edu\n
Thank you again for participating!";

pub const FINISHED_TITLE: &'static str = "Finished";

pub const FINISHED_TEXT: &'static str = "Thank you for participating.";

/// The states of `screens`.
pub open spec fn states(screens: Seq<Screen>) -> Seq<ScreenState> {
    screens.map_values(|screen: Screen| screen@)
}

/// The choices with the labels `labels`, numbered from zero.
pub open spec fn numbered(labels: Seq<Seq<char>>) -> Seq<(u32, Seq<char>)> {
    Seq::new(labels.len(), |i: int| (i as u32, labels[i]))
}

/// Appends a choice with the label `label` and the next number.
fn push_choice(choices: &mut Vec<(u32, String)>, labels: Ghost<Seq<Seq<char>>>, label: &str)
    requires
        old(choices).len() < 100,
        choice_texts(old(choices)@) == numbered(labels@),
    ensures
        choice_texts(final(choices)@) == numbered(labels@.push(label@)),
        final(choices).len() == old(choices).len() + 1,
{
    let index = choices.len() as u32;
    assert(labels@.len() == choice_texts(old(choices)@).len());
    choices.push((index, String::from_str(label)));
    assert forall|j: int| 0 <= j < choices@.len() implies choice_texts(choices@)[j] == numbered(
        labels@.push(label@),
    )[j] by {
        if j < old(choices)@.len() {
            assert(choice_texts(old(choices)@)[j] == numbered(labels@)[j]);
        }
    }
    assert(choice_texts(final(choices)@) =~= numbered(labels@.push(label@)));
}

/// The labels of the question for the gender.
pub open spec fn gender_labels() -> Seq<Seq<char>> {
    seq!["Male"@, "Female"@, "Other"@, "Prefer not to disclose"@]
}

/// The labels of the question for the race or ethnicity.
pub open spec fn race_labels() -> Seq<Seq<char>> {
    seq![
        "Aboriginal or indigenous (i.e., Alaskan native, American Indian, First Nations, Inuit, Metis)"@,
        "Arab or West Asian (e.g., Armenian, Egyptian, Iranian, Lebanese, Moroccan)"@,
        "Black (e.g., African, Haitian, Jamaican, Somali)"@,
        "Chinese"@,
        "Filipino"@,
        "Japanese"@,
        "Korean"@,
        "Latino/Hispanic"@,
        "Pacific Islander"@,
        "South Asian"@,
        "South East Asian"@,
        "White, non-Hispanic (i.e., Caucasian)"@,
        "Multi-ethnic"@,
        "Other"@,
        "Prefer not to disclose"@,
    ]
}

/// The choices of the question for the gender.
pub fn gender_choices() -> (choices: Vec<(u32, String)>)
    ensures
        choice_texts(choices@) == numbered(gender_labels()),
{
    let mut choices: Vec<(u32, String)> = Vec::new();
    let ghost mut labels: Seq<Seq<char>> = Seq::empty();
    assert(choice_texts(choices@) =~= numbered(labels));
    push_choice(&mut choices, Ghost(labels), "Male");
    proof {
        labels = labels.push("Male"@);
    }
    push_choice(&mut choices, Ghost(labels), "Female");
    proof {
        labels = labels.push("Female"@);
    }
    push_choice(&mut choices, Ghost(labels), "Other");
    proof {
        labels = labels.push("Other"@);
    }
    push_choice(&mut choices, Ghost(labels), "Prefer not to disclose");
    proof {
        labels = labels.push("Prefer not to disclose"@);
        assert(labels =~= gender_labels());
    }
    choices
}

/// The screens of consent, in order.
pub open spec fn consent_script() -> Seq<ScreenState> {
    seq![
        ScreenState::Image(CONSENT_TITLE@, CONSENT_IMAGE_1@),
        ScreenState::Image(CONSENT_TITLE@, CONSENT_IMAGE_2@),
        ScreenState::Image(CONSENT_TITLE@, CONSENT_IMAGE_3@),
    ]
}

/// The instructions: first those of the running rating, then those of the
/// decision between lie and truth. One of them is shown.
pub open spec fn instruction_script() -> Seq<ScreenState> {
    seq![
        ScreenState::Image(INSTRUCTIONS_TITLE@, DYNAMIC_INSTRUCTIONS@),
        ScreenState::Image(INSTRUCTIONS_TITLE@, DICHOTOMOUS_INSTRUCTIONS@),
    ]
}

/// The position in the instructions of those for `condition`.
pub open spec fn instruction_for(condition: Seq<char>) -> usize {
    if condition == DICHOTOMOUS@ {
        1
    } else {
        0
    }
}

/// The screens of one picture each.
fn image_screen(title: &str, path: &str) -> (screen: Screen)
    ensures
        screen@ == ScreenState::Image(title@, path@),
{
    Screen::Image(ImageView::new(String::from_str(title), String::from_str(path)))
}

/// The screens of consent, in order.
pub fn consent_screens() -> (screens: Vec<Screen>)
    ensures
        states(screens@) == consent_script(),
{
    let mut screens: Vec<Screen> = Vec::new();
    screens.push(image_screen(CONSENT_TITLE, CONSENT_IMAGE_1));
    screens.push(image_screen(CONSENT_TITLE, CONSENT_IMAGE_2));
    screens.push(image_screen(CONSENT_TITLE, CONSENT_IMAGE_3));
    assert(states(screens@) =~= consent_script());
    screens
}

/// The instructions of both conditions.
pub fn instruction_screens() -> (screens: Vec<Screen>)
    ensures
        states(screens@) == instruction_script(),
{
    let mut screens: Vec<Screen> = Vec::new();
    screens.push(image_screen(INSTRUCTIONS_TITLE, DYNAMIC_INSTRUCTIONS));
    screens.push(image_screen(INSTRUCTIONS_TITLE, DICHOTOMOUS_INSTRUCTIONS));
    assert(states(screens@) =~= instruction_script());
    screens
}

/// The screen that closes a session.
pub open spec fn final_script() -> ScreenState {
    ScreenState::Info(FINISHED_TITLE@, FINISHED_TEXT@)
}

/// The screen that closes a session.
pub fn final_screen() -> (screen: Screen)
    ensures
        screen@ == final_script(),
{
    Screen::Info(InfoView::new(String::from_str(FINISHED_TITLE), String::from_str(FINISHED_TEXT)))
}

/// The questions on the participant and the debriefing, in order.
pub open spec fn demographics_script() -> Seq<ScreenState> {
    seq![
        ScreenState::TextInput(
            TextInputState {
                input_type: TextInputType::Number,
                name: AGE_NAME@,
                title: DEMOGRAPHICS_TITLE@,
                label: AGE_QUESTION@,
                hint: AGE_HINT@,
                text: Seq::empty(),
            },
        ),
        ScreenState::MultiChoice(
            MultiChoiceState {
                name: GENDER_NAME@,
                title: DEMOGRAPHICS_TITLE@,
                message: GENDER_QUESTION@,
                choices: numbered(gender_labels()),
                current_choice: None,
                selection: 0,
                label: Seq::empty(),
            },
        ),
        ScreenState::MultiChoice(
            MultiChoiceState {
                name: RACE_NAME@,
                title: DEMOGRAPHICS_TITLE@,
                message: RACE_QUESTION@,
                choices: numbered(race_labels()),
                current_choice: None,
                selection: 0,
                label: Seq::empty(),
            },
        ),
        ScreenState::Info(DEBRIEFING_TITLE@, DEBRIEFING_TEXT@),
    ]
}

/// The questions on the participant and the debriefing, in order.
pub fn demographics_screens() -> (screens: Vec<Screen>)
    ensures
        states(screens@) == demographics_script(),
{
    let mut screens: Vec<Screen> = Vec::new();
    screens.push(
        Screen::TextInput(
            TextInputView::new(
                TextInputType::Number,
                String::from_str(AGE_NAME),
                String::from_str(DEMOGRAPHICS_TITLE),
                String::from_str(AGE_QUESTION),
                String::from_str(AGE_HINT),
            ),
        ),
    );
    screens.push(
        Screen::MultiChoice(
            MultiChoiceView::new(
                String::from_str(GENDER_NAME),
                String::from_str(DEMOGRAPHICS_TITLE),
                String::from_str(GENDER_QUESTION),
                gender_choices(),
            ),
        ),
    );
    screens.push(
        Screen::MultiChoice(
            MultiChoiceView::new(
                String::from_str(RACE_NAME),
                String::from_str(DEMOGRAPHICS_TITLE),
                String::from_str(RACE_QUESTION),
                race_choices(),
            ),
        ),
    );
    screens.push(
        Screen::Info(
            InfoView::new(String::from_str(DEBRIEFING_TITLE), String::from_str(DEBRIEFING_TEXT)),
        ),
    );
    assert(states(screens@) =~= demographics_script());
    screens
}

/// The choices of the question for the race or ethnicity.
pub fn race_choices() -> (choices: Vec<(u32, String)>)
    ensures
        choice_texts(choices@) == numbered(race_labels()),
{
    let mut choices: Vec<(u32, String)> = Vec::new();
    let ghost mut labels: Seq<Seq<char>> = Seq::empty();
    assert(choice_texts(choices@) =~= numbered(labels));
    push_choice(&mut choices, Ghost(labels), "Aboriginal or indigenous (i.e., Alaskan native, American Indian, First Nations, Inuit, Metis)");
    proof {
        labels = labels.push("Aboriginal or indigenous (i.e., Alaskan native, American Indian, First Nations, Inuit, Metis)"@);
    }
    push_choice(&mut choices, Ghost(labels), "Arab or West Asian (e.g., Armenian, Egyptian, Iranian, Lebanese, Moroccan)");
    proof {
        labels = labels.push("Arab or West Asian (e.g., Armenian, Egyptian, Iranian, Lebanese, Moroccan)"@);
    }
    push_choice(&mut choices, Ghost(labels), "Black (e.g., African, Haitian, Jamaican, Somali)");
    proof {
        labels = labels.push("Black (e.g., African, Haitian, Jamaican, Somali)"@);
    }
    push_choice(&mut choices, Ghost(labels), "Chinese");
    proof {
        labels = labels.push("Chinese"@);
    }
    push_choice(&mut choices, Ghost(labels), "Filipino");
    proof {
        labels = labels.push("Filipino"@);
    }
    push_choice(&mut choices, Ghost(labels), "Japanese");
    proof {
        labels = labels.push("Japanese"@);
    }
    push_choice(&mut choices, Ghost(labels), "Korean");
    proof {
        labels = labels.push("Korean"@);
    }
    push_choice(&mut choices, Ghost(labels), "Latino/Hispanic");
    proof {
        labels = labels.push("Latino/Hispanic"@);
    }
    push_choice(&mut choices, Ghost(labels), "Pacific Islander");
    proof {
        labels = labels.push("Pacific Islander"@);
    }
    push_choice(&mut choices, Ghost(labels), "South Asian");
    proof {
        labels = labels.push("South Asian"@);
    }
    push_choice(&mut choices, Ghost(labels), "South East Asian");
    proof {
        labels = labels.push("South East Asian"@);
    }
    push_choice(&mut choices, Ghost(labels), "White, non-Hispanic (i.e., Caucasian)");
    proof {
        labels = labels.push("White, non-Hispanic (i.e., Caucasian)"@);
    }
    push_choice(&mut choices, Ghost(labels), "Multi-ethnic");
    proof {
        labels = labels.push("Multi-ethnic"@);
    }
    push_choice(&mut choices, Ghost(labels), "Other");
    proof {
        labels = labels.push("Other"@);
    }
    push_choice(&mut choices, Ghost(labels), "Prefer not to disclose");
    proof {
        labels = labels.push("Prefer not to disclose"@);
    }
    assert(labels =~= race_labels());
    choices
}

/// The file that a block of the bucket `bucket` plays.
pub open spec fn video_file(bucket: usize) -> Seq<char> {
    if bucket == 0 {
        LIE_VIDEO@
    } else {
        TRUTH_VIDEO@
    }
}

/// The path of the video of `trial`.
pub open spec fn video_path(trial: TrialAssignment) -> Seq<char> {
    "videos/"@ + decimal(trial.video as nat) + "/"@ + video_file(trial.bucket)
}

/// The path of the video of `trial`.
pub fn path_of(trial: &TrialAssignment) -> (path: String)
    ensures
        path@ == video_path(*trial),
{
    let mut path = String::from_str("videos/");
    push_decimal(&mut path, trial.video as u64);
    path.append("/");
    if trial.bucket == 0 {
        path.append(LIE_VIDEO);
    } else {
        path.append(TRUTH_VIDEO);
    }
    path
}

/// The screens of the trial block `block`: the rating of the video, in the
/// dichotomous condition the decision between lie and truth, the rating of
/// confidence, and a reminder.
pub open spec fn block_screens(
    block: usize,
    trial: TrialAssignment,
    counterbalance: bool,
    condition: Seq<char>,
) -> Seq<ScreenState> {
    let rating = ScreenState::DynamicRating(
        VideoRatingState::fresh(block, video_path(trial), counterbalance),
    );
    let decision = ScreenState::Dichotomous(
        DichotomousState {
            id: block,
            control: counterbalance,
            sampler: SamplerState::fresh(-1, 1, 0),
            show_time: 0,
        },
    );
    let confidence = ScreenState::Scale(
        ScaleState::fresh(
            block,
            CONFIDENCE_NAME@,
            CONFIDENCE_QUESTION@,
            CONFIDENCE_LEFT@,
            CONFIDENCE_RIGHT@,
            0,
            100,
            0,
            0,
        ),
    );
    let reminder = ScreenState::Info(REMINDER_TITLE@, REMINDER_TEXT@);
    if condition == DICHOTOMOUS@ {
        seq![rating, decision, confidence, reminder]
    } else {
        seq![rating, confidence, reminder]
    }
}

/// The screens of the first `n` blocks of `trials`, block after block.
pub open spec fn trial_screens(
    trials: Seq<TrialAssignment>,
    counterbalance: bool,
    condition: Seq<char>,
    n: nat,
) -> Seq<ScreenState>
    decreases n,
{
    if n == 0 {
        Seq::empty()
    } else {
        trial_screens(trials, counterbalance, condition, (n - 1) as nat) + block_screens(
            (n - 1) as usize,
            trials[n - 1],
            counterbalance,
            condition,
        )
    }
}

/// How many screens a trial block has in the condition `condition`.
pub open spec fn screens_per_block(condition: Seq<char>) -> int {
    if condition == DICHOTOMOUS@ {
        4
    } else {
        3
    }
}

/// The screens of `n` blocks are as many as `n` blocks have.
pub proof fn lemma_trial_screens_len(
    trials: Seq<TrialAssignment>,
    counterbalance: bool,
    condition: Seq<char>,
    n: nat,
)
    ensures
        trial_screens(trials, counterbalance, condition, n).len() == screens_per_block(condition)
            * n,
    decreases n,
{
    if n > 0 {
        lemma_trial_screens_len(trials, counterbalance, condition, (n - 1) as nat);
        let before = trial_screens(trials, counterbalance, condition, (n - 1) as nat);
        let last = block_screens((n - 1) as usize, trials[n - 1], counterbalance, condition);
        assert(trial_screens(trials, counterbalance, condition, n) == before + last);
        if condition == DICHOTOMOUS@ {
            assert(last.len() == 4);
            assert(screens_per_block(condition) * (n - 1) == 4 * (n - 1));
            assert(screens_per_block(condition) * n == 4 * n);
        } else {
            assert(last.len() == 3);
            assert(screens_per_block(condition) * (n - 1) == 3 * (n - 1));
            assert(screens_per_block(condition) * n == 3 * n);
        }
    }
}

/// Among the screens of `n` blocks, those of the block `block` stand at its
/// place.
pub proof fn lemma_trial_screens_blocks(
    trials: Seq<TrialAssignment>,
    counterbalance: bool,
    condition: Seq<char>,
    n: nat,
    block: int,
)
    requires
        0 <= block < n,
    ensures
        trial_screens(trials, counterbalance, condition, n).len() == screens_per_block(condition)
            * n,
        trial_screens(trials, counterbalance, condition, n).subrange(
            screens_per_block(condition) * block,
            screens_per_block(condition) * (block + 1),
        ) == block_screens(block as usize, trials[block], counterbalance, condition),
    decreases n,
{
    let per_block = screens_per_block(condition);
    let before = trial_screens(trials, counterbalance, condition, (n - 1) as nat);
    let last = block_screens((n - 1) as usize, trials[n - 1], counterbalance, condition);
    lemma_trial_screens_len(trials, counterbalance, condition, (n - 1) as nat);
    lemma_trial_screens_len(trials, counterbalance, condition, n);
    if block == n - 1 {
        assert((before + last).subrange(per_block * block, per_block * (block + 1)) =~= last);
    } else {
        lemma_trial_screens_blocks(trials, counterbalance, condition, (n - 1) as nat, block);
        assert(per_block * (block + 1) <= per_block * (n - 1)) by (nonlinear_arith)
            requires
                block + 1 <= n - 1,
                per_block > 0,
        ;
        assert((before + last).subrange(per_block * block, per_block * (block + 1))
            =~= before.subrange(per_block * block, per_block * (block + 1)));
    }
}

/// Appends the screens of the trial block `block` to `screens`.
pub fn push_block(
    screens: &mut Vec<Screen>,
    block: usize,
    trial: &TrialAssignment,
    counterbalance: bool,
    condition: &str,
)
    ensures
        states(final(screens)@) == states(old(screens)@) + block_screens(
            block,
            *trial,
            counterbalance,
            condition@,
        ),
{
    screens.push(
        Screen::DynamicRating(
            ArcInputVideoView::new(block, path_of(trial), counterbalance),
        ),
    );
    if same_text(condition, DICHOTOMOUS) {
        screens.push(Screen::Dichotomous(ArcDichotomousView::new(block, counterbalance)));
    }
    screens.push(
        Screen::Scale(
            ArcQuestionScaleView::new(
                block,
                String::from_str(CONFIDENCE_NAME),
                String::from_str(CONFIDENCE_QUESTION),
                String::from_str(CONFIDENCE_LEFT),
                String::from_str(CONFIDENCE_RIGHT),
                0,
                100,
                0,
                0,
            ),
        ),
    );
    screens.push(
        Screen::Info(
            InfoView::new(String::from_str(REMINDER_TITLE), String::from_str(REMINDER_TEXT)),
        ),
    );
    assert(states(final(screens)@) =~= states(old(screens)@) + block_screens(
        block,
        *trial,
        counterbalance,
        condition@,
    ));
}

/// The screens of all blocks of `trials`, block after block.
pub fn build_trial_screens(trials: &Vec<TrialAssignment>, counterbalance: bool, condition: &str) -> (screens:
    Vec<Screen>)
    ensures
        states(screens@) == trial_screens(trials@, counterbalance, condition@, trials@.len()),
        screens.len() >= trials.len(),
{
    let mut screens: Vec<Screen> = Vec::new();
    let mut i: usize = 0;
    assert(states(screens@) =~= Seq::<ScreenState>::empty());
    while i < trials.len()
        invariant
            i <= trials.len(),
            states(screens@) == trial_screens(trials@, counterbalance, condition@, i as nat),
            screens.len() >= i,
        decreases trials.len() - i,
    {
        let ghost before = states(screens@);
        push_block(&mut screens, i, &trials[i], counterbalance, condition);
        assert(states(screens@).len() == screens@.len());
        assert(before.len() >= i);
        i = i + 1;
    }
    screens
}

} // verus!
