//! The session: the phases of the experiment, the screen that is active, and
//! what a message does to them.
//!
//! A session starts at the entry of the participant id. A valid id opens
//! consent, then the instructions of the participant's condition, the trial
//! blocks, the questions on the participant, and the closing screen, after
//! which the session starts over. Leaving a screen stores its dataset, if it
//! has one; entering a screen resets it and configures the dial for it.

use vstd::prelude::*;
use vstd::string::*;
use crate::config::{
    id_of_text,
    parse_id,
    Configuration,
    ConfigurationText,
    ParticipantConfig,
    ParticipantData,
    ParticipantText,
};
use crate::dial::{request_for, update_dial_settings, DialRequest};
use crate::events::{Frame, KeyCode, Message};
use crate::screen::{Screen, ScreenState};
use crate::script::{
    build_trial_screens,
    consent_screens,
    consent_script,
    demographics_screens,
    demographics_script,
    final_screen,
    final_script,
    instruction_for,
    instruction_screens,
    instruction_script,
    states,
    trial_screens,
    DICHOTOMOUS,
};
use crate::text::same_text;
use crate::trials::{draw_trials, results_from, Draw, TrialAssignment};
use crate::views::participant_id_view::ParticipantIdView;
use crate::views::{CommandText, Dataset, DatasetText, ScreenCommand};

verus! {

/// The phases of a session.
#[derive(Clone, Copy, PartialEq, Eq, Debug, Structural)]
pub enum AppState {
    Participant,
    Consent,
    Instructions,
    Videos,
    Demographics,
    Final,
}

/// What the outside has to do after a message, in this order: store the
/// dataset, tell the operator of an invalid participant id, configure the
/// dial.
#[derive(Debug)]
pub struct Outcome {
    /// The dataset of the screen that was left, with the participant's id.
    pub persist: Option<(usize, Dataset)>,
    /// The text that was entered and names no participant.
    pub invalid_participant: Option<String>,
    /// The request to the dial for the screen that was entered.
    pub dial: Option<DialRequest>,
}

/// The mathematical content of an outcome.
pub struct OutcomeText {
    pub persist: Option<(usize, DatasetText)>,
    pub invalid_participant: Option<Seq<char>>,
    pub dial: Option<DialRequest>,
}

impl OutcomeText {
    /// Nothing to do.
    pub open spec fn nothing() -> OutcomeText {
        OutcomeText { persist: None, invalid_participant: None, dial: None }
    }
}

impl View for Outcome {
    type V = OutcomeText;

    open spec fn view(&self) -> OutcomeText {
        OutcomeText {
            persist: match self.persist {
                Some((id, dataset)) => Some((id, dataset@)),
                None => None,
            },
            invalid_participant: match self.invalid_participant {
                Some(text) => Some(text@),
                None => None,
            },
            dial: self.dial,
        }
    }
}

/// The mathematical state of a session.
pub struct SessionState {
    pub config: ConfigurationText,
    pub app_state: AppState,
    /// The position of the active screen in the list of its phase.
    pub current_screen: int,
    pub participant: Option<ParticipantText>,
    pub participant_screen: ScreenState,
    pub consent_screens: Seq<ScreenState>,
    /// The position of the participant's instructions.
    pub instruction_screen: usize,
    pub all_instruction_screens: Seq<ScreenState>,
    /// The screens of the trial blocks, built when a participant is accepted.
    pub screens: Seq<ScreenState>,
    pub demographics_screens: Seq<ScreenState>,
    pub final_screen: ScreenState,
}

/// What a screen in the state `screen` asks for after `message`.
pub open spec fn command_of(screen: ScreenState, message: Message) -> CommandText {
    match message {
        Message::ProcessDialEvents(event) => if screen.advances_on(event) {
            CommandText::NextScreen(None)
        } else {
            CommandText::Stay
        },
        Message::KeyPressed(key) => if key == KeyCode::Right {
            CommandText::NextScreen(None)
        } else {
            CommandText::Stay
        },
        Message::KeyReleased(_) => CommandText::Stay,
        _ => screen.reply(message),
    }
}

/// The state of a screen in the state `screen` after `message`.
pub open spec fn screen_after(screen: ScreenState, message: Message, frame: Frame) -> ScreenState {
    match message {
        Message::ProcessDialEvents(event) => screen.updated(event, frame),
        Message::KeyPressed(_) => screen,
        Message::KeyReleased(_) => screen,
        _ => screen.received(message),
    }
}

impl SessionState {
    /// The invariant of every session.
    pub open spec fn wf(self) -> bool {
        &&& self.config.valid()
        &&& self.participant_screen is ParticipantId
        &&& self.final_screen is Info
        &&& self.consent_screens.len() > 0
        &&& self.all_instruction_screens.len() >= 2
        &&& self.instruction_screen < self.all_instruction_screens.len()
        &&& self.demographics_screens.len() > 0
        &&& match self.app_state {
            AppState::Participant => self.current_screen == 0,
            AppState::Consent => 0 <= self.current_screen < self.consent_screens.len()
                && self.screens.len() > 0 && self.participant is Some,
            AppState::Instructions => self.current_screen == 0 && self.screens.len() > 0
                && self.participant is Some,
            AppState::Videos => 0 <= self.current_screen < self.screens.len()
                && self.participant is Some,
            AppState::Demographics => 0 <= self.current_screen < self.demographics_screens.len()
                && self.participant is Some,
            AppState::Final => self.current_screen == 0 && self.participant is Some,
        }
    }

    /// The state of a session that has just begun on `config`.
    pub open spec fn initial(config: ConfigurationText) -> SessionState {
        SessionState {
            config,
            app_state: AppState::Participant,
            current_screen: 0,
            participant: None,
            participant_screen: ScreenState::ParticipantId(Seq::empty()),
            consent_screens: consent_script(),
            instruction_screen: 0,
            all_instruction_screens: instruction_script(),
            screens: Seq::empty(),
            demographics_screens: demographics_script(),
            final_screen: final_script(),
        }
    }

    /// The one screen that is active.
    pub open spec fn active(self) -> ScreenState {
        match self.app_state {
            AppState::Participant => self.participant_screen,
            AppState::Consent => self.consent_screens[self.current_screen],
            AppState::Instructions => self.all_instruction_screens[self.instruction_screen as int],
            AppState::Videos => self.screens[self.current_screen as int],
            AppState::Demographics => self.demographics_screens[self.current_screen as int],
            AppState::Final => self.final_screen,
        }
    }

    /// The session with `screen` in the place of the active screen.
    pub open spec fn with_active(self, screen: ScreenState) -> SessionState {
        match self.app_state {
            AppState::Participant => SessionState { participant_screen: screen, ..self },
            AppState::Consent => SessionState {
                consent_screens: self.consent_screens.update(self.current_screen as int, screen),
                ..self
            },
            AppState::Instructions => SessionState {
                all_instruction_screens: self.all_instruction_screens.update(
                    self.instruction_screen as int,
                    screen,
                ),
                ..self
            },
            AppState::Videos => SessionState {
                screens: self.screens.update(self.current_screen as int, screen),
                ..self
            },
            AppState::Demographics => SessionState {
                demographics_screens: self.demographics_screens.update(
                    self.current_screen as int,
                    screen,
                ),
                ..self
            },
            AppState::Final => SessionState { final_screen: screen, ..self },
        }
    }

    /// The participant that `text` names, if it names one of the
    /// configuration.
    pub open spec fn named(self, text: Seq<char>) -> Option<ParticipantText> {
        match id_of_text(text) {
            Some(id) => self.config.entry(id),
            None => None,
        }
    }

    /// The session after the active screen is left, and what is to be
    /// stored: the dataset of that screen, if it has one.
    pub open spec fn left(self) -> (SessionState, Option<(usize, DatasetText)>) {
        (
            self.with_active(self.active().dismissed()),
            match self.active().dataset() {
                Some(dataset) => Some((self.participant->0.id, dataset)),
                None => None,
            },
        )
    }

    /// The session with the position moved one screen on: within the phase,
    /// or to the first screen of the next phase. After the closing screen the
    /// session starts over, without participant and without trial blocks.
    pub open spec fn moved_on(self) -> SessionState {
        match self.app_state {
            AppState::Participant => self,
            AppState::Consent => if self.current_screen + 1 < self.consent_screens.len() {
                SessionState { current_screen: self.current_screen + 1, ..self }
            } else {
                SessionState { current_screen: 0, app_state: AppState::Instructions, ..self }
            },
            AppState::Instructions => SessionState {
                current_screen: 0,
                app_state: AppState::Videos,
                ..self
            },
            AppState::Videos => if self.current_screen + 1 < self.screens.len() {
                SessionState { current_screen: self.current_screen + 1, ..self }
            } else {
                SessionState { current_screen: 0, app_state: AppState::Demographics, ..self }
            },
            AppState::Demographics => if self.current_screen + 1
                < self.demographics_screens.len() {
                SessionState { current_screen: self.current_screen + 1, ..self }
            } else {
                SessionState { current_screen: 0, app_state: AppState::Final, ..self }
            },
            AppState::Final => SessionState {
                current_screen: 0,
                app_state: AppState::Participant,
                screens: Seq::empty(),
                participant: None,
                ..self
            },
        }
    }

    /// The session after the active screen is entered at clock reading
    /// `now`: the screen is reset and shown.
    pub open spec fn entered(self, now: u64) -> SessionState {
        self.with_active(self.active().initialized().shown(now))
    }

    /// The session with `participant` accepted and the trial blocks of
    /// `trials` built for it, at the first screen of consent.
    pub open spec fn accepted(
        self,
        participant: ParticipantText,
        trials: Seq<TrialAssignment>,
    ) -> SessionState {
        SessionState {
            participant: Some(participant),
            instruction_screen: instruction_for(participant.condition),
            screens: trial_screens(
                trials,
                participant.counterbalance,
                participant.condition,
                trials.len(),
            ),
            app_state: AppState::Consent,
            current_screen: 0,
            ..self
        }
    }

    /// The session after the active screen asked for the next one, and what
    /// the outside has to do. On the participant screen the text of `payload`
    /// decides: without one nothing happens; a text that names no participant
    /// resets the screen; a text that names one opens the session with the
    /// trial blocks of `trials`.
    pub open spec fn advanced(
        self,
        payload: Option<Seq<char>>,
        now: u64,
        trials: Seq<TrialAssignment>,
    ) -> (SessionState, OutcomeText) {
        if self.app_state is Participant {
            match payload {
                None => (self, OutcomeText::nothing()),
                Some(text) => match self.named(text) {
                    None => (
                        self.entered(now),
                        OutcomeText { invalid_participant: Some(text), ..OutcomeText::nothing() },
                    ),
                    Some(participant) => {
                        let next = self.left().0.accepted(participant, trials).entered(now);
                        (
                            next,
                            OutcomeText {
                                dial: request_for(next.active().settings()),
                                ..OutcomeText::nothing()
                            },
                        )
                    },
                },
            }
        } else {
            let next = self.left().0.moved_on().entered(now);
            (
                next,
                OutcomeText {
                    persist: self.left().1,
                    invalid_participant: None,
                    dial: request_for(next.active().settings()),
                },
            )
        }
    }

    /// The session after `message`, and what the outside has to do. The
    /// message goes to the active screen; if the screen then asks for the
    /// next one, the session advances.
    pub open spec fn stepped(
        self,
        message: Message,
        frame: Frame,
        trials: Seq<TrialAssignment>,
    ) -> (SessionState, OutcomeText) {
        let delivered = self.with_active(screen_after(self.active(), message, frame));
        match command_of(self.active(), message) {
            CommandText::NextScreen(payload) => delivered.advanced(payload, frame.clock_ms, trials),
            _ => (delivered, OutcomeText::nothing()),
        }
    }

    /// Whether `message` may open a session, so that a plan of the trial
    /// blocks must be at hand.
    pub open spec fn needs_plan(self, message: Message) -> bool {
        self.app_state is Participant && message is ButtonPressed
    }

    /// Whether `trials` is a plan that draws can give for this session.
    pub open spec fn drawn_plan(self, trials: Seq<TrialAssignment>) -> bool {
        exists|draws: Seq<Draw>|
            results_from(self.config.video_ids, self.config.num_videos, draws, trials)
    }

    /// Whether `message` takes the session to `next` with `outcome`, where a
    /// session that opens gets the trial blocks of `trials`.
    pub open spec fn steps_to(
        self,
        message: Message,
        frame: Frame,
        trials: Seq<TrialAssignment>,
        next: SessionState,
        outcome: OutcomeText,
    ) -> bool {
        &&& self.needs_plan(message) ==> self.drawn_plan(trials)
        &&& (next, outcome) == self.stepped(message, frame, trials)
    }

    /// Whether a video must be loaded for `message` to be taken.
    pub open spec fn wants_video(self, message: Message) -> bool {
        message is ProcessDialEvents && self.active().needs_video()
    }
}

/// When the active screen asks for the next one, the dataset of that screen,
/// as it stands when the screen is left, is handed out to be stored for the
/// participant: once if the screen has a dataset, and not at all if it has
/// none. The session is then at another screen, so that no later message
/// hands the same recording out again.
pub proof fn lemma_leaving_stores_once(
    s: SessionState,
    message: Message,
    frame: Frame,
    trials: Seq<TrialAssignment>,
)
    requires
        s.wf(),
        !(s.app_state is Participant),
        command_of(s.active(), message) is NextScreen,
    ensures
        s.stepped(message, frame, trials).1.persist == (match screen_after(
            s.active(),
            message,
            frame,
        ).dataset() {
            Some(dataset) => Some((s.participant->0.id, dataset)),
            None => None,
        }),
        s.stepped(message, frame, trials).0.app_state != s.app_state || s.stepped(
            message,
            frame,
            trials,
        ).0.current_screen != s.current_screen,
{
}

/// A message that does not make the active screen ask for the next one
/// stores nothing and leaves the session at the same screen.
pub proof fn lemma_staying_stores_nothing(
    s: SessionState,
    message: Message,
    frame: Frame,
    trials: Seq<TrialAssignment>,
)
    requires
        s.wf(),
        !(command_of(s.active(), message) is NextScreen),
    ensures
        s.stepped(message, frame, trials).1 == OutcomeText::nothing(),
        s.stepped(message, frame, trials).0.app_state == s.app_state,
        s.stepped(message, frame, trials).0.current_screen == s.current_screen,
{
}

/// Every message leaves a session well formed: one screen of one phase is
/// active.
pub proof fn lemma_step_keeps_session(
    s: SessionState,
    message: Message,
    frame: Frame,
    trials: Seq<TrialAssignment>,
)
    requires
        s.wf(),
        s.needs_plan(message) ==> trials.len() > 0,
    ensures
        s.stepped(message, frame, trials).0.wf(),
{
    if s.app_state is Participant && command_of(s.active(), message) is NextScreen {
        let delivered = s.with_active(screen_after(s.active(), message, frame));
        match command_of(s.active(), message) {
            CommandText::NextScreen(Some(text)) => {
                match delivered.named(text) {
                    Some(participant) => {
                        crate::script::lemma_trial_screens_len(
                            trials,
                            participant.counterbalance,
                            participant.condition,
                            trials.len(),
                        );
                    },
                    None => {},
                }
            },
            _ => {},
        }
    }
}

/// Typing the id of a participant of the configuration, in decimal digits,
/// and pressing the button opens the session of that participant: at the
/// first screen of consent, with the instructions of the participant's
/// condition and the trial blocks of `trials`. Nothing is stored and nobody
/// is told of an invalid id.
pub proof fn lemma_typed_id_opens_session(
    s: SessionState,
    typed: String,
    participant: ParticipantText,
    first: Frame,
    second: Frame,
    trials: Seq<TrialAssignment>,
)
    requires
        s.wf(),
        s.app_state is Participant,
        forall|i: int| 0 <= i < typed@.len() ==> crate::text::is_decimal_digit(#[trigger] typed@[i]),
        s.named(typed@) == Some(participant),
    ensures
        ({
            let entered = s.stepped(Message::TextInputChanged(typed), first, trials).0;
            let opened = entered.stepped(Message::ButtonPressed, second, trials);
            &&& entered.participant_screen == ScreenState::ParticipantId(typed@)
            &&& opened.0.app_state is Consent
            &&& opened.0.current_screen == 0
            &&& opened.0.participant == Some(participant)
            &&& opened.0.instruction_screen == instruction_for(participant.condition)
            &&& opened.0.screens == trial_screens(
                trials,
                participant.counterbalance,
                participant.condition,
                trials.len(),
            )
            &&& opened.1.persist is None
            &&& opened.1.invalid_participant is None
        }),
{
    assert(crate::text::all_in_class(typed@, crate::text::CharClass::Numeric));
}

/// A participant of the dichotomous condition gets the instructions of that
/// condition, and trial blocks of four screens each: the rating of the video,
/// the decision between lie and truth, the rating of confidence, and the
/// reminder. Any other participant gets blocks without the decision.
pub proof fn lemma_blocks_follow_condition(
    s: SessionState,
    participant: ParticipantText,
    trials: Seq<TrialAssignment>,
    block: int,
)
    requires
        0 <= block < trials.len(),
    ensures
        ({
            let opened = s.accepted(participant, trials);
            let per_block: int = if participant.condition == DICHOTOMOUS@ {
                4
            } else {
                3
            };
            &&& opened.instruction_screen == instruction_for(participant.condition)
            &&& opened.screens.len() == per_block * trials.len()
            &&& opened.screens.subrange(per_block * block, per_block * (block + 1))
                == crate::script::block_screens(
                block as usize,
                trials[block],
                participant.counterbalance,
                participant.condition,
            )
        }),
{
    crate::script::lemma_trial_screens_blocks(
        trials,
        participant.counterbalance,
        participant.condition,
        trials.len(),
        block,
    );
}

/// Hands `message` to `screen` and says what the screen asks for.
fn deliver_to(screen: &mut Screen, message: Message, frame: &Frame) -> (command: ScreenCommand)
    requires
        message is ProcessDialEvents && old(screen)@.needs_video() ==> frame.video is Some,
    ensures
        final(screen)@ == screen_after(old(screen)@, message, *frame),
        command@ == command_of(old(screen)@, message),
{
    match message {
        Message::ProcessDialEvents(event) => screen.update(event, frame),
        Message::KeyPressed(key) => {
            if key == KeyCode::Right {
                ScreenCommand::NextScreen(None)
            } else {
                ScreenCommand::Stay
            }
        },
        Message::KeyReleased(_) => ScreenCommand::Stay,
        other => screen.iced_input(other),
    }
}

/// Ends the activation of `screen` and hands out its dataset, if it has one.
fn leave_screen(screen: &mut Screen) -> (dataset: Option<Dataset>)
    ensures
        final(screen)@ == old(screen)@.dismissed(),
        dataset is Some <==> old(screen)@.dataset() is Some,
        dataset matches Some(d) ==> d@ == old(screen)@.dataset()->0,
{
    let dataset = screen.data();
    screen.dismiss();
    dataset
}

/// Resets `screen`, begins its activation at clock reading `now`, and says
/// what it asks of the dial.
fn enter_screen(screen: &mut Screen, now: u64) -> (request: Option<DialRequest>)
    ensures
        final(screen)@ == old(screen)@.initialized().shown(now),
        request == request_for(final(screen)@.settings()),
{
    screen.init();
    screen.show(now);
    update_dial_settings(screen.arc_settings())
}

/// A running session.
pub struct DynBaseProgram {
    config: Configuration,
    app_state: AppState,
    current_screen: usize,
    participant_data: Option<ParticipantData>,
    participant_screen: Screen,
    consent_screens: Vec<Screen>,
    instruction_screen: usize,
    all_instruction_screens: Vec<Screen>,
    screens: Vec<Screen>,
    demographics_screens: Vec<Screen>,
    final_screen: Screen,
}

impl View for DynBaseProgram {
    type V = SessionState;

    closed spec fn view(&self) -> SessionState {
        SessionState {
            config: self.config@,
            app_state: self.app_state,
            current_screen: self.current_screen as int,
            participant: match self.participant_data {
                Some(participant) => Some(
                    ParticipantText {
                        id: participant.id,
                        counterbalance: participant.data.counterbalance,
                        condition: participant.data.condition@,
                    },
                ),
                None => None,
            },
            participant_screen: self.participant_screen@,
            consent_screens: states(self.consent_screens@),
            instruction_screen: self.instruction_screen,
            all_instruction_screens: states(self.all_instruction_screens@),
            screens: states(self.screens@),
            demographics_screens: states(self.demographics_screens@),
            final_screen: self.final_screen@,
        }
    }
}

impl DynBaseProgram {
    /// A session on `config`, at the entry of the participant id.
    pub fn new(config: Configuration) -> (session: DynBaseProgram)
        ensures
            session@ == SessionState::initial(config@),
            session@.wf(),
    {
        let _ = config.num_videos();
        let screens: Vec<Screen> = Vec::new();
        assert(states(screens@) =~= Seq::<ScreenState>::empty());
        DynBaseProgram {
            config,
            app_state: AppState::Participant,
            current_screen: 0,
            participant_data: None,
            participant_screen: Screen::ParticipantId(ParticipantIdView::new()),
            consent_screens: consent_screens(),
            instruction_screen: 0,
            all_instruction_screens: instruction_screens(),
            screens,
            demographics_screens: demographics_screens(),
            final_screen: final_screen(),
        }
    }

    /// The title of the session's window.
    pub fn title(&self) -> (title: String)
        ensures
            title@ == "Dynamic Base Decisions"@,
    {
        String::from_str("Dynamic Base Decisions")
    }

    /// The phase the session is in.
    pub fn app_state(&self) -> (phase: AppState)
        ensures
            phase == self@.app_state,
    {
        self.app_state
    }

    /// The position of the active screen in the list of its phase.
    pub fn current_screen(&self) -> (position: usize)
        ensures
            position == self@.current_screen,
    {
        self.current_screen
    }

    /// The id of the participant, while there is one.
    pub fn participant_id(&self) -> (id: Option<usize>)
        ensures
            id is Some <==> self@.participant is Some,
            id matches Some(i) ==> i == self@.participant->0.id,
    {
        match &self.participant_data {
            Some(participant) => Some(participant.id),
            None => None,
        }
    }

    /// The position of the participant's instructions among all.
    pub fn instruction_screen(&self) -> (position: usize)
        ensures
            position == self@.instruction_screen,
    {
        self.instruction_screen
    }

    /// How many screens the trial blocks have.
    pub fn trial_screen_count(&self) -> (count: usize)
        ensures
            count == self@.screens.len(),
    {
        self.screens.len()
    }

    /// The one screen that is active.
    pub fn active_screen(&self) -> (screen: &Screen)
        requires
            self@.wf(),
        ensures
            screen@ == self@.active(),
    {
        match self.app_state {
            AppState::Participant => &self.participant_screen,
            AppState::Consent => &self.consent_screens[self.current_screen],
            AppState::Instructions => &self.all_instruction_screens[self.instruction_screen],
            AppState::Videos => &self.screens[self.current_screen],
            AppState::Demographics => &self.demographics_screens[self.current_screen],
            AppState::Final => &self.final_screen,
        }
    }

    /// Hands `message` to the active screen.
    fn deliver(&mut self, message: Message, frame: &Frame) -> (command: ScreenCommand)
        requires
            old(self)@.wf(),
            old(self)@.wants_video(message) ==> frame.video is Some,
        ensures
            final(self)@ == old(self)@.with_active(
                screen_after(old(self)@.active(), message, *frame),
            ),
            command@ == command_of(old(self)@.active(), message),
            final(self)@.wf(),
    {
        match self.app_state {
            AppState::Participant => deliver_to(&mut self.participant_screen, message, frame),
            AppState::Consent => {
                let command = deliver_to(
                    &mut self.consent_screens[self.current_screen],
                    message,
                    frame,
                );
                assert(states(self.consent_screens@) =~= states(old(self).consent_screens@).update(
                    self.current_screen as int,
                    self.consent_screens[self.current_screen as int]@,
                ));
                command
            },
            AppState::Instructions => {
                let command = deliver_to(
                    &mut self.all_instruction_screens[self.instruction_screen],
                    message,
                    frame,
                );
                assert(states(self.all_instruction_screens@) =~= states(
                    old(self).all_instruction_screens@,
                ).update(
                    self.instruction_screen as int,
                    self.all_instruction_screens[self.instruction_screen as int]@,
                ));
                command
            },
            AppState::Videos => {
                let command = deliver_to(&mut self.screens[self.current_screen], message, frame);
                assert(states(self.screens@) =~= states(old(self).screens@).update(
                    self.current_screen as int,
                    self.screens[self.current_screen as int]@,
                ));
                command
            },
            AppState::Demographics => {
                let command = deliver_to(
                    &mut self.demographics_screens[self.current_screen],
                    message,
                    frame,
                );
                assert(states(self.demographics_screens@) =~= states(
                    old(self).demographics_screens@,
                ).update(
                    self.current_screen as int,
                    self.demographics_screens[self.current_screen as int]@,
                ));
                command
            },
            AppState::Final => deliver_to(&mut self.final_screen, message, frame),
        }
    }

    /// Leaves the active screen.
    fn leave(&mut self) -> (stored: Option<(usize, Dataset)>)
        requires
            old(self)@.wf(),
        ensures
            final(self)@ == old(self)@.left().0,
            stored is Some <==> old(self)@.left().1 is Some,
            stored matches Some(pair) ==> (pair.0, pair.1@) == old(self)@.left().1->0,
            final(self)@.wf(),
    {
        let dataset = match self.app_state {
            AppState::Participant => leave_screen(&mut self.participant_screen),
            AppState::Consent => {
                let dataset = leave_screen(&mut self.consent_screens[self.current_screen]);
                assert(states(self.consent_screens@) =~= states(old(self).consent_screens@).update(
                    self.current_screen as int,
                    self.consent_screens[self.current_screen as int]@,
                ));
                dataset
            },
            AppState::Instructions => {
                let dataset = leave_screen(
                    &mut self.all_instruction_screens[self.instruction_screen],
                );
                assert(states(self.all_instruction_screens@) =~= states(
                    old(self).all_instruction_screens@,
                ).update(
                    self.instruction_screen as int,
                    self.all_instruction_screens[self.instruction_screen as int]@,
                ));
                dataset
            },
            AppState::Videos => {
                let dataset = leave_screen(&mut self.screens[self.current_screen]);
                assert(states(self.screens@) =~= states(old(self).screens@).update(
                    self.current_screen as int,
                    self.screens[self.current_screen as int]@,
                ));
                dataset
            },
            AppState::Demographics => {
                let dataset = leave_screen(&mut self.demographics_screens[self.current_screen]);
                assert(states(self.demographics_screens@) =~= states(
                    old(self).demographics_screens@,
                ).update(
                    self.current_screen as int,
                    self.demographics_screens[self.current_screen as int]@,
                ));
                dataset
            },
            AppState::Final => leave_screen(&mut self.final_screen),
        };
        match dataset {
            Some(dataset) => match &self.participant_data {
                Some(participant) => Some((participant.id, dataset)),
                None => None,
            },
            None => None,
        }
    }

    /// Moves the position one screen on.
    fn move_on(&mut self)
        requires
            old(self)@.wf(),
            !(old(self)@.app_state is Participant),
        ensures
            final(self)@ == old(self)@.moved_on(),
            final(self)@.wf(),
    {
        assert(states(self.consent_screens@).len() == self.consent_screens@.len());
        assert(states(self.screens@).len() == self.screens@.len());
        assert(states(self.demographics_screens@).len() == self.demographics_screens@.len());
        match self.app_state {
            AppState::Participant => {},
            AppState::Consent => {
                let count = self.consent_screens.len();
                if self.current_screen + 1 < count {
                    self.current_screen = self.current_screen + 1;
                } else {
                    self.current_screen = 0;
                    self.app_state = AppState::Instructions;
                }
            },
            AppState::Instructions => {
                self.current_screen = 0;
                self.app_state = AppState::Videos;
            },
            AppState::Videos => {
                let count = self.screens.len();
                if self.current_screen + 1 < count {
                    self.current_screen = self.current_screen + 1;
                } else {
                    self.current_screen = 0;
                    self.app_state = AppState::Demographics;
                }
            },
            AppState::Demographics => {
                let count = self.demographics_screens.len();
                if self.current_screen + 1 < count {
                    self.current_screen = self.current_screen + 1;
                } else {
                    self.current_screen = 0;
                    self.app_state = AppState::Final;
                }
            },
            AppState::Final => {
                self.current_screen = 0;
                self.screens = Vec::new();
                self.participant_data = None;
                self.app_state = AppState::Participant;
                assert(states(self.screens@) =~= Seq::<ScreenState>::empty());
            },
        }
    }

    /// The participant that `text` names, if it names one of the
    /// configuration.
    fn find_participant(&self, text: &str) -> (found: Option<ParticipantData>)
        ensures
            found is Some <==> self@.named(text@) is Some,
            found matches Some(participant) ==> self@.named(text@) == Some(
                ParticipantText {
                    id: participant.id,
                    counterbalance: participant.data.counterbalance,
                    condition: participant.data.condition@,
                },
            ),
    {
        match parse_id(text) {
            Some(id) => match self.config.participant(id) {
                Some(entry) => Some(
                    ParticipantData {
                        id,
                        data: ParticipantConfig {
                            counterbalance: entry.config.counterbalance,
                            condition: entry.config.condition.clone(),
                        },
                    },
                ),
                None => None,
            },
            None => None,
        }
    }

    /// Takes `message`, with the readings of `frame`, and says what the
    /// outside has to do. If the message opens a session, its trial blocks
    /// are those of `trials`.
    pub fn step(&mut self, message: Message, frame: &Frame, trials: &Vec<TrialAssignment>) -> (outcome:
        Outcome)
        requires
            old(self)@.wf(),
            old(self)@.wants_video(message) ==> frame.video is Some,
            old(self)@.needs_plan(message) ==> trials@.len() > 0,
        ensures
            (final(self)@, outcome@) == old(self)@.stepped(message, *frame, trials@),
            final(self)@.wf(),
    {
        let ghost plan_needed = self@.needs_plan(message);
        let command = self.deliver(message, frame);
        let now = frame.clock_ms;
        match command {
            ScreenCommand::NextScreen(payload) => {
                if self.app_state == AppState::Participant {
                    match payload {
                        None => Outcome { persist: None, invalid_participant: None, dial: None },
                        Some(payload) => {
                            assert(plan_needed);
                            match self.find_participant(payload.id.as_str()) {
                                None => {
                                    let _ = self.enter(now);
                                    Outcome {
                                        persist: None,
                                        invalid_participant: Some(payload.id),
                                        dial: None,
                                    }
                                },
                                Some(participant) => {
                                    let _ = self.leave();
                                    let screens = build_trial_screens(
                                        trials,
                                        participant.data.counterbalance,
                                        participant.data.condition.as_str(),
                                    );
                                    self.instruction_screen = if same_text(
                                        participant.data.condition.as_str(),
                                        DICHOTOMOUS,
                                    ) {
                                        1
                                    } else {
                                        0
                                    };
                                    self.screens = screens;
                                    self.participant_data = Some(participant);
                                    self.app_state = AppState::Consent;
                                    self.current_screen = 0;
                                    let dial = self.enter(now);
                                    Outcome { persist: None, invalid_participant: None, dial }
                                },
                            }
                        },
                    }
                } else {
                    let persist = self.leave();
                    self.move_on();
                    let dial = self.enter(now);
                    Outcome { persist, invalid_participant: None, dial }
                }
            },
            _ => Outcome { persist: None, invalid_participant: None, dial: None },
        }
    }

    /// Takes `message`, with the readings of `frame`, and says what the
    /// outside has to do. If the message opens a session, its trial blocks
    /// are drawn at random.
    pub fn update(&mut self, message: Message, frame: &Frame) -> (outcome: Outcome)
        requires
            old(self)@.wf(),
            old(self)@.wants_video(message) ==> frame.video is Some,
        ensures
            exists|trials: Seq<TrialAssignment>|
                old(self)@.steps_to(message, *frame, trials, final(self)@, outcome@),
            final(self)@.wf(),
    {
        let plan_needed = match (&self.app_state, &message) {
            (AppState::Participant, Message::ButtonPressed) => true,
            _ => false,
        };
        let trials = if plan_needed {
            draw_trials(self.config.video_ids(), self.config.num_videos())
        } else {
            Vec::new()
        };
        let outcome = self.step(message, frame, &trials);
        assert(old(self)@.steps_to(message, *frame, trials@, self@, outcome@));
        outcome
    }

    /// Enters the active screen at clock reading `now`.
    fn enter(&mut self, now: u64) -> (request: Option<DialRequest>)
        requires
            old(self)@.wf(),
        ensures
            final(self)@ == old(self)@.entered(now),
            request == request_for(final(self)@.active().settings()),
            final(self)@.wf(),
    {
        match self.app_state {
            AppState::Participant => enter_screen(&mut self.participant_screen, now),
            AppState::Consent => {
                let request = enter_screen(&mut self.consent_screens[self.current_screen], now);
                assert(states(self.consent_screens@) =~= states(old(self).consent_screens@).update(
                    self.current_screen as int,
                    self.consent_screens[self.current_screen as int]@,
                ));
                request
            },
            AppState::Instructions => {
                let request = enter_screen(
                    &mut self.all_instruction_screens[self.instruction_screen],
                    now,
                );
                assert(states(self.all_instruction_screens@) =~= states(
                    old(self).all_instruction_screens@,
                ).update(
                    self.instruction_screen as int,
                    self.all_instruction_screens[self.instruction_screen as int]@,
                ));
                request
            },
            AppState::Videos => {
                let request = enter_screen(&mut self.screens[self.current_screen], now);
                assert(states(self.screens@) =~= states(old(self).screens@).update(
                    self.current_screen as int,
                    self.screens[self.current_screen as int]@,
                ));
                request
            },
            AppState::Demographics => {
                let request = enter_screen(
                    &mut self.demographics_screens[self.current_screen],
                    now,
                );
                assert(states(self.demographics_screens@) =~= states(
                    old(self).demographics_screens@,
                ).update(
                    self.current_screen as int,
                    self.demographics_screens[self.current_screen as int]@,
                ));
                request
            },
            AppState::Final => enter_screen(&mut self.final_screen, now),
        }
    }
}

} // verus!
