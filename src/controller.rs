//! The mode-switch controller: turns mode-button events into gated switch
//! attempts, at most one at a time.
//!
//! The controller decides; its caller performs. Each method takes what just
//! happened and returns the next command: run a safety query and report its
//! answer, run the switch and report its end, or nothing. Every mode-button
//! event is vetted afresh: a press counts only if the three queries find it
//! safe, and its release then runs them again before the switch.
use vstd::prelude::*;

verus! {

/// An input event from the controller device, as far as switching cares.
#[derive(Debug, Clone, Copy, PartialEq, Eq, Structural)]
pub enum PadEvent {
    ModePressed,
    ModeReleased,
    Other,
}

/// A question that must be answered safely before a switch.
#[derive(Debug, Clone, Copy, PartialEq, Eq, Structural)]
pub enum GateCheck {
    /// Is the greeter's terminal the one in the foreground?
    ActiveTerminal,
    /// Does the greeter have a session on a real terminal?
    GreeterForeground,
    /// Does anyone but the greeter have a session on that terminal?
    ForeignSession,
}

/// The event that a round of checks vets.
#[derive(Debug, Clone, Copy, PartialEq, Eq, Structural)]
pub enum Purpose {
    /// A press: if safe, it is recorded, awaiting its release.
    ArmPress,
    /// The release of a recorded press: if safe, the switch runs.
    Switch,
}

#[derive(Debug, Clone, Copy, PartialEq, Eq, Structural)]
pub enum Phase {
    Idle,
    /// A round of checks for the purpose waits for the answer to this query.
    Checking(GateCheck, Purpose),
    /// The switch protocol runs.
    Switching,
}

/// What the caller is to do next.
#[derive(Debug, Clone, Copy, PartialEq, Eq, Structural)]
pub enum Command {
    Nothing,
    Query(GateCheck),
    RunSwitch,
}

/// Everything that the controller reacts to.
pub enum Input {
    Pad(PadEvent),
    /// The answer to the pending query; `None` where the query failed.
    Answer(Option<bool>),
    SwitchDone,
}

/// The abstract state of a `ModeSwitchController`.
pub struct ControllerView {
    pub phase: Phase,
    /// A press of the mode button, found safe, awaits its release.
    pub pressed: bool,
}

impl ControllerView {
    /// A press is recorded only while nothing is under way.
    pub open spec fn wf(self) -> bool {
        self.pressed ==> self.phase == Phase::Idle
    }
}

/// The answer under which a query lets the round go on; a failed query
/// never does.
pub open spec fn gate_passes(g: GateCheck, answer: Option<bool>) -> bool {
    match g {
        GateCheck::ActiveTerminal => answer == Some(true),
        GateCheck::GreeterForeground => answer == Some(true),
        GateCheck::ForeignSession => answer == Some(false),
    }
}

pub open spec fn next_gate(g: GateCheck) -> Option<GateCheck> {
    match g {
        GateCheck::ActiveTerminal => Some(GateCheck::GreeterForeground),
        GateCheck::GreeterForeground => Some(GateCheck::ForeignSession),
        GateCheck::ForeignSession => None,
    }
}

/// The three answers, in order, all say that switching is safe.
pub open spec fn all_safe(a1: Option<bool>, a2: Option<bool>, a3: Option<bool>) -> bool {
    gate_passes(GateCheck::ActiveTerminal, a1) && gate_passes(GateCheck::GreeterForeground, a2)
        && gate_passes(GateCheck::ForeignSession, a3)
}

/// One transition of the controller.
pub open spec fn step(s: ControllerView, i: Input) -> (ControllerView, Command) {
    match i {
        Input::Pad(PadEvent::ModePressed) => if s.phase == Phase::Idle {
            (
                ControllerView {
                    phase: Phase::Checking(GateCheck::ActiveTerminal, Purpose::ArmPress),
                    pressed: false,
                },
                Command::Query(GateCheck::ActiveTerminal),
            )
        } else {
            (s, Command::Nothing)
        },
        Input::Pad(PadEvent::ModeReleased) => if s.pressed && s.phase == Phase::Idle {
            (
                ControllerView {
                    phase: Phase::Checking(GateCheck::ActiveTerminal, Purpose::Switch),
                    pressed: false,
                },
                Command::Query(GateCheck::ActiveTerminal),
            )
        } else if s.phase matches Phase::Checking(_, Purpose::ArmPress) {
            (ControllerView { phase: Phase::Idle, pressed: false }, Command::Nothing)
        } else {
            (ControllerView { pressed: false, ..s }, Command::Nothing)
        },
        Input::Pad(PadEvent::Other) => (s, Command::Nothing),
        Input::Answer(a) => match s.phase {
            Phase::Checking(g, p) => if !gate_passes(g, a) {
                (ControllerView { phase: Phase::Idle, ..s }, Command::Nothing)
            } else {
                match next_gate(g) {
                    Some(h) => (
                        ControllerView { phase: Phase::Checking(h, p), ..s },
                        Command::Query(h),
                    ),
                    None => match p {
                        Purpose::ArmPress => (
                            ControllerView { phase: Phase::Idle, pressed: true },
                            Command::Nothing,
                        ),
                        Purpose::Switch => (
                            ControllerView { phase: Phase::Switching, ..s },
                            Command::RunSwitch,
                        ),
                    },
                }
            },
            _ => (s, Command::Nothing),
        },
        Input::SwitchDone => if s.phase == Phase::Switching {
            (ControllerView { phase: Phase::Idle, ..s }, Command::Nothing)
        } else {
            (s, Command::Nothing)
        },
    }
}

pub open spec fn is_switch_done(i: Input) -> bool {
    i is SwitchDone
}

pub open spec fn is_release(i: Input) -> bool {
    i == Input::Pad(PadEvent::ModeReleased)
}

/// The input starts a switch attempt: the release of a recorded press while
/// nothing is under way.
pub open spec fn starts_attempt(s: ControllerView, i: Input) -> bool {
    is_release(i) && s.pressed && s.phase == Phase::Idle
}

/// The state after `inputs`, with the number of switch runs and the number
/// of switch attempts that they bring.
pub open spec fn run(s: ControllerView, inputs: Seq<Input>) -> (ControllerView, nat, nat)
    decreases inputs.len(),
{
    if inputs.len() == 0 {
        (s, 0, 0)
    } else {
        let (t, c) = step(s, inputs[0]);
        let (u, switches, attempts) = run(t, inputs.drop_first());
        (
            u,
            switches + if c == Command::RunSwitch { 1nat } else { 0nat },
            attempts + if starts_attempt(s, inputs[0]) { 1nat } else { 0nat },
        )
    }
}

/// How many switch ends `inputs` reports.
pub open spec fn count_done(inputs: Seq<Input>) -> nat
    decreases inputs.len(),
{
    if inputs.len() == 0 {
        0
    } else {
        count_done(inputs.drop_first()) + if is_switch_done(inputs[0]) { 1nat } else { 0nat }
    }
}

/// The mode-switch controller. A new one is idle with no press recorded.
#[derive(Debug)]
pub struct ModeSwitchController {
    phase: Phase,
    pressed: bool,
}

impl View for ModeSwitchController {
    type V = ControllerView;

    closed spec fn view(&self) -> ControllerView {
        ControllerView { phase: self.phase, pressed: self.pressed }
    }
}

impl ModeSwitchController {
    pub fn new() -> (r: Self)
        ensures
            r@ == (ControllerView { phase: Phase::Idle, pressed: false }),
            r@.wf(),
    {
        ModeSwitchController { phase: Phase::Idle, pressed: false }
    }

    pub fn phase(&self) -> (r: Phase)
        ensures
            r == self@.phase,
    {
        self.phase
    }

    /// Whether a press, found safe, awaits its release.
    pub fn is_pressed(&self) -> (r: bool)
        ensures
            r == self@.pressed,
    {
        self.pressed
    }

    /// Whether a round of checks or a switch is under way.
    pub fn is_busy(&self) -> (r: bool)
        ensures
            r == (self@.phase != Phase::Idle),
    {
        !matches!(self.phase, Phase::Idle)
    }

    /// Takes a device event. While nothing is under way, a press starts a
    /// round of checks that records it if safe, and the release of a recorded
    /// press starts a switch attempt; both begin with the first query. A
    /// release that comes while its press is still being checked ends that
    /// round: the press is not recorded.
    pub fn on_pad_event(&mut self, e: PadEvent) -> (r: Command)
        ensures
            (final(self)@, r) == step(old(self)@, Input::Pad(e)),
    {
        match e {
            PadEvent::ModePressed => {
                if matches!(self.phase, Phase::Idle) {
                    self.pressed = false;
                    self.phase = Phase::Checking(GateCheck::ActiveTerminal, Purpose::ArmPress);
                    Command::Query(GateCheck::ActiveTerminal)
                } else {
                    Command::Nothing
                }
            },
            PadEvent::ModeReleased => {
                let start = self.pressed && matches!(self.phase, Phase::Idle);
                self.pressed = false;
                if start {
                    self.phase = Phase::Checking(GateCheck::ActiveTerminal, Purpose::Switch);
                    Command::Query(GateCheck::ActiveTerminal)
                } else {
                    if matches!(self.phase, Phase::Checking(_, Purpose::ArmPress)) {
                        self.phase = Phase::Idle;
                    }
                    Command::Nothing
                }
            },
            PadEvent::Other => Command::Nothing,
        }
    }

    /// Takes the answer to the pending query (`None`: the query failed). A
    /// failed or unsafe answer drops the event; a safe one asks the next
    /// query, and after the last one records the press or commands the switch.
    pub fn on_gate_answer(&mut self, answer: Option<bool>) -> (r: Command)
        ensures
            (final(self)@, r) == step(old(self)@, Input::Answer(answer)),
    {
        match self.phase {
            Phase::Checking(g, p) => {
                let pass = match g {
                    GateCheck::ActiveTerminal => answer == Some(true),
                    GateCheck::GreeterForeground => answer == Some(true),
                    GateCheck::ForeignSession => answer == Some(false),
                };
                if !pass {
                    self.phase = Phase::Idle;
                    Command::Nothing
                } else {
                    match g {
                        GateCheck::ActiveTerminal => {
                            self.phase = Phase::Checking(GateCheck::GreeterForeground, p);
                            Command::Query(GateCheck::GreeterForeground)
                        },
                        GateCheck::GreeterForeground => {
                            self.phase = Phase::Checking(GateCheck::ForeignSession, p);
                            Command::Query(GateCheck::ForeignSession)
                        },
                        GateCheck::ForeignSession => match p {
                            Purpose::ArmPress => {
                                self.phase = Phase::Idle;
                                self.pressed = true;
                                Command::Nothing
                            },
                            Purpose::Switch => {
                                self.phase = Phase::Switching;
                                Command::RunSwitch
                            },
                        },
                    }
                }
            },
            _ => Command::Nothing,
        }
    }

    /// Takes the end of the switch protocol, whatever its outcome: the
    /// controller is idle again.
    pub fn on_switch_done(&mut self)
        ensures
            final(self)@ == step(old(self)@, Input::SwitchDone).0,
    {
        if matches!(self.phase, Phase::Switching) {
            self.phase = Phase::Idle;
        }
    }
}

proof fn lemma_tail_keeps(inputs: Seq<Input>, p: spec_fn(Input) -> bool)
    requires
        inputs.len() > 0,
        forall|k: int| 0 <= k < inputs.len() ==> #[trigger] p(inputs[k]),
    ensures
        p(inputs[0]),
        forall|k: int| 0 <= k < inputs.drop_first().len() ==> #[trigger] p(inputs.drop_first()[k]),
{
    assert(p(inputs[0]));
    assert forall|k: int| 0 <= k < inputs.drop_first().len() implies #[trigger] p(
        inputs.drop_first()[k],
    ) by {
        assert(inputs.drop_first()[k] == inputs[k + 1]);
        assert(p(inputs[k + 1]));
    }
}

/// While a switch runs, every input short of its end is a no-op: nothing
/// changes phase and nothing is commanded.
pub proof fn lemma_busy_switch_ignores(s: ControllerView, inputs: Seq<Input>)
    requires
        s.phase == Phase::Switching,
        forall|k: int| 0 <= k < inputs.len() ==> !is_switch_done(#[trigger] inputs[k]),
    ensures
        run(s, inputs).0.phase == Phase::Switching,
        run(s, inputs).1 == 0,
    decreases inputs.len(),
{
    if inputs.len() > 0 {
        lemma_tail_keeps(inputs, |i: Input| !is_switch_done(i));
        lemma_busy_switch_ignores(step(s, inputs[0]).0, inputs.drop_first());
    }
}

/// Between two ends of a switch, at most one switch is commanded, whatever
/// events and answers arrive.
pub proof fn lemma_single_switch(s: ControllerView, inputs: Seq<Input>)
    requires
        forall|k: int| 0 <= k < inputs.len() ==> !is_switch_done(#[trigger] inputs[k]),
    ensures
        run(s, inputs).1 <= 1,
        s.phase == Phase::Switching ==> run(s, inputs).1 == 0,
    decreases inputs.len(),
{
    if s.phase == Phase::Switching {
        lemma_busy_switch_ignores(s, inputs);
    } else if inputs.len() > 0 {
        lemma_tail_keeps(inputs, |i: Input| !is_switch_done(i));
        lemma_single_switch(step(s, inputs[0]).0, inputs.drop_first());
    }
}

/// Over any inputs, switches never overlap: each switch after the first
/// needs the end of the one before it, so the switches commanded are at most
/// the ends reported, plus one unless a switch is already running.
pub proof fn lemma_switches_bounded_by_completions(s: ControllerView, inputs: Seq<Input>)
    ensures
        run(s, inputs).1 <= count_done(inputs) + if s.phase == Phase::Switching {
            0nat
        } else {
            1nat
        },
    decreases inputs.len(),
{
    if inputs.len() > 0 {
        lemma_switches_bounded_by_completions(step(s, inputs[0]).0, inputs.drop_first());
    }
}

/// A failed query, or an answer that says switching is unsafe, ends the
/// round: the controller goes idle, commands nothing and records no press.
pub proof fn lemma_fail_closed(s: ControllerView, g: GateCheck, p: Purpose, answer: Option<bool>)
    requires
        s.phase == Phase::Checking(g, p),
        !gate_passes(g, answer),
    ensures
        step(s, Input::Answer(answer)).0.phase == Phase::Idle,
        step(s, Input::Answer(answer)).0.pressed == s.pressed,
        step(s, Input::Answer(answer)).1 == Command::Nothing,
{
}

/// A switch is commanded only on the answer to the last query of a switch
/// round, and only when it says that no one else is logged in; that query is
/// reached only through safe answers to the ones before it.
pub proof fn lemma_switch_needs_every_gate(s: ControllerView, i: Input, p: Purpose)
    ensures
        step(s, i).1 == Command::RunSwitch ==> s.phase == Phase::Checking(
            GateCheck::ForeignSession,
            Purpose::Switch,
        ) && i == Input::Answer(Some(false)),
        step(s, i).0.phase == Phase::Checking(GateCheck::ForeignSession, p) ==> (s.phase
            == Phase::Checking(GateCheck::ForeignSession, p) && !(i is Answer)) || (s.phase
            == Phase::Checking(GateCheck::GreeterForeground, p) && i == Input::Answer(Some(true))),
        step(s, i).0.phase == Phase::Checking(GateCheck::GreeterForeground, p) ==> (s.phase
            == Phase::Checking(GateCheck::GreeterForeground, p) && !(i is Answer)) || (s.phase
            == Phase::Checking(GateCheck::ActiveTerminal, p) && i == Input::Answer(Some(true))),
        !s.pressed && step(s, i).0.pressed ==> s.phase == Phase::Checking(
            GateCheck::ForeignSession,
            Purpose::ArmPress,
        ) && i == Input::Answer(Some(false)),
{
}

proof fn lemma_run_prepend(s: ControllerView, i: Input, rest: Seq<Input>)
    ensures
        run(s, seq![i] + rest) == (
            run(step(s, i).0, rest).0,
            run(step(s, i).0, rest).1 + if step(s, i).1 == Command::RunSwitch {
                1nat
            } else {
                0nat
            },
            run(step(s, i).0, rest).2 + if starts_attempt(s, i) {
                1nat
            } else {
                0nat
            },
        ),
{
    assert((seq![i] + rest).drop_first() =~= rest);
}

proof fn lemma_run_answers(s: ControllerView, a1: Option<bool>, a2: Option<bool>, a3: Option<bool>, p: Purpose)
    requires
        s.phase == Phase::Checking(GateCheck::ActiveTerminal, p),
    ensures
        ({
            let r = run(s, seq![Input::Answer(a1), Input::Answer(a2), Input::Answer(a3)]);
            &&& r.2 == 0
            &&& r.1 == if all_safe(a1, a2, a3) && p == Purpose::Switch { 1nat } else { 0nat }
            &&& r.0.phase == if all_safe(a1, a2, a3) && p == Purpose::Switch {
                Phase::Switching
            } else {
                Phase::Idle
            }
            &&& r.0.pressed == if all_safe(a1, a2, a3) && p == Purpose::ArmPress {
                true
            } else {
                s.pressed
            }
        }),
{
    let (i1, i2, i3) = (Input::Answer(a1), Input::Answer(a2), Input::Answer(a3));
    let s1 = step(s, i1).0;
    let s2 = step(s1, i2).0;
    let s3 = step(s2, i3).0;
    assert(seq![i3] =~= seq![i3] + Seq::<Input>::empty());
    lemma_run_prepend(s2, i3, Seq::<Input>::empty());
    assert(seq![i2, i3] =~= seq![i2] + seq![i3]);
    lemma_run_prepend(s1, i2, seq![i3]);
    assert(seq![i1, i2, i3] =~= seq![i1] + seq![i2, i3]);
    lemma_run_prepend(s, i1, seq![i2, i3]);
}

/// With nothing under way, a press is recorded exactly when the three
/// queries, run afresh, find it safe; otherwise the controller ends idle with
/// no press recorded. No switch is commanded either way.
pub proof fn lemma_press_decided(s: ControllerView, b1: Option<bool>, b2: Option<bool>, b3: Option<bool>)
    requires
        s.phase == Phase::Idle,
    ensures
        ({
            let r = run(
                s,
                seq![
                    Input::Pad(PadEvent::ModePressed),
                    Input::Answer(b1),
                    Input::Answer(b2),
                    Input::Answer(b3),
                ],
            );
            r.0 == ControllerView { phase: Phase::Idle, pressed: all_safe(b1, b2, b3) } && r.1 == 0
        }),
{
    let press = Input::Pad(PadEvent::ModePressed);
    let answers = seq![Input::Answer(b1), Input::Answer(b2), Input::Answer(b3)];
    lemma_run_answers(step(s, press).0, b1, b2, b3, Purpose::ArmPress);
    assert(seq![press, Input::Answer(b1), Input::Answer(b2), Input::Answer(b3)] =~= seq![press]
        + answers);
    lemma_run_prepend(s, press, answers);
}

/// Once a press is recorded, its release starts one attempt, which commands
/// a switch exactly when the three queries, run afresh, find it safe;
/// otherwise the controller ends idle and nothing is commanded.
pub proof fn lemma_release_decided(s: ControllerView, a1: Option<bool>, a2: Option<bool>, a3: Option<bool>)
    requires
        s.wf(),
        s.pressed,
    ensures
        ({
            let r = run(
                s,
                seq![
                    Input::Pad(PadEvent::ModeReleased),
                    Input::Answer(a1),
                    Input::Answer(a2),
                    Input::Answer(a3),
                ],
            );
            &&& r.1 == if all_safe(a1, a2, a3) { 1nat } else { 0nat }
            &&& r.2 == 1
            &&& r.0.phase == if all_safe(a1, a2, a3) { Phase::Switching } else { Phase::Idle }
        }),
{
    let release = Input::Pad(PadEvent::ModeReleased);
    let answers = seq![Input::Answer(a1), Input::Answer(a2), Input::Answer(a3)];
    lemma_run_answers(step(s, release).0, a1, a2, a3, Purpose::Switch);
    assert(seq![release, Input::Answer(a1), Input::Answer(a2), Input::Answer(a3)] =~= seq![release]
        + answers);
    lemma_run_prepend(s, release, answers);
}

/// Every transition keeps a press recorded only while nothing is under way.
pub proof fn lemma_step_keeps_wf(s: ControllerView, i: Input)
    requires
        s.wf(),
    ensures
        step(s, i).0.wf(),
{
}

/// A release during the checks of its own press ends that round: the press
/// is never recorded, and nothing is commanded.
pub proof fn lemma_release_cancels_press_round(s: ControllerView, g: GateCheck)
    requires
        s.phase == Phase::Checking(g, Purpose::ArmPress),
    ensures
        step(s, Input::Pad(PadEvent::ModeReleased)) == (
            ControllerView { phase: Phase::Idle, pressed: false },
            Command::Nothing,
        ),
{
}

pub open spec fn is_press(i: Input) -> bool {
    i == Input::Pad(PadEvent::ModePressed)
}

/// Neither a press is recorded nor one is being checked.
pub open spec fn no_pending_press(s: ControllerView) -> bool {
    !s.pressed && !(s.phase matches Phase::Checking(_, Purpose::ArmPress))
}

/// A release that no press has preceded since the last release (or since
/// start) never starts a switch attempt: with no pending press and no press
/// among the inputs, no attempt starts, and unless a switch round was already
/// under way, no switch is commanded.
pub proof fn lemma_release_needs_fresh_press(s: ControllerView, inputs: Seq<Input>)
    requires
        no_pending_press(s),
        forall|k: int| 0 <= k < inputs.len() ==> !is_press(#[trigger] inputs[k]),
    ensures
        run(s, inputs).2 == 0,
        no_switch_round(s) && s.phase != Phase::Switching ==> run(s, inputs).1 == 0,
    decreases inputs.len(),
{
    if inputs.len() > 0 {
        lemma_tail_keeps(inputs, |i: Input| !is_press(i));
        let t = step(s, inputs[0]).0;
        if no_switch_round(s) && s.phase != Phase::Switching {
            assert(no_switch_round(t) && t.phase != Phase::Switching);
        }
        lemma_release_needs_fresh_press(t, inputs.drop_first());
    }
}

/// No round of checks for a switch is pending.
pub open spec fn no_switch_round(s: ControllerView) -> bool {
    !(s.phase matches Phase::Checking(_, Purpose::Switch))
}

/// Without a release of the mode button, no switch attempt starts and no
/// switch is commanded, whatever presses, other events and answers arrive.
pub proof fn lemma_press_alone_never_attempts(s: ControllerView, inputs: Seq<Input>)
    requires
        no_switch_round(s),
        forall|k: int| 0 <= k < inputs.len() ==> !is_release(#[trigger] inputs[k]),
    ensures
        run(s, inputs).1 == 0,
        run(s, inputs).2 == 0,
    decreases inputs.len(),
{
    if inputs.len() > 0 {
        lemma_tail_keeps(inputs, |i: Input| !is_release(i));
        lemma_press_alone_never_attempts(step(s, inputs[0]).0, inputs.drop_first());
    }
}

/// When nothing is under way, a press found safe and then released starts
/// exactly one switch attempt, and a second release starts none.
pub proof fn lemma_press_release_attempts_once(s: ControllerView)
    requires
        s.phase == Phase::Idle,
    ensures
        ({
            let safe = seq![
                Input::Answer(Some(true)),
                Input::Answer(Some(true)),
                Input::Answer(Some(false)),
            ];
            let once = seq![Input::Pad(PadEvent::ModePressed)] + safe + seq![
                Input::Pad(PadEvent::ModeReleased),
            ];
            &&& run(s, once).2 == 1
            &&& run(s, once + seq![Input::Pad(PadEvent::ModeReleased)]).2 == 1
        }),
{
    let press = Input::Pad(PadEvent::ModePressed);
    let release = Input::Pad(PadEvent::ModeReleased);
    let safe = seq![Input::Answer(Some(true)), Input::Answer(Some(true)), Input::Answer(Some(false))];
    let s1 = step(s, press).0;
    lemma_run_answers(s1, Some(true), Some(true), Some(false), Purpose::ArmPress);
    let s4 = run(s1, safe).0;
    assert(s4 == ControllerView { phase: Phase::Idle, pressed: true });
    let s5 = step(s4, release).0;
    // the tail after the answers: one release, or two
    lemma_run_prepend(s5, release, Seq::<Input>::empty());
    assert(seq![release] =~= seq![release] + Seq::<Input>::empty());
    lemma_run_prepend(s4, release, Seq::<Input>::empty());
    lemma_run_prepend(s4, release, seq![release]);
    assert(seq![release, release] =~= seq![release] + seq![release]);
    lemma_run_concat(s1, safe, seq![release]);
    lemma_run_concat(s1, safe, seq![release, release]);
    let once = seq![press] + safe + seq![release];
    assert(once =~= seq![press] + (safe + seq![release]));
    lemma_run_prepend(s, press, safe + seq![release]);
    assert(once + seq![release] =~= seq![press] + (safe + seq![release, release]));
    lemma_run_prepend(s, press, safe + seq![release, release]);
}

/// A release that arrives while its press is still being checked, whatever
/// answers came before it, ends the round; after it, events with no new
/// press start no attempt and command no switch.
pub proof fn lemma_mid_round_release_never_attempts(s: ControllerView, g: GateCheck, rest: Seq<Input>)
    requires
        s.phase == Phase::Checking(g, Purpose::ArmPress),
        forall|k: int| 0 <= k < rest.len() ==> !is_press(#[trigger] rest[k]),
    ensures
        run(s, seq![Input::Pad(PadEvent::ModeReleased)] + rest).1 == 0,
        run(s, seq![Input::Pad(PadEvent::ModeReleased)] + rest).2 == 0,
{
    let release = Input::Pad(PadEvent::ModeReleased);
    lemma_run_prepend(s, release, rest);
    lemma_release_needs_fresh_press(step(s, release).0, rest);
}

/// Running `a` then `b` is running `a + b`; the counts add up.
pub proof fn lemma_run_concat(s: ControllerView, a: Seq<Input>, b: Seq<Input>)
    ensures
        run(s, a + b).0 == run(run(s, a).0, b).0,
        run(s, a + b).1 == run(s, a).1 + run(run(s, a).0, b).1,
        run(s, a + b).2 == run(s, a).2 + run(run(s, a).0, b).2,
    decreases a.len(),
{
    if a.len() == 0 {
        assert(a + b =~= b);
    } else {
        assert((a + b).drop_first() =~= a.drop_first() + b);
        assert((a + b)[0] == a[0]);
        lemma_run_concat(step(s, a[0]).0, a.drop_first(), b);
    }
}

} // verus!
