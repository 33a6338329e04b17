//! The cancellation watcher and the race between it and the execution of a
//! script.
//!
//! The watcher looks at input events while a script runs. The first press of
//! the primary pointer button makes it ask for the end of the whole process,
//! at once and without regard to how far the script has come. The caller
//! feeds it the events and ends the process when told to.
//!
//! The second half of this module is a model of the two control flows, the
//! engine that performs the steps and the watcher, as one sequence of turns.
//! Whichever flow ends the process first wins, and nothing happens after.

use vstd::prelude::*;

verus! {

/// The state of the watcher.
#[derive(Debug, Clone, Copy, PartialEq, Eq, Structural)]
pub enum WatcherState {
    /// Watching. This is the state from the start of a script.
    Armed,
    /// The interrupt has been seen. This state is never left.
    Triggered,
}

/// What the watcher reads of an input event.
#[derive(Debug, Clone, Copy, PartialEq, Eq, Structural)]
pub enum InputEvent {
    /// The primary button of the pointing device went down.
    PrimaryButtonPress,
    /// Anything else.
    Other,
}

/// What the caller is to do after an event.
#[derive(Debug, Clone, Copy, PartialEq, Eq, Structural)]
pub enum WatcherAction {
    /// Go on listening.
    KeepListening,
    /// End the process now.
    Terminate,
}

/// The transition of the watcher on one event.
pub open spec fn watcher_step(state: WatcherState, event: InputEvent) -> (
    WatcherState,
    WatcherAction,
) {
    match (state, event) {
        (WatcherState::Armed, InputEvent::PrimaryButtonPress) => (
            WatcherState::Triggered,
            WatcherAction::Terminate,
        ),
        (WatcherState::Armed, InputEvent::Other) => (
            WatcherState::Armed,
            WatcherAction::KeepListening,
        ),
        (WatcherState::Triggered, _) => (WatcherState::Triggered, WatcherAction::KeepListening),
    }
}

/// The state of the watcher after `events`, from `state`.
pub open spec fn watcher_run(state: WatcherState, events: Seq<InputEvent>) -> WatcherState
    decreases events.len(),
{
    if events.len() == 0 {
        state
    } else {
        watcher_step(watcher_run(state, events.drop_last()), events.last()).0
    }
}

/// The watcher of one script run.
#[derive(Debug)]
pub struct CancellationWatcher {
    state: WatcherState,
}

impl CancellationWatcher {
    /// The state of this watcher.
    pub closed spec fn state(&self) -> WatcherState {
        self.state
    }

    /// A watcher at the start of a script: armed.
    pub fn new() -> (watcher: Self)
        ensures
            watcher.state() == WatcherState::Armed,
    {
        CancellationWatcher { state: WatcherState::Armed }
    }

    /// Whether the interrupt has been seen.
    pub fn is_triggered(&self) -> (yes: bool)
        ensures
            yes == (self.state() == WatcherState::Triggered),
    {
        match self.state {
            WatcherState::Triggered => true,
            WatcherState::Armed => false,
        }
    }

    /// Takes one input event. Asks for termination on the first press of the
    /// primary button and never again.
    pub fn observe(&mut self, event: InputEvent) -> (action: WatcherAction)
        ensures
            (final(self).state(), action) == watcher_step(old(self).state(), event),
    {
        match (self.state, event) {
            (WatcherState::Armed, InputEvent::PrimaryButtonPress) => {
                self.state = WatcherState::Triggered;
                WatcherAction::Terminate
            },
            _ => WatcherAction::KeepListening,
        }
    }
}

/// The watcher is triggered after a sequence of events exactly if the
/// primary button was pressed in it.
pub proof fn lemma_triggered_by_first_press(events: Seq<InputEvent>)
    ensures
        watcher_run(WatcherState::Armed, events) == WatcherState::Triggered <==> events.contains(
            InputEvent::PrimaryButtonPress,
        ),
    decreases events.len(),
{
    if events.len() > 0 {
        let earlier = events.drop_last();
        lemma_triggered_by_first_press(earlier);
        if earlier.contains(InputEvent::PrimaryButtonPress) {
            let i = choose|i: int| 0 <= i < earlier.len() && earlier[i] == InputEvent::PrimaryButtonPress;
            assert(events[i] == InputEvent::PrimaryButtonPress);
        }
        if events.contains(InputEvent::PrimaryButtonPress) && events.last()
            != InputEvent::PrimaryButtonPress {
            let i = choose|i: int| 0 <= i < events.len() && events[i] == InputEvent::PrimaryButtonPress;
            assert(earlier[i] == InputEvent::PrimaryButtonPress);
        }
    }
}

/// The watcher asks for termination at an event exactly if that event is a
/// press of the primary button and none came before it.
pub proof fn lemma_terminate_once(earlier: Seq<InputEvent>, event: InputEvent)
    ensures
        watcher_step(watcher_run(WatcherState::Armed, earlier), event).1 == WatcherAction::Terminate
            <==> event == InputEvent::PrimaryButtonPress && !earlier.contains(
            InputEvent::PrimaryButtonPress,
        ),
{
    lemma_triggered_by_first_press(earlier);
}

/// One turn of the process: the engine performs its next step, or leaves
/// cleanly if none is left; or the interrupt arrives.
pub enum Turn {
    Engine,
    Interrupt,
}

/// The process as a whole, with the number of steps performed so far.
pub enum Process {
    /// The script is being carried out.
    Running { performed: nat },
    /// The engine came to its end and left by its own path.
    Finished { performed: nat },
    /// The watcher ended the process.
    Interrupted { performed: nat },
}

impl Process {
    /// The number of steps performed.
    pub open spec fn performed(self) -> nat {
        match self {
            Process::Running { performed } => performed,
            Process::Finished { performed } => performed,
            Process::Interrupted { performed } => performed,
        }
    }
}

/// The process of a script of `total` steps after one more turn. A process
/// that has ended stays as it is.
pub open spec fn process_turn(total: nat, process: Process, turn: Turn) -> Process {
    match process {
        Process::Running { performed } => match turn {
            Turn::Interrupt => Process::Interrupted { performed },
            Turn::Engine => if performed < total {
                Process::Running { performed: performed + 1 }
            } else {
                Process::Finished { performed }
            },
        },
        _ => process,
    }
}

/// The process of a script of `total` steps after `turns`, from the start.
pub open spec fn process_after(total: nat, turns: Seq<Turn>) -> Process
    decreases turns.len(),
{
    if turns.len() == 0 {
        Process::Running { performed: 0 }
    } else {
        process_turn(total, process_after(total, turns.drop_last()), turns.last())
    }
}

/// An interrupt that comes before the engine's first turn ends the process
/// with no step performed, whatever turns follow.
pub proof fn lemma_interrupt_first(total: nat, turns: Seq<Turn>)
    requires
        turns.len() > 0,
        turns[0] is Interrupt,
    ensures
        process_after(total, turns) == (Process::Interrupted { performed: 0 }),
    decreases turns.len(),
{
    if turns.len() == 1 {
        assert(turns.drop_last().len() == 0);
    } else {
        lemma_interrupt_first(total, turns.drop_last());
    }
}

/// While the engine alone takes turns, it performs one step per turn, and
/// it leaves cleanly at the turn after its last step.
pub proof fn lemma_engine_alone(total: nat, turns: Seq<Turn>)
    requires
        forall|i: int| 0 <= i < turns.len() ==> turns[i] is Engine,
    ensures
        process_after(total, turns) == if turns.len() <= total {
            Process::Running { performed: turns.len() }
        } else {
            Process::Finished { performed: total }
        },
    decreases turns.len(),
{
    if turns.len() > 0 {
        lemma_engine_alone(total, turns.drop_last());
    }
}

/// A process that has ended is not changed by any further turns: there is
/// one exit, and an interrupt after a clean exit does not undo it.
pub proof fn lemma_exit_is_final(total: nat, before: Seq<Turn>, after: Seq<Turn>)
    requires
        !(process_after(total, before) is Running),
    ensures
        process_after(total, before + after) == process_after(total, before),
    decreases after.len(),
{
    if after.len() == 0 {
        assert(before + after == before);
    } else {
        assert((before + after).drop_last() == before + after.drop_last());
        lemma_exit_is_final(total, before, after.drop_last());
    }
}

/// An interrupt after the engine has performed all its steps and left does
/// not change the outcome: the process has finished cleanly with every step
/// performed.
pub proof fn lemma_interrupt_after_finish(total: nat, after: Seq<Turn>)
    ensures
        process_after(total, Seq::new(total + 1, |i: int| Turn::Engine) + after) == (
            Process::Finished { performed: total }
        ),
{
    let engine = Seq::new(total + 1, |i: int| Turn::Engine);
    lemma_engine_alone(total, engine);
    lemma_exit_is_final(total, engine, after);
}

} // verus!
