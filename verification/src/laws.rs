//! What holds of every match, whatever the driver reports and whenever the
//! player clicks.

use vstd::prelude::*;
use crate::player::Phase;
use crate::player::Player;
use crate::sighting::Sighting;
use crate::model::Command;
use crate::model::SimulationView;
use crate::model::Stage;
use crate::model::WINNING_SCORE;

verus! {

/// One thing that can happen to a simulation.
pub enum Event {
    /// A step of a tick, on a report of the driver.
    Report(Sighting),
    /// A click on restart.
    RestartClick,
    /// A reset.
    Reset,
    /// A point given to a player between two ticks.
    Point(Player),
}

impl SimulationView {
    /// Whether `event` may happen now. Only a point has a condition: it is
    /// given between two ticks, to a player below the winning score.
    pub open spec fn allows(self, event: Event) -> bool {
        match event {
            Event::Point(player) => self.stage == Stage::Idle && self.can_score(player),
            _ => true,
        }
    }

    /// The simulation after `event`.
    pub open spec fn after_event(self, event: Event) -> SimulationView {
        match event {
            Event::Report(seen) => self.after_step(seen),
            Event::RestartClick => self.after_restart_click(),
            Event::Reset => self.after_reset(),
            Event::Point(player) => self.after_point(player),
        }
    }

    /// What the driver is told to do after `event`.
    pub open spec fn answer(self, event: Event) -> Command {
        match event {
            Event::Report(seen) => self.command(seen),
            Event::RestartClick => self.restart_command(),
            Event::Reset => Command::Serve,
            Event::Point(_) => Command::Serve,
        }
    }

    /// The simulation after all of `events`, the first of them first.
    pub open spec fn after_events(self, events: Seq<Event>) -> SimulationView
        decreases events.len(),
    {
        if events.len() == 0 {
            self
        } else {
            self.after_events(events.drop_last()).after_event(events.last())
        }
    }

    /// Whether each of `events` may happen when its turn comes.
    pub open spec fn allows_all(self, events: Seq<Event>) -> bool
        decreases events.len(),
    {
        events.len() > 0 ==> {
            &&& self.allows_all(events.drop_last())
            &&& self.after_events(events.drop_last()).allows(events.last())
        }
    }
}

/// An event that may happen to a well-formed simulation leaves it
/// well-formed.
pub proof fn lemma_event_keeps_wf(v: SimulationView, event: Event)
    requires
        v.wf(),
        v.allows(event),
    ensures
        v.after_event(event).wf(),
{
}

/// The score invariant holds at all times: after any events that may happen
/// to a fresh match, no score exceeds the winning score, which is still the
/// one the match began with, and the match is over if and only if one of the
/// scores equals it.
pub proof fn lemma_score_invariant(events: Seq<Event>)
    requires
        SimulationView::initial().allows_all(events),
    ensures
        ({
            let v = SimulationView::initial().after_events(events);
            &&& v.wf()
            &&& v.winning_score == WINNING_SCORE
            &&& v.score_left <= v.winning_score
            &&& v.score_right <= v.winning_score
            &&& (v.phase == Phase::GameOver <==> (v.score_left == v.winning_score
                || v.score_right == v.winning_score))
        }),
    decreases events.len(),
{
    if events.len() > 0 {
        lemma_score_invariant(events.drop_last());
        lemma_event_keeps_wf(
            SimulationView::initial().after_events(events.drop_last()),
            events.last(),
        );
    }
}

/// Between two ticks of a match that is over nothing moves: whatever the
/// driver reports, and however often, the simulation stays as it is and every
/// answer is to leave the ball and the paddles alone.
pub proof fn lemma_game_over_is_frozen(v: SimulationView, events: Seq<Event>)
    requires
        v.stage == Stage::Idle,
        v.phase == Phase::GameOver,
        forall|i: int| 0 <= i < events.len() ==> events[i] is Report,
    ensures
        v.after_events(events) == v,
        forall|i: int|
            0 <= i < events.len() ==> (#[trigger] v.after_events(events.take(i))).answer(events[i])
                == Command::Nothing,
    decreases events.len(),
{
    if events.len() > 0 {
        let front = events.drop_last();
        lemma_game_over_is_frozen(v, front);
        assert forall|i: int| 0 <= i < events.len() implies (#[trigger] v.after_events(
            events.take(i),
        )).answer(events[i]) == Command::Nothing by {
            if i < front.len() {
                assert(events.take(i) == front.take(i));
                assert(events[i] == front[i]);
            } else {
                assert(events.take(i) == front);
            }
        }
    }
}

/// A tick of a match that is played takes five steps, in a fixed order,
/// whatever is reported: the ball advances, the opponent steers, the left
/// side is looked at, then the right side, then the walls; after that the
/// simulation is between two ticks again.
pub proof fn lemma_tick_order(
    v: SimulationView,
    first: Sighting,
    second: Sighting,
    third: Sighting,
    fourth: Sighting,
    fifth: Sighting,
)
    requires
        v.wf(),
        v.stage == Stage::Idle,
        v.phase == Phase::Playing,
    ensures
        v.command(first) == Command::Advance,
        v.after_step(first).stage == Stage::Opponent,
        v.after_step(first).after_step(second).stage == Stage::LeftSide,
        v.after_step(first).after_step(second).after_step(third).stage == Stage::RightSide,
        v.after_step(first).after_step(second).after_step(third).after_step(fourth).stage
            == Stage::Walls,
        v.after_step(first).after_step(second).after_step(third).after_step(fourth).after_step(
            fifth,
        ).stage == Stage::Idle,
{
}

/// A step changes the score exactly when its answer is to serve, and then
/// exactly one player gains exactly one point: the one opposite the side
/// where the ball left the arena. No step takes a point away.
pub proof fn lemma_serve_follows_point(v: SimulationView, seen: Sighting)
    requires
        v.wf(),
    ensures
        v.command(seen) == Command::Serve <==> v.after_step(seen).score_left
            + v.after_step(seen).score_right == v.score_left + v.score_right + 1,
        v.command(seen) != Command::Serve ==> v.after_step(seen).score_left == v.score_left
            && v.after_step(seen).score_right == v.score_right,
        v.command(seen) == Command::Serve ==> v.side() is Some && v.after_step(seen).score_of(
            v.side().unwrap().opponent_spec(),
        ) == v.score_of(v.side().unwrap().opponent_spec()) + 1 && v.after_step(seen).score_of(
            v.side().unwrap(),
        ) == v.score_of(v.side().unwrap()),
{
}

/// A player who is given the point that brings them to the winning score,
/// in a match that is played, ends the match and is its winner.
pub proof fn lemma_winning_point(v: SimulationView, player: Player)
    requires
        v.wf(),
        v.phase == Phase::Playing,
        v.score_of(player) + 1 == v.winning_score,
    ensures
        v.after_point(player).phase == Phase::GameOver,
        v.after_point(player).winner() == Some(player),
{
}

/// A point below the winning score leaves the match as it was, played or
/// over.
pub proof fn lemma_ordinary_point(v: SimulationView, player: Player)
    requires
        v.wf(),
        v.score_of(player) + 1 < v.winning_score,
    ensures
        v.after_point(player).phase == v.phase,
        v.after_point(player).winner() == v.winner(),
{
}

/// A click on restart after the match is over starts a new one, with no
/// points and the ball to be served; while the match is played it changes
/// nothing and asks for nothing.
pub proof fn lemma_restart_click(v: SimulationView)
    requires
        v.wf(),
    ensures
        v.phase == Phase::GameOver ==> {
            &&& v.after_restart_click().score_left == 0
            &&& v.after_restart_click().score_right == 0
            &&& v.after_restart_click().phase == Phase::Playing
            &&& v.restart_command() == Command::Serve
        },
        v.phase == Phase::Playing ==> {
            &&& v.after_restart_click() == v
            &&& v.restart_command() == Command::Nothing
        },
{
}

/// There is a winner exactly while the match is over.
pub proof fn lemma_winner_when_over(v: SimulationView)
    requires
        v.wf(),
    ensures
        v.winner() is Some <==> v.phase == Phase::GameOver,
        v.winner() is Some ==> v.score_of(v.winner().unwrap()) == v.winning_score,
{
}

} // verus!
