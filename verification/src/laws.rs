//! Laws of the duplex session pump, proved once and for all against the
//! transition relation [`step_model`] and the run functions
//! [`run_state`] and [`run_sent`].

use vstd::prelude::*;
use crate::session::{ActionModel, CloseDetailModel, EventModel, FrameModel, State};
use crate::session::{frames_of, run_sent, run_state, step_model};
use crate::text::is_blank;

verus! {

/// Appending one event to a run steps the final state once.
pub proof fn lemma_run_state_snoc(s: State, evs: Seq<EventModel>, e: EventModel)
    ensures
        run_state(s, evs.push(e)) == step_model(run_state(s, evs), e).0,
    decreases evs.len(),
{
    if evs.len() == 0 {
        assert(evs.push(e)[0] == e);
        assert(evs.push(e).drop_first() =~= Seq::<EventModel>::empty());
        assert(evs.push(e).len() == 1);
        assert(run_state(s, evs.push(e)) == run_state(
            step_model(s, e).0,
            evs.push(e).drop_first(),
        ));
        assert(run_state(step_model(s, e).0, evs.push(e).drop_first()) == step_model(s, e).0);
        assert(run_state(s, evs) == s);
    } else {
        assert(evs.push(e)[0] == evs[0]);
        assert(evs.push(e).drop_first() =~= evs.drop_first().push(e));
        lemma_run_state_snoc(step_model(s, evs[0]).0, evs.drop_first(), e);
        assert(run_state(s, evs.push(e)) == run_state(
            step_model(s, evs[0]).0,
            evs.drop_first().push(e),
        ));
        assert(run_state(s, evs) == run_state(step_model(s, evs[0]).0, evs.drop_first()));
    }
}

/// Appending one event to a run appends exactly the frames of that one step.
pub proof fn lemma_run_sent_snoc(s: State, evs: Seq<EventModel>, e: EventModel)
    ensures
        run_sent(s, evs.push(e)) =~= run_sent(s, evs) + frames_of(
            step_model(run_state(s, evs), e).1,
        ),
    decreases evs.len(),
{
    if evs.len() == 0 {
        assert(evs.push(e)[0] == e);
        assert(evs.push(e).drop_first() =~= Seq::<EventModel>::empty());
        assert(run_sent(s, evs.push(e)) == frames_of(step_model(s, e).1) + run_sent(
            step_model(s, e).0,
            evs.push(e).drop_first(),
        ));
        assert(run_sent(step_model(s, e).0, evs.push(e).drop_first())
            == Seq::<FrameModel>::empty());
        assert(run_sent(s, evs) == Seq::<FrameModel>::empty());
        assert(run_state(s, evs) == s);
        assert(run_sent(s, evs.push(e)) =~= frames_of(step_model(s, e).1));
    } else {
        assert(evs.push(e)[0] == evs[0]);
        assert(evs.push(e).drop_first() =~= evs.drop_first().push(e));
        lemma_run_sent_snoc(step_model(s, evs[0]).0, evs.drop_first(), e);
        lemma_run_state_snoc(step_model(s, evs[0]).0, evs.drop_first(), e);
        assert(run_sent(s, evs.push(e)) == frames_of(step_model(s, evs[0]).1) + run_sent(
            step_model(s, evs[0]).0,
            evs.drop_first().push(e),
        ));
        assert(run_sent(s, evs) == frames_of(step_model(s, evs[0]).1) + run_sent(
            step_model(s, evs[0]).0,
            evs.drop_first(),
        ));
        assert(run_state(s, evs) == run_state(step_model(s, evs[0]).0, evs.drop_first()));
    }
}

/// Every non-blank local line is sent as exactly one text frame carrying that
/// line, in submission order; blank lines contribute nothing; and a run of
/// local lines alone never leaves the open state. The frames sent for a
/// sequence of local lines are precisely the non-blank lines, each as one
/// text frame, in the order the lines were submitted.
pub proof fn lemma_lines_sent_in_order(lines: Seq<Seq<char>>)
    ensures
        run_state(State::Open, lines.map_values(|l: Seq<char>| EventModel::LocalLine(l)))
            == State::Open,
        run_sent(State::Open, lines.map_values(|l: Seq<char>| EventModel::LocalLine(l)))
            =~= lines.filter(|l: Seq<char>| !is_blank(l)).map_values(
            |l: Seq<char>| FrameModel::Text(l),
        ),
    decreases lines.len(),
{
    reveal(Seq::filter);
    let to_event = |l: Seq<char>| EventModel::LocalLine(l);
    let non_blank = |l: Seq<char>| !is_blank(l);
    let to_text = |l: Seq<char>| FrameModel::Text(l);
    if lines.len() == 0 {
        assert(lines.filter(non_blank).map_values(to_text) =~= Seq::<FrameModel>::empty());
    } else {
        let front = lines.drop_last();
        let last = lines.last();
        lemma_lines_sent_in_order(front);
        assert(lines.map_values(to_event) =~= front.map_values(to_event).push(to_event(last)));
        lemma_run_state_snoc(State::Open, front.map_values(to_event), to_event(last));
        lemma_run_sent_snoc(State::Open, front.map_values(to_event), to_event(last));
        if is_blank(last) {
            assert(lines.filter(non_blank) == front.filter(non_blank));
        } else {
            assert(lines.filter(non_blank) == front.filter(non_blank).push(last));
            assert(lines.filter(non_blank).map_values(to_text) =~= front.filter(
                non_blank,
            ).map_values(to_text).push(FrameModel::Text(last)));
        }
    }
}

/// A blank (empty or whitespace-only) local line produces no frame and
/// leaves the state as it was.
pub proof fn lemma_blank_line_sends_nothing(s: State, l: Seq<char>)
    requires
        is_blank(l),
    ensures
        step_model(s, EventModel::LocalLine(l)).1 == ActionModel::Nothing,
        frames_of(step_model(s, EventModel::LocalLine(l)).1) =~= Seq::<FrameModel>::empty(),
        step_model(s, EventModel::LocalLine(l)).0 == s,
{
}

/// An inbound ping in the open state is answered with exactly one pong whose
/// payload is byte-for-byte the ping's payload, and the session stays open.
pub proof fn lemma_ping_echoed_as_pong(p: Seq<u8>)
    ensures
        step_model(State::Open, EventModel::Remote(FrameModel::Ping(p))).0 == State::Open,
        frames_of(step_model(State::Open, EventModel::Remote(FrameModel::Ping(p))).1)
            =~= seq![FrameModel::Pong(p)],
{
}

/// Over a whole run of inbound pings, each is answered by exactly one pong
/// with the identical payload, in arrival order, and the session stays open.
pub proof fn lemma_pings_echoed_in_order(pings: Seq<Seq<u8>>)
    ensures
        run_state(
            State::Open,
            pings.map_values(|p: Seq<u8>| EventModel::Remote(FrameModel::Ping(p))),
        ) == State::Open,
        run_sent(
            State::Open,
            pings.map_values(|p: Seq<u8>| EventModel::Remote(FrameModel::Ping(p))),
        ) =~= pings.map_values(|p: Seq<u8>| FrameModel::Pong(p)),
    decreases pings.len(),
{
    let to_event = |p: Seq<u8>| EventModel::Remote(FrameModel::Ping(p));
    let to_pong = |p: Seq<u8>| FrameModel::Pong(p);
    if pings.len() == 0 {
    } else {
        let front = pings.drop_last();
        let last = pings.last();
        lemma_pings_echoed_in_order(front);
        assert(pings.map_values(to_event) =~= front.map_values(to_event).push(to_event(last)));
        lemma_run_state_snoc(State::Open, front.map_values(to_event), to_event(last));
        lemma_run_sent_snoc(State::Open, front.map_values(to_event), to_event(last));
        assert(pings.map_values(to_pong) =~= front.map_values(to_pong).push(to_pong(last)));
    }
}

/// The terminal state is absorbing: once terminated, no sequence of further
/// events sends any frame or leaves the terminal state.
pub proof fn lemma_terminated_is_absorbing(evs: Seq<EventModel>)
    ensures
        run_state(State::Terminated, evs) == State::Terminated,
        run_sent(State::Terminated, evs) =~= Seq::<FrameModel>::empty(),
    decreases evs.len(),
{
    if evs.len() > 0 {
        lemma_terminated_is_absorbing(evs.drop_first());
    }
}

/// An inbound close frame — with or without a detail — terminates the pump
/// in one step, sends nothing, and no frame is ever sent afterwards.
pub proof fn lemma_close_terminates(d: Option<CloseDetailModel>, later: Seq<EventModel>)
    ensures
        step_model(State::Open, EventModel::Remote(FrameModel::Close(d))).0 == State::Terminated,
        step_model(State::Open, EventModel::Remote(FrameModel::Close(d))).1
            == ActionModel::Nothing,
        run_sent(State::Terminated, later) =~= Seq::<FrameModel>::empty(),
{
    lemma_terminated_is_absorbing(later);
}

/// Exhaustion of the local input source terminates the pump, whatever
/// happened before and without any remote action.
pub proof fn lemma_local_exhaustion_terminates(earlier: Seq<EventModel>)
    ensures
        run_state(State::Open, earlier.push(EventModel::LocalClosed)) == State::Terminated,
{
    lemma_run_state_snoc(State::Open, earlier, EventModel::LocalClosed);
}

} // verus!
