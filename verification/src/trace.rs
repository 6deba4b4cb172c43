//! What holds of a whole scan: of every sequence of events that a scanner
//! may be given, and of the actions that it returns for them.

use vstd::prelude::*;
use crate::scanner::{data_count, ActionView, Event, ScanState, ScannerView, StatusView};

verus! {

/// One event: what it does to the state, and what the action that it brings
/// says of the state. The parameters of the scan never change. Only the
/// publication of a spectrum counts as one, and a spectrum has one value for
/// every complex sample of a capture. The scan is over exactly when its end,
/// by error or by completion, is published; completion comes when every
/// capture is published, a failure of the caller is reported with its own
/// description, and no error is reported for an event that was expected.
pub proof fn lemma_next<T>(m: ScannerView, event: Event<T>)
    requires
        m.sound(),
    ensures
        ({
            let (n, action) = m.next(event);
            &&& n.sound()
            &&& n.params == m.params
            &&& n.settle_bytes == m.settle_bytes
            &&& n.published == m.published + if action.is_data() {
                1int
            } else {
                0int
            }
            &&& action.is_terminal() <==> m.state is Scanning && !(n.state is Scanning)
            &&& !(m.state is Scanning) ==> n == m && action == ActionView::<T>::Halt
            &&& action == ActionView::<T>::Publish(StatusView::Complete) ==> m.published
                == m.params.captures() && n.state == ScanState::Complete
            &&& n.state == ScanState::Complete && m.state is Scanning ==> action
                == ActionView::<T>::Publish(StatusView::Complete)
            &&& action is Tune ==> m.published < m.params.captures() && action->Tune_0
                == m.params.tuned(m.published as int)
            &&& action matches ActionView::Publish(StatusView::Data(values)) ==> values.len()
                == m.params.capture_bytes() / 2
            &&& m.state is Scanning && event is Failed ==> n.state == ScanState::Failed && action
                == ActionView::<T>::Publish(StatusView::Error(event->Failed_0@))
            &&& action.is_error() ==> event is Failed || !m.expects(event)
            &&& m.state is Scanning && m.expects(event) ==> n.to_go() == m.to_go() - 1
                && !action.is_error()
        }),
{
    if m.state is Scanning {
        m.params.lemma_tuned_within_limit(m.published as int);
    }
}

/// The actions for the first `i` events do not depend on the events that
/// follow.
pub proof fn lemma_run_prefix<T>(m: ScannerView, events: Seq<Event<T>>, i: int)
    requires
        0 <= i <= events.len(),
    ensures
        m.run(events.take(i)).1 == m.run(events).1.take(i),
        m.run(events).1.len() == events.len(),
    decreases events.len(),
{
    if i < events.len() {
        lemma_run_prefix(m, events.drop_last(), i);
        assert(events.take(i) == events.drop_last().take(i));
    } else if events.len() > 0 {
        lemma_run_prefix(m, events.drop_last(), i - 1);
        assert(events.take(i) == events);
    }
}

/// What holds after any events at all: the scanner is sound, its parameters
/// are what they were, it has returned one action for every event, it has
/// counted every spectrum that it has published, and its scan is over if and
/// only if one of its actions has published the end.
pub proof fn lemma_run<T>(m: ScannerView, events: Seq<Event<T>>)
    requires
        m.sound(),
    ensures
        ({
            let (n, actions) = m.run(events);
            &&& n.sound()
            &&& n.params == m.params
            &&& n.settle_bytes == m.settle_bytes
            &&& actions.len() == events.len()
            &&& n.published == m.published + data_count(actions)
            &&& m.state is Scanning && !(n.state is Scanning) <==> exists|i: int|
                0 <= i < actions.len() && (#[trigger] actions[i]).is_terminal()
            &&& !(m.state is Scanning) ==> n == m
        }),
    decreases events.len(),
{
    let (n, actions) = m.run(events);
    if events.len() > 0 {
        let (before, prior) = m.run(events.drop_last());
        lemma_run(m, events.drop_last());
        lemma_next(before, events.last());
        assert(actions.drop_last() == prior);
        if m.state is Scanning && !(before.state is Scanning) {
            let i = choose|i: int| 0 <= i < prior.len() && (#[trigger] prior[i]).is_terminal();
            assert(actions[i].is_terminal());
        }
    }
}

/// The action for event number `i` is the one that the scanner returns for
/// it in the state that the events before it have left.
pub proof fn lemma_run_at<T>(m: ScannerView, events: Seq<Event<T>>, i: int)
    requires
        0 <= i < events.len(),
    ensures
        m.run(events).1.len() == events.len(),
        m.run(events).1[i] == m.run(events.take(i)).0.next(events[i]).1,
        m.run(events).1.take(i) == m.run(events.take(i)).1,
{
    let upto = events.take(i + 1);
    lemma_run_prefix(m, events, i + 1);
    lemma_run_prefix(m, events, i);
    assert(upto.drop_last() == events.take(i));
    assert(m.run(events).1.take(i + 1)[i] == m.run(events).1[i]);
}

/// A scan reports its end at most once, and nothing after it: once an action
/// publishes an error or the completion of the scan, every later action is
/// to halt.
pub proof fn lemma_terminal_is_last<T>(m: ScannerView, events: Seq<Event<T>>, i: int, j: int)
    requires
        m.sound(),
        0 <= i < j < events.len(),
        m.run(events).1[i].is_terminal(),
    ensures
        m.run(events).1[j] == ActionView::<T>::Halt,
{
    let before = m.run(events.take(j));
    lemma_run_at(m, events, j);
    lemma_run(m, events.take(j));
    assert(before.1[i] == m.run(events).1[i]);
    lemma_next(before.0, events[j]);
}

/// A scan that reports its completion has published one spectrum for every
/// capture: as many as the scan has frequencies to tune.
pub proof fn lemma_complete_follows_every_capture<T>(
    m: ScannerView,
    events: Seq<Event<T>>,
    i: int,
)
    requires
        m.sound(),
        0 <= i < events.len(),
        m.run(events).1[i] == ActionView::<T>::Publish(StatusView::Complete),
    ensures
        m.published + data_count(m.run(events).1.take(i)) == m.params.captures(),
{
    lemma_run_at(m, events, i);
    lemma_run(m, events.take(i));
    lemma_next(m.run(events.take(i)).0, events[i]);
}

/// The captures come in ascending order of frequency: the scanner tunes to
/// the frequency of capture number `k` when, and only when, it has published
/// `k` spectra, and never beyond the limit of the scan.
pub proof fn lemma_tunes_in_order<T>(m: ScannerView, events: Seq<Event<T>>, i: int)
    requires
        m.sound(),
        0 <= i < events.len(),
        m.run(events).1[i] is Tune,
    ensures
        ({
            let k = m.published + data_count(m.run(events).1.take(i));
            &&& k < m.params.captures()
            &&& m.run(events).1[i]->Tune_0 == m.params.tuned(k)
            &&& m.params.tuned(k) <= m.params.limit()
        }),
{
    let before = m.run(events.take(i)).0;
    lemma_run_at(m, events, i);
    lemma_run(m, events.take(i));
    lemma_next(before, events[i]);
    m.params.lemma_tuned_within_limit(before.published as int);
}

/// A scan reports an error only for a cause: the event before it reported a
/// failure, or was not the event that the scanner expected.
pub proof fn lemma_errors_have_a_cause<T>(m: ScannerView, events: Seq<Event<T>>, i: int)
    requires
        m.sound(),
        0 <= i < events.len(),
        m.run(events).1[i].is_error(),
    ensures
        events[i] is Failed || !m.run(events.take(i)).0.expects(events[i]),
{
    lemma_run_at(m, events, i);
    lemma_run(m, events.take(i));
    lemma_next(m.run(events.take(i)).0, events[i]);
}

/// While every event is expected, every event brings the scan one event
/// nearer to its completion, and no action reports an error.
pub proof fn lemma_cooperative_progress<T>(m: ScannerView, events: Seq<Event<T>>)
    requires
        m.sound(),
        m.state is Scanning,
        m.cooperative(events),
        events.len() <= m.to_go(),
    ensures
        ({
            let (n, actions) = m.run(events);
            &&& n.to_go() == m.to_go() - events.len()
            &&& n.state is Scanning || n.state == ScanState::Complete
            &&& n.state is Scanning <==> n.to_go() > 0
            &&& forall|i: int| 0 <= i < actions.len() ==> !(#[trigger] actions[i]).is_error()
            &&& events.len() > 0 && n.state == ScanState::Complete ==> actions.last()
                == ActionView::<T>::Publish(StatusView::Complete)
        }),
    decreases events.len(),
{
    if events.len() > 0 {
        let prior = events.drop_last();
        let before = m.run(prior).0;
        assert forall|i: int| 0 <= i < prior.len() implies (#[trigger] m.run(
            prior.take(i),
        )).0.expects(prior[i]) by {
            assert(prior.take(i) == events.take(i));
        }
        lemma_cooperative_progress(m, prior);
        lemma_run(m, prior);
        lemma_next(before, events.last());
    }
}

/// A scan with well-formed parameters whose every event is expected, so
/// that nothing fails on the way, publishes exactly one spectrum for each
/// of its captures, then reports its completion, and never reports an
/// error. It takes three events to prepare the receiver and four or five for
/// each capture.
pub proof fn lemma_cooperative_scan_completes<T>(idle: ScannerView, events: Seq<Event<T>>)
    requires
        idle.state == ScanState::Idle,
        idle.params.well_formed(),
        idle.start::<T>().0.cooperative(events),
        events.len() == idle.capture_events(idle.params.captures()) + 3,
    ensures
        idle.start::<T>().1 == ActionView::<T>::Open(idle.device_index),
        ({
            let (n, actions) = idle.start::<T>().0.run(events);
            &&& n.state == ScanState::Complete
            &&& data_count(actions) == idle.params.captures()
            &&& actions.last() == ActionView::<T>::Publish(StatusView::Complete)
            &&& forall|i: int| 0 <= i < actions.len() ==> !(#[trigger] actions[i]).is_error()
        }),
{
    let m = idle.start::<T>().0;
    lemma_cooperative_progress(m, events);
    lemma_run(m, events);
}

} // verus!
