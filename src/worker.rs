use vstd::prelude::*;

use crate::matching::{any_matches, PatternSet};
use crate::ocr::Ocr;

verus! {

/// What becomes of an image once its text is known.
#[derive(Debug, Clone, Copy, PartialEq, Eq)]
pub enum Route {
    Delete,
    Crop,
}

/// The route of an image whose text is `text`: cropped exactly when one of
/// `patterns` matches.
pub open spec fn route_spec(patterns: Seq<Seq<char>>, text: Seq<char>) -> Route {
    if any_matches(patterns, text) {
        Route::Crop
    } else {
        Route::Delete
    }
}

/// Decides the route of an image from its recognised text.
pub fn route(patterns: &PatternSet, text: &str) -> (r: Route)
    ensures
        r == route_spec(patterns@, text@),
{
    if patterns.is_match(text) {
        Route::Crop
    } else {
        Route::Delete
    }
}

/// With no patterns every image is deleted, whatever its text.
pub proof fn lemma_no_patterns_delete_all(patterns: Seq<Seq<char>>, text: Seq<char>)
    requires
        patterns.len() == 0,
    ensures
        route_spec(patterns, text) == Route::Delete,
{
}

/// How the handling of one image ended.
#[derive(Debug, Clone, Copy, PartialEq, Eq)]
pub enum Outcome {
    /// The image was deleted.
    Deleted,
    /// A cropped copy of the image was written.
    Cropped,
    /// Deleting or cropping failed; the failure was reported.
    Failed,
}

/// Where the worker stands.
pub enum Stage {
    /// Waiting for the next image path.
    Receiving,
    /// Waiting for the text of this image.
    Extracting(String),
    /// Waiting for this image to be deleted.
    Deleting(String),
    /// Waiting for this image to be cropped and stored.
    Cropping(String),
    /// The channel closed; nothing more is done.
    Stopped,
}

/// What the surrounding loop reports to the worker.
pub enum Event {
    /// A path came through the channel.
    Received(String),
    /// Every sender is gone.
    Closed,
    /// The text of the current image.
    TextExtracted(String),
    /// The text of the current image could not be extracted.
    ExtractionFailed,
    /// The requested deletion or crop succeeded.
    Done,
    /// The requested deletion or crop failed.
    Failed,
}

/// What the worker asks the surrounding loop to do next.
#[derive(Debug, Clone, PartialEq, Eq)]
pub enum Action {
    /// Wait for the next path on the channel.
    Receive,
    /// Extract the text of this image.
    ExtractText(String),
    /// Delete this image.
    Delete(String),
    /// Crop this image and store the result.
    Crop(String),
    /// End the loop.
    Stop,
}

/// The decisions of the recognition worker: one image at a time, in the
/// order received, each ending in exactly one outcome.
pub struct Worker {
    ocr: Ocr,
    stage: Stage,
    received: Ghost<Seq<Seq<char>>>,
    resolved: Ghost<Seq<(Seq<char>, Outcome)>>,
}

/// The image being handled in `stage`, if any.
pub open spec fn current_image(stage: Stage) -> Option<Seq<char>> {
    match stage {
        Stage::Extracting(p) => Some(p@),
        Stage::Deleting(p) => Some(p@),
        Stage::Cropping(p) => Some(p@),
        _ => None,
    }
}

/// The action that `stage` waits on.
pub open spec fn pending_action_spec(stage: Stage) -> Action {
    match stage {
        Stage::Receiving => Action::Receive,
        Stage::Extracting(p) => Action::ExtractText(p),
        Stage::Deleting(p) => Action::Delete(p),
        Stage::Cropping(p) => Action::Crop(p),
        Stage::Stopped => Action::Stop,
    }
}

/// One step of the worker: the stage that `event` leads to from `before`,
/// and what is added to the record of received and resolved images.
pub open spec fn step_rel(before: Worker, event: Event, after: Worker) -> bool {
    &&& after.spec_patterns() == before.spec_patterns()
    &&& match (before.spec_stage(), event) {
        (Stage::Receiving, Event::Received(p)) => {
            &&& after.spec_stage() == Stage::Extracting(p)
            &&& after.spec_received() == before.spec_received().push(p@)
            &&& after.spec_resolved() == before.spec_resolved()
        },
        (Stage::Receiving, Event::Closed) => {
            &&& after.spec_stage() is Stopped
            &&& after.spec_received() == before.spec_received()
            &&& after.spec_resolved() == before.spec_resolved()
        },
        (Stage::Extracting(p), Event::TextExtracted(t)) => {
            &&& after.spec_stage() == (match route_spec(
                before.spec_patterns(),
                t@,
            ) {
                Route::Crop => Stage::Cropping(p),
                Route::Delete => Stage::Deleting(p),
            })
            &&& after.spec_received() == before.spec_received()
            &&& after.spec_resolved() == before.spec_resolved()
        },
        (Stage::Extracting(p), Event::ExtractionFailed) => {
            &&& after.spec_stage() == Stage::Deleting(p)
            &&& after.spec_received() == before.spec_received()
            &&& after.spec_resolved() == before.spec_resolved()
        },
        (Stage::Deleting(p), Event::Done) => {
            &&& after.spec_stage() is Receiving
            &&& after.spec_received() == before.spec_received()
            &&& after.spec_resolved() == before.spec_resolved().push(
                (p@, Outcome::Deleted),
            )
        },
        (Stage::Cropping(p), Event::Done) => {
            &&& after.spec_stage() is Receiving
            &&& after.spec_received() == before.spec_received()
            &&& after.spec_resolved() == before.spec_resolved().push(
                (p@, Outcome::Cropped),
            )
        },
        (Stage::Deleting(p), Event::Failed) => {
            &&& after.spec_stage() is Receiving
            &&& after.spec_received() == before.spec_received()
            &&& after.spec_resolved() == before.spec_resolved().push(
                (p@, Outcome::Failed),
            )
        },
        (Stage::Cropping(p), Event::Failed) => {
            &&& after.spec_stage() is Receiving
            &&& after.spec_received() == before.spec_received()
            &&& after.spec_resolved() == before.spec_resolved().push(
                (p@, Outcome::Failed),
            )
        },
        _ => {
            &&& after.spec_stage() == before.spec_stage()
            &&& after.spec_received() == before.spec_received()
            &&& after.spec_resolved() == before.spec_resolved()
        },
    }
}

impl Worker {
    pub closed spec fn spec_patterns(&self) -> Seq<Seq<char>> {
        self.ocr.spec_patterns()
    }

    pub closed spec fn spec_stage(&self) -> Stage {
        self.stage
    }

    /// Every path received so far, in order.
    pub closed spec fn spec_received(&self) -> Seq<Seq<char>> {
        self.received@
    }

    /// Every image handled to its end so far, in order, with its outcome.
    pub closed spec fn spec_resolved(&self) -> Seq<(Seq<char>, Outcome)> {
        self.resolved@
    }

    /// The images resolved are the first ones received, in the same order;
    /// at most the last one received is still being handled.
    pub open spec fn wf(&self) -> bool {
        let rec = self.spec_received();
        let res = self.spec_resolved();
        &&& forall|i: int| 0 <= i < res.len() ==> (#[trigger] res[i]).0 == rec[i]
        &&& match current_image(self.spec_stage()) {
            Some(p) => res.len() + 1 == rec.len() && rec.last() == p,
            None => res.len() == rec.len(),
        }
    }

    /// A worker that waits for its first image.
    pub fn new(ocr: Ocr) -> (w: Worker)
        ensures
            w.wf(),
            w.spec_patterns() == ocr.spec_patterns(),
            w.spec_stage() is Receiving,
            w.spec_received().len() == 0,
            w.spec_resolved().len() == 0,
    {
        Worker {
            ocr,
            stage: Stage::Receiving,
            received: Ghost(Seq::empty()),
            resolved: Ghost(Seq::empty()),
        }
    }

    /// The engine that reads the images' text.
    pub fn ocr(&self) -> (r: &Ocr)
        ensures
            r.spec_patterns() == self.spec_patterns(),
    {
        &self.ocr
    }

    /// Whether the worker has stopped for good.
    pub fn is_stopped(&self) -> (r: bool)
        ensures
            r == (self.spec_stage() is Stopped),
    {
        match self.stage {
            Stage::Stopped => true,
            _ => false,
        }
    }

    /// Takes one event and returns the next action.
    ///
    /// A received path is sent to text extraction. Its text routes it to a
    /// crop when a pattern matches and to deletion otherwise; an image whose
    /// text cannot be extracted is deleted. When the deletion or crop is
    /// reported, done or failed, the image is resolved and the worker waits
    /// for the next path. A closed channel stops the worker, which stays
    /// stopped. An event that does not fit the stage changes nothing and the
    /// pending action is asked again.
    pub fn step(&mut self, event: Event) -> (a: Action)
        requires
            old(self).wf(),
        ensures
            final(self).wf(),
            final(self).spec_patterns() == old(self).spec_patterns(),
            a == pending_action_spec(final(self).spec_stage()),
            step_rel(*old(self), event, *final(self)),
    {
        let next = match (&self.stage, event) {
            (Stage::Receiving, Event::Received(p)) => {
                self.received = Ghost(self.received@.push(p@));
                Stage::Extracting(p)
            },
            (Stage::Receiving, Event::Closed) => Stage::Stopped,
            (Stage::Extracting(p), Event::TextExtracted(t)) => {
                match self.ocr.route(t.as_str()) {
                    Route::Crop => Stage::Cropping(p.clone()),
                    Route::Delete => Stage::Deleting(p.clone()),
                }
            },
            (Stage::Extracting(p), Event::ExtractionFailed) => Stage::Deleting(p.clone()),
            (Stage::Deleting(p), Event::Done) => {
                self.resolved = Ghost(self.resolved@.push((p@, Outcome::Deleted)));
                Stage::Receiving
            },
            (Stage::Cropping(p), Event::Done) => {
                self.resolved = Ghost(self.resolved@.push((p@, Outcome::Cropped)));
                Stage::Receiving
            },
            (Stage::Deleting(p), Event::Failed) => {
                self.resolved = Ghost(self.resolved@.push((p@, Outcome::Failed)));
                Stage::Receiving
            },
            (Stage::Cropping(p), Event::Failed) => {
                self.resolved = Ghost(self.resolved@.push((p@, Outcome::Failed)));
                Stage::Receiving
            },
            _ => {
                return self.pending_action();
            },
        };
        self.stage = next;
        self.pending_action()
    }

    /// The action that the current stage waits on.
    pub fn pending_action(&self) -> (a: Action)
        ensures
            a == pending_action_spec(self.spec_stage()),
    {
        match &self.stage {
            Stage::Receiving => Action::Receive,
            Stage::Extracting(p) => Action::ExtractText(p.clone()),
            Stage::Deleting(p) => Action::Delete(p.clone()),
            Stage::Cropping(p) => Action::Crop(p.clone()),
            Stage::Stopped => Action::Stop,
        }
    }
}


/// At rest, waiting or stopped, the worker has resolved every image it
/// received exactly once, each with a single outcome, in the order received.
pub proof fn lemma_at_rest_every_image_resolved(w: Worker)
    requires
        w.wf(),
        w.spec_stage() is Receiving || w.spec_stage() is Stopped,
    ensures
        w.spec_resolved().len() == w.spec_received().len(),
        forall|i: int|
            0 <= i < w.spec_resolved().len() ==> (#[trigger] w.spec_resolved()[i]).0
                == w.spec_received()[i],
{
}

/// A step only appends to the record of received images and to the record
/// of resolved ones, and keeps the well-formedness that pairs the i-th
/// resolved image with the i-th received: images are handled first in,
/// first out.
pub proof fn lemma_step_keeps_order(before: Worker, event: Event, after: Worker)
    requires
        before.wf(),
        step_rel(before, event, after),
    ensures
        after.wf(),
        before.spec_received().is_prefix_of(after.spec_received()),
        before.spec_resolved().is_prefix_of(after.spec_resolved()),
{
    let rb = before.spec_received();
    let sb = before.spec_resolved();
    let ra = after.spec_received();
    let sa = after.spec_resolved();
    assert(forall|i: int| 0 <= i < rb.len() ==> rb[i] == ra[i]) by {
        if ra != rb {
            assert forall|i: int| 0 <= i < rb.len() implies rb[i] == ra[i] by {
                assert(ra[i] == rb.push(ra.last())[i]);
            }
        }
    }
    assert(forall|i: int| 0 <= i < sb.len() ==> sb[i] == sa[i]) by {
        if sa != sb {
            assert forall|i: int| 0 <= i < sb.len() implies sb[i] == sa[i] by {
                assert(sa[i] == sb.push(sa.last())[i]);
            }
        }
    }
    assert forall|i: int| 0 <= i < sa.len() implies (#[trigger] sa[i]).0 == ra[i] by {
        if i < sb.len() {
            assert(sb[i].0 == rb[i]);
        }
    }
}

/// Closing the channel while waiting stops the worker with every received
/// image resolved.
pub proof fn lemma_close_stops(before: Worker, after: Worker)
    requires
        before.wf(),
        before.spec_stage() is Receiving,
        step_rel(before, Event::Closed, after),
    ensures
        after.spec_stage() is Stopped,
        after.spec_resolved() == before.spec_resolved(),
        after.spec_resolved().len() == after.spec_received().len(),
{
}

/// Closing the channel while an image is in hand does not interrupt it: the
/// worker stays where it is and asks again for the pending action.
pub proof fn lemma_close_finishes_current(before: Worker, after: Worker)
    requires
        before.wf(),
        current_image(before.spec_stage()) is Some,
        step_rel(before, Event::Closed, after),
    ensures
        after.spec_stage() == before.spec_stage(),
        after.spec_resolved() == before.spec_resolved(),
{
}

/// A stopped worker stays stopped, whatever it is told.
pub proof fn lemma_stopped_is_final(before: Worker, event: Event, after: Worker)
    requires
        before.spec_stage() is Stopped,
        step_rel(before, event, after),
    ensures
        after.spec_stage() is Stopped,
        pending_action_spec(after.spec_stage()) == Action::Stop,
        after.spec_received() == before.spec_received(),
        after.spec_resolved() == before.spec_resolved(),
{
}


/// How many reported events the current image still needs before the worker
/// waits again.
pub open spec fn steps_to_rest(stage: Stage) -> nat {
    match stage {
        Stage::Extracting(_) => 2,
        Stage::Deleting(_) => 1,
        Stage::Cropping(_) => 1,
        _ => 0,
    }
}

/// Whether `event` answers the action that `stage` waits on.
pub open spec fn answers(stage: Stage, event: Event) -> bool {
    match (stage, event) {
        (Stage::Receiving, Event::Received(_)) => true,
        (Stage::Receiving, Event::Closed) => true,
        (Stage::Extracting(_), Event::TextExtracted(_)) => true,
        (Stage::Extracting(_), Event::ExtractionFailed) => true,
        (Stage::Deleting(_), Event::Done) => true,
        (Stage::Deleting(_), Event::Failed) => true,
        (Stage::Cropping(_), Event::Done) => true,
        (Stage::Cropping(_), Event::Failed) => true,
        _ => false,
    }
}

/// While an image is in hand, every answer brings the worker one step
/// closer to waiting again, so a closed channel is seen after at most two
/// answers.
pub proof fn lemma_answer_makes_progress(before: Worker, event: Event, after: Worker)
    requires
        current_image(before.spec_stage()) is Some,
        answers(before.spec_stage(), event),
        step_rel(before, event, after),
    ensures
        steps_to_rest(after.spec_stage()) < steps_to_rest(before.spec_stage()),
{
}

} // verus!
