//! What a self-test run says to its board and its reporter: the models of
//! [`crate::self_test::Platform`] and [`crate::self_test::Reporter`] that the
//! run's contracts are written over.
use vstd::prelude::*;
use crate::board::Xl9535Pin;
use crate::self_test::{CameraFrameStats, CaseOutcome, I2cDevice, Pull, SpiDevice, TouchPoint};

verus! {

/// A request made of the board, one per `Platform` method.
#[derive(Clone, Copy, Debug, PartialEq, Eq, Structural)]
pub enum PlatformRequest {
    DelayMs(u32),
    ProbeI2cDevice(I2cDevice),
    ProbeSpiDevice(SpiDevice),
    SetUserLed(bool),
    SetRgb(u8, u8, u8),
    LcdShowTestPattern,
    TouchInterruptAsserted,
    TouchRead,
    PlayTestTone(u16, u16),
    MicrophonePeak(u16),
    CaptureCameraFrame,
    ConfigureDirectInput(u8, Pull),
    ConfigureDirectOutput(u8, bool),
    WriteDirect(u8, bool),
    ReadDirect(u8),
    ConfigureXl9535Input(Xl9535Pin),
    ConfigureXl9535Output(Xl9535Pin, bool),
    WriteXl9535(Xl9535Pin, bool),
    ReadXl9535(Xl9535Pin),
    ClearXl9535Interrupt,
    Xl9535InterruptAsserted,
}

/// The board's answer to a request.
pub enum PlatformReply<E> {
    Done,
    Level(bool),
    Touch(Option<TouchPoint>),
    Peak(u16),
    Frame(CameraFrameStats),
    Failed(E),
}

/// One request with the answer that it got.
pub struct PlatformCall<E> {
    pub request: PlatformRequest,
    pub reply: PlatformReply<E>,
}

pub open spec fn call<E>(request: PlatformRequest, reply: PlatformReply<E>) -> PlatformCall<E> {
    PlatformCall { request, reply }
}

pub open spec fn done_reply<E>(r: Result<(), E>) -> PlatformReply<E> {
    match r {
        Ok(_) => PlatformReply::Done,
        Err(e) => PlatformReply::Failed(e),
    }
}

pub open spec fn level_reply<E>(r: Result<bool, E>) -> PlatformReply<E> {
    match r {
        Ok(b) => PlatformReply::Level(b),
        Err(e) => PlatformReply::Failed(e),
    }
}

pub open spec fn touch_reply<E>(r: Result<Option<TouchPoint>, E>) -> PlatformReply<E> {
    match r {
        Ok(p) => PlatformReply::Touch(p),
        Err(e) => PlatformReply::Failed(e),
    }
}

pub open spec fn peak_reply<E>(r: Result<u16, E>) -> PlatformReply<E> {
    match r {
        Ok(p) => PlatformReply::Peak(p),
        Err(e) => PlatformReply::Failed(e),
    }
}

pub open spec fn frame_reply<E>(r: Result<CameraFrameStats, E>) -> PlatformReply<E> {
    match r {
        Ok(s) => PlatformReply::Frame(s),
        Err(e) => PlatformReply::Failed(e),
    }
}

/// Whether the call failed.
pub open spec fn failed<E>(c: PlatformCall<E>) -> bool {
    c.reply is Failed
}

/// Whether the call answered a high level.
pub open spec fn high<E>(c: PlatformCall<E>) -> bool {
    c.reply matches PlatformReply::Level(level) && level
}

/// `calls` made the requests of `script` in order and stopped right after
/// the first failure, or at the end of the script.
pub open spec fn runs_script<E>(calls: Seq<PlatformCall<E>>, script: Seq<PlatformRequest>) -> bool {
    &&& 0 < calls.len() <= script.len()
    &&& forall|i: int| 0 <= i < calls.len() ==> (#[trigger] calls[i]).request == script[i]
    &&& forall|i: int| 0 <= i < calls.len() - 1 ==> !failed(#[trigger] calls[i])
    &&& calls.len() < script.len() ==> failed(calls.last())
}

/// `calls` went through the whole script without a failure.
pub open spec fn completes<E>(calls: Seq<PlatformCall<E>>, script: Seq<PlatformRequest>) -> bool {
    calls.len() == script.len() && !failed(calls.last())
}

/// Something that the run told or asked its reporter.
pub enum ReportEvent {
    BeginCase(&'static str, &'static str),
    Note(&'static str),
    Confirm(&'static str, bool),
    EndCase(CaseOutcome),
    /// A note whose text was built at run time.
    Detail(Seq<char>),
}

/// A run-time note that begins with `lead`; the rest of its text is the
/// `Debug` text of an error.
pub open spec fn error_note(e: ReportEvent, lead: Seq<char>) -> bool {
    e matches ReportEvent::Detail(text) && lead.len() <= text.len() && text.subrange(0, lead.len() as int) == lead
}

/// The events between a case's begin and end are exactly one error note
/// beginning with `lead`.
pub open spec fn error_only(mid: Seq<ReportEvent>, lead: Seq<char>) -> bool {
    mid.len() == 1 && error_note(mid[0], lead)
}

/// The operator's answer in a confirmation event; an event that asked
/// nothing counts as yes.
pub open spec fn said_yes(e: ReportEvent) -> bool {
    match e {
        ReportEvent::Confirm(_, yes) => yes,
        _ => true,
    }
}

/// `after` is `before` with more at its end.
#[verifier::opaque]
pub open spec fn extends<T>(before: Seq<T>, after: Seq<T>) -> bool {
    before.len() <= after.len() && after.take(before.len() as int) == before
}

/// What `after` has beyond `before`.
#[verifier::opaque]
pub open spec fn appended<T>(before: Seq<T>, after: Seq<T>) -> Seq<T> {
    after.skip(before.len() as int)
}

pub proof fn lemma_appended<T>(before: Seq<T>, added: Seq<T>)
    ensures
        extends(before, before + added),
        appended(before, before + added) == added,
{
    reveal(extends);
    reveal(appended);
    assert((before + added).take(before.len() as int) =~= before);
    assert((before + added).skip(before.len() as int) =~= added);
}

/// The confirmations asked, with their answers, in order.
pub open spec fn confirms(events: Seq<ReportEvent>) -> Seq<ReportEvent>
    decreases events.len(),
{
    if events.len() == 0 {
        Seq::empty()
    } else {
        confirms(events.drop_last()) + if events.last() is Confirm {
            seq![events.last()]
        } else {
            Seq::empty()
        }
    }
}

/// The case identifiers begun, in order.
pub open spec fn begun(events: Seq<ReportEvent>) -> Seq<&'static str>
    decreases events.len(),
{
    if events.len() == 0 {
        Seq::empty()
    } else {
        begun(events.drop_last()) + match events.last() {
            ReportEvent::BeginCase(id, _) => seq![id],
            _ => Seq::empty(),
        }
    }
}

/// The outcomes reported, in order.
pub open spec fn ended(events: Seq<ReportEvent>) -> Seq<CaseOutcome>
    decreases events.len(),
{
    if events.len() == 0 {
        Seq::empty()
    } else {
        ended(events.drop_last()) + match events.last() {
            ReportEvent::EndCase(outcome) => seq![outcome],
            _ => Seq::empty(),
        }
    }
}

/// Exactly one confirmation was asked, with `prompt`.
pub open spec fn asks_once(events: Seq<ReportEvent>, prompt: &'static str) -> bool {
    &&& confirms(events).len() == 1
    &&& (confirms(events)[0] matches ReportEvent::Confirm(p, _) && p == prompt)
}

/// The operator's answer to the one confirmation asked, or yes when none was.
pub open spec fn answer(events: Seq<ReportEvent>) -> bool {
    if confirms(events).len() == 1 {
        confirms(events)[0] matches ReportEvent::Confirm(_, yes) && yes
    } else {
        true
    }
}

/// The events of one case: begun with `id` and `description`, ended with
/// `outcome`, and only notes, run-time notes and confirmations in between.
pub open spec fn case_block(
    events: Seq<ReportEvent>,
    id: &'static str,
    description: &'static str,
    outcome: CaseOutcome,
) -> bool {
    &&& events.len() >= 2
    &&& events[0] == ReportEvent::BeginCase(id, description)
    &&& events.last() == ReportEvent::EndCase(outcome)
    &&& forall|i: int| 0 < i < events.len() - 1 ==> (#[trigger] events[i] is Note || events[i] is Confirm || events[i] is Detail)
}

/// The events of a skipped case.
pub open spec fn skip_block(
    events: Seq<ReportEvent>,
    id: &'static str,
    description: &'static str,
    reason: &'static str,
) -> bool {
    events == seq![
        ReportEvent::BeginCase(id, description),
        ReportEvent::Note(reason),
        ReportEvent::EndCase(CaseOutcome::Skipped),
    ]
}

pub proof fn lemma_filters_push(events: Seq<ReportEvent>, e: ReportEvent)
    ensures
        confirms(events.push(e)) == confirms(events) + if e is Confirm {
            seq![e]
        } else {
            Seq::empty()
        },
        begun(events.push(e)) == begun(events) + match e {
            ReportEvent::BeginCase(id, _) => seq![id],
            _ => Seq::empty(),
        },
        ended(events.push(e)) == ended(events) + match e {
            ReportEvent::EndCase(outcome) => seq![outcome],
            _ => Seq::empty(),
        },
{
    assert(events.push(e).drop_last() =~= events);
}

pub proof fn lemma_filters_append(a: Seq<ReportEvent>, b: Seq<ReportEvent>)
    ensures
        confirms(a + b) == confirms(a) + confirms(b),
        begun(a + b) == begun(a) + begun(b),
        ended(a + b) == ended(a) + ended(b),
    decreases b.len(),
{
    if b.len() == 0 {
        assert(a + b =~= a);
        assert(confirms(a) + confirms(b) =~= confirms(a));
        assert(begun(a) + begun(b) =~= begun(a));
        assert(ended(a) + ended(b) =~= ended(a));
    } else {
        lemma_filters_append(a, b.drop_last());
        assert((a + b).drop_last() =~= a + b.drop_last());
        assert((a + b).last() == b.last());
        let c = if b.last() is Confirm {
            seq![b.last()]
        } else {
            Seq::<ReportEvent>::empty()
        };
        assert(confirms(a) + confirms(b.drop_last()) + c =~= confirms(a) + (confirms(b.drop_last()) + c));
        let g = match b.last() {
            ReportEvent::BeginCase(id, _) => seq![id],
            _ => Seq::<&'static str>::empty(),
        };
        assert(begun(a) + begun(b.drop_last()) + g =~= begun(a) + (begun(b.drop_last()) + g));
        let o = match b.last() {
            ReportEvent::EndCase(outcome) => seq![outcome],
            _ => Seq::<CaseOutcome>::empty(),
        };
        assert(ended(a) + ended(b.drop_last()) + o =~= ended(a) + (ended(b.drop_last()) + o));
    }
}

pub broadcast proof fn lemma_concat_push<T>(a: Seq<T>, b: Seq<T>, c: T)
    ensures
        #[trigger] (a + b).push(c) == a + b.push(c),
{
    assert((a + b).push(c) =~= a + b.push(c));
}

pub broadcast proof fn lemma_concat_assoc<T>(a: Seq<T>, b: Seq<T>, c: Seq<T>)
    ensures
        #[trigger] ((a + b) + c) == a + (b + c),
{
    assert((a + b) + c =~= a + (b + c));
}

pub proof fn lemma_extends_refl<T>(a: Seq<T>)
    ensures
        extends(a, a),
        appended(a, a) == Seq::<T>::empty(),
{
    reveal(extends);
    reveal(appended);
    assert(a.take(a.len() as int) =~= a);
    assert(a.skip(a.len() as int) =~= Seq::<T>::empty());
}

pub proof fn lemma_extends_split<T>(before: Seq<T>, after: Seq<T>)
    requires
        extends(before, after),
    ensures
        after == before + appended(before, after),
{
    reveal(extends);
    reveal(appended);
    assert(after =~= before + appended(before, after));
}

} // verus!
